use vstd::prelude::*;
use crate::aggregate::{group_views, grouped, lemma_groups_nonempty};
use crate::client::PortType;
use crate::correlation::{
    has_remote, has_subject, lemma_resolution_is_monotonic, one_to_one, resolve_link, resolved,
    CorrelationStore, EntryView,
};
use crate::models::{texts, ConnectableDTO, ConnectableView, ConnectionEntity, ConnectionView,
    ConnectionTargetType, VariableDTO};
use crate::pairs::{find_pair, keys_distinct, lemma_pair_find_none, pair_find, pair_views, PairsView};
use crate::provision::{config_entries, configuration, variables, variables_of};
use crate::queries::QueryKind;
use crate::sparql::{
    attribute_results, channel_results, execute_query, get_channel_solutions,
    get_parameter_solutions, kept, link_results, views_of, AttributeView, ChannelSolution,
    ChannelView, LinkView, NifiLinkQueryOutput, QuerySolutionOutput,
};
use crate::term::{Row, RowView, Term, TermKind, TermView};

verus! {

/// The part of a run: process entities first, then writer channels, then
/// reader channels.
#[derive(Clone, Copy, Debug, PartialEq, Eq, Structural)]
pub enum Stage {
    Processes,
    Writers,
    Readers,
}

/// The direction of the port that stands for a channel: a writer channel is
/// written to through an input port, a reader channel is read from through
/// an output port.
pub open spec fn port_direction(stage: Stage) -> PortType {
    match stage {
        Stage::Readers => PortType::Output,
        _ => PortType::Input,
    }
}

/// The query for the links of a stage.
pub open spec fn link_query(stage: Stage) -> QueryKind {
    match stage {
        Stage::Processes => QueryKind::Links,
        Stage::Writers => QueryKind::WriterLinks,
        Stage::Readers => QueryKind::ReaderLinks,
    }
}

/// Whether the links of a stage carry a relationship: those that start at a
/// process do, those that start at a reader channel's port do not.
pub open spec fn links_keyed(stage: Stage) -> bool {
    stage != Stage::Readers
}

impl Stage {
    pub fn direction(self) -> (d: PortType)
        ensures
            d == port_direction(self),
    {
        match self {
            Stage::Readers => PortType::Output,
            _ => PortType::Input,
        }
    }

    pub fn link_kind(self) -> (k: QueryKind)
        ensures
            k == link_query(self),
    {
        match self {
            Stage::Processes => QueryKind::Links,
            Stage::Writers => QueryKind::WriterLinks,
            Stage::Readers => QueryKind::ReaderLinks,
        }
    }

    pub fn keyed(self) -> (k: bool)
        ensures
            k == links_keyed(self),
    {
        match self {
            Stage::Readers => false,
            _ => true,
        }
    }
}

/// What the run waits for: the answer to the action it gave last.
#[derive(Clone, Copy, Debug, PartialEq, Eq, Structural)]
pub enum Phase {
    Idle,
    Query,
    Create,
    Record,
    Update,
    LinkQuery,
    Connect,
    LinkSkip,
    Upload,
    Instantiate,
    Ports,
    RecordPort,
    Variables,
    ChannelSkip,
    Delete,
    StartGroup,
    StartProcessor,
    Finished,
}

/// Something the run passes over, for the caller to report.
#[derive(Clone, Copy, Debug, PartialEq, Eq, Structural)]
pub enum Diagnostic {
    /// An end of the link at this place has not been provisioned.
    LinkDropped(usize),
    /// The type of the channel entity at this place is no named node.
    ChannelTypeUnnamed(usize),
    /// No template is known for the type of the channel entity at this place.
    NoTemplate(usize),
}

/// The counts of a run.
#[derive(Clone, Copy, Debug, PartialEq, Eq, Structural)]
pub struct Summary {
    /// Entities provisioned to the end.
    pub created: usize,
    /// Entities abandoned and operations that failed.
    pub failed: usize,
    /// Connections created.
    pub connected: usize,
    /// Links dropped for want of a correlation.
    pub dropped: usize,
    /// Whether a query failed, which ends the run.
    pub fatal: bool,
}

/// One more, short of overflow.
pub open spec fn bump(n: usize) -> usize {
    if n < usize::MAX {
        (n + 1) as usize
    } else {
        n
    }
}

fn bumped(n: usize) -> (r: usize)
    ensures
        r == bump(n),
{
    if n < usize::MAX {
        n + 1
    } else {
        n
    }
}

/// What the caller is to do next.
#[derive(Clone, Debug, PartialEq, Eq)]
pub enum Action {
    /// Put a query to the graph; answer with its rows.
    Query(QueryKind),
    /// Create a processor of the engine type; answer with the component.
    CreateProcessor { ty: String },
    /// Write the identifier of the subject back into the graph, as a simple
    /// literal under the reserved property.
    RecordCorrelation { subject: Term, remote_id: String },
    /// Set the properties of a processor, in order: a later assignment
    /// replaces an earlier one of its key.
    UpdateProcessor { id: String, properties: Vec<(String, String)> },
    /// Create the connection, in the group that the run works in.
    CreateConnection(ConnectionEntity),
    /// Upload the template at the location; answer with its identifier.
    UploadTemplate { location: String },
    /// Instantiate the template; answer with the identifier of the first
    /// process group that came of it.
    InstantiateTemplate { template_id: String },
    /// List the ports of the group in one direction.
    GetPorts { group: String, direction: PortType },
    /// Replace the variables of the group.
    SetVariables { group: String, variables: Vec<VariableDTO> },
    DeleteTemplate { template_id: String },
    /// Enable the services of the group, then run it.
    StartProcessGroup { group: String },
    StartProcessor { id: String },
    /// Report what was passed over; answer with `Done`.
    Report(Diagnostic),
    /// The run is over.
    Finish(Summary),
}

pub enum ActionView {
    Query(QueryKind),
    CreateProcessor { ty: Seq<char> },
    RecordCorrelation { subject: TermView, remote_id: Seq<char> },
    UpdateProcessor { id: Seq<char>, properties: PairsView },
    CreateConnection(ConnectionView),
    UploadTemplate { location: Seq<char> },
    InstantiateTemplate { template_id: Seq<char> },
    GetPorts { group: Seq<char>, direction: PortType },
    SetVariables { group: Seq<char>, variables: PairsView },
    DeleteTemplate { template_id: Seq<char> },
    StartProcessGroup { group: Seq<char> },
    StartProcessor { id: Seq<char> },
    Report(Diagnostic),
    Finish(Summary),
}

impl View for Action {
    type V = ActionView;

    open spec fn view(&self) -> ActionView {
        match self {
            Action::Query(k) => ActionView::Query(*k),
            Action::CreateProcessor { ty } => ActionView::CreateProcessor { ty: ty@ },
            Action::RecordCorrelation { subject, remote_id } => ActionView::RecordCorrelation {
                subject: subject@,
                remote_id: remote_id@,
            },
            Action::UpdateProcessor { id, properties } => ActionView::UpdateProcessor {
                id: id@,
                properties: pair_views(properties@),
            },
            Action::CreateConnection(c) => ActionView::CreateConnection(c@),
            Action::UploadTemplate { location } => ActionView::UploadTemplate {
                location: location@,
            },
            Action::InstantiateTemplate { template_id } => ActionView::InstantiateTemplate {
                template_id: template_id@,
            },
            Action::GetPorts { group, direction } => ActionView::GetPorts {
                group: group@,
                direction: *direction,
            },
            Action::SetVariables { group, variables } => ActionView::SetVariables {
                group: group@,
                variables: views_of(variables@),
            },
            Action::DeleteTemplate { template_id } => ActionView::DeleteTemplate {
                template_id: template_id@,
            },
            Action::StartProcessGroup { group } => ActionView::StartProcessGroup { group: group@ },
            Action::StartProcessor { id } => ActionView::StartProcessor { id: id@ },
            Action::Report(d) => ActionView::Report(*d),
            Action::Finish(s) => ActionView::Finish(*s),
        }
    }
}

/// What came of the action the run gave last.
#[derive(Clone, Debug, PartialEq, Eq)]
pub enum Event {
    /// The run is to begin.
    Start,
    /// The rows of a query.
    Rows(Vec<Row>),
    /// The component that was created.
    Component(ConnectableDTO),
    /// The identifier of what was uploaded or instantiated.
    Identifier(String),
    /// The ports that were listed.
    Ports(Vec<ConnectableDTO>),
    /// The action succeeded and has nothing to hand back.
    Done,
    /// The action failed.
    Failed,
}

pub enum EventView {
    Start,
    Rows(Seq<RowView>),
    Component(ConnectableView),
    Identifier(Seq<char>),
    Ports(Seq<ConnectableView>),
    Done,
    Failed,
}

impl View for Event {
    type V = EventView;

    open spec fn view(&self) -> EventView {
        match self {
            Event::Start => EventView::Start,
            Event::Rows(rows) => EventView::Rows(views_of(rows@)),
            Event::Component(c) => EventView::Component(c@),
            Event::Identifier(id) => EventView::Identifier(id@),
            Event::Ports(ports) => EventView::Ports(views_of(ports@)),
            Event::Done => EventView::Done,
            Event::Failed => EventView::Failed,
        }
    }
}

/// The state of a run as a value.
pub struct RunView {
    /// Whether what is provisioned is also to be started.
    pub start: bool,
    /// Where the template of each channel type lies.
    pub locations: PairsView,
    pub stage: Stage,
    pub phase: Phase,
    /// The place, in the list being walked, of the item at hand.
    pub cursor: int,
    /// The process entities, each with its attribute records.
    pub entities: Seq<Seq<AttributeView>>,
    /// The channel entities of the stage, each with its records.
    pub channels: Seq<Seq<ChannelView>>,
    /// The links of the stage.
    pub links: Seq<LinkView>,
    /// The correlations recorded so far.
    pub store: Seq<EntryView>,
    /// The templates uploaded so far: channel type and template identifier.
    pub templates: PairsView,
    /// The process groups that came of templates and were configured.
    pub groups: Seq<Seq<char>>,
    /// The processors that were created.
    pub processors: Seq<Seq<char>>,
    /// The component reported last.
    pub current: ConnectableView,
    /// The process group instantiated last.
    pub group: Seq<char>,
    pub summary: Summary,
}

/// Every group holds at least one record.
pub open spec fn no_group_empty<V>(groups: Seq<Seq<V>>) -> bool {
    forall|g: int| 0 <= g < groups.len() ==> (#[trigger] groups[g]).len() > 0
}

/// What holds of a run in every phase.
pub open spec fn sound(s: RunView) -> bool {
    &&& one_to_one(s.store)
    &&& keys_distinct(s.templates)
    &&& no_group_empty(s.entities)
    &&& no_group_empty(s.channels)
    &&& 0 <= s.cursor
}

/// Whether the phase walks the process entities.
pub open spec fn at_entity(p: Phase) -> bool {
    p == Phase::Create || p == Phase::Record || p == Phase::Update
}

/// Whether the phase walks the links.
pub open spec fn at_link(p: Phase) -> bool {
    p == Phase::Connect || p == Phase::LinkSkip
}

/// Whether the phase walks the channel entities.
pub open spec fn at_channel(p: Phase) -> bool {
    p == Phase::Upload || p == Phase::Instantiate || p == Phase::Ports || p == Phase::RecordPort
        || p == Phase::Variables || p == Phase::ChannelSkip
}

/// What holds of a run between two steps: it is sound, and the item that the
/// phase works on exists.
pub open spec fn valid(s: RunView) -> bool {
    &&& sound(s)
    &&& at_entity(s.phase) ==> s.cursor < s.entities.len()
    &&& at_link(s.phase) ==> s.cursor < s.links.len()
    &&& at_channel(s.phase) ==> s.cursor < s.channels.len()
    &&& s.phase == Phase::Upload ==> pair_find(
        s.templates,
        s.channels[s.cursor][0].channel_type.1,
    ) is None
    &&& s.phase == Phase::Delete ==> s.cursor < s.templates.len()
    &&& s.phase == Phase::StartGroup ==> s.cursor < s.groups.len()
    &&& s.phase == Phase::StartProcessor ==> s.cursor < s.processors.len()
}

/// The run with the item at hand given up.
pub open spec fn given_up(s: RunView) -> RunView {
    RunView {
        cursor: s.cursor + 1,
        summary: Summary { failed: bump(s.summary.failed), ..s.summary },
        ..s
    }
}

/// The end of the run.
pub open spec fn finish(s: RunView) -> (RunView, ActionView) {
    (RunView { phase: Phase::Finished, ..s }, ActionView::Finish(s.summary))
}

/// Starting the processors from the cursor on, where starting was asked for.
pub open spec fn enter_start_processor(s: RunView) -> (RunView, ActionView) {
    if s.start && s.cursor < s.processors.len() {
        (
            RunView { phase: Phase::StartProcessor, ..s },
            ActionView::StartProcessor { id: s.processors[s.cursor] },
        )
    } else {
        finish(s)
    }
}

/// Starting the process groups from the cursor on, where starting was asked
/// for; the processors follow.
pub open spec fn enter_start_group(s: RunView) -> (RunView, ActionView) {
    if s.start && s.cursor < s.groups.len() {
        (
            RunView { phase: Phase::StartGroup, ..s },
            ActionView::StartProcessGroup { group: s.groups[s.cursor] },
        )
    } else {
        enter_start_processor(RunView { cursor: 0, ..s })
    }
}

/// Deleting the uploaded templates from the cursor on; starting follows.
pub open spec fn enter_delete(s: RunView) -> (RunView, ActionView) {
    if s.cursor < s.templates.len() {
        (
            RunView { phase: Phase::Delete, ..s },
            ActionView::DeleteTemplate { template_id: s.templates[s.cursor].1 },
        )
    } else {
        enter_start_group(RunView { cursor: 0, ..s })
    }
}

/// Wiring the link under the cursor: a connection where both ends are
/// correlated, a diagnostic where one is missing. After the last link the
/// next stage begins, and after the last stage the cleanup.
pub open spec fn enter_link(s: RunView) -> (RunView, ActionView) {
    if s.cursor < s.links.len() {
        match resolved(s.store, s.links[s.cursor]) {
            Some(c) => (RunView { phase: Phase::Connect, ..s }, ActionView::CreateConnection(c)),
            None => (
                RunView { phase: Phase::LinkSkip, ..s },
                ActionView::Report(Diagnostic::LinkDropped(s.cursor as usize)),
            ),
        }
    } else {
        match s.stage {
            Stage::Processes => (
                RunView { phase: Phase::Query, stage: Stage::Writers, cursor: 0, ..s },
                ActionView::Query(QueryKind::Writers),
            ),
            Stage::Writers => (
                RunView { phase: Phase::Query, stage: Stage::Readers, cursor: 0, ..s },
                ActionView::Query(QueryKind::Readers),
            ),
            Stage::Readers => enter_delete(RunView { cursor: 0, ..s }),
        }
    }
}

/// Provisioning the process entity under the cursor; after the last one the
/// links are asked for.
pub open spec fn enter_entity(s: RunView) -> (RunView, ActionView) {
    if s.cursor < s.entities.len() {
        (
            RunView { phase: Phase::Create, ..s },
            ActionView::CreateProcessor { ty: s.entities[s.cursor][0].ty },
        )
    } else {
        (
            RunView { phase: Phase::LinkQuery, cursor: 0, ..s },
            ActionView::Query(link_query(s.stage)),
        )
    }
}

/// Provisioning the channel entity under the cursor: its template is
/// instantiated where one was uploaded for its type, uploaded where none
/// was and its location is known, and the entity is passed over otherwise.
/// After the last one the links are asked for.
pub open spec fn enter_channel(s: RunView) -> (RunView, ActionView) {
    if s.cursor < s.channels.len() {
        let ty = s.channels[s.cursor][0].channel_type;
        if ty.0 != TermKind::NamedNode {
            (
                RunView { phase: Phase::ChannelSkip, ..s },
                ActionView::Report(Diagnostic::ChannelTypeUnnamed(s.cursor as usize)),
            )
        } else {
            match pair_find(s.templates, ty.1) {
                Some(id) => (
                    RunView { phase: Phase::Instantiate, ..s },
                    ActionView::InstantiateTemplate { template_id: id },
                ),
                None => match pair_find(s.locations, ty.1) {
                    Some(location) => (
                        RunView { phase: Phase::Upload, ..s },
                        ActionView::UploadTemplate { location },
                    ),
                    None => (
                        RunView { phase: Phase::ChannelSkip, ..s },
                        ActionView::Report(Diagnostic::NoTemplate(s.cursor as usize)),
                    ),
                },
            }
        }
    } else {
        (
            RunView { phase: Phase::LinkQuery, cursor: 0, ..s },
            ActionView::Query(link_query(s.stage)),
        )
    }
}

/// Whether a correlation for the subject under the identifier can be
/// recorded: neither is taken.
pub open spec fn free(store: Seq<EntryView>, subject: TermView, id: Seq<char>) -> bool {
    !has_subject(store, subject) && !has_remote(store, id)
}

/// One step of a run: what the answer to the last action makes of the state,
/// and the action that follows.
pub open spec fn next(s: RunView, e: EventView) -> (RunView, ActionView) {
    match s.phase {
        Phase::Idle => (
            RunView { phase: Phase::Query, stage: Stage::Processes, cursor: 0, ..s },
            ActionView::Query(QueryKind::Processors),
        ),
        Phase::Query => match e {
            EventView::Rows(rows) => if s.stage == Stage::Processes {
                enter_entity(
                    RunView {
                        entities: grouped::<QuerySolutionOutput>(kept(attribute_results(rows))),
                        cursor: 0,
                        ..s
                    },
                )
            } else {
                enter_channel(
                    RunView {
                        channels: grouped::<ChannelSolution>(
                            kept(channel_results(rows, port_direction(s.stage))),
                        ),
                        cursor: 0,
                        ..s
                    },
                )
            },
            _ => finish(RunView { summary: Summary { fatal: true, ..s.summary }, ..s }),
        },
        Phase::Create => match e {
            EventView::Component(c) => (
                RunView { phase: Phase::Record, current: c, ..s },
                ActionView::RecordCorrelation {
                    subject: s.entities[s.cursor][0].subject,
                    remote_id: c.id,
                },
            ),
            _ => enter_entity(given_up(s)),
        },
        Phase::Record => match e {
            EventView::Done => {
                let subject = s.entities[s.cursor][0].subject;
                if !free(s.store, subject, s.current.id) {
                    enter_entity(given_up(s))
                } else {
                    let t = RunView {
                        store: s.store.push((subject, s.current)),
                        processors: s.processors.push(s.current.id),
                        ..s
                    };
                    match config_entries(s.entities[s.cursor]) {
                        Ok(properties) => (
                            RunView { phase: Phase::Update, ..t },
                            ActionView::UpdateProcessor { id: s.current.id, properties },
                        ),
                        Err(_) => enter_entity(given_up(t)),
                    }
                }
            },
            _ => enter_entity(given_up(s)),
        },
        Phase::Update => match e {
            EventView::Done => enter_entity(
                RunView {
                    cursor: s.cursor + 1,
                    summary: Summary { created: bump(s.summary.created), ..s.summary },
                    ..s
                },
            ),
            _ => enter_entity(given_up(s)),
        },
        Phase::LinkQuery => match e {
            EventView::Rows(rows) => enter_link(
                RunView { links: kept(link_results(rows, links_keyed(s.stage))), cursor: 0, ..s },
            ),
            _ => finish(RunView { summary: Summary { fatal: true, ..s.summary }, ..s }),
        },
        Phase::Connect => match e {
            EventView::Done => enter_link(
                RunView {
                    cursor: s.cursor + 1,
                    summary: Summary { connected: bump(s.summary.connected), ..s.summary },
                    ..s
                },
            ),
            _ => enter_link(given_up(s)),
        },
        Phase::LinkSkip => enter_link(
            RunView {
                cursor: s.cursor + 1,
                summary: Summary { dropped: bump(s.summary.dropped), ..s.summary },
                ..s
            },
        ),
        Phase::Upload => match e {
            EventView::Identifier(id) => (
                RunView {
                    phase: Phase::Instantiate,
                    templates: s.templates.push((s.channels[s.cursor][0].channel_type.1, id)),
                    ..s
                },
                ActionView::InstantiateTemplate { template_id: id },
            ),
            _ => enter_channel(given_up(s)),
        },
        Phase::Instantiate => match e {
            EventView::Identifier(group) => (
                RunView { phase: Phase::Ports, group, ..s },
                ActionView::GetPorts { group, direction: port_direction(s.stage) },
            ),
            _ => enter_channel(given_up(s)),
        },
        Phase::Ports => match e {
            EventView::Ports(ports) => if ports.len() > 0 {
                (
                    RunView { phase: Phase::RecordPort, current: ports[0], ..s },
                    ActionView::RecordCorrelation {
                        subject: s.channels[s.cursor][0].subject,
                        remote_id: ports[0].id,
                    },
                )
            } else {
                enter_channel(given_up(s))
            },
            _ => enter_channel(given_up(s)),
        },
        Phase::RecordPort => match e {
            EventView::Done => {
                let subject = s.channels[s.cursor][0].subject;
                if !free(s.store, subject, s.current.id) {
                    enter_channel(given_up(s))
                } else {
                    (
                        RunView {
                            phase: Phase::Variables,
                            store: s.store.push((subject, s.current)),
                            ..s
                        },
                        ActionView::SetVariables {
                            group: s.group,
                            variables: variables_of(s.channels[s.cursor]),
                        },
                    )
                }
            },
            _ => enter_channel(given_up(s)),
        },
        Phase::Variables => match e {
            EventView::Done => enter_channel(
                RunView {
                    cursor: s.cursor + 1,
                    groups: s.groups.push(s.group),
                    summary: Summary { created: bump(s.summary.created), ..s.summary },
                    ..s
                },
            ),
            _ => enter_channel(given_up(s)),
        },
        Phase::ChannelSkip => enter_channel(given_up(s)),
        Phase::Delete => match e {
            EventView::Done => enter_delete(RunView { cursor: s.cursor + 1, ..s }),
            _ => enter_delete(given_up(s)),
        },
        Phase::StartGroup => match e {
            EventView::Done => enter_start_group(RunView { cursor: s.cursor + 1, ..s }),
            _ => enter_start_group(given_up(s)),
        },
        Phase::StartProcessor => match e {
            EventView::Done => enter_start_processor(RunView { cursor: s.cursor + 1, ..s }),
            _ => enter_start_processor(given_up(s)),
        },
        Phase::Finished => (s, ActionView::Finish(s.summary)),
    }
}

/// Whether the first list is the beginning of the second.
pub open spec fn begins(short: PairsView, long: PairsView) -> bool {
    short.len() <= long.len() && long.take(short.len() as int) == short
}

/// Every step leaves a valid state valid. In particular the correlations
/// stay one-to-one and no channel type ever has two templates.
pub proof fn lemma_step_keeps_valid(s: RunView, e: EventView)
    requires
        valid(s),
    ensures
        valid(next(s, e).0),
{
    match e {
        EventView::Rows(rows) => {
            lemma_groups_nonempty::<QuerySolutionOutput>(kept(attribute_results(rows)));
            lemma_groups_nonempty::<ChannelSolution>(
                kept(channel_results(rows, port_direction(s.stage))),
            );
        },
        _ => {},
    }
    if s.phase == Phase::Upload {
        lemma_pair_find_none(s.templates, s.channels[s.cursor][0].channel_type.1);
    }
}

/// Template upload is memoized. A step asks for an upload only for a channel
/// type that has no template yet; a template, once uploaded, is kept to the
/// end of the run; and the templates are deleted by walking that list once,
/// in which no type stands twice: so each type is uploaded once and deleted
/// once, however many channel entities have it.
pub proof fn lemma_upload_is_memoized(s: RunView, e: EventView)
    requires
        valid(s),
    ensures
        keys_distinct(next(s, e).0.templates),
        begins(s.templates, next(s, e).0.templates),
        next(s, e).1 is UploadTemplate ==> pair_find(
            s.templates,
            next(s, e).0.channels[next(s, e).0.cursor][0].channel_type.1,
        ) is None,
        next(s, e).1 is DeleteTemplate ==> next(s, e).0.phase == Phase::Delete && next(
            s,
            e,
        ).1->DeleteTemplate_template_id == s.templates[next(s, e).0.cursor].1,
{
    lemma_step_keeps_valid(s, e);
    let t = next(s, e).0;
    if s.phase == Phase::Upload && e is Identifier {
        assert(t.templates.take(s.templates.len() as int) =~= s.templates);
    } else {
        assert(t.templates == s.templates);
        assert(t.templates.take(s.templates.len() as int) =~= s.templates);
    }
}

/// The state that a run reaches from a state through a series of events.
pub open spec fn run_from(s: RunView, events: Seq<EventView>) -> RunView
    decreases events.len(),
{
    if events.len() == 0 {
        s
    } else {
        next(run_from(s, events.drop_last()), events.last()).0
    }
}

/// How many templates were uploaded in the course of a series of events:
/// the answers with an identifier to a request for an upload.
pub open spec fn uploads_done(s: RunView, events: Seq<EventView>) -> nat
    decreases events.len(),
{
    if events.len() == 0 {
        0
    } else {
        let before = run_from(s, events.drop_last());
        let one: nat = if before.phase == Phase::Upload && events.last() is Identifier {
            1
        } else {
            0
        };
        uploads_done(s, events.drop_last()) + one
    }
}

/// Whatever the engine and the graph answer, a run stays valid: its
/// correlations are one-to-one at every moment, no subject with two
/// identifiers and no identifier with two subjects.
pub proof fn lemma_run_keeps_valid(s: RunView, events: Seq<EventView>)
    requires
        valid(s),
    ensures
        valid(run_from(s, events)),
        one_to_one(run_from(s, events).store),
    decreases events.len(),
{
    if events.len() > 0 {
        lemma_run_keeps_valid(s, events.drop_last());
        lemma_step_keeps_valid(run_from(s, events.drop_last()), events.last());
    }
}

/// Over a whole run, whatever is answered: every upload that succeeds adds
/// one template, nothing else does, and no channel type ever has two. So
/// there are as many uploads as channel types with a template, however many
/// channel entities share a type.
pub proof fn lemma_one_upload_for_each_type(s: RunView, events: Seq<EventView>)
    requires
        valid(s),
    ensures
        keys_distinct(run_from(s, events).templates),
        begins(s.templates, run_from(s, events).templates),
        run_from(s, events).templates.len() == s.templates.len() + uploads_done(s, events),
    decreases events.len(),
{
    if events.len() == 0 {
        assert(s.templates.take(s.templates.len() as int) =~= s.templates);
    } else {
        let before = run_from(s, events.drop_last());
        let after = run_from(s, events);
        lemma_one_upload_for_each_type(s, events.drop_last());
        lemma_run_keeps_valid(s, events.drop_last());
        lemma_upload_is_memoized(before, events.last());
        assert(after.templates.take(s.templates.len() as int) =~= before.templates.take(
            s.templates.len() as int,
        ));
    }
}

/// Whether the cleanup is over.
pub open spec fn cleaned_up(p: Phase) -> bool {
    p == Phase::StartGroup || p == Phase::StartProcessor || p == Phase::Finished
}

/// The uploaded templates are deleted in one walk over their list. The walk
/// begins at the first template, and only after the links of the last stage
/// are wired; every step of it asks for the deletion of the template under
/// the cursor and moves the cursor on by one, whether the deletion before
/// succeeded or not; the list does not change meanwhile; and once the walk is
/// over it does not begin again. So every template is deleted once.
pub proof fn lemma_templates_are_deleted_in_one_walk(s: RunView, e: EventView)
    requires
        valid(s),
    ensures
        next(s, e).1 is DeleteTemplate <==> next(s, e).0.phase == Phase::Delete,
        next(s, e).0.phase == Phase::Delete ==> {
            &&& next(s, e).0.templates == s.templates
            &&& next(s, e).0.cursor < s.templates.len()
            &&& next(s, e).1->DeleteTemplate_template_id == s.templates[next(s, e).0.cursor].1
            &&& if s.phase == Phase::Delete {
                next(s, e).0.cursor == s.cursor + 1
            } else {
                next(s, e).0.cursor == 0 && (at_link(s.phase) || s.phase == Phase::LinkQuery)
            }
        },
        cleaned_up(s.phase) ==> cleaned_up(next(s, e).0.phase),
        s.phase == Phase::Delete ==> next(s, e).0.phase == Phase::Delete || cleaned_up(
            next(s, e).0.phase,
        ),
{
}

/// A link is wired exactly when both of its ends are correlated: then the
/// step gives one request for a connection, from the source to the target
/// under the link's relationship; otherwise it gives a diagnostic and no
/// request.
pub proof fn lemma_link_is_wired_iff_correlated(s: RunView)
    requires
        0 <= s.cursor < s.links.len(),
    ensures
        has_remote(s.store, s.links[s.cursor].source_id) && has_remote(
            s.store,
            s.links[s.cursor].target_id,
        ) ==> enter_link(s).1 == ActionView::CreateConnection(
            resolved(s.store, s.links[s.cursor]).unwrap(),
        ),
        !(has_remote(s.store, s.links[s.cursor].source_id) && has_remote(
            s.store,
            s.links[s.cursor].target_id,
        )) ==> enter_link(s).1 == ActionView::Report(Diagnostic::LinkDropped(s.cursor as usize)),
{
    lemma_resolution_is_monotonic(s.store, Seq::empty(), s.links[s.cursor]);
}

/// The ontology that describes the channel types known from the start.
pub const WS_ONTOLOGY: &'static str = "./channels/ws_ontology.ttl";

/// The writer channel type known from the start, and where its template lies.
pub const WS_WRITER: &'static str = "https://w3id.org/conn#WsWriterChannel";

pub const WS_WRITER_TEMPLATE: &'static str = "./channels/WSWriter.xml";

/// The reader channel type known from the start, and where its template lies.
pub const WS_READER: &'static str = "https://w3id.org/conn#WsReaderChannel";

pub const WS_READER_TEMPLATE: &'static str = "./channels/WSReader.xml";

/// The template locations of the channel types known from the start.
pub fn default_locations() -> (locations: Vec<(String, String)>)
    ensures
        pair_views(locations@) == seq![
            (WS_WRITER@, WS_WRITER_TEMPLATE@),
            (WS_READER@, WS_READER_TEMPLATE@),
        ],
{
    let mut locations: Vec<(String, String)> = Vec::new();
    locations.push((WS_WRITER.to_owned(), WS_WRITER_TEMPLATE.to_owned()));
    locations.push((WS_READER.to_owned(), WS_READER_TEMPLATE.to_owned()));
    proof {
        assert(pair_views(locations@) =~= seq![
            (WS_WRITER@, WS_WRITER_TEMPLATE@),
            (WS_READER@, WS_READER_TEMPLATE@),
        ]);
    }
    locations
}

/// The state in which a run begins.
pub open spec fn initial(start: bool, locations: PairsView) -> RunView {
    RunView {
        start,
        locations,
        stage: Stage::Processes,
        phase: Phase::Idle,
        cursor: 0,
        entities: Seq::empty(),
        channels: Seq::empty(),
        links: Seq::empty(),
        store: Seq::empty(),
        templates: Seq::empty(),
        groups: Seq::empty(),
        processors: Seq::empty(),
        current: ConnectableView {
            id: Seq::empty(),
            ty: ConnectionTargetType::Processor,
            group_id: Seq::empty(),
        },
        group: Seq::empty(),
        summary: Summary { created: 0, failed: 0, connected: 0, dropped: 0, fatal: false },
    }
}

/// A run: it derives from the graph what is to be provisioned and hands out
/// one action at a time; the caller performs the action and hands back what
/// came of it.
pub struct Orchestrator {
    start: bool,
    locations: Vec<(String, String)>,
    stage: Stage,
    phase: Phase,
    cursor: usize,
    entities: Vec<Vec<QuerySolutionOutput>>,
    channels: Vec<Vec<ChannelSolution>>,
    links: Vec<NifiLinkQueryOutput>,
    store: CorrelationStore,
    templates: Vec<(String, String)>,
    groups: Vec<String>,
    processors: Vec<String>,
    current: ConnectableDTO,
    group: String,
    summary: Summary,
}

impl View for Orchestrator {
    type V = RunView;

    closed spec fn view(&self) -> RunView {
        RunView {
            start: self.start,
            locations: pair_views(self.locations@),
            stage: self.stage,
            phase: self.phase,
            cursor: self.cursor as int,
            entities: group_views(self.entities@),
            channels: group_views(self.channels@),
            links: views_of(self.links@),
            store: self.store@,
            templates: pair_views(self.templates@),
            groups: texts(self.groups@),
            processors: texts(self.processors@),
            current: self.current@,
            group: self.group@,
            summary: self.summary,
        }
    }
}

impl Orchestrator {
    /// A run is well formed when its state is valid.
    pub open spec fn wf(&self) -> bool {
        valid(self@)
    }

    /// A run that has not begun. `locations` says where the template of
    /// each channel type lies; `start` whether what is provisioned is also to
    /// be started.
    pub fn new(start: bool, locations: Vec<(String, String)>) -> (run: Orchestrator)
        ensures
            run.wf(),
            run@ == initial(start, pair_views(locations@)),
    {
        let run = Orchestrator {
            start,
            locations,
            stage: Stage::Processes,
            phase: Phase::Idle,
            cursor: 0,
            entities: Vec::new(),
            channels: Vec::new(),
            links: Vec::new(),
            store: CorrelationStore::new(),
            templates: Vec::new(),
            groups: Vec::new(),
            processors: Vec::new(),
            current: ConnectableDTO {
                id: String::new(),
                ty: ConnectionTargetType::Processor,
                group_id: String::new(),
            },
            group: String::new(),
            summary: Summary { created: 0, failed: 0, connected: 0, dropped: 0, fatal: false },
        };
        proof {
            assert(run@.entities =~= Seq::empty());
            assert(run@.channels =~= Seq::empty());
            assert(run@.links =~= Seq::empty());
            assert(run@.templates =~= Seq::empty());
            assert(run@.groups =~= Seq::empty());
            assert(run@.processors =~= Seq::empty());
        }
        run
    }

    /// The counts so far.
    pub fn summary(&self) -> (s: Summary)
        ensures
            s == self@.summary,
    {
        self.summary
    }

    /// Whether the run is over.
    pub fn is_finished(&self) -> (r: bool)
        ensures
            r == (self@.phase == Phase::Finished),
    {
        self.phase == Phase::Finished
    }

    /// The correlations recorded so far.
    pub fn correlations(&self) -> (store: &CorrelationStore)
        ensures
            store@ == self@.store,
    {
        &self.store
    }

    /// The lists of a run are no longer than a machine word can count.
    proof fn lengths_fit(&self)
        ensures
            self@.entities.len() <= usize::MAX,
            self@.channels.len() <= usize::MAX,
            self@.links.len() <= usize::MAX,
            self@.templates.len() <= usize::MAX,
            self@.groups.len() <= usize::MAX,
            self@.processors.len() <= usize::MAX,
    {
        vstd::std_specs::vec::axiom_spec_len(&self.entities);
        vstd::std_specs::vec::axiom_spec_len(&self.channels);
        vstd::std_specs::vec::axiom_spec_len(&self.links);
        vstd::std_specs::vec::axiom_spec_len(&self.templates);
        vstd::std_specs::vec::axiom_spec_len(&self.groups);
        vstd::std_specs::vec::axiom_spec_len(&self.processors);
    }

    fn give_up(&mut self)
        requires
            old(self)@.cursor < usize::MAX,
        ensures
            final(self)@ == given_up(old(self)@),
    {
        self.cursor = self.cursor + 1;
        self.summary.failed = bumped(self.summary.failed);
    }

    fn do_finish(&mut self) -> (action: Action)
        requires
            sound(old(self)@),
        ensures
            valid(final(self)@),
            (final(self)@, action@) == finish(old(self)@),
    {
        self.phase = Phase::Finished;
        Action::Finish(self.summary)
    }

    fn do_start_processor(&mut self) -> (action: Action)
        requires
            sound(old(self)@),
        ensures
            valid(final(self)@),
            (final(self)@, action@) == enter_start_processor(old(self)@),
    {
        if self.start && self.cursor < self.processors.len() {
            self.phase = Phase::StartProcessor;
            Action::StartProcessor { id: self.processors[self.cursor].clone() }
        } else {
            self.do_finish()
        }
    }

    fn do_start_group(&mut self) -> (action: Action)
        requires
            sound(old(self)@),
        ensures
            valid(final(self)@),
            (final(self)@, action@) == enter_start_group(old(self)@),
    {
        if self.start && self.cursor < self.groups.len() {
            self.phase = Phase::StartGroup;
            Action::StartProcessGroup { group: self.groups[self.cursor].clone() }
        } else {
            self.cursor = 0;
            self.do_start_processor()
        }
    }

    fn do_delete(&mut self) -> (action: Action)
        requires
            sound(old(self)@),
        ensures
            valid(final(self)@),
            (final(self)@, action@) == enter_delete(old(self)@),
    {
        if self.cursor < self.templates.len() {
            self.phase = Phase::Delete;
            Action::DeleteTemplate { template_id: self.templates[self.cursor].1.clone() }
        } else {
            self.cursor = 0;
            self.do_start_group()
        }
    }

    fn do_link(&mut self) -> (action: Action)
        requires
            sound(old(self)@),
        ensures
            valid(final(self)@),
            (final(self)@, action@) == enter_link(old(self)@),
    {
        if self.cursor < self.links.len() {
            match resolve_link(&self.store, &self.links[self.cursor]) {
                Some(c) => {
                    self.phase = Phase::Connect;
                    Action::CreateConnection(c)
                },
                None => {
                    self.phase = Phase::LinkSkip;
                    Action::Report(Diagnostic::LinkDropped(self.cursor))
                },
            }
        } else {
            match self.stage {
                Stage::Processes => {
                    self.phase = Phase::Query;
                    self.stage = Stage::Writers;
                    self.cursor = 0;
                    Action::Query(QueryKind::Writers)
                },
                Stage::Writers => {
                    self.phase = Phase::Query;
                    self.stage = Stage::Readers;
                    self.cursor = 0;
                    Action::Query(QueryKind::Readers)
                },
                Stage::Readers => {
                    self.cursor = 0;
                    self.do_delete()
                },
            }
        }
    }

    fn do_entity(&mut self) -> (action: Action)
        requires
            sound(old(self)@),
        ensures
            valid(final(self)@),
            (final(self)@, action@) == enter_entity(old(self)@),
    {
        if self.cursor < self.entities.len() {
            proof {
                assert(self@.entities[self.cursor as int].len() > 0);
            }
            self.phase = Phase::Create;
            Action::CreateProcessor { ty: self.entities[self.cursor][0].ty.clone() }
        } else {
            self.phase = Phase::LinkQuery;
            self.cursor = 0;
            Action::Query(self.stage.link_kind())
        }
    }

    fn do_channel(&mut self) -> (action: Action)
        requires
            sound(old(self)@),
        ensures
            valid(final(self)@),
            (final(self)@, action@) == enter_channel(old(self)@),
    {
        if self.cursor < self.channels.len() {
            proof {
                assert(self@.channels[self.cursor as int].len() > 0);
            }
            let ty = &self.channels[self.cursor][0].channel_type;
            if ty.kind != TermKind::NamedNode {
                self.phase = Phase::ChannelSkip;
                return Action::Report(Diagnostic::ChannelTypeUnnamed(self.cursor));
            }
            match find_pair(&self.templates, ty.value.as_str()) {
                Some(id) => {
                    self.phase = Phase::Instantiate;
                    Action::InstantiateTemplate { template_id: id }
                },
                None => match find_pair(&self.locations, ty.value.as_str()) {
                    Some(location) => {
                        self.phase = Phase::Upload;
                        Action::UploadTemplate { location }
                    },
                    None => {
                        self.phase = Phase::ChannelSkip;
                        Action::Report(Diagnostic::NoTemplate(self.cursor))
                    },
                },
            }
        } else {
            self.phase = Phase::LinkQuery;
            self.cursor = 0;
            Action::Query(self.stage.link_kind())
        }
    }

    /// A step that answers a query for entities.
    fn step_query(&mut self, event: Event) -> (action: Action)
        requires
            old(self).wf(),
            old(self)@.phase == Phase::Query,
        ensures
            final(self).wf(),
            (final(self)@, action@) == next(old(self)@, event@),
    {
        proof {
            self.lengths_fit();
        }
        match event {
            Event::Rows(rows) => {
                if self.stage == Stage::Processes {
                    proof {
                        lemma_groups_nonempty::<QuerySolutionOutput>(
                            kept(attribute_results(views_of(rows@))),
                        );
                    }
                    self.entities = get_parameter_solutions(&rows);
                    self.cursor = 0;
                    self.do_entity()
                } else {
                    proof {
                        lemma_groups_nonempty::<ChannelSolution>(
                            kept(
                                channel_results(views_of(rows@), port_direction(self.stage)),
                            ),
                        );
                    }
                    self.channels = get_channel_solutions(&rows, self.stage.direction());
                    self.cursor = 0;
                    self.do_channel()
                }
            },
            _ => {
                self.summary.fatal = true;
                self.do_finish()
            },
        }
    }

    /// A step in the creation of a process entity.
    fn step_create(&mut self, event: Event) -> (action: Action)
        requires
            old(self).wf(),
            old(self)@.phase == Phase::Create,
        ensures
            final(self).wf(),
            (final(self)@, action@) == next(old(self)@, event@),
    {
        proof {
            self.lengths_fit();
        }
        match event {
            Event::Component(c) => {
                proof {
                    assert(self@.entities[self.cursor as int].len() > 0);
                }
                let subject = self.entities[self.cursor][0].subject.duplicate();
                let remote_id = c.id.clone();
                self.current = c;
                self.phase = Phase::Record;
                Action::RecordCorrelation { subject, remote_id }
            },
            _ => {
                self.give_up();
                self.do_entity()
            },
        }
    }

    /// A step that answers the recording of a process entity.
    fn step_record(&mut self, event: Event) -> (action: Action)
        requires
            old(self).wf(),
            old(self)@.phase == Phase::Record,
        ensures
            final(self).wf(),
            (final(self)@, action@) == next(old(self)@, event@),
    {
        proof {
            self.lengths_fit();
        }
        match event {
            Event::Done => {
                proof {
                    assert(self@.entities[self.cursor as int].len() > 0);
                }
                let subject = self.entities[self.cursor][0].subject.duplicate();
                match self.store.record(subject, self.current.duplicate()) {
                    Ok(()) => {
                        let id = self.current.id.clone();
                        let ghost before = self.processors@;
                        self.processors.push(self.current.id.clone());
                        proof {
                            assert(texts(self.processors@) =~= texts(before).push(id@));
                        }
                        match configuration(&self.entities[self.cursor]) {
                            Ok(properties) => {
                                self.phase = Phase::Update;
                                Action::UpdateProcessor { id, properties }
                            },
                            Err(_) => {
                                self.give_up();
                                self.do_entity()
                            },
                        }
                    },
                    Err(_) => {
                        self.give_up();
                        self.do_entity()
                    },
                }
            },
            _ => {
                self.give_up();
                self.do_entity()
            },
        }
    }

    /// A step that answers the update of a process entity.
    fn step_update(&mut self, event: Event) -> (action: Action)
        requires
            old(self).wf(),
            old(self)@.phase == Phase::Update,
        ensures
            final(self).wf(),
            (final(self)@, action@) == next(old(self)@, event@),
    {
        proof {
            self.lengths_fit();
        }
        match event {
            Event::Done => {
                self.cursor = self.cursor + 1;
                self.summary.created = bumped(self.summary.created);
                self.do_entity()
            },
            _ => {
                self.give_up();
                self.do_entity()
            },
        }
    }

    /// A step in the wiring of links.
    fn step_link(&mut self, event: Event) -> (action: Action)
        requires
            old(self).wf(),
            old(self)@.phase == Phase::LinkQuery || at_link(old(self)@.phase),
        ensures
            final(self).wf(),
            (final(self)@, action@) == next(old(self)@, event@),
    {
        proof {
            self.lengths_fit();
        }
        match self.phase {
            Phase::LinkQuery => match event {
                Event::Rows(rows) => {
                    self.links = execute_query(&rows, self.stage.keyed());
                    self.cursor = 0;
                    self.do_link()
                },
                _ => {
                    self.summary.fatal = true;
                    self.do_finish()
                },
            },
            Phase::Connect => match event {
                Event::Done => {
                    self.cursor = self.cursor + 1;
                    self.summary.connected = bumped(self.summary.connected);
                    self.do_link()
                },
                _ => {
                    self.give_up();
                    self.do_link()
                },
            },
            _ => {
                self.cursor = self.cursor + 1;
                self.summary.dropped = bumped(self.summary.dropped);
                self.do_link()
            },
        }
    }

    /// A step in the instantiation of a channel's template.
    fn step_template(&mut self, event: Event) -> (action: Action)
        requires
            old(self).wf(),
            old(self)@.phase == Phase::Upload || old(self)@.phase == Phase::Instantiate,
        ensures
            final(self).wf(),
            (final(self)@, action@) == next(old(self)@, event@),
    {
        proof {
            self.lengths_fit();
        }
        match self.phase {
            Phase::Upload => match event {
                Event::Identifier(id) => {
                    proof {
                        assert(self@.channels[self.cursor as int].len() > 0);
                        lemma_pair_find_none(
                            self@.templates,
                            self@.channels[self.cursor as int][0].channel_type.1,
                        );
                    }
                    let ty = self.channels[self.cursor][0].channel_type.value.clone();
                    let ghost before = self.templates@;
                    let ghost pair = (ty@, id@);
                    self.templates.push((ty, id.clone()));
                    proof {
                        assert(pair_views(self.templates@) =~= pair_views(before).push(pair));
                    }
                    self.phase = Phase::Instantiate;
                    Action::InstantiateTemplate { template_id: id }
                },
                _ => {
                    self.give_up();
                    self.do_channel()
                },
            },
            _ => match event {
                Event::Identifier(group) => {
                    self.group = group.clone();
                    self.phase = Phase::Ports;
                    Action::GetPorts { group, direction: self.stage.direction() }
                },
                _ => {
                    self.give_up();
                    self.do_channel()
                },
            },
        }
    }

    /// A step in the correlation of a channel's port.
    fn step_port(&mut self, event: Event) -> (action: Action)
        requires
            old(self).wf(),
            old(self)@.phase == Phase::Ports || old(self)@.phase == Phase::RecordPort,
        ensures
            final(self).wf(),
            (final(self)@, action@) == next(old(self)@, event@),
    {
        proof {
            self.lengths_fit();
        }
        match self.phase {
            Phase::Ports => match event {
                Event::Ports(ports) => {
                    if ports.len() > 0 {
                        proof {
                            assert(self@.channels[self.cursor as int].len() > 0);
                        }
                        let subject = self.channels[self.cursor][0].subject.duplicate();
                        self.current = ports[0].duplicate();
                        self.phase = Phase::RecordPort;
                        Action::RecordCorrelation { subject, remote_id: ports[0].id.clone() }
                    } else {
                        self.give_up();
                        self.do_channel()
                    }
                },
                _ => {
                    self.give_up();
                    self.do_channel()
                },
            },
            _ => match event {
                Event::Done => {
                    proof {
                        assert(self@.channels[self.cursor as int].len() > 0);
                    }
                    let subject = self.channels[self.cursor][0].subject.duplicate();
                    match self.store.record(subject, self.current.duplicate()) {
                        Ok(()) => {
                            self.phase = Phase::Variables;
                            Action::SetVariables {
                                group: self.group.clone(),
                                variables: variables(&self.channels[self.cursor]),
                            }
                        },
                        Err(_) => {
                            self.give_up();
                            self.do_channel()
                        },
                    }
                },
                _ => {
                    self.give_up();
                    self.do_channel()
                },
            },
        }
    }

    /// A step that ends the provisioning of a channel.
    fn step_variables(&mut self, event: Event) -> (action: Action)
        requires
            old(self).wf(),
            old(self)@.phase == Phase::Variables || old(self)@.phase == Phase::ChannelSkip,
        ensures
            final(self).wf(),
            (final(self)@, action@) == next(old(self)@, event@),
    {
        proof {
            self.lengths_fit();
        }
        match self.phase {
            Phase::Variables => match event {
                Event::Done => {
                    let ghost before = self.groups@;
                    self.groups.push(self.group.clone());
                    proof {
                        assert(texts(self.groups@) =~= texts(before).push(self.group@));
                    }
                    self.cursor = self.cursor + 1;
                    self.summary.created = bumped(self.summary.created);
                    self.do_channel()
                },
                _ => {
                    self.give_up();
                    self.do_channel()
                },
            },
            _ => {
                self.give_up();
                self.do_channel()
            },
        }
    }

    /// A step in the cleanup and the starting.
    fn step_cleanup(&mut self, event: Event) -> (action: Action)
        requires
            old(self).wf(),
            old(self)@.phase == Phase::Delete || old(self)@.phase == Phase::StartGroup || old(self)@.phase == Phase::StartProcessor,
        ensures
            final(self).wf(),
            (final(self)@, action@) == next(old(self)@, event@),
    {
        proof {
            self.lengths_fit();
        }
        match self.phase {
            Phase::Delete => match event {
                Event::Done => {
                    self.cursor = self.cursor + 1;
                    self.do_delete()
                },
                _ => {
                    self.give_up();
                    self.do_delete()
                },
            },
            Phase::StartGroup => match event {
                Event::Done => {
                    self.cursor = self.cursor + 1;
                    self.do_start_group()
                },
                _ => {
                    self.give_up();
                    self.do_start_group()
                },
            },
            _ => match event {
                Event::Done => {
                    self.cursor = self.cursor + 1;
                    self.do_start_processor()
                },
                _ => {
                    self.give_up();
                    self.do_start_processor()
                },
            },
        }
    }

    /// Takes the answer to the action given last and gives the next action.
    /// The first call begins the run, whatever the event. After `Finish`
    /// every call gives `Finish` again.
    pub fn step(&mut self, event: Event) -> (action: Action)
        requires
            old(self).wf(),
        ensures
            final(self).wf(),
            (final(self)@, action@) == next(old(self)@, event@),
    {
        match self.phase {
            Phase::Idle => {
                self.phase = Phase::Query;
                self.stage = Stage::Processes;
                self.cursor = 0;
                Action::Query(QueryKind::Processors)
            },
            Phase::Query => self.step_query(event),
            Phase::Create => self.step_create(event),
            Phase::Record => self.step_record(event),
            Phase::Update => self.step_update(event),
            Phase::LinkQuery | Phase::Connect | Phase::LinkSkip => self.step_link(event),
            Phase::Upload | Phase::Instantiate => self.step_template(event),
            Phase::Ports | Phase::RecordPort => self.step_port(event),
            Phase::Variables | Phase::ChannelSkip => self.step_variables(event),
            Phase::Delete | Phase::StartGroup | Phase::StartProcessor => self.step_cleanup(event),
            Phase::Finished => Action::Finish(self.summary),
        }
    }
}

} // verus!
