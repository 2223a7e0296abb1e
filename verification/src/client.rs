use vstd::prelude::*;

verus! {

/// Where the engine's interface is found when nothing else is said.
pub const NIFI_URL: &'static str = "http://localhost:8091/nifi-api";

/// The group in which a run works when nothing else is said.
pub const ROOT_GROUP: &'static str = "root";

/// How often a service's status is checked again while it is still being
/// enabled.
pub const SERVICE_RETRIES: u32 = 11;

/// The pause between two checks of a service's status, in milliseconds.
pub const POLL_INTERVAL_MS: u64 = 500;

/// The two directions a port of a process group can have.
#[derive(Clone, Copy, Debug, PartialEq, Eq, Structural)]
pub enum PortType {
    Input,
    Output,
}

/// The word for a direction in the engine's paths.
pub open spec fn direction_word(ty: PortType) -> Seq<char> {
    match ty {
        PortType::Input => "input"@,
        PortType::Output => "output"@,
    }
}

impl PortType {
    pub fn as_str(self) -> (s: &'static str)
        ensures
            s@ == direction_word(self),
    {
        match self {
            PortType::Input => "input",
            PortType::Output => "output",
        }
    }
}

/// The engine's interface and the process group a client works in.
pub struct Nifi {
    nifi: String,
    pub group: String,
}

impl Nifi {
    /// The address of the engine's interface.
    pub closed spec fn base(&self) -> Seq<char> {
        self.nifi@
    }

    /// The identifier of the group the client works in.
    pub closed spec fn group_id(&self) -> Seq<char> {
        self.group@
    }

    pub fn new(nifi: &str, group: &str) -> (client: Nifi)
        ensures
            client.base() == nifi@,
            client.group_id() == group@,
    {
        Nifi { nifi: nifi.to_owned(), group: group.to_owned() }
    }

    /// The address of the engine's interface.
    pub fn url(&self) -> (s: &str)
        ensures
            s@ == self.base(),
    {
        self.nifi.as_str()
    }

    /// The group the client works in.
    pub fn group(&self) -> (s: &str)
        ensures
            s@ == self.group_id(),
    {
        self.group.as_str()
    }

    /// A client for the same engine that works in another group.
    pub fn change_group(&self, group: &str) -> (client: Nifi)
        ensures
            client.base() == self.base(),
            client.group_id() == group@,
    {
        Nifi { nifi: self.nifi.clone(), group: group.to_owned() }
    }
}

/// The states in which the engine reports a controller service.
#[derive(Clone, Copy, Debug, PartialEq, Eq, Structural)]
pub enum ServiceRunStatus {
    Enabled,
    Enabling,
    Disabled,
    Disabling,
}

/// What a check of a service's status leads to.
#[derive(Clone, Copy, Debug, PartialEq, Eq, Structural)]
pub enum PollOutcome {
    /// The service is still being enabled: pause, then check again.
    Retry,
    /// The service is enabled.
    Enabled,
    /// The service is still being enabled and the retries are used up: go
    /// on without it.
    GaveUp,
    /// The service is in a state that enabling does not lead to: go on, with
    /// a warning.
    Unexpected(ServiceRunStatus),
}

/// The outcome of one check after `retries` retries, with the number of
/// retries made after it.
pub open spec fn poll(retries: u32, max: u32, status: ServiceRunStatus) -> (u32, PollOutcome) {
    match status {
        ServiceRunStatus::Enabling => if retries >= max {
            (retries, PollOutcome::GaveUp)
        } else {
            ((retries + 1) as u32, PollOutcome::Retry)
        },
        ServiceRunStatus::Enabled => (retries, PollOutcome::Enabled),
        other => (retries, PollOutcome::Unexpected(other)),
    }
}

/// How many of the statuses are checked, one after the other, until polling
/// stops or the statuses run out.
pub open spec fn checks_made(retries: u32, max: u32, statuses: Seq<ServiceRunStatus>) -> nat
    decreases statuses.len(),
{
    if statuses.len() == 0 {
        0
    } else {
        let (after, outcome) = poll(retries, max, statuses[0]);
        if outcome == PollOutcome::Retry {
            1 + checks_made(after, max, statuses.drop_first())
        } else {
            1
        }
    }
}

/// The outcome at which polling stops; none where the statuses run out
/// first.
pub open spec fn final_outcome(retries: u32, max: u32, statuses: Seq<ServiceRunStatus>) -> Option<
    PollOutcome,
>
    decreases statuses.len(),
{
    if statuses.len() == 0 {
        None
    } else {
        let (after, outcome) = poll(retries, max, statuses[0]);
        if outcome == PollOutcome::Retry {
            final_outcome(after, max, statuses.drop_first())
        } else {
            Some(outcome)
        }
    }
}

/// Polling ends. Of a service that stays in the enabling state, the status
/// is checked once and then once more for every retry that is left; the last
/// check gives the service up, which is no error.
pub proof fn lemma_polling_terminates(retries: u32, max: u32, statuses: Seq<ServiceRunStatus>)
    requires
        retries <= max,
        statuses.len() > max - retries,
        forall|i: int| 0 <= i < statuses.len() ==> statuses[i] == ServiceRunStatus::Enabling,
    ensures
        checks_made(retries, max, statuses) == max - retries + 1,
        final_outcome(retries, max, statuses) == Some(PollOutcome::GaveUp),
    decreases max - retries,
{
    if retries < max {
        let rest = statuses.drop_first();
        assert forall|i: int| 0 <= i < rest.len() implies rest[i]
            == ServiceRunStatus::Enabling by {
            assert(rest[i] == statuses[i + 1]);
        }
        lemma_polling_terminates((retries + 1) as u32, max, rest);
    }
}

/// The checks of one service's status: it counts the retries and says after
/// each check what is to follow.
#[derive(Clone, Copy, Debug)]
pub struct ReadinessPoller {
    max: u32,
    retries: u32,
}

impl ReadinessPoller {
    pub closed spec fn max_retries(&self) -> u32 {
        self.max
    }

    pub closed spec fn retries_made(&self) -> u32 {
        self.retries
    }

    /// A poller that has made no retry yet and will make at most `max`.
    pub fn new(max: u32) -> (p: ReadinessPoller)
        ensures
            p.max_retries() == max,
            p.retries_made() == 0,
    {
        ReadinessPoller { max, retries: 0 }
    }

    pub fn retries(&self) -> (n: u32)
        ensures
            n == self.retries_made(),
    {
        self.retries
    }

    /// Takes the status that a check gave and says what follows.
    pub fn on_status(&mut self, status: ServiceRunStatus) -> (outcome: PollOutcome)
        ensures
            final(self).max_retries() == old(self).max_retries(),
            (final(self).retries_made(), outcome) == poll(
                old(self).retries_made(),
                old(self).max_retries(),
                status,
            ),
    {
        match status {
            ServiceRunStatus::Enabling => {
                if self.retries >= self.max {
                    PollOutcome::GaveUp
                } else {
                    self.retries = self.retries + 1;
                    PollOutcome::Retry
                }
            },
            ServiceRunStatus::Enabled => PollOutcome::Enabled,
            other => PollOutcome::Unexpected(other),
        }
    }
}

/// What the start of a process group waits for.
#[derive(Clone, Copy, Debug, PartialEq, Eq, Structural)]
pub enum StartPhase {
    Idle,
    Listing,
    Enabling,
    Checking,
    Waiting,
    Settled,
    Running,
    Finished(bool),
}

/// What the caller is to do next to start a process group. Services are
/// named by their place in the list that the caller got.
#[derive(Clone, Copy, Debug, PartialEq, Eq, Structural)]
pub enum StartAction {
    /// List the controller services of the group, without those of its
    /// ancestors; answer with their number.
    ListServices,
    /// Ask for the service to be enabled, under the revision it was listed
    /// with.
    EnableService(usize),
    /// Read the service; answer with its status.
    CheckService(usize),
    /// Pause for so many milliseconds.
    Wait(u64),
    /// Polling of a service has stopped with this outcome, for the caller to
    /// report.
    Report(PollOutcome),
    /// Set the group running.
    RunGroup,
    /// The start is over; `true` where no operation failed.
    Finish(bool),
}

/// What came of the action given last.
#[derive(Clone, Copy, Debug, PartialEq, Eq, Structural)]
pub enum StartEvent {
    Start,
    Services(usize),
    Status(ServiceRunStatus),
    Done,
    Failed,
}

/// The state of the start of a process group.
#[derive(Clone, Copy, Debug, PartialEq, Eq, Structural)]
pub struct StartState {
    pub phase: StartPhase,
    /// The number of services of the group.
    pub count: usize,
    /// The place of the service at hand.
    pub index: usize,
    /// The retries made for the service at hand.
    pub retries: u32,
    /// The retries allowed for each service.
    pub max: u32,
}

/// The start has failed: it ends here.
pub open spec fn start_failed(s: StartState) -> (StartState, StartAction) {
    (StartState { phase: StartPhase::Finished(false), ..s }, StartAction::Finish(false))
}

/// Turning to the service at hand: it is enabled; after the last service the
/// group is set running.
pub open spec fn enter_service(s: StartState) -> (StartState, StartAction) {
    if s.index < s.count {
        (
            StartState { phase: StartPhase::Enabling, retries: 0, ..s },
            StartAction::EnableService(s.index),
        )
    } else {
        (StartState { phase: StartPhase::Running, ..s }, StartAction::RunGroup)
    }
}

/// One step of the start of a process group. Every service is enabled and
/// polled to its end before the next one, and all of them before the group
/// is set running. A failed operation ends the start; a service that does
/// not come up in time does not.
pub open spec fn start_next(s: StartState, e: StartEvent) -> (StartState, StartAction) {
    match s.phase {
        StartPhase::Idle => (
            StartState { phase: StartPhase::Listing, ..s },
            StartAction::ListServices,
        ),
        StartPhase::Listing => match e {
            StartEvent::Services(n) => enter_service(StartState { count: n, index: 0, ..s }),
            _ => start_failed(s),
        },
        StartPhase::Enabling => match e {
            StartEvent::Done => (
                StartState { phase: StartPhase::Checking, ..s },
                StartAction::CheckService(s.index),
            ),
            _ => start_failed(s),
        },
        StartPhase::Checking => match e {
            StartEvent::Status(status) => {
                let (retries, outcome) = poll(s.retries, s.max, status);
                if outcome == PollOutcome::Retry {
                    (
                        StartState { phase: StartPhase::Waiting, retries, ..s },
                        StartAction::Wait(POLL_INTERVAL_MS),
                    )
                } else {
                    (StartState { phase: StartPhase::Settled, ..s }, StartAction::Report(outcome))
                }
            },
            _ => start_failed(s),
        },
        StartPhase::Waiting => (
            StartState { phase: StartPhase::Checking, ..s },
            StartAction::CheckService(s.index),
        ),
        StartPhase::Settled => enter_service(StartState { index: (s.index + 1) as usize, ..s }),
        StartPhase::Running => match e {
            StartEvent::Done => (
                StartState { phase: StartPhase::Finished(true), ..s },
                StartAction::Finish(true),
            ),
            _ => start_failed(s),
        },
        StartPhase::Finished(ok) => (s, StartAction::Finish(ok)),
    }
}

/// Whether the state can come up in a start: the service at hand exists
/// while one is worked on.
pub open spec fn start_valid(s: StartState) -> bool {
    (s.phase == StartPhase::Enabling || s.phase == StartPhase::Checking || s.phase
        == StartPhase::Waiting || s.phase == StartPhase::Settled) ==> s.index < s.count
}

/// The group is set running only after the last service has been settled.
pub proof fn lemma_group_runs_last(s: StartState, e: StartEvent)
    requires
        start_valid(s),
    ensures
        start_valid(start_next(s, e).0),
        start_next(s, e).1 == StartAction::RunGroup ==> start_next(s, e).0.index
            == start_next(s, e).0.count,
{
}

/// The start of a process group: its services are enabled one by one, each
/// polled until it is enabled or given up, and then the group is set
/// running.
pub struct GroupStarter {
    state: StartState,
}

impl View for GroupStarter {
    type V = StartState;

    closed spec fn view(&self) -> StartState {
        self.state
    }
}

impl GroupStarter {
    pub open spec fn wf(&self) -> bool {
        start_valid(self@)
    }

    /// A start that has not begun, with `max` retries for each service.
    pub fn new(max: u32) -> (g: GroupStarter)
        ensures
            g.wf(),
            g@ == (StartState { phase: StartPhase::Idle, count: 0, index: 0, retries: 0, max }),
    {
        GroupStarter {
            state: StartState { phase: StartPhase::Idle, count: 0, index: 0, retries: 0, max },
        }
    }

    fn begin_service(&mut self) -> (action: StartAction)
        ensures
            final(self).wf(),
            (final(self)@, action) == enter_service(old(self)@),
    {
        if self.state.index < self.state.count {
            self.state.phase = StartPhase::Enabling;
            self.state.retries = 0;
            StartAction::EnableService(self.state.index)
        } else {
            self.state.phase = StartPhase::Running;
            StartAction::RunGroup
        }
    }

    fn fail(&mut self) -> (action: StartAction)
        ensures
            final(self).wf(),
            (final(self)@, action) == start_failed(old(self)@),
    {
        self.state.phase = StartPhase::Finished(false);
        StartAction::Finish(false)
    }

    /// Takes the answer to the action given last and gives the next action.
    pub fn step(&mut self, event: StartEvent) -> (action: StartAction)
        requires
            old(self).wf(),
        ensures
            final(self).wf(),
            (final(self)@, action) == start_next(old(self)@, event),
    {
        match self.state.phase {
            StartPhase::Idle => {
                self.state.phase = StartPhase::Listing;
                StartAction::ListServices
            },
            StartPhase::Listing => match event {
                StartEvent::Services(n) => {
                    self.state.count = n;
                    self.state.index = 0;
                    self.begin_service()
                },
                _ => self.fail(),
            },
            StartPhase::Enabling => match event {
                StartEvent::Done => {
                    self.state.phase = StartPhase::Checking;
                    StartAction::CheckService(self.state.index)
                },
                _ => self.fail(),
            },
            StartPhase::Checking => match event {
                StartEvent::Status(status) => {
                    let mut poller = ReadinessPoller {
                        max: self.state.max,
                        retries: self.state.retries,
                    };
                    match poller.on_status(status) {
                        PollOutcome::Retry => {
                            self.state.retries = poller.retries();
                            self.state.phase = StartPhase::Waiting;
                            StartAction::Wait(POLL_INTERVAL_MS)
                        },
                        outcome => {
                            self.state.phase = StartPhase::Settled;
                            StartAction::Report(outcome)
                        },
                    }
                },
                _ => self.fail(),
            },
            StartPhase::Waiting => {
                self.state.phase = StartPhase::Checking;
                StartAction::CheckService(self.state.index)
            },
            StartPhase::Settled => {
                self.state.index = self.state.index + 1;
                self.begin_service()
            },
            StartPhase::Running => match event {
                StartEvent::Done => {
                    self.state.phase = StartPhase::Finished(true);
                    StartAction::Finish(true)
                },
                _ => self.fail(),
            },
            StartPhase::Finished(ok) => StartAction::Finish(ok),
        }
    }
}

} // verus!
