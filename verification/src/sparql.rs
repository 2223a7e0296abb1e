use vstd::prelude::*;
use crate::term::{binding, opt_text, Row, RowView, Term, TermKind, TermView};
use crate::aggregate::{group_by_subject, group_views, grouped, WithSubject};
use crate::client::PortType;

verus! {

/// The variables that the pattern queries bind.
#[derive(Clone, Copy, Debug, PartialEq, Eq, Structural)]
pub enum Field {
    Subject,
    NifiKey,
    Value,
    Ty,
    Datatype,
    Class,
    SourceId,
    TargetId,
    Key,
    ReaderType,
    WriterType,
}

/// The name under which a query binds a field.
pub open spec fn field_name(f: Field) -> Seq<char> {
    match f {
        Field::Subject => "subject"@,
        Field::NifiKey => "nifi_key"@,
        Field::Value => "value"@,
        Field::Ty => "ty"@,
        Field::Datatype => "datatype"@,
        Field::Class => "class"@,
        Field::SourceId => "source_id"@,
        Field::TargetId => "target_id"@,
        Field::Key => "key"@,
        Field::ReaderType => "reader_type"@,
        Field::WriterType => "writer_type"@,
    }
}

impl Field {
    pub fn name(self) -> (s: &'static str)
        ensures
            s@ == field_name(self),
    {
        match self {
            Field::Subject => "subject",
            Field::NifiKey => "nifi_key",
            Field::Value => "value",
            Field::Ty => "ty",
            Field::Datatype => "datatype",
            Field::Class => "class",
            Field::SourceId => "source_id",
            Field::TargetId => "target_id",
            Field::Key => "key",
            Field::ReaderType => "reader_type",
            Field::WriterType => "writer_type",
        }
    }
}

/// Why a row could not be turned into a record.
#[derive(Clone, Copy, Debug, PartialEq, Eq, Structural)]
pub enum MapError {
    /// The row does not bind a required field.
    Missing(Field),
    /// A field that must be a literal is bound to a term of another shape.
    NotLiteral(Field, TermKind),
    /// The row binds both a datatype and a class for one property path.
    Exclusive,
}

/// The text of a mapping error.
pub open spec fn error_text(e: MapError) -> Seq<char> {
    match e {
        MapError::Missing(f) => field_name(f),
        MapError::NotLiteral(_, TermKind::NamedNode) => "Expected literal, found named node"@,
        MapError::NotLiteral(_, TermKind::BlankNode) => "Expected literal, found blank node"@,
        MapError::NotLiteral(_, TermKind::Triple) => "Expected literal, found triple"@,
        MapError::NotLiteral(_, TermKind::Literal) => "Expected literal"@,
        MapError::Exclusive => "Both datatype and class specified"@,
    }
}

impl MapError {
    /// The text that names the error: for an absent binding, the field's name.
    pub fn message(self) -> (s: &'static str)
        ensures
            s@ == error_text(self),
    {
        match self {
            MapError::Missing(f) => f.name(),
            MapError::NotLiteral(_, TermKind::NamedNode) => "Expected literal, found named node",
            MapError::NotLiteral(_, TermKind::BlankNode) => "Expected literal, found blank node",
            MapError::NotLiteral(_, TermKind::Triple) => "Expected literal, found triple",
            MapError::NotLiteral(_, TermKind::Literal) => "Expected literal",
            MapError::Exclusive => "Both datatype and class specified",
        }
    }
}

/// The term a row must bind to a field.
pub open spec fn required_term(row: RowView, f: Field) -> Result<TermView, MapError> {
    match binding(row, field_name(f)) {
        Some(t) => Ok(t),
        None => Err(MapError::Missing(f)),
    }
}

/// The literal value a row must bind to a field.
pub open spec fn required_text(row: RowView, f: Field) -> Result<Seq<char>, MapError> {
    match binding(row, field_name(f)) {
        Some(t) => if t.0 == TermKind::Literal {
            Ok(t.1)
        } else {
            Err(MapError::NotLiteral(f, t.0))
        },
        None => Err(MapError::Missing(f)),
    }
}

/// The literal value a row may bind to a field: none where the field is
/// absent or no literal.
pub open spec fn optional_text(row: RowView, f: Field) -> Option<Seq<char>> {
    match required_text(row, f) {
        Ok(s) => Some(s),
        Err(_) => None,
    }
}

pub fn get_term(row: &Row, f: Field) -> (r: Result<Term, MapError>)
    ensures
        match r {
            Ok(t) => required_term(row@, f) == Ok::<TermView, MapError>(t@),
            Err(e) => required_term(row@, f) == Err::<TermView, MapError>(e),
        },
{
    match row.get(f.name()) {
        Some(t) => Ok(t.duplicate()),
        None => Err(MapError::Missing(f)),
    }
}

pub fn get_text(row: &Row, f: Field) -> (r: Result<String, MapError>)
    ensures
        match r {
            Ok(s) => required_text(row@, f) == Ok::<Seq<char>, MapError>(s@),
            Err(e) => required_text(row@, f) == Err::<Seq<char>, MapError>(e),
        },
{
    match row.get(f.name()) {
        Some(t) => {
            if t.kind == TermKind::Literal {
                Ok(t.value.clone())
            } else {
                Err(MapError::NotLiteral(f, t.kind))
            }
        },
        None => Err(MapError::Missing(f)),
    }
}

pub fn get_optional_text(row: &Row, f: Field) -> (r: Option<String>)
    ensures
        opt_text(r) == optional_text(row@, f),
{
    match get_text(row, f) {
        Ok(s) => Some(s),
        Err(_) => None,
    }
}

/// How the shape types a property path: by a scalar datatype, by a class, or
/// not at all.
#[derive(Clone, Debug, PartialEq, Eq)]
pub enum ShaclType {
    DataType(Term),
    Class(Term),
    Untyped,
}

pub enum ShaclTypeView {
    DataType(TermView),
    Class(TermView),
    Untyped,
}

impl View for ShaclType {
    type V = ShaclTypeView;

    open spec fn view(&self) -> ShaclTypeView {
        match self {
            ShaclType::DataType(t) => ShaclTypeView::DataType(t@),
            ShaclType::Class(t) => ShaclTypeView::Class(t@),
            ShaclType::Untyped => ShaclTypeView::Untyped,
        }
    }
}

/// The typing a row declares for its property path. A row that binds both a
/// datatype and a class is refused.
pub open spec fn shacl_of(row: RowView) -> Result<ShaclTypeView, MapError> {
    match (binding(row, field_name(Field::Datatype)), binding(row, field_name(Field::Class))) {
        (None, None) => Ok(ShaclTypeView::Untyped),
        (Some(d), None) => Ok(ShaclTypeView::DataType(d)),
        (None, Some(c)) => Ok(ShaclTypeView::Class(c)),
        (Some(_), Some(_)) => Err(MapError::Exclusive),
    }
}

impl ShaclType {
    pub fn from_query(row: &Row) -> (r: Result<ShaclType, MapError>)
        ensures
            match r {
                Ok(t) => shacl_of(row@) == Ok::<ShaclTypeView, MapError>(t@),
                Err(e) => shacl_of(row@) == Err::<ShaclTypeView, MapError>(e),
            },
    {
        match (row.get(Field::Datatype.name()), row.get(Field::Class.name())) {
            (None, None) => Ok(ShaclType::Untyped),
            (Some(d), None) => Ok(ShaclType::DataType(d.duplicate())),
            (None, Some(c)) => Ok(ShaclType::Class(c.duplicate())),
            (Some(_), Some(_)) => Err(MapError::Exclusive),
        }
    }

    /// Whether the path is typed by a class, that is, denotes a relationship
    /// slot and no configuration value.
    pub fn is_class(&self) -> (r: bool)
        ensures
            r == (self@ is Class),
    {
        match self {
            ShaclType::Class(_) => true,
            _ => false,
        }
    }
}

/// The values of the elements of a sequence, in order.
pub open spec fn views_of<R: View>(s: Seq<R>) -> Seq<R::V> {
    Seq::new(s.len(), |i: int| s[i]@)
}

/// One attribute fact of a process entity: the entity, the value of one of
/// its property paths, how the shape types that path, the key under which
/// the engine takes the value, and the engine's type identifier.
#[derive(Clone, Debug, PartialEq, Eq)]
pub struct QuerySolutionOutput {
    pub subject: Term,
    pub nifi_key: Option<String>,
    pub value: Term,
    pub shacl_type: ShaclType,
    pub ty: String,
}

pub struct AttributeView {
    pub subject: TermView,
    pub nifi_key: Option<Seq<char>>,
    pub value: TermView,
    pub shacl_type: ShaclTypeView,
    pub ty: Seq<char>,
}

impl View for QuerySolutionOutput {
    type V = AttributeView;

    open spec fn view(&self) -> AttributeView {
        AttributeView {
            subject: self.subject@,
            nifi_key: opt_text(self.nifi_key),
            value: self.value@,
            shacl_type: self.shacl_type@,
            ty: self.ty@,
        }
    }
}

/// The attribute record that a row stands for. The subject, the value and
/// the engine type are required; the key is optional; the typing must not be
/// double. The first fault in that order is the one reported.
pub open spec fn attribute_of(row: RowView) -> Result<AttributeView, MapError> {
    match required_term(row, Field::Subject) {
        Err(e) => Err(e),
        Ok(subject) => match required_term(row, Field::Value) {
            Err(e) => Err(e),
            Ok(value) => match shacl_of(row) {
                Err(e) => Err(e),
                Ok(shacl_type) => match required_text(row, Field::Ty) {
                    Err(e) => Err(e),
                    Ok(ty) => Ok(
                        AttributeView {
                            subject,
                            nifi_key: optional_text(row, Field::NifiKey),
                            value,
                            shacl_type,
                            ty,
                        },
                    ),
                },
            },
        },
    }
}

impl QuerySolutionOutput {
    pub fn from_query(row: &Row) -> (r: Result<QuerySolutionOutput, MapError>)
        ensures
            match r {
                Ok(x) => attribute_of(row@) == Ok::<AttributeView, MapError>(x@),
                Err(e) => attribute_of(row@) == Err::<AttributeView, MapError>(e),
            },
    {
        let subject = match get_term(row, Field::Subject) {
            Ok(t) => t,
            Err(e) => { return Err(e); },
        };
        let nifi_key = get_optional_text(row, Field::NifiKey);
        let value = match get_term(row, Field::Value) {
            Ok(t) => t,
            Err(e) => { return Err(e); },
        };
        let shacl_type = match ShaclType::from_query(row) {
            Ok(t) => t,
            Err(e) => { return Err(e); },
        };
        let ty = match get_text(row, Field::Ty) {
            Ok(t) => t,
            Err(e) => { return Err(e); },
        };
        Ok(QuerySolutionOutput { subject, nifi_key, value, shacl_type, ty })
    }
}

/// One configuration fact of a channel entity: the entity, the name of a
/// variable, its value, and the channel's ontology type.
#[derive(Clone, Debug, PartialEq, Eq)]
pub struct ChannelSolution {
    pub subject: Term,
    pub nifi_key: String,
    pub value: String,
    pub channel_type: Term,
}

pub struct ChannelView {
    pub subject: TermView,
    pub nifi_key: Seq<char>,
    pub value: Seq<char>,
    pub channel_type: TermView,
}

impl View for ChannelSolution {
    type V = ChannelView;

    open spec fn view(&self) -> ChannelView {
        ChannelView {
            subject: self.subject@,
            nifi_key: self.nifi_key@,
            value: self.value@,
            channel_type: self.channel_type@,
        }
    }
}

/// The field that holds a channel's type: a writer channel ends in an input
/// port, a reader channel in an output port.
pub open spec fn channel_type_field(direction: PortType) -> Field {
    match direction {
        PortType::Input => Field::WriterType,
        PortType::Output => Field::ReaderType,
    }
}

/// The channel record that a row stands for; all four fields are required.
pub open spec fn channel_of(row: RowView, direction: PortType) -> Result<ChannelView, MapError> {
    match required_term(row, Field::Subject) {
        Err(e) => Err(e),
        Ok(subject) => match required_text(row, Field::NifiKey) {
            Err(e) => Err(e),
            Ok(nifi_key) => match required_text(row, Field::Value) {
                Err(e) => Err(e),
                Ok(value) => match required_term(row, channel_type_field(direction)) {
                    Err(e) => Err(e),
                    Ok(channel_type) => Ok(ChannelView { subject, nifi_key, value, channel_type }),
                },
            },
        },
    }
}

impl ChannelSolution {
    pub fn from_query(row: &Row, direction: PortType) -> (r: Result<ChannelSolution, MapError>)
        ensures
            match r {
                Ok(x) => channel_of(row@, direction) == Ok::<ChannelView, MapError>(x@),
                Err(e) => channel_of(row@, direction) == Err::<ChannelView, MapError>(e),
            },
    {
        let subject = match get_term(row, Field::Subject) {
            Ok(t) => t,
            Err(e) => { return Err(e); },
        };
        let nifi_key = match get_text(row, Field::NifiKey) {
            Ok(t) => t,
            Err(e) => { return Err(e); },
        };
        let value = match get_text(row, Field::Value) {
            Ok(t) => t,
            Err(e) => { return Err(e); },
        };
        let field = match direction {
            PortType::Input => Field::WriterType,
            PortType::Output => Field::ReaderType,
        };
        let channel_type = match get_term(row, field) {
            Ok(t) => t,
            Err(e) => { return Err(e); },
        };
        Ok(ChannelSolution { subject, nifi_key, value, channel_type })
    }
}

/// A link between two provisioned endpoints, each named by the identifier
/// the engine gave it, with the relationship that the link carries, if any.
#[derive(Clone, Debug, PartialEq, Eq)]
pub struct NifiLinkQueryOutput {
    pub source_id: String,
    pub target_id: String,
    pub key: Option<String>,
}

pub struct LinkView {
    pub source_id: Seq<char>,
    pub target_id: Seq<char>,
    pub key: Option<Seq<char>>,
}

impl View for NifiLinkQueryOutput {
    type V = LinkView;

    open spec fn view(&self) -> LinkView {
        LinkView { source_id: self.source_id@, target_id: self.target_id@, key: opt_text(self.key) }
    }
}

/// The link that a row stands for. With `keyed` the relationship key is
/// required; without it the row's key, if any, is left aside.
pub open spec fn link_of(row: RowView, keyed: bool) -> Result<LinkView, MapError> {
    match required_text(row, Field::SourceId) {
        Err(e) => Err(e),
        Ok(source_id) => match required_text(row, Field::TargetId) {
            Err(e) => Err(e),
            Ok(target_id) => if keyed {
                match required_text(row, Field::Key) {
                    Err(e) => Err(e),
                    Ok(key) => Ok(LinkView { source_id, target_id, key: Some(key) }),
                }
            } else {
                Ok(LinkView { source_id, target_id, key: None })
            },
        },
    }
}

impl NifiLinkQueryOutput {
    pub fn from_query(row: &Row, keyed: bool) -> (r: Result<NifiLinkQueryOutput, MapError>)
        ensures
            match r {
                Ok(x) => link_of(row@, keyed) == Ok::<LinkView, MapError>(x@),
                Err(e) => link_of(row@, keyed) == Err::<LinkView, MapError>(e),
            },
    {
        let source_id = match get_text(row, Field::SourceId) {
            Ok(t) => t,
            Err(e) => { return Err(e); },
        };
        let target_id = match get_text(row, Field::TargetId) {
            Ok(t) => t,
            Err(e) => { return Err(e); },
        };
        if keyed {
            match get_text(row, Field::Key) {
                Ok(key) => Ok(NifiLinkQueryOutput { source_id, target_id, key: Some(key) }),
                Err(e) => Err(e),
            }
        } else {
            Ok(NifiLinkQueryOutput { source_id, target_id, key: None })
        }
    }
}

impl WithSubject for QuerySolutionOutput {
    open spec fn subject_of(v: AttributeView) -> TermView {
        v.subject
    }

    fn subject(&self) -> (t: &Term) {
        &self.subject
    }
}

impl WithSubject for ChannelSolution {
    open spec fn subject_of(v: ChannelView) -> TermView {
        v.subject
    }

    fn subject(&self) -> (t: &Term) {
        &self.subject
    }
}

/// The records among the outcomes of mapping, in order: a row that was
/// refused leaves nothing behind.
pub open spec fn kept<V>(results: Seq<Result<V, MapError>>) -> Seq<V>
    decreases results.len(),
{
    if results.len() == 0 {
        Seq::empty()
    } else {
        let before = kept(results.drop_last());
        match results.last() {
            Ok(v) => before.push(v),
            Err(_) => before,
        }
    }
}

/// A refused row, wherever it stands, adds nothing to the records that go
/// on to aggregation: the outcome is that of the rows without it.
pub proof fn lemma_refused_row_is_dropped<V>(results: Seq<Result<V, MapError>>, i: int)
    requires
        0 <= i < results.len(),
        results[i] is Err,
    ensures
        kept(results) == kept(results.remove(i)),
    decreases results.len(),
{
    if i == results.len() - 1 {
        assert(results.remove(i) =~= results.drop_last());
    } else {
        assert(results.remove(i).drop_last() =~= results.drop_last().remove(i));
        assert(results.remove(i).last() == results.last());
        lemma_refused_row_is_dropped(results.drop_last(), i);
    }
}

/// A row that binds both a datatype and a class is refused for that reason,
/// whatever else it binds, provided it has a subject and a value.
pub proof fn lemma_double_typing_is_refused(row: RowView)
    requires
        binding(row, field_name(Field::Subject)) is Some,
        binding(row, field_name(Field::Value)) is Some,
        binding(row, field_name(Field::Datatype)) is Some,
        binding(row, field_name(Field::Class)) is Some,
    ensures
        attribute_of(row) == Err::<AttributeView, MapError>(MapError::Exclusive),
{
}

/// What mapping makes of each row as an attribute record.
pub open spec fn attribute_results(rows: Seq<RowView>) -> Seq<Result<AttributeView, MapError>> {
    Seq::new(rows.len(), |i: int| attribute_of(rows[i]))
}

/// What mapping makes of each row as a channel record.
pub open spec fn channel_results(rows: Seq<RowView>, direction: PortType) -> Seq<
    Result<ChannelView, MapError>,
> {
    Seq::new(rows.len(), |i: int| channel_of(rows[i], direction))
}

/// What mapping makes of each row as a link.
pub open spec fn link_results(rows: Seq<RowView>, keyed: bool) -> Seq<Result<LinkView, MapError>> {
    Seq::new(rows.len(), |i: int| link_of(rows[i], keyed))
}

/// Maps the rows of the process query; rows that cannot be mapped are left
/// out.
pub fn attribute_records(rows: &Vec<Row>) -> (out: Vec<QuerySolutionOutput>)
    ensures
        views_of(out@) == kept(attribute_results(views_of(rows@))),
{
    let ghost results = attribute_results(views_of(rows@));
    let mut out: Vec<QuerySolutionOutput> = Vec::new();
    let mut i: usize = 0;
    proof {
        assert(views_of(out@) =~= kept(results.take(0)));
    }
    while i < rows.len()
        invariant
            i <= rows@.len(),
            results == attribute_results(views_of(rows@)),
            views_of(out@) == kept(results.take(i as int)),
        decreases rows@.len() - i,
    {
        proof {
            assert(results.take(i + 1).drop_last() =~= results.take(i as int));
            assert(results.take(i + 1).last() == attribute_of(rows@[i as int]@));
        }
        match QuerySolutionOutput::from_query(&rows[i]) {
            Ok(x) => {
                let ghost xv = x@;
                let ghost before = out@;
                out.push(x);
                assert(views_of(out@) =~= views_of(before).push(xv));
            },
            Err(_) => {},
        }
        i += 1;
    }
    proof {
        assert(results.take(i as int) =~= results);
    }
    out
}

/// Maps the rows of a channel query; rows that cannot be mapped are left out.
pub fn channel_records(rows: &Vec<Row>, direction: PortType) -> (out: Vec<ChannelSolution>)
    ensures
        views_of(out@) == kept(channel_results(views_of(rows@), direction)),
{
    let ghost results = channel_results(views_of(rows@), direction);
    let mut out: Vec<ChannelSolution> = Vec::new();
    let mut i: usize = 0;
    proof {
        assert(views_of(out@) =~= kept(results.take(0)));
    }
    while i < rows.len()
        invariant
            i <= rows@.len(),
            results == channel_results(views_of(rows@), direction),
            views_of(out@) == kept(results.take(i as int)),
        decreases rows@.len() - i,
    {
        proof {
            assert(results.take(i + 1).drop_last() =~= results.take(i as int));
            assert(results.take(i + 1).last() == channel_of(rows@[i as int]@, direction));
        }
        match ChannelSolution::from_query(&rows[i], direction) {
            Ok(x) => {
                let ghost xv = x@;
                let ghost before = out@;
                out.push(x);
                assert(views_of(out@) =~= views_of(before).push(xv));
            },
            Err(_) => {},
        }
        i += 1;
    }
    proof {
        assert(results.take(i as int) =~= results);
    }
    out
}

/// Maps the rows of a link query; rows that cannot be mapped are left out.
pub fn execute_query(rows: &Vec<Row>, keyed: bool) -> (out: Vec<NifiLinkQueryOutput>)
    ensures
        views_of(out@) == kept(link_results(views_of(rows@), keyed)),
{
    let ghost results = link_results(views_of(rows@), keyed);
    let mut out: Vec<NifiLinkQueryOutput> = Vec::new();
    let mut i: usize = 0;
    proof {
        assert(views_of(out@) =~= kept(results.take(0)));
    }
    while i < rows.len()
        invariant
            i <= rows@.len(),
            results == link_results(views_of(rows@), keyed),
            views_of(out@) == kept(results.take(i as int)),
        decreases rows@.len() - i,
    {
        proof {
            assert(results.take(i + 1).drop_last() =~= results.take(i as int));
            assert(results.take(i + 1).last() == link_of(rows@[i as int]@, keyed));
        }
        match NifiLinkQueryOutput::from_query(&rows[i], keyed) {
            Ok(x) => {
                let ghost xv = x@;
                let ghost before = out@;
                out.push(x);
                assert(views_of(out@) =~= views_of(before).push(xv));
            },
            Err(_) => {},
        }
        i += 1;
    }
    proof {
        assert(results.take(i as int) =~= results);
    }
    out
}

/// The attribute records of the process query's rows, grouped by entity.
pub fn get_parameter_solutions(rows: &Vec<Row>) -> (groups: Vec<Vec<QuerySolutionOutput>>)
    ensures
        group_views(groups@) == grouped::<QuerySolutionOutput>(
            kept(attribute_results(views_of(rows@))),
        ),
{
    group_by_subject(attribute_records(rows))
}

/// The records of a channel query's rows, grouped by channel entity.
pub fn get_channel_solutions(rows: &Vec<Row>, direction: PortType) -> (groups: Vec<
    Vec<ChannelSolution>,
>)
    ensures
        group_views(groups@) == grouped::<ChannelSolution>(
            kept(channel_results(views_of(rows@), direction)),
        ),
{
    group_by_subject(channel_records(rows, direction))
}

} // verus!
