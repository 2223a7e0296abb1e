use vstd::prelude::*;
use crate::models::{ConnectableDTO, ConnectableView, ConnectionEntity, ConnectionView, relationship_set};
use crate::sparql::{LinkView, NifiLinkQueryOutput};
use crate::term::{Term, TermView};

verus! {

/// The value of a correlation entry: a subject and the component that the
/// engine created for it.
pub type EntryView = (TermView, ConnectableView);

/// Whether some entry is for the subject.
pub open spec fn has_subject(entries: Seq<EntryView>, subject: TermView) -> bool {
    exists|i: int| 0 <= i < entries.len() && (#[trigger] entries[i]).0 == subject
}

/// Whether some entry holds the engine's identifier.
pub open spec fn has_remote(entries: Seq<EntryView>, id: Seq<char>) -> bool {
    exists|i: int| 0 <= i < entries.len() && (#[trigger] entries[i]).1.id == id
}

/// No subject has two entries, and no identifier of the engine stands in
/// two entries.
pub open spec fn one_to_one(entries: Seq<EntryView>) -> bool {
    forall|i: int, j: int|
        0 <= i < j < entries.len() ==> (#[trigger] entries[i]).0 != (#[trigger] entries[j]).0
            && entries[i].1.id != entries[j].1.id
}

/// The component recorded for a subject.
pub open spec fn find_subject(entries: Seq<EntryView>, subject: TermView) -> Option<
    ConnectableView,
>
    decreases entries.len(),
{
    if entries.len() == 0 {
        None
    } else {
        match find_subject(entries.drop_last(), subject) {
            Some(c) => Some(c),
            None => if entries.last().0 == subject {
                Some(entries.last().1)
            } else {
                None
            },
        }
    }
}

/// The component that carries an identifier of the engine.
pub open spec fn find_remote(entries: Seq<EntryView>, id: Seq<char>) -> Option<ConnectableView>
    decreases entries.len(),
{
    if entries.len() == 0 {
        None
    } else {
        match find_remote(entries.drop_last(), id) {
            Some(c) => Some(c),
            None => if entries.last().1.id == id {
                Some(entries.last().1)
            } else {
                None
            },
        }
    }
}

/// The entries after an attempt to record one more: the attempt is refused
/// where the subject or the identifier is already taken.
pub open spec fn recorded(entries: Seq<EntryView>, entry: EntryView) -> Seq<EntryView> {
    if has_subject(entries, entry.0) || has_remote(entries, entry.1.id) {
        entries
    } else {
        entries.push(entry)
    }
}

/// The entries after a series of attempts, starting with none.
pub open spec fn recorded_all(attempts: Seq<EntryView>) -> Seq<EntryView>
    decreases attempts.len(),
{
    if attempts.len() == 0 {
        Seq::empty()
    } else {
        recorded(recorded_all(attempts.drop_last()), attempts.last())
    }
}

/// Whatever is recorded, in whatever order, subjects and identifiers of the
/// engine stay in one-to-one correspondence.
pub proof fn lemma_recording_is_one_to_one(attempts: Seq<EntryView>)
    ensures
        one_to_one(recorded_all(attempts)),
    decreases attempts.len(),
{
    if attempts.len() > 0 {
        lemma_recording_is_one_to_one(attempts.drop_last());
    }
}

/// A lookup that succeeds keeps its answer when more entries follow.
pub proof fn lemma_find_remote_extends(entries: Seq<EntryView>, more: Seq<EntryView>, id: Seq<char>)
    requires
        find_remote(entries, id) is Some,
    ensures
        find_remote(entries + more, id) == find_remote(entries, id),
    decreases more.len(),
{
    if more.len() == 0 {
        assert(entries + more =~= entries);
    } else {
        lemma_find_remote_extends(entries, more.drop_last(), id);
        assert((entries + more).drop_last() =~= entries + more.drop_last());
    }
}

/// A lookup by identifier succeeds exactly when some entry holds it.
pub proof fn lemma_find_remote_iff(entries: Seq<EntryView>, id: Seq<char>)
    ensures
        find_remote(entries, id) is Some <==> has_remote(entries, id),
        find_remote(entries, id) is Some ==> find_remote(entries, id).unwrap().id == id,
    decreases entries.len(),
{
    if entries.len() > 0 {
        let init = entries.drop_last();
        lemma_find_remote_iff(init, id);
        if has_remote(init, id) {
            let i = choose|i: int| 0 <= i < init.len() && (#[trigger] init[i]).1.id == id;
            assert(entries[i].1.id == id);
        }
        if has_remote(entries, id) {
            let i = choose|i: int| 0 <= i < entries.len() && (#[trigger] entries[i]).1.id == id;
            if i < init.len() {
                assert(init[i].1.id == id);
            }
        }
        if entries.last().1.id == id {
            assert(entries[entries.len() - 1].1.id == id);
        }
    }
}

/// A lookup by subject succeeds exactly when some entry is for it.
pub proof fn lemma_find_subject_iff(entries: Seq<EntryView>, subject: TermView)
    ensures
        find_subject(entries, subject) is Some <==> has_subject(entries, subject),
    decreases entries.len(),
{
    if entries.len() > 0 {
        let init = entries.drop_last();
        lemma_find_subject_iff(init, subject);
        if has_subject(init, subject) {
            let i = choose|i: int| 0 <= i < init.len() && (#[trigger] init[i]).0 == subject;
            assert(entries[i].0 == subject);
        }
        if has_subject(entries, subject) {
            let i = choose|i: int| 0 <= i < entries.len() && (#[trigger] entries[i]).0 == subject;
            if i < init.len() {
                assert(init[i].0 == subject);
            }
        }
        if entries.last().0 == subject {
            assert(entries[entries.len() - 1].0 == subject);
        }
    }
}

/// Why a correlation was not recorded.
#[derive(Clone, Copy, Debug, PartialEq, Eq, Structural)]
pub enum CorrelationError {
    /// The subject already has an entry.
    SubjectTaken,
    /// Another subject already holds the identifier.
    IdentifierTaken,
}

#[derive(Clone, Debug, PartialEq, Eq)]
pub struct CorrelationEntry {
    pub subject: Term,
    pub endpoint: ConnectableDTO,
}

/// The correlations of one run: for each provisioned subject the component
/// that the engine created for it.
pub struct CorrelationStore {
    entries: Vec<CorrelationEntry>,
}

impl View for CorrelationStore {
    type V = Seq<EntryView>;

    closed spec fn view(&self) -> Seq<EntryView> {
        Seq::new(self.entries@.len(), |i: int| (self.entries@[i].subject@, self.entries@[i].endpoint@))
    }
}

/// The value of an optional borrowed component.
pub open spec fn opt_endpoint_view(c: Option<&ConnectableDTO>) -> Option<ConnectableView> {
    match c {
        Some(c) => Some(c@),
        None => None,
    }
}

impl CorrelationStore {
    /// A store is well formed when it is one-to-one.
    pub open spec fn wf(&self) -> bool {
        one_to_one(self@)
    }

    pub fn new() -> (s: CorrelationStore)
        ensures
            s.wf(),
            s@ == Seq::<EntryView>::empty(),
    {
        let s = CorrelationStore { entries: Vec::new() };
        assert(s@ =~= Seq::<EntryView>::empty());
        s
    }

    pub fn len(&self) -> (n: usize)
        ensures
            n == self@.len(),
    {
        self.entries.len()
    }

    /// The component recorded for a subject.
    pub fn lookup(&self, subject: &Term) -> (r: Option<&ConnectableDTO>)
        ensures
            opt_endpoint_view(r) == find_subject(self@, subject@),
    {
        let mut i: usize = 0;
        while i < self.entries.len()
            invariant
                i <= self.entries@.len(),
                find_subject(self@.take(i as int), subject@) is None,
            decreases self.entries@.len() - i,
        {
            proof {
                assert(self@.take(i + 1).drop_last() =~= self@.take(i as int));
                assert(self@.take(i + 1).last() == self@[i as int]);
            }
            if self.entries[i].subject.same(subject) {
                proof {
                    lemma_find_subject_extends(self@.take(i + 1), self@.skip(i + 1), subject@);
                    assert(self@.take(i + 1) + self@.skip(i + 1) =~= self@);
                }
                return Some(&self.entries[i].endpoint);
            }
            i += 1;
        }
        proof {
            assert(self@.take(i as int) =~= self@);
        }
        None
    }

    /// The component that carries an identifier of the engine.
    pub fn lookup_remote(&self, id: &str) -> (r: Option<&ConnectableDTO>)
        ensures
            opt_endpoint_view(r) == find_remote(self@, id@),
    {
        let key: String = id.to_owned();
        let mut i: usize = 0;
        while i < self.entries.len()
            invariant
                i <= self.entries@.len(),
                key@ == id@,
                find_remote(self@.take(i as int), id@) is None,
            decreases self.entries@.len() - i,
        {
            proof {
                assert(self@.take(i + 1).drop_last() =~= self@.take(i as int));
                assert(self@.take(i + 1).last() == self@[i as int]);
            }
            if self.entries[i].endpoint.id == key {
                proof {
                    lemma_find_remote_extends(self@.take(i + 1), self@.skip(i + 1), id@);
                    assert(self@.take(i + 1) + self@.skip(i + 1) =~= self@);
                }
                return Some(&self.entries[i].endpoint);
            }
            i += 1;
        }
        proof {
            assert(self@.take(i as int) =~= self@);
        }
        None
    }

    /// Records the component created for a subject. Nothing is recorded
    /// where the subject already has an entry or the identifier is already
    /// held; the taken subject is reported first.
    pub fn record(&mut self, subject: Term, endpoint: ConnectableDTO) -> (r: Result<
        (),
        CorrelationError,
    >)
        requires
            old(self).wf(),
        ensures
            final(self).wf(),
            final(self)@ == recorded(old(self)@, (subject@, endpoint@)),
            r == (if has_subject(old(self)@, subject@) {
                Err::<(), CorrelationError>(CorrelationError::SubjectTaken)
            } else if has_remote(old(self)@, endpoint.id@) {
                Err::<(), CorrelationError>(CorrelationError::IdentifierTaken)
            } else {
                Ok::<(), CorrelationError>(())
            }),
    {
        proof {
            lemma_find_subject_iff(self@, subject@);
            lemma_find_remote_iff(self@, endpoint.id@);
        }
        if self.lookup(&subject).is_some() {
            return Err(CorrelationError::SubjectTaken);
        }
        if self.lookup_remote(endpoint.id.as_str()).is_some() {
            return Err(CorrelationError::IdentifierTaken);
        }
        let ghost entry = (subject@, endpoint@);
        self.entries.push(CorrelationEntry { subject, endpoint });
        proof {
            assert(self@ =~= old(self)@.push(entry));
        }
        Ok(())
    }
}

/// A lookup by subject that succeeds keeps its answer when more entries
/// follow.
pub proof fn lemma_find_subject_extends(
    entries: Seq<EntryView>,
    more: Seq<EntryView>,
    subject: TermView,
)
    requires
        find_subject(entries, subject) is Some,
    ensures
        find_subject(entries + more, subject) == find_subject(entries, subject),
    decreases more.len(),
{
    if more.len() == 0 {
        assert(entries + more =~= entries);
    } else {
        lemma_find_subject_extends(entries, more.drop_last(), subject);
        assert((entries + more).drop_last() =~= entries + more.drop_last());
    }
}

/// The connection that a link asks for, given the correlations at hand: one
/// where both ends are known, none where either is missing.
pub open spec fn resolved(entries: Seq<EntryView>, link: LinkView) -> Option<ConnectionView> {
    match (find_remote(entries, link.source_id), find_remote(entries, link.target_id)) {
        (Some(source), Some(destination)) => Some(
            ConnectionView { source, destination, relationships: relationship_set(link.key) },
        ),
        _ => None,
    }
}

/// The value of an optional connection request.
pub open spec fn opt_connection_view(c: Option<ConnectionEntity>) -> Option<ConnectionView> {
    match c {
        Some(c) => Some(c@),
        None => None,
    }
}

/// Resolves a link against the correlations: the request for a connection
/// from the link's source to its target under the link's relationship, if
/// both ends have been provisioned.
pub fn resolve_link(store: &CorrelationStore, link: &NifiLinkQueryOutput) -> (r: Option<
    ConnectionEntity,
>)
    ensures
        opt_connection_view(r) == resolved(store@, link@),
        r is Some ==> r.unwrap().wf(),
{
    let source = match store.lookup_remote(link.source_id.as_str()) {
        Some(c) => c.duplicate(),
        None => { return None; },
    };
    let destination = match store.lookup_remote(link.target_id.as_str()) {
        Some(c) => c.duplicate(),
        None => { return None; },
    };
    let rel: Option<&str> = match &link.key {
        Some(k) => Some(k.as_str()),
        None => None,
    };
    Some(ConnectionEntity::between(source, destination, rel))
}

/// Resolution is monotonic: a link that resolves keeps its connection when
/// more correlations are recorded, and a link resolves exactly when both of
/// its ends are held.
pub proof fn lemma_resolution_is_monotonic(
    entries: Seq<EntryView>,
    more: Seq<EntryView>,
    link: LinkView,
)
    ensures
        resolved(entries, link) is Some <==> has_remote(entries, link.source_id) && has_remote(
            entries,
            link.target_id,
        ),
        resolved(entries, link) is Some ==> resolved(entries + more, link) == resolved(
            entries,
            link,
        ),
{
    lemma_find_remote_iff(entries, link.source_id);
    lemma_find_remote_iff(entries, link.target_id);
    if resolved(entries, link) is Some {
        lemma_find_remote_extends(entries, more, link.source_id);
        lemma_find_remote_extends(entries, more, link.target_id);
    }
}

} // verus!
