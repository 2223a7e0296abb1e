use vstd::prelude::*;
use crate::sparql::views_of;
use crate::term::{Term, TermView};

verus! {

/// A record that describes one fact about an entity, its subject.
pub trait WithSubject: View + Sized {
    /// The subject that a record's value names.
    spec fn subject_of(v: Self::V) -> TermView;

    fn subject(&self) -> (t: &Term)
        ensures
            t@ == Self::subject_of(self@),
    ;
}

/// The distinct subjects of a sequence of records, in the order in which
/// each is first seen.
pub open spec fn subjects_seen<R: WithSubject>(records: Seq<R::V>) -> Seq<TermView>
    decreases records.len(),
{
    if records.len() == 0 {
        Seq::empty()
    } else {
        let before = subjects_seen::<R>(records.drop_last());
        let s = R::subject_of(records.last());
        if before.contains(s) {
            before
        } else {
            before.push(s)
        }
    }
}

/// The records of one subject, in the order in which they were received.
pub open spec fn records_of<R: WithSubject>(records: Seq<R::V>, subject: TermView) -> Seq<R::V>
    decreases records.len(),
{
    if records.len() == 0 {
        Seq::empty()
    } else {
        let before = records_of::<R>(records.drop_last(), subject);
        if R::subject_of(records.last()) == subject {
            before.push(records.last())
        } else {
            before
        }
    }
}

/// The groups into which records fall: one group for each distinct subject,
/// the groups in first-seen order, each holding the subject's records in the
/// order received.
pub open spec fn grouped<R: WithSubject>(records: Seq<R::V>) -> Seq<Seq<R::V>> {
    Seq::new(
        subjects_seen::<R>(records).len(),
        |g: int| records_of::<R>(records, subjects_seen::<R>(records)[g]),
    )
}

/// The values of the groups of an aggregation.
pub open spec fn group_views<R: View>(groups: Seq<Vec<R>>) -> Seq<Seq<R::V>> {
    Seq::new(groups.len(), |g: int| views_of(groups[g]@))
}

/// The number of records in all groups together.
pub open spec fn total_len<V>(groups: Seq<Seq<V>>) -> nat
    decreases groups.len(),
{
    if groups.len() == 0 {
        0
    } else {
        total_len(groups.drop_last()) + groups.last().len()
    }
}

/// A subject that was never seen has no records.
pub proof fn lemma_unseen_has_no_records<R: WithSubject>(records: Seq<R::V>, subject: TermView)
    requires
        !subjects_seen::<R>(records).contains(subject),
    ensures
        records_of::<R>(records, subject).len() == 0,
    decreases records.len(),
{
    if records.len() > 0 {
        let before = subjects_seen::<R>(records.drop_last());
        let s = R::subject_of(records.last());
        if before.contains(s) {
            assert(s != subject);
        } else {
            assert(before.push(s)[before.len() as int] == s);
            assert(s != subject);
            assert forall|i: int| 0 <= i < before.len() implies before[i] != subject by {
                assert(before.push(s)[i] == before[i]);
            }
        }
        lemma_unseen_has_no_records::<R>(records.drop_last(), subject);
    }
}

/// No subject is listed twice.
pub proof fn lemma_subjects_distinct<R: WithSubject>(records: Seq<R::V>)
    ensures
        subjects_seen::<R>(records).no_duplicates(),
    decreases records.len(),
{
    if records.len() > 0 {
        lemma_subjects_distinct::<R>(records.drop_last());
    }
}

/// A subject is listed exactly when some record has it.
pub proof fn lemma_subjects_complete<R: WithSubject>(records: Seq<R::V>, subject: TermView)
    ensures
        subjects_seen::<R>(records).contains(subject) <==> exists|i: int|
            0 <= i < records.len() && R::subject_of(#[trigger] records[i]) == subject,
    decreases records.len(),
{
    if records.len() > 0 {
        let init = records.drop_last();
        let before = subjects_seen::<R>(init);
        let s = R::subject_of(records.last());
        lemma_subjects_complete::<R>(init, subject);
        if subjects_seen::<R>(records).contains(subject) {
            if before.contains(subject) {
                let i = choose|i: int|
                    0 <= i < init.len() && R::subject_of(#[trigger] init[i]) == subject;
                assert(records[i] == init[i]);
            } else {
                assert(!before.contains(s)) by {
                    if before.contains(s) {
                        assert(subjects_seen::<R>(records) == before);
                    }
                }
                let j = choose|j: int|
                    0 <= j < before.push(s).len() && before.push(s)[j] == subject;
                if j < before.len() {
                    assert(before[j] == subject);
                }
                assert(s == subject);
                assert(R::subject_of(records[records.len() - 1]) == subject);
            }
        }
        if exists|i: int| 0 <= i < records.len() && R::subject_of(#[trigger] records[i]) == subject {
            let i = choose|i: int|
                0 <= i < records.len() && R::subject_of(#[trigger] records[i]) == subject;
            if i < init.len() {
                assert(init[i] == records[i]);
                assert(before.contains(subject));
                let j = choose|j: int| 0 <= j < before.len() && before[j] == subject;
                if !before.contains(s) {
                    assert(before.push(s)[j] == subject);
                }
            } else {
                assert(s == subject);
                if !before.contains(s) {
                    assert(before.push(s)[before.len() as int] == s);
                }
            }
        }
    }
}

/// Every record of a subject's group has that subject.
pub proof fn lemma_records_have_subject<R: WithSubject>(records: Seq<R::V>, subject: TermView)
    ensures
        forall|i: int|
            0 <= i < records_of::<R>(records, subject).len() ==> R::subject_of(
                #[trigger] records_of::<R>(records, subject)[i],
            ) == subject,
    decreases records.len(),
{
    if records.len() > 0 {
        lemma_records_have_subject::<R>(records.drop_last(), subject);
        let before = records_of::<R>(records.drop_last(), subject);
        let all = records_of::<R>(records, subject);
        assert forall|i: int| 0 <= i < all.len() implies R::subject_of(#[trigger] all[i])
            == subject by {
            if i < before.len() {
                assert(all[i] == before[i]);
            }
        }
    }
}

/// Replacing one group changes the total by the difference of the lengths.
pub proof fn lemma_total_len_update<V>(groups: Seq<Seq<V>>, j: int, x: Seq<V>)
    requires
        0 <= j < groups.len(),
    ensures
        total_len(groups.update(j, x)) + groups[j].len() == total_len(groups) + x.len(),
    decreases groups.len(),
{
    let changed = groups.update(j, x);
    if j == groups.len() - 1 {
        assert(changed.drop_last() =~= groups.drop_last());
    } else {
        assert(changed.drop_last() =~= groups.drop_last().update(j, x));
        lemma_total_len_update(groups.drop_last(), j, x);
    }
}

/// The subjects that occur in a sequence of records.
pub open spec fn subject_set<R: WithSubject>(records: Seq<R::V>) -> Set<TermView> {
    Set::new(
        |k: TermView|
            exists|i: int| 0 <= i < records.len() && R::subject_of(#[trigger] records[i]) == k,
    )
}

/// The groups hold as many records as were received.
pub proof fn lemma_groups_cover<R: WithSubject>(records: Seq<R::V>)
    ensures
        total_len(grouped::<R>(records)) == records.len(),
    decreases records.len(),
{
    let groups = grouped::<R>(records);
    if records.len() == 0 {
        assert(groups.len() == 0);
    } else {
        let init = records.drop_last();
        let seen = subjects_seen::<R>(init);
        let before = grouped::<R>(init);
        let s = R::subject_of(records.last());
        lemma_groups_cover::<R>(init);
        lemma_subjects_distinct::<R>(init);
        if seen.contains(s) {
            let j = choose|j: int| 0 <= j < seen.len() && seen[j] == s;
            let longer = before[j].push(records.last());
            assert(groups =~= before.update(j, longer)) by {
                assert forall|g: int| 0 <= g < groups.len() implies groups[g] == before.update(
                    j,
                    longer,
                )[g] by {
                    if g != j {
                        assert(seen[g] != seen[j]);
                    }
                }
            }
            lemma_total_len_update(before, j, longer);
        } else {
            lemma_unseen_has_no_records::<R>(init, s);
            let single = records_of::<R>(records, s);
            assert(single.len() == 1);
            assert(groups =~= before.push(single)) by {
                assert forall|g: int| 0 <= g < groups.len() implies groups[g] == before.push(
                    single,
                )[g] by {
                    if g < seen.len() {
                        assert(seen.push(s)[g] == seen[g]);
                        assert(seen.contains(seen[g]));
                        assert(seen[g] != s);
                    }
                }
            }
            assert(before.push(single).drop_last() =~= before);
        }
    }
}

/// Aggregation partitions the records by subject: there are as many groups
/// as distinct subjects, no two groups share a subject, every record of a
/// group has the group's subject, every record's subject has a group, and
/// the groups together hold as many records as were received.
pub proof fn lemma_aggregation_partitions<R: WithSubject>(records: Seq<R::V>)
    ensures
        subject_set::<R>(records).finite(),
        grouped::<R>(records).len() == subject_set::<R>(records).len(),
        subjects_seen::<R>(records).no_duplicates(),
        forall|g: int, i: int|
            0 <= g < grouped::<R>(records).len() && 0 <= i < grouped::<R>(records)[g].len()
                ==> R::subject_of(#[trigger] grouped::<R>(records)[g][i]) == subjects_seen::<R>(
                records,
            )[g],
        forall|i: int|
            0 <= i < records.len() ==> subjects_seen::<R>(records).contains(
                R::subject_of(#[trigger] records[i]),
            ),
        total_len(grouped::<R>(records)) == records.len(),
{
    let seen = subjects_seen::<R>(records);
    lemma_subjects_distinct::<R>(records);
    lemma_groups_cover::<R>(records);
    assert(seen.to_set() =~= subject_set::<R>(records)) by {
        assert forall|k: TermView| seen.to_set().contains(k) == subject_set::<R>(
            records,
        ).contains(k) by {
            lemma_subjects_complete::<R>(records, k);
        }
    }
    seen.unique_seq_to_set();
    assert forall|g: int, i: int|
        0 <= g < grouped::<R>(records).len() && 0 <= i < grouped::<R>(records)[g].len()
            implies R::subject_of(#[trigger] grouped::<R>(records)[g][i]) == seen[g] by {
        lemma_records_have_subject::<R>(records, seen[g]);
    }
    assert forall|i: int| 0 <= i < records.len() implies seen.contains(
        R::subject_of(#[trigger] records[i]),
    ) by {
        lemma_subjects_complete::<R>(records, R::subject_of(records[i]));
    }
}

/// The index of the first term equal to `key`, if there is one.
fn find_subject(keys: &Vec<Term>, key: &Term) -> (r: Option<usize>)
    ensures
        match r {
            Some(j) => j < keys@.len() && keys@[j as int]@ == key@,
            None => forall|g: int| 0 <= g < keys@.len() ==> keys@[g]@ != key@,
        },
{
    let mut j: usize = 0;
    while j < keys.len()
        invariant
            j <= keys@.len(),
            forall|g: int| 0 <= g < j ==> keys@[g]@ != key@,
        decreases keys@.len() - j,
    {
        if keys[j].same(key) {
            return Some(j);
        }
        j += 1;
    }
    None
}

/// The same elements, last first.
pub fn reversed<R>(v: Vec<R>) -> (r: Vec<R>)
    ensures
        r@.len() == v@.len(),
        forall|i: int| 0 <= i < r@.len() ==> r@[i] == v@[v@.len() - 1 - i],
{
    let ghost all = v@;
    let mut v = v;
    let mut out: Vec<R> = Vec::new();
    while v.len() > 0
        invariant
            v@.len() + out@.len() == all.len(),
            v@ == all.take(v@.len() as int),
            forall|i: int| 0 <= i < out@.len() ==> out@[i] == all[all.len() - 1 - i],
        decreases v@.len(),
    {
        let x = v.pop().unwrap();
        out.push(x);
        assert(v@ =~= all.take(v@.len() as int));
    }
    out
}

/// Groups records by subject. The groups stand in the order in which their
/// subjects are first seen, and each group keeps its records in the order
/// received.
pub fn group_by_subject<R: WithSubject>(records: Vec<R>) -> (groups: Vec<Vec<R>>)
    ensures
        group_views(groups@) == grouped::<R>(views_of(records@)),
{
    let ghost all = views_of(records@);
    let n: usize = records.len();
    let mut rest = reversed(records);
    let mut keys: Vec<Term> = Vec::new();
    let mut groups: Vec<Vec<R>> = Vec::new();
    let mut i: usize = 0;
    while rest.len() > 0
        invariant
            i + rest@.len() == n,
            n == all.len(),
            forall|j: int| 0 <= j < rest@.len() ==> (#[trigger] rest@[j])@ == all[n - 1 - j],
            keys@.len() == groups@.len(),
            keys@.len() == subjects_seen::<R>(all.take(i as int)).len(),
            forall|g: int|
                0 <= g < keys@.len() ==> (#[trigger] keys@[g])@ == subjects_seen::<R>(
                    all.take(i as int),
                )[g],
            forall|g: int|
                0 <= g < groups@.len() ==> views_of((#[trigger] groups@[g])@) == records_of::<R>(
                    all.take(i as int),
                    subjects_seen::<R>(all.take(i as int))[g],
                ),
        decreases rest@.len(),
    {
        let ghost prefix = all.take(i as int);
        let ghost next = all.take(i + 1);
        let ghost seen = subjects_seen::<R>(prefix);
        let ghost old_groups = groups@;
        let ghost old_keys = keys@;
        let r = rest.pop().unwrap();
        let ghost k = R::subject_of(r@);
        proof {
            assert(next.drop_last() =~= prefix);
            assert(next.last() == r@);
            lemma_subjects_distinct::<R>(prefix);
        }
        match find_subject(&keys, r.subject()) {
            Some(j) => {
                let ghost rv = r@;
                groups[j].push(r);
                proof {
                    assert(seen[j as int] == k);
                    assert(seen.contains(k));
                    assert(subjects_seen::<R>(next) == seen);
                    assert(views_of(groups@[j as int]@) =~= views_of(old_groups[j as int]@).push(
                        rv,
                    ));
                    assert forall|g: int| 0 <= g < groups@.len() implies views_of(
                        (#[trigger] groups@[g])@,
                    ) == records_of::<R>(next, seen[g]) by {
                        if g != j {
                            assert(groups@[g] == old_groups[g]);
                            assert(seen[g] != seen[j as int]);
                        }
                    }
                }
            },
            None => {
                let ghost rv = r@;
                keys.push(r.subject().duplicate());
                let mut group: Vec<R> = Vec::new();
                group.push(r);
                groups.push(group);
                proof {
                    assert forall|g: int| 0 <= g < seen.len() implies seen[g] != k by {
                        assert(old_keys[g]@ == seen[g]);
                    }
                    assert(!seen.contains(k));
                    lemma_unseen_has_no_records::<R>(prefix, k);
                    assert(subjects_seen::<R>(next) == seen.push(k));
                    assert(views_of(groups@[groups@.len() - 1]@) =~= seq![rv]);
                    assert(records_of::<R>(next, k) =~= seq![rv]);
                    assert forall|g: int| 0 <= g < groups@.len() implies views_of(
                        (#[trigger] groups@[g])@,
                    ) == records_of::<R>(next, seen.push(k)[g]) by {
                        if g < old_groups.len() {
                            assert(groups@[g] == old_groups[g]);
                            assert(seen.contains(seen[g]));
                            assert(seen[g] != k);
                        }
                    }
                }
            },
        }
        i += 1;
    }
    proof {
        assert(all.take(i as int) =~= all);
        assert(group_views(groups@) =~= grouped::<R>(all));
    }
    groups
}

/// A subject that was seen has at least one record.
pub proof fn lemma_seen_has_records<R: WithSubject>(records: Seq<R::V>, subject: TermView)
    requires
        subjects_seen::<R>(records).contains(subject),
    ensures
        records_of::<R>(records, subject).len() > 0,
    decreases records.len(),
{
    if records.len() > 0 {
        let before = subjects_seen::<R>(records.drop_last());
        let s = R::subject_of(records.last());
        if s != subject {
            if !before.contains(s) {
                let j = choose|j: int|
                    0 <= j < before.push(s).len() && before.push(s)[j] == subject;
                assert(before[j] == subject);
            }
            lemma_seen_has_records::<R>(records.drop_last(), subject);
        }
    }
}

/// No group is empty.
pub proof fn lemma_groups_nonempty<R: WithSubject>(records: Seq<R::V>)
    ensures
        forall|g: int|
            0 <= g < grouped::<R>(records).len() ==> (#[trigger] grouped::<R>(records)[g]).len()
                > 0,
{
    let seen = subjects_seen::<R>(records);
    assert forall|g: int| 0 <= g < grouped::<R>(records).len() implies (#[trigger] grouped::<R>(
        records,
    )[g]).len() > 0 by {
        assert(seen.contains(seen[g]));
        lemma_seen_has_records::<R>(records, seen[g]);
    }
}

} // verus!
