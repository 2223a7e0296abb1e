use vstd::prelude::*;
use crate::term::opt_text;

verus! {

/// The value of a list of pairs of strings.
pub type PairsView = Seq<(Seq<char>, Seq<char>)>;

/// The values of a list of pairs of strings.
pub open spec fn pair_views(v: Seq<(String, String)>) -> PairsView {
    Seq::new(v.len(), |i: int| (v[i].0@, v[i].1@))
}

/// What the first pair with the given key holds.
pub open spec fn pair_find(pairs: PairsView, key: Seq<char>) -> Option<Seq<char>>
    decreases pairs.len(),
{
    if pairs.len() == 0 {
        None
    } else {
        match pair_find(pairs.drop_last(), key) {
            Some(v) => Some(v),
            None => if pairs.last().0 == key {
                Some(pairs.last().1)
            } else {
                None
            },
        }
    }
}

/// No key stands in two pairs.
pub open spec fn keys_distinct(pairs: PairsView) -> bool {
    forall|i: int, j: int|
        0 <= i < j < pairs.len() ==> (#[trigger] pairs[i]).0 != (#[trigger] pairs[j]).0
}

/// A key that is found stays found, with the same value, when more pairs
/// follow.
pub proof fn lemma_pair_find_extends(pairs: PairsView, more: PairsView, key: Seq<char>)
    requires
        pair_find(pairs, key) is Some,
    ensures
        pair_find(pairs + more, key) == pair_find(pairs, key),
    decreases more.len(),
{
    if more.len() == 0 {
        assert(pairs + more =~= pairs);
    } else {
        lemma_pair_find_extends(pairs, more.drop_last(), key);
        assert((pairs + more).drop_last() =~= pairs + more.drop_last());
    }
}

/// A key that is not found stands in no pair.
pub proof fn lemma_pair_find_none(pairs: PairsView, key: Seq<char>)
    requires
        pair_find(pairs, key) is None,
    ensures
        forall|i: int| 0 <= i < pairs.len() ==> (#[trigger] pairs[i]).0 != key,
    decreases pairs.len(),
{
    if pairs.len() > 0 {
        lemma_pair_find_none(pairs.drop_last(), key);
        assert forall|i: int| 0 <= i < pairs.len() implies (#[trigger] pairs[i]).0 != key by {
            if i < pairs.len() - 1 {
                assert(pairs.drop_last()[i] == pairs[i]);
            }
        }
    }
}

/// Looks a key up in a list of pairs.
pub fn find_pair(pairs: &Vec<(String, String)>, key: &str) -> (r: Option<String>)
    ensures
        opt_text(r) == pair_find(pair_views(pairs@), key@),
{
    let ghost all = pair_views(pairs@);
    let wanted: String = key.to_owned();
    let mut i: usize = 0;
    while i < pairs.len()
        invariant
            i <= pairs@.len(),
            all == pair_views(pairs@),
            wanted@ == key@,
            pair_find(all.take(i as int), key@) is None,
        decreases pairs@.len() - i,
    {
        proof {
            assert(all.take(i + 1).drop_last() =~= all.take(i as int));
            assert(all.take(i + 1).last() == all[i as int]);
        }
        if pairs[i].0 == wanted {
            proof {
                lemma_pair_find_extends(all.take(i + 1), all.skip(i + 1), key@);
                assert(all.take(i + 1) + all.skip(i + 1) =~= all);
            }
            return Some(pairs[i].1.clone());
        }
        i += 1;
    }
    proof {
        assert(all.take(i as int) =~= all);
    }
    None
}

} // verus!
