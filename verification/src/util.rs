use vstd::prelude::*;
use crate::pairs::{find_pair, keys_distinct, lemma_pair_find_none, pair_find, pair_views, PairsView};

verus! {

/// `oxigraph::model::BlankNode::default`, taken by its identifier. A fresh
/// blank node has an identifier drawn at random: nothing is claimed of it.
#[verifier::external_body]
fn fresh_blank_node() -> (id: String) {
    oxigraph::model::BlankNode::default().into_string()
}

/// Gives every blank node label of a document one blank node of the store's
/// own, so that the labels of two documents cannot meet: a label seen before
/// keeps its node, a new label gets a fresh one. No label stands twice.
pub struct RDFMapper {
    blanks: Vec<(String, String)>,
}

impl View for RDFMapper {
    type V = PairsView;

    closed spec fn view(&self) -> PairsView {
        pair_views(self.blanks@)
    }
}

impl RDFMapper {
    pub open spec fn wf(&self) -> bool {
        keys_distinct(self@)
    }

    pub fn new() -> (mapper: RDFMapper)
        ensures
            mapper.wf(),
            mapper@ == Seq::<(Seq<char>, Seq<char>)>::empty(),
    {
        let mapper = RDFMapper { blanks: Vec::new() };
        proof {
            assert(mapper@ =~= Seq::<(Seq<char>, Seq<char>)>::empty());
        }
        mapper
    }

    /// The identifier of the store's node for a label: the one given before
    /// for this label, with nothing changed, or else a fresh one, which is
    /// remembered for the label.
    pub fn blank_node(&mut self, id: &str) -> (node: String)
        requires
            old(self).wf(),
        ensures
            final(self).wf(),
            match pair_find(old(self)@, id@) {
                Some(known) => node@ == known && final(self)@ == old(self)@,
                None => final(self)@ == old(self)@.push((id@, node@)),
            },
    {
        match find_pair(&self.blanks, id) {
            Some(known) => known,
            None => {
                let node = fresh_blank_node();
                proof {
                    lemma_pair_find_none(self@, id@);
                }
                let ghost before = self.blanks@;
                let ghost pair = (id@, node@);
                self.blanks.push((id.to_owned(), node.clone()));
                proof {
                    assert(pair_views(self.blanks@) =~= pair_views(before).push(pair));
                }
                node
            },
        }
    }
}

} // verus!
