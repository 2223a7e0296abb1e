use vstd::prelude::*;

verus! {

/// The four shapes an RDF term can take.
#[derive(Clone, Copy, Debug, PartialEq, Eq, Structural)]
pub enum TermKind {
    NamedNode,
    BlankNode,
    Literal,
    Triple,
}

/// The mathematical value of a term: its shape and its text.
pub type TermView = (TermKind, Seq<char>);

/// The mathematical value of a result row: its bindings in order, each a
/// variable name with the term bound to it.
pub type RowView = Seq<(Seq<char>, TermView)>;

/// An RDF term as plain data. `value` is the IRI of a named node, the
/// identifier of a blank node, the lexical value of a literal, or the text of
/// a quoted triple.
#[derive(Clone, Debug, PartialEq, Eq)]
pub struct Term {
    pub kind: TermKind,
    pub value: String,
}

impl View for Term {
    type V = TermView;

    open spec fn view(&self) -> TermView {
        (self.kind, self.value@)
    }
}

/// A term identifies a subject when it is a named or a blank node.
pub open spec fn is_node(t: TermView) -> bool {
    t.0 == TermKind::NamedNode || t.0 == TermKind::BlankNode
}

impl Term {
    pub fn named_node(iri: &str) -> (t: Term)
        ensures
            t@ == (TermKind::NamedNode, iri@),
    {
        Term { kind: TermKind::NamedNode, value: iri.to_owned() }
    }

    pub fn blank_node(id: &str) -> (t: Term)
        ensures
            t@ == (TermKind::BlankNode, id@),
    {
        Term { kind: TermKind::BlankNode, value: id.to_owned() }
    }

    pub fn literal(value: &str) -> (t: Term)
        ensures
            t@ == (TermKind::Literal, value@),
    {
        Term { kind: TermKind::Literal, value: value.to_owned() }
    }

    pub fn triple(text: &str) -> (t: Term)
        ensures
            t@ == (TermKind::Triple, text@),
    {
        Term { kind: TermKind::Triple, value: text.to_owned() }
    }

    /// A copy with the same shape and text.
    pub fn duplicate(&self) -> (t: Term)
        ensures
            t@ == self@,
    {
        Term { kind: self.kind, value: self.value.clone() }
    }

    /// Whether two terms have the same shape and the same text.
    pub fn same(&self, other: &Term) -> (r: bool)
        ensures
            r == (self@ == other@),
    {
        self.kind == other.kind && self.value == other.value
    }

    /// Whether the term can stand as a subject.
    pub fn is_subject(&self) -> (r: bool)
        ensures
            r == is_node(self@),
    {
        self.kind == TermKind::NamedNode || self.kind == TermKind::BlankNode
    }
}

/// The lexical value of a literal; nothing for any other term.
pub open spec fn literal_text(t: TermView) -> Option<Seq<char>> {
    if t.0 == TermKind::Literal {
        Some(t.1)
    } else {
        None
    }
}

/// The identifier of a named or blank node; nothing for any other term and
/// for an absent one.
pub open spec fn node_text(t: Option<TermView>) -> Option<Seq<char>> {
    match t {
        Some(t) => if is_node(t) {
            Some(t.1)
        } else {
            None
        },
        None => None,
    }
}

/// The value of an optional string.
pub open spec fn opt_text(s: Option<String>) -> Option<Seq<char>> {
    match s {
        Some(s) => Some(s@),
        None => None,
    }
}

pub fn unwrap_literal(x: &Term) -> (r: Option<String>)
    ensures
        opt_text(r) == literal_text(x@),
{
    match x.kind {
        TermKind::Literal => Some(x.value.clone()),
        _ => None,
    }
}

pub fn unwrap_node(x: Option<&Term>) -> (r: Option<String>)
    ensures
        opt_text(r) == node_text(opt_term_view(x)),
{
    match x {
        Some(t) => {
            if t.is_subject() {
                Some(t.value.clone())
            } else {
                None
            }
        },
        None => None,
    }
}

/// The value of an optional borrowed term.
pub open spec fn opt_term_view(x: Option<&Term>) -> Option<TermView> {
    match x {
        Some(t) => Some(t@),
        None => None,
    }
}

/// The term bound to `name` in a row: that of the first binding of the name.
pub open spec fn binding(row: RowView, name: Seq<char>) -> Option<TermView>
    decreases row.len(),
{
    if row.len() == 0 {
        None
    } else if row[0].0 == name {
        Some(row[0].1)
    } else {
        binding(row.drop_first(), name)
    }
}

/// One row of a pattern query's result: variable names and the terms bound
/// to them, in the order the query evaluator gave them.
#[derive(Clone, Debug, PartialEq, Eq)]
pub struct Row {
    pub bindings: Vec<(String, Term)>,
}

impl View for Row {
    type V = RowView;

    open spec fn view(&self) -> RowView {
        Seq::new(self.bindings@.len(), |i: int| (self.bindings@[i].0@, self.bindings@[i].1@))
    }
}

impl Row {
    /// A row without bindings.
    pub fn new() -> (r: Row)
        ensures
            r@ == Seq::<(Seq<char>, TermView)>::empty(),
    {
        let r = Row { bindings: Vec::new() };
        assert(r@ =~= Seq::<(Seq<char>, TermView)>::empty());
        r
    }

    /// Appends a binding behind those already there.
    pub fn bind(&mut self, name: &str, term: Term)
        ensures
            final(self)@ == old(self)@.push((name@, term@)),
    {
        self.bindings.push((name.to_owned(), term));
        assert(self@ =~= old(self)@.push((name@, term@)));
    }

    /// The term bound to `name`, if the row binds it.
    pub fn get(&self, name: &str) -> (r: Option<&Term>)
        ensures
            opt_term_view(r) == binding(self@, name@),
    {
        let key: String = name.to_owned();
        let mut i: usize = 0;
        proof {
            assert(self@.skip(0) =~= self@);
        }
        while i < self.bindings.len()
            invariant
                i <= self.bindings@.len(),
                key@ == name@,
                binding(self@, name@) == binding(self@.skip(i as int), name@),
            decreases self.bindings@.len() - i,
        {
            proof {
                let rest = self@.skip(i as int);
                assert(rest[0] == self@[i as int]);
                assert(rest.drop_first() =~= self@.skip(i + 1));
            }
            if self.bindings[i].0 == key {
                return Some(&self.bindings[i].1);
            }
            i += 1;
        }
        proof {
            assert(self@.skip(i as int).len() == 0);
        }
        None
    }
}

} // verus!
