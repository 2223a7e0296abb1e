use vstd::prelude::*;
use vstd::string::{StrSliceExecFns, StringExecFns};

verus! {

/// The namespaces that the generated Turtle uses.
#[derive(Clone, Copy, Debug, PartialEq, Eq, Hash, Structural)]
pub enum Prefix {
    Sh,
    Xsd,
    Dcterms,
    Rdfs,
    Sds,
    Conn,
    Nifi,
    Fno,
    Fnom,
}

/// The short name of a namespace.
pub open spec fn prefix_name(p: Prefix) -> Seq<char> {
    match p {
        Prefix::Sh => "sh"@,
        Prefix::Xsd => "xsd"@,
        Prefix::Dcterms => "dcterms"@,
        Prefix::Rdfs => "rdfs"@,
        Prefix::Sds => "sds"@,
        Prefix::Conn => ""@,
        Prefix::Nifi => "nifi"@,
        Prefix::Fno => "fno"@,
        Prefix::Fnom => "fnom"@,
    }
}

/// The IRI of a namespace.
pub open spec fn prefix_iri(p: Prefix) -> Seq<char> {
    match p {
        Prefix::Sh => "http://www.w3.org/ns/shacl#"@,
        Prefix::Xsd => "http://www.w3.org/2001/XMLSchema#"@,
        Prefix::Dcterms => "http://purl.org/dc/terms/"@,
        Prefix::Rdfs => "http://www.w3.org/2000/01/rdf-schema#"@,
        Prefix::Sds => "https://w3id.org/sds#"@,
        Prefix::Conn => "https://w3id.org/conn#"@,
        Prefix::Nifi => "https://w3id.org/conn/nifi#"@,
        Prefix::Fno => "https://w3id.org/function/ontology#"@,
        Prefix::Fnom => "https://w3id.org/function/vocabulary/mapping#"@,
    }
}

/// The Turtle line that declares a namespace.
pub open spec fn prefix_line(p: Prefix) -> Seq<char> {
    "@prefix "@ + prefix_name(p) + ": <"@ + prefix_iri(p) + "> .\n"@
}

/// The declarations of a list of namespaces, one line each.
pub open spec fn prefix_lines(prefixes: Seq<Prefix>) -> Seq<char>
    decreases prefixes.len(),
{
    if prefixes.len() == 0 {
        Seq::empty()
    } else {
        prefix_lines(prefixes.drop_last()) + prefix_line(prefixes.last())
    }
}

/// A list of namespaces with one more, unless it is there already.
pub open spec fn with_prefix(prefixes: Seq<Prefix>, p: Prefix) -> Seq<Prefix> {
    if prefixes.contains(p) {
        prefixes
    } else {
        prefixes.push(p)
    }
}

/// A list of namespaces with more added, one after the other.
pub open spec fn with_prefixes(prefixes: Seq<Prefix>, more: Seq<Prefix>) -> Seq<Prefix>
    decreases more.len(),
{
    if more.len() == 0 {
        prefixes
    } else {
        with_prefix(with_prefixes(prefixes, more.drop_last()), more.last())
    }
}

impl Prefix {
    pub fn name(self) -> (s: &'static str)
        ensures
            s@ == prefix_name(self),
    {
        match self {
            Prefix::Sh => "sh",
            Prefix::Xsd => "xsd",
            Prefix::Dcterms => "dcterms",
            Prefix::Rdfs => "rdfs",
            Prefix::Sds => "sds",
            Prefix::Conn => "",
            Prefix::Nifi => "nifi",
            Prefix::Fno => "fno",
            Prefix::Fnom => "fnom",
        }
    }

    pub fn iri(self) -> (s: &'static str)
        ensures
            s@ == prefix_iri(self),
    {
        match self {
            Prefix::Sh => "http://www.w3.org/ns/shacl#",
            Prefix::Xsd => "http://www.w3.org/2001/XMLSchema#",
            Prefix::Dcterms => "http://purl.org/dc/terms/",
            Prefix::Rdfs => "http://www.w3.org/2000/01/rdf-schema#",
            Prefix::Sds => "https://w3id.org/sds#",
            Prefix::Conn => "https://w3id.org/conn#",
            Prefix::Nifi => "https://w3id.org/conn/nifi#",
            Prefix::Fno => "https://w3id.org/function/ontology#",
            Prefix::Fnom => "https://w3id.org/function/vocabulary/mapping#",
        }
    }
}

pub fn prefix_to_string(prefix: Prefix) -> (s: String)
    ensures
        s@ == prefix_line(prefix),
{
    let mut s = String::new();
    s.append("@prefix ");
    s.append(prefix.name());
    s.append(": <");
    s.append(prefix.iri());
    s.append("> .\n");
    proof {
        assert(s@ =~= prefix_line(prefix));
    }
    s
}

/// The namespaces that a Turtle document needs, in the order in which they
/// were first asked for; none stands twice.
#[derive(Debug)]
pub struct RdfContext {
    prefixes: Vec<Prefix>,
}

impl View for RdfContext {
    type V = Seq<Prefix>;

    closed spec fn view(&self) -> Seq<Prefix> {
        self.prefixes@
    }
}

impl RdfContext {
    pub open spec fn wf(&self) -> bool {
        self@.no_duplicates()
    }

    pub fn new() -> (ctx: RdfContext)
        ensures
            ctx.wf(),
            ctx@ == Seq::<Prefix>::empty(),
    {
        RdfContext { prefixes: Vec::new() }
    }

    pub fn add_prefix(&mut self, prefix: Prefix)
        requires
            old(self).wf(),
        ensures
            final(self).wf(),
            final(self)@ == with_prefix(old(self)@, prefix),
    {
        let mut i: usize = 0;
        while i < self.prefixes.len()
            invariant
                i <= self.prefixes@.len(),
                self.prefixes@ == old(self).prefixes@,
                self.wf(),
                forall|j: int| 0 <= j < i ==> self.prefixes@[j] != prefix,
            decreases self.prefixes@.len() - i,
        {
            if self.prefixes[i] == prefix {
                proof {
                    assert(self@[i as int] == prefix);
                }
                return ;
            }
            i += 1;
        }
        self.prefixes.push(prefix);
    }

    /// Adds several namespaces, one after the other.
    pub fn add_prefixes(&mut self, more: &[Prefix])
        requires
            old(self).wf(),
        ensures
            final(self).wf(),
            final(self)@ == with_prefixes(old(self)@, more@),
    {
        let mut i: usize = 0;
        while i < more.len()
            invariant
                i <= more@.len(),
                self.wf(),
                self@ == with_prefixes(old(self)@, more@.take(i as int)),
            decreases more@.len() - i,
        {
            proof {
                assert(more@.take(i + 1).drop_last() =~= more@.take(i as int));
            }
            self.add_prefix(more[i]);
            i += 1;
        }
        proof {
            assert(more@.take(i as int) =~= more@);
        }
    }

    /// The declarations of the namespaces, one line each.
    pub fn prefixes(&self) -> (s: String)
        ensures
            s@ == prefix_lines(self@),
    {
        let mut s = String::new();
        let mut i: usize = 0;
        while i < self.prefixes.len()
            invariant
                i <= self.prefixes@.len(),
                s@ == prefix_lines(self.prefixes@.take(i as int)),
            decreases self.prefixes@.len() - i,
        {
            proof {
                assert(self.prefixes@.take(i + 1).drop_last() =~= self.prefixes@.take(i as int));
            }
            let line = prefix_to_string(self.prefixes[i]);
            s.append(line.as_str());
            i += 1;
        }
        proof {
            assert(self.prefixes@.take(i as int) =~= self.prefixes@);
        }
        s
    }
}

/// Whether a character has the Unicode property `Alphabetic`.
pub uninterp spec fn alphabetic(c: char) -> bool;

/// `char::is_alphabetic`. The claim: the answer depends on the character
/// alone.
#[verifier::external_body]
fn is_alphabetic(c: char) -> (r: bool)
    ensures
        r == alphabetic(c),
{
    c.is_alphabetic()
}

/// The lower-case form of an ASCII capital letter; any other character as
/// it is.
pub open spec fn ascii_lower(c: char) -> char {
    if 'A' <= c && c <= 'Z' {
        ((c as u8) + 32) as char
    } else {
        c
    }
}

/// `char::to_ascii_lowercase`. The claim: the letters `A` to `Z` become
/// `a` to `z`, and every other character stays as it is.
#[verifier::external_body]
fn to_ascii_lowercase(c: char) -> (r: char)
    ensures
        r == ascii_lower(c),
{
    c.to_ascii_lowercase()
}

/// `String::push`. The claim: the character is appended to the text.
#[verifier::external_body]
fn push_char(s: &mut String, c: char)
    ensures
        final(s)@ == old(s)@.push(c),
{
    s.push(c)
}

/// What stands for a character in a path: a letter in lower case, and a
/// hyphen for anything that is no letter.
pub open spec fn safe_char(c: char) -> char {
    if alphabetic(c) {
        ascii_lower(c)
    } else {
        '-'
    }
}

/// A name made safe for use as the local part of a path.
pub open spec fn safe_path(path: Seq<char>) -> Seq<char> {
    Seq::new(path.len(), |i: int| safe_char(path[i]))
}

pub fn make_path_safe(path: &str) -> (s: String)
    ensures
        s@ == safe_path(path@),
{
    let mut s = String::new();
    let n = path.unicode_len();
    let mut i: usize = 0;
    while i < n
        invariant
            i <= n,
            n == path@.len(),
            s@ == safe_path(path@.take(i as int)),
        decreases n - i,
    {
        let c = path.get_char(i);
        let safe = if is_alphabetic(c) {
            to_ascii_lowercase(c)
        } else {
            '-'
        };
        push_char(&mut s, safe);
        proof {
            assert(s@ =~= safe_path(path@.take(i + 1)));
        }
        i += 1;
    }
    proof {
        assert(path@.take(i as int) =~= path@);
    }
    s
}

} // verus!
