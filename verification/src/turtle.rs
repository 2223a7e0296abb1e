use vstd::prelude::*;
use vstd::string::StringExecFns;
use crate::models::{
    ControllerServiceDTO, DescriptorDTO, DocumentedTypeDTO, ProcessorDTO, RelationshipDTO,
    VersionedEntity,
};
use crate::rdf::{make_path_safe, safe_path, with_prefixes, Prefix, RdfContext};

verus! {

pub const TYPE_HEAD: &'static str = "[] a :";

pub const LINE_END: &'static str = ";\n";

pub const TYPE_DESCRIPTION: &'static str = "  rdfs:description ";

pub const TYPE_TAG: &'static str = "  :tag ";

pub const FULL_STOP: &'static str = ".";

pub const SUBJECT_HEAD: &'static str = "\n    nifi:";

pub const SERVICE_TYPE: &'static str = " a nifi:NifiProcess;\n        nifi:type ";

pub const SERVICE_SHAPE: &'static str = ".\n\n    [] a sh:NodeShape;\n        sh:targetClass nifi:";

pub const SERVICE_SHAPE_END: &'static str = "; ";

pub const PROCESS_MAPPINGS: &'static str = " a nifi:NifiProcess;\n        ";

pub const PROCESS_TYPE: &'static str = "\n        nifi:type ";

pub const PROCESS_SHAPE: &'static str = ".\n\n    [] a sh:NodeShape;\n       sh:targetClass nifi:";

pub const PROCESS_INCOMING: &'static str = ";\n       sh:property [\n          sh:class :ReaderChannel;\n          sh:path nifi:INCOMING_CHANNEL;\n          sh:name \"Incoming channel\";\n          sh:description \"Combination of all incoming channels\";\n        ];\n        ";

pub const MAPPING_HEAD: &'static str = "nifi:mapping [ fno:parameterMapping [ fnom:functionParameter nifi:";

pub const MAPPING_POSITION: &'static str = "; fnom:implementationParameterPosition ";

pub const MAPPING_END: &'static str = " ] ]; \n";

pub const RELATIONSHIP_HEAD: &'static str = " sh:property [\n          sh:class :WriterChannel;\n          sh:path nifi:";

pub const PROPERTY_NAME: &'static str = ";\n          sh:name ";

pub const RELATIONSHIP_NAME_END: &'static str = ";   ";

pub const RELATIONSHIP_DESCRIPTION: &'static str = "  sh:description ";

pub const SEMICOLON: &'static str = ";";

pub const RELATIONSHIP_END: &'static str = "];";

pub const DESCRIPTOR_HEAD: &'static str = "\n    sh:property [\n          sh:datatype xsd:string;\n          sh:path nifi:";

pub const DESCRIPTOR_DESCRIPTION: &'static str = ";\n          sh:description ";

pub const DESCRIPTOR_COUNT: &'static str = ";\n          sh:minCount ";

pub const DESCRIPTOR_DEFAULT: &'static str = "sh:defaultValue ";

pub const DESCRIPTOR_END: &'static str = "] ;";

pub const NEW_LINE: &'static str = "\n";

pub const ONE: &'static str = "1";

pub const ZERO: &'static str = "0";

/// A text as the `Debug` form of a string gives it: in double quotes, with
/// the characters escaped that need it.
pub uninterp spec fn debug_text(s: Seq<char>) -> Seq<char>;

/// `format!` with `{:?}` on a string. The claim: the result depends on the
/// text alone.
#[verifier::external_body]
fn quoted(s: &str) -> (r: String)
    ensures
        r@ == debug_text(s@),
{
    format!("{:?}", s)
}

/// A value that can be written as Turtle.
pub trait ToRDF {
    /// The namespaces that the text uses.
    spec fn namespaces() -> Seq<Prefix>;

    /// The Turtle text of the value.
    spec fn turtle(&self) -> Seq<char>;

    fn add_ctx(ctx: &mut RdfContext)
        requires
            old(ctx).wf(),
        ensures
            final(ctx).wf(),
            final(ctx)@ == with_prefixes(old(ctx)@, Self::namespaces()),
    ;

    fn to_rdf(&self) -> (s: String)
        ensures
            s@ == self.turtle(),
    ;
}

/// The lines that give the tags of a type.
pub open spec fn tag_lines(tags: Seq<String>) -> Seq<char>
    decreases tags.len(),
{
    if tags.len() == 0 {
        Seq::empty()
    } else {
        tag_lines(tags.drop_last()) + (TYPE_TAG@ + debug_text(tags.last()@) + LINE_END@)
    }
}

/// The description line of a type, if it has a description.
pub open spec fn type_description(d: Option<String>) -> Seq<char> {
    match d {
        Some(text) => TYPE_DESCRIPTION@ + debug_text(text@) + LINE_END@,
        None => Seq::empty(),
    }
}

impl ToRDF for DocumentedTypeDTO {
    open spec fn namespaces() -> Seq<Prefix> {
        seq![Prefix::Rdfs, Prefix::Conn]
    }

    open spec fn turtle(&self) -> Seq<char> {
        TYPE_HEAD@ + self.ty@ + LINE_END@ + type_description(self.description) + tag_lines(
            self.tags@,
        ) + FULL_STOP@
    }

    fn add_ctx(ctx: &mut RdfContext) {
        let needed = [Prefix::Rdfs, Prefix::Conn];
        proof {
            assert(needed@ =~= Self::namespaces());
        }
        ctx.add_prefixes(&needed);
    }

    fn to_rdf(&self) -> (s: String) {
        let mut s = String::new();
        s.append(TYPE_HEAD);
        s.append(self.ty.as_str());
        s.append(LINE_END);
        match &self.description {
            Some(text) => {
                let q = quoted(text.as_str());
                s.append(TYPE_DESCRIPTION);
                s.append(q.as_str());
                s.append(LINE_END);
            },
            None => {},
        }
        let ghost head = TYPE_HEAD@ + self.ty@ + LINE_END@ + type_description(self.description);
        proof {
            assert(s@ =~= head + tag_lines(self.tags@.take(0)));
        }
        let mut i: usize = 0;
        while i < self.tags.len()
            invariant
                i <= self.tags@.len(),
                s@ == head + tag_lines(self.tags@.take(i as int)),
            decreases self.tags@.len() - i,
        {
            proof {
                assert(self.tags@.take(i + 1).drop_last() =~= self.tags@.take(i as int));
            }
            let q = quoted(self.tags[i].as_str());
            s.append(TYPE_TAG);
            s.append(q.as_str());
            s.append(LINE_END);
            proof {
                assert(s@ =~= head + tag_lines(self.tags@.take(i + 1)));
            }
            i += 1;
        }
        proof {
            assert(self.tags@.take(i as int) =~= self.tags@);
        }
        s.append(FULL_STOP);
        s
    }
}

/// The default value of a property, if it has one.
pub open spec fn default_text(d: Option<String>) -> Seq<char> {
    match d {
        Some(text) => DESCRIPTOR_DEFAULT@ + debug_text(text@) + SEMICOLON@,
        None => Seq::empty(),
    }
}

/// The least number of values of a property: one where it is required.
pub open spec fn min_count(required: bool) -> Seq<char> {
    if required {
        ONE@
    } else {
        ZERO@
    }
}

impl ToRDF for DescriptorDTO {
    open spec fn namespaces() -> Seq<Prefix> {
        seq![Prefix::Sh, Prefix::Xsd]
    }

    open spec fn turtle(&self) -> Seq<char> {
        DESCRIPTOR_HEAD@ + safe_path(self.name@) + PROPERTY_NAME@ + debug_text(self.display@)
            + DESCRIPTOR_DESCRIPTION@ + debug_text(self.description@) + DESCRIPTOR_COUNT@
            + min_count(self.required) + SEMICOLON@ + default_text(self.default_value)
            + DESCRIPTOR_END@
    }

    fn add_ctx(ctx: &mut RdfContext) {
        let needed = [Prefix::Sh, Prefix::Xsd];
        proof {
            assert(needed@ =~= Self::namespaces());
        }
        ctx.add_prefixes(&needed);
    }

    fn to_rdf(&self) -> (s: String) {
        let path = make_path_safe(self.name.as_str());
        let display = quoted(self.display.as_str());
        let description = quoted(self.description.as_str());
        let mut s = String::new();
        s.append(DESCRIPTOR_HEAD);
        s.append(path.as_str());
        s.append(PROPERTY_NAME);
        s.append(display.as_str());
        s.append(DESCRIPTOR_DESCRIPTION);
        s.append(description.as_str());
        s.append(DESCRIPTOR_COUNT);
        if self.required {
            s.append(ONE);
        } else {
            s.append(ZERO);
        }
        s.append(SEMICOLON);
        match &self.default_value {
            Some(text) => {
                let q = quoted(text.as_str());
                s.append(DESCRIPTOR_DEFAULT);
                s.append(q.as_str());
                s.append(SEMICOLON);
            },
            None => {},
        }
        s.append(DESCRIPTOR_END);
        proof {
            assert(s@ =~= self.turtle());
        }
        s
    }
}

/// The description of a relationship, if it has one.
pub open spec fn relationship_description(d: Option<String>) -> Seq<char> {
    match d {
        Some(text) => RELATIONSHIP_DESCRIPTION@ + debug_text(text@) + SEMICOLON@,
        None => Seq::empty(),
    }
}

impl ToRDF for RelationshipDTO {
    open spec fn namespaces() -> Seq<Prefix> {
        seq![Prefix::Sh, Prefix::Nifi]
    }

    open spec fn turtle(&self) -> Seq<char> {
        RELATIONSHIP_HEAD@ + safe_path(self.name@) + PROPERTY_NAME@ + debug_text(self.name@)
            + RELATIONSHIP_NAME_END@ + relationship_description(self.description)
            + RELATIONSHIP_END@
    }

    fn add_ctx(ctx: &mut RdfContext) {
        let needed = [Prefix::Sh, Prefix::Nifi];
        proof {
            assert(needed@ =~= Self::namespaces());
        }
        ctx.add_prefixes(&needed);
    }

    fn to_rdf(&self) -> (s: String) {
        let path = make_path_safe(self.name.as_str());
        let name = quoted(self.name.as_str());
        let mut s = String::new();
        s.append(RELATIONSHIP_HEAD);
        s.append(path.as_str());
        s.append(PROPERTY_NAME);
        s.append(name.as_str());
        s.append(RELATIONSHIP_NAME_END);
        match &self.description {
            Some(text) => {
                let q = quoted(text.as_str());
                s.append(RELATIONSHIP_DESCRIPTION);
                s.append(q.as_str());
                s.append(SEMICOLON);
            },
            None => {},
        }
        s.append(RELATIONSHIP_END);
        proof {
            assert(s@ =~= self.turtle());
        }
        s
    }
}

/// The line that maps a parameter of the named thing to its place in the
/// engine.
pub open spec fn mapping_line(name: Seq<char>) -> Seq<char> {
    MAPPING_HEAD@ + safe_path(name) + MAPPING_POSITION@ + debug_text(name) + MAPPING_END@
}

fn mapping(name: &str) -> (s: String)
    ensures
        s@ == mapping_line(name@),
{
    let path = make_path_safe(name);
    let q = quoted(name);
    let mut s = String::new();
    s.append(MAPPING_HEAD);
    s.append(path.as_str());
    s.append(MAPPING_POSITION);
    s.append(q.as_str());
    s.append(MAPPING_END);
    proof {
        assert(s@ =~= mapping_line(name@));
    }
    s
}

/// The property shapes of a list of descriptors, in order.
pub open spec fn descriptor_texts(list: Seq<(String, DescriptorDTO)>) -> Seq<char>
    decreases list.len(),
{
    if list.len() == 0 {
        Seq::empty()
    } else {
        descriptor_texts(list.drop_last()) + list.last().1.turtle()
    }
}

/// The mapping lines of a list of descriptors, in order.
pub open spec fn descriptor_mappings(list: Seq<(String, DescriptorDTO)>) -> Seq<char>
    decreases list.len(),
{
    if list.len() == 0 {
        Seq::empty()
    } else {
        descriptor_mappings(list.drop_last()) + mapping_line(list.last().1.name@)
    }
}

/// The property shapes of a list of relationships, in order.
pub open spec fn relationship_texts(list: Seq<RelationshipDTO>) -> Seq<char>
    decreases list.len(),
{
    if list.len() == 0 {
        Seq::empty()
    } else {
        relationship_texts(list.drop_last()) + list.last().turtle()
    }
}

/// The mapping lines of a list of relationships, in order.
pub open spec fn relationship_mappings(list: Seq<RelationshipDTO>) -> Seq<char>
    decreases list.len(),
{
    if list.len() == 0 {
        Seq::empty()
    } else {
        relationship_mappings(list.drop_last()) + mapping_line(list.last().name@)
    }
}

fn append_descriptors(s: &mut String, list: &Vec<(String, DescriptorDTO)>)
    ensures
        final(s)@ == old(s)@ + descriptor_texts(list@),
{
    let ghost head = s@;
    proof {
        assert(s@ =~= head + descriptor_texts(list@.take(0)));
    }
    let mut i: usize = 0;
    while i < list.len()
        invariant
            i <= list@.len(),
            s@ == head + descriptor_texts(list@.take(i as int)),
        decreases list@.len() - i,
    {
        proof {
            assert(list@.take(i + 1).drop_last() =~= list@.take(i as int));
        }
        let text = list[i].1.to_rdf();
        s.append(text.as_str());
        proof {
            assert(s@ =~= head + descriptor_texts(list@.take(i + 1)));
        }
        i += 1;
    }
    proof {
        assert(list@.take(i as int) =~= list@);
    }
}

fn append_descriptor_mappings(s: &mut String, list: &Vec<(String, DescriptorDTO)>)
    ensures
        final(s)@ == old(s)@ + descriptor_mappings(list@),
{
    let ghost head = s@;
    proof {
        assert(s@ =~= head + descriptor_mappings(list@.take(0)));
    }
    let mut i: usize = 0;
    while i < list.len()
        invariant
            i <= list@.len(),
            s@ == head + descriptor_mappings(list@.take(i as int)),
        decreases list@.len() - i,
    {
        proof {
            assert(list@.take(i + 1).drop_last() =~= list@.take(i as int));
        }
        let text = mapping(list[i].1.name.as_str());
        s.append(text.as_str());
        proof {
            assert(s@ =~= head + descriptor_mappings(list@.take(i + 1)));
        }
        i += 1;
    }
    proof {
        assert(list@.take(i as int) =~= list@);
    }
}

fn append_relationships(s: &mut String, list: &Vec<RelationshipDTO>)
    ensures
        final(s)@ == old(s)@ + relationship_texts(list@),
{
    let ghost head = s@;
    proof {
        assert(s@ =~= head + relationship_texts(list@.take(0)));
    }
    let mut i: usize = 0;
    while i < list.len()
        invariant
            i <= list@.len(),
            s@ == head + relationship_texts(list@.take(i as int)),
        decreases list@.len() - i,
    {
        proof {
            assert(list@.take(i + 1).drop_last() =~= list@.take(i as int));
        }
        let text = list[i].to_rdf();
        s.append(text.as_str());
        proof {
            assert(s@ =~= head + relationship_texts(list@.take(i + 1)));
        }
        i += 1;
    }
    proof {
        assert(list@.take(i as int) =~= list@);
    }
}

fn append_relationship_mappings(s: &mut String, list: &Vec<RelationshipDTO>)
    ensures
        final(s)@ == old(s)@ + relationship_mappings(list@),
{
    let ghost head = s@;
    proof {
        assert(s@ =~= head + relationship_mappings(list@.take(0)));
    }
    let mut i: usize = 0;
    while i < list.len()
        invariant
            i <= list@.len(),
            s@ == head + relationship_mappings(list@.take(i as int)),
        decreases list@.len() - i,
    {
        proof {
            assert(list@.take(i + 1).drop_last() =~= list@.take(i as int));
        }
        let text = mapping(list[i].name.as_str());
        s.append(text.as_str());
        proof {
            assert(s@ =~= head + relationship_mappings(list@.take(i + 1)));
        }
        i += 1;
    }
    proof {
        assert(list@.take(i as int) =~= list@);
    }
}

impl ToRDF for ControllerServiceDTO {
    open spec fn namespaces() -> Seq<Prefix> {
        seq![Prefix::Conn, Prefix::Sh, Prefix::Nifi, Prefix::Sh, Prefix::Xsd]
    }

    open spec fn turtle(&self) -> Seq<char> {
        SUBJECT_HEAD@ + self.name@ + SERVICE_TYPE@ + debug_text(self.ty@) + SERVICE_SHAPE@
            + self.name@ + SERVICE_SHAPE_END@ + descriptor_texts(self.descriptors@) + FULL_STOP@
    }

    fn add_ctx(ctx: &mut RdfContext) {
        let needed = [Prefix::Conn, Prefix::Sh, Prefix::Nifi, Prefix::Sh, Prefix::Xsd];
        proof {
            assert(needed@ =~= Self::namespaces());
        }
        ctx.add_prefixes(&needed);
    }

    fn to_rdf(&self) -> (s: String) {
        let ty = quoted(self.ty.as_str());
        let mut s = String::new();
        s.append(SUBJECT_HEAD);
        s.append(self.name.as_str());
        s.append(SERVICE_TYPE);
        s.append(ty.as_str());
        s.append(SERVICE_SHAPE);
        s.append(self.name.as_str());
        s.append(SERVICE_SHAPE_END);
        append_descriptors(&mut s, &self.descriptors);
        s.append(FULL_STOP);
        proof {
            assert(s@ =~= self.turtle());
        }
        s
    }
}

impl ToRDF for ProcessorDTO {
    open spec fn namespaces() -> Seq<Prefix> {
        seq![
            Prefix::Nifi,
            Prefix::Conn,
            Prefix::Sh,
            Prefix::Fno,
            Prefix::Fnom,
            Prefix::Sh,
            Prefix::Nifi,
            Prefix::Sh,
            Prefix::Xsd,
        ]
    }

    open spec fn turtle(&self) -> Seq<char> {
        SUBJECT_HEAD@ + self.name@ + PROCESS_MAPPINGS@ + descriptor_mappings(
            self.config.descriptors@,
        ) + relationship_mappings(self.relationships@) + PROCESS_TYPE@ + debug_text(self.ty@)
            + PROCESS_SHAPE@ + self.name@ + PROCESS_INCOMING@ + relationship_texts(
            self.relationships@,
        ) + descriptor_texts(self.config.descriptors@) + FULL_STOP@
    }

    fn add_ctx(ctx: &mut RdfContext) {
        let needed = [
            Prefix::Nifi,
            Prefix::Conn,
            Prefix::Sh,
            Prefix::Fno,
            Prefix::Fnom,
            Prefix::Sh,
            Prefix::Nifi,
            Prefix::Sh,
            Prefix::Xsd,
        ];
        proof {
            assert(needed@ =~= Self::namespaces());
        }
        ctx.add_prefixes(&needed);
    }

    fn to_rdf(&self) -> (s: String) {
        let ty = quoted(self.ty.as_str());
        let mut s = String::new();
        s.append(SUBJECT_HEAD);
        s.append(self.name.as_str());
        s.append(PROCESS_MAPPINGS);
        append_descriptor_mappings(&mut s, &self.config.descriptors);
        append_relationship_mappings(&mut s, &self.relationships);
        s.append(PROCESS_TYPE);
        s.append(ty.as_str());
        s.append(PROCESS_SHAPE);
        s.append(self.name.as_str());
        s.append(PROCESS_INCOMING);
        append_relationships(&mut s, &self.relationships);
        append_descriptors(&mut s, &self.config.descriptors);
        s.append(FULL_STOP);
        proof {
            assert(s@ =~= self.turtle());
        }
        s
    }
}

impl<T: ToRDF> ToRDF for VersionedEntity<T> {
    open spec fn namespaces() -> Seq<Prefix> {
        T::namespaces()
    }

    open spec fn turtle(&self) -> Seq<char> {
        self.component.comp.turtle()
    }

    fn add_ctx(ctx: &mut RdfContext) {
        T::add_ctx(ctx);
    }

    fn to_rdf(&self) -> (s: String) {
        self.component.comp.to_rdf()
    }
}

/// The texts of a list of values, each followed by a line break.
pub open spec fn turtle_lines<T: ToRDF>(list: Seq<T>) -> Seq<char>
    decreases list.len(),
{
    if list.len() == 0 {
        Seq::empty()
    } else {
        turtle_lines(list.drop_last()) + (list.last().turtle() + NEW_LINE@)
    }
}

impl<T: ToRDF> ToRDF for Vec<T> {
    open spec fn namespaces() -> Seq<Prefix> {
        T::namespaces()
    }

    open spec fn turtle(&self) -> Seq<char> {
        turtle_lines(self@)
    }

    fn add_ctx(ctx: &mut RdfContext) {
        T::add_ctx(ctx);
    }

    fn to_rdf(&self) -> (s: String) {
        let mut s = String::new();
        let mut i: usize = 0;
        while i < self.len()
            invariant
                i <= self@.len(),
                s@ == turtle_lines(self@.take(i as int)),
            decreases self@.len() - i,
        {
            proof {
                assert(self@.take(i + 1).drop_last() =~= self@.take(i as int));
            }
            let text = self[i].to_rdf();
            s.append(text.as_str());
            s.append(NEW_LINE);
            proof {
                assert(s@ =~= turtle_lines(self@.take(i + 1)));
            }
            i += 1;
        }
        proof {
            assert(self@.take(i as int) =~= self@);
        }
        s
    }
}

} // verus!
