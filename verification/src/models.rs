use vstd::prelude::*;

verus! {

#[derive(Clone, Debug, PartialEq, Eq)]
pub struct ControllerServiceTypesEntity {
    pub types: Vec<DocumentedTypeDTO>,
}

#[derive(Clone, Debug, PartialEq, Eq)]
pub struct ProcessTypesEntity {
    pub types: Vec<DocumentedTypeDTO>,
}

#[derive(Clone, Debug, PartialEq, Eq)]
pub struct DocumentedTypeDTO {
    pub ty: String,
    pub description: Option<String>,
    pub apis: Option<Vec<ControllerServiceApiDTO>>,
    pub tags: Vec<String>,
}

#[derive(Clone, Debug, PartialEq, Eq)]
pub struct ControllerServiceApiDTO {
    pub ty: String,
}

/// A controller service with its property descriptors, each under its name,
/// in the order in which they are to be written out.
#[derive(Clone, Debug, PartialEq, Eq)]
pub struct ControllerServiceDTO {
    pub name: String,
    pub ty: String,
    pub description: Option<String>,
    pub descriptors: Vec<(String, DescriptorDTO)>,
}

#[derive(Clone, Debug, PartialEq, Eq)]
pub struct VersionedEntity<Comp> {
    pub id: String,
    pub revision: RevisionDTO,
    pub component: Component<Comp>,
}

#[derive(Clone, Debug, PartialEq, Eq)]
pub struct Component<T> {
    pub id: String,
    pub parent_group_id: String,
    pub comp: T,
}

#[derive(Clone, Debug, PartialEq, Eq)]
pub struct RevisionDTO {
    pub client_id: Option<String>,
    pub version: u32,
}

/// The revision of an object that no client has changed yet.
pub open spec fn is_fresh_revision(r: RevisionDTO) -> bool {
    r.client_id is None && r.version == 0
}

#[derive(Clone, Debug, PartialEq, Eq)]
pub struct PortDTO {
    pub ty: String,
}

#[derive(Clone, Debug, PartialEq, Eq)]
pub struct ProcessorDTO {
    pub name: String,
    pub ty: String,
    pub description: Option<String>,
    pub relationships: Vec<RelationshipDTO>,
    pub config: ProcessorConfigDTO,
}

#[derive(Clone, Debug, PartialEq, Eq)]
pub struct RelationshipDTO {
    pub name: String,
    pub description: Option<String>,
}

/// A processor's configuration: the property values and the property
/// descriptors, each under its name, in the order in which they are to be
/// written out.
#[derive(Clone, Debug, PartialEq, Eq)]
pub struct ProcessorConfigDTO {
    pub properties: Vec<(String, Option<String>)>,
    pub descriptors: Vec<(String, DescriptorDTO)>,
}

#[derive(Clone, Debug, PartialEq, Eq)]
pub struct DescriptorDTO {
    pub name: String,
    pub display: String,
    pub description: String,
    pub default_value: Option<String>,
    pub required: bool,
}

/// The kinds of component a connection can start or end at.
#[derive(Clone, Copy, Debug, PartialEq, Eq, Structural)]
pub enum ConnectionTargetType {
    Processor,
    RemoteInputPort,
    RemoteOutputPort,
    InputPort,
    OutputPort,
    Funnel,
}

/// The kind an engine's port type names; none for any other text.
pub open spec fn port_kind(ty: Seq<char>) -> Option<ConnectionTargetType> {
    if ty == "INPUT_PORT"@ {
        Some(ConnectionTargetType::InputPort)
    } else if ty == "OUTPUT_PORT"@ {
        Some(ConnectionTargetType::OutputPort)
    } else {
        None
    }
}

/// A component that a connection can start or end at, unless its kind is
/// unknown.
pub trait Connectable {
    spec fn kind(&self) -> Option<ConnectionTargetType>;

    fn target_type(&self) -> (r: Option<ConnectionTargetType>)
        ensures
            r == self.kind(),
    ;
}

impl Connectable for PortDTO {
    open spec fn kind(&self) -> Option<ConnectionTargetType> {
        port_kind(self.ty@)
    }

    fn target_type(&self) -> (r: Option<ConnectionTargetType>) {
        let input: String = "INPUT_PORT".to_owned();
        let output: String = "OUTPUT_PORT".to_owned();
        if self.ty == input {
            Some(ConnectionTargetType::InputPort)
        } else if self.ty == output {
            Some(ConnectionTargetType::OutputPort)
        } else {
            None
        }
    }
}

impl Connectable for ProcessorDTO {
    open spec fn kind(&self) -> Option<ConnectionTargetType> {
        Some(ConnectionTargetType::Processor)
    }

    fn target_type(&self) -> (r: Option<ConnectionTargetType>) {
        Some(ConnectionTargetType::Processor)
    }
}

/// One end of a connection: the component's identifier, its kind and the
/// group it lies in.
#[derive(Clone, Debug, PartialEq, Eq)]
pub struct ConnectableDTO {
    pub id: String,
    pub ty: ConnectionTargetType,
    pub group_id: String,
}

pub struct ConnectableView {
    pub id: Seq<char>,
    pub ty: ConnectionTargetType,
    pub group_id: Seq<char>,
}

impl View for ConnectableDTO {
    type V = ConnectableView;

    open spec fn view(&self) -> ConnectableView {
        ConnectableView { id: self.id@, ty: self.ty, group_id: self.group_id@ }
    }
}

impl ConnectableDTO {
    pub fn duplicate(&self) -> (r: ConnectableDTO)
        ensures
            r@ == self@,
    {
        ConnectableDTO { id: self.id.clone(), ty: self.ty, group_id: self.group_id.clone() }
    }
}

impl<T: Connectable> Component<T> {
    /// The end of a connection that this component makes.
    pub fn connectable(&self) -> (r: ConnectableDTO)
        requires
            self.comp.kind() is Some,
        ensures
            r@ == (ConnectableView {
                id: self.id@,
                ty: self.comp.kind().unwrap(),
                group_id: self.parent_group_id@,
            }),
    {
        let ty = self.comp.target_type().unwrap();
        ConnectableDTO { id: self.id.clone(), ty, group_id: self.parent_group_id.clone() }
    }
}

#[derive(Clone, Debug, PartialEq, Eq)]
pub struct ConnectionDTO {
    pub source: ConnectableDTO,
    pub destination: ConnectableDTO,
    pub selected_relationships: Vec<String>,
    pub available_relationships: Vec<String>,
}

/// A request to create a connection.
#[derive(Clone, Debug, PartialEq, Eq)]
pub struct ConnectionEntity {
    pub id: Option<String>,
    pub revision: RevisionDTO,
    pub component: ConnectionDTO,
}

/// The value of a connection request: its two ends and the relationships it
/// selects, which are also those it offers.
pub struct ConnectionView {
    pub source: ConnectableView,
    pub destination: ConnectableView,
    pub relationships: Seq<Seq<char>>,
}

/// The texts of a list of strings.
pub open spec fn texts(v: Seq<String>) -> Seq<Seq<char>> {
    Seq::new(v.len(), |i: int| v[i]@)
}

/// The relationship set of a link: the one relationship it names, or none.
pub open spec fn relationship_set(rel: Option<Seq<char>>) -> Seq<Seq<char>> {
    match rel {
        Some(r) => seq![r],
        None => Seq::empty(),
    }
}

impl View for ConnectionEntity {
    type V = ConnectionView;

    open spec fn view(&self) -> ConnectionView {
        ConnectionView {
            source: self.component.source@,
            destination: self.component.destination@,
            relationships: texts(self.component.selected_relationships@),
        }
    }
}

impl ConnectionEntity {
    /// A request is well formed when it is new (no identifier, fresh
    /// revision) and offers exactly the relationships it selects.
    pub open spec fn wf(&self) -> bool {
        &&& self.id is None
        &&& is_fresh_revision(self.revision)
        &&& texts(self.component.available_relationships@) == texts(
            self.component.selected_relationships@,
        )
    }

    /// The request that connects two ends under one relationship, or under
    /// none.
    pub fn between(source: ConnectableDTO, destination: ConnectableDTO, rel: Option<&str>) -> (r:
        ConnectionEntity)
        ensures
            r.wf(),
            r@ == (ConnectionView {
                source: source@,
                destination: destination@,
                relationships: relationship_set(
                    match rel {
                        Some(s) => Some(s@),
                        None => None,
                    },
                ),
            }),
    {
        let mut selected: Vec<String> = Vec::new();
        let mut available: Vec<String> = Vec::new();
        match rel {
            Some(s) => {
                selected.push(s.to_owned());
                available.push(s.to_owned());
                assert(texts(selected@) =~= seq![s@]);
                assert(texts(available@) =~= seq![s@]);
            },
            None => {
                assert(texts(selected@) =~= Seq::<Seq<char>>::empty());
                assert(texts(available@) =~= Seq::<Seq<char>>::empty());
            },
        }
        ConnectionEntity {
            id: None,
            revision: RevisionDTO { client_id: None, version: 0 },
            component: ConnectionDTO {
                source,
                destination,
                selected_relationships: selected,
                available_relationships: available,
            },
        }
    }

    /// The request that connects the output of one component with the input
    /// of another.
    pub fn new<I: Connectable, O: Connectable>(
        input: &Component<I>,
        output: &Component<O>,
        rel: Option<&str>,
    ) -> (r: ConnectionEntity)
        requires
            input.comp.kind() is Some,
            output.comp.kind() is Some,
        ensures
            r.wf(),
            r@ == (ConnectionView {
                source: ConnectableView {
                    id: input.id@,
                    ty: input.comp.kind().unwrap(),
                    group_id: input.parent_group_id@,
                },
                destination: ConnectableView {
                    id: output.id@,
                    ty: output.comp.kind().unwrap(),
                    group_id: output.parent_group_id@,
                },
                relationships: relationship_set(
                    match rel {
                        Some(s) => Some(s@),
                        None => None,
                    },
                ),
            }),
    {
        ConnectionEntity::between(input.connectable(), output.connectable(), rel)
    }
}

#[derive(Clone, Debug, PartialEq, Eq)]
pub struct ProcessGroupDTO {
    pub name: String,
}

#[derive(Clone, Debug, PartialEq, Eq)]
pub struct PortsEntity {
    pub ports: Vec<VersionedEntity<PortDTO>>,
}

#[derive(Clone, Debug, PartialEq, Eq)]
pub struct Flow {
    pub process_groups: Vec<VersionedEntity<ProcessGroupDTO>>,
    pub processors: Vec<VersionedEntity<ProcessorDTO>>,
    pub input_ports: Vec<VersionedEntity<PortDTO>>,
    pub output_ports: Vec<VersionedEntity<PortDTO>>,
    pub connections: Vec<ConnectionEntity>,
}

#[derive(Clone, Debug, PartialEq, Eq)]
pub struct FlowEntity {
    pub flow: Flow,
}

#[derive(Clone, Debug, PartialEq, Eq)]
pub struct VariableRegistryEntity {
    pub revision: RevisionDTO,
    pub variable_registry: VariableRegistry,
}

#[derive(Clone, Debug, PartialEq, Eq)]
pub struct VariableRegistry {
    pub group: String,
    pub variables: Vec<VariableDTO>,
}

#[derive(Clone, Debug, PartialEq, Eq)]
pub struct VariableDTO {
    pub variable: Variable,
}

/// A configuration variable of a process group.
#[derive(Clone, Debug, PartialEq, Eq)]
pub struct Variable {
    pub name: String,
    pub value: String,
}

impl View for VariableDTO {
    type V = (Seq<char>, Seq<char>);

    open spec fn view(&self) -> (Seq<char>, Seq<char>) {
        self.variable@
    }
}

impl View for Variable {
    type V = (Seq<char>, Seq<char>);

    open spec fn view(&self) -> (Seq<char>, Seq<char>) {
        (self.name@, self.value@)
    }
}

} // verus!
