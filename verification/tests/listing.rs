use nifi_provision::filter::filter_list;
use nifi_provision::models::{
    Component, ControllerServiceDTO, DescriptorDTO, DocumentedTypeDTO, ProcessorConfigDTO,
    ProcessorDTO, RelationshipDTO, RevisionDTO, VersionedEntity,
};
use nifi_provision::rdf::{make_path_safe, prefix_to_string, Prefix, RdfContext};
use nifi_provision::template::template_id;
use nifi_provision::turtle::ToRDF;
use nifi_provision::util::RDFMapper;

fn documented(ty: &str, description: Option<&str>, tags: &[&str]) -> DocumentedTypeDTO {
    DocumentedTypeDTO {
        ty: ty.to_string(),
        description: description.map(|d| d.to_string()),
        apis: None,
        tags: tags.iter().map(|t| t.to_string()).collect(),
    }
}

fn descriptor(name: &str, required: bool, default_value: Option<&str>) -> DescriptorDTO {
    DescriptorDTO {
        name: name.to_string(),
        display: format!("{} shown", name),
        description: format!("about \"{}\"", name),
        default_value: default_value.map(|d| d.to_string()),
        required,
    }
}

#[test]
fn filter_keeps_types_that_mention_a_word() {
    let items = vec![
        documented("a.Http", Some("Fetches over HTTP"), &["web"]),
        documented("b.File", Some("Reads files"), &["Local", "disk"]),
        documented("c.None", None, &[]),
        documented("d.Sock", None, &["WebSocket"]),
    ];
    let kept = filter_list(items.clone(), Some(vec!["WEB".to_string()]));
    let names: Vec<&str> = kept.iter().map(|d| d.ty.as_str()).collect();
    assert_eq!(names, vec!["a.Http", "d.Sock"]);
    let kept = filter_list(items.clone(), Some(vec!["disk".to_string(), "http".to_string()]));
    let names: Vec<&str> = kept.iter().map(|d| d.ty.as_str()).collect();
    assert_eq!(names, vec!["a.Http", "b.File"]);
    assert_eq!(filter_list(items.clone(), None), items);
    assert!(filter_list(items.clone(), Some(Vec::new())).is_empty());
    assert_eq!(filter_list(items.clone(), Some(vec![String::new()])).len(), 3);
}

#[test]
fn prefixes_are_declared_once_in_order() {
    assert_eq!(prefix_to_string(Prefix::Sh), "@prefix sh: <http://www.w3.org/ns/shacl#> .\n");
    assert_eq!(prefix_to_string(Prefix::Conn), "@prefix : <https://w3id.org/conn#> .\n");
    let mut ctx = RdfContext::new();
    assert_eq!(ctx.prefixes(), "");
    ctx.add_prefix(Prefix::Nifi);
    ctx.add_prefix(Prefix::Xsd);
    ctx.add_prefix(Prefix::Nifi);
    assert_eq!(
        ctx.prefixes(),
        "@prefix nifi: <https://w3id.org/conn/nifi#> .\n@prefix xsd: <http://www.w3.org/2001/XMLSchema#> .\n"
    );
    let mut ctx = RdfContext::new();
    ProcessorDTO::add_ctx(&mut ctx);
    assert_eq!(
        ctx.prefixes(),
        "@prefix nifi: <https://w3id.org/conn/nifi#> .\n\
         @prefix : <https://w3id.org/conn#> .\n\
         @prefix sh: <http://www.w3.org/ns/shacl#> .\n\
         @prefix fno: <https://w3id.org/function/ontology#> .\n\
         @prefix fnom: <https://w3id.org/function/vocabulary/mapping#> .\n\
         @prefix xsd: <http://www.w3.org/2001/XMLSchema#> .\n"
    );
    assert_eq!(Prefix::Dcterms.iri(), "http://purl.org/dc/terms/");
    assert_eq!(Prefix::Rdfs.name(), "rdfs");
    assert_eq!(Prefix::Sds.iri(), "https://w3id.org/sds#");
}

#[test]
fn paths_are_made_safe() {
    assert_eq!(make_path_safe("Data Source URL"), "data-source-url");
    assert_eq!(make_path_safe("a1_b.C"), "a--b-c");
    assert_eq!(make_path_safe(""), "");
    assert_eq!(make_path_safe("Ünï"), "Ünï");
}

#[test]
fn documented_type_as_turtle() {
    let d = documented("org.example.Echo", Some("Says \"hi\""), &["a", "b c"]);
    assert_eq!(
        d.to_rdf(),
        "[] a :org.example.Echo;\n  rdfs:description \"Says \\\"hi\\\"\";\n  :tag \"a\";\n  :tag \"b c\";\n."
    );
    let d = documented("T", None, &[]);
    assert_eq!(d.to_rdf(), "[] a :T;\n.");
    assert_eq!(vec![documented("T", None, &[]), documented("U", None, &[])].to_rdf(), "[] a :T;\n.\n[] a :U;\n.\n");
}

#[test]
fn descriptor_and_relationship_as_turtle() {
    let d = descriptor("Max Size", true, Some("10"));
    assert_eq!(
        d.to_rdf(),
        format!(
            "\n    sh:property [\n          sh:datatype xsd:string;\n          sh:path nifi:max-size;\n          sh:name {:?};\n          sh:description {:?};\n          sh:minCount 1;sh:defaultValue \"10\";] ;",
            "Max Size shown", "about \"Max Size\""
        )
    );
    let d = descriptor("x", false, None);
    assert!(d.to_rdf().ends_with("sh:minCount 0;] ;"));
    let r = RelationshipDTO { name: "On Success".to_string(), description: Some("done".to_string()) };
    assert_eq!(
        r.to_rdf(),
        " sh:property [\n          sh:class :WriterChannel;\n          sh:path nifi:on-success;\n          sh:name \"On Success\";     sh:description \"done\";];"
    );
    let r = RelationshipDTO { name: "f".to_string(), description: None };
    assert!(r.to_rdf().ends_with("sh:name \"f\";   ];"));
}

#[test]
fn processor_and_service_as_turtle() {
    let processor = ProcessorDTO {
        name: "Echo".to_string(),
        ty: "org.example.Echo".to_string(),
        description: None,
        relationships: vec![RelationshipDTO { name: "out".to_string(), description: None }],
        config: ProcessorConfigDTO {
            properties: Vec::new(),
            descriptors: vec![("msg".to_string(), descriptor("msg", false, None))],
        },
    };
    let line = |name: &str| {
        format!(
            "nifi:mapping [ fno:parameterMapping [ fnom:functionParameter nifi:{}; fnom:implementationParameterPosition {:?} ] ]; \n",
            name, name
        )
    };
    let expected = format!(
        "\n    nifi:Echo a nifi:NifiProcess;\n        {}{}\n        nifi:type \"org.example.Echo\".\n\n    [] a sh:NodeShape;\n       sh:targetClass nifi:Echo;\n       sh:property [\n          sh:class :ReaderChannel;\n          sh:path nifi:INCOMING_CHANNEL;\n          sh:name \"Incoming channel\";\n          sh:description \"Combination of all incoming channels\";\n        ];\n        {}{}.",
        line("msg"),
        line("out"),
        processor.relationships[0].to_rdf(),
        processor.config.descriptors[0].1.to_rdf()
    );
    assert_eq!(processor.to_rdf(), expected);
    let entity = VersionedEntity {
        id: "proc-a".to_string(),
        revision: RevisionDTO { client_id: None, version: 1 },
        component: Component { id: "proc-a".to_string(), parent_group_id: "root".to_string(), comp: processor },
    };
    assert_eq!(entity.to_rdf(), expected);

    let service = ControllerServiceDTO {
        name: "Jetty".to_string(),
        ty: "org.example.Jetty".to_string(),
        description: None,
        descriptors: vec![("port".to_string(), descriptor("port", true, None))],
    };
    assert_eq!(
        service.to_rdf(),
        format!(
            "\n    nifi:Jetty a nifi:NifiProcess;\n        nifi:type \"org.example.Jetty\".\n\n    [] a sh:NodeShape;\n        sh:targetClass nifi:Jetty; {}.",
            service.descriptors[0].1.to_rdf()
        )
    );
}

#[test]
fn template_identifier_is_read_from_the_upload_answer() {
    let answer = "<templateEntity><template><groupId>g</groupId><id>7b3a-11</id><name>WS</name></template><template><id>other</id></template></templateEntity>";
    let root = simple_xml::from_string(answer).unwrap();
    assert_eq!(template_id(&root), Some("7b3a-11".to_string()));
    let root = simple_xml::from_string("<templateEntity><template><name>WS</name></template></templateEntity>").unwrap();
    assert_eq!(template_id(&root), None);
    let root = simple_xml::from_string("<templateEntity><id>x</id></templateEntity>").unwrap();
    assert_eq!(template_id(&root), None);
    let mut root = simple_xml::new("templateEntity", String::new());
    let mut template = simple_xml::new("template", "text".to_string());
    template.add_new_node("id", "abc".to_string());
    template.add_new_node("id", "def".to_string());
    root.add_node(template);
    assert_eq!(template_id(&root), Some("abc".to_string()));
}

#[test]
fn blank_node_labels_keep_their_nodes() {
    let mut mapper = RDFMapper::new();
    let a = mapper.blank_node("a");
    let b = mapper.blank_node("b");
    assert_eq!(mapper.blank_node("a"), a);
    assert_eq!(mapper.blank_node("b"), b);
    assert_eq!(mapper.blank_node("a"), a);
    assert_ne!(a, b);
    assert!(oxigraph::model::BlankNode::new(a.clone()).is_ok());
    let mut other = RDFMapper::new();
    assert_ne!(other.blank_node("a"), a);
}
