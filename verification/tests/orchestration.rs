use nifi_provision::client::PortType;
use nifi_provision::logic::{
    default_locations, Action, Diagnostic, Event, Orchestrator, Summary,
};
use nifi_provision::models::{ConnectableDTO, ConnectionTargetType};
use nifi_provision::queries::{QueryKind, ID_TERM};
use nifi_provision::term::{Row, Term};

const XSD_STRING: &str = "http://www.w3.org/2001/XMLSchema#string";
const WRITER_CHANNEL: &str = "https://w3id.org/conn#WriterChannel";
const READER_CHANNEL: &str = "https://w3id.org/conn#ReaderChannel";
const WS_WRITER: &str = "https://w3id.org/conn#WsWriterChannel";
const WS_READER: &str = "https://w3id.org/conn#WsReaderChannel";

fn scalar_row(subject: &str, ty: &str, key: &str, value: &str) -> Row {
    let mut row = Row::new();
    row.bind("subject", Term::named_node(subject));
    row.bind("ty", Term::literal(ty));
    row.bind("value", Term::literal(value));
    row.bind("datatype", Term::named_node(XSD_STRING));
    row.bind("nifi_key", Term::literal(key));
    row
}

fn slot_row(subject: &str, ty: &str, class: &str, channel: &str) -> Row {
    let mut row = Row::new();
    row.bind("subject", Term::named_node(subject));
    row.bind("ty", Term::literal(ty));
    row.bind("value", Term::named_node(channel));
    row.bind("class", Term::named_node(class));
    row
}

fn channel_row(subject: &str, type_field: &str, ty: &str, key: &str, value: &str) -> Row {
    let mut row = Row::new();
    row.bind(type_field, Term::named_node(ty));
    row.bind("subject", Term::named_node(subject));
    row.bind("nifi_key", Term::literal(key));
    row.bind("value", Term::literal(value));
    row
}

fn link_row(source: &str, target: &str, key: Option<&str>) -> Row {
    let mut row = Row::new();
    row.bind("source_id", Term::literal(source));
    row.bind("target_id", Term::literal(target));
    if let Some(k) = key {
        row.bind("key", Term::literal(k));
    }
    row
}

fn processor(id: &str) -> ConnectableDTO {
    ConnectableDTO { id: id.to_string(), ty: ConnectionTargetType::Processor, group_id: "root".to_string() }
}

fn port(id: &str, ty: ConnectionTargetType, group: &str) -> ConnectableDTO {
    ConnectableDTO { id: id.to_string(), ty, group_id: group.to_string() }
}

fn connection(action: &Action) -> (String, String, Vec<String>) {
    match action {
        Action::CreateConnection(c) => {
            assert_eq!(c.component.selected_relationships, c.component.available_relationships);
            assert_eq!(c.id, None);
            (
                c.component.source.id.clone(),
                c.component.destination.id.clone(),
                c.component.selected_relationships.clone(),
            )
        }
        other => panic!("expected a connection, got {:?}", other),
    }
}

#[test]
fn two_processes_and_a_direct_link() {
    let echo = "http://example.com/ns#echo";
    let log = "http://example.com/ns#log";
    let mut run = Orchestrator::new(false, default_locations());
    assert_eq!(run.step(Event::Start), Action::Query(QueryKind::Processors));
    let rows = vec![
        scalar_row(echo, "org.example.Echo", "msg", "hi"),
        slot_row(log, "org.example.Log", READER_CHANNEL, "http://example.com/ns#chan"),
    ];
    assert_eq!(run.step(Event::Rows(rows)), Action::CreateProcessor { ty: "org.example.Echo".to_string() });
    assert_eq!(
        run.step(Event::Component(processor("id1"))),
        Action::RecordCorrelation { subject: Term::named_node(echo), remote_id: "id1".to_string() }
    );
    assert_eq!(
        run.step(Event::Done),
        Action::UpdateProcessor {
            id: "id1".to_string(),
            properties: vec![("msg".to_string(), "hi".to_string())],
        }
    );
    assert_eq!(run.step(Event::Done), Action::CreateProcessor { ty: "org.example.Log".to_string() });
    assert_eq!(
        run.step(Event::Component(processor("id2"))),
        Action::RecordCorrelation { subject: Term::named_node(log), remote_id: "id2".to_string() }
    );
    assert_eq!(
        run.step(Event::Done),
        Action::UpdateProcessor { id: "id2".to_string(), properties: Vec::new() }
    );
    assert_eq!(run.step(Event::Done), Action::Query(QueryKind::Links));
    let action = run.step(Event::Rows(vec![link_row("id1", "id2", Some("data"))]));
    assert_eq!(connection(&action), ("id1".to_string(), "id2".to_string(), vec!["data".to_string()]));
    assert_eq!(run.step(Event::Done), Action::Query(QueryKind::Writers));
    assert_eq!(run.step(Event::Rows(Vec::new())), Action::Query(QueryKind::WriterLinks));
    assert_eq!(run.step(Event::Rows(Vec::new())), Action::Query(QueryKind::Readers));
    assert_eq!(run.step(Event::Rows(Vec::new())), Action::Query(QueryKind::ReaderLinks));
    let summary = Summary { created: 2, failed: 0, connected: 1, dropped: 0, fatal: false };
    assert_eq!(run.step(Event::Rows(Vec::new())), Action::Finish(summary));
    assert!(run.is_finished());
    assert_eq!(run.summary(), summary);
    assert_eq!(run.step(Event::Done), Action::Finish(summary));
    assert_eq!(run.correlations().len(), 2);
    assert_eq!(run.correlations().lookup(&Term::named_node(echo)).unwrap().id, "id1");
    assert_eq!(run.correlations().lookup(&Term::named_node(log)).unwrap().id, "id2");
    assert_eq!(ID_TERM, "http://example.com/ns#testing+id");
}

#[test]
fn writer_channel_linked_from_a_process() {
    let source = "http://example.com/ns#source";
    let channel = "http://example.com/ns#channel";
    let mut run = Orchestrator::new(false, default_locations());
    run.step(Event::Start);
    let rows = vec![slot_row(source, "org.example.Source", WRITER_CHANNEL, channel)];
    assert_eq!(run.step(Event::Rows(rows)), Action::CreateProcessor { ty: "org.example.Source".to_string() });
    run.step(Event::Component(processor("src1")));
    assert_eq!(
        run.step(Event::Done),
        Action::UpdateProcessor { id: "src1".to_string(), properties: Vec::new() }
    );
    assert_eq!(run.step(Event::Done), Action::Query(QueryKind::Links));
    assert_eq!(run.step(Event::Rows(Vec::new())), Action::Query(QueryKind::Writers));
    let rows = vec![channel_row(channel, "writer_type", WS_WRITER, "url", "ws://localhost:3000")];
    assert_eq!(
        run.step(Event::Rows(rows)),
        Action::UploadTemplate { location: "./channels/WSWriter.xml".to_string() }
    );
    assert_eq!(
        run.step(Event::Identifier("tpl1".to_string())),
        Action::InstantiateTemplate { template_id: "tpl1".to_string() }
    );
    assert_eq!(
        run.step(Event::Identifier("grp1".to_string())),
        Action::GetPorts { group: "grp1".to_string(), direction: PortType::Input }
    );
    let ports = vec![
        port("port1", ConnectionTargetType::InputPort, "grp1"),
        port("port2", ConnectionTargetType::InputPort, "grp1"),
    ];
    assert_eq!(
        run.step(Event::Ports(ports)),
        Action::RecordCorrelation { subject: Term::named_node(channel), remote_id: "port1".to_string() }
    );
    match run.step(Event::Done) {
        Action::SetVariables { group, variables } => {
            assert_eq!(group, "grp1");
            assert_eq!(variables.len(), 1);
            assert_eq!(variables[0].variable.name, "url");
            assert_eq!(variables[0].variable.value, "ws://localhost:3000");
        }
        other => panic!("expected variables, got {:?}", other),
    }
    assert_eq!(run.step(Event::Done), Action::Query(QueryKind::WriterLinks));
    let action = run.step(Event::Rows(vec![link_row("src1", "port1", Some("success"))]));
    match &action {
        Action::CreateConnection(c) => {
            assert_eq!(c.component.source.ty, ConnectionTargetType::Processor);
            assert_eq!(c.component.source.group_id, "root");
            assert_eq!(c.component.destination.ty, ConnectionTargetType::InputPort);
            assert_eq!(c.component.destination.group_id, "grp1");
        }
        other => panic!("expected a connection, got {:?}", other),
    }
    assert_eq!(connection(&action), ("src1".to_string(), "port1".to_string(), vec!["success".to_string()]));
    assert_eq!(run.step(Event::Done), Action::Query(QueryKind::Readers));
    assert_eq!(run.step(Event::Rows(Vec::new())), Action::Query(QueryKind::ReaderLinks));
    assert_eq!(
        run.step(Event::Rows(Vec::new())),
        Action::DeleteTemplate { template_id: "tpl1".to_string() }
    );
    assert_eq!(
        run.step(Event::Done),
        Action::Finish(Summary { created: 2, failed: 0, connected: 1, dropped: 0, fatal: false })
    );
    assert_eq!(run.correlations().lookup(&Term::named_node(channel)).unwrap().id, "port1");
}

/// Plays a run against an engine that accepts everything and hands out
/// identifiers by counting.
fn play(run: &mut Orchestrator, answers: &dyn Fn(QueryKind) -> Vec<Row>) -> (Vec<Action>, Summary) {
    let mut log = Vec::new();
    let mut counter = 0;
    let mut fresh = |prefix: &str| {
        counter += 1;
        format!("{}{}", prefix, counter)
    };
    let mut event = Event::Start;
    for _ in 0..1000 {
        let action = run.step(event);
        log.push(action.clone());
        event = match action {
            Action::Query(kind) => Event::Rows(answers(kind)),
            Action::CreateProcessor { .. } => Event::Component(processor(&fresh("proc"))),
            Action::UploadTemplate { .. } => Event::Identifier(fresh("tpl")),
            Action::InstantiateTemplate { .. } => Event::Identifier(fresh("grp")),
            Action::GetPorts { group, direction } => {
                let ty = match direction {
                    PortType::Input => ConnectionTargetType::InputPort,
                    PortType::Output => ConnectionTargetType::OutputPort,
                };
                Event::Ports(vec![port(&fresh("port"), ty, &group)])
            }
            Action::Finish(summary) => return (log, summary),
            _ => Event::Done,
        };
    }
    panic!("the run did not end");
}

#[test]
fn template_is_uploaded_and_deleted_once_for_each_type() {
    let answers = |kind: QueryKind| match kind {
        QueryKind::Writers => vec![
            channel_row("http://e/w1", "writer_type", WS_WRITER, "url", "a"),
            channel_row("http://e/w2", "writer_type", WS_WRITER, "url", "b"),
            channel_row("http://e/w1", "writer_type", WS_WRITER, "port", "1"),
            channel_row("http://e/w3", "writer_type", WS_WRITER, "url", "c"),
        ],
        QueryKind::Readers => vec![
            channel_row("http://e/r1", "reader_type", WS_READER, "url", "d"),
            channel_row("http://e/r2", "reader_type", WS_READER, "url", "e"),
        ],
        _ => Vec::new(),
    };
    let mut run = Orchestrator::new(true, default_locations());
    let (log, summary) = play(&mut run, &answers);
    let uploads: Vec<&Action> = log.iter().filter(|a| matches!(a, Action::UploadTemplate { .. })).collect();
    let deletes: Vec<&Action> = log.iter().filter(|a| matches!(a, Action::DeleteTemplate { .. })).collect();
    let instances = log.iter().filter(|a| matches!(a, Action::InstantiateTemplate { .. })).count();
    assert_eq!(
        uploads,
        vec![
            &Action::UploadTemplate { location: "./channels/WSWriter.xml".to_string() },
            &Action::UploadTemplate { location: "./channels/WSReader.xml".to_string() },
        ]
    );
    assert_eq!(deletes.len(), 2);
    assert_ne!(deletes[0], deletes[1]);
    assert_eq!(instances, 5);
    let first_delete = log.iter().position(|a| matches!(a, Action::DeleteTemplate { .. })).unwrap();
    let last_query = log.iter().rposition(|a| matches!(a, Action::Query(_))).unwrap();
    let first_start = log.iter().position(|a| matches!(a, Action::StartProcessGroup { .. })).unwrap();
    assert!(last_query < first_delete);
    assert!(first_delete < first_start);
    assert_eq!(log.iter().filter(|a| matches!(a, Action::StartProcessGroup { .. })).count(), 5);
    assert_eq!(summary, Summary { created: 5, failed: 0, connected: 0, dropped: 0, fatal: false });
    let reader_ports = log
        .iter()
        .filter(|a| matches!(a, Action::GetPorts { direction: PortType::Output, .. }))
        .count();
    assert_eq!(reader_ports, 2);
}

#[test]
fn started_run_starts_groups_then_processors() {
    let answers = |kind: QueryKind| match kind {
        QueryKind::Processors => vec![
            scalar_row("http://e/a", "A", "k", "v"),
            scalar_row("http://e/b", "B", "k", "v"),
        ],
        QueryKind::Writers => vec![channel_row("http://e/w1", "writer_type", WS_WRITER, "url", "a")],
        _ => Vec::new(),
    };
    let mut run = Orchestrator::new(true, default_locations());
    let (log, summary) = play(&mut run, &answers);
    let tail: Vec<Action> = log[log.len() - 5..].to_vec();
    assert_eq!(
        tail,
        vec![
            Action::DeleteTemplate { template_id: "tpl3".to_string() },
            Action::StartProcessGroup { group: "grp4".to_string() },
            Action::StartProcessor { id: "proc1".to_string() },
            Action::StartProcessor { id: "proc2".to_string() },
            Action::Finish(summary),
        ]
    );
    assert_eq!(summary.created, 3);

    let mut run = Orchestrator::new(false, default_locations());
    let (log, _) = play(&mut run, &answers);
    assert!(!log.iter().any(|a| matches!(a, Action::StartProcessGroup { .. } | Action::StartProcessor { .. })));
    assert!(log.iter().any(|a| matches!(a, Action::DeleteTemplate { .. })));
}

#[test]
fn unresolved_link_is_dropped_with_a_diagnostic() {
    let mut run = Orchestrator::new(false, default_locations());
    run.step(Event::Start);
    run.step(Event::Rows(vec![scalar_row("http://e/a", "A", "k", "v")]));
    run.step(Event::Component(processor("id1")));
    run.step(Event::Done);
    assert_eq!(run.step(Event::Done), Action::Query(QueryKind::Links));
    let rows = vec![
        link_row("id1", "missing", Some("data")),
        link_row("id1", "id1", Some("loop")),
        link_row("id1", "id1", None),
    ];
    assert_eq!(run.step(Event::Rows(rows)), Action::Report(Diagnostic::LinkDropped(0)));
    let action = run.step(Event::Done);
    assert_eq!(connection(&action), ("id1".to_string(), "id1".to_string(), vec!["loop".to_string()]));
    assert_eq!(run.step(Event::Failed), Action::Query(QueryKind::Writers));
    assert_eq!(run.summary(), Summary { created: 1, failed: 1, connected: 0, dropped: 1, fatal: false });
}

#[test]
fn failed_creation_abandons_that_entity_only() {
    let mut run = Orchestrator::new(false, default_locations());
    run.step(Event::Start);
    let rows = vec![
        scalar_row("http://e/a", "A", "k", "v"),
        scalar_row("http://e/b", "B", "k", "w"),
        scalar_row("http://e/c", "C", "k", "x"),
    ];
    assert_eq!(run.step(Event::Rows(rows)), Action::CreateProcessor { ty: "A".to_string() });
    assert_eq!(run.step(Event::Failed), Action::CreateProcessor { ty: "B".to_string() });
    run.step(Event::Component(processor("id2")));
    assert_eq!(
        run.step(Event::Done),
        Action::UpdateProcessor { id: "id2".to_string(), properties: vec![("k".to_string(), "w".to_string())] }
    );
    assert_eq!(run.step(Event::Failed), Action::CreateProcessor { ty: "C".to_string() });
    assert_eq!(
        run.step(Event::Component(processor("id2"))),
        Action::RecordCorrelation { subject: Term::named_node("http://e/c"), remote_id: "id2".to_string() }
    );
    assert_eq!(run.step(Event::Done), Action::Query(QueryKind::Links));
    assert_eq!(run.summary(), Summary { created: 0, failed: 3, connected: 0, dropped: 0, fatal: false });
    assert_eq!(run.correlations().len(), 1);
}

#[test]
fn record_without_key_abandons_the_entity_after_creation() {
    let mut run = Orchestrator::new(false, default_locations());
    run.step(Event::Start);
    let mut row = Row::new();
    row.bind("subject", Term::named_node("http://e/a"));
    row.bind("ty", Term::literal("A"));
    row.bind("value", Term::literal("v"));
    assert_eq!(run.step(Event::Rows(vec![row])), Action::CreateProcessor { ty: "A".to_string() });
    run.step(Event::Component(processor("id1")));
    assert_eq!(run.step(Event::Done), Action::Query(QueryKind::Links));
    assert_eq!(run.summary().failed, 1);
    assert_eq!(run.correlations().len(), 1);
}

#[test]
fn failed_query_ends_the_run() {
    let mut run = Orchestrator::new(true, default_locations());
    assert_eq!(run.step(Event::Start), Action::Query(QueryKind::Processors));
    let summary = Summary { created: 0, failed: 0, connected: 0, dropped: 0, fatal: true };
    assert_eq!(run.step(Event::Failed), Action::Finish(summary));
    assert!(run.is_finished());

    let mut run = Orchestrator::new(true, default_locations());
    run.step(Event::Start);
    assert_eq!(run.step(Event::Rows(Vec::new())), Action::Query(QueryKind::Links));
    assert_eq!(run.step(Event::Done), Action::Finish(summary));
}

#[test]
fn channel_without_template_is_passed_over() {
    let mut run = Orchestrator::new(false, Vec::new());
    run.step(Event::Start);
    run.step(Event::Rows(Vec::new()));
    assert_eq!(run.step(Event::Rows(Vec::new())), Action::Query(QueryKind::Writers));
    let mut unnamed = Row::new();
    unnamed.bind("writer_type", Term::blank_node("t"));
    unnamed.bind("subject", Term::named_node("http://e/w0"));
    unnamed.bind("nifi_key", Term::literal("url"));
    unnamed.bind("value", Term::literal("a"));
    let rows = vec![unnamed, channel_row("http://e/w1", "writer_type", WS_WRITER, "url", "a")];
    assert_eq!(run.step(Event::Rows(rows)), Action::Report(Diagnostic::ChannelTypeUnnamed(0)));
    assert_eq!(run.step(Event::Done), Action::Report(Diagnostic::NoTemplate(1)));
    assert_eq!(run.step(Event::Done), Action::Query(QueryKind::WriterLinks));
    assert_eq!(run.summary().failed, 2);
}

#[test]
fn channel_failures_keep_the_template_for_cleanup() {
    let mut run = Orchestrator::new(true, default_locations());
    run.step(Event::Start);
    run.step(Event::Rows(Vec::new()));
    run.step(Event::Rows(Vec::new()));
    let rows = vec![
        channel_row("http://e/w1", "writer_type", WS_WRITER, "url", "a"),
        channel_row("http://e/w2", "writer_type", WS_WRITER, "url", "b"),
    ];
    assert!(matches!(run.step(Event::Rows(rows)), Action::UploadTemplate { .. }));
    assert!(matches!(run.step(Event::Identifier("tpl".to_string())), Action::InstantiateTemplate { .. }));
    assert_eq!(
        run.step(Event::Failed),
        Action::InstantiateTemplate { template_id: "tpl".to_string() }
    );
    assert!(matches!(run.step(Event::Identifier("grp".to_string())), Action::GetPorts { .. }));
    assert_eq!(run.step(Event::Ports(Vec::new())), Action::Query(QueryKind::WriterLinks));
    run.step(Event::Rows(Vec::new()));
    run.step(Event::Rows(Vec::new()));
    assert_eq!(
        run.step(Event::Rows(Vec::new())),
        Action::DeleteTemplate { template_id: "tpl".to_string() }
    );
    let summary = Summary { created: 0, failed: 3, connected: 0, dropped: 0, fatal: false };
    assert_eq!(run.step(Event::Failed), Action::Finish(summary));
}

#[test]
fn query_texts() {
    assert!(QueryKind::Processors.query().contains("?subject a ?tys"));
    assert!(QueryKind::Links.query().contains("<http://example.com/ns#testing+id> ?source_id"));
    assert!(QueryKind::Writers.query().contains("?writer_type"));
    assert!(QueryKind::WriterLinks.query().contains("?target_id"));
    assert!(QueryKind::Readers.query().contains("?reader_type"));
    assert!(QueryKind::ReaderLinks.query().contains("?source_id"));
    assert_eq!(QueryKind::Processors.error(), "Process Query");
    assert_eq!(QueryKind::ReaderLinks.error(), "WS reader link");
}
