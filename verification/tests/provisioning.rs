use nifi_provision::aggregate::reversed;
use nifi_provision::logic::Stage;
use nifi_provision::pairs::find_pair;
use nifi_provision::queries::QueryKind;
use nifi_provision::sparql::{get_channel_solutions, Field, MapError};
use nifi_provision::term::{Row, TermKind};
use nifi_provision::client::{
    GroupStarter, Nifi, PollOutcome, PortType, ReadinessPoller, ServiceRunStatus, StartAction,
    StartEvent, POLL_INTERVAL_MS, SERVICE_RETRIES,
};
use nifi_provision::models::{RevisionDTO, VariableDTO, Variable, VariableRegistry, VariableRegistryEntity};
use nifi_provision::provision::{configuration, variables, ConfigError};
use nifi_provision::sparql::{ChannelSolution, QuerySolutionOutput, ShaclType};
use nifi_provision::term::Term;

fn record(key: Option<&str>, value: Term, shacl_type: ShaclType) -> QuerySolutionOutput {
    QuerySolutionOutput {
        subject: Term::named_node("http://e/s"),
        nifi_key: key.map(|k| k.to_string()),
        value,
        shacl_type,
        ty: "T".to_string(),
    }
}

#[test]
fn configuration_folds_scalar_records_in_order() {
    let records = vec![
        record(Some("a"), Term::literal("1"), ShaclType::DataType(Term::named_node("http://e/dt"))),
        record(None, Term::named_node("http://e/chan"), ShaclType::Class(Term::named_node("http://e/C"))),
        record(Some("b"), Term::literal("2"), ShaclType::Untyped),
        record(Some("a"), Term::literal("3"), ShaclType::Untyped),
    ];
    assert_eq!(
        configuration(&records),
        Ok(vec![
            ("a".to_string(), "1".to_string()),
            ("b".to_string(), "2".to_string()),
            ("a".to_string(), "3".to_string()),
        ])
    );
}

#[test]
fn configuration_of_class_records_alone_is_empty() {
    let records = vec![record(
        Some("k"),
        Term::blank_node("c"),
        ShaclType::Class(Term::named_node("http://e/C")),
    )];
    assert_eq!(configuration(&records), Ok(Vec::new()));
    assert_eq!(configuration(&Vec::new()), Ok(Vec::new()));
}

#[test]
fn configuration_reports_the_first_fault() {
    let records = vec![
        record(Some("a"), Term::literal("1"), ShaclType::Untyped),
        record(None, Term::literal("2"), ShaclType::Untyped),
        record(Some("c"), Term::named_node("http://e/x"), ShaclType::Untyped),
    ];
    assert_eq!(configuration(&records), Err(ConfigError::MissingKey(1)));
    let records = vec![
        record(Some("c"), Term::named_node("http://e/x"), ShaclType::Untyped),
        record(None, Term::literal("2"), ShaclType::Untyped),
    ];
    assert_eq!(configuration(&records), Err(ConfigError::NotLiteral(0)));
}

#[test]
fn variables_follow_the_records() {
    let records = vec![
        ChannelSolution {
            subject: Term::named_node("http://e/ch"),
            nifi_key: "url".to_string(),
            value: "ws://h".to_string(),
            channel_type: Term::named_node("https://w3id.org/conn#WsWriterChannel"),
        },
        ChannelSolution {
            subject: Term::named_node("http://e/ch"),
            nifi_key: "port".to_string(),
            value: "80".to_string(),
            channel_type: Term::named_node("https://w3id.org/conn#WsWriterChannel"),
        },
    ];
    let vars = variables(&records);
    assert_eq!(vars.len(), 2);
    assert_eq!(vars[0].variable.name, "url");
    assert_eq!(vars[0].variable.value, "ws://h");
    assert_eq!(vars[1].variable.name, "port");
    assert_eq!(vars[1].variable.value, "80");
}

#[test]
fn registry_variables_are_replaced() {
    let registry = VariableRegistryEntity {
        revision: RevisionDTO { client_id: Some("c".to_string()), version: 7 },
        variable_registry: VariableRegistry {
            group: "g".to_string(),
            variables: vec![VariableDTO {
                variable: Variable { name: "old".to_string(), value: "x".to_string() },
            }],
        },
    };
    let fresh = vec![VariableDTO { variable: Variable { name: "new".to_string(), value: "y".to_string() } }];
    let updated = registry.with_variables(fresh);
    assert_eq!(updated.revision.version, 7);
    assert_eq!(updated.revision.client_id, Some("c".to_string()));
    assert_eq!(updated.variable_registry.group, "g");
    assert_eq!(updated.variable_registry.variables.len(), 1);
    assert_eq!(updated.variable_registry.variables[0].variable.name, "new");
}

#[test]
fn change_group_keeps_the_address() {
    let client = Nifi::new("http://localhost:8091/nifi-api", "root");
    let other = client.change_group("g1");
    assert_eq!(other.url(), "http://localhost:8091/nifi-api");
    assert_eq!(other.group(), "g1");
    assert_eq!(other.group, "g1");
    assert_eq!(client.group(), "root");
    assert_eq!(PortType::Input.as_str(), "input");
    assert_eq!(PortType::Output.as_str(), "output");
}

#[test]
fn poller_gives_up_after_one_check_more_than_retries() {
    for max in [0u32, 1, 3, SERVICE_RETRIES] {
        let mut poller = ReadinessPoller::new(max);
        let mut checks = 0u32;
        loop {
            checks += 1;
            match poller.on_status(ServiceRunStatus::Enabling) {
                PollOutcome::Retry => continue,
                outcome => {
                    assert_eq!(outcome, PollOutcome::GaveUp);
                    break;
                }
            }
        }
        assert_eq!(checks, max + 1);
        assert_eq!(poller.retries(), max);
    }
    assert_eq!(SERVICE_RETRIES, 11);
}

#[test]
fn poller_outcomes() {
    let mut poller = ReadinessPoller::new(2);
    assert_eq!(poller.on_status(ServiceRunStatus::Enabling), PollOutcome::Retry);
    assert_eq!(poller.on_status(ServiceRunStatus::Enabled), PollOutcome::Enabled);
    assert_eq!(poller.retries(), 1);
    let mut poller = ReadinessPoller::new(2);
    assert_eq!(
        poller.on_status(ServiceRunStatus::Disabled),
        PollOutcome::Unexpected(ServiceRunStatus::Disabled)
    );
    assert_eq!(
        poller.on_status(ServiceRunStatus::Disabling),
        PollOutcome::Unexpected(ServiceRunStatus::Disabling)
    );
    assert_eq!(poller.retries(), 0);
}

#[test]
fn group_start_settles_every_service_before_running() {
    let mut starter = GroupStarter::new(1);
    assert_eq!(starter.step(StartEvent::Start), StartAction::ListServices);
    assert_eq!(starter.step(StartEvent::Services(2)), StartAction::EnableService(0));
    assert_eq!(starter.step(StartEvent::Done), StartAction::CheckService(0));
    assert_eq!(
        starter.step(StartEvent::Status(ServiceRunStatus::Enabling)),
        StartAction::Wait(POLL_INTERVAL_MS)
    );
    assert_eq!(POLL_INTERVAL_MS, 500);
    assert_eq!(starter.step(StartEvent::Done), StartAction::CheckService(0));
    assert_eq!(
        starter.step(StartEvent::Status(ServiceRunStatus::Enabling)),
        StartAction::Report(PollOutcome::GaveUp)
    );
    assert_eq!(starter.step(StartEvent::Done), StartAction::EnableService(1));
    assert_eq!(starter.step(StartEvent::Done), StartAction::CheckService(1));
    assert_eq!(
        starter.step(StartEvent::Status(ServiceRunStatus::Enabling)),
        StartAction::Wait(POLL_INTERVAL_MS)
    );
    assert_eq!(starter.step(StartEvent::Done), StartAction::CheckService(1));
    assert_eq!(
        starter.step(StartEvent::Status(ServiceRunStatus::Enabled)),
        StartAction::Report(PollOutcome::Enabled)
    );
    assert_eq!(starter.step(StartEvent::Done), StartAction::RunGroup);
    assert_eq!(starter.step(StartEvent::Done), StartAction::Finish(true));
    assert_eq!(starter.step(StartEvent::Done), StartAction::Finish(true));
}

#[test]
fn group_without_services_runs_at_once() {
    let mut starter = GroupStarter::new(SERVICE_RETRIES);
    assert_eq!(starter.step(StartEvent::Start), StartAction::ListServices);
    assert_eq!(starter.step(StartEvent::Services(0)), StartAction::RunGroup);
    assert_eq!(starter.step(StartEvent::Failed), StartAction::Finish(false));
}

#[test]
fn group_start_ends_on_a_failed_operation() {
    let mut starter = GroupStarter::new(SERVICE_RETRIES);
    assert_eq!(starter.step(StartEvent::Start), StartAction::ListServices);
    assert_eq!(starter.step(StartEvent::Failed), StartAction::Finish(false));

    let mut starter = GroupStarter::new(SERVICE_RETRIES);
    starter.step(StartEvent::Start);
    assert_eq!(starter.step(StartEvent::Services(1)), StartAction::EnableService(0));
    assert_eq!(starter.step(StartEvent::Failed), StartAction::Finish(false));

    let mut starter = GroupStarter::new(SERVICE_RETRIES);
    starter.step(StartEvent::Start);
    starter.step(StartEvent::Services(1));
    assert_eq!(starter.step(StartEvent::Done), StartAction::CheckService(0));
    assert_eq!(starter.step(StartEvent::Failed), StartAction::Finish(false));
}

#[test]
fn a_service_that_never_comes_up_is_checked_twelve_times() {
    let mut starter = GroupStarter::new(SERVICE_RETRIES);
    starter.step(StartEvent::Start);
    starter.step(StartEvent::Services(1));
    let mut action = starter.step(StartEvent::Done);
    let mut checks = 0;
    loop {
        assert_eq!(action, StartAction::CheckService(0));
        checks += 1;
        match starter.step(StartEvent::Status(ServiceRunStatus::Enabling)) {
            StartAction::Wait(_) => action = starter.step(StartEvent::Done),
            other => {
                assert_eq!(other, StartAction::Report(PollOutcome::GaveUp));
                break;
            }
        }
    }
    assert_eq!(checks, 12);
    assert_eq!(starter.step(StartEvent::Done), StartAction::RunGroup);
    assert_eq!(starter.step(StartEvent::Done), StartAction::Finish(true));
}

#[test]
fn stages_queries_and_directions() {
    assert_eq!(Stage::Processes.link_kind(), QueryKind::Links);
    assert_eq!(Stage::Writers.link_kind(), QueryKind::WriterLinks);
    assert_eq!(Stage::Readers.link_kind(), QueryKind::ReaderLinks);
    assert_eq!(Stage::Writers.direction(), PortType::Input);
    assert_eq!(Stage::Readers.direction(), PortType::Output);
    assert!(Stage::Processes.keyed());
    assert!(Stage::Writers.keyed());
    assert!(!Stage::Readers.keyed());
}

#[test]
fn pairs_are_found_by_their_first_key() {
    let pairs = vec![
        ("a".to_string(), "1".to_string()),
        ("b".to_string(), "2".to_string()),
        ("a".to_string(), "3".to_string()),
    ];
    assert_eq!(find_pair(&pairs, "a"), Some("1".to_string()));
    assert_eq!(find_pair(&pairs, "b"), Some("2".to_string()));
    assert_eq!(find_pair(&pairs, "c"), None);
    assert_eq!(find_pair(&Vec::new(), "a"), None);
}

#[test]
fn reversed_turns_a_list_round() {
    assert_eq!(reversed(vec![1, 2, 3]), vec![3, 2, 1]);
    assert_eq!(reversed(Vec::<u8>::new()), Vec::<u8>::new());
}

#[test]
fn channel_rows_map_by_direction() {
    let mut row = Row::new();
    row.bind("subject", Term::named_node("http://e/ch"));
    row.bind("nifi_key", Term::literal("url"));
    row.bind("value", Term::literal("ws://h"));
    row.bind("writer_type", Term::named_node("https://w3id.org/conn#WsWriterChannel"));
    let record = ChannelSolution::from_query(&row, PortType::Input).unwrap();
    assert_eq!(record.nifi_key, "url");
    assert_eq!(record.value, "ws://h");
    assert_eq!(record.channel_type, Term::named_node("https://w3id.org/conn#WsWriterChannel"));
    assert_eq!(
        ChannelSolution::from_query(&row, PortType::Output).unwrap_err(),
        MapError::Missing(Field::ReaderType)
    );
    let mut bad = Row::new();
    bad.bind("subject", Term::named_node("http://e/ch"));
    bad.bind("nifi_key", Term::blank_node("k"));
    assert_eq!(
        ChannelSolution::from_query(&bad, PortType::Input).unwrap_err(),
        MapError::NotLiteral(Field::NifiKey, TermKind::BlankNode)
    );
    assert_eq!(
        MapError::NotLiteral(Field::NifiKey, TermKind::BlankNode).message(),
        "Expected literal, found blank node"
    );
    assert_eq!(
        MapError::NotLiteral(Field::Value, TermKind::Triple).message(),
        "Expected literal, found triple"
    );
    let groups = get_channel_solutions(&vec![row.clone(), bad, row], PortType::Input);
    assert_eq!(groups.len(), 1);
    assert_eq!(groups[0].len(), 2);
}
