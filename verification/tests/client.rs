use osquery_rs::CallOutcome;
use osquery_rs::ChannelKind;
use osquery_rs::DuplexStrategy;
use osquery_rs::ExtensionResponse;
use osquery_rs::ExtensionStatus;
use osquery_rs::OSQuery;
use osquery_rs::QueryError;
use osquery_rs::ReadinessPoll;
use osquery_rs::Row;
use osquery_rs::finish_call;
use osquery_rs::query_error_message;

fn time_response() -> ExtensionResponse {
    ExtensionResponse {
        status: Some(ExtensionStatus { code: Some(0), message: Some(String::from("OK")), uuid: None }),
        response: vec![Row {
            columns: vec![
                (String::from("hour"), String::from("13")),
                (String::from("minutes"), String::from("37")),
            ],
        }],
    }
}

#[test]
fn new_handle_defaults() {
    let h = OSQuery::new();
    assert_eq!(h.get_socket(), "/tmp/osquery-rs");
    assert!(matches!(h.get_channel(), ChannelKind::StreamSocket));
}

#[test]
fn set_socket_round_trip() {
    let h = OSQuery::new().set_socket("/tmp/test.sock");
    assert_eq!(h.get_socket(), "/tmp/test.sock");
}

#[test]
fn set_channel_round_trip() {
    let h = OSQuery::new().set_channel(ChannelKind::NamedPipe);
    assert!(matches!(h.get_channel(), ChannelKind::NamedPipe));
    assert_eq!(h.get_socket(), "/tmp/osquery-rs");
}

#[test]
fn spawn_command_fixed_arguments() {
    let h = OSQuery::new().set_socket("/tmp/test.sock");
    let cmd = h.spawn_command("./osqueryd");
    assert_eq!(cmd.program, "./osqueryd");
    assert_eq!(
        cmd.args,
        vec![
            String::from("--extensions_socket"),
            String::from("/tmp/test.sock"),
            String::from("--disable_database"),
            String::from("--disable_watchdog"),
            String::from("--disable_logging"),
            String::from("--ephemeral"),
            String::from("--config_path"),
            String::from("/dev/null"),
        ]
    );
    assert!(cmd.discard_output);
}

#[test]
fn readiness_poll_finishes_on_first_connect() {
    let mut poll = ReadinessPoll::start();
    assert!(!poll.is_done());
    poll.observe(false);
    poll.observe(false);
    assert!(!poll.is_done());
    poll.observe(true);
    assert!(poll.is_done());
    poll.observe(false);
    assert!(poll.is_done());
}

#[test]
fn teardown_after_spawn_removes_process_and_socket() {
    let mut poll = ReadinessPoll::start();
    poll.observe(true);
    let mut h = OSQuery::new().set_socket("/tmp/test.sock").adopt_instance(&poll, 4242);
    let plan = h.take_teardown();
    assert_eq!(plan.kill_instance, Some(4242));
    assert_eq!(plan.remove_socket, Some(String::from("/tmp/test.sock")));
}

#[test]
fn teardown_runs_exactly_once() {
    let mut poll = ReadinessPoll::start();
    poll.observe(true);
    let mut h = OSQuery::new().adopt_instance(&poll, 7);
    let first = h.take_teardown();
    assert!(first.kill_instance.is_some());
    assert!(first.remove_socket.is_some());
    let second = h.take_teardown();
    assert_eq!(second.kill_instance, None);
    assert_eq!(second.remove_socket, None);
}

#[test]
fn teardown_of_attached_handle_removes_nothing() {
    let mut h = OSQuery::new().set_socket("/tmp/external.sock");
    let plan = h.take_teardown();
    assert_eq!(plan.kill_instance, None);
    assert_eq!(plan.remove_socket, None);
}

#[test]
fn teardown_on_named_pipe_leaves_no_file_to_remove() {
    let mut poll = ReadinessPoll::start();
    poll.observe(true);
    let mut h = OSQuery::new().set_channel(ChannelKind::NamedPipe).adopt_instance(&poll, 9);
    let plan = h.take_teardown();
    assert_eq!(plan.kill_instance, Some(9));
    assert_eq!(plan.remove_socket, None);
}

#[test]
fn channel_duplex_strategies() {
    assert!(matches!(
        ChannelKind::StreamSocket.duplex_strategy(),
        DuplexStrategy::CloneConnection
    ));
    assert!(matches!(
        ChannelKind::NamedPipe.duplex_strategy(),
        DuplexStrategy::OpenSecondEndpoint
    ));
    assert!(ChannelKind::StreamSocket.removes_endpoint_file());
    assert!(!ChannelKind::NamedPipe.removes_endpoint_file());
}

#[test]
fn call_setup_uses_current_path_and_three_second_timeouts() {
    let h = OSQuery::new().set_socket("/tmp/test.sock");
    let setup = h.call_setup();
    assert_eq!(setup.path, "/tmp/test.sock");
    assert_eq!(setup.read_timeout_secs, 3);
    assert_eq!(setup.write_timeout_secs, 3);
    assert!(matches!(setup.duplex, DuplexStrategy::CloneConnection));
}

#[test]
fn call_setup_is_independent_of_call_history() {
    let mut poll = ReadinessPoll::start();
    poll.observe(true);
    let attached = OSQuery::new().set_socket("/tmp/test.sock");
    let owning = OSQuery::new().set_socket("/tmp/test.sock").adopt_instance(&poll, 11);
    let s1 = attached.call_setup();
    let s2 = owning.call_setup();
    assert_eq!(s1.path, s2.path);
    assert_eq!(s1.read_timeout_secs, s2.read_timeout_secs);
    assert_eq!(s1.write_timeout_secs, s2.write_timeout_secs);
}

#[test]
fn replied_call_returns_response_unmodified() {
    let h = OSQuery::new().set_socket("/tmp/test.sock");
    assert_eq!(h.get_socket(), "/tmp/test.sock");
    let outcome = CallOutcome::Replied { response: time_response() };
    let res = finish_call("select * from time", outcome).unwrap();
    assert_eq!(res.status.unwrap().code.unwrap(), 0);
    assert!(res.response.len() >= 1);
    assert_eq!(res.response[0].columns[0].0, "hour");
    assert_eq!(res.response[0].columns[0].1, "13");
}

#[test]
fn unreachable_socket_reports_connect_failure() {
    let outcome = CallOutcome::ConnectFailed { detail: String::from("No such file or directory") };
    let res = finish_call("select * from time", outcome);
    match res {
        Err(QueryError::ConnectFailure(m)) => {
            assert_eq!(
                m,
                "Unable to execute the query 'select * from time', \
                 ERROR: No such file or directory"
            );
        }
        _ => panic!("expected a connect failure"),
    }
}

#[test]
fn silent_daemon_reports_transport_timeout() {
    let outcome = CallOutcome::TimedOut { detail: String::from("Resource temporarily unavailable") };
    let res = finish_call("select 1", outcome);
    match res {
        Err(QueryError::TransportTimeout(m)) => {
            assert_eq!(
                m,
                "Unable to execute the query 'select 1', \
                 ERROR: Resource temporarily unavailable"
            );
        }
        _ => panic!("expected a transport timeout"),
    }
}

#[test]
fn malformed_reply_reports_protocol_failure() {
    let outcome = CallOutcome::ProtocolFailed { detail: String::from("bad message type") };
    let res = finish_call("select 1", outcome);
    match res {
        Err(QueryError::ProtocolFailure(m)) => {
            assert_eq!(m, "Unable to execute the query 'select 1', ERROR: bad message type");
        }
        _ => panic!("expected a protocol failure"),
    }
}

#[test]
fn query_error_message_exact_text() {
    let m = query_error_message("select * from time", "boom");
    assert_eq!(m, "Unable to execute the query 'select * from time', ERROR: boom");
}

#[test]
fn error_messages_carry_their_detail() {
    assert_eq!(QueryError::SpawnFailure(String::from("no binary")).message(), "no binary");
    assert_eq!(QueryError::ConnectFailure(String::from("refused")).message(), "refused");
    assert_eq!(QueryError::TransportTimeout(String::from("slow")).message(), "slow");
    assert_eq!(QueryError::ProtocolFailure(String::from("garbled")).message(), "garbled");
    assert_eq!(QueryError::TeardownFailure(String::from("stuck")).message(), "stuck");
}
