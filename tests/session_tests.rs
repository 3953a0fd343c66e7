use e2b::event::{
    classify_payload, exit_code_from_status, resolve_exit_code, ProcessData, ProcessEnd,
    ProcessEvent, ProcessEventData, ProcessStart,
};
use e2b::handle::CommandHandle;
use e2b::json::JsonValue;
use e2b::listing::parse_process_list;
use e2b::models::CommandOptions;
use e2b::session::{
    build_shell_command, check_foreground, kill_outcome, no_pid_error, process_config,
    start_step, stdin_payload, SessionDrain,
};
use e2b::text::{decode_output, parse_i32_text};
use e2b::Error;
use std::collections::HashMap;

fn end(exit_code: Option<i32>, status: &str) -> ProcessEnd {
    ProcessEnd { exited: true, status: status.to_string(), exit_code }
}

fn data(stdout: Option<&str>, stderr: Option<&str>) -> ProcessEvent {
    ProcessEvent {
        event: ProcessEventData::Data {
            data: ProcessData {
                stdout: stdout.map(|s| s.to_string()),
                stderr: stderr.map(|s| s.to_string()),
            },
        },
    }
}

fn obj(members: Vec<(&str, JsonValue)>) -> JsonValue {
    JsonValue::Object(members.into_iter().map(|(k, v)| (k.to_string(), v)).collect())
}

fn s(t: &str) -> JsonValue {
    JsonValue::Str(t.to_string())
}

#[test]
fn exit_code_prefers_numeric_field() {
    assert_eq!(resolve_exit_code(&end(Some(7), "irrelevant")), 7);
}

#[test]
fn exit_code_from_status_line() {
    assert_eq!(resolve_exit_code(&end(None, "exit status 3")), 3);
    assert_eq!(exit_code_from_status("exit status  42 "), Some(42));
    assert_eq!(exit_code_from_status("signal: exit status -2"), Some(-2));
    assert_eq!(exit_code_from_status("exit status 1exit status 2"), Some(1));
    assert_eq!(exit_code_from_status("exit status"), None);
}

#[test]
fn exit_code_unknown_without_code() {
    assert_eq!(resolve_exit_code(&end(None, "killed")), -1);
    assert_eq!(resolve_exit_code(&end(None, "exit status x")), -1);
}

#[test]
fn integer_reading_follows_i32_rules() {
    assert_eq!(parse_i32_text("0"), Some(0));
    assert_eq!(parse_i32_text("+12"), Some(12));
    assert_eq!(parse_i32_text("-2147483648"), Some(i32::MIN));
    assert_eq!(parse_i32_text("2147483647"), Some(i32::MAX));
    assert_eq!(parse_i32_text("2147483648"), None);
    assert_eq!(parse_i32_text("99999999999999999999"), None);
    assert_eq!(parse_i32_text("-"), None);
    assert_eq!(parse_i32_text(""), None);
    assert_eq!(parse_i32_text("1 2"), None);
}

#[test]
fn simple_command_is_split_into_words() {
    let (cmd, args) = build_shell_command("echo hi");
    assert_eq!(cmd, "echo");
    assert_eq!(args, vec!["hi"]);
    let (cmd, args) = build_shell_command("  ls   -la  /tmp ");
    assert_eq!(cmd, "ls");
    assert_eq!(args, vec!["-la", "/tmp"]);
}

#[test]
fn shell_syntax_runs_under_login_shell() {
    let (cmd, args) = build_shell_command("echo a | wc -l");
    assert_eq!(cmd, "/bin/bash");
    assert_eq!(args, vec!["-l", "-c", "echo a | wc -l"]);
    let (cmd, args) = build_shell_command("echo $HOME > out.txt");
    assert_eq!(cmd, "/bin/bash");
    assert_eq!(args[2], "echo $HOME > out.txt");
    let (cmd, args) = build_shell_command("ls *.txt ~/x");
    assert_eq!(cmd, "ls");
    assert_eq!(args, vec!["*.txt", "~/x"]);
    let (cmd, args) = build_shell_command("   ");
    assert_eq!(cmd, "/bin/bash");
    assert_eq!(args, vec!["-l", "-c", "   "]);
}

#[test]
fn process_config_carries_options() {
    let mut envs = HashMap::new();
    envs.insert("A".to_string(), "1".to_string());
    let options = CommandOptions { envs: Some(envs), cwd: Some("/work".to_string()), timeout: None, background: false };
    let config = process_config("python3 main.py", &options);
    assert_eq!(config.cmd, "python3");
    assert_eq!(config.args, vec!["main.py"]);
    assert_eq!(config.envs.get("A"), Some(&"1".to_string()));
    assert_eq!(config.cwd, Some("/work".to_string()));
    let config = process_config("true", &CommandOptions::default());
    assert!(config.envs.is_empty());
    assert!(config.cwd.is_none());
}

#[test]
fn background_options_are_refused_for_waiting_run() {
    let mut options = CommandOptions::default();
    assert!(check_foreground(&options).is_ok());
    options.background = true;
    match check_foreground(&options) {
        Err(Error::Api { status, .. }) => assert_eq!(status, 400),
        _ => panic!("expected a refusal"),
    }
}

#[test]
fn kill_of_missing_process_is_false() {
    let missing = Err(Error::Api { status: 404, message: "process not found".to_string() });
    assert!(matches!(kill_outcome(missing), Ok(false)));
    assert!(matches!(kill_outcome(Ok(())), Ok(true)));
    let other = Err(Error::Api { status: 503, message: "down".to_string() });
    match kill_outcome(other) {
        Err(Error::Api { status, message }) => {
            assert_eq!(status, 503);
            assert_eq!(message, "down");
        }
        _ => panic!("expected the failure to pass through"),
    }
    assert!(matches!(kill_outcome(Err(Error::Timeout)), Err(Error::Timeout)));
}

#[test]
fn stdin_is_sent_as_base64() {
    assert_eq!(stdin_payload("hi"), "aGk=");
    assert_eq!(stdin_payload(""), "");
    assert_eq!(stdin_payload("hello\n"), "aGVsbG8K");
}

#[test]
fn output_is_decoded_from_base64() {
    assert_eq!(decode_output("aGk="), Some("hi".to_string()));
    assert_eq!(decode_output("not base64!"), None);
    assert_eq!(decode_output("//8="), None);
}

#[test]
fn start_waits_for_pid() {
    let start = ProcessEvent { event: ProcessEventData::Start { start: ProcessStart { pid: 99 } } };
    assert!(matches!(start_step(&start), Ok(Some(99))));
    assert!(matches!(start_step(&data(Some("YQ=="), None)), Ok(None)));
    let ended = ProcessEvent { event: ProcessEventData::End { end: end(Some(1), "exit status 1") } };
    match start_step(&ended) {
        Err(Error::Api { status, message }) => {
            assert_eq!(status, 500);
            assert_eq!(message, "Process ended immediately after start");
        }
        _ => panic!("expected an immediate end"),
    }
    match no_pid_error() {
        Error::Api { status, message } => {
            assert_eq!(status, 500);
            assert_eq!(message, "Failed to start process: no PID received");
        }
        _ => panic!("expected an API error"),
    }
}

#[test]
fn background_drain_forwards_and_skips_bad_output() {
    let mut drain = SessionDrain::new();
    let start = ProcessEvent { event: ProcessEventData::Start { start: ProcessStart { pid: 5 } } };
    let f = drain.apply_background(&start);
    assert!(f.stdout.is_none() && f.stderr.is_none());
    let f = drain.apply_background(&data(Some("YQ=="), None));
    assert_eq!(f.stdout, Some("a".to_string()));
    assert_eq!(f.stderr, None);
    let f = drain.apply_background(&data(None, Some("Yg==")));
    assert_eq!(f.stdout, None);
    assert_eq!(f.stderr, Some("b".to_string()));
    let stop = ProcessEvent { event: ProcessEventData::End { end: end(None, "exit status 4") } };
    drain.apply_background(&stop);
    assert!(drain.is_ended());
    let result = drain.finish();
    assert_eq!(result.stdout, "a");
    assert_eq!(result.stderr, "b");
    assert_eq!(result.exit_code, 4);
}

#[test]
fn background_drain_ends_on_bad_output() {
    let mut drain = SessionDrain::new();
    drain.apply_background(&data(Some("YQ=="), None));
    let f = drain.apply_background(&data(Some("Yg=="), Some("@@")));
    assert!(f.stdout.is_none() && f.stderr.is_none());
    assert!(drain.is_ended());
    let result = drain.finish();
    assert_eq!(result.stdout, "a");
    assert_eq!(result.stderr, "");
    assert_eq!(result.exit_code, -1);
}

#[test]
fn waiting_drain_records_pid_and_leaves_state_on_failure() {
    let mut drain = SessionDrain::new();
    let start = ProcessEvent { event: ProcessEventData::Start { start: ProcessStart { pid: 12 } } };
    drain.apply(&start).unwrap();
    assert_eq!(drain.pid(), Some(12));
    drain.apply(&data(Some("YQ=="), None)).unwrap();
    assert!(drain.apply(&data(Some("YQ=="), Some("%%"))).is_err());
    let result = drain.finish();
    assert_eq!(result.stdout, "a");
    assert_eq!(result.exit_code, -1);
}

#[test]
fn event_shapes_are_recognised() {
    let start = obj(vec![("event", obj(vec![("start", obj(vec![("pid", JsonValue::Integer(3))]))]))]);
    match classify_payload(&start) {
        Ok(ProcessEvent { event: ProcessEventData::Start { start } }) => assert_eq!(start.pid, 3),
        _ => panic!("expected a start event"),
    }
    let ended = obj(vec![(
        "event",
        obj(vec![("end", obj(vec![("exited", JsonValue::Bool(true)), ("status", s("exit status 2"))]))]),
    )]);
    match classify_payload(&ended) {
        Ok(ProcessEvent { event: ProcessEventData::End { end } }) => {
            assert!(end.exited);
            assert_eq!(end.status, "exit status 2");
            assert_eq!(end.exit_code, None);
        }
        _ => panic!("expected an end event"),
    }
    let negative_pid = obj(vec![("event", obj(vec![("start", obj(vec![("pid", JsonValue::Integer(-1))]))]))]);
    assert!(classify_payload(&negative_pid).is_err());
    let bad_stdout = obj(vec![("event", obj(vec![("data", obj(vec![("stdout", JsonValue::Integer(1))]))]))]);
    assert!(classify_payload(&bad_stdout).is_err());
}

#[test]
fn listing_accepts_three_shapes() {
    let entry = obj(vec![
        ("pid", JsonValue::Integer(4294967297)),
        ("tag", s("web")),
        (
            "config",
            obj(vec![
                ("cmd", s("node")),
                ("args", JsonValue::Array(vec![s("server.js"), JsonValue::Integer(1), s("--port")])),
                ("envs", obj(vec![("PORT", s("80")), ("BAD", JsonValue::Null)])),
                ("cwd", s("/srv")),
            ]),
        ),
    ]);
    let direct = parse_process_list(&JsonValue::Array(vec![entry])).unwrap();
    assert_eq!(direct.len(), 1);
    let p = &direct[0];
    assert_eq!(p.pid, 1);
    assert_eq!(p.tag, Some("web".to_string()));
    assert_eq!(p.cmd, "node");
    assert_eq!(p.args, vec!["server.js", "--port"]);
    assert_eq!(p.envs.len(), 1);
    assert_eq!(p.envs.get("PORT"), Some(&"80".to_string()));
    assert_eq!(p.cwd, Some("/srv".to_string()));

    let wrapped = obj(vec![("processes", JsonValue::Array(vec![obj(vec![("pid", JsonValue::Integer(8))])]))]);
    let listed = parse_process_list(&wrapped).unwrap();
    assert_eq!(listed.len(), 1);
    assert_eq!(listed[0].pid, 8);
    assert_eq!(listed[0].cmd, "");
    assert!(listed[0].args.is_empty());
    assert!(listed[0].envs.is_empty());
    assert!(listed[0].cwd.is_none());
    assert!(listed[0].tag.is_none());

    assert!(parse_process_list(&obj(vec![])).unwrap().is_empty());
}

#[test]
fn listing_of_unknown_shape_is_an_error() {
    assert!(matches!(parse_process_list(&s("nope")), Err(Error::Api { status: 500, .. })));
    assert!(parse_process_list(&obj(vec![("items", JsonValue::Array(vec![]))])).is_err());
    assert!(parse_process_list(&JsonValue::Null).is_err());
}

#[test]
fn handle_channels_are_taken_once() {
    let (_out_tx, out_rx) = tokio::sync::mpsc::channel(4);
    let (_err_tx, err_rx) = tokio::sync::mpsc::channel(4);
    let (_res_tx, res_rx) = tokio::sync::oneshot::channel();
    let mut handle = CommandHandle::new(31, out_rx, err_rx, res_rx);
    assert_eq!(handle.pid(), 31);
    assert!(handle.take_stdout().is_some());
    assert!(handle.take_stdout().is_none());
    assert!(handle.take_stderr().is_some());
    assert!(handle.take_stderr().is_none());
    assert!(handle.take_result().is_some());
    assert!(handle.take_result().is_none());
    let mut attached = CommandHandle::from_pid(9);
    assert_eq!(attached.pid, 9);
    assert!(attached.take_stdout().is_none());
    assert!(attached.take_result().is_none());
}
