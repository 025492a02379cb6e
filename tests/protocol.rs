use steamos_mount_core::daemon::{DaemonState, DaemonStep, exec_response, operation_failed};
use steamos_mount_core::executor::check_response;
use steamos_mount_core::protocol::{
    compute_hmac, constant_time_eq, generate_secret, verify_hmac, DaemonCommand, DaemonHandshake,
    DaemonRequest, DaemonResponse,
};

#[test]
fn test_hmac_sign_and_verify() {
    let secret = generate_secret();
    let id = 1u64;
    let payload = r#"{"cmd":"exec","program":"ls","args":["-la"]}"#;

    let signature = compute_hmac(&secret, id, payload);
    assert!(verify_hmac(&secret, id, payload, &signature));

    // Wrong secret should fail
    let wrong_secret = generate_secret();
    assert!(!verify_hmac(&wrong_secret, id, payload, &signature));

    // Wrong id should fail
    assert!(!verify_hmac(&secret, 2, payload, &signature));

    // Wrong payload should fail
    assert!(!verify_hmac(&secret, id, "wrong", &signature));
}

#[test]
fn test_constant_time_eq() {
    assert!(constant_time_eq("abc", "abc"));
    assert!(!constant_time_eq("abc", "abd"));
    assert!(!constant_time_eq("abc", "ab"));
}

#[test]
fn hmac_matches_known_vector() {
    // HMAC-SHA256 with key "key" over id 1 (8 little-endian bytes) and "{}".
    let sig = compute_hmac(b"key", 1, "{}");
    assert_eq!(sig, "de4e1e12c517f1360c4bbfa676ae679c4766e9d176177a0ffccdf80eec3b8661");
    assert_ne!(sig, compute_hmac(b"key", 1, "{ }"));
    assert_ne!(sig, compute_hmac(b"key", 256, "{}"));
}

#[test]
fn command_json_matches_wire_format() {
    let exec = DaemonCommand::Exec { program: "ls".to_string(), args: vec!["-la".to_string()] };
    assert_eq!(exec.to_json(), r#"{"cmd":"exec","program":"ls","args":["-la"]}"#);
    let none = DaemonCommand::Exec { program: "true".to_string(), args: vec![] };
    assert_eq!(none.to_json(), r#"{"cmd":"exec","program":"true","args":[]}"#);
    let w = DaemonCommand::WriteFile { path: "/a b".to_string(), content: "x\n\"y\"".to_string() };
    assert_eq!(w.to_json(), r#"{"cmd":"write_file","path":"/a b","content":"x\n\"y\""}"#);
    let c = DaemonCommand::CopyFile { src: "/s".to_string(), dst: "/d".to_string() };
    assert_eq!(c.to_json(), r#"{"cmd":"copy_file","src":"/s","dst":"/d"}"#);
    let m = DaemonCommand::MkdirP { path: "/m".to_string() };
    assert_eq!(m.to_json(), r#"{"cmd":"mkdir_p","path":"/m"}"#);
    assert_eq!(DaemonCommand::Shutdown.to_json(), r#"{"cmd":"shutdown"}"#);
}

fn signed(secret: &[u8], id: u64, cmd: DaemonCommand) -> DaemonRequest {
    let hmac = compute_hmac(secret, id, &cmd.to_json());
    DaemonRequest { id, hmac, cmd }
}

fn echo() -> DaemonCommand {
    DaemonCommand::Exec { program: "echo".to_string(), args: vec!["hi".to_string()] }
}

fn is_replay(step: &DaemonStep) -> bool {
    match step {
        DaemonStep::Respond(r) => {
            !r.success && r.error.as_deref().map_or(false, |e| e.starts_with("Replay attack detected"))
        }
        _ => false,
    }
}

#[test]
fn daemon_accepts_signed_exec_on_fresh_state() {
    let secret = vec![9u8; 32];
    let mut state = DaemonState::new(secret.clone());
    assert_eq!(state.last_accepted_id, 0);
    match state.step(signed(&secret, 1, echo())) {
        DaemonStep::Perform(cmd) => assert_eq!(cmd, echo()),
        other => panic!("unexpected: {:?}", other),
    }
    assert_eq!(state.last_accepted_id, 1);
    let resp = exec_response(1, Some(0), "hi\n".to_string(), String::new());
    assert_eq!(resp.id, 1);
    assert!(resp.success);
    assert_eq!(resp.exit_code, 0);
    assert_eq!(resp.stdout, "hi\n");
    assert_eq!(resp.error, None);
}

#[test]
fn daemon_rejects_replayed_id() {
    let secret = vec![9u8; 32];
    let mut state = DaemonState::new(secret.clone());
    assert!(matches!(state.step(signed(&secret, 1, echo())), DaemonStep::Perform(_)));
    let second = state.step(signed(&secret, 1, echo()));
    assert!(is_replay(&second));
    if let DaemonStep::Respond(r) = second {
        assert_eq!(r.error.as_deref(), Some("Replay attack detected: ID 1 <= last ID 1"));
        assert_eq!(r.id, 1);
    }
    assert_eq!(state.last_accepted_id, 1);
}

#[test]
fn daemon_anti_replay_sequences() {
    let secret = vec![3u8; 32];
    let mut state = DaemonState::new(secret.clone());
    let verdicts: Vec<bool> = [1u64, 2, 2, 3]
        .iter()
        .map(|&id| matches!(state.step(signed(&secret, id, echo())), DaemonStep::Perform(_)))
        .collect();
    assert_eq!(verdicts, vec![true, true, false, true]);
    assert_eq!(state.last_accepted_id, 3);

    let mut state = DaemonState::new(secret.clone());
    assert!(matches!(state.step(signed(&secret, 1, echo())), DaemonStep::Perform(_)));
    assert!(matches!(state.step(signed(&secret, 3, echo())), DaemonStep::Perform(_)));
    assert!(is_replay(&state.step(signed(&secret, 2, echo()))));
    assert_eq!(state.last_accepted_id, 3);
}

#[test]
fn daemon_rejects_wrong_secret_without_moving_state() {
    let secret = vec![5u8; 32];
    let mut state = DaemonState::new(secret.clone());
    match state.step(signed(&[6u8; 32], 1, echo())) {
        DaemonStep::Respond(r) => {
            assert!(!r.success);
            assert_eq!(r.error.as_deref(), Some("HMAC authentication failed"));
        }
        other => panic!("unexpected: {:?}", other),
    }
    assert_eq!(state.last_accepted_id, 0);
    assert!(matches!(state.step(signed(&secret, 1, echo())), DaemonStep::Perform(_)));
}

#[test]
fn daemon_stops_on_shutdown() {
    let secret = vec![5u8; 32];
    let mut state = DaemonState::new(secret.clone());
    assert!(matches!(state.step(signed(&secret, 1, DaemonCommand::Shutdown)), DaemonStep::Stop));
    assert_eq!(state.last_accepted_id, 1);
}

#[test]
fn client_flags_security_rejections() {
    let secret = vec![5u8; 32];
    let mut state = DaemonState::new(secret.clone());
    if let DaemonStep::Respond(r) = state.step(signed(&[1u8; 32], 1, echo())) {
        match check_response(r) {
            Err(steamos_mount_core::error::Error::SessionCommunication { message }) => {
                assert_eq!(message, "Security verification failed: HMAC authentication failed")
            }
            other => panic!("unexpected: {:?}", other),
        }
    } else {
        panic!("expected a response");
    }
    let plain = operation_failed(4, "write file", "denied");
    assert_eq!(plain.error.as_deref(), Some("Failed to write file: denied"));
    assert!(check_response(plain).is_ok());
}

fn decode(text: &str) -> DaemonCommand {
    let v: serde_json::Value = serde_json::from_str(text).unwrap();
    command_of(&v)
}

fn command_of(v: &serde_json::Value) -> DaemonCommand {
    let s = |k: &str| v[k].as_str().unwrap().to_string();
    match v["cmd"].as_str().unwrap() {
        "exec" => DaemonCommand::Exec {
            program: s("program"),
            args: v["args"].as_array().unwrap().iter().map(|a| a.as_str().unwrap().to_string()).collect(),
        },
        "write_file" => DaemonCommand::WriteFile { path: s("path"), content: s("content") },
        "copy_file" => DaemonCommand::CopyFile { src: s("src"), dst: s("dst") },
        "mkdir_p" => DaemonCommand::MkdirP { path: s("path") },
        "shutdown" => DaemonCommand::Shutdown,
        other => panic!("unknown command {}", other),
    }
}

#[test]
fn command_json_round_trips_for_every_kind() {
    let tricky = "a \"quoted\"\n\tline \\ é ✓ \u{1}".to_string();
    let commands = vec![
        DaemonCommand::Exec { program: tricky.clone(), args: vec![tricky.clone(), String::new(), "x".to_string()] },
        DaemonCommand::WriteFile { path: tricky.clone(), content: tricky.clone() },
        DaemonCommand::CopyFile { src: tricky.clone(), dst: "/d".to_string() },
        DaemonCommand::MkdirP { path: tricky.clone() },
        DaemonCommand::Shutdown,
    ];
    for cmd in commands {
        let text = cmd.to_json();
        assert!(!text.contains('\n'));
        assert_eq!(decode(&text), cmd);
    }
}

fn commands() -> Vec<DaemonCommand> {
    let tricky = "a \"quoted\"\n\tline \\ é ✓ \u{1}".to_string();
    vec![
        DaemonCommand::Exec { program: tricky.clone(), args: vec![tricky.clone(), String::new()] },
        DaemonCommand::WriteFile { path: "/etc/fstab".to_string(), content: tricky.clone() },
        DaemonCommand::CopyFile { src: "/a".to_string(), dst: tricky.clone() },
        DaemonCommand::MkdirP { path: tricky.clone() },
        DaemonCommand::Shutdown,
    ]
}

#[test]
fn request_lines_round_trip_for_every_kind() {
    for (i, cmd) in commands().into_iter().enumerate() {
        let request = signed(&[4u8; 32], i as u64 + 1, cmd);
        let line = request.to_json();
        assert!(!line.contains('\n'));
        let v: serde_json::Value = serde_json::from_str(&line).unwrap();
        let decoded = DaemonRequest {
            id: v["id"].as_u64().unwrap(),
            hmac: v["hmac"].as_str().unwrap().to_string(),
            cmd: command_of(&v),
        };
        assert_eq!(decoded, request);
    }
}

#[test]
fn response_lines_round_trip() {
    let responses = vec![
        DaemonResponse { id: 1, success: true, exit_code: 0, stdout: "hi\n".to_string(), stderr: String::new(), error: None },
        DaemonResponse { id: u64::MAX, success: false, exit_code: -1, stdout: String::new(), stderr: "e \"x\"".to_string(), error: Some("Failed to copy file: ✗".to_string()) },
        DaemonResponse { id: 7, success: false, exit_code: i32::MIN, stdout: String::new(), stderr: String::new(), error: None },
    ];
    for response in responses {
        let line = response.to_json();
        assert!(!line.contains('\n'));
        let v: serde_json::Value = serde_json::from_str(&line).unwrap();
        let decoded = DaemonResponse {
            id: v["id"].as_u64().unwrap(),
            success: v["success"].as_bool().unwrap(),
            exit_code: v["exit_code"].as_i64().unwrap() as i32,
            stdout: v["stdout"].as_str().unwrap().to_string(),
            stderr: v["stderr"].as_str().unwrap().to_string(),
            error: v["error"].as_str().map(|e| e.to_string()),
        };
        assert_eq!(decoded, response);
    }
    let h = DaemonHandshake { secret: "00ff".to_string() };
    assert_eq!(h.to_json(), r#"{"secret":"00ff"}"#);
}

#[test]
fn request_line_matches_wire_format() {
    let request = DaemonRequest { id: 3, hmac: "ab".to_string(), cmd: DaemonCommand::MkdirP { path: "/m".to_string() } };
    assert_eq!(request.to_json(), r#"{"id":3,"hmac":"ab","cmd":"mkdir_p","path":"/m"}"#);
}
