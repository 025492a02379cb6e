use steamos_mount_core::error::Error;
use steamos_mount_core::executor::{
    check_output, early_exit_error, file_result, run_result, session_outcome, CommandOutput, DaemonChild, DaemonSpawner, ExecutionContext,
    Pending, PrivilegeEscalation, PrivilegedSession, RunOutcome, StdDaemonSpawner,
};
use steamos_mount_core::daemon::{DaemonState, DaemonStep, error_response, exec_response, success_response};
use std::cell::Cell;
use std::rc::Rc;
use steamos_mount_core::protocol::{DaemonCommand, DaemonHandshake, DaemonRequest, DaemonResponse};

#[test]
fn test_default_context() {
    let ctx = ExecutionContext::default();
    assert_eq!(ctx.escalation(), PrivilegeEscalation::Direct);
}

#[test]
fn test_pkexec_context() {
    let ctx = ExecutionContext::with_pkexec();
    assert_eq!(ctx.escalation(), PrivilegeEscalation::Pkexec);
}

#[test]
fn test_sudo_context() {
    let ctx = ExecutionContext::with_sudo();
    assert_eq!(ctx.escalation(), PrivilegeEscalation::Sudo);
}

#[test]
fn test_pkexec_session_context() {
    let ctx = ExecutionContext::with_pkexec_session();
    assert_eq!(ctx.escalation(), PrivilegeEscalation::PkexecSession);
}

#[test]
fn test_sudo_session_context() {
    let ctx = ExecutionContext::with_sudo_session();
    assert_eq!(ctx.escalation(), PrivilegeEscalation::SudoSession);
}

/// An in-memory daemon: requests go straight to a daemon state, and
/// performed commands succeed with a fixed output.
struct FakeDaemon {
    state: DaemonState,
    handshake: Option<DaemonHandshake>,
    exited: Option<i32>,
    stderr: String,
    pending: Vec<DaemonResponse>,
    stopped: bool,
    waits: Rc<Cell<u32>>,
}

fn fake(secret: Vec<u8>) -> FakeDaemon {
    let hex: String = secret.iter().map(|b| format!("{:02x}", b)).collect();
    FakeDaemon {
        state: DaemonState::new(secret),
        handshake: Some(DaemonHandshake { secret: hex }),
        exited: None,
        stderr: String::new(),
        pending: Vec::new(),
        stopped: false,
        waits: Rc::new(Cell::new(0)),
    }
}

impl DaemonChild for FakeDaemon {
    fn send_request(&mut self, request: &DaemonRequest) -> Result<(), Error> {
        if self.stopped {
            return Err(Error::SessionCommunication { message: "broken pipe".to_string() });
        }
        match self.state.step(request.clone()) {
            DaemonStep::Respond(r) => self.pending.push(r),
            DaemonStep::Perform(DaemonCommand::Exec { program, args }) => {
                let out = format!("{} {}\n", program, args.join(" "));
                self.pending.push(exec_response(request.id, Some(0), out, String::new()));
            }
            DaemonStep::Perform(_) => self.pending.push(success_response(request.id)),
            DaemonStep::Stop => {
                self.stopped = true;
                self.exited = Some(0);
            }
        }
        Ok(())
    }

    fn read_response(&mut self) -> Result<DaemonResponse, Error> {
        if self.pending.is_empty() {
            return Err(Error::SessionCommunication { message: "eof".to_string() });
        }
        Ok(self.pending.remove(0))
    }

    fn read_handshake(&mut self) -> Result<Option<DaemonHandshake>, Error> {
        Ok(self.handshake.take())
    }

    fn read_stderr(&mut self) -> String {
        self.stderr.clone()
    }

    fn try_wait(&mut self) -> Result<Option<i32>, Error> {
        Ok(self.exited)
    }

    fn wait(&mut self) -> Result<i32, Error> {
        self.waits.set(self.waits.get() + 1);
        Ok(self.exited.unwrap_or(0))
    }

    fn kill(&mut self) -> Result<(), Error> {
        self.exited = Some(-1);
        Ok(())
    }
}

struct FakeSpawner;

impl DaemonSpawner for FakeSpawner {
    type Child = FakeDaemon;

    fn spawn(&self) -> Result<FakeDaemon, Error> {
        Ok(fake(vec![7u8; 32]))
    }
}

#[test]
fn session_runs_commands_with_increasing_ids() {
    let mut session = PrivilegedSession::new(fake(vec![1u8; 32])).unwrap();
    let out = session.run_command("echo", &["hi"]).unwrap();
    assert_eq!(out.exit_code, 0);
    assert_eq!(out.stdout, "echo hi\n");
    session.write_file("/tmp/x", "data").unwrap();
    session.copy_file("/tmp/x", "/tmp/y").unwrap();
    session.mkdir_p("/tmp/z").unwrap();
    session.shutdown().unwrap();
}

#[test]
fn session_reports_cancelled_authorization() {
    let mut d = fake(vec![1u8; 32]);
    d.exited = Some(126);
    match PrivilegedSession::new(d) {
        Err(Error::AuthenticationCancelled) => {}
        other => panic!("unexpected: {:?}", other.err()),
    }
}

#[test]
fn session_reports_early_exit_with_stderr() {
    let mut d = fake(vec![1u8; 32]);
    d.exited = Some(1);
    d.stderr = "  boom \n".to_string();
    match PrivilegedSession::new(d) {
        Err(Error::SessionCreation { message }) => {
            assert_eq!(message, "Daemon process exited early with code 1: boom")
        }
        other => panic!("unexpected: {:?}", other.err()),
    }
}

#[test]
fn session_rejects_empty_and_malformed_handshake() {
    let mut d = fake(vec![1u8; 32]);
    d.handshake = None;
    assert!(matches!(PrivilegedSession::new(d), Err(Error::SessionCreation { .. })));
    let mut d = fake(vec![1u8; 32]);
    d.handshake = Some(DaemonHandshake { secret: "zz".to_string() });
    assert!(matches!(PrivilegedSession::new(d), Err(Error::SessionCreation { .. })));
}

#[test]
fn early_exit_without_stderr() {
    match early_exit_error(3, "   ") {
        Error::SessionCreation { message } => {
            assert_eq!(message, "Daemon process exited early with code 3: No error message available")
        }
        other => panic!("unexpected: {:?}", other),
    }
    assert!(matches!(early_exit_error(126, "x"), Error::AuthenticationCancelled));
}

#[test]
fn session_mode_without_spawner_fails_every_verb() {
    for mut ctx in [ExecutionContext::with_pkexec_session(), ExecutionContext::with_sudo_session()] {
        let expected = "Privileged session not available. Either set a session using set_session() or provide a spawner using set_spawner().";
        for r in [
            ctx.run_privileged_checked("ls", &[]).err(),
            ctx.write_file_privileged("/etc/fstab", "x").err(),
            ctx.copy_file_privileged("/a", "/b").err(),
            ctx.mkdir_privileged("/c").err(),
        ] {
            match r {
                Some(Error::SessionCreation { message }) => assert_eq!(message, expected),
                other => panic!("unexpected: {:?}", other),
            }
        }
        assert!(ctx.run_privileged("ls", &[]).is_err());
        assert!(!ctx.has_session());
    }
}

#[test]
fn lazy_session_is_created_once() {
    let mut ctx = ExecutionContext::with_spawner(PrivilegeEscalation::PkexecSession, FakeSpawner);
    assert!(!ctx.has_session());
    assert!(ctx.has_spawner());
    assert_eq!(ctx.mkdir_privileged("/x").unwrap(), Pending::Done);
    assert!(ctx.has_session());
    match ctx.run_privileged("id", &["-u"]).unwrap() {
        RunOutcome::Completed(out) => assert_eq!(out.stdout, "id -u\n"),
        other => panic!("unexpected: {:?}", other),
    }
    ctx.close_session().unwrap();
    assert!(!ctx.has_session());
}

#[test]
fn one_shot_strategies_hand_back_command_lines() {
    let mut ctx = ExecutionContext::with_sudo();
    assert_eq!(
        ctx.copy_file_privileged("/a", "/b").unwrap(),
        Pending::Run { program: "sudo".to_string(), args: vec!["cp".to_string(), "/a".to_string(), "/b".to_string()] }
    );
    let mut ctx = ExecutionContext::new();
    assert_eq!(
        ctx.mkdir_privileged("/m").unwrap(),
        Pending::Run { program: "mkdir".to_string(), args: vec!["-p".to_string(), "/m".to_string()] }
    );
    let mut ctx = ExecutionContext::with_pkexec();
    assert_eq!(
        ctx.write_file_privileged("/f", "c").unwrap(),
        Pending::Write { wrapper: Some("pkexec".to_string()), path: "/f".to_string(), content: "c".to_string() }
    );
}

#[test]
fn check_output_classifies_exit_codes() {
    let ok = CommandOutput { exit_code: 0, stdout: String::new(), stderr: String::new() };
    assert!(check_output("ls", &ok).is_ok());
    let cancelled = CommandOutput { exit_code: 126, stdout: String::new(), stderr: String::new() };
    assert!(matches!(check_output("ls", &cancelled), Err(Error::AuthenticationCancelled)));
    let failed = CommandOutput { exit_code: 2, stdout: String::new(), stderr: "nope".to_string() };
    match check_output("ls", &failed) {
        Err(Error::CommandExit { command, code, stderr }) => {
            assert_eq!(command, "ls");
            assert_eq!(code, 2);
            assert_eq!(stderr, "nope");
        }
        other => panic!("unexpected: {:?}", other),
    }
}

#[test]
fn spawner_command_lines() {
    let s = StdDaemonSpawner::new("/usr/bin/cli");
    assert_eq!(s.command_line(), vec!["/usr/bin/cli".to_string(), "daemon".to_string()]);
    assert!(!s.checks_wrapper());
    let s = StdDaemonSpawner::with_wrapper("pkexec", "/usr/bin/cli");
    assert_eq!(s.command_line(), vec!["pkexec".to_string(), "/usr/bin/cli".to_string(), "daemon".to_string()]);
    assert!(s.checks_wrapper());
    assert!(!StdDaemonSpawner::with_wrapper("flatpak-spawn", "x").checks_wrapper());
}

#[test]
fn session_ids_increase_and_shutdown_is_sent_once() {
    let mut session = PrivilegedSession::new(fake(vec![2u8; 32])).unwrap();
    session.mkdir_p("/a").unwrap();
    session.mkdir_p("/b").unwrap();
    session.shutdown().unwrap();
    session.shutdown().unwrap();
    assert!(session.write_file("/c", "x").is_err());
}

#[test]
fn session_outcome_cases() {
    assert!(matches!(session_outcome(Some(126), "", &None, None), Err(Error::AuthenticationCancelled)));
    match session_outcome(Some(4), " bad ", &None, None) {
        Err(Error::SessionCreation { message }) => assert_eq!(message, "Daemon process exited early with code 4: bad"),
        other => panic!("unexpected: {:?}", other),
    }
    assert!(matches!(session_outcome(None, "", &None, Some(126)), Err(Error::AuthenticationCancelled)));
    match session_outcome(None, "", &None, None) {
        Err(Error::SessionCreation { message }) => assert!(message.starts_with("Daemon sent empty handshake")),
        other => panic!("unexpected: {:?}", other),
    }
    let h = Some(DaemonHandshake { secret: "00ff10".to_string() });
    assert_eq!(session_outcome(None, "", &h, None).unwrap(), vec![0u8, 255, 16]);
    let bad = Some(DaemonHandshake { secret: "0g".to_string() });
    assert!(matches!(session_outcome(None, "", &bad, None), Err(Error::SessionCreation { .. })));
}

#[test]
fn result_mappings() {
    let err = Error::SessionCommunication { message: "eof".to_string() };
    assert_eq!(run_result(Err(err.clone())), Err(err.clone()));
    assert_eq!(file_result(Err(err.clone())), Err(err));
    let out = run_result(Ok(exec_response(1, Some(3), "o".to_string(), "e".to_string()))).unwrap();
    assert_eq!((out.exit_code, out.stdout.as_str(), out.stderr.as_str()), (3, "o", "e"));
    assert!(file_result(Ok(success_response(2))).is_ok());
    assert_eq!(
        file_result(Ok(error_response(2, "Failed to write file: denied".to_string()))),
        Err(Error::SessionCommunication { message: "Failed to write file: denied".to_string() })
    );
    assert_eq!(
        file_result(Ok(error_response(2, "Replay attack detected: ID 2 <= last ID 2".to_string()))),
        Err(Error::SessionCommunication {
            message: "Security verification failed: Replay attack detected: ID 2 <= last ID 2".to_string()
        })
    );
}

/// A spawner that counts its calls.
struct CountingSpawner(Rc<Cell<u32>>);

impl DaemonSpawner for CountingSpawner {
    type Child = FakeDaemon;

    fn spawn(&self) -> Result<FakeDaemon, Error> {
        self.0.set(self.0.get() + 1);
        Ok(fake(vec![8u8; 32]))
    }
}

#[test]
fn session_is_spawned_once_and_reused() {
    let count = Rc::new(Cell::new(0));
    let mut ctx = ExecutionContext::with_spawner(PrivilegeEscalation::SudoSession, CountingSpawner(count.clone()));
    for _ in 0..3 {
        assert_eq!(ctx.mkdir_privileged("/x").unwrap(), Pending::Done);
    }
    ctx.copy_file_privileged("/a", "/b").unwrap();
    assert_eq!(count.get(), 1);
    assert!(ctx.has_session());
}

#[test]
fn replaced_session_is_shut_down() {
    let count = Rc::new(Cell::new(0));
    let mut ctx = ExecutionContext::with_spawner(PrivilegeEscalation::PkexecSession, CountingSpawner(count.clone()));
    ctx.mkdir_privileged("/x").unwrap();
    let replacement = PrivilegedSession::new(fake(vec![9u8; 32])).unwrap();
    ctx.set_session(replacement);
    assert!(ctx.has_session());
    ctx.mkdir_privileged("/y").unwrap();
    assert_eq!(count.get(), 1);
}

#[test]
fn shutdown_waits_even_when_send_fails() {
    let mut d = fake(vec![2u8; 32]);
    let waits = d.waits.clone();
    d.stopped = true;
    let mut session = PrivilegedSession::new(d).unwrap();
    assert!(session.shutdown().is_err());
    assert_eq!(waits.get(), 1);
    // Already closed: nothing more is sent or waited for.
    assert!(session.shutdown().is_ok());
    assert_eq!(waits.get(), 1);
}
