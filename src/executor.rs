//! Privileged execution: the client session with the elevated daemon, and
//! the execution context that decides how each privileged verb is carried out.
//!
//! The daemon process is reached through [`DaemonChild`], and created on
//! demand through [`DaemonSpawner`]; hosts implement both, so the session
//! logic is the same whether the daemon was launched directly, through an
//! escalation tool, or through a host application's own spawning facility.
//! Work that needs the local operating system (running a program without a
//! session, writing a file without a session) is handed back to the caller
//! as a [`Pending`] or [`RunOutcome`] value.

use vstd::prelude::*;
use crate::error::Error;
use crate::protocol::{
    DaemonCommand, DaemonHandshake, DaemonRequest, DaemonResponse, command_json, compute_hmac,
    hex_of, is_hex_text, signature_of, from_hex,
};
use crate::text::{contains, occurs_in, views, push_signed_decimal, push_text, signed_decimal, trim, trimmed};

verus! {

/// Exit code with which an escalation tool reports that the user declined.
pub const AUTH_CANCELLED_EXIT_CODE: i32 = 126;

// ---------------------------------------------------------------------------
// Process abstractions
// ---------------------------------------------------------------------------

/// A running daemon process, as the host reaches it.
///
/// Requests and responses travel one per line over the daemon's standard
/// input and output; standard error carries free diagnostic text.
pub trait DaemonChild {
    /// Writes one request as a line to the daemon's input and flushes it.
    fn send_request(&mut self, request: &DaemonRequest) -> Result<(), Error>;

    /// Reads one line from the daemon's output and decodes it as a response.
    fn read_response(&mut self) -> Result<DaemonResponse, Error>;

    /// Reads the first line from the daemon's output as the handshake;
    /// `None` when the daemon produced an empty line or nothing at all.
    fn read_handshake(&mut self) -> Result<Option<DaemonHandshake>, Error>;

    /// Reads what the daemon wrote to its error stream.
    fn read_stderr(&mut self) -> String;

    /// The exit code if the process has exited, without blocking.
    fn try_wait(&mut self) -> Result<Option<i32>, Error>;

    /// Blocks until the process exits, and returns its exit code.
    fn wait(&mut self) -> Result<i32, Error>;

    /// Forcibly terminates the process.
    fn kill(&mut self) -> Result<(), Error>;
}

/// Something that starts an elevated daemon on demand.
pub trait DaemonSpawner {
    /// The process handle it produces.
    type Child: DaemonChild;

    /// Starts a new daemon process.
    fn spawn(&self) -> Result<Self::Child, Error>;
}

/// A daemon handle that is never connected: every operation fails.
pub struct NoDaemon;

impl DaemonChild for NoDaemon {
    fn send_request(&mut self, request: &DaemonRequest) -> Result<(), Error> {
        Err(Error::SessionCommunication { message: "Daemon stdin not available".to_string() })
    }

    fn read_response(&mut self) -> Result<DaemonResponse, Error> {
        Err(Error::SessionCommunication { message: "Daemon stdout not available".to_string() })
    }

    fn read_handshake(&mut self) -> Result<Option<DaemonHandshake>, Error> {
        Ok(None)
    }

    fn read_stderr(&mut self) -> String {
        String::new()
    }

    fn try_wait(&mut self) -> Result<Option<i32>, Error> {
        Ok(Some(-1))
    }

    fn wait(&mut self) -> Result<i32, Error> {
        Ok(-1)
    }

    fn kill(&mut self) -> Result<(), Error> {
        Ok(())
    }
}

/// The spawner of a context that has none: spawning always fails.
pub struct NoSpawner;

impl DaemonSpawner for NoSpawner {
    type Child = NoDaemon;

    fn spawn(&self) -> Result<NoDaemon, Error> {
        Err(Error::SessionCreation { message: "No daemon spawner configured".to_string() })
    }
}

/// Spawner settings for launching the helper binary as `<cli_path> daemon`,
/// optionally behind an escalation tool (`<wrapper> <cli_path> daemon`).
///
/// The launch itself is done by the host, which implements [`DaemonSpawner`]
/// for its own process facility from these settings.
#[derive(Debug, Clone, PartialEq, Eq)]
pub struct StdDaemonSpawner {
    /// Path to the helper binary.
    pub cli_path: String,
    /// Escalation tool placed in front of it, if any.
    pub wrapper: Option<String>,
}

impl StdDaemonSpawner {
    /// Launches the helper directly.
    pub fn new(cli_path: &str) -> (r: StdDaemonSpawner)
        ensures
            r.cli_path@ == cli_path@,
            r.wrapper is None,
    {
        StdDaemonSpawner { cli_path: cli_path.to_string(), wrapper: None }
    }

    /// Launches the helper behind an escalation tool.
    pub fn with_wrapper(wrapper: &str, cli_path: &str) -> (r: StdDaemonSpawner)
        ensures
            r.cli_path@ == cli_path@,
            r.wrapper is Some && r.wrapper->Some_0@ == wrapper@,
    {
        StdDaemonSpawner { cli_path: cli_path.to_string(), wrapper: Some(wrapper.to_string()) }
    }

    /// The command line that starts the daemon.
    pub fn command_line(&self) -> (r: Vec<String>)
        ensures
            self.wrapper is None ==> r@.len() == 2 && r@[0]@ == self.cli_path@ && r@[1]@ == "daemon"@,
            self.wrapper is Some ==> r@.len() == 3 && r@[0]@ == self.wrapper->Some_0@
                && r@[1]@ == self.cli_path@ && r@[2]@ == "daemon"@,
    {
        let mut r: Vec<String> = Vec::new();
        match &self.wrapper {
            Some(w) => r.push(w.clone()),
            None => {},
        }
        r.push(self.cli_path.clone());
        r.push("daemon".to_string());
        r
    }

    /// Whether the wrapper is one of the standard tools whose presence is
    /// checked before launching (`pkexec`, `sudo`).
    pub fn checks_wrapper(&self) -> (r: bool)
        ensures
            r == (self.wrapper is Some && is_standard_tool(self.wrapper->Some_0@)),
    {
        match &self.wrapper {
            Some(w) => standard_tool(w.as_str()),
            None => false,
        }
    }
}

/// `pkexec` or `sudo`.
pub open spec fn is_standard_tool(s: Seq<char>) -> bool {
    s == "pkexec"@ || s == "sudo"@
}

fn standard_tool(s: &str) -> (r: bool)
    ensures
        r == is_standard_tool(s@),
{
    let t = s.to_string();
    let a = "pkexec".to_string();
    let b = "sudo".to_string();
    t == a || t == b
}


// ---------------------------------------------------------------------------
// Outcomes
// ---------------------------------------------------------------------------

/// What a program run produced.
#[derive(Debug, Clone, PartialEq, Eq)]
pub struct CommandOutput {
    /// Exit code; -1 when the program did not exit normally.
    pub exit_code: i32,
    /// Captured standard output.
    pub stdout: String,
    /// Captured standard error.
    pub stderr: String,
}

/// Message of the error for a session-mode context with neither a session
/// nor a spawner.
pub open spec fn no_session_message() -> Seq<char> {
    "Privileged session not available. Either set a session using set_session() or provide a spawner using set_spawner()."@
}

/// The configuration error of a session-mode context with neither a
/// session nor a spawner.
pub open spec fn is_no_session_error<T>(r: Result<T, Error>) -> bool {
    r matches Err(Error::SessionCreation { message }) && message@ == no_session_message()
}

/// Message of the error for a daemon that exited before its handshake.
pub open spec fn early_exit_message(code: i32, stderr: Seq<char>) -> Seq<char> {
    "Daemon process exited early with code "@ + signed_decimal(code as int) + ": "@
        + (if trimmed(stderr).len() == 0 { "No error message available"@ } else { trimmed(stderr) })
}

/// Message of the error for an empty handshake.
pub open spec fn empty_handshake_message() -> Seq<char> {
    "Daemon sent empty handshake (process may have failed to start or authentication was cancelled)"@
}

/// The error for a daemon that exited with `code` before its handshake,
/// having written `stderr`: a declined authorization, or a failed start.
pub fn early_exit_error(code: i32, stderr: &str) -> (r: Error)
    ensures
        code == AUTH_CANCELLED_EXIT_CODE ==> r is AuthenticationCancelled,
        code != AUTH_CANCELLED_EXIT_CODE ==> (r matches Error::SessionCreation { message }
            && message@ == early_exit_message(code, stderr@)),
{
    if code == AUTH_CANCELLED_EXIT_CODE {
        return Error::AuthenticationCancelled;
    }
    let t = trim(stderr);
    let mut m = String::new();
    push_text(&mut m, "Daemon process exited early with code ");
    push_signed_decimal(&mut m, code as i64);
    push_text(&mut m, ": ");
    if t.as_str().is_empty() {
        push_text(&mut m, "No error message available");
    } else {
        push_text(&mut m, t.as_str());
    }
    proof {
        assert(m@ =~= early_exit_message(code, stderr@));
    }
    Error::SessionCreation { message: m }
}

/// The secret carried by a handshake: its hex text decoded.
pub fn handshake_secret(handshake: &DaemonHandshake) -> (r: Result<Vec<u8>, Error>)
    ensures
        r is Ok <==> is_hex_text(handshake.secret@),
        r is Ok ==> 2 * r->Ok_0@.len() == handshake.secret@.len(),
        forall|b: Seq<u8>| #[trigger] hex_of(b) == handshake.secret@ ==> (r is Ok && r->Ok_0@ == b),
        r is Err ==> r->Err_0 is SessionCreation,
{
    match from_hex(handshake.secret.as_str()) {
        Some(v) => Ok(v),
        None => Err(Error::SessionCreation {
            message: "Failed to decode daemon secret: invalid hex text".to_string(),
        }),
    }
}

/// A rejection that the daemon gives only to a request that failed its
/// security checks (bad signature or replayed id).
pub open spec fn is_security_rejection(resp: DaemonResponse) -> bool {
    &&& !resp.success
    &&& resp.error is Some
    &&& (occurs_in(resp.error->Some_0@, "authentication"@) || occurs_in(resp.error->Some_0@, "HMAC"@)
        || occurs_in(resp.error->Some_0@, "Replay attack"@))
}

/// Passes a response on, unless it reports a failed security check, which
/// becomes a dedicated "Security verification failed" error.
pub fn check_response(resp: DaemonResponse) -> (r: Result<DaemonResponse, Error>)
    ensures
        !is_security_rejection(resp) ==> r == Ok::<DaemonResponse, Error>(resp),
        is_security_rejection(resp) ==> (r matches Err(Error::SessionCommunication { message })
            && message@ == "Security verification failed: "@ + resp.error->Some_0@),
{
    if !resp.success {
        match &resp.error {
            Some(e) => {
                if contains(e.as_str(), "authentication") || contains(e.as_str(), "HMAC")
                    || contains(e.as_str(), "Replay attack") {
                    let mut m = String::new();
                    push_text(&mut m, "Security verification failed: ");
                    push_text(&mut m, e.as_str());
                    return Err(Error::SessionCommunication { message: m });
                }
            },
            None => {},
        }
    }
    Ok(resp)
}

/// The outcome of a file operation from its response.
pub fn file_op_result(resp: DaemonResponse) -> (r: Result<(), Error>)
    ensures
        resp.success ==> r is Ok,
        !resp.success ==> (r matches Err(Error::SessionCommunication { message })
            && message@ == (match resp.error { Some(e) => e@, None => "Unknown error"@ })),
{
    if resp.success {
        Ok(())
    } else {
        match resp.error {
            Some(e) => Err(Error::SessionCommunication { message: e }),
            None => Err(Error::SessionCommunication { message: "Unknown error".to_string() }),
        }
    }
}

/// The outcome of a program run that must succeed: exit code 0 is success,
/// the cancellation code means the user declined, any other code is a
/// command failure carrying the code and the captured error text.
pub fn check_output(command: &str, output: &CommandOutput) -> (r: Result<(), Error>)
    ensures
        output.exit_code == 0 ==> r is Ok,
        output.exit_code == AUTH_CANCELLED_EXIT_CODE ==> r matches Err(Error::AuthenticationCancelled),
        output.exit_code != 0 && output.exit_code != AUTH_CANCELLED_EXIT_CODE ==> (r matches Err(
            Error::CommandExit { command: c, code, stderr },
        ) && c@ == command@ && code == output.exit_code && stderr@ == output.stderr@),
{
    if output.exit_code == 0 {
        Ok(())
    } else if output.exit_code == AUTH_CANCELLED_EXIT_CODE {
        Err(Error::AuthenticationCancelled)
    } else {
        Err(Error::CommandExit {
            command: command.to_string(),
            code: output.exit_code,
            stderr: output.stderr.clone(),
        })
    }
}

fn exhausted() -> (r: Error)
    ensures
        r is SessionCommunication,
{
    Error::SessionCommunication { message: "Request ids exhausted for this session".to_string() }
}

// ---------------------------------------------------------------------------
// Session
// ---------------------------------------------------------------------------

/// How a session opening ends, from what the new daemon showed: the exit
/// code if it had already exited (with its error text), else its handshake
/// (`None` when blank) and, for a blank one, the exit code read after it.
/// An early exit is [`early_exit_error`]; a blank handshake is a declined
/// authorization when the daemon exited with the cancellation code, else
/// the empty-handshake error; a handshake gives its decoded secret.
pub fn session_outcome(
    first_exit: Option<i32>,
    stderr: &str,
    handshake: &Option<DaemonHandshake>,
    exit_after_blank: Option<i32>,
) -> (r: Result<Vec<u8>, Error>)
    ensures
        first_exit == Some(AUTH_CANCELLED_EXIT_CODE) ==> r matches Err(Error::AuthenticationCancelled),
        first_exit is Some && first_exit != Some(AUTH_CANCELLED_EXIT_CODE) ==> (r matches Err(Error::SessionCreation { message })
            && message@ == early_exit_message(first_exit->Some_0, stderr@)),
        first_exit is None && handshake is None && exit_after_blank == Some(AUTH_CANCELLED_EXIT_CODE)
            ==> r matches Err(Error::AuthenticationCancelled),
        first_exit is None && handshake is None && exit_after_blank != Some(AUTH_CANCELLED_EXIT_CODE)
            ==> (r matches Err(Error::SessionCreation { message }) && message@ == empty_handshake_message()),
        first_exit is None && handshake is Some ==> {
            &&& (r is Ok <==> is_hex_text(handshake->Some_0.secret@))
            &&& forall|b: Seq<u8>| #[trigger] hex_of(b) == handshake->Some_0.secret@ ==> (r is Ok && r->Ok_0@ == b)
            &&& (r is Err ==> r->Err_0 is SessionCreation)
        },
        r is Ok ==> first_exit is None && handshake is Some && is_hex_text(handshake->Some_0.secret@)
            && 2 * r->Ok_0@.len() == handshake->Some_0.secret@.len(),
{
    match first_exit {
        Some(code) => return Err(early_exit_error(code, stderr)),
        None => {},
    }
    match handshake {
        None => {
            match exit_after_blank {
                Some(code) => {
                    if code == AUTH_CANCELLED_EXIT_CODE {
                        return Err(Error::AuthenticationCancelled);
                    }
                },
                None => {},
            }
            Err(Error::SessionCreation { message: "Daemon sent empty handshake (process may have failed to start or authentication was cancelled)".to_string() })
        },
        Some(h) => handshake_secret(h),
    }
}

/// A request with id `id` for `cmd`, signed with `secret`.
pub open spec fn is_signed_request(q: DaemonRequest, secret: Seq<u8>, id: u64, cmd: DaemonCommand) -> bool {
    &&& q.id == id
    &&& q.cmd == cmd
    &&& q.hmac@ == signature_of(secret, id, command_json(cmd))
}

/// The error for a response that failed a security check.
pub open spec fn is_security_error<T>(resp: DaemonResponse, r: Result<T, Error>) -> bool {
    r matches Err(Error::SessionCommunication { message })
        && message@ == "Security verification failed: "@ + resp.error->Some_0@
}

/// `r` is what a program run returns for the channel result `raw`: a
/// channel error unchanged, a security rejection as its dedicated error,
/// else the response's exit code and output.
pub open spec fn is_run_result(raw: Result<DaemonResponse, Error>, r: Result<CommandOutput, Error>) -> bool {
    match raw {
        Err(e) => r == Err::<CommandOutput, Error>(e),
        Ok(resp) => if is_security_rejection(resp) {
            is_security_error(resp, r)
        } else {
            r matches Ok(o) && o.exit_code == resp.exit_code && o.stdout@ == resp.stdout@ && o.stderr@ == resp.stderr@
        },
    }
}

/// `r` is what a file operation returns for the channel result `raw`: a
/// channel error unchanged, a security rejection as its dedicated error,
/// success when the response reports it, else the response's error text
/// (or "Unknown error").
pub open spec fn is_file_result(raw: Result<DaemonResponse, Error>, r: Result<(), Error>) -> bool {
    match raw {
        Err(e) => r == Err::<(), Error>(e),
        Ok(resp) => if is_security_rejection(resp) {
            is_security_error(resp, r)
        } else if resp.success {
            r is Ok
        } else {
            r matches Err(Error::SessionCommunication { message })
                && message@ == (match resp.error { Some(e) => e@, None => "Unknown error"@ })
        },
    }
}

/// What a program run through the session returns, from what the channel
/// gave back: a channel error unchanged, a security rejection as its
/// dedicated error (see [`check_response`]), else the response's exit code
/// and output.
pub fn run_result(raw: Result<DaemonResponse, Error>) -> (r: Result<CommandOutput, Error>)
    ensures
        is_run_result(raw, r),
{
    match raw {
        Err(e) => Err(e),
        Ok(resp) => match check_response(resp) {
            Ok(resp) => Ok(CommandOutput { exit_code: resp.exit_code, stdout: resp.stdout, stderr: resp.stderr }),
            Err(e) => Err(e),
        },
    }
}

/// What a file operation through the session returns, from what the
/// channel gave back: a channel error unchanged, a security rejection as
/// its dedicated error, else [`file_op_result`] of the response.
pub fn file_result(raw: Result<DaemonResponse, Error>) -> (r: Result<(), Error>)
    ensures
        is_file_result(raw, r),
{
    match raw {
        Err(e) => Err(e),
        Ok(resp) => match check_response(resp) {
            Ok(resp) => file_op_result(resp),
            Err(e) => Err(e),
        },
    }
}

/// One live daemon process with its signing state.
///
/// Requests get strictly increasing ids starting at 1, each signed with the
/// secret received in the handshake; one request is outstanding at a time,
/// which `&mut self` enforces. The session keeps, as ghost state, the
/// requests it handed to the daemon and what came back for each.
pub struct PrivilegedSession<C: DaemonChild> {
    child: C,
    request_id: u64,
    secret: Vec<u8>,
    closed: bool,
    sent: Ghost<Seq<DaemonRequest>>,
    outcomes: Ghost<Seq<Result<DaemonResponse, Error>>>,
    waited: Ghost<bool>,
}

/// The session's state apart from its logs is unchanged, but for the id.
pub open spec fn same_frame<C: DaemonChild>(a: PrivilegedSession<C>, b: PrivilegedSession<C>) -> bool {
    &&& a.secret_bytes() == b.secret_bytes()
    &&& a.is_closed() == b.is_closed()
}

impl<C: DaemonChild> PrivilegedSession<C> {
    /// The id the next request will carry.
    pub closed spec fn pending_id(&self) -> u64 {
        self.request_id
    }

    /// The signing secret.
    pub closed spec fn secret_bytes(&self) -> Seq<u8> {
        self.secret@
    }

    /// Whether the shutdown request has been sent.
    pub closed spec fn is_closed(&self) -> bool {
        self.closed
    }

    /// The requests handed to the daemon, in order.
    pub closed spec fn sent(&self) -> Seq<DaemonRequest> {
        self.sent@
    }

    /// For each exchange, what came back: the send error, or the result of
    /// reading the response.
    pub closed spec fn outcomes(&self) -> Seq<Result<DaemonResponse, Error>> {
        self.outcomes@
    }

    /// Whether the session has waited for the daemon to exit.
    pub closed spec fn waited(&self) -> bool {
        self.waited@
    }

    /// Establishes a session over a freshly started daemon, deciding with
    /// [`session_outcome`] from its exit status, error text and handshake;
    /// errors of the process channel itself are passed on. On success the
    /// secret is the handshake's decoded hex text and the first request id
    /// is 1.
    pub fn new(child: C) -> (r: Result<Self, Error>)
        ensures
            r is Ok ==> {
                &&& r->Ok_0.pending_id() == 1
                &&& !r->Ok_0.is_closed()
                &&& !r->Ok_0.waited()
                &&& r->Ok_0.sent().len() == 0
                &&& r->Ok_0.outcomes().len() == 0
                &&& exists|h: Seq<char>| #![trigger is_hex_text(h)] is_hex_text(h)
                    && 2 * r->Ok_0.secret_bytes().len() == h.len()
                    && forall|b: Seq<u8>| #[trigger] hex_of(b) == h ==> r->Ok_0.secret_bytes() == b
            },
    {
        let mut child = child;
        let first_exit = match child.try_wait() {
            Err(e) => return Err(e),
            Ok(c) => c,
        };
        let stderr = match first_exit {
            Some(_) => child.read_stderr(),
            None => String::new(),
        };
        let mut handshake: Option<DaemonHandshake> = None;
        let mut exit_after_blank: Option<i32> = None;
        if first_exit.is_none() {
            match child.read_handshake() {
                Err(e) => return Err(e),
                Ok(h) => handshake = h,
            }
            if handshake.is_none() {
                match child.try_wait() {
                    Err(e) => return Err(e),
                    Ok(c) => exit_after_blank = c,
                }
            }
        }
        match session_outcome(first_exit, stderr.as_str(), &handshake, exit_after_blank) {
            Ok(secret) => {
                proof {
                    let h = handshake->Some_0.secret@;
                    assert(is_hex_text(h) && 2 * secret@.len() == h.len()
                        && forall|b: Seq<u8>| #[trigger] hex_of(b) == h ==> secret@ == b);
                }
                Ok(PrivilegedSession {
                    child,
                    request_id: 1,
                    secret,
                    closed: false,
                    sent: Ghost(Seq::empty()),
                    outcomes: Ghost(Seq::empty()),
                    waited: Ghost(false),
                })
            },
            Err(e) => Err(e),
        }
    }

    /// Takes the next request id; ids are never reused.
    pub fn next_id(&mut self) -> (r: u64)
        requires
            old(self).pending_id() < u64::MAX,
        ensures
            r == old(self).pending_id(),
            final(self).pending_id() == old(self).pending_id() + 1,
            same_frame(*final(self), *old(self)),
            final(self).sent() == old(self).sent(),
            final(self).outcomes() == old(self).outcomes(),
            final(self).waited() == old(self).waited(),
    {
        let id = self.request_id;
        self.request_id = self.request_id + 1;
        id
    }

    /// Builds the request with id `id` for `cmd`, signed with the session's
    /// secret over the id and the command's JSON text.
    pub fn create_signed_request(&self, id: u64, cmd: DaemonCommand) -> (r: DaemonRequest)
        ensures
            is_signed_request(r, self.secret_bytes(), id, cmd),
    {
        let payload = cmd.to_json();
        let hmac = compute_hmac(self.secret.as_slice(), id, payload.as_str());
        DaemonRequest { id, hmac, cmd }
    }

    /// Signs `cmd` with a fresh id, hands it to the daemon and, if that
    /// worked, reads the response; returns what came back. With the ids
    /// used up nothing is sent.
    fn exchange(&mut self, cmd: DaemonCommand) -> (r: Result<DaemonResponse, Error>)
        ensures
            same_frame(*final(self), *old(self)),
            final(self).waited() == old(self).waited(),
            old(self).pending_id() == u64::MAX ==> {
                &&& r is Err
                &&& final(self).pending_id() == old(self).pending_id()
                &&& final(self).sent() == old(self).sent()
                &&& final(self).outcomes() == old(self).outcomes()
            },
            old(self).pending_id() < u64::MAX ==> {
                &&& final(self).pending_id() == old(self).pending_id() + 1
                &&& final(self).sent().len() == old(self).sent().len() + 1
                &&& final(self).sent().drop_last() == old(self).sent()
                &&& is_signed_request(final(self).sent().last(), old(self).secret_bytes(), old(self).pending_id(), cmd)
                &&& final(self).outcomes() == old(self).outcomes().push(r)
            },
    {
        if self.request_id == u64::MAX {
            return Err(exhausted());
        }
        let id = self.next_id();
        let request = self.create_signed_request(id, cmd);
        let sent_ok = self.child.send_request(&request);
        let ghost q = request;
        self.sent = Ghost(self.sent@.push(q));
        let raw = match sent_ok {
            Ok(()) => self.child.read_response(),
            Err(e) => Err(e),
        };
        let ghost g = raw;
        self.outcomes = Ghost(self.outcomes@.push(g));
        raw
    }

    /// Runs a program in the daemon and returns what it produced: one Exec
    /// request with the next id, and [`run_result`] of what came back.
    pub fn run_command(&mut self, program: &str, args: &[&str]) -> (r: Result<CommandOutput, Error>)
        ensures
            same_frame(*final(self), *old(self)),
            final(self).waited() == old(self).waited(),
            old(self).pending_id() == u64::MAX ==> r is Err && final(self).pending_id() == old(self).pending_id()
                && final(self).sent() == old(self).sent(),
            old(self).pending_id() < u64::MAX ==> {
                &&& final(self).pending_id() == old(self).pending_id() + 1
                &&& final(self).sent().drop_last() == old(self).sent()
                &&& final(self).sent().len() == old(self).sent().len() + 1
                &&& final(self).sent().last().id == old(self).pending_id()
                &&& final(self).sent().last().cmd matches DaemonCommand::Exec { program: p, args: a }
                &&& p@ == program@ && views(a@) == str_texts(args@)
                &&& is_signed_request(final(self).sent().last(), old(self).secret_bytes(), old(self).pending_id(), final(self).sent().last().cmd)
                &&& final(self).outcomes().drop_last() == old(self).outcomes()
                &&& is_run_result(final(self).outcomes().last(), r)
            },
    {
        let mut list: Vec<String> = Vec::new();
        let mut i: usize = 0;
        while i < args.len()
            invariant
                i <= args@.len(),
                list@.len() == i,
                forall|k: int| 0 <= k < i ==> #[trigger] list@[k]@ == args@[k]@,
            decreases args@.len() - i,
        {
            list.push(args[i].to_string());
            i = i + 1;
        }
        assert(views(list@) =~= str_texts(args@));
        let cmd = DaemonCommand::Exec { program: program.to_string(), args: list };
        let raw = self.exchange(cmd);
        run_result(raw)
    }

    /// Writes `content` to the file at `path` through the daemon: one
    /// WriteFile request with the next id, and [`file_result`] of what came
    /// back.
    pub fn write_file(&mut self, path: &str, content: &str) -> (r: Result<(), Error>)
        ensures
            same_frame(*final(self), *old(self)),
            final(self).waited() == old(self).waited(),
            old(self).pending_id() == u64::MAX ==> r is Err && final(self).pending_id() == old(self).pending_id()
                && final(self).sent() == old(self).sent(),
            old(self).pending_id() < u64::MAX ==> {
                &&& final(self).pending_id() == old(self).pending_id() + 1
                &&& final(self).sent().drop_last() == old(self).sent()
                &&& final(self).sent().len() == old(self).sent().len() + 1
                &&& final(self).sent().last().cmd matches DaemonCommand::WriteFile { path: p, content: c }
                &&& p@ == path@ && c@ == content@
                &&& is_signed_request(final(self).sent().last(), old(self).secret_bytes(), old(self).pending_id(), final(self).sent().last().cmd)
                &&& final(self).outcomes().drop_last() == old(self).outcomes()
                &&& is_file_result(final(self).outcomes().last(), r)
            },
    {
        let cmd = DaemonCommand::WriteFile { path: path.to_string(), content: content.to_string() };
        let raw = self.exchange(cmd);
        file_result(raw)
    }

    /// Copies the file at `src` to `dst` through the daemon: one CopyFile
    /// request with the next id, and [`file_result`] of what came back.
    pub fn copy_file(&mut self, src: &str, dst: &str) -> (r: Result<(), Error>)
        ensures
            same_frame(*final(self), *old(self)),
            final(self).waited() == old(self).waited(),
            old(self).pending_id() == u64::MAX ==> r is Err && final(self).pending_id() == old(self).pending_id()
                && final(self).sent() == old(self).sent(),
            old(self).pending_id() < u64::MAX ==> {
                &&& final(self).pending_id() == old(self).pending_id() + 1
                &&& final(self).sent().drop_last() == old(self).sent()
                &&& final(self).sent().len() == old(self).sent().len() + 1
                &&& final(self).sent().last().cmd matches DaemonCommand::CopyFile { src: a, dst: b }
                &&& a@ == src@ && b@ == dst@
                &&& is_signed_request(final(self).sent().last(), old(self).secret_bytes(), old(self).pending_id(), final(self).sent().last().cmd)
                &&& final(self).outcomes().drop_last() == old(self).outcomes()
                &&& is_file_result(final(self).outcomes().last(), r)
            },
    {
        let cmd = DaemonCommand::CopyFile { src: src.to_string(), dst: dst.to_string() };
        let raw = self.exchange(cmd);
        file_result(raw)
    }

    /// Creates the directory at `path` and its missing ancestors through the
    /// daemon: one MkdirP request with the next id, and [`file_result`] of
    /// what came back.
    pub fn mkdir_p(&mut self, path: &str) -> (r: Result<(), Error>)
        ensures
            same_frame(*final(self), *old(self)),
            final(self).waited() == old(self).waited(),
            old(self).pending_id() == u64::MAX ==> r is Err && final(self).pending_id() == old(self).pending_id()
                && final(self).sent() == old(self).sent(),
            old(self).pending_id() < u64::MAX ==> {
                &&& final(self).pending_id() == old(self).pending_id() + 1
                &&& final(self).sent().drop_last() == old(self).sent()
                &&& final(self).sent().len() == old(self).sent().len() + 1
                &&& final(self).sent().last().cmd matches DaemonCommand::MkdirP { path: p }
                &&& p@ == path@
                &&& is_signed_request(final(self).sent().last(), old(self).secret_bytes(), old(self).pending_id(), final(self).sent().last().cmd)
                &&& final(self).outcomes().drop_last() == old(self).outcomes()
                &&& is_file_result(final(self).outcomes().last(), r)
            },
    {
        let cmd = DaemonCommand::MkdirP { path: path.to_string() };
        let raw = self.exchange(cmd);
        file_result(raw)
    }

    /// Asks the daemon to stop and waits for it to exit, once: the first
    /// call hands one Shutdown request to the daemon (if ids remain) and
    /// then waits for the process whether or not the request went through;
    /// a failure to send is reported after the wait. Later calls do nothing.
    pub fn shutdown(&mut self) -> (r: Result<(), Error>)
        ensures
            final(self).is_closed(),
            final(self).secret_bytes() == old(self).secret_bytes(),
            final(self).outcomes() == old(self).outcomes(),
            old(self).is_closed() ==> r is Ok && final(self).pending_id() == old(self).pending_id()
                && final(self).sent() == old(self).sent() && final(self).waited() == old(self).waited(),
            !old(self).is_closed() ==> final(self).waited(),
            !old(self).is_closed() && old(self).pending_id() < u64::MAX ==> {
                &&& final(self).pending_id() == old(self).pending_id() + 1
                &&& final(self).sent() == old(self).sent().push(final(self).sent().last())
                &&& is_signed_request(final(self).sent().last(), old(self).secret_bytes(), old(self).pending_id(), DaemonCommand::Shutdown)
            },
            !old(self).is_closed() && old(self).pending_id() == u64::MAX ==> final(self).sent() == old(self).sent(),
    {
        if self.closed {
            return Ok(());
        }
        self.closed = true;
        let sent_ok = if self.request_id == u64::MAX {
            Err(exhausted())
        } else {
            let id = self.next_id();
            let request = self.create_signed_request(id, DaemonCommand::Shutdown);
            let res = self.child.send_request(&request);
            let ghost q = request;
            self.sent = Ghost(self.sent@.push(q));
            res
        };
        let _ = self.child.wait();
        self.waited = Ghost(true);
        sent_ok
    }
}

// ---------------------------------------------------------------------------
// Execution context
// ---------------------------------------------------------------------------

/// How privileged work is carried out.
#[derive(Debug, Clone, Copy, PartialEq, Eq, Structural)]
pub enum PrivilegeEscalation {
    /// Directly, without escalation.
    Direct,
    /// Each operation once through `pkexec`.
    Pkexec,
    /// Each operation once through `sudo`.
    Sudo,
    /// Through a daemon session started with `pkexec`.
    PkexecSession,
    /// Through a daemon session started with `sudo`.
    SudoSession,
}

impl Default for PrivilegeEscalation {
    fn default() -> (r: PrivilegeEscalation)
        ensures
            r == PrivilegeEscalation::Direct,
    {
        PrivilegeEscalation::Direct
    }
}

/// The session strategies.
pub open spec fn is_session_mode(e: PrivilegeEscalation) -> bool {
    e == PrivilegeEscalation::PkexecSession || e == PrivilegeEscalation::SudoSession
}

/// The escalation tool in front of one-shot operations, if any.
pub open spec fn wrapper_of(e: PrivilegeEscalation) -> Option<Seq<char>> {
    match e {
        PrivilegeEscalation::Pkexec => Some("pkexec"@),
        PrivilegeEscalation::Sudo => Some("sudo"@),
        _ => None,
    }
}

/// Work left to the caller after a privileged verb.
#[derive(Debug, Clone, PartialEq, Eq)]
pub enum Pending {
    /// The verb was carried out.
    Done,
    /// Run this program with these arguments locally; its output then goes
    /// through [`check_output`].
    Run { program: String, args: Vec<String> },
    /// Write `content` to `path` locally: directly when `wrapper` is `None`,
    /// else through `<wrapper> tee <path>` with the content on its input.
    Write { wrapper: Option<String>, path: String, content: String },
}

/// Outcome of running a program with privileges.
#[derive(Debug, Clone, PartialEq, Eq)]
pub enum RunOutcome {
    /// The program ran through the session.
    Completed(CommandOutput),
    /// Run this program with these arguments locally.
    Run { program: String, args: Vec<String> },
}

/// `program` followed by `args`, prefixed by the wrapper when there is one.
pub open spec fn local_command_line(wrapper: Option<Seq<char>>, program: Seq<char>, args: Seq<Seq<char>>) -> Seq<Seq<char>> {
    match wrapper {
        Some(w) => seq![w, program] + args,
        None => seq![program] + args,
    }
}

/// The views of a list of text slices.
pub open spec fn str_texts(v: Seq<&str>) -> Seq<Seq<char>> {
    v.map_values(|s: &str| s@)
}

fn wrapper_name(e: PrivilegeEscalation) -> (r: Option<String>)
    ensures
        r is Some == (wrapper_of(e) is Some),
        r is Some ==> r->Some_0@ == wrapper_of(e)->Some_0,
{
    match e {
        PrivilegeEscalation::Pkexec => Some("pkexec".to_string()),
        PrivilegeEscalation::Sudo => Some("sudo".to_string()),
        _ => None,
    }
}

/// Splits a local command line into program and arguments.
fn local_run(wrapper: Option<String>, program: &str, args: &[&str]) -> (r: (String, Vec<String>))
    ensures
        views(seq![r.0] + r.1@) == local_command_line(
            match wrapper { Some(w) => Some(w@), None => None },
            program@,
            str_texts(args@),
        ),
{
    let ghost wv = match &wrapper { Some(w) => Some(w@), None => None };
    let mut list: Vec<String> = Vec::new();
    let head: String;
    match wrapper {
        Some(w) => {
            head = w;
            list.push(program.to_string());
        },
        None => {
            head = program.to_string();
        },
    }
    let ghost start = list@;
    let mut i: usize = 0;
    while i < args.len()
        invariant
            i <= args@.len(),
            list@ == start + list@.subrange(start.len() as int, list@.len() as int),
            list@.len() == start.len() + i,
            forall|k: int| 0 <= k < i ==> #[trigger] list@[start.len() + k]@ == args@[k]@,
        decreases args@.len() - i,
    {
        list.push(args[i].to_string());
        i = i + 1;
        assert(list@ =~= start + list@.subrange(start.len() as int, list@.len() as int));
    }
    let r = (head, list);
    proof {
        let lhs = views(seq![r.0] + r.1@);
        let rhs = local_command_line(wv, program@, str_texts(args@));
        assert(lhs.len() == rhs.len());
        assert forall|k: int| 0 <= k < lhs.len() implies lhs[k] == rhs[k] by {
            if k >= 1 + start.len() {
                assert(list@[start.len() + (k - 1 - start.len())]@ == args@[k - 1 - start.len()]@);
            }
        }
        assert(lhs =~= rhs);
    }
    r
}

/// Decides how privileged verbs are carried out, and owns the session of
/// the session strategies, created on first use from the spawner.
///
/// A session-mode context with neither a session nor a spawner fails every
/// privileged verb with a configuration error; it never falls back to
/// running without privileges.
pub struct ExecutionContext<S: DaemonSpawner> {
    escalation: PrivilegeEscalation,
    session: Option<PrivilegedSession<S::Child>>,
    spawner: Option<S>,
    spawns: Ghost<nat>,
}

impl Default for ExecutionContext<NoSpawner> {
    fn default() -> (r: ExecutionContext<NoSpawner>)
        ensures
            r.escalation() == PrivilegeEscalation::Direct,
            !r.has_session(),
            !r.has_spawner(),
    {
        ExecutionContext { escalation: PrivilegeEscalation::Direct, session: None, spawner: None, spawns: Ghost(0) }
    }
}

impl ExecutionContext<NoSpawner> {
    /// A context without escalation.
    pub fn new() -> (r: ExecutionContext<NoSpawner>)
        ensures
            r.escalation() == PrivilegeEscalation::Direct,
            !r.has_session(),
            !r.has_spawner(),
    {
        ExecutionContext { escalation: PrivilegeEscalation::Direct, session: None, spawner: None, spawns: Ghost(0) }
    }

    /// A context that runs each privileged operation through `pkexec`.
    pub fn with_pkexec() -> (r: ExecutionContext<NoSpawner>)
        ensures
            r.escalation() == PrivilegeEscalation::Pkexec,
            !r.has_session(),
            !r.has_spawner(),
    {
        ExecutionContext { escalation: PrivilegeEscalation::Pkexec, session: None, spawner: None, spawns: Ghost(0) }
    }

    /// A context that runs each privileged operation through `sudo`.
    pub fn with_sudo() -> (r: ExecutionContext<NoSpawner>)
        ensures
            r.escalation() == PrivilegeEscalation::Sudo,
            !r.has_session(),
            !r.has_spawner(),
    {
        ExecutionContext { escalation: PrivilegeEscalation::Sudo, session: None, spawner: None, spawns: Ghost(0) }
    }

    /// A `pkexec` session context without a spawner: a session must be set
    /// before privileged verbs succeed.
    pub fn with_pkexec_session() -> (r: ExecutionContext<NoSpawner>)
        ensures
            r.escalation() == PrivilegeEscalation::PkexecSession,
            !r.has_session(),
            !r.has_spawner(),
    {
        ExecutionContext { escalation: PrivilegeEscalation::PkexecSession, session: None, spawner: None, spawns: Ghost(0) }
    }

    /// A `sudo` session context without a spawner: a session must be set
    /// before privileged verbs succeed.
    pub fn with_sudo_session() -> (r: ExecutionContext<NoSpawner>)
        ensures
            r.escalation() == PrivilegeEscalation::SudoSession,
            !r.has_session(),
            !r.has_spawner(),
    {
        ExecutionContext { escalation: PrivilegeEscalation::SudoSession, session: None, spawner: None, spawns: Ghost(0) }
    }

    /// A context with the given escalation and no spawner.
    pub fn with_escalation(escalation: PrivilegeEscalation) -> (r: ExecutionContext<NoSpawner>)
        ensures
            r.escalation() == escalation,
            !r.has_session(),
            !r.has_spawner(),
    {
        ExecutionContext { escalation, session: None, spawner: None, spawns: Ghost(0) }
    }
}

impl<S: DaemonSpawner> ExecutionContext<S> {
    /// The escalation strategy.
    pub closed spec fn spec_escalation(&self) -> PrivilegeEscalation {
        self.escalation
    }

    /// Whether a session is established.
    pub closed spec fn spec_has_session(&self) -> bool {
        self.session is Some
    }

    /// Whether a spawner is configured.
    pub closed spec fn spec_has_spawner(&self) -> bool {
        self.spawner is Some
    }

    /// How many times the spawner has been asked for a daemon.
    pub closed spec fn spawn_count(&self) -> nat {
        self.spawns@
    }

    /// A context that creates its session with `spawner` on first use.
    pub fn with_spawner(escalation: PrivilegeEscalation, spawner: S) -> (r: ExecutionContext<S>)
        ensures
            r.escalation() == escalation,
            !r.has_session(),
            r.has_spawner(),
    {
        ExecutionContext { escalation, session: None, spawner: Some(spawner), spawns: Ghost(0) }
    }

    /// The escalation strategy.
    #[verifier::when_used_as_spec(spec_escalation)]
    pub fn escalation(&self) -> (r: PrivilegeEscalation)
        ensures
            r == self.spec_escalation(),
    {
        self.escalation
    }

    /// Whether a session is established.
    #[verifier::when_used_as_spec(spec_has_session)]
    pub fn has_session(&self) -> (r: bool)
        ensures
            r == self.spec_has_session(),
    {
        self.session.is_some()
    }

    /// Whether a spawner is configured.
    #[verifier::when_used_as_spec(spec_has_spawner)]
    pub fn has_spawner(&self) -> (r: bool)
        ensures
            r == self.spec_has_spawner(),
    {
        self.spawner.is_some()
    }

    /// Configures the spawner for lazy session creation.
    pub fn set_spawner(&mut self, spawner: S)
        ensures
            final(self).has_spawner(),
            final(self).escalation() == old(self).escalation(),
            final(self).has_session() == old(self).has_session(),
    {
        self.spawner = Some(spawner);
    }

    /// Sets an already established session; a session held before is shut
    /// down first (its failure is ignored: the daemon may be gone).
    pub fn set_session(&mut self, session: PrivilegedSession<S::Child>)
        ensures
            final(self).has_session(),
            final(self).escalation() == old(self).escalation(),
            final(self).has_spawner() == old(self).has_spawner(),
            final(self).spawn_count() == old(self).spawn_count(),
    {
        let _ = self.close_session();
        self.session = Some(session);
    }

    /// Makes sure a session exists when the strategy needs one, creating it
    /// with the spawner on first use.
    pub fn ensure_session(&mut self) -> (r: Result<(), Error>)
        ensures
            final(self).escalation() == old(self).escalation(),
            final(self).has_spawner() == old(self).has_spawner(),
            !old(self).has_spawner() ==> final(self).has_session() == old(self).has_session(),
            old(self).has_session() ==> final(self).has_session() && final(self).spawn_count() == old(self).spawn_count(),
            final(self).spawn_count() <= old(self).spawn_count() + 1,
            !old(self).has_spawner() || !is_session_mode(old(self).escalation()) ==> final(self).spawn_count() == old(self).spawn_count(),
            is_session_mode(old(self).escalation()) && !final(self).has_session() ==> r is Err,
            old(self).has_session() ==> r is Ok && final(self).has_session(),
            !is_session_mode(old(self).escalation()) ==> r is Ok && final(self).has_session() == old(self).has_session(),
            is_session_mode(old(self).escalation()) && !old(self).has_session() && !old(self).has_spawner()
                ==> (r matches Err(Error::SessionCreation { message }) && message@ == no_session_message()
                    && !final(self).has_session()),
            is_session_mode(old(self).escalation()) ==> (r is Ok <==> final(self).has_session()),
    {
        if self.session.is_some() {
            return Ok(());
        }
        if self.escalation == PrivilegeEscalation::PkexecSession || self.escalation == PrivilegeEscalation::SudoSession {
            match &self.spawner {
                Some(spawner) => {
                    self.spawns = Ghost(self.spawns@ + 1);
                    match spawner.spawn() {
                        Ok(child) => {
                            match PrivilegedSession::new(child) {
                                Ok(session) => {
                                    self.session = Some(session);
                                    Ok(())
                                },
                                Err(e) => Err(e),
                            }
                        },
                        Err(e) => Err(e),
                    }
                },
                None => Err(Error::SessionCreation {
                    message: "Privileged session not available. Either set a session using set_session() or provide a spawner using set_spawner().".to_string(),
                }),
            }
        } else {
            Ok(())
        }
    }

    /// Runs a program with privileges. Without a session strategy the
    /// program, prefixed by the escalation tool if any, is handed back to be
    /// run locally; with one, it runs through the session.
    pub fn run_privileged(&mut self, cmd: &str, args: &[&str]) -> (r: Result<RunOutcome, Error>)
        ensures
            final(self).escalation() == old(self).escalation(),
            final(self).has_spawner() == old(self).has_spawner(),
            !old(self).has_spawner() ==> final(self).has_session() == old(self).has_session(),
            old(self).has_session() ==> final(self).has_session() && final(self).spawn_count() == old(self).spawn_count(),
            final(self).spawn_count() <= old(self).spawn_count() + 1,
            !old(self).has_spawner() || !is_session_mode(old(self).escalation()) ==> final(self).spawn_count() == old(self).spawn_count(),
            is_session_mode(old(self).escalation()) && !final(self).has_session() ==> r is Err,
            !is_session_mode(old(self).escalation()) ==> {
                &&& final(self).has_session() == old(self).has_session()
                &&& r matches Ok(RunOutcome::Run { program, args: a })
                &&& views(seq![program] + a@) == local_command_line(wrapper_of(old(self).escalation()), cmd@, str_texts(args@))
            },
            is_session_mode(old(self).escalation()) && !old(self).has_session() && !old(self).has_spawner()
                ==> is_no_session_error(r),
            is_session_mode(old(self).escalation()) && r is Ok ==> r->Ok_0 is Completed && final(self).has_session(),
    {
        if self.escalation == PrivilegeEscalation::PkexecSession || self.escalation == PrivilegeEscalation::SudoSession {
            match self.ensure_session() {
                Ok(()) => {},
                Err(e) => return Err(e),
            }
            match &mut self.session {
                Some(session) => match session.run_command(cmd, args) {
                    Ok(out) => Ok(RunOutcome::Completed(out)),
                    Err(e) => Err(e),
                },
                None => Err(Error::SessionCommunication { message: "Session not available".to_string() }),
            }
        } else {
            let (program, a) = local_run(wrapper_name(self.escalation), cmd, args);
            Ok(RunOutcome::Run { program, args: a })
        }
    }

    /// Runs a program with privileges and requires it to succeed; see
    /// [`check_output`] for how a failure is classified.
    pub fn run_privileged_checked(&mut self, cmd: &str, args: &[&str]) -> (r: Result<Pending, Error>)
        ensures
            final(self).escalation() == old(self).escalation(),
            final(self).has_spawner() == old(self).has_spawner(),
            !old(self).has_spawner() ==> final(self).has_session() == old(self).has_session(),
            old(self).has_session() ==> final(self).has_session() && final(self).spawn_count() == old(self).spawn_count(),
            final(self).spawn_count() <= old(self).spawn_count() + 1,
            !old(self).has_spawner() || !is_session_mode(old(self).escalation()) ==> final(self).spawn_count() == old(self).spawn_count(),
            is_session_mode(old(self).escalation()) && !final(self).has_session() ==> r is Err,
            !is_session_mode(old(self).escalation()) ==> {
                &&& final(self).has_session() == old(self).has_session()
                &&& r matches Ok(Pending::Run { program, args: a })
                &&& views(seq![program] + a@) == local_command_line(wrapper_of(old(self).escalation()), cmd@, str_texts(args@))
            },
            is_session_mode(old(self).escalation()) && !old(self).has_session() && !old(self).has_spawner()
                ==> is_no_session_error(r),
            is_session_mode(old(self).escalation()) && r is Ok ==> r->Ok_0 is Done && final(self).has_session(),
    {
        match self.run_privileged(cmd, args) {
            Ok(RunOutcome::Completed(out)) => {
                match check_output(cmd, &out) {
                    Ok(()) => Ok(Pending::Done),
                    Err(e) => Err(e),
                }
            },
            Ok(RunOutcome::Run { program, args }) => Ok(Pending::Run { program, args }),
            Err(e) => Err(e),
        }
    }

    /// Writes `content` to the file at `path` with privileges.
    pub fn write_file_privileged(&mut self, path: &str, content: &str) -> (r: Result<Pending, Error>)
        ensures
            final(self).escalation() == old(self).escalation(),
            final(self).has_spawner() == old(self).has_spawner(),
            !old(self).has_spawner() ==> final(self).has_session() == old(self).has_session(),
            old(self).has_session() ==> final(self).has_session() && final(self).spawn_count() == old(self).spawn_count(),
            final(self).spawn_count() <= old(self).spawn_count() + 1,
            !old(self).has_spawner() || !is_session_mode(old(self).escalation()) ==> final(self).spawn_count() == old(self).spawn_count(),
            is_session_mode(old(self).escalation()) && !final(self).has_session() ==> r is Err,
            !is_session_mode(old(self).escalation()) ==> {
                &&& final(self).has_session() == old(self).has_session()
                &&& r matches Ok(Pending::Write { wrapper, path: p, content: c })
                &&& p@ == path@ && c@ == content@
                &&& (match wrapper { Some(w) => Some(w@), None => None }) == wrapper_of(old(self).escalation())
            },
            is_session_mode(old(self).escalation()) && !old(self).has_session() && !old(self).has_spawner()
                ==> is_no_session_error(r),
            is_session_mode(old(self).escalation()) && r is Ok ==> r->Ok_0 is Done && final(self).has_session(),
    {
        if self.escalation == PrivilegeEscalation::PkexecSession || self.escalation == PrivilegeEscalation::SudoSession {
            match self.ensure_session() {
                Ok(()) => {},
                Err(e) => return Err(e),
            }
            match &mut self.session {
                Some(session) => match session.write_file(path, content) {
                    Ok(()) => Ok(Pending::Done),
                    Err(e) => Err(e),
                },
                None => Err(Error::SessionCommunication { message: "Session not available".to_string() }),
            }
        } else {
            Ok(Pending::Write {
                wrapper: wrapper_name(self.escalation),
                path: path.to_string(),
                content: content.to_string(),
            })
        }
    }

    /// Copies the file at `src` to `dst` with privileges; without a session
    /// strategy this is `cp <src> <dst>`.
    pub fn copy_file_privileged(&mut self, src: &str, dst: &str) -> (r: Result<Pending, Error>)
        ensures
            final(self).escalation() == old(self).escalation(),
            final(self).has_spawner() == old(self).has_spawner(),
            !old(self).has_spawner() ==> final(self).has_session() == old(self).has_session(),
            old(self).has_session() ==> final(self).has_session() && final(self).spawn_count() == old(self).spawn_count(),
            final(self).spawn_count() <= old(self).spawn_count() + 1,
            !old(self).has_spawner() || !is_session_mode(old(self).escalation()) ==> final(self).spawn_count() == old(self).spawn_count(),
            is_session_mode(old(self).escalation()) && !final(self).has_session() ==> r is Err,
            !is_session_mode(old(self).escalation()) ==> {
                &&& final(self).has_session() == old(self).has_session()
                &&& r matches Ok(Pending::Run { program, args: a })
                &&& views(seq![program] + a@) == local_command_line(wrapper_of(old(self).escalation()), "cp"@, seq![src@, dst@])
            },
            is_session_mode(old(self).escalation()) && !old(self).has_session() && !old(self).has_spawner()
                ==> is_no_session_error(r),
            is_session_mode(old(self).escalation()) && r is Ok ==> r->Ok_0 is Done && final(self).has_session(),
    {
        if self.escalation == PrivilegeEscalation::PkexecSession || self.escalation == PrivilegeEscalation::SudoSession {
            match self.ensure_session() {
                Ok(()) => {},
                Err(e) => return Err(e),
            }
            match &mut self.session {
                Some(session) => match session.copy_file(src, dst) {
                    Ok(()) => Ok(Pending::Done),
                    Err(e) => Err(e),
                },
                None => Err(Error::SessionCommunication { message: "Session not available".to_string() }),
            }
        } else {
            let args: [&str; 2] = [src, dst];
            proof {
                assert(str_texts(args@) =~= seq![src@, dst@]);
            }
            self.run_privileged_checked("cp", &args)
        }
    }

    /// Creates the directory at `path` and its missing ancestors with
    /// privileges; without a session strategy this is `mkdir -p <path>`.
    pub fn mkdir_privileged(&mut self, path: &str) -> (r: Result<Pending, Error>)
        ensures
            final(self).escalation() == old(self).escalation(),
            final(self).has_spawner() == old(self).has_spawner(),
            !old(self).has_spawner() ==> final(self).has_session() == old(self).has_session(),
            old(self).has_session() ==> final(self).has_session() && final(self).spawn_count() == old(self).spawn_count(),
            final(self).spawn_count() <= old(self).spawn_count() + 1,
            !old(self).has_spawner() || !is_session_mode(old(self).escalation()) ==> final(self).spawn_count() == old(self).spawn_count(),
            is_session_mode(old(self).escalation()) && !final(self).has_session() ==> r is Err,
            !is_session_mode(old(self).escalation()) ==> {
                &&& final(self).has_session() == old(self).has_session()
                &&& r matches Ok(Pending::Run { program, args: a })
                &&& views(seq![program] + a@) == local_command_line(wrapper_of(old(self).escalation()), "mkdir"@, seq!["-p"@, path@])
            },
            is_session_mode(old(self).escalation()) && !old(self).has_session() && !old(self).has_spawner()
                ==> is_no_session_error(r),
            is_session_mode(old(self).escalation()) && r is Ok ==> r->Ok_0 is Done && final(self).has_session(),
    {
        if self.escalation == PrivilegeEscalation::PkexecSession || self.escalation == PrivilegeEscalation::SudoSession {
            match self.ensure_session() {
                Ok(()) => {},
                Err(e) => return Err(e),
            }
            match &mut self.session {
                Some(session) => match session.mkdir_p(path) {
                    Ok(()) => Ok(Pending::Done),
                    Err(e) => Err(e),
                },
                None => Err(Error::SessionCommunication { message: "Session not available".to_string() }),
            }
        } else {
            let args: [&str; 2] = ["-p", path];
            proof {
                assert(str_texts(args@) =~= seq!["-p"@, path@]);
            }
            self.run_privileged_checked("mkdir", &args)
        }
    }

    /// Shuts the session down, if there is one, and drops it.
    pub fn close_session(&mut self) -> (r: Result<(), Error>)
        ensures
            !final(self).has_session(),
            final(self).spawn_count() == old(self).spawn_count(),
            final(self).escalation() == old(self).escalation(),
            final(self).has_spawner() == old(self).has_spawner(),
    {
        let r = match &mut self.session {
            Some(s) => s.shutdown(),
            None => Ok(()),
        };
        self.session = None;
        r
    }
}

} // verus!
