//! Request admission for the elevated daemon.
//!
//! The daemon keeps the secret it drew at startup and the id of the last
//! request it accepted. A request is admitted only if its id is greater than
//! that id (anti-replay, checked first) and its signature is valid; only an
//! admitted request moves the last accepted id.

use vstd::prelude::*;
use crate::protocol::{DaemonCommand, DaemonRequest, DaemonResponse, command_json, signature_valid, verify_hmac};
use crate::text::{decimal, push_decimal, push_text};

verus! {

/// The daemon's state while serving.
pub struct DaemonState {
    /// The signing secret shared with the client.
    pub secret: Vec<u8>,
    /// Id of the last request that passed both checks; 0 before any.
    pub last_accepted_id: u64,
}

/// What the daemon does with one request.
#[derive(Debug)]
pub enum DaemonStep {
    /// Answer with this response and go on serving.
    Respond(DaemonResponse),
    /// Carry out this command, answer with its outcome and go on serving.
    Perform(DaemonCommand),
    /// Stop serving, without a response.
    Stop,
}

/// Message of the response to a replayed request.
pub open spec fn replay_message(id: u64, last: u64) -> Seq<char> {
    "Replay attack detected: ID "@ + decimal(id as nat) + " <= last ID "@ + decimal(last as nat)
}

/// Message of the response to a request with a bad signature.
pub open spec fn auth_failure_message() -> Seq<char> {
    "HMAC authentication failed"@
}

/// A failed response with the given id and message.
pub open spec fn is_error_response(r: DaemonResponse, id: u64, message: Seq<char>) -> bool {
    &&& r.id == id
    &&& !r.success
    &&& r.exit_code == -1
    &&& r.stdout@.len() == 0
    &&& r.stderr@.len() == 0
    &&& r.error is Some
    &&& r.error->Some_0@ == message
}

/// Whether a daemon with this secret and last accepted id admits a request.
pub open spec fn admits_with(secret: Seq<u8>, last: u64, request: DaemonRequest) -> bool {
    &&& request.id > last
    &&& signature_valid(secret, request.id, command_json(request.cmd), request.hmac@)
}

/// A response reporting failure with a message.
pub fn error_response(id: u64, message: String) -> (r: DaemonResponse)
    ensures
        is_error_response(r, id, message@),
{
    DaemonResponse {
        id,
        success: false,
        exit_code: -1,
        stdout: String::new(),
        stderr: String::new(),
        error: Some(message),
    }
}

/// A response reporting success of a file operation.
pub fn success_response(id: u64) -> (r: DaemonResponse)
    ensures
        r.id == id,
        r.success,
        r.exit_code == 0,
        r.stdout@.len() == 0,
        r.stderr@.len() == 0,
        r.error is None,
{
    DaemonResponse {
        id,
        success: true,
        exit_code: 0,
        stdout: String::new(),
        stderr: String::new(),
        error: None,
    }
}

/// The response for a program that ran: `exit_code` is `None` when the
/// program was ended by a signal, reported as -1; success means exit code 0.
pub fn exec_response(id: u64, exit_code: Option<i32>, stdout: String, stderr: String) -> (r: DaemonResponse)
    ensures
        r.id == id,
        r.exit_code == (match exit_code { Some(c) => c, None => -1i32 }),
        r.success == (r.exit_code == 0),
        r.stdout@ == stdout@,
        r.stderr@ == stderr@,
        r.error is None,
{
    let code: i32 = match exit_code {
        Some(c) => c,
        None => -1,
    };
    DaemonResponse { id, success: code == 0, exit_code: code, stdout, stderr, error: None }
}

/// The response for an operation that the operating system refused:
/// `"Failed to <action>: <detail>"`.
pub fn operation_failed(id: u64, action: &str, detail: &str) -> (r: DaemonResponse)
    ensures
        is_error_response(r, id, "Failed to "@ + action@ + ": "@ + detail@),
{
    let mut m = String::new();
    push_text(&mut m, "Failed to ");
    push_text(&mut m, action);
    push_text(&mut m, ": ");
    push_text(&mut m, detail);
    error_response(id, m)
}

impl DaemonState {
    /// A fresh daemon state: no request accepted yet.
    pub fn new(secret: Vec<u8>) -> (r: DaemonState)
        ensures
            r.secret@ == secret@,
            r.last_accepted_id == 0,
    {
        DaemonState { secret, last_accepted_id: 0 }
    }

    /// Whether `request` would pass both checks in this state.
    pub open spec fn admits(&self, request: DaemonRequest) -> bool {
        admits_with(self.secret@, self.last_accepted_id, request)
    }

    /// Decides what to do with one request, updating the last accepted id
    /// when the request is admitted.
    pub fn step(&mut self, request: DaemonRequest) -> (r: DaemonStep)
        ensures
            final(self).secret@ == old(self).secret@,
            request.id <= old(self).last_accepted_id ==> {
                &&& final(self).last_accepted_id == old(self).last_accepted_id
                &&& r matches DaemonStep::Respond(resp)
                    && is_error_response(resp, request.id, replay_message(request.id, old(self).last_accepted_id))
            },
            request.id > old(self).last_accepted_id && !old(self).admits(request) ==> {
                &&& final(self).last_accepted_id == old(self).last_accepted_id
                &&& r matches DaemonStep::Respond(resp)
                    && is_error_response(resp, request.id, auth_failure_message())
            },
            old(self).admits(request) ==> {
                &&& final(self).last_accepted_id == request.id
                &&& (request.cmd is Shutdown ==> r is Stop)
                &&& (!(request.cmd is Shutdown) ==> r == DaemonStep::Perform(request.cmd))
            },
    {
        if request.id <= self.last_accepted_id {
            let mut m = String::new();
            push_text(&mut m, "Replay attack detected: ID ");
            push_decimal(&mut m, request.id);
            push_text(&mut m, " <= last ID ");
            push_decimal(&mut m, self.last_accepted_id);
            proof {
                assert(m@ =~= replay_message(request.id, self.last_accepted_id));
            }
            return DaemonStep::Respond(error_response(request.id, m));
        }
        let payload = request.cmd.to_json();
        if !verify_hmac(self.secret.as_slice(), request.id, payload.as_str(), request.hmac.as_str()) {
            return DaemonStep::Respond(error_response(request.id, "HMAC authentication failed".to_string()));
        }
        self.last_accepted_id = request.id;
        match request.cmd {
            DaemonCommand::Shutdown => DaemonStep::Stop,
            cmd => DaemonStep::Perform(cmd),
        }
    }
}


/// Anti-replay: a request whose id is not greater than the last accepted
/// id is never admitted, whatever its signature.
pub proof fn lemma_replay_never_admitted(state: DaemonState, request: DaemonRequest)
    requires
        request.id <= state.last_accepted_id,
    ensures
        !state.admits(request),
{
}

/// A correctly signed request with a fresh id is admitted: only the id
/// order and the signature decide.
pub proof fn lemma_fresh_signed_request_admitted(state: DaemonState, request: DaemonRequest)
    requires
        request.id > state.last_accepted_id,
        request.hmac@ == crate::protocol::signature_of(state.secret@, request.id, command_json(request.cmd)),
    ensures
        state.admits(request),
{
}


/// The last accepted id after a daemon that started with `last` has
/// stepped through `requests`.
pub open spec fn last_after(secret: Seq<u8>, last: u64, requests: Seq<DaemonRequest>) -> u64
    decreases requests.len(),
{
    if requests.len() == 0 {
        last
    } else {
        let before = last_after(secret, last, requests.drop_last());
        if admits_with(secret, before, requests.last()) { requests.last().id } else { before }
    }
}

/// Whether the `i`-th request of a run is admitted.
pub open spec fn admitted_at(secret: Seq<u8>, last: u64, requests: Seq<DaemonRequest>, i: int) -> bool {
    admits_with(secret, last_after(secret, last, requests.subrange(0, i)), requests[i])
}

proof fn lemma_last_after_grows(secret: Seq<u8>, last: u64, requests: Seq<DaemonRequest>, i: int, j: int)
    requires
        0 <= i <= j <= requests.len(),
    ensures
        last_after(secret, last, requests.subrange(0, i)) <= last_after(secret, last, requests.subrange(0, j)),
    decreases j - i,
{
    if i < j {
        lemma_last_after_grows(secret, last, requests, i, j - 1);
        assert(requests.subrange(0, j).drop_last() =~= requests.subrange(0, j - 1));
    }
}

/// Anti-replay over a whole run: whatever requests arrive, in any order,
/// the ids the daemon admits strictly increase, so no id is admitted twice
/// and none after a larger one.
pub proof fn lemma_admitted_ids_increase(secret: Seq<u8>, last: u64, requests: Seq<DaemonRequest>, i: int, j: int)
    requires
        0 <= i < j < requests.len(),
        admitted_at(secret, last, requests, i),
        admitted_at(secret, last, requests, j),
    ensures
        requests[i].id < requests[j].id,
{
    assert(requests.subrange(0, i + 1).drop_last() =~= requests.subrange(0, i));
    assert(requests.subrange(0, i + 1).last() == requests[i]);
    assert(last_after(secret, last, requests.subrange(0, i + 1)) == requests[i].id);
    lemma_last_after_grows(secret, last, requests, i + 1, j);
}

} // verus!
