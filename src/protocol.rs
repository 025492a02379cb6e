//! Wire protocol between the client session and the elevated daemon.
//!
//! Every request carries an HMAC-SHA256 signature over the request id (as
//! eight little-endian bytes) followed by the JSON text of its command, keyed
//! with a secret that the daemon draws at startup and hands over once, in
//! the handshake line.

use vstd::prelude::*;
use hmac::{Hmac, Mac};
use rand::Rng;
use sha2::Sha256;
use crate::text::{decimal, push_char, push_decimal, push_signed_decimal, push_text, signed_decimal};

verus! {

/// Secret length in bytes.
pub const SECRET_LENGTH: usize = 32;

// ---------------------------------------------------------------------------
// Outside primitives
// ---------------------------------------------------------------------------

/// The HMAC-SHA256 tag of `message` under `key`.
pub uninterp spec fn hmac_sha256_of(key: Seq<u8>, message: Seq<u8>) -> Seq<u8>;

/// Relies on hmac's `Hmac<Sha256>` (`new_from_slice`, `update`, `finalize`):
/// the tag depends on the key and message alone and is 32 bytes long. Any key
/// length is accepted.
#[verifier::external_body]
fn hmac_sha256(key: &[u8], message: &[u8]) -> (r: Vec<u8>)
    ensures
        r@ == hmac_sha256_of(key@, message@),
        r@.len() == 32,
{
    let mut mac = <Hmac<Sha256> as Mac>::new_from_slice(key).expect("any key size");
    mac.update(message);
    mac.finalize().into_bytes().to_vec()
}

/// The lowercase hexadecimal digit for `d < 16`.
pub open spec fn hex_digit(d: u8) -> char {
    if d < 10 {
        crate::text::digit_char(d as nat)
    } else if d == 10 { 'a' }
    else if d == 11 { 'b' }
    else if d == 12 { 'c' }
    else if d == 13 { 'd' }
    else if d == 14 { 'e' }
    else { 'f' }
}

/// Lowercase hexadecimal notation of bytes, two digits per byte.
pub open spec fn hex_of(b: Seq<u8>) -> Seq<char>
    decreases b.len(),
{
    if b.len() == 0 {
        seq![]
    } else {
        hex_of(b.drop_last()).push(hex_digit(b.last() / 16)).push(hex_digit(b.last() % 16))
    }
}

/// A character that `hex::decode` accepts as a digit.
pub open spec fn is_hex_char(c: char) -> bool {
    ('0' <= c && c <= '9') || ('a' <= c && c <= 'f') || ('A' <= c && c <= 'F')
}

/// Text that `hex::decode` accepts: an even number of hexadecimal digits.
pub open spec fn is_hex_text(s: Seq<char>) -> bool {
    s.len() % 2 == 0 && forall|i: int| 0 <= i < s.len() ==> #[trigger] is_hex_char(s[i])
}

/// Relies on hex::encode: two lowercase digits for each byte, in order.
#[verifier::external_body]
fn to_hex(b: &[u8]) -> (r: String)
    ensures
        r@ == hex_of(b@),
{
    hex::encode(b)
}

/// Relies on hex::decode: it succeeds exactly on an even number of hex
/// digits of either case, with one byte for each two digits; on lowercase
/// text it undoes `hex::encode`.
#[verifier::external_body]
pub(crate) fn from_hex(s: &str) -> (r: Option<Vec<u8>>)
    ensures
        r is Some <==> is_hex_text(s@),
        r is Some ==> 2 * r->Some_0@.len() == s@.len(),
        forall|b: Seq<u8>| #[trigger] hex_of(b) == s@ ==> (r is Some && r->Some_0@ == b),
{
    hex::decode(s).ok()
}

/// Relies on rand's thread-local generator: fills the secret with random bytes.
#[verifier::external_body]
pub fn generate_secret() -> (r: [u8; SECRET_LENGTH]) {
    let mut secret = [0u8; SECRET_LENGTH];
    rand::rng().fill(&mut secret);
    secret
}


/// JSON escaping of one character, as serde_json writes it: quote and
/// backslash behind a backslash, the five short control escapes, other
/// control characters as `\u00` and two lowercase hex digits, anything
/// else unchanged.
pub open spec fn json_escape_char(c: char) -> Seq<char> {
    if c == '"' { seq!['\\', '"'] }
    else if c == '\\' { seq!['\\', '\\'] }
    else if c == '\x08' { seq!['\\', 'b'] }
    else if c == '\t' { seq!['\\', 't'] }
    else if c == '\n' { seq!['\\', 'n'] }
    else if c == '\x0c' { seq!['\\', 'f'] }
    else if c == '\r' { seq!['\\', 'r'] }
    else if (c as u32) < 0x20 {
        seq!['\\', 'u', '0', '0', hex_digit(((c as u32) / 16) as u8), hex_digit(((c as u32) % 16) as u8)]
    } else {
        seq![c]
    }
}

/// JSON escaping of a text, character by character.
pub open spec fn json_escape(s: Seq<char>) -> Seq<char>
    decreases s.len(),
{
    if s.len() == 0 {
        seq![]
    } else {
        json_escape(s.drop_last()) + json_escape_char(s.last())
    }
}

/// The JSON string literal for a text: quoted and escaped.
pub open spec fn json_string_of(s: Seq<char>) -> Seq<char> {
    seq!['"'] + json_escape(s) + seq!['"']
}

/// No raw line break in the text.
pub open spec fn single_line(s: Seq<char>) -> bool {
    forall|i: int| 0 <= i < s.len() ==> s[i] != '\n'
}

proof fn lemma_escape_single_line(s: Seq<char>)
    ensures
        single_line(json_escape(s)),
    decreases s.len(),
{
    if s.len() > 0 {
        lemma_escape_single_line(s.drop_last());
        let c = s.last();
        let e = json_escape_char(c);
        assert(single_line(e)) by {
            if (c as u32) < 0x20 && c != '"' && c != '\\' && c != '\x08' && c != '\t' && c != '\n' && c != '\x0c' && c != '\r' {
                let hi = ((c as u32) / 16) as u8;
                let lo = ((c as u32) % 16) as u8;
                assert(hi < 16 && lo < 16);
            }
        }
        assert forall|i: int| 0 <= i < json_escape(s).len() implies json_escape(s)[i] != '\n' by {
            let a = json_escape(s.drop_last());
            if i >= a.len() {
                assert(json_escape(s)[i] == e[i - a.len()]);
            } else {
                assert(json_escape(s)[i] == a[i]);
            }
        }
    }
}

/// A serialised string literal holds no raw line break, so it can stand in
/// a one-line message.
pub proof fn lemma_json_string_single_line(s: Seq<char>)
    ensures
        single_line(json_string_of(s)),
{
    lemma_escape_single_line(s);
    let j = json_string_of(s);
    assert forall|i: int| 0 <= i < j.len() implies j[i] != '\n' by {
        if 1 <= i < j.len() - 1 {
            assert(j[i] == json_escape(s)[i - 1]);
        }
    }
}

/// Relies on serde_json::to_string on a `str` (ser.rs, `format_escaped_str`
/// and its ESCAPE table): the text between quotes, escaped as
/// [`json_escape_char`] says. Serialising a `str` does not fail.
#[verifier::external_body]
fn json_string(s: &str) -> (r: String)
    ensures
        r@ == json_string_of(s@),
{
    match serde_json::to_string(s) {
        Ok(t) => t,
        Err(_) => String::new(),
    }
}

// ---------------------------------------------------------------------------
// Messages
// ---------------------------------------------------------------------------

/// First line the daemon emits: the signing secret, hex-encoded.
#[derive(Debug, Clone, PartialEq, Eq)]
pub struct DaemonHandshake {
    /// Hex-encoded secret for HMAC signing.
    pub secret: String,
}

/// The closed set of operations the daemon performs.
#[derive(Debug, Clone, PartialEq, Eq)]
pub enum DaemonCommand {
    /// Run a program with arguments.
    Exec { program: String, args: Vec<String> },
    /// Create or truncate a file and write the content.
    WriteFile { path: String, content: String },
    /// Copy a file byte for byte, replacing the destination.
    CopyFile { src: String, dst: String },
    /// Create a directory and its missing ancestors.
    MkdirP { path: String },
    /// Stop serving.
    Shutdown,
}

/// A signed request.
#[derive(Debug, Clone, PartialEq, Eq)]
pub struct DaemonRequest {
    /// Request id; ids must increase strictly within a session.
    pub id: u64,
    /// Hex HMAC-SHA256 over the id and the command's JSON text.
    pub hmac: String,
    /// The command.
    pub cmd: DaemonCommand,
}

/// The daemon's answer to one request.
#[derive(Debug, Clone, PartialEq, Eq)]
pub struct DaemonResponse {
    /// Id of the request answered.
    pub id: u64,
    /// Whether the operation succeeded.
    pub success: bool,
    /// Exit code of an executed program; 0 for file operations.
    pub exit_code: i32,
    /// Standard output of an executed program.
    pub stdout: String,
    /// Standard error of an executed program.
    pub stderr: String,
    /// Error message when the operation failed.
    pub error: Option<String>,
}

// ---------------------------------------------------------------------------
// Command text
// ---------------------------------------------------------------------------

/// JSON array of string literals, comma separated.
pub open spec fn json_string_list(items: Seq<String>) -> Seq<char>
    decreases items.len(),
{
    if items.len() == 0 {
        seq![]
    } else if items.len() == 1 {
        json_string_of(items[0]@)
    } else {
        json_string_list(items.drop_last()) + seq![','] + json_string_of(items.last()@)
    }
}

/// The JSON text of a command, as it is signed: the `cmd` tag first, then
/// the variant's fields in order, without whitespace.
pub open spec fn command_json(cmd: DaemonCommand) -> Seq<char> {
    match cmd {
        DaemonCommand::Exec { program, args } =>
            "{\"cmd\":\"exec\",\"program\":"@ + json_string_of(program@) + ",\"args\":["@
                + json_string_list(args@) + "]}"@,
        DaemonCommand::WriteFile { path, content } =>
            "{\"cmd\":\"write_file\",\"path\":"@ + json_string_of(path@) + ",\"content\":"@
                + json_string_of(content@) + "}"@,
        DaemonCommand::CopyFile { src, dst } =>
            "{\"cmd\":\"copy_file\",\"src\":"@ + json_string_of(src@) + ",\"dst\":"@
                + json_string_of(dst@) + "}"@,
        DaemonCommand::MkdirP { path } =>
            "{\"cmd\":\"mkdir_p\",\"path\":"@ + json_string_of(path@) + "}"@,
        DaemonCommand::Shutdown => "{\"cmd\":\"shutdown\"}"@,
    }
}

fn push_json_list(out: &mut String, items: &Vec<String>)
    ensures
        final(out)@ == old(out)@ + json_string_list(items@),
{
    let mut i: usize = 0;
    while i < items.len()
        invariant
            i <= items@.len(),
            out@ == old(out)@ + json_string_list(items@.subrange(0, i as int)),
        decreases items@.len() - i,
    {
        let ghost before = out@;
        if i > 0 {
            push_char(out, ',');
        }
        let q = json_string(items[i].as_str());
        push_text(out, q.as_str());
        proof {
            let prefix = items@.subrange(0, i + 1);
            assert(prefix.drop_last() =~= items@.subrange(0, i as int));
            assert(prefix.last() == items@[i as int]);
            if i == 0 {
                assert(json_string_list(items@.subrange(0, 0)) =~= Seq::<char>::empty());
                assert(out@ =~= old(out)@ + json_string_list(prefix));
            } else {
                assert(out@ =~= old(out)@ + json_string_list(prefix));
            }
        }
        i = i + 1;
    }
    assert(items@.subrange(0, items@.len() as int) =~= items@);
}

impl DaemonCommand {
    /// The JSON text of the command, as it is signed and sent.
    pub fn to_json(&self) -> (r: String)
        ensures
            r@ == command_json(*self),
    {
        let mut out = String::new();
        match self {
            DaemonCommand::Exec { program, args } => {
                push_text(&mut out, "{\"cmd\":\"exec\",\"program\":");
                push_text(&mut out, json_string(program.as_str()).as_str());
                push_text(&mut out, ",\"args\":[");
                push_json_list(&mut out, args);
                push_text(&mut out, "]}");
            },
            DaemonCommand::WriteFile { path, content } => {
                push_text(&mut out, "{\"cmd\":\"write_file\",\"path\":");
                push_text(&mut out, json_string(path.as_str()).as_str());
                push_text(&mut out, ",\"content\":");
                push_text(&mut out, json_string(content.as_str()).as_str());
                push_text(&mut out, "}");
            },
            DaemonCommand::CopyFile { src, dst } => {
                push_text(&mut out, "{\"cmd\":\"copy_file\",\"src\":");
                push_text(&mut out, json_string(src.as_str()).as_str());
                push_text(&mut out, ",\"dst\":");
                push_text(&mut out, json_string(dst.as_str()).as_str());
                push_text(&mut out, "}");
            },
            DaemonCommand::MkdirP { path } => {
                push_text(&mut out, "{\"cmd\":\"mkdir_p\",\"path\":");
                push_text(&mut out, json_string(path.as_str()).as_str());
                push_text(&mut out, "}");
            },
            DaemonCommand::Shutdown => {
                push_text(&mut out, "{\"cmd\":\"shutdown\"}");
            },
        }
        assert(out@ =~= command_json(*self));
        out
    }
}

/// The JSON line of a request: id and signature first, then the command's
/// fields, flattened into the same object.
pub open spec fn request_json(r: DaemonRequest) -> Seq<char> {
    "{\"id\":"@ + decimal(r.id as nat) + ",\"hmac\":"@ + json_string_of(r.hmac@) + ","@
        + command_json(r.cmd).drop_first()
}

/// The JSON line of a response, every field present.
pub open spec fn response_json(r: DaemonResponse) -> Seq<char> {
    "{\"id\":"@ + decimal(r.id as nat) + ",\"success\":"@ + (if r.success { "true"@ } else { "false"@ })
        + ",\"exit_code\":"@ + signed_decimal(r.exit_code as int) + ",\"stdout\":"@ + json_string_of(r.stdout@)
        + ",\"stderr\":"@ + json_string_of(r.stderr@) + ",\"error\":"@
        + (match r.error { Some(e) => json_string_of(e@), None => "null"@ }) + "}"@
}

/// The JSON line of the handshake.
pub open spec fn handshake_json(h: DaemonHandshake) -> Seq<char> {
    "{\"secret\":"@ + json_string_of(h.secret@) + "}"@
}

impl DaemonRequest {
    /// The request as one JSON line (without the newline).
    pub fn to_json(&self) -> (r: String)
        ensures
            r@ == request_json(*self),
    {
        let cmd = self.cmd.to_json();
        let cs = crate::text::chars_of(cmd.as_str());
        let mut out = String::new();
        push_text(&mut out, "{\"id\":");
        push_decimal(&mut out, self.id);
        push_text(&mut out, ",\"hmac\":");
        push_text(&mut out, json_string(self.hmac.as_str()).as_str());
        push_text(&mut out, ",");
        let ghost before = out@;
        let mut i: usize = 1;
        assert(cs@.len() >= 1) by {
            reveal_strlit("{\"cmd\":\"exec\",\"program\":");
            reveal_strlit("{\"cmd\":\"write_file\",\"path\":");
            reveal_strlit("{\"cmd\":\"copy_file\",\"src\":");
            reveal_strlit("{\"cmd\":\"mkdir_p\",\"path\":");
            reveal_strlit("{\"cmd\":\"shutdown\"}");
        }
        while i < cs.len()
            invariant
                1 <= i <= cs@.len(),
                cs@ == command_json(self.cmd),
                out@ == before + cs@.subrange(1, i as int),
            decreases cs@.len() - i,
        {
            push_char(&mut out, cs[i]);
            i = i + 1;
            assert(out@ =~= before + cs@.subrange(1, i as int));
        }
        assert(cs@.subrange(1, cs@.len() as int) =~= cs@.drop_first());
        out
    }
}

impl DaemonResponse {
    /// The response as one JSON line (without the newline).
    pub fn to_json(&self) -> (r: String)
        ensures
            r@ == response_json(*self),
    {
        let mut out = String::new();
        push_text(&mut out, "{\"id\":");
        push_decimal(&mut out, self.id);
        push_text(&mut out, ",\"success\":");
        if self.success {
            push_text(&mut out, "true");
        } else {
            push_text(&mut out, "false");
        }
        push_text(&mut out, ",\"exit_code\":");
        push_signed_decimal(&mut out, self.exit_code as i64);
        push_text(&mut out, ",\"stdout\":");
        push_text(&mut out, json_string(self.stdout.as_str()).as_str());
        push_text(&mut out, ",\"stderr\":");
        push_text(&mut out, json_string(self.stderr.as_str()).as_str());
        push_text(&mut out, ",\"error\":");
        match &self.error {
            Some(e) => push_text(&mut out, json_string(e.as_str()).as_str()),
            None => push_text(&mut out, "null"),
        }
        push_text(&mut out, "}");
        assert(out@ =~= response_json(*self));
        out
    }
}

impl DaemonHandshake {
    /// The handshake as one JSON line (without the newline).
    pub fn to_json(&self) -> (r: String)
        ensures
            r@ == handshake_json(*self),
    {
        let mut out = String::new();
        push_text(&mut out, "{\"secret\":");
        push_text(&mut out, json_string(self.secret.as_str()).as_str());
        push_text(&mut out, "}");
        out
    }
}

// ---------------------------------------------------------------------------
// Signing
// ---------------------------------------------------------------------------

/// The `k` low-order bytes of `n`, least significant first.
pub open spec fn le_bytes(n: nat, k: nat) -> Seq<u8>
    decreases k,
{
    if k == 0 {
        seq![]
    } else {
        seq![(n % 256) as u8] + le_bytes(n / 256, (k - 1) as nat)
    }
}

/// The bytes that are signed for a request: the id as eight little-endian
/// bytes, then the UTF-8 text of the payload.
pub open spec fn signed_message(id: u64, payload: Seq<char>) -> Seq<u8> {
    le_bytes(id as nat, 8) + vstd::utf8::encode_utf8(payload)
}

/// The signature of a request: hex of the HMAC-SHA256 of its signed message.
pub open spec fn signature_of(secret: Seq<u8>, id: u64, payload: Seq<char>) -> Seq<char> {
    hex_of(hmac_sha256_of(secret, signed_message(id, payload)))
}

fn id_bytes(id: u64) -> (r: Vec<u8>)
    ensures
        r@ == le_bytes(id as nat, 8),
{
    let mut r: Vec<u8> = Vec::new();
    let mut v: u64 = id;
    let mut i: usize = 0;
    while i < 8
        invariant
            i <= 8,
            r@ + le_bytes(v as nat, (8 - i) as nat) == le_bytes(id as nat, 8),
        decreases 8 - i,
    {
        let ghost rest = le_bytes((v / 256) as nat, (8 - i - 1) as nat);
        assert(le_bytes(v as nat, (8 - i) as nat) == seq![(v % 256) as u8] + rest);
        r.push((v % 256) as u8);
        assert(r@ + rest =~= le_bytes(id as nat, 8));
        v = v / 256;
        i = i + 1;
    }
    assert(r@ =~= le_bytes(id as nat, 8));
    r
}

/// Computes the signature of a request with id `id` and command text `payload`.
pub fn compute_hmac(secret: &[u8], id: u64, payload: &str) -> (r: String)
    ensures
        r@ == signature_of(secret@, id, payload@),
{
    let mut message = id_bytes(id);
    let bytes = payload.as_bytes();
    let mut i: usize = 0;
    while i < bytes.len()
        invariant
            i <= bytes@.len(),
            bytes@ == vstd::utf8::encode_utf8(payload@),
            message@ == le_bytes(id as nat, 8) + bytes@.subrange(0, i as int),
        decreases bytes@.len() - i,
    {
        message.push(bytes[i]);
        i = i + 1;
        assert(message@ =~= le_bytes(id as nat, 8) + bytes@.subrange(0, i as int));
    }
    assert(bytes@.subrange(0, bytes@.len() as int) =~= bytes@);
    let tag = hmac_sha256(secret, message.as_slice());
    to_hex(tag.as_slice())
}

/// Compares two texts in time that depends on their lengths only: texts of
/// different lengths are unequal at once, equal-length texts are scanned
/// whole, folding every byte difference.
pub fn constant_time_eq(a: &str, b: &str) -> (r: bool)
    ensures
        r == (a@ == b@),
{
    let x = a.as_bytes();
    let y = b.as_bytes();
    proof {
        vstd::utf8::encode_utf8_decode_utf8(a@);
        vstd::utf8::encode_utf8_decode_utf8(b@);
    }
    if x.len() != y.len() {
        return false;
    }
    let mut acc: u8 = 0;
    let mut i: usize = 0;
    assert(x@.subrange(0, 0) =~= y@.subrange(0, 0));
    while i < x.len()
        invariant
            x@.len() == y@.len(),
            i <= x@.len(),
            (acc == 0) == (x@.subrange(0, i as int) == y@.subrange(0, i as int)),
        decreases x@.len() - i,
    {
        let xi: u8 = x[i];
        let yi: u8 = y[i];
        let d: u8 = xi ^ yi;
        let old_acc: u8 = acc;
        acc = acc | d;
        assert((acc == 0) == (old_acc == 0 && d == 0)) by (bit_vector)
            requires acc == old_acc | d;
        assert((d == 0) == (xi == yi)) by (bit_vector)
            requires d == xi ^ yi;
        proof {
            let xs = x@.subrange(0, i as int);
            let ys = y@.subrange(0, i as int);
            assert(x@.subrange(0, i + 1) =~= xs.push(x@[i as int]));
            assert(y@.subrange(0, i + 1) =~= ys.push(y@[i as int]));
            if xs == ys && x@[i as int] == y@[i as int] {
                assert(x@.subrange(0, i + 1) == y@.subrange(0, i + 1));
            }
            if x@.subrange(0, i + 1) == y@.subrange(0, i + 1) {
                assert(xs =~= x@.subrange(0, i + 1).drop_last());
                assert(ys =~= y@.subrange(0, i + 1).drop_last());
                assert(x@.subrange(0, i + 1)[i as int] == x@[i as int]);
                assert(y@.subrange(0, i + 1)[i as int] == y@[i as int]);
            }
        }
        i = i + 1;
    }
    assert(x@.subrange(0, x@.len() as int) =~= x@);
    assert(y@.subrange(0, y@.len() as int) =~= y@);
    acc == 0
}

/// A signature is accepted for a request when it equals the one computed
/// from the secret, the request id and the command text.
pub open spec fn signature_valid(secret: Seq<u8>, id: u64, payload: Seq<char>, signature: Seq<char>) -> bool {
    signature == signature_of(secret, id, payload)
}

/// Checks a signature against the one computed from the secret, id and
/// payload, in constant time.
pub fn verify_hmac(secret: &[u8], id: u64, payload: &str, signature: &str) -> (r: bool)
    ensures
        r == signature_valid(secret@, id, payload@, signature@),
{
    let expected = compute_hmac(secret, id, payload);
    constant_time_eq(expected.as_str(), signature)
}

/// Whatever the secret, id and payload, the signature computed for them is
/// accepted by verification.
pub proof fn lemma_computed_signature_verifies(secret: Seq<u8>, id: u64, payload: Seq<char>)
    ensures
        signature_valid(secret, id, payload, signature_of(secret, id, payload)),
{
}


proof fn lemma_le_bytes_len(n: nat, k: nat)
    ensures
        le_bytes(n, k).len() == k,
    decreases k,
{
    if k > 0 {
        lemma_le_bytes_len(n / 256, (k - 1) as nat);
    }
}

proof fn lemma_le_bytes_injective(a: nat, b: nat, k: nat)
    requires
        le_bytes(a, k) == le_bytes(b, k),
        a < vstd::arithmetic::power::pow(256, k),
        b < vstd::arithmetic::power::pow(256, k),
    ensures
        a == b,
    decreases k,
{
    vstd::arithmetic::power::lemma_pow_positive(256, k);
    if k == 0 {
        vstd::arithmetic::power::lemma_pow0(256);
    } else {
        let k1 = (k - 1) as nat;
        vstd::arithmetic::power::lemma_pow_adds(256, 1, k1);
        vstd::arithmetic::power::lemma_pow1(256);
        let p = vstd::arithmetic::power::pow(256, k1);
        assert(vstd::arithmetic::power::pow(256, k) == 256 * p);
        lemma_le_bytes_len(a / 256, k1);
        lemma_le_bytes_len(b / 256, k1);
        assert(le_bytes(a, k)[0] == (a % 256) as u8);
        assert(le_bytes(b, k)[0] == (b % 256) as u8);
        assert(a % 256 == b % 256);
        assert(le_bytes(a, k).subrange(1, k as int) =~= le_bytes(a / 256, k1));
        assert(le_bytes(b, k).subrange(1, k as int) =~= le_bytes(b / 256, k1));
        assert(a / 256 < p) by (nonlinear_arith)
            requires a < 256 * p;
        assert(b / 256 < p) by (nonlinear_arith)
            requires b < 256 * p;
        lemma_le_bytes_injective(a / 256, b / 256, k1);
        assert(a == 256 * (a / 256) + a % 256) by (nonlinear_arith);
        assert(b == 256 * (b / 256) + b % 256) by (nonlinear_arith);
    }
}

/// The signed message determines the request id and the command text: two
/// requests that differ in id or in payload are signed over different
/// bytes. (That different bytes give different tags is the property of
/// HMAC-SHA256 itself.)
pub proof fn lemma_signed_message_injective(id1: u64, p1: Seq<char>, id2: u64, p2: Seq<char>)
    requires
        signed_message(id1, p1) == signed_message(id2, p2),
    ensures
        id1 == id2,
        p1 == p2,
{
    lemma_le_bytes_len(id1 as nat, 8);
    lemma_le_bytes_len(id2 as nat, 8);
    let m1 = signed_message(id1, p1);
    let m2 = signed_message(id2, p2);
    assert(m1.subrange(0, 8) =~= le_bytes(id1 as nat, 8));
    assert(m2.subrange(0, 8) =~= le_bytes(id2 as nat, 8));
    assert(m1.subrange(8, m1.len() as int) =~= vstd::utf8::encode_utf8(p1));
    assert(m2.subrange(8, m2.len() as int) =~= vstd::utf8::encode_utf8(p2));
    vstd::arithmetic::power::lemma_pow_positive(256, 8);
    assert(vstd::arithmetic::power::pow(256, 8) == 0x1_0000_0000_0000_0000) by {
        reveal_with_fuel(vstd::arithmetic::power::pow, 9);
    }
    lemma_le_bytes_injective(id1 as nat, id2 as nat, 8);
    vstd::utf8::encode_utf8_decode_utf8(p1);
    vstd::utf8::encode_utf8_decode_utf8(p2);
}


proof fn lemma_join_single_line(a: Seq<char>, b: Seq<char>)
    requires
        single_line(a),
        single_line(b),
    ensures
        single_line(a + b),
{
    assert forall|i: int| 0 <= i < (a + b).len() implies (a + b)[i] != '\n' by {
        if i >= a.len() {
            assert((a + b)[i] == b[i - a.len()]);
        } else {
            assert((a + b)[i] == a[i]);
        }
    }
}

proof fn lemma_decimal_single_line(n: nat)
    ensures
        single_line(decimal(n)),
    decreases n,
{
    if n >= 10 {
        lemma_decimal_single_line(n / 10);
        lemma_join_single_line(decimal(n / 10), seq![crate::text::digit_char(n % 10)]);
        assert(decimal(n) =~= decimal(n / 10) + seq![crate::text::digit_char(n % 10)]);
    }
}

proof fn lemma_signed_decimal_single_line(n: int)
    ensures
        single_line(signed_decimal(n)),
{
    if n < 0 {
        lemma_decimal_single_line((-n) as nat);
        lemma_join_single_line(seq!['-'], decimal((-n) as nat));
    } else {
        lemma_decimal_single_line(n as nat);
    }
}

proof fn lemma_list_single_line(items: Seq<String>)
    ensures
        single_line(json_string_list(items)),
    decreases items.len(),
{
    if items.len() == 1 {
        lemma_json_string_single_line(items[0]@);
    } else if items.len() > 1 {
        lemma_list_single_line(items.drop_last());
        lemma_json_string_single_line(items.last()@);
        lemma_join_single_line(json_string_list(items.drop_last()), seq![',']);
        lemma_join_single_line(json_string_list(items.drop_last()) + seq![','], json_string_of(items.last()@));
    }
}

/// Joins three single-line pieces.
proof fn lemma_join3(a: Seq<char>, b: Seq<char>, c: Seq<char>)
    requires
        single_line(a),
        single_line(b),
        single_line(c),
    ensures
        single_line(a + b + c),
{
    lemma_join_single_line(a, b);
    lemma_join_single_line(a + b, c);
}

/// Every message of the protocol fits on one line: no command, request,
/// response or handshake text holds a raw line break, whatever the strings
/// it carries.
pub proof fn lemma_messages_single_line(cmd: DaemonCommand, request: DaemonRequest, response: DaemonResponse, handshake: DaemonHandshake)
    ensures
        single_line(command_json(cmd)),
        single_line(request_json(request)),
        single_line(response_json(response)),
        single_line(handshake_json(handshake)),
{
    lemma_command_single_line(cmd);
    lemma_command_single_line(request.cmd);
    let c = command_json(request.cmd);
    assert forall|i: int| 0 <= i < c.drop_first().len() implies c.drop_first()[i] != '\n' by {
        assert(c.drop_first()[i] == c[i + 1]);
    }
    reveal_strlit("{\"id\":");
    reveal_strlit(",\"hmac\":");
    reveal_strlit(",");
    lemma_decimal_single_line(request.id as nat);
    lemma_json_string_single_line(request.hmac@);
    lemma_join3("{\"id\":"@, decimal(request.id as nat), ",\"hmac\":"@);
    lemma_join3("{\"id\":"@ + decimal(request.id as nat) + ",\"hmac\":"@, json_string_of(request.hmac@), ","@);
    lemma_join_single_line("{\"id\":"@ + decimal(request.id as nat) + ",\"hmac\":"@ + json_string_of(request.hmac@) + ","@, c.drop_first());

    reveal_strlit(",\"success\":");
    reveal_strlit("true");
    reveal_strlit("false");
    reveal_strlit(",\"exit_code\":");
    reveal_strlit(",\"stdout\":");
    reveal_strlit(",\"stderr\":");
    reveal_strlit(",\"error\":");
    reveal_strlit("null");
    reveal_strlit("}");
    lemma_decimal_single_line(response.id as nat);
    lemma_signed_decimal_single_line(response.exit_code as int);
    lemma_json_string_single_line(response.stdout@);
    lemma_json_string_single_line(response.stderr@);
    let b: Seq<char> = if response.success { "true"@ } else { "false"@ };
    let e: Seq<char> = match response.error { Some(x) => json_string_of(x@), None => "null"@ };
    match response.error {
        Some(x) => lemma_json_string_single_line(x@),
        None => {},
    }
    let p1 = "{\"id\":"@ + decimal(response.id as nat) + ",\"success\":"@;
    lemma_join3("{\"id\":"@, decimal(response.id as nat), ",\"success\":"@);
    let p2 = p1 + b + ",\"exit_code\":"@;
    lemma_join3(p1, b, ",\"exit_code\":"@);
    let p3 = p2 + signed_decimal(response.exit_code as int) + ",\"stdout\":"@;
    lemma_join3(p2, signed_decimal(response.exit_code as int), ",\"stdout\":"@);
    let p4 = p3 + json_string_of(response.stdout@) + ",\"stderr\":"@;
    lemma_join3(p3, json_string_of(response.stdout@), ",\"stderr\":"@);
    let p5 = p4 + json_string_of(response.stderr@) + ",\"error\":"@;
    lemma_join3(p4, json_string_of(response.stderr@), ",\"error\":"@);
    lemma_join3(p5, e, "}"@);

    reveal_strlit("{\"secret\":");
    lemma_json_string_single_line(handshake.secret@);
    lemma_join3("{\"secret\":"@, json_string_of(handshake.secret@), "}"@);
}

proof fn lemma_command_single_line(cmd: DaemonCommand)
    ensures
        single_line(command_json(cmd)),
        command_json(cmd).len() > 0,
{
    reveal_strlit("{\"cmd\":\"exec\",\"program\":");
    reveal_strlit(",\"args\":[");
    reveal_strlit("]}");
    reveal_strlit("{\"cmd\":\"write_file\",\"path\":");
    reveal_strlit(",\"content\":");
    reveal_strlit("}");
    reveal_strlit("{\"cmd\":\"copy_file\",\"src\":");
    reveal_strlit(",\"dst\":");
    reveal_strlit("{\"cmd\":\"mkdir_p\",\"path\":");
    reveal_strlit("{\"cmd\":\"shutdown\"}");
    match cmd {
        DaemonCommand::Exec { program, args } => {
            lemma_json_string_single_line(program@);
            lemma_list_single_line(args@);
            lemma_join3("{\"cmd\":\"exec\",\"program\":"@, json_string_of(program@), ",\"args\":["@);
            lemma_join3("{\"cmd\":\"exec\",\"program\":"@ + json_string_of(program@) + ",\"args\":["@, json_string_list(args@), "]}"@);
        },
        DaemonCommand::WriteFile { path, content } => {
            lemma_json_string_single_line(path@);
            lemma_json_string_single_line(content@);
            lemma_join3("{\"cmd\":\"write_file\",\"path\":"@, json_string_of(path@), ",\"content\":"@);
            lemma_join3("{\"cmd\":\"write_file\",\"path\":"@ + json_string_of(path@) + ",\"content\":"@, json_string_of(content@), "}"@);
        },
        DaemonCommand::CopyFile { src, dst } => {
            lemma_json_string_single_line(src@);
            lemma_json_string_single_line(dst@);
            lemma_join3("{\"cmd\":\"copy_file\",\"src\":"@, json_string_of(src@), ",\"dst\":"@);
            lemma_join3("{\"cmd\":\"copy_file\",\"src\":"@ + json_string_of(src@) + ",\"dst\":"@, json_string_of(dst@), "}"@);
        },
        DaemonCommand::MkdirP { path } => {
            lemma_json_string_single_line(path@);
            lemma_join3("{\"cmd\":\"mkdir_p\",\"path\":"@, json_string_of(path@), "}"@);
        },
        DaemonCommand::Shutdown => {},
    }
}

} // verus!
