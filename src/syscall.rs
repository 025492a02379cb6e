//! Systemd naming: the mount unit that systemd derives from a mount point.

use vstd::prelude::*;
use crate::error::Error;
use crate::executor::CommandOutput;
use crate::text::{chars_of, push_char, push_text};

verus! {

/// Characters that systemd keeps as they are in a unit name.
pub open spec fn is_unit_safe(c: char) -> bool {
    ('a' <= c && c <= 'z') || ('A' <= c && c <= 'Z') || ('0' <= c && c <= '9') || c == ':' || c == '_' || c == '.'
}

/// The lowercase hex digit for `d < 16`.
pub open spec fn hex_char(d: nat) -> char {
    if d < 10 { crate::text::digit_char(d) }
    else if d == 10 { 'a' }
    else if d == 11 { 'b' }
    else if d == 12 { 'c' }
    else if d == 13 { 'd' }
    else if d == 14 { 'e' }
    else { 'f' }
}

/// Lowercase hex of a code point, at least two digits.
pub open spec fn hex_code(n: nat) -> Seq<char>
    decreases n,
{
    if n < 16 {
        seq!['0', hex_char(n)]
    } else if n < 256 {
        seq![hex_char(n / 16), hex_char(n % 16)]
    } else {
        hex_code(n / 16).push(hex_char(n % 16))
    }
}

/// Escaping of one character: `/` becomes `-`, safe characters stay, any
/// other becomes `\x` and its code in hex.
pub open spec fn escape_unit_char(c: char) -> Seq<char> {
    if c == '/' {
        seq!['-']
    } else if is_unit_safe(c) {
        seq![c]
    } else {
        seq!['\\', 'x'] + hex_code((c as u32) as nat)
    }
}

/// Escaping of a path, character by character.
pub open spec fn escape_unit_path(s: Seq<char>) -> Seq<char>
    decreases s.len(),
{
    if s.len() == 0 {
        seq![]
    } else {
        escape_unit_path(s.drop_last()) + escape_unit_char(s.last())
    }
}

/// The path without its leading slashes.
pub open spec fn strip_leading_slashes(s: Seq<char>) -> Seq<char>
    decreases s.len(),
{
    if s.len() > 0 && s[0] == '/' {
        strip_leading_slashes(s.drop_first())
    } else {
        s
    }
}

/// The mount unit name for a mount point: `-.mount` for the root, else
/// the escaped path without leading slashes, with `.mount` appended.
pub open spec fn unit_name_of(mount_point: Seq<char>) -> Seq<char> {
    let t = strip_leading_slashes(mount_point);
    if t.len() == 0 {
        "-.mount"@
    } else {
        escape_unit_path(t) + ".mount"@
    }
}

fn hex_ch(d: u32) -> (c: char)
    requires
        d < 16,
    ensures
        c == hex_char(d as nat),
{
    if d == 0 { '0' } else if d == 1 { '1' } else if d == 2 { '2' } else if d == 3 { '3' }
    else if d == 4 { '4' } else if d == 5 { '5' } else if d == 6 { '6' } else if d == 7 { '7' }
    else if d == 8 { '8' } else if d == 9 { '9' } else if d == 10 { 'a' } else if d == 11 { 'b' }
    else if d == 12 { 'c' } else if d == 13 { 'd' } else if d == 14 { 'e' } else { 'f' }
}

fn push_hex_code(s: &mut String, n: u32)
    ensures
        final(s)@ == old(s)@ + hex_code(n as nat),
    decreases n,
{
    if n < 16 {
        push_char(s, '0');
        push_char(s, hex_ch(n));
    } else if n < 256 {
        push_char(s, hex_ch(n / 16));
        push_char(s, hex_ch(n % 16));
    } else {
        push_hex_code(s, n / 16);
        push_char(s, hex_ch(n % 16));
    }
    assert(final(s)@ =~= old(s)@ + hex_code(n as nat));
}

/// Converts a mount point path to the name of its systemd mount unit.
pub fn mount_point_to_unit_name(mount_point: &str) -> (r: String)
    ensures
        r@ == unit_name_of(mount_point@),
{
    let cs = chars_of(mount_point);
    let mut start: usize = 0;
    assert(cs@.subrange(0, cs@.len() as int) =~= cs@);
    while start < cs.len() && cs[start] == '/'
        invariant
            start <= cs@.len(),
            strip_leading_slashes(cs@.subrange(start as int, cs@.len() as int)) == strip_leading_slashes(cs@),
        decreases cs@.len() - start,
    {
        assert(cs@.subrange(start as int, cs@.len() as int).drop_first() =~= cs@.subrange(start + 1, cs@.len() as int));
        start = start + 1;
    }
    let ghost t = cs@.subrange(start as int, cs@.len() as int);
    assert(strip_leading_slashes(t) == t);
    assert(cs@ == mount_point@);
    if start == cs.len() {
        assert(t.len() == 0);
        return "-.mount".to_string();
    }
    let mut out = String::new();
    let mut i: usize = start;
    while i < cs.len()
        invariant
            start <= i <= cs@.len(),
            out@ == escape_unit_path(cs@.subrange(start as int, i as int)),
        decreases cs@.len() - i,
    {
        let c = cs[i];
        let ghost before = out@;
        if c == '/' {
            push_char(&mut out, '-');
        } else if ('a' <= c && c <= 'z') || ('A' <= c && c <= 'Z') || ('0' <= c && c <= '9') || c == ':' || c == '_' || c == '.' {
            push_char(&mut out, c);
        } else {
            push_char(&mut out, '\\');
            push_char(&mut out, 'x');
            push_hex_code(&mut out, #[verifier::truncate] (c as u32));
        }
        proof {
            let pre = cs@.subrange(start as int, i + 1);
            assert(pre.drop_last() =~= cs@.subrange(start as int, i as int));
            assert(pre.last() == c);
            assert(out@ =~= before + escape_unit_char(c));
        }
        i = i + 1;
    }
    push_text(&mut out, ".mount");
    out
}


/// The outcome of a `systemctl` call: success on exit code 0, else a
/// systemd failure carrying the error text.
pub fn systemctl_result(output: &CommandOutput) -> (r: Result<(), Error>)
    ensures
        output.exit_code == 0 ==> r is Ok,
        output.exit_code != 0 ==> (r matches Err(Error::Systemd { message }) && message@ == output.stderr@),
{
    if output.exit_code == 0 {
        Ok(())
    } else {
        Err(Error::Systemd { message: output.stderr.clone() })
    }
}

/// The outcome of `steamos-session-select <session>`: success on exit code
/// 0, else a systemd failure naming the session.
pub fn session_select_result(session: &str, output: &CommandOutput) -> (r: Result<(), Error>)
    ensures
        output.exit_code == 0 ==> r is Ok,
        output.exit_code != 0 ==> (r matches Err(Error::Systemd { message })
            && message@ == "Failed to select session '"@ + session@ + "': "@ + output.stderr@),
{
    if output.exit_code == 0 {
        Ok(())
    } else {
        let mut m = String::new();
        push_text(&mut m, "Failed to select session '");
        push_text(&mut m, session);
        push_text(&mut m, "': ");
        push_text(&mut m, output.stderr.as_str());
        Err(Error::Systemd { message: m })
    }
}

} // verus!
