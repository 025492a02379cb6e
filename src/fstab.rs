//! Fstab entries: parsing a line, formatting an entry, and the escaping of
//! paths with octal sequences.

use vstd::prelude::*;
use crate::error::Error;
use crate::text::{text_eq, trim, trimmed, chars_of, decimal, join, join_with, push_char, push_decimal, push_text, views};

verus! {

/// Marker line that opens the managed block.
pub const MANAGED_BLOCK_BEGIN: &'static str = "# BEGIN STEAMOS-MOUNT-MANAGED";

/// Marker line that closes the managed block.
pub const MANAGED_BLOCK_END: &'static str = "# END STEAMOS-MOUNT-MANAGED";

/// Default fstab path.
pub const FSTAB_PATH: &'static str = "/etc/fstab";

// ---------------------------------------------------------------------------
// Splitting
// ---------------------------------------------------------------------------

/// ASCII whitespace, which separates fstab fields.
pub open spec fn is_space(c: char) -> bool {
    c == ' ' || c == '\t' || c == '\n' || c == '\r' || c == '\x0b' || c == '\x0c'
}

fn space(c: char) -> (r: bool)
    ensures
        r == is_space(c),
{
    c == ' ' || c == '\t' || c == '\n' || c == '\r' || c == '\x0b' || c == '\x0c'
}

/// The words of `s` from position `i` on, given the word in progress and
/// the words already complete: maximal runs of non-space characters.
pub open spec fn words_from(s: Seq<char>, i: int, cur: Seq<char>, done: Seq<Seq<char>>) -> Seq<Seq<char>>
    decreases s.len() - i,
{
    if i >= s.len() {
        if cur.len() > 0 { done.push(cur) } else { done }
    } else if is_space(s[i]) {
        words_from(s, i + 1, seq![], if cur.len() > 0 { done.push(cur) } else { done })
    } else {
        words_from(s, i + 1, cur.push(s[i]), done)
    }
}

/// The whitespace-separated words of a text.
pub open spec fn words(s: Seq<char>) -> Seq<Seq<char>> {
    words_from(s, 0, seq![], seq![])
}

/// The pieces of `s` from position `i` on between `sep` characters, given
/// the piece in progress and the pieces already complete.
pub open spec fn pieces_from(s: Seq<char>, sep: char, i: int, cur: Seq<char>, done: Seq<Seq<char>>) -> Seq<Seq<char>>
    decreases s.len() - i,
{
    if i >= s.len() {
        done.push(cur)
    } else if s[i] == sep {
        pieces_from(s, sep, i + 1, seq![], done.push(cur))
    } else {
        pieces_from(s, sep, i + 1, cur.push(s[i]), done)
    }
}

/// The pieces of `s` between `sep` characters, empty pieces included.
pub open spec fn pieces(s: Seq<char>, sep: char) -> Seq<Seq<char>> {
    pieces_from(s, sep, 0, seq![], seq![])
}

fn push_piece(done: &mut Vec<String>, piece: String)
    ensures
        views(final(done)@) == views(old(done)@).push(piece@),
{
    done.push(piece);
    assert(views(final(done)@) =~= views(old(done)@).push(piece@));
}

/// Splits a text into its whitespace-separated words.
pub fn split_words(s: &Vec<char>) -> (r: Vec<String>)
    ensures
        views(r@) == words(s@),
{
    let mut done: Vec<String> = Vec::new();
    let mut cur = String::new();
    let mut i: usize = 0;
    assert(views(done@) =~= Seq::<Seq<char>>::empty());
    while i < s.len()
        invariant
            i <= s@.len(),
            words_from(s@, i as int, cur@, views(done@)) == words(s@),
        decreases s@.len() - i,
    {
        if space(s[i]) {
            if !cur.as_str().is_empty() {
                push_piece(&mut done, cur);
            }
            cur = String::new();
        } else {
            push_char(&mut cur, s[i]);
        }
        i = i + 1;
    }
    if !cur.as_str().is_empty() {
        push_piece(&mut done, cur);
    }
    done
}

/// Splits a text at every `sep`, keeping empty pieces.
pub fn split_at_char(s: &Vec<char>, sep: char) -> (r: Vec<String>)
    ensures
        views(r@) == pieces(s@, sep),
{
    let mut done: Vec<String> = Vec::new();
    let mut cur = String::new();
    let mut i: usize = 0;
    assert(views(done@) =~= Seq::<Seq<char>>::empty());
    while i < s.len()
        invariant
            i <= s@.len(),
            pieces_from(s@, sep, i as int, cur@, views(done@)) == pieces(s@, sep),
        decreases s@.len() - i,
    {
        if s[i] == sep {
            push_piece(&mut done, cur);
            cur = String::new();
        } else {
            push_char(&mut cur, s[i]);
        }
        i = i + 1;
    }
    push_piece(&mut done, cur);
    done
}


// ---------------------------------------------------------------------------
// Numbers
// ---------------------------------------------------------------------------

/// An ASCII decimal digit.
pub open spec fn is_digit(c: char) -> bool {
    48 <= (c as u32) && (c as u32) <= 57
}

/// The value of a run of decimal digits.
pub open spec fn digits_value(s: Seq<char>) -> nat
    decreases s.len(),
{
    if s.len() == 0 {
        0
    } else {
        digits_value(s.drop_last()) * 10 + ((s.last() as u32) - 48) as nat
    }
}

/// The number written in `s` as `str::parse` reads an unsigned integer:
/// an optional `+`, then one or more decimal digits.
pub open spec fn parse_unsigned(s: Seq<char>) -> Option<nat> {
    if unsigned_digits(s).len() > 0 && all_digits(unsigned_digits(s)) {
        Some(digits_value(unsigned_digits(s)))
    } else {
        None
    }
}

/// The text without one leading `+`.
pub open spec fn unsigned_digits(s: Seq<char>) -> Seq<char> {
    if s.len() > 0 && s[0] == '+' { s.drop_first() } else { s }
}

/// Every character is a decimal digit.
pub open spec fn all_digits(t: Seq<char>) -> bool {
    forall|i: int| 0 <= i < t.len() ==> #[trigger] is_digit(t[i])
}

proof fn lemma_digits_value_grows(s: Seq<char>, i: int)
    requires
        0 <= i <= s.len(),
        forall|k: int| 0 <= k < s.len() ==> #[trigger] is_digit(s[k]),
    ensures
        digits_value(s.subrange(0, i)) <= digits_value(s),
    decreases s.len() - i,
{
    if i < s.len() {
        lemma_digits_value_grows(s.drop_last(), if i < s.len() { i } else { i - 1 });
        assert(s.drop_last().subrange(0, i) =~= s.subrange(0, i));
        assert(s.drop_last() =~= s.subrange(0, s.len() - 1));
    } else {
        assert(s.subrange(0, i) =~= s);
    }
}

/// Reads an unsigned number no greater than `max`.
pub fn parse_bounded(s: &str, max: u64) -> (r: Option<u64>)
    requires
        max < u64::MAX / 10 - 10,
    ensures
        r == (match parse_unsigned(s@) {
            Some(v) => if v <= max { Some(v as u64) } else { None },
            None => None,
        }),
{
    let cs = chars_of(s);
    let start: usize = if cs.len() > 0 && cs[0] == '+' { 1 } else { 0 };
    let ghost t = unsigned_digits(s@);
    assert(cs@.subrange(start as int, cs@.len() as int) =~= t);
    if start == cs.len() {
        return None;
    }
    let mut i: usize = start;
    let mut value: u64 = 0;
    while i < cs.len()
        invariant
            start <= i <= cs@.len(),
            max < u64::MAX / 10 - 10,
            cs@ == s@,
            t == unsigned_digits(s@),
            t == cs@.subrange(start as int, cs@.len() as int),
            forall|k: int| start <= k < i ==> #[trigger] is_digit(cs@[k]),
            value <= max ==> value as nat == digits_value(cs@.subrange(start as int, i as int)),
            value > max ==> value == max + 1 && digits_value(cs@.subrange(start as int, i as int)) > max,
        decreases cs@.len() - i,
    {
        let c = cs[i];
        let cu = c as u32;
        if !(48 <= cu && cu <= 57) {
            assert(t[(i - start) as int] == c);
            assert(!is_digit(t[(i - start) as int]));
            assert(!all_digits(t));
            return None;
        }
        let d: u64 = (cu - 48) as u64;
        let ghost pre = cs@.subrange(start as int, i + 1);
        assert(pre.drop_last() =~= cs@.subrange(start as int, i as int));
        assert(pre.last() == c);
        if value <= max {
            assert(value * 10 + d < u64::MAX) by (nonlinear_arith)
                requires value <= max, max < u64::MAX / 10 - 10, d < 10;
            let next: u64 = value * 10 + d;
            value = if next > max { max + 1 } else { next };
        } else {
            let ghost dv = digits_value(pre.drop_last());
            assert(dv * 10 > max) by (nonlinear_arith)
                requires dv > max;
        }
        i = i + 1;
    }
    proof {
        assert(all_digits(t)) by {
          assert forall|k: int| 0 <= k < t.len() implies #[trigger] is_digit(t[k]) by {
            assert(t[k] == cs@[start + k]);
          }
        }
        assert(cs@.subrange(start as int, i as int) =~= t);
    }
    if value > max {
        None
    } else {
        Some(value)
    }
}

// ---------------------------------------------------------------------------
// Path escaping
// ---------------------------------------------------------------------------

/// Escaping of one path character: space, tab, newline and backslash become
/// octal sequences.
pub open spec fn escape_char(c: char) -> Seq<char> {
    if c == ' ' { "\\040"@ }
    else if c == '\t' { "\\011"@ }
    else if c == '\n' { "\\012"@ }
    else if c == '\\' { "\\134"@ }
    else { seq![c] }
}

/// Escaping of a path for an fstab field.
pub open spec fn escape_path(s: Seq<char>) -> Seq<char>
    decreases s.len(),
{
    if s.len() == 0 {
        seq![]
    } else {
        escape_path(s.drop_last()) + escape_char(s.last())
    }
}

/// Escapes special characters in a path with octal sequences.
pub fn escape_fstab_path(path: &str) -> (r: String)
    ensures
        r@ == escape_path(path@),
{
    let cs = chars_of(path);
    let mut out = String::new();
    let mut i: usize = 0;
    while i < cs.len()
        invariant
            i <= cs@.len(),
            cs@ == path@,
            out@ == escape_path(cs@.subrange(0, i as int)),
        decreases cs@.len() - i,
    {
        let c = cs[i];
        let ghost before = out@;
        if c == ' ' {
            push_text(&mut out, "\\040");
        } else if c == '\t' {
            push_text(&mut out, "\\011");
        } else if c == '\n' {
            push_text(&mut out, "\\012");
        } else if c == '\\' {
            push_text(&mut out, "\\134");
        } else {
            push_char(&mut out, c);
        }
        proof {
            let pre = cs@.subrange(0, i + 1);
            assert(pre.drop_last() =~= cs@.subrange(0, i as int));
            assert(out@ =~= before + escape_char(c));
        }
        i = i + 1;
    }
    assert(cs@.subrange(0, cs@.len() as int) =~= path@);
    out
}

/// An octal digit.
pub open spec fn is_octal(c: char) -> bool {
    48 <= (c as u32) && (c as u32) <= 55
}

/// The value of three octal digits.
pub open spec fn octal_value(a: char, b: char, c: char) -> nat {
    (((a as u32) - 48) * 64 + ((b as u32) - 48) * 8 + ((c as u32) - 48)) as nat
}

/// Whether an escape sequence `\ddd` starts at position `i`: three octal
/// digits whose value fits in a byte.
pub open spec fn escape_at(s: Seq<char>, i: int) -> bool {
    &&& 0 <= i && i + 3 < s.len()
    &&& s[i] == '\\'
    &&& is_octal(s[i + 1]) && is_octal(s[i + 2]) && is_octal(s[i + 3])
    &&& octal_value(s[i + 1], s[i + 2], s[i + 3]) <= 255
}

/// Unescaping from position `i` on, after `done`: each escape sequence
/// becomes the character with that code, everything else stays.
pub open spec fn unescape_from(s: Seq<char>, i: int, done: Seq<char>) -> Seq<char>
    decreases s.len() - i,
{
    if i >= s.len() {
        done
    } else if escape_at(s, i) {
        unescape_from(s, i + 4, done.push(((octal_value(s[i + 1], s[i + 2], s[i + 3])) as u8) as char))
    } else {
        unescape_from(s, i + 1, done.push(s[i]))
    }
}

/// Unescaping of an fstab path field.
pub open spec fn unescape_path(s: Seq<char>) -> Seq<char> {
    unescape_from(s, 0, seq![])
}

fn octal(c: char) -> (r: bool)
    ensures
        r == is_octal(c),
{
    let u = c as u32;
    48 <= u && u <= 55
}

/// Unescapes the octal sequences of an fstab path field.
pub fn unescape_fstab_path(input: &str) -> (r: String)
    ensures
        r@ == unescape_path(input@),
{
    let cs = chars_of(input);
    let mut out = String::new();
    let mut i: usize = 0;
    while i < cs.len()
        invariant
            i <= cs@.len(),
            cs@ == input@,
            unescape_from(cs@, i as int, out@) == unescape_path(input@),
        decreases cs@.len() - i,
    {
        let c = cs[i];
        if c == '\\' && cs.len() - i > 3 && octal(cs[i + 1]) && octal(cs[i + 2]) && octal(cs[i + 3]) {
            let v: u32 = ((cs[i + 1] as u32) - 48) * 64 + ((cs[i + 2] as u32) - 48) * 8 + ((cs[i + 3] as u32) - 48);
            if v <= 255 {
                push_char(&mut out, (v as u8) as char);
                i = i + 4;
            } else {
                push_char(&mut out, c);
                i = i + 1;
            }
        } else {
            push_char(&mut out, c);
            i = i + 1;
        }
    }
    out
}


// ---------------------------------------------------------------------------
// Entries
// ---------------------------------------------------------------------------

/// Values that can stand for a list of mount options.
pub trait IntoMountOptions: Sized {
    /// The options this value stands for.
    spec fn spec_options(&self) -> Seq<Seq<char>>;

    /// The options, one string each.
    fn into_options(self) -> (r: Vec<String>)
        ensures
            views(r@) == self.spec_options();
}

impl<'a> IntoMountOptions for &'a str {
    open spec fn spec_options(&self) -> Seq<Seq<char>> {
        pieces((*self)@, ',')
    }

    /// Splits at every comma.
    fn into_options(self) -> (r: Vec<String>) {
        let cs = chars_of(self);
        split_at_char(&cs, ',')
    }
}

impl IntoMountOptions for Vec<String> {
    open spec fn spec_options(&self) -> Seq<Seq<char>> {
        views(self@)
    }

    /// The options as they are.
    fn into_options(self) -> (r: Vec<String>) {
        self
    }
}

/// One line of fstab.
#[derive(Debug, Clone, PartialEq, Eq)]
pub struct FstabEntry {
    /// Device identifier (`UUID=...`, `PARTUUID=...`, a device path).
    pub fs_spec: String,
    /// Mount point path, unescaped.
    pub mount_point: String,
    /// Filesystem type (`ntfs3`, `exfat`).
    pub vfs_type: String,
    /// Mount options.
    pub mount_options: Vec<String>,
    /// Dump field.
    pub dump: u8,
    /// Fsck pass field.
    pub fsck_order: u16,
}

/// Whether a line holds no entry: empty, blank or a comment.
pub open spec fn is_blank_or_comment(line: Seq<char>) -> bool {
    words(line).len() == 0 || (words(line)[0].len() > 0 && words(line)[0][0] == '#')
}

/// The entry that a six-field line describes, when both numbers fit.
pub open spec fn entry_fields_match(e: FstabEntry, w: Seq<Seq<char>>) -> bool {
    &&& e.fs_spec@ == w[0]
    &&& e.mount_point@ == unescape_path(w[1])
    &&& e.vfs_type@ == w[2]
    &&& views(e.mount_options@) == pieces(w[3], ',')
    &&& parse_unsigned(w[4]) == Some(e.dump as nat)
    &&& parse_unsigned(w[5]) == Some(e.fsck_order as nat)
}

/// The dump field parses and fits in a byte.
pub open spec fn dump_ok(w: Seq<char>) -> bool {
    parse_unsigned(w) is Some && parse_unsigned(w)->Some_0 <= 255
}

/// The pass field parses and fits in 16 bits.
pub open spec fn pass_ok(w: Seq<char>) -> bool {
    parse_unsigned(w) is Some && parse_unsigned(w)->Some_0 <= 65535
}

/// An fstab line for an entry: six fields, two spaces apart, with the
/// mount point escaped and the options comma separated.
pub open spec fn entry_line(e: FstabEntry) -> Seq<char> {
    e.fs_spec@ + "  "@ + escape_path(e.mount_point@) + "  "@ + e.vfs_type@ + "  "@
        + join_with(views(e.mount_options@), ","@) + "  "@ + decimal(e.dump as nat) + "  "@
        + decimal(e.fsck_order as nat)
}

fn parse_error(field: &str, line: &str) -> (r: Error)
    ensures
        r is FstabParse,
{
    let mut m = String::new();
    push_text(&mut m, "failed to parse ");
    push_text(&mut m, field);
    push_text(&mut m, " of line ");
    push_text(&mut m, line);
    Error::FstabParse { message: m }
}

impl FstabEntry {
    /// Creates an entry.
    pub fn new<O: IntoMountOptions>(
        fs_spec: &str,
        mount_point: &str,
        fs_type: &str,
        mount_options: O,
        dump: u8,
        fsck_order: u16,
    ) -> (r: FstabEntry)
        ensures
            r.fs_spec@ == fs_spec@,
            r.mount_point@ == mount_point@,
            r.vfs_type@ == fs_type@,
            views(r.mount_options@) == mount_options.spec_options(),
            r.dump == dump,
            r.fsck_order == fsck_order,
    {
        FstabEntry {
            fs_spec: fs_spec.to_string(),
            mount_point: mount_point.to_string(),
            vfs_type: fs_type.to_string(),
            mount_options: mount_options.into_options(),
            dump,
            fsck_order,
        }
    }

    /// A field-by-field copy.
    pub fn copy(&self) -> (r: FstabEntry)
        ensures
            r.fs_spec@ == self.fs_spec@,
            r.mount_point@ == self.mount_point@,
            r.vfs_type@ == self.vfs_type@,
            views(r.mount_options@) == views(self.mount_options@),
            r.dump == self.dump,
            r.fsck_order == self.fsck_order,
    {
        FstabEntry {
            fs_spec: self.fs_spec.clone(),
            mount_point: self.mount_point.clone(),
            vfs_type: self.vfs_type.clone(),
            mount_options: crate::text::copy_texts(&self.mount_options),
            dump: self.dump,
            fsck_order: self.fsck_order,
        }
    }

    /// Formats the entry as an fstab line.
    pub fn to_fstab_line(&self) -> (r: String)
        ensures
            r@ == entry_line(*self),
    {
        let mut s = String::new();
        push_text(&mut s, self.fs_spec.as_str());
        push_text(&mut s, "  ");
        push_text(&mut s, escape_fstab_path(self.mount_point.as_str()).as_str());
        push_text(&mut s, "  ");
        push_text(&mut s, self.vfs_type.as_str());
        push_text(&mut s, "  ");
        push_text(&mut s, join(&self.mount_options, ",").as_str());
        push_text(&mut s, "  ");
        push_decimal(&mut s, self.dump as u64);
        push_text(&mut s, "  ");
        push_decimal(&mut s, self.fsck_order as u64);
        s
    }

    /// Parses one fstab line. Blank lines, comments and lines without
    /// exactly six fields hold no entry; a dump or pass field that is not a
    /// number of its size is an error.
    pub fn from_line(line: &str) -> (r: Result<Option<FstabEntry>, Error>)
        ensures
            is_blank_or_comment(line@) ==> r == Ok::<Option<FstabEntry>, Error>(None),
            !is_blank_or_comment(line@) && words(line@).len() != 6 ==> r == Ok::<Option<FstabEntry>, Error>(None),
            !is_blank_or_comment(line@) && words(line@).len() == 6 ==> {
                &&& !dump_ok(words(line@)[4]) ==> (r matches Err(Error::FstabParse { .. }))
                &&& dump_ok(words(line@)[4]) && !pass_ok(words(line@)[5]) ==> (r matches Err(Error::FstabParse { .. }))
                &&& dump_ok(words(line@)[4]) && pass_ok(words(line@)[5]) ==> (r matches Ok(Some(e))
                    && entry_fields_match(e, words(line@)))
            },
    {
        let cs = chars_of(line);
        let parts = split_words(&cs);
        if parts.len() == 0 {
            return Ok(None);
        }
        let first = chars_of(parts[0].as_str());
        if first.len() > 0 && first[0] == '#' {
            return Ok(None);
        }
        if parts.len() != 6 {
            return Ok(None);
        }
        let dump = match parse_bounded(parts[4].as_str(), 255) {
            Some(d) => d as u8,
            None => return Err(parse_error("dump field", line)),
        };
        let fsck_order = match parse_bounded(parts[5].as_str(), 65535) {
            Some(f) => f as u16,
            None => return Err(parse_error("fsck_order", line)),
        };
        let opts = chars_of(parts[3].as_str());
        let entry = FstabEntry {
            fs_spec: parts[0].clone(),
            mount_point: unescape_fstab_path(parts[1].as_str()),
            vfs_type: parts[2].clone(),
            mount_options: split_at_char(&opts, ','),
            dump,
            fsck_order,
        };
        Ok(Some(entry))
    }
}


// ---------------------------------------------------------------------------
// Managed block
// ---------------------------------------------------------------------------

/// The lines of a text: the pieces between newlines, without a final empty
/// piece after a closing newline.
pub open spec fn lines_of(s: Seq<char>) -> Seq<Seq<char>> {
    let p = pieces(s, '\n');
    if p.last().len() == 0 { p.drop_last() } else { p }
}

/// Where a line falls when the managed block is replaced: state after the
/// lines before `i`, given the header and footer collected so far.
pub open spec fn sections_from(
    lines: Seq<Seq<char>>,
    i: int,
    inside: bool,
    past: bool,
    header: Seq<Seq<char>>,
    footer: Seq<Seq<char>>,
) -> (Seq<Seq<char>>, Seq<Seq<char>>)
    decreases lines.len() - i,
{
    if i >= lines.len() {
        (header, footer)
    } else if trimmed(lines[i]) == MANAGED_BLOCK_BEGIN@ {
        sections_from(lines, i + 1, true, past, header, footer)
    } else if trimmed(lines[i]) == MANAGED_BLOCK_END@ {
        sections_from(lines, i + 1, false, true, header, footer)
    } else if inside {
        sections_from(lines, i + 1, inside, past, header, footer)
    } else if past {
        sections_from(lines, i + 1, inside, past, header, footer.push(lines[i]))
    } else {
        sections_from(lines, i + 1, inside, past, header.push(lines[i]), footer)
    }
}

/// The lines outside any managed block: those before it, and those after
/// its end marker.
pub open spec fn sections(content: Seq<char>) -> (Seq<Seq<char>>, Seq<Seq<char>>) {
    sections_from(lines_of(content), 0, false, false, seq![], seq![])
}

/// Each line followed by a newline.
pub open spec fn terminated(lines: Seq<Seq<char>>) -> Seq<char>
    decreases lines.len(),
{
    if lines.len() == 0 {
        seq![]
    } else {
        terminated(lines.drop_last()) + lines.last() + seq!['\n']
    }
}

/// The managed block for some entries: nothing when there are none, else
/// the begin marker, the notice, one line per entry and the end marker.
pub open spec fn managed_block(entries: Seq<FstabEntry>) -> Seq<char> {
    if entries.len() == 0 {
        seq![]
    } else {
        terminated(seq![MANAGED_BLOCK_BEGIN@, managed_block_comment()]
            + entries.map_values(|e: FstabEntry| entry_line(e))
            + seq![MANAGED_BLOCK_END@])
    }
}

/// Notice written inside the managed block.
pub open spec fn managed_block_comment() -> Seq<char> {
    "# Created by SteamOS Mount Tool. DO NOT EDIT THIS BLOCK MANUALLY."@
}

proof fn lemma_pieces_nonempty(s: Seq<char>, sep: char, i: int, cur: Seq<char>, done: Seq<Seq<char>>)
    ensures
        pieces_from(s, sep, i, cur, done).len() > 0,
    decreases s.len() - i,
{
    if i < s.len() {
        if s[i] == sep {
            lemma_pieces_nonempty(s, sep, i + 1, seq![], done.push(cur));
        } else {
            lemma_pieces_nonempty(s, sep, i + 1, cur.push(s[i]), done);
        }
    }
}

/// Splits a text into lines.
pub fn split_lines(content: &str) -> (r: Vec<String>)
    ensures
        views(r@) == lines_of(content@),
{
    let cs = chars_of(content);
    let mut p = split_at_char(&cs, '\n');
    proof {
        lemma_pieces_nonempty(content@, '\n', 0, seq![], seq![]);
    }
    let n = p.len();
    assert(n > 0 ==> views(p@).last() == p@[n - 1]@);
    if n > 0 && p[n - 1].as_str().is_empty() {
        p.pop();
        assert(views(p@) =~= pieces(content@, '\n').drop_last());
    }
    p
}

fn push_line(out: &mut String, line: &str)
    ensures
        final(out)@ == old(out)@ + line@ + seq!['\n'],
{
    push_text(out, line);
    push_char(out, '\n');
}

fn push_lines(out: &mut String, lines: &Vec<String>)
    ensures
        final(out)@ == old(out)@ + terminated(views(lines@)),
{
    let mut i: usize = 0;
    while i < lines.len()
        invariant
            i <= lines@.len(),
            out@ == old(out)@ + terminated(views(lines@.subrange(0, i as int))),
        decreases lines@.len() - i,
    {
        push_line(out, lines[i].as_str());
        proof {
            let pre = views(lines@.subrange(0, i + 1));
            assert(pre.drop_last() =~= views(lines@.subrange(0, i as int)));
            assert(pre.last() == lines@[i as int]@);
        }
        i = i + 1;
    }
    assert(lines@.subrange(0, lines@.len() as int) =~= lines@);
}

/// Replaces the managed block of fstab content with one for `entries`
/// (or removes it when there are none), keeping the lines before and after
/// it, each newline-terminated.
pub fn update_managed_entries_content(content: &str, entries: &Vec<FstabEntry>) -> (r: Result<String, Error>)
    ensures
        r is Ok,
        r->Ok_0@ == terminated(sections(content@).0) + managed_block(entries@) + terminated(sections(content@).1),
{
    let lines = split_lines(content);
    let mut header: Vec<String> = Vec::new();
    let mut footer: Vec<String> = Vec::new();
    let mut inside = false;
    let mut past = false;
    let mut i: usize = 0;
    assert(views(header@) =~= Seq::<Seq<char>>::empty());
    assert(views(footer@) =~= Seq::<Seq<char>>::empty());
    while i < lines.len()
        invariant
            i <= lines@.len(),
            views(lines@) == lines_of(content@),
            sections_from(views(lines@), i as int, inside, past, views(header@), views(footer@)) == sections(content@),
        decreases lines@.len() - i,
    {
        let t = trim(lines[i].as_str());
        proof {
            assert(views(lines@)[i as int] == lines@[i as int]@);
        }
        if text_eq(t.as_str(), MANAGED_BLOCK_BEGIN) {
            inside = true;
        } else if text_eq(t.as_str(), MANAGED_BLOCK_END) {
            inside = false;
            past = true;
        } else if inside {
        } else if past {
            push_piece(&mut footer, lines[i].clone());
        } else {
            push_piece(&mut header, lines[i].clone());
        }
        i = i + 1;
    }
    let mut out = String::new();
    push_lines(&mut out, &header);
    if entries.len() > 0 {
        let ghost before = out@;
        push_line(&mut out, MANAGED_BLOCK_BEGIN);
        push_line(&mut out, "# Created by SteamOS Mount Tool. DO NOT EDIT THIS BLOCK MANUALLY.");
        let ghost head = seq![MANAGED_BLOCK_BEGIN@, managed_block_comment()];
        proof {
            let one = seq![MANAGED_BLOCK_BEGIN@];
            assert(head.drop_last() =~= one);
            assert(one.drop_last() =~= Seq::<Seq<char>>::empty());
            assert(terminated(Seq::<Seq<char>>::empty()) =~= Seq::<char>::empty());
            assert(one.last() == MANAGED_BLOCK_BEGIN@);
            assert(terminated(one) =~= MANAGED_BLOCK_BEGIN@ + seq!['\n']);
            assert(terminated(head) =~= terminated(one) + managed_block_comment() + seq!['\n']);
            assert(out@ =~= before + terminated(head));
        }
        let mut k: usize = 0;
        while k < entries.len()
            invariant
                k <= entries@.len(),
                out@ == before + terminated(head + entries@.subrange(0, k as int).map_values(|e: FstabEntry| entry_line(e))),
            decreases entries@.len() - k,
        {
            let line = entries[k].to_fstab_line();
            push_line(&mut out, line.as_str());
            proof {
                let a = head + entries@.subrange(0, k + 1).map_values(|e: FstabEntry| entry_line(e));
                let b = head + entries@.subrange(0, k as int).map_values(|e: FstabEntry| entry_line(e));
                assert(a.drop_last() =~= b);
                assert(a.last() == entry_line(entries@[k as int]));
            }
            k = k + 1;
        }
        push_line(&mut out, MANAGED_BLOCK_END);
        proof {
            let b = head + entries@.subrange(0, entries@.len() as int).map_values(|e: FstabEntry| entry_line(e));
            let a = b + seq![MANAGED_BLOCK_END@];
            assert(a.drop_last() =~= b);
            assert(entries@.subrange(0, entries@.len() as int) =~= entries@);
            assert(out@ =~= before + managed_block(entries@));
        }
    }
    push_lines(&mut out, &footer);
    Ok(out)
}


/// An fstab file split around its managed block.
#[derive(Debug, Clone, PartialEq, Eq)]
pub struct ParsedFstab {
    /// Lines before the managed block.
    pub header_lines: Vec<String>,
    /// Entries within the managed block.
    pub managed_entries: Vec<FstabEntry>,
    /// Lines after the managed block.
    pub footer_lines: Vec<String>,
    /// Whether a managed block was found.
    pub has_managed_block: bool,
}

/// Whether a line is the notice inside the managed block.
pub open spec fn is_notice(line: Seq<char>) -> bool {
    trimmed(line).len() >= 12 && trimmed(line).subrange(0, 12) == "# Created by"@
}

/// Header lines, footer lines and whether a begin marker was seen, after
/// the lines from `i` on: lines inside a block are left out, lines outside
/// go to the footer once a begin marker has been seen, else to the header.
pub open spec fn fstab_parts_from(
    lines: Seq<Seq<char>>,
    i: int,
    inside: bool,
    found: bool,
    header: Seq<Seq<char>>,
    footer: Seq<Seq<char>>,
) -> (Seq<Seq<char>>, Seq<Seq<char>>, bool)
    decreases lines.len() - i,
{
    if i >= lines.len() {
        (header, footer, found)
    } else if trimmed(lines[i]) == MANAGED_BLOCK_BEGIN@ {
        fstab_parts_from(lines, i + 1, true, true, header, footer)
    } else if trimmed(lines[i]) == MANAGED_BLOCK_END@ {
        fstab_parts_from(lines, i + 1, false, found, header, footer)
    } else if inside {
        fstab_parts_from(lines, i + 1, inside, found, header, footer)
    } else if found {
        fstab_parts_from(lines, i + 1, inside, found, header, footer.push(lines[i]))
    } else {
        fstab_parts_from(lines, i + 1, inside, found, header.push(lines[i]), footer)
    }
}

/// Header lines, footer lines and whether a managed block was found.
pub open spec fn fstab_parts(content: Seq<char>) -> (Seq<Seq<char>>, Seq<Seq<char>>, bool) {
    fstab_parts_from(lines_of(content), 0, false, false, seq![], seq![])
}

/// Splits fstab content around its managed block: lines before the begin
/// marker form the header, entries between the markers (but for the
/// notice) are parsed, lines after the block form the footer. An entry
/// line of the block that does not parse is an error.
pub fn parse_fstab_content(content: &str) -> (r: Result<ParsedFstab, Error>)
    ensures
        r is Ok ==> (views(r->Ok_0.header_lines@), views(r->Ok_0.footer_lines@), r->Ok_0.has_managed_block)
            == fstab_parts(content@),
        r is Err ==> r->Err_0 is FstabParse,
{
    let lines = split_lines(content);
    let mut header: Vec<String> = Vec::new();
    let mut footer: Vec<String> = Vec::new();
    let mut entries: Vec<FstabEntry> = Vec::new();
    let mut inside = false;
    let mut found = false;
    let mut i: usize = 0;
    assert(views(header@) =~= Seq::<Seq<char>>::empty());
    assert(views(footer@) =~= Seq::<Seq<char>>::empty());
    while i < lines.len()
        invariant
            i <= lines@.len(),
            views(lines@) == lines_of(content@),
            fstab_parts_from(views(lines@), i as int, inside, found, views(header@), views(footer@)) == fstab_parts(content@),
        decreases lines@.len() - i,
    {
        let t = trim(lines[i].as_str());
        assert(views(lines@)[i as int] == lines@[i as int]@);
        if text_eq(t.as_str(), MANAGED_BLOCK_BEGIN) {
            inside = true;
            found = true;
        } else if text_eq(t.as_str(), MANAGED_BLOCK_END) {
            inside = false;
        } else if inside {
            let notice = crate::text::strip_prefix(t.as_str(), "# Created by");
            if notice.is_none() {
                match FstabEntry::from_line(lines[i].as_str()) {
                    Ok(Some(e)) => entries.push(e),
                    Ok(None) => {},
                    Err(e) => return Err(e),
                }
            }
        } else if found {
            push_piece(&mut footer, lines[i].clone());
        } else {
            push_piece(&mut header, lines[i].clone());
        }
        i = i + 1;
    }
    Ok(ParsedFstab { header_lines: header, managed_entries: entries, footer_lines: footer, has_managed_block: found })
}

/// The backup path for an fstab file: `<path>.backup.<timestamp>`.
pub fn backup_path(path: &str, timestamp: u64) -> (r: String)
    ensures
        r@ == path@ + ".backup."@ + decimal(timestamp as nat),
{
    let mut s = String::new();
    push_text(&mut s, path);
    push_text(&mut s, ".backup.");
    push_decimal(&mut s, timestamp);
    s
}

/// Relies on dirs::home_dir: the current user's home directory, if it can
/// be determined; it depends on the environment.
#[verifier::external_body]
fn home_dir() -> (r: Option<String>) {
    dirs::home_dir().map(|p| p.to_string_lossy().to_string())
}

/// `dir` and `name` joined with one `/`, or `name` itself when absolute.
pub open spec fn path_join(dir: Seq<char>, name: Seq<char>) -> Seq<char> {
    if name.len() > 0 && name[0] == '/' {
        name
    } else if dir.len() > 0 && dir.last() == '/' {
        dir + name
    } else {
        dir + "/"@ + name
    }
}

/// Joins a directory and a name as a path.
pub fn join_path(dir: &str, name: &str) -> (r: String)
    ensures
        r@ == path_join(dir@, name@),
{
    let n = chars_of(name);
    if n.len() > 0 && n[0] == '/' {
        return name.to_string();
    }
    let d = chars_of(dir);
    let mut s = String::new();
    push_text(&mut s, dir);
    if !(d.len() > 0 && d[d.len() - 1] == '/') {
        push_text(&mut s, "/");
    }
    push_text(&mut s, name);
    s
}

/// The base directory for mount points: `Drives` in a home directory.
pub fn mount_base_in(home: &str) -> (r: String)
    ensures
        r@ == path_join(home@, "Drives"@),
{
    join_path(home, "Drives")
}

/// The base directory for mount points, `~/Drives`.
pub fn default_mount_base() -> (r: Result<String, Error>)
    ensures
        r is Err ==> r->Err_0 is HomeDirNotFound,
{
    match home_dir() {
        Some(h) => Ok(mount_base_in(h.as_str())),
        None => Err(Error::HomeDirNotFound),
    }
}

/// The mount point for a mount name, under the base directory.
pub fn generate_mount_point(mount_name: &str) -> (r: Result<String, Error>)
    ensures
        r is Err ==> r->Err_0 is HomeDirNotFound,
{
    match default_mount_base() {
        Ok(base) => Ok(join_path(base.as_str(), mount_name)),
        Err(e) => Err(e),
    }
}


/// Backs up an fstab file through an execution context: the copy goes to
/// [`backup_path`], with whatever work the context leaves to the caller.
pub fn backup_fstab_with_ctx<S: crate::executor::DaemonSpawner>(
    path: &str,
    timestamp: u64,
    ctx: &mut crate::executor::ExecutionContext<S>,
) -> (r: Result<(String, crate::executor::Pending), Error>)
    ensures
        r matches Ok((b, _)) ==> b@ == path@ + ".backup."@ + decimal(timestamp as nat),
        final(ctx).escalation() == old(ctx).escalation(),
        crate::executor::is_session_mode(old(ctx).escalation()) && !old(ctx).has_session() && !old(ctx).has_spawner()
            ==> r is Err,
{
    let backup = backup_path(path, timestamp);
    match ctx.copy_file_privileged(path, backup.as_str()) {
        Ok(p) => Ok((backup, p)),
        Err(e) => Err(e),
    }
}

} // verus!
