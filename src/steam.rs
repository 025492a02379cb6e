//! Steam library folders, as Steam's `libraryfolders.vdf` lists them.

use vstd::prelude::*;
use crate::error::Error;
use crate::fstab::{all_digits, is_digit, parse_bounded, parse_unsigned};
use crate::text::{trimmed_end, chars_of, decimal, push_decimal, push_text, string_of};

verus! {

/// One Steam library folder.
#[derive(Debug, Clone, PartialEq, Eq)]
pub struct LibraryFolder {
    /// Path to the library folder.
    pub path: String,
    /// Label of the library.
    pub label: String,
    /// Content id (typically `0` for custom folders).
    pub contentid: String,
    /// Total size (typically `0` for custom folders).
    pub totalsize: String,
    /// App ids with their sizes.
    pub apps: Vec<(String, String)>,
}

/// The views of an app list.
pub open spec fn app_views(apps: Seq<(String, String)>) -> Seq<(Seq<char>, Seq<char>)> {
    apps.map_values(|a: (String, String)| (a.0@, a.1@))
}

impl LibraryFolder {
    /// A field-by-field copy.
    pub fn copy(&self) -> (r: LibraryFolder)
        ensures
            r.path@ == self.path@,
            r.label@ == self.label@,
            r.contentid@ == self.contentid@,
            r.totalsize@ == self.totalsize@,
            app_views(r.apps@) == app_views(self.apps@),
    {
        let mut apps: Vec<(String, String)> = Vec::new();
        let mut i: usize = 0;
        while i < self.apps.len()
            invariant
                i <= self.apps@.len(),
                app_views(apps@) == app_views(self.apps@.subrange(0, i as int)),
            decreases self.apps@.len() - i,
        {
            let a = self.apps[i].0.clone();
            let b = self.apps[i].1.clone();
            let ghost before = apps@;
            apps.push((a, b));
            proof {
                assert(app_views(apps@) =~= app_views(before).push((self.apps@[i as int].0@, self.apps@[i as int].1@)));
                assert(app_views(self.apps@.subrange(0, i + 1)) =~= app_views(self.apps@.subrange(0, i as int)).push((self.apps@[i as int].0@, self.apps@[i as int].1@)));
            }
            i = i + 1;
        }
        assert(self.apps@.subrange(0, self.apps@.len() as int) =~= self.apps@);
        LibraryFolder {
            path: self.path.clone(),
            label: self.label.clone(),
            contentid: self.contentid.clone(),
            totalsize: self.totalsize.clone(),
            apps,
        }
    }
}


/// Whether a library id is numeric: every character an ASCII digit.
pub fn is_numeric_id(id: &str) -> (r: bool)
    ensures
        r == all_digits(id@),
{
    let cs = chars_of(id);
    let mut i: usize = 0;
    while i < cs.len()
        invariant
            i <= cs@.len(),
            cs@ == id@,
            forall|k: int| 0 <= k < i ==> #[trigger] is_digit(cs@[k]),
        decreases cs@.len() - i,
    {
        let u = cs[i] as u32;
        if !(48 <= u && u <= 57) {
            assert(!is_digit(cs@[i as int]));
            return false;
        }
        i = i + 1;
    }
    true
}

/// The order key of a library id: its value when it is a 32-bit number,
/// else 0.
pub open spec fn id_key(id: Seq<char>) -> nat {
    match parse_unsigned(id) {
        Some(v) => if v <= 0xffff_ffff { v } else { 0 },
        None => 0,
    }
}

fn key_of(id: &str) -> (r: u64)
    ensures
        r as nat == id_key(id@),
{
    match parse_bounded(id, 0xffff_ffff) {
        Some(v) => v,
        None => 0,
    }
}

/// The library folders with numeric ids, ordered by id value; folders with
/// equal keys keep their order.
pub fn select_library_folders(folders: Vec<(String, LibraryFolder)>) -> (r: Vec<(String, LibraryFolder)>)
    ensures
        forall|k: int| 0 <= k < r@.len() ==> all_digits(#[trigger] r@[k].0@),
        forall|a: int, b: int| 0 <= a < b < r@.len() ==> id_key(#[trigger] r@[a].0@) <= id_key(#[trigger] r@[b].0@),
        r@.len() == folders@.filter(|f: (String, LibraryFolder)| all_digits(f.0@)).len(),
{
    let mut out: Vec<(String, LibraryFolder)> = Vec::new();
    let mut keys: Vec<u64> = Vec::new();
    let mut i: usize = 0;
    while i < folders.len()
        invariant
            i <= folders@.len(),
            keys@.len() == out@.len(),
            forall|k: int| 0 <= k < out@.len() ==> keys@[k] as nat == id_key(#[trigger] out@[k].0@),
            forall|k: int| 0 <= k < out@.len() ==> all_digits(#[trigger] out@[k].0@),
            forall|a: int, b: int| 0 <= a < b < out@.len() ==> id_key(#[trigger] out@[a].0@) <= id_key(#[trigger] out@[b].0@),
            out@.len() == folders@.subrange(0, i as int).filter(|f: (String, LibraryFolder)| all_digits(f.0@)).len(),
        decreases folders@.len() - i,
    {
        proof {
            let pre = folders@.subrange(0, i + 1);
            assert(pre.drop_last() =~= folders@.subrange(0, i as int));
            reveal(Seq::filter);
        }
        if is_numeric_id(folders[i].0.as_str()) {
            let key = key_of(folders[i].0.as_str());
            let mut pos: usize = 0;
            while pos < keys.len() && keys[pos] <= key
                invariant
                    pos <= keys@.len(),
                    keys@.len() == out@.len(),
                    forall|k: int| 0 <= k < pos ==> keys@[k] <= key,
                decreases keys@.len() - pos,
            {
                pos = pos + 1;
            }
            proof {
                assert forall|k: int| pos <= k < out@.len() implies key as nat <= id_key(#[trigger] out@[k].0@) by {
                    if pos < out@.len() {
                        assert(keys@[pos as int] > key);
                        assert(id_key(out@[pos as int].0@) <= id_key(out@[k].0@) || k == pos);
                    }
                }
            }
            let ghost old_out = out@;
            let ghost old_keys = keys@;
            let item = (folders[i].0.clone(), folders[i].1.copy());
            assert(item.0@ == folders@[i as int].0@);
            out.insert(pos, item);
            keys.insert(pos, key);
            proof {
                assert forall|k: int| 0 <= k < out@.len() implies keys@[k] as nat == id_key(#[trigger] out@[k].0@) by {
                    if k < pos {
                        assert(out@[k] == old_out[k]);
                    } else if k > pos {
                        assert(out@[k] == old_out[k - 1]);
                    }
                }
                assert forall|k: int| 0 <= k < out@.len() implies all_digits(#[trigger] out@[k].0@) by {
                    if k < pos {
                        assert(out@[k] == old_out[k]);
                    } else if k > pos {
                        assert(out@[k] == old_out[k - 1]);
                    }
                }
                assert forall|a: int, b: int| 0 <= a < b < out@.len() implies id_key(#[trigger] out@[a].0@) <= id_key(#[trigger] out@[b].0@) by {
                    let ka = if a < pos { old_out[a] } else if a == pos { item } else { old_out[a - 1] };
                    let kb = if b < pos { old_out[b] } else if b == pos { item } else { old_out[b - 1] };
                    assert(out@[a] == ka);
                    assert(out@[b] == kb);
                    if a < pos && b == pos {
                        assert(old_keys[a] <= key);
                        assert(old_keys[a] as nat == id_key(old_out[a].0@));
                    }
                    if a == pos && b > pos {
                        assert(key as nat <= id_key(old_out[b - 1].0@));
                    }
                }
            }
        }
        i = i + 1;
    }
    assert(folders@.subrange(0, folders@.len() as int) =~= folders@);
    out
}

/// The id for a new library folder: one more than the largest 32-bit
/// numeric id, or 1 when there is none.
pub fn next_library_id(folders: &Vec<(String, LibraryFolder)>) -> (r: u64)
    ensures
        forall|k: int| 0 <= k < folders@.len() && parse_unsigned(#[trigger] folders@[k].0@) is Some
            && parse_unsigned(folders@[k].0@)->Some_0 <= 0xffff_ffff ==> parse_unsigned(folders@[k].0@)->Some_0 < r,
        r == 1 || exists|k: int| 0 <= k < folders@.len() && parse_unsigned(#[trigger] folders@[k].0@) == Some((r - 1) as nat),
{
    let mut best: u64 = 0;
    let mut found = false;
    let mut i: usize = 0;
    while i < folders.len()
        invariant
            i <= folders@.len(),
            best <= 0xffff_ffff,
            forall|k: int| 0 <= k < i && parse_unsigned(#[trigger] folders@[k].0@) is Some
                && parse_unsigned(folders@[k].0@)->Some_0 <= 0xffff_ffff ==> parse_unsigned(folders@[k].0@)->Some_0 <= best,
            found ==> exists|k: int| 0 <= k < i && parse_unsigned(#[trigger] folders@[k].0@) == Some(best as nat),
            !found ==> best == 0,
            !found ==> forall|k: int| 0 <= k < i ==> !(parse_unsigned(#[trigger] folders@[k].0@) is Some
                && parse_unsigned(folders@[k].0@)->Some_0 <= 0xffff_ffff),
        decreases folders@.len() - i,
    {
        match parse_bounded(folders[i].0.as_str(), 0xffff_ffff) {
            Some(v) => {
                if !found || v > best {
                    best = v;
                }
                found = true;
            },
            None => {},
        }
        i = i + 1;
    }
    if found { best + 1 } else { 1 }
}

/// The VDF text of a new library folder entry.
pub open spec fn library_entry(id: u64, path: Seq<char>, label: Seq<char>) -> Seq<char> {
    "\t\""@ + decimal(id as nat) + "\"\n\t{\n\t\t\"path\"\t\t\""@ + path
        + "\"\n\t\t\"label\"\t\t\""@ + label
        + "\"\n\t\t\"contentid\"\t\t\"0\"\n\t\t\"totalsize\"\t\t\"0\"\n\t\t\"apps\"\n\t\t{\n\t\t}\n\t}"@
}

/// Relies on str::trim_end: trailing characters with the Unicode
/// White_Space property are removed.
#[verifier::external_body]
fn trim_end(s: &str) -> (r: String)
    ensures
        r@ == trimmed_end(s@),
{
    s.trim_end().to_string()
}

/// Position of the last `}` in a text.
pub open spec fn is_last_brace(s: Seq<char>, p: int) -> bool {
    0 <= p < s.len() && s[p] == '}' && forall|k: int| p < k < s.len() ==> s[k] != '}'
}

/// Adds a library folder entry to VDF text, before its final closing
/// brace; text without a closing brace is an error.
pub fn insert_library_entry(content: &str, id: u64, mount_path: &str, label: &str) -> (r: Result<String, Error>)
    ensures
        (forall|k: int| 0 <= k < content@.len() ==> content@[k] != '}') ==> r matches Err(Error::VdfParse { .. }),
        r is Ok ==> exists|p: int| is_last_brace(content@, p) && r->Ok_0@ == trimmed_end(content@.subrange(0, p))
            + "\n"@ + library_entry(id, mount_path@, label@) + "\n"@ + content@.subrange(p, content@.len() as int),
{
    let cs = chars_of(content);
    let mut p: usize = cs.len();
    while p > 0 && cs[p - 1] != '}'
        invariant
            p <= cs@.len(),
            cs@ == content@,
            forall|k: int| p <= k < cs@.len() ==> cs@[k] != '}',
        decreases p,
    {
        p = p - 1;
    }
    if p == 0 {
        return Err(Error::VdfParse { message: "Could not find closing brace in VDF file".to_string() });
    }
    let pos = p - 1;
    let mut before: Vec<char> = Vec::new();
    let mut i: usize = 0;
    while i < pos
        invariant
            i <= pos < cs@.len(),
            before@ == cs@.subrange(0, i as int),
        decreases pos - i,
    {
        before.push(cs[i]);
        i = i + 1;
        assert(before@ =~= cs@.subrange(0, i as int));
    }
    let mut after: Vec<char> = Vec::new();
    let mut j: usize = pos;
    while j < cs.len()
        invariant
            pos <= j <= cs@.len(),
            after@ == cs@.subrange(pos as int, j as int),
        decreases cs@.len() - j,
    {
        after.push(cs[j]);
        j = j + 1;
        assert(after@ =~= cs@.subrange(pos as int, j as int));
    }
    let head = string_of(&before);
    let tail = string_of(&after);
    let mut out = trim_end(head.as_str());
    push_text(&mut out, "\n");
    push_text(&mut out, "\t\"");
    push_decimal(&mut out, id);
    push_text(&mut out, "\"\n\t{\n\t\t\"path\"\t\t\"");
    push_text(&mut out, mount_path);
    push_text(&mut out, "\"\n\t\t\"label\"\t\t\"");
    push_text(&mut out, label);
    push_text(&mut out, "\"\n\t\t\"contentid\"\t\t\"0\"\n\t\t\"totalsize\"\t\t\"0\"\n\t\t\"apps\"\n\t\t{\n\t\t}\n\t}");
    push_text(&mut out, "\n");
    push_text(&mut out, tail.as_str());
    assert(is_last_brace(content@, pos as int));
    assert(out@ =~= trimmed_end(content@.subrange(0, pos as int)) + "\n"@ + library_entry(id, mount_path@, label@) + "\n"@
        + content@.subrange(pos as int, content@.len() as int));
    Ok(out)
}

} // verus!
