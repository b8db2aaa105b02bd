use vstd::prelude::*;
use vstd::string::StrSliceExecFns;
use vstd::string::StringExecFns;

verus! {

pub open spec fn is_ascii_alpha(c: char) -> bool {
    ('a' <= c && c <= 'z') || ('A' <= c && c <= 'Z')
}

/// ASCII upper case of `c`; every other character is left as it is.
pub open spec fn ascii_upper(c: char) -> char {
    if 'a' <= c && c <= 'z' {
        (((c as u32) - 32) as u8) as char
    } else {
        c
    }
}

/// Position of the drive letter of a Windows path: `X:...` (a disk prefix)
/// or `\\?\X:` followed by nothing or a backslash (a verbatim disk prefix).
pub open spec fn drive_letter_at(p: Seq<char>) -> Option<int> {
    if p.len() >= 6 && p[0] == '\\' && p[1] == '\\' && p[2] == '?' && p[3] == '\\'
        && is_ascii_alpha(p[4]) && p[5] == ':' && (p.len() == 6 || p[6] == '\\') {
        Some(4)
    } else if p.len() >= 2 && is_ascii_alpha(p[0]) && p[1] == ':' {
        Some(0)
    } else {
        None
    }
}

/// The path with the drive letter of its prefix in upper case, if it has one.
pub open spec fn patched_path(p: Seq<char>) -> Seq<char> {
    match drive_letter_at(p) {
        Some(i) => p.update(i, ascii_upper(p[i])),
        None => p,
    }
}

/// Relies on `String::push`: the character is appended at the end.
#[verifier::external_body]
fn push_char(s: &mut String, c: char)
    ensures
        final(s)@ == old(s)@.push(c),
{
    s.push(c)
}

fn to_ascii_upper(c: char) -> (r: char)
    ensures
        r == ascii_upper(c),
{
    if 'a' <= c && c <= 'z' {
        (((c as u32) - 32) as u8) as char
    } else {
        c
    }
}

fn drive_letter_index(p: &str) -> (r: Option<usize>)
    ensures
        match r {
            Some(i) => drive_letter_at(p@) == Some(i as int),
            None => drive_letter_at(p@) is None,
        },
{
    let n = p.unicode_len();
    if n >= 6 && p.get_char(0) == '\\' && p.get_char(1) == '\\' && p.get_char(2) == '?'
        && p.get_char(3) == '\\' && {
        let c = p.get_char(4);
        ('a' <= c && c <= 'z') || ('A' <= c && c <= 'Z')
    } && p.get_char(5) == ':' && (n == 6 || p.get_char(6) == '\\') {
        Some(4)
    } else if n >= 2 && {
        let c = p.get_char(0);
        ('a' <= c && c <= 'z') || ('A' <= c && c <= 'Z')
    } && p.get_char(1) == ':' {
        Some(0)
    } else {
        None
    }
}

/// On Windows (`windows`), puts the drive letter of a path in upper case
/// (`c:\foo` becomes `C:\foo`, `\\?\c:\foo` becomes `\\?\C:\foo`), so that
/// one directory is always spelt the same way. Any other path, and every path
/// elsewhere, comes back unchanged.
pub fn patch_path_prefix(path: String, windows: bool) -> (r: String)
    ensures
        r@ == if windows {
            patched_path(path@)
        } else {
            path@
        },
{
    if !windows {
        return path;
    }
    match drive_letter_index(path.as_str()) {
        None => path,
        Some(i) => {
            let s = path.as_str();
            let n = s.unicode_len();
            let mut out = String::from_str(s.substring_char(0, i));
            push_char(&mut out, to_ascii_upper(s.get_char(i)));
            out.append(s.substring_char(i + 1, n));
            assert(out@ =~= patched_path(path@));
            out
        }
    }
}

} // verus!
