//! Recognition of the prefix that a Windows-style path may begin with, and
//! the absoluteness test built on it.
//!
//! A path is *absolute* when it carries a recognized prefix and is rooted.
//! A plain disk designator (`C:`) is rooted only when a separator follows it;
//! every other prefix kind roots the path by itself.

use vstd::prelude::*;
use vstd::string::StrSliceExecFns;

verus! {

/// The kind of prefix a path begins with.
///
/// Only the two disk-designator kinds can be re-encoded into the portable
/// `"<letter>:"` form; the remaining kinds make resolution fail.
#[derive(Clone, Copy, Debug)]
pub enum PrefixKind {
    /// No recognized prefix.
    NoPrefix,
    /// `X:` — a plain disk designator carrying its drive letter.
    Disk(char),
    /// `\\?\X:` — a verbatim disk designator carrying its drive letter.
    VerbatimDisk(char),
    /// `\\server\share` — a UNC share.
    Unc,
    /// `\\.\device` — a device path.
    Device,
    /// `\\?\UNC\server\share` — a verbatim UNC share.
    VerbatimUnc,
    /// `\\?\anything` — a verbatim path that is no disk designator.
    Verbatim,
}

/// Separator characters of non-verbatim paths.
pub open spec fn is_sep(c: char) -> bool {
    c == '\\' || c == '/'
}

/// ASCII letters, the only characters accepted as drive letters.
pub open spec fn is_drive_letter(c: char) -> bool {
    ('a' as u32 <= c as u32 && c as u32 <= 'z' as u32) || ('A' as u32 <= c as u32 && c as u32
        <= 'Z' as u32)
}

/// The kind of a verbatim prefix, decided by what follows the `\\?\` marker.
///
/// `rest` is the text after the marker. Within a verbatim prefix only `\`
/// separates, so `C:` names a disk exactly when it fills the first chunk.
pub open spec fn spec_verbatim_kind(rest: Seq<char>) -> PrefixKind {
    if rest.len() >= 4 && rest[0] == 'U' && rest[1] == 'N' && rest[2] == 'C' && rest[3] == '\\' {
        PrefixKind::VerbatimUnc
    } else if rest.len() >= 2 && is_drive_letter(rest[0]) && rest[1] == ':' && (rest.len() == 2
        || rest[2] == '\\') {
        PrefixKind::VerbatimDisk(rest[0])
    } else {
        PrefixKind::Verbatim
    }
}

/// The kind of prefix that `s` begins with.
///
/// A verbatim marker must be written with backslashes; the other double-sep
/// forms accept either separator. A single letter followed by `:` is a disk
/// designator.
pub open spec fn spec_prefix(s: Seq<char>) -> PrefixKind {
    if s.len() >= 4 && s[0] == '\\' && s[1] == '\\' && s[2] == '?' && s[3] == '\\' {
        spec_verbatim_kind(s.skip(4))
    } else if s.len() >= 4 && is_sep(s[0]) && is_sep(s[1]) && s[2] == '.' && is_sep(s[3]) {
        PrefixKind::Device
    } else if s.len() >= 2 && is_sep(s[0]) && is_sep(s[1]) {
        PrefixKind::Unc
    } else if s.len() >= 2 && is_drive_letter(s[0]) && s[1] == ':' {
        PrefixKind::Disk(s[0])
    } else {
        PrefixKind::NoPrefix
    }
}

/// Whether `s` is rooted: a disk designator must be followed by a separator,
/// any other prefix roots the path implicitly, and without a prefix a leading
/// separator is the root.
pub open spec fn spec_has_root(s: Seq<char>) -> bool {
    match spec_prefix(s) {
        PrefixKind::NoPrefix => s.len() > 0 && is_sep(s[0]),
        PrefixKind::Disk(_) => s.len() > 2 && is_sep(s[2]),
        _ => true,
    }
}

/// Whether `s` is absolute: it has a prefix and is rooted.
pub open spec fn spec_is_absolute(s: Seq<char>) -> bool {
    !(spec_prefix(s) is NoPrefix) && spec_has_root(s)
}

/// Whether the character at `i` is a separator.
fn sep_at(s: &str, i: usize) -> (b: bool)
    requires
        i < s@.len(),
    ensures
        b == is_sep(s@[i as int]),
{
    let c = s.get_char(i);
    c == '\\' || c == '/'
}

/// Whether the character at `i` is a drive letter.
fn drive_letter_at(s: &str, i: usize) -> (b: bool)
    requires
        i < s@.len(),
    ensures
        b == is_drive_letter(s@[i as int]),
{
    let c = s.get_char(i) as u32;
    ('a' as u32 <= c && c <= 'z' as u32) || ('A' as u32 <= c && c <= 'Z' as u32)
}

/// The kind of verbatim prefix of `s`, which begins with the `\\?\` marker.
fn verbatim_kind_of(s: &str, n: usize) -> (k: PrefixKind)
    requires
        s@.len() >= 4,
        n == s@.len(),
    ensures
        k == spec_verbatim_kind(s@.skip(4)),
{
    let ghost rest = s@.skip(4);
    assert(forall|i: int| 0 <= i < rest.len() ==> rest[i] == s@[i + 4]);
    if n >= 8 && s.get_char(4) == 'U' && s.get_char(5) == 'N' && s.get_char(6) == 'C'
        && s.get_char(7) == '\\' {
        PrefixKind::VerbatimUnc
    } else if n >= 6 && drive_letter_at(s, 4) && s.get_char(5) == ':' && (n == 6 || s.get_char(6)
        == '\\') {
        PrefixKind::VerbatimDisk(s.get_char(4))
    } else {
        PrefixKind::Verbatim
    }
}

/// The kind of prefix that `s` begins with.
pub fn prefix_of(s: &str) -> (k: PrefixKind)
    ensures
        k == spec_prefix(s@),
{
    let n = s.unicode_len();
    if n >= 4 && s.get_char(0) == '\\' && s.get_char(1) == '\\' && s.get_char(2) == '?'
        && s.get_char(3) == '\\' {
        verbatim_kind_of(s, n)
    } else if n >= 4 && sep_at(s, 0) && sep_at(s, 1) && s.get_char(2) == '.' && sep_at(s, 3) {
        PrefixKind::Device
    } else if n >= 2 && sep_at(s, 0) && sep_at(s, 1) {
        PrefixKind::Unc
    } else if n >= 2 && drive_letter_at(s, 0) && s.get_char(1) == ':' {
        PrefixKind::Disk(s.get_char(0))
    } else {
        PrefixKind::NoPrefix
    }
}

/// Joining any path onto an absolute base behind a `\` keeps the result
/// absolute: the base's prefix reaches no further than the joined separator,
/// so the join can neither lose the prefix nor unroot the path.
pub proof fn lemma_join_absolute(c: Seq<char>, r: Seq<char>)
    requires
        spec_is_absolute(c),
    ensures
        spec_is_absolute(c + seq!['\\'] + r),
{
    let j = c + seq!['\\'] + r;
    assert(j.len() == c.len() + 1 + r.len());
    assert(forall|i: int| 0 <= i < c.len() ==> j[i] == c[i]);
    assert(j[c.len() as int] == '\\');
    match spec_prefix(c) {
        PrefixKind::NoPrefix => {
            assert(false);
        },
        PrefixKind::Disk(l) => {
            assert(spec_prefix(j) == PrefixKind::Disk(l));
            assert(spec_has_root(j));
        },
        _ => {
            assert(is_sep(c[0]) && is_sep(c[1]));
            assert(!(spec_prefix(j) is NoPrefix) && !(spec_prefix(j) is Disk));
        },
    }
}

/// Whether `s` is an absolute path.
pub fn is_absolute(s: &str) -> (b: bool)
    ensures
        b == spec_is_absolute(s@),
{
    let k = prefix_of(s);
    match k {
        PrefixKind::NoPrefix => false,
        PrefixKind::Disk(_) => {
            let n = s.unicode_len();
            n > 2 && sep_at(s, 2)
        },
        _ => true,
    }
}

} // verus!
