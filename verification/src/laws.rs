//! Properties of resolution, stated and proved over the same specification
//! functions that the resolver's contracts use.

use vstd::prelude::*;

use crate::Error;
use crate::prefix::{
    PrefixKind,
    is_drive_letter,
    is_sep,
    spec_is_absolute,
    spec_prefix,
};
use crate::reencode_outcome;
use crate::segments::{spec_encode, spec_encode_segs, spec_segments};
use crate::spec_join;
use crate::unsupported_kind;

verus! {

/// The serialized segment list begins with its first `\`.
proof fn lemma_encode_segs_head(segs: Seq<Seq<char>>)
    requires
        segs.len() > 0,
    ensures
        spec_encode_segs(segs).len() >= 1,
        spec_encode_segs(segs)[0] == '\\',
    decreases segs.len(),
{
    let e = spec_encode_segs(segs);
    if segs.len() == 1 {
        assert(spec_encode_segs(segs.drop_last()).len() == 0);
        assert(e[0] == '\\');
    } else {
        lemma_encode_segs_head(segs.drop_last());
        assert(e[0] == spec_encode_segs(segs.drop_last())[0]);
    }
}

/// A serialized path begins with its drive designator and the root: the
/// letter, `:`, then `\`.
proof fn lemma_encode_starts(letter: char, segs: Seq<Seq<char>>)
    ensures
        spec_encode(letter, segs).len() >= 3,
        spec_encode(letter, segs)[0] == letter,
        spec_encode(letter, segs)[1] == ':',
        spec_encode(letter, segs)[2] == '\\',
{
    if segs.len() > 0 {
        lemma_encode_segs_head(segs);
    }
}

/// A serialized path under a drive letter is itself absolute, with that
/// letter as its plain disk designator.
proof fn lemma_encoded_absolute(letter: char, segs: Seq<Seq<char>>)
    requires
        is_drive_letter(letter),
    ensures
        spec_prefix(spec_encode(letter, segs)) == PrefixKind::Disk(letter),
        spec_is_absolute(spec_encode(letter, segs)),
{
    lemma_encode_starts(letter, segs);
    let e = spec_encode(letter, segs);
    assert(!is_sep(e[0]));
    assert(spec_prefix(e) == PrefixKind::Disk(letter));
}

/// Every path that re-encoding hands back is absolute, so handing it back
/// in as the path to resolve returns it unchanged.
pub proof fn lemma_reencoded_is_absolute(p: Seq<char>, res: Result<String, Error>)
    requires
        spec_is_absolute(p),
        reencode_outcome(p, res),
    ensures
        res matches Ok(q) ==> spec_is_absolute(q@),
{
    match spec_prefix(p) {
        PrefixKind::Disk(l) => {
            lemma_encoded_absolute(l, spec_segments(p.skip(2), false));
        },
        PrefixKind::VerbatimDisk(l) => {
            assert(is_drive_letter(p.skip(4)[0]));
            lemma_encoded_absolute(l, spec_segments(p.skip(6), true));
        },
        _ => {},
    }
}

/// Re-encoding a canonical path under a disk designator, plain or verbatim,
/// always succeeds and preserves the drive designator exactly: the same
/// letter, in the same case the environment reported, as the result's first
/// two characters, with the root behind them.
pub proof fn lemma_reencode_preserves_drive(p: Seq<char>, res: Result<String, Error>, l: char)
    requires
        spec_prefix(p) == PrefixKind::Disk(l) || spec_prefix(p) == PrefixKind::VerbatimDisk(l),
        reencode_outcome(p, res),
    ensures
        res matches Ok(q) && q@.len() >= 3 && q@[0] == l && q@[1] == ':' && q@[2] == '\\',
        res matches Ok(q) && spec_is_absolute(q@),
{
    if spec_prefix(p) == PrefixKind::Disk(l) {
        let segs = spec_segments(p.skip(2), false);
        lemma_encode_starts(l, segs);
        lemma_encoded_absolute(l, segs);
    } else {
        assert(is_drive_letter(p.skip(4)[0]));
        let segs = spec_segments(p.skip(6), true);
        lemma_encode_starts(l, segs);
        lemma_encoded_absolute(l, segs);
    }
}

/// A base whose prefix is a UNC share, a device path, or a non-disk verbatim
/// form is always absolute: every such prefix roots the path implicitly.
pub proof fn lemma_unsupported_base_is_absolute(current: Seq<char>)
    requires
        unsupported_kind(spec_prefix(current)),
    ensures
        spec_is_absolute(current),
{
}

/// The join handed to canonicalization keeps an unsupported prefix
/// unsupported, so no canonical disk path can come back from the
/// environment for it under its own spelling. The one base this does not
/// hold of is the bare `\\?`, which the joined separator turns into a
/// verbatim marker.
pub proof fn lemma_join_keeps_unsupported(current: Seq<char>, relative: Seq<char>)
    requires
        unsupported_kind(spec_prefix(current)),
        current != seq!['\\', '\\', '?'],
    ensures
        unsupported_kind(spec_prefix(spec_join(current, relative))),
{
    let c = current;
    let j = spec_join(current, relative);
    assert(j.len() == c.len() + 1 + relative.len());
    assert(forall|i: int| 0 <= i < c.len() ==> j[i] == c[i]);
    assert(j[c.len() as int] == '\\');
    let rest_c = c.skip(4);
    let rest_j = j.skip(4);
    if c.len() >= 4 {
        assert(forall|i: int| 0 <= i < rest_c.len() ==> rest_j[i] == rest_c[i]);
        assert(rest_j.len() == rest_c.len() + 1 + relative.len());
        assert(rest_j[rest_c.len() as int] == '\\');
    }
    match spec_prefix(c) {
        PrefixKind::Device => {
            assert(spec_prefix(j) == PrefixKind::Device);
        },
        PrefixKind::VerbatimUnc => {
            assert(spec_prefix(j) == PrefixKind::VerbatimUnc);
        },
        PrefixKind::Verbatim => {
            if rest_c.len() == 0 {
                assert(rest_j[0] == '\\');
            } else if rest_c.len() == 1 {
                assert(rest_j[1] == '\\');
            }
            assert(!(spec_prefix(j) is VerbatimDisk));
            assert(unsupported_kind(spec_prefix(j)));
        },
        PrefixKind::Unc => {
            if c.len() == 2 {
                assert(j[2] == '\\');
            } else if c.len() == 3 {
                if c[0] == '\\' && c[1] == '\\' && c[2] == '?' {
                    assert(c =~= seq!['\\', '\\', '?']);
                    assert(false);
                }
            }
            assert(!(j.len() >= 4 && j[0] == '\\' && j[1] == '\\' && j[2] == '?' && j[3] == '\\'));
            assert(unsupported_kind(spec_prefix(j)));
        },
        _ => {
            assert(false);
        },
    }
}

/// A canonical path under an unsupported prefix is rejected with
/// `UnsupportedPrefix`, however well-formed its segments: re-encoding
/// produces no partial result.
pub proof fn lemma_unsupported_canonical_rejected(p: Seq<char>, res: Result<String, Error>)
    requires
        unsupported_kind(spec_prefix(p)),
        reencode_outcome(p, res),
    ensures
        res matches Err(e) && e is UnsupportedPrefix,
{
}

} // verus!
