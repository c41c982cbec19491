//! Resolution of a possibly-relative Windows-style path against a base
//! directory, into a normalized absolute path.
//!
//! Resolution has three steps, and the middle one belongs to the
//! environment, not to this library: the filesystem's canonicalization
//! facility, which requires the target to exist and resolves `.`, `..` and
//! symbolic links. This library verifies the two steps around it.
//! [`to_absolute`] decides what there is to decide before that call: an
//! already-absolute path is the result as it stands; a relative path needs
//! an absolute base, or resolution fails; otherwise the two are joined and
//! the joined path is handed back for the environment to canonicalize.
//! [`reencode_canonical`] then takes the canonical path the environment
//! returned and re-encodes it component by component: a disk designator,
//! plain or verbatim, becomes the portable two-character `"<letter>:"`
//! token; every other prefix kind — UNC shares, device paths, other
//! verbatim forms — is rejected; the remaining components pass through
//! unchanged, in order. The caller runs the pipeline, wrapping a failure of
//! the environment's call as [`Error::IoError`] with its message.

use vstd::prelude::*;
use vstd::string::StringExecFns;

pub mod laws;
pub mod prefix;
pub mod segments;

use crate::prefix::{
    PrefixKind,
    is_absolute,
    lemma_join_absolute,
    prefix_of,
    spec_is_absolute,
    spec_prefix,
};
use crate::segments::{encode_path, spec_encode, spec_segments, split_path};

verus! {

/// The ways resolution can fail.
#[derive(Debug)]
pub enum Error {
    /// The base directory was relative where an absolute one was required.
    CurrentIsRelative,
    /// The path carries a prefix kind that cannot be re-encoded as a drive
    /// designator: a UNC share, a device path, or a non-disk verbatim form.
    UnsupportedPrefix,
    /// An environment-level failure — the target does not exist, the
    /// current directory is unavailable, or canonicalization failed
    /// otherwise — carrying the environment's own message.
    IoError(String),
}

impl Error {
    /// A human-readable message, one distinct text per error kind.
    pub fn message(&self) -> (msg: String)
        ensures
            *self is CurrentIsRelative ==> msg@ == "the path specified as current directory was relative path."@,
            *self is UnsupportedPrefix ==> msg@ == "the path specified has the prefix that isn't supported."@,
            *self matches Error::IoError(detail) ==> msg@ == "io::Error happened: "@ + detail@,
    {
        match self {
            Error::CurrentIsRelative => "the path specified as current directory was relative path.".to_owned(),
            Error::UnsupportedPrefix => "the path specified has the prefix that isn't supported.".to_owned(),
            Error::IoError(detail) => {
                let mut msg = "io::Error happened: ".to_owned();
                msg.append(detail.as_str());
                msg
            },
        }
    }
}

/// What [`to_absolute`] decides before the environment is consulted.
#[derive(Debug)]
pub enum Resolution {
    /// The path to resolve was already absolute: it is the result, returned
    /// unchanged — no existence check and no normalization, by design.
    AlreadyAbsolute(String),
    /// The join of the base and the relative path. The environment's
    /// canonicalization facility must resolve it — requiring it to exist —
    /// and [`reencode_canonical`] then re-encodes the canonical path it
    /// returns.
    Canonicalize(String),
}

/// Whether a prefix kind is one that re-encoding rejects.
pub open spec fn unsupported_kind(k: PrefixKind) -> bool {
    match k {
        PrefixKind::Unc | PrefixKind::Device | PrefixKind::VerbatimUnc | PrefixKind::Verbatim => true,
        _ => false,
    }
}

/// The join of a base directory and a relative path: the relative path's
/// text behind one more separator. The join resolves nothing itself.
pub open spec fn spec_join(current: Seq<char>, relative: Seq<char>) -> Seq<char> {
    current + seq!['\\'] + relative
}

/// What re-encoding the canonical path `p` returns.
///
/// Under a disk designator, plain or verbatim, the result is the
/// two-character drive token followed by every segment of `p`, unchanged
/// and in order — the environment already canonicalized them. Every other
/// prefix kind is rejected as unsupported.
pub open spec fn reencode_outcome(p: Seq<char>, res: Result<String, Error>) -> bool {
    match spec_prefix(p) {
        PrefixKind::Disk(l) => res matches Ok(q) && q@ == spec_encode(
            l,
            spec_segments(p.skip(2), false),
        ),
        PrefixKind::VerbatimDisk(l) => res matches Ok(q) && q@ == spec_encode(
            l,
            spec_segments(p.skip(6), true),
        ),
        PrefixKind::NoPrefix => true,
        _ => res matches Err(e) && e is UnsupportedPrefix,
    }
}

/// Re-encodes the canonical path the environment's canonicalization
/// returned: the drive designator becomes the `"<letter>:"` token, with the
/// letter's case as the environment reported it, and the components follow
/// unchanged, in their hierarchical order. A prefix that is no disk
/// designator cannot be re-encoded and is rejected.
pub fn reencode_canonical(canonical: &str) -> (res: Result<String, Error>)
    requires
        spec_is_absolute(canonical@),
    ensures
        reencode_outcome(canonical@, res),
{
    let k = prefix_of(canonical);
    match k {
        PrefixKind::NoPrefix => {
            proof {
                assert(false);
            }
            Err(Error::UnsupportedPrefix)
        },
        PrefixKind::Unc | PrefixKind::Device | PrefixKind::VerbatimUnc | PrefixKind::Verbatim => Err(
            Error::UnsupportedPrefix,
        ),
        PrefixKind::Disk(_) => {
            let segs = split_path(canonical, 2, false);
            Ok(encode_path(canonical, 0, &segs))
        },
        PrefixKind::VerbatimDisk(_) => {
            proof {
                assert(canonical@.skip(4)[0] == canonical@[4]);
            }
            let segs = split_path(canonical, 6, true);
            Ok(encode_path(canonical, 4, &segs))
        },
    }
}

/// Gets the absolute path for the specified file, as far as that can be
/// decided without the filesystem.
///
/// An absolute `relative` is the result, returned unchanged. Otherwise
/// `current` must be absolute, or resolution fails; the two are then
/// joined, and the caller must have the environment canonicalize the joined
/// path — which requires it to exist — and hand the canonical path to
/// [`reencode_canonical`] for the final result.
pub fn to_absolute(current: &str, relative: &str) -> (res: Result<Resolution, Error>)
    ensures
        spec_is_absolute(relative@) ==> (res matches Ok(Resolution::AlreadyAbsolute(p)) && p@
            == relative@),
        !spec_is_absolute(relative@) && !spec_is_absolute(current@) ==> (res matches Err(e) && e
            is CurrentIsRelative),
        !spec_is_absolute(relative@) && spec_is_absolute(current@) ==> (res matches Ok(
            Resolution::Canonicalize(j),
        ) && j@ == spec_join(current@, relative@) && spec_is_absolute(j@)),
{
    if is_absolute(relative) {
        return Ok(Resolution::AlreadyAbsolute(relative.to_owned()));
    }
    if !is_absolute(current) {
        return Err(Error::CurrentIsRelative);
    }
    let mut joined = current.to_owned();
    joined.append("\\");
    joined.append(relative);
    proof {
        reveal_strlit("\\");
        assert("\\"@ =~= seq!['\\']);
        assert(joined@ == spec_join(current@, relative@));
        lemma_join_absolute(current@, relative@);
    }
    Ok(Resolution::Canonicalize(joined))
}

} // verus!
