//! Splitting the part of a path that follows its prefix into segments, and
//! re-serializing such segments behind a drive designator.
//!
//! A segment is held as a pair of character indices into the path, so the
//! view of a segment list is the sequence of the named pieces of the path.

use vstd::prelude::*;
use vstd::string::StrSliceExecFns;
use vstd::string::StringExecFns;

use crate::prefix::is_sep;

verus! {

/// Whether `c` separates segments: in a verbatim path only `\` does.
pub open spec fn sep_for(verbatim: bool, c: char) -> bool {
    if verbatim {
        c == '\\'
    } else {
        is_sep(c)
    }
}

/// The pieces of `s` that a list of index ranges names.
pub open spec fn seg_views(s: Seq<char>, rs: Seq<(usize, usize)>) -> Seq<Seq<char>> {
    Seq::new(rs.len(), |i: int| s.subrange(rs[i].0 as int, rs[i].1 as int))
}

/// Splitting `t` at separators, read left to right: the segments completed
/// so far, and the partial segment still open at the end of `t`.
pub open spec fn split_acc(t: Seq<char>, verbatim: bool) -> (Seq<Seq<char>>, Seq<char>)
    decreases t.len(),
{
    if t.len() == 0 {
        (Seq::empty(), Seq::empty())
    } else {
        let prev = split_acc(t.drop_last(), verbatim);
        if sep_for(verbatim, t.last()) {
            (
                if prev.1.len() > 0 {
                    prev.0.push(prev.1)
                } else {
                    prev.0
                },
                Seq::empty(),
            )
        } else {
            (prev.0, prev.1.push(t.last()))
        }
    }
}

/// The non-empty segments of `t`, in order.
pub open spec fn spec_segments(t: Seq<char>, verbatim: bool) -> Seq<Seq<char>> {
    let acc = split_acc(t, verbatim);
    if acc.1.len() > 0 {
        acc.0.push(acc.1)
    } else {
        acc.0
    }
}

/// Well-formed segment ranges: within `s`, past `start`, and non-empty.
pub open spec fn ranges_wf(rs: Seq<(usize, usize)>, start: int, len: int) -> bool {
    forall|i: int|
        0 <= i < rs.len() ==> start <= #[trigger] rs[i].0 < rs[i].1 <= len
}

/// Splits the part of `s` from `start` on into segments.
pub fn split_path(s: &str, start: usize, verbatim: bool) -> (segs: Vec<(usize, usize)>)
    requires
        start <= s@.len(),
    ensures
        seg_views(s@, segs@) == spec_segments(s@.skip(start as int), verbatim),
        ranges_wf(segs@, start as int, s@.len() as int),
{
    let ghost t = s@.skip(start as int);
    let n = s.unicode_len();
    let mut segs: Vec<(usize, usize)> = Vec::new();
    let mut cs: usize = start;
    let mut i: usize = start;
    while i < n
        invariant
            start <= cs <= i <= n,
            n == s@.len(),
            t == s@.skip(start as int),
            seg_views(s@, segs@) == split_acc(t.take(i - start), verbatim).0,
            split_acc(t.take(i - start), verbatim).1 == s@.subrange(cs as int, i as int),
            ranges_wf(segs@, start as int, s@.len() as int),
        decreases n - i,
    {
        let ghost pre = t.take(i - start);
        let ghost cur = t.take(i + 1 - start);
        proof {
            assert(cur.drop_last() =~= pre);
            assert(cur.last() == s@[i as int]);
        }
        let c = s.get_char(i);
        let sep = if verbatim {
            c == '\\'
        } else {
            c == '\\' || c == '/'
        };
        if sep {
            if cs < i {
                let ghost old_segs = segs@;
                segs.push((cs, i));
                proof {
                    assert(seg_views(s@, segs@) =~= seg_views(s@, old_segs).push(
                        s@.subrange(cs as int, i as int),
                    ));
                }
            }
            cs = i + 1;
            proof {
                assert(split_acc(cur, verbatim).1 =~= s@.subrange(cs as int, i + 1));
            }
        } else {
            proof {
                assert(split_acc(cur, verbatim).1 =~= s@.subrange(cs as int, i + 1));
            }
        }
        i = i + 1;
    }
    proof {
        assert(t.take(n - start) =~= t);
    }
    if cs < n {
        let ghost old_segs = segs@;
        segs.push((cs, n));
        proof {
            assert(seg_views(s@, segs@) =~= seg_views(s@, old_segs).push(
                s@.subrange(cs as int, n as int),
            ));
        }
    }
    segs
}

/// The serialized form of the segments alone: `\` before each segment.
pub open spec fn spec_encode_segs(segs: Seq<Seq<char>>) -> Seq<char>
    decreases segs.len(),
{
    if segs.len() == 0 {
        Seq::empty()
    } else {
        spec_encode_segs(segs.drop_last()) + seq!['\\'] + segs.last()
    }
}

/// The serialized absolute path: the drive designator `<letter>:`, then the
/// segments each behind a `\` — or the bare root `\` where none remain.
pub open spec fn spec_encode(letter: char, segs: Seq<Seq<char>>) -> Seq<char> {
    seq![letter, ':'] + if segs.len() == 0 {
        seq!['\\']
    } else {
        spec_encode_segs(segs)
    }
}

/// Serializes the path with drive letter at `letter_pos` of `s` and the
/// given segments of `s`.
pub fn encode_path(s: &str, letter_pos: usize, segs: &Vec<(usize, usize)>) -> (out: String)
    requires
        letter_pos <= 4,
        letter_pos < s@.len(),
        ranges_wf(segs@, 0, s@.len() as int),
    ensures
        out@ == spec_encode(s@[letter_pos as int], seg_views(s@, segs@)),
{
    let ghost letter = s@[letter_pos as int];
    let ghost v = seg_views(s@, segs@);
    proof {
        reveal_strlit(":");
        reveal_strlit("\\");
    }
    let mut out = s.substring_char(letter_pos, letter_pos + 1).to_owned();
    out.append(":");
    proof {
        assert(out@ =~= seq![letter, ':']);
    }
    if segs.len() == 0 {
        out.append("\\");
        proof {
            assert(out@ =~= spec_encode(letter, v));
        }
    } else {
        let mut j: usize = 0;
        while j < segs.len()
            invariant
                j <= segs@.len(),
                v == seg_views(s@, segs@),
                ranges_wf(segs@, 0, s@.len() as int),
                out@ == seq![letter, ':'] + spec_encode_segs(v.take(j as int)),
                "\\"@ == seq!['\\'],
            decreases segs@.len() - j,
        {
            let ghost pre = v.take(j as int);
            let ghost cur = v.take(j + 1);
            proof {
                assert(cur.drop_last() =~= pre);
                assert(cur.last() == v[j as int]);
            }
            let (a, b) = segs[j];
            out.append("\\");
            out.append(s.substring_char(a, b));
            proof {
                assert(out@ =~= seq![letter, ':'] + spec_encode_segs(cur));
            }
            j = j + 1;
        }
        proof {
            assert(v.take(segs@.len() as int) =~= v);
        }
    }
    out
}

} // verus!
