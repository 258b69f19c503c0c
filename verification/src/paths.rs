//! Output-path sanitation.
//!
//! Every destination path is split on `/`; empty segments are skipped, a
//! `..` segment and an absolute or rooted segment are fatal. The surviving
//! segments are appended, in order, under the fixed output base directory,
//! so no output can escape it.

use vstd::prelude::*;

use crate::bytes::dec_digits;
use crate::report::EngineError;

verus! {

/// Path separator `/`.
pub const SEP: u8 = 47;

/// First index of `/` in `s`, or -1.
pub open spec fn find_sep(s: Seq<u8>) -> int
    decreases s.len(),
{
    if s.len() == 0 {
        -1
    } else if s[0] == SEP {
        0
    } else if find_sep(s.drop_first()) == -1 {
        -1
    } else {
        find_sep(s.drop_first()) + 1
    }
}

proof fn lemma_find_sep_range(s: Seq<u8>)
    ensures
        find_sep(s) == -1 ==> !s.contains(SEP),
        find_sep(s) != -1 ==> 0 <= find_sep(s) < s.len() && s[find_sep(s)] == SEP,
    decreases s.len(),
{
    if s.len() > 0 {
        lemma_find_sep_range(s.drop_first());
        if find_sep(s) == -1 {
            assert forall|i: int| 0 <= i < s.len() implies s[i] != SEP by {
                if i > 0 {
                    assert(s.drop_first()[i - 1] == s[i]);
                    assert(!s.drop_first().contains(SEP));
                }
            }
        }
    }
}

/// The segments of `s`, split on `/`, empty segments included.
pub open spec fn raw_segments(s: Seq<u8>) -> Seq<Seq<u8>>
    decreases s.len(),
    via raw_segments_decreases
{
    if find_sep(s) == -1 {
        seq![s]
    } else {
        seq![s.take(find_sep(s))] + raw_segments(s.skip(find_sep(s) + 1))
    }
}

#[via_fn]
proof fn raw_segments_decreases(s: Seq<u8>) {
    lemma_find_sep_range(s);
}

/// The non-empty segments of a split path.
pub open spec fn nonempty(segs: Seq<Seq<u8>>) -> Seq<Seq<u8>>
    decreases segs.len(),
{
    if segs.len() == 0 {
        Seq::empty()
    } else if segs[0].len() > 0 {
        seq![segs[0]] + nonempty(segs.drop_first())
    } else {
        nonempty(segs.drop_first())
    }
}

/// The non-empty segments of `s` split on `/`: what ends up, in order,
/// under the output base directory.
pub open spec fn clean_segments(s: Seq<u8>) -> Seq<Seq<u8>> {
    nonempty(raw_segments(s))
}

/// A `..` segment.
pub open spec fn is_dotdot(seg: Seq<u8>) -> bool {
    seg == seq![46u8, 46u8]
}

/// An absolute or rooted segment.
pub open spec fn is_rooted(seg: Seq<u8>) -> bool {
    seg.len() > 0 && (seg[0] == SEP || seg[0] == 92)
}

/// A segment that may be appended under the output base.
pub open spec fn seg_ok(seg: Seq<u8>) -> bool {
    !is_dotdot(seg) && !is_rooted(seg)
}

/// Kind of the first offending segment: `Some(true)` for `..`,
/// `Some(false)` for rooted, `None` when all segments are fine.
pub open spec fn first_bad(segs: Seq<Seq<u8>>) -> Option<bool>
    decreases segs.len(),
{
    if segs.len() == 0 {
        None
    } else if !seg_ok(segs[0]) {
        Some(is_dotdot(segs[0]))
    } else {
        first_bad(segs.drop_first())
    }
}

/// Every non-empty segment of `s` may be appended under the output base.
pub open spec fn path_ok(s: Seq<u8>) -> bool {
    first_bad(clean_segments(s)) is None
}

proof fn lemma_first_bad_concat(a: Seq<Seq<u8>>, b: Seq<Seq<u8>>)
    requires
        forall|i: int| 0 <= i < a.len() ==> seg_ok(#[trigger] a[i]),
    ensures
        first_bad(a + b) == first_bad(b),
    decreases a.len(),
{
    if a.len() == 0 {
        assert(a + b =~= b);
    } else {
        assert((a + b)[0] == a[0]);
        assert((a + b).drop_first() =~= a.drop_first() + b);
        lemma_first_bad_concat(a.drop_first(), b);
    }
}

proof fn lemma_find_sep_concat(a: Seq<u8>, b: Seq<u8>)
    requires
        !a.contains(SEP),
    ensures
        find_sep(a + seq![SEP] + b) == a.len(),
    decreases a.len(),
{
    let s = a + seq![SEP] + b;
    if a.len() == 0 {
        assert(s[0] == SEP);
    } else {
        assert(s[0] == a[0]);
        assert(a[0] != SEP);
        assert(s.drop_first() =~= a.drop_first() + seq![SEP] + b);
        assert(!a.drop_first().contains(SEP)) by {
            assert forall|i: int| 0 <= i < a.drop_first().len() implies a.drop_first()[i]
                != SEP by {
                assert(a.drop_first()[i] == a[i + 1]);
            }
        }
        lemma_find_sep_concat(a.drop_first(), b);
    }
}

proof fn lemma_raw_segments_split(a: Seq<u8>, b: Seq<u8>)
    requires
        !a.contains(SEP),
    ensures
        raw_segments(a + seq![SEP] + b) == seq![a] + raw_segments(b),
{
    let s = a + seq![SEP] + b;
    lemma_find_sep_concat(a, b);
    assert(s.take(a.len() as int) =~= a);
    assert(s.skip(a.len() as int + 1) =~= b);
}

proof fn lemma_raw_segments_whole(s: Seq<u8>)
    requires
        !s.contains(SEP),
    ensures
        raw_segments(s) == seq![s],
{
    lemma_find_sep_range(s);
    if find_sep(s) != -1 {
        assert(s.contains(SEP));
    }
}

/// Splits `path` on `/` and checks each non-empty segment; returns the
/// segments to append under the output base, or the error for the first
/// offending segment.
pub fn sanitize_path(path: &[u8]) -> (r: Result<Vec<Vec<u8>>, EngineError>)
    ensures
        match r {
            Ok(segs) => path_ok(path@) && segs.deep_view() == clean_segments(path@),
            Err(e) => !path_ok(path@) && match e {
                EngineError::PathDotDot(p) => p@ == path@ && first_bad(clean_segments(path@))
                    == Some(true),
                EngineError::PathRooted(p) => p@ == path@ && first_bad(clean_segments(path@))
                    == Some(false),
                _ => false,
            },
        },
{
    let ghost all = raw_segments(path@);
    let mut out: Vec<Vec<u8>> = Vec::new();
    let mut rest: Vec<u8> = vstd::slice::slice_to_vec(path);
    // Raw segments not yet examined: `rest` split on `/`.
    let ghost mut pending = all;
    proof {
        assert(out.deep_view() =~= Seq::<Seq<u8>>::empty());
        assert(out.deep_view() + pending =~= all);
    }
    loop
        invariant
            all == raw_segments(path@),
            raw_segments(rest@) == pending,
            nonempty(all) == nonempty(out.deep_view() + pending),
            forall|i: int| 0 <= i < out.deep_view().len() ==> #[trigger] out.deep_view()[i].len()
                > 0,
            forall|i: int| 0 <= i < out.deep_view().len() ==> seg_ok(#[trigger] out.deep_view()[i]),
        decreases rest@.len(),
    {
        let ghost pend0 = pending;
        let ghost outv0 = out.deep_view();
        proof {
            lemma_nonempty_all_ok(outv0);
        }
        let (seg, keep_going, next): (Vec<u8>, bool, Vec<u8>) = match crate::bytes::split_once(
            rest.as_slice(),
            SEP,
        ) {
            Some(parts) => (parts.0, true, parts.1),
            None => (rest, false, Vec::new()),
        };
        proof {
            if keep_going {
                lemma_raw_segments_split(seg@, next@);
                pending = raw_segments(next@);
            } else {
                lemma_raw_segments_whole(seg@);
                pending = Seq::empty();
            }
            assert(pend0 =~= seq![seg@] + pending);
            assert(outv0 + pend0 =~= outv0 + (seq![seg@] + pending));
            assert(nonempty(all) == nonempty(outv0 + (seq![seg@] + pending)));
        }
        // Examine `seg`: skip empty, reject `..` and rooted, keep the rest.
        if seg.len() == 0 {
            proof {
                lemma_nonempty_step(outv0, seg@, pending);
                assert(nonempty(all) == nonempty(out.deep_view() + pending));
            }
        } else if seg.len() == 2 && seg[0] == 46 && seg[1] == 46 {
            proof {
                assert(seg@ =~= seq![46u8, 46u8]);
                lemma_bad_found(outv0, seg@, pending);
                assert(first_bad(clean_segments(path@)) == Some(true));
            }
            return Err(EngineError::PathDotDot(vstd::slice::slice_to_vec(path)));
        } else if seg[0] == SEP || seg[0] == 92 {
            proof {
                assert(!is_dotdot(seg@)) by {
                    if seg@ == seq![46u8, 46u8] {
                        assert(seg@[0] == 46);
                    }
                }
                lemma_bad_found(outv0, seg@, pending);
                assert(first_bad(clean_segments(path@)) == Some(false));
            }
            return Err(EngineError::PathRooted(vstd::slice::slice_to_vec(path)));
        } else {
            let ghost segv = seg@;
            proof {
                assert(!is_dotdot(segv)) by {
                    if segv == seq![46u8, 46u8] {
                        assert(segv.len() == 2 && segv[0] == 46 && segv[1] == 46);
                    }
                }
            }
            out.push(seg);
            proof {
                assert(out.deep_view() =~~= outv0.push(segv));
                lemma_nonempty_step(outv0, segv, pending);
                assert(outv0.push(segv) =~= outv0 + seq![segv]);
                assert(nonempty(all) == nonempty(out.deep_view() + pending));
                lemma_nonempty_all_ok(outv0 + seq![segv]);
            }
        }
        if !keep_going {
            proof {
                assert(out.deep_view() + pending =~= out.deep_view());
                lemma_nonempty_all_ok(out.deep_view());
                lemma_first_bad_concat(out.deep_view(), Seq::empty());
                assert(out.deep_view() + Seq::<Seq<u8>>::empty() =~= out.deep_view());
            }
            return Ok(out);
        }
        rest = next;
    }
}

/// Stepping one raw segment forward leaves the cleaned segments unchanged.
proof fn lemma_nonempty_step(a: Seq<Seq<u8>>, seg: Seq<u8>, b: Seq<Seq<u8>>)
    requires
        a == nonempty(a),
    ensures
        seg.len() == 0 ==> nonempty(a + (seq![seg] + b)) == nonempty(a + b),
        seg.len() > 0 ==> nonempty(a + (seq![seg] + b)) == nonempty((a + seq![seg]) + b),
    decreases a.len(),
{
    if a.len() == 0 {
        assert(a + (seq![seg] + b) =~= seq![seg] + b);
        assert(a + b =~= b);
        assert((a + seq![seg]) + b =~= seq![seg] + b);
        assert((seq![seg] + b)[0] == seg);
        assert((seq![seg] + b).drop_first() =~= b);
        if seg.len() == 0 {
            assert(nonempty(seq![seg] + b) == nonempty(b));
        }
    } else {
        assert(nonempty(a)[0] == a[0]);
        lemma_nonempty_head(a);
        assert((a + (seq![seg] + b))[0] == a[0]);
        assert((a + (seq![seg] + b)).drop_first() =~= a.drop_first() + (seq![seg] + b));
        assert((a + b)[0] == a[0]);
        assert((a + b).drop_first() =~= a.drop_first() + b);
        assert(((a + seq![seg]) + b)[0] == a[0]);
        assert(((a + seq![seg]) + b).drop_first() =~= (a.drop_first() + seq![seg]) + b);
        lemma_nonempty_own_drop(a);
        lemma_nonempty_step(a.drop_first(), seg, b);
    }
}

/// A fixed point of `nonempty` with entries is non-empty-headed.
proof fn lemma_nonempty_head(a: Seq<Seq<u8>>)
    requires
        a == nonempty(a),
        a.len() > 0,
    ensures
        a[0].len() > 0,
    decreases a.len(),
{
    if a[0].len() == 0 {
        lemma_nonempty_len(a.drop_first());
    }
}

proof fn lemma_nonempty_len(a: Seq<Seq<u8>>)
    ensures
        nonempty(a).len() <= a.len(),
    decreases a.len(),
{
    if a.len() > 0 {
        lemma_nonempty_len(a.drop_first());
    }
}

/// Dropping the head of a fixed point of `nonempty` gives a fixed point.
proof fn lemma_nonempty_own_drop(a: Seq<Seq<u8>>)
    requires
        a == nonempty(a),
        a.len() > 0,
    ensures
        a.drop_first() == nonempty(a.drop_first()),
{
    lemma_nonempty_head(a);
    assert(nonempty(a) == seq![a[0]] + nonempty(a.drop_first()));
    assert((seq![a[0]] + nonempty(a.drop_first())).drop_first() =~= nonempty(a.drop_first()));
    assert(a.drop_first() =~= nonempty(a).drop_first());
}

/// All entries of a cleaned prefix that passed the checks are acceptable,
/// so the verdict on the whole is the verdict on the rest.
proof fn lemma_nonempty_all_ok(a: Seq<Seq<u8>>)
    requires
        forall|i: int| 0 <= i < a.len() ==> a[i].len() > 0,
    ensures
        nonempty(a) == a,
    decreases a.len(),
{
    if a.len() > 0 {
        assert(forall|i: int| 0 <= i < a.drop_first().len() ==> #[trigger] a.drop_first()[i]
            == a[i + 1]);
        lemma_nonempty_all_ok(a.drop_first());
        assert(seq![a[0]] + a.drop_first() =~= a);
    }
}

/// When the next non-empty segment is bad, it decides the verdict.
proof fn lemma_bad_found(a: Seq<Seq<u8>>, seg: Seq<u8>, b: Seq<Seq<u8>>)
    requires
        a == nonempty(a),
        forall|i: int| 0 <= i < a.len() ==> seg_ok(#[trigger] a[i]),
        seg.len() > 0,
        !seg_ok(seg),
    ensures
        first_bad(nonempty(a + (seq![seg] + b))) == Some(is_dotdot(seg)),
    decreases a.len(),
{
    lemma_nonempty_step(a, seg, b);
    assert(nonempty(a + (seq![seg] + b)) == nonempty((a + seq![seg]) + b));
    let whole = (a + seq![seg]) + b;
    lemma_nonempty_bad_prefix(a, seg, b);
}

proof fn lemma_nonempty_bad_prefix(a: Seq<Seq<u8>>, seg: Seq<u8>, b: Seq<Seq<u8>>)
    requires
        a == nonempty(a),
        forall|i: int| 0 <= i < a.len() ==> seg_ok(#[trigger] a[i]),
        seg.len() > 0,
        !seg_ok(seg),
    ensures
        first_bad(nonempty((a + seq![seg]) + b)) == Some(is_dotdot(seg)),
    decreases a.len(),
{
    let whole = (a + seq![seg]) + b;
    if a.len() == 0 {
        assert(whole =~= seq![seg] + b);
        assert(whole[0] == seg);
        assert(whole.drop_first() =~= b);
        assert(nonempty(whole) == seq![seg] + nonempty(b));
        assert((seq![seg] + nonempty(b))[0] == seg);
    } else {
        lemma_nonempty_head(a);
        assert(whole[0] == a[0]);
        assert(whole.drop_first() =~= (a.drop_first() + seq![seg]) + b);
        lemma_nonempty_own_drop(a);
        lemma_nonempty_bad_prefix(a.drop_first(), seg, b);
        assert(nonempty(whole) == seq![a[0]] + nonempty(whole.drop_first()));
        assert((seq![a[0]] + nonempty(whole.drop_first()))[0] == a[0]);
        assert((seq![a[0]] + nonempty(whole.drop_first())).drop_first() =~= nonempty(
            whole.drop_first(),
        ));
        assert(seg_ok(a[0]));
    }
}

/// Number of `../` repetitions in the relative-root prefix for a file
/// `levels` segments deep: one fewer than the depth, none for a top-level
/// file.
pub open spec fn rel_top_reps(levels: nat) -> nat {
    if levels < 2 {
        0
    } else {
        (levels - 1) as nat
    }
}

/// `../` repeated `n` times.
pub open spec fn dotdot_slash_reps(n: nat) -> Seq<u8>
    decreases n,
{
    if n == 0 {
        Seq::empty()
    } else {
        dotdot_slash_reps((n - 1) as nat) + seq![46u8, 46u8, SEP]
    }
}

/// The relative-root prefix injected into the template context: `../`
/// repeated once less than the number of path levels, empty for a
/// top-level file.
pub fn rel_top_prefix(levels: usize) -> (r: Vec<u8>)
    ensures
        r@ == dotdot_slash_reps(rel_top_reps(levels as nat)),
{
    let mut r: Vec<u8> = Vec::new();
    if levels < 2 {
        proof {
            assert(r@ =~= dotdot_slash_reps(0));
        }
        return r;
    }
    let mut i: usize = 0;
    while i < levels - 1
        invariant
            levels >= 2,
            i <= levels - 1,
            r@ == dotdot_slash_reps(i as nat),
        decreases levels - 1 - i,
    {
        r.push(46);
        r.push(46);
        r.push(SEP);
        proof {
            assert(r@ =~= dotdot_slash_reps(i as nat) + seq![46u8, 46u8, SEP]);
        }
        i += 1;
    }
    r
}

/// The number of levels of a sanitized path is the number of cleaned
/// segments; kept as a named fact for the file-finalize contract.
pub open spec fn levels_of(s: Seq<u8>) -> nat {
    clean_segments(s).len()
}

/// A path one of whose segments is `..` or rooted is never accepted:
/// every consumer of [`sanitize_path`] (file finalize, the inline
/// provide-file copy, the asset manager's plan) therefore fails on it
/// and writes nothing outside the output base. Conversely a path whose
/// segments are all acceptable is accepted.
pub proof fn lemma_path_rejection(s: Seq<u8>)
    ensures
        path_ok(s) <==> (forall|i: int|
            0 <= i < clean_segments(s).len() ==> seg_ok(#[trigger] clean_segments(s)[i])),
{
    lemma_first_bad_characterizes(clean_segments(s));
}

proof fn lemma_first_bad_characterizes(segs: Seq<Seq<u8>>)
    ensures
        (first_bad(segs) is None) <==> (forall|i: int|
            0 <= i < segs.len() ==> seg_ok(#[trigger] segs[i])),
    decreases segs.len(),
{
    if segs.len() > 0 {
        lemma_first_bad_characterizes(segs.drop_first());
        if first_bad(segs) is None {
            assert forall|i: int| 0 <= i < segs.len() implies seg_ok(#[trigger] segs[i]) by {
                if i > 0 {
                    assert(segs.drop_first()[i - 1] == segs[i]);
                }
            }
        } else {
            if seg_ok(segs[0]) {
                let j = choose|j: int|
                    0 <= j < segs.drop_first().len() && !seg_ok(#[trigger] segs.drop_first()[j]);
                assert(segs[j + 1] == segs.drop_first()[j]);
            }
        }
    }
}

} // verus!
