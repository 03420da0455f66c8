//! The model-file mount's guard: a request path is handed to the file
//! service only if it cannot reach above the mount's root.
use vstd::prelude::*;

verus! {

/// The segments of a path, split at each `/` (an empty path has one empty
/// segment).
pub open spec fn segments(s: Seq<char>) -> Seq<Seq<char>>
    decreases s.len(),
{
    if s.len() == 0 {
        seq![Seq::empty()]
    } else {
        let r = segments(s.drop_last());
        if s.last() == '/' {
            r.push(Seq::empty())
        } else {
            r.update(r.len() - 1, r.last().push(s.last()))
        }
    }
}

/// `..`
pub open spec fn parent_segment() -> Seq<char> {
    seq!['.', '.']
}

/// Whether some segment of the path is `..`.
pub open spec fn has_parent_segment(s: Seq<char>) -> bool {
    exists|i: int| 0 <= i < segments(s).len() && #[trigger] segments(s)[i] == parent_segment()
}

/// Walks the segments from depth `d` below the root: `..` goes up one level,
/// `.` and empty segments stay, any other goes down one. `None` once the walk
/// is above the root.
pub open spec fn walk(segs: Seq<Seq<char>>, d: int) -> Option<int>
    decreases segs.len(),
{
    if segs.len() == 0 {
        Some(d)
    } else {
        let s = segs[0];
        let next = if s == parent_segment() {
            d - 1
        } else if s == seq!['.'] || s.len() == 0 {
            d
        } else {
            d + 1
        };
        if next < 0 {
            None
        } else {
            walk(segs.drop_first(), next)
        }
    }
}

/// Whether the path, resolved against the root, leads outside it.
pub open spec fn escapes_root(s: Seq<char>) -> bool {
    walk(segments(s), 0) is None
}

proof fn lemma_segments_nonempty(s: Seq<char>)
    ensures
        segments(s).len() >= 1,
    decreases s.len(),
{
    if s.len() > 0 {
        lemma_segments_nonempty(s.drop_last());
    }
}

proof fn lemma_walk_without_parent(segs: Seq<Seq<char>>, d: int)
    requires
        d >= 0,
        forall|i: int| 0 <= i < segs.len() ==> segs[i] != parent_segment(),
    ensures
        walk(segs, d) is Some,
    decreases segs.len(),
{
    if segs.len() > 0 {
        let s = segs[0];
        let next = if s == seq!['.'] || s.len() == 0 {
            d
        } else {
            d + 1
        };
        assert(segs[0] != parent_segment());
        assert forall|i: int| 0 <= i < segs.drop_first().len() implies segs.drop_first()[i]
            != parent_segment() by {
            assert(segs.drop_first()[i] == segs[i + 1]);
        }
        lemma_walk_without_parent(segs.drop_first(), next);
    }
}

/// A path that leads outside the root has a `..` segment, so the mount
/// refuses it.
pub proof fn lemma_escape_is_refused(s: Seq<char>)
    ensures
        escapes_root(s) ==> has_parent_segment(s),
{
    if !has_parent_segment(s) {
        lemma_walk_without_parent(segments(s), 0);
    }
}

/// Whether the mount may hand the path to the file service: exactly when no
/// segment of it is `..`.
pub fn asset_path_allowed(path: &str) -> (r: bool)
    ensures
        r == !has_parent_segment(path@),
        r ==> !escapes_root(path@),
{
    let n = path.unicode_len();
    let mut i: usize = 0;
    // 0: the current segment is empty, 1: it is `.`, 2: it is `..`, 3: other
    let mut state: u8 = 0;
    let mut found = false;
    let ghost mut done: Seq<Seq<char>> = Seq::empty();
    let ghost mut cur: Seq<char> = Seq::empty();
    assert(path@.subrange(0, 0) =~= Seq::<char>::empty());
    assert(segments(path@.subrange(0, 0)) =~= done.push(cur));
    while i < n
        invariant
            n == path@.len(),
            i <= n,
            segments(path@.subrange(0, i as int)) == done.push(cur),
            found == exists|j: int| 0 <= j < done.len() && #[trigger] done[j] == parent_segment(),
            state <= 3,
            state == 0 ==> cur == Seq::<char>::empty(),
            state == 1 ==> cur == seq!['.'],
            state == 2 ==> cur == parent_segment(),
            state == 3 ==> cur != Seq::<char>::empty() && cur != seq!['.'] && cur
                != parent_segment(),
        decreases n - i,
    {
        let c = path.get_char(i);
        let ghost prefix = path@.subrange(0, i as int);
        let ghost next = path@.subrange(0, i + 1);
        assert(next.drop_last() =~= prefix);
        assert(next.last() == c);
        if c == '/' {
            if state == 2 {
                found = true;
            }
            proof {
                let old_done = done;
                done = done.push(cur);
                cur = Seq::empty();
                assert(done.push(cur) =~= segments(next));
                assert forall|j: int|
                    0 <= j < old_done.len() implies #[trigger] done[j] == old_done[j] by {}
                if found {
                    if state == 2 {
                        assert(done[done.len() - 1] == parent_segment());
                    } else {
                        let k = choose|k: int|
                            0 <= k < old_done.len() && #[trigger] old_done[k] == parent_segment();
                        assert(done[k] == parent_segment());
                    }
                } else {
                    assert forall|j: int| 0 <= j < done.len() implies #[trigger] done[j]
                        != parent_segment() by {
                        if j < old_done.len() {
                            assert(done[j] == old_done[j]);
                        } else {
                            assert(done[j] == done.last());
                        }
                    }
                }
            }
            state = 0;
        } else {
            let ghost old_state = state;
            if c == '.' {
                state = if state == 0 {
                    1
                } else if state == 1 {
                    2
                } else {
                    3
                };
            } else {
                state = 3;
            }
            proof {
                let old_cur = cur;
                cur = cur.push(c);
                assert(done.push(cur) =~= segments(next));
                assert(cur.last() == c);
                assert(seq!['.'].last() == '.');
                assert(parent_segment().last() == '.');
                assert(cur.len() == old_cur.len() + 1);
                if state == 3 && c == '.' {
                    if old_state == 2 {
                        assert(cur.len() == 3);
                    } else {
                        assert(old_state == 3);
                        if old_cur.len() == 0 {
                            assert(old_cur =~= Seq::<char>::empty());
                        }
                        if cur.len() == 2 {
                            assert(old_cur.len() == 1);
                            assert(old_cur =~= seq![old_cur[0]]);
                            assert(old_cur[0] != '.');
                            assert(cur[0] == old_cur[0]);
                            assert(parent_segment()[0] == '.');
                        }
                    }
                }
                if state == 1 {
                    assert(cur =~= seq!['.']);
                }
                if state == 2 {
                    assert(cur =~= parent_segment());
                }
            }
        }
        i = i + 1;
    }
    assert(path@.subrange(0, n as int) =~= path@);
    let r = !(found || state == 2);
    proof {
        let segs = segments(path@);
        if r {
            assert forall|j: int| 0 <= j < segs.len() implies segs[j] != parent_segment() by {
                if j < done.len() {
                    assert(segs[j] == done[j]);
                } else {
                    assert(segs[j] == cur);
                }
            }
            lemma_walk_without_parent(segs, 0);
        } else if found {
            let j = choose|j: int| 0 <= j < done.len() && #[trigger] done[j] == parent_segment();
            assert(segs[j] == done[j]);
        } else {
            assert(segs[done.len() as int] == cur);
        }
    }
    r
}

} // verus!
