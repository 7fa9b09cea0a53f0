use vstd::prelude::*;

verus! {

/// Which half of a rotated scan a page comes from.
#[derive(Clone, Copy, Debug, PartialEq, Eq, Structural)]
pub enum Side {
    Left,
    Right,
}

/// Final page number of one half of the scan at position `idx` in a chunk of
/// `m` scans, following how a folded booklet unfolds.
pub open spec fn page_of(idx: int, m: int, side: Side) -> int {
    if idx % 2 == 0 {
        match side {
            Side::Left => 2 * m - idx,
            Side::Right => idx + 1,
        }
    } else {
        match side {
            Side::Left => idx + 1,
            Side::Right => 2 * m - idx,
        }
    }
}

/// Some half of some scan in a chunk of `m` scans carries page number `p`.
pub open spec fn page_used(p: int, m: int) -> bool {
    exists|i: int, s: Side| 0 <= i < m && #[trigger] page_of(i, m, s) == p
}

/// Page numbers `(left, right)` of the scan at position `idx` in a chunk of
/// `chunk_len` scans.
pub fn page_numbers(idx: usize, chunk_len: usize) -> (r: (usize, usize))
    requires
        idx < chunk_len,
        chunk_len <= usize::MAX / 2,
    ensures
        r.0 == page_of(idx as int, chunk_len as int, Side::Left),
        r.1 == page_of(idx as int, chunk_len as int, Side::Right),
{
    let pages = 2 * chunk_len;
    if idx % 2 == 0 {
        (pages - idx, idx + 1)
    } else {
        (idx + 1, pages - idx)
    }
}

/// Unfolding a chunk of `m` scans numbers its `2m` halves with `1..=2m`, each
/// number used by exactly one half of exactly one scan.
pub proof fn lemma_pages_bijection(m: int)
    requires
        m >= 1,
    ensures
        forall|i: int, s: Side|
            0 <= i < m ==> 1 <= #[trigger] page_of(i, m, s) <= 2 * m,
        forall|i: int, s: Side, j: int, t: Side|
            0 <= i < m && 0 <= j < m && #[trigger] page_of(i, m, s) == #[trigger] page_of(j, m, t)
                ==> i == j && s == t,
        forall|p: int| 1 <= p <= 2 * m ==> #[trigger] page_used(p, m),
{
    assert forall|p: int| 1 <= p <= 2 * m implies #[trigger] page_used(p, m) by {
        if p <= m {
            let i = p - 1;
            if i % 2 == 0 {
                assert(page_of(i, m, Side::Right) == p);
            } else {
                assert(page_of(i, m, Side::Left) == p);
            }
        } else {
            let i = 2 * m - p;
            if i % 2 == 0 {
                assert(page_of(i, m, Side::Left) == p);
            } else {
                assert(page_of(i, m, Side::Right) == p);
            }
        }
    }
}

} // verus!
