//! Results that come back out of order: each carries the index of the row
//! it was computed from, and the indices say where each result belongs.

use vstd::prelude::*;

verus! {

/// Whether `tags` holds each index below its length exactly once.
pub open spec fn is_permutation(tags: Seq<usize>) -> bool {
    &&& forall|i: int| 0 <= i < tags.len() ==> #[trigger] tags[i] < tags.len()
    &&& forall|i: int, j: int|
        0 <= i < j < tags.len() ==> #[trigger] tags[i] != #[trigger] tags[j]
    &&& forall|k: int| 0 <= k < tags.len() ==> occurs(tags, k)
}

/// Whether some result carries the index `k`.
pub open spec fn occurs(tags: Seq<usize>, k: int) -> bool {
    exists|i: int| 0 <= i < tags.len() && #[trigger] tags[i] == k
}

/// Whether `positions` puts the results tagged `tags` back in row order:
/// for each row it names the one result that carries the row's index.
pub open spec fn restores_order(tags: Seq<usize>, positions: Seq<usize>) -> bool {
    &&& positions.len() == tags.len()
    &&& forall|k: int|
        0 <= k < positions.len() ==> #[trigger] positions[k] < tags.len() && tags[positions[k] as int]
            == k
    &&& forall|i: int| 0 <= i < tags.len() ==> positions[#[trigger] tags[i] as int] == i
}

/// For each row, the position of the result that was computed from it.
///
/// `tags[i]` is the index of the row that result `i` was computed from.
/// Reading the results at the positions returned, one after the other,
/// gives them in the order of the rows, in whatever order they arrived.
/// There is no such reading where an index is missing, occurs twice or
/// lies beyond the number of results.
pub fn order_by_index(tags: &Vec<usize>) -> (restored: Option<Vec<usize>>)
    ensures
        match restored {
            Some(positions) => is_permutation(tags@) && restores_order(tags@, positions@),
            None => !is_permutation(tags@),
        },
{
    let n = tags.len();
    let mut positions: Vec<usize> = Vec::new();
    let mut k: usize = 0;
    while k < n
        invariant
            k <= n,
            positions.len() == k,
            forall|j: int| 0 <= j < k ==> #[trigger] positions[j] == n,
        decreases n - k,
    {
        positions.push(n);
        k += 1;
    }
    let mut i: usize = 0;
    while i < n
        invariant
            i <= n,
            n == tags.len(),
            positions.len() == n,
            forall|j: int| 0 <= j < i ==> #[trigger] tags[j] < n && positions[tags[j] as int] == j,
            forall|k: int|
                0 <= k < n ==> #[trigger] positions[k] == n || (positions[k] < i
                    && tags[positions[k] as int] == k),
        decreases n - i,
    {
        let tag = tags[i];
        if tag >= n {
            return None;
        }
        if positions[tag] != n {
            assert(tags[positions[tag as int] as int] == tags[i as int]);
            return None;
        }
        positions.set(tag, i);
        i += 1;
    }
    let mut k: usize = 0;
    while k < n
        invariant
            k <= n,
            n == tags.len(),
            positions.len() == n,
            forall|j: int| 0 <= j < n ==> #[trigger] tags[j] < n && positions[tags[j] as int] == j,
            forall|k: int|
                0 <= k < n ==> #[trigger] positions[k] == n || (positions[k] < n
                    && tags[positions[k] as int] == k),
            forall|j: int| 0 <= j < k ==> #[trigger] positions[j] < n,
        decreases n - k,
    {
        if positions[k] == n {
            assert(!occurs(tags@, k as int)) by {
                if occurs(tags@, k as int) {
                    let i = choose|i: int| 0 <= i < tags.len() && #[trigger] tags[i] == k;
                    assert(positions[tags[i] as int] == i);
                }
            }
            return None;
        }
        k += 1;
    }
    proof {
        assert forall|k: int| 0 <= k < n implies occurs(tags@, k) by {
            assert(tags[positions[k] as int] == k);
        }
        assert forall|i: int, j: int| 0 <= i < j < n implies #[trigger] tags[i] != #[trigger] tags[j] by {
            if tags[i] == tags[j] {
                assert(positions[tags[i] as int] == i);
                assert(positions[tags[j] as int] == j);
            }
        }
    }
    Some(positions)
}

} // verus!
