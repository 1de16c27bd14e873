//! Selector-driven choice of distinct positions.
use vstd::prelude::*;
use proptest::sample::Index;

verus! {

#[verifier::external_type_specification]
#[verifier::external_body]
pub struct ExIndex(Index);

/// Relies on proptest's `Index::index`: it panics on an empty collection and
/// otherwise scales the selector down to a position below `size`.
pub assume_specification[ Index::index ](idx: &Index, size: usize) -> (r: usize)
    requires
        size > 0,
    ensures
        r < size,
;

/// Whether `v` holds `x`.
fn contains_index(v: &Vec<usize>, x: usize) -> (r: bool)
    ensures
        r == v@.contains(x),
{
    let mut i: usize = 0;
    while i < v.len()
        invariant
            i <= v.len(),
            forall|j: int| 0 <= j < i ==> v@[j] != x,
        decreases v.len() - i,
    {
        if v[i] == x {
            return true;
        }
        i += 1;
    }
    false
}

/// Picks one distinct position in `[0, max)` for each selector, as long as there are
/// enough positions; with fewer positions than selectors, every position is picked
/// and the selectors beyond them are left without one.
///
/// The `j`-th pick is driven by the `j`-th selector alone, so that shrinking a
/// selector moves its pick toward zero.
pub fn pick_slice_idxs(max: usize, selectors: &Vec<Index>) -> (r: Vec<usize>)
    ensures
        r@.len() == if selectors@.len() < max { selectors@.len() } else { max as nat },
        r@.no_duplicates(),
        forall|i: int| 0 <= i < r@.len() ==> #[trigger] r@[i] < max,
{
    let count: usize = if selectors.len() < max { selectors.len() } else { max };
    let mut r: Vec<usize> = Vec::new();
    let mut j: usize = 0;
    while j < count
        invariant
            count <= max,
            count <= selectors@.len(),
            j <= count,
            r@.len() == j,
            r@.no_duplicates(),
            forall|i: int| 0 <= i < r@.len() ==> #[trigger] r@[i] < max - count + j,
        decreases count - j,
    {
        let choice: usize = max - count + j;
        let idx = selectors[j].index(choice + 1);
        let pick = if contains_index(&r, idx) { choice } else { idx };
        proof {
            assert(!r@.contains(pick)) by {
                if r@.contains(pick) {
                    let k = choose|k: int| 0 <= k < r@.len() && r@[k] == pick;
                    assert(r@[k] < choice);
                }
            }
        }
        r.push(pick);
        proof {
            assert forall|a: int, b: int|
                0 <= a < r@.len() && 0 <= b < r@.len() && a != b implies r@[a] != r@[b] by {
                if a < j as int && b < j as int {
                    assert(r@[a] == r@.drop_last()[a]);
                }
            }
        }
        j += 1;
    }
    r
}

} // verus!
