//! Selection of sparse splats: those with few neighbours within a radius.
//!
//! Which splats lie within the radius of one another is a matter of
//! distances between numbers; the caller finds that out, with a spatial index
//! over the positions, and hands in what it found. What is selected from it is
//! decided here.

use vstd::prelude::*;

verus! {

/// Bit pattern of the default radius, five hundredths.
pub const DEFAULT_RADIUS_BITS: u32 = 0x3d4c_cccd;

/// The state of a sparse selection.
#[derive(Clone, Copy, Debug, PartialEq, Eq)]
pub struct SparseSelect {
    /// Bit pattern of the radius within which neighbours are counted.
    pub radius: u32,
    /// A splat with fewer neighbours than this is sparse.
    pub neighbor_threshold: usize,
    /// Set once the selection was made; while it is set nothing is selected
    /// anew.
    pub completed: bool,
}

impl Default for SparseSelect {
    fn default() -> (select: Self)
        ensures
            select.radius == DEFAULT_RADIUS_BITS,
            select.neighbor_threshold == 4,
            !select.completed,
    {
        SparseSelect { radius: DEFAULT_RADIUS_BITS, neighbor_threshold: 4, completed: false }
    }
}

/// How many of `hits` name another splat than `index`.
pub open spec fn others(hits: Seq<usize>, index: usize) -> nat
    decreases hits.len(),
{
    if hits.len() == 0 {
        0
    } else {
        others(hits.drop_last(), index) + if hits.last() != index {
            1nat
        } else {
            0nat
        }
    }
}

/// Counts the neighbours of the splat `index`, given the splats found
/// within the radius of its position: the splat itself, which such a search
/// finds too, is no neighbour of its own.
pub fn neighbor_count(hits: &[usize], index: usize) -> (count: usize)
    ensures
        count == others(hits@, index),
{
    let mut count: usize = 0;
    let mut k: usize = 0;
    while k < hits.len()
        invariant
            k <= hits@.len(),
            count == others(hits@.subrange(0, k as int), index),
            count <= k,
        decreases hits@.len() - k,
    {
        proof {
            assert(hits@.subrange(0, k + 1).drop_last() =~= hits@.subrange(0, k as int));
        }
        if hits[k] != index {
            count = count + 1;
        }
        k = k + 1;
    }
    proof {
        assert(hits@.subrange(0, k as int) =~= hits@);
    }
    count
}

/// The sparse splats among the first `upto`: the indices, in ascending
/// order, of those with fewer than `threshold` neighbours.
pub open spec fn sparse_indices(neighbor_counts: Seq<usize>, threshold: usize, upto: nat) -> Seq<
    usize,
>
    decreases upto,
{
    if upto == 0 {
        Seq::empty()
    } else {
        let before = sparse_indices(neighbor_counts, threshold, (upto - 1) as nat);
        if neighbor_counts[upto - 1] < threshold {
            before.push((upto - 1) as usize)
        } else {
            before
        }
    }
}

/// The selection holds exactly the sparse splats, each once, in ascending
/// order.
pub proof fn lemma_sparse_indices(neighbor_counts: Seq<usize>, threshold: usize, upto: nat)
    requires
        upto <= neighbor_counts.len(),
        neighbor_counts.len() <= usize::MAX,
    ensures
        forall|k: int|
            0 <= k < sparse_indices(neighbor_counts, threshold, upto).len() ==> {
                let index = #[trigger] sparse_indices(neighbor_counts, threshold, upto)[k];
                index < upto && neighbor_counts[index as int] < threshold
            },
        forall|i: int|
            0 <= i < upto && neighbor_counts[i] < threshold ==> sparse_indices(
                neighbor_counts,
                threshold,
                upto,
            ).contains(i as usize),
        forall|j: int, k: int|
            0 <= j < k < sparse_indices(neighbor_counts, threshold, upto).len() ==> sparse_indices(
                neighbor_counts,
                threshold,
                upto,
            )[j] < sparse_indices(neighbor_counts, threshold, upto)[k],
    decreases upto,
{
    if upto > 0 {
        let before = sparse_indices(neighbor_counts, threshold, (upto - 1) as nat);
        let all = sparse_indices(neighbor_counts, threshold, upto);
        lemma_sparse_indices(neighbor_counts, threshold, (upto - 1) as nat);
        assert forall|i: int| 0 <= i < upto && neighbor_counts[i] < threshold implies all.contains(
            i as usize,
        ) by {
            if i < upto - 1 {
                assert(before.contains(i as usize));
                let k = choose|k: int| 0 <= k < before.len() && before[k] == i as usize;
                assert(all[k] == i as usize);
            } else {
                assert(all[all.len() - 1] == i as usize);
            }
        }
    }
}

/// Selects the sparse splats from the neighbour counts of all splats.
pub fn select_sparse(neighbor_counts: &[usize], neighbor_threshold: usize) -> (selection: Vec<
    usize,
>)
    ensures
        selection@ == sparse_indices(
            neighbor_counts@,
            neighbor_threshold,
            neighbor_counts@.len(),
        ),
{
    let mut selection: Vec<usize> = Vec::new();
    let mut i: usize = 0;
    while i < neighbor_counts.len()
        invariant
            i <= neighbor_counts@.len(),
            selection@ == sparse_indices(neighbor_counts@, neighbor_threshold, i as nat),
        decreases neighbor_counts@.len() - i,
    {
        if neighbor_counts[i] < neighbor_threshold {
            selection.push(i);
        }
        i = i + 1;
    }
    selection
}

impl SparseSelect {
    /// Makes the selection, once. While `completed` is set this does nothing
    /// and gives `None`; otherwise it sets `completed` and gives the sparse
    /// splats. Radius and threshold stay as they are.
    pub fn evaluate(&mut self, neighbor_counts: &[usize]) -> (selection: Option<Vec<usize>>)
        ensures
            final(self).radius == old(self).radius,
            final(self).neighbor_threshold == old(self).neighbor_threshold,
            final(self).completed,
            match selection {
                Some(indices) => !old(self).completed && indices@ == sparse_indices(
                    neighbor_counts@,
                    old(self).neighbor_threshold,
                    neighbor_counts@.len(),
                ),
                None => old(self).completed,
            },
    {
        if self.completed {
            return None;
        }
        self.completed = true;
        Some(select_sparse(neighbor_counts, self.neighbor_threshold))
    }
}

} // verus!
