//! Index data for drawing the spectrum as a strip of column triangles.

use vstd::prelude::*;

verus! {

/// Largest column count whose indices all fit in a `u32`.
pub const MAX_COLUMNS: usize = 0x7fff_ffff;

/// The index triple of column `i`: its base corner, the base corner of the next
/// column, and its own top corner.
pub open spec fn column_indices(i: int) -> Seq<int> {
    seq![2 * i, 2 * i + 2, 2 * i + 1]
}

/// The index buffer for `size` columns: entry `3 * i + k` is entry `k` of
/// `column_indices(i)`.
pub open spec fn index_buffer(size: nat) -> Seq<int> {
    Seq::new(3 * size, |j: int| column_indices(j / 3)[j % 3])
}

/// Builds the index buffer for `size` columns.
pub fn get_indices(size: usize) -> (indices: Vec<u32>)
    requires
        size <= MAX_COLUMNS,
    ensures
        indices@.len() == 3 * size,
        indices@.map_values(|v: u32| v as int) == index_buffer(size as nat),
{
    let mut indices: Vec<u32> = Vec::new();
    let mut i: usize = 0;
    while i < size
        invariant
            i <= size,
            size <= MAX_COLUMNS,
            indices@.len() == 3 * i,
            forall|j: int| 0 <= j < 3 * i ==> indices@[j] as int == #[trigger] index_buffer(size as nat)[j],
        decreases size - i,
    {
        let k: u32 = (i as u32) * 2;
        indices.push(k);
        indices.push(k + 2);
        indices.push(k + 1);
        i = i + 1;
    }
    indices
}

} // verus!
