use vstd::prelude::*;

verus! {

/// The number of indices of a draw call: the low 32 bits of the length
/// of the index list.
pub fn element_count(indices: usize) -> (count: u32)
    ensures
        count == (indices as int) % 0x1_0000_0000,
{
    ((indices as u64) % 0x1_0000_0000) as u32
}

/// Whether a vertex buffer of `capacity` bytes must be replaced by a
/// larger one before `needed` bytes are copied into it.
pub fn must_grow(capacity: u64, needed: u64) -> (grow: bool)
    ensures
        grow == (capacity < needed),
{
    capacity < needed
}

/// Whether a surface of this size can be configured and drawn to.
pub fn is_drawable(width: u32, height: u32) -> (drawable: bool)
    ensures
        drawable == (width > 0 && height > 0),
{
    width > 0 && height > 0
}

/// The index list of a box: two triangles for each of its six faces.
pub open spec fn spec_cube_indices() -> Seq<u32> {
    seq![
        0, 1, 2, 1, 3, 2, 0, 2, 4, 4, 2, 6, 1, 5, 3, 5, 7, 3, 0, 4, 1, 4, 5, 1, 2, 3, 6, 6, 3, 7, 4,
        6, 5, 6, 7, 5,
    ]
}

/// The index list of a box of eight corners: two triangles for each of
/// its six faces. Corner `n` is the far end in x where bit 0 of `n` is
/// set, in y where bit 1 is set, in z where bit 2 is set.
pub fn cube_indices() -> (indices: Vec<u32>)
    ensures
        indices@ == spec_cube_indices(),
{
    let indices: Vec<u32> = vec![
        0, 1, 2, 1, 3, 2, 0, 2, 4, 4, 2, 6, 1, 5, 3, 5, 7, 3, 0, 4, 1, 4, 5, 1, 2, 3, 6, 6, 3, 7, 4,
        6, 5, 6, 7, 5,
    ];
    proof {
        assert(indices@ =~= spec_cube_indices());
    }
    indices
}

} // verus!
