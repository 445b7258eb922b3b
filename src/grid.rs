use vstd::prelude::*;

verus! {

/// Whether grid cell `location` is active: the hash byte at `location`,
/// wrapping around the end of the hash, is even.
pub open spec fn cell_spec(hash: Seq<u8>, location: int) -> bool {
    hash[location % (hash.len() as int)] % 2 == 0
}

/// The `size` by `size` grid of a hash, flattened row by row.
pub open spec fn grid_spec(size: u32, hash: Seq<u8>) -> Seq<bool> {
    Seq::new((size * size) as nat, |location: int| cell_spec(hash, location))
}

/// Identicon grid generation.
///
/// The hash determines the grid: each cell whose hash byte is even is active.
pub fn generate_full_grid(image_size: u32, hash: &[u8]) -> (r: Vec<bool>)
    requires
        hash@.len() > 0,
        image_size * image_size <= usize::MAX,
    ensures
        r@ == grid_spec(image_size, hash@),
{
    let square_count: usize = image_size as usize * image_size as usize;
    let mut grid: Vec<bool> = Vec::with_capacity(square_count);
    let mut location: usize = 0;
    while location < square_count
        invariant
            square_count == image_size * image_size,
            location <= square_count,
            hash@.len() > 0,
            grid@ =~= grid_spec(image_size, hash@).subrange(0, location as int),
        decreases square_count - location,
    {
        grid.push(hash[location % hash.len()] % 2 == 0);
        location += 1;
    }
    grid
}

} // verus!
