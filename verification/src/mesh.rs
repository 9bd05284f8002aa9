//! Grid mesh generation.
//!
//! The water surface starts from a flat `grid_size × grid_size` lattice of
//! unit squares, each split into two triangles (six vertices per square).
//! The library produces the lattice coordinates exactly; the caller scales
//! every coordinate by the configured per-cell world size when converting
//! the mesh to the graphics API's vertex format, so each final coordinate is
//! a multiple of that scale, offset by the cell's grid index.

use vstd::prelude::*;

verus! {

/// Largest accepted grid side length: keeps the draw call's vertex count
/// (`6 · grid_size²`) within the 31-bit count a triangle-list draw accepts.
pub const GRID_SIZE_MAX: u32 = 18918;

/// Number of logical vertices the draw call covers for a given side length:
/// two triangles of three vertices each, per cell.
pub open spec fn spec_vertex_count(grid_size: int) -> int {
    6 * grid_size * grid_size
}

/// Flat count of coordinate scalars in the mesh: two per vertex.
pub open spec fn spec_coord_count(grid_size: int) -> int {
    12 * grid_size * grid_size
}

/// The twelve coordinate scalars of one cell, interleaved `x, y` per vertex:
/// first triangle `(j, i) (j+1, i) (j, i+1)`, then `(j, i+1) (j+1, i) (j+1, i+1)`,
/// for the cell in row `i`, column `j`.
pub open spec fn spec_cell_coords(i: int, j: int) -> Seq<int> {
    seq![j, i, j + 1, i, j, i + 1, j, i + 1, j + 1, i, j + 1, i + 1]
}

/// The cell at row `i`, column `j` occupies the right twelve slots of `s`
/// with exactly the coordinates of `spec_cell_coords`.
pub open spec fn cell_in_place(s: Seq<u32>, grid_size: int, i: int, j: int) -> bool {
    let base = 12 * (i * grid_size + j);
    forall|k: int| 0 <= k < 12 ==> s[base + k] == spec_cell_coords(i, j)[k]
}

/// A complete flat mesh for the given side length.
pub open spec fn mesh_complete(s: Seq<u32>, grid_size: int) -> bool {
    &&& s.len() == spec_coord_count(grid_size)
    &&& forall|i: int, j: int|
        0 <= i < grid_size && 0 <= j < grid_size ==> #[trigger] cell_in_place(s, grid_size, i, j)
}

/// The vertex count handed to the triangle-list draw call.
pub fn draw_vertex_count(grid_size: u32) -> (count: u32)
    requires
        grid_size <= GRID_SIZE_MAX,
    ensures
        count == spec_vertex_count(grid_size as int),
{
    proof {
        assert(6 * (grid_size as int) * (grid_size as int) <= 6 * 18918 * 18918)
            by (nonlinear_arith)
            requires
                0 <= grid_size <= 18918,
        ;
    }
    6 * grid_size * grid_size
}

/// Build the flat lattice mesh: for every cell, the twelve interleaved
/// coordinate scalars of its two triangles, cells ordered row by row.
pub fn grid_vertices(grid_size: u32) -> (coords: Vec<u32>)
    requires
        grid_size <= GRID_SIZE_MAX,
    ensures
        mesh_complete(coords@, grid_size as int),
{
    proof {
        assert(12 * (grid_size as int) * (grid_size as int) <= 12 * 18918 * 18918)
            by (nonlinear_arith)
            requires
                0 <= grid_size <= 18918,
        ;
    }
    let n = grid_size;
    let mut coords: Vec<u32> = Vec::new();
    let mut i: u32 = 0;
    while i < n
        invariant
            i <= n,
            n <= GRID_SIZE_MAX,
            coords@.len() == 12 * ((i as int) * (n as int)),
            forall|a: int, b: int|
                0 <= a < i && 0 <= b < n ==> #[trigger] cell_in_place(coords@, n as int, a, b),
        decreases n - i,
    {
        let mut j: u32 = 0;
        while j < n
            invariant
                i < n,
                j <= n,
                n <= GRID_SIZE_MAX,
                coords@.len() == 12 * ((i as int) * (n as int) + j as int),
                forall|a: int, b: int|
                    0 <= a < i && 0 <= b < n ==> #[trigger] cell_in_place(coords@, n as int, a, b),
                forall|b: int|
                    0 <= b < j ==> #[trigger] cell_in_place(coords@, n as int, i as int, b),
            decreases n - j,
        {
            proof {
                assert((i as int) * (n as int) + (j as int) < 18918 * 18918 + 18918)
                    by (nonlinear_arith)
                    requires
                        0 <= i < n <= 18918 && 0 <= j < n,
                ;
            }
            let ghost before = coords@;
            coords.push(j);
            coords.push(i);
            coords.push(j + 1);
            coords.push(i);
            coords.push(j);
            coords.push(i + 1);
            coords.push(j);
            coords.push(i + 1);
            coords.push(j + 1);
            coords.push(i);
            coords.push(j + 1);
            coords.push(i + 1);
            proof {
                assert(cell_in_place(coords@, n as int, i as int, j as int)) by {
                    assert(forall|k: int|
                        0 <= k < 12 ==> coords@[before.len() + k] == #[trigger] spec_cell_coords(
                            i as int,
                            j as int,
                        )[k]);
                }
                assert(forall|a: int, b: int|
                    0 <= a < i && 0 <= b < n && cell_in_place(before, n as int, a, b)
                        ==> #[trigger] cell_in_place(coords@, n as int, a, b)) by {
                    assert forall|a: int, b: int|
                        0 <= a < i && 0 <= b < n && cell_in_place(before, n as int, a, b)
                        implies #[trigger] cell_in_place(coords@, n as int, a, b) by {
                        assert(12 * (a * (n as int) + b) + 12 <= before.len()) by (nonlinear_arith)
                            requires
                                0 <= a < (i as int) && 0 <= b < (n as int) && before.len() == 12 * (
                                (i as int) * (n as int) + (j as int)),
                        ;
                        assert(forall|k: int|
                            0 <= k < 12 ==> #[trigger] coords@[12 * (a * (n as int) + b) + k]
                                == before[12 * (a * (n as int) + b) + k]);
                    }
                }
                assert(forall|b: int|
                    0 <= b < j && cell_in_place(before, n as int, i as int, b)
                        ==> #[trigger] cell_in_place(coords@, n as int, i as int, b)) by {
                    assert forall|b: int|
                        0 <= b < j && cell_in_place(before, n as int, i as int, b)
                        implies #[trigger] cell_in_place(coords@, n as int, i as int, b) by {
                        assert(12 * ((i as int) * (n as int) + b) + 12 <= before.len())
                            by (nonlinear_arith)
                            requires
                                0 <= b < (j as int) && before.len() == 12 * ((i as int) * (n as int)
                                    + (j as int)),
                        ;
                        assert(forall|k: int|
                            0 <= k < 12 ==> #[trigger] coords@[12 * ((i as int) * (n as int) + b)
                                + k] == before[12 * ((i as int) * (n as int) + b) + k]);
                    }
                }
            }
            j = j + 1;
        }
        i = i + 1;
        proof {
            assert((i as int) * (n as int) == ((i - 1) as int) * (n as int) + (n as int))
                by (nonlinear_arith);
        }
    }
    proof {
        assert(12 * (n as int) * (n as int) == 12 * ((n as int) * (n as int)))
            by (nonlinear_arith);
    }
    coords
}

} // verus!
