//! Triangle index generation for a UV sphere: the bands between the
//! pole caps are quad cells, two triangles each, wound clockwise seen
//! from outside. One variant serves the renderer's in-memory mesh, one
//! the model files written at build time; they differ only in how many
//! rows a hemisphere contributes.

use vstd::prelude::*;

verus! {

/// The six indices of the quad cell at row `lo`, column `la` (columns
/// count from one): the upper and lower edge of the cell split into two
/// clockwise triangles, the last column wrapping back to the first.
pub open spec fn sphere_cell(long: int, off: int, lo: int, la: int) -> Seq<u16> {
    let la2 = (la % long) + 1;
    let u1 = la + long * lo + off;
    let u2 = la2 + long * lo + off;
    let b1 = la + long * (lo + 1) + off;
    let b2 = la2 + long * (lo + 1) + off;
    seq![u1 as u16, b1 as u16, b2 as u16, u1 as u16, b2 as u16, u2 as u16]
}

/// The cells of row `lo`, columns one through `la_count`, concatenated.
pub open spec fn sphere_row(long: int, off: int, lo: int, la_count: int) -> Seq<u16>
    decreases la_count,
{
    if la_count <= 0 {
        Seq::empty()
    } else {
        sphere_row(long, off, lo, la_count - 1) + sphere_cell(long, off, lo, la_count)
    }
}

/// The rows `start` through `start + rows - 1`, concatenated.
pub open spec fn sphere_band(long: int, off: int, start: int, rows: int) -> Seq<u16>
    decreases rows,
{
    if rows <= 0 {
        Seq::empty()
    } else {
        sphere_band(long, off, start, rows - 1) + sphere_row(long, off, start + rows - 1, long)
    }
}

/// Appends the indices of the rows `start..end` with vertex offset
/// `off`: exactly [`sphere_band`] over those rows.
fn push_band(
    long: u16,
    off: u16,
    start: u16,
    end: u16,
    index_data: &mut Vec<u16>,
)
    requires
        1 <= long <= 250,
        0 <= start <= end <= 250,
        off <= 250,
    ensures
        final(index_data)@ == old(index_data)@ + sphere_band(
            long as int,
            off as int,
            start as int,
            end - start,
        ),
{
    let ghost base = index_data@;
    let mut lo = start;
    while lo < end
        invariant
            1 <= long <= 250,
            start <= lo <= end <= 250,
            off <= 250,
            index_data@ == base + sphere_band(long as int, off as int, start as int, lo - start),
        decreases end - lo,
    {
        let ghost row_base = index_data@;
        let mut la: u16 = 1;
        while la <= long
            invariant
                1 <= long <= 250,
                start <= lo < end <= 250,
                off <= 250,
                1 <= la <= long + 1,
                index_data@ == row_base + sphere_row(long as int, off as int, lo as int, la - 1),
            decreases long + 1 - la,
        {
            proof {
                assert(0 <= long * lo <= 62500 && 0 <= long * (lo + 1) <= 62750)
                    by (nonlinear_arith)
                    requires
                        1 <= long <= 250,
                        0 <= lo <= 249,
                ;
            }
            let la1 = la;
            let la2 = (la % long) + 1;
            let u1 = la1 + long * lo;
            let u2 = la2 + long * lo;
            let b1 = la1 + long * (lo + 1);
            let b2 = la2 + long * (lo + 1);
            index_data.push(u1 + off);
            index_data.push(b1 + off);
            index_data.push(b2 + off);
            index_data.push(u1 + off);
            index_data.push(b2 + off);
            index_data.push(u2 + off);
            proof {
                assert(index_data@ =~= row_base + sphere_row(
                    long as int,
                    off as int,
                    lo as int,
                    la as int,
                ));
            }
            la = la + 1;
        }
        proof {
            assert(index_data@ =~= base + sphere_band(
                long as int,
                off as int,
                start as int,
                lo + 1 - start,
            ));
        }
        lo = lo + 1;
    }
}

/// Appends one hemisphere's band indices for the renderer's sphere
/// mesh: the northern hemisphere contributes the rows from the pole cap
/// to the equator, the southern the remaining rows with the vertex
/// numbering shifted one ring.
pub fn push_index_data(
    latitude_count: usize,
    longtitude_count: usize,
    is_northern: bool,
    index_data: &mut Vec<u16>,
)
    requires
        2 <= latitude_count <= 250,
        latitude_count % 2 == 0,
        1 <= longtitude_count <= 250,
    ensures
        final(index_data)@ == old(index_data)@ + ({
            let half = latitude_count as int / 2;
            if is_northern {
                sphere_band(longtitude_count as int, 0, 0, half)
            } else {
                sphere_band(
                    longtitude_count as int,
                    longtitude_count as int,
                    half - 1,
                    latitude_count - 2 - (half - 1),
                )
            }
        }),
{
    let half_latitude_count = latitude_count / 2;
    let (start, end) = if is_northern {
        (0, half_latitude_count)
    } else {
        (half_latitude_count - 1, latitude_count - 2)
    };
    let offset: u16 = if is_northern {
        0
    } else {
        longtitude_count as u16
    };
    push_band(longtitude_count as u16, offset, start as u16, end as u16, index_data);
}

/// Appends one hemisphere's band indices for the model files: as
/// [`push_index_data`], but the northern hemisphere stops one row short
/// of the equator.
pub fn push_index_for_sphere(
    latitude_count: u16,
    longtitude_count: u16,
    is_northern: bool,
    index_data: &mut Vec<u16>,
)
    requires
        2 <= latitude_count <= 250,
        latitude_count % 2 == 0,
        1 <= longtitude_count <= 250,
    ensures
        final(index_data)@ == old(index_data)@ + ({
            let half = latitude_count as int / 2;
            if is_northern {
                sphere_band(longtitude_count as int, 0, 0, half - 1)
            } else {
                sphere_band(
                    longtitude_count as int,
                    longtitude_count as int,
                    half - 1,
                    latitude_count - 2 - (half - 1),
                )
            }
        }),
{
    let half_latitude_count = latitude_count / 2;
    let (start, end, offset) = if is_northern {
        (0, half_latitude_count - 1, 0)
    } else {
        (half_latitude_count - 1, latitude_count - 2, longtitude_count)
    };
    push_band(longtitude_count, offset, start, end, index_data);
}

} // verus!
