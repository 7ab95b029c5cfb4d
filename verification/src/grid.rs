//! One explicit time-step of a 4-neighbor diffusion update over a 2D
//! grid flattened row-major into a vector.
//!
//! Each cell sends a fifth of its value to each existing orthogonal
//! neighbor and keeps the rest, including the fifths that would have
//! gone to missing edge neighbors.  Cell values are integers in
//! whatever fixed-point unit the caller chose; the whole outflow and
//! inflow of a cell is summed first and divided by five once, so a
//! uniform grid is reproduced exactly.

use vstd::arithmetic::div_mod::lemma_fundamental_div_mod;
use vstd::arithmetic::div_mod::lemma_mod_bound;
use vstd::prelude::*;

verus! {

/// Largest admitted cell value: a cell's retained value plus its four
/// inflows stays within a machine word.
pub const CELL_LIMIT: u64 = 3_689_348_814_741_910_323;

/// The cell left of `i` exists: `i` is not in the first column.
pub open spec fn has_left(i: int, width: int) -> bool {
    i % width != 0
}

/// The cell right of `i` exists: `i` is not in the last column.
pub open spec fn has_right(i: int, width: int) -> bool {
    i % width != width - 1
}

/// The cell above `i` exists: `i` is not in the first row.
pub open spec fn has_up(i: int, width: int) -> bool {
    i >= width
}

/// The cell below `i` exists.
pub open spec fn has_down(i: int, width: int, len: int) -> bool {
    i + width < len
}

/// How many orthogonal neighbors cell `i` has.
pub open spec fn neighbor_count(i: int, width: int, len: int) -> int {
    (if has_left(i, width) {
        1int
    } else {
        0int
    }) + (if has_right(i, width) {
        1int
    } else {
        0int
    }) + (if has_up(i, width) {
        1int
    } else {
        0int
    }) + (if has_down(i, width, len) {
        1int
    } else {
        0int
    })
}

/// The sum of the values of cell `i`'s neighbors.
pub open spec fn neighbor_sum(s: Seq<u64>, i: int, width: int) -> int {
    (if has_left(i, width) {
        s[i - 1] as int
    } else {
        0int
    }) + (if has_right(i, width) {
        s[i + 1] as int
    } else {
        0int
    }) + (if has_up(i, width) {
        s[i - width] as int
    } else {
        0int
    }) + (if has_down(i, width, s.len() as int) {
        s[i + width] as int
    } else {
        0int
    })
}

/// The updated value of cell `i`: it keeps a fifth for each missing
/// neighbor plus its own retained fifth, and receives a fifth of each
/// neighbor; summed first and divided by five once.
pub open spec fn fdm_cell(s: Seq<u64>, width: int, i: int) -> int {
    (s[i] * (5 - neighbor_count(i, width, s.len() as int)) + neighbor_sum(s, i, width)) / 5
}

/// The indices of cell `i`'s orthogonal neighbors, in the order left,
/// right, up, down.
pub open spec fn adjacents_seq(i: int, width: int, len: int) -> Seq<int> {
    (if has_left(i, width) {
        seq![i - 1]
    } else {
        Seq::<int>::empty()
    }) + (if has_right(i, width) {
        seq![i + 1]
    } else {
        Seq::<int>::empty()
    }) + (if has_up(i, width) {
        seq![i - width]
    } else {
        Seq::<int>::empty()
    }) + (if has_down(i, width, len) {
        seq![i + width]
    } else {
        Seq::<int>::empty()
    })
}

/// A cell outside the first column is not cell zero.
proof fn lemma_left_in_bounds(i: int, width: int)
    requires
        width >= 1,
        0 <= i,
        i % width != 0,
    ensures
        i >= 1,
{
    assert(i >= 1) by (nonlinear_arith)
        requires
            width >= 1,
            0 <= i,
            i % width != 0,
    ;
}

/// In a grid of whole rows, a cell not in the last column is not the
/// last cell.
proof fn lemma_right_in_bounds(i: int, width: int, len: int)
    requires
        width >= 1,
        len % width == 0,
        0 <= i < len,
        i % width != width - 1,
    ensures
        i + 1 < len,
{
    lemma_fundamental_div_mod(i, width);
    lemma_mod_bound(i, width);
    lemma_fundamental_div_mod(len, width);
    let q = i / width;
    let r = i % width;
    let m = len / width;
    assert(q < m) by (nonlinear_arith)
        requires
            width >= 1,
            i == width * q + r,
            0 <= r < width,
            len == width * m,
            i < len,
    ;
    assert(i + 1 < len) by (nonlinear_arith)
        requires
            width >= 1,
            i == width * q + r,
            0 <= r < width - 1,
            len == width * m,
            q + 1 <= m,
    ;
}

/// Lists cell `index`'s orthogonal neighbors, in the order left, right,
/// up, down.
pub fn adjacent_tiles(index: usize, width: usize, size: usize) -> (r: Vec<usize>)
    requires
        width >= 1,
        size % width == 0,
        index < size,
    ensures
        r@.map_values(|u: usize| u as int) == adjacents_seq(index as int, width as int, size as int),
        forall|x: int| 0 <= x < r@.len() ==> #[trigger] r@[x] < size,
{
    let mut r: Vec<usize> = Vec::new();
    proof {
        lemma_mod_bound(index as int, width as int);
    }
    if index % width != 0 {
        proof {
            lemma_left_in_bounds(index as int, width as int);
        }
        r.push(index - 1);
    }
    if index % width != width - 1 {
        proof {
            lemma_right_in_bounds(index as int, width as int, size as int);
        }
        r.push(index + 1);
    }
    if index >= width {
        r.push(index - width);
    }
    if width < size - index {
        r.push(index + width);
    }
    proof {
        assert(r@.map_values(|u: usize| u as int) =~= adjacents_seq(
            index as int,
            width as int,
            size as int,
        ));
    }
    r
}

/// One diffusion step over the whole grid.
#[verifier::loop_isolation(false)]
pub fn fdm(arr: &Vec<u64>, width: usize) -> (r: Vec<u64>)
    requires
        width >= 1,
        arr.len() % width == 0,
        forall|x: int| 0 <= x < arr.len() ==> #[trigger] arr[x] <= CELL_LIMIT,
    ensures
        r.len() == arr.len(),
        forall|x: int| 0 <= x < arr.len() ==> #[trigger] r[x] as int == fdm_cell(
            arr@,
            width as int,
            x,
        ),
{
    let mut r: Vec<u64> = Vec::new();
    let mut i: usize = 0;
    while i < arr.len()
        invariant
            i <= arr.len(),
            r.len() == i,
            forall|x: int| 0 <= x < i ==> #[trigger] r[x] as int == fdm_cell(arr@, width as int, x),
        decreases arr.len() - i,
    {
        proof {
            lemma_mod_bound(i as int, width as int);
            assert(arr[i as int] <= CELL_LIMIT);
        }
        let mut count: u64 = 0;
        let mut inflow: u128 = 0;
        if i % width != 0 {
            proof {
                lemma_left_in_bounds(i as int, width as int);
                assert(arr[i as int - 1] <= CELL_LIMIT);
            }
            count = count + 1;
            inflow = inflow + (arr[i - 1] as u128);
        }
        if i % width != width - 1 {
            proof {
                lemma_right_in_bounds(i as int, width as int, arr.len() as int);
                assert(arr[i as int + 1] <= CELL_LIMIT);
            }
            count = count + 1;
            inflow = inflow + (arr[i + 1] as u128);
        }
        if i >= width {
            proof {
                assert(arr[i as int - width as int] <= CELL_LIMIT);
            }
            count = count + 1;
            inflow = inflow + (arr[i - width] as u128);
        }
        if width < arr.len() - i {
            proof {
                assert(arr[i as int + width as int] <= CELL_LIMIT);
            }
            count = count + 1;
            inflow = inflow + (arr[i + width] as u128);
        }
        proof {
            assert((arr[i as int] as int) * ((5 - count) as int) <= 5 * (CELL_LIMIT as int))
                by (nonlinear_arith)
                requires
                    0 <= arr[i as int] as int <= CELL_LIMIT as int,
                    0 <= (5 - count) as int <= 5,
            ;
        }
        let kept: u128 = (arr[i] as u128) * ((5 - count) as u128);
        let cell: u64 = ((kept + inflow) / 5) as u64;
        proof {
            assert(count as int == neighbor_count(i as int, width as int, arr.len() as int));
            assert(inflow as int == neighbor_sum(arr@, i as int, width as int));
            assert(cell as int == fdm_cell(arr@, width as int, i as int));
        }
        r.push(cell);
        i = i + 1;
    }
    r
}

/// Steady state of the stencil: on a grid of whole rows whose cells all
/// hold one and the same value, one diffusion step changes nothing —
/// every cell's fifth-per-neighbor exchange balances exactly, for any
/// width and height.
pub proof fn lemma_fdm_uniform(s: Seq<u64>, width: int, v: u64)
    requires
        width >= 1,
        (s.len() as int) % width == 0,
        forall|x: int| 0 <= x < s.len() ==> #[trigger] s[x] == v,
    ensures
        forall|x: int| 0 <= x < s.len() ==> #[trigger] fdm_cell(s, width, x) == v,
{
    assert forall|x: int| 0 <= x < s.len() implies #[trigger] fdm_cell(s, width, x) == v by {
        let len = s.len() as int;
        let n = neighbor_count(x, width, len);
        let li: int = if has_left(x, width) {
            1
        } else {
            0
        };
        let lv: int = if has_left(x, width) {
            s[x - 1] as int
        } else {
            0
        };
        let ri: int = if has_right(x, width) {
            1
        } else {
            0
        };
        let rv: int = if has_right(x, width) {
            s[x + 1] as int
        } else {
            0
        };
        let ui: int = if has_up(x, width) {
            1
        } else {
            0
        };
        let uv: int = if has_up(x, width) {
            s[x - width] as int
        } else {
            0
        };
        let di: int = if has_down(x, width, len) {
            1
        } else {
            0
        };
        let dv: int = if has_down(x, width, len) {
            s[x + width] as int
        } else {
            0
        };
        if has_left(x, width) {
            lemma_left_in_bounds(x, width);
            assert(s[x - 1] == v);
        }
        if has_right(x, width) {
            lemma_right_in_bounds(x, width, len);
            assert(s[x + 1] == v);
        }
        assert((li == 1 && lv == v as int) || (li == 0 && lv == 0));
        assert((ri == 1 && rv == v as int) || (ri == 0 && rv == 0));
        assert((ui == 1 && uv == v as int) || (ui == 0 && uv == 0));
        assert((di == 1 && dv == v as int) || (di == 0 && dv == 0));
        assert(lv + rv + uv + dv == (li + ri + ui + di) * (v as int)) by (nonlinear_arith)
            requires
                (li == 1 && lv == v as int) || (li == 0 && lv == 0),
                (ri == 1 && rv == v as int) || (ri == 0 && rv == 0),
                (ui == 1 && uv == v as int) || (ui == 0 && uv == 0),
                (di == 1 && dv == v as int) || (di == 0 && dv == 0),
        ;
        assert(neighbor_sum(s, x, width) == n * (v as int));
        assert(s[x] * (5 - n) + n * (v as int) == 5 * (v as int)) by (nonlinear_arith)
            requires
                s[x] == v,
        ;
        assert((5 * (v as int)) / 5 == v as int) by {
            vstd::arithmetic::div_mod::lemma_div_multiples_vanish(v as int, 5);
        }
    }
}

} // verus!
