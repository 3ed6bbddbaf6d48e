//! The demo scene's box grid: the coordinates the startup code spawns a box
//! at, `box_count` per axis, centered on the origin.

use vstd::prelude::*;

verus! {

/// How many boxes one axis of the grid holds: the coordinates run from
/// `-(amount / 2)` up to but not including `amount / 2`.
pub open spec fn grid_side(amount: int) -> int {
    if amount <= 0 {
        0
    } else {
        2 * (amount / 2)
    }
}

/// How many boxes the whole grid holds.
pub open spec fn grid_count(amount: int) -> int {
    grid_side(amount) * grid_side(amount) * grid_side(amount)
}

/// The first coordinate of the `k`-th box, in the order the grid is walked:
/// the first axis varies slowest.
pub open spec fn grid_x_at(amount: int, k: int) -> int {
    k / (grid_side(amount) * grid_side(amount)) - amount / 2
}

/// The second coordinate of the `k`-th box.
pub open spec fn grid_y_at(amount: int, k: int) -> int {
    (k / grid_side(amount)) % grid_side(amount) - amount / 2
}

/// The third coordinate of the `k`-th box; it varies fastest.
pub open spec fn grid_z_at(amount: int, k: int) -> int {
    k % grid_side(amount) - amount / 2
}

/// The box coordinates of a grid with `amount` boxes per axis, one triple
/// per box, the third axis varying fastest. An `amount` below two yields an
/// empty grid.
pub fn grid_coordinates(amount: i64) -> (r: Vec<(i64, i64, i64)>)
    requires
        amount <= 200,
    ensures
        r@.len() == grid_count(amount as int),
        forall|k: int|
            0 <= k < r@.len() ==> r@[k].0 == grid_x_at(amount as int, k) && r@[k].1 == grid_y_at(
                amount as int,
                k,
            ) && r@[k].2 == grid_z_at(amount as int, k),
{
    if amount <= 1 {
        let r: Vec<(i64, i64, i64)> = Vec::new();
        proof {
            if amount <= 0 {
                assert(grid_count(amount as int) == 0);
            } else {
                assert(amount == 1 && amount as int / 2 == 0);
                assert(grid_count(amount as int) == 0);
            }
        }
        return r;
    }
    let h: u64 = (amount as u64) / 2;
    let side: u64 = 2 * h;
    proof {
        assert(side == grid_side(amount as int));
        assert(side <= 200);
        assert(side * side * side <= 8_000_000 && side * side <= 40_000) by (nonlinear_arith)
            requires
                0 <= side <= 200,
        ;
    }
    let side_sq: u64 = side * side;
    let count: u64 = side_sq * side;
    let mut r: Vec<(i64, i64, i64)> = Vec::new();
    let mut k: u64 = 0;
    while k < count
        invariant
            0 <= k <= count,
            count == grid_count(amount as int),
            side == grid_side(amount as int),
            side_sq == side * side,
            1 <= h <= 100,
            side == 2 * h,
            h == amount as int / 2,
            count <= 8_000_000,
            r@.len() == k,
            forall|j: int|
                0 <= j < k ==> r@[j].0 == grid_x_at(amount as int, j) && r@[j].1 == grid_y_at(
                    amount as int,
                    j,
                ) && r@[j].2 == grid_z_at(amount as int, j),
        decreases count - k,
    {
        let xi: u64 = k / side_sq;
        let yi: u64 = (k / side) % side;
        let zi: u64 = k % side;
        proof {
            assert(xi <= count / side_sq) by {
                vstd::arithmetic::div_mod::lemma_div_is_ordered(k as int, count as int,
                    side_sq as int);
            }
            assert(count / side_sq == side) by {
                assert(count == side_sq * side);
                assert(side_sq * side == side * side_sq) by (nonlinear_arith);
                vstd::arithmetic::div_mod::lemma_div_multiples_vanish(side as int, side_sq as int);
            }
            vstd::arithmetic::div_mod::lemma_mod_bound(k as int / side as int, side as int);
            vstd::arithmetic::div_mod::lemma_mod_bound(k as int, side as int);
        }
        let x: i64 = (xi as i64) - (h as i64);
        let y: i64 = (yi as i64) - (h as i64);
        let z: i64 = (zi as i64) - (h as i64);
        r.push((x, y, z));
        k = k + 1;
    }
    r
}

} // verus!
