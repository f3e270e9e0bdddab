//! The strikes at which a smile is sampled.

use vstd::arithmetic::div_mod::lemma_fundamental_div_mod_converse;
use vstd::prelude::*;

verus! {

/// How many strikes lie on the grid from `first` up to `last` in steps of
/// `step`.
pub open spec fn grid_len(first: i32, last: i32, step: usize) -> nat {
    if first > last {
        0
    } else {
        ((last - first) / (step as int) + 1) as nat
    }
}

/// The grid itself: `first`, `first + step`, and so on, as long as `last` is
/// not passed.
pub open spec fn grid_of(first: i32, last: i32, step: usize) -> Seq<i32> {
    Seq::new(grid_len(first, last, step), |i: int| (first + i * step) as i32)
}

/// The strikes from `first` up to `last` in steps of `step`, in ascending
/// order. The grid is empty when `first` lies above `last`.
pub fn strike_grid(first: i32, last: i32, step: usize) -> (grid: Vec<i32>)
    requires
        step > 0,
    ensures
        grid@ == grid_of(first, last, step),
        forall|i: int, j: int| 0 <= i < j < grid@.len() ==> grid@[i] < grid@[j],
        forall|i: int| 0 <= i < grid@.len() ==> first <= #[trigger] grid@[i] <= last,
{
    let mut grid: Vec<i32> = Vec::new();
    if first > last {
        return grid;
    }
    let mut strike: i32 = first;
    loop
        invariant_except_break
            grid@.len() < grid_len(first, last, step),
            strike == first + grid@.len() * step,
        invariant
            step > 0,
            first <= last,
            first <= strike <= last,
            forall|i: int| 0 <= i < grid@.len() ==> grid@[i] == first + i * step,
        ensures
            grid@.len() == grid_len(first, last, step),
            first + (grid@.len() - 1) * step <= last,
        decreases last - strike,
    {
        let ghost taken = grid@.len() as int;
        grid.push(strike);
        let room: i64 = last as i64 - strike as i64;
        if step as u128 > room as u128 {
            proof {
                lemma_fundamental_div_mod_converse(
                    last - first,
                    step as int,
                    taken,
                    last - strike,
                );
            }
            break ;
        }
        proof {
            assert(last - first == (taken + 1) * step + (room - step)) by (nonlinear_arith)
                requires
                    last - first == taken * step + room,
            ;
            assert((last - first) / (step as int) >= taken + 1) by (nonlinear_arith)
                requires
                    last - first == (taken + 1) * step + (room - step),
                    room - step >= 0,
                    step > 0,
            ;
        }
        strike = (strike as i64 + step as i64) as i32;
    }
    proof {
        assert forall|i: int, j: int| 0 <= i < j < grid@.len() implies grid@[i] < grid@[j] by {
            assert(i * step < j * step) by (nonlinear_arith)
                requires
                    i < j,
                    step > 0,
            ;
        }
        assert forall|i: int| 0 <= i < grid@.len() implies first <= #[trigger] grid@[i]
            <= last by {
            assert(0 <= i * step) by (nonlinear_arith)
                requires
                    0 <= i,
                    step > 0,
            ;
            assert(i * step <= (grid@.len() - 1) * step) by (nonlinear_arith)
                requires
                    i <= grid@.len() - 1,
                    step > 0,
            ;
        }
        assert(grid@ =~= grid_of(first, last, step));
    }
    grid
}

} // verus!
