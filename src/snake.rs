use vstd::prelude::*;

use crate::axes::{Axis, Corner3};
use crate::error::ScadDotsError;

verus! {

/// Some axis appears twice in the order.
pub open spec fn spec_has_repeated_axes(order: [Axis; 3]) -> bool {
    order@[0] == order@[1] || order@[0] == order@[2] || order@[1] == order@[2]
}

/// Whether some axis appears twice in the order.
pub fn has_repeated_axes(order: [Axis; 3]) -> (r: bool)
    ensures
        r == spec_has_repeated_axes(order),
{
    order[0] == order[1] || order[0] == order[2] || order[1] == order[2]
}

/// The plan of a taxicab path from a start point to an end point that
/// changes one coordinate at a time, in the given order of axes. Point `k`
/// of the path takes its coordinate on an axis from the end point where
/// corner `k` is high on that axis, and from the start point elsewhere: the
/// path starts at `P000`, each step raises the next axis of the order, and a
/// path over all three axes ends at `P111`, the end point itself. Fails with
/// a Snake error when an axis is repeated.
pub fn snake_corners(order: [Axis; 3]) -> (r: Result<[Corner3; 4], ScadDotsError>)
    ensures
        spec_has_repeated_axes(order) ==> r == Err::<[Corner3; 4], ScadDotsError>(
            ScadDotsError::Snake,
        ),
        !spec_has_repeated_axes(order) ==> r is Ok,
        r is Ok ==> {
            let cs = r->Ok_0;
            &&& cs@[0] == Corner3::P000
            &&& forall|k: int|
                0 <= k < 3 ==> #[trigger] cs@[k + 1] == cs@[k].spec_copy_to(order@[k], true)
            &&& cs@[3] == Corner3::P111
        },
{
    if has_repeated_axes(order) {
        return Err(ScadDotsError::Snake);
    }
    let mut corners: [Corner3; 4] = [Corner3::P000; 4];
    let mut i: usize = 0;
    while i < 3
        invariant
            0 <= i <= 3,
            corners@[0] == Corner3::P000,
            forall|k: int|
                0 <= k < i ==> #[trigger] corners@[k + 1] == corners@[k].spec_copy_to(
                    order@[k],
                    true,
                ),
            forall|k: int, a: Axis|
                0 <= k <= i ==> #[trigger] corners@[k].spec_is_high(a) == (exists|j: int|
                    0 <= j < k && order@[j] == a),
        decreases 3 - i,
    {
        let next = corners[i].copy_to(order[i], true);
        corners[i + 1] = next;
        i = i + 1;
    }
    assert(corners@[3].spec_is_high(order@[0]));
    assert(corners@[3].spec_is_high(order@[1]));
    assert(corners@[3].spec_is_high(order@[2]));
    Ok(corners)
}

} // verus!
