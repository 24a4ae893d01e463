use vstd::prelude::*;

verus! {

/// Lower bound of the simulated drift band.
pub const DRIFT_FLOOR: i128 = 50;

/// Upper bound of the simulated drift band.
pub const DRIFT_CEIL: i128 = 150;

/// One step of the simulated oracle drift that stands in for a live feed:
/// the price moves one to three units in the current direction, stays
/// clamped inside the drift band, and the direction flips every seventh
/// tick or when a band edge is hit.
pub fn drift_step(price: i128, dir: i128, tick: u64) -> (r: (i128, i128))
    requires
        dir == 1 || dir == -1,
        DRIFT_FLOOR <= price <= DRIFT_CEIL,
    ensures
        ({
            let step = 1 + (tick % 3) as int;
            let moved = price + dir * step;
            let clamped = if moved < DRIFT_FLOOR {
                DRIFT_FLOOR as int
            } else if moved > DRIFT_CEIL {
                DRIFT_CEIL as int
            } else {
                moved
            };
            &&& r.0 == clamped
            &&& DRIFT_FLOOR <= r.0 <= DRIFT_CEIL
            &&& r.1 == (if tick % 7 == 0 || clamped == DRIFT_FLOOR || clamped == DRIFT_CEIL {
                -dir as int
            } else {
                dir as int
            })
            &&& (r.1 == 1 || r.1 == -1)
        }),
{
    let step: i128 = 1 + (tick % 3) as i128;
    let delta: i128 = if dir == 1 {
        step
    } else {
        -step
    };
    let moved: i128 = price + delta;
    let clamped: i128 = if moved < DRIFT_FLOOR {
        DRIFT_FLOOR
    } else if moved > DRIFT_CEIL {
        DRIFT_CEIL
    } else {
        moved
    };
    let flipped: i128 = if tick % 7 == 0 || clamped == DRIFT_FLOOR || clamped == DRIFT_CEIL {
        -dir
    } else {
        dir
    };
    (clamped, flipped)
}

} // verus!
