//! Bounds of the parameters, and how far a car is from each.
//!
//! A margin is the distance of a parameter from one end of its bound, counted
//! into the bound: it is negative where the bound is broken, and undefined
//! where the distance is not a number in range.

use vstd::prelude::*;
use crate::car::{Car, PARAMETER_COUNT};
use crate::constants::CONST_BOUNDS;
use crate::error::CarError;
use crate::fixed::{fits, minus, num, operand, over, plus, times, Fixed, Scalar, MAX_RAW};

verus! {

/// The two ends of a bound. An end that depends on other values can be
/// undefined.
#[derive(Clone, Copy, Debug, PartialEq, Eq, Structural)]
pub struct Bound {
    pub low: Scalar,
    pub high: Scalar,
}

/// The bound of one of the nineteen bounded parameters.
pub open spec fn spec_static_bound(slot: int) -> Bound {
    Bound { low: num(CONST_BOUNDS[slot][0]), high: num(CONST_BOUNDS[slot][1]) }
}

/// The bound of the parameter at `slot`, for the slots below 19.
pub fn static_bound(slot: usize) -> (r: Option<Bound>)
    ensures
        slot < 19 ==> r == Some(spec_static_bound(slot as int)),
        slot >= 19 ==> r is None,
{
    if slot < 19 {
        let row = CONST_BOUNDS[slot];
        Some(Bound { low: num(row[0]), high: num(row[1]) })
    } else {
        None
    }
}

/// The margin at the lower end of a bound.
pub open spec fn spec_margin_low(value: Fixed, bound: Bound) -> Scalar {
    minus(Some(value), bound.low)
}

/// The margin at the upper end of a bound.
pub open spec fn spec_margin_high(value: Fixed, bound: Bound) -> Scalar {
    minus(bound.high, Some(value))
}

/// A margin is defined exactly where the value and the end of the bound are
/// defined and in range and their distance is in range.
pub proof fn lemma_margin_defined(value: Fixed, bound: Bound)
    ensures
        spec_margin_low(value, bound) is Some <==> value.in_range() && operand(bound.low) && fits(
            value.raw - bound.low->0.raw,
        ),
        spec_margin_high(value, bound) is Some <==> value.in_range() && operand(bound.high)
            && fits(bound.high->0.raw - value.raw),
{
}

/// A margin that is defined is the distance of the value from the end of the
/// bound, and is negative exactly where that end is broken: at the lower end
/// where the value is below it, at the upper end where the value is above it.
pub proof fn lemma_margin_sign(value: Fixed, bound: Bound)
    ensures
        spec_margin_low(value, bound) matches Some(m) ==> m.raw == value.raw - bound.low->0.raw
            && (m.raw < 0 <==> value.raw < bound.low->0.raw),
        spec_margin_high(value, bound) matches Some(m) ==> m.raw == bound.high->0.raw - value.raw
            && (m.raw < 0 <==> value.raw > bound.high->0.raw),
{
}

/// Every fixed bound lies between zero and three.
pub proof fn lemma_static_bounds_small()
    ensures
        forall|slot: int|
            0 <= slot < 19 ==> 0 <= #[trigger] CONST_BOUNDS[slot][0] <= CONST_BOUNDS[slot][1]
                <= 30_000_000_000,
{
    assert forall|slot: int| 0 <= slot < 19 implies 0 <= #[trigger] CONST_BOUNDS[slot][0]
        <= CONST_BOUNDS[slot][1] <= 30_000_000_000 by {
        assert(0 <= CONST_BOUNDS[0int][0] <= CONST_BOUNDS[0int][1] <= 30_000_000_000);
        assert(0 <= CONST_BOUNDS[1int][0] <= CONST_BOUNDS[1int][1] <= 30_000_000_000);
        assert(0 <= CONST_BOUNDS[2int][0] <= CONST_BOUNDS[2int][1] <= 30_000_000_000);
        assert(0 <= CONST_BOUNDS[3int][0] <= CONST_BOUNDS[3int][1] <= 30_000_000_000);
        assert(0 <= CONST_BOUNDS[4int][0] <= CONST_BOUNDS[4int][1] <= 30_000_000_000);
        assert(0 <= CONST_BOUNDS[5int][0] <= CONST_BOUNDS[5int][1] <= 30_000_000_000);
        assert(0 <= CONST_BOUNDS[6int][0] <= CONST_BOUNDS[6int][1] <= 30_000_000_000);
        assert(0 <= CONST_BOUNDS[7int][0] <= CONST_BOUNDS[7int][1] <= 30_000_000_000);
        assert(0 <= CONST_BOUNDS[8int][0] <= CONST_BOUNDS[8int][1] <= 30_000_000_000);
        assert(0 <= CONST_BOUNDS[9int][0] <= CONST_BOUNDS[9int][1] <= 30_000_000_000);
        assert(0 <= CONST_BOUNDS[10int][0] <= CONST_BOUNDS[10int][1] <= 30_000_000_000);
        assert(0 <= CONST_BOUNDS[11int][0] <= CONST_BOUNDS[11int][1] <= 30_000_000_000);
        assert(0 <= CONST_BOUNDS[12int][0] <= CONST_BOUNDS[12int][1] <= 30_000_000_000);
        assert(0 <= CONST_BOUNDS[13int][0] <= CONST_BOUNDS[13int][1] <= 30_000_000_000);
        assert(0 <= CONST_BOUNDS[14int][0] <= CONST_BOUNDS[14int][1] <= 30_000_000_000);
        assert(0 <= CONST_BOUNDS[15int][0] <= CONST_BOUNDS[15int][1] <= 30_000_000_000);
        assert(0 <= CONST_BOUNDS[16int][0] <= CONST_BOUNDS[16int][1] <= 30_000_000_000);
        assert(0 <= CONST_BOUNDS[17int][0] <= CONST_BOUNDS[17int][1] <= 30_000_000_000);
        assert(0 <= CONST_BOUNDS[18int][0] <= CONST_BOUNDS[18int][1] <= 30_000_000_000);
    }
}

/// Whether the end of a fixed bound that margin `k` of `check_bounds` stands
/// for is broken: the lower end of slot `k / 2` for an even `k`, the upper
/// end for an odd one.
pub open spec fn static_end_broken(car: Car, k: int) -> bool {
    if k % 2 == 0 {
        car.spec_parameter(k / 2).raw < CONST_BOUNDS[k / 2][0]
    } else {
        car.spec_parameter(k / 2).raw > CONST_BOUNDS[k / 2][1]
    }
}

/// Whether margin `k` of `check_bounds` is defined, and negative exactly
/// where its end of the bound is broken.
pub open spec fn static_margin_tells(car: Car, k: int) -> bool {
    car.spec_check_bounds()[k] matches Some(m) && (m.raw < 0 <==> static_end_broken(car, k))
}

/// Every margin against the fixed bounds is defined for a car whose bounded
/// parameters are no larger in size than 10^18 less three, and it is then
/// negative exactly where its end of the bound is broken.
pub proof fn lemma_static_margins(car: Car)
    requires
        forall|slot: int|
            0 <= slot < 19 ==> -MAX_RAW + 30_000_000_000 <= (#[trigger] car.spec_parameter(
                slot,
            )).raw <= MAX_RAW - 30_000_000_000,
    ensures
        forall|k: int| 0 <= k < 38 ==> #[trigger] static_margin_tells(car, k),
{
    lemma_static_bounds_small();
    assert forall|k: int| 0 <= k < 38 implies #[trigger] static_margin_tells(car, k) by {
        let slot = k / 2;
        assert(0 <= CONST_BOUNDS[slot][0] <= CONST_BOUNDS[slot][1] <= 30_000_000_000);
        let value = car.spec_parameter(slot);
        assert(-MAX_RAW + 30_000_000_000 <= value.raw <= MAX_RAW - 30_000_000_000);
        lemma_margin_defined(value, spec_static_bound(slot));
        lemma_margin_sign(value, spec_static_bound(slot));
    }
}

impl Car {
    /// The parameter at a slot of the parameter vector.
    pub open spec fn spec_parameter(self, slot: int) -> Fixed {
        self.spec_parameter_vector()[slot]
    }

    /// The bound of the parameter at one of the slots 29 to 38, from the
    /// dimensions and components of the car.
    pub open spec fn spec_dependent_bound(self, slot: int) -> Bound {
        let two = num(20_000_000_000);
        if slot == 29 {
            // rear wing width: from 0.3 to 9 less the rear tires
            Bound {
                low: num(3_000_000_000),
                high: minus(num(90_000_000_000), times(two, Some(self.rear_tire_radius))),
            }
        } else if slot == 30 {
            // rear wing: its middle from 0.5 to 1.2, less half its height
            Bound {
                low: plus(num(5_000_000_000), over(Some(self.rear_wing_height), two)),
                high: minus(num(12_000_000_000), over(Some(self.rear_wing_height), two)),
            }
        } else if slot == 31 {
            // front wing: from 0.03 and its height to 0.25 less half the
            // height of the rear wing
            Bound {
                low: plus(num(300_000_000), Some(self.front_wing_height)),
                high: minus(num(2_500_000_000), over(Some(self.rear_wing_height), two)),
            }
        } else if slot == 32 {
            Bound {
                low: plus(num(300_000_000), over(Some(self.side_wings_height), two)),
                high: minus(num(2_500_000_000), over(Some(self.side_wings_height), two)),
            }
        } else if slot == 33 {
            Bound {
                low: plus(num(300_000_000), over(Some(self.engine_height), two)),
                high: minus(num(5_000_000_000), over(Some(self.engine_height), two)),
            }
        } else if slot == 34 {
            Bound {
                low: plus(num(300_000_000), over(Some(self.cabin_height), two)),
                high: minus(num(12_000_000_000), over(Some(self.cabin_height), two)),
            }
        } else if slot == 35 {
            // impact attenuator length: from 0.2 to 0.7 less the front wing
            Bound {
                low: num(2_000_000_000),
                high: minus(num(7_000_000_000), Some(self.front_wing_length)),
            }
        } else if slot == 36 {
            Bound {
                low: plus(num(300_000_000), over(Some(self.impact_attenuator_height), two)),
                high: minus(
                    num(12_000_000_000),
                    over(Some(self.impact_attenuator_height), two),
                ),
            }
        } else if slot == 37 {
            // suspensions: between one and two radii of their tires
            Bound {
                low: Some(self.rear_tire_radius),
                high: times(two, Some(self.rear_tire_radius)),
            }
        } else {
            Bound {
                low: Some(self.front_tire_radius),
                high: times(two, Some(self.front_tire_radius)),
            }
        }
    }

    /// The bound of the parameter at `slot`, for the slots 29 to 38.
    pub fn dependent_bound(&self, slot: usize) -> (r: Option<Bound>)
        ensures
            29 <= slot <= 38 ==> r == Some(self.spec_dependent_bound(slot as int)),
            !(29 <= slot <= 38) ==> r is None,
    {
        let two = num(20_000_000_000);
        if slot == 29 {
            Some(
                Bound {
                    low: num(3_000_000_000),
                    high: minus(num(90_000_000_000), times(two, Some(self.rear_tire_radius))),
                },
            )
        } else if slot == 30 {
            Some(
                Bound {
                    low: plus(num(5_000_000_000), over(Some(self.rear_wing_height), two)),
                    high: minus(num(12_000_000_000), over(Some(self.rear_wing_height), two)),
                },
            )
        } else if slot == 31 {
            Some(
                Bound {
                    low: plus(num(300_000_000), Some(self.front_wing_height)),
                    high: minus(num(2_500_000_000), over(Some(self.rear_wing_height), two)),
                },
            )
        } else if slot == 32 {
            Some(
                Bound {
                    low: plus(num(300_000_000), over(Some(self.side_wings_height), two)),
                    high: minus(num(2_500_000_000), over(Some(self.side_wings_height), two)),
                },
            )
        } else if slot == 33 {
            Some(
                Bound {
                    low: plus(num(300_000_000), over(Some(self.engine_height), two)),
                    high: minus(num(5_000_000_000), over(Some(self.engine_height), two)),
                },
            )
        } else if slot == 34 {
            Some(
                Bound {
                    low: plus(num(300_000_000), over(Some(self.cabin_height), two)),
                    high: minus(num(12_000_000_000), over(Some(self.cabin_height), two)),
                },
            )
        } else if slot == 35 {
            Some(
                Bound {
                    low: num(2_000_000_000),
                    high: minus(num(7_000_000_000), Some(self.front_wing_length)),
                },
            )
        } else if slot == 36 {
            Some(
                Bound {
                    low: plus(num(300_000_000), over(Some(self.impact_attenuator_height), two)),
                    high: minus(
                        num(12_000_000_000),
                        over(Some(self.impact_attenuator_height), two),
                    ),
                },
            )
        } else if slot == 37 {
            Some(
                Bound {
                    low: Some(self.rear_tire_radius),
                    high: times(two, Some(self.rear_tire_radius)),
                },
            )
        } else if slot == 38 {
            Some(
                Bound {
                    low: Some(self.front_tire_radius),
                    high: times(two, Some(self.front_tire_radius)),
                },
            )
        } else {
            None
        }
    }

    /// The two ends of the bound of one of the slots 29 to 38, where both are
    /// defined and the lower is not above the upper; else `DegenerateBound`.
    pub open spec fn spec_dependent_range(self, slot: int) -> Result<(Fixed, Fixed), CarError> {
        let bound = self.spec_dependent_bound(slot);
        if bound.low is Some && bound.high is Some && bound.low->0.raw <= bound.high->0.raw {
            Ok((bound.low->0, bound.high->0))
        } else {
            Err(CarError::DegenerateBound)
        }
    }

    /// The range from which the parameter at one of the slots 29 to 38 can be
    /// drawn: the two ends of its bound. Fails with `DegenerateBound` exactly
    /// where an end is undefined or the lower end is above the upper.
    pub fn dependent_range(&self, slot: usize) -> (r: Result<(Fixed, Fixed), CarError>)
        requires
            29 <= slot <= 38,
        ensures
            r == self.spec_dependent_range(slot as int),
    {
        match self.dependent_bound(slot) {
            Some(bound) => match (bound.low, bound.high) {
                (Some(low), Some(high)) => {
                    if low.raw > high.raw {
                        Err(CarError::DegenerateBound)
                    } else {
                        Ok((low, high))
                    }
                },
                _ => Err(CarError::DegenerateBound),
            },
            None => Err(CarError::DegenerateBound),
        }
    }

    /// The margins of the nineteen bounded parameters: for each slot from 0 to
    /// 18 the margin at its lower end, then the margin at its upper end.
    pub open spec fn spec_check_bounds(self) -> Seq<Scalar> {
        Seq::new(
            38,
            |k: int|
                if k % 2 == 0 {
                    spec_margin_low(self.spec_parameter(k / 2), spec_static_bound(k / 2))
                } else {
                    spec_margin_high(self.spec_parameter(k / 2), spec_static_bound(k / 2))
                },
        )
    }

    /// The two margins of one of the slots 29 to 38.
    pub open spec fn spec_dependent_margins(self, slot: int) -> Seq<Scalar> {
        seq![
            spec_margin_low(self.spec_parameter(slot), self.spec_dependent_bound(slot)),
            spec_margin_high(self.spec_parameter(slot), self.spec_dependent_bound(slot)),
        ]
    }

    /// The margins of the bounds that tie parameters to one another: for each
    /// of the slots 30, 31, 32, 34, 35 and 36 the margin at the lower end, then
    /// the margin at the upper end.
    pub open spec fn spec_check_linear_constraints(self) -> Seq<Scalar> {
        self.spec_dependent_margins(30) + self.spec_dependent_margins(31)
            + self.spec_dependent_margins(32) + self.spec_dependent_margins(34)
            + self.spec_dependent_margins(35) + self.spec_dependent_margins(36)
    }

    /// The margins of the bounds that go through a catalog: for each of the
    /// slots 29, 33, 37 and 38 the margin at the lower end, then the margin at
    /// the upper end.
    pub open spec fn spec_check_nonlinear_constraints(self) -> Seq<Scalar> {
        self.spec_dependent_margins(29) + self.spec_dependent_margins(33)
            + self.spec_dependent_margins(37) + self.spec_dependent_margins(38)
    }

    /// The margins of the car against the nineteen fixed bounds, two for each
    /// slot from 0 to 18: lower end first. A negative margin is a broken
    /// bound.
    pub fn check_bounds(&self) -> (r: Vec<Scalar>)
        ensures
            r@ == self.spec_check_bounds(),
    {
        let p = self.get_parameter_vector();
        let mut margins: Vec<Scalar> = Vec::new();
        let mut slot: usize = 0;
        while slot < 19
            invariant
                slot <= 19,
                p@ == self.spec_parameter_vector(),
                p@.len() == PARAMETER_COUNT,
                margins@.len() == 2 * slot,
                forall|k: int| 0 <= k < 2 * slot ==> margins@[k] == self.spec_check_bounds()[k],
            decreases 19 - slot,
        {
            let row = CONST_BOUNDS[slot];
            margins.push(minus(Some(p[slot]), num(row[0])));
            margins.push(minus(num(row[1]), Some(p[slot])));
            slot = slot + 1;
        }
        assert(margins@ =~= self.spec_check_bounds());
        margins
    }

    /// Adds the two margins of a slot from 29 to 38.
    fn push_dependent_margins(&self, margins: &mut Vec<Scalar>, slot: usize)
        requires
            29 <= slot <= 38,
        ensures
            final(margins)@ == old(margins)@ + self.spec_dependent_margins(slot as int),
    {
        let p = self.get_parameter_vector();
        let value = p[slot];
        match self.dependent_bound(slot) {
            Some(bound) => {
                margins.push(minus(Some(value), bound.low));
                margins.push(minus(bound.high, Some(value)));
            },
            None => {},
        }
        assert(margins@ =~= old(margins)@ + self.spec_dependent_margins(slot as int));
    }

    /// The margins of the car against the bounds that tie parameters to one
    /// another, two for each of the slots 30, 31, 32, 34, 35 and 36: lower end
    /// first. A negative margin is a broken bound.
    pub fn check_linear_constraints(&self) -> (r: Vec<Scalar>)
        ensures
            r@ == self.spec_check_linear_constraints(),
    {
        let mut margins: Vec<Scalar> = Vec::new();
        self.push_dependent_margins(&mut margins, 30);
        self.push_dependent_margins(&mut margins, 31);
        self.push_dependent_margins(&mut margins, 32);
        self.push_dependent_margins(&mut margins, 34);
        self.push_dependent_margins(&mut margins, 35);
        self.push_dependent_margins(&mut margins, 36);
        assert(margins@ =~= self.spec_check_linear_constraints());
        margins
    }

    /// The margins of the car against the bounds that go through a catalog,
    /// two for each of the slots 29, 33, 37 and 38: lower end first. A negative
    /// margin is a broken bound.
    pub fn check_nonlinear_constraints(&self) -> (r: Vec<Scalar>)
        ensures
            r@ == self.spec_check_nonlinear_constraints(),
    {
        let mut margins: Vec<Scalar> = Vec::new();
        self.push_dependent_margins(&mut margins, 29);
        self.push_dependent_margins(&mut margins, 33);
        self.push_dependent_margins(&mut margins, 37);
        self.push_dependent_margins(&mut margins, 38);
        assert(margins@ =~= self.spec_check_nonlinear_constraints());
        margins
    }
}

} // verus!
