//! The physics of a design: the eleven quantities by which a car is
//! judged, each a formula in the car's fields and the fixed conditions of
//! `constants`, and their weighted sum.
//!
//! Every formula is evaluated left to right in fixed-point arithmetic, one
//! rounding toward zero for each product, quotient and root, and is undefined
//! as soon as a step is.

use vstd::prelude::*;
use crate::car::Car;
use crate::constants::{
    CONST_BOUNDS, C_DC, DYDT_SUSPENSION, GRAVITY, P_BRAKE, RHO_AIR, R_TRACK, V_CAR, W_E, Y_SUSPENSION,
};
use crate::fixed::{
    absolute, checked, cosine, isqrt, lemma_isqrt, lemma_isqrt_monotonic, lemma_over_not_negative, lemma_times_not_negative,
    lemma_times_two, lemma_wide_multiples, lemma_wide_over_not_negative,
    lemma_wide_times_not_negative, magnitude,
    minus, narrow, negate, not_negative, num, operand, over, plus, quot, raw_of, root, times,
    wide_not_negative, wide_num, wide_over, wide_plus, wide_times, Fixed, Scalar, Wide, MAX_RAW,
    PI_RAW, SCALE, SCALE_SQUARED,
};
use vstd::arithmetic::div_mod::{lemma_div_denominator, lemma_div_is_ordered_by_denominator};

verus! {

/// The number of objectives.
pub const OBJECTIVE_COUNT: usize = 11;

/// One half.
pub const HALF: i128 = 5_000_000_000;

/// One.
pub const ONE: i128 = 10_000_000_000;

/// Two.
pub const TWO: i128 = 20_000_000_000;

/// Four.
pub const FOUR: i128 = 40_000_000_000;

/// Lateral friction coefficient of the tires: 1.6.
pub const C_LATERAL: i128 = 16_000_000_000;

/// Friction coefficient of the brake pads: 0.37.
pub const C_BRAKE: i128 = 3_700_000_000;

/// Lever arm of the suspension forces about the center of gravity: 0.5 m.
pub const SUSPENSION_ARM: i128 = 5_000_000_000;

/// The least normal load that braking reckons with: one unit, 10^-10 N.
pub const LOAD_FLOOR: i128 = 1;

/// The square of the speed of the car: 718.24 m^2/s^2.
pub const V_CAR_SQUARED: i128 = 7_182_400_000_000;

/// The square of a number.
#[verifier::opaque]
pub open spec fn spec_square(a: Scalar) -> Scalar {
    times(a, a)
}

/// The square of a number.
#[verifier::when_used_as_spec(spec_square)]
pub fn square(a: Scalar) -> (r: Scalar)
    ensures
        r == spec_square(a),
{
    proof {
        reveal(spec_square);
    }
    times(a, a)
}

/// The mass of a block at the cube of the scale: the exact product of its
/// three dimensions, brought to the square of the scale, times its density.
#[verifier::opaque]
pub open spec fn spec_block(density: Scalar, a: Scalar, b: Scalar, c: Scalar) -> Wide {
    let volume = wide_over(
        wide_times(wide_times(raw_of(a), raw_of(b)), raw_of(c)),
        wide_num(SCALE),
    );
    wide_times(raw_of(density), volume)
}

/// The mass of a block at the cube of the scale: the exact product of its
/// three dimensions, brought to the square of the scale, times its density.
#[verifier::when_used_as_spec(spec_block)]
pub fn block(density: Scalar, a: Scalar, b: Scalar, c: Scalar) -> (r: Wide)
    ensures
        r == spec_block(density, a, b, c),
{
    proof {
        reveal(spec_block);
    }
    let volume = wide_over(
        wide_times(wide_times(raw_of(a), raw_of(b)), raw_of(c)),
        wide_num(SCALE),
    );
    wide_times(raw_of(density), volume)
}

/// A mass at the cube of the scale.
#[verifier::opaque]
pub open spec fn spec_whole(mass: Scalar) -> Wide {
    wide_times(raw_of(mass), wide_num(SCALE_SQUARED))
}

/// A mass at the cube of the scale.
#[verifier::when_used_as_spec(spec_whole)]
pub fn whole(mass: Scalar) -> (r: Wide)
    ensures
        r == spec_whole(mass),
{
    proof {
        reveal(spec_whole);
    }
    wide_times(raw_of(mass), wide_num(SCALE_SQUARED))
}

/// The number nearest toward zero to a mass at the cube of the scale.
#[verifier::opaque]
pub open spec fn spec_rounded(mass: Wide) -> Scalar {
    narrow(wide_over(mass, wide_num(SCALE_SQUARED)))
}

/// The number nearest toward zero to a mass at the cube of the scale.
#[verifier::when_used_as_spec(spec_rounded)]
pub fn rounded(mass: Wide) -> (r: Scalar)
    ensures
        r == spec_rounded(mass),
{
    proof {
        reveal(spec_rounded);
    }
    narrow(wide_over(mass, wide_num(SCALE_SQUARED)))
}

/// The mass of a block: its density times its three dimensions, rounded
/// once.
#[verifier::opaque]
pub open spec fn spec_part_mass(density: Scalar, a: Scalar, b: Scalar, c: Scalar) -> Scalar {
    rounded(block(density, a, b, c))
}

/// The mass of a block: its density times its three dimensions, rounded
/// once.
#[verifier::when_used_as_spec(spec_part_mass)]
pub fn part_mass(density: Scalar, a: Scalar, b: Scalar, c: Scalar) -> (r: Scalar)
    ensures
        r == spec_part_mass(density, a, b, c),
{
    proof {
        reveal(spec_part_mass);
    }
    rounded(block(density, a, b, c))
}

/// The aspect ratio of a wing: its width, seen at the angle of attack, by its
/// length.
#[verifier::opaque]
pub open spec fn spec_aspect_ratio(w: Scalar, alpha: Scalar, l: Scalar) -> Scalar {
    over(times(w, cosine(alpha)), l)
}

/// The aspect ratio of a wing: its width, seen at the angle of attack, by its
/// length.
#[verifier::when_used_as_spec(spec_aspect_ratio)]
pub fn aspect_ratio(w: Scalar, alpha: Scalar, l: Scalar) -> (r: Scalar)
    ensures
        r == spec_aspect_ratio(w, alpha, l),
{
    proof {
        reveal(spec_aspect_ratio);
    }
    over(times(w, cosine(alpha)), l)
}

/// The lift coefficient of a wing: `2 pi (AR / (AR + 2)) alpha`.
#[verifier::opaque]
pub open spec fn spec_lift_coefficient(aspect_ratio: Scalar, alpha: Scalar) -> Scalar {
    times(times(times(num(TWO), num(PI_RAW)), over(aspect_ratio, plus(aspect_ratio, num(TWO)))), alpha)
}

/// The lift coefficient of a wing: `2 pi (AR / (AR + 2)) alpha`.
#[verifier::when_used_as_spec(spec_lift_coefficient)]
pub fn lift_coefficient(aspect_ratio: Scalar, alpha: Scalar) -> (r: Scalar)
    ensures
        r == spec_lift_coefficient(aspect_ratio, alpha),
{
    proof {
        reveal(spec_lift_coefficient);
    }
    times(times(times(num(TWO), num(PI_RAW)), over(aspect_ratio, plus(aspect_ratio, num(TWO)))), alpha)
}

/// The drag coefficient of a wing: `C_lift^2 / (pi AR)`.
#[verifier::opaque]
pub open spec fn spec_drag_coefficient(lift_coefficient: Scalar, aspect_ratio: Scalar) -> Scalar {
    over(square(lift_coefficient), times(num(PI_RAW), aspect_ratio))
}

/// The drag coefficient of a wing: `C_lift^2 / (pi AR)`.
#[verifier::when_used_as_spec(spec_drag_coefficient)]
pub fn drag_coefficient(lift_coefficient: Scalar, aspect_ratio: Scalar) -> (r: Scalar)
    ensures
        r == spec_drag_coefficient(lift_coefficient, aspect_ratio),
{
    proof {
        reveal(spec_drag_coefficient);
    }
    over(square(lift_coefficient), times(num(PI_RAW), aspect_ratio))
}

/// The force of the air on an area `a b` with the given coefficient:
/// `0.5 a b rho v^2 C`.
#[verifier::opaque]
pub open spec fn spec_dynamic_pressure_force(a: Scalar, b: Scalar, coefficient: Scalar) -> Scalar {
    times(times(times(times(times(num(HALF), a), b), num(RHO_AIR)), square(num(V_CAR))), coefficient)
}

/// The force of the air on an area `a b` with the given coefficient:
/// `0.5 a b rho v^2 C`.
#[verifier::when_used_as_spec(spec_dynamic_pressure_force)]
pub fn dynamic_pressure_force(a: Scalar, b: Scalar, coefficient: Scalar) -> (r: Scalar)
    ensures
        r == spec_dynamic_pressure_force(a, b, coefficient),
{
    proof {
        reveal(spec_dynamic_pressure_force);
    }
    times(times(times(times(times(num(HALF), a), b), num(RHO_AIR)), square(num(V_CAR))), coefficient)
}

/// The drag on a front of width `w` and height `h`.
#[verifier::opaque]
pub open spec fn spec_drag_force(w: Scalar, h: Scalar, c_drag: Scalar) -> Scalar {
    dynamic_pressure_force(w, h, c_drag)
}

/// The drag on a front of width `w` and height `h`.
#[verifier::when_used_as_spec(spec_drag_force)]
pub fn drag_force(w: Scalar, h: Scalar, c_drag: Scalar) -> (r: Scalar)
    ensures
        r == spec_drag_force(w, h, c_drag),
{
    proof {
        reveal(spec_drag_force);
    }
    dynamic_pressure_force(w, h, c_drag)
}

/// The downforce of a wing: the dynamic pressure on its front, times its lift
/// coefficient.
#[verifier::opaque]
pub open spec fn spec_wing_down_force(w: Scalar, h: Scalar, l: Scalar, alpha: Scalar) -> Scalar {
    let wing_aspect_ratio = aspect_ratio(w, alpha, l);
    let c_lift = lift_coefficient(wing_aspect_ratio, alpha);
    dynamic_pressure_force(h, w, c_lift)
}

/// The downforce of a wing: the dynamic pressure on its front, times its lift
/// coefficient.
#[verifier::when_used_as_spec(spec_wing_down_force)]
pub fn wing_down_force(w: Scalar, h: Scalar, l: Scalar, alpha: Scalar) -> (r: Scalar)
    ensures
        r == spec_wing_down_force(w, h, l, alpha),
{
    proof {
        reveal(spec_wing_down_force);
    }
    let wing_aspect_ratio = aspect_ratio(w, alpha, l);
    let c_lift = lift_coefficient(wing_aspect_ratio, alpha);
    dynamic_pressure_force(h, w, c_lift)
}

/// The drag of a wing.
#[verifier::opaque]
pub open spec fn spec_wing_drag_force(w: Scalar, h: Scalar, l: Scalar, alpha: Scalar) -> Scalar {
    let wing_aspect_ratio = aspect_ratio(w, alpha, l);
    let c_lift = lift_coefficient(wing_aspect_ratio, alpha);
    let c_drag = drag_coefficient(c_lift, wing_aspect_ratio);
    drag_force(w, h, c_drag)
}

/// The drag of a wing.
#[verifier::when_used_as_spec(spec_wing_drag_force)]
pub fn wing_drag_force(w: Scalar, h: Scalar, l: Scalar, alpha: Scalar) -> (r: Scalar)
    ensures
        r == spec_wing_drag_force(w, h, l, alpha),
{
    proof {
        reveal(spec_wing_drag_force);
    }
    let wing_aspect_ratio = aspect_ratio(w, alpha, l);
    let c_lift = lift_coefficient(wing_aspect_ratio, alpha);
    let c_drag = drag_coefficient(c_lift, wing_aspect_ratio);
    drag_force(w, h, c_drag)
}

/// The force of a suspension with spring constant `k` and damping coefficient
/// `c`, at the displacement and speed of the test.
#[verifier::opaque]
pub open spec fn spec_suspension_force(k: Scalar, c: Scalar) -> Scalar {
    plus(times(k, num(Y_SUSPENSION)), times(c, num(DYDT_SUSPENSION)))
}

/// The force of a suspension with spring constant `k` and damping coefficient
/// `c`, at the displacement and speed of the test.
#[verifier::when_used_as_spec(spec_suspension_force)]
pub fn suspension_force(k: Scalar, c: Scalar) -> (r: Scalar)
    ensures
        r == spec_suspension_force(k, c),
{
    proof {
        reveal(spec_suspension_force);
    }
    plus(times(k, num(Y_SUSPENSION)), times(c, num(DYDT_SUSPENSION)))
}

/// The rolling resistance coefficient of a tire at the speed of the car:
/// `0.005 + (1 / p) (0.01 + 0.0095 (3.6 v / 100)^2)`.
#[verifier::opaque]
pub open spec fn spec_rolling_coefficient(tire_pressure: Scalar) -> Scalar {
    let speed = over(times(num(V_CAR), num(36_000_000_000)), num(1_000_000_000_000));
    plus(
        num(50_000_000),
        times(
            over(num(ONE), tire_pressure),
            plus(num(100_000_000), times(num(95_000_000), square(speed))),
        ),
    )
}

/// The rolling resistance coefficient of a tire at the speed of the car:
/// `0.005 + (1 / p) (0.01 + 0.0095 (3.6 v / 100)^2)`.
#[verifier::when_used_as_spec(spec_rolling_coefficient)]
pub fn rolling_coefficient(tire_pressure: Scalar) -> (r: Scalar)
    ensures
        r == spec_rolling_coefficient(tire_pressure),
{
    proof {
        reveal(spec_rolling_coefficient);
    }
    let speed = over(times(num(V_CAR), num(36_000_000_000)), num(1_000_000_000_000));
    plus(
        num(50_000_000),
        times(
            over(num(ONE), tire_pressure),
            plus(num(100_000_000), times(num(95_000_000), square(speed))),
        ),
    )
}

/// The force of a crash at the speed of the car on an impact attenuator:
/// `sqrt(m v^2 w h E / (2 l))`.
#[verifier::opaque]
pub open spec fn spec_crash_force_of(mass: Scalar, width: Scalar, height: Scalar, modulus: Scalar, length: Scalar) -> Scalar {
    root(
        over(
            times(times(times(times(mass, square(num(V_CAR))), width), height), modulus),
            times(num(TWO), length),
        ),
    )
}

/// The force of a crash at the speed of the car on an impact attenuator:
/// `sqrt(m v^2 w h E / (2 l))`.
#[verifier::when_used_as_spec(spec_crash_force_of)]
pub fn crash_force_of(mass: Scalar, width: Scalar, height: Scalar, modulus: Scalar, length: Scalar) -> (r: Scalar)
    ensures
        r == spec_crash_force_of(mass, width, height, modulus, length),
{
    proof {
        reveal(spec_crash_force_of);
    }
    root(
        over(
            times(times(times(times(mass, square(num(V_CAR))), width), height), modulus),
            times(num(TWO), length),
        ),
    )
}

/// The speed at which the car holds the skid pad under the given load: zero
/// where the load is negative, else `sqrt(F C_lat R / m)`.
#[verifier::opaque]
pub open spec fn spec_corner_velocity_of(forces: Scalar, mass: Scalar) -> Scalar {
    match forces {
        Some(f) => if f.raw < 0 {
            num(0)
        } else {
            root(over(times(times(forces, num(C_LATERAL)), num(R_TRACK)), mass))
        },
        None => None,
    }
}

/// The speed at which the car holds the skid pad under the given load: zero
/// where the load is negative, else `sqrt(F C_lat R / m)`.
#[verifier::when_used_as_spec(spec_corner_velocity_of)]
pub fn corner_velocity_of(forces: Scalar, mass: Scalar) -> (r: Scalar)
    ensures
        r == spec_corner_velocity_of(forces, mass),
{
    proof {
        reveal(spec_corner_velocity_of);
    }
    match forces {
        Some(f) => if f.raw < 0 {
            num(0)
        } else {
            root(over(times(times(forces, num(C_LATERAL)), num(R_TRACK)), mass))
        },
        None => None,
    }
}

/// The normal load that braking reckons with: the load, or the least load
/// where the load is not above zero.
#[verifier::opaque]
pub open spec fn spec_floored_load(load: Scalar) -> Scalar {
    match load {
        Some(f) => if f.raw <= 0 {
            num(LOAD_FLOOR)
        } else {
            load
        },
        None => None,
    }
}

/// The normal load that braking reckons with: the load, or the least load
/// where the load is not above zero.
#[verifier::when_used_as_spec(spec_floored_load)]
pub fn floored_load(load: Scalar) -> (r: Scalar)
    ensures
        r == spec_floored_load(load),
{
    proof {
        reveal(spec_floored_load);
    }
    match load {
        Some(f) => if f.raw <= 0 {
            num(LOAD_FLOOR)
        } else {
            load
        },
        None => None,
    }
}

/// The distance in which the car stops from its speed: `v^2 / (2 a)`, where
/// the deceleration `a` is that of the rolling resistance under the floored
/// load and that of the four brakes, `(F C + 4 T / r) / m`. It is reckoned as
/// `v^2 m / (2 (F C + 4 T / r))`, the divisor at the square of the scale, and
/// rounded once, so that the least load still counts.
#[verifier::opaque]
pub open spec fn spec_braking_distance_of(load: Scalar, coefficient: Scalar, brake_torque: Scalar, tire_radius: Scalar, mass: Scalar) -> Scalar {
    let rolling = wide_times(raw_of(floored_load(load)), raw_of(coefficient));
    let brakes = wide_over(
        wide_times(wide_times(wide_num(4), raw_of(brake_torque)), wide_num(SCALE_SQUARED)),
        raw_of(tire_radius),
    );
    let force = wide_plus(rolling, brakes);
    let energy = wide_times(wide_times(wide_num(V_CAR_SQUARED), raw_of(mass)), wide_num(SCALE));
    narrow(wide_over(energy, wide_times(wide_num(2), force)))
}

/// The distance in which the car stops from its speed: `v^2 / (2 a)`, where
/// the deceleration `a` is that of the rolling resistance under the floored
/// load and that of the four brakes, `(F C + 4 T / r) / m`. It is reckoned as
/// `v^2 m / (2 (F C + 4 T / r))`, the divisor at the square of the scale, and
/// rounded once, so that the least load still counts.
#[verifier::when_used_as_spec(spec_braking_distance_of)]
pub fn braking_distance_of(load: Scalar, coefficient: Scalar, brake_torque: Scalar, tire_radius: Scalar, mass: Scalar) -> (r: Scalar)
    ensures
        r == spec_braking_distance_of(load, coefficient, brake_torque, tire_radius, mass),
{
    proof {
        reveal(spec_braking_distance_of);
    }
    let rolling = wide_times(raw_of(floored_load(load)), raw_of(coefficient));
    let brakes = wide_over(
        wide_times(wide_times(wide_num(4), raw_of(brake_torque)), wide_num(SCALE_SQUARED)),
        raw_of(tire_radius),
    );
    let force = wide_plus(rolling, brakes);
    let energy = wide_times(wide_times(wide_num(V_CAR_SQUARED), raw_of(mass)), wide_num(SCALE));
    narrow(wide_over(energy, wide_times(wide_num(2), force)))
}

impl Car {
    /// The mass of the rear wing.
    #[verifier::opaque]
    pub open spec fn spec_mass_rear_wing(&self) -> Scalar {
        part_mass(
            Some(self.rear_wing_density),
            Some(self.rear_wing_length),
            Some(self.rear_wing_width),
            Some(self.rear_wing_height),
        )
    }

    /// The mass of the rear wing.
    #[verifier::when_used_as_spec(spec_mass_rear_wing)]
    pub fn mass_rear_wing(&self) -> (r: Scalar)
        ensures
            r == self.spec_mass_rear_wing(),
    {
        proof {
            reveal(Car::spec_mass_rear_wing);
        }
        part_mass(
            Some(self.rear_wing_density),
            Some(self.rear_wing_length),
            Some(self.rear_wing_width),
            Some(self.rear_wing_height),
        )
    }

    /// The mass of the front wing.
    #[verifier::opaque]
    pub open spec fn spec_mass_front_wing(&self) -> Scalar {
        part_mass(
            Some(self.front_wing_density),
            Some(self.front_wing_length),
            Some(self.front_wing_width),
            Some(self.front_wing_height),
        )
    }

    /// The mass of the front wing.
    #[verifier::when_used_as_spec(spec_mass_front_wing)]
    pub fn mass_front_wing(&self) -> (r: Scalar)
        ensures
            r == self.spec_mass_front_wing(),
    {
        proof {
            reveal(Car::spec_mass_front_wing);
        }
        part_mass(
            Some(self.front_wing_density),
            Some(self.front_wing_length),
            Some(self.front_wing_width),
            Some(self.front_wing_height),
        )
    }

    /// The mass of one side wing.
    #[verifier::opaque]
    pub open spec fn spec_mass_side_wings(&self) -> Scalar {
        part_mass(
            Some(self.side_wing_density),
            Some(self.side_wings_length),
            Some(self.side_wings_width),
            Some(self.side_wings_height),
        )
    }

    /// The mass of one side wing.
    #[verifier::when_used_as_spec(spec_mass_side_wings)]
    pub fn mass_side_wings(&self) -> (r: Scalar)
        ensures
            r == self.spec_mass_side_wings(),
    {
        proof {
            reveal(Car::spec_mass_side_wings);
        }
        part_mass(
            Some(self.side_wing_density),
            Some(self.side_wings_length),
            Some(self.side_wings_width),
            Some(self.side_wings_height),
        )
    }

    /// The mass of the impact attenuator.
    #[verifier::opaque]
    pub open spec fn spec_mass_impact_attenuator(&self) -> Scalar {
        part_mass(
            Some(self.impact_attenuator_density),
            Some(self.impact_attenuator_length),
            Some(self.impact_attenuator_width),
            Some(self.impact_attenuator_height),
        )
    }

    /// The mass of the impact attenuator.
    #[verifier::when_used_as_spec(spec_mass_impact_attenuator)]
    pub fn mass_impact_attenuator(&self) -> (r: Scalar)
        ensures
            r == self.spec_mass_impact_attenuator(),
    {
        proof {
            reveal(Car::spec_mass_impact_attenuator);
        }
        part_mass(
            Some(self.impact_attenuator_density),
            Some(self.impact_attenuator_length),
            Some(self.impact_attenuator_width),
            Some(self.impact_attenuator_height),
        )
    }

    /// The mass of the cabin, a hollow box, at the cube of the scale:
    /// `2 (h l t + h w t + l h t) rho`.
    #[verifier::opaque]
    pub open spec fn spec_cabin_block(&self) -> Wide {
        let rho = Some(self.cabin_density);
        let h = Some(self.cabin_height);
        let l = Some(self.cabin_length);
        let w = Some(self.cabin_width);
        let t = Some(self.cabin_thickness);
        wide_times(
            wide_num(2),
            wide_plus(wide_plus(block(rho, h, l, t), block(rho, h, w, t)), block(rho, l, h, t)),
        )
    }

    /// The mass of the cabin, a hollow box, at the cube of the scale:
    /// `2 (h l t + h w t + l h t) rho`.
    #[verifier::when_used_as_spec(spec_cabin_block)]
    pub fn cabin_block(&self) -> (r: Wide)
        ensures
            r == self.spec_cabin_block(),
    {
        proof {
            reveal(Car::spec_cabin_block);
        }
        let rho = Some(self.cabin_density);
        let h = Some(self.cabin_height);
        let l = Some(self.cabin_length);
        let w = Some(self.cabin_width);
        let t = Some(self.cabin_thickness);
        wide_times(
            wide_num(2),
            wide_plus(wide_plus(block(rho, h, l, t), block(rho, h, w, t)), block(rho, l, h, t)),
        )
    }

    /// The mass of the cabin, a hollow box:
    /// `2 (h l t + h w t + l h t) rho`.
    #[verifier::opaque]
    pub open spec fn spec_mass_cabin(&self) -> Scalar {
        rounded(self.cabin_block())
    }

    /// The mass of the cabin, a hollow box:
    /// `2 (h l t + h w t + l h t) rho`.
    #[verifier::when_used_as_spec(spec_mass_cabin)]
    pub fn mass_cabin(&self) -> (r: Scalar)
        ensures
            r == self.spec_mass_cabin(),
    {
        proof {
            reveal(Car::spec_mass_cabin);
        }
        rounded(self.cabin_block())
    }

    /// The mass of one brake.
    #[verifier::opaque]
    pub open spec fn spec_mass_brake(&self) -> Scalar {
        part_mass(
            Some(self.brake_density),
            Some(self.brake_length),
            Some(self.brake_width),
            Some(self.brake_height),
        )
    }

    /// The mass of one brake.
    #[verifier::when_used_as_spec(spec_mass_brake)]
    pub fn mass_brake(&self) -> (r: Scalar)
        ensures
            r == self.spec_mass_brake(),
    {
        proof {
            reveal(Car::spec_mass_brake);
        }
        part_mass(
            Some(self.brake_density),
            Some(self.brake_length),
            Some(self.brake_width),
            Some(self.brake_height),
        )
    }

    /// The mass of the car at the cube of the scale: the exact sum of its parts.
    #[verifier::opaque]
    pub open spec fn spec_mass_sum(&self) -> Wide {
        let m = block(
            Some(self.rear_wing_density),
            Some(self.rear_wing_length),
            Some(self.rear_wing_width),
            Some(self.rear_wing_height),
        );
        let m = wide_plus(
            m,
            block(
                Some(self.front_wing_density),
                Some(self.front_wing_length),
                Some(self.front_wing_width),
                Some(self.front_wing_height),
            ),
        );
        let m = wide_plus(
            m,
            wide_times(
                wide_num(2),
                block(
                    Some(self.side_wing_density),
                    Some(self.side_wings_length),
                    Some(self.side_wings_width),
                    Some(self.side_wings_height),
                ),
            ),
        );
        let m = wide_plus(m, wide_times(wide_num(2), whole(Some(self.rear_tire_mass))));
        let m = wide_plus(m, wide_times(wide_num(2), whole(Some(self.front_tire_mass))));
        let m = wide_plus(m, whole(Some(self.engine_mass)));
        let m = wide_plus(m, self.cabin_block());
        let m = wide_plus(
            m,
            block(
                Some(self.impact_attenuator_density),
                Some(self.impact_attenuator_length),
                Some(self.impact_attenuator_width),
                Some(self.impact_attenuator_height),
            ),
        );
        let m = wide_plus(
            m,
            wide_times(
                wide_num(4),
                block(
                    Some(self.brake_density),
                    Some(self.brake_length),
                    Some(self.brake_width),
                    Some(self.brake_height),
                ),
            ),
        );
        let m = wide_plus(m, wide_times(wide_num(2), whole(Some(self.rear_suspension_mass))));
        wide_plus(m, wide_times(wide_num(2), whole(Some(self.front_suspension_mass))))
    }

    /// The mass of the car at the cube of the scale: the exact sum of its parts.
    #[verifier::when_used_as_spec(spec_mass_sum)]
    pub fn mass_sum(&self) -> (r: Wide)
        ensures
            r == self.spec_mass_sum(),
    {
        proof {
            reveal(Car::spec_mass_sum);
        }
        let m = block(
            Some(self.rear_wing_density),
            Some(self.rear_wing_length),
            Some(self.rear_wing_width),
            Some(self.rear_wing_height),
        );
        let m = wide_plus(
            m,
            block(
                Some(self.front_wing_density),
                Some(self.front_wing_length),
                Some(self.front_wing_width),
                Some(self.front_wing_height),
            ),
        );
        let m = wide_plus(
            m,
            wide_times(
                wide_num(2),
                block(
                    Some(self.side_wing_density),
                    Some(self.side_wings_length),
                    Some(self.side_wings_width),
                    Some(self.side_wings_height),
                ),
            ),
        );
        let m = wide_plus(m, wide_times(wide_num(2), whole(Some(self.rear_tire_mass))));
        let m = wide_plus(m, wide_times(wide_num(2), whole(Some(self.front_tire_mass))));
        let m = wide_plus(m, whole(Some(self.engine_mass)));
        let m = wide_plus(m, self.cabin_block());
        let m = wide_plus(
            m,
            block(
                Some(self.impact_attenuator_density),
                Some(self.impact_attenuator_length),
                Some(self.impact_attenuator_width),
                Some(self.impact_attenuator_height),
            ),
        );
        let m = wide_plus(
            m,
            wide_times(
                wide_num(4),
                block(
                    Some(self.brake_density),
                    Some(self.brake_length),
                    Some(self.brake_width),
                    Some(self.brake_height),
                ),
            ),
        );
        let m = wide_plus(m, wide_times(wide_num(2), whole(Some(self.rear_suspension_mass))));
        wide_plus(m, wide_times(wide_num(2), whole(Some(self.front_suspension_mass))))
    }

    /// The mass of the car: wings, tires, engine, cabin, impact attenuator,
    /// brakes and suspensions, added up exactly and rounded once.
    #[verifier::opaque]
    pub open spec fn spec_mass(&self) -> Scalar {
        rounded(self.mass_sum())
    }

    /// The mass of the car: wings, tires, engine, cabin, impact attenuator,
    /// brakes and suspensions, added up exactly and rounded once.
    #[verifier::when_used_as_spec(spec_mass)]
    pub fn mass(&self) -> (r: Scalar)
        ensures
            r == self.spec_mass(),
    {
        proof {
            reveal(Car::spec_mass);
        }
        rounded(self.mass_sum())
    }

    /// The height of the center of gravity: the heights of the parts, weighted by
    /// their masses, by the mass of the car. The parts that come in pairs count
    /// twice.
    #[verifier::opaque]
    pub open spec fn spec_center_of_gravity(&self) -> Scalar {
        let total_mass = self.mass();
        let single = times(self.mass_rear_wing(), Some(self.rear_wing_y_position));
        let single = plus(single, times(self.mass_front_wing(), Some(self.front_wing_y_position)));
        let single = plus(single, times(Some(self.engine_mass), Some(self.engine_y_position)));
        let single = plus(single, times(self.mass_cabin(), Some(self.cabin_y_position)));
        let single = plus(
            single,
            times(self.mass_impact_attenuator(), Some(self.impact_attenuator_y_position)),
        );
        let paired = times(self.mass_side_wings(), Some(self.side_wing_y_position));
        let paired = plus(paired, times(Some(self.rear_tire_mass), Some(self.rear_tire_radius)));
        let paired = plus(paired, times(Some(self.front_tire_mass), Some(self.front_tire_radius)));
        let paired = plus(paired, times(self.mass_brake(), Some(self.front_tire_radius)));
        let paired = plus(
            paired,
            times(Some(self.rear_suspension_mass), Some(self.rear_suspension_y_position)),
        );
        let paired = plus(
            paired,
            times(Some(self.front_suspension_mass), Some(self.front_suspension_y_position)),
        );
        plus(over(single, total_mass), over(times(num(TWO), paired), total_mass))
    }

    /// The height of the center of gravity: the heights of the parts, weighted by
    /// their masses, by the mass of the car. The parts that come in pairs count
    /// twice.
    #[verifier::when_used_as_spec(spec_center_of_gravity)]
    pub fn center_of_gravity(&self) -> (r: Scalar)
        ensures
            r == self.spec_center_of_gravity(),
    {
        proof {
            reveal(Car::spec_center_of_gravity);
        }
        let total_mass = self.mass();
        let single = times(self.mass_rear_wing(), Some(self.rear_wing_y_position));
        let single = plus(single, times(self.mass_front_wing(), Some(self.front_wing_y_position)));
        let single = plus(single, times(Some(self.engine_mass), Some(self.engine_y_position)));
        let single = plus(single, times(self.mass_cabin(), Some(self.cabin_y_position)));
        let single = plus(
            single,
            times(self.mass_impact_attenuator(), Some(self.impact_attenuator_y_position)),
        );
        let paired = times(self.mass_side_wings(), Some(self.side_wing_y_position));
        let paired = plus(paired, times(Some(self.rear_tire_mass), Some(self.rear_tire_radius)));
        let paired = plus(paired, times(Some(self.front_tire_mass), Some(self.front_tire_radius)));
        let paired = plus(paired, times(self.mass_brake(), Some(self.front_tire_radius)));
        let paired = plus(
            paired,
            times(Some(self.rear_suspension_mass), Some(self.rear_suspension_y_position)),
        );
        let paired = plus(
            paired,
            times(Some(self.front_suspension_mass), Some(self.front_suspension_y_position)),
        );
        plus(over(single, total_mass), over(times(num(TWO), paired), total_mass))
    }

    /// The drag of the rear wing.
    #[verifier::opaque]
    pub open spec fn spec_rear_wing_drag(&self) -> Scalar {
        wing_drag_force(
            Some(self.rear_wing_width),
            Some(self.rear_wing_height),
            Some(self.rear_wing_length),
            Some(self.rear_wing_angle_of_attack),
        )
    }

    /// The drag of the rear wing.
    #[verifier::when_used_as_spec(spec_rear_wing_drag)]
    pub fn rear_wing_drag(&self) -> (r: Scalar)
        ensures
            r == self.spec_rear_wing_drag(),
    {
        proof {
            reveal(Car::spec_rear_wing_drag);
        }
        wing_drag_force(
            Some(self.rear_wing_width),
            Some(self.rear_wing_height),
            Some(self.rear_wing_length),
            Some(self.rear_wing_angle_of_attack),
        )
    }

    /// The drag of the front wing.
    #[verifier::opaque]
    pub open spec fn spec_front_wing_drag(&self) -> Scalar {
        wing_drag_force(
            Some(self.front_wing_width),
            Some(self.front_wing_height),
            Some(self.front_wing_length),
            Some(self.front_wing_angle_of_attack),
        )
    }

    /// The drag of the front wing.
    #[verifier::when_used_as_spec(spec_front_wing_drag)]
    pub fn front_wing_drag(&self) -> (r: Scalar)
        ensures
            r == self.spec_front_wing_drag(),
    {
        proof {
            reveal(Car::spec_front_wing_drag);
        }
        wing_drag_force(
            Some(self.front_wing_width),
            Some(self.front_wing_height),
            Some(self.front_wing_length),
            Some(self.front_wing_angle_of_attack),
        )
    }

    /// The drag of one side wing.
    #[verifier::opaque]
    pub open spec fn spec_side_wing_drag(&self) -> Scalar {
        wing_drag_force(
            Some(self.side_wings_width),
            Some(self.side_wings_height),
            Some(self.side_wings_length),
            Some(self.side_wings_angle_of_attack),
        )
    }

    /// The drag of one side wing.
    #[verifier::when_used_as_spec(spec_side_wing_drag)]
    pub fn side_wing_drag(&self) -> (r: Scalar)
        ensures
            r == self.spec_side_wing_drag(),
    {
        proof {
            reveal(Car::spec_side_wing_drag);
        }
        wing_drag_force(
            Some(self.side_wings_width),
            Some(self.side_wings_height),
            Some(self.side_wings_length),
            Some(self.side_wings_angle_of_attack),
        )
    }

    /// The downforce of the rear wing.
    #[verifier::opaque]
    pub open spec fn spec_rear_wing_down_force(&self) -> Scalar {
        wing_down_force(
            Some(self.rear_wing_width),
            Some(self.rear_wing_height),
            Some(self.rear_wing_length),
            Some(self.rear_wing_angle_of_attack),
        )
    }

    /// The downforce of the rear wing.
    #[verifier::when_used_as_spec(spec_rear_wing_down_force)]
    pub fn rear_wing_down_force(&self) -> (r: Scalar)
        ensures
            r == self.spec_rear_wing_down_force(),
    {
        proof {
            reveal(Car::spec_rear_wing_down_force);
        }
        wing_down_force(
            Some(self.rear_wing_width),
            Some(self.rear_wing_height),
            Some(self.rear_wing_length),
            Some(self.rear_wing_angle_of_attack),
        )
    }

    /// The downforce of the front wing.
    #[verifier::opaque]
    pub open spec fn spec_front_wing_down_force(&self) -> Scalar {
        wing_down_force(
            Some(self.front_wing_width),
            Some(self.front_wing_height),
            Some(self.front_wing_length),
            Some(self.front_wing_angle_of_attack),
        )
    }

    /// The downforce of the front wing.
    #[verifier::when_used_as_spec(spec_front_wing_down_force)]
    pub fn front_wing_down_force(&self) -> (r: Scalar)
        ensures
            r == self.spec_front_wing_down_force(),
    {
        proof {
            reveal(Car::spec_front_wing_down_force);
        }
        wing_down_force(
            Some(self.front_wing_width),
            Some(self.front_wing_height),
            Some(self.front_wing_length),
            Some(self.front_wing_angle_of_attack),
        )
    }

    /// The downforce of one side wing.
    #[verifier::opaque]
    pub open spec fn spec_side_wing_down_force(&self) -> Scalar {
        wing_down_force(
            Some(self.side_wings_width),
            Some(self.side_wings_height),
            Some(self.side_wings_length),
            Some(self.side_wings_angle_of_attack),
        )
    }

    /// The downforce of one side wing.
    #[verifier::when_used_as_spec(spec_side_wing_down_force)]
    pub fn side_wing_down_force(&self) -> (r: Scalar)
        ensures
            r == self.spec_side_wing_down_force(),
    {
        proof {
            reveal(Car::spec_side_wing_down_force);
        }
        wing_down_force(
            Some(self.side_wings_width),
            Some(self.side_wings_height),
            Some(self.side_wings_length),
            Some(self.side_wings_angle_of_attack),
        )
    }

    /// The drag on the car: that of the wings and that of the cabin.
    #[verifier::opaque]
    pub open spec fn spec_total_drag_force(&self) -> Scalar {
        let cabin_drag = drag_force(Some(self.cabin_width), Some(self.cabin_height), num(C_DC));
        let drag = plus(self.rear_wing_drag(), self.front_wing_drag());
        let drag = plus(drag, times(num(TWO), self.side_wing_drag()));
        plus(drag, cabin_drag)
    }

    /// The drag on the car: that of the wings and that of the cabin.
    #[verifier::when_used_as_spec(spec_total_drag_force)]
    pub fn total_drag_force(&self) -> (r: Scalar)
        ensures
            r == self.spec_total_drag_force(),
    {
        proof {
            reveal(Car::spec_total_drag_force);
        }
        let cabin_drag = drag_force(Some(self.cabin_width), Some(self.cabin_height), num(C_DC));
        let drag = plus(self.rear_wing_drag(), self.front_wing_drag());
        let drag = plus(drag, times(num(TWO), self.side_wing_drag()));
        plus(drag, cabin_drag)
    }

    /// The downforce on the car: that of its wings.
    #[verifier::opaque]
    pub open spec fn spec_total_downward_force(&self) -> Scalar {
        let down = plus(self.rear_wing_down_force(), self.front_wing_down_force());
        plus(down, times(num(TWO), self.side_wing_down_force()))
    }

    /// The downforce on the car: that of its wings.
    #[verifier::when_used_as_spec(spec_total_downward_force)]
    pub fn total_downward_force(&self) -> (r: Scalar)
        ensures
            r == self.spec_total_downward_force(),
    {
        proof {
            reveal(Car::spec_total_downward_force);
        }
        let down = plus(self.rear_wing_down_force(), self.front_wing_down_force());
        plus(down, times(num(TWO), self.side_wing_down_force()))
    }

    /// The rolling resistance of the car on tires of the given pressure.
    #[verifier::opaque]
    pub open spec fn spec_rolling_resistance(&self, tire_pressure: Scalar) -> Scalar {
        times(times(rolling_coefficient(tire_pressure), self.mass()), num(GRAVITY))
    }

    /// The rolling resistance of the car on tires of the given pressure.
    #[verifier::when_used_as_spec(spec_rolling_resistance)]
    pub fn rolling_resistance(&self, tire_pressure: Scalar) -> (r: Scalar)
        ensures
            r == self.spec_rolling_resistance(tire_pressure),
    {
        proof {
            reveal(Car::spec_rolling_resistance);
        }
        times(times(rolling_coefficient(tire_pressure), self.mass()), num(GRAVITY))
    }

    /// The acceleration of the car at its speed: the force at the wheels less the
    /// resistance, by the mass.
    #[verifier::opaque]
    pub open spec fn spec_acceleration(&self) -> Scalar {
        let total_resistance = plus(
            self.total_drag_force(),
            self.rolling_resistance(Some(self.rear_tire_pressure)),
        );
        let w_wheels = over(num(V_CAR), Some(self.rear_tire_radius));
        let efficiency = over(times(total_resistance, num(V_CAR)), Some(self.engine_power));
        let f_wheels = over(
            times(times(Some(self.engine_torque), efficiency), num(W_E)),
            times(Some(self.rear_tire_radius), w_wheels),
        );
        over(minus(f_wheels, total_resistance), self.mass())
    }

    /// The acceleration of the car at its speed: the force at the wheels less the
    /// resistance, by the mass.
    #[verifier::when_used_as_spec(spec_acceleration)]
    pub fn acceleration(&self) -> (r: Scalar)
        ensures
            r == self.spec_acceleration(),
    {
        proof {
            reveal(Car::spec_acceleration);
        }
        let total_resistance = plus(
            self.total_drag_force(),
            self.rolling_resistance(Some(self.rear_tire_pressure)),
        );
        let w_wheels = over(num(V_CAR), Some(self.rear_tire_radius));
        let efficiency = over(times(total_resistance, num(V_CAR)), Some(self.engine_power));
        let f_wheels = over(
            times(times(Some(self.engine_torque), efficiency), num(W_E)),
            times(Some(self.rear_tire_radius), w_wheels),
        );
        over(minus(f_wheels, total_resistance), self.mass())
    }

    /// The force of a crash at the speed of the car.
    #[verifier::opaque]
    pub open spec fn spec_crash_force(&self) -> Scalar {
        crash_force_of(
            self.mass(),
            Some(self.impact_attenuator_width),
            Some(self.impact_attenuator_height),
            Some(self.impact_attenuator_modulus),
            Some(self.impact_attenuator_length),
        )
    }

    /// The force of a crash at the speed of the car.
    #[verifier::when_used_as_spec(spec_crash_force)]
    pub fn crash_force(&self) -> (r: Scalar)
        ensures
            r == self.spec_crash_force(),
    {
        proof {
            reveal(Car::spec_crash_force);
        }
        crash_force_of(
            self.mass(),
            Some(self.impact_attenuator_width),
            Some(self.impact_attenuator_height),
            Some(self.impact_attenuator_modulus),
            Some(self.impact_attenuator_length),
        )
    }

    /// The volume of the impact attenuator.
    #[verifier::opaque]
    pub open spec fn spec_impact_attenuator_volume(&self) -> Scalar {
        times(
            times(Some(self.impact_attenuator_length), Some(self.impact_attenuator_height)),
            Some(self.impact_attenuator_width),
        )
    }

    /// The volume of the impact attenuator.
    #[verifier::when_used_as_spec(spec_impact_attenuator_volume)]
    pub fn impact_attenuator_volume(&self) -> (r: Scalar)
        ensures
            r == self.spec_impact_attenuator_volume(),
    {
        proof {
            reveal(Car::spec_impact_attenuator_volume);
        }
        times(
            times(Some(self.impact_attenuator_length), Some(self.impact_attenuator_height)),
            Some(self.impact_attenuator_width),
        )
    }

    /// The force of the front suspension.
    #[verifier::opaque]
    pub open spec fn spec_front_suspension_force(&self) -> Scalar {
        suspension_force(
            Some(self.front_suspension_spring_constant),
            Some(self.front_suspension_damping_coefficient),
        )
    }

    /// The force of the front suspension.
    #[verifier::when_used_as_spec(spec_front_suspension_force)]
    pub fn front_suspension_force(&self) -> (r: Scalar)
        ensures
            r == self.spec_front_suspension_force(),
    {
        proof {
            reveal(Car::spec_front_suspension_force);
        }
        suspension_force(
            Some(self.front_suspension_spring_constant),
            Some(self.front_suspension_damping_coefficient),
        )
    }

    /// The force of the rear suspension.
    #[verifier::opaque]
    pub open spec fn spec_rear_suspension_force(&self) -> Scalar {
        suspension_force(
            Some(self.rear_suspension_spring_constant),
            Some(self.rear_suspension_damping_coefficient),
        )
    }

    /// The force of the rear suspension.
    #[verifier::when_used_as_spec(spec_rear_suspension_force)]
    pub fn rear_suspension_force(&self) -> (r: Scalar)
        ensures
            r == self.spec_rear_suspension_force(),
    {
        proof {
            reveal(Car::spec_rear_suspension_force);
        }
        suspension_force(
            Some(self.rear_suspension_spring_constant),
            Some(self.rear_suspension_damping_coefficient),
        )
    }

    /// The load that holds the car in a corner: downforce and weight, less the
    /// forces of the four suspensions.
    #[verifier::opaque]
    pub open spec fn spec_cornering_load(&self) -> Scalar {
        let load = plus(self.total_downward_force(), times(self.mass(), num(GRAVITY)));
        let load = minus(load, times(num(TWO), self.front_suspension_force()));
        minus(load, times(num(TWO), self.rear_suspension_force()))
    }

    /// The load that holds the car in a corner: downforce and weight, less the
    /// forces of the four suspensions.
    #[verifier::when_used_as_spec(spec_cornering_load)]
    pub fn cornering_load(&self) -> (r: Scalar)
        ensures
            r == self.spec_cornering_load(),
    {
        proof {
            reveal(Car::spec_cornering_load);
        }
        let load = plus(self.total_downward_force(), times(self.mass(), num(GRAVITY)));
        let load = minus(load, times(num(TWO), self.front_suspension_force()));
        minus(load, times(num(TWO), self.rear_suspension_force()))
    }

    /// The speed at which the car holds the skid pad.
    #[verifier::opaque]
    pub open spec fn spec_corner_velocity(&self) -> Scalar {
        corner_velocity_of(self.cornering_load(), self.mass())
    }

    /// The speed at which the car holds the skid pad.
    #[verifier::when_used_as_spec(spec_corner_velocity)]
    pub fn corner_velocity(&self) -> (r: Scalar)
        ensures
            r == self.spec_corner_velocity(),
    {
        proof {
            reveal(Car::spec_corner_velocity);
        }
        corner_velocity_of(self.cornering_load(), self.mass())
    }

    /// The normal load under braking: weight and downforce, less the forces of
    /// the four suspensions.
    #[verifier::opaque]
    pub open spec fn spec_braking_load(&self) -> Scalar {
        let load = plus(times(self.mass(), num(GRAVITY)), self.total_downward_force());
        let load = minus(load, times(num(TWO), self.rear_suspension_force()));
        minus(load, times(num(TWO), self.front_suspension_force()))
    }

    /// The normal load under braking: weight and downforce, less the forces of
    /// the four suspensions.
    #[verifier::when_used_as_spec(spec_braking_load)]
    pub fn braking_load(&self) -> (r: Scalar)
        ensures
            r == self.spec_braking_load(),
    {
        proof {
            reveal(Car::spec_braking_load);
        }
        let load = plus(times(self.mass(), num(GRAVITY)), self.total_downward_force());
        let load = minus(load, times(num(TWO), self.rear_suspension_force()));
        minus(load, times(num(TWO), self.front_suspension_force()))
    }

    /// The torque of one brake: `2 c P A r`, with the pad of the brake's height
    /// and width.
    #[verifier::opaque]
    pub open spec fn spec_brake_torque(&self) -> Scalar {
        let a_brk = times(Some(self.brake_height), Some(self.brake_width));
        times(
            times(times(times(num(TWO), num(C_BRAKE)), num(P_BRAKE)), a_brk),
            Some(self.brake_radius),
        )
    }

    /// The torque of one brake: `2 c P A r`, with the pad of the brake's height
    /// and width.
    #[verifier::when_used_as_spec(spec_brake_torque)]
    pub fn brake_torque(&self) -> (r: Scalar)
        ensures
            r == self.spec_brake_torque(),
    {
        proof {
            reveal(Car::spec_brake_torque);
        }
        let a_brk = times(Some(self.brake_height), Some(self.brake_width));
        times(
            times(times(times(num(TWO), num(C_BRAKE)), num(P_BRAKE)), a_brk),
            Some(self.brake_radius),
        )
    }

    /// The distance in which the car stops from its speed.
    #[verifier::opaque]
    pub open spec fn spec_braking_distance(&self) -> Scalar {
        braking_distance_of(
            self.braking_load(),
            rolling_coefficient(Some(self.rear_tire_pressure)),
            self.brake_torque(),
            Some(self.rear_tire_radius),
            self.mass(),
        )
    }

    /// The distance in which the car stops from its speed.
    #[verifier::when_used_as_spec(spec_braking_distance)]
    pub fn braking_distance(&self) -> (r: Scalar)
        ensures
            r == self.spec_braking_distance(),
    {
        proof {
            reveal(Car::spec_braking_distance);
        }
        braking_distance_of(
            self.braking_load(),
            rolling_coefficient(Some(self.rear_tire_pressure)),
            self.brake_torque(),
            Some(self.rear_tire_radius),
            self.mass(),
        )
    }

    /// The acceleration of the body on its suspensions:
    /// `-(2 F_front - 2 F_rear - m g - F_down) / m`.
    #[verifier::opaque]
    pub open spec fn spec_suspension_acceleration(&self) -> Scalar {
        let force = minus(
            times(num(TWO), self.front_suspension_force()),
            times(num(TWO), self.rear_suspension_force()),
        );
        let force = minus(force, times(self.mass(), num(GRAVITY)));
        let force = minus(force, self.total_downward_force());
        over(negate(force), self.mass())
    }

    /// The acceleration of the body on its suspensions:
    /// `-(2 F_front - 2 F_rear - m g - F_down) / m`.
    #[verifier::when_used_as_spec(spec_suspension_acceleration)]
    pub fn suspension_acceleration(&self) -> (r: Scalar)
        ensures
            r == self.spec_suspension_acceleration(),
    {
        proof {
            reveal(Car::spec_suspension_acceleration);
        }
        let force = minus(
            times(num(TWO), self.front_suspension_force()),
            times(num(TWO), self.rear_suspension_force()),
        );
        let force = minus(force, times(self.mass(), num(GRAVITY)));
        let force = minus(force, self.total_downward_force());
        over(negate(force), self.mass())
    }

    /// The size of the pitch moment: that of the suspension forces at their lever
    /// arm and of the downforce of each wing at its distance, along the car, from
    /// the end of the cabin.
    #[verifier::opaque]
    pub open spec fn spec_pitch_moment(&self) -> Scalar {
        let lcg = Some(self.cabin_length);
        let arm = num(SUSPENSION_ARM);
        let moment = plus(
            times(times(num(TWO), self.front_suspension_force()), arm),
            times(times(num(TWO), self.rear_suspension_force()), arm),
        );
        let moment = plus(
            moment,
            times(self.rear_wing_down_force(), minus(lcg, Some(self.rear_wing_length))),
        );
        let moment = minus(
            moment,
            times(self.front_wing_down_force(), minus(lcg, Some(self.front_wing_length))),
        );
        let moment = minus(
            moment,
            times(
                times(num(TWO), self.side_wing_down_force()),
                minus(lcg, Some(self.side_wings_length)),
            ),
        );
        absolute(moment)
    }

    /// The size of the pitch moment: that of the suspension forces at their lever
    /// arm and of the downforce of each wing at its distance, along the car, from
    /// the end of the cabin.
    #[verifier::when_used_as_spec(spec_pitch_moment)]
    pub fn pitch_moment(&self) -> (r: Scalar)
        ensures
            r == self.spec_pitch_moment(),
    {
        proof {
            reveal(Car::spec_pitch_moment);
        }
        let lcg = Some(self.cabin_length);
        let arm = num(SUSPENSION_ARM);
        let moment = plus(
            times(times(num(TWO), self.front_suspension_force()), arm),
            times(times(num(TWO), self.rear_suspension_force()), arm),
        );
        let moment = plus(
            moment,
            times(self.rear_wing_down_force(), minus(lcg, Some(self.rear_wing_length))),
        );
        let moment = minus(
            moment,
            times(self.front_wing_down_force(), minus(lcg, Some(self.front_wing_length))),
        );
        let moment = minus(
            moment,
            times(
                times(num(TWO), self.side_wing_down_force()),
                minus(lcg, Some(self.side_wings_length)),
            ),
        );
        absolute(moment)
    }

    /// The eleven objectives in their fixed order: mass, center of gravity,
    /// drag, downforce, acceleration, crash force, impact attenuator volume,
    /// corner velocity, braking distance, suspension acceleration and pitch
    /// moment.
    pub open spec fn spec_objectives(&self) -> Seq<Scalar> {
        seq![
            self.mass(),
            self.center_of_gravity(),
            self.total_drag_force(),
            self.total_downward_force(),
            self.acceleration(),
            self.crash_force(),
            self.impact_attenuator_volume(),
            self.corner_velocity(),
            self.braking_distance(),
            self.suspension_acceleration(),
            self.pitch_moment(),
        ]
    }

    /// The eleven objectives in their fixed order: mass, center of gravity,
    /// drag, downforce, acceleration, crash force, impact attenuator volume,
    /// corner velocity, braking distance, suspension acceleration and pitch
    /// moment.
    pub fn objectives(&self) -> (r: [Scalar; 11])
        ensures
            r@ == self.spec_objectives(),
    {
        let r = [
            self.mass(),
            self.center_of_gravity(),
            self.total_drag_force(),
            self.total_downward_force(),
            self.acceleration(),
            self.crash_force(),
            self.impact_attenuator_volume(),
            self.corner_velocity(),
            self.braking_distance(),
            self.suspension_acceleration(),
            self.pitch_moment(),
        ];
        assert(r@ =~= self.spec_objectives());
        r
    }

    /// The objectives as one number: each times its weight, added up in
    /// their order. The weights are taken as they are, not brought to sum
    /// to one.
    pub fn objective(&self, weights: [Fixed; 11]) -> (r: Scalar)
        ensures
            r == spec_weighted_sum(weights@, self.spec_objectives(), 11),
    {
        let values = self.objectives();
        weighted_sum(&weights, &values)
    }
}

/// The sum of the first `n` values, each times its weight, added up from the
/// first on.
pub open spec fn spec_weighted_sum(weights: Seq<Fixed>, values: Seq<Scalar>, n: int) -> Scalar
    decreases n,
{
    if n <= 0 {
        num(0)
    } else {
        plus(spec_weighted_sum(weights, values, n - 1), times(Some(weights[n - 1]), values[n - 1]))
    }
}

/// The eleven values as one number: each times its weight, added up in their
/// order.
pub fn weighted_sum(weights: &[Fixed; 11], values: &[Scalar; 11]) -> (r: Scalar)
    ensures
        r == spec_weighted_sum(weights@, values@, 11),
{
    let mut sum = num(0);
    let mut i: usize = 0;
    while i < 11
        invariant
            i <= 11,
            sum == spec_weighted_sum(weights@, values@, i as int),
        decreases 11 - i,
    {
        sum = plus(sum, times(Some(weights[i]), values[i]));
        i = i + 1;
    }
    sum
}


/// A longer impact attenuator makes no harder crash: with the other inputs
/// held, the crash force does not rise with the length. (It falls as the
/// inverse square root of the length; after rounding, two lengths can give
/// one force, and where there is nothing to stop every length gives zero.)
pub proof fn lemma_crash_force_falls_with_length(
    mass: Scalar,
    width: Scalar,
    height: Scalar,
    modulus: Scalar,
    short: Fixed,
    long: Fixed,
)
    requires
        0 < short.raw <= long.raw,
    ensures
        ({
            let hard = spec_crash_force_of(mass, width, height, modulus, Some(short));
            let soft = spec_crash_force_of(mass, width, height, modulus, Some(long));
            hard is Some && soft is Some ==> soft->0.raw <= hard->0.raw
        }),
{
    reveal(spec_crash_force_of);
    let hard = spec_crash_force_of(mass, width, height, modulus, Some(short));
    let soft = spec_crash_force_of(mass, width, height, modulus, Some(long));
    if hard is Some && soft is Some {
        let energy = times(times(times(times(mass, square(num(V_CAR))), width), height), modulus);
        let n = energy->0.raw as int;
        lemma_times_two(short);
        lemma_times_two(long);
        let d1 = 2 * short.raw;
        let d2 = 2 * long.raw;
        let q1 = quot(n * SCALE, d1);
        let q2 = quot(n * SCALE, d2);
        assert(0 <= q2 <= q1 && q2 * SCALE <= q1 * SCALE) by {
            if n >= 0 {
                assert(n * SCALE >= 0) by (nonlinear_arith)
                    requires
                        n >= 0,
                ;
                lemma_div_is_ordered_by_denominator(n * SCALE, d1, d2);
                assert(0 <= (n * SCALE) / d2) by (nonlinear_arith)
                    requires
                        n * SCALE >= 0,
                        d2 > 0,
                ;
            } else {
                assert(n * SCALE < 0) by (nonlinear_arith)
                    requires
                        n < 0,
                ;
                assert(0 <= magnitude(n * SCALE) / d1 && 0 <= magnitude(n * SCALE) / d2)
                    by (nonlinear_arith)
                    requires
                        d1 > 0,
                        d2 > 0,
                        magnitude(n * SCALE) >= 0,
                ;
            }
            assert(q2 * SCALE <= q1 * SCALE) by (nonlinear_arith)
                requires
                    q2 <= q1,
            ;
            assert(0 <= q2 * SCALE) by (nonlinear_arith)
                requires
                    0 <= q2,
            ;
        }
        lemma_isqrt_monotonic(q2 * SCALE, q1 * SCALE);
    }
}

/// Four times the length halves the crash force, up to rounding: twice the
/// force at four times the length is not above the force at the length, and
/// misses it by less than the rounding of one quotient and two roots,
/// `F^2 < (2 f + 2)^2 + 3` in raw counts at the square of the scale.
pub proof fn lemma_crash_force_halves(
    mass: Scalar,
    width: Scalar,
    height: Scalar,
    modulus: Scalar,
    length: Fixed,
)
    requires
        0 < length.raw,
        4 * length.raw <= MAX_RAW,
    ensures
        ({
            let long = Fixed { raw: (4 * length.raw) as i128 };
            let hard = spec_crash_force_of(mass, width, height, modulus, Some(length));
            let soft = spec_crash_force_of(mass, width, height, modulus, Some(long));
            hard is Some && soft is Some ==> 2 * soft->0.raw <= hard->0.raw && hard->0.raw
                * hard->0.raw < (2 * soft->0.raw + 2) * (2 * soft->0.raw + 2) + 3 * SCALE
        }),
{
    reveal(spec_crash_force_of);
    let long = Fixed { raw: (4 * length.raw) as i128 };
    let hard = spec_crash_force_of(mass, width, height, modulus, Some(length));
    let soft = spec_crash_force_of(mass, width, height, modulus, Some(long));
    if hard is Some && soft is Some {
        let energy = times(times(times(times(mass, square(num(V_CAR))), width), height), modulus);
        let n = energy->0.raw as int;
        lemma_times_two(length);
        lemma_times_two(long);
        let d1 = 2 * length.raw;
        let d4 = 2 * long.raw;
        let q1 = quot(n * SCALE, d1);
        let q4 = quot(n * SCALE, d4);
        let r1 = hard->0.raw as int;
        let r4 = soft->0.raw as int;
        assert(0 <= 4 * q4 <= q1 <= 4 * q4 + 3) by {
            if n >= 0 {
                assert(n * SCALE >= 0) by (nonlinear_arith)
                    requires
                        n >= 0,
                ;
                lemma_div_denominator(n * SCALE, d1, 4);
                assert(d1 * 4 == d4);
                assert(0 <= (n * SCALE) / d4) by (nonlinear_arith)
                    requires
                        n * SCALE >= 0,
                        d4 > 0,
                ;
            } else {
                assert(n * SCALE < 0) by (nonlinear_arith)
                    requires
                        n < 0,
                ;
                assert(0 <= magnitude(n * SCALE) / d1 && 0 <= magnitude(n * SCALE) / d4)
                    by (nonlinear_arith)
                    requires
                        d1 > 0,
                        d4 > 0,
                        magnitude(n * SCALE) >= 0,
                ;
            }
        }
        assert(0 <= q4 * SCALE && 4 * (q4 * SCALE) <= q1 * SCALE <= 4 * (q4 * SCALE) + 3 * SCALE)
            by (nonlinear_arith)
            requires
                0 <= 4 * q4 <= q1 <= 4 * q4 + 3,
        ;
        lemma_isqrt(q1 * SCALE);
        lemma_isqrt(q4 * SCALE);
        assert(r1 == isqrt(q1 * SCALE));
        assert(r4 == isqrt(q4 * SCALE));
        assert(2 * r4 <= r1 && r1 * r1 < (2 * r4 + 2) * (2 * r4 + 2) + 3 * SCALE)
            by (nonlinear_arith)
            requires
                r1 >= 0,
                r4 >= 0,
                r1 * r1 <= q1 * SCALE < (r1 + 1) * (r1 + 1),
                r4 * r4 <= q4 * SCALE < (r4 + 1) * (r4 + 1),
                4 * (q4 * SCALE) <= q1 * SCALE <= 4 * (q4 * SCALE) + 3 * SCALE,
        ;
    }
}

/// The mass of a block of sizes and density that are not negative is not
/// negative, and at the cube of the scale it lies below the exact product of
/// density and sizes by less than the density: only the volume is rounded.
pub proof fn lemma_block_bounds(density: Scalar, a: Scalar, b: Scalar, c: Scalar)
    requires
        not_negative(density),
        not_negative(a),
        not_negative(b),
        not_negative(c),
    ensures
        wide_not_negative(spec_block(density, a, b, c)),
        not_negative(spec_part_mass(density, a, b, c)),
        spec_block(density, a, b, c) matches Some(x) ==> {
            let exact = density->0.raw * (a->0.raw * b->0.raw * c->0.raw);
            &&& operand(density) && operand(a) && operand(b) && operand(c)
            &&& exact - density->0.raw * SCALE <= x * SCALE <= exact
        },
{
    reveal(spec_block);
    reveal(spec_part_mass);
    reveal(spec_rounded);
    let ab = wide_times(raw_of(a), raw_of(b));
    lemma_wide_times_not_negative(raw_of(a), raw_of(b));
    lemma_wide_times_not_negative(ab, raw_of(c));
    let abc = wide_times(ab, raw_of(c));
    lemma_wide_over_not_negative(abc, wide_num(SCALE));
    let volume = wide_over(abc, wide_num(SCALE));
    lemma_wide_times_not_negative(raw_of(density), volume);
    let block = spec_block(density, a, b, c);
    lemma_wide_over_not_negative(block, wide_num(SCALE_SQUARED));
    if block is Some {
        let v = a->0.raw * b->0.raw * c->0.raw;
        let q = volume->0 as int;
        let rho = density->0.raw as int;
        assert(q == v / (SCALE as int));
        assert(v - SCALE < q * SCALE <= v);
        assert(rho * v - rho * SCALE <= (rho * q) * SCALE <= rho * v) by (nonlinear_arith)
            requires
                rho >= 0,
                v - SCALE < q * SCALE <= v,
        ;
    }
}

/// The rolling resistance coefficient at a pressure that is not negative is
/// not negative.
pub proof fn lemma_rolling_coefficient_not_negative(tire_pressure: Scalar)
    requires
        not_negative(tire_pressure),
    ensures
        not_negative(spec_rolling_coefficient(tire_pressure)),
{
    reveal(spec_rolling_coefficient);
    reveal(spec_square);
    let speed = over(times(num(V_CAR), num(36_000_000_000)), num(1_000_000_000_000));
    lemma_times_not_negative(num(V_CAR), num(36_000_000_000));
    lemma_over_not_negative(times(num(V_CAR), num(36_000_000_000)), num(1_000_000_000_000));
    lemma_times_not_negative(speed, speed);
    lemma_times_not_negative(num(95_000_000), square(speed));
    let inner = plus(num(100_000_000), times(num(95_000_000), square(speed)));
    lemma_over_not_negative(num(ONE), tire_pressure);
    lemma_times_not_negative(over(num(ONE), tire_pressure), inner);
}

/// The braking distance is not negative where the rolling resistance
/// coefficient, the torque of the brakes, the radius of the tires and the
/// mass are not: whatever the load, braking reckons with a load above zero.
pub proof fn lemma_braking_distance_not_negative(
    load: Scalar,
    coefficient: Scalar,
    brake_torque: Scalar,
    tire_radius: Scalar,
    mass: Scalar,
)
    requires
        not_negative(coefficient),
        not_negative(brake_torque),
        not_negative(tire_radius),
        not_negative(mass),
    ensures
        not_negative(spec_braking_distance_of(load, coefficient, brake_torque, tire_radius, mass)),
        spec_floored_load(load) matches Some(f) ==> f.raw > 0,
{
    reveal(spec_braking_distance_of);
    reveal(spec_floored_load);
    let f = raw_of(spec_floored_load(load));
    lemma_wide_times_not_negative(f, raw_of(coefficient));
    let rolling = wide_times(f, raw_of(coefficient));
    lemma_wide_times_not_negative(wide_num(4), raw_of(brake_torque));
    let torque = wide_times(wide_num(4), raw_of(brake_torque));
    lemma_wide_times_not_negative(torque, wide_num(SCALE_SQUARED));
    lemma_wide_over_not_negative(wide_times(torque, wide_num(SCALE_SQUARED)), raw_of(tire_radius));
    let brakes = wide_over(wide_times(torque, wide_num(SCALE_SQUARED)), raw_of(tire_radius));
    let force = wide_plus(rolling, brakes);
    lemma_wide_times_not_negative(wide_num(V_CAR_SQUARED), raw_of(mass));
    let moving = wide_times(wide_num(V_CAR_SQUARED), raw_of(mass));
    lemma_wide_times_not_negative(moving, wide_num(SCALE));
    lemma_wide_times_not_negative(wide_num(2), force);
    lemma_wide_over_not_negative(
        wide_times(moving, wide_num(SCALE)),
        wide_times(wide_num(2), force),
    );
}

/// Whether the inputs of the braking distance are of a size at which every
/// step is held: a load of at most 10^8 N in size, a coefficient above zero
/// and at most 10^8, a torque from zero to 10^7 N m, a radius above zero, and
/// a mass above zero and at most 10^5 kg.
pub open spec fn braking_inputs_moderate(
    load: Scalar,
    coefficient: Scalar,
    brake_torque: Scalar,
    tire_radius: Scalar,
    mass: Scalar,
) -> bool {
    &&& load matches Some(f) && -1_000_000_000_000_000_000 <= f.raw <= 1_000_000_000_000_000_000
    &&& coefficient matches Some(c) && 0 < c.raw <= 1_000_000_000_000_000_000
    &&& brake_torque matches Some(t) && 0 <= t.raw <= 100_000_000_000_000_000
    &&& tire_radius matches Some(r) && 0 < r.raw <= MAX_RAW
    &&& mass matches Some(m) && 0 < m.raw <= 1_000_000_000_000_000
}

/// The braking distance is defined and not negative for inputs of moderate
/// size, whatever the sign of the load and even without any brake, as long as
/// the distance under the least load alone is in range:
/// `v^2 m / (2 C 10^-10) <= 10^18`, which is `35912 m <= 10^10 C`.
pub proof fn lemma_braking_distance_defined(
    load: Scalar,
    coefficient: Scalar,
    brake_torque: Scalar,
    tire_radius: Scalar,
    mass: Scalar,
)
    requires
        braking_inputs_moderate(load, coefficient, brake_torque, tire_radius, mass),
        35_912 * mass->0.raw <= 10_000_000_000 * coefficient->0.raw,
    ensures
        spec_braking_distance_of(load, coefficient, brake_torque, tire_radius, mass) matches Some(
            d,
        ) && d.raw >= 0,
{
    reveal(spec_braking_distance_of);
    reveal(spec_floored_load);
    lemma_braking_distance_not_negative(load, coefficient, brake_torque, tire_radius, mass);
    let f = spec_floored_load(load)->0.raw as int;
    let c = coefficient->0.raw as int;
    let t = brake_torque->0.raw as int;
    let r = tire_radius->0.raw as int;
    let m = mass->0.raw as int;
    assert(c <= f * c <= 1_000_000_000_000_000_000 * 1_000_000_000_000_000_000) by (nonlinear_arith)
        requires
            1 <= f <= 1_000_000_000_000_000_000,
            0 < c <= 1_000_000_000_000_000_000,
    ;
    let torque = 4 * t * SCALE_SQUARED;
    assert(0 <= torque / r <= torque) by (nonlinear_arith)
        requires
            0 <= torque,
            0 < r,
    ;
    let force = f * c + torque / r;
    let energy = V_CAR_SQUARED * m * SCALE;
    assert(0 <= energy / (2 * force) <= MAX_RAW) by (nonlinear_arith)
        requires
            0 < c <= force,
            0 <= energy,
            energy <= 2 * c * MAX_RAW,
    {
        assert(energy / (2 * force) <= energy / (2 * c));
        assert(energy / (2 * c) <= (2 * c * MAX_RAW) / (2 * c));
    }
}

proof fn lemma_times_value(a: Fixed, b: Fixed, product: int)
    requires
        a.in_range(),
        b.in_range(),
        a.raw >= 0,
        b.raw >= 0,
        product == a.raw * b.raw,
    ensures
        product >= 0,
        times(Some(a), Some(b)) == checked(product / (SCALE as int)),
{
    assert(a.raw * b.raw >= 0) by (nonlinear_arith)
        requires
            a.raw >= 0,
            b.raw >= 0,
    ;
}

/// At a tire pressure within its bound, from 0.758 to 1.03, the rolling
/// resistance coefficient is defined and lies between 0.02 and 0.04.
pub proof fn lemma_rolling_coefficient_bounds(pressure: Fixed)
    requires
        7_580_000_000 <= pressure.raw <= 10_300_000_000,
    ensures
        spec_rolling_coefficient(Some(pressure)) matches Some(c) && 200_000_000 <= c.raw
            <= 400_000_000,
{
    reveal(spec_rolling_coefficient);
    reveal(spec_square);
    let v = Fixed { raw: V_CAR };
    let factor = Fixed { raw: 36_000_000_000 };
    assert(v.raw * factor.raw == 9_648_000_000_000_000_000_000int) by (nonlinear_arith)
        requires
            v.raw == 268_000_000_000,
            factor.raw == 36_000_000_000,
    ;
    lemma_times_value(v, factor, 9_648_000_000_000_000_000_000);
    assert(9_648_000_000_000_000_000_000int / 10_000_000_000int == 964_800_000_000);
    let hourly = Fixed { raw: 964_800_000_000 };
    assert(times(num(V_CAR), num(36_000_000_000)) == Some(hourly));
    assert(hourly.raw * SCALE == 9_648_000_000_000_000_000_000int) by (nonlinear_arith)
        requires
            hourly.raw == 964_800_000_000,
            SCALE == 10_000_000_000,
    ;
    let speed = Fixed { raw: 9_648_000_000 };
    assert(9_648_000_000_000_000_000_000int / 1_000_000_000_000int == 9_648_000_000);
    assert(over(Some(hourly), num(1_000_000_000_000)) == Some(speed));
    assert(speed.raw * speed.raw == 93_083_904_000_000_000_000int) by (nonlinear_arith)
        requires
            speed.raw == 9_648_000_000,
    ;
    lemma_times_value(speed, speed, 93_083_904_000_000_000_000);
    assert(93_083_904_000_000_000_000int / 10_000_000_000int == 9_308_390_400);
    let squared = Fixed { raw: 9_308_390_400 };
    assert(times(Some(speed), Some(speed)) == Some(squared));
    let weight = Fixed { raw: 95_000_000 };
    assert(weight.raw * squared.raw == 884_297_088_000_000_000int) by (nonlinear_arith)
        requires
            weight.raw == 95_000_000,
            squared.raw == 9_308_390_400,
    ;
    lemma_times_value(weight, squared, 884_297_088_000_000_000);
    assert(884_297_088_000_000_000int / 10_000_000_000int == 88_429_708);
    let term = Fixed { raw: 88_429_708 };
    assert(times(num(95_000_000), Some(squared)) == Some(term));
    let inner = Fixed { raw: 188_429_708 };
    assert(plus(num(100_000_000), Some(term)) == Some(inner));
    let p = pressure.raw as int;
    let one = Fixed { raw: ONE };
    assert(one.raw * SCALE == 100_000_000_000_000_000_000int) by (nonlinear_arith)
        requires
            one.raw == 10_000_000_000,
            SCALE == 10_000_000_000,
    ;
    let q = 100_000_000_000_000_000_000int / p;
    assert(9_708_737_864 <= q <= 13_192_612_138) by (nonlinear_arith)
        requires
            7_580_000_000 <= p <= 10_300_000_000,
            q == 100_000_000_000_000_000_000int / p,
    ;
    let inverse = Fixed { raw: q as i128 };
    assert(over(num(ONE), Some(pressure)) == Some(inverse));
    assert(9_708_737_864 * 188_429_708 <= q * 188_429_708 <= 13_192_612_138 * 188_429_708)
        by (nonlinear_arith)
        requires
            9_708_737_864 <= q <= 13_192_612_138,
    ;
    assert(inverse.raw * inner.raw == q * 188_429_708) by (nonlinear_arith)
        requires
            inverse.raw == q,
            inner.raw == 188_429_708,
    ;
    lemma_times_value(inverse, inner, q * 188_429_708);
}

/// The torque of a brake of at most one meter in height, width and radius,
/// none of them negative, is defined, not negative and at most 7.4 * 10^6.
pub proof fn lemma_brake_torque_defined(car: Car)
    requires
        0 <= car.brake_height.raw <= SCALE,
        0 <= car.brake_width.raw <= SCALE,
        0 <= car.brake_radius.raw <= SCALE,
    ensures
        car.spec_brake_torque() matches Some(t) && 0 <= t.raw <= 74_000_000_000_000_000,
{
    reveal(Car::spec_brake_torque);
    let two = Fixed { raw: TWO };
    let pad_coefficient = Fixed { raw: C_BRAKE };
    assert(two.raw * pad_coefficient.raw == 74_000_000_000_000_000_000int) by (nonlinear_arith)
        requires
            two.raw == 20_000_000_000,
            pad_coefficient.raw == 3_700_000_000,
    ;
    lemma_times_value(two, pad_coefficient, 74_000_000_000_000_000_000);
    assert(74_000_000_000_000_000_000int / 10_000_000_000int == 7_400_000_000);
    let doubled = Fixed { raw: 7_400_000_000 };
    let pressure = Fixed { raw: P_BRAKE };
    assert(doubled.raw * pressure.raw == 740_000_000_000_000_000_000_000_000int)
        by (nonlinear_arith)
        requires
            doubled.raw == 7_400_000_000,
            pressure.raw == 100_000_000_000_000_000,
    ;
    lemma_times_value(doubled, pressure, 740_000_000_000_000_000_000_000_000);
    assert(740_000_000_000_000_000_000_000_000int / 10_000_000_000int
        == 74_000_000_000_000_000);
    let force = Fixed { raw: 74_000_000_000_000_000 };
    let h = car.brake_height.raw as int;
    let w = car.brake_width.raw as int;
    let r = car.brake_radius.raw as int;
    assert(0 <= h * w <= SCALE * SCALE) by (nonlinear_arith)
        requires
            0 <= h <= SCALE,
            0 <= w <= SCALE,
    ;
    lemma_times_value(car.brake_height, car.brake_width, h * w);
    let pad = Fixed { raw: ((h * w) / (SCALE as int)) as i128 };
    assert(0 <= pad.raw <= SCALE);
    assert(0 <= force.raw * pad.raw <= 74_000_000_000_000_000 * SCALE) by (nonlinear_arith)
        requires
            force.raw == 74_000_000_000_000_000,
            0 <= pad.raw <= SCALE,
    ;
    lemma_times_value(force, pad, force.raw * pad.raw);
    let pressed = Fixed { raw: ((force.raw * pad.raw) / (SCALE as int)) as i128 };
    assert(0 <= pressed.raw <= 74_000_000_000_000_000);
    assert(0 <= pressed.raw * r <= 74_000_000_000_000_000 * SCALE) by (nonlinear_arith)
        requires
            0 <= pressed.raw <= 74_000_000_000_000_000,
            0 <= r <= SCALE,
    ;
    lemma_times_value(pressed, car.brake_radius, pressed.raw * r);
}

/// The braking distance of a car is defined and not negative, whatever the
/// sign of its load and even without any brake, where its rear tire
/// pressure lies within its bound, its mass is above zero and at most
/// 5000 kg, its rear tire radius is above zero, its brake is at most one
/// meter in height, width and radius, none of them negative, and its load
/// is defined and of at most 10^8 N in size.
pub proof fn lemma_car_braking_distance_defined(car: Car)
    requires
        7_580_000_000 <= car.rear_tire_pressure.raw <= 10_300_000_000,
        car.spec_mass() matches Some(m) && 0 < m.raw <= 50_000_000_000_000,
        0 < car.rear_tire_radius.raw <= MAX_RAW,
        0 <= car.brake_height.raw <= SCALE,
        0 <= car.brake_width.raw <= SCALE,
        0 <= car.brake_radius.raw <= SCALE,
        car.spec_braking_load() matches Some(f) && -1_000_000_000_000_000_000 <= f.raw
            <= 1_000_000_000_000_000_000,
    ensures
        car.spec_braking_distance() matches Some(d) && d.raw >= 0,
{
    reveal(Car::spec_braking_distance);
    lemma_rolling_coefficient_bounds(car.rear_tire_pressure);
    lemma_brake_torque_defined(car);
    lemma_braking_distance_defined(
        car.spec_braking_load(),
        spec_rolling_coefficient(Some(car.rear_tire_pressure)),
        car.spec_brake_torque(),
        Some(car.rear_tire_radius),
        car.spec_mass(),
    );
}

/// Under a negative load the car holds no speed in a corner: the corner
/// velocity is zero, exactly.
pub proof fn lemma_corner_velocity_clamped(forces: Fixed, mass: Scalar)
    requires
        forces.raw < 0,
    ensures
        spec_corner_velocity_of(Some(forces), mass) == Some(Fixed { raw: 0 }),
{
    reveal(spec_corner_velocity_of);
}

impl Car {
    /// Whether no property that a component brings from its catalog is below
    /// zero, of those that the mass and the braking distance take.
    pub open spec fn components_not_negative(self) -> bool {
        &&& self.rear_wing_density.raw >= 0
        &&& self.front_wing_density.raw >= 0
        &&& self.side_wing_density.raw >= 0
        &&& self.cabin_density.raw >= 0
        &&& self.impact_attenuator_density.raw >= 0
        &&& self.rear_tire_radius.raw >= 0
        &&& self.rear_tire_mass.raw >= 0
        &&& self.front_tire_mass.raw >= 0
        &&& self.engine_mass.raw >= 0
        &&& self.brake_radius.raw >= 0
        &&& self.brake_density.raw >= 0
        &&& self.brake_length.raw >= 0
        &&& self.brake_height.raw >= 0
        &&& self.brake_width.raw >= 0
        &&& self.rear_suspension_mass.raw >= 0
        &&& self.front_suspension_mass.raw >= 0
    }

    /// Whether no size that the mass takes is below zero.
    pub open spec fn sizes_not_negative(self) -> bool {
        &&& self.rear_wing_height.raw >= 0
        &&& self.rear_wing_length.raw >= 0
        &&& self.rear_wing_width.raw >= 0
        &&& self.front_wing_height.raw >= 0
        &&& self.front_wing_length.raw >= 0
        &&& self.front_wing_width.raw >= 0
        &&& self.side_wings_height.raw >= 0
        &&& self.side_wings_length.raw >= 0
        &&& self.side_wings_width.raw >= 0
        &&& self.rear_tire_pressure.raw >= 0
        &&& self.cabin_height.raw >= 0
        &&& self.cabin_length.raw >= 0
        &&& self.cabin_width.raw >= 0
        &&& self.cabin_thickness.raw >= 0
        &&& self.impact_attenuator_height.raw >= 0
        &&& self.impact_attenuator_width.raw >= 0
        &&& self.impact_attenuator_length.raw >= 0
    }
}

/// Within the nineteen fixed bounds no bounded parameter is below zero, so
/// the sizes of the car are not negative as soon as the width of the rear
/// wing and the length of the impact attenuator, which have no fixed bound,
/// are not.
pub proof fn lemma_bounded_sizes_not_negative(car: Car)
    requires
        car.within_static_bounds(),
        car.rear_wing_width.raw >= 0,
        car.impact_attenuator_length.raw >= 0,
    ensures
        car.sizes_not_negative(),
{
    assert(CONST_BOUNDS[0int][0] >= 0 && car.spec_parameter(0) == car.rear_wing_height);
    assert(CONST_BOUNDS[1int][0] >= 0 && car.spec_parameter(1) == car.rear_wing_length);
    assert(CONST_BOUNDS[3int][0] >= 0 && car.spec_parameter(3) == car.front_wing_height);
    assert(CONST_BOUNDS[4int][0] >= 0 && car.spec_parameter(4) == car.front_wing_length);
    assert(CONST_BOUNDS[5int][0] >= 0 && car.spec_parameter(5) == car.front_wing_width);
    assert(CONST_BOUNDS[7int][0] >= 0 && car.spec_parameter(7) == car.side_wings_height);
    assert(CONST_BOUNDS[8int][0] >= 0 && car.spec_parameter(8) == car.side_wings_length);
    assert(CONST_BOUNDS[9int][0] >= 0 && car.spec_parameter(9) == car.side_wings_width);
    assert(CONST_BOUNDS[11int][0] >= 0 && car.spec_parameter(11) == car.rear_tire_pressure);
    assert(CONST_BOUNDS[13int][0] >= 0 && car.spec_parameter(13) == car.cabin_height);
    assert(CONST_BOUNDS[14int][0] >= 0 && car.spec_parameter(14) == car.cabin_length);
    assert(CONST_BOUNDS[15int][0] >= 0 && car.spec_parameter(15) == car.cabin_width);
    assert(CONST_BOUNDS[16int][0] >= 0 && car.spec_parameter(16) == car.cabin_thickness);
    assert(CONST_BOUNDS[17int][0] >= 0 && car.spec_parameter(17) == car.impact_attenuator_height);
    assert(CONST_BOUNDS[18int][0] >= 0 && car.spec_parameter(18) == car.impact_attenuator_width);
}

/// The exact mass of the car at the fourth power of the scale: the sum of
/// the products of density and sizes, and of the masses that the catalogs
/// give, with nothing rounded.
pub open spec fn exact_mass(car: Car) -> int {
    let cube = SCALE * SCALE * SCALE;
    car.rear_wing_density.raw * (car.rear_wing_length.raw * car.rear_wing_width.raw
        * car.rear_wing_height.raw) + car.front_wing_density.raw * (car.front_wing_length.raw
        * car.front_wing_width.raw * car.front_wing_height.raw) + 2 * (car.side_wing_density.raw
        * (car.side_wings_length.raw * car.side_wings_width.raw * car.side_wings_height.raw)) + 2
        * car.rear_tire_mass.raw * cube + 2 * car.front_tire_mass.raw * cube + car.engine_mass.raw
        * cube + 2 * (car.cabin_density.raw * (car.cabin_height.raw * car.cabin_length.raw
        * car.cabin_thickness.raw) + car.cabin_density.raw * (car.cabin_height.raw
        * car.cabin_width.raw * car.cabin_thickness.raw) + car.cabin_density.raw * (
    car.cabin_length.raw * car.cabin_height.raw * car.cabin_thickness.raw))
        + car.impact_attenuator_density.raw * (car.impact_attenuator_length.raw
        * car.impact_attenuator_width.raw * car.impact_attenuator_height.raw) + 4 * (
    car.brake_density.raw * (car.brake_length.raw * car.brake_width.raw * car.brake_height.raw))
        + 2 * car.rear_suspension_mass.raw * cube + 2 * car.front_suspension_mass.raw * cube
}

/// The densities of the car, each as often as the mass takes it.
pub open spec fn density_sum(car: Car) -> int {
    car.rear_wing_density.raw + car.front_wing_density.raw + 2 * car.side_wing_density.raw + 6
        * car.cabin_density.raw + car.impact_attenuator_density.raw + 4 * car.brake_density.raw
}

/// The exact sum of the parts of a car whose sizes and components are not
/// negative is not negative, and at the fourth power of the scale it lies
/// below the exact mass by no more than the sum of the densities: only the
/// volumes are rounded.
#[verifier::rlimit(60)]
pub proof fn lemma_mass_sum_bounds(car: Car)
    requires
        car.sizes_not_negative(),
        car.components_not_negative(),
    ensures
        wide_not_negative(car.spec_mass_sum()),
        car.spec_mass_sum() matches Some(sum) ==> exact_mass(car) - density_sum(car) * SCALE <= sum
            * SCALE <= exact_mass(car),
{
    reveal(Car::spec_mass_sum);
    reveal(Car::spec_cabin_block);
    reveal(spec_whole);
    let rear = spec_block(
        Some(car.rear_wing_density),
        Some(car.rear_wing_length),
        Some(car.rear_wing_width),
        Some(car.rear_wing_height),
    );
    lemma_block_bounds(
        Some(car.rear_wing_density),
        Some(car.rear_wing_length),
        Some(car.rear_wing_width),
        Some(car.rear_wing_height),
    );
    let front = spec_block(
        Some(car.front_wing_density),
        Some(car.front_wing_length),
        Some(car.front_wing_width),
        Some(car.front_wing_height),
    );
    lemma_block_bounds(
        Some(car.front_wing_density),
        Some(car.front_wing_length),
        Some(car.front_wing_width),
        Some(car.front_wing_height),
    );
    let side = spec_block(
        Some(car.side_wing_density),
        Some(car.side_wings_length),
        Some(car.side_wings_width),
        Some(car.side_wings_height),
    );
    lemma_block_bounds(
        Some(car.side_wing_density),
        Some(car.side_wings_length),
        Some(car.side_wings_width),
        Some(car.side_wings_height),
    );
    let attenuator = spec_block(
        Some(car.impact_attenuator_density),
        Some(car.impact_attenuator_length),
        Some(car.impact_attenuator_width),
        Some(car.impact_attenuator_height),
    );
    lemma_block_bounds(
        Some(car.impact_attenuator_density),
        Some(car.impact_attenuator_length),
        Some(car.impact_attenuator_width),
        Some(car.impact_attenuator_height),
    );
    let brake = spec_block(
        Some(car.brake_density),
        Some(car.brake_length),
        Some(car.brake_width),
        Some(car.brake_height),
    );
    lemma_block_bounds(
        Some(car.brake_density),
        Some(car.brake_length),
        Some(car.brake_width),
        Some(car.brake_height),
    );
    let rho = Some(car.cabin_density);
    let h = Some(car.cabin_height);
    let l = Some(car.cabin_length);
    let w = Some(car.cabin_width);
    let t = Some(car.cabin_thickness);
    lemma_block_bounds(rho, h, l, t);
    lemma_block_bounds(rho, h, w, t);
    lemma_block_bounds(rho, l, h, t);
    let cabin = car.spec_cabin_block();
    let cabin_sum = wide_plus(
        wide_plus(spec_block(rho, h, l, t), spec_block(rho, h, w, t)),
        spec_block(rho, l, h, t),
    );
    lemma_wide_times_not_negative(wide_num(2), cabin_sum);
    lemma_wide_times_not_negative(wide_num(2), side);
    lemma_wide_times_not_negative(wide_num(4), brake);
    lemma_wide_times_not_negative(raw_of(Some(car.rear_tire_mass)), wide_num(SCALE_SQUARED));
    lemma_wide_times_not_negative(raw_of(Some(car.front_tire_mass)), wide_num(SCALE_SQUARED));
    lemma_wide_times_not_negative(raw_of(Some(car.engine_mass)), wide_num(SCALE_SQUARED));
    lemma_wide_times_not_negative(
        raw_of(Some(car.rear_suspension_mass)),
        wide_num(SCALE_SQUARED),
    );
    lemma_wide_times_not_negative(
        raw_of(Some(car.front_suspension_mass)),
        wide_num(SCALE_SQUARED),
    );
    lemma_wide_times_not_negative(wide_num(2), spec_whole(Some(car.rear_tire_mass)));
    lemma_wide_times_not_negative(wide_num(2), spec_whole(Some(car.front_tire_mass)));
    lemma_wide_times_not_negative(wide_num(2), spec_whole(Some(car.rear_suspension_mass)));
    lemma_wide_times_not_negative(wide_num(2), spec_whole(Some(car.front_suspension_mass)));
    lemma_wide_multiples(side);
    lemma_wide_multiples(cabin_sum);
    lemma_wide_multiples(brake);
    lemma_wide_multiples(raw_of(Some(car.rear_tire_mass)));
    lemma_wide_multiples(raw_of(Some(car.front_tire_mass)));
    lemma_wide_multiples(raw_of(Some(car.engine_mass)));
    lemma_wide_multiples(raw_of(Some(car.rear_suspension_mass)));
    lemma_wide_multiples(raw_of(Some(car.front_suspension_mass)));
    lemma_wide_multiples(spec_whole(Some(car.rear_tire_mass)));
    lemma_wide_multiples(spec_whole(Some(car.front_tire_mass)));
    lemma_wide_multiples(spec_whole(Some(car.rear_suspension_mass)));
    lemma_wide_multiples(spec_whole(Some(car.front_suspension_mass)));
    assert(SCALE * SCALE * SCALE == 1_000_000_000_000_000_000_000_000_000_000int)
        by (nonlinear_arith)
        requires
            SCALE == 10_000_000_000,
    ;
    if car.spec_mass_sum() is Some {
        let c1 = spec_block(rho, h, l, t);
        let c2 = spec_block(rho, h, w, t);
        let c3 = spec_block(rho, l, h, t);
        lemma_sum_of_parts(
            seq![
                rear->0 as int,
                front->0 as int,
                side->0 as int,
                c1->0 as int,
                c2->0 as int,
                c3->0 as int,
                attenuator->0 as int,
                brake->0 as int,
            ],
            seq![
                car.rear_wing_density.raw * (car.rear_wing_length.raw * car.rear_wing_width.raw
                    * car.rear_wing_height.raw),
                car.front_wing_density.raw * (car.front_wing_length.raw
                    * car.front_wing_width.raw * car.front_wing_height.raw),
                car.side_wing_density.raw * (car.side_wings_length.raw * car.side_wings_width.raw
                    * car.side_wings_height.raw),
                car.cabin_density.raw * (car.cabin_height.raw * car.cabin_length.raw
                    * car.cabin_thickness.raw),
                car.cabin_density.raw * (car.cabin_height.raw * car.cabin_width.raw
                    * car.cabin_thickness.raw),
                car.cabin_density.raw * (car.cabin_length.raw * car.cabin_height.raw
                    * car.cabin_thickness.raw),
                car.impact_attenuator_density.raw * (car.impact_attenuator_length.raw
                    * car.impact_attenuator_width.raw * car.impact_attenuator_height.raw),
                car.brake_density.raw * (car.brake_length.raw * car.brake_width.raw
                    * car.brake_height.raw),
            ],
            seq![
                car.rear_wing_density.raw as int,
                car.front_wing_density.raw as int,
                car.side_wing_density.raw as int,
                car.cabin_density.raw as int,
                car.cabin_density.raw as int,
                car.cabin_density.raw as int,
                car.impact_attenuator_density.raw as int,
                car.brake_density.raw as int,
            ],
            2 * car.rear_tire_mass.raw + 2 * car.front_tire_mass.raw + car.engine_mass.raw + 2
                * car.rear_suspension_mass.raw + 2 * car.front_suspension_mass.raw,
        );
        let given = 2 * car.rear_tire_mass.raw + 2 * car.front_tire_mass.raw
            + car.engine_mass.raw + 2 * car.rear_suspension_mass.raw + 2
            * car.front_suspension_mass.raw;
        assert(car.spec_mass_sum()->0 == rear->0 + front->0 + 2 * side->0 + 2 * (c1->0 + c2->0
            + c3->0) + attenuator->0 + 4 * brake->0 + given
            * 100_000_000_000_000_000_000int);
    }
}

/// The sum of eight blocks and of the given masses, against the exact sum:
/// each block lies below its exact product by no more than its density.
proof fn lemma_sum_of_parts(x: Seq<int>, e: Seq<int>, d: Seq<int>, given: int)
    requires
        x.len() == 8,
        e.len() == 8,
        d.len() == 8,
        forall|i: int|
            0 <= i < 8 ==> e[i] - d[i] * 10_000_000_000 <= #[trigger] x[i] * 10_000_000_000
                <= e[i],
    ensures
        ({
            let sum = x[0] + x[1] + 2 * x[2] + 2 * (x[3] + x[4] + x[5]) + x[6] + 4 * x[7] + given
                * 100_000_000_000_000_000_000;
            let exact = e[0] + e[1] + 2 * e[2] + 2 * (e[3] + e[4] + e[5]) + e[6] + 4 * e[7] + given
                * 1_000_000_000_000_000_000_000_000_000_000;
            let densities = d[0] + d[1] + 2 * d[2] + 2 * (d[3] + d[4] + d[5]) + d[6] + 4 * d[7];
            exact - densities * 10_000_000_000 <= sum * 10_000_000_000 <= exact
        }),
{
    assert(e[0] - d[0] * 10_000_000_000 <= x[0] * 10_000_000_000 <= e[0]);
    assert(e[1] - d[1] * 10_000_000_000 <= x[1] * 10_000_000_000 <= e[1]);
    assert(e[2] - d[2] * 10_000_000_000 <= x[2] * 10_000_000_000 <= e[2]);
    assert(e[3] - d[3] * 10_000_000_000 <= x[3] * 10_000_000_000 <= e[3]);
    assert(e[4] - d[4] * 10_000_000_000 <= x[4] * 10_000_000_000 <= e[4]);
    assert(e[5] - d[5] * 10_000_000_000 <= x[5] * 10_000_000_000 <= e[5]);
    assert(e[6] - d[6] * 10_000_000_000 <= x[6] * 10_000_000_000 <= e[6]);
    assert(e[7] - d[7] * 10_000_000_000 <= x[7] * 10_000_000_000 <= e[7]);
}

/// The mass of a car whose sizes and components are not negative is not
/// negative: it is the exact sum of the parts, rounded toward zero.
pub proof fn lemma_mass_not_negative(car: Car)
    requires
        car.sizes_not_negative(),
        car.components_not_negative(),
    ensures
        not_negative(car.spec_mass()),
        not_negative(car.spec_mass_brake()),
        car.spec_mass() matches Some(m) ==> car.spec_mass_sum() is Some && m.raw
            == car.spec_mass_sum()->0 / SCALE_SQUARED,
{
    lemma_mass_sum_bounds(car);
    reveal(Car::spec_mass);
    reveal(Car::spec_mass_brake);
    reveal(spec_rounded);
    lemma_wide_over_not_negative(car.spec_mass_sum(), wide_num(SCALE_SQUARED));
    lemma_block_bounds(
        Some(car.brake_density),
        Some(car.brake_length),
        Some(car.brake_width),
        Some(car.brake_height),
    );
}

/// The mass of a car misses its exact mass by less than 10^-9 kg, as long as
/// no size or component property is negative and the densities sum to no
/// more than 9 * 10^10 kg/m^3: the mass is not above the exact mass, and
/// less than ten units below it.
pub proof fn lemma_mass_accurate(car: Car)
    requires
        car.sizes_not_negative(),
        car.components_not_negative(),
        density_sum(car) <= 9 * SCALE_SQUARED,
        car.spec_mass() is Some,
    ensures
        ({
            let cube = 1_000_000_000_000_000_000_000_000_000_000int;
            let m = car.spec_mass()->0.raw;
            exact_mass(car) - 10 * cube < m * cube <= exact_mass(car)
        }),
{
    lemma_mass_not_negative(car);
    lemma_mass_sum_bounds(car);
    let sum = car.spec_mass_sum()->0 as int;
    let m = car.spec_mass()->0.raw as int;
    assert(sum - SCALE_SQUARED < m * SCALE_SQUARED <= sum);
}

/// Whether the properties that the components bring to the mass are of
/// moderate size: densities of at most 10^5 kg/m^3, masses of at most
/// 10^5 kg, and a brake of at most one meter each way.
pub open spec fn components_moderate(car: Car) -> bool {
    &&& car.rear_wing_density.raw <= 1_000_000_000_000_000
    &&& car.front_wing_density.raw <= 1_000_000_000_000_000
    &&& car.side_wing_density.raw <= 1_000_000_000_000_000
    &&& car.cabin_density.raw <= 1_000_000_000_000_000
    &&& car.impact_attenuator_density.raw <= 1_000_000_000_000_000
    &&& car.brake_density.raw <= 1_000_000_000_000_000
    &&& car.rear_tire_mass.raw <= 1_000_000_000_000_000
    &&& car.front_tire_mass.raw <= 1_000_000_000_000_000
    &&& car.engine_mass.raw <= 1_000_000_000_000_000
    &&& car.rear_suspension_mass.raw <= 1_000_000_000_000_000
    &&& car.front_suspension_mass.raw <= 1_000_000_000_000_000
    &&& car.brake_length.raw <= SCALE
    &&& car.brake_width.raw <= SCALE
    &&& car.brake_height.raw <= SCALE
}

/// A block of at most ten meters by ten meters by one meter and of moderate
/// density has a mass that is defined.
pub proof fn lemma_block_defined(density: Scalar, a: Scalar, b: Scalar, c: Scalar)
    requires
        density matches Some(d) && 0 <= d.raw <= 1_000_000_000_000_000,
        a matches Some(x) && 0 <= x.raw <= 100_000_000_000,
        b matches Some(x) && 0 <= x.raw <= 100_000_000_000,
        c matches Some(x) && 0 <= x.raw <= 10_000_000_000,
    ensures
        spec_block(density, a, b, c) matches Some(x) && 0 <= x
            <= 10_000_000_000_000_000_000_000_000_000_000_000_000,
{
    reveal(spec_block);
    let x = a->0.raw as int;
    let y = b->0.raw as int;
    let z = c->0.raw as int;
    let d = density->0.raw as int;
    assert(0 <= x * y <= 100_000_000_000 * 100_000_000_000) by (nonlinear_arith)
        requires
            0 <= x <= 100_000_000_000,
            0 <= y <= 100_000_000_000,
    ;
    assert(0 <= x * y * z <= 10_000_000_000_000_000_000_000 * 10_000_000_000)
        by (nonlinear_arith)
        requires
            0 <= x * y <= 10_000_000_000_000_000_000_000,
            0 <= z <= 10_000_000_000,
    ;
    let v = (x * y * z) / (SCALE as int);
    assert(0 <= v <= 10_000_000_000_000_000_000_000);
    assert(0 <= d * v <= 1_000_000_000_000_000 * 10_000_000_000_000_000_000_000)
        by (nonlinear_arith)
        requires
            0 <= d <= 1_000_000_000_000_000,
            0 <= v <= 10_000_000_000_000_000_000_000,
    ;
}

/// A mass of at most 10^5 kg is held at the cube of the scale.
pub proof fn lemma_whole_defined(mass: Scalar)
    requires
        mass matches Some(m) && 0 <= m.raw <= 1_000_000_000_000_000,
    ensures
        spec_whole(mass) matches Some(x) && 0 <= x <= 100_000_000_000_000_000_000_000_000_000_000_000,
{
    reveal(spec_whole);
    let m = mass->0.raw as int;
    assert(0 <= m * SCALE_SQUARED <= 1_000_000_000_000_000 * 100_000_000_000_000_000_000)
        by (nonlinear_arith)
        requires
            0 <= m <= 1_000_000_000_000_000,
            SCALE_SQUARED == 100_000_000_000_000_000_000,
    ;
}

/// Within all its bounds, and with components of moderate size and no
/// negative property, a car has a mass and an impact attenuator volume that
/// are defined and not negative.
#[verifier::rlimit(60)]
pub proof fn lemma_mass_and_volume_defined(car: Car)
    requires
        car.within_static_bounds(),
        car.within_dependent_bounds(),
        car.components_not_negative(),
        components_moderate(car),
    ensures
        car.spec_mass() matches Some(m) && m.raw >= 0,
        car.spec_impact_attenuator_volume() matches Some(v) && v.raw >= 0,
{
    lemma_bounded_car_not_negative(car);
    assert(car.within_dependent_bound(29));
    assert(car.within_dependent_bound(35));
    assert(car.spec_parameter(29) == car.rear_wing_width);
    assert(car.spec_parameter(35) == car.impact_attenuator_length);
    lemma_bounded_sizes_not_negative(car);
    assert(CONST_BOUNDS[0int][1] <= SCALE && car.spec_parameter(0) == car.rear_wing_height);
    assert(CONST_BOUNDS[1int][1] <= SCALE && car.spec_parameter(1) == car.rear_wing_length);
    assert(CONST_BOUNDS[3int][1] <= SCALE && car.spec_parameter(3) == car.front_wing_height);
    assert(CONST_BOUNDS[4int][1] <= SCALE && car.spec_parameter(4) == car.front_wing_length);
    assert(CONST_BOUNDS[5int][1] <= 10 * SCALE && car.spec_parameter(5) == car.front_wing_width);
    assert(CONST_BOUNDS[7int][1] <= SCALE && car.spec_parameter(7) == car.side_wings_height);
    assert(CONST_BOUNDS[8int][1] <= SCALE && car.spec_parameter(8) == car.side_wings_length);
    assert(CONST_BOUNDS[9int][1] <= SCALE && car.spec_parameter(9) == car.side_wings_width);
    assert(CONST_BOUNDS[13int][1] <= 10 * SCALE && car.spec_parameter(13) == car.cabin_height);
    assert(CONST_BOUNDS[14int][1] <= 10 * SCALE && car.spec_parameter(14) == car.cabin_length);
    assert(CONST_BOUNDS[15int][1] <= 10 * SCALE && car.spec_parameter(15) == car.cabin_width);
    assert(CONST_BOUNDS[16int][1] <= SCALE && car.spec_parameter(16) == car.cabin_thickness);
    assert(CONST_BOUNDS[17int][1] <= SCALE && car.spec_parameter(17)
        == car.impact_attenuator_height);
    assert(CONST_BOUNDS[18int][1] <= SCALE && car.spec_parameter(18)
        == car.impact_attenuator_width);
    // the rear wing is no wider than 9 less two radii, the attenuator no
    // longer than 0.7 less the front wing
    lemma_times_two(car.rear_tire_radius);
    assert(car.rear_wing_width.raw <= 10 * SCALE);
    assert(car.impact_attenuator_length.raw <= SCALE);
    reveal(Car::spec_mass);
    reveal(Car::spec_mass_sum);
    reveal(Car::spec_cabin_block);
    reveal(spec_rounded);
    lemma_whole_defined(Some(car.rear_tire_mass));
    lemma_whole_defined(Some(car.front_tire_mass));
    lemma_whole_defined(Some(car.engine_mass));
    lemma_whole_defined(Some(car.rear_suspension_mass));
    lemma_whole_defined(Some(car.front_suspension_mass));
    lemma_block_defined(
        Some(car.rear_wing_density),
        Some(car.rear_wing_length),
        Some(car.rear_wing_width),
        Some(car.rear_wing_height),
    );
    lemma_block_defined(
        Some(car.front_wing_density),
        Some(car.front_wing_length),
        Some(car.front_wing_width),
        Some(car.front_wing_height),
    );
    lemma_block_defined(
        Some(car.side_wing_density),
        Some(car.side_wings_length),
        Some(car.side_wings_width),
        Some(car.side_wings_height),
    );
    lemma_block_defined(
        Some(car.impact_attenuator_density),
        Some(car.impact_attenuator_length),
        Some(car.impact_attenuator_width),
        Some(car.impact_attenuator_height),
    );
    lemma_block_defined(
        Some(car.brake_density),
        Some(car.brake_length),
        Some(car.brake_width),
        Some(car.brake_height),
    );
    let rho = Some(car.cabin_density);
    let h = Some(car.cabin_height);
    let l = Some(car.cabin_length);
    let w = Some(car.cabin_width);
    let t = Some(car.cabin_thickness);
    lemma_block_defined(rho, h, l, t);
    lemma_block_defined(rho, h, w, t);
    lemma_block_defined(rho, l, h, t);
    let side = spec_block(
        Some(car.side_wing_density),
        Some(car.side_wings_length),
        Some(car.side_wings_width),
        Some(car.side_wings_height),
    );
    let brake = spec_block(
        Some(car.brake_density),
        Some(car.brake_length),
        Some(car.brake_width),
        Some(car.brake_height),
    );
    let cabin_sum = wide_plus(
        wide_plus(spec_block(rho, h, l, t), spec_block(rho, h, w, t)),
        spec_block(rho, l, h, t),
    );
    reveal(spec_whole);
    lemma_wide_multiples(side);
    lemma_wide_multiples(cabin_sum);
    lemma_wide_multiples(brake);
    lemma_wide_multiples(raw_of(Some(car.rear_tire_mass)));
    lemma_wide_multiples(raw_of(Some(car.front_tire_mass)));
    lemma_wide_multiples(raw_of(Some(car.engine_mass)));
    lemma_wide_multiples(raw_of(Some(car.rear_suspension_mass)));
    lemma_wide_multiples(raw_of(Some(car.front_suspension_mass)));
    lemma_wide_multiples(spec_whole(Some(car.rear_tire_mass)));
    lemma_wide_multiples(spec_whole(Some(car.front_tire_mass)));
    lemma_wide_multiples(spec_whole(Some(car.rear_suspension_mass)));
    lemma_wide_multiples(spec_whole(Some(car.front_suspension_mass)));
    assert(car.spec_mass_sum() is Some);
    let sum = car.spec_mass_sum()->0 as int;
    assert(0 <= sum <= 160_000_000_000_000_000_000_000_000_000_000_000_000);
    assert(0 <= sum / 100_000_000_000_000_000_000int <= MAX_RAW);
    assert(SCALE_SQUARED == 100_000_000_000_000_000_000int);
    assert(car.spec_mass() is Some);
    reveal(Car::spec_impact_attenuator_volume);
    let x = car.impact_attenuator_length.raw as int;
    let y = car.impact_attenuator_height.raw as int;
    let z = car.impact_attenuator_width.raw as int;
    assert(0 <= x * y <= SCALE * SCALE) by (nonlinear_arith)
        requires
            0 <= x <= SCALE,
            0 <= y <= SCALE,
    ;
    let xy = (x * y) / (SCALE as int);
    assert(0 <= xy * z <= SCALE * SCALE) by (nonlinear_arith)
        requires
            0 <= xy <= SCALE,
            0 <= z <= SCALE,
    ;
}

/// Mass, impact attenuator volume and braking distance are never below
/// zero for a car within the nineteen fixed bounds whose rear wing has no
/// negative width, whose impact attenuator has no negative length, and whose
/// components have no negative property.
pub proof fn lemma_objectives_not_negative(car: Car)
    requires
        car.within_static_bounds(),
        car.rear_wing_width.raw >= 0,
        car.impact_attenuator_length.raw >= 0,
        car.components_not_negative(),
    ensures
        not_negative(car.spec_mass()),
        not_negative(car.spec_impact_attenuator_volume()),
        not_negative(car.spec_braking_distance()),
{
    lemma_bounded_sizes_not_negative(car);
    lemma_mass_not_negative(car);
    reveal(Car::spec_impact_attenuator_volume);
    lemma_times_not_negative(
        Some(car.impact_attenuator_length),
        Some(car.impact_attenuator_height),
    );
    lemma_times_not_negative(
        times(Some(car.impact_attenuator_length), Some(car.impact_attenuator_height)),
        Some(car.impact_attenuator_width),
    );
    reveal(Car::spec_braking_distance);
    reveal(Car::spec_brake_torque);
    lemma_rolling_coefficient_not_negative(Some(car.rear_tire_pressure));
    let pad = times(Some(car.brake_height), Some(car.brake_width));
    lemma_times_not_negative(Some(car.brake_height), Some(car.brake_width));
    lemma_times_not_negative(num(TWO), num(C_BRAKE));
    lemma_times_not_negative(times(num(TWO), num(C_BRAKE)), num(P_BRAKE));
    lemma_times_not_negative(times(times(num(TWO), num(C_BRAKE)), num(P_BRAKE)), pad);
    lemma_times_not_negative(
        times(times(times(num(TWO), num(C_BRAKE)), num(P_BRAKE)), pad),
        Some(car.brake_radius),
    );
    lemma_braking_distance_not_negative(
        car.spec_braking_load(),
        spec_rolling_coefficient(Some(car.rear_tire_pressure)),
        car.spec_brake_torque(),
        Some(car.rear_tire_radius),
        car.spec_mass(),
    );
}

/// A car within all its bounds, the fixed ones and those that depend on its
/// other parameters, has no negative mass, impact attenuator volume or
/// braking distance, as long as its components have no negative property:
/// the bounds keep the width of the rear wing and the length of the impact
/// attenuator above zero.
pub proof fn lemma_bounded_car_not_negative(car: Car)
    requires
        car.within_static_bounds(),
        car.within_dependent_bounds(),
        car.components_not_negative(),
    ensures
        not_negative(car.spec_mass()),
        not_negative(car.spec_impact_attenuator_volume()),
        not_negative(car.spec_braking_distance()),
{
    assert(car.within_dependent_bound(29));
    assert(car.within_dependent_bound(35));
    assert(car.spec_parameter(29) == car.rear_wing_width);
    assert(car.spec_parameter(35) == car.impact_attenuator_length);
    lemma_objectives_not_negative(car);
}

/// Where downforce and weight do not make up for the forces of the
/// suspensions, the corner velocity of the car is zero, exactly.
pub proof fn lemma_corner_velocity_zero(car: Car)
    requires
        car.spec_cornering_load() matches Some(f) && f.raw < 0,
    ensures
        car.spec_corner_velocity() == Some(Fixed { raw: 0 }),
{
    reveal(Car::spec_corner_velocity);
    lemma_corner_velocity_clamped(car.spec_cornering_load()->0, car.spec_mass());
}


} // verus!
