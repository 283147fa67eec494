use car_design::car::Car;
use car_design::catalog::{Catalogs, Material, Motor, Suspension};
use car_design::constants::{get_brakes, get_tires, CONST_BOUNDS, EVEN_WEIGHTS};
use car_design::fixed::{Fixed, Scalar};
use car_design::physics::{
    aspect_ratio, braking_distance_of, corner_velocity_of, crash_force_of, drag_coefficient,
    drag_force, floored_load, lift_coefficient, part_mass, rolling_coefficient,
    suspension_force, weighted_sum,
};

fn fx(raw: i128) -> Fixed {
    Fixed { raw }
}

fn material(density: i64, modulus: i64) -> Material {
    Material { density: Fixed::from_int(density), modulus: Fixed::from_int(modulus) }
}

fn suspension(spring_constant: i64) -> Suspension {
    Suspension {
        spring_constant: Fixed::from_int(spring_constant),
        damping_coefficient: Fixed::from_int(1500),
        mass: Fixed::from_int(5),
    }
}

/// The stock tires and brakes, with two materials, one motor and two
/// suspensions, the second far stiffer than the first.
fn catalogs() -> Catalogs {
    Catalogs {
        tires: get_tires(),
        brakes: get_brakes(),
        motors: vec![Motor {
            power: Fixed::from_int(40000),
            length: Fixed::from_micro(400_000),
            height: Fixed::from_micro(300_000),
            torque: Fixed::from_int(60),
            mass: Fixed::from_int(30),
        }],
        materials: vec![material(2700, 69_000_000_000), material(7850, 200_000_000_000)],
        suspensions: vec![suspension(20_000), suspension(1_000_000)],
    }
}

/// Every bounded parameter at the middle of its bound, every index zero, and
/// the other ten parameters within their bounds.
fn midpoint_vector() -> Vec<Fixed> {
    let mut p = Vec::new();
    for row in CONST_BOUNDS.iter() {
        p.push(fx((row[0] + row[1]) / 2));
    }
    for _ in 0..10 {
        p.push(fx(0));
    }
    for raw in [
        10_000_000_000i128,
        8_500_000_000,
        1_500_000_000,
        1_400_000_000,
        2_500_000_000,
        6_000_000_000,
        3_000_000_000,
        5_000_000_000,
        3_000_000_000,
        3_000_000_000,
    ] {
        p.push(fx(raw));
    }
    p
}

fn midpoint_car() -> Car {
    Car::new_from_parameters(&midpoint_vector(), &catalogs()).unwrap()
}

fn num(raw: i128) -> Scalar {
    Some(fx(raw))
}

fn to_f64(x: Scalar) -> f64 {
    x.unwrap().raw as f64 / 1e10
}

#[test]
fn mass_at_the_midpoints_is_the_sum_of_the_parts() {
    let car = midpoint_car();
    assert_eq!(car.mass_rear_wing(), num(1_468_125_000_000));
    assert_eq!(car.mass_front_wing(), num(1_378_265_625_000));
    assert_eq!(car.mass_side_wings(), num(205_031_250_000));
    assert_eq!(car.mass_cabin(), num(1_314_993_487_500));
    assert_eq!(car.mass_impact_attenuator(), num(850_500_000_000));
    assert_eq!(car.mass_brake(), num(270_400));
    assert_eq!(car.mass(), num(6_067_387_694_100));
    // by hand: length, width, height and density of each block, the tires,
    // the engine and the suspensions from the first entries
    let rear_wing = 0.15 * 1.0 * 0.3625 * 2700.0;
    let front_wing = 0.275 * 1.65 * 0.1125 * 2700.0;
    let side_wing = 0.3 * 0.225 * 0.1125 * 2700.0;
    let cabin = 2.0
        * (0.835 * 2.2625 * 0.00505 + 0.835 * 1.25 * 0.00505 + 2.2625 * 0.835 * 0.00505)
        * 2700.0;
    let attenuator = 0.3 * 0.35 * 0.3 * 2700.0;
    let brake = 0.104 * 0.016 * 0.0325 * 0.5;
    let by_hand = rear_wing + front_wing + 2.0 * side_wing + 2.0 * 3.636 + 2.0 * 3.636 + 30.0
        + cabin + attenuator + 4.0 * brake + 2.0 * 5.0 + 2.0 * 5.0;
    assert!((to_f64(car.mass()) - by_hand).abs() < 1e-9);
}

#[test]
fn every_objective_at_the_midpoints() {
    let car = midpoint_car();
    assert_eq!(car.mass(), num(6_067_387_694_100));
    assert_eq!(car.center_of_gravity(), num(4_770_667_031));
    assert_eq!(car.total_drag_force(), num(664_990_576_489));
    assert_eq!(car.total_downward_force(), num(4_592_364_593_786));
    assert_eq!(car.acceleration(), num(-1_587_788_294));
    assert_eq!(car.crash_force(), num(725_402_815_608_199_510));
    assert_eq!(car.impact_attenuator_volume(), num(315_000_000));
    assert_eq!(car.corner_velocity(), num(73_259_452_550));
    assert_eq!(car.braking_distance(), num(1_048_103_589_030));
    assert_eq!(car.suspension_acceleration(), num(105_668_932_175));
    assert_eq!(car.pitch_moment(), num(23_804_434_779_696));
}

#[test]
fn objectives_are_eleven_in_their_order() {
    let car = midpoint_car();
    let all = car.objectives();
    assert_eq!(all.len(), 11);
    assert_eq!(all[0], car.mass());
    assert_eq!(all[1], car.center_of_gravity());
    assert_eq!(all[2], car.total_drag_force());
    assert_eq!(all[3], car.total_downward_force());
    assert_eq!(all[4], car.acceleration());
    assert_eq!(all[5], car.crash_force());
    assert_eq!(all[6], car.impact_attenuator_volume());
    assert_eq!(all[7], car.corner_velocity());
    assert_eq!(all[8], car.braking_distance());
    assert_eq!(all[9], car.suspension_acceleration());
    assert_eq!(all[10], car.pitch_moment());
}

#[test]
fn objective_is_the_weighted_sum_of_the_objectives() {
    let car = midpoint_car();
    let all = car.objectives();
    let even = EVEN_WEIGHTS.map(fx);
    assert_eq!(car.objective(even), num(725_439_175_315_696_073));
    assert_eq!(
        car.objective(even).unwrap().raw,
        all.iter().map(|o| o.unwrap().raw).sum::<i128>()
    );
    let weights = [20_000_000_000, -10_000_000_000, 0, 5_000_000_000, -30_000_000_000, 10_000_000, 100_000_000_000, 0, 10_000_000_000, -2_500_000_000, 10_000_000_000].map(fx);
    assert_eq!(car.objective(weights), num(764_663_037_126_826));
    assert_eq!(car.objective(weights), weighted_sum(&weights, &all));
    let mut by_hand: i128 = 0;
    for k in 0..11 {
        by_hand += weights[k].raw * all[k].unwrap().raw / 10_000_000_000;
    }
    assert_eq!(car.objective(weights).unwrap().raw, by_hand);
    let none = [fx(0); 11];
    assert_eq!(car.objective(none), num(0));
}

#[test]
fn weighted_sum_is_undefined_with_an_undefined_value() {
    let weights = [fx(10_000_000_000); 11];
    let mut values = [num(10_000_000_000); 11];
    assert_eq!(weighted_sum(&weights, &values), num(110_000_000_000));
    values[4] = None;
    assert_eq!(weighted_sum(&weights, &values), None);
}

#[test]
fn corner_velocity_is_zero_under_a_negative_load() {
    let c = catalogs();
    let mut p = midpoint_vector();
    p[28] = fx(10_000_000_000);
    let car = Car::new_from_parameters(&p, &c).unwrap();
    assert_eq!(car.cornering_load(), num(-1_937_386_562_127_093));
    assert_eq!(car.corner_velocity(), num(0));
    assert_eq!(corner_velocity_of(num(-1), num(10_000_000_000)), num(0));
    assert_eq!(corner_velocity_of(num(0), num(10_000_000_000)), num(0));
    assert_eq!(corner_velocity_of(None, num(10_000_000_000)), None);
    // load 10, mass 2: sqrt(10 * 1.6 * 9 / 2)
    assert_eq!(
        corner_velocity_of(num(100_000_000_000), num(20_000_000_000)),
        num(84_852_813_742)
    );
}

#[test]
fn braking_reckons_with_the_least_load() {
    let c = catalogs();
    let mut p = midpoint_vector();
    p[28] = fx(10_000_000_000);
    let car = Car::new_from_parameters(&p, &c).unwrap();
    assert!(car.braking_load().unwrap().raw < 0);
    assert_eq!(floored_load(car.braking_load()), num(1));
    assert_eq!(floored_load(num(0)), num(1));
    assert_eq!(floored_load(num(2)), num(2));
    assert_eq!(floored_load(None), None);
    assert_eq!(car.braking_distance(), num(1_078_701_432_402));
    assert_eq!(
        car.braking_distance(),
        braking_distance_of(
            num(1),
            rolling_coefficient(Some(car.rear_tire_pressure)),
            car.brake_torque(),
            Some(car.rear_tire_radius),
            car.mass(),
        )
    );
}

#[test]
fn crash_force_falls_with_the_length() {
    let car = midpoint_car();
    let at = |length: i128| {
        crash_force_of(
            car.mass(),
            Some(car.impact_attenuator_width),
            Some(car.impact_attenuator_height),
            Some(car.impact_attenuator_modulus),
            num(length),
        )
    };
    assert_eq!(at(3_000_000_000), car.crash_force());
    assert_eq!(at(3_000_000_000), num(725_402_815_608_199_510));
    assert_eq!(at(6_000_000_000), num(512_937_250_008_372_612));
    let mut last = at(1_000_000_000).unwrap().raw;
    for step in 2..=30 {
        let next = at(step * 1_000_000_000).unwrap().raw;
        assert!(next < last);
        last = next;
    }
    assert_eq!(at(0), None);
    // where there is nothing to stop, the length does not matter
    let one = num(10_000_000_000);
    assert_eq!(crash_force_of(num(0), one, one, one, num(10_000_000_000)), num(0));
    assert_eq!(crash_force_of(num(0), one, one, one, num(20_000_000_000)), num(0));
}

#[test]
fn mass_volume_and_braking_distance_are_not_negative() {
    let c = catalogs();
    let mut ends = Vec::new();
    for k in 0..2 {
        let mut p = midpoint_vector();
        for (slot, row) in CONST_BOUNDS.iter().enumerate() {
            p[slot] = fx(row[k]);
        }
        ends.push(p);
    }
    ends.push(midpoint_vector());
    for p in ends {
        for suspension in 0..2 {
            let mut q = p.clone();
            q[28] = fx(suspension * 10_000_000_000);
            let car = Car::new_from_parameters(&q, &c).unwrap();
            assert!(car.mass().unwrap().raw >= 0);
            assert!(car.impact_attenuator_volume().unwrap().raw >= 0);
            assert!(car.braking_distance().unwrap().raw >= 0);
        }
    }
}

#[test]
fn a_car_without_mass_has_undefined_quotients_by_the_mass() {
    let mut c = catalogs();
    c.materials = vec![material(0, 0)];
    c.tires = vec![car_design::catalog::Tire { radius: fx(2_286_000_000), mass: fx(0) }];
    c.motors[0].mass = fx(0);
    c.suspensions = vec![Suspension {
        spring_constant: fx(0),
        damping_coefficient: fx(0),
        mass: fx(0),
    }];
    c.brakes[0].density = fx(0);
    let car = Car::new_from_parameters(&midpoint_vector(), &c).unwrap();
    assert_eq!(car.mass(), num(0));
    assert_eq!(car.center_of_gravity(), None);
    assert_eq!(car.acceleration(), None);
    assert_eq!(car.braking_distance(), num(0));
    assert_eq!(car.crash_force(), num(0));
    assert_eq!(car.objective(EVEN_WEIGHTS.map(fx)), None);
}

#[test]
fn mass_is_within_a_billionth_of_the_exact_sum() {
    let mut c = catalogs();
    c.materials = vec![Material {
        density: fx(49_083_343_296_133),
        modulus: Fixed::from_int(69_000_000_000),
    }];
    let car = Car::new_from_parameters(&midpoint_vector(), &c).unwrap();
    assert_eq!(car.mass(), num(10_502_006_522_883));
    let d = 4908.3343296133;
    let by_hand = 0.2008128375 * d + 30.0 + 4.0 * 5.0 + 14.54410816;
    assert!((to_f64(car.mass()) - by_hand).abs() < 1e-9);
    // each part is rounded once
    assert_eq!(car.mass_rear_wing(), num(2_668_906_791_727));
    assert_eq!(
        car.mass_rear_wing(),
        part_mass(
            Some(car.rear_wing_density),
            Some(car.rear_wing_length),
            Some(car.rear_wing_width),
            Some(car.rear_wing_height),
        )
    );
}

#[test]
fn braking_distance_is_finite_without_a_brake() {
    // a load below zero, no torque: only the least load stops the car
    let d = braking_distance_of(
        num(-1),
        num(260_771_485),
        num(0),
        num(2_286_000_000),
        num(6_000_000_000_000),
    );
    assert_eq!(d, num(826_286_662_439_338_411_559_837_533));
    let real = 26.8 * 26.8 * 600.0 / (2.0 * 1e-10 * 0.0260771485);
    assert!((to_f64(d) / real - 1.0).abs() < 1e-12);
    let mut c = catalogs();
    c.brakes[0].width = fx(0);
    let mut p = midpoint_vector();
    p[28] = fx(10_000_000_000);
    let car = Car::new_from_parameters(&p, &c).unwrap();
    assert_eq!(car.brake_torque(), num(0));
    assert!(car.braking_load().unwrap().raw < 0);
    let stopped = car.braking_distance().unwrap().raw;
    assert!(stopped > 0);
    // without mass there is nothing to stop; without a tire the brakes have
    // no arm
    assert_eq!(
        braking_distance_of(num(-1), num(260_771_485), num(0), num(2_286_000_000), num(0)),
        num(0)
    );
    assert_eq!(
        braking_distance_of(num(-1), num(260_771_485), num(0), num(0), num(6_000_000_000_000)),
        None
    );
}

#[test]
fn four_times_the_length_halves_the_crash_force() {
    let car = midpoint_car();
    let at = |length: i128| {
        to_f64(crash_force_of(
            car.mass(),
            Some(car.impact_attenuator_width),
            Some(car.impact_attenuator_height),
            Some(car.impact_attenuator_modulus),
            num(length),
        ))
    };
    for length in [1_000_000_000i128, 1_700_000_000, 3_000_000_000, 6_000_000_001] {
        assert!((at(4 * length) / at(length) - 0.5).abs() < 1e-12);
    }
}

#[test]
fn shared_formulas() {
    let car = midpoint_car();
    let ar = aspect_ratio(
        Some(car.rear_wing_width),
        Some(car.rear_wing_angle_of_attack),
        Some(car.rear_wing_length),
    );
    assert_eq!(ar, num(61_591_968_840));
    let cl = lift_coefficient(ar, Some(car.rear_wing_angle_of_attack));
    assert_eq!(cl, num(18_625_864_018));
    assert_eq!(drag_coefficient(cl, ar), num(1_792_911_679));
    // half of 1.225 * 26.8 * 26.8
    assert_eq!(
        drag_force(num(10_000_000_000), num(10_000_000_000), num(10_000_000_000)),
        num(4_399_220_000_000)
    );
    // 20000 * 0.05 + 1500 * 0.025
    assert_eq!(
        suspension_force(num(200_000_000_000_000), num(15_000_000_000_000)),
        num(10_375_000_000_000)
    );
    assert_eq!(rolling_coefficient(Some(car.rear_tire_pressure)), num(260_771_485));
    assert_eq!(rolling_coefficient(num(0)), None);
    assert_eq!(aspect_ratio(num(10_000_000_000), num(0), num(0)), None);
}

#[test]
fn fixed_point_follows_the_real_formulas() {
    let car = midpoint_car();
    let cos = (0.3926990817f64).cos();
    let ar = 1.0 * cos / 0.15;
    let cl = 2.0 * std::f64::consts::PI * (ar / (ar + 2.0)) * 0.3926990817;
    let down = 0.5 * 0.3625 * 1.0 * 1.225 * 26.8 * 26.8 * cl;
    assert!((to_f64(car.rear_wing_down_force()) - down).abs() < 1e-6);
    let mass = to_f64(car.mass());
    let crash = (mass * 26.8 * 26.8 * 0.35 * 0.3 * 69e9 / (2.0 * 0.3)).sqrt();
    assert!((to_f64(car.crash_force()) / crash - 1.0).abs() < 1e-9);
    assert!((to_f64(car.impact_attenuator_volume()) - 0.3 * 0.3 * 0.35).abs() < 1e-9);
}
