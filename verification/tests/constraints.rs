use car_design::car::Car;
use car_design::catalog::{Catalogs, Material, Motor, Suspension};
use car_design::constants::{get_brakes, get_tires, CONST_BOUNDS};
use car_design::constraints::{static_bound, Bound};
use car_design::error::CarError;
use car_design::fixed::{Fixed, Scalar};

fn fx(raw: i128) -> Fixed {
    Fixed { raw }
}

fn num(raw: i128) -> Scalar {
    Some(fx(raw))
}

fn catalogs() -> Catalogs {
    Catalogs {
        tires: get_tires(),
        brakes: get_brakes(),
        motors: vec![Motor {
            power: Fixed::from_int(40000),
            length: Fixed::from_micro(400_000),
            height: Fixed::from_micro(300_000),
            torque: Fixed::from_int(60),
            mass: Fixed::from_int(30),
        }],
        materials: vec![Material {
            density: Fixed::from_int(2700),
            modulus: Fixed::from_int(69_000_000_000),
        }],
        suspensions: vec![Suspension {
            spring_constant: Fixed::from_int(20_000),
            damping_coefficient: Fixed::from_int(1500),
            mass: Fixed::from_int(5),
        }],
    }
}

fn midpoint_vector() -> Vec<Fixed> {
    let mut p = Vec::new();
    for row in CONST_BOUNDS.iter() {
        p.push(fx((row[0] + row[1]) / 2));
    }
    for _ in 0..10 {
        p.push(fx(0));
    }
    for raw in [
        10_000_000_000i128,
        8_500_000_000,
        1_500_000_000,
        1_400_000_000,
        2_500_000_000,
        6_000_000_000,
        3_000_000_000,
        5_000_000_000,
        3_000_000_000,
        3_000_000_000,
    ] {
        p.push(fx(raw));
    }
    p
}

fn margins(raws: &[i128]) -> Vec<Scalar> {
    raws.iter().map(|raw| num(*raw)).collect()
}

#[test]
fn static_bounds_are_the_nineteen_pairs() {
    assert_eq!(static_bound(0), Some(Bound { low: num(250_000_000), high: num(7_000_000_000) }));
    assert_eq!(static_bound(2), Some(Bound { low: num(0), high: num(7_853_981_634) }));
    assert_eq!(
        static_bound(18),
        Some(Bound { low: num(2_000_000_000), high: num(5_000_000_000) })
    );
    assert_eq!(static_bound(19), None);
    for row in CONST_BOUNDS.iter() {
        assert!(row[0] < row[1]);
    }
}

#[test]
fn margins_at_the_midpoints() {
    let car = Car::new_from_parameters(&midpoint_vector(), &catalogs()).unwrap();
    let fixed = car.check_bounds();
    assert_eq!(fixed.len(), 38);
    assert_eq!(fixed, margins(&STATIC));
    assert_eq!(car.check_linear_constraints(), margins(&LINEAR));
    assert_eq!(car.check_nonlinear_constraints(), margins(&NONLINEAR));
}

#[test]
fn a_broken_bound_has_a_negative_margin() {
    let mut p = midpoint_vector();
    p[1] = fx(2_600_000_000);
    p[16] = fx(0);
    p[35] = fx(1_000_000_000);
    p[37] = fx(5_000_000_000);
    let car = Car::new_from_parameters(&p, &catalogs()).unwrap();
    let fixed = car.check_bounds();
    assert_eq!(fixed[2], num(2_100_000_000));
    assert_eq!(fixed[3], num(-100_000_000));
    assert_eq!(fixed[32], num(-1_000_000));
    assert_eq!(fixed[33], num(100_000_000));
    let negative = fixed.iter().filter(|m| m.unwrap().raw < 0).count();
    assert_eq!(negative, 2);
    let linear = car.check_linear_constraints();
    assert_eq!(linear[8], num(-1_000_000_000));
    assert_eq!(linear[9], num(3_250_000_000));
    let nonlinear = car.check_nonlinear_constraints();
    assert_eq!(nonlinear[4], num(2_714_000_000));
    assert_eq!(nonlinear[5], num(-428_000_000));
}

#[test]
fn dependent_bounds_follow_the_car() {
    let car = Car::new_from_parameters(&midpoint_vector(), &catalogs()).unwrap();
    assert_eq!(
        car.dependent_bound(29),
        Some(Bound { low: num(3_000_000_000), high: num(85_428_000_000) })
    );
    assert_eq!(
        car.dependent_bound(30),
        Some(Bound { low: num(6_812_500_000), high: num(10_187_500_000) })
    );
    assert_eq!(
        car.dependent_bound(31),
        Some(Bound { low: num(1_425_000_000), high: num(687_500_000) })
    );
    assert_eq!(
        car.dependent_bound(35),
        Some(Bound { low: num(2_000_000_000), high: num(4_250_000_000) })
    );
    assert_eq!(
        car.dependent_bound(38),
        Some(Bound { low: num(2_286_000_000), high: num(4_572_000_000) })
    );
    assert_eq!(car.dependent_bound(28), None);
    assert_eq!(car.dependent_bound(39), None);
}

#[test]
fn a_margin_out_of_range_is_undefined() {
    let mut p = midpoint_vector();
    p[0] = fx(i128::MAX);
    p[29] = fx(-10_000_000_000_000_000_000_000_000_000);
    let car = Car::new_from_parameters(&p, &catalogs()).unwrap();
    let fixed = car.check_bounds();
    assert_eq!(fixed[0], None);
    assert_eq!(fixed[1], None);
    assert!(fixed[2].is_some());
    let nonlinear = car.check_nonlinear_constraints();
    assert_eq!(nonlinear[0], None);
    assert_eq!(nonlinear[1], None);
}

const STATIC: [i128; 38] = [
    3_375_000_000,
    3_375_000_000,
    1_000_000_000,
    1_000_000_000,
    3_926_990_817,
    3_926_990_817,
    875_000_000,
    875_000_000,
    2_250_000_000,
    2_250_000_000,
    13_500_000_000,
    13_500_000_000,
    3_926_990_817,
    3_926_990_817,
    875_000_000,
    875_000_000,
    2_500_000_000,
    2_500_000_000,
    1_750_000_000,
    1_750_000_000,
    3_926_990_817,
    3_926_990_817,
    1_360_000_000,
    1_360_000_000,
    1_360_000_000,
    1_360_000_000,
    3_350_000_000,
    3_350_000_000,
    7_375_000_000,
    7_375_000_000,
    7_500_000_000,
    7_500_000_000,
    49_500_000,
    49_500_000,
    2_000_000_000,
    2_000_000_000,
    1_500_000_000,
    1_500_000_000,
];

const LINEAR: [i128; 12] = [
    1_687_500_000,
    1_687_500_000,
    75_000_000,
    -812_500_000,
    537_500_000,
    537_500_000,
    1_525_000_000,
    1_825_000_000,
    1_000_000_000,
    1_250_000_000,
    3_200_000_000,
    5_500_000_000,
];

const NONLINEAR: [i128; 8] = [
    7_000_000_000,
    75_428_000_000,
    700_000_000,
    1_000_000_000,
    714_000_000,
    1_572_000_000,
    714_000_000,
    1_572_000_000,
];

#[test]
fn dependent_range_is_the_bound_in_order() {
    let car = Car::new_from_parameters(&midpoint_vector(), &catalogs()).unwrap();
    assert_eq!(car.dependent_range(29), Ok((fx(3_000_000_000), fx(85_428_000_000))));
    assert_eq!(car.dependent_range(37), Ok((fx(2_286_000_000), fx(4_572_000_000))));
    // the front wing: from 0.1425 to 0.06875, the wrong way round
    assert_eq!(car.dependent_range(31), Err(CarError::DegenerateBound));
    let mut p = midpoint_vector();
    p[4] = fx(5_000_000_000);
    let long = Car::new_from_parameters(&p, &catalogs()).unwrap();
    assert_eq!(long.dependent_range(35), Ok((fx(2_000_000_000), fx(2_000_000_000))));
    p[4] = fx(5_000_000_001);
    let longer = Car::new_from_parameters(&p, &catalogs()).unwrap();
    assert_eq!(longer.dependent_range(35), Err(CarError::DegenerateBound));
    p[4] = fx(i128::MAX);
    let undefined = Car::new_from_parameters(&p, &catalogs()).unwrap();
    assert_eq!(undefined.dependent_range(35), Err(CarError::DegenerateBound));
}
