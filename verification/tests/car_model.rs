use car_design::car::{decode_index, encode_index, Car, PARAMETER_COUNT};
use car_design::catalog::{Catalogs, Material, Motor, Suspension};
use car_design::constants::{get_brakes, get_tires, stock_catalogs, CONST_BOUNDS, EVEN_WEIGHTS};
use car_design::error::CarError;
use car_design::fixed::Fixed;

fn fx(raw: i128) -> Fixed {
    Fixed { raw }
}

fn material(density: i64, modulus: i64) -> Material {
    Material { density: Fixed::from_int(density), modulus: Fixed::from_int(modulus) }
}

fn suspension(spring_constant: i64) -> Suspension {
    Suspension {
        spring_constant: Fixed::from_int(spring_constant),
        damping_coefficient: Fixed::from_int(1500),
        mass: Fixed::from_int(5),
    }
}

/// The stock tires and brakes, with two materials, one motor and two
/// suspensions, the second far stiffer than the first.
fn catalogs() -> Catalogs {
    Catalogs {
        tires: get_tires(),
        brakes: get_brakes(),
        motors: vec![Motor {
            power: Fixed::from_int(40000),
            length: Fixed::from_micro(400_000),
            height: Fixed::from_micro(300_000),
            torque: Fixed::from_int(60),
            mass: Fixed::from_int(30),
        }],
        materials: vec![material(2700, 69_000_000_000), material(7850, 200_000_000_000)],
        suspensions: vec![suspension(20_000), suspension(1_000_000)],
    }
}

/// Every bounded parameter at the middle of its bound, every index zero, and
/// the other ten parameters within their bounds.
fn midpoint_vector() -> Vec<Fixed> {
    let mut p = Vec::new();
    for row in CONST_BOUNDS.iter() {
        p.push(fx((row[0] + row[1]) / 2));
    }
    for _ in 0..10 {
        p.push(fx(0));
    }
    for raw in [
        10_000_000_000i128,
        8_500_000_000,
        1_500_000_000,
        1_400_000_000,
        2_500_000_000,
        6_000_000_000,
        3_000_000_000,
        5_000_000_000,
        3_000_000_000,
        3_000_000_000,
    ] {
        p.push(fx(raw));
    }
    p
}

fn midpoint_car() -> Car {
    Car::new_from_parameters(&midpoint_vector(), &catalogs()).unwrap()
}

#[test]
fn internal() {
    let stock = stock_catalogs();
    assert_eq!(Car::new(&stock), Err(CarError::EmptyCatalog));
    let filled = catalogs();
    let weights = EVEN_WEIGHTS.map(fx);
    if let Ok(cost) = Car::new(&filled) {
        println!("{:?}", cost.objective(weights));
    }
    let init_param: Vec<Fixed> = vec![fx(0); 39];
    assert_eq!(init_param.len(), PARAMETER_COUNT);
    let decoded = Car::new_from_parameters(&init_param, &filled).unwrap();
    println!("{:?}", decoded.objective(weights));
}

#[test]
fn round_trip_gives_the_same_car() {
    let c = catalogs();
    let mut p = midpoint_vector();
    p[19] = fx(17_500_000_000);
    p[24] = fx(69_999_999_999);
    p[26] = fx(330_000_000_000);
    p[28] = fx(-4_000_000_000 / 10);
    let car = Car::new_from_parameters(&p, &c).unwrap();
    assert_eq!(car.rear_wing_material_index, 1);
    assert_eq!(car.rear_tire_index, 6);
    assert_eq!(car.brake_index, 33);
    assert_eq!(car.suspension_index, 0);
    let q = car.get_parameter_vector();
    assert_eq!(q.len(), 39);
    assert_eq!(q[19], fx(10_000_000_000));
    assert_eq!(q[24], fx(60_000_000_000));
    for slot in (0..19).chain(29..39) {
        assert_eq!(q[slot], p[slot]);
    }
    let again = Car::new_from_parameters(&q, &c).unwrap();
    assert_eq!(again, car);
    assert_eq!(again.objectives(), car.objectives());
    assert_eq!(again.get_parameter_vector(), q);
}

#[test]
fn properties_come_from_the_catalogs() {
    let car = midpoint_car();
    assert_eq!(car.rear_wing_density, Fixed::from_int(2700));
    assert_eq!(car.impact_attenuator_modulus, Fixed::from_int(69_000_000_000));
    assert_eq!(car.rear_tire_radius, fx(2_286_000_000));
    assert_eq!(car.front_tire_mass, fx(36_360_000_000));
    assert_eq!(car.brake_length, fx(1_040_000_000));
    assert_eq!(car.brake_radius, fx(300_000_000));
    assert_eq!(car.engine_torque, Fixed::from_int(60));
    assert_eq!(car.front_suspension_spring_constant, Fixed::from_int(20_000));
    assert_eq!(car.rear_wing_height, fx(3_625_000_000));
    assert_eq!(car.front_suspension_y_position, fx(3_000_000_000));
}

#[test]
fn index_one_past_the_end_is_out_of_range() {
    let c = catalogs();
    let sizes = [2usize, 2, 2, 2, 2, 7, 7, 34, 1, 2];
    for (k, size) in sizes.iter().enumerate() {
        let mut p = midpoint_vector();
        p[19 + k] = encode_index(*size);
        assert_eq!(Car::new_from_parameters(&p, &c), Err(CarError::IndexOutOfRange));
        p[19 + k] = encode_index(*size - 1);
        assert!(Car::new_from_parameters(&p, &c).is_ok());
    }
}

#[test]
fn negative_index_is_out_of_range() {
    let c = catalogs();
    let mut p = midpoint_vector();
    p[25] = fx(-10_000_000_000);
    assert_eq!(Car::new_from_parameters(&p, &c), Err(CarError::IndexOutOfRange));
    p[25] = fx(-9_999_999_999);
    assert_eq!(Car::new_from_parameters(&p, &c).unwrap().front_tire_index, 0);
}

#[test]
fn decode_index_rounds_toward_zero() {
    assert_eq!(decode_index(fx(29_999_999_999), 3), Ok(2));
    assert_eq!(decode_index(fx(30_000_000_000), 3), Err(CarError::IndexOutOfRange));
    assert_eq!(decode_index(fx(-1), 3), Ok(0));
    assert_eq!(decode_index(fx(0), 0), Err(CarError::EmptyCatalog));
    assert_eq!(decode_index(fx(i128::MAX), 3), Err(CarError::IndexOutOfRange));
    assert_eq!(decode_index(fx(i128::MIN), 3), Err(CarError::IndexOutOfRange));
    assert_eq!(encode_index(7), fx(70_000_000_000));
}

#[test]
fn empty_catalog_is_reported_before_a_bad_index() {
    let mut c = catalogs();
    c.motors = Vec::new();
    let mut p = midpoint_vector();
    assert_eq!(Car::new_from_parameters(&p, &c), Err(CarError::EmptyCatalog));
    p[19] = fx(990_000_000_000);
    assert_eq!(Car::new_from_parameters(&p, &c), Err(CarError::EmptyCatalog));
    assert_eq!(Car::new(&c), Err(CarError::EmptyCatalog));
    assert!(c.has_empty());
    assert!(!catalogs().has_empty());
}

#[test]
fn stock_tables_hold_the_stock_components() {
    let tires = get_tires();
    assert_eq!(tires.len(), 7);
    assert_eq!(tires[0].radius, fx(2_286_000_000));
    assert_eq!(tires[0].mass, fx(36_360_000_000));
    assert_eq!(tires[6].radius, fx(2_667_000_000));
    assert_eq!(tires[5].mass, fx(54_550_000_000));
    let brakes = get_brakes();
    assert_eq!(brakes.len(), 34);
    assert_eq!(brakes[0].density, fx(5_000_000_000));
    assert_eq!(brakes[0].height, fx(325_000_000));
    assert_eq!(brakes[33].length, fx(1_640_000_000));
    assert_eq!(brakes[33].width, fx(250_000_000));
    assert_eq!(brakes[33].thickness, fx(3_550_000_000));
    assert_eq!(brakes[33].radius, fx(320_000_000));
    let stock = stock_catalogs();
    assert!(stock.motors.is_empty() && stock.materials.is_empty() && stock.suspensions.is_empty());
}
