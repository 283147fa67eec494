use car_design::car::Car;
use car_design::catalog::{Catalogs, Material, Motor, Suspension};
use car_design::constants::{get_brakes, get_tires, CONST_BOUNDS};
use car_design::error::CarError;
use car_design::fixed::Fixed;
use car_design::random::draw_index;
use car_design::utils::{multinomial_draw, random_uniform};

fn fx(raw: i128) -> Fixed {
    Fixed { raw }
}

fn catalogs() -> Catalogs {
    Catalogs {
        tires: get_tires(),
        brakes: get_brakes(),
        motors: vec![Motor {
            power: Fixed::from_int(40000),
            length: Fixed::from_micro(400_000),
            height: Fixed::from_micro(300_000),
            torque: Fixed::from_int(60),
            mass: Fixed::from_int(30),
        }],
        materials: vec![
            Material { density: Fixed::from_int(2700), modulus: Fixed::from_int(69_000_000_000) },
            Material { density: Fixed::from_int(7850), modulus: Fixed::from_int(200_000_000_000) },
        ],
        suspensions: vec![Suspension {
            spring_constant: Fixed::from_int(20_000),
            damping_coefficient: Fixed::from_int(1500),
            mass: Fixed::from_int(5),
        }],
    }
}

#[test]
fn uniform_refuses_an_inverted_range() {
    assert_eq!(random_uniform(fx(2), fx(1)), Err(CarError::InvalidRange));
    assert_eq!(random_uniform(fx(i128::MAX), fx(i128::MIN)), Err(CarError::InvalidRange));
}

#[test]
fn uniform_draws_within_the_closed_interval() {
    assert_eq!(random_uniform(fx(-7), fx(-7)), Ok(fx(-7)));
    let mut seen_low = false;
    let mut seen_high = false;
    let mut seen_other = false;
    for _ in 0..2000 {
        let v = random_uniform(fx(-1), fx(1)).unwrap().raw;
        assert!((-1..=1).contains(&v));
        seen_low |= v == -1;
        seen_high |= v == 1;
        seen_other |= v == 0;
    }
    assert!(seen_low && seen_high && seen_other);
    for _ in 0..200 {
        let v = random_uniform(fx(250_000_000), fx(7_000_000_000)).unwrap().raw;
        assert!((250_000_000..=7_000_000_000).contains(&v));
    }
    let wide = random_uniform(fx(i128::MIN), fx(i128::MAX));
    assert!(wide.is_ok());
}

#[test]
fn weighted_draw_refuses_malformed_weights() {
    assert_eq!(multinomial_draw(&vec![]), Err(CarError::InvalidWeights));
    assert_eq!(multinomial_draw(&vec![fx(1), fx(-1), fx(5)]), Err(CarError::InvalidWeights));
    assert_eq!(multinomial_draw(&vec![fx(-1)]), Err(CarError::InvalidWeights));
    assert_eq!(multinomial_draw(&vec![fx(0), fx(0)]), Err(CarError::InvalidWeights));
    assert_eq!(
        multinomial_draw(&vec![fx(i128::MAX), fx(1)]),
        Err(CarError::InvalidWeights)
    );
}

#[test]
fn weighted_draw_picks_only_weighted_indices() {
    for _ in 0..200 {
        assert_eq!(multinomial_draw(&vec![fx(0), fx(5), fx(0)]), Ok(1));
        assert_eq!(multinomial_draw(&vec![fx(0), fx(0), fx(i128::MAX)]), Ok(2));
    }
    let weights = vec![fx(10_000_000_000), fx(0), fx(30_000_000_000), fx(1)];
    let mut counts = [0usize; 4];
    for _ in 0..4000 {
        counts[multinomial_draw(&weights).unwrap()] += 1;
    }
    assert_eq!(counts[1], 0);
    assert!(counts[0] > 500 && counts[2] > 2000);
    assert!(counts[2] > counts[0]);
}

#[test]
fn index_draw_covers_the_catalog() {
    assert_eq!(draw_index(0), Err(CarError::EmptyCatalog));
    assert_eq!(draw_index(1), Ok(0));
    let mut seen = [false; 7];
    for _ in 0..2000 {
        seen[draw_index(7).unwrap()] = true;
    }
    assert!(seen.iter().all(|s| *s));
}

#[test]
fn random_cars_lie_within_their_bounds() {
    let c = catalogs();
    let mut built = 0;
    let mut degenerate = 0;
    for _ in 0..400 {
        match Car::new(&c) {
            Ok(car) => {
                built += 1;
                let p = car.get_parameter_vector();
                for (slot, row) in CONST_BOUNDS.iter().enumerate() {
                    assert!(row[0] <= p[slot].raw && p[slot].raw <= row[1]);
                }
                for margin in car.check_bounds() {
                    assert!(margin.unwrap().raw >= 0);
                }
                for margin in car.check_linear_constraints() {
                    assert!(margin.unwrap().raw >= 0);
                }
                for margin in car.check_nonlinear_constraints() {
                    assert!(margin.unwrap().raw >= 0);
                }
                assert_eq!(Car::new_from_parameters(&p, &c), Ok(car));
            }
            Err(e) => {
                assert_eq!(e, CarError::DegenerateBound);
                degenerate += 1;
            }
        }
    }
    assert!(built > 0);
    assert!(degenerate > 0);
}

#[test]
fn a_tall_engine_makes_a_degenerate_bound() {
    let mut c = catalogs();
    // taller than 0.47: 0.03 + h / 2 is above 0.5 - h / 2
    c.motors[0].height = Fixed::from_micro(600_000);
    for _ in 0..50 {
        assert_eq!(Car::new(&c), Err(CarError::DegenerateBound));
    }
    c.motors[0].height = Fixed { raw: i128::MAX };
    assert_eq!(Car::new(&c), Err(CarError::DegenerateBound));
}
