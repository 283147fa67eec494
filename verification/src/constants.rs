//! The fixed data of the model: the speed and the other conditions under
//! which a design is judged, the bounds of the continuous parameters, and the
//! stock catalogs.

use vstd::prelude::*;
use crate::catalog::{Brake, Catalogs, Material, Motor, Suspension, Tire};
use crate::fixed::Fixed;

verus! {

/// Speed of the car: 26.8 m/s.
pub const V_CAR: i128 = 268_000_000_000;

/// Angular speed of the engine, 3600 turns a minute: 376.9911184308 rad/s.
pub const W_E: i128 = 3_769_911_184_308;

/// Density of air: 1.225 kg/m^3.
pub const RHO_AIR: i128 = 12_250_000_000;

/// Radius of the skid pad: 9 m.
pub const R_TRACK: i128 = 90_000_000_000;

/// Pressure in the brake line: 10^7 Pa.
pub const P_BRAKE: i128 = 100_000_000_000_000_000;

/// Drag coefficient of the cabin: 0.04.
pub const C_DC: i128 = 400_000_000;

/// Acceleration of gravity: 9.81 m/s^2.
pub const GRAVITY: i128 = 98_100_000_000;

/// Displacement at which a suspension is tested: 0.05 m.
pub const Y_SUSPENSION: i128 = 500_000_000;

/// Speed at which a suspension is tested: 0.025 m/s.
pub const DYDT_SUSPENSION: i128 = 250_000_000;

/// The weight one, eleven times: every objective counts alike.
pub const EVEN_WEIGHTS: [i128; 11] = [
    10_000_000_000,
    10_000_000_000,
    10_000_000_000,
    10_000_000_000,
    10_000_000_000,
    10_000_000_000,
    10_000_000_000,
    10_000_000_000,
    10_000_000_000,
    10_000_000_000,
    10_000_000_000,
];

/// Lower and upper end, as raw counts, of each of the nineteen bounded
/// parameters, in the order of the parameter vector. The angles end at the
/// eighth of a turn, 0.7853981634.
pub const CONST_BOUNDS: [[i128; 2]; 19] = [
    [250_000_000, 7_000_000_000],
    [500_000_000, 2_500_000_000],
    [0, 7_853_981_634],
    [250_000_000, 2_000_000_000],
    [500_000_000, 5_000_000_000],
    [3_000_000_000, 30_000_000_000],
    [0, 7_853_981_634],
    [250_000_000, 2_000_000_000],
    [500_000_000, 5_500_000_000],
    [500_000_000, 4_000_000_000],
    [0, 7_853_981_634],
    [7_580_000_000, 10_300_000_000],
    [7_580_000_000, 10_300_000_000],
    [5_000_000_000, 11_700_000_000],
    [15_250_000_000, 30_000_000_000],
    [5_000_000_000, 20_000_000_000],
    [1_000_000, 100_000_000],
    [1_000_000_000, 5_000_000_000],
    [2_000_000_000, 5_000_000_000],
];

/// Radius and mass of each stock tire, in millionths.
pub const TIRE_TABLE: [[i64; 2]; 7] = [
    [228_600, 3_636_000],
    [229_870, 4_091_000],
    [232_410, 4_545_000],
    [246_380, 4_545_000],
    [247_650, 5_000_000],
    [261_620, 5_455_000],
    [266_700, 5_000_000],
];

/// Density, length, height, width, thickness and radius of each stock brake,
/// in millionths.
pub const BRAKE_TABLE: [[i64; 6]; 34] = [
    [500_000, 104_000, 32_500, 16_000, 320_000, 30_000],
    [400_000, 100_000, 42_500, 20_000, 350_000, 25_000],
    [500_000, 113_500, 40_000, 16_000, 350_000, 25_000],
    [500_000, 100_000, 38_000, 16_000, 350_000, 30_000],
    [500_000, 104_000, 37_500, 16_000, 355_000, 30_000],
    [400_000, 140_000, 49_000, 17_500, 350_000, 25_000],
    [520_000, 100_000, 42_500, 20_000, 350_000, 28_000],
    [500_000, 110_000, 52_000, 14_000, 350_000, 32_000],
    [500_000, 100_000, 42_500, 20_000, 355_000, 32_000],
    [500_000, 132_000, 42_000, 18_000, 355_000, 28_000],
    [520_000, 140_000, 42_000, 17_500, 350_000, 28_000],
    [630_000, 100_000, 42_500, 20_000, 320_000, 28_000],
    [520_000, 140_000, 49_000, 17_500, 330_000, 25_000],
    [630_000, 140_000, 42_000, 17_500, 350_000, 25_000],
    [500_000, 132_000, 52_000, 17_000, 355_000, 28_000],
    [500_000, 132_000, 49_000, 16_000, 320_000, 32_000],
    [400_000, 140_000, 61_500, 17_500, 350_000, 28_000],
    [500_000, 140_000, 49_000, 17_500, 350_000, 30_000],
    [500_000, 140_000, 61_500, 17_500, 320_000, 28_000],
    [500_000, 164_000, 49_000, 18_000, 355_000, 30_000],
    [520_000, 132_000, 49_000, 22_000, 350_000, 30_000],
    [630_000, 140_000, 49_000, 17_500, 355_000, 30_000],
    [630_000, 140_000, 61_500, 17_500, 350_000, 25_000],
    [520_000, 140_000, 61_500, 17_500, 355_000, 32_000],
    [630_000, 132_000, 49_000, 25_000, 350_000, 25_000],
    [500_000, 152_000, 54_000, 25_000, 350_000, 28_000],
    [500_000, 164_000, 51_000, 25_000, 355_000, 28_000],
    [520_000, 164_000, 64_500, 25_000, 350_000, 25_000],
    [630_000, 164_000, 51_000, 22_000, 330_000, 30_000],
    [520_000, 164_000, 51_000, 25_000, 350_000, 32_000],
    [520_000, 152_000, 54_000, 28_000, 355_000, 32_000],
    [630_000, 152_000, 54_000, 25_000, 320_000, 30_000],
    [520_000, 164_000, 64_500, 29_000, 355_000, 28_000],
    [630_000, 164_000, 64_500, 25_000, 355_000, 32_000],
];

/// The stock tire at position `i`.
pub open spec fn stock_tire(i: int) -> Tire {
    Tire {
        radius: Fixed { raw: (TIRE_TABLE[i][0] * 10_000) as i128 },
        mass: Fixed { raw: (TIRE_TABLE[i][1] * 10_000) as i128 },
    }
}

/// The stock brake at position `i`.
pub open spec fn stock_brake(i: int) -> Brake {
    Brake {
        density: Fixed { raw: (BRAKE_TABLE[i][0] * 10_000) as i128 },
        length: Fixed { raw: (BRAKE_TABLE[i][1] * 10_000) as i128 },
        height: Fixed { raw: (BRAKE_TABLE[i][2] * 10_000) as i128 },
        width: Fixed { raw: (BRAKE_TABLE[i][3] * 10_000) as i128 },
        thickness: Fixed { raw: (BRAKE_TABLE[i][4] * 10_000) as i128 },
        radius: Fixed { raw: (BRAKE_TABLE[i][5] * 10_000) as i128 },
    }
}

/// A tire of the given radius and mass.
pub fn build_tire(radius: Fixed, mass: Fixed) -> (r: Tire)
    ensures
        r == (Tire { radius, mass }),
{
    Tire { radius, mass }
}

/// A brake of the given properties.
pub fn build_brake(
    density: Fixed,
    length: Fixed,
    height: Fixed,
    width: Fixed,
    thickness: Fixed,
    radius: Fixed,
) -> (r: Brake)
    ensures
        r == (Brake { density, length, height, width, thickness, radius }),
{
    Brake { density, length, height, width, thickness, radius }
}

/// The seven stock tires.
pub fn get_tires() -> (r: Vec<Tire>)
    ensures
        r@.len() == 7,
        forall|i: int| 0 <= i < 7 ==> r@[i] == stock_tire(i),
{
    let mut tires: Vec<Tire> = Vec::new();
    let mut i: usize = 0;
    while i < 7
        invariant
            i <= 7,
            tires@.len() == i,
            forall|j: int| 0 <= j < i ==> tires@[j] == stock_tire(j),
        decreases 7 - i,
    {
        let row = TIRE_TABLE[i];
        tires.push(build_tire(Fixed::from_micro(row[0]), Fixed::from_micro(row[1])));
        i = i + 1;
    }
    tires
}

/// The thirty-four stock brakes.
pub fn get_brakes() -> (r: Vec<Brake>)
    ensures
        r@.len() == 34,
        forall|i: int| 0 <= i < 34 ==> r@[i] == stock_brake(i),
{
    let mut brakes: Vec<Brake> = Vec::new();
    let mut i: usize = 0;
    while i < 34
        invariant
            i <= 34,
            brakes@.len() == i,
            forall|j: int| 0 <= j < i ==> brakes@[j] == stock_brake(j),
        decreases 34 - i,
    {
        let row = BRAKE_TABLE[i];
        brakes.push(
            build_brake(
                Fixed::from_micro(row[0]),
                Fixed::from_micro(row[1]),
                Fixed::from_micro(row[2]),
                Fixed::from_micro(row[3]),
                Fixed::from_micro(row[4]),
                Fixed::from_micro(row[5]),
            ),
        );
        i = i + 1;
    }
    brakes
}

/// The stock materials: none. A caller supplies its own.
pub fn get_materials() -> (r: Vec<Material>)
    ensures
        r@.len() == 0,
{
    Vec::new()
}

/// The stock motors: none. A caller supplies its own.
pub fn get_motors() -> (r: Vec<Motor>)
    ensures
        r@.len() == 0,
{
    Vec::new()
}

/// The stock suspensions: none. A caller supplies its own.
pub fn get_suspensions() -> (r: Vec<Suspension>)
    ensures
        r@.len() == 0,
{
    Vec::new()
}

/// The stock catalogs together. Three of them are empty, so no car can be
/// built from them before a caller has filled those in.
pub fn stock_catalogs() -> (r: Catalogs)
    ensures
        r.tires@.len() == 7,
        forall|i: int| 0 <= i < 7 ==> r.tires@[i] == stock_tire(i),
        r.brakes@.len() == 34,
        forall|i: int| 0 <= i < 34 ==> r.brakes@[i] == stock_brake(i),
        r.motors@.len() == 0,
        r.materials@.len() == 0,
        r.suspensions@.len() == 0,
{
    Catalogs {
        tires: get_tires(),
        brakes: get_brakes(),
        motors: get_motors(),
        materials: get_materials(),
        suspensions: get_suspensions(),
    }
}

} // verus!
