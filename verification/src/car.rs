//! The car: its parameters, what the catalogs say of the components it
//! picks, and the two ways to make one.
//!
//! A design is a vector of thirty-nine numbers in a fixed order. Slots 0 to
//! 18 are the bounded dimensions, slots 19 to 28 pick components from the
//! catalogs, and slots 29 to 38 are the dimensions and heights whose bounds
//! depend on the others. The order is that of the fields of
//! [`Car::spec_parameter_vector`]. Lengths are in meters, masses in kilograms,
//! pressures in pascals and angles in radians.

use vstd::prelude::*;
use crate::catalog::Catalogs;
use crate::error::CarError;
use crate::fixed::{quot, Fixed, SCALE};

verus! {

/// Length of a parameter vector.
pub const PARAMETER_COUNT: usize = 39;

/// A resolved design: the thirty-nine parameters, and beside them the
/// properties of the components that the index parameters pick.
#[derive(Clone, Debug, PartialEq, Eq, Structural)]
pub struct Car {
    pub rear_wing_material_index: usize,
    pub front_wing_material_index: usize,
    pub side_wing_material_index: usize,
    pub cabin_material_index: usize,
    pub impact_attenuator_material_index: usize,
    pub rear_tire_index: usize,
    pub front_tire_index: usize,
    pub brake_index: usize,
    pub motor_index: usize,
    pub suspension_index: usize,
    pub rear_wing_height: Fixed,
    pub rear_wing_length: Fixed,
    pub rear_wing_angle_of_attack: Fixed,
    pub front_wing_height: Fixed,
    pub front_wing_length: Fixed,
    pub front_wing_width: Fixed,
    pub front_wing_angle_of_attack: Fixed,
    pub side_wings_height: Fixed,
    pub side_wings_length: Fixed,
    pub side_wings_width: Fixed,
    pub side_wings_angle_of_attack: Fixed,
    pub rear_tire_pressure: Fixed,
    pub front_tire_pressure: Fixed,
    pub cabin_height: Fixed,
    pub cabin_length: Fixed,
    pub cabin_width: Fixed,
    pub cabin_thickness: Fixed,
    pub impact_attenuator_height: Fixed,
    pub impact_attenuator_width: Fixed,
    pub rear_wing_density: Fixed,
    pub front_wing_density: Fixed,
    pub side_wing_density: Fixed,
    pub cabin_density: Fixed,
    pub impact_attenuator_density: Fixed,
    pub impact_attenuator_modulus: Fixed,
    pub rear_tire_radius: Fixed,
    pub rear_tire_mass: Fixed,
    pub front_tire_radius: Fixed,
    pub front_tire_mass: Fixed,
    pub engine_power: Fixed,
    pub engine_length: Fixed,
    pub engine_height: Fixed,
    pub engine_torque: Fixed,
    pub engine_mass: Fixed,
    pub brake_radius: Fixed,
    pub brake_density: Fixed,
    pub brake_length: Fixed,
    pub brake_height: Fixed,
    pub brake_width: Fixed,
    pub brake_thickness: Fixed,
    pub rear_suspension_spring_constant: Fixed,
    pub rear_suspension_damping_coefficient: Fixed,
    pub rear_suspension_mass: Fixed,
    pub front_suspension_spring_constant: Fixed,
    pub front_suspension_damping_coefficient: Fixed,
    pub front_suspension_mass: Fixed,
    pub rear_wing_width: Fixed,
    pub rear_wing_y_position: Fixed,
    pub front_wing_y_position: Fixed,
    pub side_wing_y_position: Fixed,
    pub engine_y_position: Fixed,
    pub cabin_y_position: Fixed,
    pub impact_attenuator_length: Fixed,
    pub impact_attenuator_y_position: Fixed,
    pub rear_suspension_y_position: Fixed,
    pub front_suspension_y_position: Fixed,
}

/// The whole number that a slot holds: its value rounded toward zero.
pub open spec fn spec_index(v: Fixed) -> int {
    quot(v.raw as int, SCALE as int)
}

/// The index that a slot picks from a catalog of the given size.
pub open spec fn spec_decode_index(v: Fixed, size: int) -> Result<usize, CarError> {
    if size == 0 {
        Err(CarError::EmptyCatalog)
    } else if 0 <= spec_index(v) < size {
        Ok(spec_index(v) as usize)
    } else {
        Err(CarError::IndexOutOfRange)
    }
}

/// The index that a slot picks from a catalog of the given size: the slot's
/// value rounded toward zero. Fails with `EmptyCatalog` where the catalog has
/// no entries, and else with `IndexOutOfRange` where the index is negative or
/// not below the size.
pub fn decode_index(v: Fixed, size: usize) -> (r: Result<usize, CarError>)
    ensures
        r == spec_decode_index(v, size as int),
{
    if size == 0 {
        return Err(CarError::EmptyCatalog);
    }
    if v.raw <= -SCALE {
        assert(spec_index(v) < 0) by {
            lemma_whole_part(-(v.raw as int));
        }
        return Err(CarError::IndexOutOfRange);
    }
    if v.raw < 0 {
        assert(spec_index(v) == 0) by {
            lemma_whole_part(-(v.raw as int));
        }
        return Ok(0);
    }
    let whole: u128 = (v.raw as u128) / (SCALE as u128);
    if whole < size as u128 {
        Ok(whole as usize)
    } else {
        Err(CarError::IndexOutOfRange)
    }
}

proof fn lemma_whole_part(m: int)
    by (nonlinear_arith)
    requires
        0 <= m,
    ensures
        m < SCALE ==> m / (SCALE as int) == 0,
        m >= SCALE ==> m / (SCALE as int) >= 1,
{
}

proof fn lemma_whole_of_index(i: int)
    by (nonlinear_arith)
    requires
        0 <= i,
    ensures
        (i * SCALE) / (SCALE as int) == i,
        i * SCALE >= 0,
{
}

/// The number that stands for an index in a parameter vector.
pub fn encode_index(i: usize) -> (r: Fixed)
    ensures
        r.raw == i * SCALE,
        spec_index(r) == i,
{
    proof {
        lemma_whole_of_index(i as int);
        assert(i * SCALE <= usize::MAX * SCALE) by (nonlinear_arith)
            requires
                0 <= i <= usize::MAX,
        ;
    }
    Fixed { raw: (i as i128) * SCALE }
}

impl Car {
    /// Whether every index slot of the vector picks an entry of its catalog.
    pub open spec fn spec_indices_valid(p: Seq<Fixed>, c: Catalogs) -> bool {
        &&& 0 <= spec_index(p[19]) < c.materials@.len()
        &&& 0 <= spec_index(p[20]) < c.materials@.len()
        &&& 0 <= spec_index(p[21]) < c.materials@.len()
        &&& 0 <= spec_index(p[22]) < c.materials@.len()
        &&& 0 <= spec_index(p[23]) < c.materials@.len()
        &&& 0 <= spec_index(p[24]) < c.tires@.len()
        &&& 0 <= spec_index(p[25]) < c.tires@.len()
        &&& 0 <= spec_index(p[26]) < c.brakes@.len()
        &&& 0 <= spec_index(p[27]) < c.motors@.len()
        &&& 0 <= spec_index(p[28]) < c.suspensions@.len()
    }

    /// The car that a vector with valid indices stands for.
    pub open spec fn spec_resolve(p: Seq<Fixed>, c: Catalogs) -> Car {
        Car {
            rear_wing_material_index: spec_index(p[19]) as usize,
            front_wing_material_index: spec_index(p[20]) as usize,
            side_wing_material_index: spec_index(p[21]) as usize,
            cabin_material_index: spec_index(p[22]) as usize,
            impact_attenuator_material_index: spec_index(p[23]) as usize,
            rear_tire_index: spec_index(p[24]) as usize,
            front_tire_index: spec_index(p[25]) as usize,
            brake_index: spec_index(p[26]) as usize,
            motor_index: spec_index(p[27]) as usize,
            suspension_index: spec_index(p[28]) as usize,
            rear_wing_height: p[0],
            rear_wing_length: p[1],
            rear_wing_angle_of_attack: p[2],
            front_wing_height: p[3],
            front_wing_length: p[4],
            front_wing_width: p[5],
            front_wing_angle_of_attack: p[6],
            side_wings_height: p[7],
            side_wings_length: p[8],
            side_wings_width: p[9],
            side_wings_angle_of_attack: p[10],
            rear_tire_pressure: p[11],
            front_tire_pressure: p[12],
            cabin_height: p[13],
            cabin_length: p[14],
            cabin_width: p[15],
            cabin_thickness: p[16],
            impact_attenuator_height: p[17],
            impact_attenuator_width: p[18],
            rear_wing_density: c.materials@[spec_index(p[19])].density,
            front_wing_density: c.materials@[spec_index(p[20])].density,
            side_wing_density: c.materials@[spec_index(p[21])].density,
            cabin_density: c.materials@[spec_index(p[22])].density,
            impact_attenuator_density: c.materials@[spec_index(p[23])].density,
            impact_attenuator_modulus: c.materials@[spec_index(p[23])].modulus,
            rear_tire_radius: c.tires@[spec_index(p[24])].radius,
            rear_tire_mass: c.tires@[spec_index(p[24])].mass,
            front_tire_radius: c.tires@[spec_index(p[25])].radius,
            front_tire_mass: c.tires@[spec_index(p[25])].mass,
            engine_power: c.motors@[spec_index(p[27])].power,
            engine_length: c.motors@[spec_index(p[27])].length,
            engine_height: c.motors@[spec_index(p[27])].height,
            engine_torque: c.motors@[spec_index(p[27])].torque,
            engine_mass: c.motors@[spec_index(p[27])].mass,
            brake_radius: c.brakes@[spec_index(p[26])].radius,
            brake_density: c.brakes@[spec_index(p[26])].density,
            brake_length: c.brakes@[spec_index(p[26])].length,
            brake_height: c.brakes@[spec_index(p[26])].height,
            brake_width: c.brakes@[spec_index(p[26])].width,
            brake_thickness: c.brakes@[spec_index(p[26])].thickness,
            rear_suspension_spring_constant: c.suspensions@[spec_index(p[28])].spring_constant,
            rear_suspension_damping_coefficient: c.suspensions@[spec_index(p[28])].damping_coefficient,
            rear_suspension_mass: c.suspensions@[spec_index(p[28])].mass,
            front_suspension_spring_constant: c.suspensions@[spec_index(p[28])].spring_constant,
            front_suspension_damping_coefficient: c.suspensions@[spec_index(p[28])].damping_coefficient,
            front_suspension_mass: c.suspensions@[spec_index(p[28])].mass,
            rear_wing_width: p[29],
            rear_wing_y_position: p[30],
            front_wing_y_position: p[31],
            side_wing_y_position: p[32],
            engine_y_position: p[33],
            cabin_y_position: p[34],
            impact_attenuator_length: p[35],
            impact_attenuator_y_position: p[36],
            rear_suspension_y_position: p[37],
            front_suspension_y_position: p[38],
        }
    }

    /// What decoding a vector gives: `EmptyCatalog` where a catalog has no
    /// entries, else `IndexOutOfRange` where an index slot picks no entry, else
    /// the car that the vector stands for.
    pub open spec fn spec_new_from_parameters(p: Seq<Fixed>, c: Catalogs) -> Result<
        Car,
        CarError,
    > {
        if c.any_empty() {
            Err(CarError::EmptyCatalog)
        } else if !Self::spec_indices_valid(p, c) {
            Err(CarError::IndexOutOfRange)
        } else {
            Ok(Self::spec_resolve(p, c))
        }
    }

    /// The parameter vector of the car. The properties looked up in the
    /// catalogs are no parameters and are not in it.
    pub open spec fn spec_parameter_vector(self) -> Seq<Fixed> {
        seq![
            self.rear_wing_height,
            self.rear_wing_length,
            self.rear_wing_angle_of_attack,
            self.front_wing_height,
            self.front_wing_length,
            self.front_wing_width,
            self.front_wing_angle_of_attack,
            self.side_wings_height,
            self.side_wings_length,
            self.side_wings_width,
            self.side_wings_angle_of_attack,
            self.rear_tire_pressure,
            self.front_tire_pressure,
            self.cabin_height,
            self.cabin_length,
            self.cabin_width,
            self.cabin_thickness,
            self.impact_attenuator_height,
            self.impact_attenuator_width,
            Fixed { raw: (self.rear_wing_material_index * SCALE) as i128 },
            Fixed { raw: (self.front_wing_material_index * SCALE) as i128 },
            Fixed { raw: (self.side_wing_material_index * SCALE) as i128 },
            Fixed { raw: (self.cabin_material_index * SCALE) as i128 },
            Fixed { raw: (self.impact_attenuator_material_index * SCALE) as i128 },
            Fixed { raw: (self.rear_tire_index * SCALE) as i128 },
            Fixed { raw: (self.front_tire_index * SCALE) as i128 },
            Fixed { raw: (self.brake_index * SCALE) as i128 },
            Fixed { raw: (self.motor_index * SCALE) as i128 },
            Fixed { raw: (self.suspension_index * SCALE) as i128 },
            self.rear_wing_width,
            self.rear_wing_y_position,
            self.front_wing_y_position,
            self.side_wing_y_position,
            self.engine_y_position,
            self.cabin_y_position,
            self.impact_attenuator_length,
            self.impact_attenuator_y_position,
            self.rear_suspension_y_position,
            self.front_suspension_y_position,
        ]
    }

    /// Whether the properties of the car are those that its indices pick from
    /// the catalogs.
    pub open spec fn resolved_from(self, c: Catalogs) -> bool {
        &&& Self::spec_indices_valid(self.spec_parameter_vector(), c)
        &&& self == Self::spec_resolve(self.spec_parameter_vector(), c)
    }

    /// Decodes a parameter vector. Slots 19 to 28 are rounded toward zero and
    /// pick the components; every property of a component is looked up in the
    /// catalogs.
    pub fn new_from_parameters(p: &Vec<Fixed>, catalogs: &Catalogs) -> (r: Result<Car, CarError>)
        requires
            p@.len() == PARAMETER_COUNT,
        ensures
            r == Self::spec_new_from_parameters(p@, *catalogs),
    {
        if catalogs.has_empty() {
            return Err(CarError::EmptyCatalog);
        }
        let rear_wing_material_index = decode_index(p[19], catalogs.materials.len())?;
        let front_wing_material_index = decode_index(p[20], catalogs.materials.len())?;
        let side_wing_material_index = decode_index(p[21], catalogs.materials.len())?;
        let cabin_material_index = decode_index(p[22], catalogs.materials.len())?;
        let impact_attenuator_material_index = decode_index(p[23], catalogs.materials.len())?;
        let rear_tire_index = decode_index(p[24], catalogs.tires.len())?;
        let front_tire_index = decode_index(p[25], catalogs.tires.len())?;
        let brake_index = decode_index(p[26], catalogs.brakes.len())?;
        let motor_index = decode_index(p[27], catalogs.motors.len())?;
        let suspension_index = decode_index(p[28], catalogs.suspensions.len())?;
        let rear_wing_material = catalogs.materials[rear_wing_material_index];
        let front_wing_material = catalogs.materials[front_wing_material_index];
        let side_wing_material = catalogs.materials[side_wing_material_index];
        let cabin_material = catalogs.materials[cabin_material_index];
        let impact_attenuator_material = catalogs.materials[impact_attenuator_material_index];
        let rear_tire = catalogs.tires[rear_tire_index];
        let front_tire = catalogs.tires[front_tire_index];
        let brake = catalogs.brakes[brake_index];
        let motor = catalogs.motors[motor_index];
        let suspension = catalogs.suspensions[suspension_index];
        Ok(
            Car {
                rear_wing_material_index,
                front_wing_material_index,
                side_wing_material_index,
                cabin_material_index,
                impact_attenuator_material_index,
                rear_tire_index,
                front_tire_index,
                brake_index,
                motor_index,
                suspension_index,
                rear_wing_height: p[0],
                rear_wing_length: p[1],
                rear_wing_angle_of_attack: p[2],
                front_wing_height: p[3],
                front_wing_length: p[4],
                front_wing_width: p[5],
                front_wing_angle_of_attack: p[6],
                side_wings_height: p[7],
                side_wings_length: p[8],
                side_wings_width: p[9],
                side_wings_angle_of_attack: p[10],
                rear_tire_pressure: p[11],
                front_tire_pressure: p[12],
                cabin_height: p[13],
                cabin_length: p[14],
                cabin_width: p[15],
                cabin_thickness: p[16],
                impact_attenuator_height: p[17],
                impact_attenuator_width: p[18],
                rear_wing_density: rear_wing_material.density,
                front_wing_density: front_wing_material.density,
                side_wing_density: side_wing_material.density,
                cabin_density: cabin_material.density,
                impact_attenuator_density: impact_attenuator_material.density,
                impact_attenuator_modulus: impact_attenuator_material.modulus,
                rear_tire_radius: rear_tire.radius,
                rear_tire_mass: rear_tire.mass,
                front_tire_radius: front_tire.radius,
                front_tire_mass: front_tire.mass,
                engine_power: motor.power,
                engine_length: motor.length,
                engine_height: motor.height,
                engine_torque: motor.torque,
                engine_mass: motor.mass,
                brake_radius: brake.radius,
                brake_density: brake.density,
                brake_length: brake.length,
                brake_height: brake.height,
                brake_width: brake.width,
                brake_thickness: brake.thickness,
                rear_suspension_spring_constant: suspension.spring_constant,
                rear_suspension_damping_coefficient: suspension.damping_coefficient,
                rear_suspension_mass: suspension.mass,
                front_suspension_spring_constant: suspension.spring_constant,
                front_suspension_damping_coefficient: suspension.damping_coefficient,
                front_suspension_mass: suspension.mass,
                rear_wing_width: p[29],
                rear_wing_y_position: p[30],
                front_wing_y_position: p[31],
                side_wing_y_position: p[32],
                engine_y_position: p[33],
                cabin_y_position: p[34],
                impact_attenuator_length: p[35],
                impact_attenuator_y_position: p[36],
                rear_suspension_y_position: p[37],
                front_suspension_y_position: p[38],
            },
        )
    }

    /// The parameter vector of the car, in the order in which
    /// `new_from_parameters` reads it.
    pub fn get_parameter_vector(&self) -> (r: Vec<Fixed>)
        ensures
            r@ == self.spec_parameter_vector(),
    {
        let r = vec![
            self.rear_wing_height,
            self.rear_wing_length,
            self.rear_wing_angle_of_attack,
            self.front_wing_height,
            self.front_wing_length,
            self.front_wing_width,
            self.front_wing_angle_of_attack,
            self.side_wings_height,
            self.side_wings_length,
            self.side_wings_width,
            self.side_wings_angle_of_attack,
            self.rear_tire_pressure,
            self.front_tire_pressure,
            self.cabin_height,
            self.cabin_length,
            self.cabin_width,
            self.cabin_thickness,
            self.impact_attenuator_height,
            self.impact_attenuator_width,
            encode_index(self.rear_wing_material_index),
            encode_index(self.front_wing_material_index),
            encode_index(self.side_wing_material_index),
            encode_index(self.cabin_material_index),
            encode_index(self.impact_attenuator_material_index),
            encode_index(self.rear_tire_index),
            encode_index(self.front_tire_index),
            encode_index(self.brake_index),
            encode_index(self.motor_index),
            encode_index(self.suspension_index),
            self.rear_wing_width,
            self.rear_wing_y_position,
            self.front_wing_y_position,
            self.side_wing_y_position,
            self.engine_y_position,
            self.cabin_y_position,
            self.impact_attenuator_length,
            self.impact_attenuator_y_position,
            self.rear_suspension_y_position,
            self.front_suspension_y_position,
        ];
        assert(r@ =~= self.spec_parameter_vector());
        r
    }
}

/// Round trip. A car decoded from a vector is the car decoded from its own
/// parameter vector, so every field and every objective of the two agree.
/// The car's vector is the vector it was decoded from, but for the index
/// slots, which hold the whole numbers that the slots were rounded to.
pub proof fn lemma_round_trip(p: Seq<Fixed>, c: Catalogs)
    requires
        p.len() == PARAMETER_COUNT,
        Car::spec_new_from_parameters(p, c) is Ok,
    ensures
        ({
            let car = Car::spec_new_from_parameters(p, c)->Ok_0;
            let q = car.spec_parameter_vector();
            &&& q.len() == PARAMETER_COUNT
            &&& Car::spec_new_from_parameters(q, c) == Ok::<Car, CarError>(car)
            &&& car.resolved_from(c)
            &&& forall|slot: int| 0 <= slot < 19 || 29 <= slot < 39 ==> q[slot] == p[slot]
            &&& forall|slot: int|
                19 <= slot < 29 ==> (#[trigger] q[slot]).raw == spec_index(p[slot]) * SCALE
        }),
{
    let car = Car::spec_new_from_parameters(p, c)->Ok_0;
    lemma_vector_decodes(car);
    assert(c.materials.len() == c.materials@.len());
    assert(c.tires.len() == c.tires@.len());
    assert(c.brakes.len() == c.brakes@.len());
    assert(c.motors.len() == c.motors@.len());
    assert(c.suspensions.len() == c.suspensions@.len());
}

/// The index slots of a car's parameter vector hold its indices.
pub proof fn lemma_vector_decodes(car: Car)
    ensures
        ({
            let q = car.spec_parameter_vector();
            &&& q.len() == PARAMETER_COUNT
            &&& spec_index(q[19]) == car.rear_wing_material_index
            &&& spec_index(q[20]) == car.front_wing_material_index
            &&& spec_index(q[21]) == car.side_wing_material_index
            &&& spec_index(q[22]) == car.cabin_material_index
            &&& spec_index(q[23]) == car.impact_attenuator_material_index
            &&& spec_index(q[24]) == car.rear_tire_index
            &&& spec_index(q[25]) == car.front_tire_index
            &&& spec_index(q[26]) == car.brake_index
            &&& spec_index(q[27]) == car.motor_index
            &&& spec_index(q[28]) == car.suspension_index
        }),
{
    lemma_whole_of_index(car.rear_wing_material_index as int);
    lemma_whole_of_index(car.front_wing_material_index as int);
    lemma_whole_of_index(car.side_wing_material_index as int);
    lemma_whole_of_index(car.cabin_material_index as int);
    lemma_whole_of_index(car.impact_attenuator_material_index as int);
    lemma_whole_of_index(car.rear_tire_index as int);
    lemma_whole_of_index(car.front_tire_index as int);
    lemma_whole_of_index(car.brake_index as int);
    lemma_whole_of_index(car.motor_index as int);
    lemma_whole_of_index(car.suspension_index as int);
    lemma_index_fits(car.rear_wing_material_index);
    lemma_index_fits(car.front_wing_material_index);
    lemma_index_fits(car.side_wing_material_index);
    lemma_index_fits(car.cabin_material_index);
    lemma_index_fits(car.impact_attenuator_material_index);
    lemma_index_fits(car.rear_tire_index);
    lemma_index_fits(car.front_tire_index);
    lemma_index_fits(car.brake_index);
    lemma_index_fits(car.motor_index);
    lemma_index_fits(car.suspension_index);
}

proof fn lemma_index_fits(i: usize)
    by (nonlinear_arith)
    ensures
        0 <= i * SCALE <= i128::MAX,
{
}

/// The boundary of a catalog: the slot that holds the size of a catalog picks
/// no entry, and the slot that holds one less picks the last.
pub proof fn lemma_index_boundary(size: usize)
    requires
        size > 0,
    ensures
        spec_decode_index(Fixed { raw: (size * SCALE) as i128 }, size as int) == Err::<
            usize,
            CarError,
        >(CarError::IndexOutOfRange),
        spec_decode_index(Fixed { raw: ((size - 1) * SCALE) as i128 }, size as int) == Ok::<
            usize,
            CarError,
        >((size - 1) as usize),
{
    lemma_whole_of_index(size as int);
    lemma_whole_of_index(size - 1);
    lemma_index_fits(size);
    lemma_index_fits((size - 1) as usize);
}

} // verus!
