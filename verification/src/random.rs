//! Random designs.

use vstd::prelude::*;
use crate::car::{encode_index, lemma_round_trip, Car, PARAMETER_COUNT};
use crate::catalog::Catalogs;
use crate::constants::CONST_BOUNDS;
use crate::error::CarError;
use crate::fixed::{Fixed, SCALE};
use crate::utils::{counts_total, counts_valid, multinomial_draw, random_uniform, raw_counts};

verus! {

proof fn lemma_even_total(counts: Seq<i128>)
    requires
        forall|i: int| 0 <= i < counts.len() ==> counts[i] == SCALE,
    ensures
        counts_total(counts) == counts.len() * SCALE,
    decreases counts.len(),
{
    if counts.len() > 0 {
        lemma_even_total(counts.drop_last());
        assert(counts.len() * SCALE == (counts.len() - 1) * SCALE + SCALE) by (nonlinear_arith);
    }
}

/// An index into a catalog of the given size, each as likely as any other:
/// a weighted draw with the weight one for every entry. Fails with
/// `EmptyCatalog` where the size is zero.
pub fn draw_index(size: usize) -> (r: Result<usize, CarError>)
    ensures
        size == 0 ==> r == Err::<usize, CarError>(CarError::EmptyCatalog),
        size > 0 ==> (r matches Ok(i) && i < size),
{
    if size == 0 {
        return Err(CarError::EmptyCatalog);
    }
    let mut weights: Vec<Fixed> = Vec::new();
    let mut i: usize = 0;
    while i < size
        invariant
            i <= size,
            weights@.len() == i,
            forall|j: int| 0 <= j < i ==> weights@[j].raw == SCALE,
        decreases size - i,
    {
        weights.push(Fixed { raw: SCALE });
        i = i + 1;
    }
    proof {
        lemma_even_total(raw_counts(weights@));
        assert(0 < size * SCALE <= i128::MAX) by (nonlinear_arith)
            requires
                0 < size <= usize::MAX,
        ;
        assert(counts_valid(raw_counts(weights@)));
    }
    match multinomial_draw(&weights) {
        Ok(index) => Ok(index),
        Err(_) => Err(CarError::EmptyCatalog),
    }
}

/// Every fixed bound has its lower end below its upper end.
pub proof fn lemma_static_bounds_ordered()
    ensures
        forall|slot: int| 0 <= slot < 19 ==> CONST_BOUNDS[slot][0] < CONST_BOUNDS[slot][1],
{
    assert forall|slot: int| 0 <= slot < 19 implies CONST_BOUNDS[slot][0]
        < CONST_BOUNDS[slot][1] by {
        assert(CONST_BOUNDS[0int][0] < CONST_BOUNDS[0int][1]);
        assert(CONST_BOUNDS[1int][0] < CONST_BOUNDS[1int][1]);
        assert(CONST_BOUNDS[2int][0] < CONST_BOUNDS[2int][1]);
        assert(CONST_BOUNDS[3int][0] < CONST_BOUNDS[3int][1]);
        assert(CONST_BOUNDS[4int][0] < CONST_BOUNDS[4int][1]);
        assert(CONST_BOUNDS[5int][0] < CONST_BOUNDS[5int][1]);
        assert(CONST_BOUNDS[6int][0] < CONST_BOUNDS[6int][1]);
        assert(CONST_BOUNDS[7int][0] < CONST_BOUNDS[7int][1]);
        assert(CONST_BOUNDS[8int][0] < CONST_BOUNDS[8int][1]);
        assert(CONST_BOUNDS[9int][0] < CONST_BOUNDS[9int][1]);
        assert(CONST_BOUNDS[10int][0] < CONST_BOUNDS[10int][1]);
        assert(CONST_BOUNDS[11int][0] < CONST_BOUNDS[11int][1]);
        assert(CONST_BOUNDS[12int][0] < CONST_BOUNDS[12int][1]);
        assert(CONST_BOUNDS[13int][0] < CONST_BOUNDS[13int][1]);
        assert(CONST_BOUNDS[14int][0] < CONST_BOUNDS[14int][1]);
        assert(CONST_BOUNDS[15int][0] < CONST_BOUNDS[15int][1]);
        assert(CONST_BOUNDS[16int][0] < CONST_BOUNDS[16int][1]);
        assert(CONST_BOUNDS[17int][0] < CONST_BOUNDS[17int][1]);
        assert(CONST_BOUNDS[18int][0] < CONST_BOUNDS[18int][1]);
    }
}

/// A value for one of the nineteen bounded parameters, drawn within its
/// bound.
fn draw_static(slot: usize) -> (r: Result<Fixed, CarError>)
    requires
        slot < 19,
    ensures
        r matches Ok(v) && CONST_BOUNDS[slot as int][0] <= v.raw <= CONST_BOUNDS[slot as int][1],
{
    proof {
        lemma_static_bounds_ordered();
    }
    let row = CONST_BOUNDS[slot];
    random_uniform(Fixed { raw: row[0] }, Fixed { raw: row[1] })
}

impl Car {
    /// Whether the nineteen bounded parameters lie within their bounds.
    pub open spec fn within_static_bounds(self) -> bool {
        forall|slot: int|
            0 <= slot < 19 ==> CONST_BOUNDS[slot][0] <= (#[trigger] self.spec_parameter(slot)).raw
                <= CONST_BOUNDS[slot][1]
    }

    /// Whether the parameter at one of the slots 29 to 38 lies within its
    /// bound, both ends of which are defined.
    pub open spec fn within_dependent_bound(self, slot: int) -> bool {
        let bound = self.spec_dependent_bound(slot);
        &&& bound.low is Some
        &&& bound.high is Some
        &&& bound.low->0.raw <= self.spec_parameter(slot).raw <= bound.high->0.raw
    }

    /// Whether the parameters at the slots 29 to 38 lie within their bounds.
    pub open spec fn within_dependent_bounds(self) -> bool {
        forall|slot: int| 29 <= slot <= 38 ==> #[trigger] self.within_dependent_bound(slot)
    }

    /// A value for the parameter at one of the slots 29 to 38, drawn within
    /// the bound that the car gives it. Fails with `DegenerateBound` exactly
    /// where `dependent_range` does.
    fn draw_dependent(&self, slot: usize) -> (r: Result<Fixed, CarError>)
        requires
            29 <= slot <= 38,
        ensures
            match self.spec_dependent_range(slot as int) {
                Ok(range) => r matches Ok(v) && range.0.raw <= v.raw <= range.1.raw,
                Err(e) => r == Err::<Fixed, CarError>(e),
            },
    {
        match self.dependent_range(slot) {
            Ok((low, high)) => match random_uniform(low, high) {
                Ok(v) => Ok(v),
                Err(_) => Err(CarError::DegenerateBound),
            },
            Err(e) => Err(e),
        }
    }

    /// A random car. Each component is drawn from its catalog, every entry as
    /// likely as any other; each bounded parameter is drawn within its bound;
    /// and each of the other parameters is drawn within the bound that the
    /// values drawn before give it. Fails with `EmptyCatalog` where a catalog
    /// has no entries, and with `DegenerateBound` where one of those bounds is
    /// undefined or has its lower end above its upper end.
    pub fn new(catalogs: &Catalogs) -> (r: Result<Car, CarError>)
        ensures
            catalogs.any_empty() ==> r == Err::<Car, CarError>(CarError::EmptyCatalog),
            !catalogs.any_empty() && r is Err ==> r == Err::<Car, CarError>(
                CarError::DegenerateBound,
            ),
            r matches Ok(car) ==> car.resolved_from(*catalogs) && car.within_static_bounds()
                && car.within_dependent_bounds(),
    {
        if catalogs.has_empty() {
            return Err(CarError::EmptyCatalog);
        }
        let rear_tire_index = draw_index(catalogs.tires.len())?;
        let front_tire_index = draw_index(catalogs.tires.len())?;
        let brake_index = draw_index(catalogs.brakes.len())?;
        let motor_index = draw_index(catalogs.motors.len())?;
        let suspension_index = draw_index(catalogs.suspensions.len())?;
        let rear_wing_material_index = draw_index(catalogs.materials.len())?;
        let front_wing_material_index = draw_index(catalogs.materials.len())?;
        let side_wing_material_index = draw_index(catalogs.materials.len())?;
        let cabin_material_index = draw_index(catalogs.materials.len())?;
        let impact_attenuator_material_index = draw_index(catalogs.materials.len())?;
        let rear_wing_height = draw_static(0)?;
        let rear_wing_length = draw_static(1)?;
        let rear_wing_angle_of_attack = draw_static(2)?;
        let front_wing_height = draw_static(3)?;
        let front_wing_length = draw_static(4)?;
        let front_wing_width = draw_static(5)?;
        let front_wing_angle_of_attack = draw_static(6)?;
        let side_wings_height = draw_static(7)?;
        let side_wings_length = draw_static(8)?;
        let side_wings_width = draw_static(9)?;
        let side_wings_angle_of_attack = draw_static(10)?;
        let rear_tire_pressure = draw_static(11)?;
        let front_tire_pressure = draw_static(12)?;
        let cabin_height = draw_static(13)?;
        let cabin_length = draw_static(14)?;
        let cabin_width = draw_static(15)?;
        let cabin_thickness = draw_static(16)?;
        let impact_attenuator_height = draw_static(17)?;
        let impact_attenuator_width = draw_static(18)?;
        let unset = Fixed { raw: 0 };
        let bounded = vec![
            rear_wing_height,
            rear_wing_length,
            rear_wing_angle_of_attack,
            front_wing_height,
            front_wing_length,
            front_wing_width,
            front_wing_angle_of_attack,
            side_wings_height,
            side_wings_length,
            side_wings_width,
            side_wings_angle_of_attack,
            rear_tire_pressure,
            front_tire_pressure,
            cabin_height,
            cabin_length,
            cabin_width,
            cabin_thickness,
            impact_attenuator_height,
            impact_attenuator_width,
            encode_index(rear_wing_material_index),
            encode_index(front_wing_material_index),
            encode_index(side_wing_material_index),
            encode_index(cabin_material_index),
            encode_index(impact_attenuator_material_index),
            encode_index(rear_tire_index),
            encode_index(front_tire_index),
            encode_index(brake_index),
            encode_index(motor_index),
            encode_index(suspension_index),
            unset,
            unset,
            unset,
            unset,
            unset,
            unset,
            unset,
            unset,
            unset,
            unset,
        ];
        let base = Car::new_from_parameters(&bounded, catalogs)?;
        let rear_wing_width = base.draw_dependent(29)?;
        let rear_wing_y_position = base.draw_dependent(30)?;
        let front_wing_y_position = base.draw_dependent(31)?;
        let side_wing_y_position = base.draw_dependent(32)?;
        let engine_y_position = base.draw_dependent(33)?;
        let cabin_y_position = base.draw_dependent(34)?;
        let impact_attenuator_length = base.draw_dependent(35)?;
        let impact_attenuator_y_position = base.draw_dependent(36)?;
        let rear_suspension_y_position = base.draw_dependent(37)?;
        let front_suspension_y_position = base.draw_dependent(38)?;
        let p = vec![
            rear_wing_height,
            rear_wing_length,
            rear_wing_angle_of_attack,
            front_wing_height,
            front_wing_length,
            front_wing_width,
            front_wing_angle_of_attack,
            side_wings_height,
            side_wings_length,
            side_wings_width,
            side_wings_angle_of_attack,
            rear_tire_pressure,
            front_tire_pressure,
            cabin_height,
            cabin_length,
            cabin_width,
            cabin_thickness,
            impact_attenuator_height,
            impact_attenuator_width,
            encode_index(rear_wing_material_index),
            encode_index(front_wing_material_index),
            encode_index(side_wing_material_index),
            encode_index(cabin_material_index),
            encode_index(impact_attenuator_material_index),
            encode_index(rear_tire_index),
            encode_index(front_tire_index),
            encode_index(brake_index),
            encode_index(motor_index),
            encode_index(suspension_index),
            rear_wing_width,
            rear_wing_y_position,
            front_wing_y_position,
            side_wing_y_position,
            engine_y_position,
            cabin_y_position,
            impact_attenuator_length,
            impact_attenuator_y_position,
            rear_suspension_y_position,
            front_suspension_y_position,
        ];
        let car = Car::new_from_parameters(&p, catalogs)?;
        proof {
            lemma_round_trip(p@, *catalogs);
            assert forall|slot: int| 29 <= slot <= 38 implies #[trigger] car.within_dependent_bound(
                slot,
            ) by {
                assert(car.spec_dependent_bound(slot) == base.spec_dependent_bound(slot));
                assert(car.spec_parameter(slot) == p@[slot]);
            }
            assert forall|slot: int| 0 <= slot < 19 implies CONST_BOUNDS[slot][0] <= (
            #[trigger] car.spec_parameter(slot)).raw <= CONST_BOUNDS[slot][1] by {
                assert(car.spec_parameter(slot) == p@[slot]);
            }
        }
        Ok(car)
    }
}

} // verus!
