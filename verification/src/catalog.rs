//! Component catalogs: for each kind of component, the entries that a design
//! can pick by index.
//!
//! All properties are in SI units.

use vstd::prelude::*;
use crate::fixed::Fixed;

verus! {

/// A tire.
#[derive(Clone, Copy, Debug, PartialEq, Eq, Structural)]
pub struct Tire {
    pub radius: Fixed,
    pub mass: Fixed,
}

/// A brake caliper.
#[derive(Clone, Copy, Debug, PartialEq, Eq, Structural)]
pub struct Brake {
    pub density: Fixed,
    pub length: Fixed,
    pub height: Fixed,
    pub width: Fixed,
    pub thickness: Fixed,
    pub radius: Fixed,
}

/// A structural material.
#[derive(Clone, Copy, Debug, PartialEq, Eq, Structural)]
pub struct Material {
    pub density: Fixed,
    pub modulus: Fixed,
}

/// An engine.
#[derive(Clone, Copy, Debug, PartialEq, Eq, Structural)]
pub struct Motor {
    pub power: Fixed,
    pub length: Fixed,
    pub height: Fixed,
    pub torque: Fixed,
    pub mass: Fixed,
}

/// A suspension unit.
#[derive(Clone, Copy, Debug, PartialEq, Eq, Structural)]
pub struct Suspension {
    pub spring_constant: Fixed,
    pub damping_coefficient: Fixed,
    pub mass: Fixed,
}

/// The five catalogs that a design draws its components from. An index into
/// a catalog is a position in its vector.
#[derive(Clone, Debug)]
pub struct Catalogs {
    pub tires: Vec<Tire>,
    pub brakes: Vec<Brake>,
    pub motors: Vec<Motor>,
    pub materials: Vec<Material>,
    pub suspensions: Vec<Suspension>,
}

impl Catalogs {
    /// Whether some catalog has no entries.
    pub open spec fn any_empty(self) -> bool {
        ||| self.tires@.len() == 0
        ||| self.brakes@.len() == 0
        ||| self.motors@.len() == 0
        ||| self.materials@.len() == 0
        ||| self.suspensions@.len() == 0
    }

    /// Whether some catalog has no entries.
    pub fn has_empty(&self) -> (r: bool)
        ensures
            r == self.any_empty(),
    {
        self.tires.len() == 0 || self.brakes.len() == 0 || self.motors.len() == 0
            || self.materials.len() == 0 || self.suspensions.len() == 0
    }
}

} // verus!
