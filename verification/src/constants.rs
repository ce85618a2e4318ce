//! Material constants of the Lindqvist model.
//!
//! The five physical constants are process-wide and immutable. They
//! are decimal values, held here exactly: densities and the bending
//! strength are integers in SI units, the gravitational acceleration
//! and the friction coefficient are integers in hundredths.

use crate::rational::Q;
use vstd::prelude::*;

verus! {

/// Gravitational acceleration, 9.81 m/s^2.
pub open spec fn q_gravity() -> Q {
    Q { n: 981, d: 100 }
}

/// Density of seawater, 1025 kg/m^3.
pub open spec fn q_water_density() -> Q {
    Q { n: 1025, d: 1 }
}

/// Density of ice, 920 kg/m^3.
pub open spec fn q_ice_density() -> Q {
    Q { n: 920, d: 1 }
}

/// Hull-ice friction coefficient, 0.3.
pub open spec fn q_friction() -> Q {
    Q { n: 3, d: 10 }
}

/// Ice bending strength, 500000 Pa.
pub open spec fn q_bending_strength() -> Q {
    Q { n: 500000, d: 1 }
}

/// Density difference between seawater and ice, 105 kg/m^3; the
/// buoyancy term of the submersion force is proportional to it.
pub open spec fn q_density_difference() -> Q {
    Q { n: 105, d: 1 }
}

/// The fixed material constants, as exact scaled integers: densities
/// and bending strength in SI units, gravity and friction in
/// hundredths.
pub struct MaterialConstants {
    /// Gravitational acceleration in cm/s^2 (9.81 m/s^2 times 100).
    pub gravity_centi: u32,
    /// Density of seawater in kg/m^3.
    pub water_density: u32,
    /// Density of ice in kg/m^3.
    pub ice_density: u32,
    /// Hull-ice friction coefficient in hundredths (0.3 times 100).
    pub friction_centi: u32,
    /// Ice bending strength in Pa.
    pub bending_strength: u32,
}

impl MaterialConstants {
    /// Seawater is denser than ice, so broken ice floats against the
    /// hull and the submersion term has a positive buoyancy factor.
    pub open spec fn wf(self) -> bool {
        self.water_density > self.ice_density
    }

    /// The standard constant set of the model.
    pub fn standard() -> (r: MaterialConstants)
        ensures
            r.gravity_centi == 981,
            r.water_density == 1025,
            r.ice_density == 920,
            r.friction_centi == 30,
            r.bending_strength == 500000,
            r.wf(),
            r.gravity_centi as int == q_gravity().n && q_gravity().d == 100,
            r.water_density as int == q_water_density().n,
            r.ice_density as int == q_ice_density().n,
            r.friction_centi as int == 10 * q_friction().n && q_friction().d == 10,
            r.bending_strength as int == q_bending_strength().n,
    {
        MaterialConstants {
            gravity_centi: 981,
            water_density: 1025,
            ice_density: 920,
            friction_centi: 30,
            bending_strength: 500000,
        }
    }

    /// Density difference between seawater and ice, in kg/m^3.
    pub fn density_difference(&self) -> (r: u32)
        requires
            self.wf(),
        ensures
            r == self.water_density - self.ice_density,
    {
        self.water_density - self.ice_density
    }
}

} // verus!
