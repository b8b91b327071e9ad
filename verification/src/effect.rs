//! Effect summaries: the per-action description of an item card's magnitudes,
//! produced from static card data and never from mutable state. An item card
//! either eliminates a target (with a fixed fallback damage when the primary
//! effect is nullified) or converts a unit's current health into field energy.

use vstd::prelude::*;

verus! {

/// Transient, per-action description of an item card's required and produced
/// magnitudes: the fixed damage applied when elimination is nullified, and
/// the divisor of the health-to-field-energy conversion formula.
#[derive(Clone, Copy, PartialEq, Eq, Structural, Debug)]
pub struct EffectSummary {
    pub alternatives_damage: i32,
    pub field_energy_divisor: i32,
}

impl EffectSummary {
    /// A meaningful summary never deals negative fallback damage and never
    /// divides by zero.
    pub open spec fn wf(self) -> bool {
        &&& self.alternatives_damage >= 0
        &&& self.field_energy_divisor >= 1
    }

    /// The health-to-field-energy conversion formula.
    pub open spec fn spec_field_energy_increment(self, health: int) -> int {
        health / self.field_energy_divisor as int
    }

    pub fn new(alternatives_damage: i32, field_energy_divisor: i32) -> (summary: Self)
        requires
            alternatives_damage >= 0,
            field_energy_divisor >= 1,
        ensures
            summary.wf(),
            summary.alternatives_damage == alternatives_damage,
            summary.field_energy_divisor == field_energy_divisor,
    {
        EffectSummary { alternatives_damage, field_energy_divisor }
    }

    pub fn get_alternatives_damage(&self) -> (damage: i32)
        ensures
            damage == self.alternatives_damage,
    {
        self.alternatives_damage
    }

    /// Converts a unit's current health into the field-energy amount this
    /// card produces.
    pub fn calculation_of_field_energy_increment(&self, current_health_point: i32) -> (amount: i32)
        requires
            self.wf(),
            current_health_point >= 0,
        ensures
            amount == self.spec_field_energy_increment(current_health_point as int),
            amount >= 0,
    {
        let raw: u32 = (current_health_point as u32) / (self.field_energy_divisor as u32);
        proof {
            assert(raw == current_health_point as int / self.field_energy_divisor as int);
            assert(raw <= current_health_point as u32) by (nonlinear_arith)
                requires
                    raw == current_health_point as u32 / (self.field_energy_divisor as u32),
                    self.field_energy_divisor >= 1,
            ;
        }
        raw as i32
    }
}

} // verus!
