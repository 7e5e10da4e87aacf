//! The numbers under which the simulation knows what the engine speaks of.
//! The engine compares against them and never makes one up: the host looks
//! them up once and hands the table to every hook.

use vstd::prelude::*;

verus! {

#[derive(Clone, Copy, Debug, PartialEq, Eq, Structural)]
pub struct SimCodes {
    /// The hash of the parameter category `common`.
    pub common: u64,
    /// The hash of the parameter `shield_dec1`: the shield's decay.
    pub shield_dec1: u64,
    /// The hash of the parameter `shield_recovery1`: the shield's recovery.
    pub shield_recovery1: u64,
    /// The hash of the parameter `shield_damage_mul`: the multiplier of damage
    /// dealt to the shield.
    pub shield_damage_mul: u64,
    /// The button that holds the shield up.
    pub button_guard_hold: i32,
    /// The button that puts the shield up.
    pub button_guard: i32,
    /// The status of holding the shield up.
    pub status_guard: i32,
    /// The status of shieldstun.
    pub status_guard_damage: i32,
}

impl SimCodes {
    /// `button` is one of the two shield buttons.
    pub open spec fn guard_button(self, button: i32) -> bool {
        button == self.button_guard_hold || button == self.button_guard
    }

    /// `param_hash` names one of the three shield parameters.
    pub open spec fn shield_param(self, param_hash: u64) -> bool {
        param_hash == self.shield_dec1 || param_hash == self.shield_recovery1 || param_hash
            == self.shield_damage_mul
    }
}

} // verus!
