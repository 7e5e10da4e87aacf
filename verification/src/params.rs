//! The override policy for the simulation's shield parameters. While the
//! shield is to be kept from decaying, the engine answers the simulation's
//! queries for the decay, recovery and damage parameters itself.

use vstd::prelude::*;
use crate::codes::SimCodes;
use crate::timing::{
    handle_oos_offset, should_pause_shield_decay, Menu, Sensors, ShieldContext, ShieldMode,
};

verus! {

/// The value that replaces the shield's decay per frame.
pub const SHIELD_DECAY_OVERRIDE: u32 = 0;

/// The value that replaces the shield's recovery per frame.
pub const SHIELD_RECOVERY_OVERRIDE: u32 = 999;

/// The value that replaces the multiplier of damage dealt to the shield. The
/// simulation has not been seen to look this parameter up; it is answered all
/// the same.
pub const SHIELD_DAMAGE_MUL_OVERRIDE: u32 = 0;

/// Overrides are in force in infinite mode, and in any mode until the shield
/// has survived a hit.
pub open spec fn overrides_active(ctx: ShieldContext, menu: Menu) -> bool {
    menu.shield_mode is Infinite || !ctx.decay_enabled
}

/// The value that stands in for the parameter asked for, in whole units, or
/// `None` for a parameter that the engine leaves alone. Only the common
/// category holds known parameters; where two of them share a hash the decay
/// goes before the recovery and the recovery before the damage multiplier.
pub open spec fn known_override(codes: SimCodes, param_type: u64, param_hash: u64) -> Option<u32> {
    if param_type != codes.common {
        None
    } else if param_hash == codes.shield_dec1 {
        Some(SHIELD_DECAY_OVERRIDE)
    } else if param_hash == codes.shield_recovery1 {
        Some(SHIELD_RECOVERY_OVERRIDE)
    } else if param_hash == codes.shield_damage_mul {
        Some(SHIELD_DAMAGE_MUL_OVERRIDE)
    } else {
        None
    }
}

impl ShieldContext {
    /// The state after a parameter query: while the menu asks for any
    /// shielding, the dummy's shieldstun is looked at; nothing else moves.
    pub open spec fn after_param_query(self, menu: Menu, sensors: Sensors) -> ShieldContext {
        if sensors.targeted() && !(menu.shield_mode is Off) {
            self.after_shieldstun_check(sensors.in_shieldstun)
        } else {
            self
        }
    }
}

/// The parameter hook. Returns the value to hand the simulation in place of
/// its own, in whole units, or `None` to let the simulation's value stand.
pub fn get_param_float(
    ctx: &mut ShieldContext,
    menu: &Menu,
    sensors: &Sensors,
    codes: &SimCodes,
    param_type: u64,
    param_hash: u64,
) -> (r: Option<u32>)
    ensures
        *final(ctx) == old(ctx).after_param_query(*menu, *sensors),
        r == if sensors.targeted() && overrides_active(*old(ctx), *menu) {
            known_override(*codes, param_type, param_hash)
        } else {
            None
        },
        r is Some <==> {
            &&& sensors.training_mode
            &&& sensors.cpu
            &&& menu.shield_mode is Infinite || !old(ctx).decay_enabled
            &&& param_type == codes.common
            &&& codes.shield_param(param_hash)
        },
{
    if !sensors.training_mode {
        return None;
    }
    if !sensors.cpu {
        return None;
    }
    let infinite = match menu.shield_mode {
        ShieldMode::Off => false,
        ShieldMode::Hold => {
            handle_oos_offset(ctx, sensors.in_shieldstun);
            false
        },
        ShieldMode::Infinite => {
            handle_oos_offset(ctx, sensors.in_shieldstun);
            true
        },
    };
    if infinite || should_pause_shield_decay(ctx) {
        if param_type != codes.common {
            return None;
        }
        if param_hash == codes.shield_dec1 {
            return Some(SHIELD_DECAY_OVERRIDE);
        }
        if param_hash == codes.shield_recovery1 {
            return Some(SHIELD_RECOVERY_OVERRIDE);
        }
        if param_hash == codes.shield_damage_mul {
            return Some(SHIELD_DAMAGE_MUL_OVERRIDE);
        }
    }
    None
}

} // verus!
