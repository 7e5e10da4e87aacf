//! Per-frame decision engine for the shield of a computer-controlled training
//! dummy: when out-of-shield options become eligible, which simulation
//! parameters are overridden, which escape option is taken and whether the
//! shield buttons are reported as held.
//!
//! The engine owns its state in a [`ShieldContext`] and is driven by plain
//! values: the host reads the simulation, hands the readings in and carries
//! out what comes back.

pub mod action;
pub mod codes;
pub mod guard;
pub mod hold;
pub mod laws;
pub mod params;
pub mod timing;

pub use action::{
    handle_escape_option, is_aerial, need_suspend_shield, needs_oos_handling_drop_shield, Action,
    Escape,
};
pub use codes::SimCodes;
pub use guard::{handle_sub_guard_cont, GuardAction, GuardEvent};
pub use hold::{
    check_button_off, check_button_on, should_hold_shield, should_return_none_in_check_button,
};
pub use params::{
    get_param_float, SHIELD_DAMAGE_MUL_OVERRIDE, SHIELD_DECAY_OVERRIDE, SHIELD_RECOVERY_OVERRIDE,
};
pub use timing::{
    allow_oos, get_command_flag_cat, handle_oos_offset, init, reset_oos_offset, set_shield_decay,
    shield_is_suspended, should_pause_shield_decay, suspend_shield, was_in_shieldstun, GuardPhase,
    Menu, Sensors, ShieldContext, ShieldMode,
};
