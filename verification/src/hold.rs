//! The hold policy: what the engine reports when the simulation asks whether a
//! shield button is pressed or released.

use vstd::prelude::*;
use crate::codes::SimCodes;
use crate::timing::{shield_is_suspended, Menu, Sensors, ShieldContext, ShieldMode};

verus! {

/// The dummy is to hold shield when the mash buffer asks for shield, and
/// whenever the menu says hold or infinite.
pub open spec fn holds_shield(shield_requested: bool, mode: ShieldMode) -> bool {
    shield_requested || mode is Hold || mode is Infinite
}

/// A button query is in scope when it is about a shield button of the dummy of
/// a training session.
pub open spec fn in_scope(sensors: Sensors, codes: SimCodes, button: i32) -> bool {
    sensors.targeted() && codes.guard_button(button)
}

/// The engine forces the button to read as pressed: the query is in scope,
/// the dummy is to hold shield and the shield is not suspended.
pub open spec fn forces_press(
    ctx: ShieldContext,
    menu: Menu,
    sensors: Sensors,
    shield_requested: bool,
    codes: SimCodes,
    button: i32,
) -> bool {
    &&& in_scope(sensors, codes, button)
    &&& holds_shield(shield_requested, menu.shield_mode)
    &&& !ctx.suspend_shield
}

/// The engine forces the button to read as not released: the query is in
/// scope and the shield is not suspended.
pub open spec fn forces_no_release(
    ctx: ShieldContext,
    sensors: Sensors,
    codes: SimCodes,
    button: i32,
) -> bool {
    in_scope(sensors, codes, button) && !ctx.suspend_shield
}

/// Whether the dummy is to hold its shield up.
pub fn should_hold_shield(shield_requested: bool, menu: &Menu) -> (r: bool)
    ensures
        r == holds_shield(shield_requested, menu.shield_mode),
{
    if shield_requested {
        return true;
    }
    match menu.shield_mode {
        ShieldMode::Hold => true,
        ShieldMode::Infinite => true,
        ShieldMode::Off => false,
    }
}

fn is_guard_button(codes: &SimCodes, button: i32) -> (r: bool)
    ensures
        r == codes.guard_button(button),
{
    button == codes.button_guard_hold || button == codes.button_guard
}

/// Whether the engine keeps out of a query for a pressed button.
pub fn should_return_none_in_check_button(
    ctx: &ShieldContext,
    menu: &Menu,
    sensors: &Sensors,
    shield_requested: bool,
    codes: &SimCodes,
    button: i32,
) -> (r: bool)
    ensures
        r == !forces_press(*ctx, *menu, *sensors, shield_requested, *codes, button),
{
    if !sensors.training_mode {
        return true;
    }
    if !sensors.cpu {
        return true;
    }
    if !is_guard_button(codes, button) {
        return true;
    }
    if !should_hold_shield(shield_requested, menu) {
        return true;
    }
    if shield_is_suspended(ctx) {
        return true;
    }
    false
}

/// The query "is this button pressed". `Some(true)` puts the shield up;
/// `None` leaves the answer to the simulation. The engine never reports a
/// button as not pressed.
pub fn check_button_on(
    ctx: &ShieldContext,
    menu: &Menu,
    sensors: &Sensors,
    shield_requested: bool,
    codes: &SimCodes,
    button: i32,
) -> (r: Option<bool>)
    ensures
        r == if forces_press(*ctx, *menu, *sensors, shield_requested, *codes, button) {
            Some(true)
        } else {
            None
        },
{
    if should_return_none_in_check_button(ctx, menu, sensors, shield_requested, codes, button) {
        return None;
    }
    Some(true)
}

/// The query "is this button released". `Some(false)` keeps the shield from
/// dropping at once; `None` leaves the answer to the simulation, as it must
/// while the shield is suspended. The engine never reports a button as
/// released.
pub fn check_button_off(
    ctx: &ShieldContext,
    sensors: &Sensors,
    codes: &SimCodes,
    button: i32,
) -> (r: Option<bool>)
    ensures
        r == if forces_no_release(*ctx, *sensors, *codes, button) {
            Some(false)
        } else {
            None
        },
{
    if !sensors.training_mode {
        return None;
    }
    if !sensors.cpu {
        return None;
    }
    if !is_guard_button(codes, button) {
        return None;
    }
    if shield_is_suspended(ctx) {
        return None;
    }
    Some(false)
}

} // verus!
