//! Buffered actions and the two classifications the shield engine needs of
//! them: which escape option an action stands for, and whether the shield has
//! to come down for it.

use vstd::prelude::*;

verus! {

/// The option that the mash buffer holds for the dummy to attempt next.
#[derive(Clone, Copy, Debug, PartialEq, Eq, Structural)]
pub enum Action {
    /// Nothing is buffered.
    Empty,
    AirDodge,
    Jump,
    Shield,
    SpotDodge,
    RollForward,
    RollBackward,
    Nair,
    Fair,
    Bair,
    Uair,
    Dair,
    NeutralB,
    SideB,
    UpB,
    DownB,
    FSmash,
    USmash,
    DSmash,
    Jab,
    FTilt,
    UTilt,
    DTilt,
    Grab,
    Dash,
    DashAttack,
}

/// The escape status that the dummy is moved to straight out of shield.
#[derive(Clone, Copy, Debug, PartialEq, Eq, Structural)]
pub enum Escape {
    /// Dodge in place.
    InPlace,
    /// Roll towards the facing direction.
    Forward,
    /// Roll away from the facing direction.
    Backward,
}

/// Whether `action` is one of the five aerial attacks.
pub open spec fn aerial(action: Action) -> bool {
    action is Nair || action is Fair || action is Bair || action is Uair || action is Dair
}

/// The escape option that `buffered` selects. Nothing is selected while the
/// simulation does not allow an escape to continue out of the current state,
/// nor for an action that is neither a spot dodge nor a roll.
pub open spec fn escape_option(buffered: Action, escape_enabled: bool) -> Option<Escape> {
    if !escape_enabled {
        None
    } else {
        match buffered {
            Action::SpotDodge => Some(Escape::InPlace),
            Action::RollForward => Some(Escape::Forward),
            Action::RollBackward => Some(Escape::Backward),
            _ => None,
        }
    }
}

/// Whether the shield has to be dropped for `action` to come out. With nothing
/// buffered there is nothing to free the shield for; an up smash, a grab and
/// shield itself work with the button held; everything else needs it released.
pub open spec fn suspends_shield(action: Action) -> bool {
    !(action is Empty || action is USmash || action is Grab || action is Shield)
}

/// Whether `action` comes out of shield only once the shield button has been
/// let go: a jump, an aerial, an up special or an up smash.
pub open spec fn drops_shield(action: Action) -> bool {
    action is Jump || aerial(action) || action is UpB || action is USmash
}

/// Whether `action` is an attack in the air.
pub fn is_aerial(action: Action) -> (r: bool)
    ensures
        r == aerial(action),
{
    match action {
        Action::Nair => true,
        Action::Fair => true,
        Action::Bair => true,
        Action::Uair => true,
        Action::Dair => true,
        _ => false,
    }
}

/// Picks the escape status for the buffered action, or declines with `None`.
/// Rolls and dodges do not come out of shield the way other options do: they
/// need a status change of their own, which the caller requests when this
/// returns `Some`.
pub fn handle_escape_option(buffered: Action, escape_enabled: bool) -> (r: Option<Escape>)
    ensures
        r == escape_option(buffered, escape_enabled),
{
    if !escape_enabled {
        return None;
    }
    match buffered {
        Action::SpotDodge => Some(Escape::InPlace),
        Action::RollForward => Some(Escape::Forward),
        Action::RollBackward => Some(Escape::Backward),
        _ => None,
    }
}

/// Whether `buffered` is an option that the simulation lets out of shield
/// only with the shield button let go.
pub fn needs_oos_handling_drop_shield(buffered: Action) -> (r: bool)
    ensures
        r == drops_shield(buffered),
{
    match buffered {
        Action::Jump => true,
        Action::UpB => true,
        Action::USmash => true,
        _ => is_aerial(buffered),
    }
}

/// Whether the shield has to be suspended for `action`.
pub fn need_suspend_shield(action: Action) -> (r: bool)
    ensures
        r == suspends_shield(action),
{
    match action {
        Action::Empty => false,
        Action::USmash => false,
        Action::Grab => false,
        Action::Shield => false,
        _ => true,
    }
}

} // verus!
