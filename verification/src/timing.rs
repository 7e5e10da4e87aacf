//! The timing state of the shield engine and the rules that move it: the
//! countdown of shieldstun entries before an out-of-shield option is allowed,
//! the latch that tells one entry from the frames that follow it, and the
//! flags for shield decay and shield suspension.

use vstd::prelude::*;
use crate::action::{need_suspend_shield, suspends_shield, Action};
use crate::codes::SimCodes;

verus! {

/// How the menu asks the dummy to shield.
#[derive(Clone, Copy, Debug, PartialEq, Eq, Structural)]
pub enum ShieldMode {
    /// The dummy shields only when the mash buffer asks for it.
    Off,
    /// The dummy holds shield; the shield decays once it has been hit.
    Hold,
    /// The dummy holds shield and the shield never decays.
    Infinite,
}

/// The menu settings that the engine reads.
#[derive(Clone, Copy, Debug, PartialEq, Eq, Structural)]
pub struct Menu {
    /// How many hits the shield takes before an out-of-shield option is picked.
    pub oos_offset: u32,
    pub shield_mode: ShieldMode,
    /// How many frames pass after shieldstun before the dummy reacts.
    pub reaction_time: u32,
}

/// What the host has read off the simulation for the fighter a hook is about.
#[derive(Clone, Copy, Debug, PartialEq, Eq, Structural)]
pub struct Sensors {
    pub training_mode: bool,
    /// The fighter is the computer-controlled dummy.
    pub cpu: bool,
    pub idle: bool,
    pub in_hitstun: bool,
    pub in_shieldstun: bool,
    /// The fighter is in any of the shield statuses.
    pub shielding: bool,
    /// The current status.
    pub status_kind: i32,
    /// The status just before the current one.
    pub prev_status_kind: i32,
}

/// Where a guard-continue evaluation stands between two answers of the host.
#[derive(Clone, Copy, Debug, PartialEq, Eq, Structural)]
pub enum GuardPhase {
    /// No evaluation is under way.
    Idle,
    /// The frame counter has been asked whether the reaction time is over.
    AwaitingReaction,
    /// The mash buffer has been asked for the next action.
    AwaitingBuffer,
}

/// The state of the engine. One value lives as long as the process and is
/// handed to every hook.
#[derive(Clone, Copy, Debug, PartialEq, Eq, Structural)]
pub struct ShieldContext {
    /// Shieldstun entries still to come before an out-of-shield option is allowed.
    pub offset_counter: u64,
    /// Shieldstun was already seen at the last parameter query.
    pub shieldstun_edge: bool,
    /// The shield has survived a hit and decays again.
    pub decay_enabled: bool,
    /// The shield buttons are to be left alone so that the chosen action comes out.
    pub suspend_shield: bool,
    /// The frame counter that times the reaction delay.
    pub reaction_counter: usize,
    pub phase: GuardPhase,
}

impl Sensors {
    /// The hook is about the dummy of a training session; the engine has no
    /// opinion on anything else.
    pub open spec fn targeted(self) -> bool {
        self.training_mode && self.cpu
    }

    /// The fighter is in the status of holding its shield up.
    pub open spec fn guarding(self, codes: SimCodes) -> bool {
        self.status_kind == codes.status_guard
    }

    /// The fighter has just come out of shieldstun.
    pub open spec fn left_shieldstun(self, codes: SimCodes) -> bool {
        self.prev_status_kind == codes.status_guard_damage
    }
}

impl ShieldContext {
    /// The state with the countdown set anew: one more than the configured
    /// offset, because the countdown drops as soon as the shield is hit while
    /// eligibility is looked at only afterwards.
    pub open spec fn with_offset_reset(self, oos_offset: u32) -> ShieldContext {
        ShieldContext { offset_counter: (oos_offset + 1) as u64, ..self }
    }

    /// The state after one look at whether the dummy is in shieldstun. The
    /// countdown drops by one, and not below zero, on the first look that finds
    /// shieldstun after one that did not.
    pub open spec fn after_shieldstun_check(self, in_shieldstun: bool) -> ShieldContext {
        if !in_shieldstun {
            ShieldContext { shieldstun_edge: false, ..self }
        } else if self.shieldstun_edge {
            self
        } else {
            ShieldContext {
                offset_counter: if self.offset_counter > 0 {
                    (self.offset_counter - 1) as u64
                } else {
                    0
                },
                shieldstun_edge: true,
                ..self
            }
        }
    }

    /// The state after a status update: untouched for anyone but the dummy of a
    /// training session; else the countdown is set anew when the dummy stands
    /// idle or is in hitstun, and decay is switched off when the status is not
    /// the shield-holding one.
    pub open spec fn after_status_update(
        self,
        menu: Menu,
        codes: SimCodes,
        sensors: Sensors,
    ) -> ShieldContext {
        if !sensors.targeted() {
            self
        } else {
            ShieldContext {
                offset_counter: if sensors.idle || sensors.in_hitstun {
                    (menu.oos_offset + 1) as u64
                } else {
                    self.offset_counter
                },
                decay_enabled: self.decay_enabled && sensors.guarding(codes),
                ..self
            }
        }
    }

    /// Out-of-shield options are allowed once the countdown has run out.
    pub open spec fn oos_allowed(self) -> bool {
        self.offset_counter == 0
    }
}

/// The state at start-up, for the frame counter that the host has registered
/// for the reaction delay. No shieldstun has been seen, so the countdown
/// stands where a reset puts it.
pub fn init(reaction_counter: usize, menu: &Menu) -> (ctx: ShieldContext)
    ensures
        ctx == (ShieldContext {
            offset_counter: (menu.oos_offset + 1) as u64,
            shieldstun_edge: false,
            decay_enabled: false,
            suspend_shield: false,
            reaction_counter,
            phase: GuardPhase::Idle,
        }),
{
    ShieldContext {
        offset_counter: menu.oos_offset as u64 + 1,
        shieldstun_edge: false,
        decay_enabled: false,
        suspend_shield: false,
        reaction_counter,
        phase: GuardPhase::Idle,
    }
}

/// Switches the shield's decay on or off.
pub fn set_shield_decay(ctx: &mut ShieldContext, value: bool)
    ensures
        *final(ctx) == (ShieldContext { decay_enabled: value, ..*old(ctx) }),
{
    ctx.decay_enabled = value;
}

/// While the shield has not survived a hit its decay is held off.
pub fn should_pause_shield_decay(ctx: &ShieldContext) -> (r: bool)
    ensures
        r == !ctx.decay_enabled,
{
    !ctx.decay_enabled
}

/// Sets the countdown anew from the menu's offset.
pub fn reset_oos_offset(ctx: &mut ShieldContext, menu: &Menu)
    ensures
        *final(ctx) == old(ctx).with_offset_reset(menu.oos_offset),
{
    ctx.offset_counter = menu.oos_offset as u64 + 1;
}

/// Counts a shieldstun entry, once per entry.
pub fn handle_oos_offset(ctx: &mut ShieldContext, in_shieldstun: bool)
    ensures
        *final(ctx) == old(ctx).after_shieldstun_check(in_shieldstun),
{
    if !in_shieldstun {
        // Re-arm for the next hit on shield.
        ctx.shieldstun_edge = false;
        return;
    }
    if ctx.shieldstun_edge {
        return;
    }
    if ctx.offset_counter > 0 {
        ctx.offset_counter -= 1;
    }
    ctx.shieldstun_edge = true;
}

/// Whether the dummy may pick an out-of-shield option.
pub fn allow_oos(ctx: &ShieldContext) -> (r: bool)
    ensures
        r == ctx.oos_allowed(),
{
    ctx.offset_counter == 0
}

/// The status hook: follows the dummy out of shieldstun and out of shield.
pub fn get_command_flag_cat(
    ctx: &mut ShieldContext,
    menu: &Menu,
    codes: &SimCodes,
    sensors: &Sensors,
)
    ensures
        *final(ctx) == old(ctx).after_status_update(*menu, *codes, *sensors),
{
    if !sensors.training_mode {
        return;
    }
    if !sensors.cpu {
        return;
    }
    if sensors.idle || sensors.in_hitstun {
        reset_oos_offset(ctx, menu);
    }
    if sensors.status_kind != codes.status_guard {
        set_shield_decay(ctx, false);
    }
}

/// Records whether the shield has to come down for `action`.
pub fn suspend_shield(ctx: &mut ShieldContext, action: Action)
    ensures
        *final(ctx) == (ShieldContext { suspend_shield: suspends_shield(action), ..*old(ctx) }),
{
    ctx.suspend_shield = need_suspend_shield(action);
}

/// Whether the status before the current one was shieldstun.
pub fn was_in_shieldstun(sensors: &Sensors, codes: &SimCodes) -> (r: bool)
    ensures
        r == sensors.left_shieldstun(*codes),
{
    sensors.prev_status_kind == codes.status_guard_damage
}

/// Whether the shield buttons are left alone for an action to come out.
pub fn shield_is_suspended(ctx: &ShieldContext) -> (r: bool)
    ensures
        r == ctx.suspend_shield,
{
    ctx.suspend_shield
}

} // verus!
