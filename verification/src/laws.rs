//! What holds of the engine over whole runs of hook calls, proved from the
//! transition functions that the hooks' contracts are stated over.

use vstd::prelude::*;
use crate::action::{escape_option, Action};
use crate::codes::SimCodes;
use crate::guard::{GuardAction, GuardEvent};
use crate::timing::{GuardPhase, Menu, Sensors, ShieldContext};

verus! {

/// The number of shieldstun entries in a run of looks at the dummy, each
/// `true` where the look found shieldstun: the looks that find shieldstun
/// where the one before did not. `edge` stands for the look before the first.
pub open spec fn shieldstun_entries(edge: bool, looks: Seq<bool>) -> nat
    decreases looks.len(),
{
    if looks.len() == 0 {
        0
    } else {
        let entered: nat = if looks[0] && !edge { 1 } else { 0 };
        entered + shieldstun_entries(looks[0], looks.drop_first())
    }
}

/// The state after a run of looks at whether the dummy is in shieldstun.
pub open spec fn after_shieldstun_checks(ctx: ShieldContext, looks: Seq<bool>) -> ShieldContext
    decreases looks.len(),
{
    if looks.len() == 0 {
        ctx
    } else {
        after_shieldstun_checks(ctx.after_shieldstun_check(looks[0]), looks.drop_first())
    }
}

/// A countdown after `entries` shieldstun entries: one less for each, and
/// never below zero.
pub open spec fn drained(countdown: u64, entries: nat) -> u64 {
    if countdown >= entries {
        (countdown - entries) as u64
    } else {
        0
    }
}

/// Over any run of looks the countdown drops by exactly one for each
/// shieldstun entry, stops at zero, and nothing else but the latch moves: the
/// latch ends as the last look found the dummy.
pub proof fn lemma_countdown_drops_once_per_entry(ctx: ShieldContext, looks: Seq<bool>)
    ensures
        after_shieldstun_checks(ctx, looks) == (ShieldContext {
            offset_counter: drained(ctx.offset_counter, shieldstun_entries(ctx.shieldstun_edge, looks)),
            shieldstun_edge: if looks.len() == 0 {
                ctx.shieldstun_edge
            } else {
                looks.last()
            },
            ..ctx
        }),
    decreases looks.len(),
{
    if looks.len() > 0 {
        let next = ctx.after_shieldstun_check(looks[0]);
        let rest = looks.drop_first();
        lemma_countdown_drops_once_per_entry(next, rest);
        if rest.len() > 0 {
            assert(rest.last() == looks.last());
        }
    }
}

/// After a reset of the countdown, out-of-shield options are allowed exactly
/// from the shieldstun entry that is one past the configured offset.
pub proof fn lemma_oos_allowed_after_offset_entries(
    ctx: ShieldContext,
    menu: Menu,
    looks: Seq<bool>,
)
    ensures
        after_shieldstun_checks(ctx.with_offset_reset(menu.oos_offset), looks).oos_allowed()
            <==> shieldstun_entries(ctx.shieldstun_edge, looks) >= menu.oos_offset + 1,
{
    lemma_countdown_drops_once_per_entry(ctx.with_offset_reset(menu.oos_offset), looks);
}

/// A countdown that has run out stays at zero through parameter queries,
/// guard-continue steps and status updates, until a status update finds the
/// dummy idle or in hitstun.
pub proof fn lemma_countdown_stays_at_zero(
    ctx: ShieldContext,
    menu: Menu,
    codes: SimCodes,
    sensors: Sensors,
    event: GuardEvent,
    looks: Seq<bool>,
)
    requires
        ctx.oos_allowed(),
    ensures
        after_shieldstun_checks(ctx, looks).oos_allowed(),
        ctx.after_param_query(menu, sensors).oos_allowed(),
        ctx.guard_step(menu, codes, event).0.oos_allowed(),
        !(sensors.targeted() && (sensors.idle || sensors.in_hitstun))
            ==> ctx.after_status_update(menu, codes, sensors).oos_allowed(),
{
    lemma_countdown_drops_once_per_entry(ctx, looks);
}

/// A status update that finds the dummy idle or in hitstun sets the countdown
/// to one more than the configured offset, whatever it was.
pub proof fn lemma_reset_ignores_prior_countdown(
    ctx: ShieldContext,
    menu: Menu,
    codes: SimCodes,
    sensors: Sensors,
)
    requires
        sensors.targeted(),
        sensors.idle || sensors.in_hitstun,
    ensures
        ctx.after_status_update(menu, codes, sensors).offset_counter == menu.oos_offset + 1,
        !ctx.after_status_update(menu, codes, sensors).oos_allowed(),
{
}

/// Repeating a hook within a frame, on the same readings, changes nothing
/// more: the shieldstun check, the parameter query and the status update are
/// idempotent.
pub proof fn lemma_hooks_idempotent(
    ctx: ShieldContext,
    menu: Menu,
    codes: SimCodes,
    sensors: Sensors,
)
    ensures
        ctx.after_shieldstun_check(sensors.in_shieldstun).after_shieldstun_check(
            sensors.in_shieldstun,
        ) == ctx.after_shieldstun_check(sensors.in_shieldstun),
        ctx.after_param_query(menu, sensors).after_param_query(menu, sensors)
            == ctx.after_param_query(menu, sensors),
        ctx.after_status_update(menu, codes, sensors).after_status_update(menu, codes, sensors)
            == ctx.after_status_update(menu, codes, sensors),
{
}

/// The event arms decay: the simulation has reached its shield-continuation
/// logic for the dummy of a training session just out of shieldstun.
pub open spec fn arms_decay(codes: SimCodes, event: GuardEvent) -> bool {
    event matches GuardEvent::Enter(seen) && seen.targeted() && seen.left_shieldstun(codes)
}

/// Decay is switched on by nothing but a guard-continue evaluation that finds
/// the dummy of a training session just out of shieldstun; a status update
/// off the shield-holding status switches it off; a parameter query leaves it
/// as it is.
pub proof fn lemma_decay_armed_only_by_guard_continue(
    ctx: ShieldContext,
    menu: Menu,
    codes: SimCodes,
    sensors: Sensors,
    event: GuardEvent,
)
    ensures
        ctx.guard_step(menu, codes, event).0.decay_enabled <==> ctx.decay_enabled || arms_decay(
            codes,
            event,
        ),
        ctx.after_param_query(menu, sensors).decay_enabled == ctx.decay_enabled,
        ctx.after_status_update(menu, codes, sensors).decay_enabled ==> ctx.decay_enabled,
        sensors.targeted() && !sensors.guarding(codes) ==> !ctx.after_status_update(
            menu,
            codes,
            sensors,
        ).decay_enabled,
{
}

/// The mash buffer is asked for an action only in an evaluation that found
/// the dummy of a training session just out of shieldstun and still
/// shielding, with the countdown run out, and only after the frame counter
/// said that the reaction time has passed.
pub proof fn lemma_buffer_consumed_only_when_eligible(
    ctx: ShieldContext,
    menu: Menu,
    codes: SimCodes,
    sensors: Sensors,
    elapsed: bool,
)
    ensures
        ({
            let (asked, first) = ctx.guard_step(menu, codes, GuardEvent::Enter(sensors));
            let (chosen, second) = asked.guard_step(menu, codes, GuardEvent::Reaction { elapsed });
            second == GuardAction::ConsumeBuffer <==> {
                &&& sensors.targeted()
                &&& sensors.left_shieldstun(codes)
                &&& sensors.shielding
                &&& ctx.oos_allowed()
                &&& elapsed
            }
        }),
{
}

/// An escape option that is committed to ends the evaluation: the transition
/// is all that comes of it, the suspension of the shield is not touched, and
/// an answer that comes after it is turned away.
pub proof fn lemma_escape_ends_evaluation(
    ctx: ShieldContext,
    menu: Menu,
    codes: SimCodes,
    chosen: Action,
    buffered: Action,
    late: GuardEvent,
)
    requires
        ctx.phase is AwaitingBuffer,
        escape_option(buffered, true) is Some,
        !(late is Enter),
    ensures
        ({
            let event = GuardEvent::Buffered { chosen, buffered, escape_enabled: true };
            let (after, action) = ctx.guard_step(menu, codes, event);
            &&& action == GuardAction::Transition(escape_option(buffered, true)->0)
            &&& after == ctx.with_phase(GuardPhase::Idle)
            &&& after.guard_step(menu, codes, late) == (after, GuardAction::Done)
        }),
{
}

} // verus!
