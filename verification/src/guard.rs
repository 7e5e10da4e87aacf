//! The guard-continue evaluation: once the dummy has sat through shieldstun,
//! decide whether and how it leaves its shield. The evaluation needs answers
//! that only the host can give (from the frame counter and the mash buffer),
//! so it runs as a small state machine: the host feeds an event in, carries
//! out the action that comes back, and feeds in the answer.

use vstd::prelude::*;
use crate::action::{escape_option, handle_escape_option, suspends_shield, Action, Escape};
use crate::codes::SimCodes;
use crate::timing::{
    allow_oos, set_shield_decay, suspend_shield, was_in_shieldstun, GuardPhase, Menu, Sensors,
    ShieldContext,
};

verus! {

/// What the host tells the evaluation.
#[derive(Clone, Copy, Debug, PartialEq, Eq, Structural)]
pub enum GuardEvent {
    /// The simulation has reached its shield-continuation logic.
    Enter(Sensors),
    /// The frame counter's answer: whether the reaction time has passed.
    Reaction { elapsed: bool },
    /// The mash buffer's answer: the action it has just chosen and buffered,
    /// the action that the buffer now holds, and whether the simulation lets
    /// an escape continue out of the dummy's current state.
    Buffered { chosen: Action, buffered: Action, escape_enabled: bool },
}

/// What the host is to do next.
#[derive(Clone, Copy, Debug, PartialEq, Eq, Structural)]
pub enum GuardAction {
    /// Nothing; the evaluation is over for this frame.
    Done,
    /// Reset the frame counter fully; the evaluation is over for this frame.
    ResetReaction { counter: usize },
    /// Ask the frame counter whether `frames` frames have passed since its
    /// reset, and answer with `GuardEvent::Reaction`.
    AskReaction { counter: usize, frames: u32 },
    /// Have the mash buffer choose the next action, and answer with
    /// `GuardEvent::Buffered`.
    ConsumeBuffer,
    /// Move the dummy to the escape status; the evaluation is over for this
    /// frame.
    Transition(Escape),
}

impl ShieldContext {
    pub open spec fn with_phase(self, phase: GuardPhase) -> ShieldContext {
        ShieldContext { phase, ..self }
    }

    /// The state and the action after the simulation has reached its
    /// shield-continuation logic. Only the dummy of a training session that
    /// has just left shieldstun is looked at. For it decay is armed; then,
    /// once the countdown has run out, the reaction delay is either started
    /// over (the dummy has lost its shield) or asked for.
    pub open spec fn after_enter(self, menu: Menu, codes: SimCodes, sensors: Sensors) -> (
        ShieldContext,
        GuardAction,
    ) {
        let idle = self.with_phase(GuardPhase::Idle);
        if !sensors.targeted() || !sensors.left_shieldstun(codes) {
            (idle, GuardAction::Done)
        } else {
            let armed = ShieldContext { decay_enabled: true, ..idle };
            if !armed.oos_allowed() {
                (armed, GuardAction::Done)
            } else if !sensors.shielding {
                (armed, GuardAction::ResetReaction { counter: self.reaction_counter })
            } else {
                (
                    armed.with_phase(GuardPhase::AwaitingReaction),
                    GuardAction::AskReaction {
                        counter: self.reaction_counter,
                        frames: menu.reaction_time,
                    },
                )
            }
        }
    }

    /// The state and the action after the mash buffer has chosen: an escape
    /// option is committed to and nothing else moves; failing that, the
    /// suspension of the shield is set from the chosen action.
    pub open spec fn after_choice(self, chosen: Action, buffered: Action, escape_enabled: bool) -> (
        ShieldContext,
        GuardAction,
    ) {
        let idle = self.with_phase(GuardPhase::Idle);
        match escape_option(buffered, escape_enabled) {
            Some(escape) => (idle, GuardAction::Transition(escape)),
            None => (
                ShieldContext { suspend_shield: suspends_shield(chosen), ..idle },
                GuardAction::Done,
            ),
        }
    }

    /// One step of the evaluation. An answer that was not asked for ends the
    /// evaluation and changes nothing else.
    pub open spec fn guard_step(self, menu: Menu, codes: SimCodes, event: GuardEvent) -> (
        ShieldContext,
        GuardAction,
    ) {
        match event {
            GuardEvent::Enter(sensors) => self.after_enter(menu, codes, sensors),
            GuardEvent::Reaction { elapsed } => {
                if self.phase is AwaitingReaction && elapsed {
                    (self.with_phase(GuardPhase::AwaitingBuffer), GuardAction::ConsumeBuffer)
                } else {
                    (self.with_phase(GuardPhase::Idle), GuardAction::Done)
                }
            },
            GuardEvent::Buffered { chosen, buffered, escape_enabled } => {
                if self.phase is AwaitingBuffer {
                    self.after_choice(chosen, buffered, escape_enabled)
                } else {
                    (self.with_phase(GuardPhase::Idle), GuardAction::Done)
                }
            },
        }
    }
}

fn mod_handle_sub_guard_cont(
    ctx: &mut ShieldContext,
    menu: &Menu,
    codes: &SimCodes,
    sensors: &Sensors,
) -> (action: GuardAction)
    ensures
        (*final(ctx), action) == old(ctx).after_enter(*menu, *codes, *sensors),
{
    ctx.phase = GuardPhase::Idle;
    if !sensors.training_mode || !sensors.cpu {
        return GuardAction::Done;
    }
    if !was_in_shieldstun(sensors, codes) {
        return GuardAction::Done;
    }
    set_shield_decay(ctx, true);
    if !allow_oos(ctx) {
        return GuardAction::Done;
    }
    if !sensors.shielding {
        return GuardAction::ResetReaction { counter: ctx.reaction_counter };
    }
    ctx.phase = GuardPhase::AwaitingReaction;
    GuardAction::AskReaction { counter: ctx.reaction_counter, frames: menu.reaction_time }
}

fn handle_choice(
    ctx: &mut ShieldContext,
    chosen: Action,
    buffered: Action,
    escape_enabled: bool,
) -> (action: GuardAction)
    ensures
        (*final(ctx), action) == old(ctx).after_choice(chosen, buffered, escape_enabled),
{
    ctx.phase = GuardPhase::Idle;
    match handle_escape_option(buffered, escape_enabled) {
        Some(escape) => GuardAction::Transition(escape),
        None => {
            suspend_shield(ctx, chosen);
            GuardAction::Done
        },
    }
}

/// The guard-continue hook, one step at a time. The host starts with
/// `GuardEvent::Enter` and goes on until the action that comes back ends the
/// evaluation; after that the simulation's own shield-continuation logic runs.
pub fn handle_sub_guard_cont(
    ctx: &mut ShieldContext,
    menu: &Menu,
    codes: &SimCodes,
    event: GuardEvent,
) -> (action: GuardAction)
    ensures
        (*final(ctx), action) == old(ctx).guard_step(*menu, *codes, event),
{
    match event {
        GuardEvent::Enter(sensors) => mod_handle_sub_guard_cont(ctx, menu, codes, &sensors),
        GuardEvent::Reaction { elapsed } => {
            let asked = match ctx.phase {
                GuardPhase::AwaitingReaction => true,
                _ => false,
            };
            if asked && elapsed {
                ctx.phase = GuardPhase::AwaitingBuffer;
                GuardAction::ConsumeBuffer
            } else {
                ctx.phase = GuardPhase::Idle;
                GuardAction::Done
            }
        },
        GuardEvent::Buffered { chosen, buffered, escape_enabled } => {
            match ctx.phase {
                GuardPhase::AwaitingBuffer => handle_choice(ctx, chosen, buffered, escape_enabled),
                _ => {
                    ctx.phase = GuardPhase::Idle;
                    GuardAction::Done
                },
            }
        },
    }
}

} // verus!
