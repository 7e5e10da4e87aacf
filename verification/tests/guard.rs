use shield_training::{
    check_button_off, check_button_on, handle_sub_guard_cont, init, Action, Escape, GuardAction,
    GuardEvent, GuardPhase, Menu, Sensors, ShieldContext, ShieldMode, SimCodes,
};

fn hold_menu() -> Menu {
    Menu { oos_offset: 0, shield_mode: ShieldMode::Hold, reaction_time: 12 }
}

fn codes() -> SimCodes {
    SimCodes {
        common: 0x6e5ec7051,
        shield_dec1: 0xb26da3abc,
        shield_recovery1: 0x10a4210796,
        shield_damage_mul: 0x11a8cf3b34,
        button_guard_hold: 6,
        button_guard: 3,
        status_guard: 28,
        status_guard_damage: 30,
    }
}

fn out_of_shieldstun() -> Sensors {
    Sensors {
        training_mode: true,
        cpu: true,
        idle: false,
        in_hitstun: false,
        in_shieldstun: false,
        shielding: true,
        status_kind: 28,
        prev_status_kind: 30,
    }
}

/// A context whose countdown has run out, with the frame counter 3.
fn eligible() -> ShieldContext {
    let mut ctx = init(3, &hold_menu());
    ctx.offset_counter = 0;
    ctx
}

/// A context that waits for the mash buffer's answer.
fn awaiting_buffer() -> ShieldContext {
    let menu = hold_menu();
    let mut ctx = eligible();
    assert_eq!(
        handle_sub_guard_cont(&mut ctx, &menu, &codes(), GuardEvent::Enter(out_of_shieldstun())),
        GuardAction::AskReaction { counter: 3, frames: 12 }
    );
    assert_eq!(
        handle_sub_guard_cont(&mut ctx, &menu, &codes(), GuardEvent::Reaction { elapsed: true }),
        GuardAction::ConsumeBuffer
    );
    assert_eq!(ctx.phase, GuardPhase::AwaitingBuffer);
    ctx
}

#[test]
fn enter_keeps_out_of_other_fighters_and_modes() {
    let menu = hold_menu();
    for seen in [
        Sensors { training_mode: false, ..out_of_shieldstun() },
        Sensors { cpu: false, ..out_of_shieldstun() },
    ] {
        let mut ctx = eligible();
        let before = ctx;
        assert_eq!(handle_sub_guard_cont(&mut ctx, &menu, &codes(), GuardEvent::Enter(seen)), GuardAction::Done);
        assert_eq!(ctx, before);
    }
}

#[test]
fn enter_without_shieldstun_before_does_not_arm_decay() {
    let menu = hold_menu();
    let mut ctx = eligible();
    let seen = Sensors { prev_status_kind: 28, ..out_of_shieldstun() };
    assert_eq!(handle_sub_guard_cont(&mut ctx, &menu, &codes(), GuardEvent::Enter(seen)), GuardAction::Done);
    assert!(!ctx.decay_enabled);
    assert_eq!(ctx.phase, GuardPhase::Idle);
}

#[test]
fn enter_arms_decay_and_waits_for_the_countdown() {
    let menu = Menu { oos_offset: 1, ..hold_menu() };
    let mut ctx = init(3, &menu);
    ctx.offset_counter = 1;
    assert_eq!(
        handle_sub_guard_cont(&mut ctx, &menu, &codes(), GuardEvent::Enter(out_of_shieldstun())),
        GuardAction::Done
    );
    assert!(ctx.decay_enabled);
    assert_eq!(ctx.offset_counter, 1);
    assert_eq!(ctx.phase, GuardPhase::Idle);
}

#[test]
fn enter_resets_the_reaction_when_the_shield_is_gone() {
    let menu = hold_menu();
    let mut ctx = eligible();
    let seen = Sensors { shielding: false, status_kind: 0, ..out_of_shieldstun() };
    assert_eq!(
        handle_sub_guard_cont(&mut ctx, &menu, &codes(), GuardEvent::Enter(seen)),
        GuardAction::ResetReaction { counter: 3 }
    );
    assert!(ctx.decay_enabled);
    assert_eq!(ctx.phase, GuardPhase::Idle);
}

#[test]
fn enter_asks_for_the_reaction_time() {
    let menu = hold_menu();
    let mut ctx = eligible();
    assert_eq!(
        handle_sub_guard_cont(&mut ctx, &menu, &codes(), GuardEvent::Enter(out_of_shieldstun())),
        GuardAction::AskReaction { counter: 3, frames: 12 }
    );
    assert!(ctx.decay_enabled);
    assert_eq!(ctx.phase, GuardPhase::AwaitingReaction);
}

#[test]
fn reaction_not_over_ends_the_evaluation() {
    let menu = hold_menu();
    let mut ctx = eligible();
    handle_sub_guard_cont(&mut ctx, &menu, &codes(), GuardEvent::Enter(out_of_shieldstun()));
    assert_eq!(
        handle_sub_guard_cont(&mut ctx, &menu, &codes(), GuardEvent::Reaction { elapsed: false }),
        GuardAction::Done
    );
    assert_eq!(ctx.phase, GuardPhase::Idle);
    assert!(!ctx.suspend_shield);
}

#[test]
fn answers_that_were_not_asked_for_are_turned_away() {
    let menu = hold_menu();
    let mut ctx = eligible();
    let before = ctx;
    assert_eq!(
        handle_sub_guard_cont(&mut ctx, &menu, &codes(), GuardEvent::Reaction { elapsed: true }),
        GuardAction::Done
    );
    assert_eq!(ctx, before);
    let choice = GuardEvent::Buffered {
        chosen: Action::Jump,
        buffered: Action::SpotDodge,
        escape_enabled: true,
    };
    assert_eq!(handle_sub_guard_cont(&mut ctx, &menu, &codes(), choice), GuardAction::Done);
    assert_eq!(ctx, before);
    // Nor does a choice pass for the frame counter's answer.
    handle_sub_guard_cont(&mut ctx, &menu, &codes(), GuardEvent::Enter(out_of_shieldstun()));
    assert_eq!(handle_sub_guard_cont(&mut ctx, &menu, &codes(), choice), GuardAction::Done);
    assert_eq!(ctx.phase, GuardPhase::Idle);
    assert!(!ctx.suspend_shield);
}

#[test]
fn escape_options_commit_to_their_transition() {
    let menu = hold_menu();
    for (buffered, escape) in [
        (Action::SpotDodge, Escape::InPlace),
        (Action::RollForward, Escape::Forward),
        (Action::RollBackward, Escape::Backward),
    ] {
        let mut ctx = awaiting_buffer();
        let event = GuardEvent::Buffered { chosen: buffered, buffered, escape_enabled: true };
        assert_eq!(handle_sub_guard_cont(&mut ctx, &menu, &codes(), event), GuardAction::Transition(escape));
        // Nothing runs after the transition: the suspension is as it was.
        assert!(!ctx.suspend_shield);
        assert_eq!(ctx.phase, GuardPhase::Idle);
    }
}

#[test]
fn escape_option_without_the_capability_suspends_instead() {
    let menu = hold_menu();
    let mut ctx = awaiting_buffer();
    let event = GuardEvent::Buffered {
        chosen: Action::RollForward,
        buffered: Action::RollForward,
        escape_enabled: false,
    };
    assert_eq!(handle_sub_guard_cont(&mut ctx, &menu, &codes(), event), GuardAction::Done);
    assert!(ctx.suspend_shield);
}

#[test]
fn suspension_is_set_from_the_chosen_action() {
    let menu = hold_menu();
    for (chosen, suspended) in [
        (Action::Empty, false),
        (Action::USmash, false),
        (Action::Grab, false),
        (Action::Shield, false),
        (Action::Jump, true),
        (Action::Fair, true),
        (Action::UpB, true),
        (Action::FTilt, true),
    ] {
        for was in [false, true] {
            let mut ctx = awaiting_buffer();
            ctx.suspend_shield = was;
            let event = GuardEvent::Buffered { chosen, buffered: chosen, escape_enabled: true };
            assert_eq!(handle_sub_guard_cont(&mut ctx, &menu, &codes(), event), GuardAction::Done);
            assert_eq!(ctx.suspend_shield, suspended);
            assert_eq!(ctx.phase, GuardPhase::Idle);
        }
    }
}

#[test]
fn jump_without_the_capability_defers_both_queries() {
    let menu = hold_menu();
    let mut ctx = awaiting_buffer();
    let event = GuardEvent::Buffered {
        chosen: Action::Jump,
        buffered: Action::Jump,
        escape_enabled: false,
    };
    assert_eq!(handle_sub_guard_cont(&mut ctx, &menu, &codes(), event), GuardAction::Done);
    assert!(ctx.suspend_shield);
    let pad = codes();
    let seen = out_of_shieldstun();
    assert_eq!(check_button_on(&ctx, &menu, &seen, false, &pad, 6), None);
    assert_eq!(check_button_on(&ctx, &menu, &seen, false, &pad, 3), None);
    assert_eq!(check_button_off(&ctx, &seen, &pad, 6), None);
    assert_eq!(check_button_off(&ctx, &seen, &pad, 3), None);
}

#[test]
fn decay_is_armed_only_by_an_evaluation_after_shieldstun() {
    let menu = hold_menu();
    let mut ctx = eligible();
    handle_sub_guard_cont(&mut ctx, &menu, &codes(), GuardEvent::Reaction { elapsed: true });
    assert!(!ctx.decay_enabled);
    let event = GuardEvent::Buffered { chosen: Action::Jump, buffered: Action::Jump, escape_enabled: true };
    handle_sub_guard_cont(&mut ctx, &menu, &codes(), event);
    assert!(!ctx.decay_enabled);
    handle_sub_guard_cont(&mut ctx, &menu, &codes(), GuardEvent::Enter(out_of_shieldstun()));
    assert!(ctx.decay_enabled);
}
