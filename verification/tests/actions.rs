use shield_training::{
    handle_escape_option, is_aerial, need_suspend_shield, needs_oos_handling_drop_shield, Action,
    Escape,
};

fn every_action() -> Vec<Action> {
    vec![
        Action::Empty,
        Action::AirDodge,
        Action::Jump,
        Action::Shield,
        Action::SpotDodge,
        Action::RollForward,
        Action::RollBackward,
        Action::Nair,
        Action::Fair,
        Action::Bair,
        Action::Uair,
        Action::Dair,
        Action::NeutralB,
        Action::SideB,
        Action::UpB,
        Action::DownB,
        Action::FSmash,
        Action::USmash,
        Action::DSmash,
        Action::Jab,
        Action::FTilt,
        Action::UTilt,
        Action::DTilt,
        Action::Grab,
        Action::Dash,
        Action::DashAttack,
    ]
}

#[test]
fn aerials_are_the_five_air_attacks() {
    let aerials = [Action::Nair, Action::Fair, Action::Bair, Action::Uair, Action::Dair];
    for action in every_action() {
        assert_eq!(is_aerial(action), aerials.contains(&action));
    }
}

#[test]
fn nothing_buffered_does_not_suspend() {
    assert!(!need_suspend_shield(Action::Empty));
}

#[test]
fn up_smash_grab_and_shield_do_not_suspend() {
    assert!(!need_suspend_shield(Action::USmash));
    assert!(!need_suspend_shield(Action::Grab));
    assert!(!need_suspend_shield(Action::Shield));
}

#[test]
fn every_other_action_suspends() {
    let held = [Action::Empty, Action::USmash, Action::Grab, Action::Shield];
    let mut suspending = 0;
    for action in every_action() {
        assert_eq!(need_suspend_shield(action), !held.contains(&action));
        if need_suspend_shield(action) {
            suspending += 1;
        }
    }
    assert_eq!(suspending, 22);
    assert!(need_suspend_shield(Action::Jump));
    assert!(need_suspend_shield(Action::UpB));
    assert!(need_suspend_shield(Action::SpotDodge));
}

#[test]
fn escape_declines_without_the_capability() {
    for action in every_action() {
        assert_eq!(handle_escape_option(action, false), None);
    }
}

#[test]
fn escape_commits_for_dodge_and_rolls() {
    assert_eq!(handle_escape_option(Action::SpotDodge, true), Some(Escape::InPlace));
    assert_eq!(handle_escape_option(Action::RollForward, true), Some(Escape::Forward));
    assert_eq!(handle_escape_option(Action::RollBackward, true), Some(Escape::Backward));
}

#[test]
fn escape_declines_for_every_other_action() {
    let escapes = [Action::SpotDodge, Action::RollForward, Action::RollBackward];
    for action in every_action() {
        if !escapes.contains(&action) {
            assert_eq!(handle_escape_option(action, true), None);
        }
    }
    assert_eq!(handle_escape_option(Action::AirDodge, true), None);
}

#[test]
fn drop_shield_actions() {
    let dropping = [
        Action::Jump,
        Action::Nair,
        Action::Fair,
        Action::Bair,
        Action::Uair,
        Action::Dair,
        Action::UpB,
        Action::USmash,
    ];
    for action in every_action() {
        assert_eq!(needs_oos_handling_drop_shield(action), dropping.contains(&action));
    }
}
