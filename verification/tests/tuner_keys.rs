use intergen::tuner_keys::{effect_tuner_key_actions, hold_phase_of, HoldKeys, HoldPhase, TunerKeyAction, TunerKeys};

fn up_key() -> HoldKeys {
    HoldKeys { just_pressed: false, pressed: false, just_released: false }
}

fn tapped() -> HoldKeys {
    HoldKeys { just_pressed: true, pressed: true, just_released: false }
}

fn no_keys() -> TunerKeys {
    TunerKeys {
        up: up_key(),
        down: up_key(),
        enter: false,
        space: false,
        tab: false,
        left: false,
        right: false,
        backspace: false,
        key_l: false,
        ctrl: false,
        shift: false,
        alt: false,
        wheel_steps: 0,
    }
}

fn idle_holds() -> Vec<TunerKeyAction> {
    vec![
        TunerKeyAction::SelectionHold(-1, HoldPhase::Released),
        TunerKeyAction::SelectionHold(1, HoldPhase::Released),
        TunerKeyAction::AdjustmentHold(1, HoldPhase::Released),
        TunerKeyAction::AdjustmentHold(-1, HoldPhase::Released),
    ]
}

#[test]
fn an_unfocused_page_takes_no_keys() {
    let mut keys = no_keys();
    keys.space = true;
    keys.up = tapped();
    assert!(effect_tuner_key_actions(false, keys, &vec!['1']).is_empty());
}

#[test]
fn idle_frame_only_releases_the_held_keys() {
    assert_eq!(effect_tuner_key_actions(true, no_keys(), &Vec::new()), idle_holds());
}

#[test]
fn plain_arrows_select_and_ctrl_arrows_adjust() {
    let mut keys = no_keys();
    keys.up = tapped();
    let actions = effect_tuner_key_actions(true, keys, &Vec::new());
    assert_eq!(actions[0], TunerKeyAction::SelectionHold(-1, HoldPhase::JustPressed));
    assert_eq!(actions[2], TunerKeyAction::AdjustmentHold(1, HoldPhase::Released));

    keys.ctrl = true;
    let actions = effect_tuner_key_actions(true, keys, &Vec::new());
    assert_eq!(actions[0], TunerKeyAction::SelectionHold(-1, HoldPhase::Released));
    assert_eq!(actions[2], TunerKeyAction::AdjustmentHold(1, HoldPhase::JustPressed));

    keys.ctrl = false;
    keys.down = HoldKeys { just_pressed: false, pressed: true, just_released: false };
    let actions = effect_tuner_key_actions(true, keys, &Vec::new());
    assert_eq!(actions[1], TunerKeyAction::SelectionHold(1, HoldPhase::Held));
}

#[test]
fn toggles_and_edit_mode_steps_come_first_in_order() {
    let mut keys = no_keys();
    keys.space = true;
    keys.key_l = true;
    keys.tab = true;
    keys.shift = true;
    keys.left = true;
    keys.right = true;
    let actions = effect_tuner_key_actions(true, keys, &Vec::new());
    let mut expected = vec![
        TunerKeyAction::ToggleEffect,
        TunerKeyAction::ToggleLfo,
        TunerKeyAction::StepEditMode(-1),
        TunerKeyAction::StepEditMode(-1),
        TunerKeyAction::StepEditMode(1),
    ];
    expected.extend(idle_holds());
    assert_eq!(actions, expected);
}

#[test]
fn enter_finishes_the_entry_and_shift_enter_resets_everything() {
    let mut keys = no_keys();
    keys.enter = true;
    keys.backspace = true;
    let actions = effect_tuner_key_actions(true, keys, &Vec::new());
    assert_eq!(&actions[4..], &[TunerKeyAction::FinalizeEntry, TunerKeyAction::EraseEntry]);

    keys.shift = true;
    keys.backspace = false;
    let actions = effect_tuner_key_actions(true, keys, &Vec::new());
    assert_eq!(&actions[4..], &[TunerKeyAction::ResetAll]);
}

#[test]
fn typed_number_characters_count_without_ctrl_or_alt() {
    let typed: Vec<char> = "1a.-x+,9".chars().collect();
    let actions = effect_tuner_key_actions(true, no_keys(), &typed);
    let typing: Vec<TunerKeyAction> = "1.-+,9".chars().map(TunerKeyAction::TypeChar).collect();
    assert_eq!(&actions[4..], typing.as_slice());

    let mut keys = no_keys();
    keys.alt = true;
    assert_eq!(effect_tuner_key_actions(true, keys, &typed), idle_holds());
    keys.alt = false;
    keys.ctrl = true;
    assert_eq!(effect_tuner_key_actions(true, keys, &typed), idle_holds());
}

#[test]
fn wheel_notches_scroll_the_selection() {
    let mut keys = no_keys();
    keys.wheel_steps = 3;
    let actions = effect_tuner_key_actions(true, keys, &Vec::new());
    assert_eq!(actions[2], TunerKeyAction::ScrollSelection(-1, 3));
    assert_eq!(actions.len(), 5);

    keys.wheel_steps = -2;
    let actions = effect_tuner_key_actions(true, keys, &Vec::new());
    assert_eq!(actions[2], TunerKeyAction::ScrollSelection(1, 2));

    keys.wheel_steps = isize::MIN;
    let actions = effect_tuner_key_actions(true, keys, &Vec::new());
    assert_eq!(actions[2], TunerKeyAction::ScrollSelection(1, isize::MIN.unsigned_abs()));
}

#[test]
fn hold_phases_follow_the_key_states() {
    assert_eq!(hold_phase_of(tapped()), HoldPhase::JustPressed);
    assert_eq!(hold_phase_of(up_key()), HoldPhase::Released);
    assert_eq!(
        hold_phase_of(HoldKeys { just_pressed: true, pressed: true, just_released: true }),
        HoldPhase::Released
    );
    assert_eq!(
        hold_phase_of(HoldKeys { just_pressed: false, pressed: true, just_released: false }),
        HoldPhase::Held
    );
}
