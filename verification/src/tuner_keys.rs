//! The keyboard of the live control page: which actions the keys held and pressed in
//! one frame ask for, in the order they are carried out. Carrying them out (value
//! changes, LFO settings, repeat timing of held keys) is left to the caller.
use vstd::prelude::*;
use crate::numeric_entry::{is_digit, is_numeric_entry_char};
use vstd::seq_lib::lemma_concat_associative;

verus! {

/// The states of one key in a frame.
#[derive(Clone, Copy, Debug, PartialEq, Eq, Structural)]
pub struct HoldKeys {
    pub just_pressed: bool,
    pub pressed: bool,
    pub just_released: bool,
}

/// What a key with hold-to-repeat does in a frame.
#[derive(Clone, Copy, Debug, PartialEq, Eq, Structural)]
pub enum HoldPhase {
    /// The key is up or was just let go: the repeat timer restarts and nothing happens.
    Released,
    /// The key went down this frame: the repeat timer restarts and the action happens once.
    JustPressed,
    /// The key stays down: the repeat timer runs and the action repeats when it fires.
    Held,
}

/// The keys of the live control page in one frame.
#[derive(Clone, Copy, Debug, PartialEq, Eq, Structural)]
pub struct TunerKeys {
    pub up: HoldKeys,
    pub down: HoldKeys,
    /// Enter or keypad Enter went down.
    pub enter: bool,
    pub space: bool,
    pub tab: bool,
    pub left: bool,
    pub right: bool,
    pub backspace: bool,
    pub key_l: bool,
    /// A Ctrl key is held.
    pub ctrl: bool,
    /// A Shift key is held.
    pub shift: bool,
    /// An Alt key is held.
    pub alt: bool,
    /// Whole mouse-wheel notches turned this frame; positive turns away from the user.
    pub wheel_steps: isize,
}

/// An action that the keys of a frame ask of the live control page.
#[derive(Clone, Copy, Debug, PartialEq, Eq, Structural)]
pub enum TunerKeyAction {
    /// Switch the selected parameter's effect on or off.
    ToggleEffect,
    /// Switch the selected parameter's LFO on or off.
    ToggleLfo,
    /// Step the edit mode by the given number of places.
    StepEditMode(isize),
    /// The hold-to-repeat selection key towards the given direction, in the given phase.
    SelectionHold(isize, HoldPhase),
    /// Move the selection one place towards the given direction, the given number of times.
    ScrollSelection(isize, usize),
    /// The hold-to-repeat adjustment key towards the given direction, in the given phase.
    AdjustmentHold(isize, HoldPhase),
    /// Reset every control to its default.
    ResetAll,
    /// Apply the typed number.
    FinalizeEntry,
    /// Erase the last typed character.
    EraseEntry,
    /// Type the character into the active numeric field.
    TypeChar(char),
}

/// The phase of a hold-to-repeat key.
pub open spec fn hold_phase(keys: HoldKeys) -> HoldPhase {
    if keys.just_released || !keys.pressed {
        HoldPhase::Released
    } else if keys.just_pressed {
        HoldPhase::JustPressed
    } else {
        HoldPhase::Held
    }
}

/// The phase of a hold-to-repeat key.
pub fn hold_phase_of(keys: HoldKeys) -> (phase: HoldPhase)
    ensures
        phase == hold_phase(keys),
{
    if keys.just_released || !keys.pressed {
        HoldPhase::Released
    } else if keys.just_pressed {
        HoldPhase::JustPressed
    } else {
        HoldPhase::Held
    }
}

/// An arrow key as the selection sees it: it counts only while Ctrl is up, and holding
/// Ctrl lets it go.
pub open spec fn selection_keys(arrow: HoldKeys, ctrl: bool) -> HoldKeys {
    HoldKeys {
        just_pressed: !ctrl && arrow.just_pressed,
        pressed: !ctrl && arrow.pressed,
        just_released: ctrl || arrow.just_released,
    }
}

/// An arrow key as the value adjustment sees it: it counts only while Ctrl is held, and
/// letting Ctrl go lets it go.
pub open spec fn adjustment_keys(arrow: HoldKeys, ctrl: bool) -> HoldKeys {
    HoldKeys {
        just_pressed: ctrl && arrow.just_pressed,
        pressed: ctrl && arrow.pressed,
        just_released: !ctrl || arrow.just_released,
    }
}

/// `action` when `present`, nothing otherwise.
pub open spec fn action_if(present: bool, action: TunerKeyAction) -> Seq<TunerKeyAction> {
    if present {
        seq![action]
    } else {
        Seq::empty()
    }
}

/// The number of notches of a wheel turn.
pub open spec fn notch_count(steps: isize) -> int {
    if steps >= 0 { steps as int } else { -(steps as int) }
}

/// A wheel turn of `steps` notches: turning away from the user moves the selection
/// up the list, one place per notch.
pub open spec fn wheel_actions(steps: isize) -> Seq<TunerKeyAction> {
    action_if(
        steps != 0,
        TunerKeyAction::ScrollSelection(if steps > 0 { -1isize } else { 1isize }, notch_count(steps) as usize),
    )
}

/// The typed characters that a number can use, in order, as typing actions.
pub open spec fn typing_actions(typed: Seq<char>) -> Seq<TunerKeyAction>
    decreases typed.len(),
{
    if typed.len() == 0 {
        Seq::empty()
    } else {
        let c = typed.last();
        typing_actions(typed.drop_last()) + action_if(
            is_digit(c) || c == '.' || c == ',' || c == '-' || c == '+',
            TunerKeyAction::TypeChar(c),
        )
    }
}

/// The actions before the arrows: Space toggles the effect, L the LFO, Tab steps the
/// edit mode forward (backward with Shift), and Left and Right step it back and forth.
pub open spec fn toggle_and_mode_actions(keys: TunerKeys) -> Seq<TunerKeyAction> {
    action_if(keys.space, TunerKeyAction::ToggleEffect)
        + action_if(keys.key_l, TunerKeyAction::ToggleLfo)
        + action_if(keys.tab, TunerKeyAction::StepEditMode(if keys.shift { -1isize } else { 1isize }))
        + action_if(keys.left, TunerKeyAction::StepEditMode(-1isize))
        + action_if(keys.right, TunerKeyAction::StepEditMode(1isize))
}

/// The arrow and wheel actions: plain Up and Down select, the wheel scrolls the
/// selection, and Ctrl with Up and Down raises and lowers the value.
pub open spec fn arrow_actions(keys: TunerKeys) -> Seq<TunerKeyAction> {
    seq![
        TunerKeyAction::SelectionHold(-1isize, hold_phase(selection_keys(keys.up, keys.ctrl))),
        TunerKeyAction::SelectionHold(1isize, hold_phase(selection_keys(keys.down, keys.ctrl))),
    ] + wheel_actions(keys.wheel_steps) + seq![
        TunerKeyAction::AdjustmentHold(1isize, hold_phase(adjustment_keys(keys.up, keys.ctrl))),
        TunerKeyAction::AdjustmentHold(-1isize, hold_phase(adjustment_keys(keys.down, keys.ctrl))),
    ]
}

/// The entry actions: Shift+Enter resets everything, Enter applies the typed number,
/// Backspace erases, and typed number characters count unless Ctrl or Alt is held.
pub open spec fn entry_actions(keys: TunerKeys, typed: Seq<char>) -> Seq<TunerKeyAction> {
    action_if(keys.enter, if keys.shift { TunerKeyAction::ResetAll } else { TunerKeyAction::FinalizeEntry })
        + action_if(keys.backspace, TunerKeyAction::EraseEntry)
        + if keys.ctrl || keys.alt { Seq::empty() } else { typing_actions(typed) }
}

/// Every action that `keys` and the characters `typed` in a frame ask of the live
/// control page, in order; nothing when the page does not have the keyboard focus.
pub open spec fn tuner_key_actions(focused: bool, keys: TunerKeys, typed: Seq<char>) -> Seq<TunerKeyAction> {
    if focused {
        toggle_and_mode_actions(keys) + arrow_actions(keys) + entry_actions(keys, typed)
    } else {
        Seq::empty()
    }
}

/// An arrow key never both selects and adjusts in one frame: it selects without Ctrl
/// and adjusts with Ctrl, and whichever of the two it does not drive is let go.
pub proof fn arrows_either_select_or_adjust(arrow: HoldKeys, ctrl: bool)
    ensures
        ctrl ==> hold_phase(selection_keys(arrow, ctrl)) == HoldPhase::Released,
        !ctrl ==> hold_phase(adjustment_keys(arrow, ctrl)) == HoldPhase::Released,
        ctrl ==> hold_phase(adjustment_keys(arrow, ctrl)) == hold_phase(arrow),
        !ctrl ==> hold_phase(selection_keys(arrow, ctrl)) == hold_phase(arrow),
{
}

/// Whether none of `actions` is a selection or adjustment key action.
pub open spec fn holds_no_arrow(actions: Seq<TunerKeyAction>) -> bool {
    forall|i: int| 0 <= i < actions.len()
        ==> !(#[trigger] actions[i] is SelectionHold) && !(actions[i] is AdjustmentHold)
}

proof fn lemma_typing_holds_no_arrow(typed: Seq<char>)
    ensures
        holds_no_arrow(typing_actions(typed)),
    decreases typed.len(),
{
    if typed.len() > 0 {
        lemma_typing_holds_no_arrow(typed.drop_last());
    }
}

/// Whether `action` keeps the arrows apart: an adjustment is released unless Ctrl is
/// held and a selection is released while it is.
pub open spec fn arrows_kept_apart(action: TunerKeyAction, ctrl: bool) -> bool {
    match action {
        TunerKeyAction::AdjustmentHold(_, phase) => !ctrl ==> phase == HoldPhase::Released,
        TunerKeyAction::SelectionHold(_, phase) => ctrl ==> phase == HoldPhase::Released,
        _ => true,
    }
}

proof fn lemma_toggles_hold_no_arrow(keys: TunerKeys)
    ensures
        holds_no_arrow(toggle_and_mode_actions(keys)),
{
}

proof fn lemma_entries_hold_no_arrow(keys: TunerKeys, typed: Seq<char>)
    ensures
        holds_no_arrow(entry_actions(keys, typed)),
{
    lemma_typing_holds_no_arrow(typed);
    let entries = entry_actions(keys, typed);
    let head = action_if(keys.enter, if keys.shift { TunerKeyAction::ResetAll } else { TunerKeyAction::FinalizeEntry })
        + action_if(keys.backspace, TunerKeyAction::EraseEntry);
    let tail = if keys.ctrl || keys.alt { Seq::<TunerKeyAction>::empty() } else { typing_actions(typed) };
    assert(entries == head + tail);
    assert forall|i: int| 0 <= i < entries.len()
        implies !(#[trigger] entries[i] is SelectionHold) && !(entries[i] is AdjustmentHold) by {
        if i >= head.len() {
            assert(entries[i] == tail[i - head.len()]);
        }
    }
}

proof fn lemma_arrow_phases(keys: TunerKeys)
    ensures
        ({
            let arrows = arrow_actions(keys);
            let w = wheel_actions(keys.wheel_steps).len() as int;
            &&& arrows.len() == 4 + w
            &&& forall|i: int| 0 <= i < arrows.len() ==> arrows_kept_apart(#[trigger] arrows[i], keys.ctrl)
            &&& arrows[0] == TunerKeyAction::SelectionHold(-1isize, if keys.ctrl { HoldPhase::Released } else { hold_phase(keys.up) })
            &&& arrows[1] == TunerKeyAction::SelectionHold(1isize, if keys.ctrl { HoldPhase::Released } else { hold_phase(keys.down) })
            &&& arrows[2 + w] == TunerKeyAction::AdjustmentHold(1isize, if keys.ctrl { hold_phase(keys.up) } else { HoldPhase::Released })
            &&& arrows[3 + w] == TunerKeyAction::AdjustmentHold(-1isize, if keys.ctrl { hold_phase(keys.down) } else { HoldPhase::Released })
        }),
{
    let arrows = arrow_actions(keys);
    let w = wheel_actions(keys.wheel_steps).len() as int;
    assert forall|i: int| 0 <= i < arrows.len() implies arrows_kept_apart(#[trigger] arrows[i], keys.ctrl) by {
        if 2 <= i < 2 + w {
            assert(arrows[i] == wheel_actions(keys.wheel_steps)[i - 2]);
        }
    }
}

/// Without Ctrl the arrows only select and with Ctrl they only adjust: in every frame
/// each adjustment action is released unless Ctrl is held and each selection action is
/// released while it is; a focused page gets the selection actions of Up and Down in
/// their own phases without Ctrl, and their adjustment actions with it.
pub proof fn plain_arrows_select_and_ctrl_arrows_adjust(focused: bool, keys: TunerKeys, typed: Seq<char>)
    ensures
        ({
            let actions = tuner_key_actions(focused, keys, typed);
            &&& forall|i: int| 0 <= i < actions.len() ==> arrows_kept_apart(#[trigger] actions[i], keys.ctrl)
            &&& focused ==> {
                &&& actions.contains(TunerKeyAction::SelectionHold(-1isize, if keys.ctrl { HoldPhase::Released } else { hold_phase(keys.up) }))
                &&& actions.contains(TunerKeyAction::SelectionHold(1isize, if keys.ctrl { HoldPhase::Released } else { hold_phase(keys.down) }))
                &&& actions.contains(TunerKeyAction::AdjustmentHold(1isize, if keys.ctrl { hold_phase(keys.up) } else { HoldPhase::Released }))
                &&& actions.contains(TunerKeyAction::AdjustmentHold(-1isize, if keys.ctrl { hold_phase(keys.down) } else { HoldPhase::Released }))
            }
        }),
{
    let actions = tuner_key_actions(focused, keys, typed);
    if focused {
        let toggles = toggle_and_mode_actions(keys);
        let arrows = arrow_actions(keys);
        let entries = entry_actions(keys, typed);
        lemma_toggles_hold_no_arrow(keys);
        lemma_entries_hold_no_arrow(keys, typed);
        lemma_arrow_phases(keys);
        let t = toggles.len() as int;
        let w = wheel_actions(keys.wheel_steps).len() as int;
        assert(actions == toggles + arrows + entries);
        assert forall|i: int| 0 <= i < actions.len() implies arrows_kept_apart(#[trigger] actions[i], keys.ctrl) by {
            if i < t {
                assert(actions[i] == toggles[i]);
            } else if i < t + arrows.len() {
                assert(actions[i] == arrows[i - t]);
            } else {
                assert(actions[i] == entries[i - t - arrows.len()]);
            }
        }
        assert(actions[t] == arrows[0]);
        assert(actions[t + 1] == arrows[1]);
        assert(actions[t + 2 + w] == arrows[2 + w]);
        assert(actions[t + 3 + w] == arrows[3 + w]);
    }
}

/// Appends `action` to `actions` when `present`.
fn push_if(actions: &mut Vec<TunerKeyAction>, present: bool, action: TunerKeyAction)
    ensures
        final(actions)@ == old(actions)@ + action_if(present, action),
{
    if present {
        actions.push(action);
    } else {
        assert(old(actions)@ + action_if(present, action) =~= old(actions)@);
    }
}

/// Appends the typing actions of `typed` to `actions`.
fn push_typing(actions: &mut Vec<TunerKeyAction>, typed: &Vec<char>)
    ensures
        final(actions)@ == old(actions)@ + typing_actions(typed@),
{
    let ghost start = actions@;
    let mut i: usize = 0;
    while i < typed.len()
        invariant
            i <= typed@.len(),
            actions@ == start + typing_actions(typed@.subrange(0, i as int)),
        decreases typed@.len() - i,
    {
        let c = typed[i];
        let ghost before = actions@;
        push_if(actions, is_numeric_entry_char(c), TunerKeyAction::TypeChar(c));
        proof {
            let next = typed@.subrange(0, i + 1);
            assert(next.drop_last() =~= typed@.subrange(0, i as int));
            assert(next.last() == c);
            assert(actions@ =~= start + typing_actions(next));
        }
        i += 1;
    }
    assert(typed@.subrange(0, typed@.len() as int) =~= typed@);
}

/// Appends the toggle and edit-mode actions of `keys` to `actions`.
fn push_toggle_and_mode_actions(actions: &mut Vec<TunerKeyAction>, keys: TunerKeys)
    ensures
        final(actions)@ == old(actions)@ + toggle_and_mode_actions(keys),
{
    let ghost start = actions@;
    let ghost a = action_if(keys.space, TunerKeyAction::ToggleEffect);
    let ghost b = action_if(keys.key_l, TunerKeyAction::ToggleLfo);
    let ghost c = action_if(keys.tab, TunerKeyAction::StepEditMode(if keys.shift { -1isize } else { 1isize }));
    let ghost d = action_if(keys.left, TunerKeyAction::StepEditMode(-1isize));
    let ghost e = action_if(keys.right, TunerKeyAction::StepEditMode(1isize));
    push_if(actions, keys.space, TunerKeyAction::ToggleEffect);
    push_if(actions, keys.key_l, TunerKeyAction::ToggleLfo);
    let tab_step: isize = if keys.shift { -1 } else { 1 };
    push_if(actions, keys.tab, TunerKeyAction::StepEditMode(tab_step));
    push_if(actions, keys.left, TunerKeyAction::StepEditMode(-1));
    push_if(actions, keys.right, TunerKeyAction::StepEditMode(1));
    proof {
        lemma_concat_associative(start, a, b);
        lemma_concat_associative(start, a + b, c);
        lemma_concat_associative(start, a + b + c, d);
        lemma_concat_associative(start, a + b + c + d, e);
    }
}

/// Appends the arrow and wheel actions of `keys` to `actions`.
fn push_arrow_actions(actions: &mut Vec<TunerKeyAction>, keys: TunerKeys)
    ensures
        final(actions)@ == old(actions)@ + arrow_actions(keys),
{
    let ghost start = actions@;
    let selection_up = HoldKeys {
        just_pressed: !keys.ctrl && keys.up.just_pressed,
        pressed: !keys.ctrl && keys.up.pressed,
        just_released: keys.ctrl || keys.up.just_released,
    };
    let selection_down = HoldKeys {
        just_pressed: !keys.ctrl && keys.down.just_pressed,
        pressed: !keys.ctrl && keys.down.pressed,
        just_released: keys.ctrl || keys.down.just_released,
    };
    let up_phase = hold_phase_of(selection_up);
    let down_phase = hold_phase_of(selection_down);
    actions.push(TunerKeyAction::SelectionHold(-1, up_phase));
    actions.push(TunerKeyAction::SelectionHold(1, down_phase));
    let ghost selections = seq![
        TunerKeyAction::SelectionHold(-1isize, up_phase),
        TunerKeyAction::SelectionHold(1isize, down_phase),
    ];
    assert(actions@ =~= start + selections);
    let steps = keys.wheel_steps;
    let wheel_direction: isize = if steps > 0 { -1 } else { 1 };
    let notches: usize = if steps >= 0 { steps as usize } else { (0isize - (steps + 1)) as usize + 1 };
    push_if(actions, steps != 0, TunerKeyAction::ScrollSelection(wheel_direction, notches));
    let ghost wheel = wheel_actions(steps);
    assert(action_if(steps != 0, TunerKeyAction::ScrollSelection(wheel_direction, notches)) == wheel);
    let ghost after_wheel = actions@;
    let adjust_up = HoldKeys {
        just_pressed: keys.ctrl && keys.up.just_pressed,
        pressed: keys.ctrl && keys.up.pressed,
        just_released: !keys.ctrl || keys.up.just_released,
    };
    let adjust_down = HoldKeys {
        just_pressed: keys.ctrl && keys.down.just_pressed,
        pressed: keys.ctrl && keys.down.pressed,
        just_released: !keys.ctrl || keys.down.just_released,
    };
    let raise_phase = hold_phase_of(adjust_up);
    let lower_phase = hold_phase_of(adjust_down);
    actions.push(TunerKeyAction::AdjustmentHold(1, raise_phase));
    actions.push(TunerKeyAction::AdjustmentHold(-1, lower_phase));
    let ghost adjustments = seq![
        TunerKeyAction::AdjustmentHold(1isize, raise_phase),
        TunerKeyAction::AdjustmentHold(-1isize, lower_phase),
    ];
    assert(actions@ =~= after_wheel + adjustments);
    proof {
        lemma_concat_associative(start, selections, wheel);
        lemma_concat_associative(start, selections + wheel, adjustments);
        assert(arrow_actions(keys) == selections + wheel + adjustments);
    }
}

/// Appends the entry actions of `keys` and `typed` to `actions`.
fn push_entry_actions(actions: &mut Vec<TunerKeyAction>, keys: TunerKeys, typed: &Vec<char>)
    ensures
        final(actions)@ == old(actions)@ + entry_actions(keys, typed@),
{
    let ghost start = actions@;
    let ghost a = action_if(keys.enter, if keys.shift { TunerKeyAction::ResetAll } else { TunerKeyAction::FinalizeEntry });
    let ghost b = action_if(keys.backspace, TunerKeyAction::EraseEntry);
    let ghost c = if keys.ctrl || keys.alt { Seq::<TunerKeyAction>::empty() } else { typing_actions(typed@) };
    let enter_action = if keys.shift { TunerKeyAction::ResetAll } else { TunerKeyAction::FinalizeEntry };
    push_if(actions, keys.enter, enter_action);
    push_if(actions, keys.backspace, TunerKeyAction::EraseEntry);
    let ghost before_typing = actions@;
    if !(keys.ctrl || keys.alt) {
        push_typing(actions, typed);
    } else {
        assert(actions@ =~= before_typing + c);
    }
    proof {
        lemma_concat_associative(start, a, b);
        lemma_concat_associative(start, a + b, c);
    }
}

/// Every action that `keys` and the characters `typed` in a frame ask of the live
/// control page, in the order they are carried out; none when the page does not have
/// the keyboard focus.
pub fn effect_tuner_key_actions(focused: bool, keys: TunerKeys, typed: &Vec<char>) -> (actions: Vec<TunerKeyAction>)
    ensures
        actions@ == tuner_key_actions(focused, keys, typed@),
{
    let mut actions: Vec<TunerKeyAction> = Vec::new();
    if !focused {
        return actions;
    }
    push_toggle_and_mode_actions(&mut actions, keys);
    push_arrow_actions(&mut actions, keys);
    push_entry_actions(&mut actions, keys, typed);
    proof {
        let toggles = toggle_and_mode_actions(keys);
        let arrows = arrow_actions(keys);
        let entries = entry_actions(keys, typed@);
        lemma_concat_associative(Seq::<TunerKeyAction>::empty(), toggles, arrows);
        lemma_concat_associative(Seq::<TunerKeyAction>::empty(), toggles + arrows, entries);
        assert(Seq::<TunerKeyAction>::empty() + toggles =~= toggles);
        assert(Seq::<TunerKeyAction>::empty() + (toggles + arrows + entries) =~= toggles + arrows + entries);
    }
    actions
}

} // verus!
