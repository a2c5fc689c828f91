//! Which F-page owns the keyboard, which key bindings it takes from the rest of the
//! program, and how the function keys open and close the pages.
use vstd::prelude::*;
use crate::edit_mode::EffectTunerPageMode;
use crate::presets::PresetBrowserState;
use crate::tuner_navigation::EffectTunerNavigation;

verus! {

/// The keys the control pages know about.
#[derive(Clone, Copy, Debug, PartialEq, Eq, Structural, Hash)]
pub enum KeyCode {
    KeyA,
    KeyB,
    KeyC,
    KeyD,
    KeyE,
    KeyF,
    KeyG,
    KeyH,
    KeyI,
    KeyJ,
    KeyK,
    KeyL,
    KeyM,
    KeyN,
    KeyO,
    KeyP,
    KeyQ,
    KeyR,
    KeyS,
    KeyT,
    KeyU,
    KeyV,
    KeyW,
    KeyX,
    KeyY,
    KeyZ,
    Digit0,
    Digit1,
    Digit2,
    Digit3,
    Digit4,
    Digit5,
    Digit6,
    Digit7,
    Digit8,
    Digit9,
    Numpad0,
    Numpad1,
    Numpad2,
    Numpad3,
    Numpad4,
    Numpad5,
    Numpad6,
    Numpad7,
    Numpad8,
    Numpad9,
    ArrowUp,
    ArrowDown,
    ArrowLeft,
    ArrowRight,
    Space,
    Tab,
    Enter,
    NumpadEnter,
    Backspace,
    Delete,
    Escape,
    F1,
    F2,
    F3,
    Period,
    Comma,
    Minus,
    Equal,
    NumpadDecimal,
    NumpadSubtract,
    NumpadAdd,
    ShiftLeft,
    ShiftRight,
    ControlLeft,
    ControlRight,
    AltLeft,
    AltRight,
}

/// Whether a key binding asks for a modifier to be held, released, or either.
#[derive(Clone, Copy, Debug, PartialEq, Eq, Structural)]
pub enum ModifierRequirement {
    Any,
    Required,
    Forbidden,
}

/// Whether a modifier in state `pressed` meets `requirement`.
pub open spec fn requirement_met(requirement: ModifierRequirement, pressed: bool) -> bool {
    match requirement {
        ModifierRequirement::Any => true,
        ModifierRequirement::Required => pressed,
        ModifierRequirement::Forbidden => !pressed,
    }
}

impl ModifierRequirement {
    /// Whether a modifier in state `pressed` meets the requirement.
    pub fn matches(self, pressed: bool) -> (met: bool)
        ensures
            met == requirement_met(self, pressed),
    {
        match self {
            ModifierRequirement::Any => true,
            ModifierRequirement::Required => pressed,
            ModifierRequirement::Forbidden => !pressed,
        }
    }
}

/// The modifier keys held with a key press.
#[derive(Clone, Copy, Debug, Default, PartialEq, Eq, Structural)]
pub struct KeyModifiers {
    pub shift: bool,
    pub control: bool,
    pub alt: bool,
}

/// A key press with the modifiers held at the time.
#[derive(Clone, Copy, Debug, PartialEq, Eq, Structural)]
pub struct KeyBinding {
    pub key_code: KeyCode,
    pub modifiers: KeyModifiers,
}

/// A key together with what it asks of each modifier.
#[derive(Clone, Copy, Debug, PartialEq, Eq, Structural)]
pub struct KeyBindingPattern {
    pub key_code: KeyCode,
    pub shift: ModifierRequirement,
    pub control: ModifierRequirement,
    pub alt: ModifierRequirement,
}

/// Whether `binding` is a press that `pattern` describes.
pub open spec fn pattern_matches(pattern: KeyBindingPattern, binding: KeyBinding) -> bool {
    &&& pattern.key_code == binding.key_code
    &&& requirement_met(pattern.shift, binding.modifiers.shift)
    &&& requirement_met(pattern.control, binding.modifiers.control)
    &&& requirement_met(pattern.alt, binding.modifiers.alt)
}

impl KeyBindingPattern {
    /// `key_code` with any modifiers.
    pub fn any_modifiers(key_code: KeyCode) -> (pattern: KeyBindingPattern)
        ensures
            pattern == (KeyBindingPattern {
                key_code,
                shift: ModifierRequirement::Any,
                control: ModifierRequirement::Any,
                alt: ModifierRequirement::Any,
            }),
    {
        KeyBindingPattern {
            key_code,
            shift: ModifierRequirement::Any,
            control: ModifierRequirement::Any,
            alt: ModifierRequirement::Any,
        }
    }

    /// `key_code` with no modifier held.
    pub fn unmodified(key_code: KeyCode) -> (pattern: KeyBindingPattern)
        ensures
            pattern == (KeyBindingPattern {
                key_code,
                shift: ModifierRequirement::Forbidden,
                control: ModifierRequirement::Forbidden,
                alt: ModifierRequirement::Forbidden,
            }),
    {
        KeyBindingPattern {
            key_code,
            shift: ModifierRequirement::Forbidden,
            control: ModifierRequirement::Forbidden,
            alt: ModifierRequirement::Forbidden,
        }
    }

    /// `key_code` with shift held and neither control nor alt.
    pub fn shifted(key_code: KeyCode) -> (pattern: KeyBindingPattern)
        ensures
            pattern == (KeyBindingPattern {
                key_code,
                shift: ModifierRequirement::Required,
                control: ModifierRequirement::Forbidden,
                alt: ModifierRequirement::Forbidden,
            }),
    {
        KeyBindingPattern {
            key_code,
            shift: ModifierRequirement::Required,
            control: ModifierRequirement::Forbidden,
            alt: ModifierRequirement::Forbidden,
        }
    }

    /// `key_code` with neither control nor alt held.
    pub fn no_ctrl_or_alt(key_code: KeyCode) -> (pattern: KeyBindingPattern)
        ensures
            pattern == (KeyBindingPattern {
                key_code,
                shift: ModifierRequirement::Any,
                control: ModifierRequirement::Forbidden,
                alt: ModifierRequirement::Forbidden,
            }),
    {
        KeyBindingPattern {
            key_code,
            shift: ModifierRequirement::Any,
            control: ModifierRequirement::Forbidden,
            alt: ModifierRequirement::Forbidden,
        }
    }

    /// Whether `binding` is a press that the pattern describes.
    pub fn matches(self, binding: KeyBinding) -> (matched: bool)
        ensures
            matched == pattern_matches(self, binding),
    {
        self.key_code == binding.key_code && self.shift.matches(binding.modifiers.shift)
            && self.control.matches(binding.modifiers.control) && self.alt.matches(binding.modifiers.alt)
    }
}

/// The keys the live control page takes.
pub open spec fn spec_effect_tuner_bindings() -> Seq<KeyBindingPattern> {
    seq![
        KeyBindingPattern { key_code: KeyCode::Space, shift: ModifierRequirement::Any, control: ModifierRequirement::Any, alt: ModifierRequirement::Any },
        KeyBindingPattern { key_code: KeyCode::KeyL, shift: ModifierRequirement::Any, control: ModifierRequirement::Any, alt: ModifierRequirement::Any },
        KeyBindingPattern { key_code: KeyCode::Tab, shift: ModifierRequirement::Any, control: ModifierRequirement::Any, alt: ModifierRequirement::Any },
        KeyBindingPattern { key_code: KeyCode::ArrowLeft, shift: ModifierRequirement::Any, control: ModifierRequirement::Any, alt: ModifierRequirement::Any },
        KeyBindingPattern { key_code: KeyCode::ArrowRight, shift: ModifierRequirement::Any, control: ModifierRequirement::Any, alt: ModifierRequirement::Any },
        KeyBindingPattern { key_code: KeyCode::ArrowUp, shift: ModifierRequirement::Any, control: ModifierRequirement::Any, alt: ModifierRequirement::Any },
        KeyBindingPattern { key_code: KeyCode::ArrowDown, shift: ModifierRequirement::Any, control: ModifierRequirement::Any, alt: ModifierRequirement::Any },
        KeyBindingPattern { key_code: KeyCode::Enter, shift: ModifierRequirement::Any, control: ModifierRequirement::Any, alt: ModifierRequirement::Any },
        KeyBindingPattern { key_code: KeyCode::NumpadEnter, shift: ModifierRequirement::Any, control: ModifierRequirement::Any, alt: ModifierRequirement::Any },
        KeyBindingPattern { key_code: KeyCode::Backspace, shift: ModifierRequirement::Any, control: ModifierRequirement::Any, alt: ModifierRequirement::Any }
    ]
}

/// The keys the live control page takes.
pub fn effect_tuner_bindings() -> (patterns: Vec<KeyBindingPattern>)
    ensures
        patterns@ == spec_effect_tuner_bindings(),
{
    vec![
        KeyBindingPattern::any_modifiers(KeyCode::Space),
        KeyBindingPattern::any_modifiers(KeyCode::KeyL),
        KeyBindingPattern::any_modifiers(KeyCode::Tab),
        KeyBindingPattern::any_modifiers(KeyCode::ArrowLeft),
        KeyBindingPattern::any_modifiers(KeyCode::ArrowRight),
        KeyBindingPattern::any_modifiers(KeyCode::ArrowUp),
        KeyBindingPattern::any_modifiers(KeyCode::ArrowDown),
        KeyBindingPattern::any_modifiers(KeyCode::Enter),
        KeyBindingPattern::any_modifiers(KeyCode::NumpadEnter),
        KeyBindingPattern::any_modifiers(KeyCode::Backspace)
    ]
}

/// The keys the live control page takes for typing numbers.
pub open spec fn spec_effect_tuner_numeric_bindings() -> Seq<KeyBindingPattern> {
    seq![
        KeyBindingPattern { key_code: KeyCode::Digit0, shift: ModifierRequirement::Any, control: ModifierRequirement::Forbidden, alt: ModifierRequirement::Forbidden },
        KeyBindingPattern { key_code: KeyCode::Digit1, shift: ModifierRequirement::Any, control: ModifierRequirement::Forbidden, alt: ModifierRequirement::Forbidden },
        KeyBindingPattern { key_code: KeyCode::Digit2, shift: ModifierRequirement::Any, control: ModifierRequirement::Forbidden, alt: ModifierRequirement::Forbidden },
        KeyBindingPattern { key_code: KeyCode::Digit3, shift: ModifierRequirement::Any, control: ModifierRequirement::Forbidden, alt: ModifierRequirement::Forbidden },
        KeyBindingPattern { key_code: KeyCode::Digit4, shift: ModifierRequirement::Any, control: ModifierRequirement::Forbidden, alt: ModifierRequirement::Forbidden },
        KeyBindingPattern { key_code: KeyCode::Digit5, shift: ModifierRequirement::Any, control: ModifierRequirement::Forbidden, alt: ModifierRequirement::Forbidden },
        KeyBindingPattern { key_code: KeyCode::Digit6, shift: ModifierRequirement::Any, control: ModifierRequirement::Forbidden, alt: ModifierRequirement::Forbidden },
        KeyBindingPattern { key_code: KeyCode::Digit7, shift: ModifierRequirement::Any, control: ModifierRequirement::Forbidden, alt: ModifierRequirement::Forbidden },
        KeyBindingPattern { key_code: KeyCode::Digit8, shift: ModifierRequirement::Any, control: ModifierRequirement::Forbidden, alt: ModifierRequirement::Forbidden },
        KeyBindingPattern { key_code: KeyCode::Digit9, shift: ModifierRequirement::Any, control: ModifierRequirement::Forbidden, alt: ModifierRequirement::Forbidden },
        KeyBindingPattern { key_code: KeyCode::Numpad0, shift: ModifierRequirement::Any, control: ModifierRequirement::Forbidden, alt: ModifierRequirement::Forbidden },
        KeyBindingPattern { key_code: KeyCode::Numpad1, shift: ModifierRequirement::Any, control: ModifierRequirement::Forbidden, alt: ModifierRequirement::Forbidden },
        KeyBindingPattern { key_code: KeyCode::Numpad2, shift: ModifierRequirement::Any, control: ModifierRequirement::Forbidden, alt: ModifierRequirement::Forbidden },
        KeyBindingPattern { key_code: KeyCode::Numpad3, shift: ModifierRequirement::Any, control: ModifierRequirement::Forbidden, alt: ModifierRequirement::Forbidden },
        KeyBindingPattern { key_code: KeyCode::Numpad4, shift: ModifierRequirement::Any, control: ModifierRequirement::Forbidden, alt: ModifierRequirement::Forbidden },
        KeyBindingPattern { key_code: KeyCode::Numpad5, shift: ModifierRequirement::Any, control: ModifierRequirement::Forbidden, alt: ModifierRequirement::Forbidden },
        KeyBindingPattern { key_code: KeyCode::Numpad6, shift: ModifierRequirement::Any, control: ModifierRequirement::Forbidden, alt: ModifierRequirement::Forbidden },
        KeyBindingPattern { key_code: KeyCode::Numpad7, shift: ModifierRequirement::Any, control: ModifierRequirement::Forbidden, alt: ModifierRequirement::Forbidden },
        KeyBindingPattern { key_code: KeyCode::Numpad8, shift: ModifierRequirement::Any, control: ModifierRequirement::Forbidden, alt: ModifierRequirement::Forbidden },
        KeyBindingPattern { key_code: KeyCode::Numpad9, shift: ModifierRequirement::Any, control: ModifierRequirement::Forbidden, alt: ModifierRequirement::Forbidden },
        KeyBindingPattern { key_code: KeyCode::Period, shift: ModifierRequirement::Forbidden, control: ModifierRequirement::Forbidden, alt: ModifierRequirement::Forbidden },
        KeyBindingPattern { key_code: KeyCode::Comma, shift: ModifierRequirement::Forbidden, control: ModifierRequirement::Forbidden, alt: ModifierRequirement::Forbidden },
        KeyBindingPattern { key_code: KeyCode::Minus, shift: ModifierRequirement::Forbidden, control: ModifierRequirement::Forbidden, alt: ModifierRequirement::Forbidden },
        KeyBindingPattern { key_code: KeyCode::Equal, shift: ModifierRequirement::Required, control: ModifierRequirement::Forbidden, alt: ModifierRequirement::Forbidden },
        KeyBindingPattern { key_code: KeyCode::NumpadDecimal, shift: ModifierRequirement::Any, control: ModifierRequirement::Forbidden, alt: ModifierRequirement::Forbidden },
        KeyBindingPattern { key_code: KeyCode::NumpadSubtract, shift: ModifierRequirement::Any, control: ModifierRequirement::Forbidden, alt: ModifierRequirement::Forbidden },
        KeyBindingPattern { key_code: KeyCode::NumpadAdd, shift: ModifierRequirement::Any, control: ModifierRequirement::Forbidden, alt: ModifierRequirement::Forbidden }
    ]
}

/// The keys the live control page takes for typing numbers.
pub fn effect_tuner_numeric_bindings() -> (patterns: Vec<KeyBindingPattern>)
    ensures
        patterns@ == spec_effect_tuner_numeric_bindings(),
{
    vec![
        KeyBindingPattern::no_ctrl_or_alt(KeyCode::Digit0),
        KeyBindingPattern::no_ctrl_or_alt(KeyCode::Digit1),
        KeyBindingPattern::no_ctrl_or_alt(KeyCode::Digit2),
        KeyBindingPattern::no_ctrl_or_alt(KeyCode::Digit3),
        KeyBindingPattern::no_ctrl_or_alt(KeyCode::Digit4),
        KeyBindingPattern::no_ctrl_or_alt(KeyCode::Digit5),
        KeyBindingPattern::no_ctrl_or_alt(KeyCode::Digit6),
        KeyBindingPattern::no_ctrl_or_alt(KeyCode::Digit7),
        KeyBindingPattern::no_ctrl_or_alt(KeyCode::Digit8),
        KeyBindingPattern::no_ctrl_or_alt(KeyCode::Digit9),
        KeyBindingPattern::no_ctrl_or_alt(KeyCode::Numpad0),
        KeyBindingPattern::no_ctrl_or_alt(KeyCode::Numpad1),
        KeyBindingPattern::no_ctrl_or_alt(KeyCode::Numpad2),
        KeyBindingPattern::no_ctrl_or_alt(KeyCode::Numpad3),
        KeyBindingPattern::no_ctrl_or_alt(KeyCode::Numpad4),
        KeyBindingPattern::no_ctrl_or_alt(KeyCode::Numpad5),
        KeyBindingPattern::no_ctrl_or_alt(KeyCode::Numpad6),
        KeyBindingPattern::no_ctrl_or_alt(KeyCode::Numpad7),
        KeyBindingPattern::no_ctrl_or_alt(KeyCode::Numpad8),
        KeyBindingPattern::no_ctrl_or_alt(KeyCode::Numpad9),
        KeyBindingPattern::unmodified(KeyCode::Period),
        KeyBindingPattern::unmodified(KeyCode::Comma),
        KeyBindingPattern::unmodified(KeyCode::Minus),
        KeyBindingPattern::shifted(KeyCode::Equal),
        KeyBindingPattern::no_ctrl_or_alt(KeyCode::NumpadDecimal),
        KeyBindingPattern::no_ctrl_or_alt(KeyCode::NumpadSubtract),
        KeyBindingPattern::no_ctrl_or_alt(KeyCode::NumpadAdd)
    ]
}

/// The keys the scene preset page takes.
pub open spec fn spec_preset_page_bindings() -> Seq<KeyBindingPattern> {
    seq![
        KeyBindingPattern { key_code: KeyCode::KeyS, shift: ModifierRequirement::Any, control: ModifierRequirement::Any, alt: ModifierRequirement::Any },
        KeyBindingPattern { key_code: KeyCode::Delete, shift: ModifierRequirement::Any, control: ModifierRequirement::Any, alt: ModifierRequirement::Any },
        KeyBindingPattern { key_code: KeyCode::Digit0, shift: ModifierRequirement::Any, control: ModifierRequirement::Any, alt: ModifierRequirement::Any },
        KeyBindingPattern { key_code: KeyCode::Digit1, shift: ModifierRequirement::Any, control: ModifierRequirement::Any, alt: ModifierRequirement::Any },
        KeyBindingPattern { key_code: KeyCode::Digit2, shift: ModifierRequirement::Any, control: ModifierRequirement::Any, alt: ModifierRequirement::Any },
        KeyBindingPattern { key_code: KeyCode::Digit3, shift: ModifierRequirement::Any, control: ModifierRequirement::Any, alt: ModifierRequirement::Any },
        KeyBindingPattern { key_code: KeyCode::Digit4, shift: ModifierRequirement::Any, control: ModifierRequirement::Any, alt: ModifierRequirement::Any },
        KeyBindingPattern { key_code: KeyCode::Digit5, shift: ModifierRequirement::Any, control: ModifierRequirement::Any, alt: ModifierRequirement::Any },
        KeyBindingPattern { key_code: KeyCode::Digit6, shift: ModifierRequirement::Any, control: ModifierRequirement::Any, alt: ModifierRequirement::Any },
        KeyBindingPattern { key_code: KeyCode::Digit7, shift: ModifierRequirement::Any, control: ModifierRequirement::Any, alt: ModifierRequirement::Any },
        KeyBindingPattern { key_code: KeyCode::Digit8, shift: ModifierRequirement::Any, control: ModifierRequirement::Any, alt: ModifierRequirement::Any },
        KeyBindingPattern { key_code: KeyCode::Digit9, shift: ModifierRequirement::Any, control: ModifierRequirement::Any, alt: ModifierRequirement::Any },
        KeyBindingPattern { key_code: KeyCode::Numpad0, shift: ModifierRequirement::Any, control: ModifierRequirement::Any, alt: ModifierRequirement::Any },
        KeyBindingPattern { key_code: KeyCode::Numpad1, shift: ModifierRequirement::Any, control: ModifierRequirement::Any, alt: ModifierRequirement::Any },
        KeyBindingPattern { key_code: KeyCode::Numpad2, shift: ModifierRequirement::Any, control: ModifierRequirement::Any, alt: ModifierRequirement::Any },
        KeyBindingPattern { key_code: KeyCode::Numpad3, shift: ModifierRequirement::Any, control: ModifierRequirement::Any, alt: ModifierRequirement::Any },
        KeyBindingPattern { key_code: KeyCode::Numpad4, shift: ModifierRequirement::Any, control: ModifierRequirement::Any, alt: ModifierRequirement::Any },
        KeyBindingPattern { key_code: KeyCode::Numpad5, shift: ModifierRequirement::Any, control: ModifierRequirement::Any, alt: ModifierRequirement::Any },
        KeyBindingPattern { key_code: KeyCode::Numpad6, shift: ModifierRequirement::Any, control: ModifierRequirement::Any, alt: ModifierRequirement::Any },
        KeyBindingPattern { key_code: KeyCode::Numpad7, shift: ModifierRequirement::Any, control: ModifierRequirement::Any, alt: ModifierRequirement::Any },
        KeyBindingPattern { key_code: KeyCode::Numpad8, shift: ModifierRequirement::Any, control: ModifierRequirement::Any, alt: ModifierRequirement::Any },
        KeyBindingPattern { key_code: KeyCode::Numpad9, shift: ModifierRequirement::Any, control: ModifierRequirement::Any, alt: ModifierRequirement::Any }
    ]
}

/// The keys the scene preset page takes.
pub fn preset_page_bindings() -> (patterns: Vec<KeyBindingPattern>)
    ensures
        patterns@ == spec_preset_page_bindings(),
{
    vec![
        KeyBindingPattern::any_modifiers(KeyCode::KeyS),
        KeyBindingPattern::any_modifiers(KeyCode::Delete),
        KeyBindingPattern::any_modifiers(KeyCode::Digit0),
        KeyBindingPattern::any_modifiers(KeyCode::Digit1),
        KeyBindingPattern::any_modifiers(KeyCode::Digit2),
        KeyBindingPattern::any_modifiers(KeyCode::Digit3),
        KeyBindingPattern::any_modifiers(KeyCode::Digit4),
        KeyBindingPattern::any_modifiers(KeyCode::Digit5),
        KeyBindingPattern::any_modifiers(KeyCode::Digit6),
        KeyBindingPattern::any_modifiers(KeyCode::Digit7),
        KeyBindingPattern::any_modifiers(KeyCode::Digit8),
        KeyBindingPattern::any_modifiers(KeyCode::Digit9),
        KeyBindingPattern::any_modifiers(KeyCode::Numpad0),
        KeyBindingPattern::any_modifiers(KeyCode::Numpad1),
        KeyBindingPattern::any_modifiers(KeyCode::Numpad2),
        KeyBindingPattern::any_modifiers(KeyCode::Numpad3),
        KeyBindingPattern::any_modifiers(KeyCode::Numpad4),
        KeyBindingPattern::any_modifiers(KeyCode::Numpad5),
        KeyBindingPattern::any_modifiers(KeyCode::Numpad6),
        KeyBindingPattern::any_modifiers(KeyCode::Numpad7),
        KeyBindingPattern::any_modifiers(KeyCode::Numpad8),
        KeyBindingPattern::any_modifiers(KeyCode::Numpad9)
    ]
}

/// The keys the preset chooser takes while it is shown.
pub open spec fn spec_preset_chooser_bindings() -> Seq<KeyBindingPattern> {
    seq![
        KeyBindingPattern { key_code: KeyCode::ArrowUp, shift: ModifierRequirement::Any, control: ModifierRequirement::Any, alt: ModifierRequirement::Any },
        KeyBindingPattern { key_code: KeyCode::ArrowDown, shift: ModifierRequirement::Any, control: ModifierRequirement::Any, alt: ModifierRequirement::Any },
        KeyBindingPattern { key_code: KeyCode::Enter, shift: ModifierRequirement::Any, control: ModifierRequirement::Any, alt: ModifierRequirement::Any }
    ]
}

/// The keys the preset chooser takes while it is shown.
pub fn preset_chooser_bindings() -> (patterns: Vec<KeyBindingPattern>)
    ensures
        patterns@ == spec_preset_chooser_bindings(),
{
    vec![
        KeyBindingPattern::any_modifiers(KeyCode::ArrowUp),
        KeyBindingPattern::any_modifiers(KeyCode::ArrowDown),
        KeyBindingPattern::any_modifiers(KeyCode::Enter)
    ]
}

/// Whether one of `patterns` describes `binding`.
pub open spec fn captured_by(binding: KeyBinding, patterns: Seq<KeyBindingPattern>) -> bool {
    exists|i: int| 0 <= i < patterns.len() && pattern_matches(#[trigger] patterns[i], binding)
}

/// Whether one of `patterns` describes `binding`.
pub fn binding_captured(binding: KeyBinding, patterns: &Vec<KeyBindingPattern>) -> (captured: bool)
    ensures
        captured == captured_by(binding, patterns@),
{
    let mut i: usize = 0;
    while i < patterns.len()
        invariant
            i <= patterns@.len(),
            forall|j: int| 0 <= j < i ==> !pattern_matches(#[trigger] patterns@[j], binding),
        decreases patterns@.len() - i,
    {
        if patterns[i].matches(binding) {
            return true;
        }
        i += 1;
    }
    false
}

/// The F-pages that take over the keyboard.
#[derive(Clone, Copy, Debug, PartialEq, Eq, Structural)]
pub enum ControlPage {
    EffectTuner,
    ScenePresets,
}

/// What is printed when `page` closes.
pub open spec fn closed_message_text(page: ControlPage) -> Seq<char> {
    match page {
        ControlPage::EffectTuner => "F2 control page closed."@,
        ControlPage::ScenePresets => "Scene preset page closed."@,
    }
}

impl ControlPage {
    /// What is printed when the page closes.
    pub fn closed_message(self) -> (message: &'static str)
        ensures
            message@ == closed_message_text(self),
    {
        match self {
            ControlPage::EffectTuner => "F2 control page closed.",
            ControlPage::ScenePresets => "Scene preset page closed.",
        }
    }
}

/// The F-page that is open, if any: at most one is open at a time.
#[derive(Clone, Copy, Debug, Default, PartialEq, Eq, Structural)]
pub struct ControlPageState {
    pub active_page: Option<ControlPage>,
}

impl ControlPageState {
    /// The open page, if any.
    pub fn active_page(&self) -> (page: Option<ControlPage>)
        ensures
            page == self.active_page,
    {
        self.active_page
    }

    /// Whether `page` is the open page.
    pub fn is_active(&self, page: ControlPage) -> (active: bool)
        ensures
            active == (self.active_page == Some(page)),
    {
        match self.active_page {
            Some(open) => open == page,
            None => false,
        }
    }

    /// The page that has the keyboard focus: the open page.
    pub fn focused_page(&self) -> (page: Option<ControlPage>)
        ensures
            page == self.active_page,
    {
        self.active_page()
    }

    /// Whether `page` has the keyboard focus.
    pub fn page_has_focus(&self, page: ControlPage) -> (focused: bool)
        ensures
            focused == (self.active_page == Some(page)),
    {
        match self.focused_page() {
            Some(open) => open == page,
            None => false,
        }
    }

    /// Opens `page`, closing the page that was open before; hands back that page, or
    /// `None` when no page or `page` itself was open.
    pub fn open_page(&mut self, page: ControlPage) -> (previous: Option<ControlPage>)
        ensures
            final(self).active_page == Some(page),
            previous == if old(self).active_page == Some(page) { None } else { old(self).active_page },
    {
        if self.is_active(page) {
            return None;
        }
        let previous = self.active_page;
        self.active_page = Some(page);
        previous
    }

    /// Closes the open page and hands it back.
    pub fn close_active_page(&mut self) -> (closed: Option<ControlPage>)
        ensures
            final(self).active_page is None,
            closed == old(self).active_page,
    {
        let closed = self.active_page;
        self.active_page = None;
        closed
    }
}

/// Which key bindings the open page takes from the rest of the program.
#[derive(Clone, Copy, Debug, Default, PartialEq, Eq, Structural)]
pub struct ControlPageInputMask {
    pub active_page: Option<ControlPage>,
    pub preset_chooser_visible: bool,
}

/// Whether a mask takes `binding`: the live control page takes its navigation and
/// number keys, the preset page its command and digit keys and, while the chooser is
/// shown, the chooser keys; with no page open nothing is taken.
pub open spec fn mask_captures(mask: ControlPageInputMask, binding: KeyBinding) -> bool {
    match mask.active_page {
        Some(ControlPage::EffectTuner) => captured_by(binding, spec_effect_tuner_bindings())
            || captured_by(binding, spec_effect_tuner_numeric_bindings()),
        Some(ControlPage::ScenePresets) => captured_by(binding, spec_preset_page_bindings())
            || (mask.preset_chooser_visible && captured_by(binding, spec_preset_chooser_bindings())),
        None => false,
    }
}

/// The number character a key types without Ctrl or Alt, with Shift held when `shift`,
/// on a US keyboard: the digit keys and keypad digits, the point and comma, the minus
/// and keypad minus, Shift with the equals key and the keypad plus, and the keypad
/// decimal point.
pub open spec fn typed_number_char(key_code: KeyCode, shift: bool) -> Option<char> {
    match key_code {
        KeyCode::Digit0 => if shift { None } else { Some('0') },
        KeyCode::Digit1 => if shift { None } else { Some('1') },
        KeyCode::Digit2 => if shift { None } else { Some('2') },
        KeyCode::Digit3 => if shift { None } else { Some('3') },
        KeyCode::Digit4 => if shift { None } else { Some('4') },
        KeyCode::Digit5 => if shift { None } else { Some('5') },
        KeyCode::Digit6 => if shift { None } else { Some('6') },
        KeyCode::Digit7 => if shift { None } else { Some('7') },
        KeyCode::Digit8 => if shift { None } else { Some('8') },
        KeyCode::Digit9 => if shift { None } else { Some('9') },
        KeyCode::Numpad0 => Some('0'),
        KeyCode::Numpad1 => Some('1'),
        KeyCode::Numpad2 => Some('2'),
        KeyCode::Numpad3 => Some('3'),
        KeyCode::Numpad4 => Some('4'),
        KeyCode::Numpad5 => Some('5'),
        KeyCode::Numpad6 => Some('6'),
        KeyCode::Numpad7 => Some('7'),
        KeyCode::Numpad8 => Some('8'),
        KeyCode::Numpad9 => Some('9'),
        KeyCode::Period => if shift { None } else { Some('.') },
        KeyCode::Comma => if shift { None } else { Some(',') },
        KeyCode::Minus => if shift { None } else { Some('-') },
        KeyCode::Equal => if shift { Some('+') } else { None },
        KeyCode::NumpadDecimal => Some('.'),
        KeyCode::NumpadSubtract => Some('-'),
        KeyCode::NumpadAdd => Some('+'),
        _ => None,
    }
}

/// With the live control page open, every key press that types a number character
/// without Ctrl or Alt is taken by the page, so typing a number there never reaches the
/// rest of the program; the characters are those a number entry uses.
pub proof fn live_page_takes_every_number_key(binding: KeyBinding, preset_chooser_visible: bool)
    requires
        !binding.modifiers.control,
        !binding.modifiers.alt,
        typed_number_char(binding.key_code, binding.modifiers.shift) is Some,
    ensures
        mask_captures(
            ControlPageInputMask { active_page: Some(ControlPage::EffectTuner), preset_chooser_visible },
            binding,
        ),
        ({
            let c = typed_number_char(binding.key_code, binding.modifiers.shift).unwrap();
            ('0' <= c <= '9') || c == '.' || c == ',' || c == '-' || c == '+'
        }),
{
    let numeric = spec_effect_tuner_numeric_bindings();
    let index: int = match binding.key_code {
        KeyCode::Digit0 => 0,
        KeyCode::Digit1 => 1,
        KeyCode::Digit2 => 2,
        KeyCode::Digit3 => 3,
        KeyCode::Digit4 => 4,
        KeyCode::Digit5 => 5,
        KeyCode::Digit6 => 6,
        KeyCode::Digit7 => 7,
        KeyCode::Digit8 => 8,
        KeyCode::Digit9 => 9,
        KeyCode::Numpad0 => 10,
        KeyCode::Numpad1 => 11,
        KeyCode::Numpad2 => 12,
        KeyCode::Numpad3 => 13,
        KeyCode::Numpad4 => 14,
        KeyCode::Numpad5 => 15,
        KeyCode::Numpad6 => 16,
        KeyCode::Numpad7 => 17,
        KeyCode::Numpad8 => 18,
        KeyCode::Numpad9 => 19,
        KeyCode::Period => 20,
        KeyCode::Comma => 21,
        KeyCode::Minus => 22,
        KeyCode::Equal => 23,
        KeyCode::NumpadDecimal => 24,
        KeyCode::NumpadSubtract => 25,
        _ => 26,
    };
    assert(pattern_matches(numeric[index], binding));
}

impl ControlPageInputMask {
    /// The mask for the open page and the preset chooser.
    pub fn from_states(control_page: &ControlPageState, preset_browser: &PresetBrowserState) -> (mask: ControlPageInputMask)
        ensures
            mask.active_page == control_page.active_page,
            mask.preset_chooser_visible == preset_browser.chooser is Some,
    {
        ControlPageInputMask {
            active_page: control_page.active_page(),
            preset_chooser_visible: preset_browser.chooser_visible(),
        }
    }

    /// Whether the mask takes `binding`.
    pub fn captures_binding(self, binding: KeyBinding) -> (captured: bool)
        ensures
            captured == mask_captures(self, binding),
    {
        match self.active_page {
            Some(ControlPage::EffectTuner) => {
                binding_captured(binding, &effect_tuner_bindings())
                    || binding_captured(binding, &effect_tuner_numeric_bindings())
            },
            Some(ControlPage::ScenePresets) => {
                binding_captured(binding, &preset_page_bindings())
                    || (self.preset_chooser_visible && binding_captured(binding, &preset_chooser_bindings()))
            },
            None => false,
        }
    }
}

/// Closes `page`'s own state.
pub fn close_page(page: ControlPage, effect_tuner: &mut EffectTunerNavigation, preset_browser: &mut PresetBrowserState)
    requires
        old(effect_tuner).well_formed(),
    ensures
        final(effect_tuner).well_formed(),
        page == ControlPage::EffectTuner ==> {
            &&& final(effect_tuner).spec_page_mode() == EffectTunerPageMode::Compact
            &&& !final(effect_tuner).spec_pinned()
            &&& final(effect_tuner).spec_numeric_entry() == Seq::<char>::empty()
            &&& final(effect_tuner).spec_selected_index() == old(effect_tuner).spec_selected_index()
            &&& final(effect_tuner).spec_edit_mode() == old(effect_tuner).spec_edit_mode()
            &&& *final(preset_browser) == *old(preset_browser)
        },
        page == ControlPage::ScenePresets ==> {
            &&& *final(effect_tuner) == *old(effect_tuner)
            &&& final(preset_browser).command == crate::presets::PresetCommand::Load
            &&& final(preset_browser).first_digit is None
            &&& final(preset_browser).chooser is None
            &&& final(preset_browser).status_message@ == Seq::<char>::empty()
            &&& final(preset_browser).records == old(preset_browser).records
            &&& final(preset_browser).highlighted_index == old(preset_browser).highlighted_index
        },
{
    match page {
        ControlPage::EffectTuner => effect_tuner.close_page(),
        ControlPage::ScenePresets => preset_browser.close_page(),
    }
}

/// `after` is the live control page state `before` closed.
pub open spec fn tuner_closed(before: EffectTunerNavigation, after: EffectTunerNavigation) -> bool {
    &&& after.well_formed()
    &&& after.spec_page_mode() == EffectTunerPageMode::Compact
    &&& !after.spec_pinned()
    &&& after.spec_numeric_entry() == Seq::<char>::empty()
    &&& after.spec_selected_index() == before.spec_selected_index()
    &&& after.spec_edit_mode() == before.spec_edit_mode()
}

/// `after` is the preset browser `before` closed.
pub open spec fn presets_closed(before: PresetBrowserState, after: PresetBrowserState) -> bool {
    &&& after.command == crate::presets::PresetCommand::Load
    &&& after.first_digit is None
    &&& after.chooser is None
    &&& after.status_message@ == Seq::<char>::empty()
    &&& after.records == before.records
    &&& after.highlighted_index == before.highlighted_index
}

/// Closing `page` took the page states from `tuner_before` and `presets_before` to
/// `tuner_after` and `presets_after`; with no page, nothing changed.
pub open spec fn page_closed(
    page: Option<ControlPage>,
    tuner_before: EffectTunerNavigation,
    tuner_after: EffectTunerNavigation,
    presets_before: PresetBrowserState,
    presets_after: PresetBrowserState,
) -> bool {
    match page {
        Some(ControlPage::EffectTuner) => tuner_closed(tuner_before, tuner_after) && presets_after == presets_before,
        Some(ControlPage::ScenePresets) => tuner_after == tuner_before && presets_closed(presets_before, presets_after),
        None => tuner_after == tuner_before && presets_after == presets_before,
    }
}

/// The function keys pressed in one frame.
#[derive(Clone, Copy, Debug, Default, PartialEq, Eq, Structural)]
pub struct FunctionKeys {
    pub escape: bool,
    pub f1: bool,
    pub f2: bool,
    pub f3: bool,
}

/// What the help overlay does after the function keys were handled.
#[derive(Clone, Copy, Debug, PartialEq, Eq, Structural)]
pub enum HelpOverlayChange {
    Keep,
    Hide,
    Cycle,
}

/// What handling the function keys asks of the caller: a change of the help overlay,
/// a message to print, and whether the preset page is to be opened, which first
/// reads the preset directory and then calls `finish_opening_preset_page`.
#[derive(Clone, Copy, Debug)]
pub struct ControlPageReaction {
    pub help: HelpOverlayChange,
    pub message: Option<&'static str>,
    pub open_preset_page: bool,
}

/// `message` is `text`.
pub open spec fn says(message: Option<&'static str>, text: Seq<char>) -> bool {
    message matches Some(m) && m@ == text
}

/// Printed when `page` closes, if a page closes.
pub open spec fn says_closed(message: Option<&'static str>, page: Option<ControlPage>) -> bool {
    match page {
        Some(p) => says(message, closed_message_text(p)),
        None => message is None,
    }
}

impl ControlPageState {
    /// Handles the function keys of one frame. Escape closes the open page, or else
    /// the help overlay; F1 closes the open page and cycles the help overlay; F2 opens
    /// the live control page compact, then switches it to the list, then closes it;
    /// F3 closes the preset page when it is open and asks for it to be opened
    /// otherwise. The first of these keys that applies is the only one handled.
    pub fn handle_function_keys(
        &mut self,
        keys: FunctionKeys,
        help_visible: bool,
        effect_tuner: &mut EffectTunerNavigation,
        preset_browser: &mut PresetBrowserState,
    ) -> (reaction: ControlPageReaction)
        requires
            old(effect_tuner).well_formed(),
        ensures
            final(effect_tuner).well_formed(),
            if keys.escape && old(self).active_page is Some {
                &&& final(self).active_page is None
                &&& page_closed(old(self).active_page, *old(effect_tuner), *final(effect_tuner), *old(preset_browser), *final(preset_browser))
                &&& reaction.help == HelpOverlayChange::Keep
                &&& says_closed(reaction.message, old(self).active_page)
                &&& !reaction.open_preset_page
            } else if keys.escape && help_visible {
                &&& *final(self) == *old(self)
                &&& *final(effect_tuner) == *old(effect_tuner)
                &&& *final(preset_browser) == *old(preset_browser)
                &&& reaction.help == HelpOverlayChange::Hide
                &&& says(reaction.message, "F1 help page closed."@)
                &&& !reaction.open_preset_page
            } else if keys.f1 {
                &&& final(self).active_page is None
                &&& page_closed(old(self).active_page, *old(effect_tuner), *final(effect_tuner), *old(preset_browser), *final(preset_browser))
                &&& reaction.help == HelpOverlayChange::Cycle
                &&& says_closed(reaction.message, old(self).active_page)
                &&& !reaction.open_preset_page
            } else if keys.f2 {
                &&& reaction.help == HelpOverlayChange::Hide
                &&& !reaction.open_preset_page
                &&& *final(preset_browser) == *old(preset_browser) || old(self).active_page == Some(ControlPage::ScenePresets)
                &&& if old(self).active_page == Some(ControlPage::EffectTuner) {
                    if old(effect_tuner).spec_page_mode() == EffectTunerPageMode::Compact {
                        &&& *final(self) == *old(self)
                        &&& final(effect_tuner).spec_page_mode() == EffectTunerPageMode::List
                        &&& final(effect_tuner).spec_pinned() == old(effect_tuner).spec_pinned()
                        &&& final(effect_tuner).spec_selected_index() == old(effect_tuner).spec_selected_index()
                        &&& final(effect_tuner).spec_edit_mode() == old(effect_tuner).spec_edit_mode()
                        &&& final(effect_tuner).spec_numeric_entry() == old(effect_tuner).spec_numeric_entry()
                        &&& *final(preset_browser) == *old(preset_browser)
                        &&& says(reaction.message, "F2 parameter list page pinned open."@)
                    } else {
                        &&& final(self).active_page is None
                        &&& tuner_closed(*old(effect_tuner), *final(effect_tuner))
                        &&& *final(preset_browser) == *old(preset_browser)
                        &&& says(reaction.message, closed_message_text(ControlPage::EffectTuner))
                    }
                } else {
                    &&& final(self).active_page == Some(ControlPage::EffectTuner)
                    &&& old(self).active_page == Some(ControlPage::ScenePresets) ==> presets_closed(*old(preset_browser), *final(preset_browser))
                    &&& final(effect_tuner).spec_page_mode() == EffectTunerPageMode::Compact
                    &&& final(effect_tuner).spec_pinned()
                    &&& final(effect_tuner).spec_selected_index() == old(effect_tuner).spec_selected_index()
                    &&& final(effect_tuner).spec_edit_mode() == old(effect_tuner).spec_edit_mode()
                    &&& final(effect_tuner).spec_numeric_entry() == old(effect_tuner).spec_numeric_entry()
                    &&& says(reaction.message, "F2 control page pinned open."@)
                }
            } else if keys.f3 {
                &&& reaction.help == HelpOverlayChange::Hide
                &&& *final(effect_tuner) == *old(effect_tuner)
                &&& if old(self).active_page == Some(ControlPage::ScenePresets) {
                    &&& final(self).active_page is None
                    &&& presets_closed(*old(preset_browser), *final(preset_browser))
                    &&& says(reaction.message, closed_message_text(ControlPage::ScenePresets))
                    &&& !reaction.open_preset_page
                } else {
                    &&& *final(self) == *old(self)
                    &&& *final(preset_browser) == *old(preset_browser)
                    &&& reaction.message is None
                    &&& reaction.open_preset_page
                }
            } else {
                &&& *final(self) == *old(self)
                &&& *final(effect_tuner) == *old(effect_tuner)
                &&& *final(preset_browser) == *old(preset_browser)
                &&& reaction.help == HelpOverlayChange::Keep
                &&& reaction.message is None
                &&& !reaction.open_preset_page
            },
    {
        if keys.escape {
            if let Some(page) = self.close_active_page() {
                close_page(page, effect_tuner, preset_browser);
                return ControlPageReaction {
                    help: HelpOverlayChange::Keep,
                    message: Some(page.closed_message()),
                    open_preset_page: false,
                };
            }
            if help_visible {
                return ControlPageReaction {
                    help: HelpOverlayChange::Hide,
                    message: Some("F1 help page closed."),
                    open_preset_page: false,
                };
            }
        }
        if keys.f1 {
            let mut message: Option<&'static str> = None;
            if let Some(page) = self.close_active_page() {
                close_page(page, effect_tuner, preset_browser);
                message = Some(page.closed_message());
            }
            return ControlPageReaction { help: HelpOverlayChange::Cycle, message, open_preset_page: false };
        }
        if keys.f2 {
            if self.is_active(ControlPage::EffectTuner) {
                let message = match effect_tuner.page_mode() {
                    EffectTunerPageMode::Compact => {
                        effect_tuner.show_list_page();
                        "F2 parameter list page pinned open."
                    },
                    EffectTunerPageMode::List => {
                        self.close_active_page();
                        effect_tuner.close_page();
                        ControlPage::EffectTuner.closed_message()
                    },
                };
                return ControlPageReaction { help: HelpOverlayChange::Hide, message: Some(message), open_preset_page: false };
            }
            if let Some(previous) = self.open_page(ControlPage::EffectTuner) {
                close_page(previous, effect_tuner, preset_browser);
            }
            effect_tuner.open_page();
            return ControlPageReaction {
                help: HelpOverlayChange::Hide,
                message: Some("F2 control page pinned open."),
                open_preset_page: false,
            };
        }
        if !keys.f3 {
            return ControlPageReaction { help: HelpOverlayChange::Keep, message: None, open_preset_page: false };
        }
        if self.is_active(ControlPage::ScenePresets) {
            self.close_active_page();
            preset_browser.close_page();
            return ControlPageReaction {
                help: HelpOverlayChange::Hide,
                message: Some(ControlPage::ScenePresets.closed_message()),
                open_preset_page: false,
            };
        }
        ControlPageReaction { help: HelpOverlayChange::Hide, message: None, open_preset_page: true }
    }

    /// Opens the preset page once the preset directory was read, closing the page
    /// that was open before.
    pub fn finish_opening_preset_page(
        &mut self,
        effect_tuner: &mut EffectTunerNavigation,
        preset_browser: &mut PresetBrowserState,
    ) -> (message: &'static str)
        requires
            old(effect_tuner).well_formed(),
        ensures
            final(self).active_page == Some(ControlPage::ScenePresets),
            page_closed(
                if old(self).active_page == Some(ControlPage::ScenePresets) { None } else { old(self).active_page },
                *old(effect_tuner),
                *final(effect_tuner),
                *old(preset_browser),
                *final(preset_browser),
            ),
            message@ == "Scene preset mode open. Type two digits to recall a slot."@,
    {
        if let Some(previous) = self.open_page(ControlPage::ScenePresets) {
            close_page(previous, effect_tuner, preset_browser);
        }
        "Scene preset mode open. Type two digits to recall a slot."
    }
}

} // verus!
