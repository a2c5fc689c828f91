//! The text typed into the active numeric field of the control page.
use vstd::prelude::*;
use crate::text::{contains_char, pop_char, push_char};

verus! {

/// Whether `c` is an ASCII decimal digit.
pub open spec fn is_digit(c: char) -> bool {
    '0' <= c <= '9'
}

/// Whether `c` is a character that typing a number can use: a digit, a decimal point
/// or comma, or a sign.
pub fn is_numeric_entry_char(c: char) -> (usable: bool)
    ensures
        usable == (is_digit(c) || c == '.' || c == ',' || c == '-' || c == '+'),
{
    ('0' <= c && c <= '9') || c == '.' || c == ',' || c == '-' || c == '+'
}

/// A partial decimal number: an optional leading sign, digits, and at most one
/// decimal point, which always follows a digit.
pub open spec fn well_formed_entry(text: Seq<char>) -> bool {
    &&& forall|i: int| 0 <= i < text.len() ==>
        is_digit(#[trigger] text[i]) || text[i] == '.' || (i == 0 && (text[i] == '-' || text[i] == '+'))
    &&& forall|i: int, j: int| 0 <= i < j < text.len() ==> !(#[trigger] text[i] == '.' && #[trigger] text[j] == '.')
    &&& forall|i: int| 0 <= i < text.len() && #[trigger] text[i] == '.' ==> i >= 1 && is_digit(text[i - 1])
}

/// The entry after typing `c`, or `None` when the character is refused.
pub open spec fn entry_after_typing(text: Seq<char>, c: char) -> Option<Seq<char>> {
    if is_digit(c) {
        Some(text.push(c))
    } else if c == '.' || c == ',' {
        if text.contains('.') {
            None
        } else if text.len() == 0 || text == seq!['-'] || text == seq!['+'] {
            Some(text.push('0').push('.'))
        } else {
            Some(text.push('.'))
        }
    } else if c == '-' || c == '+' {
        if text.len() == 0 { Some(text.push(c)) } else { None }
    } else {
        None
    }
}

/// Characters typed into the active numeric field.
#[derive(Debug)]
pub struct NumericEntryBuffer {
    buffer: String,
}

impl View for NumericEntryBuffer {
    type V = Seq<char>;

    closed spec fn view(&self) -> Seq<char> {
        self.buffer@
    }
}

impl NumericEntryBuffer {
    /// An empty entry.
    pub fn new() -> (entry: NumericEntryBuffer)
        ensures
            entry@ == Seq::<char>::empty(),
    {
        NumericEntryBuffer { buffer: String::new() }
    }

    /// The typed text, or `None` when nothing is typed.
    pub fn displayed_text(&self) -> (text: Option<&str>)
        ensures
            match text {
                Some(t) => self@.len() > 0 && t@ == self@,
                None => self@.len() == 0,
            },
    {
        if self.buffer.as_str().is_empty() {
            None
        } else {
            Some(self.buffer.as_str())
        }
    }

    /// Types `character`: digits are appended; a point or comma adds a decimal point
    /// (after a `0` when no digit precedes it) unless one is present; a sign is kept
    /// only as the first character. Returns whether the character was taken.
    pub fn push(&mut self, character: char) -> (accepted: bool)
        ensures
            accepted == entry_after_typing(old(self)@, character).is_some(),
            final(self)@ == match entry_after_typing(old(self)@, character) {
                Some(next) => next,
                None => old(self)@,
            },
            well_formed_entry(old(self)@) ==> well_formed_entry(final(self)@),
    {
        let ghost before = self.buffer@;
        if '0' <= character && character <= '9' {
            push_char(&mut self.buffer, character);
            proof { lemma_push_keeps_well_formed(before, character); }
            true
        } else if character == '.' || character == ',' {
            if contains_char(self.buffer.as_str(), '.') {
                return false;
            }
            let len = self.buffer.as_str().unicode_len();
            let lone_sign = len == 1 && (self.buffer.as_str().get_char(0) == '-' || self.buffer.as_str().get_char(0) == '+');
            proof {
                if len == 1 {
                    if self@[0] == '-' {
                        assert(self@ =~= seq!['-']);
                    }
                    if self@[0] == '+' {
                        assert(self@ =~= seq!['+']);
                    }
                }
            }
            if len == 0 || lone_sign {
                push_char(&mut self.buffer, '0');
            }
            push_char(&mut self.buffer, '.');
            proof { lemma_push_keeps_well_formed(before, character); }
            true
        } else if character == '-' || character == '+' {
            if self.buffer.as_str().is_empty() {
                push_char(&mut self.buffer, character);
                proof { lemma_push_keeps_well_formed(before, character); }
                true
            } else {
                false
            }
        } else {
            false
        }
    }

    /// Erases the last typed character. Returns whether there was one.
    pub fn backspace(&mut self) -> (erased: bool)
        ensures
            erased == (old(self)@.len() > 0),
            final(self)@ == if erased { old(self)@.drop_last() } else { old(self)@ },
            well_formed_entry(old(self)@) ==> well_formed_entry(final(self)@),
    {
        pop_char(&mut self.buffer).is_some()
    }

    /// Erases the whole entry.
    pub fn clear(&mut self)
        ensures
            final(self)@ == Seq::<char>::empty(),
    {
        self.buffer = String::new();
    }

    /// Whether the entry is one of the texts that do not yet name a number: empty, a
    /// lone sign, a lone point, or a sign followed by a point.
    pub fn is_incomplete(&self) -> (incomplete: bool)
        ensures
            incomplete == (self@ == Seq::<char>::empty() || self@ == seq!['-'] || self@ == seq!['+']
                || self@ == seq!['.'] || self@ == seq!['-', '.'] || self@ == seq!['+', '.']),
    {
        let text = self.buffer.as_str();
        let len = text.unicode_len();
        if len == 0 {
            assert(self@ =~= Seq::<char>::empty());
            return true;
        }
        if len > 2 {
            return false;
        }
        let first = text.get_char(0);
        if len == 1 {
            proof {
                if first == '-' {
                    assert(self@ =~= seq!['-']);
                }
                if first == '+' {
                    assert(self@ =~= seq!['+']);
                }
                if first == '.' {
                    assert(self@ =~= seq!['.']);
                }
            }
            return first == '-' || first == '+' || first == '.';
        }
        let second = text.get_char(1);
        proof {
            if first == '-' && second == '.' {
                assert(self@ =~= seq!['-', '.']);
            }
            if first == '+' && second == '.' {
                assert(self@ =~= seq!['+', '.']);
            }
        }
        (first == '-' || first == '+') && second == '.'
    }
}

proof fn lemma_push_keeps_well_formed(text: Seq<char>, c: char)
    requires
        entry_after_typing(text, c).is_some(),
    ensures
        well_formed_entry(text) ==> well_formed_entry(entry_after_typing(text, c).unwrap()),
{
    if well_formed_entry(text) {
        let next = entry_after_typing(text, c).unwrap();
        if c == '.' || c == ',' {
            if text.len() == 0 || text == seq!['-'] || text == seq!['+'] {
                assert(next[next.len() - 2] == '0');
            } else {
                let last = text[text.len() - 1];
                assert(last != '.');
                if last == '-' || last == '+' {
                    assert(text.len() == 1);
                    assert(text == seq![last]);
                }
            }
            assert forall|i: int, j: int| 0 <= i < j < next.len() implies !(#[trigger] next[i] == '.' && #[trigger] next[j] == '.') by {
                if next[i] == '.' && next[j] == '.' {
                    assert(text.contains(next[i]) || i >= text.len());
                }
            }
        }
    }
}

/// Typing never alters what was already typed: an accepted character leaves the old
/// entry in front, adds at most two characters, and ends the entry with the digit or
/// sign typed, or with a point for a point or comma. A typed digit is appended as it is.
pub proof fn typing_keeps_the_entry_in_front(text: Seq<char>, c: char)
    ensures
        entry_after_typing(text, c) matches Some(next) ==> {
            &&& text.len() < next.len() <= text.len() + 2
            &&& next.subrange(0, text.len() as int) == text
            &&& next.last() == if c == ',' { '.' } else { c }
        },
        is_digit(c) ==> entry_after_typing(text, c) == Some(text.push(c)),
{
    if let Some(next) = entry_after_typing(text, c) {
        assert(next.subrange(0, text.len() as int) =~= text);
    }
}

/// A decimal point typed after a digit is appended on its own, with nothing inserted
/// before it; only an entry without a digit (empty, or a lone sign) gets a `0` first.
/// A second point is refused.
pub proof fn a_point_after_a_digit_is_appended_alone(text: Seq<char>, c: char)
    requires
        c == '.' || c == ',',
    ensures
        text.len() > 0 && is_digit(text.last()) && !text.contains('.')
            ==> entry_after_typing(text, c) == Some(text.push('.')),
        text.contains('.') ==> entry_after_typing(text, c) is None,
        entry_after_typing(text, c) matches Some(next) && next.len() == text.len() + 2
            ==> forall|i: int| 0 <= i < text.len() ==> !is_digit(#[trigger] text[i]),
{
    if text.len() > 0 && is_digit(text.last()) {
        assert(text != seq!['-']) by {
            if text == seq!['-'] {
                assert(text.last() == '-');
            }
        }
        assert(text != seq!['+']) by {
            if text == seq!['+'] {
                assert(text.last() == '+');
            }
        }
    }
    if let Some(next) = entry_after_typing(text, c) {
        if next.len() == text.len() + 2 {
            assert forall|i: int| 0 <= i < text.len() implies !is_digit(#[trigger] text[i]) by {
                if text == seq!['-'] || text == seq!['+'] {
                    assert(i == 0);
                }
            }
        }
    }
}

} // verus!
