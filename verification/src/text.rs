//! Decimal rendering of integers and small string-building helpers.
use vstd::prelude::*;

verus! {

/// The character of a decimal digit.
pub open spec fn digit_char(d: nat) -> char
    recommends
        d < 10,
{
    (d + 48) as char
}

/// Decimal digits of `n`, most significant first, without leading zeros ("0" for zero).
pub open spec fn decimal(n: nat) -> Seq<char>
    decreases n,
{
    if n < 10 {
        seq![digit_char(n)]
    } else {
        decimal(n / 10).push(digit_char(n % 10))
    }
}

/// `count` copies of the character `c`.
pub open spec fn repeat_char(c: char, count: nat) -> Seq<char>
    decreases count,
{
    if count == 0 {
        Seq::empty()
    } else {
        repeat_char(c, (count - 1) as nat).push(c)
    }
}

/// Decimal digits of `n`, padded with leading zeros to at least `width` characters.
pub open spec fn zero_padded(n: nat, width: nat) -> Seq<char> {
    let digits = decimal(n);
    if digits.len() < width {
        repeat_char('0', (width - digits.len()) as nat) + digits
    } else {
        digits
    }
}

/// The number that a string of decimal digits spells.
pub open spec fn digits_value(digits: Seq<char>) -> nat
    decreases digits.len(),
{
    if digits.len() == 0 {
        0
    } else {
        digits_value(digits.drop_last()) * 10 + ((digits.last() as int - 48) as nat)
    }
}

proof fn lemma_leading_zeros_value(count: nat, digits: Seq<char>)
    ensures
        digits_value(repeat_char('0', count) + digits) == digits_value(digits),
    decreases count + digits.len(),
{
    if digits.len() == 0 {
        assert(repeat_char('0', count) + digits == repeat_char('0', count));
        if count > 0 {
            lemma_leading_zeros_value((count - 1) as nat, digits);
            assert(repeat_char('0', (count - 1) as nat) + digits == repeat_char('0', (count - 1) as nat));
            assert(repeat_char('0', count).drop_last() == repeat_char('0', (count - 1) as nat));
        }
    } else {
        lemma_leading_zeros_value(count, digits.drop_last());
        assert((repeat_char('0', count) + digits).drop_last() == repeat_char('0', count) + digits.drop_last());
    }
}

proof fn lemma_decimal_value(n: nat)
    ensures
        digits_value(decimal(n)) == n,
    decreases n,
{
    let d = n % 10;
    assert(digit_char(d) as int == d + 48);
    if n < 10 {
        assert(decimal(n).drop_last() == Seq::<char>::empty());
        assert(decimal(n).last() == digit_char(d));
        assert(digits_value(decimal(n)) == digits_value(Seq::<char>::empty()) * 10 + d);
    } else {
        lemma_decimal_value(n / 10);
        assert(decimal(n).drop_last() == decimal(n / 10));
        assert(decimal(n).last() == digit_char(d));
        assert(digits_value(decimal(n)) == digits_value(decimal(n / 10)) * 10 + d);
        assert((n / 10) * 10 + d == n);
    }
}

/// Zero-padded decimal text spells the number it was made from, so different
/// numbers get different texts.
pub proof fn zero_padded_value(n: nat, width: nat)
    ensures
        digits_value(zero_padded(n, width)) == n,
{
    lemma_decimal_value(n);
    if decimal(n).len() < width {
        lemma_leading_zeros_value((width - decimal(n).len()) as nat, decimal(n));
    }
}

/// Whether `path` is one of `existing`.
pub open spec fn path_listed(existing: Seq<String>, path: Seq<char>) -> bool {
    exists|j: int| 0 <= j < existing.len() && #[trigger] existing[j]@ == path
}

/// Whether `path` is one of `existing`.
pub fn is_listed(existing: &Vec<String>, path: &String) -> (listed: bool)
    ensures
        listed == path_listed(existing@, path@),
{
    let mut j: usize = 0;
    while j < existing.len()
        invariant
            j <= existing@.len(),
            forall|k: int| 0 <= k < j ==> #[trigger] existing@[k]@ != path@,
        decreases existing@.len() - j,
    {
        if existing[j] == *path {
            return true;
        }
        j += 1;
    }
    false
}

/// When the names `name(0) ..= name(count)` of an injective naming are all among
/// `existing`, there are more than `count` existing names.
pub proof fn lemma_taken_names_bound(existing: Seq<String>, name: spec_fn(nat) -> Seq<char>, count: nat)
    requires
        forall|a: nat, b: nat| #[trigger] name(a) == #[trigger] name(b) ==> a == b,
        forall|k: nat| k <= count ==> path_listed(existing, #[trigger] name(k)),
    ensures
        count < existing.len(),
{
    let candidate = |k: int| name(k as nat);
    let range = vstd::set_lib::set_int_range(0, count as int + 1);
    vstd::set_lib::lemma_int_range(0, count as int + 1);
    assert(vstd::relations::injective_on(candidate, range)) by {
        assert forall|x: int, y: int|
            range.contains(x) && range.contains(y) && #[trigger] candidate(x) == #[trigger] candidate(y) implies x == y by {
            assert(name(x as nat) == name(y as nat));
        }
    }
    let image = range.map(candidate);
    vstd::set_lib::lemma_map_size(range, image, candidate);
    let views = existing.map_values(|path: String| path@);
    let listed = views.to_set();
    views.lemma_cardinality_of_set();
    vstd::seq_lib::seq_to_set_is_finite(views);
    assert(image.subset_of(listed)) by {
        assert forall|p: Seq<char>| image.contains(p) implies listed.contains(p) by {
            let k = choose|k: int| range.contains(k) && p == candidate(k);
            assert(path_listed(existing, name(k as nat)));
            let j = choose|j: int| 0 <= j < existing.len() && #[trigger] existing[j]@ == p;
            assert(views[j] == p);
        }
    }
    vstd::set_lib::lemma_len_subset(image, listed);
}

/// Appends one character to a string.
#[verifier::external_body]
pub(crate) fn push_char(text: &mut String, c: char)
    ensures
        final(text)@ == old(text)@.push(c),
{
    text.push(c);
}

/// Appends `suffix` to `text`.
pub fn push_str(text: &mut String, suffix: &str)
    ensures
        final(text)@ == old(text)@ + suffix@,
{
    text.append(suffix);
}

/// Removes and returns the last character of a string, if any.
#[verifier::external_body]
pub(crate) fn pop_char(text: &mut String) -> (last: Option<char>)
    ensures
        match last {
            Some(c) => old(text)@.len() > 0 && c == old(text)@.last() && final(text)@ == old(text)@.drop_last(),
            None => old(text)@.len() == 0 && final(text)@ == old(text)@,
        },
{
    text.pop()
}

/// Appends the characters `from .. to` of `source` to `text`.
pub fn push_chars(text: &mut String, source: &str, from: usize, to: usize)
    requires
        from <= to <= source@.len(),
    ensures
        final(text)@ == old(text)@ + source@.subrange(from as int, to as int),
{
    let ghost start = text@;
    let mut i: usize = from;
    while i < to
        invariant
            from <= i <= to,
            to <= source@.len(),
            text@ == start + source@.subrange(from as int, i as int),
        decreases to - i,
    {
        push_char(text, source.get_char(i));
        assert(source@.subrange(from as int, i + 1) == source@.subrange(from as int, i as int).push(source@[i as int]));
        i += 1;
    }
}

/// Whether `c` has the Unicode `White_Space` property: the control characters tab
/// through carriage return, space, next line, no-break space, Ogham space mark, the
/// spaces from en quad through hair space, the line and paragraph separators, narrow
/// no-break space, medium mathematical space and ideographic space.
pub open spec fn is_unicode_whitespace(c: char) -> bool {
    let code = c as u32;
    ||| 0x09 <= code <= 0x0D
    ||| code == 0x20
    ||| code == 0x85
    ||| code == 0xA0
    ||| code == 0x1680
    ||| 0x2000 <= code <= 0x200A
    ||| code == 0x2028
    ||| code == 0x2029
    ||| code == 0x202F
    ||| code == 0x205F
    ||| code == 0x3000
}

/// `char::is_whitespace`: whether `c` has the Unicode `White_Space` property, which
/// std documents and `is_unicode_whitespace` lists.
#[verifier::external_body]
pub(crate) fn is_whitespace(c: char) -> (white: bool)
    ensures
        white == is_unicode_whitespace(c),
{
    c.is_whitespace()
}

/// `text` without its leading characters flagged in `white` (`white[i]` flags `text[i]`).
pub open spec fn trim_start_flagged(text: Seq<char>, white: Seq<bool>) -> Seq<char>
    decreases text.len(),
{
    if text.len() > 0 && white.len() > 0 && white[0] {
        trim_start_flagged(text.drop_first(), white.drop_first())
    } else {
        text
    }
}

/// `text` without its trailing characters flagged in `white`.
pub open spec fn trim_end_flagged(text: Seq<char>, white: Seq<bool>) -> Seq<char>
    decreases text.len(),
{
    if text.len() > 0 && white.len() == text.len() && white.last() {
        trim_end_flagged(text.drop_last(), white.drop_last())
    } else {
        text
    }
}

/// `text` without leading and trailing characters flagged in `white`.
pub open spec fn trimmed_flagged(text: Seq<char>, white: Seq<bool>) -> Seq<char> {
    let start = text.len() - trim_start_flagged(text, white).len();
    trim_end_flagged(trim_start_flagged(text, white), white.subrange(start, white.len() as int))
}

/// Which characters of `text` are white space.
pub open spec fn whitespace_flags(text: Seq<char>) -> Seq<bool> {
    text.map_values(|c: char| is_unicode_whitespace(c))
}

/// `text` without leading and trailing white space, as `str::trim` leaves it.
pub open spec fn trimmed(text: Seq<char>) -> Seq<char> {
    trimmed_flagged(text, whitespace_flags(text))
}

proof fn lemma_trim_start_length(text: Seq<char>, white: Seq<bool>)
    ensures
        trim_start_flagged(text, white).len() <= text.len(),
        trim_start_flagged(text, white) == text.subrange(text.len() - trim_start_flagged(text, white).len(), text.len() as int),
    decreases text.len(),
{
    if text.len() > 0 && white.len() > 0 && white[0] {
        lemma_trim_start_length(text.drop_first(), white.drop_first());
        let rest = trim_start_flagged(text.drop_first(), white.drop_first());
        assert(text.drop_first().subrange(text.len() - 1 - rest.len(), text.len() - 1)
            =~= text.subrange(text.len() - rest.len(), text.len() as int));
    } else {
        assert(text.subrange(0, text.len() as int) =~= text);
    }
}

/// The characters `from .. to` of `text` without leading and trailing characters
/// flagged in `white`, where `white[i]` flags `text[i]`.
pub fn trim_flagged(text: &str, from: usize, to: usize, white: &Vec<bool>) -> (trimmed_text: String)
    requires
        from <= to <= text@.len(),
        white@.len() == text@.len(),
    ensures
        trimmed_text@ == trimmed_flagged(text@.subrange(from as int, to as int), white@.subrange(from as int, to as int)),
{
    let ghost part = text@.subrange(from as int, to as int);
    let ghost flags = white@.subrange(from as int, to as int);
    let mut start: usize = from;
    while start < to && white[start]
        invariant
            from <= start <= to,
            to <= text@.len(),
            white@.len() == text@.len(),
            trim_start_flagged(part, flags) == trim_start_flagged(text@.subrange(start as int, to as int), white@.subrange(start as int, to as int)),
        decreases to - start,
    {
        assert(text@.subrange(start as int, to as int).drop_first() == text@.subrange(start + 1, to as int));
        assert(white@.subrange(start as int, to as int).drop_first() == white@.subrange(start + 1, to as int));
        start += 1;
    }
    assert(trim_start_flagged(part, flags) == text@.subrange(start as int, to as int));
    proof {
        lemma_trim_start_length(part, flags);
        assert(flags.subrange(part.len() - trim_start_flagged(part, flags).len(), flags.len() as int)
            =~= white@.subrange(start as int, to as int));
    }
    let mut end: usize = to;
    while end > start && white[end - 1]
        invariant
            from <= start <= end <= to,
            to <= text@.len(),
            white@.len() == text@.len(),
            trimmed_flagged(part, flags) == trim_end_flagged(text@.subrange(start as int, end as int), white@.subrange(start as int, end as int)),
        decreases end - start,
    {
        assert(text@.subrange(start as int, end as int).drop_last() == text@.subrange(start as int, end - 1));
        assert(white@.subrange(start as int, end as int).drop_last() == white@.subrange(start as int, end - 1));
        end -= 1;
    }
    let mut trimmed_text = String::new();
    push_chars(&mut trimmed_text, text, start, end);
    assert(trimmed_text@ =~= text@.subrange(start as int, end as int));
    trimmed_text
}

/// Which characters of `text` are white space.
pub fn whitespace_flags_of(text: &str) -> (white: Vec<bool>)
    ensures
        white@ == whitespace_flags(text@),
{
    let len = text.unicode_len();
    let mut white: Vec<bool> = Vec::new();
    let mut i: usize = 0;
    while i < len
        invariant
            i <= len,
            len == text@.len(),
            white@ == whitespace_flags(text@).subrange(0, i as int),
        decreases len - i,
    {
        white.push(is_whitespace(text.get_char(i)));
        assert(whitespace_flags(text@).subrange(0, i + 1) == whitespace_flags(text@).subrange(0, i as int).push(is_unicode_whitespace(text@[i as int])));
        i += 1;
    }
    assert(whitespace_flags(text@).subrange(0, i as int) == whitespace_flags(text@));
    white
}

/// The characters `from .. to` of `text` without leading and trailing white space.
pub fn trim_range(text: &str, from: usize, to: usize) -> (trimmed_text: String)
    requires
        from <= to <= text@.len(),
    ensures
        trimmed_text@ == trimmed(text@.subrange(from as int, to as int)),
{
    let white = whitespace_flags_of(text);
    assert(whitespace_flags(text@.subrange(from as int, to as int)) =~= white@.subrange(from as int, to as int));
    trim_flagged(text, from, to, &white)
}

/// Whether `text` holds the character `c`.
pub fn contains_char(text: &str, c: char) -> (found: bool)
    ensures
        found == text@.contains(c),
{
    let len = text.unicode_len();
    let mut i: usize = 0;
    while i < len
        invariant
            len == text@.len(),
            i <= len,
            forall|j: int| 0 <= j < i ==> text@[j] != c,
        decreases len - i,
    {
        if text.get_char(i) == c {
            return true;
        }
        i += 1;
    }
    false
}

/// Whether two strings hold the same characters.
pub fn str_equal(a: &str, b: &str) -> (same: bool)
    ensures
        same == (a@ == b@),
{
    a.to_owned() == b.to_owned()
}

/// The decimal digit `d` as a character.
pub fn digit_to_char(d: u64) -> (c: char)
    requires
        d < 10,
    ensures
        c == digit_char(d as nat),
{
    let b: u8 = d as u8 + 48;
    b as char
}

proof fn lemma_decimal_len_positive(n: nat)
    ensures
        decimal(n).len() >= 1,
    decreases n,
{
    if n >= 10 {
        lemma_decimal_len_positive(n / 10);
    }
}

/// Appends the decimal digits of `n` to `text`.
pub fn push_decimal(text: &mut String, n: u64)
    ensures
        final(text)@ == old(text)@ + decimal(n as nat),
{
    let mut digits: Vec<char> = Vec::new();
    let mut rest: u64 = n;
    // digits collects the decimal digits of n, least significant first
    loop
        invariant_except_break
            decimal(n as nat) == decimal(rest as nat) + digits@.reverse(),
        ensures
            decimal(n as nat) == digits@.reverse(),
        decreases rest,
    {
        let d = rest % 10;
        let c = digit_to_char(d);
        proof {
            if rest >= 10 {
                assert(decimal(rest as nat) == decimal((rest / 10) as nat).push(c));
                assert(digits@.push(c).reverse() == seq![c] + digits@.reverse());
                assert(decimal(rest as nat) + digits@.reverse() == decimal((rest / 10) as nat) + digits@.push(c).reverse());
            } else {
                assert(decimal(rest as nat) == seq![c]);
                assert(digits@.push(c).reverse() == seq![c] + digits@.reverse());
            }
        }
        digits.push(c);
        if rest < 10 {
            break;
        }
        rest = rest / 10;
    }
    let ghost start = text@;
    let mut i: usize = digits.len();
    while i > 0
        invariant
            i <= digits@.len(),
            decimal(n as nat) == digits@.reverse(),
            text@ == start + digits@.reverse().subrange(0, (digits@.len() - i) as int),
        decreases i,
    {
        i = i - 1;
        push_char(text, digits[i]);
        proof {
            let r = digits@.reverse();
            assert(r[(digits@.len() - 1 - i) as int] == digits@[i as int]);
            assert(r.subrange(0, (digits@.len() - i) as int) == r.subrange(0, (digits@.len() - 1 - i) as int).push(digits@[i as int]));
        }
    }
    assert(digits@.reverse().subrange(0, digits@.len() as int) == digits@.reverse());
}

/// Appends the decimal digits of `n` to `text`, padded with leading zeros to `width` characters.
pub fn push_zero_padded(text: &mut String, n: u64, width: usize)
    ensures
        final(text)@ == old(text)@ + zero_padded(n as nat, width as nat),
{
    let mut digits = String::new();
    push_decimal(&mut digits, n);
    let len = digits.as_str().unicode_len();
    if len < width {
        let mut k: usize = 0;
        let ghost start = text@;
        while k < width - len
            invariant
                k <= width - len,
                text@ == start + repeat_char('0', k as nat),
            decreases width - len - k,
        {
            push_char(text, '0');
            k = k + 1;
        }
    }
    text.append(digits.as_str());
}

/// `parts` joined with `separator` between neighbours.
pub open spec fn joined(parts: Seq<Seq<char>>, separator: Seq<char>) -> Seq<char>
    decreases parts.len(),
{
    if parts.len() == 0 {
        Seq::empty()
    } else if parts.len() == 1 {
        parts[0]
    } else {
        joined(parts.drop_last(), separator) + separator + parts.last()
    }
}

/// Joining a concatenation joins the two joins with one separator between them.
pub proof fn lemma_joined_append(a: Seq<Seq<char>>, b: Seq<Seq<char>>, separator: Seq<char>)
    ensures
        joined(a + b, separator) == if a.len() == 0 {
            joined(b, separator)
        } else if b.len() == 0 {
            joined(a, separator)
        } else {
            joined(a, separator) + separator + joined(b, separator)
        },
    decreases b.len(),
{
    if b.len() == 0 {
        assert(a + b == a);
    } else if a.len() == 0 {
        assert(a + b == b);
    } else if b.len() == 1 {
        assert((a + b).drop_last() == a);
    } else {
        lemma_joined_append(a, b.drop_last(), separator);
        assert((a + b).drop_last() == a + b.drop_last());
    }
}

/// Whether `text` holds no line break.
pub open spec fn has_no_line_break(text: Seq<char>) -> bool {
    forall|i: int| 0 <= i < text.len() ==> text[i] != '\n'
}

/// The position of the last line break before position `end` of `text`, or -1 when
/// there is none.
pub open spec fn last_line_break_before(text: Seq<char>, end: int) -> int
    decreases end,
{
    if end <= 0 {
        -1
    } else if text[end - 1] == '\n' {
        end - 1
    } else {
        last_line_break_before(text, end - 1)
    }
}

/// The lines of `text`: the pieces between its line breaks, in order.
pub open spec fn lines_of(text: Seq<char>) -> Seq<Seq<char>>
    decreases text.len(),
{
    let b = last_line_break_before(text, text.len() as int);
    if 0 <= b < text.len() {
        lines_of(text.subrange(0, b)).push(text.subrange(b + 1, text.len() as int))
    } else {
        seq![text]
    }
}

/// With no line break in `text[from .. end]`, the last line break before `end` is the
/// last one before `from`.
proof fn lemma_last_line_break_skips(text: Seq<char>, from: int, end: int)
    requires
        0 <= from <= end <= text.len(),
        forall|i: int| from <= i < end ==> text[i] != '\n',
    ensures
        last_line_break_before(text, end) == last_line_break_before(text, from),
    decreases end - from,
{
    if end > from {
        lemma_last_line_break_skips(text, from, end - 1);
    }
}

/// Pieces free of line breaks, joined with line breaks, split back into the same
/// pieces.
pub proof fn lemma_lines_of_joined(parts: Seq<Seq<char>>)
    requires
        parts.len() > 0,
        forall|k: int| 0 <= k < parts.len() ==> has_no_line_break(#[trigger] parts[k]),
    ensures
        lines_of(joined(parts, "\n"@)) == parts,
    decreases parts.len(),
{
    reveal_strlit("\n");
    let text = joined(parts, "\n"@);
    if parts.len() == 1 {
        assert(has_no_line_break(parts[0]));
        lemma_last_line_break_skips(text, 0, text.len() as int);
        assert(lines_of(text) == seq![text]);
        assert(parts =~= seq![parts[0]]);
    } else {
        let front = parts.drop_last();
        let head = joined(front, "\n"@);
        let last = parts.last();
        assert(has_no_line_break(parts[parts.len() - 1]));
        assert(text == head + "\n"@ + last);
        let b = head.len() as int;
        assert(text[b] == '\n');
        assert forall|i: int| b + 1 <= i < text.len() implies text[i] != '\n' by {
            assert(text[i] == last[i - b - 1]);
        }
        lemma_last_line_break_skips(text, b + 1, text.len() as int);
        assert(last_line_break_before(text, b + 1) == b);
        assert(text.subrange(0, b) =~= head);
        assert(text.subrange(b + 1, text.len() as int) =~= last);
        assert forall|k: int| 0 <= k < front.len() implies has_no_line_break(#[trigger] front[k]) by {
            assert(front[k] == parts[k]);
        }
        lemma_lines_of_joined(front);
        assert(front.push(last) =~= parts);
    }
}

/// `lines` joined with line breaks.
pub fn join_lines(lines: &Vec<String>) -> (text: String)
    ensures
        text@ == joined(lines.deep_view(), "\n"@),
{
    let mut text = String::new();
    let mut i: usize = 0;
    while i < lines.len()
        invariant
            i <= lines@.len(),
            text@ == joined(lines.deep_view().subrange(0, i as int), "\n"@),
        decreases lines@.len() - i,
    {
        if i > 0 {
            push_str(&mut text, "\n");
        }
        push_str(&mut text, lines[i].as_str());
        proof {
            let next = lines.deep_view().subrange(0, i + 1);
            assert(next.drop_last() == lines.deep_view().subrange(0, i as int));
            assert(next.last() == lines@[i as int]@);
        }
        i += 1;
    }
    assert(lines.deep_view().subrange(0, lines@.len() as int) == lines.deep_view());
    text
}

} // verus!
