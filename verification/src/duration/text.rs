//! The duration field as text: reading a number with a unit or a clock, and
//! writing a clock.

use vstd::prelude::*;
use super::{clock, lemma_clock_round_trip, magnitude, magnitude_of, Clock, Magnitude, Unit};

verus! {

/// Whether a character has the Unicode property White_Space.
pub uninterp spec fn whitespace(c: char) -> bool;

/// The lower-case form of a text as Unicode defines it.
pub uninterp spec fn lowercase(text: Seq<char>) -> Seq<char>;

/// Whether `c` is white space.
///
/// Calls `char::is_whitespace`, which decides by the Unicode property
/// White_Space. The contract gives that answer a name and claims nothing
/// else of it.
#[verifier::external_body]
fn is_whitespace(c: char) -> (white: bool)
    ensures
        white == whitespace(c),
{
    c.is_whitespace()
}

/// The lower-case form of `text`.
///
/// Calls `str::to_lowercase`, which maps the text as the Unicode property
/// Lowercase defines. The contract gives the result a name and claims nothing
/// else of it.
#[verifier::external_body]
fn to_lowercase(text: &str) -> (lower: String)
    ensures
        lower@ == lowercase(text@),
{
    text.to_lowercase()
}

/// Whether a character can stand in a number: a decimal digit, the exponent
/// mark, the sign or the point.
pub open spec fn number_char(c: char) -> bool {
    ('0' <= c && c <= '9') || c == 'e' || c == '-' || c == '.'
}

/// Whether a character can stand in a number.
pub fn is_number_char(c: char) -> (number: bool)
    ensures
        number == number_char(c),
{
    ('0' <= c && c <= '9') || c == 'e' || c == '-' || c == '.'
}

/// The first position at or after `from` that holds no number character;
/// the length of the text where there is none.
pub open spec fn number_end(text: Seq<char>, from: int) -> int
    decreases text.len() - from,
{
    if 0 <= from < text.len() && number_char(text[from]) {
        number_end(text, from + 1)
    } else {
        from
    }
}

/// The first position at or after `from` that holds no white space; the
/// length of the text where there is none.
pub open spec fn content_start(text: Seq<char>, from: int) -> int
    decreases text.len() - from,
{
    if 0 <= from < text.len() && whitespace(text[from]) {
        content_start(text, from + 1)
    } else {
        from
    }
}

/// The end of the content before `to`: the least position, not below
/// `start`, from which on there is only white space up to `to`.
pub open spec fn content_end(text: Seq<char>, start: int, to: int) -> int
    decreases to,
{
    if 0 <= start < to <= text.len() && whitespace(text[to - 1]) {
        content_end(text, start, to - 1)
    } else {
        to
    }
}

/// A text without the white space at its start and at its end.
pub open spec fn trimmed(text: Seq<char>) -> Seq<char> {
    let start = content_start(text, 0);
    let end = content_end(text, start, text.len() as int);
    text.subrange(start, end)
}

/// A text without the white space at its start and at its end.
pub fn trim(text: &str) -> (content: &str)
    ensures
        content@ == trimmed(text@),
{
    let len = text.unicode_len();
    let mut start: usize = 0;
    while start < len && is_whitespace(text.get_char(start))
        invariant
            start <= len,
            len == text@.len(),
            content_start(text@, 0) == content_start(text@, start as int),
        decreases len - start,
    {
        start = start + 1;
    }
    let mut end: usize = len;
    while start < end && is_whitespace(text.get_char(end - 1))
        invariant
            start <= end <= len,
            len == text@.len(),
            content_end(text@, start as int, len as int) == content_end(
                text@,
                start as int,
                end as int,
            ),
        decreases end,
    {
        end = end - 1;
    }
    text.substring_char(start, end)
}

/// Whether two texts are the same, character by character.
pub fn same_text(left: &str, right: &str) -> (same: bool)
    ensures
        same == (left@ == right@),
{
    let len = left.unicode_len();
    if len != right.unicode_len() {
        return false;
    }
    let mut at: usize = 0;
    while at < len
        invariant
            at <= len,
            len == left@.len(),
            len == right@.len(),
            forall|i: int| 0 <= i < at ==> left@[i] == right@[i],
        decreases len - at,
    {
        if left.get_char(at) != right.get_char(at) {
            return false;
        }
        at = at + 1;
    }
    assert(left@ =~= right@);
    true
}

/// The unit that a suffix names, in lower case. No suffix at all means
/// seconds.
pub open spec fn unit_of_suffix(suffix: Seq<char>) -> Option<Unit> {
    if suffix == "ns"@ {
        Some(Unit::Nanoseconds)
    } else if suffix == "us"@ || suffix == "µs"@ {
        Some(Unit::Microseconds)
    } else if suffix == "ms"@ {
        Some(Unit::Milliseconds)
    } else if suffix == ""@ || suffix == "s"@ {
        Some(Unit::Seconds)
    } else if suffix == "m"@ || suffix == "min"@ || suffix == "minutes"@ {
        Some(Unit::Minutes)
    } else if suffix == "h"@ || suffix == "hour"@ || suffix == "hours"@ {
        Some(Unit::Hours)
    } else if suffix == "d"@ || suffix == "day"@ || suffix == "days"@ {
        Some(Unit::Days)
    } else {
        None
    }
}

impl Unit {
    /// The unit that a suffix names, in lower case: `ns`; `us` or `µs`; `ms`;
    /// `s` or nothing; `m`, `min` or `minutes`; `h`, `hour` or `hours`; `d`,
    /// `day` or `days`.
    pub fn from_suffix(suffix: &str) -> (unit: Option<Unit>)
        ensures
            unit == unit_of_suffix(suffix@),
    {
        if same_text(suffix, "ns") {
            Some(Unit::Nanoseconds)
        } else if same_text(suffix, "us") || same_text(suffix, "µs") {
            Some(Unit::Microseconds)
        } else if same_text(suffix, "ms") {
            Some(Unit::Milliseconds)
        } else if same_text(suffix, "") || same_text(suffix, "s") {
            Some(Unit::Seconds)
        } else if same_text(suffix, "m") || same_text(suffix, "min") || same_text(
            suffix,
            "minutes",
        ) {
            Some(Unit::Minutes)
        } else if same_text(suffix, "h") || same_text(suffix, "hour") || same_text(suffix, "hours") {
            Some(Unit::Hours)
        } else if same_text(suffix, "d") || same_text(suffix, "day") || same_text(suffix, "days") {
            Some(Unit::Days)
        } else {
            None
        }
    }
}

/// A number with a unit, as it was written: the text of the number, and the
/// unit that its suffix names.
pub struct Quantity {
    /// The text before the suffix, trimmed.
    pub number: String,
    /// The unit.
    pub unit: Unit,
}

/// The number and the unit that a text is made of. The suffix begins at the
/// first character that cannot stand in a number; it is trimmed and taken in
/// lower case. A text without a suffix, or with one that names no unit, is no
/// quantity.
pub open spec fn quantity_of(text: Seq<char>) -> Option<(Seq<char>, Unit)> {
    let at = number_end(text, 0);
    if at >= text.len() {
        None
    } else {
        match unit_of_suffix(lowercase(trimmed(text.subrange(at, text.len() as int)))) {
            Some(unit) => Some((trimmed(text.subrange(0, at)), unit)),
            None => None,
        }
    }
}

/// Reads a text as a number with a unit, such as `10s`, `10 s` or `5 ms`.
pub fn read_quantity(text: &str) -> (quantity: Option<Quantity>)
    ensures
        match quantity {
            Some(quantity) => quantity_of(text@) == Some((quantity.number@, quantity.unit)),
            None => quantity_of(text@) is None,
        },
{
    let len = text.unicode_len();
    let mut at: usize = 0;
    while at < len && is_number_char(text.get_char(at))
        invariant
            at <= len,
            len == text@.len(),
            number_end(text@, 0) == number_end(text@, at as int),
        decreases len - at,
    {
        at = at + 1;
    }
    if at >= len {
        return None;
    }
    let suffix = to_lowercase(trim(text.substring_char(at, len)));
    match Unit::from_suffix(suffix.as_str()) {
        Some(unit) => {
            let number = trim(text.substring_char(0, at)).to_owned();
            Some(Quantity { number, unit })
        },
        None => None,
    }
}

/// The first position at or after `from` that holds a colon; the length of
/// the text where there is none.
pub open spec fn colon_at(text: Seq<char>, from: int) -> int
    decreases text.len() - from,
{
    if 0 <= from < text.len() && text[from] != ':' {
        colon_at(text, from + 1)
    } else {
        from
    }
}

/// The bounds of `colon_at`.
pub proof fn lemma_colon_at_bounds(text: Seq<char>, from: int)
    requires
        0 <= from <= text.len(),
    ensures
        from <= colon_at(text, from) <= text.len(),
    decreases text.len() - from,
{
    if from < text.len() && text[from] != ':' {
        lemma_colon_at_bounds(text, from + 1);
    }
}

/// The fields of the text from `from` on: the parts between its colons. A
/// text without a colon is one field.
pub open spec fn fields_from(text: Seq<char>, from: int) -> Seq<Seq<char>>
    decreases text.len() - from,
{
    let colon = colon_at(text, from);
    if 0 <= from <= colon < text.len() {
        seq![text.subrange(from, colon)] + fields_from(text, colon + 1)
    } else {
        seq![text.subrange(from, text.len() as int)]
    }
}

/// The fields of a text: the parts between its colons.
pub open spec fn fields(text: Seq<char>) -> Seq<Seq<char>> {
    fields_from(text, 0)
}

/// Cuts a text at its colons.
pub fn split_fields(text: &str) -> (parts: Vec<String>)
    ensures
        parts@.len() == fields(text@).len(),
        forall|i: int| 0 <= i < parts@.len() ==> (#[trigger] parts@[i])@ == fields(text@)[i],
{
    let len = text.unicode_len();
    let mut parts: Vec<String> = Vec::new();
    let mut from: usize = 0;
    loop
        invariant_except_break
            fields(text@).len() == parts@.len() + fields_from(text@, from as int).len(),
            forall|i: int|
                0 <= i < fields_from(text@, from as int).len() ==> fields(text@)[parts@.len() + i]
                    == #[trigger] fields_from(text@, from as int)[i],
        invariant
            from <= len,
            len == text@.len(),
            forall|i: int| 0 <= i < parts@.len() ==> (#[trigger] parts@[i])@ == fields(text@)[i],
        ensures
            parts@.len() == fields(text@).len(),
            forall|i: int| 0 <= i < parts@.len() ==> (#[trigger] parts@[i])@ == fields(text@)[i],
        decreases len - from,
    {
        let mut colon: usize = from;
        while colon < len && text.get_char(colon) != ':'
            invariant
                from <= colon <= len,
                len == text@.len(),
                colon_at(text@, from as int) == colon_at(text@, colon as int),
            decreases len - colon,
        {
            colon = colon + 1;
        }
        let ghost rest = fields_from(text@, from as int);
        let ghost done = parts@.len();
        if colon < len {
            parts.push(text.substring_char(from, colon).to_owned());
            proof {
                let tail = fields_from(text@, colon + 1);
                assert(rest == seq![text@.subrange(from as int, colon as int)] + tail);
                assert(rest[0] == text@.subrange(from as int, colon as int));
                assert forall|i: int| 0 <= i < tail.len() implies fields(text@)[parts@.len() + i]
                    == #[trigger] tail[i] by {
                    assert(rest[i + 1] == tail[i]);
                    assert(fields(text@)[done + (i + 1)] == rest[i + 1]);
                }
            }
            from = colon + 1;
        } else {
            parts.push(text.substring_char(from, len).to_owned());
            proof {
                assert(rest == seq![text@.subrange(from as int, len as int)]);
                assert(rest[0] == text@.subrange(from as int, len as int));
            }
            break;
        }
    }
    parts
}

/// A span written as a clock: the texts of its fields.
pub struct ClockText {
    /// The field of the days, where there are four fields.
    pub days: Option<String>,
    /// The field of the hours, where there are three fields or four.
    pub hours: Option<String>,
    /// The field of the minutes.
    pub minutes: String,
    /// The field of the seconds.
    pub seconds: String,
}

impl ClockText {
    /// The fields from the greatest to the least.
    pub open spec fn texts(self) -> Seq<Seq<char>> {
        let days = match self.days {
            Some(days) => seq![days@],
            None => Seq::empty(),
        };
        let hours = match self.hours {
            Some(hours) => seq![hours@],
            None => Seq::empty(),
        };
        days + hours + seq![self.minutes@, self.seconds@]
    }

    /// A clock has days only where it has hours.
    pub open spec fn wf(self) -> bool {
        self.days is Some ==> self.hours is Some
    }
}

/// Reads a text as a clock: two fields are minutes and seconds, three are
/// hours, minutes and seconds, four are days, hours, minutes and seconds. A
/// text with fewer or more fields is no clock.
pub fn read_clock(text: &str) -> (clock: Option<ClockText>)
    ensures
        match clock {
            Some(clock) => clock.wf() && clock.texts() == fields(text@),
            None => fields(text@).len() < 2 || fields(text@).len() > 4,
        },
{
    let mut parts = split_fields(text);
    let count = parts.len();
    if count < 2 || count > 4 {
        return None;
    }
    let ghost all = parts@;
    let seconds = parts.pop().unwrap();
    let minutes = parts.pop().unwrap();
    let hours = parts.pop();
    let days = parts.pop();
    let clock = ClockText { days, hours, minutes, seconds };
    proof {
        assert(seconds == all[count - 1]);
        assert(minutes == all[count - 2]);
        if count >= 3 {
            assert(hours == Some(all[count - 3]));
        }
        if count == 4 {
            assert(days == Some(all[0]));
        }
        assert(clock.texts() =~= fields(text@));
    }
    Some(clock)
}

/// The character of a decimal digit.
pub open spec fn digit(d: nat) -> char
    recommends
        d < 10,
{
    if d == 0 {
        '0'
    } else if d == 1 {
        '1'
    } else if d == 2 {
        '2'
    } else if d == 3 {
        '3'
    } else if d == 4 {
        '4'
    } else if d == 5 {
        '5'
    } else if d == 6 {
        '6'
    } else if d == 7 {
        '7'
    } else if d == 8 {
        '8'
    } else {
        '9'
    }
}

/// A number in decimal digits, without leading zeros.
pub open spec fn decimal(n: nat) -> Seq<char>
    decreases n,
{
    if n < 10 {
        seq![digit(n)]
    } else {
        decimal(n / 10).push(digit(n % 10))
    }
}

/// A number in decimal digits, with a leading zero where it has one digit
/// only.
pub open spec fn two_digits(n: nat) -> Seq<char> {
    if n < 10 {
        seq!['0', digit(n)]
    } else {
        decimal(n)
    }
}

/// The text of one decimal digit.
fn digit_text(d: u64) -> (text: &'static str)
    requires
        d < 10,
    ensures
        text@ == seq![digit(d as nat)],
{
    proof {
        reveal_strlit("0");
        reveal_strlit("1");
        reveal_strlit("2");
        reveal_strlit("3");
        reveal_strlit("4");
        reveal_strlit("5");
        reveal_strlit("6");
        reveal_strlit("7");
        reveal_strlit("8");
        reveal_strlit("9");
    }
    let text = if d == 0 {
        "0"
    } else if d == 1 {
        "1"
    } else if d == 2 {
        "2"
    } else if d == 3 {
        "3"
    } else if d == 4 {
        "4"
    } else if d == 5 {
        "5"
    } else if d == 6 {
        "6"
    } else if d == 7 {
        "7"
    } else if d == 8 {
        "8"
    } else {
        "9"
    };
    assert(text@ =~= seq![digit(d as nat)]);
    text
}

/// A number in decimal digits, without leading zeros.
pub fn decimal_text(n: u64) -> (text: String)
    ensures
        text@ == decimal(n as nat),
{
    let mut rest: u64 = n / 10;
    let mut text = digit_text(n % 10).to_owned();
    proof {
        if n >= 10 {
            assert(decimal(n as nat) =~= decimal(rest as nat) + text@);
        }
    }
    while rest > 0
        invariant
            rest > 0 ==> decimal(n as nat) == decimal(rest as nat) + text@,
            rest == 0 ==> decimal(n as nat) == text@,
        decreases rest,
    {
        let ghost tail = text@;
        let head = digit_text(rest % 10).to_owned();
        text = head.concat(text.as_str());
        proof {
            if rest >= 10 {
                assert(decimal(rest as nat) == decimal((rest / 10) as nat).push(
                    digit((rest % 10) as nat),
                ));
                assert(decimal(n as nat) =~= decimal((rest / 10) as nat) + text@);
            } else {
                assert(decimal(rest as nat) == seq![digit(rest as nat)]);
                assert(decimal(n as nat) =~= text@);
            }
        }
        rest = rest / 10;
    }
    text
}

/// A number in at least two decimal digits: with a leading zero where it has
/// one digit only.
pub fn two_digit_text(n: u64) -> (text: String)
    ensures
        text@ == two_digits(n as nat),
{
    if n < 10 {
        let text = digit_text(0).to_owned().concat(digit_text(n));
        assert(text@ =~= two_digits(n as nat));
        text
    } else {
        decimal_text(n)
    }
}

/// A span of `secs` whole seconds as a clock shows it: from a day on as
/// days, hours, minutes and seconds; from an hour on as hours, minutes and
/// seconds; below that as minutes and seconds. The fields have two digits at
/// least and stand between colons.
pub open spec fn clock_text_of(secs: nat) -> Seq<char> {
    let clock = Clock::of(secs);
    let low = two_digits(clock.minutes as nat) + seq![':'] + two_digits(clock.seconds as nat);
    match magnitude_of(secs) {
        Magnitude::Days => two_digits(clock.days as nat) + seq![':'] + two_digits(
            clock.hours as nat,
        ) + seq![':'] + low,
        Magnitude::Hours => two_digits(clock.hours as nat) + seq![':'] + low,
        _ => low,
    }
}

/// Shows a span of `secs` whole seconds as a clock.
pub fn format_clock(secs: u64) -> (text: String)
    ensures
        text@ == clock_text_of(secs as nat),
{
    proof {
        reveal_strlit(":");
    }
    let clock = clock(secs);
    let mut text = String::new();
    match magnitude(secs) {
        Magnitude::Days => {
            text.append(two_digit_text(clock.days).as_str());
            text.append(":");
            text.append(two_digit_text(clock.hours).as_str());
            text.append(":");
        },
        Magnitude::Hours => {
            text.append(two_digit_text(clock.hours).as_str());
            text.append(":");
        },
        _ => {},
    }
    text.append(two_digit_text(clock.minutes).as_str());
    text.append(":");
    text.append(two_digit_text(clock.seconds).as_str());
    assert(":"@ =~= seq![':']);
    assert(text@ =~= clock_text_of(secs as nat));
    text
}

/// The number that a decimal digit stands for.
pub open spec fn digit_value(c: char) -> nat {
    if c == '1' {
        1
    } else if c == '2' {
        2
    } else if c == '3' {
        3
    } else if c == '4' {
        4
    } else if c == '5' {
        5
    } else if c == '6' {
        6
    } else if c == '7' {
        7
    } else if c == '8' {
        8
    } else if c == '9' {
        9
    } else {
        0
    }
}

/// The number that a text of decimal digits stands for.
pub open spec fn decimal_value(text: Seq<char>) -> nat
    decreases text.len(),
{
    if text.len() == 0 {
        0
    } else {
        10 * decimal_value(text.drop_last()) + digit_value(text.last())
    }
}

/// The seconds that the fields of a clock stand for, each field read as a
/// decimal number: minutes and seconds; hours, minutes and seconds; or days,
/// hours, minutes and seconds.
pub open spec fn clock_value(fields: Seq<Seq<char>>) -> nat {
    if fields.len() == 2 {
        60 * decimal_value(fields[0]) + decimal_value(fields[1])
    } else if fields.len() == 3 {
        3_600 * decimal_value(fields[0]) + 60 * decimal_value(fields[1]) + decimal_value(fields[2])
    } else if fields.len() == 4 {
        86_400 * decimal_value(fields[0]) + 3_600 * decimal_value(fields[1]) + 60 * decimal_value(
            fields[2],
        ) + decimal_value(fields[3])
    } else {
        0
    }
}

/// A number in decimal consists of digits, one at least, and reads back as
/// the number.
pub proof fn lemma_decimal_reads_back(n: nat)
    ensures
        decimal(n).len() >= 1,
        forall|i: int| 0 <= i < decimal(n).len() ==> #[trigger] decimal(n)[i] != ':',
        decimal_value(decimal(n)) == n,
    decreases n,
{
    if n < 10 {
        let text = decimal(n);
        assert(text.drop_last() =~= Seq::<char>::empty());
        assert(decimal_value(text.drop_last()) == 0);
        assert(text.last() == digit(n));
    } else {
        lemma_decimal_reads_back(n / 10);
        let text = decimal(n);
        assert(text.drop_last() =~= decimal(n / 10));
        assert(text.last() == digit(n % 10));
        assert(digit_value(digit(n % 10)) == n % 10);
        assert forall|i: int| 0 <= i < text.len() implies #[trigger] text[i] != ':' by {
            if i < text.len() - 1 {
                assert(text[i] == decimal(n / 10)[i]);
            }
        }
    }
}

/// A number in at least two digits consists of digits and reads back as the
/// number.
pub proof fn lemma_two_digits_read_back(n: nat)
    ensures
        two_digits(n).len() >= 2,
        forall|i: int| 0 <= i < two_digits(n).len() ==> #[trigger] two_digits(n)[i] != ':',
        decimal_value(two_digits(n)) == n,
{
    lemma_decimal_reads_back(n);
    if n < 10 {
        let text = two_digits(n);
        let zero = text.drop_last();
        assert(zero =~= seq!['0']);
        assert(zero.drop_last() =~= Seq::<char>::empty());
        assert(decimal_value(zero.drop_last()) == 0);
        assert(decimal_value(zero) == 0);
        assert(text.last() == digit(n));
    } else {
        lemma_decimal_reads_back(n / 10);
        assert(decimal(n).len() == decimal(n / 10).len() + 1);
    }
}

/// Where no colon stands between two positions, the next colon is the same
/// from both.
pub proof fn lemma_colon_at_skips(text: Seq<char>, from: int, to: int)
    requires
        0 <= from <= to <= text.len(),
        forall|i: int| from <= i < to ==> text[i] != ':',
    ensures
        colon_at(text, from) == colon_at(text, to),
    decreases to - from,
{
    if from < to {
        lemma_colon_at_skips(text, from + 1, to);
    }
}

/// The next colon in the tail of a text lies where it lies in the tail taken
/// alone, shifted by the length of the head.
pub proof fn lemma_colon_at_shift(head: Seq<char>, tail: Seq<char>, from: int)
    requires
        0 <= from <= tail.len(),
    ensures
        colon_at(head + tail, head.len() + from) == head.len() + colon_at(tail, from),
    decreases tail.len() - from,
{
    let whole = head + tail;
    if from < tail.len() {
        assert(whole[head.len() + from] == tail[from]);
        if tail[from] != ':' {
            lemma_colon_at_shift(head, tail, from + 1);
        }
    }
}

/// The fields in the tail of a text are the fields of the tail taken alone.
pub proof fn lemma_fields_shift(head: Seq<char>, tail: Seq<char>, from: int)
    requires
        0 <= from <= tail.len(),
    ensures
        fields_from(head + tail, head.len() + from) == fields_from(tail, from),
    decreases tail.len() - from,
{
    let whole = head + tail;
    let offset = head.len() as int;
    lemma_colon_at_shift(head, tail, from);
    lemma_colon_at_bounds(tail, from);
    let colon = colon_at(tail, from);
    if colon < tail.len() {
        lemma_fields_shift(head, tail, colon + 1);
        assert(whole.subrange(offset + from, offset + colon) =~= tail.subrange(from, colon));
    } else {
        assert(whole.subrange(offset + from, whole.len() as int) =~= tail.subrange(
            from,
            tail.len() as int,
        ));
    }
}

/// A text without a colon is one field.
pub proof fn lemma_fields_of_plain(text: Seq<char>)
    requires
        forall|i: int| 0 <= i < text.len() ==> text[i] != ':',
    ensures
        fields(text) == seq![text],
{
    lemma_colon_at_skips(text, 0, text.len() as int);
    assert(text.subrange(0, text.len() as int) =~= text);
}

/// A text without a colon, a colon, and more text: the fields are the first
/// text and the fields of the rest.
pub proof fn lemma_fields_of_joined(first: Seq<char>, rest: Seq<char>)
    requires
        forall|i: int| 0 <= i < first.len() ==> first[i] != ':',
    ensures
        fields(first + seq![':'] + rest) == seq![first] + fields(rest),
{
    let head = first + seq![':'];
    let whole = head + rest;
    assert forall|i: int| 0 <= i < first.len() implies whole[i] != ':' by {
        assert(whole[i] == first[i]);
    }
    lemma_colon_at_skips(whole, 0, first.len() as int);
    assert(whole[first.len() as int] == ':');
    assert(colon_at(whole, first.len() as int) == first.len());
    lemma_fields_shift(head, rest, 0);
    assert(whole.subrange(0, first.len() as int) =~= first);
}

/// Reading the clock that shows a span gives back the span: the text has two
/// to four fields, and the fields, read as decimal numbers and weighted by
/// the length of a day, an hour and a minute, sum up to the seconds shown.
pub proof fn lemma_clock_text_round_trip(secs: nat)
    requires
        secs <= u64::MAX,
    ensures
        2 <= fields(clock_text_of(secs)).len() <= 4,
        clock_value(fields(clock_text_of(secs))) == secs,
        magnitude_of(secs) == Magnitude::Hours ==> fields(clock_text_of(secs)).len() == 3,
        magnitude_of(secs) == Magnitude::Days ==> fields(clock_text_of(secs)).len() == 4,
{
    lemma_clock_round_trip(secs);
    let clock = Clock::of(secs);
    let days = two_digits(clock.days as nat);
    let hours = two_digits(clock.hours as nat);
    let minutes = two_digits(clock.minutes as nat);
    let seconds = two_digits(clock.seconds as nat);
    lemma_two_digits_read_back(clock.days as nat);
    lemma_two_digits_read_back(clock.hours as nat);
    lemma_two_digits_read_back(clock.minutes as nat);
    lemma_two_digits_read_back(clock.seconds as nat);
    lemma_fields_of_plain(seconds);
    lemma_fields_of_joined(minutes, seconds);
    let low = minutes + seq![':'] + seconds;
    assert(fields(low) =~= seq![minutes, seconds]);
    match magnitude_of(secs) {
        Magnitude::Days => {
            let middle = hours + seq![':'] + low;
            lemma_fields_of_joined(hours, low);
            lemma_fields_of_joined(days, middle);
            assert(clock_text_of(secs) =~= days + seq![':'] + middle);
            assert(fields(clock_text_of(secs)) =~= seq![days, hours, minutes, seconds]);
        },
        Magnitude::Hours => {
            lemma_fields_of_joined(hours, low);
            assert(clock_text_of(secs) =~= hours + seq![':'] + low);
            assert(fields(clock_text_of(secs)) =~= seq![hours, minutes, seconds]);
        },
        _ => {
            assert(clock_text_of(secs) == low);
        },
    }
}

/// The symbol of every unit names that unit.
pub proof fn lemma_symbol_names_its_unit(unit: Unit)
    ensures
        unit_of_suffix(unit.symbol_of()) == Some(unit),
{
    reveal_strlit("ns");
    reveal_strlit("us");
    reveal_strlit("µs");
    reveal_strlit("ms");
    reveal_strlit("");
    reveal_strlit("s");
    reveal_strlit("m");
    reveal_strlit("min");
    reveal_strlit("minutes");
    reveal_strlit("h");
    reveal_strlit("hour");
    reveal_strlit("hours");
    reveal_strlit("d");
    reveal_strlit("day");
    reveal_strlit("days");
    let symbol = unit.symbol_of();
    match unit {
        Unit::Nanoseconds => {},
        Unit::Microseconds => {
            assert("µs"@.len() == 2 && "µs"@[1] == 's');
            assert("ns"@[0] == 'n' && "us"@[0] == 'u');
        },
        Unit::Milliseconds => {
            assert("ms"@[0] == 'm' && "ns"@[0] == 'n' && "us"@[0] == 'u');
        },
        Unit::Seconds => {
            assert("s"@.len() == 1 && "ns"@.len() == 2 && "us"@.len() == 2 && "µs"@.len() == 2
                && "ms"@.len() == 2);
        },
        Unit::Minutes => {
            assert("min"@.len() == 3 && "ns"@.len() == 2 && "us"@.len() == 2 && "µs"@.len() == 2
                && "ms"@.len() == 2 && ""@.len() == 0 && "s"@.len() == 1 && "m"@.len() == 1);
        },
        Unit::Hours => {
            assert("h"@.len() == 1 && "h"@[0] == 'h' && "ns"@.len() == 2 && "us"@.len() == 2
                && "µs"@.len() == 2 && "ms"@.len() == 2 && ""@.len() == 0 && "s"@[0] == 's'
                && "m"@[0] == 'm' && "min"@.len() == 3 && "minutes"@.len() == 7);
        },
        Unit::Days => {
            assert("d"@.len() == 1 && "d"@[0] == 'd' && "ns"@.len() == 2 && "us"@.len() == 2
                && "µs"@.len() == 2 && "ms"@.len() == 2 && ""@.len() == 0 && "s"@[0] == 's'
                && "m"@[0] == 'm' && "min"@.len() == 3 && "minutes"@.len() == 7 && "h"@[0] == 'h'
                && "hour"@.len() == 4 && "hours"@.len() == 5);
        },
    }
}

} // verus!
