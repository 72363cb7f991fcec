//! Points in time: read from the service's date texts, written for the log table.

use std::fmt::Write;
use vstd::prelude::*;

verus! {

/// How the log table writes a date: month name, day, year, then the time of day.
pub const DATE_PATTERN: &'static str = "%B %d, %Y, %H:%M:%S";

/// The first second that `chrono` has a date for: the start of the year -262143.
pub const MIN_SECONDS: i64 = -8_334_601_228_800;

/// The last second that `chrono` has a date for: the end of the year 262142.
pub const MAX_SECONDS: i64 = 8_210_266_876_799;

/// A point in time on the UTC scale.
#[derive(Clone, Copy, Debug, PartialEq, Eq)]
pub struct Timestamp {
    /// Whole seconds since 1970-01-01 00:00:00 UTC, leap seconds not counted.
    pub seconds: i64,
    /// Nanoseconds since the last whole second; a billion or more inside a leap second,
    /// which is then counted with the second before it.
    pub nanos: u32,
}

impl Timestamp {
    /// The point lies in the years that `chrono` has dates for, and its nanoseconds are
    /// under two billion.
    pub open spec fn is_valid(self) -> bool {
        &&& MIN_SECONDS <= self.seconds <= MAX_SECONDS
        &&& self.nanos < 2_000_000_000
    }
}

/// What `chrono` writes for the UTC date and time that lies `seconds` and `nanos` after the
/// epoch, under the strftime pattern `pattern`; `None` where `chrono` has no date for that
/// second, the nanoseconds are two billion or more, or it cannot follow the pattern.
pub uninterp spec fn formatted_timestamp(
    seconds: int,
    nanos: int,
    pattern: Seq<char>,
) -> Option<Seq<char>>;

/// The text that stands for `stamp` in the log table. Meant for a valid stamp.
pub open spec fn created_at_text(stamp: Timestamp) -> Seq<char> {
    formatted_timestamp(stamp.seconds as int, stamp.nanos as int, DATE_PATTERN@)->0
}

/// A plus or a minus sign.
pub open spec fn is_sign(c: char) -> bool {
    c == '+' || c == '-'
}

/// A digit from 0 to 9.
pub open spec fn is_digit(c: char) -> bool {
    '0' <= c && c <= '9'
}

/// A letter from a to z, small or capital.
pub open spec fn is_letter(c: char) -> bool {
    ('a' <= c && c <= 'z') || ('A' <= c && c <= 'Z')
}

/// A character that `dateparser` takes as part of a time zone: a letter, a digit, or one
/// of `+ , - . / :`.
pub open spec fn is_zone_char(c: char) -> bool {
    ('+' <= c && c <= ':') || is_letter(c)
}

/// At `at` stand a sign and two digits that make 24 or more: the hours of an offset of a
/// day or more.
pub open spec fn day_or_more_at(text: Seq<char>, at: int) -> bool {
    &&& 0 <= at
    &&& at + 3 <= text.len()
    &&& is_sign(text[at])
    &&& is_digit(text[at + 1])
    &&& is_digit(text[at + 2])
    &&& ('2' < text[at + 1] || (text[at + 1] == '2' && '4' <= text[at + 2]))
}

/// At `at` stand two digits that make less than 60: the minutes of an offset.
pub open spec fn minutes_at(text: Seq<char>, at: int) -> bool {
    &&& 0 <= at
    &&& at + 2 <= text.len()
    &&& '0' <= text[at] && text[at] <= '5'
    &&& is_digit(text[at + 1])
}

/// From `at` to its end the text is an offset from UTC of a day or more, in one of the
/// three shapes that `dateparser` takes for a whole time zone and reads as an offset:
/// `+HHMM` not behind a letter, `+HH:MM`, or `+HHMM` and one more zone character.
pub open spec fn overlong_offset_at(text: Seq<char>, at: int) -> bool {
    &&& day_or_more_at(text, at)
    &&& {
        ||| text.len() == at + 5 && minutes_at(text, at + 3) && !(at > 0 && is_letter(
            text[at - 1],
        ))
        ||| text.len() == at + 6 && text[at + 3] == ':' && minutes_at(text, at + 4)
        ||| text.len() == at + 6 && minutes_at(text, at + 3) && is_zone_char(text[at + 5])
    }
}

/// The text starts with a date of the form `YYYY-MM-DD`.
pub open spec fn starts_with_date(text: Seq<char>) -> bool {
    &&& text.len() >= 10
    &&& is_digit(text[0]) && is_digit(text[1]) && is_digit(text[2]) && is_digit(text[3])
    &&& text[4] == '-'
    &&& is_digit(text[5]) && is_digit(text[6])
    &&& text[7] == '-'
    &&& is_digit(text[8]) && is_digit(text[9])
}

/// A colon stands somewhere before `at`, as it does in every time of day.
pub open spec fn colon_before(text: Seq<char>, at: int) -> bool {
    exists|i: int| 0 <= i < at && i < text.len() && text[i] == ':'
}

/// The text ends in a time zone that is an offset from UTC of a day or more, behind a date
/// of the form `YYYY-MM-DD` or behind a time of day. `dateparser` reads no such text as a
/// date, and must not be given one.
pub open spec fn has_overlong_offset(text: Seq<char>) -> bool {
    ||| overlong_offset_at(text, text.len() - 5) && (starts_with_date(text) || colon_before(
        text,
        text.len() - 5,
    ))
    ||| overlong_offset_at(text, text.len() - 6) && (starts_with_date(text) || colon_before(
        text,
        text.len() - 6,
    ))
}

/// Calls `dateparser::parse`, which tries a list of common date formats in turn, and keeps
/// the result as seconds and nanoseconds (`DateTime::timestamp`,
/// `DateTime::timestamp_subsec_nanos`). Of the result only its validity is claimed: the
/// date of any `DateTime` lies in the years that `chrono` has dates for, and its
/// nanoseconds are under two billion. Which point a text gives is not claimed: a text
/// without a zone is read in the machine's time zone, and a text without a date or without
/// a time of day is completed from the clock.
/// Not to be called on a text that ends in an offset of a day or more: four of the formats
/// hand such a zone to `FixedOffset::east`, which panics on it.
#[verifier::external_body]
fn parse_timestamp(text: &str) -> (stamp: Option<Timestamp>)
    requires
        !has_overlong_offset(text@),
    ensures
        stamp matches Some(at) ==> at.is_valid(),
{
    let moment = dateparser::parse(text).ok()?;
    Some(Timestamp { seconds: moment.timestamp(), nanos: moment.timestamp_subsec_nanos() })
}

/// Makes the `DateTime` of the stamp (`DateTime::from_timestamp` for the whole second,
/// `NaiveDateTime::with_nanosecond` for the rest) and calls `DateTime::format`. The result
/// is named, not spelled out: it is what `chrono` writes for this point in UTC under this
/// pattern, month names in English. `None` where `chrono` refuses the second or the
/// nanoseconds, which it does for the stamps that are not valid and for no others, or
/// where the pattern holds an item that `chrono` cannot write, which [`DATE_PATTERN`] does
/// not.
#[verifier::external_body]
fn format_timestamp(stamp: &Timestamp, pattern: &str) -> (text: Option<String>)
    ensures
        match text {
            Some(written) => formatted_timestamp(
                stamp.seconds as int,
                stamp.nanos as int,
                pattern@,
            ) == Some(written@),
            None => formatted_timestamp(stamp.seconds as int, stamp.nanos as int, pattern@)
                is None,
        },
        pattern@ == DATE_PATTERN@ ==> (text is Some <==> stamp.is_valid()),
{
    let second = chrono::DateTime::from_timestamp(stamp.seconds, 0)?.naive_utc();
    let moment = chrono::Timelike::with_nanosecond(&second, stamp.nanos)?.and_utc();
    let mut written = String::new();
    write!(written, "{}", moment.format(pattern)).ok()?;
    Some(written)
}

/// Writes `stamp` the way the log table shows it: a text for every valid stamp, and for
/// no other.
pub fn created_at_cell(stamp: &Timestamp) -> (cell: Option<String>)
    ensures
        cell is Some <==> stamp.is_valid(),
        cell matches Some(written) ==> written@ == created_at_text(*stamp),
{
    format_timestamp(stamp, DATE_PATTERN)
}

/// The characters of a text, in order.
fn characters(text: &str) -> (chars: Vec<char>)
    ensures
        chars@ == text@,
{
    let mut chars: Vec<char> = Vec::new();
    for c in iter: text.chars()
        invariant
            iter.seq() == text@,
            chars@ == text@.take(iter.index() as int),
    {
        chars.push(c);
        assert(text@.take(iter.index() + 1) =~= text@.take(iter.index() as int).push(c));
    }
    assert(text@.take(text@.len() as int) =~= text@);
    chars
}

fn digit(c: char) -> (yes: bool)
    ensures
        yes == is_digit(c),
{
    '0' <= c && c <= '9'
}

fn letter(c: char) -> (yes: bool)
    ensures
        yes == is_letter(c),
{
    ('a' <= c && c <= 'z') || ('A' <= c && c <= 'Z')
}

fn minutes(chars: &Vec<char>, at: usize) -> (yes: bool)
    requires
        at <= chars.len(),
    ensures
        yes == minutes_at(chars@, at as int),
{
    chars.len() - at >= 2 && '0' <= chars[at] && chars[at] <= '5' && digit(chars[at + 1])
}

/// Whether the characters from `at` to the end are an offset of a day or more.
fn overlong_offset_from(chars: &Vec<char>, at: usize) -> (yes: bool)
    requires
        at <= chars.len(),
    ensures
        yes == overlong_offset_at(chars@, at as int),
{
    let rest = chars.len() - at;
    if rest != 5 && rest != 6 {
        return false;
    }
    let sign = chars[at];
    let tens = chars[at + 1];
    let ones = chars[at + 2];
    if !((sign == '+' || sign == '-') && digit(tens) && digit(ones) && ('2' < tens || (tens
        == '2' && '4' <= ones))) {
        return false;
    }
    if rest == 5 {
        minutes(chars, at + 3) && !(at > 0 && letter(chars[at - 1]))
    } else {
        let last = chars[at + 5];
        (chars[at + 3] == ':' && minutes(chars, at + 4)) || (minutes(chars, at + 3) && (('+'
            <= last && last <= ':') || letter(last)))
    }
}

fn has_date_in_front(chars: &Vec<char>) -> (yes: bool)
    ensures
        yes == starts_with_date(chars@),
{
    chars.len() >= 10 && digit(chars[0]) && digit(chars[1]) && digit(chars[2]) && digit(
        chars[3],
    ) && chars[4] == '-' && digit(chars[5]) && digit(chars[6]) && chars[7] == '-' && digit(
        chars[8],
    ) && digit(chars[9])
}

fn has_colon_before(chars: &Vec<char>, at: usize) -> (yes: bool)
    requires
        at <= chars.len(),
    ensures
        yes == colon_before(chars@, at as int),
{
    let mut i: usize = 0;
    while i < at
        invariant
            i <= at <= chars.len(),
            forall|j: int| 0 <= j < i ==> chars@[j] != ':',
        decreases at - i,
    {
        if chars[i] == ':' {
            return true;
        }
        i += 1;
    }
    false
}

/// Whether `text` ends in an offset from UTC of a day or more, behind a date or a time.
pub fn ends_in_overlong_offset(text: &str) -> (yes: bool)
    ensures
        yes == has_overlong_offset(text@),
{
    let chars = characters(text);
    let n = chars.len();
    let date_in_front = has_date_in_front(&chars);
    if n >= 5 && overlong_offset_from(&chars, n - 5) && (date_in_front || has_colon_before(
        &chars,
        n - 5,
    )) {
        return true;
    }
    if n >= 6 && overlong_offset_from(&chars, n - 6) && (date_in_front || has_colon_before(
        &chars,
        n - 6,
    )) {
        return true;
    }
    false
}

/// Reads a date text of the service. A text that ends in an offset of a day or more is
/// not a date and is not handed to `dateparser`. Of any other text the reading is whatever
/// `dateparser` makes of it on this machine; a reading is always a valid stamp.
pub fn read_created_at(text: &str) -> (stamp: Option<Timestamp>)
    ensures
        has_overlong_offset(text@) ==> stamp is None,
        stamp matches Some(at) ==> at.is_valid(),
{
    if ends_in_overlong_offset(text) {
        None
    } else {
        parse_timestamp(text)
    }
}

} // verus!
