//! Reading the text of a timestamp by the items of its template.
//!
//! The text is read from left to right, item by item. A literal must stand
//! in the text as it stands in the template. A field takes as much of the
//! text as its rule allows and never gives any of it back, and the text must
//! end where the items end.

use crate::fields::Fields;
use crate::specifier::Specifier;
use crate::template::Item;
use crate::text::chars_of;
use vstd::prelude::*;

verus! {

/// Whether a character is one of the digits `0` to `9`.
pub open spec fn is_digit(c: char) -> bool {
    '0' <= c && c <= '9'
}

/// The number that a digit stands for.
pub open spec fn digit_value(c: char) -> int {
    c as int - 48
}

/// How many digits stand in `text` from position `at` on, counted up to
/// `limit`.
pub open spec fn digits_at(text: Seq<char>, at: int, limit: int) -> int
    decreases limit,
{
    if limit <= 0 || at < 0 || at >= text.len() || !is_digit(text[at]) {
        0
    } else {
        1 + digits_at(text, at + 1, limit - 1)
    }
}

/// The number that a run of digits stands for, read in base ten.
pub open spec fn number(digits: Seq<char>) -> int
    decreases digits.len(),
{
    if digits.len() == 0 {
        0
    } else {
        number(digits.drop_last()) * 10 + digit_value(digits.last())
    }
}

/// Ten to the power of `n`.
pub open spec fn pow10(n: nat) -> int
    decreases n,
{
    if n == 0 {
        1
    } else {
        10 * pow10((n - 1) as nat)
    }
}

/// A letter from `A` to `Z` as its small letter, any other character as
/// itself.
pub open spec fn fold(c: char) -> char {
    if 'A' <= c && c <= 'Z' {
        (c as int + 32) as char
    } else {
        c
    }
}

/// Whether `word`, which is in small letters, stands in `text` from
/// position `at` on, in small or capital letters.
pub open spec fn reads_word(text: Seq<char>, at: int, word: Seq<char>) -> bool {
    &&& 0 <= at
    &&& at + word.len() <= text.len()
    &&& forall|k: int| 0 <= k < word.len() ==> #[trigger] word[k] == fold(text[at + k])
}

/// The first three letters of a month's name.
pub open spec fn month_abbreviation(month: int) -> Seq<char> {
    if month == 1 {
        "jan"@
    } else if month == 2 {
        "feb"@
    } else if month == 3 {
        "mar"@
    } else if month == 4 {
        "apr"@
    } else if month == 5 {
        "may"@
    } else if month == 6 {
        "jun"@
    } else if month == 7 {
        "jul"@
    } else if month == 8 {
        "aug"@
    } else if month == 9 {
        "sep"@
    } else if month == 10 {
        "oct"@
    } else if month == 11 {
        "nov"@
    } else {
        "dec"@
    }
}

/// A month's name without its first three letters.
pub open spec fn month_remainder(month: int) -> Seq<char> {
    if month == 1 {
        "uary"@
    } else if month == 2 {
        "ruary"@
    } else if month == 3 {
        "ch"@
    } else if month == 4 {
        "il"@
    } else if month == 5 {
        ""@
    } else if month == 6 {
        "e"@
    } else if month == 7 {
        "y"@
    } else if month == 8 {
        "ust"@
    } else if month == 9 {
        "tember"@
    } else if month == 10 {
        "ober"@
    } else if month == 11 {
        "ember"@
    } else {
        "ember"@
    }
}

/// The first month, from `month` on, whose abbreviation stands in `text` at
/// position `at`.
pub open spec fn month_from(text: Seq<char>, at: int, month: int) -> Option<int>
    decreases 13 - month,
{
    if month > 12 {
        None
    } else if reads_word(text, at, month_abbreviation(month)) {
        Some(month)
    } else {
        month_from(text, at, month + 1)
    }
}

/// The month that is named in `text` at position `at`, and the position
/// behind the name. The abbreviation must stand there. Where the full name
/// is asked for, the rest of the name is taken too if it follows, and left
/// out if it does not.
pub open spec fn month_read(text: Seq<char>, at: int, full: bool) -> Option<(int, int)> {
    match month_from(text, at, 1) {
        Some(month) => {
            let end = at + month_abbreviation(month).len();
            if full && reads_word(text, end, month_remainder(month)) {
                Some((month, end + month_remainder(month).len()))
            } else {
                Some((month, end))
            }
        },
        None => None,
    }
}

/// The fields with a value entered for a specifier, beside the position
/// that the reading has reached.
pub open spec fn entered(fields: Fields, s: Specifier, value: int, next: int) -> Option<
    (Fields, int),
> {
    match fields.put(s, value) {
        Some(after) => Some((after, next)),
        None => None,
    }
}

/// What reading one field at position `at` leaves: the fields with the new
/// value, and the position behind what was read. A number is the longest
/// run of digits that stands there, up to the width of its specifier, and
/// at least one digit. The fraction is a dot and all the digits behind it,
/// at least one.
pub open spec fn after_field(s: Specifier, text: Seq<char>, at: int, fields: Fields) -> Option<
    (Fields, int),
> {
    match s {
        Specifier::MonthAbbrev | Specifier::MonthAbbrevAlt | Specifier::MonthName => {
            match month_read(text, at, s == Specifier::MonthName) {
                Some((month, next)) => entered(fields, s, month, next),
                None => None,
            }
        },
        Specifier::Fraction => {
            let n = digits_at(text, at + 1, text.len() - at);
            if 0 <= at < text.len() && text[at] == '.' && n >= 1 {
                Some((fields, at + 1 + n))
            } else {
                None
            }
        },
        _ => {
            let n = digits_at(text, at, s.width());
            if n >= 1 {
                entered(fields, s, number(text.subrange(at, at + n)), at + n)
            } else {
                None
            }
        },
    }
}

/// What reading one item at position `at` leaves.
pub open spec fn after_item(item: Item, text: Seq<char>, at: int, fields: Fields) -> Option<
    (Fields, int),
> {
    match item {
        Item::Literal(c) => if 0 <= at < text.len() && text[at] == c {
            Some((fields, at + 1))
        } else {
            None
        },
        Item::Field(s) => after_field(s, text, at, fields),
    }
}

/// The fields that the items from number `k` on read from `text` at
/// position `at`, on top of `fields`. Each item must read, and the text
/// must end where the items end.
pub open spec fn fields_from(
    items: Seq<Item>,
    k: int,
    text: Seq<char>,
    at: int,
    fields: Fields,
) -> Option<Fields>
    decreases items.len() - k,
{
    if k < 0 || k >= items.len() {
        if at == text.len() {
            Some(fields)
        } else {
            None
        }
    } else {
        match after_item(items[k], text, at, fields) {
            Some((after, next)) => fields_from(items, k + 1, text, next, after),
            None => None,
        }
    }
}

/// The fields that `text` gives when read by `items`, if it conforms to
/// them.
pub open spec fn fields_of(items: Seq<Item>, text: Seq<char>) -> Option<Fields> {
    fields_from(items, 0, text, 0, Fields::blank())
}

/// The seconds since the epoch that `text` stands for when read by `items`:
/// the text must conform to the items, and the fields it gives must stand
/// for a moment.
pub open spec fn timestamp_of(items: Seq<Item>, text: Seq<char>) -> Option<i64> {
    match fields_of(items, text) {
        Some(fields) => fields.moment(),
        None => None,
    }
}

/// The powers of ten that the reading of numbers meets.
proof fn lemma_pow10_bound(n: nat)
    requires
        n <= 10,
    ensures
        1 <= pow10(n) <= 10_000_000_000,
        n <= 4 ==> pow10(n) <= 10_000,
{
    reveal_with_fuel(pow10, 11);
}

/// Counts the digits that stand in `text` from position `at` on, up to
/// `limit`.
pub fn count_digits(text: &Vec<char>, at: usize, limit: usize) -> (n: usize)
    ensures
        n == digits_at(text@, at as int, limit as int),
        n <= limit,
        n == 0 || at + n <= text.len(),
        forall|p: int| at <= p < at + n ==> is_digit(#[trigger] text@[p]),
{
    if at > text.len() {
        return 0;
    }
    let mut n: usize = 0;
    while n < limit && n < text.len() - at && is_ascii_digit(text[at + n])
        invariant
            at <= text.len(),
            n <= limit,
            at + n <= text.len(),
            digits_at(text@, at as int, limit as int) == n + digits_at(
                text@,
                at + n,
                limit - n,
            ),
            forall|p: int| at <= p < at + n ==> is_digit(#[trigger] text@[p]),
        decreases limit - n,
    {
        n = n + 1;
    }
    n
}

/// Whether a character is one of the digits `0` to `9`.
pub fn is_ascii_digit(c: char) -> (digit: bool)
    ensures
        digit == is_digit(c),
{
    '0' <= c && c <= '9'
}

/// The number that the `n` digits from position `at` on stand for.
fn number_at(text: &Vec<char>, at: usize, n: usize) -> (value: u64)
    requires
        n <= 10,
        at + n <= text.len(),
        forall|p: int| at <= p < at + n ==> is_digit(#[trigger] text@[p]),
    ensures
        value == number(text@.subrange(at as int, at + n)),
        value < pow10(n as nat),
        value <= 9_999_999_999,
        n <= 4 ==> value <= 9999,
{
    let mut value: u64 = 0;
    let mut k: usize = 0;
    while k < n
        invariant
            k <= n <= 10,
            at + n <= text.len(),
            forall|p: int| at <= p < at + n ==> is_digit(#[trigger] text@[p]),
            value == number(text@.subrange(at as int, at + k)),
            0 <= value < pow10(k as nat),
        decreases n - k,
    {
        let c = text[at + k];
        proof {
            lemma_pow10_bound(k as nat);
            let longer = text@.subrange(at as int, at + k + 1);
            assert(longer.drop_last() =~= text@.subrange(at as int, at + k));
            assert(longer.last() == c);
            assert(is_digit(text@[at + k]));
        }
        value = value * 10 + (c as u64 - 48);
        k = k + 1;
    }
    proof {
        lemma_pow10_bound(n as nat);
    }
    value
}

/// A letter from `A` to `Z` as its small letter, any other character as
/// itself.
pub fn to_small(c: char) -> (small: char)
    ensures
        small == fold(c),
{
    if 'A' <= c && c <= 'Z' {
        ((c as u8) + 32) as char
    } else {
        c
    }
}

/// Whether `word`, which is in small letters, stands in `text` from
/// position `at` on, in small or capital letters.
pub fn reads(text: &Vec<char>, at: usize, word: &Vec<char>) -> (stands: bool)
    ensures
        stands == reads_word(text@, at as int, word@),
        stands ==> at + word.len() <= text.len(),
{
    if at > text.len() || word.len() > text.len() - at {
        return false;
    }
    let mut k: usize = 0;
    while k < word.len()
        invariant
            at + word.len() <= text.len(),
            k <= word.len(),
            forall|j: int| 0 <= j < k ==> #[trigger] word@[j] == fold(text@[at + j]),
        decreases word.len() - k,
    {
        if word[k] != to_small(text[at + k]) {
            return false;
        }
        k = k + 1;
    }
    true
}

/// The first three letters of a month's name.
pub fn abbreviation(month: u32) -> (word: &'static str)
    ensures
        word@ == month_abbreviation(month as int),
{
    if month == 1 {
        "jan"
    } else if month == 2 {
        "feb"
    } else if month == 3 {
        "mar"
    } else if month == 4 {
        "apr"
    } else if month == 5 {
        "may"
    } else if month == 6 {
        "jun"
    } else if month == 7 {
        "jul"
    } else if month == 8 {
        "aug"
    } else if month == 9 {
        "sep"
    } else if month == 10 {
        "oct"
    } else if month == 11 {
        "nov"
    } else {
        "dec"
    }
}

/// A month's name without its first three letters.
pub fn remainder(month: u32) -> (word: &'static str)
    ensures
        word@ == month_remainder(month as int),
{
    if month == 1 {
        "uary"
    } else if month == 2 {
        "ruary"
    } else if month == 3 {
        "ch"
    } else if month == 4 {
        "il"
    } else if month == 5 {
        ""
    } else if month == 6 {
        "e"
    } else if month == 7 {
        "y"
    } else if month == 8 {
        "ust"
    } else if month == 9 {
        "tember"
    } else if month == 10 {
        "ober"
    } else if month == 11 {
        "ember"
    } else {
        "ember"
    }
}

/// Reads the name of a month at position `at`: the month and the position
/// behind its name.
pub fn read_month(text: &Vec<char>, at: usize, full: bool) -> (found: Option<(u32, usize)>)
    ensures
        match found {
            Some((month, next)) => month_read(text@, at as int, full) == Some(
                (month as int, next as int),
            ) && 1 <= month <= 12 && next <= text.len(),
            None => month_read(text@, at as int, full) is None,
        },
{
    let mut month: u32 = 1;
    while month <= 12
        invariant
            1 <= month <= 13,
            month_from(text@, at as int, 1) == month_from(text@, at as int, month as int),
        decreases 13 - month,
    {
        let short = chars_of(abbreviation(month));
        if reads(text, at, &short) {
            let end: usize = at + short.len();
            let rest = chars_of(remainder(month));
            if full && reads(text, end, &rest) {
                return Some((month, end + rest.len()));
            }
            return Some((month, end));
        }
        month = month + 1;
    }
    None
}

/// Reads one field at position `at`: the fields with its value entered, and
/// the position behind what was read.
pub fn read_field(s: Specifier, text: &Vec<char>, at: usize, fields: Fields) -> (read: Option<
    (Fields, usize),
>)
    ensures
        match read {
            Some((after, next)) => after_field(s, text@, at as int, fields) == Some(
                (after, next as int),
            ) && next <= text.len(),
            None => after_field(s, text@, at as int, fields) is None,
        },
{
    match s {
        Specifier::MonthAbbrev | Specifier::MonthAbbrevAlt | Specifier::MonthName => {
            match read_month(text, at, s == Specifier::MonthName) {
                Some((month, next)) => match fields.with(s, month as u64) {
                    Some(after) => Some((after, next)),
                    None => None,
                },
                None => None,
            }
        },
        Specifier::Fraction => {
            if at < text.len() && text[at] == '.' {
                let n: usize = count_digits(text, at + 1, text.len() - at);
                if n >= 1 {
                    Some((fields, at + 1 + n))
                } else {
                    None
                }
            } else {
                None
            }
        },
        _ => {
            let n: usize = count_digits(text, at, s.max_digits());
            if n >= 1 {
                let value: u64 = number_at(text, at, n);
                match fields.with(s, value) {
                    Some(after) => Some((after, at + n)),
                    None => None,
                }
            } else {
                None
            }
        },
    }
}

/// Reads one item at position `at`.
pub fn read_item(item: Item, text: &Vec<char>, at: usize, fields: Fields) -> (read: Option<
    (Fields, usize),
>)
    ensures
        match read {
            Some((after, next)) => after_item(item, text@, at as int, fields) == Some(
                (after, next as int),
            ) && next <= text.len(),
            None => after_item(item, text@, at as int, fields) is None,
        },
{
    match item {
        Item::Literal(c) => {
            if at < text.len() && text[at] == c {
                Some((fields, at + 1))
            } else {
                None
            }
        },
        Item::Field(s) => read_field(s, text, at, fields),
    }
}

/// Reads `text` by `items` into the fields it gives, if it conforms.
pub fn read_fields(items: &Vec<Item>, text: &Vec<char>) -> (read: Option<Fields>)
    ensures
        read == fields_of(items@, text@),
{
    let mut fields = Fields::new();
    let mut at: usize = 0;
    let mut k: usize = 0;
    while k < items.len()
        invariant
            k <= items.len(),
            at <= text.len(),
            fields_from(items@, k as int, text@, at as int, fields) == fields_of(items@, text@),
        decreases items.len() - k,
    {
        match read_item(items[k], text, at, fields) {
            Some((after, next)) => {
                fields = after;
                at = next;
            },
            None => {
                return None;
            },
        }
        k = k + 1;
    }
    if at == text.len() {
        Some(fields)
    } else {
        None
    }
}

/// The seconds since the epoch that `text` stands for when read by `items`.
/// `None` where the text does not conform to the items, or conforms and
/// names no moment of the calendar.
pub fn parse_timestamp(items: &Vec<Item>, text: &str) -> (seconds: Option<i64>)
    ensures
        seconds == timestamp_of(items@, text@),
{
    let chars = chars_of(text);
    match read_fields(items, &chars) {
        Some(fields) => fields.resolve(),
        None => None,
    }
}

/// Text that conforms to the items and names no moment of the calendar, as
/// with a 32nd day, stands for no timestamp, unless it gives seconds since
/// the epoch outright.
pub proof fn off_the_calendar_is_no_timestamp(items: Seq<Item>, text: Seq<char>)
    requires
        fields_of(items, text) matches Some(fields) && fields.epoch is None
            && !fields.names_moment(),
    ensures
        timestamp_of(items, text) is None,
{
}

} // verus!
