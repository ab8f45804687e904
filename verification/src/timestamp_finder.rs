//! The finder: one template, its items and its compiled search pattern.

use crate::matcher::{built_plain, first_match, is_part_of, leftmost_match, regex_pattern};
use crate::parser::{parse_timestamp, timestamp_of};
use crate::pattern::{render, search_pattern};
use crate::template::{items_of, template_items, Item};
use regex::Regex;
use vstd::prelude::*;

verus! {

/// A template whose search pattern could not be compiled.
#[derive(Debug)]
pub struct FormatCompileError {
    /// The search pattern that was refused.
    pub pattern: String,
    /// What the pattern compiler said of it.
    pub cause: regex::Error,
}

/// Finds timestamps in text by one format template.
pub struct TimestampFinder {
    datetime_format: String,
    items: Vec<Item>,
    regex: Regex,
}

/// The template of the Common Log Format, as in `02/Jan/2006:15:04:05.000`.
pub open spec fn default_format() -> Seq<char> {
    "%d/%b/%Y:%H:%M:%S%.f"@
}

/// The timestamp that a finder for `template` finds in `text`: the leftmost
/// match of the template's search pattern, read by the template's items.
/// `None` where the pattern matches nowhere, and where the match does not
/// read as a timestamp.
pub open spec fn timestamp_in(template: Seq<char>, text: Seq<char>) -> Option<i64> {
    match leftmost_match(search_pattern(template), text) {
        Some(part) => timestamp_of(items_of(template), part),
        None => None,
    }
}

/// The timestamps that a finder for `template` finds in `lines`: one for
/// each line that has one, in the order of the lines.
pub open spec fn timestamps_in(template: Seq<char>, lines: Seq<Seq<char>>) -> Seq<i64>
    decreases lines.len(),
{
    if lines.len() == 0 {
        Seq::empty()
    } else {
        let before = timestamps_in(template, lines.drop_last());
        match timestamp_in(template, lines.last()) {
            Some(seconds) => before.push(seconds),
            None => before,
        }
    }
}

/// The lines of a list of strings, each as its characters.
pub open spec fn texts_of(lines: Seq<String>) -> Seq<Seq<char>> {
    Seq::new(lines.len(), |i: int| lines[i]@)
}

impl TimestampFinder {
    /// The items and the compiled pattern both belong to the template, and
    /// the pattern was compiled by `Regex::new`.
    #[verifier::type_invariant]
    spec fn well_formed(self) -> bool {
        &&& self.items@ == items_of(self.datetime_format@)
        &&& regex_pattern(self.regex) == search_pattern(self.datetime_format@)
        &&& built_plain(self.regex)
    }

    /// The template that the finder was made for.
    pub closed spec fn template(&self) -> Seq<char> {
        self.datetime_format@
    }

    /// A finder for the Common Log Format.
    pub fn new() -> (made: Result<Self, FormatCompileError>)
        ensures
            match made {
                Ok(finder) => finder.template() == default_format(),
                Err(e) => e.pattern@ == search_pattern(default_format()),
            },
    {
        Self::new_with_format("%d/%b/%Y:%H:%M:%S%.f")
    }

    /// A finder for a template. The template's search pattern is compiled
    /// here, once; if the compiler refuses it, the error holds the pattern
    /// and the compiler's reason.
    pub fn new_with_format(datetime_format: &str) -> (made: Result<Self, FormatCompileError>)
        ensures
            match made {
                Ok(finder) => finder.template() == datetime_format@,
                Err(e) => e.pattern@ == search_pattern(datetime_format@),
            },
    {
        let pattern = Self::strftime_to_regex(datetime_format);
        let built = Regex::new(pattern.as_str());
        Self::with_regex(datetime_format, built)
    }

    /// A finder for a template, from what `Regex::new` gave for the
    /// template's search pattern: the finder if the pattern compiled, and if
    /// it did not, the error with the pattern and with the compiler's reason
    /// as it was handed in.
    pub fn with_regex(datetime_format: &str, built: Result<Regex, regex::Error>) -> (made: Result<
        Self,
        FormatCompileError,
    >)
        requires
            built matches Ok(compiled) ==> regex_pattern(compiled) == search_pattern(
                datetime_format@,
            ) && built_plain(compiled),
        ensures
            match made {
                Ok(finder) => built is Ok && finder.template() == datetime_format@,
                Err(e) => built matches Err(cause) && e.cause == cause && e.pattern@
                    == search_pattern(datetime_format@),
            },
    {
        let items = template_items(datetime_format);
        match built {
            Ok(regex) => Ok(
                TimestampFinder { datetime_format: datetime_format.to_owned(), items, regex },
            ),
            Err(cause) => Err(FormatCompileError { pattern: render(&items), cause }),
        }
    }

    /// The search pattern of a template: each token as the fragment of its
    /// specifier, every other character as the pattern that matches it and
    /// nothing else.
    pub fn strftime_to_regex(time_format: &str) -> (pattern: String)
        ensures
            pattern@ == search_pattern(time_format@),
    {
        let items = template_items(time_format);
        render(&items)
    }

    /// The template that the finder was made for.
    pub fn format(&self) -> (template: &str)
        ensures
            template@ == self.template(),
    {
        self.datetime_format.as_str()
    }

    /// Finds the timestamp in a string: seconds since the epoch. Only the
    /// leftmost match of the template is tried. A timestamp that is found
    /// was read from a part of the string.
    pub fn find_timestamp(&self, s: &str) -> (found: Option<i64>)
        ensures
            found == timestamp_in(self.template(), s@),
            found is Some ==> exists|part: Seq<char>|
                is_part_of(part, s@) && #[trigger] timestamp_of(items_of(self.template()), part)
                    == found,
    {
        proof {
            use_type_invariant(self);
        }
        let part = first_match(&self.regex, s);
        self.read_match(part)
    }

    /// The timestamp that a match stands for, if there is a match and it
    /// reads as a timestamp by the finder's template.
    pub fn read_match(&self, part: Option<&str>) -> (found: Option<i64>)
        ensures
            found == match part {
                Some(text) => timestamp_of(items_of(self.template()), text@),
                None => None,
            },
    {
        proof {
            use_type_invariant(self);
        }
        match part {
            Some(text) => parse_timestamp(&self.items, text),
            None => None,
        }
    }

    /// Finds the timestamps in lines of text: for each line that has one
    /// its timestamp, in the order of the lines. Lines without one are
    /// passed over.
    pub fn scan(&self, lines: &Vec<String>) -> (found: Vec<i64>)
        ensures
            found@ == timestamps_in(self.template(), texts_of(lines@)),
    {
        let ghost texts = texts_of(lines@);
        let mut found: Vec<i64> = Vec::new();
        let mut k: usize = 0;
        while k < lines.len()
            invariant
                k <= lines.len(),
                texts == texts_of(lines@),
                found@ == timestamps_in(self.template(), texts.take(k as int)),
            decreases lines.len() - k,
        {
            proof {
                assert(texts.take(k + 1).drop_last() =~= texts.take(k as int));
                assert(texts.take(k + 1).last() == lines@[k as int]@);
            }
            match self.find_timestamp(lines[k].as_str()) {
                Some(seconds) => {
                    found.push(seconds);
                },
                None => {},
            }
            k = k + 1;
        }
        proof {
            assert(texts.take(k as int) =~= texts);
        }
        found
    }
}

/// Two finders for the same template find the same timestamp in the same
/// string, and the same timestamps in the same lines.
pub proof fn same_template_same_answers(
    one: TimestampFinder,
    other: TimestampFinder,
    text: Seq<char>,
    lines: Seq<Seq<char>>,
)
    requires
        one.template() == other.template(),
    ensures
        timestamp_in(one.template(), text) == timestamp_in(other.template(), text),
        timestamps_in(one.template(), lines) == timestamps_in(other.template(), lines),
{
}

/// The timestamps of lines put one behind the other are the timestamps of
/// the first lines and behind them those of the second.
pub proof fn timestamps_of_joined_lines(
    template: Seq<char>,
    first: Seq<Seq<char>>,
    second: Seq<Seq<char>>,
)
    ensures
        timestamps_in(template, first + second) == timestamps_in(template, first) + timestamps_in(
            template,
            second,
        ),
    decreases second.len(),
{
    if second.len() == 0 {
        assert(first + second =~= first);
        assert(timestamps_in(template, first) + timestamps_in(template, second) =~= timestamps_in(
            template,
            first,
        ));
    } else {
        assert((first + second).drop_last() =~= first + second.drop_last());
        timestamps_of_joined_lines(template, first, second.drop_last());
        assert(timestamps_in(template, first + second) =~= timestamps_in(template, first)
            + timestamps_in(template, second));
    }
}

/// The timestamps of a single line: its own, or none.
pub proof fn timestamps_of_one_line(template: Seq<char>, line: Seq<char>)
    ensures
        timestamps_in(template, seq![line]) == match timestamp_in(template, line) {
            Some(seconds) => seq![seconds],
            None => Seq::<i64>::empty(),
        },
{
    let one = seq![line];
    assert(one.drop_last() =~= Seq::<Seq<char>>::empty());
    assert(timestamps_in(template, one.drop_last()) =~= Seq::<i64>::empty());
    assert(one.last() == line);
    assert(timestamps_in(template, one) =~= match timestamp_in(template, line) {
        Some(seconds) => seq![seconds],
        None => Seq::<i64>::empty(),
    });
}

/// A line without a timestamp is passed over: the timestamps are those of
/// the lines before it and the lines after it, in their order.
pub proof fn line_without_timestamp_is_skipped(
    template: Seq<char>,
    before: Seq<Seq<char>>,
    line: Seq<char>,
    after: Seq<Seq<char>>,
)
    requires
        timestamp_in(template, line) is None,
    ensures
        timestamps_in(template, before + seq![line] + after) == timestamps_in(template, before)
            + timestamps_in(template, after),
{
    timestamps_of_joined_lines(template, before + seq![line], after);
    timestamps_of_joined_lines(template, before, seq![line]);
    timestamps_of_one_line(template, line);
    assert(timestamps_in(template, before) + Seq::<i64>::empty() =~= timestamps_in(
        template,
        before,
    ));
}

/// A line with a timestamp gives it, between the timestamps of the lines
/// before it and those of the lines after it.
pub proof fn line_with_timestamp_is_kept(
    template: Seq<char>,
    before: Seq<Seq<char>>,
    line: Seq<char>,
    after: Seq<Seq<char>>,
)
    requires
        timestamp_in(template, line) is Some,
    ensures
        timestamps_in(template, before + seq![line] + after) == timestamps_in(template, before)
            + seq![timestamp_in(template, line).unwrap()] + timestamps_in(template, after),
{
    timestamps_of_joined_lines(template, before + seq![line], after);
    timestamps_of_joined_lines(template, before, seq![line]);
    timestamps_of_one_line(template, line);
}

/// Where every line has a timestamp, there are as many timestamps as lines,
/// and each is that of the line of its number.
pub proof fn every_line_gives_its_timestamp(template: Seq<char>, lines: Seq<Seq<char>>)
    requires
        forall|i: int| 0 <= i < lines.len() ==> (#[trigger] timestamp_in(template, lines[i])) is Some,
    ensures
        timestamps_in(template, lines).len() == lines.len(),
        forall|i: int|
            0 <= i < lines.len() ==> Some(#[trigger] timestamps_in(template, lines)[i])
                == timestamp_in(template, lines[i]),
    decreases lines.len(),
{
    if lines.len() > 0 {
        let shorter = lines.drop_last();
        assert forall|i: int| 0 <= i < shorter.len() implies (#[trigger] timestamp_in(
            template,
            shorter[i],
        )) is Some by {
            assert(shorter[i] == lines[i]);
        }
        every_line_gives_its_timestamp(template, shorter);
        assert(timestamp_in(template, lines[lines.len() - 1]) is Some);
        assert forall|i: int| 0 <= i < lines.len() implies Some(
            #[trigger] timestamps_in(template, lines)[i],
        ) == timestamp_in(template, lines[i]) by {
            if i < shorter.len() {
                assert(shorter[i] == lines[i]);
                assert(timestamps_in(template, lines)[i] == timestamps_in(template, shorter)[i]);
            }
        }
    }
}

} // verus!
