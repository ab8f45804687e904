//! The table of format specifiers: for each one its token in a template, the
//! fragment of search pattern it stands for, and how its text is read.

use vstd::prelude::*;

verus! {

/// A field of a timestamp, as a format template names it.
#[derive(Clone, Copy, Debug, PartialEq, Eq, Structural)]
pub enum Specifier {
    /// `%Y`: the full year, one to four digits.
    Year,
    /// `%C`: the year divided by 100, one or two digits.
    Century,
    /// `%y`: the year modulo 100, one or two digits.
    YearOfCentury,
    /// `%m`: the month number, one or two digits.
    Month,
    /// `%b`: the month's name cut to three letters.
    MonthAbbrev,
    /// `%h`: the same as `%b`.
    MonthAbbrevAlt,
    /// `%B`: the month's name in full; its three-letter form is read too.
    MonthName,
    /// `%d`: the day of the month, one or two digits.
    Day,
    /// `%H`: the hour, one or two digits.
    Hour,
    /// `%M`: the minute, one or two digits.
    Minute,
    /// `%S`: the second, one or two digits.
    Second,
    /// `%.f`: a dot and the digits of the fraction of a second.
    Fraction,
    /// `%s`: seconds since the epoch, one to ten digits.
    Epoch,
}

impl Specifier {
    /// The last character of the token. Every token is `%` and this letter,
    /// but for the fraction, which has a dot between the two.
    pub open spec fn letter(self) -> char {
        match self {
            Specifier::Year => 'Y',
            Specifier::Century => 'C',
            Specifier::YearOfCentury => 'y',
            Specifier::Month => 'm',
            Specifier::MonthAbbrev => 'b',
            Specifier::MonthAbbrevAlt => 'h',
            Specifier::MonthName => 'B',
            Specifier::Day => 'd',
            Specifier::Hour => 'H',
            Specifier::Minute => 'M',
            Specifier::Second => 'S',
            Specifier::Fraction => 'f',
            Specifier::Epoch => 's',
        }
    }

    /// The token that names this specifier in a template.
    pub open spec fn token(self) -> Seq<char> {
        if self == Specifier::Fraction {
            seq!['%', '.', 'f']
        } else {
            seq!['%', self.letter()]
        }
    }

    /// The fragment of search pattern that stands for this specifier.
    pub open spec fn fragment(self) -> Seq<char> {
        match self {
            Specifier::Year => "[0-9]{1,4}"@,
            Specifier::Century => "[0-9]{1,2}"@,
            Specifier::YearOfCentury => "[0-9]{1,2}"@,
            Specifier::Month => "[0-9]{1,2}"@,
            Specifier::MonthAbbrev => "[A-Za-z]{3}"@,
            Specifier::MonthAbbrevAlt => "[A-Za-z]{3}"@,
            Specifier::MonthName => "[A-Za-z]{3,}"@,
            Specifier::Day => "[0-9]{1,2}"@,
            Specifier::Hour => "[0-9]{1,2}"@,
            Specifier::Minute => "[0-9]{1,2}"@,
            Specifier::Second => "[0-9]{1,2}"@,
            Specifier::Fraction => "\\.[0-9]+"@,
            Specifier::Epoch => "[0-9]{1,10}"@,
        }
    }

    /// The most digits that a numeric specifier reads; 0 for the others.
    pub open spec fn width(self) -> int {
        match self {
            Specifier::Year => 4,
            Specifier::Epoch => 10,
            Specifier::MonthAbbrev => 0,
            Specifier::MonthAbbrevAlt => 0,
            Specifier::MonthName => 0,
            Specifier::Fraction => 0,
            _ => 2,
        }
    }

    /// The fragment of search pattern that stands for this specifier.
    pub fn pattern_fragment(self) -> (text: &'static str)
        ensures
            text@ == self.fragment(),
    {
        match self {
            Specifier::Year => "[0-9]{1,4}",
            Specifier::Century => "[0-9]{1,2}",
            Specifier::YearOfCentury => "[0-9]{1,2}",
            Specifier::Month => "[0-9]{1,2}",
            Specifier::MonthAbbrev => "[A-Za-z]{3}",
            Specifier::MonthAbbrevAlt => "[A-Za-z]{3}",
            Specifier::MonthName => "[A-Za-z]{3,}",
            Specifier::Day => "[0-9]{1,2}",
            Specifier::Hour => "[0-9]{1,2}",
            Specifier::Minute => "[0-9]{1,2}",
            Specifier::Second => "[0-9]{1,2}",
            Specifier::Fraction => "\\.[0-9]+",
            Specifier::Epoch => "[0-9]{1,10}",
        }
    }

    /// The most digits that a numeric specifier reads; 0 for the others.
    pub fn max_digits(self) -> (n: usize)
        ensures
            n == self.width(),
    {
        match self {
            Specifier::Year => 4,
            Specifier::Epoch => 10,
            Specifier::MonthAbbrev => 0,
            Specifier::MonthAbbrevAlt => 0,
            Specifier::MonthName => 0,
            Specifier::Fraction => 0,
            _ => 2,
        }
    }
}

/// The specifier whose two-character token ends in `c`, if there is one.
pub open spec fn specifier_of_letter(c: char) -> Option<Specifier> {
    if c == 'Y' {
        Some(Specifier::Year)
    } else if c == 'C' {
        Some(Specifier::Century)
    } else if c == 'y' {
        Some(Specifier::YearOfCentury)
    } else if c == 'm' {
        Some(Specifier::Month)
    } else if c == 'b' {
        Some(Specifier::MonthAbbrev)
    } else if c == 'h' {
        Some(Specifier::MonthAbbrevAlt)
    } else if c == 'B' {
        Some(Specifier::MonthName)
    } else if c == 'd' {
        Some(Specifier::Day)
    } else if c == 'H' {
        Some(Specifier::Hour)
    } else if c == 'M' {
        Some(Specifier::Minute)
    } else if c == 'S' {
        Some(Specifier::Second)
    } else if c == 's' {
        Some(Specifier::Epoch)
    } else {
        None
    }
}

/// The specifier whose token begins at position `i` of `template`, if one
/// does. The three-character token is tried before the two-character ones,
/// so that the longest token that fits is the one taken.
pub open spec fn specifier_at(template: Seq<char>, i: int) -> Option<Specifier> {
    if !(0 <= i < template.len()) || template[i] != '%' {
        None
    } else if i + 2 < template.len() && template[i + 1] == '.' && template[i + 2] == 'f' {
        Some(Specifier::Fraction)
    } else if i + 1 < template.len() {
        specifier_of_letter(template[i + 1])
    } else {
        None
    }
}

/// Whether `word` stands in `text` from position `i` on.
pub open spec fn stands_at(text: Seq<char>, i: int, word: Seq<char>) -> bool {
    0 <= i && i + word.len() <= text.len() && text.subrange(i, i + word.len()) == word
}

/// A specifier is found at a position exactly where its token stands there:
/// no token is taken for another, and none is missed.
pub proof fn specifier_at_is_its_token(template: Seq<char>, i: int, s: Specifier)
    ensures
        specifier_at(template, i) == Some(s) <==> stands_at(template, i, s.token()),
{
    let word = s.token();
    if stands_at(template, i, word) {
        let part = template.subrange(i, i + word.len());
        assert(part[0] == template[i]);
        assert(part[1] == template[i + 1]);
        if s == Specifier::Fraction {
            assert(part[2] == template[i + 2]);
        } else {
            assert(word[1] != '.');
        }
    }
    if specifier_at(template, i) == Some(s) {
        assert(template.subrange(i, i + word.len()) =~= word);
    }
}

/// The specifier whose two-character token ends in `c`, if there is one.
pub fn specifier_for(c: char) -> (found: Option<Specifier>)
    ensures
        found == specifier_of_letter(c),
{
    if c == 'Y' {
        Some(Specifier::Year)
    } else if c == 'C' {
        Some(Specifier::Century)
    } else if c == 'y' {
        Some(Specifier::YearOfCentury)
    } else if c == 'm' {
        Some(Specifier::Month)
    } else if c == 'b' {
        Some(Specifier::MonthAbbrev)
    } else if c == 'h' {
        Some(Specifier::MonthAbbrevAlt)
    } else if c == 'B' {
        Some(Specifier::MonthName)
    } else if c == 'd' {
        Some(Specifier::Day)
    } else if c == 'H' {
        Some(Specifier::Hour)
    } else if c == 'M' {
        Some(Specifier::Minute)
    } else if c == 'S' {
        Some(Specifier::Second)
    } else if c == 's' {
        Some(Specifier::Epoch)
    } else {
        None
    }
}

/// The specifier whose token begins at position `i` of `template`, if one
/// does.
pub fn find_specifier(template: &Vec<char>, i: usize) -> (found: Option<Specifier>)
    ensures
        found == specifier_at(template@, i as int),
{
    let n: usize = template.len();
    if i >= n || template[i] != '%' {
        None
    } else if n - i > 2 && template[i + 1] == '.' && template[i + 2] == 'f' {
        Some(Specifier::Fraction)
    } else if n - i > 1 {
        specifier_for(template[i + 1])
    } else {
        None
    }
}

} // verus!
