//! From the items of a template to the pattern that searches for it.

use crate::specifier::Specifier;
use crate::template::{
    ends_open, items_of, literal_is_read_as_itself, token_is_read_as_its_field, Item,
};
use vstd::prelude::*;
use vstd::string::StringExecFns;

verus! {

/// Whether a character has a meaning of its own in a search pattern, so
/// that it stands for itself only behind a backslash.
pub open spec fn is_meta(c: char) -> bool {
    c == '\\' || c == '.' || c == '+' || c == '*' || c == '?' || c == '(' || c == ')' || c
        == '|' || c == '[' || c == ']' || c == '{' || c == '}' || c == '^' || c == '$' || c
        == '#' || c == '&' || c == '-' || c == '~'
}

/// The pattern that matches the character `c` and nothing else.
pub open spec fn escaped(c: char) -> Seq<char> {
    if is_meta(c) {
        seq!['\\', c]
    } else {
        seq![c]
    }
}

/// The fragment of search pattern that one item stands for.
pub open spec fn item_fragment(item: Item) -> Seq<char> {
    match item {
        Item::Literal(c) => escaped(c),
        Item::Field(s) => s.fragment(),
    }
}

/// The search pattern of a list of items: their fragments, one behind the
/// other.
pub open spec fn pattern_of(items: Seq<Item>) -> Seq<char>
    decreases items.len(),
{
    if items.len() == 0 {
        Seq::empty()
    } else {
        pattern_of(items.drop_last()) + item_fragment(items.last())
    }
}

/// The search pattern of a template.
pub open spec fn search_pattern(template: Seq<char>) -> Seq<char> {
    pattern_of(items_of(template))
}

/// Whether a character has a meaning of its own in a search pattern.
pub fn is_meta_character(c: char) -> (meta: bool)
    ensures
        meta == is_meta(c),
{
    c == '\\' || c == '.' || c == '+' || c == '*' || c == '?' || c == '(' || c == ')' || c
        == '|' || c == '[' || c == ']' || c == '{' || c == '}' || c == '^' || c == '$' || c
        == '#' || c == '&' || c == '-' || c == '~'
}

/// Writes the search pattern of a list of items.
pub fn render(items: &Vec<Item>) -> (pattern: String)
    ensures
        pattern@ == pattern_of(items@),
{
    let mut pattern = String::new();
    let mut k: usize = 0;
    while k < items.len()
        invariant
            k <= items.len(),
            pattern@ == pattern_of(items@.take(k as int)),
        decreases items.len() - k,
    {
        let ghost so_far = pattern@;
        match items[k] {
            Item::Literal(c) => {
                if is_meta_character(c) {
                    pattern.push('\\');
                }
                pattern.push(c);
                assert(pattern@ =~= so_far + escaped(c));
            },
            Item::Field(s) => {
                pattern.append(s.pattern_fragment());
            },
        }
        proof {
            assert(items@.take(k + 1).drop_last() =~= items@.take(k as int));
        }
        k = k + 1;
    }
    proof {
        assert(items@.take(k as int) =~= items@);
    }
    pattern
}

/// The pattern of two lists of items, one behind the other, is the pattern
/// of the first and behind it the pattern of the second.
pub proof fn lemma_pattern_of_concat(first: Seq<Item>, second: Seq<Item>)
    ensures
        pattern_of(first + second) == pattern_of(first) + pattern_of(second),
    decreases second.len(),
{
    if second.len() == 0 {
        assert(first + second =~= first);
        assert(pattern_of(first) + pattern_of(second) =~= pattern_of(first));
    } else {
        assert((first + second).drop_last() =~= first + second.drop_last());
        lemma_pattern_of_concat(first, second.drop_last());
        assert(pattern_of(first + second) =~= pattern_of(first) + pattern_of(second));
    }
}

/// Every occurrence of a token compiles to the fragment of its own
/// specifier, whatever stands before it and after it in the template, and
/// leaves the pattern of its surroundings as it is.
pub proof fn token_compiles_to_its_fragment(before: Seq<char>, s: Specifier, after: Seq<char>)
    ensures
        search_pattern(before + s.token() + after) == search_pattern(before) + s.fragment()
            + search_pattern(after),
{
    token_is_read_as_its_field(before, s, after);
    let middle = seq![Item::Field(s)];
    lemma_pattern_of_concat(items_of(before) + middle, items_of(after));
    lemma_pattern_of_concat(items_of(before), middle);
    assert(middle.drop_last() =~= Seq::<Item>::empty());
    assert(pattern_of(middle.drop_last()) =~= Seq::<char>::empty());
    assert(pattern_of(middle) =~= s.fragment());
}

/// A literal character compiles to the pattern that matches it and nothing
/// else, whatever stands before it and after it in the template, as long
/// as it is no part of a token: it is not `%`, and what stands before it
/// ends in no beginning of a token.
pub proof fn literal_compiles_to_its_escape(before: Seq<char>, c: char, after: Seq<char>)
    requires
        c != '%',
        !ends_open(before),
    ensures
        search_pattern(before + seq![c] + after) == search_pattern(before) + escaped(c)
            + search_pattern(after),
{
    literal_is_read_as_itself(before, c, after);
    let middle = seq![Item::Literal(c)];
    lemma_pattern_of_concat(items_of(before) + middle, items_of(after));
    lemma_pattern_of_concat(items_of(before), middle);
    assert(middle.drop_last() =~= Seq::<Item>::empty());
    assert(pattern_of(middle.drop_last()) =~= Seq::<char>::empty());
    assert(pattern_of(middle) =~= escaped(c));
}

} // verus!
