//! Reading a format template into its items.

use crate::specifier::{
    find_specifier, specifier_at, specifier_at_is_its_token, stands_at, Specifier,
};
use crate::text::chars_of;
use vstd::prelude::*;

verus! {

/// One step of a template: a character that stands for itself, or a field.
#[derive(Clone, Copy, Debug, PartialEq, Eq)]
pub enum Item {
    /// A character of the template that is no part of a token.
    Literal(char),
    /// A specifier, named in the template by its token.
    Field(Specifier),
}

impl Item {
    /// How many characters of the template the item takes up.
    pub open spec fn span(self) -> int {
        match self {
            Item::Literal(_) => 1,
            Item::Field(s) => s.token().len() as int,
        }
    }

    /// The characters that stand for the item in a template: the literal
    /// itself, or the token of the field.
    pub open spec fn text(self) -> Seq<char> {
        match self {
            Item::Literal(c) => seq![c],
            Item::Field(s) => s.token(),
        }
    }
}

/// The template that a list of items spells: the text of each, one behind
/// the other.
pub open spec fn spelled_by(items: Seq<Item>) -> Seq<char>
    decreases items.len(),
{
    if items.len() == 0 {
        Seq::empty()
    } else {
        items[0].text() + spelled_by(items.drop_first())
    }
}

/// The item that begins at position `i` of `template`: the specifier whose
/// token begins there, or else the character itself.
pub open spec fn item_at(template: Seq<char>, i: int) -> Item {
    match specifier_at(template, i) {
        Some(s) => Item::Field(s),
        None => Item::Literal(template[i]),
    }
}

/// The items of `template` from position `i` on: the item that begins
/// there, then the items behind it.
pub open spec fn items_from(template: Seq<char>, i: int) -> Seq<Item>
    decreases template.len() - i,
{
    if i < 0 || i >= template.len() {
        Seq::empty()
    } else {
        let item = item_at(template, i);
        seq![item] + items_from(template, i + item.span())
    }
}

/// The items of a whole template.
pub open spec fn items_of(template: Seq<char>) -> Seq<Item> {
    items_from(template, 0)
}

/// Reads a template into its items.
pub fn template_items(template: &str) -> (items: Vec<Item>)
    ensures
        items@ == items_of(template@),
{
    let chars = chars_of(template);
    let n: usize = chars.len();
    let mut items: Vec<Item> = Vec::new();
    let mut i: usize = 0;
    while i < n
        invariant
            n == chars.len(),
            chars@ == template@,
            i <= n,
            items@ + items_from(chars@, i as int) == items_of(chars@),
        decreases n - i,
    {
        let ghost before = items@;
        let ghost item = item_at(chars@, i as int);
        match find_specifier(&chars, i) {
            Some(s) => {
                items.push(Item::Field(s));
                i = i + if s == Specifier::Fraction { 3 } else { 2 };
            },
            None => {
                items.push(Item::Literal(chars[i]));
                i = i + 1;
            },
        }
        proof {
            assert(items@ + items_from(chars@, i as int) =~= before + (seq![item] + items_from(
                chars@,
                i as int,
            )));
        }
    }
    assert(items@ + Seq::<Item>::empty() =~= items@);
    items
}

/// The items from a position on spell the template from that position on.
proof fn lemma_items_spell_the_rest(template: Seq<char>, i: int)
    requires
        0 <= i <= template.len(),
    ensures
        spelled_by(items_from(template, i)) == template.subrange(i, template.len() as int),
    decreases template.len() - i,
{
    let end = template.len() as int;
    if i == end {
        assert(template.subrange(i, end) =~= Seq::<char>::empty());
    } else {
        let item = item_at(template, i);
        let behind = items_from(template, i + item.span());
        let all = items_from(template, i);
        match specifier_at(template, i) {
            Some(s) => {
                specifier_at_is_its_token(template, i, s);
            },
            None => {
                assert(template.subrange(i, i + 1) =~= seq![template[i]]);
            },
        }
        assert(item.text() == template.subrange(i, i + item.span()));
        lemma_items_spell_the_rest(template, i + item.span());
        assert(all[0] == item);
        assert(all.drop_first() =~= behind);
        assert(template.subrange(i, i + item.span()) + template.subrange(i + item.span(), end)
            =~= template.subrange(i, end));
    }
}

/// The items of a template spell the template: reading takes every
/// character into exactly one item, and adds none.
pub proof fn items_spell_the_template(template: Seq<char>)
    ensures
        spelled_by(items_of(template)) == template,
{
    lemma_items_spell_the_rest(template, 0);
    assert(template.subrange(0, template.len() as int) =~= template);
}

/// Behind a prefix, a template is read as it is read alone.
pub proof fn lemma_items_behind_prefix(prefix: Seq<char>, rest: Seq<char>, j: int)
    requires
        0 <= j,
    ensures
        items_from(prefix + rest, prefix.len() + j) == items_from(rest, j),
    decreases rest.len() - j,
{
    let whole = prefix + rest;
    if j < rest.len() {
        let at = prefix.len() + j;
        assert(whole[at] == rest[j]);
        if j + 1 < rest.len() {
            assert(whole[at + 1] == rest[j + 1]);
        }
        if j + 2 < rest.len() {
            assert(whole[at + 2] == rest[j + 2]);
        }
        assert(item_at(whole, at) == item_at(rest, j));
        lemma_items_behind_prefix(prefix, rest, j + item_at(rest, j).span());
    }
}

/// Whether a template ends in the beginning of a token: in `%`, or in `%.`.
pub open spec fn ends_open(template: Seq<char>) -> bool {
    ||| template.len() >= 1 && template[template.len() - 1] == '%'
    ||| template.len() >= 2 && template[template.len() - 2] == '%' && template[template.len() - 1]
        == '.'
}

/// Whether no token can reach from the end of `first` into `rest`: `rest`
/// is empty or begins a token of its own, or `first` ends in no beginning of
/// a token.
pub open spec fn joins_cleanly(first: Seq<char>, rest: Seq<char>) -> bool {
    rest.len() == 0 || rest[0] == '%' || !ends_open(first)
}

/// Where no token can reach from one piece of a template into the next, the
/// two pieces are read as they are read alone.
pub proof fn lemma_items_split(first: Seq<char>, rest: Seq<char>, i: int)
    requires
        0 <= i <= first.len(),
        joins_cleanly(first, rest),
    ensures
        items_from(first + rest, i) == items_from(first, i) + items_from(rest, 0),
    decreases first.len() - i,
{
    let whole = first + rest;
    if i == first.len() {
        lemma_items_behind_prefix(first, rest, 0);
        assert(items_from(first, i) + items_from(rest, 0) =~= items_from(rest, 0));
    } else {
        assert(whole[i] == first[i]);
        if i + 1 < first.len() {
            assert(whole[i + 1] == first[i + 1]);
        } else if rest.len() > 0 {
            assert(whole[i + 1] == rest[0]);
        }
        if i + 2 < first.len() {
            assert(whole[i + 2] == first[i + 2]);
        } else if i + 2 == first.len() && rest.len() > 0 {
            assert(whole[i + 2] == rest[0]);
        }
        let item = item_at(first, i);
        assert(item_at(whole, i) == item);
        lemma_items_split(first, rest, i + item.span());
        assert(items_from(whole, i) =~= items_from(first, i) + items_from(rest, 0));
    }
}

/// Wherever a token stands in a template, it is read whole and as itself:
/// what comes before it and what comes after it are read as they are read
/// alone, and the token gives the one field it names.
pub proof fn token_is_read_as_its_field(before: Seq<char>, s: Specifier, after: Seq<char>)
    ensures
        items_of(before + s.token() + after) == items_of(before) + seq![Item::Field(s)] + items_of(
            after,
        ),
{
    let word = s.token();
    let rest = word + after;
    assert(before + word + after =~= before + rest);
    lemma_items_split(before, rest, 0);
    assert(rest.subrange(0, word.len() as int) =~= word);
    assert(stands_at(rest, 0, word));
    specifier_at_is_its_token(rest, 0, s);
    lemma_items_behind_prefix(word, after, 0);
    assert(items_of(rest) =~= seq![Item::Field(s)] + items_of(after));
    assert(items_of(before) + (seq![Item::Field(s)] + items_of(after)) =~= items_of(before)
        + seq![Item::Field(s)] + items_of(after));
}

/// A character that is not `%`, behind a piece of template that ends in no
/// beginning of a token, is read as a literal: what comes before it and
/// what comes after it are read as they are read alone.
pub proof fn literal_is_read_as_itself(before: Seq<char>, c: char, after: Seq<char>)
    requires
        c != '%',
        !ends_open(before),
    ensures
        items_of(before + seq![c] + after) == items_of(before) + seq![Item::Literal(c)] + items_of(
            after,
        ),
{
    let word = seq![c];
    let rest = word + after;
    assert(before + word + after =~= before + rest);
    lemma_items_split(before, rest, 0);
    assert(rest[0] == c);
    assert(item_at(rest, 0) == Item::Literal(c));
    lemma_items_behind_prefix(word, after, 0);
    assert(items_of(rest) =~= seq![Item::Literal(c)] + items_of(after));
    assert(items_of(before) + (seq![Item::Literal(c)] + items_of(after)) =~= items_of(before)
        + seq![Item::Literal(c)] + items_of(after));
}

} // verus!
