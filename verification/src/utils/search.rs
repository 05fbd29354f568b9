//! Finding the first operator of a list that answers to a key.

use std::sync::Arc;
use vstd::prelude::*;

use crate::utils::models::{texts_of, views_of, Operator, OperatorView, SizeClass};
use crate::utils::text::{
    contains, eq_ignore_ascii_case, eq_ignoring_ascii_case, is_substring, lowercase_of, same_text,
    to_lowercase,
};

verus! {

/// A key by which operators are found.
pub enum Selector {
    /// The country name, letter for letter.
    Country(Seq<char>),
    /// The two-letter country code, letter for letter.
    Iso2(Seq<char>),
    /// The three-letter country code, letter for letter.
    Iso3(Seq<char>),
    /// The three-letter country code, without regard to the case of ASCII
    /// letters.
    Iso3AnyCase(Seq<char>),
    /// One of the TADIG codes, letter for letter.
    Tadig(Seq<char>),
    /// One of the TADIG codes, without regard to the case of ASCII letters.
    TadigAnyCase(Seq<char>),
    /// A country name whose lower-case form holds one of the given names.
    CountryHoldsAny(Seq<Seq<char>>),
    /// The group by the number of IMSI prefixes.
    Size(SizeClass),
}

/// One of `names` occurs in `text`.
pub open spec fn holds_any_of(names: Seq<Seq<char>>, text: Seq<char>) -> bool {
    exists|i: int| 0 <= i < names.len() && is_substring(#[trigger] names[i], text)
}

impl OperatorView {
    /// Whether this operator answers to the key.
    pub open spec fn answers_to(self, by: Selector) -> bool {
        match by {
            Selector::Country(country) => self.country == country,
            Selector::Iso2(iso2) => self.iso2 == iso2,
            Selector::Iso3(iso3) => self.iso3 == iso3,
            Selector::Iso3AnyCase(iso3) => eq_ignoring_ascii_case(self.iso3, iso3),
            Selector::Tadig(code) => self.has_tadig(code),
            Selector::TadigAnyCase(code) => self.tadig matches Some(codes) && exists|i: int|
                0 <= i < codes.len() && eq_ignoring_ascii_case(#[trigger] codes[i], code),
            Selector::CountryHoldsAny(names) => holds_any_of(names, lowercase_of(self.country)),
            Selector::Size(class) => self.size_class() == class,
        }
    }
}

/// The index of the first operator at or after `i` that answers to `by`.
pub open spec fn first_index_from(ops: Seq<OperatorView>, by: Selector, i: int) -> Option<int>
    decreases ops.len() - i,
{
    if i < 0 || i >= ops.len() {
        None
    } else if ops[i].answers_to(by) {
        Some(i)
    } else {
        first_index_from(ops, by, i + 1)
    }
}

/// The index of the first operator that answers to `by`, if any does.
pub open spec fn first_index(ops: Seq<OperatorView>, by: Selector) -> Option<int> {
    first_index_from(ops, by, 0)
}

/// The first index is the least index of an operator that answers to the
/// key, and there is none exactly if no operator answers to it.
pub proof fn lemma_first_index(ops: Seq<OperatorView>, by: Selector)
    ensures
        match first_index(ops, by) {
            Some(k) => 0 <= k < ops.len() && ops[k].answers_to(by) && forall|j: int|
                0 <= j < k ==> !(#[trigger] ops[j]).answers_to(by),
            None => forall|j: int| 0 <= j < ops.len() ==> !(#[trigger] ops[j]).answers_to(by),
        },
{
    lemma_first_index_from(ops, by, 0);
}

proof fn lemma_first_index_from(ops: Seq<OperatorView>, by: Selector, i: int)
    requires
        0 <= i,
    ensures
        match first_index_from(ops, by, i) {
            Some(k) => i <= k < ops.len() && ops[k].answers_to(by) && forall|j: int|
                i <= j < k ==> !(#[trigger] ops[j]).answers_to(by),
            None => forall|j: int| i <= j < ops.len() ==> !(#[trigger] ops[j]).answers_to(by),
        },
    decreases ops.len() - i,
{
    if i < ops.len() && !ops[i].answers_to(by) {
        lemma_first_index_from(ops, by, i + 1);
    }
}

/// A key by which operators are found, as the program holds it.
#[derive(Clone, Copy, Debug)]
pub enum Lookup<'a> {
    Country(&'a str),
    Iso2(&'a str),
    Iso3(&'a str),
    Iso3AnyCase(&'a str),
    Tadig(&'a str),
    TadigAnyCase(&'a str),
    CountryHoldsAny(&'a [String]),
    Size(SizeClass),
}

impl<'a> View for Lookup<'a> {
    type V = Selector;

    open spec fn view(&self) -> Selector {
        match self {
            Lookup::Country(s) => Selector::Country(s@),
            Lookup::Iso2(s) => Selector::Iso2(s@),
            Lookup::Iso3(s) => Selector::Iso3(s@),
            Lookup::Iso3AnyCase(s) => Selector::Iso3AnyCase(s@),
            Lookup::Tadig(s) => Selector::Tadig(s@),
            Lookup::TadigAnyCase(s) => Selector::TadigAnyCase(s@),
            Lookup::CountryHoldsAny(names) => Selector::CountryHoldsAny(texts_of(names@)),
            Lookup::Size(class) => Selector::Size(*class),
        }
    }
}

fn list_contains_any_case(codes: &Vec<String>, key: &str) -> (b: bool)
    ensures
        b == exists|i: int|
            0 <= i < codes@.len() && eq_ignoring_ascii_case(#[trigger] texts_of(codes@)[i], key@),
{
    let mut i: usize = 0;
    while i < codes.len()
        invariant
            i <= codes.len(),
            forall|j: int|
                0 <= j < i ==> !eq_ignoring_ascii_case(#[trigger] texts_of(codes@)[j], key@),
        decreases codes.len() - i,
    {
        if eq_ignore_ascii_case(codes[i].as_str(), key) {
            assert(eq_ignoring_ascii_case(texts_of(codes@)[i as int], key@));
            return true;
        }
        i += 1;
    }
    false
}

/// Whether `op` answers to the key.
pub fn answers_to(op: &Operator, by: Lookup<'_>) -> (b: bool)
    ensures
        b == op@.answers_to(by@),
{
    match by {
        Lookup::Country(country) => same_text(op.country.as_str(), country),
        Lookup::Iso2(iso2) => same_text(op.iso2.as_str(), iso2),
        Lookup::Iso3(iso3) => same_text(op.iso3.as_str(), iso3),
        Lookup::Iso3AnyCase(iso3) => eq_ignore_ascii_case(op.iso3.as_str(), iso3),
        Lookup::Tadig(code) => op.has_tadig(code),
        Lookup::TadigAnyCase(code) => match &op.tadig {
            Some(codes) => list_contains_any_case(codes, code),
            None => false,
        },
        Lookup::CountryHoldsAny(names) => holds_any(op.country.as_str(), names),
        Lookup::Size(class) => op.size_class() == class,
    }
}

/// Whether the lower-case form of `country` holds one of `names`.
fn holds_any(country: &str, names: &[String]) -> (b: bool)
    ensures
        b == holds_any_of(texts_of(names@), lowercase_of(country@)),
{
    let lowered = to_lowercase(country);
    let mut i: usize = 0;
    while i < names.len()
        invariant
            i <= names.len(),
            lowered@ == lowercase_of(country@),
            forall|j: int|
                0 <= j < i ==> !is_substring(#[trigger] texts_of(names@)[j], lowercase_of(country@)),
        decreases names.len() - i,
    {
        if contains(lowered.as_str(), names[i].as_str()) {
            assert(is_substring(texts_of(names@)[i as int], lowercase_of(country@)));
            return true;
        }
        i += 1;
    }
    false
}

/// The operators of `ops` that answer to `by`, in their order.
pub open spec fn selected(ops: Seq<OperatorView>, by: Selector) -> Seq<OperatorView>
    decreases ops.len(),
{
    if ops.len() == 0 {
        Seq::empty()
    } else if ops.last().answers_to(by) {
        selected(ops.drop_last(), by).push(ops.last())
    } else {
        selected(ops.drop_last(), by)
    }
}

/// A selection holds exactly the operators that answer to the key, and no
/// more operators than the list.
pub proof fn lemma_selected(ops: Seq<OperatorView>, by: Selector)
    ensures
        selected(ops, by).len() <= ops.len(),
        forall|i: int|
            0 <= i < selected(ops, by).len() ==> (#[trigger] selected(ops, by)[i]).answers_to(by)
                && ops.contains(selected(ops, by)[i]),
        forall|i: int|
            0 <= i < ops.len() && (#[trigger] ops[i]).answers_to(by) ==> selected(ops, by).contains(
                ops[i],
            ),
    decreases ops.len(),
{
    if ops.len() > 0 {
        let front = ops.drop_last();
        lemma_selected(front, by);
        let s = selected(ops, by);
        assert forall|i: int| 0 <= i < s.len() implies (#[trigger] s[i]).answers_to(by)
            && ops.contains(s[i]) by {
            if i < selected(front, by).len() {
                let x = selected(front, by)[i];
                assert(front.contains(x));
                let j = choose|j: int| 0 <= j < front.len() && front[j] == x;
                assert(ops[j] == x);
            } else {
                assert(ops[ops.len() - 1] == s[i]);
            }
        }
        assert forall|i: int| 0 <= i < ops.len() && (#[trigger] ops[i]).answers_to(by) implies s.contains(
            ops[i],
        ) by {
            if i < front.len() {
                assert(front[i] == ops[i]);
                assert(selected(front, by).contains(front[i]));
                let j = choose|j: int|
                    0 <= j < selected(front, by).len() && selected(front, by)[j] == front[i];
                assert(s[j] == ops[i]);
            } else {
                assert(s[s.len() - 1] == ops[i]);
            }
        }
    }
}

/// A copy of each operator of `ops` that answers to `by`, in their order.
pub fn select(ops: &[Operator], by: Lookup<'_>) -> (r: Vec<Operator>)
    ensures
        views_of(r@) == selected(views_of(ops@), by@),
{
    let ghost v = views_of(ops@);
    let mut r: Vec<Operator> = Vec::new();
    let mut i: usize = 0;
    while i < ops.len()
        invariant
            i <= ops.len(),
            v == views_of(ops@),
            views_of(r@) == selected(v.take(i as int), by@),
        decreases ops.len() - i,
    {
        proof {
            assert(v.take(i + 1).drop_last() == v.take(i as int));
            assert(v.take(i + 1).last() == ops@[i as int]@);
        }
        if answers_to(&ops[i], by) {
            let ghost before = r@;
            r.push(ops[i].clone());
            proof {
                assert(views_of(r@) =~= views_of(before).push(ops@[i as int]@));
            }
        }
        i += 1;
    }
    proof {
        assert(v.take(ops@.len() as int) == v);
    }
    r
}

/// A copy of each operator of `ops` that answers to `by`, in their order.
pub fn select_shared(ops: &[Arc<Operator>], by: Lookup<'_>) -> (r: Vec<Operator>)
    ensures
        views_of(r@) == selected(shared_views_of(ops@), by@),
{
    let ghost v = shared_views_of(ops@);
    let mut r: Vec<Operator> = Vec::new();
    let mut i: usize = 0;
    while i < ops.len()
        invariant
            i <= ops.len(),
            v == shared_views_of(ops@),
            views_of(r@) == selected(v.take(i as int), by@),
        decreases ops.len() - i,
    {
        proof {
            assert(v.take(i + 1).drop_last() == v.take(i as int));
            assert(v.take(i + 1).last() == ops@[i as int]@);
        }
        let op: &Operator = &ops[i];
        if answers_to(op, by) {
            let ghost before = r@;
            r.push(op.clone());
            proof {
                assert(views_of(r@) =~= views_of(before).push(ops@[i as int]@));
            }
        }
        i += 1;
    }
    proof {
        assert(v.take(ops@.len() as int) == v);
    }
    r
}

/// The views of a list of shared operators, in order.
pub open spec fn shared_views_of(ops: Seq<Arc<Operator>>) -> Seq<OperatorView> {
    Seq::new(ops.len(), |i: int| ops[i]@)
}

/// What an optional index stands for.
pub open spec fn index_view(o: Option<usize>) -> Option<int> {
    match o {
        Some(i) => Some(i as int),
        None => None,
    }
}

/// The index of the first operator of `ops` that answers to `by`.
pub fn position(ops: &[Operator], by: Lookup<'_>) -> (r: Option<usize>)
    ensures
        index_view(r) == first_index(views_of(ops@), by@),
{
    let ghost v = views_of(ops@);
    let mut i: usize = 0;
    while i < ops.len()
        invariant
            i <= ops.len(),
            v == views_of(ops@),
            first_index(v, by@) == first_index_from(v, by@, i as int),
        decreases ops.len() - i,
    {
        if answers_to(&ops[i], by) {
            return Some(i);
        }
        i += 1;
    }
    None
}

/// The index of the first operator of `ops` that answers to `by`.
pub fn shared_position(ops: &[Arc<Operator>], by: Lookup<'_>) -> (r: Option<usize>)
    ensures
        index_view(r) == first_index(shared_views_of(ops@), by@),
{
    let ghost v = shared_views_of(ops@);
    let mut i: usize = 0;
    while i < ops.len()
        invariant
            i <= ops.len(),
            v == shared_views_of(ops@),
            first_index(v, by@) == first_index_from(v, by@, i as int),
        decreases ops.len() - i,
    {
        if answers_to(&ops[i], by) {
            return Some(i);
        }
        i += 1;
    }
    None
}

} // verus!
