//! The names of the networks of the registry, each once and in order.

use vstd::prelude::*;
use vstd::string::*;

use crate::app_state::model::AppState;
use crate::utils::error_responses::{ErrorResponse, ErrorResponseView};
use crate::utils::models::{texts_of, Operator, OperatorView};
use crate::utils::text::{
    capitalized, lemma_sorts_before_irreflexive, lemma_sorts_before_transitive, sorts_before,
    text_order, trimmed, TextOrder,
};
use crate::utils::validations::{format_network_name, not_found_error};

verus! {

/// The display form of a name: trimmed, the first character upper-cased and
/// the rest lower-cased.
pub open spec fn display_name(name: Seq<char>) -> Seq<char> {
    capitalized(trimmed(name))
}

/// The display forms of the names of the first `n` operators; an operator
/// without a name gives none.
pub open spec fn display_names_upto(ops: Seq<OperatorView>, n: int) -> Set<Seq<char>> {
    Set::new(
        |t: Seq<char>|
            exists|i: int|
                0 <= i < n && i < ops.len() && (#[trigger] ops[i]).name is Some && display_name(
                    ops[i].name->0,
                ) == t,
    )
}

/// The display forms of the names of all the operators.
pub open spec fn display_names(ops: Seq<OperatorView>) -> Set<Seq<char>> {
    display_names_upto(ops, ops.len() as int)
}

/// Each text sorts strictly before every later one.
pub open spec fn strictly_sorted(texts: Seq<Seq<char>>) -> bool {
    forall|i: int, j: int|
        0 <= i < j < texts.len() ==> sorts_before(#[trigger] texts[i], #[trigger] texts[j])
}

proof fn lemma_last_is_greatest(texts: Seq<Seq<char>>, i: int)
    requires
        strictly_sorted(texts),
        0 <= i < texts.len(),
    ensures
        texts[i] == texts.last() || sorts_before(texts[i], texts.last()),
{
}

proof fn lemma_sorted_front(texts: Seq<Seq<char>>)
    requires
        strictly_sorted(texts),
        texts.len() > 0,
    ensures
        strictly_sorted(texts.drop_last()),
        texts.drop_last().to_set() == texts.to_set().remove(texts.last()),
{
    let front = texts.drop_last();
    assert forall|i: int, j: int| 0 <= i < j < front.len() implies sorts_before(
        #[trigger] front[i],
        #[trigger] front[j],
    ) by {
        assert(front[i] == texts[i] && front[j] == texts[j]);
    }
    assert forall|t: Seq<char>| front.to_set().contains(t) <==> texts.to_set().remove(
        texts.last(),
    ).contains(t) by {
        if front.to_set().contains(t) {
            let i = choose|i: int| 0 <= i < front.len() && front[i] == t;
            assert(texts[i] == t);
            assert(sorts_before(texts[i], texts[texts.len() - 1]));
            lemma_sorts_before_irreflexive(t);
        }
        if texts.to_set().remove(texts.last()).contains(t) {
            let i = choose|i: int| 0 <= i < texts.len() && texts[i] == t;
            assert(front[i] == t);
        }
    }
    assert(front.to_set() =~= texts.to_set().remove(texts.last()));
}

/// A set of texts has one strictly sorted list only: two sorted lists that
/// hold the same texts are the same list.
pub proof fn lemma_sorted_list_is_determined(a: Seq<Seq<char>>, b: Seq<Seq<char>>)
    requires
        strictly_sorted(a),
        strictly_sorted(b),
        a.to_set() == b.to_set(),
    ensures
        a == b,
    decreases a.len(),
{
    if a.len() == 0 {
        if b.len() > 0 {
            assert(b.to_set().contains(b[0]));
            assert(a.to_set().contains(b[0]));
        }
        assert(a =~= b);
    } else {
        assert(a.to_set().contains(a[a.len() - 1]));
        assert(b.to_set().contains(a.last()));
        let j = choose|j: int| 0 <= j < b.len() && b[j] == a.last();
        assert(b.to_set().contains(b[b.len() - 1]));
        assert(a.to_set().contains(b.last()));
        let i = choose|i: int| 0 <= i < a.len() && a[i] == b.last();
        lemma_last_is_greatest(a, i);
        lemma_last_is_greatest(b, j);
        if a.last() != b.last() {
            lemma_sorts_before_transitive(a.last(), b.last(), a.last());
            lemma_sorts_before_irreflexive(a.last());
        }
        lemma_sorted_front(a);
        lemma_sorted_front(b);
        lemma_sorted_list_is_determined(a.drop_last(), b.drop_last());
        assert(a =~= a.drop_last().push(a.last()));
        assert(b =~= b.drop_last().push(b.last()));
    }
}

/// Puts `name` into its place in a sorted list, unless the list holds it.
pub fn insert_sorted(names: &mut Vec<String>, name: String)
    requires
        strictly_sorted(texts_of(old(names)@)),
    ensures
        strictly_sorted(texts_of(final(names)@)),
        texts_of(final(names)@).to_set() == texts_of(old(names)@).to_set().insert(name@),
{
    let ghost before = texts_of(names@);
    let mut p: usize = 0;
    let mut found = false;
    while p < names.len()
        invariant_except_break
            !found,
        invariant
            p <= names.len(),
            before == texts_of(names@),
            forall|j: int| 0 <= j < p ==> sorts_before(#[trigger] before[j], name@),
        ensures
            p <= names.len(),
            before == texts_of(names@),
            forall|j: int| 0 <= j < p ==> sorts_before(#[trigger] before[j], name@),
            found ==> p < names.len() && before[p as int] == name@,
            !found && p < names.len() ==> sorts_before(name@, before[p as int]),
        decreases names.len() - p,
    {
        assert(before[p as int] == names@[p as int]@);
        match text_order(names[p].as_str(), name.as_str()) {
            TextOrder::Before => {
                p += 1;
            },
            TextOrder::Same => {
                found = true;
                break ;
            },
            TextOrder::After => {
                break ;
            },
        }
    }
    if found {
        proof {
            assert(before.to_set().insert(name@) =~= before.to_set());
        }
    } else {
        names.insert(p, name);
        proof {
            let after = texts_of(names@);
            assert(after =~= before.insert(p as int, name@));
            assert forall|i: int, j: int| 0 <= i < j < after.len() implies sorts_before(
                #[trigger] after[i],
                #[trigger] after[j],
            ) by {
                if j < p {
                    assert(after[i] == before[i] && after[j] == before[j]);
                } else if j == p {
                    assert(after[i] == before[i]);
                } else if i == p {
                    if j - 1 > p {
                        lemma_sorts_before_transitive(name@, before[p as int], before[j - 1]);
                    }
                } else if i < p {
                    assert(after[i] == before[i] && after[j] == before[j - 1]);
                } else {
                    assert(after[i] == before[i - 1] && after[j] == before[j - 1]);
                }
            }
            assert forall|t: Seq<char>| after.to_set().contains(t) <==> before.to_set().insert(
                name@,
            ).contains(t) by {
                if after.to_set().contains(t) {
                    let i = choose|i: int| 0 <= i < after.len() && after[i] == t;
                    if i < p {
                        assert(before[i] == t);
                    } else if i > p {
                        assert(before[i - 1] == t);
                    }
                }
                if before.to_set().contains(t) {
                    let i = choose|i: int| 0 <= i < before.len() && before[i] == t;
                    if i < p {
                        assert(after[i] == t);
                    } else {
                        assert(after[i + 1] == t);
                    }
                }
                if t == name@ {
                    assert(after[p as int] == t);
                }
            }
            assert(after.to_set() =~= before.to_set().insert(name@));
        }
    }
}

/// The error for a registry in which no operator has a name.
pub open spec fn no_names_error() -> ErrorResponseView {
    not_found_error("Operator names"@, ""@, "at least one operator name"@)
}

/// The names of the networks in their display form, each once, in the order
/// of `str`. A registry in which no operator has a name gives an error, not
/// an empty list.
pub fn retrieve_network_names(app_state: &AppState) -> (r: Result<Vec<String>, ErrorResponse>)
    ensures
        match r {
            Ok(names) => {
                &&& names@.len() > 0
                &&& exists|i: int|
                    0 <= i < app_state.records().len() && (
                    #[trigger] app_state.records()[i]).name is Some
                &&& strictly_sorted(texts_of(names@))
                &&& texts_of(names@).to_set() == display_names(app_state.records())
            },
            Err(e) => {
                &&& forall|i: int|
                    0 <= i < app_state.records().len() ==> (
                    #[trigger] app_state.records()[i]).name is None
                &&& e@ == no_names_error()
            },
        },
{
    let ghost ops = app_state.records();
    let mut names: Vec<String> = Vec::new();
    proof {
        assert(texts_of(names@).to_set() =~= display_names_upto(ops, 0));
    }
    let mut i: usize = 0;
    while i < app_state.operators.len()
        invariant
            i <= app_state.operators@.len(),
            ops == app_state.records(),
            strictly_sorted(texts_of(names@)),
            texts_of(names@).to_set() == display_names_upto(ops, i as int),
        decreases app_state.operators@.len() - i,
    {
        let op: &Operator = &app_state.operators[i];
        assert(ops[i as int] == op@);
        match &op.name {
            Some(n) => {
                let shown = format_network_name(n.as_str());
                insert_sorted(&mut names, shown);
                proof {
                    assert(display_names_upto(ops, i + 1) =~= display_names_upto(
                        ops,
                        i as int,
                    ).insert(shown@));
                }
            },
            None => {
                proof {
                    assert(display_names_upto(ops, i + 1) =~= display_names_upto(ops, i as int));
                }
            },
        }
        i += 1;
    }
    if names.len() == 0 {
        proof {
            assert forall|k: int| 0 <= k < ops.len() implies (#[trigger] ops[k]).name is None by {
                if ops[k].name is Some {
                    assert(display_names(ops).contains(display_name(ops[k].name->0)));
                    let t = display_name(ops[k].name->0);
                    assert(texts_of(names@).to_set().contains(t));
                }
            }
        }
        return Err(
            ErrorResponse::NotFound {
                field: String::from_str("Operator names"),
                received: String::from_str(""),
                expected: String::from_str("at least one operator name"),
            },
        );
    }
    proof {
        let t = texts_of(names@)[0];
        assert(texts_of(names@).to_set().contains(t));
        assert(display_names(ops).contains(t));
    }
    Ok(names)
}

} // verus!
