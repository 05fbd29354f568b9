//! What the registry keeps true through every change: no two operators
//! share an IMSI prefix, an MSISDN prefix, a TADIG code or a name, and no
//! operator is of a country that the registry did not know before.

use vstd::prelude::*;

use crate::operators::crud_operations::create::create_result;
use crate::app_state::model::swap_removed;
use crate::operators::crud_operations::update::{patch_result, put_result};
use crate::utils::error_responses::ErrorResponseView;
use crate::utils::models::{
    identifiers_unique, lemma_of_operators_includes, CreateOperatorView,
    DuplicateCheckerView, OperatorView, PatchOperatorView,
};
use crate::utils::search::{first_index, lemma_first_index, Selector};
use crate::utils::validations::{
    country_name_result, invalid_country_error, lemma_identifiers_pass, request_identifiers,
    updated_codes_result,
};

verus! {

/// An operator whose identifiers are not in use among a list shares none
/// with any operator of the list.
proof fn lemma_unused_is_disjoint(ops: Seq<OperatorView>, fresh: DuplicateCheckerView, i: int)
    requires
        0 <= i < ops.len(),
        fresh.disjoint(DuplicateCheckerView::of_operators(ops)),
    ensures
        fresh.disjoint(ops[i].identifiers()),
        ops[i].identifiers().disjoint(fresh),
{
    lemma_of_operators_includes(ops, i);
}

/// A list of unique operators stays unique when an operator is added that
/// shares no identifier with any of them.
proof fn lemma_push_keeps_unique(ops: Seq<OperatorView>, op: OperatorView)
    requires
        identifiers_unique(ops),
        forall|i: int| 0 <= i < ops.len() ==> (#[trigger] ops[i]).identifiers().disjoint(
            op.identifiers(),
        ),
    ensures
        identifiers_unique(ops.push(op)),
{
    let after = ops.push(op);
    assert forall|i: int, j: int| 0 <= i < j < after.len() implies (
    #[trigger] after[i]).identifiers().disjoint((#[trigger] after[j]).identifiers()) by {
        assert(after[i] == ops[i]);
        if j < ops.len() {
            assert(after[j] == ops[j]);
        }
    }
}

/// A list of unique operators stays unique when one of them is replaced by
/// an operator that shares no identifier with any of the others.
proof fn lemma_update_keeps_unique(ops: Seq<OperatorView>, k: int, op: OperatorView)
    requires
        identifiers_unique(ops),
        0 <= k < ops.len(),
        forall|i: int|
            0 <= i < ops.len() && i != k ==> (#[trigger] ops[i]).identifiers().disjoint(
                op.identifiers(),
            ) && op.identifiers().disjoint(ops[i].identifiers()),
    ensures
        identifiers_unique(ops.update(k, op)),
{
    let after = ops.update(k, op);
    assert forall|i: int, j: int| 0 <= i < j < after.len() implies (
    #[trigger] after[i]).identifiers().disjoint((#[trigger] after[j]).identifiers()) by {
        if i != k {
            assert(after[i] == ops[i]);
        }
        if j != k {
            assert(after[j] == ops[j]);
        }
    }
}

/// Creating an operator keeps the identifiers of the registry unique.
pub proof fn lemma_create_keeps_unique(ops: Seq<OperatorView>, input: CreateOperatorView)
    requires
        identifiers_unique(ops),
        create_result(ops, input) is Ok,
    ensures
        identifiers_unique(ops.push(create_result(ops, input)->Ok_0)),
{
    let op = create_result(ops, input)->Ok_0;
    let dup = DuplicateCheckerView::of_operators(ops);
    lemma_identifiers_pass(dup, input.e212, input.e164, input.name, Some(input.tadig_list()));
    let fresh = request_identifiers(input.e212, input.e164, input.name, Some(input.tadig_list()));
    assert(op.identifiers() == fresh);
    assert forall|i: int| 0 <= i < ops.len() implies (#[trigger] ops[i]).identifiers().disjoint(
        op.identifiers(),
    ) by {
        lemma_unused_is_disjoint(ops, fresh, i);
    }
    lemma_push_keeps_unique(ops, op);
}

/// Among unique operators the identifiers of each but one are in use even
/// when those of that one are left out of account.
proof fn lemma_others_stay_in_use(ops: Seq<OperatorView>, k: int, i: int)
    requires
        identifiers_unique(ops),
        0 <= k < ops.len(),
        0 <= i < ops.len(),
        i != k,
    ensures
        ops[i].identifiers().subset_of(
            DuplicateCheckerView::of_operators(ops).difference(ops[k].identifiers()),
        ),
{
    lemma_of_operators_includes(ops, i);
    if i < k {
        assert(ops[i].identifiers().disjoint(ops[k].identifiers()));
    } else {
        assert(ops[k].identifiers().disjoint(ops[i].identifiers()));
    }
}

/// Replacing an operator keeps the identifiers of the registry unique.
pub proof fn lemma_put_keeps_unique(
    ops: Seq<OperatorView>,
    target: Seq<char>,
    input: CreateOperatorView,
)
    requires
        identifiers_unique(ops),
        put_result(ops, target, input) is Ok,
    ensures
        0 <= (put_result(ops, target, input)->Ok_0).0 < ops.len(),
        identifiers_unique(
            ops.update(
                (put_result(ops, target, input)->Ok_0).0,
                (put_result(ops, target, input)->Ok_0).1,
            ),
        ),
{
    let (k, op) = put_result(ops, target, input)->Ok_0;
    lemma_first_index(ops, Selector::Tadig(target));
    let dup = DuplicateCheckerView::of_operators(ops).difference(ops[k].identifiers());
    lemma_identifiers_pass(dup, input.e212, input.e164, input.name, Some(input.tadig_list()));
    let fresh = request_identifiers(input.e212, input.e164, input.name, Some(input.tadig_list()));
    assert(op.identifiers() == fresh);
    assert forall|i: int| 0 <= i < ops.len() && i != k implies (
    #[trigger] ops[i]).identifiers().disjoint(op.identifiers()) && op.identifiers().disjoint(
        ops[i].identifiers(),
    ) by {
        lemma_others_stay_in_use(ops, k, i);
    }
    lemma_update_keeps_unique(ops, k, op);
}

/// Patching an operator keeps the identifiers of the registry unique.
pub proof fn lemma_patch_keeps_unique(
    ops: Seq<OperatorView>,
    target: Seq<char>,
    patch: PatchOperatorView,
)
    requires
        identifiers_unique(ops),
        patch_result(ops, target, patch) is Ok,
    ensures
        0 <= (patch_result(ops, target, patch)->Ok_0).0 < ops.len(),
        identifiers_unique(
            ops.update(
                (patch_result(ops, target, patch)->Ok_0).0,
                (patch_result(ops, target, patch)->Ok_0).1,
            ),
        ),
{
    let (k, op) = patch_result(ops, target, patch)->Ok_0;
    lemma_first_index(ops, Selector::Tadig(target));
    let others = ops.remove(k);
    let dup = DuplicateCheckerView::of_operators(others);
    lemma_identifiers_pass(dup, patch.e212, patch.e164, patch.new_name(), patch.tadig);
    let fresh = request_identifiers(patch.e212, patch.e164, patch.new_name(), patch.tadig);
    assert forall|i: int| 0 <= i < ops.len() && i != k implies (
    #[trigger] ops[i]).identifiers().disjoint(op.identifiers()) && op.identifiers().disjoint(
        ops[i].identifiers(),
    ) by {
        let at = if i < k {
            i
        } else {
            i - 1
        };
        assert(others[at] == ops[i]);
        lemma_unused_is_disjoint(others, fresh, at);
        if i < k {
            assert(ops[i].identifiers().disjoint(ops[k].identifiers()));
        } else {
            assert(ops[k].identifiers().disjoint(ops[i].identifiers()));
        }
    }
    lemma_update_keeps_unique(ops, k, op);
}

/// Deleting an operator keeps the identifiers of the registry unique.
pub proof fn lemma_delete_keeps_unique(ops: Seq<OperatorView>, k: int)
    requires
        identifiers_unique(ops),
        0 <= k < ops.len(),
    ensures
        identifiers_unique(swap_removed(ops, k)),
{
    let after = swap_removed(ops, k);
    let last = ops.len() - 1;
    assert forall|i: int, j: int| 0 <= i < j < after.len() implies (
    #[trigger] after[i]).identifiers().disjoint((#[trigger] after[j]).identifiers()) by {
        let from_i = if i == k {
            last
        } else {
            i
        };
        let from_j = if j == k {
            last
        } else {
            j
        };
        assert(after[i] == ops[from_i]);
        assert(after[j] == ops[from_j]);
        if from_i < from_j {
            assert(ops[from_i].identifiers().disjoint(ops[from_j].identifiers()));
        } else {
            assert(ops[from_j].identifiers().disjoint(ops[from_i].identifiers()));
        }
    }
}

/// Once the operator that has a TADIG code is deleted from a registry of
/// unique operators, no operator has the code: deleting it again finds
/// nothing.
pub proof fn lemma_delete_twice_finds_nothing(ops: Seq<OperatorView>, tadig: Seq<char>)
    requires
        identifiers_unique(ops),
        first_index(ops, Selector::Tadig(tadig)) is Some,
    ensures
        first_index(
            swap_removed(ops, first_index(ops, Selector::Tadig(tadig))->0),
            Selector::Tadig(tadig),
        ) is None,
{
    let k = first_index(ops, Selector::Tadig(tadig))->0;
    lemma_first_index(ops, Selector::Tadig(tadig));
    let after = swap_removed(ops, k);
    lemma_first_index(after, Selector::Tadig(tadig));
    if first_index(after, Selector::Tadig(tadig)) is Some {
        let j = first_index(after, Selector::Tadig(tadig))->0;
        let from = if j == k {
            ops.len() - 1
        } else {
            j
        };
        assert(after[j] == ops[from]);
        assert(ops[from].identifiers().tadig_codes.contains(tadig));
        assert(ops[k].identifiers().tadig_codes.contains(tadig));
        if from < k {
            assert(ops[from].identifiers().disjoint(ops[k].identifiers()));
        } else {
            assert(ops[k].identifiers().disjoint(ops[from].identifiers()));
        }
    }
}

/// Some operator of the list has the country identity of `op`.
pub open spec fn country_is_known(ops: Seq<OperatorView>, op: OperatorView) -> bool {
    exists|k: int| 0 <= k < ops.len() && (#[trigger] ops[k]).country_codes() == op.country_codes()
}

/// A created operator has the country identity of an operator that the
/// registry held before: creation brings no new country.
pub proof fn lemma_create_keeps_countries(ops: Seq<OperatorView>, input: CreateOperatorView)
    requires
        create_result(ops, input) is Ok,
    ensures
        country_is_known(ops, create_result(ops, input)->Ok_0),
{
    let country = country_name_result(input.country)->Ok_0;
    lemma_first_index(ops, Selector::Country(country));
    let k = first_index(ops, Selector::Country(country))->0;
    assert(ops[k].country_codes() == (create_result(ops, input)->Ok_0).country_codes());
}

/// A replacement has the country identity of an operator that the registry
/// held before.
pub proof fn lemma_put_keeps_countries(
    ops: Seq<OperatorView>,
    target: Seq<char>,
    input: CreateOperatorView,
)
    requires
        put_result(ops, target, input) is Ok,
    ensures
        country_is_known(ops, (put_result(ops, target, input)->Ok_0).1),
{
    let country = country_name_result(input.country)->Ok_0;
    lemma_first_index(ops, Selector::Country(country));
    let k = first_index(ops, Selector::Country(country))->0;
    assert(ops[k].country_codes() == (put_result(ops, target, input)->Ok_0).1.country_codes());
}

/// A patched operator has the country identity of an operator that the
/// registry held before, its own included.
pub proof fn lemma_patch_keeps_countries(
    ops: Seq<OperatorView>,
    target: Seq<char>,
    patch: PatchOperatorView,
)
    requires
        patch_result(ops, target, patch) is Ok,
    ensures
        country_is_known(ops, (patch_result(ops, target, patch)->Ok_0).1),
{
    lemma_first_index(ops, Selector::Tadig(target));
    let index = first_index(ops, Selector::Tadig(target))->0;
    let op = (patch_result(ops, target, patch)->Ok_0).1;
    if patch.iso3 is Some {
        lemma_first_index(ops, Selector::Iso3(patch.iso3->0));
        let k = first_index(ops, Selector::Iso3(patch.iso3->0))->0;
        assert(ops[k].country_codes() == op.country_codes());
    } else if patch.iso2 is Some {
        lemma_first_index(ops, Selector::Iso2(patch.iso2->0));
        let k = first_index(ops, Selector::Iso2(patch.iso2->0))->0;
        assert(ops[k].country_codes() == op.country_codes());
    } else if patch.country is Some {
        let formatted = country_name_result(patch.country->0)->Ok_0;
        lemma_first_index(ops, Selector::Country(formatted));
        let k = first_index(ops, Selector::Country(formatted))->0;
        assert(ops[k].country_codes() == op.country_codes());
    } else {
        assert(ops[index].country_codes() == op.country_codes());
    }
}

/// Where a patch gives a three-letter code that an operator of the registry
/// has, the country identity after the patch is that of the first such
/// operator, whatever two-letter code and country name the patch gives
/// beside it.
pub proof fn lemma_iso3_decides(
    ops: Seq<OperatorView>,
    patch: PatchOperatorView,
    current: OperatorView,
)
    requires
        patch.iso3 is Some,
        first_index(ops, Selector::Iso3(patch.iso3->0)) is Some,
    ensures
        updated_codes_result(ops, patch, current) == Ok::<
            (Seq<char>, Seq<char>, Seq<char>),
            ErrorResponseView,
        >(ops[first_index(ops, Selector::Iso3(patch.iso3->0))->0].country_codes()),
{
}

/// An operator cannot be created in a country that no operator of the
/// registry has: the request is refused as naming an invalid country.
pub proof fn lemma_create_needs_known_country(ops: Seq<OperatorView>, input: CreateOperatorView)
    requires
        country_name_result(input.country) is Ok,
        forall|i: int|
            0 <= i < ops.len() ==> (#[trigger] ops[i]).country != country_name_result(
                input.country,
            )->Ok_0,
    ensures
        create_result(ops, input) == Err::<
            OperatorView,
            ErrorResponseView,
        >(invalid_country_error(country_name_result(input.country)->Ok_0)),
{
    lemma_first_index(ops, Selector::Country(country_name_result(input.country)->Ok_0));
}

} // verus!
