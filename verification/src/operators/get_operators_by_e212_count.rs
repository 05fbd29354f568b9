//! The operators of the registry in three groups by the number of their
//! IMSI prefixes.

use std::sync::Arc;
use vstd::prelude::*;

use crate::app_state::model::AppState;
use crate::utils::error_responses::ErrorResponse;
use crate::utils::models::{views_of, Operator, OperatorSizeGroups, OperatorView, SizeClass};
use crate::utils::search::{selected, shared_views_of, Selector};

verus! {

impl OperatorSizeGroups {
    /// Each count is the length of its list.
    pub open spec fn counts_agree(&self) -> bool {
        &&& self.small_size_operators == self.small_operators@.len()
        &&& self.medium_size_operators == self.medium_operators@.len()
        &&& self.large_size_operators == self.large_operators@.len()
    }

    /// The three lists hold the operators of `ops`, each in its group and in
    /// the order of `ops`, and each count is the length of its list.
    pub open spec fn groups(&self, ops: Seq<OperatorView>) -> bool {
        &&& self.counts_agree()
        &&& views_of(self.small_operators@) == selected(ops, Selector::Size(SizeClass::Small))
        &&& views_of(self.medium_operators@) == selected(ops, Selector::Size(SizeClass::Medium))
        &&& views_of(self.large_operators@) == selected(ops, Selector::Size(SizeClass::Large))
    }
}

/// `list` with `op` at its end if `op` belongs to the group `class`, and
/// `list` itself otherwise.
pub open spec fn with_member(
    list: Seq<OperatorView>,
    op: OperatorView,
    class: SizeClass,
) -> Seq<OperatorView> {
    if op.size_class() == class {
        list.push(op)
    } else {
        list
    }
}

/// Puts one operator at the end of the list of its group and counts it.
pub fn classify_single_operator(groups: &mut OperatorSizeGroups, operator: Operator)
    requires
        old(groups).counts_agree(),
    ensures
        final(groups).counts_agree(),
        views_of(final(groups).small_operators@) == with_member(
            views_of(old(groups).small_operators@),
            operator@,
            SizeClass::Small,
        ),
        views_of(final(groups).medium_operators@) == with_member(
            views_of(old(groups).medium_operators@),
            operator@,
            SizeClass::Medium,
        ),
        views_of(final(groups).large_operators@) == with_member(
            views_of(old(groups).large_operators@),
            operator@,
            SizeClass::Large,
        ),
{
    match operator.size_class() {
        SizeClass::Small => {
            let ghost before = groups.small_operators@;
            groups.small_operators.push(operator);
            assert(groups.small_operators.len() <= usize::MAX);
            groups.small_size_operators += 1;
            assert(views_of(groups.small_operators@) =~= views_of(before).push(operator@));
        },
        SizeClass::Medium => {
            let ghost before = groups.medium_operators@;
            groups.medium_operators.push(operator);
            assert(groups.medium_operators.len() <= usize::MAX);
            groups.medium_size_operators += 1;
            assert(views_of(groups.medium_operators@) =~= views_of(before).push(operator@));
        },
        SizeClass::Large => {
            let ghost before = groups.large_operators@;
            groups.large_operators.push(operator);
            assert(groups.large_operators.len() <= usize::MAX);
            groups.large_size_operators += 1;
            assert(views_of(groups.large_operators@) =~= views_of(before).push(operator@));
        },
    }
}

/// Every operator belongs to exactly one of the three groups: the sizes of
/// the groups add up to the number of operators.
pub proof fn lemma_groups_cover(ops: Seq<OperatorView>)
    ensures
        selected(ops, Selector::Size(SizeClass::Small)).len() + selected(
            ops,
            Selector::Size(SizeClass::Medium),
        ).len() + selected(ops, Selector::Size(SizeClass::Large)).len() == ops.len(),
    decreases ops.len(),
{
    if ops.len() > 0 {
        lemma_groups_cover(ops.drop_last());
    }
}

/// Sorts the operators into the three groups.
pub fn categorize_operators_by_e212_count(operators: &[Arc<Operator>]) -> (groups: OperatorSizeGroups)
    ensures
        groups.groups(shared_views_of(operators@)),
        groups.small_size_operators + groups.medium_size_operators + groups.large_size_operators
            == operators@.len(),
{
    let ghost v = shared_views_of(operators@);
    let mut groups = OperatorSizeGroups::default();
    proof {
        assert(views_of(groups.small_operators@) =~= Seq::<OperatorView>::empty());
        assert(views_of(groups.medium_operators@) =~= Seq::<OperatorView>::empty());
        assert(views_of(groups.large_operators@) =~= Seq::<OperatorView>::empty());
    }
    let mut i: usize = 0;
    while i < operators.len()
        invariant
            i <= operators.len(),
            v == shared_views_of(operators@),
            groups.groups(v.take(i as int)),
        decreases operators.len() - i,
    {
        proof {
            assert(v.take(i + 1).drop_last() == v.take(i as int));
            assert(v.take(i + 1).last() == operators@[i as int]@);
        }
        let operator: &Operator = &operators[i];
        classify_single_operator(&mut groups, operator.clone());
        i += 1;
    }
    proof {
        assert(v.take(operators@.len() as int) == v);
        lemma_groups_cover(v);
    }
    groups
}

/// The operators of the registry in their three groups.
pub fn get_operators_grouped_by_e212_count(state: &AppState) -> (r: Result<
    OperatorSizeGroups,
    ErrorResponse,
>)
    ensures
        r matches Ok(groups) && groups.groups(state.records()) && groups.small_size_operators
            + groups.medium_size_operators + groups.large_size_operators
            == state.records().len(),
{
    let groups = categorize_operators_by_e212_count(state.operators.as_slice());
    Ok(groups)
}

} // verus!
