//! The registry itself: the list of operators, where it is kept on disk, and
//! the table of the countries that border each country.

use std::sync::Arc;
use vstd::prelude::*;

use crate::utils::models::{texts_of, views_of, Operator, OperatorView};
use crate::utils::search::shared_views_of;
use crate::utils::text::same_text;

verus! {

/// A country and the countries that border it.
#[derive(Debug)]
pub struct BorderEntry {
    pub country: String,
    pub neighbors: Vec<String>,
}

/// What a `BorderEntry` stands for.
pub struct BorderEntryView {
    pub country: Seq<char>,
    pub neighbors: Seq<Seq<char>>,
}

impl View for BorderEntry {
    type V = BorderEntryView;

    open spec fn view(&self) -> BorderEntryView {
        BorderEntryView { country: self.country@, neighbors: texts_of(self.neighbors@) }
    }
}

/// The neighbours of each country, in the order in which the countries were
/// first named.
#[derive(Debug)]
pub struct CountryBordersMap {
    pub entries: Vec<BorderEntry>,
}

impl View for CountryBordersMap {
    type V = Seq<BorderEntryView>;

    open spec fn view(&self) -> Seq<BorderEntryView> {
        Seq::new(self.entries@.len(), |i: int| self.entries@[i]@)
    }
}

/// The index of the entry of `country` at or after `i`.
pub open spec fn entry_index_from(table: Seq<BorderEntryView>, country: Seq<char>, i: int) -> Option<
    int,
>
    decreases table.len() - i,
{
    if i < 0 || i >= table.len() {
        None
    } else if table[i].country == country {
        Some(i)
    } else {
        entry_index_from(table, country, i + 1)
    }
}

/// The index of the first entry of `country`, letter for letter.
pub open spec fn entry_index(table: Seq<BorderEntryView>, country: Seq<char>) -> Option<int> {
    entry_index_from(table, country, 0)
}

/// No country has two entries.
pub open spec fn distinct_countries(table: Seq<BorderEntryView>) -> bool {
    forall|i: int, j: int|
        0 <= i < j < table.len() ==> (#[trigger] table[i]).country != (#[trigger] table[j]).country
}

/// The table after `border` is added to the neighbours of `base`: at the end
/// of the entry of `base` if there is one, in a new last entry otherwise.
pub open spec fn with_border(
    table: Seq<BorderEntryView>,
    base: Seq<char>,
    border: Seq<char>,
) -> Seq<BorderEntryView> {
    match entry_index(table, base) {
        Some(k) => table.update(
            k,
            BorderEntryView { country: base, neighbors: table[k].neighbors.push(border) },
        ),
        None => table.push(BorderEntryView { country: base, neighbors: seq![border] }),
    }
}

/// The first entry of a country is the only one where no country has two.
pub proof fn lemma_entry_index(table: Seq<BorderEntryView>, country: Seq<char>)
    ensures
        match entry_index(table, country) {
            Some(k) => 0 <= k < table.len() && table[k].country == country && forall|j: int|
                0 <= j < k ==> (#[trigger] table[j]).country != country,
            None => forall|j: int| 0 <= j < table.len() ==> (#[trigger] table[j]).country != country,
        },
{
    lemma_entry_index_from(table, country, 0);
}

proof fn lemma_entry_index_from(table: Seq<BorderEntryView>, country: Seq<char>, i: int)
    requires
        0 <= i,
    ensures
        match entry_index_from(table, country, i) {
            Some(k) => i <= k < table.len() && table[k].country == country && forall|j: int|
                i <= j < k ==> (#[trigger] table[j]).country != country,
            None => forall|j: int| i <= j < table.len() ==> (#[trigger] table[j]).country != country,
        },
    decreases table.len() - i,
{
    if i < table.len() && table[i].country != country {
        lemma_entry_index_from(table, country, i + 1);
    }
}

impl CountryBordersMap {
    /// No country has two entries.
    pub open spec fn wf(&self) -> bool {
        distinct_countries(self@)
    }

    /// The table without any country.
    pub fn new() -> (r: CountryBordersMap)
        ensures
            r@ == Seq::<BorderEntryView>::empty(),
            r.wf(),
    {
        let r = CountryBordersMap { entries: Vec::new() };
        assert(r@ =~= Seq::<BorderEntryView>::empty());
        r
    }

    /// The number of countries that have an entry.
    pub fn len(&self) -> (n: usize)
        ensures
            n == self@.len(),
    {
        self.entries.len()
    }

    /// The index of the entry of `country`, letter for letter.
    pub fn index_of(&self, country: &str) -> (r: Option<usize>)
        ensures
            crate::utils::search::index_view(r) == entry_index(self@, country@),
    {
        let mut i: usize = 0;
        while i < self.entries.len()
            invariant
                i <= self.entries@.len(),
                entry_index(self@, country@) == entry_index_from(self@, country@, i as int),
            decreases self.entries@.len() - i,
        {
            if same_text(self.entries[i].country.as_str(), country) {
                return Some(i);
            }
            i += 1;
        }
        None
    }

    /// The neighbours of `country`, if it has an entry.
    pub fn get(&self, country: &str) -> (r: Option<&Vec<String>>)
        ensures
            match r {
                Some(neighbors) => entry_index(self@, country@) matches Some(k) && texts_of(
                    neighbors@,
                ) == self@[k].neighbors,
                None => entry_index(self@, country@) is None,
            },
    {
        proof {
            lemma_entry_index(self@, country@);
        }
        match self.index_of(country) {
            Some(k) => Some(&self.entries[k].neighbors),
            None => None,
        }
    }

    /// Adds `border` to the neighbours of `base`.
    pub fn add_border(&mut self, base: String, border: String)
        ensures
            final(self)@ == with_border(old(self)@, base@, border@),
            old(self).wf() ==> final(self).wf(),
    {
        proof {
            lemma_entry_index(self@, base@);
        }
        match self.index_of(base.as_str()) {
            Some(k) => {
                let ghost before = self@;
                self.entries[k].neighbors.push(border);
                proof {
                    assert(self@[k as int].neighbors =~= before[k as int].neighbors.push(border@));
                    assert(self@ =~= with_border(before, base@, border@));
                }
            },
            None => {
                let ghost before = self@;
                let mut neighbors: Vec<String> = Vec::new();
                neighbors.push(border);
                self.entries.push(BorderEntry { country: base, neighbors });
                proof {
                    assert(texts_of(neighbors@) =~= seq![border@]);
                    assert(self@ =~= with_border(before, base@, border@));
                }
            },
        }
    }
}

/// The list without the element at `k`, whose place the last element takes.
pub open spec fn swap_removed(ops: Seq<OperatorView>, k: int) -> Seq<OperatorView>
    recommends
        0 <= k < ops.len(),
{
    ops.update(k, ops.last()).drop_last()
}

/// One change of the list of operators.
#[derive(Debug)]
pub enum StoreChange {
    /// The operator is put at the end of the list.
    Append(Operator),
    /// The operator takes the place of the one at the index.
    Replace(usize, Operator),
    /// The operator at the index leaves the list, and the last operator of
    /// the list takes its place.
    Remove(usize),
}

/// What a `StoreChange` stands for.
pub enum StoreChangeView {
    Append(OperatorView),
    Replace(int, OperatorView),
    Remove(int),
}

impl View for StoreChange {
    type V = StoreChangeView;

    open spec fn view(&self) -> StoreChangeView {
        match self {
            StoreChange::Append(op) => StoreChangeView::Append(op@),
            StoreChange::Replace(index, op) => StoreChangeView::Replace(*index as int, op@),
            StoreChange::Remove(index) => StoreChangeView::Remove(*index as int),
        }
    }
}

impl StoreChangeView {
    /// The change names no index beyond a list of `len` operators.
    pub open spec fn fits(self, len: nat) -> bool {
        match self {
            StoreChangeView::Append(_) => true,
            StoreChangeView::Replace(index, _) => 0 <= index < len,
            StoreChangeView::Remove(index) => 0 <= index < len,
        }
    }

    /// The list after the change.
    pub open spec fn applied(self, records: Seq<OperatorView>) -> Seq<OperatorView> {
        match self {
            StoreChangeView::Append(op) => records.push(op),
            StoreChangeView::Replace(index, op) => records.update(index, op),
            StoreChangeView::Remove(index) => swap_removed(records, index),
        }
    }

    /// The operator that leaves the list by the change.
    pub open spec fn displaced(self, records: Seq<OperatorView>) -> Option<OperatorView> {
        match self {
            StoreChangeView::Append(_) => None,
            StoreChangeView::Replace(index, _) => Some(records[index]),
            StoreChangeView::Remove(index) => Some(records[index]),
        }
    }
}

/// What an optional shared operator stands for.
pub open spec fn displaced_view(displaced: Option<Arc<Operator>>) -> Option<OperatorView> {
    match displaced {
        Some(op) => Some(op@),
        None => None,
    }
}

/// The registry: the operators in the order in which they are kept, the
/// path of the file that they are saved to, and the table of borders.
#[derive(Debug)]
pub struct AppState {
    pub operators: Vec<Arc<Operator>>,
    pub mappings_file_path: String,
    pub borders: CountryBordersMap,
}

impl AppState {
    /// The operators of the registry, in order.
    pub open spec fn records(&self) -> Seq<OperatorView> {
        shared_views_of(self.operators@)
    }

    /// A registry that holds `initial_operators` in their order.
    pub fn new(
        initial_operators: Vec<Operator>,
        mappings_file_path: String,
        borders_map: CountryBordersMap,
    ) -> (state: AppState)
        ensures
            state.records() == views_of(initial_operators@),
            state.mappings_file_path@ == mappings_file_path@,
            state.borders@ == borders_map@,
    {
        let ghost initial = views_of(initial_operators@);
        let mut operators: Vec<Arc<Operator>> = Vec::new();
        for op in it: initial_operators
            invariant
                initial == views_of(it.seq()),
                operators@.len() == it.index(),
                shared_views_of(operators@) == initial.take(it.index() as int),
        {
            let ghost before = operators@;
            let ghost k = it.index() as int;
            proof {
                assert(initial[k] == op@);
            }
            operators.push(Arc::new(op));
            proof {
                assert forall|j: int| 0 <= j < k + 1 implies shared_views_of(operators@)[j]
                    == initial.take(k + 1)[j] by {
                    if j < k {
                        assert(shared_views_of(before)[j] == initial.take(k)[j]);
                    }
                }
                assert(shared_views_of(operators@) =~= initial.take(k + 1));
            }
        }
        proof {
            assert(initial.take(initial.len() as int) =~= initial);
        }
        AppState { operators, mappings_file_path, borders: borders_map }
    }

    /// Applies one change to the list of operators and gives back the
    /// operator that left the list, if one did.
    pub fn mutate(&mut self, change: StoreChange) -> (displaced: Option<Arc<Operator>>)
        requires
            change@.fits(old(self).records().len()),
        ensures
            final(self).records() == change@.applied(old(self).records()),
            displaced_view(displaced) == change@.displaced(old(self).records()),
            final(self).mappings_file_path == old(self).mappings_file_path,
            final(self).borders == old(self).borders,
    {
        let ghost before = self.operators@;
        match change {
            StoreChange::Append(op) => {
                self.operators.push(Arc::new(op));
                assert(shared_views_of(self.operators@) =~= shared_views_of(before).push(op@));
                None
            },
            StoreChange::Replace(index, op) => {
                let mut slot = Arc::new(op);
                std::mem::swap(&mut self.operators[index], &mut slot);
                assert(shared_views_of(self.operators@) =~= shared_views_of(before).update(
                    index as int,
                    op@,
                ));
                Some(slot)
            },
            StoreChange::Remove(index) => {
                let removed = self.operators.swap_remove(index);
                assert(shared_views_of(self.operators@) =~= swap_removed(
                    shared_views_of(before),
                    index as int,
                ));
                Some(removed)
            },
        }
    }

    /// A copy of every operator, in order.
    pub fn snapshot(&self) -> (copies: Vec<Operator>)
        ensures
            views_of(copies@) == self.records(),
    {
        plain_copies(&self.operators)
    }
}

/// A copy of every operator of `ops`, in order.
pub fn plain_copies(ops: &Vec<Arc<Operator>>) -> (copies: Vec<Operator>)
    ensures
        views_of(copies@) == shared_views_of(ops@),
{
    let mut copies: Vec<Operator> = Vec::new();
    let mut i: usize = 0;
    while i < ops.len()
        invariant
            i <= ops.len(),
            copies@.len() == i,
            views_of(copies@) == shared_views_of(ops@).take(i as int),
        decreases ops.len() - i,
    {
        let ghost before = copies@;
        let op: &Operator = &ops[i];
        copies.push(op.clone());
        proof {
            let target = shared_views_of(ops@);
            assert forall|j: int| 0 <= j < i + 1 implies views_of(copies@)[j] == target.take(
                i + 1,
            )[j] by {
                if j < i {
                    assert(views_of(before)[j] == target.take(i as int)[j]);
                }
            }
            assert(views_of(copies@) =~= target.take(i + 1));
        }
        i += 1;
    }
    proof {
        assert(shared_views_of(ops@).take(ops@.len() as int) =~= shared_views_of(ops@));
    }
    copies
}

} // verus!
