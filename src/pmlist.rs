use vstd::prelude::*;

use crate::dex::{flat_dex, flat_state, PokemonDexState};
use crate::record::{copy_records, placeholder, records_view, strs_view, Pokemon, PokemonView};
use crate::text::{has_substring, lower_of, matches_filter};

verus! {

/// The browsing state over a catalog: the full catalog, the filtered view,
/// the cursor into the view, and the selected record with its detail rows.
pub struct PokemonListStatus {
    /// The cursor: an index into `items`.
    pub selected: usize,
    /// The filtered view, in catalog order.
    pub items: Vec<Pokemon>,
    /// The record under the cursor, or the placeholder when there is none.
    pub current: Pokemon,
    /// The detail rows of `current`.
    pub dex: PokemonDexState,
    /// The full catalog, which no operation changes.
    pub items_clone: Vec<Pokemon>,
}

/// The record at `i` in `items`, or the placeholder when `i` is out of range.
pub open spec fn record_at(items: Seq<PokemonView>, i: int) -> PokemonView {
    if 0 <= i < items.len() {
        items[i]
    } else {
        placeholder()
    }
}

/// Whether a record's name, lower-cased, contains the lower-cased query.
pub open spec fn name_matches(p: PokemonView, query: Seq<char>) -> bool {
    has_substring(lower_of(p.name), lower_of(query))
}

/// The records of `s` whose names match `query`, in the order of `s`.
pub open spec fn matching(s: Seq<PokemonView>, query: Seq<char>) -> Seq<PokemonView>
    decreases s.len(),
{
    if s.len() == 0 {
        Seq::empty()
    } else {
        let prev = matching(s.drop_last(), query);
        if name_matches(s.last(), query) {
            prev.push(s.last())
        } else {
            prev
        }
    }
}

/// The view that a filter text selects: the whole catalog for the empty
/// text, else the matching records.
pub open spec fn filtered(base: Seq<PokemonView>, query: Seq<char>) -> Seq<PokemonView> {
    if query.len() == 0 {
        base
    } else {
        matching(base, query)
    }
}

impl PokemonListStatus {
    /// The full catalog, which no operation changes.
    pub open spec fn baseline(&self) -> Seq<PokemonView> {
        records_view(self.items_clone@)
    }

    pub open spec fn view_items(&self) -> Seq<PokemonView> {
        records_view(self.items@)
    }

    /// The catalog is not empty, and the selected record and its rows are
    /// those of the cursor's position.
    pub open spec fn wf(&self) -> bool {
        &&& self.baseline().len() > 0
        &&& self.current@ == record_at(self.view_items(), self.selected as int)
        &&& self.dex@ == flat_state(self.current@)
    }

    /// Starts browsing `items`, or a lone placeholder when it is empty, with
    /// the whole catalog in view and the cursor on the first record.
    pub fn new(items: Vec<Pokemon>) -> (r: PokemonListStatus)
        ensures
            r.wf(),
            r.selected == 0,
            r.baseline() == (if items@.len() == 0 {
                seq![placeholder()]
            } else {
                records_view(items@)
            }),
            r.view_items() == r.baseline(),
            r.current@ == r.baseline()[0],
    {
        let mut items = items;
        if items.len() == 0 {
            items.push(Pokemon::default());
            assert(records_view(items@) =~= seq![placeholder()]);
        }
        let current = items[0].duplicate();
        let items_clone = copy_records(&items);
        let dex = flat_dex(&current);
        PokemonListStatus { selected: 0, dex, current, items_clone, items }
    }

    /// Puts the cursor at `index` and selects the record there, or the
    /// placeholder when `index` is past the view.
    pub fn current(&mut self, index: usize)
        requires
            old(self).baseline().len() > 0,
        ensures
            final(self).wf(),
            final(self).selected == index,
            final(self).items@ == old(self).items@,
            final(self).baseline() == old(self).baseline(),
    {
        self.selected = index;
        if index < self.items.len() {
            let pm = self.items[index].duplicate();
            self.dex = flat_dex(&pm);
            self.current = pm;
        } else {
            let pm = Pokemon::default();
            self.dex = flat_dex(&pm);
            self.current = pm;
        }
    }

    /// Moves the cursor one step forward, from the last record to the
    /// first; does nothing on an empty view.
    pub fn next(&mut self)
        requires
            old(self).wf(),
        ensures
            final(self).wf(),
            final(self).items@ == old(self).items@,
            final(self).baseline() == old(self).baseline(),
            old(self).items.len() == 0 ==> *final(self) == *old(self),
            old(self).items.len() > 0 ==> final(self).selected == (old(self).selected + 1) % (
            old(self).items.len() as int),
            old(self).items.len() > 0 && old(self).selected == old(self).items.len() - 1
                ==> final(self).selected == 0,
    {
        let len = self.items.len();
        if len == 0 {
            return;
        }
        let c = self.selected % len;
        let i = if c + 1 == len {
            0
        } else {
            c + 1
        };
        assert(i == (self.selected + 1) % (len as int)) by (nonlinear_arith)
            requires
                c == self.selected % len,
                len > 0,
                i == (if c + 1 == len {
                    0
                } else {
                    c + 1
                }),
        ;
        if self.selected == len - 1 {
            assert((self.selected + 1) % (len as int) == 0) by (nonlinear_arith)
                requires
                    self.selected + 1 == len,
                    len > 0,
            ;
        }
        self.current(i);
    }

    /// Moves the cursor one step back, from the first record to the last.
    pub fn previous(&mut self)
        requires
            old(self).wf(),
        ensures
            final(self).wf(),
            final(self).items@ == old(self).items@,
            final(self).baseline() == old(self).baseline(),
            final(self).selected == (if old(self).selected == 0 {
                if old(self).items.len() == 0 {
                    0
                } else {
                    old(self).items.len() - 1
                }
            } else {
                old(self).selected - 1
            }),
            old(self).items.len() > 0 && old(self).selected == 0 ==> final(self).selected
                == old(self).items.len() - 1,
    {
        let i = if self.selected == 0 {
            if self.items.len() > 0 {
                self.items.len() - 1
            } else {
                0
            }
        } else {
            self.selected - 1
        };
        self.current(i);
    }

    /// Moves the cursor `amount` steps forward, stopping at the last record.
    /// Nothing changes on an empty view, or where the sum would not fit.
    pub fn scroll_down(&mut self, amount: u8)
        requires
            old(self).wf(),
        ensures
            final(self).wf(),
            final(self).items@ == old(self).items@,
            final(self).baseline() == old(self).baseline(),
            (old(self).items.len() == 0 || old(self).selected + amount > usize::MAX)
                ==> *final(self) == *old(self),
            (old(self).items.len() > 0 && old(self).selected + amount <= usize::MAX)
                ==> final(self).selected == vstd::math::min(
                old(self).selected + amount,
                old(self).items.len() - 1,
            ),
            old(self).items.len() > 0 && old(self).selected + amount <= usize::MAX
                ==> final(self).selected <= old(self).items.len() - 1,
    {
        let len = self.items.len();
        if len == 0 {
            return;
        }
        match self.selected.checked_add(amount as usize) {
            None => {},
            Some(index) => {
                let i = if index > len - 1 {
                    len - 1
                } else {
                    index
                };
                self.current(i);
            },
        }
    }

    /// Moves the cursor `amount` steps back, stopping at the first record.
    pub fn scroll_up(&mut self, amount: u8)
        requires
            old(self).wf(),
        ensures
            final(self).wf(),
            final(self).items@ == old(self).items@,
            final(self).baseline() == old(self).baseline(),
            final(self).selected == (if amount <= old(self).selected {
                old(self).selected - amount
            } else {
                0
            }),
            final(self).selected <= old(self).selected,
    {
        let i = if (amount as usize) <= self.selected {
            self.selected - amount as usize
        } else {
            0
        };
        self.current(i);
    }

    /// Replaces the view with the catalog's records whose names contain
    /// `filter`, ignoring case, in catalog order (the whole catalog for the
    /// empty text), and puts the cursor on the first of them.
    pub fn set_list_filter(&mut self, filter: String)
        requires
            old(self).wf(),
        ensures
            final(self).wf(),
            final(self).baseline() == old(self).baseline(),
            final(self).view_items() == filtered(old(self).baseline(), filter@),
            filter@.len() == 0 ==> final(self).view_items() == old(self).baseline(),
            final(self).selected == 0,
    {
        if filter.as_str().is_empty() {
            self.items = copy_records(&self.items_clone);
        } else {
            let ghost base = self.baseline();
            let mut out: Vec<Pokemon> = Vec::new();
            let mut i: usize = 0;
            while i < self.items_clone.len()
                invariant
                    base == records_view(self.items_clone@),
                    i <= self.items_clone.len(),
                    records_view(out@) == matching(base.take(i as int), filter@),
                decreases self.items_clone.len() - i,
            {
                assert(base.take(i as int + 1).drop_last() =~= base.take(i as int));
                if matches_filter(self.items_clone[i].name.as_str(), filter.as_str()) {
                    out.push(self.items_clone[i].duplicate());
                }
                i = i + 1;
                assert(records_view(out@) =~= matching(base.take(i as int), filter@));
            }
            assert(base.take(i as int) =~= base);
            self.items = out;
        }
        self.current(0);
    }
}

/// The list of records in view, as drawn: one label per record.
#[derive(Default)]
pub struct PokemonList;

/// The labels that the list shows for `query`: all of them for the empty
/// query, else those that contain it, ignoring case, in order.
pub open spec fn shown_labels(labels: Seq<Seq<char>>, query: Seq<char>) -> Seq<Seq<char>>
    decreases labels.len(),
{
    if labels.len() == 0 {
        Seq::empty()
    } else {
        let prev = shown_labels(labels.drop_last(), query);
        if query.len() == 0 || has_substring(lower_of(labels.last()), lower_of(query)) {
            prev.push(labels.last())
        } else {
            prev
        }
    }
}

impl PokemonList {
    /// The labels to draw for the records' labels `labels` under the search
    /// text `query`.
    pub fn visible_labels(labels: &Vec<String>, query: &str) -> (r: Vec<String>)
        ensures
            strs_view(r@) == shown_labels(strs_view(labels@), query@),
    {
        let ghost all = strs_view(labels@);
        let mut out: Vec<String> = Vec::new();
        let mut i: usize = 0;
        while i < labels.len()
            invariant
                all == strs_view(labels@),
                i <= labels.len(),
                strs_view(out@) == shown_labels(all.take(i as int), query@),
            decreases labels.len() - i,
        {
            assert(all.take(i as int + 1).drop_last() =~= all.take(i as int));
            if query.is_empty() || matches_filter(labels[i].as_str(), query) {
                out.push(labels[i].clone());
            }
            i = i + 1;
            assert(strs_view(out@) =~= shown_labels(all.take(i as int), query@));
        }
        assert(all.take(i as int) =~= all);
        out
    }
}

/// The records kept by `matching`, with the positions in `s` that they come
/// from: every kept record matches, the positions increase, and every
/// matching record of `s` is kept.
pub proof fn lemma_matching_positions(s: Seq<PokemonView>, query: Seq<char>) -> (idx: Seq<int>)
    ensures
        idx.len() == matching(s, query).len(),
        forall|k: int|
            0 <= k < idx.len() ==> 0 <= #[trigger] idx[k] < s.len() && matching(s, query)[k]
                == s[idx[k]] && name_matches(s[idx[k]], query),
        forall|k1: int, k2: int| 0 <= k1 < k2 < idx.len() ==> idx[k1] < idx[k2],
        forall|j: int|
            0 <= j < s.len() && name_matches(#[trigger] s[j], query) ==> exists|k: int|
                0 <= k < idx.len() && idx[k] == j,
    decreases s.len(),
{
    if s.len() == 0 {
        Seq::empty()
    } else {
        let prev = lemma_matching_positions(s.drop_last(), query);
        let m = matching(s, query);
        if name_matches(s.last(), query) {
            let idx = prev.push(s.len() - 1);
            assert forall|j: int|
                0 <= j < s.len() && name_matches(#[trigger] s[j], query) implies exists|k: int|
                0 <= k < idx.len() && idx[k] == j by {
                if j < s.len() - 1 {
                    assert(s.drop_last()[j] == s[j]);
                    let k = choose|k: int| 0 <= k < prev.len() && prev[k] == j;
                    assert(idx[k] == j);
                } else {
                    assert(idx[idx.len() - 1] == j);
                }
            }
            idx
        } else {
            assert forall|j: int|
                0 <= j < s.len() && name_matches(#[trigger] s[j], query) implies exists|k: int|
                0 <= k < prev.len() && prev[k] == j by {
                assert(j != s.len() - 1);
                assert(s.drop_last()[j] == s[j]);
            }
            prev
        }
    }
}

/// Whether the filter text `query` keeps the record `p`: every record for
/// the empty text, else those whose names match.
pub open spec fn kept_by(p: PokemonView, query: Seq<char>) -> bool {
    query.len() == 0 || name_matches(p, query)
}

/// The view that a filter text selects holds exactly the catalog's records
/// whose lower-cased names contain the lower-cased text (all of them for the
/// empty text), in catalog order: `idx` gives, for each record of the view,
/// its position in the catalog, and these positions increase.
pub proof fn lemma_filter_view(base: Seq<PokemonView>, query: Seq<char>) -> (idx: Seq<int>)
    ensures
        idx.len() == filtered(base, query).len(),
        forall|k: int|
            0 <= k < idx.len() ==> 0 <= #[trigger] idx[k] < base.len() && filtered(base, query)[k]
                == base[idx[k]],
        forall|k: int|
            0 <= k < idx.len() ==> kept_by(#[trigger] filtered(base, query)[k], query),
        forall|k1: int, k2: int| 0 <= k1 < k2 < idx.len() ==> idx[k1] < idx[k2],
        forall|j: int|
            0 <= j < base.len() && kept_by(#[trigger] base[j], query)
                ==> exists|k: int| 0 <= k < idx.len() && idx[k] == j,
{
    if query.len() == 0 {
        let idx = Seq::new(base.len(), |i: int| i);
        assert(filtered(base, query) == base);
        assert forall|j: int|
            0 <= j < base.len() && kept_by(#[trigger] base[j], query)
                implies exists|k: int| 0 <= k < idx.len() && idx[k] == j by {
            assert(idx[j] == j);
        }
        idx
    } else {
        let idx = lemma_matching_positions(base, query);
        assert forall|k: int|
            0 <= k < idx.len() implies kept_by(#[trigger] filtered(base, query)[k], query) by {
            assert(filtered(base, query)[k] == base[idx[k]]);
        }
        assert forall|j: int|
            0 <= j < base.len() && kept_by(#[trigger] base[j], query)
                implies exists|k: int| 0 <= k < idx.len() && idx[k] == j by {
            assert(name_matches(base[j], query));
        }
        idx
    }
}

} // verus!
