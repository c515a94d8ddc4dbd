//! Selections of several items at once, grown and shrunk by clicks with the
//! shift and control keys held, as list widgets do.

use vstd::prelude::*;
use crate::names::{name_less, sorted_names, spec_sorted_names};
use crate::paths::{sorted_paths, spec_sorted_paths};

verus! {

/// The views of the items of `s`, in order.
pub open spec fn views<T: View>(s: Seq<T>) -> Seq<T::V> {
    s.map_values(|x: T| x@)
}

/// What a selection can hold: items told apart by their views, that can be
/// copied, and of which a list has a greatest one in the item type's order.
pub trait SelectionItem: View + Sized {
    /// The greatest of `items` in the item type's order.
    spec fn greatest_view(items: Seq<Self::V>) -> Self::V;

    /// Whether the two items are the same item.
    fn same_item(&self, other: &Self) -> (r: bool)
        ensures
            r == (self@ == other@),
    ;

    /// A copy of the item.
    fn copy_item(&self) -> (r: Self)
        ensures
            r == *self,
    ;

    /// The greatest of `items` in the item type's order.
    fn greatest(items: &Vec<Self>) -> (r: Self)
        requires
            items@.len() > 0,
        ensures
            r@ == Self::greatest_view(views(items@)),
            views(items@).contains(r@),
    ;
}

/// The greatest number of `s`; the first one where `s` is empty.
pub open spec fn seq_max(s: Seq<usize>) -> usize
    decreases s.len(),
{
    if s.len() <= 1 {
        s[0]
    } else {
        let m = seq_max(s.drop_last());
        if m < s.last() {
            s.last()
        } else {
            m
        }
    }
}

/// `seq_max` of a non-empty sequence is one of its numbers and no number of
/// it is greater.
pub proof fn lemma_seq_max(s: Seq<usize>)
    requires
        s.len() > 0,
    ensures
        s.contains(seq_max(s)),
        forall|i: int| 0 <= i < s.len() ==> s[i] <= seq_max(s),
    decreases s.len(),
{
    if s.len() > 1 {
        lemma_seq_max(s.drop_last());
        let m = seq_max(s.drop_last());
        let k = choose|k: int| 0 <= k < s.drop_last().len() && s.drop_last()[k] == m;
        assert(s[k] == m);
        assert(s[s.len() - 1] == s.last());
        assert forall|i: int| 0 <= i < s.len() implies s[i] <= seq_max(s) by {
            if i < s.len() - 1 {
                assert(s.drop_last()[i] == s[i]);
            }
        }
    } else {
        assert(s[0] == seq_max(s));
    }
}

impl SelectionItem for usize {
    open spec fn greatest_view(items: Seq<usize>) -> usize {
        seq_max(items)
    }

    fn same_item(&self, other: &usize) -> (r: bool) {
        *self == *other
    }

    fn copy_item(&self) -> (r: usize) {
        *self
    }

    fn greatest(items: &Vec<usize>) -> (r: usize) {
        let mut m = items[0];
        let mut i: usize = 1;
        while i < items.len()
            invariant
                1 <= i <= items@.len(),
                m == seq_max(items@.take(i as int)),
            decreases items@.len() - i,
        {
            assert(items@.take(i as int + 1).drop_last() =~= items@.take(i as int));
            if m < items[i] {
                m = items[i];
            }
            i += 1;
        }
        assert(items@.take(items@.len() as int) =~= items@);
        proof {
            lemma_seq_max(items@);
            assert(views(items@) =~= items@);
        }
        m
    }
}

/// A copy of each string of `items`, in order.
fn copy_strings(items: &Vec<String>) -> (r: Vec<String>)
    ensures
        r@ == items@,
{
    let mut copied: Vec<String> = Vec::new();
    let mut i: usize = 0;
    while i < items.len()
        invariant
            i <= items@.len(),
            copied@ == items@.take(i as int),
        decreases items@.len() - i,
    {
        copied.push(items[i].clone());
        i += 1;
        assert(copied@ =~= items@.take(i as int));
    }
    assert(items@.take(items@.len() as int) =~= items@);
    copied
}

/// No name comes before itself.
pub proof fn lemma_name_less_irreflexive(a: Seq<char>)
    ensures
        !name_less(a, a),
    decreases a.len(),
{
    if a.len() > 0 {
        lemma_name_less_irreflexive(a.drop_first());
    }
}

/// What `items` holds, a reordering of it holds.
proof fn lemma_in_reordering(sorted: Seq<Seq<char>>, items: Seq<Seq<char>>, v: Seq<char>)
    requires
        sorted.to_multiset() == items.to_multiset(),
        items.contains(v),
    ensures
        sorted.contains(v),
{
    vstd::seq_lib::to_multiset_contains(sorted, v);
    vstd::seq_lib::to_multiset_contains(items, v);
}

/// The last of a sorted copy of `items` is one of `items`.
proof fn lemma_last_of_reordering(sorted: Seq<Seq<char>>, items: Seq<Seq<char>>)
    requires
        sorted.to_multiset() == items.to_multiset(),
        items.len() > 0,
    ensures
        sorted.len() == items.len(),
        items.contains(sorted.last()),
{
    vstd::seq_lib::to_multiset_len(sorted);
    vstd::seq_lib::to_multiset_len(items);
    assert(sorted[sorted.len() - 1] == sorted.last());
    vstd::seq_lib::to_multiset_contains(sorted, sorted.last());
    vstd::seq_lib::to_multiset_contains(items, sorted.last());
}

impl SelectionItem for String {
    /// The last of `items` in the order in which `std` sorts `String`s.
    open spec fn greatest_view(items: Seq<Seq<char>>) -> Seq<char> {
        spec_sorted_names(items).last()
    }

    fn same_item(&self, other: &String) -> (r: bool) {
        *self == *other
    }

    fn copy_item(&self) -> (r: String) {
        self.clone()
    }

    /// No item comes after the result in the order of `String`s.
    fn greatest(items: &Vec<String>) -> (r: String)
        ensures
            forall|i: int| 0 <= i < items@.len() ==> !name_less(r@, #[trigger] items@[i]@),
    {
        let sorted = sorted_names(copy_strings(items));
        proof {
            assert(views(items@) =~= items@.map_values(|s: String| s@));
            lemma_last_of_reordering(sorted@.map_values(|s: String| s@), views(items@));
            let ss = sorted@.map_values(|s: String| s@);
            let last = ss.len() - 1;
            assert forall|i: int| 0 <= i < items@.len() implies !name_less(ss[last], #[trigger] items@[i]@) by {
                let v = items@[i]@;
                assert(views(items@)[i] == v);
                lemma_in_reordering(ss, views(items@), v);
                let k = choose|k: int| 0 <= k < ss.len() && ss[k] == v;
                if k == last {
                    lemma_name_less_irreflexive(v);
                }
            }
        }
        let last = sorted.len() - 1;
        assert(sorted@.map_values(|s: String| s@)[last as int] == sorted@[last as int]@);
        sorted[last].clone()
    }
}

/// The path of a frame's source image, as a selection holds it: paths
/// are ordered as `std` orders `Path`s, component by component.
#[derive(Debug)]
pub struct FramePath(pub String);

impl View for FramePath {
    type V = Seq<char>;

    open spec fn view(&self) -> Seq<char> {
        self.0@
    }
}

impl SelectionItem for FramePath {
    /// The last of `items` in the order in which `std` sorts `Path`s.
    open spec fn greatest_view(items: Seq<Seq<char>>) -> Seq<char> {
        spec_sorted_paths(items).last()
    }

    fn same_item(&self, other: &FramePath) -> (r: bool) {
        self.0 == other.0
    }

    fn copy_item(&self) -> (r: FramePath) {
        FramePath(self.0.clone())
    }

    fn greatest(items: &Vec<FramePath>) -> (r: FramePath) {
        let mut paths: Vec<String> = Vec::new();
        let mut i: usize = 0;
        while i < items.len()
            invariant
                i <= items@.len(),
                paths@.map_values(|s: String| s@) == views(items@).take(i as int),
            decreases items@.len() - i,
        {
            let ghost before = paths@;
            paths.push(items[i].0.clone());
            assert(views(items@)[i as int] == items@[i as int]@);
            assert(paths@ == before.push(paths@.last()));
            assert(paths@.map_values(|s: String| s@) =~= before.map_values(|s: String| s@).push(
                items@[i as int]@,
            ));
            assert(views(items@).take(i as int + 1) =~= views(items@).take(i as int).push(
                items@[i as int]@,
            ));
            i += 1;
            assert(paths@.map_values(|s: String| s@) =~= views(items@).take(i as int));
        }
        assert(views(items@).take(items@.len() as int) =~= views(items@));
        let sorted = sorted_paths(paths);
        proof {
            lemma_last_of_reordering(sorted@.map_values(|s: String| s@), views(items@));
        }
        let last = sorted.len() - 1;
        assert(sorted@.map_values(|s: String| s@)[last as int] == sorted@[last as int]@);
        FramePath(sorted[last].clone())
    }
}

/// `acc` with each item of `added` that it does not hold yet put at its
/// end, in the order of `added`.
pub open spec fn add_views<V>(acc: Seq<V>, added: Seq<V>) -> Seq<V>
    decreases added.len(),
{
    if added.len() == 0 {
        acc
    } else {
        let rest = add_views(acc, added.drop_last());
        if rest.contains(added.last()) {
            rest
        } else {
            rest.push(added.last())
        }
    }
}

/// The items of `s` that `removed` does not hold, in order.
pub open spec fn kept<V>(s: Seq<V>, removed: Seq<V>) -> Seq<V>
    decreases s.len(),
{
    if s.len() == 0 {
        s
    } else {
        let rest = kept(s.drop_last(), removed);
        if removed.contains(s.last()) {
            rest
        } else {
            rest.push(s.last())
        }
    }
}

/// The items that are in exactly one of `existing` and `toggled`: those of
/// `existing` first, then those of `toggled`, each once.
pub open spec fn toggle_views<V>(existing: Seq<V>, toggled: Seq<V>) -> Seq<V> {
    add_views(kept(existing, toggled), kept(toggled, existing))
}

/// The last item of `s` that `items` holds, if any.
pub open spec fn last_contained<V>(s: Seq<V>, items: Seq<V>) -> Option<V>
    decreases s.len(),
{
    if s.len() == 0 {
        None
    } else if items.contains(s.last()) {
        Some(s.last())
    } else {
        last_contained(s.drop_last(), items)
    }
}

/// `add_views` holds what `acc` or `added` holds, and nothing twice where
/// `acc` holds nothing twice.
pub proof fn lemma_add_views<V>(acc: Seq<V>, added: Seq<V>)
    ensures
        forall|v: V| #[trigger] add_views(acc, added).contains(v) <==> (acc.contains(v) || added.contains(v)),
        acc.no_duplicates() ==> add_views(acc, added).no_duplicates(),
        acc.len() <= add_views(acc, added).len(),
        forall|i: int| 0 <= i < acc.len() ==> #[trigger] add_views(acc, added)[i] == acc[i],
    decreases added.len(),
{
    if added.len() > 0 {
        lemma_add_views(acc, added.drop_last());
        let rest = add_views(acc, added.drop_last());
        assert forall|v: V| #[trigger] add_views(acc, added).contains(v) <==> (acc.contains(v)
            || added.contains(v)) by {
            if added.contains(v) && !added.drop_last().contains(v) {
                let k = choose|k: int| 0 <= k < added.len() && added[k] == v;
                if k < added.len() - 1 {
                    assert(added.drop_last()[k] == v);
                }
                assert(v == added.last());
            }
            if added.drop_last().contains(v) {
                let k = choose|k: int| 0 <= k < added.drop_last().len() && added.drop_last()[k] == v;
                assert(added[k] == v);
            }
            if !rest.contains(added.last()) {
                if rest.push(added.last()).contains(v) && v != added.last() {
                    let k = choose|k: int| 0 <= k < rest.len() + 1 && rest.push(added.last())[k] == v;
                    assert(rest[k] == v);
                }
                if rest.contains(v) {
                    let k = choose|k: int| 0 <= k < rest.len() && rest[k] == v;
                    assert(rest.push(added.last())[k] == v);
                }
                assert(rest.push(added.last())[rest.len() as int] == added.last());
            }
            assert(added[added.len() - 1] == added.last());
        }
    }
}

/// `kept` holds what `s` holds and `removed` does not, and nothing twice
/// where `s` holds nothing twice.
pub proof fn lemma_kept<V>(s: Seq<V>, removed: Seq<V>)
    ensures
        forall|v: V| #[trigger] kept(s, removed).contains(v) <==> (s.contains(v) && !removed.contains(v)),
        s.no_duplicates() ==> kept(s, removed).no_duplicates(),
    decreases s.len(),
{
    if s.len() > 0 {
        lemma_kept(s.drop_last(), removed);
        let rest = kept(s.drop_last(), removed);
        assert forall|v: V| #[trigger] kept(s, removed).contains(v) <==> (s.contains(v)
            && !removed.contains(v)) by {
            if s.contains(v) && !s.drop_last().contains(v) {
                let k = choose|k: int| 0 <= k < s.len() && s[k] == v;
                if k < s.len() - 1 {
                    assert(s.drop_last()[k] == v);
                }
            }
            if s.drop_last().contains(v) {
                let k = choose|k: int| 0 <= k < s.drop_last().len() && s.drop_last()[k] == v;
                assert(s[k] == v);
            }
            if !removed.contains(s.last()) {
                if rest.push(s.last()).contains(v) && v != s.last() {
                    let k = choose|k: int| 0 <= k < rest.len() + 1 && rest.push(s.last())[k] == v;
                    assert(rest[k] == v);
                }
                if rest.contains(v) {
                    let k = choose|k: int| 0 <= k < rest.len() && rest[k] == v;
                    assert(rest.push(s.last())[k] == v);
                }
                assert(rest.push(s.last())[rest.len() as int] == s.last());
            }
            assert(s[s.len() - 1] == s.last());
        }
        if s.no_duplicates() {
            assert(s.drop_last().no_duplicates());
            if !removed.contains(s.last()) {
                assert(!s.drop_last().contains(s.last())) by {
                    if s.drop_last().contains(s.last()) {
                        let k = choose|k: int| 0 <= k < s.drop_last().len() && s.drop_last()[k] == s.last();
                        assert(s[k] == s[s.len() - 1]);
                    }
                }
                assert(!rest.contains(s.last()));
            }
        }
    }
}

/// Whether `items` holds an item with the view of `item`.
pub fn contains_item<T: SelectionItem>(items: &Vec<T>, item: &T) -> (r: bool)
    ensures
        r == views(items@).contains(item@),
{
    let mut i: usize = 0;
    while i < items.len()
        invariant
            i <= items@.len(),
            forall|j: int| 0 <= j < i ==> views(items@)[j] != item@,
        decreases items@.len() - i,
    {
        if items[i].same_item(item) {
            assert(views(items@)[i as int] == item@);
            return true;
        }
        i += 1;
    }
    false
}

/// `acc` with each item of `added` that it does not hold yet put at its
/// end, in the order of `added`.
fn add_items<T: SelectionItem>(acc: &mut Vec<T>, added: &Vec<T>)
    ensures
        views(final(acc)@) == add_views(views(old(acc)@), views(added@)),
{
    let ghost start = views(acc@);
    let mut i: usize = 0;
    while i < added.len()
        invariant
            i <= added@.len(),
            views(acc@) == add_views(start, views(added@).take(i as int)),
        decreases added@.len() - i,
    {
        assert(views(added@).take(i as int + 1).drop_last() =~= views(added@).take(i as int));
        assert(views(added@).take(i as int + 1).last() == added@[i as int]@);
        if !contains_item(acc, &added[i]) {
            let ghost before = acc@;
            acc.push(added[i].copy_item());
            assert(views(acc@) =~= views(before).push(added@[i as int]@));
        }
        i += 1;
    }
    assert(views(added@).take(added@.len() as int) =~= views(added@));
}

/// The items of `s` that `removed` does not hold, in order.
fn kept_items<T: SelectionItem>(s: &Vec<T>, removed: &Vec<T>) -> (r: Vec<T>)
    ensures
        views(r@) == kept(views(s@), views(removed@)),
{
    let mut result: Vec<T> = Vec::new();
    let mut i: usize = 0;
    while i < s.len()
        invariant
            i <= s@.len(),
            views(result@) == kept(views(s@).take(i as int), views(removed@)),
        decreases s@.len() - i,
    {
        assert(views(s@).take(i as int + 1).drop_last() =~= views(s@).take(i as int));
        assert(views(s@).take(i as int + 1).last() == s@[i as int]@);
        if !contains_item(removed, &s[i]) {
            let ghost before = result@;
            result.push(s[i].copy_item());
            assert(views(result@) =~= views(before).push(s@[i as int]@));
        }
        i += 1;
    }
    assert(views(s@).take(s@.len() as int) =~= views(s@));
    result
}

/// The items that are in exactly one of `existing` and `toggled`.
fn symmetric_difference<T: SelectionItem>(existing: &Vec<T>, toggled: &Vec<T>) -> (r: Vec<T>)
    ensures
        views(r@) == toggle_views(views(existing@), views(toggled@)),
{
    let mut result = kept_items(existing, toggled);
    let added = kept_items(toggled, existing);
    add_items(&mut result, &added);
    result
}

/// The index of the first item of `s` that is `v`; 0 where none is.
pub open spec fn position_of<V>(s: Seq<V>, v: V) -> int {
    if s.contains(v) {
        choose|i: int| 0 <= i < s.len() && s[i] == v && forall|j: int| 0 <= j < i ==> s[j] != v
    } else {
        0
    }
}

/// The items of `s` from index `from` to index `to`, both included, in the
/// order in which a walk from `from` meets them.
pub open spec fn range_from<V>(s: Seq<V>, from: int, to: int) -> Seq<V> {
    if from <= to {
        Seq::new((to - from + 1) as nat, |k: int| s[from + k])
    } else {
        Seq::new((from - to + 1) as nat, |k: int| s[from - k])
    }
}

/// The index of the first item of `items` with the view of `item`; 0 where
/// none has it.
fn position_in<T: SelectionItem>(items: &Vec<T>, item: &T) -> (r: usize)
    ensures
        r == position_of(views(items@), item@),
        items@.len() > 0 ==> r < items@.len(),
{
    let ghost s = views(items@);
    let mut i: usize = 0;
    while i < items.len()
        invariant
            i <= items@.len(),
            s == views(items@),
            forall|j: int| 0 <= j < i ==> s[j] != item@,
        decreases items@.len() - i,
    {
        if items[i].same_item(item) {
            proof {
                assert(s[i as int] == item@);
                let c = choose|c: int| 0 <= c < s.len() && s[c] == item@ && forall|j: int| 0 <= j < c ==> s[j] != item@;
                assert(0 <= c < s.len() && s[c] == item@ && forall|j: int| 0 <= j < c ==> s[j] != item@);
                if c < i {
                    assert(s[c] != item@);
                }
                if c > i {
                    assert(s[i as int] != item@);
                }
            }
            return i;
        }
        i += 1;
    }
    0
}

/// What a selection holds, in the order in which it holds it, with the item
/// touched last and the item from which the next range reaches.
pub struct MultiSelectionModel<V> {
    pub last_touched: V,
    pub last_touched_in_range: V,
    pub items: Seq<V>,
}

/// Several items selected at once.
pub struct MultiSelection<T: SelectionItem> {
    /// The item that the last click touched.
    pub last_touched: T,
    /// The item from which a range selected with shift reaches.
    pub last_touched_in_range: T,
    /// The selected items, each once.
    pub items: Vec<T>,
}

impl<T: SelectionItem> View for MultiSelection<T> {
    type V = MultiSelectionModel<T::V>;

    open spec fn view(&self) -> MultiSelectionModel<T::V> {
        MultiSelectionModel {
            last_touched: self.last_touched@,
            last_touched_in_range: self.last_touched_in_range@,
            items: views(self.items@),
        }
    }
}

/// A selection of `items`, each once, the last of them touched last.
pub open spec fn new_model<V>(items: Seq<V>) -> MultiSelectionModel<V> {
    MultiSelectionModel {
        last_touched: items.last(),
        last_touched_in_range: items.last(),
        items: add_views(Seq::empty(), items),
    }
}

/// `m` with `added` selected too; the last of them is touched last. Nothing
/// changes where `added` is empty.
pub open spec fn add_model<V>(m: MultiSelectionModel<V>, added: Seq<V>) -> MultiSelectionModel<V> {
    if added.len() == 0 {
        m
    } else {
        MultiSelectionModel {
            last_touched: added.last(),
            last_touched_in_range: added.last(),
            items: add_views(m.items, added),
        }
    }
}

/// `m` with each item of `toggled` selected where it was not and
/// deselected where it was. The last toggled item is touched last; the
/// range then reaches from the last toggled item that stays selected, or,
/// where none does, from the greatest selected item. Nothing changes where
/// `toggled` is empty.
pub open spec fn toggle_model<T: SelectionItem>(
    m: MultiSelectionModel<T::V>,
    toggled: Seq<T::V>,
) -> MultiSelectionModel<T::V> {
    if toggled.len() == 0 {
        m
    } else {
        let items = toggle_views(m.items, toggled);
        MultiSelectionModel {
            last_touched: toggled.last(),
            last_touched_in_range: if items.len() == 0 {
                m.last_touched_in_range
            } else {
                match last_contained(toggled, items) {
                    Some(v) => v,
                    None => T::greatest_view(items),
                }
            },
            items,
        }
    }
}

/// The selection that a click on `active` makes, from `existing` where
/// there is one, in a list of `item_set`:
/// - with shift, the items from the one after the last touched item (from
///   the first item where nothing was selected) to `active` are toggled
///   where control is held too, else selected;
/// - with control alone, `active` is toggled;
/// - with neither, `active` alone is selected.
pub open spec fn process_model<T: SelectionItem>(
    active: T::V,
    shift: bool,
    ctrl: bool,
    item_set: Seq<T::V>,
    existing: Option<MultiSelectionModel<T::V>>,
) -> MultiSelectionModel<T::V> {
    let was_blank = existing is None;
    let selection = match existing {
        Some(m) => m,
        None => new_model(seq![active]),
    };
    let active_index = position_of(item_set, active);
    if shift {
        let from = if !was_blank {
            let last_index = position_of(item_set, selection.last_touched);
            if last_index < active_index {
                last_index + 1
            } else if last_index > active_index {
                last_index - 1
            } else {
                last_index
            }
        } else {
            0
        };
        let affected = range_from(item_set, from, active_index);
        if ctrl {
            let toggled = toggle_model::<T>(selection, affected);
            if was_blank {
                toggle_model::<T>(toggled, seq![active])
            } else {
                toggled
            }
        } else {
            add_model(selection, affected)
        }
    } else if ctrl {
        if was_blank {
            selection
        } else {
            toggle_model::<T>(selection, seq![active])
        }
    } else {
        new_model(seq![active])
    }
}

impl<T: SelectionItem> MultiSelection<T> {
    /// No item is selected twice.
    pub open spec fn wf(&self) -> bool {
        views(self.items@).no_duplicates()
    }

    /// A selection of `items`, the last of them touched last. A selection
    /// has a last touched item, so `items` must hold one at least.
    pub fn new(items: Vec<T>) -> (r: MultiSelection<T>)
        requires
            items@.len() > 0,
        ensures
            r.wf(),
            r@ == new_model(views(items@)),
    {
        let last = items.len() - 1;
        let last_touched = items[last].copy_item();
        let last_touched_in_range = items[last].copy_item();
        let mut selected: Vec<T> = Vec::new();
        add_items(&mut selected, &items);
        proof {
            assert(views(Seq::<T>::empty()) =~= Seq::<T::V>::empty());
            lemma_add_views(Seq::<T::V>::empty(), views(items@));
        }
        MultiSelection { last_touched, last_touched_in_range, items: selected }
    }

    /// Selects `added_items` too; the last of them is touched last. Nothing
    /// changes where the list is empty.
    pub fn add(&mut self, added_items: &Vec<T>)
        requires
            old(self).wf(),
        ensures
            final(self).wf(),
            final(self)@ == add_model(old(self)@, views(added_items@)),
    {
        if added_items.len() == 0 {
            return;
        }
        let last = added_items.len() - 1;
        self.last_touched = added_items[last].copy_item();
        self.last_touched_in_range = added_items[last].copy_item();
        proof {
            lemma_add_views(views(self.items@), views(added_items@));
        }
        add_items(&mut self.items, added_items);
    }

    /// Selects each of `toggled_items` that was not selected and deselects
    /// each that was; see `toggle_model`. Nothing changes where the list is
    /// empty.
    pub fn toggle(&mut self, toggled_items: &Vec<T>)
        requires
            old(self).wf(),
        ensures
            final(self).wf(),
            final(self)@ == toggle_model::<T>(old(self)@, views(toggled_items@)),
    {
        if toggled_items.len() == 0 {
            return;
        }
        let ghost old_items = views(self.items@);
        let last = toggled_items.len() - 1;
        self.last_touched = toggled_items[last].copy_item();
        let items = symmetric_difference(&self.items, toggled_items);
        proof {
            lemma_kept(old_items, views(toggled_items@));
            lemma_add_views(
                kept(old_items, views(toggled_items@)),
                kept(views(toggled_items@), old_items),
            );
        }
        self.items = items;
        if self.items.len() > 0 {
            let ghost selected = views(self.items@);
            let mut in_range = T::greatest(&self.items);
            let mut i: usize = 0;
            while i < toggled_items.len()
                invariant
                    i <= toggled_items@.len(),
                    selected == views(self.items@),
                    in_range@ == match last_contained(views(toggled_items@).take(i as int), selected) {
                        Some(v) => v,
                        None => T::greatest_view(selected),
                    },
                decreases toggled_items@.len() - i,
            {
                assert(views(toggled_items@).take(i as int + 1).drop_last() =~= views(
                    toggled_items@,
                ).take(i as int));
                assert(views(toggled_items@).take(i as int + 1).last() == toggled_items@[i as int]@);
                if contains_item(&self.items, &toggled_items[i]) {
                    in_range = toggled_items[i].copy_item();
                }
                i += 1;
            }
            assert(views(toggled_items@).take(toggled_items@.len() as int) =~= views(toggled_items@));
            self.last_touched_in_range = in_range;
        }
    }

    /// A copy of the selection.
    pub fn copy_selection(&self) -> (r: MultiSelection<T>)
        ensures
            r@ == self@,
            r.wf() == self.wf(),
    {
        let mut items: Vec<T> = Vec::new();
        let mut i: usize = 0;
        while i < self.items.len()
            invariant
                i <= self.items@.len(),
                items@ == self.items@.take(i as int),
            decreases self.items@.len() - i,
        {
            items.push(self.items[i].copy_item());
            i += 1;
            assert(items@ =~= self.items@.take(i as int));
        }
        assert(self.items@.take(self.items@.len() as int) =~= self.items@);
        MultiSelection {
            last_touched: self.last_touched.copy_item(),
            last_touched_in_range: self.last_touched_in_range.copy_item(),
            items,
        }
    }

    /// The selection that a click on `active_item` makes, with shift and
    /// control held or not, in a list of `item_set`, from
    /// `existing_selection` where there is one; see `process_model`. A
    /// range needs an item to reach to, so `item_set` holds one at least
    /// where shift is held.
    pub fn process(
        active_item: T,
        shift: bool,
        ctrl: bool,
        item_set: &Vec<T>,
        existing_selection: Option<&MultiSelection<T>>,
    ) -> (r: MultiSelection<T>)
        requires
            shift ==> item_set@.len() > 0,
            match existing_selection {
                Some(s) => s.wf(),
                None => true,
            },
        ensures
            r.wf(),
            r@ == process_model::<T>(
                active_item@,
                shift,
                ctrl,
                views(item_set@),
                match existing_selection {
                    Some(s) => Some(s@),
                    None => None,
                },
            ),
    {
        let ghost existing_model = match existing_selection {
            Some(s) => Some(s@),
            None => None,
        };
        let ghost result = process_model::<T>(
            active_item@,
            shift,
            ctrl,
            views(item_set@),
            existing_model,
        );
        let was_blank = existing_selection.is_none();
        let mut selection = match existing_selection {
            Some(s) => s.copy_selection(),
            None => {
                let initial = vec![active_item.copy_item()];
                assert(views(initial@) =~= seq![active_item@]);
                MultiSelection::new(initial)
            },
        };
        let ghost start = selection@;
        assert(start == match existing_model {
            Some(m) => m,
            None => new_model(seq![active_item@]),
        });
        let active_item_index = position_in(item_set, &active_item);
        if shift {
            let from = if !was_blank {
                let last_touched_index = position_in(item_set, &selection.last_touched);
                if last_touched_index < active_item_index {
                    last_touched_index + 1
                } else if last_touched_index > active_item_index {
                    last_touched_index - 1
                } else {
                    last_touched_index
                }
            } else {
                0
            };
            let affected_items = items_between(item_set, from, active_item_index);
            if ctrl {
                selection.toggle(&affected_items);
                if was_blank {
                    let active_only = vec![active_item];
                    assert(views(active_only@) =~= seq![active_only@[0]@]);
                    selection.toggle(&active_only);
                }
            } else {
                selection.add(&affected_items);
            }
        } else if ctrl {
            if !was_blank {
                let active_only = vec![active_item];
                assert(views(active_only@) =~= seq![active_only@[0]@]);
                selection.toggle(&active_only);
            }
        } else {
            let active_only = vec![active_item];
            assert(views(active_only@) =~= seq![active_only@[0]@]);
            selection = MultiSelection::new(active_only);
        }
        assert(selection@ == result);
        selection
    }
}

/// The items of `item_set` from index `from` to index `to`, both included,
/// in the order in which a walk from `from` meets them.
fn items_between<T: SelectionItem>(item_set: &Vec<T>, from: usize, to: usize) -> (r: Vec<T>)
    requires
        from < item_set@.len(),
        to < item_set@.len(),
    ensures
        views(r@) == range_from(views(item_set@), from as int, to as int),
{
    let ghost target = range_from(views(item_set@), from as int, to as int);
    let length = item_set.len();
    assert(to < length && from < length);
    let count = if from <= to {
        to - from + 1
    } else {
        from - to + 1
    };
    let mut result: Vec<T> = Vec::new();
    let mut k: usize = 0;
    while k < count
        invariant
            k <= count,
            count == target.len(),
            from < item_set@.len(),
            to < item_set@.len(),
            target == range_from(views(item_set@), from as int, to as int),
            views(result@) == target.take(k as int),
        decreases count - k,
    {
        let index = if from <= to {
            from + k
        } else {
            from - k
        };
        let ghost before = result@;
        result.push(item_set[index].copy_item());
        assert(target[k as int] == item_set@[index as int]@);
        assert(views(result@) =~= views(before).push(item_set@[index as int]@));
        assert(views(result@) =~= target.take(k as int + 1));
        k += 1;
    }
    assert(target.take(count as int) =~= target);
    result
}

/// What is selected in a document: frames, animations, hitboxes or the
/// frames of an animation, several at once.
pub enum Selection {
    Frame(MultiSelection<FramePath>),
    Animation(MultiSelection<String>),
    Hitbox(MultiSelection<String>),
    AnimationFrame(MultiSelection<usize>),
}

impl Selection {
    /// Whether frames are selected and `path` among them.
    pub fn is_frame_selected(&self, path: &str) -> (r: bool)
        ensures
            r == (self matches Selection::Frame(s) && s@.items.contains(path@)),
    {
        match self {
            Selection::Frame(s) => {
                let item = FramePath(path.to_owned());
                contains_item(&s.items, &item)
            },
            _ => false,
        }
    }

    /// Whether animations are selected and the one named `name` among them.
    pub fn is_animation_selected(&self, name: &str) -> (r: bool)
        ensures
            r == (self matches Selection::Animation(s) && s@.items.contains(name@)),
    {
        match self {
            Selection::Animation(s) => {
                let item = name.to_owned();
                contains_item(&s.items, &item)
            },
            _ => false,
        }
    }

    /// Whether hitboxes are selected and the one named `name` among them.
    pub fn is_hitbox_selected(&self, name: &str) -> (r: bool)
        ensures
            r == (self matches Selection::Hitbox(s) && s@.items.contains(name@)),
    {
        match self {
            Selection::Hitbox(s) => {
                let item = name.to_owned();
                contains_item(&s.items, &item)
            },
            _ => false,
        }
    }

    /// Whether frames of an animation are selected and the one at `index`
    /// among them.
    pub fn is_animation_frame_selected(&self, index: usize) -> (r: bool)
        ensures
            r == (self matches Selection::AnimationFrame(s) && s@.items.contains(index)),
    {
        match self {
            Selection::AnimationFrame(s) => {
                let r = contains_item(&s.items, &index);
                assert(views(s.items@) =~= s.items@);
                r
            },
            _ => false,
        }
    }
}

/// An item is selected after a toggle exactly where it was selected before
/// or toggled, but not both.
pub proof fn lemma_toggle_views<V>(existing: Seq<V>, toggled: Seq<V>, v: V)
    ensures
        toggle_views(existing, toggled).contains(v) <==> (existing.contains(v) != toggled.contains(v)),
{
    lemma_kept(existing, toggled);
    lemma_kept(toggled, existing);
    lemma_add_views(kept(existing, toggled), kept(toggled, existing));
}

/// Toggling the same items twice selects what was selected before.
pub proof fn law_toggle_twice_restores<T: SelectionItem>(
    m: MultiSelectionModel<T::V>,
    toggled: Seq<T::V>,
    v: T::V,
)
    ensures
        toggle_model::<T>(toggle_model::<T>(m, toggled), toggled).items.contains(v)
            == m.items.contains(v),
{
    if toggled.len() > 0 {
        lemma_toggle_views(m.items, toggled, v);
        lemma_toggle_views(toggle_views(m.items, toggled), toggled, v);
    }
}

/// A click with control alone, on a selection that exists, toggles the
/// clicked item and leaves every other item as it was.
pub proof fn law_control_click_toggles<T: SelectionItem>(
    active: T::V,
    item_set: Seq<T::V>,
    m: MultiSelectionModel<T::V>,
    v: T::V,
)
    ensures
        process_model::<T>(active, false, true, item_set, Some(m)).items.contains(v) == (
        m.items.contains(v) != (v == active)),
        process_model::<T>(active, false, true, item_set, Some(m)).last_touched == active,
{
    lemma_toggle_views(m.items, seq![active], v);
    assert(seq![active].contains(v) == (v == active)) by {
        if v == active {
            assert(seq![active][0] == v);
        }
    }
}

/// A click with neither shift nor control selects the clicked item alone.
pub proof fn law_plain_click_selects_one<T: SelectionItem>(
    active: T::V,
    item_set: Seq<T::V>,
    existing: Option<MultiSelectionModel<T::V>>,
)
    ensures
        process_model::<T>(active, false, false, item_set, existing).items == seq![active],
        process_model::<T>(active, false, false, item_set, existing).last_touched == active,
{
    let s = seq![active];
    assert(s.drop_last() =~= Seq::<T::V>::empty());
    assert(add_views(Seq::<T::V>::empty(), Seq::<T::V>::empty()) == Seq::<T::V>::empty());
    assert(!Seq::<T::V>::empty().contains(active));
    assert(add_views(Seq::<T::V>::empty(), s) =~= seq![active]);
}

/// Selecting more items keeps what was selected and adds them.
pub proof fn law_add_keeps_and_adds<V>(m: MultiSelectionModel<V>, added: Seq<V>, v: V)
    ensures
        add_model(m, added).items.contains(v) == (m.items.contains(v) || added.contains(v)),
{
    lemma_add_views(m.items, added);
}

} // verus!
