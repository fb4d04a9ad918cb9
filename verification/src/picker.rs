//! The local file picker: which directory items it lists and in what order.
use vstd::prelude::*;
use crate::order::{
    comes_before, is_stable_order, stable_order, stable_sort_positions, SortKey,
};
use crate::text::{chars_of, lowercase, starts_with, starts_with_char, to_lowercase};

verus! {

/// A file or directory shown in the picker.
#[derive(Clone, Debug, PartialEq, Eq)]
pub struct LocalEntry {
    pub name: String,
    pub is_dir: bool,
    pub size: u64,
}

/// The contents of a `LocalEntry`.
pub struct LocalEntryView {
    pub name: Seq<char>,
    pub is_dir: bool,
    pub size: u64,
}

impl View for LocalEntry {
    type V = LocalEntryView;

    open spec fn view(&self) -> LocalEntryView {
        LocalEntryView { name: self.name@, is_dir: self.is_dir, size: self.size }
    }
}

impl DeepView for LocalEntry {
    type V = LocalEntryView;

    open spec fn deep_view(&self) -> LocalEntryView {
        self@
    }
}

impl LocalEntry {
    /// A copy with the same contents.
    pub fn duplicate(&self) -> (r: LocalEntry)
        ensures
            r@ == self@,
    {
        LocalEntry { name: self.name.clone(), is_dir: self.is_dir, size: self.size }
    }
}

/// An item of a directory as read from disk: its name, whether it is a
/// directory or a regular file (it may be neither), and its size.
pub struct DirItem {
    pub name: String,
    pub is_dir: bool,
    pub is_file: bool,
    pub size: u64,
}

/// The contents of a `DirItem`.
pub struct DirItemView {
    pub name: Seq<char>,
    pub is_dir: bool,
    pub is_file: bool,
    pub size: u64,
}

impl View for DirItem {
    type V = DirItemView;

    open spec fn view(&self) -> DirItemView {
        DirItemView { name: self.name@, is_dir: self.is_dir, is_file: self.is_file, size: self.size }
    }
}

impl DeepView for DirItem {
    type V = DirItemView;

    open spec fn deep_view(&self) -> DirItemView {
        self@
    }
}

/// Whether a name is hidden: it starts with a dot.
pub open spec fn starts_with_dot(name: Seq<char>) -> bool {
    starts_with(name, '.')
}

/// Whether the picker lists an item: a directory or regular file, and not
/// hidden (name starting with `.`) unless hidden items are shown.
pub open spec fn is_listed(item: DirItemView, show_hidden: bool) -> bool {
    (show_hidden || !starts_with_dot(item.name)) && (item.is_dir || item.is_file)
}

/// The entries listed for the items of a directory, in reading order.
pub open spec fn listed_entries(items: Seq<DirItemView>, show_hidden: bool) -> Seq<LocalEntryView>
    decreases items.len(),
{
    if items.len() == 0 {
        seq![]
    } else {
        let before = listed_entries(items.drop_last(), show_hidden);
        let it = items.last();
        if is_listed(it, show_hidden) {
            before.push(LocalEntryView { name: it.name, is_dir: it.is_dir, size: it.size })
        } else {
            before
        }
    }
}

/// The sort keys of picker entries given their lowercased names:
/// directories first, then by lowercased name.
pub open spec fn picker_keys(es: Seq<LocalEntryView>, lower: Seq<Seq<char>>) -> Seq<(bool, Seq<char>)> {
    Seq::new(es.len(), |i: int| (es[i].is_dir, lower[i]))
}

/// Picker entries in display order: directories first, then by lowercased
/// name, entries with equal keys in reading order.
pub open spec fn sorted_picker(es: Seq<LocalEntryView>, lower: Seq<Seq<char>>) -> Seq<LocalEntryView> {
    stable_order(picker_keys(es, lower)).map_values(|k: usize| es[k as int])
}

/// The lowercased names of picker entries.
pub open spec fn lower_names(es: Seq<LocalEntryView>) -> Seq<Seq<char>> {
    es.map_values(|e: LocalEntryView| lowercase(e.name))
}

/// What the picker shows for the items of a directory.
pub open spec fn picker_listing(items: Seq<DirItemView>, show_hidden: bool) -> Seq<LocalEntryView> {
    let es = listed_entries(items, show_hidden);
    sorted_picker(es, lower_names(es))
}

/// At most one entry is listed per item.
pub proof fn lemma_listed_len(items: Seq<DirItemView>, show_hidden: bool)
    ensures
        listed_entries(items, show_hidden).len() <= items.len(),
    decreases items.len(),
{
    if items.len() > 0 {
        lemma_listed_len(items.drop_last(), show_hidden);
    }
}

/// With hidden items left out, no listed entry is hidden.
pub proof fn lemma_listed_visible(items: Seq<DirItemView>)
    ensures
        forall|k: int|
            0 <= k < listed_entries(items, false).len() ==> !starts_with_dot(
                #[trigger] listed_entries(items, false)[k].name,
            ),
    decreases items.len(),
{
    if items.len() > 0 {
        let before = listed_entries(items.drop_last(), false);
        lemma_listed_visible(items.drop_last());
        let all = listed_entries(items, false);
        assert forall|k: int| 0 <= k < all.len() implies !starts_with_dot(#[trigger] all[k].name) by {
            if k < before.len() {
                assert(all[k] == before[k]);
            }
        }
    }
}

/// When no entry listed with hidden items shown is hidden, showing hidden
/// items changes nothing.
pub proof fn lemma_listed_without_hidden(items: Seq<DirItemView>)
    requires
        forall|k: int|
            0 <= k < listed_entries(items, true).len() ==> !starts_with_dot(
                #[trigger] listed_entries(items, true)[k].name,
            ),
    ensures
        listed_entries(items, true) == listed_entries(items, false),
    decreases items.len(),
{
    if items.len() > 0 {
        let before = listed_entries(items.drop_last(), true);
        let all = listed_entries(items, true);
        assert forall|k: int| 0 <= k < before.len() implies !starts_with_dot(#[trigger] before[k].name) by {
            assert(all[k] == before[k]);
        }
        lemma_listed_without_hidden(items.drop_last());
        if is_listed(items.last(), true) {
            assert(all[before.len() as int].name == items.last().name);
        }
    }
}

/// The entries in display order are the entries, in another order.
pub proof fn lemma_sorted_picker_elements(es: Seq<LocalEntryView>, lower: Seq<Seq<char>>)
    requires
        lower.len() == es.len(),
        es.len() <= usize::MAX,
    ensures
        sorted_picker(es, lower).len() == es.len(),
        forall|i: int| 0 <= i < es.len() ==> es.contains(#[trigger] sorted_picker(es, lower)[i]),
        forall|k: int| 0 <= k < es.len() ==> sorted_picker(es, lower).contains(#[trigger] es[k]),
{
    let keys = picker_keys(es, lower);
    crate::order::lemma_stable_order_exists(keys);
    let p = stable_order(keys);
    let out = sorted_picker(es, lower);
    assert forall|i: int| 0 <= i < es.len() implies es.contains(#[trigger] out[i]) by {
        let k = p[i] as int;
        assert(out[i] == es[k]);
    }
    assert forall|k: int| 0 <= k < es.len() implies out.contains(#[trigger] es[k]) by {
        assert(p.contains(k as usize));
        let i = choose|i: int| 0 <= i < p.len() && p[i] == k as usize;
        assert(out[i] == es[k]);
    }
}

/// Sorts picker entries, given their lowercased names, into display order.
pub fn sort_picker_entries(es: &Vec<LocalEntry>, lower: &Vec<String>) -> (r: Vec<LocalEntry>)
    requires
        lower.len() == es.len(),
    ensures
        r.deep_view() == sorted_picker(es.deep_view(), lower.deep_view()),
        r.len() == es.len(),
        forall|i: int, j: int| 0 <= i < j < r.len() ==> (r@[j].is_dir ==> r@[i].is_dir),
{
    let ghost kv = picker_keys(es.deep_view(), lower.deep_view());
    let mut keys: Vec<SortKey> = Vec::new();
    let mut i: usize = 0;
    while i < es.len()
        invariant
            i <= es.len(),
            lower.len() == es.len(),
            kv == picker_keys(es.deep_view(), lower.deep_view()),
            keys@.map_values(|k: SortKey| k@) == kv.take(i as int),
        decreases es.len() - i,
    {
        let ghost before = keys@.map_values(|k: SortKey| k@);
        keys.push(SortKey { first: es[i].is_dir, name: chars_of(lower[i].as_str()) });
        assert(kv[i as int] == (es@[i as int].is_dir, lower@[i as int]@));
        assert(keys@.map_values(|k: SortKey| k@) =~= before.push(kv[i as int]));
        assert(kv.take(i + 1) =~= kv.take(i as int).push(kv[i as int]));
        i += 1;
    }
    assert(kv.take(es.len() as int) =~= kv);
    let perm = stable_sort_positions(&keys);
    let ghost target = sorted_picker(es.deep_view(), lower.deep_view());
    let mut r: Vec<LocalEntry> = Vec::new();
    let mut j: usize = 0;
    while j < perm.len()
        invariant
            j <= perm.len(),
            perm.len() == es.len(),
            is_stable_order(kv, perm@),
            perm@ == stable_order(kv),
            kv == picker_keys(es.deep_view(), lower.deep_view()),
            target == sorted_picker(es.deep_view(), lower.deep_view()),
            r.deep_view() == target.take(j as int),
        decreases perm.len() - j,
    {
        r.push(es[perm[j]].duplicate());
        assert(target[j as int] == es.deep_view()[perm@[j as int] as int]);
        assert(target.take(j + 1) =~= target.take(j as int).push(target[j as int]));
        assert(r.deep_view() =~= target.take(j + 1));
        j += 1;
    }
    assert(target.take(perm.len() as int) =~= target);
    proof {
        let p = perm@;
        assert(r.deep_view().len() == r.len());
        assert forall|i: int, j: int| 0 <= i < j < r.len() && r@[j].is_dir implies r@[i].is_dir by {
            assert(comes_before(kv, p[i], p[j]));
            assert(r@[i]@ == r.deep_view()[i]);
            assert(r@[j]@ == r.deep_view()[j]);
        }
    }
    r
}

/// The entries a directory listing shows: listed items (directories and
/// files, hidden ones only when `show_hidden`), directories first, then by
/// lowercased name.
pub fn arrange_picker(items: &Vec<DirItem>, show_hidden: bool) -> (r: Vec<LocalEntry>)
    ensures
        r.deep_view() == picker_listing(items.deep_view(), show_hidden),
{
    let ghost iv = items.deep_view();
    let mut es: Vec<LocalEntry> = Vec::new();
    let mut lower: Vec<String> = Vec::new();
    let mut i: usize = 0;
    while i < items.len()
        invariant
            i <= items.len(),
            iv == items.deep_view(),
            es.deep_view() == listed_entries(iv.take(i as int), show_hidden),
            lower.deep_view() == lower_names(es.deep_view()),
        decreases items.len() - i,
    {
        assert(iv.take(i + 1).drop_last() =~= iv.take(i as int));
        let it = &items[i];
        assert(iv.take(i + 1).last() == it@);
        let hidden = starts_with_char(it.name.as_str(), '.');
        if (show_hidden || !hidden) && (it.is_dir || it.is_file) {
            let ghost before = es.deep_view();
            let ghost lbefore = lower.deep_view();
            es.push(LocalEntry { name: it.name.clone(), is_dir: it.is_dir, size: it.size });
            lower.push(to_lowercase(it.name.as_str()));
            assert(es.deep_view() =~= before.push(
                LocalEntryView { name: it.name@, is_dir: it.is_dir, size: it.size },
            ));
            assert(lower.deep_view() =~= lbefore.push(lowercase(it.name@)));
            assert(lower_names(es.deep_view()) =~= lower_names(before).push(lowercase(it.name@)));
        }
        i += 1;
    }
    assert(iv.take(items.len() as int) =~= iv);
    sort_picker_entries(&es, &lower)
}

} // verus!
