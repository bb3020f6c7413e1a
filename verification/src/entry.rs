//! Directory entries, and how a directory's enumeration becomes the listing
//! that is shown: filtered by the hidden-file flag, then grouped by the
//! directory sort mode.

use vstd::prelude::*;
use vstd::string::StrSliceExecFns;

verus! {

/// Where directories stand in a listing, relative to the other entries.
#[derive(Clone, Copy, Debug, PartialEq, Eq, Structural)]
pub enum SortDir {
    /// As the filesystem enumerated them.
    Unsorted,
    /// Before all other entries.
    Start,
    /// After all other entries.
    End,
}

impl SortDir {
    /// The mode that follows `self` in the cycle
    /// `Unsorted`, `Start`, `End`, `Unsorted`.
    pub open spec fn spec_next(self) -> SortDir {
        match self {
            SortDir::Unsorted => SortDir::Start,
            SortDir::Start => SortDir::End,
            SortDir::End => SortDir::Unsorted,
        }
    }

    /// The mode that follows `self` in the cycle.
    #[verifier::when_used_as_spec(spec_next)]
    pub fn next(self) -> (r: SortDir)
        ensures
            r == self.spec_next(),
    {
        match self {
            SortDir::Unsorted => SortDir::Start,
            SortDir::Start => SortDir::End,
            SortDir::End => SortDir::Unsorted,
        }
    }
}

/// One entry of a directory, as the host read it from the filesystem.
#[derive(Debug, PartialEq, Eq)]
pub struct Entry {
    /// The entry's file name, without its directory.
    pub name: String,
    /// The entry's absolute path.
    pub path: String,
    /// Its size in bytes.
    pub size: u64,
    /// Whether it is a directory.
    pub is_dir: bool,
    /// Whether the user may read it.
    pub readable: bool,
}

/// The mathematical value of an [`Entry`].
pub struct EntryView {
    pub name: Seq<char>,
    pub path: Seq<char>,
    pub size: u64,
    pub is_dir: bool,
    pub readable: bool,
}

impl View for Entry {
    type V = EntryView;

    open spec fn view(&self) -> EntryView {
        EntryView {
            name: self.name@,
            path: self.path@,
            size: self.size,
            is_dir: self.is_dir,
            readable: self.readable,
        }
    }
}

impl Clone for Entry {
    fn clone(&self) -> (r: Entry)
        ensures
            r@ == self@,
    {
        Entry {
            name: self.name.clone(),
            path: self.path.clone(),
            size: self.size,
            is_dir: self.is_dir,
            readable: self.readable,
        }
    }
}

/// The values of a sequence of entries, in the same order.
pub open spec fn entry_views(entries: Seq<Entry>) -> Seq<EntryView> {
    entries.map_values(|e: Entry| e@)
}

/// A name is hidden when it begins with a dot.
pub open spec fn is_hidden_name(name: Seq<char>) -> bool {
    name.len() > 0 && name[0] == '.'
}

/// The entries that pass the hidden-file filter.
pub open spec fn shown(show_hidden: bool) -> spec_fn(EntryView) -> bool {
    |e: EntryView| show_hidden || !is_hidden_name(e.name)
}

/// The directories (`dirs` true) or the entries that are not directories.
pub open spec fn of_kind(dirs: bool) -> spec_fn(EntryView) -> bool {
    |e: EntryView| e.is_dir == dirs
}

/// The enumeration `listing` without the entries that the hidden-file flag
/// excludes, in enumeration order.
pub open spec fn visible(listing: Seq<EntryView>, show_hidden: bool) -> Seq<EntryView> {
    listing.filter(shown(show_hidden))
}

/// The listing shown for the enumeration `listing`: first filtered by the
/// hidden-file flag, then partitioned by the sort mode. The partition is stable:
/// within the directories, and within the other entries, enumeration order stays.
pub open spec fn arrange(listing: Seq<EntryView>, show_hidden: bool, sorting: SortDir) -> Seq<
    EntryView,
> {
    let kept = visible(listing, show_hidden);
    match sorting {
        SortDir::Unsorted => kept,
        SortDir::Start => kept.filter(of_kind(true)) + kept.filter(of_kind(false)),
        SortDir::End => kept.filter(of_kind(false)) + kept.filter(of_kind(true)),
    }
}

/// `part` picks elements of `whole` without reordering them: `at` gives, for
/// each position of `part`, the position in `whole` that it was taken from,
/// and `at` is strictly increasing.
pub open spec fn picks_in_order<A>(part: Seq<A>, whole: Seq<A>, at: Seq<int>) -> bool {
    &&& at.len() == part.len()
    &&& forall|k: int| 0 <= k < part.len() ==> 0 <= #[trigger] at[k] < whole.len()
    &&& forall|k: int| 0 <= k < part.len() ==> part[k] == whole[#[trigger] at[k]]
    &&& forall|k: int, l: int| 0 <= k < l < part.len() ==> #[trigger] at[k] < #[trigger] at[l]
}

/// `part` is `whole` with some elements left out, the others in their order.
pub open spec fn keeps_order<A>(part: Seq<A>, whole: Seq<A>) -> bool {
    exists|at: Seq<int>| picks_in_order(part, whole, at)
}

impl Entry {
    /// Whether the entry's name marks it as hidden.
    pub fn is_hidden(&self) -> (r: bool)
        ensures
            r == is_hidden_name(self.name@),
    {
        let name = self.name.as_str();
        !name.is_empty() && name.get_char(0) == '.'
    }
}

/// The entries of `listing` that pass the hidden-file filter, in order.
fn visible_entries(listing: &Vec<Entry>, show_hidden: bool) -> (out: Vec<Entry>)
    ensures
        entry_views(out@) == visible(entry_views(listing@), show_hidden),
{
    let ghost all = entry_views(listing@);
    let ghost keep = shown(show_hidden);
    let mut out: Vec<Entry> = Vec::new();
    proof {
        reveal(Seq::filter);
        assert(all.take(0).filter(keep) =~= Seq::<EntryView>::empty());
        assert(entry_views(out@) =~= Seq::<EntryView>::empty());
    }
    for i in 0..listing.len()
        invariant
            all == entry_views(listing@),
            keep == shown(show_hidden),
            entry_views(out@) == all.take(i as int).filter(keep),
    {
        let entry = &listing[i];
        proof {
            assert(all.take(i + 1) =~= all.take(i as int).push(all[i as int]));
            all.take(i as int).lemma_filter_push(all[i as int], keep);
        }
        if show_hidden || !entry.is_hidden() {
            let ghost before = out@;
            out.push(entry.clone());
            assert(entry_views(out@) =~= entry_views(before).push(all[i as int]));
        }
    }
    assert(all.take(listing.len() as int) =~= all);
    out
}

/// The directories of `entries` (`dirs` true), or its other entries, in order.
fn entries_of_kind(entries: &Vec<Entry>, dirs: bool) -> (out: Vec<Entry>)
    ensures
        entry_views(out@) == entry_views(entries@).filter(of_kind(dirs)),
{
    let ghost all = entry_views(entries@);
    let ghost keep = of_kind(dirs);
    let mut out: Vec<Entry> = Vec::new();
    proof {
        reveal(Seq::filter);
        assert(all.take(0).filter(keep) =~= Seq::<EntryView>::empty());
        assert(entry_views(out@) =~= Seq::<EntryView>::empty());
    }
    for i in 0..entries.len()
        invariant
            all == entry_views(entries@),
            keep == of_kind(dirs),
            entry_views(out@) == all.take(i as int).filter(keep),
    {
        let entry = &entries[i];
        proof {
            assert(all.take(i + 1) =~= all.take(i as int).push(all[i as int]));
            all.take(i as int).lemma_filter_push(all[i as int], keep);
        }
        if entry.is_dir == dirs {
            let ghost before = out@;
            out.push(entry.clone());
            assert(entry_views(out@) =~= entry_views(before).push(all[i as int]));
        }
    }
    assert(all.take(entries.len() as int) =~= all);
    out
}

/// `first` followed by `second`.
fn concat_entries(first: Vec<Entry>, second: &Vec<Entry>) -> (out: Vec<Entry>)
    ensures
        entry_views(out@) == entry_views(first@) + entry_views(second@),
{
    let mut out = first;
    assert(entry_views(out@) =~= entry_views(first@) + entry_views(second@).take(0));
    for i in 0..second.len()
        invariant
            entry_views(out@) == entry_views(first@) + entry_views(second@).take(i as int),
    {
        let ghost before = out@;
        out.push(second[i].clone());
        assert(entry_views(out@) =~= entry_views(before).push(second@[i as int]@));
        assert(entry_views(second@).take(i + 1) =~= entry_views(second@).take(i as int).push(
            second@[i as int]@,
        ));
    }
    assert(entry_views(second@).take(second.len() as int) =~= entry_views(second@));
    out
}

/// Builds the listing to show from a directory's enumeration.
pub fn arrange_entries(listing: &Vec<Entry>, show_hidden: bool, sorting: SortDir) -> (out: Vec<
    Entry,
>)
    ensures
        entry_views(out@) == arrange(entry_views(listing@), show_hidden, sorting),
{
    let kept = visible_entries(listing, show_hidden);
    match sorting {
        SortDir::Unsorted => kept,
        SortDir::Start => {
            let dirs = entries_of_kind(&kept, true);
            let others = entries_of_kind(&kept, false);
            concat_entries(dirs, &others)
        },
        SortDir::End => {
            let dirs = entries_of_kind(&kept, true);
            let others = entries_of_kind(&kept, false);
            concat_entries(others, &dirs)
        },
    }
}

/// Filtering leaves elements out and keeps the others in their order.
pub proof fn lemma_filter_keeps_order<A>(s: Seq<A>, pred: spec_fn(A) -> bool)
    ensures
        keeps_order(s.filter(pred), s),
    decreases s.len(),
{
    reveal(Seq::filter);
    if s.len() == 0 {
        assert(picks_in_order(s.filter(pred), s, Seq::<int>::empty()));
    } else {
        let rest = s.drop_last();
        lemma_filter_keeps_order(rest, pred);
        let at = choose|at: Seq<int>| picks_in_order(rest.filter(pred), rest, at);
        if pred(s.last()) {
            assert(picks_in_order(s.filter(pred), s, at.push(s.len() - 1)));
        } else {
            assert(picks_in_order(s.filter(pred), s, at));
        }
    }
}

/// Leaving elements out twice is leaving elements out.
pub proof fn lemma_keeps_order_transitive<A>(a: Seq<A>, b: Seq<A>, c: Seq<A>)
    requires
        keeps_order(a, b),
        keeps_order(b, c),
    ensures
        keeps_order(a, c),
{
    let f = choose|at: Seq<int>| picks_in_order(a, b, at);
    let g = choose|at: Seq<int>| picks_in_order(b, c, at);
    let h = Seq::new(a.len(), |k: int| g[f[k]]);
    assert(picks_in_order(a, c, h));
}

/// A filter that every element passes changes nothing, and one that no
/// element passes leaves nothing.
proof fn lemma_filter_all_or_none<A>(s: Seq<A>, pred: spec_fn(A) -> bool)
    ensures
        (forall|i: int| 0 <= i < s.len() ==> pred(#[trigger] s[i])) ==> s.filter(pred) == s,
        (forall|i: int| 0 <= i < s.len() ==> !pred(#[trigger] s[i])) ==> s.filter(pred)
            == Seq::<A>::empty(),
    decreases s.len(),
{
    reveal(Seq::filter);
    if s.len() > 0 {
        lemma_filter_all_or_none(s.drop_last(), pred);
        if forall|i: int| 0 <= i < s.len() ==> pred(#[trigger] s[i]) {
            assert forall|i: int| 0 <= i < s.drop_last().len() implies pred(
                #[trigger] s.drop_last()[i],
            ) by {
                assert(s.drop_last()[i] == s[i]);
            }
            assert(s.drop_last().push(s.last()) =~= s);
        }
        if forall|i: int| 0 <= i < s.len() ==> !pred(#[trigger] s[i]) {
            assert forall|i: int| 0 <= i < s.drop_last().len() implies !pred(
                #[trigger] s.drop_last()[i],
            ) by {
                assert(s.drop_last()[i] == s[i]);
            }
            assert(!pred(s[s.len() - 1]));
        }
    }
}

/// Splitting a sequence by kind and joining the two parts, in either order,
/// keeps every element as often as it occurred.
proof fn lemma_partition_keeps_elements(s: Seq<EntryView>)
    ensures
        (s.filter(of_kind(true)) + s.filter(of_kind(false))).to_multiset() == s.to_multiset(),
        (s.filter(of_kind(false)) + s.filter(of_kind(true))).to_multiset() == s.to_multiset(),
    decreases s.len(),
{
    broadcast use vstd::seq_lib::group_to_multiset_ensures;

    reveal(Seq::filter);
    let dirs = s.filter(of_kind(true));
    let others = s.filter(of_kind(false));
    vstd::seq_lib::lemma_multiset_commutative(dirs, others);
    vstd::seq_lib::lemma_multiset_commutative(others, dirs);
    if s.len() == 0 {
        assert(dirs + others =~= s);
        assert(others + dirs =~= s);
    } else {
        let rest = s.drop_last();
        lemma_partition_keeps_elements(rest);
        vstd::seq_lib::lemma_multiset_commutative(
            rest.filter(of_kind(true)),
            rest.filter(of_kind(false)),
        );
        assert(rest.push(s.last()) =~= s);
        assert(s.to_multiset() =~= rest.to_multiset().insert(s.last()));
        assert(dirs.to_multiset().add(others.to_multiset()) =~= s.to_multiset());
    }
}

/// How the sort mode orders a listing. With directories first, every
/// directory listed stands before every listed entry that is none; with
/// directories last, after it; unsorted, the listing is the enumeration with
/// entries left out, the others in enumeration order.
pub proof fn lemma_listing_order(listing: Seq<EntryView>, show_hidden: bool)
    ensures
        ({
            let first = arrange(listing, show_hidden, SortDir::Start);
            forall|i: int, j: int|
                0 <= i < first.len() && 0 <= j < first.len() && first[i].is_dir && !first[j].is_dir
                    ==> i < j
        }),
        ({
            let last = arrange(listing, show_hidden, SortDir::End);
            forall|i: int, j: int|
                0 <= i < last.len() && 0 <= j < last.len() && last[i].is_dir && !last[j].is_dir
                    ==> j < i
        }),
        keeps_order(arrange(listing, show_hidden, SortDir::Unsorted), listing),
{
    broadcast use vstd::seq_lib::group_filter_ensures;

    let kept = visible(listing, show_hidden);
    let dirs = kept.filter(of_kind(true));
    let others = kept.filter(of_kind(false));
    let first = dirs + others;
    let last = others + dirs;
    assert forall|i: int, j: int|
        0 <= i < first.len() && 0 <= j < first.len() && first[i].is_dir
            && !first[j].is_dir implies i < j by {
        if i >= dirs.len() {
            assert(of_kind(false)(others[i - dirs.len()]));
        }
        if j < dirs.len() {
            assert(of_kind(true)(dirs[j]));
        }
    }
    assert forall|i: int, j: int|
        0 <= i < last.len() && 0 <= j < last.len() && last[i].is_dir
            && !last[j].is_dir implies j < i by {
        if i < others.len() {
            assert(of_kind(false)(others[i]));
        }
        if j >= others.len() {
            assert(of_kind(true)(dirs[j - others.len()]));
        }
    }
    lemma_filter_keeps_order(listing, shown(show_hidden));
}

/// The partition by sort mode is stable and loses nothing. Whatever the
/// mode, the directories of the listing are the directories that pass the
/// hidden-file filter, in enumeration order, and so for the other entries;
/// and the listing holds each entry that passes the filter exactly as often as
/// the enumeration does.
pub proof fn lemma_partition_is_stable(
    listing: Seq<EntryView>,
    show_hidden: bool,
    sorting: SortDir,
)
    ensures
        ({
            let kept = visible(listing, show_hidden);
            let listed = arrange(listing, show_hidden, sorting);
            &&& listed.filter(of_kind(true)) == kept.filter(of_kind(true))
            &&& listed.filter(of_kind(false)) == kept.filter(of_kind(false))
            &&& keeps_order(listed.filter(of_kind(true)), listing)
            &&& keeps_order(listed.filter(of_kind(false)), listing)
            &&& listed.to_multiset() == kept.to_multiset()
        }),
{
    broadcast use vstd::seq_lib::group_filter_ensures;

    let kept = visible(listing, show_hidden);
    let dirs = kept.filter(of_kind(true));
    let others = kept.filter(of_kind(false));
    let listed = arrange(listing, show_hidden, sorting);
    assert forall|i: int| 0 <= i < dirs.len() implies of_kind(true)(#[trigger] dirs[i])
        && !of_kind(false)(dirs[i]) by {}
    assert forall|i: int| 0 <= i < others.len() implies of_kind(false)(#[trigger] others[i])
        && !of_kind(true)(others[i]) by {}
    lemma_filter_all_or_none(dirs, of_kind(true));
    lemma_filter_all_or_none(dirs, of_kind(false));
    lemma_filter_all_or_none(others, of_kind(true));
    lemma_filter_all_or_none(others, of_kind(false));
    Seq::filter_distributes_over_add(dirs, others, of_kind(true));
    Seq::filter_distributes_over_add(dirs, others, of_kind(false));
    Seq::filter_distributes_over_add(others, dirs, of_kind(true));
    Seq::filter_distributes_over_add(others, dirs, of_kind(false));
    assert(listed.filter(of_kind(true)) =~= dirs);
    assert(listed.filter(of_kind(false)) =~= others);
    lemma_filter_keeps_order(listing, shown(show_hidden));
    lemma_filter_keeps_order(kept, of_kind(true));
    lemma_filter_keeps_order(kept, of_kind(false));
    lemma_keeps_order_transitive(dirs, kept, listing);
    lemma_keeps_order_transitive(others, kept, listing);
    lemma_partition_keeps_elements(kept);
}

/// The listing holds the entries that pass the hidden-file filter, and no
/// others.
proof fn lemma_listed_are_kept(listing: Seq<EntryView>, show_hidden: bool, sorting: SortDir)
    ensures
        forall|e: EntryView|
            #![trigger arrange(listing, show_hidden, sorting).contains(e)]
            #![trigger visible(listing, show_hidden).contains(e)]
            arrange(listing, show_hidden, sorting).contains(e) <==> visible(
                listing,
                show_hidden,
            ).contains(e),
{
    let kept = visible(listing, show_hidden);
    let listed = arrange(listing, show_hidden, sorting);
    let dirs = kept.filter(of_kind(true));
    let others = kept.filter(of_kind(false));
    assert forall|e: EntryView| listed.contains(e) <==> kept.contains(e) by {
        if listed.contains(e) && sorting != SortDir::Unsorted {
            vstd::seq_lib::lemma_seq_concat_contains_all_elements(dirs, others, e);
            vstd::seq_lib::lemma_seq_concat_contains_all_elements(others, dirs, e);
            if dirs.contains(e) {
                kept.lemma_filter_contains_rev(of_kind(true), e);
            } else {
                kept.lemma_filter_contains_rev(of_kind(false), e);
            }
        }
        if kept.contains(e) && sorting != SortDir::Unsorted {
            let k = choose|k: int| 0 <= k < kept.len() && kept[k] == e;
            if e.is_dir {
                kept.lemma_filter_contains(of_kind(true), k);
            } else {
                kept.lemma_filter_contains(of_kind(false), k);
            }
            vstd::seq_lib::lemma_seq_concat_contains_all_elements(dirs, others, e);
            vstd::seq_lib::lemma_seq_concat_contains_all_elements(others, dirs, e);
        }
    }
}

/// What the hidden-file flag does to a listing. With the flag off, no entry
/// listed has a hidden name, and every entry of the enumeration whose name is
/// not hidden is listed. With the flag on, nothing is left out: the listing
/// holds each entry exactly as often as the enumeration does.
pub proof fn lemma_hidden_filter(listing: Seq<EntryView>, sorting: SortDir)
    ensures
        ({
            let listed = arrange(listing, false, sorting);
            &&& forall|i: int| 0 <= i < listed.len() ==> !is_hidden_name(#[trigger] listed[i].name)
            &&& forall|i: int|
                0 <= i < listing.len() && !is_hidden_name(listing[i].name)
                    ==> listed.contains(#[trigger] listing[i])
        }),
        visible(listing, true) == listing,
        arrange(listing, true, sorting).to_multiset() == listing.to_multiset(),
{
    let kept = visible(listing, false);
    let listed = arrange(listing, false, sorting);
    assert forall|i: int| 0 <= i < listed.len() implies !is_hidden_name(
        #[trigger] listed[i].name,
    ) by {
        lemma_listed_are_kept(listing, false, sorting);
        assert(listed.contains(listed[i]));
        assert(kept.contains(listed[i]));
        let k = choose|k: int| 0 <= k < kept.len() && kept[k] == listed[i];
        listing.lemma_filter_pred(shown(false), k);
    }
    assert forall|i: int|
        0 <= i < listing.len() && !is_hidden_name(listing[i].name) implies listed.contains(
        #[trigger] listing[i],
    ) by {
        lemma_listed_are_kept(listing, false, sorting);
        listing.lemma_filter_contains(shown(false), i);
        assert(kept.contains(listing[i]));
    }
    assert(visible(listing, true) == listing) by {
        lemma_filter_all_or_none(listing, shown(true));
    }
    assert(arrange(listing, true, sorting).to_multiset() == listing.to_multiset()) by {
        lemma_filter_all_or_none(listing, shown(true));
        lemma_partition_keeps_elements(listing);
    }
}

} // verus!
