//! The selection state machine: toggling items and features, applying
//! enrichment results, and reconciling the to-install list with the current
//! selection flags.

use vstd::prelude::*;
use vstd::std_specs::vec::vec_index_mut;

use crate::dependency_builder::{record_of, CrateToAdd, CrateToAddView};
use crate::view::app::{select_if_features_selected_spec, App};
use crate::view::widgets::{flipped, some_feature_selected, CrateItemList, CrateItemView,
    FeatureItemList, FeatureItemView, ItemListStatus};

verus! {

/// `c` with its selection status flipped and everything else unchanged.
pub open spec fn toggled_item(c: CrateItemView) -> CrateItemView {
    CrateItemView { status: flipped(c.status), ..c }
}

/// Flips the selection status of one listed crate; nothing else changes.
pub fn toggle_status_one_crate(crate_selected: &mut CrateItemList)
    ensures
        final(crate_selected)@ == toggled_item(old(crate_selected)@),
{
    match crate_selected.status {
        ItemListStatus::Selected => {
            crate_selected.status = ItemListStatus::Unselected;
        },
        ItemListStatus::Unselected => {
            crate_selected.status = ItemListStatus::Selected;
        },
    }
}

/// Flips the selection status of every listed crate in the list.
pub fn toggle_status_all(crates: &mut Vec<CrateItemList>)
    ensures
        final(crates).deep_view() == old(crates).deep_view().map_values(
            |c: CrateItemView| toggled_item(c),
        ),
{
    let ghost all = crates.deep_view();
    let mut i: usize = 0;
    while i < crates.len()
        invariant
            i <= crates.len(),
            crates@.len() == all.len(),
            forall|k: int| i <= k < all.len() ==> crates.deep_view()[k] == all[k],
            forall|k: int| 0 <= k < i ==> crates.deep_view()[k] == toggled_item(all[k]),
        decreases crates@.len() - i,
    {
        let ghost pre = *crates;
        let item = vec_index_mut(crates, i);
        toggle_status_one_crate(item);
        proof {
            assert(crates@ == pre@.update(i as int, crates@[i as int]));
            assert forall|k: int| 0 <= k < crates@.len() implies crates.deep_view()[k] == (if k
                == i {
                toggled_item(all[k])
            } else {
                pre.deep_view()[k]
            }) by {
                assert(crates.deep_view()[k] == crates@[k].deep_view());
                assert(pre.deep_view()[k] == pre@[k].deep_view());
            }
        }
        i = i + 1;
    }
    proof {
        assert(crates.deep_view() =~= all.map_values(|c: CrateItemView| toggled_item(c)));
    }
}

/// `c` after toggling the feature under the cursor: if the feature list is
/// absent, or the cursor is absent or out of range, nothing changes.
pub open spec fn toggle_feature_spec(c: CrateItemView, cursor: Option<usize>) -> CrateItemView {
    match (cursor, c.features) {
        (Option::Some(i), Option::Some(fs)) => if (i as int) < fs.len() {
            CrateItemView {
                features: Option::Some(
                    fs.update(
                        i as int,
                        FeatureItemView { name: fs[i as int].name, status: flipped(fs[i as int].status) },
                    ),
                ),
                ..c
            }
        } else {
            c
        },
        _ => c,
    }
}

/// Flips the status of the feature under the cursor.
///
/// If the crate's feature list has not been loaded (`features == None`), or
/// the cursor points nowhere, the call silently changes nothing.
pub fn toggle_one_feature(current_crate: &mut CrateItemList, features_cursor: Option<usize>)
    ensures
        final(current_crate)@ == toggle_feature_spec(old(current_crate)@, features_cursor),
        old(current_crate).features.is_none() ==> final(current_crate)@ == old(current_crate)@,
{
    let index = match features_cursor {
        Option::Some(i) => i,
        Option::None => {
            return ;
        },
    };
    match &mut current_crate.features {
        Option::Some(current_crate_features) => {
            let ghost fs = current_crate_features.deep_view();
            if index < current_crate_features.len() {
                let feature = vec_index_mut(current_crate_features, index);
                match feature.status {
                    ItemListStatus::Selected => {
                        feature.status = ItemListStatus::Unselected;
                    },
                    ItemListStatus::Unselected => {
                        feature.status = ItemListStatus::Selected;
                    },
                }
                proof {
                    assert(current_crate_features.deep_view() =~= fs.update(
                        index as int,
                        FeatureItemView {
                            name: fs[index as int].name,
                            status: flipped(fs[index as int].status),
                        },
                    ));
                }
            }
        },
        Option::None => {},
    }
}

/// `c` once an enrichment result `feats` has been applied: loading is over,
/// and a reported feature list replaces the old one; an empty report
/// (`None`) leaves the feature list as it was.
pub open spec fn loaded_item(c: CrateItemView, feats: Option<Seq<FeatureItemView>>) -> CrateItemView {
    CrateItemView {
        is_loading: false,
        features: match feats {
            Option::Some(f) => Option::Some(f),
            Option::None => c.features,
        },
        ..c
    }
}

/// Applies an enrichment result to the crate at `index_crate_to_update`.
pub fn load_features(
    crates_list: &mut Vec<CrateItemList>,
    index_crate_to_update: usize,
    features: Option<Vec<FeatureItemList>>,
)
    requires
        index_crate_to_update < old(crates_list)@.len(),
    ensures
        final(crates_list).deep_view() == old(crates_list).deep_view().update(
            index_crate_to_update as int,
            loaded_item(
                old(crates_list).deep_view()[index_crate_to_update as int],
                features.deep_view(),
            ),
        ),
{
    let ghost all = old(crates_list).deep_view();
    let item = vec_index_mut(crates_list, index_crate_to_update);
    item.is_loading = false;
    match features {
        Option::Some(feat) => {
            item.features = Option::Some(feat);
        },
        Option::None => {},
    }
    proof {
        assert(crates_list.deep_view() =~= all.update(
            index_crate_to_update as int,
            loaded_item(all[index_crate_to_update as int], features.deep_view()),
        ));
    }
}

/// Whether any feature in the list is marked selected.
fn any_feature_selected_exec(features: &Vec<FeatureItemList>) -> (r: bool)
    ensures
        r == some_feature_selected(features.deep_view()),
{
    let ghost fs = features.deep_view();
    let mut k: usize = 0;
    while k < features.len()
        invariant
            k <= features.len(),
            fs == features.deep_view(),
            fs.len() == features@.len(),
            forall|j: int| 0 <= j < k ==> fs[j].status != ItemListStatus::Selected,
        decreases features@.len() - k,
    {
        match features[k].status {
            ItemListStatus::Selected => {
                proof {
                    assert(fs[k as int].status == ItemListStatus::Selected);
                }
                return true;
            },
            ItemListStatus::Unselected => {},
        }
        k = k + 1;
    }
    false
}

/// Marks the item under the cursor as selected when at least one of its
/// features is selected but the item itself is not: choosing a feature
/// implies wanting the crate.
pub fn select_crate_if_features_are_selected(app: &mut App)
    requires
        old(app)@.wf(),
    ensures
        final(app)@ == select_if_features_selected_spec(old(app)@),
        final(app)@.wf(),
{
    match app.get_current_crate_selected() {
        Option::Some(pair) => {
            let (crate_selected, index_current_crate) = pair;
            let any = match &crate_selected.features {
                Option::Some(fs) => any_feature_selected_exec(fs),
                Option::None => false,
            };
            let unselected = match crate_selected.status {
                ItemListStatus::Selected => false,
                ItemListStatus::Unselected => true,
            };
            if any && unselected {
                let list_index = app.crate_categories.index();
                let ghost pre = app.crate_lists.deep_view();
                let ghost pre_list = pre[list_index as int];
                let list = vec_index_mut(&mut app.crate_lists, list_index);
                let item = vec_index_mut(list, index_current_crate);
                item.status = ItemListStatus::Selected;
                proof {
                    assert forall|k: int| 0 <= k < list@.len() implies list.deep_view()[k] == (
                    if k == index_current_crate {
                        CrateItemView { status: ItemListStatus::Selected, ..pre_list[k] }
                    } else {
                        pre_list[k]
                    }) by {
                        assert(list.deep_view()[k] == list@[k].deep_view());
                    }
                    assert(list.deep_view() =~= pre_list.update(
                        index_current_crate as int,
                        CrateItemView {
                            status: ItemListStatus::Selected,
                            ..pre_list[index_current_crate as int]
                        },
                    ));
                    assert forall|k: int| 0 <= k < app.crate_lists@.len() implies
                        app.crate_lists.deep_view()[k] == (if k == list_index {
                        list.deep_view()
                    } else {
                        pre[k]
                    }) by {
                        assert(app.crate_lists.deep_view()[k] == app.crate_lists@[k].deep_view());
                    }
                    assert(app.crate_lists.deep_view() =~= pre.update(
                        list_index as int,
                        pre_list.update(
                            index_current_crate as int,
                            CrateItemView {
                                status: ItemListStatus::Selected,
                                ..pre_list[index_current_crate as int]
                            },
                        ),
                    ));
                }
            }
        },
        Option::None => {},
    }
}

/// Holds of the records whose crate name is not `name`; removal keeps them.
pub open spec fn not_named(name: Seq<char>) -> spec_fn(CrateToAddView) -> bool {
    |r: CrateToAddView| r.crate_name != name
}

/// The position of the first record named `name`, or `-1` if there is none.
pub open spec fn find_record(records: Seq<CrateToAddView>, name: Seq<char>) -> int
    decreases records.len(),
{
    if records.len() == 0 {
        -1
    } else if records[0].crate_name == name {
        0
    } else {
        let rest = find_record(records.drop_first(), name);
        if rest == -1 {
            -1
        } else {
            rest + 1
        }
    }
}

/// What `find_record` returns: `-1` exactly when no record is named `name`,
/// and otherwise the first position that is.
pub proof fn lemma_find_record(records: Seq<CrateToAddView>, name: Seq<char>)
    ensures
        find_record(records, name) == -1 ==> (forall|i: int|
            0 <= i < records.len() ==> records[i].crate_name != name),
        find_record(records, name) != -1 ==> 0 <= find_record(records, name) < records.len()
            && records[find_record(records, name)].crate_name == name && (forall|i: int|
            0 <= i < find_record(records, name) ==> records[i].crate_name != name),
    decreases records.len(),
{
    if records.len() > 0 {
        let rest = records.drop_first();
        lemma_find_record(rest, name);
        assert(forall|i: int| 0 <= i < rest.len() ==> rest[i] == records[i + 1]);
        if records[0].crate_name != name {
            let r = find_record(rest, name);
            if r == -1 {
                assert forall|i: int| 0 <= i < records.len() implies records[i].crate_name
                    != name by {
                    if i > 0 {
                        assert(records[i] == rest[i - 1]);
                    }
                }
            } else {
                assert(records[r + 1] == rest[r]);
                assert forall|i: int| 0 <= i < r + 1 implies records[i].crate_name != name by {
                    if i > 0 {
                        assert(records[i] == rest[i - 1]);
                    }
                }
            }
        }
    }
}

/// The to-install list after one listed crate has been accounted for:
/// a selected crate updates its existing record or gains a fresh one at the
/// end; an unselected crate loses every record bearing its name.
pub open spec fn reconcile_step(records: Seq<CrateToAddView>, c: CrateItemView) -> Seq<
    CrateToAddView,
> {
    if c.status == ItemListStatus::Selected {
        let i = find_record(records, c.name);
        if i == -1 {
            records.push(record_of(c))
        } else {
            records.update(i, record_of(c))
        }
    } else {
        records.filter(not_named(c.name))
    }
}

/// The to-install list reconciled against a list of crates, first to last.
pub open spec fn reconcile(records: Seq<CrateToAddView>, items: Seq<CrateItemView>) -> Seq<
    CrateToAddView,
> {
    items.fold_left(records, |acc: Seq<CrateToAddView>, c: CrateItemView| reconcile_step(acc, c))
}

/// Reconciling against one more crate is one more `reconcile_step`.
pub proof fn lemma_reconcile_push(
    records: Seq<CrateToAddView>,
    items: Seq<CrateItemView>,
    c: CrateItemView,
)
    ensures
        reconcile(records, items.push(c)) == reconcile_step(reconcile(records, items), c),
{
    assert(items.push(c).drop_last() =~= items);
    assert(items.push(c).last() == c);
}

pub(crate) proof fn lemma_filter_push<A>(s: Seq<A>, x: A, pred: spec_fn(A) -> bool)
    ensures
        s.push(x).filter(pred) == (if pred(x) {
            s.filter(pred).push(x)
        } else {
            s.filter(pred)
        }),
{
    reveal(Seq::filter);
    assert(s.push(x).drop_last() =~= s);
    assert(s.push(x).last() == x);
}

/// The position of the first record in `records` whose name is `name`.
fn position_of_crate(records: &Vec<CrateToAdd>, name: &String) -> (pos: Option<usize>)
    ensures
        match pos {
            Option::Some(i) => i < records@.len() && i == find_record(records.deep_view(), name@),
            Option::None => find_record(records.deep_view(), name@) == -1,
        },
{
    let ghost all = records.deep_view();
    let mut j: usize = 0;
    while j < records.len()
        invariant
            j <= records.len(),
            all == records.deep_view(),
            all.len() == records@.len(),
            forall|k: int| 0 <= k < j ==> all[k].crate_name != name@,
        decreases records@.len() - j,
    {
        if records[j].crate_name == *name {
            proof {
                lemma_find_record(all, name@);
                assert(all[j as int].crate_name == name@);
            }
            return Option::Some(j);
        }
        j = j + 1;
    }
    proof {
        lemma_find_record(all, name@);
    }
    Option::None
}

/// Removes every record named `name` from the list, keeping the rest in
/// order.
fn remove_crate_by_name(records: &mut Vec<CrateToAdd>, name: &String)
    ensures
        final(records).deep_view() == old(records).deep_view().filter(not_named(name@)),
{
    let ghost all = old(records).deep_view();
    let ghost pred = not_named(name@);
    let mut kept: Vec<CrateToAdd> = Vec::new();
    let mut j: usize = 0;
    proof {
        reveal(Seq::filter);
        assert(all.take(0) =~= Seq::<CrateToAddView>::empty());
        assert(kept.deep_view() =~= all.take(0).filter(pred));
    }
    while j < records.len()
        invariant
            j <= records.len(),
            all == records.deep_view(),
            all.len() == records@.len(),
            pred == not_named(name@),
            kept.deep_view() == all.take(j as int).filter(pred),
        decreases records@.len() - j,
    {
        proof {
            assert(all.take(j + 1) =~= all.take(j as int).push(all[j as int]));
            lemma_filter_push(all.take(j as int), all[j as int], pred);
        }
        if records[j].crate_name != *name {
            kept.push(records[j].clone());
            proof {
                assert(kept.deep_view() =~= all.take(j as int).filter(pred).push(all[j as int]));
            }
        }
        j = j + 1;
    }
    proof {
        assert(all.take(records@.len() as int) =~= all);
    }
    *records = kept;
}

/// The crate names of a to-install list, in order.
pub open spec fn record_names(records: Seq<CrateToAddView>) -> Seq<Seq<char>> {
    records.map_values(|r: CrateToAddView| r.crate_name)
}

/// `find_record` looks only at the names.
proof fn lemma_find_record_names_only(
    a: Seq<CrateToAddView>,
    b: Seq<CrateToAddView>,
    name: Seq<char>,
)
    requires
        record_names(a) == record_names(b),
    ensures
        find_record(a, name) == find_record(b, name),
    decreases a.len(),
{
    assert(record_names(a).len() == a.len());
    assert(record_names(b).len() == b.len());
    if a.len() > 0 {
        assert(a[0].crate_name == record_names(a)[0]);
        assert(b[0].crate_name == record_names(b)[0]);
        assert(record_names(a.drop_first()) =~= record_names(a).drop_first());
        assert(record_names(b.drop_first()) =~= record_names(b).drop_first());
        lemma_find_record_names_only(a.drop_first(), b.drop_first(), name);
    }
}

/// How `find_record` behaves across a `push`: an existing first match
/// stays; otherwise the pushed record is found exactly when it matches.
proof fn lemma_find_record_push(records: Seq<CrateToAddView>, x: CrateToAddView, name: Seq<char>)
    ensures
        find_record(records.push(x), name) == (if find_record(records, name) != -1 {
            find_record(records, name)
        } else if x.crate_name == name {
            records.len() as int
        } else {
            -1
        }),
    decreases records.len(),
{
    let p = records.push(x);
    assert(p.len() == records.len() + 1);
    if records.len() == 0 {
        assert(p[0] == x);
        assert(p.drop_first() =~= Seq::<CrateToAddView>::empty());
        assert(find_record(Seq::<CrateToAddView>::empty(), name) == -1);
        assert(find_record(records, name) == -1);
        if x.crate_name == name {
            assert(find_record(p, name) == 0);
        } else {
            assert(find_record(p, name) == -1);
        }
    } else {
        assert(p[0] == records[0]);
        assert(p.drop_first() =~= records.drop_first().push(x));
        lemma_find_record_push(records.drop_first(), x, name);
        let fr_tail = find_record(records.drop_first(), name);
        lemma_find_record(records.drop_first(), name);
        if records[0].crate_name == name {
            assert(find_record(p, name) == 0);
            assert(find_record(records, name) == 0);
        } else {
            let rest = find_record(records.drop_first().push(x), name);
            assert(find_record(p.drop_first(), name) == rest);
            assert(find_record(p, name) == (if rest == -1 {
                -1
            } else {
                rest + 1
            }));
            assert(find_record(records, name) == (if fr_tail == -1 {
                -1
            } else {
                fr_tail + 1
            }));
            if fr_tail != -1 {
                assert(rest == fr_tail);
                assert(fr_tail >= 0);
            } else if x.crate_name == name {
                assert(rest == records.drop_first().len());
                assert(rest >= 0);
                assert(find_record(p, name) == records.len());
            } else {
                assert(rest == -1);
            }
        }
    }
}

/// How `find_record` behaves across removal of the records named
/// `banned`: for any other name, the first match survives unchanged.
proof fn lemma_find_record_filter(records: Seq<CrateToAddView>, name: Seq<char>, banned: Seq<char>)
    requires
        name != banned,
    ensures
        find_record(records, name) == -1 ==> find_record(
            records.filter(not_named(banned)),
            name,
        ) == -1,
        find_record(records, name) != -1 ==> find_record(records.filter(not_named(banned)), name)
            != -1 && records.filter(not_named(banned))[find_record(
            records.filter(not_named(banned)),
            name,
        )] == records[find_record(records, name)],
    decreases records.len(),
{
    reveal(Seq::filter);
    let pred = not_named(banned);
    if records.len() == 0 {
    } else {
        let r0 = records[0];
        let rest = records.drop_first();
        assert(records =~= seq![r0] + rest);
        Seq::filter_distributes_over_add(seq![r0], rest, pred);
        assert(seq![r0].drop_last() =~= Seq::<CrateToAddView>::empty());
        assert(seq![r0].last() == r0);
        assert(Seq::<CrateToAddView>::empty().filter(pred) =~= Seq::<CrateToAddView>::empty());
        assert(seq![r0].filter(pred) == (if pred(r0) {
            Seq::<CrateToAddView>::empty().push(r0)
        } else {
            Seq::<CrateToAddView>::empty()
        }));
        assert(seq![r0] =~= Seq::<CrateToAddView>::empty().push(r0));
        lemma_find_record_filter(rest, name, banned);
        lemma_find_record(rest, name);
        let f = records.filter(pred);
        if r0.crate_name == name {
            assert(pred(r0));
            assert(seq![r0].filter(pred) == seq![r0]);
            assert(f == seq![r0] + rest.filter(pred));
            assert(f[0] == r0);
            assert(find_record(f, name) == 0);
            assert(find_record(records, name) == 0);
        } else {
            let fr = find_record(rest, name);
            assert(find_record(records, name) == (if fr == -1 {
                -1
            } else {
                fr + 1
            }));
            if pred(r0) {
                assert(seq![r0].filter(pred) == seq![r0]);
                assert(f == seq![r0] + rest.filter(pred));
                assert(f[0] == r0);
                assert(f.drop_first() =~= rest.filter(pred));
                let ff = find_record(rest.filter(pred), name);
                assert(find_record(f, name) == (if ff == -1 {
                    -1
                } else {
                    ff + 1
                }));
                if fr != -1 {
                    lemma_find_record(rest.filter(pred), name);
                    assert(0 <= ff < rest.filter(pred).len());
                    assert(f[ff + 1] == rest.filter(pred)[ff]);
                    assert(0 <= fr < rest.len());
                    assert(records[fr + 1] == rest[fr]);
                }
            } else {
                assert(seq![r0].filter(pred) == Seq::<CrateToAddView>::empty());
                assert(f =~= rest.filter(pred));
                if fr != -1 {
                    assert(0 <= fr < rest.len());
                    assert(records[fr + 1] == rest[fr]);
                }
            }
        }
    }
}

/// A record in sync with a listed crate: a selected crate's first record
/// carries exactly its current selection, an unselected crate has none.
pub open spec fn synced(records: Seq<CrateToAddView>, c: CrateItemView) -> bool {
    if c.status == ItemListStatus::Selected {
        find_record(records, c.name) != -1 && records[find_record(records, c.name)] == record_of(
            c,
        )
    } else {
        find_record(records, c.name) == -1
    }
}

/// One reconciliation step leaves the stepped crate in sync.
proof fn lemma_step_synced(records: Seq<CrateToAddView>, c: CrateItemView)
    ensures
        synced(reconcile_step(records, c), c),
{
    lemma_find_record(records, c.name);
    if c.status == ItemListStatus::Selected {
        let i = find_record(records, c.name);
        if i == -1 {
            lemma_find_record_push(records, record_of(c), c.name);
        } else {
            let updated = records.update(i, record_of(c));
            assert(record_names(updated) =~= record_names(records));
            lemma_find_record_names_only(updated, records, c.name);
        }
    } else {
        let f = records.filter(not_named(c.name));
        if find_record(f, c.name) != -1 {
            lemma_find_record(f, c.name);
            Seq::lemma_filter_pred(records, not_named(c.name), find_record(f, c.name));
            assert(false);
        }
    }
}

/// A reconciliation step for one crate does not disturb the record of a
/// crate with a different name.
proof fn lemma_step_preserves_synced(
    records: Seq<CrateToAddView>,
    c: CrateItemView,
    other: CrateItemView,
)
    requires
        synced(records, other),
        other.name != c.name,
    ensures
        synced(reconcile_step(records, c), other),
{
    lemma_find_record(records, c.name);
    lemma_find_record(records, other.name);
    if c.status == ItemListStatus::Selected {
        let i = find_record(records, c.name);
        if i == -1 {
            lemma_find_record_push(records, record_of(c), other.name);
        } else {
            let updated = records.update(i, record_of(c));
            assert(record_names(updated) =~= record_names(records));
            lemma_find_record_names_only(updated, records, other.name);
            if other.status == ItemListStatus::Selected {
                let j = find_record(records, other.name);
                assert(records[i].crate_name == c.name);
                assert(records[j].crate_name == other.name);
                assert(i != j);
            }
        }
    } else {
        lemma_find_record_filter(records, other.name, c.name);
    }
}

/// Removal keeps a list in which every record is kept.
proof fn lemma_filter_all_kept(records: Seq<CrateToAddView>, pred: spec_fn(CrateToAddView) -> bool)
    requires
        forall|i: int| 0 <= i < records.len() ==> pred(#[trigger] records[i]),
    ensures
        records.filter(pred) == records,
    decreases records.len(),
{
    reveal(Seq::filter);
    if records.len() > 0 {
        assert(forall|i: int|
            0 <= i < records.drop_last().len() ==> #[trigger] records.drop_last()[i]
                == records[i]);
        lemma_filter_all_kept(records.drop_last(), pred);
        assert(records.filter(pred) =~= records);
    }
}

/// A step for a crate already in sync changes nothing.
proof fn lemma_step_identity(records: Seq<CrateToAddView>, c: CrateItemView)
    requires
        synced(records, c),
    ensures
        reconcile_step(records, c) == records,
{
    lemma_find_record(records, c.name);
    if c.status == ItemListStatus::Selected {
        let i = find_record(records, c.name);
        assert(records.update(i, record_of(c)) =~= records);
    } else {
        assert forall|i: int| 0 <= i < records.len() implies not_named(c.name)(
            #[trigger] records[i],
        ) by {}
        lemma_filter_all_kept(records, not_named(c.name));
    }
}

/// Law: after reconciling a list of crates with pairwise distinct names,
/// every one of them is in sync with the resulting to-install list — a
/// selected crate has a record carrying exactly its currently selected
/// feature names, an unselected crate has no record at all.
pub proof fn lemma_reconcile_all_synced(init: Seq<CrateToAddView>, items: Seq<CrateItemView>)
    requires
        items.map_values(|c: CrateItemView| c.name).no_duplicates(),
    ensures
        forall|k: int|
            0 <= k < items.len() ==> synced(reconcile(init, items), #[trigger] items[k]),
    decreases items.len(),
{
    let names = items.map_values(|c: CrateItemView| c.name);
    assert(names.len() == items.len());
    if items.len() > 0 {
        let prev = items.drop_last();
        let c = items.last();
        assert(prev.map_values(|x: CrateItemView| x.name) =~= names.drop_last());
        assert(forall|i: int, j: int|
            (0 <= i < names.drop_last().len() && 0 <= j < names.drop_last().len() && i != j)
                ==> names.drop_last()[i] != names.drop_last()[j]);
        lemma_reconcile_all_synced(init, prev);
        let before = reconcile(init, prev);
        assert(reconcile(init, items) == reconcile_step(before, c));
        assert forall|k: int| 0 <= k < items.len() implies synced(
            reconcile(init, items),
            #[trigger] items[k],
        ) by {
            if k == items.len() - 1 {
                lemma_step_synced(before, c);
            } else {
                assert(prev[k] == items[k]);
                assert(names[k] == items[k].name);
                assert(names[items.len() - 1] == c.name);
                assert(items[k].name != c.name);
                lemma_step_preserves_synced(before, c, items[k]);
            }
        }
    }
}

/// Reconciling against crates that are all in sync changes nothing.
proof fn lemma_reconcile_fixed(records: Seq<CrateToAddView>, items: Seq<CrateItemView>)
    requires
        forall|k: int| 0 <= k < items.len() ==> synced(records, #[trigger] items[k]),
    ensures
        reconcile(records, items) == records,
    decreases items.len(),
{
    if items.len() > 0 {
        let prev = items.drop_last();
        let c = items.last();
        assert(forall|k: int| 0 <= k < prev.len() ==> prev[k] == items[k]);
        lemma_reconcile_fixed(records, prev);
        assert(reconcile(records, items) == reconcile_step(reconcile(records, prev), c));
        assert(items[items.len() - 1] == c);
        lemma_step_identity(records, c);
    }
}

/// Law: reconciliation is idempotent. Reconciling a list of crates with
/// pairwise distinct names — as every category's list has — twice in a
/// row, with no toggles in between, gives the same to-install list as
/// reconciling it once.
pub proof fn lemma_reconcile_idempotent(init: Seq<CrateToAddView>, items: Seq<CrateItemView>)
    requires
        items.map_values(|c: CrateItemView| c.name).no_duplicates(),
    ensures
        reconcile(reconcile(init, items), items) == reconcile(init, items),
{
    lemma_reconcile_all_synced(init, items);
    lemma_reconcile_fixed(reconcile(init, items), items);
}

/// Every record that removal keeps was in the list before.
proof fn lemma_filter_elements_contained(
    records: Seq<CrateToAddView>,
    pred: spec_fn(CrateToAddView) -> bool,
)
    ensures
        forall|k: int|
            0 <= k < records.filter(pred).len() ==> records.contains(
                #[trigger] records.filter(pred)[k],
            ),
    decreases records.len(),
{
    reveal(Seq::filter);
    if records.len() > 0 {
        let prefix = records.drop_last();
        lemma_filter_elements_contained(prefix, pred);
        assert forall|k: int| 0 <= k < records.filter(pred).len() implies records.contains(
            #[trigger] records.filter(pred)[k],
        ) by {
            let f = records.filter(pred);
            if pred(records.last()) {
                if k < f.len() - 1 {
                    assert(f[k] == prefix.filter(pred)[k]);
                    let j = choose|j: int|
                        0 <= j < prefix.len() && prefix[j] == prefix.filter(pred)[k];
                    assert(records[j] == f[k]);
                } else {
                    assert(f[k] == records.last());
                    assert(records[records.len() - 1] == records.last());
                }
            } else {
                assert(f[k] == prefix.filter(pred)[k]);
                let j = choose|j: int|
                    0 <= j < prefix.len() && prefix[j] == prefix.filter(pred)[k];
                assert(records[j] == f[k]);
            }
        }
    }
}

/// Removal keeps the record names pairwise distinct.
proof fn lemma_filter_no_duplicate_names(
    records: Seq<CrateToAddView>,
    pred: spec_fn(CrateToAddView) -> bool,
)
    requires
        record_names(records).no_duplicates(),
    ensures
        record_names(records.filter(pred)).no_duplicates(),
    decreases records.len(),
{
    reveal(Seq::filter);
    if records.len() > 0 {
        let prefix = records.drop_last();
        let names = record_names(records);
        assert(record_names(prefix) =~= names.drop_last());
        assert(forall|i: int, j: int|
            (0 <= i < names.drop_last().len() && 0 <= j < names.drop_last().len() && i != j)
                ==> names.drop_last()[i] != names.drop_last()[j]);
        lemma_filter_no_duplicate_names(prefix, pred);
        if pred(records.last()) {
            let f = records.filter(pred);
            let pf = prefix.filter(pred);
            assert(f == pf.push(records.last()));
            lemma_filter_elements_contained(prefix, pred);
            assert forall|i: int, j: int|
                (0 <= i < record_names(f).len() && 0 <= j < record_names(f).len() && i != j)
                    implies record_names(f)[i] != record_names(f)[j] by {
                let lo = if i < j {
                    i
                } else {
                    j
                };
                let hi = if i < j {
                    j
                } else {
                    i
                };
                if hi == f.len() - 1 {
                    assert(f[lo] == pf[lo]);
                    assert(prefix.contains(pf[lo]));
                    let w = choose|w: int| 0 <= w < prefix.len() && prefix[w] == pf[lo];
                    assert(names[w] == pf[lo].crate_name);
                    assert(names[records.len() - 1] == records.last().crate_name);
                    assert(names[w] != names[records.len() - 1]);
                } else {
                    assert(record_names(pf)[lo] != record_names(pf)[hi]);
                }
            }
        }
    }
}

/// One reconciliation step keeps the record names pairwise distinct.
proof fn lemma_step_no_duplicate_names(records: Seq<CrateToAddView>, c: CrateItemView)
    requires
        record_names(records).no_duplicates(),
    ensures
        record_names(reconcile_step(records, c)).no_duplicates(),
{
    lemma_find_record(records, c.name);
    if c.status == ItemListStatus::Selected {
        let i = find_record(records, c.name);
        if i == -1 {
            let pushed = records.push(record_of(c));
            assert(record_names(pushed) =~= record_names(records).push(c.name));
            assert forall|a: int, b: int|
                (0 <= a < record_names(pushed).len() && 0 <= b < record_names(pushed).len() && a
                    != b) implies record_names(pushed)[a] != record_names(pushed)[b] by {
                let lo = if a < b {
                    a
                } else {
                    b
                };
                let hi = if a < b {
                    b
                } else {
                    a
                };
                if hi == records.len() {
                    assert(records[lo].crate_name != c.name);
                    assert(record_names(pushed)[lo] == records[lo].crate_name);
                }
            }
        } else {
            assert(record_names(records.update(i, record_of(c))) =~= record_names(records));
        }
    } else {
        lemma_filter_no_duplicate_names(records, not_named(c.name));
    }
}

/// Law: the to-install list never holds two records with the same crate
/// name. Starting from a list whose names are pairwise distinct — the
/// empty list the browser starts with included — any number of
/// reconciliations, after any toggles, keeps them pairwise distinct.
pub proof fn lemma_reconcile_no_duplicate_names(
    init: Seq<CrateToAddView>,
    items: Seq<CrateItemView>,
)
    requires
        record_names(init).no_duplicates(),
    ensures
        record_names(reconcile(init, items)).no_duplicates(),
    decreases items.len(),
{
    if items.len() > 0 {
        let prev = items.drop_last();
        lemma_reconcile_no_duplicate_names(init, prev);
        assert(reconcile(init, items) == reconcile_step(reconcile(init, prev), items.last()));
        lemma_step_no_duplicate_names(reconcile(init, prev), items.last());
    }
}

/// Law: an enrichment result and a selection toggle for the same item
/// commute: the item ends in the same state whichever arrives first.
pub proof fn lemma_load_toggle_commute(c: CrateItemView, feats: Option<Seq<FeatureItemView>>)
    ensures
        toggled_item(loaded_item(c, feats)) == loaded_item(toggled_item(c), feats),
{
}

/// Reconciles the to-install list with the current selection flags of
/// `crates`: afterwards, a selected crate has exactly one up-to-date record
/// and an unselected crate has none (of the crates passed in).
pub fn push_or_remove_crates(crates_to_add: &mut Vec<CrateToAdd>, crates: &Vec<CrateItemList>)
    ensures
        final(crates_to_add).deep_view() == reconcile(
            old(crates_to_add).deep_view(),
            crates.deep_view(),
        ),
{
    let ghost init = old(crates_to_add).deep_view();
    let ghost items = crates.deep_view();
    let mut idx: usize = 0;
    proof {
        assert(items.take(0) =~= Seq::<CrateItemView>::empty());
        assert(reconcile(init, items.take(0)) == init);
    }
    while idx < crates.len()
        invariant
            idx <= crates.len(),
            items == crates.deep_view(),
            items.len() == crates@.len(),
            crates_to_add.deep_view() == reconcile(init, items.take(idx as int)),
        decreases crates@.len() - idx,
    {
        let ghost pre = crates_to_add.deep_view();
        let ghost c = items[idx as int];
        proof {
            assert(items.take(idx + 1) =~= items.take(idx as int).push(c));
            lemma_reconcile_push(init, items.take(idx as int), c);
        }
        let krate = &crates[idx];
        proof {
            assert(c == krate.deep_view());
        }
        match krate.status {
            ItemListStatus::Selected => {
                let crate_to_push_or_update = position_of_crate(crates_to_add, &krate.name);
                match crate_to_push_or_update {
                    Option::Some(index) => {
                        proof {
                            lemma_find_record(pre, krate.name@);
                        }
                        let new_features = match &krate.features {
                            Option::Some(feat) => Option::Some(
                                crate::dependency_builder::selected_features_of(feat),
                            ),
                            Option::None => Option::None,
                        };
                        let record = vec_index_mut(crates_to_add, index);
                        record.features = new_features;
                        proof {
                            assert(record@ == record_of(c));
                            assert(crates_to_add.deep_view() =~= pre.update(
                                index as int,
                                record_of(c),
                            ));
                        }
                    },
                    Option::None => {
                        crates_to_add.push(CrateToAdd::from_item(krate));
                        proof {
                            assert(crates_to_add.deep_view() =~= pre.push(record_of(c)));
                        }
                    },
                }
            },
            ItemListStatus::Unselected => {
                remove_crate_by_name(crates_to_add, &krate.name);
            },
        }
        idx = idx + 1;
    }
    proof {
        assert(items.take(crates@.len() as int) =~= items);
    }
}

} // verus!
