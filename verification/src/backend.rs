//! The catalog tables: per-category lists of recommended crates as the
//! catalog source reports them, and their conversion into the listed items
//! the browser works on.

use vstd::prelude::*;

use crate::view::widgets::{CrateItemList, CrateItemView, FeatureItemList, FeatureItemView,
    ItemListStatus};

verus! {

/// One recommended crate as the catalog lists it.
#[derive(Debug, PartialEq, Eq)]
pub struct Crates {
    pub name: String,
    pub description: String,
    pub features: Option<Vec<String>>,
}

/// The mathematical value of a [`Crates`] entry.
pub ghost struct CratesView {
    pub name: Seq<char>,
    pub description: Seq<char>,
    pub features: Option<Seq<Seq<char>>>,
}

impl View for Crates {
    type V = CratesView;

    open spec fn view(&self) -> CratesView {
        CratesView {
            name: self.name@,
            description: self.description@,
            features: self.features.deep_view(),
        }
    }
}

impl DeepView for Crates {
    type V = CratesView;

    open spec fn deep_view(&self) -> CratesView {
        self.view()
    }
}

/// One row of a catalog table: the crates recommended for one use case.
#[derive(Debug, PartialEq, Eq)]
pub struct TableEntry {
    pub use_case: String,
    pub crates: Vec<Crates>,
}

/// The mathematical value of a [`TableEntry`].
pub ghost struct TableEntryView {
    pub use_case: Seq<char>,
    pub crates: Seq<CratesView>,
}

impl View for TableEntry {
    type V = TableEntryView;

    open spec fn view(&self) -> TableEntryView {
        TableEntryView { use_case: self.use_case@, crates: self.crates.deep_view() }
    }
}

impl DeepView for TableEntry {
    type V = TableEntryView;

    open spec fn deep_view(&self) -> TableEntryView {
        self.view()
    }
}

/// One catalog table: the ordered rows of one category.
#[derive(Debug, PartialEq, Eq)]
pub struct Table {
    pub entries: Vec<TableEntry>,
}

impl View for Table {
    type V = Seq<TableEntryView>;

    open spec fn view(&self) -> Seq<TableEntryView> {
        self.entries.deep_view()
    }
}

/// Clones a list of strings; the copy has the same view.
pub(crate) fn clone_string_list(strings: &Vec<String>) -> (res: Vec<String>)
    ensures
        res.deep_view() == strings.deep_view(),
{
    let res = strings.clone();
    proof {
        assert(res.deep_view() =~= strings.deep_view());
    }
    res
}

impl Clone for Crates {
    fn clone(&self) -> (res: Self)
        ensures
            res@ == self@,
    {
        let features = match &self.features {
            Option::Some(f) => Option::Some(clone_string_list(f)),
            Option::None => Option::None,
        };
        Crates { name: self.name.clone(), description: self.description.clone(), features }
    }
}

fn clone_crates_list(crates: &Vec<Crates>) -> (res: Vec<Crates>)
    ensures
        res.deep_view() == crates.deep_view(),
{
    let res = crates.clone();
    proof {
        assert(res.deep_view() =~= crates.deep_view());
    }
    res
}

impl Clone for TableEntry {
    fn clone(&self) -> (res: Self)
        ensures
            res@ == self@,
    {
        TableEntry { use_case: self.use_case.clone(), crates: clone_crates_list(&self.crates) }
    }
}

fn clone_entries(entries: &Vec<TableEntry>) -> (res: Vec<TableEntry>)
    ensures
        res.deep_view() == entries.deep_view(),
{
    let res = entries.clone();
    proof {
        assert(res.deep_view() =~= entries.deep_view());
    }
    res
}

impl Clone for Table {
    fn clone(&self) -> (res: Self)
        ensures
            res@ == self@,
    {
        Table { entries: clone_entries(&self.entries) }
    }
}

/// The catalog categories whose tables carry no sub-grouping.
#[derive(Debug, Clone, Copy, PartialEq, Eq, Structural)]
pub enum Categories {
    Math,
    FFI,
    Cryptography,
}

/// The catalog categories whose tables are built from sub-groups.
#[derive(Debug, Clone, Copy, PartialEq, Eq, Structural)]
pub enum CategoriesWithSubCategories {
    Common,
    Concurrency,
    Networking,
    Databases,
    Clis,
    Graphics,
}

/// The listed item that one catalog crate becomes: unselected, still
/// loading, with any catalog-provided features listed and unselected.
pub open spec fn item_of(c: CratesView) -> CrateItemView {
    CrateItemView {
        name: c.name,
        description: c.description,
        features: match c.features {
            Option::None => Option::None,
            Option::Some(names) => Option::Some(
                names.map_values(
                    |n: Seq<char>| FeatureItemView { name: n, status: ItemListStatus::Unselected },
                ),
            ),
        },
        status: ItemListStatus::Unselected,
        is_loading: true,
    }
}

/// All the items of a table, rows first to last, crates in row order.
pub open spec fn items_of_entries(entries: Seq<TableEntryView>) -> Seq<CrateItemView>
    decreases entries.len(),
{
    if entries.len() == 0 {
        Seq::empty()
    } else {
        items_of_entries(entries.drop_last()) + entries.last().crates.map_values(
            |c: CratesView| item_of(c),
        )
    }
}

proof fn lemma_items_of_entries_push(entries: Seq<TableEntryView>, e: TableEntryView)
    ensures
        items_of_entries(entries.push(e)) == items_of_entries(entries) + e.crates.map_values(
            |c: CratesView| item_of(c),
        ),
{
    assert(entries.push(e).drop_last() =~= entries);
    assert(entries.push(e).last() == e);
}

/// Builds the unselected feature items for catalog-provided feature names.
pub fn features_from_names(names: &Vec<String>) -> (r: Vec<FeatureItemList>)
    ensures
        r.deep_view() == names.deep_view().map_values(
            |n: Seq<char>| FeatureItemView { name: n, status: ItemListStatus::Unselected },
        ),
{
    let mut r: Vec<FeatureItemList> = Vec::new();
    let mut i: usize = 0;
    while i < names.len()
        invariant
            i <= names.len(),
            names.deep_view().len() == names@.len(),
            r.deep_view() == names.deep_view().take(i as int).map_values(
                |n: Seq<char>| FeatureItemView { name: n, status: ItemListStatus::Unselected },
            ),
        decreases names@.len() - i,
    {
        r.push(FeatureItemList::new(names[i].clone()));
        proof {
            let f = |n: Seq<char>| FeatureItemView { name: n, status: ItemListStatus::Unselected };
            let all = names.deep_view();
            assert(all.take(i + 1) =~= all.take(i as int).push(all[i as int]));
            assert(all.take(i + 1).map_values(f) =~= all.take(i as int).map_values(f).push(
                f(all[i as int]),
            ));
            assert(r.deep_view() =~= all.take(i + 1).map_values(f));
        }
        i = i + 1;
    }
    proof {
        assert(names.deep_view().take(names@.len() as int) =~= names.deep_view());
    }
    r
}

impl Table {
    /// The listed items of this table, in table order: every item starts
    /// unselected and loading, with catalog-provided features unselected.
    pub fn into_item_list(&self) -> (items: Vec<CrateItemList>)
        ensures
            items.deep_view() == items_of_entries(self@),
    {
        let mut items: Vec<CrateItemList> = Vec::new();
        let ghost entries = self@;
        let mut i: usize = 0;
        proof {
            assert(entries.take(0) =~= Seq::<TableEntryView>::empty());
            assert(items.deep_view() =~= items_of_entries(entries.take(0)));
        }
        while i < self.entries.len()
            invariant
                i <= self.entries.len(),
                entries == self@,
                entries.len() == self.entries@.len(),
                items.deep_view() == items_of_entries(entries.take(i as int)),
            decreases self.entries@.len() - i,
        {
            let entry = &self.entries[i];
            let ghost crates = entry.deep_view().crates;
            let ghost done = items.deep_view();
            let mut j: usize = 0;
            proof {
                assert(crates.take(0) =~= Seq::<CratesView>::empty());
                assert(items.deep_view() =~= done + crates.take(0).map_values(
                    |c: CratesView| item_of(c),
                ));
            }
            while j < entry.crates.len()
                invariant
                    j <= entry.crates.len(),
                    crates == entry.deep_view().crates,
                    crates.len() == entry.crates@.len(),
                    items.deep_view() == done + crates.take(j as int).map_values(
                        |c: CratesView| item_of(c),
                    ),
                decreases entry.crates@.len() - j,
            {
                let krate = &entry.crates[j];
                proof {
                    assert(krate.deep_view() == crates[j as int]);
                }
                let features = match &krate.features {
                    Option::Some(names) => Option::Some(features_from_names(names)),
                    Option::None => Option::None,
                };
                let item = CrateItemList::new(
                    krate.name.clone(),
                    krate.description.clone(),
                    ItemListStatus::Unselected,
                    features,
                );
                proof {
                    assert(item@ == item_of(crates[j as int]));
                }
                let ghost before = items.deep_view();
                items.push(item);
                proof {
                    let f = |c: CratesView| item_of(c);
                    assert(crates.take(j + 1) =~= crates.take(j as int).push(crates[j as int]));
                    assert(crates.take(j + 1).map_values(f) =~= crates.take(j as int).map_values(
                        f,
                    ).push(f(crates[j as int])));
                    assert(items.deep_view() =~= before.push(item@));
                    assert(items.deep_view() == done + crates.take(j + 1).map_values(f));
                }
                j = j + 1;
            }
            proof {
                assert(crates.take(entry.crates@.len() as int) =~= crates);
                assert(entries.take(i + 1) =~= entries.take(i as int).push(entries[i as int]));
                lemma_items_of_entries_push(entries.take(i as int), entries[i as int]);
                assert(entries[i as int] == entry.deep_view());
            }
            i = i + 1;
        }
        proof {
            assert(entries.take(self.entries@.len() as int) =~= entries);
        }
        items
    }
}

} // verus!
