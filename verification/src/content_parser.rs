//! Parsing catalog groups into per-category tables, and the interface
//! through which the browser reads them.

pub mod content_parser;
pub mod jsoncontentparser;

use vstd::prelude::*;

use crate::backend::{Categories, CategoriesWithSubCategories, Crates, CratesView, Table,
    TableEntry, TableEntryView};
use crate::scraper::{Group, GroupView, Purpose, PurposeView, Recommendation, RecommendationView,
    SubGroup, SubGroupView};

verus! {

/// How a parsed catalog hands out its per-category tables.
pub trait ContentParser {
    /// The table of generally useful crates.
    spec fn general_table_spec(&self) -> Seq<TableEntryView>;

    /// The table of a category without sub-groups.
    spec fn crates_table_spec(&self, category: Categories) -> Seq<TableEntryView>;

    /// The table of a category built from sub-groups.
    spec fn crates_with_sub_table_spec(&self, category: CategoriesWithSubCategories) -> Seq<
        TableEntryView,
    >;

    fn get_general_crates(&self) -> (t: Table)
        ensures
            t@ == self.general_table_spec(),
    ;

    fn get_crates(&self, category: &Categories) -> (t: Table)
        ensures
            t@ == self.crates_table_spec(*category),
    ;

    fn get_crates_with_sub(&self, category: &CategoriesWithSubCategories) -> (t: Table)
        ensures
            t@ == self.crates_with_sub_table_spec(*category),
    ;
}

/// The catalog crate a recommendation becomes; missing notes turn into a
/// placeholder description.
pub open spec fn crate_of_recommendation(r: RecommendationView) -> CratesView {
    CratesView {
        name: r.name,
        description: match r.notes {
            Option::Some(n) => n,
            Option::None => "No description"@,
        },
        features: Option::None,
    }
}

/// The table row a purpose becomes: its recommendations, in order.
pub open spec fn entry_of_purpose(p: PurposeView) -> TableEntryView {
    TableEntryView {
        use_case: Seq::empty(),
        crates: p.recommendations.map_values(|r: RecommendationView| crate_of_recommendation(r)),
    }
}

/// All the crates recommended across a list of purposes, in order.
pub open spec fn crates_of_purposes(ps: Seq<PurposeView>) -> Seq<CratesView>
    decreases ps.len(),
{
    if ps.len() == 0 {
        Seq::empty()
    } else {
        crates_of_purposes(ps.drop_last()) + ps.last().recommendations.map_values(
            |r: RecommendationView| crate_of_recommendation(r),
        )
    }
}

/// The table row a sub-group becomes: all its purposes' recommendations
/// gathered into one row.
pub open spec fn entry_of_subgroup(sg: SubGroupView) -> TableEntryView {
    TableEntryView {
        use_case: Seq::empty(),
        crates: match sg.purposes {
            Option::Some(ps) => crates_of_purposes(ps),
            Option::None => Seq::empty(),
        },
    }
}

/// The table a catalog group becomes: one row per purpose when the group
/// lists purposes directly, else one row per sub-group, else no rows.
pub open spec fn table_from_group(g: GroupView) -> Seq<TableEntryView> {
    match g.purposes {
        Option::Some(ps) => ps.map_values(|p: PurposeView| entry_of_purpose(p)),
        Option::None => match g.subgroups {
            Option::Some(sgs) => sgs.map_values(|sg: SubGroupView| entry_of_subgroup(sg)),
            Option::None => Seq::empty(),
        },
    }
}

/// Builds the catalog crates of a list of recommendations.
pub(crate) fn crates_of_recommendations(recs: &Vec<Recommendation>) -> (r: Vec<Crates>)
    ensures
        r.deep_view() == recs.deep_view().map_values(
            |rec: RecommendationView| crate_of_recommendation(rec),
        ),
{
    let ghost all = recs.deep_view();
    let ghost f = |rec: RecommendationView| crate_of_recommendation(rec);
    let mut r: Vec<Crates> = Vec::new();
    let mut i: usize = 0;
    proof {
        assert(all.take(0) =~= Seq::<RecommendationView>::empty());
        assert(r.deep_view() =~= all.take(0).map_values(f));
    }
    while i < recs.len()
        invariant
            i <= recs.len(),
            all == recs.deep_view(),
            all.len() == recs@.len(),
            f == (|rec: RecommendationView| crate_of_recommendation(rec)),
            r.deep_view() == all.take(i as int).map_values(f),
        decreases recs@.len() - i,
    {
        let rec = &recs[i];
        let description = match &rec.notes {
            Option::Some(n) => n.clone(),
            Option::None => "No description".to_owned(),
        };
        let krate = Crates { name: rec.name.clone(), description, features: Option::None };
        proof {
            assert(krate@ == f(all[i as int]));
        }
        let ghost before = r.deep_view();
        r.push(krate);
        proof {
            assert(all.take(i + 1) =~= all.take(i as int).push(all[i as int]));
            assert(all.take(i + 1).map_values(f) =~= all.take(i as int).map_values(f).push(
                f(all[i as int]),
            ));
            assert(r.deep_view() =~= before.push(krate@));
            assert(r.deep_view() == all.take(i + 1).map_values(f));
        }
        i = i + 1;
    }
    proof {
        assert(all.take(recs@.len() as int) =~= all);
    }
    r
}

pub(crate) proof fn lemma_crates_of_purposes_push(ps: Seq<PurposeView>, p: PurposeView)
    ensures
        crates_of_purposes(ps.push(p)) == crates_of_purposes(ps) + p.recommendations.map_values(
            |r: RecommendationView| crate_of_recommendation(r),
        ),
{
    assert(ps.push(p).drop_last() =~= ps);
    assert(ps.push(p).last() == p);
}

/// Builds one table row per purpose: its recommendations, in order.
pub(crate) fn entries_of_purposes(purposes: &Vec<Purpose>) -> (entries: Vec<TableEntry>)
    ensures
        entries.deep_view() == purposes.deep_view().map_values(
            |p: PurposeView| entry_of_purpose(p),
        ),
{
    let ghost ps = purposes.deep_view();
    let ghost g = |p: PurposeView| entry_of_purpose(p);
    let mut entries: Vec<TableEntry> = Vec::new();
    let mut i: usize = 0;
    proof {
        assert(ps.take(0) =~= Seq::<PurposeView>::empty());
        assert(entries.deep_view() =~= ps.take(0).map_values(g));
    }
    while i < purposes.len()
        invariant
            i <= purposes.len(),
            ps == purposes.deep_view(),
            ps.len() == purposes@.len(),
            g == (|p: PurposeView| entry_of_purpose(p)),
            entries.deep_view() == ps.take(i as int).map_values(g),
        decreases purposes@.len() - i,
    {
        let purpose = &purposes[i];
        let crates = crates_of_recommendations(&purpose.recommendations);
        let entry = TableEntry { use_case: String::new(), crates };
        proof {
            assert(entry@ == g(ps[i as int]));
        }
        let ghost before = entries.deep_view();
        entries.push(entry);
        proof {
            assert(ps.take(i + 1) =~= ps.take(i as int).push(ps[i as int]));
            assert(ps.take(i + 1).map_values(g) =~= ps.take(i as int).map_values(g).push(
                g(ps[i as int]),
            ));
            assert(entries.deep_view() =~= before.push(entry@));
            assert(entries.deep_view() == ps.take(i + 1).map_values(g));
        }
        i = i + 1;
    }
    proof {
        assert(ps.take(purposes@.len() as int) =~= ps);
    }
    entries
}

/// Gathers the crates of all the purposes into one row's worth of crates.
pub(crate) fn row_crates_of_purposes(purposes: &Vec<Purpose>) -> (crates: Vec<Crates>)
    ensures
        crates.deep_view() == crates_of_purposes(purposes.deep_view()),
{
    let ghost ps = purposes.deep_view();
    let mut crates: Vec<Crates> = Vec::new();
    let mut j: usize = 0;
    proof {
        assert(ps.take(0) =~= Seq::<PurposeView>::empty());
        assert(crates_of_purposes(ps.take(0)) =~= Seq::<CratesView>::empty());
        assert(crates.deep_view() =~= crates_of_purposes(ps.take(0)));
    }
    while j < purposes.len()
        invariant
            j <= purposes.len(),
            ps == purposes.deep_view(),
            ps.len() == purposes@.len(),
            crates.deep_view() == crates_of_purposes(ps.take(j as int)),
        decreases purposes@.len() - j,
    {
        let purpose = &purposes[j];
        let mut more = crates_of_recommendations(&purpose.recommendations);
        let ghost before = crates.deep_view();
        let ghost added = more.deep_view();
        crates.append(&mut more);
        proof {
            assert(ps.take(j + 1) =~= ps.take(j as int).push(ps[j as int]));
            lemma_crates_of_purposes_push(ps.take(j as int), ps[j as int]);
            assert(crates.deep_view() =~= before + added);
            assert(crates.deep_view() == crates_of_purposes(ps.take(j + 1)));
        }
        j = j + 1;
    }
    proof {
        assert(ps.take(purposes@.len() as int) =~= ps);
    }
    crates
}

/// Builds the single table row of one sub-group.
pub(crate) fn subgroup_row(subgroup: &SubGroup) -> (e: TableEntry)
    ensures
        e@ == entry_of_subgroup(subgroup@),
{
    let crates = match &subgroup.purposes {
        Option::Some(purposes) => row_crates_of_purposes(purposes),
        Option::None => {
            let empty: Vec<Crates> = Vec::new();
            proof {
                assert(empty.deep_view() =~= Seq::<CratesView>::empty());
            }
            empty
        },
    };
    let e = TableEntry { use_case: String::new(), crates };
    e
}

impl Table {
    /// The table a catalog group describes.
    pub fn from_group(value: &Group) -> (t: Table)
        ensures
            t@ == table_from_group(value@),
    {
        let entries: Vec<TableEntry> = match &value.purposes {
            Option::Some(purposes) => entries_of_purposes(purposes),
            Option::None => {
                match &value.subgroups {
                    Option::Some(subgroups) => {
                        let ghost sgs = subgroups.deep_view();
                        let ghost g = |sg: SubGroupView| entry_of_subgroup(sg);
                        let mut entries: Vec<TableEntry> = Vec::new();
                        let mut i: usize = 0;
                        proof {
                            assert(sgs.take(0) =~= Seq::<SubGroupView>::empty());
                            assert(entries.deep_view() =~= sgs.take(0).map_values(g));
                        }
                        while i < subgroups.len()
                            invariant
                                i <= subgroups.len(),
                                sgs == subgroups.deep_view(),
                                sgs.len() == subgroups@.len(),
                                g == (|sg: SubGroupView| entry_of_subgroup(sg)),
                                entries.deep_view() == sgs.take(i as int).map_values(g),
                            decreases subgroups@.len() - i,
                        {
                            let entry = subgroup_row(&subgroups[i]);
                            proof {
                                assert(entry@ == g(sgs[i as int]));
                            }
                            let ghost before = entries.deep_view();
                            entries.push(entry);
                            proof {
                                assert(sgs.take(i + 1) =~= sgs.take(i as int).push(sgs[i as int]));
                                assert(sgs.take(i + 1).map_values(g) =~= sgs.take(
                                    i as int,
                                ).map_values(g).push(g(sgs[i as int])));
                                assert(entries.deep_view() =~= before.push(entry@));
                                assert(entries.deep_view() == sgs.take(i + 1).map_values(g));
                            }
                            i = i + 1;
                        }
                        proof {
                            assert(sgs.take(subgroups@.len() as int) =~= sgs);
                        }
                        entries
                    },
                    Option::None => {
                        let empty: Vec<TableEntry> = Vec::new();
                        proof {
                            assert(empty.deep_view() =~= Seq::<TableEntryView>::empty());
                        }
                        empty
                    },
                }
            },
        };
        Table { entries }
    }
}

} // verus!
