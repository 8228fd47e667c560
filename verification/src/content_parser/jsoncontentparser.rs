//! A catalog parser fed by scraped catalog data: it sorts the delivered
//! groups into the per-category tables by their (normalized) group names.

use vstd::prelude::*;

use crate::backend::{Categories, CategoriesWithSubCategories, Table, TableEntry, TableEntryView};
use crate::content_parser::{entries_of_purposes, entry_of_purpose, entry_of_subgroup,
    subgroup_row, table_from_group, ContentParser};
use crate::scraper::{CratesData, GroupView, PurposeView, SubGroup, SubGroupView};
use crate::utils::lemma_filter_push;

verus! {

/// What `str::to_lowercase` returns for a string with the given characters.
pub uninterp spec fn lower_of(s: Seq<char>) -> Seq<char>;

/// What `str::trim` returns for a string with the given characters.
pub uninterp spec fn trim_of(s: Seq<char>) -> Seq<char>;

/// Relies on str::to_lowercase: the result depends on the characters alone.
#[verifier::external_body]
fn lowercase(s: &str) -> (r: String)
    ensures
        r@ == lower_of(s@),
{
    s.to_lowercase()
}

/// Relies on str::trim: the result depends on the characters alone.
#[verifier::external_body]
fn trim_str<'a>(s: &'a String) -> (r: &'a str)
    ensures
        r@ == trim_of(s@),
{
    s.trim()
}

/// A group name, trimmed and then lowercased, as the dispatch compares it.
pub open spec fn normalized_name(s: Seq<char>) -> Seq<char> {
    lower_of(trim_of(s))
}

/// The last delivered group whose normalized name is `label`, if any: when
/// the catalog repeats a label, the later group wins.
pub open spec fn find_group(groups: Seq<GroupView>, label: Seq<char>) -> Option<GroupView>
    decreases groups.len(),
{
    if groups.len() == 0 {
        Option::None
    } else if normalized_name(groups.last().name) == label {
        Option::Some(groups.last())
    } else {
        find_group(groups.drop_last(), label)
    }
}

/// The table of the category labelled `label`: the table of its group, or
/// empty when the catalog delivered none.
pub open spec fn table_for(groups: Seq<GroupView>, label: Seq<char>) -> Seq<TableEntryView> {
    match find_group(groups, label) {
        Option::Some(g) => table_from_group(g),
        Option::None => Seq::empty(),
    }
}

/// The first sub-group of the common group that is labelled `general`.
pub open spec fn find_general_subgroup(sgs: Seq<SubGroupView>) -> Option<SubGroupView>
    decreases sgs.len(),
{
    if sgs.len() == 0 {
        Option::None
    } else if normalized_name(sgs.first().name) == "general"@ {
        Option::Some(sgs.first())
    } else {
        find_general_subgroup(sgs.drop_first())
    }
}

/// The table of a purposes-only sub-group: one row per purpose.
pub open spec fn table_of_subgroup_purposes(sg: SubGroupView) -> Seq<TableEntryView> {
    match sg.purposes {
        Option::Some(ps) => ps.map_values(|p: PurposeView| entry_of_purpose(p)),
        Option::None => Seq::empty(),
    }
}

/// The general table: the `general` sub-group of the `common` group.
pub open spec fn general_table_of(groups: Seq<GroupView>) -> Seq<TableEntryView> {
    match find_group(groups, "common"@) {
        Option::Some(g) => match g.subgroups {
            Option::Some(sgs) => match find_general_subgroup(sgs) {
                Option::Some(sg) => table_of_subgroup_purposes(sg),
                Option::None => Seq::empty(),
            },
            Option::None => Seq::empty(),
        },
        Option::None => Seq::empty(),
    }
}

/// Holds of the sub-groups that are not labelled `general`.
pub open spec fn not_general(sg: SubGroupView) -> bool {
    normalized_name(sg.name) != "general"@
}

/// The common table: every sub-group of the `common` group but `general`,
/// one row each.
pub open spec fn common_table_of(groups: Seq<GroupView>) -> Seq<TableEntryView> {
    match find_group(groups, "common"@) {
        Option::Some(g) => match g.subgroups {
            Option::Some(sgs) => sgs.filter(|sg: SubGroupView| not_general(sg)).map_values(
                |sg: SubGroupView| entry_of_subgroup(sg),
            ),
            Option::None => Seq::empty(),
        },
        Option::None => Seq::empty(),
    }
}

/// The nine group labels the dispatch recognizes are pairwise distinct.
proof fn lemma_labels_distinct()
    ensures
        "common"@ != "math / scientific"@,
        "common"@ != "ffi / interop"@,
        "common"@ != "cryptography"@,
        "common"@ != "networking"@,
        "common"@ != "databases"@,
        "common"@ != "clis"@,
        "common"@ != "concurrency"@,
        "common"@ != "graphics"@,
        "math / scientific"@ != "ffi / interop"@,
        "math / scientific"@ != "cryptography"@,
        "math / scientific"@ != "networking"@,
        "math / scientific"@ != "databases"@,
        "math / scientific"@ != "clis"@,
        "math / scientific"@ != "concurrency"@,
        "math / scientific"@ != "graphics"@,
        "ffi / interop"@ != "cryptography"@,
        "ffi / interop"@ != "networking"@,
        "ffi / interop"@ != "databases"@,
        "ffi / interop"@ != "clis"@,
        "ffi / interop"@ != "concurrency"@,
        "ffi / interop"@ != "graphics"@,
        "cryptography"@ != "networking"@,
        "cryptography"@ != "databases"@,
        "cryptography"@ != "clis"@,
        "cryptography"@ != "concurrency"@,
        "cryptography"@ != "graphics"@,
        "networking"@ != "databases"@,
        "networking"@ != "clis"@,
        "networking"@ != "concurrency"@,
        "networking"@ != "graphics"@,
        "databases"@ != "clis"@,
        "databases"@ != "concurrency"@,
        "databases"@ != "graphics"@,
        "clis"@ != "concurrency"@,
        "clis"@ != "graphics"@,
        "concurrency"@ != "graphics"@,
{
    reveal_strlit("common");
    reveal_strlit("math / scientific");
    reveal_strlit("ffi / interop");
    reveal_strlit("cryptography");
    reveal_strlit("networking");
    reveal_strlit("databases");
    reveal_strlit("clis");
    reveal_strlit("concurrency");
    reveal_strlit("graphics");
    assert("common"@.len() == 6);
    assert("math / scientific"@.len() == 17);
    assert("ffi / interop"@.len() == 13);
    assert("cryptography"@.len() == 12);
    assert("networking"@.len() == 10);
    assert("databases"@.len() == 9);
    assert("clis"@.len() == 4);
    assert("concurrency"@.len() == 11);
    assert("graphics"@.len() == 8);
    assert("ffi / interop"@[0] == 'f');
    assert("cryptography"@[0] == 'c');
}

/// A parsed catalog: the raw data it came from, and the ten per-category
/// tables sorted out of it.
#[derive(Debug)]
pub struct JsonContentParser {
    pub content: CratesData,
    general_crates: Table,
    math_crates: Table,
    ffi_crates: Table,
    cryptography_crates: Table,
    common_crates: Table,
    concurrency_crates: Table,
    networking_crates: Table,
    database_crates: Table,
    clis_crates: Table,
    graphics_crates: Table,
}

/// Builds the table of a purposes-only sub-group.
fn subgroup_purposes_table(sg: &SubGroup) -> (t: Table)
    ensures
        t@ == table_of_subgroup_purposes(sg@),
{
    match &sg.purposes {
        Option::Some(purposes) => {
            let t = Table { entries: entries_of_purposes(purposes) };
            t
        },
        Option::None => {
            let t = Table { entries: Vec::new() };
            proof {
                assert(t@ =~= Seq::<TableEntryView>::empty());
            }
            t
        },
    }
}

/// Builds the common table: one row per non-`general` sub-group.
fn common_table_from_subgroups(subgroups: &Vec<SubGroup>) -> (t: Table)
    ensures
        t@ == subgroups.deep_view().filter(|sg: SubGroupView| not_general(sg)).map_values(
            |sg: SubGroupView| entry_of_subgroup(sg),
        ),
{
    let ghost sgs = subgroups.deep_view();
    let ghost pred = |sg: SubGroupView| not_general(sg);
    let ghost f = |sg: SubGroupView| entry_of_subgroup(sg);
    let mut entries: Vec<TableEntry> = Vec::new();
    let mut j: usize = 0;
    proof {
        reveal(Seq::filter);
        assert(sgs.take(0) =~= Seq::<SubGroupView>::empty());
        assert(entries.deep_view() =~= sgs.take(0).filter(pred).map_values(f));
    }
    while j < subgroups.len()
        invariant
            j <= subgroups.len(),
            sgs == subgroups.deep_view(),
            sgs.len() == subgroups@.len(),
            pred == (|sg: SubGroupView| not_general(sg)),
            f == (|sg: SubGroupView| entry_of_subgroup(sg)),
            entries.deep_view() == sgs.take(j as int).filter(pred).map_values(f),
        decreases subgroups@.len() - j,
    {
        let sub = &subgroups[j];
        proof {
            assert(sub.deep_view() == sgs[j as int]);
            assert(sgs.take(j + 1) =~= sgs.take(j as int).push(sgs[j as int]));
            lemma_filter_push(sgs.take(j as int), sgs[j as int], pred);
        }
        let sub_key = lowercase(trim_str(&sub.name));
        if !(sub_key == "general".to_owned()) {
            let entry = subgroup_row(sub);
            let ghost before = entries.deep_view();
            entries.push(entry);
            proof {
                assert(entries.deep_view() =~= before.push(entry@));
                assert(sgs.take(j + 1).filter(pred).map_values(f) =~= sgs.take(j as int).filter(
                    pred,
                ).map_values(f).push(f(sgs[j as int])));
            }
        } else {
            proof {
                assert(sgs.take(j + 1).filter(pred).map_values(f) =~= sgs.take(j as int).filter(
                    pred,
                ).map_values(f));
            }
        }
        j = j + 1;
    }
    proof {
        assert(sgs.take(subgroups@.len() as int) =~= sgs);
    }
    Table { entries }
}

impl JsonContentParser {
    /// Sorts scraped catalog data into the per-category tables.
    ///
    /// Groups are recognized by their trimmed, lowercased name; a label the
    /// catalog never delivered leaves that category's table empty. Within
    /// the `common` group, the `general` sub-group becomes the general
    /// table and the remaining sub-groups the common table.
    pub fn parse_content(content: CratesData) -> (r: Self)
        ensures
            r.general_table_spec() == general_table_of(content@),
            r.crates_table_spec(Categories::Math) == table_for(content@, "math / scientific"@),
            r.crates_table_spec(Categories::FFI) == table_for(content@, "ffi / interop"@),
            r.crates_table_spec(Categories::Cryptography) == table_for(content@, "cryptography"@),
            r.crates_with_sub_table_spec(CategoriesWithSubCategories::Common) == common_table_of(
                content@,
            ),
            r.crates_with_sub_table_spec(CategoriesWithSubCategories::Concurrency) == table_for(
                content@,
                "concurrency"@,
            ),
            r.crates_with_sub_table_spec(CategoriesWithSubCategories::Networking) == table_for(
                content@,
                "networking"@,
            ),
            r.crates_with_sub_table_spec(CategoriesWithSubCategories::Databases) == table_for(
                content@,
                "databases"@,
            ),
            r.crates_with_sub_table_spec(CategoriesWithSubCategories::Clis) == table_for(
                content@,
                "clis"@,
            ),
            r.crates_with_sub_table_spec(CategoriesWithSubCategories::Graphics) == table_for(
                content@,
                "graphics"@,
            ),
    {
        let ghost groups = content@;
        let mut general_crates = Table { entries: Vec::new() };
        let mut math_crates = Table { entries: Vec::new() };
        let mut ffi_crates = Table { entries: Vec::new() };
        let mut cryptography_crates = Table { entries: Vec::new() };
        let mut common_crates = Table { entries: Vec::new() };
        let mut concurrency_crates = Table { entries: Vec::new() };
        let mut networking_crates = Table { entries: Vec::new() };
        let mut database_crates = Table { entries: Vec::new() };
        let mut clis_crates = Table { entries: Vec::new() };
        let mut graphics_crates = Table { entries: Vec::new() };
        proof {
            lemma_labels_distinct();
            assert(groups.take(0) =~= Seq::<GroupView>::empty());
            assert(general_crates@ =~= Seq::<TableEntryView>::empty());
        }
        let mut i: usize = 0;
        while i < content.crate_groups.len()
            invariant
                i <= content.crate_groups.len(),
                groups == content@,
                groups.len() == content.crate_groups@.len(),
                general_crates@ == general_table_of(groups.take(i as int)),
                common_crates@ == common_table_of(groups.take(i as int)),
                math_crates@ == table_for(groups.take(i as int), "math / scientific"@),
                ffi_crates@ == table_for(groups.take(i as int), "ffi / interop"@),
                cryptography_crates@ == table_for(groups.take(i as int), "cryptography"@),
                concurrency_crates@ == table_for(groups.take(i as int), "concurrency"@),
                networking_crates@ == table_for(groups.take(i as int), "networking"@),
                database_crates@ == table_for(groups.take(i as int), "databases"@),
                clis_crates@ == table_for(groups.take(i as int), "clis"@),
                graphics_crates@ == table_for(groups.take(i as int), "graphics"@),
            decreases content.crate_groups@.len() - i,
        {
            let group = &content.crate_groups[i];
            let ghost g = groups[i as int];
            proof {
                lemma_labels_distinct();
                assert(g == group.deep_view());
                assert(groups.take(i + 1).drop_last() =~= groups.take(i as int));
                assert(groups.take(i + 1).last() == g);
            }
            let key = lowercase(trim_str(&group.name));
            if key == "common".to_owned() {
                match &group.subgroups {
                    Option::Some(subgroups) => {
                        let ghost sgs = subgroups.deep_view();
                        let mut found_general = false;
                        let mut j: usize = 0;
                        proof {
                            assert(sgs.skip(0) =~= sgs);
                        }
                        while j < subgroups.len()
                            invariant
                                j <= subgroups.len(),
                                sgs == subgroups.deep_view(),
                                sgs.len() == subgroups@.len(),
                                !found_general ==> find_general_subgroup(sgs)
                                    == find_general_subgroup(sgs.skip(j as int)),
                                found_general ==> (match find_general_subgroup(sgs) {
                                    Option::Some(sg) => general_crates@
                                        == table_of_subgroup_purposes(sg),
                                    Option::None => false,
                                }),
                            decreases subgroups@.len() - j,
                        {
                            if !found_general {
                                let sub = &subgroups[j];
                                proof {
                                    assert(sub.deep_view() == sgs[j as int]);
                                    assert(sgs.skip(j as int).first() == sgs[j as int]);
                                    assert(sgs.skip(j as int).drop_first() =~= sgs.skip(j + 1));
                                }
                                let sub_key = lowercase(trim_str(&sub.name));
                                if sub_key == "general".to_owned() {
                                    general_crates = subgroup_purposes_table(sub);
                                    found_general = true;
                                }
                            }
                            j = j + 1;
                        }
                        if !found_general {
                            proof {
                                assert(sgs.skip(subgroups@.len() as int) =~= Seq::<
                                    SubGroupView,
                                >::empty());
                            }
                            general_crates = Table { entries: Vec::new() };
                            proof {
                                assert(general_crates@ =~= Seq::<TableEntryView>::empty());
                            }
                        }
                        common_crates = common_table_from_subgroups(subgroups);
                    },
                    Option::None => {
                        general_crates = Table { entries: Vec::new() };
                        common_crates = Table { entries: Vec::new() };
                        proof {
                            assert(general_crates@ =~= Seq::<TableEntryView>::empty());
                            assert(common_crates@ =~= Seq::<TableEntryView>::empty());
                        }
                    },
                }
            } else if key == "math / scientific".to_owned() {
                math_crates = Table::from_group(group);
            } else if key == "ffi / interop".to_owned() {
                ffi_crates = Table::from_group(group);
            } else if key == "cryptography".to_owned() {
                cryptography_crates = Table::from_group(group);
            } else if key == "networking".to_owned() {
                networking_crates = Table::from_group(group);
            } else if key == "databases".to_owned() {
                database_crates = Table::from_group(group);
            } else if key == "clis".to_owned() {
                clis_crates = Table::from_group(group);
            } else if key == "concurrency".to_owned() {
                concurrency_crates = Table::from_group(group);
            } else if key == "graphics".to_owned() {
                graphics_crates = Table::from_group(group);
            }
            i = i + 1;
        }
        proof {
            assert(groups.take(content.crate_groups@.len() as int) =~= groups);
        }
        JsonContentParser {
            content,
            general_crates,
            math_crates,
            ffi_crates,
            cryptography_crates,
            common_crates,
            concurrency_crates,
            networking_crates,
            database_crates,
            clis_crates,
            graphics_crates,
        }
    }
}

impl ContentParser for JsonContentParser {
    closed spec fn general_table_spec(&self) -> Seq<TableEntryView> {
        self.general_crates@
    }

    closed spec fn crates_table_spec(&self, category: Categories) -> Seq<TableEntryView> {
        match category {
            Categories::Math => self.math_crates@,
            Categories::FFI => self.ffi_crates@,
            Categories::Cryptography => self.cryptography_crates@,
        }
    }

    closed spec fn crates_with_sub_table_spec(&self, category: CategoriesWithSubCategories) -> Seq<
        TableEntryView,
    > {
        match category {
            CategoriesWithSubCategories::Common => self.common_crates@,
            CategoriesWithSubCategories::Concurrency => self.concurrency_crates@,
            CategoriesWithSubCategories::Networking => self.networking_crates@,
            CategoriesWithSubCategories::Databases => self.database_crates@,
            CategoriesWithSubCategories::Clis => self.clis_crates@,
            CategoriesWithSubCategories::Graphics => self.graphics_crates@,
        }
    }

    fn get_general_crates(&self) -> (t: Table) {
        self.general_crates.clone()
    }

    fn get_crates(&self, category: &Categories) -> (t: Table) {
        match category {
            Categories::FFI => self.ffi_crates.clone(),
            Categories::Math => self.math_crates.clone(),
            Categories::Cryptography => self.cryptography_crates.clone(),
        }
    }

    fn get_crates_with_sub(&self, category: &CategoriesWithSubCategories) -> (t: Table) {
        match category {
            CategoriesWithSubCategories::Clis => self.clis_crates.clone(),
            CategoriesWithSubCategories::Common => self.common_crates.clone(),
            CategoriesWithSubCategories::Graphics => self.graphics_crates.clone(),
            CategoriesWithSubCategories::Databases => self.database_crates.clone(),
            CategoriesWithSubCategories::Networking => self.networking_crates.clone(),
            CategoriesWithSubCategories::Concurrency => self.concurrency_crates.clone(),
        }
    }
}

} // verus!
