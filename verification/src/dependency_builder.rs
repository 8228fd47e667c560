//! The records handed to the installer: one per crate the user committed to,
//! each carrying the feature names that were selected for it.

use vstd::prelude::*;

use crate::view::widgets::{CrateItemList, CrateItemView, FeatureItemList, FeatureItemView,
    ItemListStatus};

verus! {

/// The names of the features in `feats` that are currently selected, in order.
pub open spec fn selected_feature_names(feats: Seq<FeatureItemView>) -> Seq<Seq<char>> {
    feats.filter(|f: FeatureItemView| f.status == ItemListStatus::Selected).map_values(
        |f: FeatureItemView| f.name,
    )
}

/// The data necessary to add one crate to the user's project.
#[derive(Debug, PartialEq, Eq)]
pub struct CrateToAdd {
    pub crate_name: String,
    pub features: Option<Vec<String>>,
}

/// The mathematical value of a [`CrateToAdd`].
pub ghost struct CrateToAddView {
    pub crate_name: Seq<char>,
    pub features: Option<Seq<Seq<char>>>,
}

impl View for CrateToAdd {
    type V = CrateToAddView;

    open spec fn view(&self) -> CrateToAddView {
        CrateToAddView { crate_name: self.crate_name@, features: self.features.deep_view() }
    }
}

impl DeepView for CrateToAdd {
    type V = CrateToAddView;

    open spec fn deep_view(&self) -> CrateToAddView {
        self.view()
    }
}

/// The record that a listed crate calls for when it is selected: its name,
/// and — once its feature list is known — exactly the selected feature names.
pub open spec fn record_of(c: CrateItemView) -> CrateToAddView {
    CrateToAddView {
        crate_name: c.name,
        features: match c.features {
            Option::None => Option::None,
            Option::Some(fs) => Option::Some(selected_feature_names(fs)),
        },
    }
}

impl Clone for CrateToAdd {
    fn clone(&self) -> (res: Self)
        ensures
            res@ == self@,
    {
        let features = match &self.features {
            Option::Some(f) => Option::Some(crate::backend::clone_string_list(f)),
            Option::None => Option::None,
        };
        CrateToAdd { crate_name: self.crate_name.clone(), features }
    }
}

proof fn lemma_selected_names_push(feats: Seq<FeatureItemView>, f: FeatureItemView)
    ensures
        selected_feature_names(feats.push(f)) == if f.status == ItemListStatus::Selected {
            selected_feature_names(feats).push(f.name)
        } else {
            selected_feature_names(feats)
        },
{
    reveal(Seq::filter);
    let pred = |g: FeatureItemView| g.status == ItemListStatus::Selected;
    assert(feats.push(f).drop_last() =~= feats);
    assert(feats.push(f).last() == f);
    if f.status == ItemListStatus::Selected {
        assert(feats.push(f).filter(pred) == feats.filter(pred).push(f));
        assert(selected_feature_names(feats.push(f)) =~= selected_feature_names(feats).push(
            f.name,
        ));
    } else {
        assert(feats.push(f).filter(pred) == feats.filter(pred));
    }
}

/// The names of the selected features of `feats`, as plain strings.
pub fn selected_features_of(feats: &Vec<FeatureItemList>) -> (r: Vec<String>)
    ensures
        r.deep_view() == selected_feature_names(feats.deep_view()),
{
    let mut r: Vec<String> = Vec::new();
    let ghost all = feats.deep_view();
    let mut i: usize = 0;
    proof {
        assert(all.take(0) =~= Seq::<FeatureItemView>::empty());
        assert(selected_feature_names(all.take(0)) =~= Seq::<Seq<char>>::empty());
        assert(r.deep_view() =~= Seq::<Seq<char>>::empty());
    }
    while i < feats.len()
        invariant
            i <= feats.len(),
            all == feats.deep_view(),
            all.len() == feats.len(),
            r.deep_view() == selected_feature_names(all.take(i as int)),
        decreases feats.len() - i,
    {
        let feat = &feats[i];
        proof {
            assert(all.take(i + 1) =~= all.take(i as int).push(all[i as int]));
            lemma_selected_names_push(all.take(i as int), all[i as int]);
            assert(all[i as int] == feat.deep_view());
        }
        match feat.status {
            ItemListStatus::Selected => {
                r.push(feat.name.clone());
                proof {
                    assert(r.deep_view() =~= selected_feature_names(all.take(i + 1)));
                }
            },
            ItemListStatus::Unselected => {
                proof {
                    assert(r.deep_view() == selected_feature_names(all.take(i + 1)));
                }
            },
        }
        i = i + 1;
    }
    proof {
        assert(all.take(feats.len() as int) =~= all);
    }
    r
}

impl CrateToAdd {
    /// The record that `value` calls for in its current selection state.
    pub fn from_item(value: &CrateItemList) -> (r: Self)
        ensures
            r@ == record_of(value@),
    {
        let features = match &value.features {
            Option::Some(f) => Option::Some(selected_features_of(f)),
            Option::None => Option::None,
        };
        CrateToAdd { crate_name: value.name.clone(), features }
    }
}

/// Carries the finalized to-install records to the installer invocation.
pub struct DependenciesBuilder {
    crates_to_add: Vec<CrateToAdd>,
}

impl View for DependenciesBuilder {
    type V = Seq<CrateToAddView>;

    closed spec fn view(&self) -> Seq<CrateToAddView> {
        self.crates_to_add.deep_view()
    }
}

impl DependenciesBuilder {
    pub fn new(crates_to_add: Vec<CrateToAdd>) -> (r: Self)
        ensures
            r@ == crates_to_add.deep_view(),
    {
        DependenciesBuilder { crates_to_add }
    }

    /// The records this builder will hand to the installer.
    pub fn records(&self) -> (r: &Vec<CrateToAdd>)
        ensures
            r.deep_view() == self@,
    {
        &self.crates_to_add
    }
}

} // verus!
