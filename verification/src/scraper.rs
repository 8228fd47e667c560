//! The shape of the data the catalog source delivers: named groups of
//! use-case purposes, each recommending crates. Fetching and decoding the
//! data happens outside the library; the values arrive here as plain data.

use vstd::prelude::*;

verus! {

/// One recommended crate, with optional explanatory notes.
#[derive(Debug, PartialEq, Eq)]
pub struct Recommendation {
    pub name: String,
    pub notes: Option<String>,
}

/// The mathematical value of a [`Recommendation`].
pub ghost struct RecommendationView {
    pub name: Seq<char>,
    pub notes: Option<Seq<char>>,
}

impl View for Recommendation {
    type V = RecommendationView;

    open spec fn view(&self) -> RecommendationView {
        RecommendationView { name: self.name@, notes: self.notes.deep_view() }
    }
}

impl DeepView for Recommendation {
    type V = RecommendationView;

    open spec fn deep_view(&self) -> RecommendationView {
        self.view()
    }
}

/// One use case and the crates recommended for it.
#[derive(Debug, PartialEq, Eq)]
pub struct Purpose {
    pub name: String,
    pub recommendations: Vec<Recommendation>,
}

/// The mathematical value of a [`Purpose`].
pub ghost struct PurposeView {
    pub name: Seq<char>,
    pub recommendations: Seq<RecommendationView>,
}

impl View for Purpose {
    type V = PurposeView;

    open spec fn view(&self) -> PurposeView {
        PurposeView { name: self.name@, recommendations: self.recommendations.deep_view() }
    }
}

impl DeepView for Purpose {
    type V = PurposeView;

    open spec fn deep_view(&self) -> PurposeView {
        self.view()
    }
}

/// A named sub-group of a catalog group, with its own purposes.
#[derive(Debug, PartialEq, Eq)]
pub struct SubGroup {
    pub name: String,
    pub purposes: Option<Vec<Purpose>>,
}

/// The mathematical value of a [`SubGroup`].
pub ghost struct SubGroupView {
    pub name: Seq<char>,
    pub purposes: Option<Seq<PurposeView>>,
}

impl View for SubGroup {
    type V = SubGroupView;

    open spec fn view(&self) -> SubGroupView {
        SubGroupView { name: self.name@, purposes: self.purposes.deep_view() }
    }
}

impl DeepView for SubGroup {
    type V = SubGroupView;

    open spec fn deep_view(&self) -> SubGroupView {
        self.view()
    }
}

/// One top-level catalog group: either a flat list of purposes or a list of
/// named sub-groups.
#[derive(Debug, PartialEq, Eq)]
pub struct Group {
    pub name: String,
    pub subgroups: Option<Vec<SubGroup>>,
    pub purposes: Option<Vec<Purpose>>,
}

/// The mathematical value of a [`Group`].
pub ghost struct GroupView {
    pub name: Seq<char>,
    pub subgroups: Option<Seq<SubGroupView>>,
    pub purposes: Option<Seq<PurposeView>>,
}

impl View for Group {
    type V = GroupView;

    open spec fn view(&self) -> GroupView {
        GroupView {
            name: self.name@,
            subgroups: self.subgroups.deep_view(),
            purposes: self.purposes.deep_view(),
        }
    }
}

impl DeepView for Group {
    type V = GroupView;

    open spec fn deep_view(&self) -> GroupView {
        self.view()
    }
}

/// Everything the catalog source delivered: the full list of groups.
#[derive(Debug, PartialEq, Eq)]
pub struct CratesData {
    pub crate_groups: Vec<Group>,
}

impl View for CratesData {
    type V = Seq<GroupView>;

    open spec fn view(&self) -> Seq<GroupView> {
        self.crate_groups.deep_view()
    }
}

} // verus!
