use vstd::prelude::*;

verus! {

/// Whether a listed crate or feature is currently marked for installation.
#[derive(Debug, Clone, Copy, PartialEq, Eq, Structural)]
pub enum ItemListStatus {
    Selected,
    Unselected,
}

impl Default for ItemListStatus {
    fn default() -> (r: Self)
        ensures
            r == ItemListStatus::Unselected,
    {
        ItemListStatus::Unselected
    }
}

/// The opposite selection status: toggling maps one to the other.
pub open spec fn flipped(s: ItemListStatus) -> ItemListStatus {
    match s {
        ItemListStatus::Selected => ItemListStatus::Unselected,
        ItemListStatus::Unselected => ItemListStatus::Selected,
    }
}

/// How many categories the catalog has.
pub const CATEGORY_COUNT: usize = 10;

/// The fixed, cyclically ordered set of catalog categories.
#[derive(Debug, Clone, Copy, PartialEq, Eq, Structural)]
pub enum CategoriesWidget {
    General,
    Common,
    Math,
    FFI,
    Cryptography,
    Concurrency,
    Networking,
    Databases,
    Clis,
    Graphics,
}

impl Default for CategoriesWidget {
    fn default() -> (r: Self)
        ensures
            r == CategoriesWidget::General,
    {
        CategoriesWidget::General
    }
}

impl CategoriesWidget {
    /// The position of this category in the fixed cyclic order.
    pub open spec fn index_spec(self) -> int {
        match self {
            CategoriesWidget::General => 0,
            CategoriesWidget::Common => 1,
            CategoriesWidget::Math => 2,
            CategoriesWidget::FFI => 3,
            CategoriesWidget::Cryptography => 4,
            CategoriesWidget::Concurrency => 5,
            CategoriesWidget::Networking => 6,
            CategoriesWidget::Databases => 7,
            CategoriesWidget::Clis => 8,
            CategoriesWidget::Graphics => 9,
        }
    }

    /// The category at a given position in the fixed cyclic order.
    pub open spec fn from_index_spec(i: int) -> CategoriesWidget {
        if i == 0 {
            CategoriesWidget::General
        } else if i == 1 {
            CategoriesWidget::Common
        } else if i == 2 {
            CategoriesWidget::Math
        } else if i == 3 {
            CategoriesWidget::FFI
        } else if i == 4 {
            CategoriesWidget::Cryptography
        } else if i == 5 {
            CategoriesWidget::Concurrency
        } else if i == 6 {
            CategoriesWidget::Networking
        } else if i == 7 {
            CategoriesWidget::Databases
        } else if i == 8 {
            CategoriesWidget::Clis
        } else {
            CategoriesWidget::Graphics
        }
    }

    pub fn index(self) -> (i: usize)
        ensures
            i == self.index_spec(),
            i < CATEGORY_COUNT,
    {
        match self {
            CategoriesWidget::General => 0,
            CategoriesWidget::Common => 1,
            CategoriesWidget::Math => 2,
            CategoriesWidget::FFI => 3,
            CategoriesWidget::Cryptography => 4,
            CategoriesWidget::Concurrency => 5,
            CategoriesWidget::Networking => 6,
            CategoriesWidget::Databases => 7,
            CategoriesWidget::Clis => 8,
            CategoriesWidget::Graphics => 9,
        }
    }

    pub fn from_index(i: usize) -> (c: Self)
        requires
            i < CATEGORY_COUNT,
        ensures
            c == Self::from_index_spec(i as int),
            c.index_spec() == i,
    {
        if i == 0 {
            CategoriesWidget::General
        } else if i == 1 {
            CategoriesWidget::Common
        } else if i == 2 {
            CategoriesWidget::Math
        } else if i == 3 {
            CategoriesWidget::FFI
        } else if i == 4 {
            CategoriesWidget::Cryptography
        } else if i == 5 {
            CategoriesWidget::Concurrency
        } else if i == 6 {
            CategoriesWidget::Networking
        } else if i == 7 {
            CategoriesWidget::Databases
        } else if i == 8 {
            CategoriesWidget::Clis
        } else {
            CategoriesWidget::Graphics
        }
    }

    /// The category after this one, wrapping from the last back to the first.
    pub open spec fn next_spec(self) -> CategoriesWidget {
        if self.index_spec() == CATEGORY_COUNT - 1 {
            Self::from_index_spec(0)
        } else {
            Self::from_index_spec(self.index_spec() + 1)
        }
    }

    /// The category before this one, wrapping from the first back to the last.
    pub open spec fn previous_spec(self) -> CategoriesWidget {
        if self.index_spec() == 0 {
            Self::from_index_spec(CATEGORY_COUNT - 1)
        } else {
            Self::from_index_spec(self.index_spec() - 1)
        }
    }

    /// Cyclic successor: from the last category this returns the first.
    pub fn next(self) -> (r: Self)
        ensures
            r == self.next_spec(),
            self.index_spec() == CATEGORY_COUNT - 1 ==> r.index_spec() == 0,
            self.index_spec() < CATEGORY_COUNT - 1 ==> r.index_spec() == self.index_spec() + 1,
    {
        let current_index = self.index();
        if current_index == CATEGORY_COUNT - 1 {
            Self::from_index(0)
        } else {
            Self::from_index(current_index + 1)
        }
    }

    /// Cyclic predecessor: from the first category this returns the last.
    pub fn previous(self) -> (r: Self)
        ensures
            r == self.previous_spec(),
            self.index_spec() == 0 ==> r.index_spec() == CATEGORY_COUNT - 1,
            self.index_spec() > 0 ==> r.index_spec() == self.index_spec() - 1,
    {
        let current_index = self.index();
        if current_index == 0 {
            Self::from_index(CATEGORY_COUNT - 1)
        } else {
            Self::from_index(current_index - 1)
        }
    }

    /// The category's display name.
    pub open spec fn name_spec(self) -> Seq<char> {
        match self {
            CategoriesWidget::General => "General"@,
            CategoriesWidget::Common => "Common"@,
            CategoriesWidget::Math => "Math-scientific"@,
            CategoriesWidget::FFI => "FFI"@,
            CategoriesWidget::Cryptography => "Cryptography"@,
            CategoriesWidget::Concurrency => "Concurrency"@,
            CategoriesWidget::Networking => "Networking"@,
            CategoriesWidget::Databases => "Databases"@,
            CategoriesWidget::Clis => "Cli-tools"@,
            CategoriesWidget::Graphics => "Graphics"@,
        }
    }

    pub fn display_name(self) -> (s: &'static str)
        ensures
            s@ == self.name_spec(),
    {
        match self {
            CategoriesWidget::General => "General",
            CategoriesWidget::Common => "Common",
            CategoriesWidget::Math => "Math-scientific",
            CategoriesWidget::FFI => "FFI",
            CategoriesWidget::Cryptography => "Cryptography",
            CategoriesWidget::Concurrency => "Concurrency",
            CategoriesWidget::Networking => "Networking",
            CategoriesWidget::Databases => "Databases",
            CategoriesWidget::Clis => "Cli-tools",
            CategoriesWidget::Graphics => "Graphics",
        }
    }
}

/// One selectable feature of a listed crate.
#[derive(Debug, PartialEq, Eq)]
pub struct FeatureItemList {
    pub name: String,
    pub status: ItemListStatus,
}

/// The mathematical value of a [`FeatureItemList`]: its name as a character
/// sequence together with its selection status.
pub ghost struct FeatureItemView {
    pub name: Seq<char>,
    pub status: ItemListStatus,
}

impl View for FeatureItemList {
    type V = FeatureItemView;

    open spec fn view(&self) -> FeatureItemView {
        FeatureItemView { name: self.name@, status: self.status }
    }
}

impl DeepView for FeatureItemList {
    type V = FeatureItemView;

    open spec fn deep_view(&self) -> FeatureItemView {
        self.view()
    }
}

impl Clone for FeatureItemList {
    fn clone(&self) -> (res: Self)
        ensures
            res == *self,
    {
        FeatureItemList { name: self.name.clone(), status: self.status }
    }
}

impl FeatureItemList {
    pub fn new(name: String) -> (r: Self)
        ensures
            r.name == name,
            r.status == ItemListStatus::Unselected,
    {
        FeatureItemList { name, status: ItemListStatus::Unselected }
    }
}

/// Whether any feature in the list is selected.
pub open spec fn some_feature_selected(fs: Seq<FeatureItemView>) -> bool {
    exists|k: int| 0 <= k < fs.len() && fs[k].status == ItemListStatus::Selected
}

/// One recommended crate as it is listed in a category.
#[derive(Debug, PartialEq, Eq)]
pub struct CrateItemList {
    pub name: String,
    pub description: String,
    pub features: Option<Vec<FeatureItemList>>,
    pub status: ItemListStatus,
    pub is_loading: bool,
}

/// The mathematical value of a [`CrateItemList`].
///
/// `features` is `None` while the registry has not reported anything for the
/// crate (or reported nothing), and `Some` of the ordered feature list once
/// it has; the two cases stay distinguishable.
pub ghost struct CrateItemView {
    pub name: Seq<char>,
    pub description: Seq<char>,
    pub features: Option<Seq<FeatureItemView>>,
    pub status: ItemListStatus,
    pub is_loading: bool,
}

impl View for CrateItemList {
    type V = CrateItemView;

    open spec fn view(&self) -> CrateItemView {
        CrateItemView {
            name: self.name@,
            description: self.description@,
            features: self.features.deep_view(),
            status: self.status,
            is_loading: self.is_loading,
        }
    }
}

impl DeepView for CrateItemList {
    type V = CrateItemView;

    open spec fn deep_view(&self) -> CrateItemView {
        self.view()
    }
}

impl CrateItemList {
    pub fn new(
        name: String,
        description: String,
        status: ItemListStatus,
        features: Option<Vec<FeatureItemList>>,
    ) -> (r: Self)
        ensures
            r@ == (CrateItemView {
                name: name@,
                description: description@,
                features: features.deep_view(),
                status: status,
                is_loading: true,
            }),
    {
        CrateItemList { name, description, features, status, is_loading: true }
    }
}

/// Clones a feature list; the copy has the same mathematical value.
pub fn clone_features(features: &Vec<FeatureItemList>) -> (res: Vec<FeatureItemList>)
    ensures
        res.deep_view() == features.deep_view(),
{
    let res = features.clone();
    proof {
        assert(res.deep_view() =~= features.deep_view());
    }
    res
}

impl Clone for CrateItemList {
    fn clone(&self) -> (res: Self)
        ensures
            res@ == self@,
    {
        let features = match &self.features {
            Option::Some(f) => Option::Some(clone_features(f)),
            Option::None => Option::None,
        };
        let res = CrateItemList {
            name: self.name.clone(),
            description: self.description.clone(),
            features,
            status: self.status,
            is_loading: self.is_loading,
        };
        res
    }
}

} // verus!
