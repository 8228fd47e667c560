//! The browser's state: one list of items per category, the navigation
//! cursors, the to-install list, and the flags of the open overlays. Every
//! transition is a method here; the dispatch loop owns the single `App`
//! value and is the only writer.

use vstd::prelude::*;
use vstd::std_specs::vec::vec_index_mut;

use crate::content_parser::ContentParser;
use crate::dependency_builder::{CrateToAdd, CrateToAddView};
use crate::utils::{push_or_remove_crates, reconcile, toggle_feature_spec, toggle_one_feature,
    toggle_status_all, toggle_status_one_crate, toggled_item};
use crate::view::widgets::{CategoriesWidget, CrateItemList, CrateItemView, ItemListStatus,
    CATEGORY_COUNT};

verus! {

/// All the mutable state of the browser.
pub struct App {
    /// The canonical to-install list, reconciled after every toggle.
    pub crates_to_add: Vec<CrateToAdd>,
    /// One item list per category, indexed by the category's position.
    pub crate_lists: Vec<Vec<CrateItemList>>,
    /// The category currently shown.
    pub crate_categories: CategoriesWidget,
    /// The cursor within the current category's item list.
    pub crates_cursor: Option<usize>,
    /// The cursor within the open feature list.
    pub features_cursor: Option<usize>,
    /// Set when the dispatch loop should stop.
    pub exit: bool,
    /// Whether the feature detail view is open.
    pub is_showing_features: bool,
    /// Whether the install overlay is open.
    pub is_adding_dependencies: bool,
    /// The message the install overlay shows.
    pub popup_message: String,
}

/// The mathematical value of an [`App`].
pub ghost struct AppView {
    pub crates_to_add: Seq<CrateToAddView>,
    pub crate_lists: Seq<Seq<CrateItemView>>,
    pub crate_categories: CategoriesWidget,
    pub crates_cursor: Option<usize>,
    pub features_cursor: Option<usize>,
    pub exit: bool,
    pub is_showing_features: bool,
    pub is_adding_dependencies: bool,
    pub popup_message: Seq<char>,
}

impl View for App {
    type V = AppView;

    open spec fn view(&self) -> AppView {
        AppView {
            crates_to_add: self.crates_to_add.deep_view(),
            crate_lists: self.crate_lists.deep_view(),
            crate_categories: self.crate_categories,
            crates_cursor: self.crates_cursor,
            features_cursor: self.features_cursor,
            exit: self.exit,
            is_showing_features: self.is_showing_features,
            is_adding_dependencies: self.is_adding_dependencies,
            popup_message: self.popup_message@,
        }
    }
}

impl AppView {
    /// Well-formedness: there is exactly one item list per category.
    pub open spec fn wf(self) -> bool {
        self.crate_lists.len() == CATEGORY_COUNT
    }
}

/// The item list of the category currently shown.
pub open spec fn current_items(v: AppView) -> Seq<CrateItemView> {
    v.crate_lists[v.crate_categories.index_spec()]
}

/// `v` with the current category's item list replaced.
pub open spec fn with_current_items(v: AppView, items: Seq<CrateItemView>) -> AppView {
    AppView { crate_lists: v.crate_lists.update(v.crate_categories.index_spec(), items), ..v }
}

/// The item under the cursor, when the cursor points at one.
pub open spec fn current_crate_selected(v: AppView) -> Option<CrateItemView> {
    match v.crates_cursor {
        Option::Some(i) => if (i as int) < current_items(v).len() {
            Option::Some(current_items(v)[i as int])
        } else {
            Option::None
        },
        Option::None => Option::None,
    }
}

/// How many features the item under the cursor currently lists.
pub open spec fn current_features_len(v: AppView) -> int {
    match current_crate_selected(v) {
        Option::Some(c) => match c.features {
            Option::Some(fs) => fs.len() as int,
            Option::None => 0,
        },
        Option::None => 0,
    }
}

/// `n - 1`, stopping at zero.
pub open spec fn sat_dec(n: int) -> int {
    if n <= 0 {
        0
    } else {
        n - 1
    }
}

/// `i + 1`, stopping at the largest index.
pub open spec fn sat_inc(i: usize) -> usize {
    if i == usize::MAX {
        i
    } else {
        (i + 1) as usize
    }
}

/// Moving to the next category: cursor back to the top, category advances
/// cyclically.
pub open spec fn next_category_spec(v: AppView) -> AppView {
    AppView {
        crates_cursor: Option::Some(0usize),
        crate_categories: v.crate_categories.next_spec(),
        ..v
    }
}

/// Moving to the previous category: cursor back to the top, category
/// retreats cyclically.
pub open spec fn previous_category_spec(v: AppView) -> AppView {
    AppView {
        crates_cursor: Option::Some(0usize),
        crate_categories: v.crate_categories.previous_spec(),
        ..v
    }
}

/// Scrolling down the item list, wrapping from the last item to the first.
pub open spec fn scroll_down_spec(v: AppView) -> AppView {
    AppView {
        crates_cursor: Option::Some(
            match v.crates_cursor {
                Option::Some(i) => if i as int == sat_dec(current_items(v).len() as int) {
                    0usize
                } else {
                    sat_inc(i)
                },
                Option::None => 0usize,
            },
        ),
        ..v
    }
}

/// Scrolling up the item list, wrapping from the first item to the last.
pub open spec fn scroll_up_spec(v: AppView) -> AppView {
    AppView {
        crates_cursor: Option::Some(
            match v.crates_cursor {
                Option::Some(i) => if i == 0 {
                    sat_dec(current_items(v).len() as int) as usize
                } else {
                    (i - 1) as usize
                },
                Option::None => 1usize,
            },
        ),
        ..v
    }
}

/// Scrolling down the feature list, wrapping at the end. Without an item
/// under the cursor a positioned feature cursor stays put.
pub open spec fn scroll_down_features_spec(v: AppView) -> AppView {
    match v.features_cursor {
        Option::Some(i) => if current_crate_selected(v) is Some {
            AppView {
                features_cursor: Option::Some(
                    if i as int == sat_dec(current_features_len(v)) {
                        0usize
                    } else {
                        sat_inc(i)
                    },
                ),
                ..v
            }
        } else {
            v
        },
        Option::None => AppView { features_cursor: Option::Some(0usize), ..v },
    }
}

/// Scrolling up the feature list, wrapping at the top.
pub open spec fn scroll_up_features_spec(v: AppView) -> AppView {
    match v.features_cursor {
        Option::Some(i) => if current_crate_selected(v) is Some {
            AppView {
                features_cursor: Option::Some(
                    if i == 0 {
                        sat_dec(current_features_len(v)) as usize
                    } else {
                        (i - 1) as usize
                    },
                ),
                ..v
            }
        } else {
            v
        },
        Option::None => AppView { features_cursor: Option::Some(1usize), ..v },
    }
}

/// Toggling every item of the current category.
pub open spec fn toggle_all_spec(v: AppView) -> AppView {
    with_current_items(v, current_items(v).map_values(|c: CrateItemView| toggled_item(c)))
}

/// Toggling the item under the cursor; without one, nothing changes.
pub open spec fn toggle_one_spec(v: AppView) -> AppView {
    match v.crates_cursor {
        Option::Some(i) => if (i as int) < current_items(v).len() {
            with_current_items(
                v,
                current_items(v).update(i as int, toggled_item(current_items(v)[i as int])),
            )
        } else {
            v
        },
        Option::None => v,
    }
}

/// Reconciling the to-install list with the current category's items.
pub open spec fn push_or_remove_selected_spec(v: AppView) -> AppView {
    AppView { crates_to_add: reconcile(v.crates_to_add, current_items(v)), ..v }
}

/// Opening or closing the feature detail view; opening positions the
/// feature cursor at the top. Without an item under the cursor, nothing
/// changes.
pub open spec fn toggle_show_features_spec(v: AppView) -> AppView {
    if current_crate_selected(v) is Some {
        AppView {
            features_cursor: Option::Some(0usize),
            is_showing_features: !v.is_showing_features,
            ..v
        }
    } else {
        v
    }
}

/// Toggling the feature under the feature cursor of the item under the
/// item cursor. While the item is still loading, nothing changes.
pub open spec fn toggle_one_feature_spec(v: AppView) -> AppView {
    match v.crates_cursor {
        Option::Some(i) => if (i as int) < current_items(v).len() && !current_items(
            v,
        )[i as int].is_loading {
            with_current_items(
                v,
                current_items(v).update(
                    i as int,
                    toggle_feature_spec(current_items(v)[i as int], v.features_cursor),
                ),
            )
        } else {
            v
        },
        Option::None => v,
    }
}

/// Law: the loading guard. Toggling a feature of an item whose feature
/// list has not arrived (`features == None`) — or of an item still
/// loading, or with no item under the cursor — changes nothing at all:
/// no item, no cursor, and not the to-install list.
pub proof fn lemma_feature_toggle_loading_guard(v: AppView)
    requires
        v.wf(),
        match current_crate_selected(v) {
            Option::Some(c) => c.features is None,
            Option::None => true,
        },
    ensures
        toggle_one_feature_spec(v) == v,
{
    match v.crates_cursor {
        Option::Some(i) => {
            if (i as int) < current_items(v).len() && !current_items(v)[i as int].is_loading {
                let items = current_items(v);
                assert(toggle_feature_spec(items[i as int], v.features_cursor) == items[i as int]);
                assert(items.update(i as int, items[i as int]) =~= items);
                assert(v.crate_lists.update(v.crate_categories.index_spec(), items)
                    =~= v.crate_lists);
            }
        },
        Option::None => {},
    }
}

/// Whether any feature of `c` is selected.
pub open spec fn any_feature_selected(c: CrateItemView) -> bool {
    match c.features {
        Option::Some(fs) => crate::view::widgets::some_feature_selected(fs),
        Option::None => false,
    }
}

/// Selecting the item under the cursor when it has a selected feature but
/// is itself still unselected: choosing a feature implies wanting the
/// crate.
pub open spec fn select_if_features_selected_spec(v: AppView) -> AppView {
    match v.crates_cursor {
        Option::Some(i) => if (i as int) < current_items(v).len() && any_feature_selected(
            current_items(v)[i as int],
        ) && current_items(v)[i as int].status != ItemListStatus::Selected {
            with_current_items(
                v,
                current_items(v).update(
                    i as int,
                    CrateItemView {
                        status: ItemListStatus::Selected,
                        ..current_items(v)[i as int]
                    },
                ),
            )
        } else {
            v
        },
        Option::None => v,
    }
}

impl App {
    /// Builds the browser state from a parsed catalog: every category's
    /// table becomes its item list; nothing is selected, everything is
    /// still loading, the first category and item are under the cursors.
    pub fn setup<P: ContentParser>(parser: &P) -> (r: App)
        ensures
            r@.wf(),
            r@.crates_to_add =~= Seq::<CrateToAddView>::empty(),
            r@.crate_categories == CategoriesWidget::General,
            r@.crates_cursor == Option::Some(0usize),
            r@.features_cursor == Option::Some(0usize),
            r@.exit == false,
            r@.is_showing_features == false,
            r@.is_adding_dependencies == false,
            r@.popup_message =~= Seq::<char>::empty(),
            r@.crate_lists =~= seq![
                crate::backend::items_of_entries(parser.general_table_spec()),
                crate::backend::items_of_entries(
                    parser.crates_with_sub_table_spec(
                        crate::backend::CategoriesWithSubCategories::Common,
                    ),
                ),
                crate::backend::items_of_entries(
                    parser.crates_table_spec(crate::backend::Categories::Math),
                ),
                crate::backend::items_of_entries(
                    parser.crates_table_spec(crate::backend::Categories::FFI),
                ),
                crate::backend::items_of_entries(
                    parser.crates_table_spec(crate::backend::Categories::Cryptography),
                ),
                crate::backend::items_of_entries(
                    parser.crates_with_sub_table_spec(
                        crate::backend::CategoriesWithSubCategories::Concurrency,
                    ),
                ),
                crate::backend::items_of_entries(
                    parser.crates_with_sub_table_spec(
                        crate::backend::CategoriesWithSubCategories::Networking,
                    ),
                ),
                crate::backend::items_of_entries(
                    parser.crates_with_sub_table_spec(
                        crate::backend::CategoriesWithSubCategories::Databases,
                    ),
                ),
                crate::backend::items_of_entries(
                    parser.crates_with_sub_table_spec(
                        crate::backend::CategoriesWithSubCategories::Clis,
                    ),
                ),
                crate::backend::items_of_entries(
                    parser.crates_with_sub_table_spec(
                        crate::backend::CategoriesWithSubCategories::Graphics,
                    ),
                ),
            ],
    {
        let general_crates = parser.get_general_crates().into_item_list();
        let common_crates = parser.get_crates_with_sub(
            &crate::backend::CategoriesWithSubCategories::Common,
        ).into_item_list();
        let math_crates = parser.get_crates(&crate::backend::Categories::Math).into_item_list();
        let ffi_crates = parser.get_crates(&crate::backend::Categories::FFI).into_item_list();
        let cryptography_crates = parser.get_crates(
            &crate::backend::Categories::Cryptography,
        ).into_item_list();
        let concurrency_crates = parser.get_crates_with_sub(
            &crate::backend::CategoriesWithSubCategories::Concurrency,
        ).into_item_list();
        let networking_crates = parser.get_crates_with_sub(
            &crate::backend::CategoriesWithSubCategories::Networking,
        ).into_item_list();
        let database_crates = parser.get_crates_with_sub(
            &crate::backend::CategoriesWithSubCategories::Databases,
        ).into_item_list();
        let clis_crates = parser.get_crates_with_sub(
            &crate::backend::CategoriesWithSubCategories::Clis,
        ).into_item_list();
        let graphics_crates = parser.get_crates_with_sub(
            &crate::backend::CategoriesWithSubCategories::Graphics,
        ).into_item_list();
        let mut crate_lists: Vec<Vec<CrateItemList>> = Vec::new();
        crate_lists.push(general_crates);
        crate_lists.push(common_crates);
        crate_lists.push(math_crates);
        crate_lists.push(ffi_crates);
        crate_lists.push(cryptography_crates);
        crate_lists.push(concurrency_crates);
        crate_lists.push(networking_crates);
        crate_lists.push(database_crates);
        crate_lists.push(clis_crates);
        crate_lists.push(graphics_crates);
        let r = App {
            crates_to_add: Vec::new(),
            crate_lists,
            crate_categories: CategoriesWidget::General,
            crates_cursor: Option::Some(0),
            features_cursor: Option::Some(0),
            exit: false,
            is_showing_features: false,
            is_adding_dependencies: false,
            popup_message: String::new(),
        };
        proof {
            assert(r@.crates_to_add =~= Seq::<CrateToAddView>::empty());
        }
        r
    }

    /// Sets the message the install overlay shows.
    pub fn set_adding_deps_operation_message(&mut self, message: &str)
        ensures
            final(self)@ == (AppView { popup_message: message@, ..old(self)@ }),
    {
        self.popup_message = message.to_owned();
    }

    /// Marks the dispatch loop for termination.
    pub fn exit(&mut self)
        ensures
            final(self)@ == (AppView { exit: true, ..old(self)@ }),
    {
        self.exit = true;
    }

    /// Opens the install overlay.
    pub fn show_popup(&mut self)
        ensures
            final(self)@ == (AppView { is_adding_dependencies: true, ..old(self)@ }),
    {
        self.is_adding_dependencies = true;
    }

    pub fn next_category(&mut self)
        ensures
            final(self)@ == next_category_spec(old(self)@),
    {
        self.crates_cursor = Option::Some(0);
        self.crate_categories = self.crate_categories.next();
    }

    pub fn previos_category(&mut self)
        ensures
            final(self)@ == previous_category_spec(old(self)@),
    {
        self.crates_cursor = Option::Some(0);
        self.crate_categories = self.crate_categories.previous();
    }

    /// The length of the current category's item list.
    fn current_len(&self) -> (n: usize)
        requires
            self@.wf(),
        ensures
            n == current_items(self@).len(),
    {
        let index = self.crate_categories.index();
        let n = self.crate_lists[index].len();
        proof {
            assert(self.crate_lists.deep_view()[index as int]
                == self.crate_lists@[index as int].deep_view());
        }
        n
    }

    pub fn scroll_down(&mut self)
        requires
            old(self)@.wf(),
        ensures
            final(self)@ == scroll_down_spec(old(self)@),
    {
        let n = self.current_len();
        let next: usize = match self.crates_cursor {
            Option::Some(index) => {
                let last: usize = if n == 0 {
                    0
                } else {
                    n - 1
                };
                if index == last {
                    0
                } else if index == usize::MAX {
                    index
                } else {
                    index + 1
                }
            },
            Option::None => 0,
        };
        self.crates_cursor = Option::Some(next);
    }

    pub fn scroll_up(&mut self)
        requires
            old(self)@.wf(),
        ensures
            final(self)@ == scroll_up_spec(old(self)@),
    {
        let n = self.current_len();
        let next: usize = match self.crates_cursor {
            Option::Some(index) => {
                if index == 0 {
                    if n == 0 {
                        0
                    } else {
                        n - 1
                    }
                } else {
                    index - 1
                }
            },
            Option::None => 1,
        };
        self.crates_cursor = Option::Some(next);
    }

    /// The item under the cursor, with its position, when there is one.
    pub fn get_current_crate_selected(&self) -> (r: Option<(CrateItemList, usize)>)
        requires
            self@.wf(),
        ensures
            match r {
                Option::Some(pair) => current_crate_selected(self@) == Option::Some(pair.0@)
                    && self@.crates_cursor == Option::Some(pair.1),
                Option::None => current_crate_selected(self@) is None,
            },
    {
        match self.crates_cursor {
            Option::Some(index) => {
                let list_index = self.crate_categories.index();
                let list = &self.crate_lists[list_index];
                proof {
                    assert(self.crate_lists.deep_view()[list_index as int]
                        == self.crate_lists@[list_index as int].deep_view());
                }
                if index < list.len() {
                    let item = list[index].clone();
                    proof {
                        assert(list.deep_view()[index as int] == list@[index as int].deep_view());
                    }
                    Option::Some((item, index))
                } else {
                    Option::None
                }
            },
            Option::None => Option::None,
        }
    }

    /// The number of features the item under the cursor currently lists.
    fn current_features_count(&self) -> (n: usize)
        requires
            self@.wf(),
        ensures
            n == current_features_len(self@),
    {
        match self.get_current_crate_selected() {
            Option::Some(pair) => match &pair.0.features {
                Option::Some(fs) => fs.len(),
                Option::None => 0,
            },
            Option::None => 0,
        }
    }

    pub fn scroll_down_features(&mut self)
        requires
            old(self)@.wf(),
        ensures
            final(self)@ == scroll_down_features_spec(old(self)@),
    {
        let next: Option<usize> = match self.features_cursor {
            Option::Some(index) => {
                match self.get_current_crate_selected() {
                    Option::Some(_) => {
                        let n = self.current_features_count();
                        let last: usize = if n == 0 {
                            0
                        } else {
                            n - 1
                        };
                        if index == last {
                            Option::Some(0)
                        } else if index == usize::MAX {
                            Option::Some(index)
                        } else {
                            Option::Some(index + 1)
                        }
                    },
                    Option::None => {
                        return ;
                    },
                }
            },
            Option::None => Option::Some(0),
        };
        self.features_cursor = next;
    }

    pub fn scroll_up_features(&mut self)
        requires
            old(self)@.wf(),
        ensures
            final(self)@ == scroll_up_features_spec(old(self)@),
    {
        let next: Option<usize> = match self.features_cursor {
            Option::Some(index) => {
                match self.get_current_crate_selected() {
                    Option::Some(_) => {
                        if index == 0 {
                            let n = self.current_features_count();
                            if n == 0 {
                                Option::Some(0)
                            } else {
                                Option::Some(n - 1)
                            }
                        } else {
                            Option::Some(index - 1)
                        }
                    },
                    Option::None => {
                        return ;
                    },
                }
            },
            Option::None => Option::Some(1),
        };
        self.features_cursor = next;
    }

    /// Toggles every item in the current category.
    pub fn toggle_select_all_dependencies(&mut self)
        requires
            old(self)@.wf(),
        ensures
            final(self)@ == toggle_all_spec(old(self)@),
            final(self)@.wf(),
    {
        let index = self.crate_categories.index();
        let ghost pre = self.crate_lists.deep_view();
        let list = vec_index_mut(&mut self.crate_lists, index);
        toggle_status_all(list);
        proof {
            assert forall|k: int| 0 <= k < self.crate_lists@.len() implies
                self.crate_lists.deep_view()[k] == (if k == index {
                current_items(old(self)@).map_values(|c: CrateItemView| toggled_item(c))
            } else {
                pre[k]
            }) by {
                assert(self.crate_lists.deep_view()[k] == self.crate_lists@[k].deep_view());
            }
            assert(self.crate_lists.deep_view() =~= pre.update(
                index as int,
                current_items(old(self)@).map_values(|c: CrateItemView| toggled_item(c)),
            ));
        }
    }

    /// Toggles the item under the cursor.
    pub fn toggle_select_dependencie(&mut self)
        requires
            old(self)@.wf(),
        ensures
            final(self)@ == toggle_one_spec(old(self)@),
            final(self)@.wf(),
    {
        let index_crate_selected = match self.crates_cursor {
            Option::Some(i) => i,
            Option::None => {
                return ;
            },
        };
        let list_index = self.crate_categories.index();
        let ghost pre = self.crate_lists.deep_view();
        let in_range = {
            let list_ref = &self.crate_lists[list_index];
            proof {
                assert(self.crate_lists.deep_view()[list_index as int]
                    == self.crate_lists@[list_index as int].deep_view());
            }
            index_crate_selected < list_ref.len()
        };
        if in_range {
            let list = vec_index_mut(&mut self.crate_lists, list_index);
            let ghost pre_list = list.deep_view();
            let item = vec_index_mut(list, index_crate_selected);
            toggle_status_one_crate(item);
            proof {
                assert forall|k: int| 0 <= k < list@.len() implies list.deep_view()[k] == (if k
                    == index_crate_selected {
                    toggled_item(pre_list[k])
                } else {
                    pre_list[k]
                }) by {
                    assert(list.deep_view()[k] == list@[k].deep_view());
                }
                assert(list.deep_view() =~= pre_list.update(
                    index_crate_selected as int,
                    toggled_item(pre_list[index_crate_selected as int]),
                ));
                assert forall|k: int| 0 <= k < self.crate_lists@.len() implies
                    self.crate_lists.deep_view()[k] == (if k == list_index {
                    list.deep_view()
                } else {
                    pre[k]
                }) by {
                    assert(self.crate_lists.deep_view()[k] == self.crate_lists@[k].deep_view());
                }
                assert(self.crate_lists.deep_view() =~= pre.update(
                    list_index as int,
                    pre_list.update(
                        index_crate_selected as int,
                        toggled_item(pre_list[index_crate_selected as int]),
                    ),
                ));
            }
        } else {
            proof {
                assert(self.crate_lists.deep_view() =~= pre);
            }
        }
    }

    /// Reconciles the to-install list with the current category's items.
    pub fn push_or_remove_selected_crates(&mut self)
        requires
            old(self)@.wf(),
        ensures
            final(self)@ == push_or_remove_selected_spec(old(self)@),
            final(self)@.wf(),
    {
        let list_index = self.crate_categories.index();
        let list = &self.crate_lists[list_index];
        proof {
            assert(self.crate_lists.deep_view()[list_index as int]
                == self.crate_lists@[list_index as int].deep_view());
        }
        push_or_remove_crates(&mut self.crates_to_add, list);
    }

    /// Opens or closes the feature detail view.
    pub fn toggle_show_features(&mut self)
        requires
            old(self)@.wf(),
        ensures
            final(self)@ == toggle_show_features_spec(old(self)@),
            final(self)@.wf(),
    {
        match self.get_current_crate_selected() {
            Option::Some(_) => {
                self.features_cursor = Option::Some(0);
                self.is_showing_features = !self.is_showing_features;
            },
            Option::None => {},
        }
    }

    /// Toggles the feature under the feature cursor of the item under the
    /// item cursor; a still-loading item silently ignores the toggle.
    pub fn toggle_select_one_feature(&mut self)
        requires
            old(self)@.wf(),
        ensures
            final(self)@ == toggle_one_feature_spec(old(self)@),
            final(self)@.wf(),
    {
        let index_current_crate_selected = match self.crates_cursor {
            Option::Some(i) => i,
            Option::None => {
                return ;
            },
        };
        let list_index = self.crate_categories.index();
        let ghost pre = self.crate_lists.deep_view();
        let in_range_and_loaded = {
            let list_ref = &self.crate_lists[list_index];
            proof {
                assert(self.crate_lists.deep_view()[list_index as int]
                    == self.crate_lists@[list_index as int].deep_view());
            }
            if index_current_crate_selected < list_ref.len() {
                proof {
                    assert(list_ref.deep_view()[index_current_crate_selected as int]
                        == list_ref@[index_current_crate_selected as int].deep_view());
                }
                !list_ref[index_current_crate_selected].is_loading
            } else {
                false
            }
        };
        if in_range_and_loaded {
            let features_cursor = self.features_cursor;
            let list = vec_index_mut(&mut self.crate_lists, list_index);
            let ghost pre_list = list.deep_view();
            let current_crate = vec_index_mut(list, index_current_crate_selected);
            {
                toggle_one_feature(current_crate, features_cursor);
                proof {
                    assert forall|k: int| 0 <= k < list@.len() implies list.deep_view()[k] == (
                    if k == index_current_crate_selected {
                        toggle_feature_spec(pre_list[k], old(self)@.features_cursor)
                    } else {
                        pre_list[k]
                    }) by {
                        assert(list.deep_view()[k] == list@[k].deep_view());
                    }
                    assert(list.deep_view() =~= pre_list.update(
                        index_current_crate_selected as int,
                        toggle_feature_spec(
                            pre_list[index_current_crate_selected as int],
                            old(self)@.features_cursor,
                        ),
                    ));
                    assert forall|k: int| 0 <= k < self.crate_lists@.len() implies
                        self.crate_lists.deep_view()[k] == (if k == list_index {
                        list.deep_view()
                    } else {
                        pre[k]
                    }) by {
                        assert(self.crate_lists.deep_view()[k]
                            == self.crate_lists@[k].deep_view());
                    }
                    assert(self.crate_lists.deep_view() =~= pre.update(
                        list_index as int,
                        pre_list.update(
                            index_current_crate_selected as int,
                            toggle_feature_spec(
                                pre_list[index_current_crate_selected as int],
                                old(self)@.features_cursor,
                            ),
                        ),
                    ));
                }
            }
        }
    }
}

} // verus!
