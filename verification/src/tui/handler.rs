//! The action dispatch loop's heart: one message in, one state transition
//! out, strictly serialized. The loop around it performs the returned
//! command (spawning fetches, running the installer, opening a browser)
//! and feeds the resulting actions back in; it never mutates state itself.

use vstd::prelude::*;
use vstd::std_specs::vec::vec_index_mut;

use crate::utils::{lemma_load_toggle_commute, lemma_reconcile_no_duplicate_names, load_features,
    loaded_item, record_names, select_crate_if_features_are_selected};
use crate::view::app::{next_category_spec, previous_category_spec, push_or_remove_selected_spec,
    scroll_down_features_spec, scroll_down_spec, scroll_up_features_spec, scroll_up_spec,
    select_if_features_selected_spec, toggle_all_spec, toggle_one_feature_spec, toggle_one_spec,
    toggle_show_features_spec, App, AppView};
use crate::view::widgets::{CategoriesWidget, FeatureItemList, FeatureItemView};

verus! {

/// Everything that can happen to the browser: user input, enrichment
/// results, and the install workflow's milestones.
#[derive(Debug)]
pub enum Action {
    FetchFeatures,
    UpdateFeatures(CategoriesWidget, Option<Vec<FeatureItemList>>, usize),
    Tick,
    ToggleShowFeatures,
    ShowLoadingAddingDeps,
    AddingDeps,
    ScrollUp,
    ScrollDown,
    ScrollNextCategory,
    ScrollPreviousCategory,
    ToggleAll,
    ToggleOne,
    CheckDocs,
    CheckCratesIo,
    ShowAddingDependenciesOperation,
    Quit,
}

/// The mathematical value of an [`Action`].
pub ghost enum ActionView {
    FetchFeatures,
    UpdateFeatures(CategoriesWidget, Option<Seq<FeatureItemView>>, usize),
    Tick,
    ToggleShowFeatures,
    ShowLoadingAddingDeps,
    AddingDeps,
    ScrollUp,
    ScrollDown,
    ScrollNextCategory,
    ScrollPreviousCategory,
    ToggleAll,
    ToggleOne,
    CheckDocs,
    CheckCratesIo,
    ShowAddingDependenciesOperation,
    Quit,
}

impl View for Action {
    type V = ActionView;

    open spec fn view(&self) -> ActionView {
        match self {
            Action::FetchFeatures => ActionView::FetchFeatures,
            Action::UpdateFeatures(category, features, index) => ActionView::UpdateFeatures(
                *category,
                features.deep_view(),
                *index,
            ),
            Action::Tick => ActionView::Tick,
            Action::ToggleShowFeatures => ActionView::ToggleShowFeatures,
            Action::ShowLoadingAddingDeps => ActionView::ShowLoadingAddingDeps,
            Action::AddingDeps => ActionView::AddingDeps,
            Action::ScrollUp => ActionView::ScrollUp,
            Action::ScrollDown => ActionView::ScrollDown,
            Action::ScrollNextCategory => ActionView::ScrollNextCategory,
            Action::ScrollPreviousCategory => ActionView::ScrollPreviousCategory,
            Action::ToggleAll => ActionView::ToggleAll,
            Action::ToggleOne => ActionView::ToggleOne,
            Action::CheckDocs => ActionView::CheckDocs,
            Action::CheckCratesIo => ActionView::CheckCratesIo,
            Action::ShowAddingDependenciesOperation => ActionView::ShowAddingDependenciesOperation,
            Action::Quit => ActionView::Quit,
        }
    }
}

/// The outside work one transition asks the loop to start. The loop
/// performs it concurrently and sends the follow-up actions back into the
/// channel; the state itself never blocks.
#[derive(Debug, Clone, Copy, PartialEq, Eq, Structural)]
pub enum Command {
    /// Nothing to do beyond the state change.
    Idle,
    /// Spawn one enrichment fetch per listed item.
    FetchFeatures,
    /// Send `AddingDeps` back into the channel.
    BeginAddingDeps,
    /// Run the installer on the current to-install list, then report.
    RunInstaller,
    /// Show the completion message briefly, then send `Quit`.
    NotifyAndQuit,
    /// Open the documentation page of the item under the cursor.
    OpenDocs,
    /// Open the registry page of the item under the cursor.
    OpenCratesIo,
}

/// The message shown once the installer has finished.
pub open spec fn deps_added_message() -> Seq<char> {
    "Dependencies added successfully \u{2713}"@
}

/// The state after `action` has been applied to `v`: the single transition
/// function of the dispatch loop.
pub open spec fn update_spec(v: AppView, action: ActionView) -> AppView {
    match action {
        ActionView::ToggleShowFeatures => {
            let v1 = toggle_show_features_spec(v);
            if !v1.is_showing_features {
                push_or_remove_selected_spec(select_if_features_selected_spec(v1))
            } else {
                v1
            }
        },
        ActionView::ShowAddingDependenciesOperation => AppView {
            popup_message: deps_added_message(),
            ..v
        },
        ActionView::CheckDocs => v,
        ActionView::CheckCratesIo => v,
        ActionView::ScrollPreviousCategory => if !v.is_showing_features {
            previous_category_spec(v)
        } else {
            v
        },
        ActionView::ScrollNextCategory => if !v.is_showing_features {
            next_category_spec(v)
        } else {
            v
        },
        ActionView::ToggleOne => if v.is_showing_features {
            toggle_one_feature_spec(v)
        } else {
            push_or_remove_selected_spec(toggle_one_spec(v))
        },
        ActionView::ToggleAll => if !v.is_showing_features {
            push_or_remove_selected_spec(toggle_all_spec(v))
        } else {
            v
        },
        ActionView::Tick => v,
        ActionView::ScrollUp => if v.is_showing_features {
            scroll_up_features_spec(v)
        } else {
            scroll_up_spec(v)
        },
        ActionView::ScrollDown => if v.is_showing_features {
            scroll_down_features_spec(v)
        } else {
            scroll_down_spec(v)
        },
        ActionView::ShowLoadingAddingDeps => AppView { is_adding_dependencies: true, ..v },
        ActionView::AddingDeps => v,
        ActionView::FetchFeatures => v,
        ActionView::UpdateFeatures(category, features, index) => {
            let li = category.index_spec();
            if (index as int) < v.crate_lists[li].len() {
                AppView {
                    crate_lists: v.crate_lists.update(
                        li,
                        v.crate_lists[li].update(
                            index as int,
                            loaded_item(v.crate_lists[li][index as int], features),
                        ),
                    ),
                    ..v
                }
            } else {
                v
            }
        },
        ActionView::Quit => AppView { exit: true, ..v },
    }
}

/// The outside work each action asks for.
pub open spec fn command_spec(action: ActionView) -> Command {
    match action {
        ActionView::ShowLoadingAddingDeps => Command::BeginAddingDeps,
        ActionView::AddingDeps => Command::RunInstaller,
        ActionView::ShowAddingDependenciesOperation => Command::NotifyAndQuit,
        ActionView::FetchFeatures => Command::FetchFeatures,
        ActionView::CheckDocs => Command::OpenDocs,
        ActionView::CheckCratesIo => Command::OpenCratesIo,
        _ => Command::Idle,
    }
}

/// Normalizes one enrichment result: an empty list of feature names means
/// "no features" — indistinguishable, by design, from a failed fetch —
/// and any names become unselected feature items, in the given order.
pub fn normalize_features(names: Vec<String>) -> (r: Option<Vec<FeatureItemList>>)
    ensures
        names.deep_view().len() == 0 ==> r is None,
        names.deep_view().len() > 0 ==> (match r {
            Option::Some(fs) => fs.deep_view() == names.deep_view().map_values(
                |n: Seq<char>| FeatureItemView { name: n, status: crate::view::widgets::ItemListStatus::Unselected },
            ),
            Option::None => false,
        }),
{
    if names.is_empty() {
        Option::None
    } else {
        Option::Some(crate::backend::features_from_names(&names))
    }
}

/// Law: however the loop is driven, the to-install list never holds two
/// records with the same crate name. Every transition either leaves the
/// list alone or reconciles it, and reconciliation keeps the names
/// pairwise distinct; the browser starts with an empty list.
pub proof fn lemma_update_preserves_unique_names(v: AppView, action: ActionView)
    requires
        record_names(v.crates_to_add).no_duplicates(),
    ensures
        record_names(update_spec(v, action).crates_to_add).no_duplicates(),
{
    match action {
        ActionView::ToggleShowFeatures => {
            let v1 = toggle_show_features_spec(v);
            if !v1.is_showing_features {
                let v2 = select_if_features_selected_spec(v1);
                lemma_reconcile_no_duplicate_names(
                    v2.crates_to_add,
                    crate::view::app::current_items(v2),
                );
            }
        },
        ActionView::ToggleOne => {
            if !v.is_showing_features {
                let v1 = toggle_one_spec(v);
                lemma_reconcile_no_duplicate_names(
                    v1.crates_to_add,
                    crate::view::app::current_items(v1),
                );
            }
        },
        ActionView::ToggleAll => {
            if !v.is_showing_features {
                let v1 = toggle_all_spec(v);
                lemma_reconcile_no_duplicate_names(
                    v1.crates_to_add,
                    crate::view::app::current_items(v1),
                );
            }
        },
        _ => {},
    }
}

/// Law: an enrichment result and a selection toggle for the same item can
/// be processed in either order; the item ends in the same state — same
/// status, same feature list — both ways. (The to-install record of the
/// item is re-derived on the next reconciliation either way.)
pub proof fn lemma_update_order_independent(
    v: AppView,
    features: Option<Seq<FeatureItemView>>,
    index: usize,
)
    requires
        v.wf(),
        !v.is_showing_features,
        v.crates_cursor == Option::Some(index),
        (index as int) < crate::view::app::current_items(v).len(),
    ensures
        ({
            let enrich = ActionView::UpdateFeatures(v.crate_categories, features, index);
            let enrich_first = update_spec(update_spec(v, enrich), ActionView::ToggleOne);
            let toggle_first = update_spec(update_spec(v, ActionView::ToggleOne), enrich);
            crate::view::app::current_items(enrich_first)[index as int]
                == crate::view::app::current_items(toggle_first)[index as int]
        }),
{
    let li = v.crate_categories.index_spec();
    let c = crate::view::app::current_items(v)[index as int];
    let enrich = ActionView::UpdateFeatures(v.crate_categories, features, index);
    let after_enrich = update_spec(v, enrich);
    let after_toggle = update_spec(v, ActionView::ToggleOne);
    lemma_load_toggle_commute(c, features);
    assert(crate::view::app::current_items(after_enrich)[index as int] == loaded_item(
        c,
        features,
    ));
    assert(crate::view::app::current_items(after_toggle)[index as int] == crate::utils::toggled_item(c));
    let enrich_first = update_spec(after_enrich, ActionView::ToggleOne);
    let toggle_first = update_spec(after_toggle, enrich);
    assert(crate::view::app::current_items(enrich_first)[index as int]
        == crate::utils::toggled_item(loaded_item(c, features)));
    assert(crate::view::app::current_items(toggle_first)[index as int] == loaded_item(
        crate::utils::toggled_item(c),
        features,
    ));
}

/// Applies one action to the state and says what outside work to start.
///
/// This is the sole writer of the browser state: the loop calls it once
/// per received action, strictly serialized.
pub fn update(app: &mut App, action: Action) -> (cmd: Command)
    requires
        old(app)@.wf(),
    ensures
        final(app)@ == update_spec(old(app)@, action@),
        final(app)@.wf(),
        cmd == command_spec(action@),
{
    match action {
        Action::ToggleShowFeatures => {
            app.toggle_show_features();
            // closing the detail view commits the feature choice: a crate
            // with a chosen feature is selected, then the list reconciled
            if !app.is_showing_features {
                select_crate_if_features_are_selected(app);
                app.push_or_remove_selected_crates();
            }
            Command::Idle
        },
        Action::ShowAddingDependenciesOperation => {
            app.set_adding_deps_operation_message("Dependencies added successfully \u{2713}");
            Command::NotifyAndQuit
        },
        Action::CheckDocs => Command::OpenDocs,
        Action::CheckCratesIo => Command::OpenCratesIo,
        Action::ScrollPreviousCategory => {
            if !app.is_showing_features {
                app.previos_category();
            }
            Command::Idle
        },
        Action::ScrollNextCategory => {
            if !app.is_showing_features {
                app.next_category();
            }
            Command::Idle
        },
        Action::ToggleOne => {
            if app.is_showing_features {
                app.toggle_select_one_feature();
            } else {
                app.toggle_select_dependencie();
                app.push_or_remove_selected_crates();
            }
            Command::Idle
        },
        Action::ToggleAll => {
            if !app.is_showing_features {
                app.toggle_select_all_dependencies();
                app.push_or_remove_selected_crates();
            }
            Command::Idle
        },
        Action::Tick => Command::Idle,
        Action::ScrollUp => {
            if app.is_showing_features {
                app.scroll_up_features();
            } else {
                app.scroll_up();
            }
            Command::Idle
        },
        Action::ScrollDown => {
            if app.is_showing_features {
                app.scroll_down_features();
            } else {
                app.scroll_down();
            }
            Command::Idle
        },
        Action::ShowLoadingAddingDeps => {
            app.show_popup();
            Command::BeginAddingDeps
        },
        Action::AddingDeps => Command::RunInstaller,
        Action::FetchFeatures => Command::FetchFeatures,
        Action::UpdateFeatures(category, features, index) => {
            let li = category.index();
            let ghost fv = features.deep_view();
            let ghost pre = app.crate_lists.deep_view();
            let in_range = {
                let list_ref = &app.crate_lists[li];
                proof {
                    assert(app.crate_lists.deep_view()[li as int]
                        == app.crate_lists@[li as int].deep_view());
                }
                index < list_ref.len()
            };
            if in_range {
                let list = vec_index_mut(&mut app.crate_lists, li);
                load_features(list, index, features);
                proof {
                    assert forall|k: int| 0 <= k < app.crate_lists@.len() implies
                        app.crate_lists.deep_view()[k] == (if k == li {
                        list.deep_view()
                    } else {
                        pre[k]
                    }) by {
                        assert(app.crate_lists.deep_view()[k] == app.crate_lists@[k].deep_view());
                    }
                    assert(app.crate_lists.deep_view() =~= pre.update(
                        li as int,
                        pre[li as int].update(
                            index as int,
                            loaded_item(pre[li as int][index as int], fv),
                        ),
                    ));
                }
            }
            Command::Idle
        },
        Action::Quit => {
            app.exit();
            Command::Idle
        },
    }
}

} // verus!
