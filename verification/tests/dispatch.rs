//! The action dispatch loop: transitions, returned commands, and the
//! end-to-end selection scenario.

use get_blessed::content_parser::jsoncontentparser::JsonContentParser;
use get_blessed::scraper::{CratesData, Group, Purpose, Recommendation};
use get_blessed::tui::handler::{update, Action, Command};
use get_blessed::view::app::App;
use get_blessed::view::widgets::{CategoriesWidget, CrateItemList, FeatureItemList,
    ItemListStatus, CATEGORY_COUNT};

fn item(name: &str) -> CrateItemList {
    CrateItemList::new(name.to_owned(), String::new(), ItemListStatus::Unselected, None)
}

fn features(names: &[&str]) -> Vec<FeatureItemList> {
    names.iter().map(|n| FeatureItemList::new((*n).to_owned())).collect()
}

fn two_by_two_app() -> App {
    let mut lists: Vec<Vec<CrateItemList>> = (0..CATEGORY_COUNT).map(|_| Vec::new()).collect();
    lists[0] = vec![item("item0"), item("item1")];
    lists[1] = vec![item("item2"), item("item3")];
    App {
        crates_to_add: Vec::new(),
        crate_lists: lists,
        crate_categories: CategoriesWidget::General,
        crates_cursor: Some(0),
        features_cursor: Some(0),
        exit: false,
        is_showing_features: false,
        is_adding_dependencies: false,
        popup_message: String::new(),
    }
}

#[test]
fn example_selection_scenario() {
    let mut app = two_by_two_app();

    // toggling item 0 of the first category puts one record, without
    // features, on the to-install list
    update(&mut app, Action::ToggleOne);
    assert_eq!(app.crates_to_add.len(), 1);
    assert_eq!(app.crates_to_add[0].crate_name, "item0");
    assert_eq!(app.crates_to_add[0].features, None);

    // enrichment reports three features: the record is unchanged until the
    // user explicitly selects one
    update(
        &mut app,
        Action::UpdateFeatures(
            CategoriesWidget::General,
            Some(features(&["sub0", "sub1", "sub2"])),
            0,
        ),
    );
    assert_eq!(app.crates_to_add[0].features, None);
    assert!(!app.crate_lists[0][0].is_loading);

    // open the detail view, move to feature 1, select it, close the view
    update(&mut app, Action::ToggleShowFeatures);
    assert!(app.is_showing_features);
    update(&mut app, Action::ScrollDown);
    update(&mut app, Action::ToggleOne);
    update(&mut app, Action::ToggleShowFeatures);
    assert!(!app.is_showing_features);

    // the record now carries exactly the selected feature name
    assert_eq!(app.crates_to_add.len(), 1);
    assert_eq!(app.crates_to_add[0].features, Some(vec!["sub1".to_owned()]));
}

#[test]
fn enrichment_and_toggle_commute() {
    let enrich = || {
        Action::UpdateFeatures(CategoriesWidget::General, Some(features(&["f0", "f1"])), 0)
    };

    let mut enrich_first = two_by_two_app();
    update(&mut enrich_first, enrich());
    update(&mut enrich_first, Action::ToggleOne);

    let mut toggle_first = two_by_two_app();
    update(&mut toggle_first, Action::ToggleOne);
    update(&mut toggle_first, enrich());

    assert_eq!(enrich_first.crate_lists[0][0], toggle_first.crate_lists[0][0]);
    assert_eq!(enrich_first.crate_lists[0][0].status, ItemListStatus::Selected);
    assert!(enrich_first.crate_lists[0][0].features.is_some());
}

#[test]
fn toggle_all_touches_only_the_current_category() {
    let mut app = two_by_two_app();
    update(&mut app, Action::ToggleAll);
    assert_eq!(app.crate_lists[0][0].status, ItemListStatus::Selected);
    assert_eq!(app.crate_lists[0][1].status, ItemListStatus::Selected);
    assert_eq!(app.crate_lists[1][0].status, ItemListStatus::Unselected);
    assert_eq!(app.crate_lists[1][1].status, ItemListStatus::Unselected);
    let names: Vec<&str> = app.crates_to_add.iter().map(|r| r.crate_name.as_str()).collect();
    assert_eq!(names, vec!["item0", "item1"]);
}

#[test]
fn toggle_sequences_never_duplicate_records() {
    let mut app = two_by_two_app();
    let script = [
        Action::ToggleOne,
        Action::ToggleAll,
        Action::ScrollDown,
        Action::ToggleOne,
        Action::ScrollNextCategory,
        Action::ToggleAll,
        Action::ScrollPreviousCategory,
        Action::ToggleAll,
        Action::ToggleOne,
    ];
    for action in script {
        update(&mut app, action);
        for (i, a) in app.crates_to_add.iter().enumerate() {
            for (j, b) in app.crates_to_add.iter().enumerate() {
                assert!(i == j || a.crate_name != b.crate_name);
            }
        }
    }
}

#[test]
fn navigation_is_blocked_while_detail_view_is_open() {
    let mut app = two_by_two_app();
    update(&mut app, Action::ToggleShowFeatures);
    update(&mut app, Action::ScrollNextCategory);
    assert_eq!(app.crate_categories, CategoriesWidget::General);
    update(&mut app, Action::ScrollPreviousCategory);
    assert_eq!(app.crate_categories, CategoriesWidget::General);
}

#[test]
fn closing_the_detail_view_promotes_a_crate_with_chosen_features() {
    let mut app = two_by_two_app();
    update(
        &mut app,
        Action::UpdateFeatures(CategoriesWidget::General, Some(features(&["f0"])), 0),
    );
    update(&mut app, Action::ToggleShowFeatures);
    update(&mut app, Action::ToggleOne);  // selects feature f0
    assert_eq!(app.crate_lists[0][0].status, ItemListStatus::Unselected);
    update(&mut app, Action::ToggleShowFeatures);  // closing commits
    assert_eq!(app.crate_lists[0][0].status, ItemListStatus::Selected);
    assert_eq!(app.crates_to_add.len(), 1);
    assert_eq!(app.crates_to_add[0].features, Some(vec!["f0".to_owned()]));
}

#[test]
fn toggling_a_feature_of_a_loading_crate_changes_nothing() {
    let mut app = two_by_two_app();
    update(&mut app, Action::ToggleShowFeatures);
    let before_lists = app.crate_lists.clone();
    let before_records = app.crates_to_add.clone();
    update(&mut app, Action::ToggleOne);
    assert_eq!(app.crate_lists, before_lists);
    assert_eq!(app.crates_to_add, before_records);
}

#[test]
fn enrichment_for_a_selected_crate_keeps_the_selection() {
    let mut app = two_by_two_app();
    update(&mut app, Action::ToggleOne);
    assert_eq!(app.crate_lists[0][0].status, ItemListStatus::Selected);
    update(
        &mut app,
        Action::UpdateFeatures(CategoriesWidget::General, Some(features(&["f0"])), 0),
    );
    assert_eq!(app.crate_lists[0][0].status, ItemListStatus::Selected);
    let fs = app.crate_lists[0][0].features.as_ref().unwrap();
    assert_eq!(fs.len(), 1);
    assert_eq!(fs[0].status, ItemListStatus::Unselected);
}

#[test]
fn enrichment_without_features_only_ends_loading() {
    let mut app = two_by_two_app();
    update(&mut app, Action::UpdateFeatures(CategoriesWidget::General, None, 1));
    assert!(!app.crate_lists[0][1].is_loading);
    assert_eq!(app.crate_lists[0][1].features, None);
    // the other item is untouched
    assert!(app.crate_lists[0][0].is_loading);
}

#[test]
fn update_returns_the_outside_work_to_start() {
    let mut app = two_by_two_app();
    assert_eq!(update(&mut app, Action::FetchFeatures), Command::FetchFeatures);
    assert_eq!(update(&mut app, Action::ShowLoadingAddingDeps), Command::BeginAddingDeps);
    assert!(app.is_adding_dependencies);
    assert_eq!(update(&mut app, Action::AddingDeps), Command::RunInstaller);
    assert_eq!(
        update(&mut app, Action::ShowAddingDependenciesOperation),
        Command::NotifyAndQuit
    );
    assert!(app.popup_message.starts_with("Dependencies added successfully"));
    assert_eq!(update(&mut app, Action::CheckDocs), Command::OpenDocs);
    assert_eq!(update(&mut app, Action::CheckCratesIo), Command::OpenCratesIo);
    assert_eq!(update(&mut app, Action::Tick), Command::Idle);
    assert!(!app.exit);
    assert_eq!(update(&mut app, Action::Quit), Command::Idle);
    assert!(app.exit);
}

#[test]
fn setup_builds_one_list_per_category() {
    let parser = JsonContentParser::parse_content(CratesData { crate_groups: Vec::new() });
    let app = App::setup(&parser);
    assert_eq!(app.crate_lists.len(), CATEGORY_COUNT);
    assert_eq!(app.crate_categories, CategoriesWidget::General);
    assert_eq!(app.crates_cursor, Some(0));
    assert!(app.crates_to_add.is_empty());
    assert!(!app.exit);
}

#[test]
fn setup_lists_every_catalog_item_in_order() {
    let data = CratesData {
        crate_groups: vec![Group {
            name: "networking".to_owned(),
            subgroups: None,
            purposes: Some(vec![Purpose {
                name: "http".to_owned(),
                recommendations: vec![
                    Recommendation { name: "reqwest".to_owned(), notes: None },
                    Recommendation { name: "hyper".to_owned(), notes: None },
                ],
            }]),
        }],
    };
    let parser = JsonContentParser::parse_content(data);
    let app = App::setup(&parser);
    let networking = &app.crate_lists[CategoriesWidget::Networking.index()];
    assert_eq!(networking.len(), 2);
    assert_eq!(networking[0].name, "reqwest");
    assert_eq!(networking[1].name, "hyper");
    assert!(networking[0].is_loading);
    assert_eq!(networking[0].description, "No description");
}
