//! Cyclic category navigation and list scrolling.

use get_blessed::view::app::App;
use get_blessed::view::widgets::{CategoriesWidget, CrateItemList, ItemListStatus,
    CATEGORY_COUNT};

fn item(name: &str) -> CrateItemList {
    CrateItemList::new(name.to_owned(), String::new(), ItemListStatus::Unselected, None)
}

fn empty_app() -> App {
    App {
        crates_to_add: Vec::new(),
        crate_lists: (0..CATEGORY_COUNT).map(|_| Vec::new()).collect(),
        crate_categories: CategoriesWidget::General,
        crates_cursor: Some(0),
        features_cursor: Some(0),
        exit: false,
        is_showing_features: false,
        is_adding_dependencies: false,
        popup_message: String::new(),
    }
}

#[test]
fn next_category_wraps_from_last_to_first() {
    assert_eq!(CategoriesWidget::Graphics.next(), CategoriesWidget::General);
    assert_eq!(CategoriesWidget::General.next(), CategoriesWidget::Common);
    assert_eq!(CategoriesWidget::Clis.next(), CategoriesWidget::Graphics);
}

#[test]
fn previous_category_wraps_from_first_to_last() {
    assert_eq!(CategoriesWidget::General.previous(), CategoriesWidget::Graphics);
    assert_eq!(CategoriesWidget::Graphics.previous(), CategoriesWidget::Clis);
    assert_eq!(CategoriesWidget::Common.previous(), CategoriesWidget::General);
}

#[test]
fn a_full_round_of_next_returns_to_the_start() {
    let mut c = CategoriesWidget::Math;
    for _ in 0..CATEGORY_COUNT {
        c = c.next();
    }
    assert_eq!(c, CategoriesWidget::Math);
}

#[test]
fn next_category_resets_the_cursor() {
    let mut app = empty_app();
    app.crates_cursor = Some(7);
    app.next_category();
    assert_eq!(app.crate_categories, CategoriesWidget::Common);
    assert_eq!(app.crates_cursor, Some(0));
    app.previos_category();
    assert_eq!(app.crate_categories, CategoriesWidget::General);
}

#[test]
fn scrolling_down_wraps_at_the_end() {
    let mut app = empty_app();
    app.crate_lists[0] = vec![item("a"), item("b"), item("c")];
    app.scroll_down();
    assert_eq!(app.crates_cursor, Some(1));
    app.scroll_down();
    assert_eq!(app.crates_cursor, Some(2));
    app.scroll_down();
    assert_eq!(app.crates_cursor, Some(0));
}

#[test]
fn scrolling_up_wraps_at_the_top() {
    let mut app = empty_app();
    app.crate_lists[0] = vec![item("a"), item("b"), item("c")];
    app.scroll_up();
    assert_eq!(app.crates_cursor, Some(2));
    app.scroll_up();
    assert_eq!(app.crates_cursor, Some(1));
}

#[test]
fn scrolling_an_empty_list_stays_at_the_top() {
    let mut app = empty_app();
    app.scroll_down();
    assert_eq!(app.crates_cursor, Some(0));
    app.scroll_up();
    assert_eq!(app.crates_cursor, Some(0));
}

#[test]
fn current_crate_selected_follows_the_cursor() {
    let mut app = empty_app();
    app.crate_lists[0] = vec![item("a"), item("b")];
    app.crates_cursor = Some(1);
    let (it, idx) = app.get_current_crate_selected().unwrap();
    assert_eq!(it.name, "b");
    assert_eq!(idx, 1);

    app.crates_cursor = Some(5);
    assert!(app.get_current_crate_selected().is_none());
    app.crates_cursor = None;
    assert!(app.get_current_crate_selected().is_none());
}
