//! The install builder and the table-to-item conversion.

use get_blessed::backend::{Crates, Table, TableEntry};
use get_blessed::dependency_builder::{CrateToAdd, DependenciesBuilder};
use get_blessed::view::app::App;
use get_blessed::view::widgets::{CategoriesWidget, CrateItemList, FeatureItemList,
    ItemListStatus, CATEGORY_COUNT};

#[test]
fn builder_hands_back_its_records() {
    let records = vec![
        CrateToAdd { crate_name: "rand".to_owned(), features: None },
        CrateToAdd {
            crate_name: "serde".to_owned(),
            features: Some(vec!["derive".to_owned()]),
        },
    ];
    let builder = DependenciesBuilder::new(records.clone());
    assert_eq!(*builder.records(), records);
}

#[test]
fn table_becomes_items_in_row_order() {
    let table = Table {
        entries: vec![
            TableEntry {
                use_case: String::new(),
                crates: vec![
                    Crates {
                        name: "rand".to_owned(),
                        description: "random".to_owned(),
                        features: None,
                    },
                    Crates {
                        name: "uuid".to_owned(),
                        description: "ids".to_owned(),
                        features: Some(vec!["v4".to_owned(), "serde".to_owned()]),
                    },
                ],
            },
            TableEntry {
                use_case: String::new(),
                crates: vec![Crates {
                    name: "regex".to_owned(),
                    description: "patterns".to_owned(),
                    features: None,
                }],
            },
        ],
    };
    let items = table.into_item_list();
    assert_eq!(items.len(), 3);
    assert_eq!(items[0].name, "rand");
    assert_eq!(items[1].name, "uuid");
    assert_eq!(items[2].name, "regex");
    for it in &items {
        assert_eq!(it.status, ItemListStatus::Unselected);
        assert!(it.is_loading);
    }
    let uuid_features = items[1].features.as_ref().unwrap();
    assert_eq!(uuid_features.len(), 2);
    assert_eq!(uuid_features[0].name, "v4");
    assert_eq!(uuid_features[0].status, ItemListStatus::Unselected);
    assert_eq!(items[0].features, None);
}

fn app_with_features() -> App {
    let mut lists: Vec<Vec<CrateItemList>> = (0..CATEGORY_COUNT).map(|_| Vec::new()).collect();
    let mut it = CrateItemList::new(
        "tokio".to_owned(),
        String::new(),
        ItemListStatus::Unselected,
        Some(vec![
            FeatureItemList::new("rt".to_owned()),
            FeatureItemList::new("macros".to_owned()),
            FeatureItemList::new("full".to_owned()),
        ]),
    );
    it.is_loading = false;
    lists[0] = vec![it];
    App {
        crates_to_add: Vec::new(),
        crate_lists: lists,
        crate_categories: CategoriesWidget::General,
        crates_cursor: Some(0),
        features_cursor: Some(0),
        exit: false,
        is_showing_features: true,
        is_adding_dependencies: false,
        popup_message: String::new(),
    }
}

#[test]
fn feature_scrolling_wraps_both_ways() {
    let mut app = app_with_features();
    app.scroll_down_features();
    assert_eq!(app.features_cursor, Some(1));
    app.scroll_down_features();
    assert_eq!(app.features_cursor, Some(2));
    app.scroll_down_features();
    assert_eq!(app.features_cursor, Some(0));
    app.scroll_up_features();
    assert_eq!(app.features_cursor, Some(2));
}

#[test]
fn category_names_are_stable() {
    assert_eq!(CategoriesWidget::General.display_name(), "General");
    assert_eq!(CategoriesWidget::Math.display_name(), "Math-scientific");
    assert_eq!(CategoriesWidget::Clis.display_name(), "Cli-tools");
}
