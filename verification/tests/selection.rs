//! Toggling, reconciliation, and the laws the to-install list obeys.

use get_blessed::dependency_builder::CrateToAdd;
use get_blessed::utils::{push_or_remove_crates, toggle_one_feature, toggle_status_all,
    toggle_status_one_crate};
use get_blessed::view::widgets::{CrateItemList, FeatureItemList, ItemListStatus};

fn item(name: &str, features: Option<Vec<&str>>) -> CrateItemList {
    CrateItemList::new(
        name.to_owned(),
        format!("about {name}"),
        ItemListStatus::Unselected,
        features.map(|fs| fs.into_iter().map(|f| FeatureItemList::new(f.to_owned())).collect()),
    )
}

fn selected(mut it: CrateItemList) -> CrateItemList {
    it.status = ItemListStatus::Selected;
    it
}

#[test]
fn toggling_one_crate_flips_only_the_status() {
    let mut it = item("rand", None);
    toggle_status_one_crate(&mut it);
    assert_eq!(it.status, ItemListStatus::Selected);
    assert_eq!(it.name, "rand");
    assert!(it.is_loading);
    toggle_status_one_crate(&mut it);
    assert_eq!(it.status, ItemListStatus::Unselected);
}

#[test]
fn toggling_all_flips_every_status() {
    let mut crates = vec![item("a", None), selected(item("b", None)), item("c", None)];
    toggle_status_all(&mut crates);
    assert_eq!(crates[0].status, ItemListStatus::Selected);
    assert_eq!(crates[1].status, ItemListStatus::Unselected);
    assert_eq!(crates[2].status, ItemListStatus::Selected);
}

#[test]
fn reconcile_adds_selected_and_removes_unselected() {
    let mut to_add: Vec<CrateToAdd> = Vec::new();
    let crates = vec![selected(item("rand", None)), item("serde", None)];
    push_or_remove_crates(&mut to_add, &crates);
    assert_eq!(to_add.len(), 1);
    assert_eq!(to_add[0].crate_name, "rand");
    assert_eq!(to_add[0].features, None);

    // unselecting removes the record again
    let crates = vec![item("rand", None), item("serde", None)];
    push_or_remove_crates(&mut to_add, &crates);
    assert!(to_add.is_empty());
}

#[test]
fn reconcile_updates_features_of_existing_record() {
    let mut to_add: Vec<CrateToAdd> = Vec::new();
    let mut it = selected(item("tokio", Some(vec!["full", "rt", "macros"])));
    push_or_remove_crates(&mut to_add, &vec![it.clone()]);
    assert_eq!(to_add[0].features, Some(Vec::new()));

    // select two of the three features and reconcile again: the record is
    // rewritten in place, carrying exactly those two names
    it.features.as_mut().unwrap()[0].status = ItemListStatus::Selected;
    it.features.as_mut().unwrap()[2].status = ItemListStatus::Selected;
    push_or_remove_crates(&mut to_add, &vec![it]);
    assert_eq!(to_add.len(), 1);
    assert_eq!(to_add[0].features, Some(vec!["full".to_owned(), "macros".to_owned()]));
}

#[test]
fn reconcile_never_duplicates_a_name() {
    let mut to_add: Vec<CrateToAdd> = Vec::new();
    let sel = vec![selected(item("rand", None)), selected(item("serde", None))];
    for _ in 0..4 {
        push_or_remove_crates(&mut to_add, &sel);
        assert_eq!(to_add.len(), 2);
        let names: Vec<&str> = to_add.iter().map(|r| r.crate_name.as_str()).collect();
        assert_eq!(names, vec!["rand", "serde"]);
    }
}

#[test]
fn reconcile_twice_gives_identical_lists() {
    let mut to_add = vec![CrateToAdd { crate_name: "old".to_owned(), features: None }];
    let crates = vec![
        selected(item("rand", None)),
        item("old", None),
        selected(item("serde", Some(vec!["derive"]))),
    ];
    push_or_remove_crates(&mut to_add, &crates);
    let once = to_add.clone();
    push_or_remove_crates(&mut to_add, &crates);
    assert_eq!(to_add, once);
}

#[test]
fn toggling_feature_of_loading_crate_is_ignored() {
    let mut it = item("reqwest", None);
    let before = it.clone();
    toggle_one_feature(&mut it, Some(0));
    assert_eq!(it, before);
}

#[test]
fn toggling_feature_out_of_range_is_ignored() {
    let mut it = item("reqwest", Some(vec!["json"]));
    let before = it.clone();
    toggle_one_feature(&mut it, Some(5));
    assert_eq!(it, before);
    toggle_one_feature(&mut it, None);
    assert_eq!(it, before);
}

#[test]
fn toggling_feature_flips_exactly_one() {
    let mut it = item("reqwest", Some(vec!["json", "stream"]));
    toggle_one_feature(&mut it, Some(1));
    let fs = it.features.as_ref().unwrap();
    assert_eq!(fs[0].status, ItemListStatus::Unselected);
    assert_eq!(fs[1].status, ItemListStatus::Selected);
    assert_eq!(fs[1].name, "stream");
}

#[test]
fn record_from_item_carries_selected_feature_names() {
    let mut it = item("serde", Some(vec!["derive", "rc", "alloc"]));
    it.features.as_mut().unwrap()[1].status = ItemListStatus::Selected;
    let record = CrateToAdd::from_item(&it);
    assert_eq!(record.crate_name, "serde");
    assert_eq!(record.features, Some(vec!["rc".to_owned()]));

    let bare = item("rand", None);
    let record = CrateToAdd::from_item(&bare);
    assert_eq!(record.features, None);
}
