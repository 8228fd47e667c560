//! The built-in catalog tables and the JSON catalog parse dispatch.

use get_blessed::backend::{Categories, CategoriesWithSubCategories, TableEntry};
use get_blessed::content_parser::content_parser::ContentParser;
use get_blessed::content_parser::jsoncontentparser::JsonContentParser;
use get_blessed::content_parser::ContentParser as ContentParserTrait;
use get_blessed::scraper::{CratesData, Group, Purpose, Recommendation, SubGroup};

fn setup_content_parser() -> ContentParser {
    ContentParser { content: CratesData { crate_groups: Vec::new() } }
}

fn test_section(entries: &[TableEntry], name_first_recommended_crate: &str) {
    assert!(!entries.is_empty());

    let first_entry = entries.first().unwrap();
    assert!(!first_entry.crates.is_empty());

    let first_recommended_crate = first_entry.crates.first().unwrap();

    assert_eq!(first_recommended_crate.name, name_first_recommended_crate);
}

#[test]
fn general_crates_has_expected_data() {
    let parser = setup_content_parser();
    let section = parser.get_general_crates();
    test_section(&section.entries, "rand");
}

#[test]
fn common_crates_has_expected_data() {
    let parser = setup_content_parser();
    let section = parser.get_crates_with_sub(CategoriesWithSubCategories::Common);
    test_section(&section.entries, "anyhow");
}

#[test]
fn math_section_has_expected_data() {
    let parser = setup_content_parser();
    let section = parser.get_crates(Categories::Math);
    test_section(&section.entries, "num-traits");
}

#[test]
fn ffi_section_has_expected_data() {
    let parser = setup_content_parser();
    let section = parser.get_crates(Categories::FFI);
    test_section(&section.entries, "bindgen");
}

#[test]
fn cryptography_has_expected_data() {
    let parser = setup_content_parser();
    let section = parser.get_crates(Categories::Cryptography);
    test_section(&section.entries, "argon2");
}

#[test]
fn concurrency_has_expected_data() {
    let parser = setup_content_parser();
    let section = parser.get_crates_with_sub(CategoriesWithSubCategories::Concurrency);
    test_section(&section.entries, "parking_lot");
}

#[test]
fn networking_has_expected_data() {
    let parser = setup_content_parser();
    let section = parser.get_crates_with_sub(CategoriesWithSubCategories::Networking);
    test_section(&section.entries, "tokio");
}

#[test]
fn databases_has_expected_data() {
    let parser = setup_content_parser();
    let section = parser.get_crates_with_sub(CategoriesWithSubCategories::Databases);
    test_section(&section.entries, "sqlx");
}

#[test]
fn cli_has_expected_data() {
    let parser = setup_content_parser();
    let section = parser.get_crates_with_sub(CategoriesWithSubCategories::Clis);
    test_section(&section.entries, "clap");
}

#[test]
fn graphics_has_expected_data() {
    let parser = setup_content_parser();
    let section = parser.get_crates_with_sub(CategoriesWithSubCategories::Graphics);
    test_section(&section.entries, "gtk4");
}

fn recommendation(name: &str, notes: Option<&str>) -> Recommendation {
    Recommendation { name: name.to_owned(), notes: notes.map(|n| n.to_owned()) }
}

fn purpose(name: &str, recs: Vec<Recommendation>) -> Purpose {
    Purpose { name: name.to_owned(), recommendations: recs }
}

fn sample_data() -> CratesData {
    CratesData {
        crate_groups: vec![
            Group {
                // trimming and lowercasing must both happen for this
                // group to be recognized
                name: "  Common ".to_owned(),
                subgroups: Some(vec![
                    SubGroup {
                        name: "General".to_owned(),
                        purposes: Some(vec![purpose(
                            "randomness",
                            vec![recommendation("rand", Some("random numbers"))],
                        )]),
                    },
                    SubGroup {
                        name: "Error handling".to_owned(),
                        purposes: Some(vec![
                            purpose("errors", vec![recommendation("anyhow", None)]),
                            purpose("derive", vec![recommendation("thiserror", Some("derive"))]),
                        ]),
                    },
                ]),
                purposes: None,
            },
            Group {
                name: "Math / Scientific".to_owned(),
                subgroups: None,
                purposes: Some(vec![purpose(
                    "numbers",
                    vec![
                        recommendation("num-traits", Some("traits")),
                        recommendation("num-bigint", None),
                    ],
                )]),
            },
            Group {
                name: "Unheard of".to_owned(),
                subgroups: None,
                purposes: Some(vec![purpose("other", vec![recommendation("mystery", None)])]),
            },
        ],
    }
}

#[test]
fn parse_content_sorts_groups_into_tables() {
    let parser = JsonContentParser::parse_content(sample_data());

    let general = parser.get_general_crates();
    assert_eq!(general.entries.len(), 1);
    assert_eq!(general.entries[0].crates.len(), 1);
    assert_eq!(general.entries[0].crates[0].name, "rand");
    assert_eq!(general.entries[0].crates[0].description, "random numbers");

    let math = parser.get_crates(&Categories::Math);
    assert_eq!(math.entries.len(), 1);
    assert_eq!(math.entries[0].crates.len(), 2);
    assert_eq!(math.entries[0].crates[0].name, "num-traits");
    assert_eq!(math.entries[0].crates[1].name, "num-bigint");
    assert_eq!(math.entries[0].crates[1].description, "No description");

    // the non-general sub-groups of `common` become one row each, with all
    // of their purposes' recommendations gathered into the row
    let common = parser.get_crates_with_sub(&CategoriesWithSubCategories::Common);
    assert_eq!(common.entries.len(), 1);
    assert_eq!(common.entries[0].crates.len(), 2);
    assert_eq!(common.entries[0].crates[0].name, "anyhow");
    assert_eq!(common.entries[0].crates[1].name, "thiserror");

    // a label the catalog never delivered leaves the table empty
    let ffi = parser.get_crates(&Categories::FFI);
    assert!(ffi.entries.is_empty());
}

#[test]
fn parse_content_ignores_case_only_when_normalized() {
    // if the names were compared without trimming and lowercasing, none of
    // these groups would be recognized
    let data = CratesData {
        crate_groups: vec![Group {
            name: "CRYPTOGRAPHY".to_owned(),
            subgroups: None,
            purposes: Some(vec![purpose("hashing", vec![recommendation("argon2", None)])]),
        }],
    };
    let parser = JsonContentParser::parse_content(data);
    let crypto = parser.get_crates(&Categories::Cryptography);
    assert_eq!(crypto.entries.len(), 1);
    assert_eq!(crypto.entries[0].crates[0].name, "argon2");
}

#[test]
fn later_group_with_same_label_wins() {
    let data = CratesData {
        crate_groups: vec![
            Group {
                name: "databases".to_owned(),
                subgroups: None,
                purposes: Some(vec![purpose("old", vec![recommendation("sqlx", None)])]),
            },
            Group {
                name: "Databases".to_owned(),
                subgroups: None,
                purposes: Some(vec![purpose("new", vec![recommendation("diesel", None)])]),
            },
        ],
    };
    let parser = JsonContentParser::parse_content(data);
    let db = parser.get_crates_with_sub(&CategoriesWithSubCategories::Databases);
    assert_eq!(db.entries.len(), 1);
    assert_eq!(db.entries[0].crates[0].name, "diesel");
}

#[test]
fn every_built_in_section_is_nonempty() {
    let parser = setup_content_parser();
    for section in [
        parser.get_general_crates(),
        parser.get_crates(Categories::Math),
        parser.get_crates(Categories::FFI),
        parser.get_crates(Categories::Cryptography),
        parser.get_crates_with_sub(CategoriesWithSubCategories::Common),
        parser.get_crates_with_sub(CategoriesWithSubCategories::Concurrency),
        parser.get_crates_with_sub(CategoriesWithSubCategories::Networking),
        parser.get_crates_with_sub(CategoriesWithSubCategories::Databases),
        parser.get_crates_with_sub(CategoriesWithSubCategories::Clis),
        parser.get_crates_with_sub(CategoriesWithSubCategories::Graphics),
    ] {
        assert!(!section.entries.is_empty());
        for entry in &section.entries {
            assert!(!entry.crates.is_empty());
        }
    }
}

#[test]
fn clis_table_lists_exactly_the_expected_crates() {
    let parser = setup_content_parser();
    let section = parser.get_crates_with_sub(CategoriesWithSubCategories::Clis);
    let names: Vec<Vec<&str>> = section
        .entries
        .iter()
        .map(|e| e.crates.iter().map(|c| c.name.as_str()).collect())
        .collect();
    assert_eq!(
        names,
        vec![
            vec!["clap", "lexopt", "pico-args"],
            vec!["globset", "walkdir", "ignore", "notify"],
            vec!["termcolor", "indicatif", "ratatui", "crossterm", "inquire"],
        ]
    );
}

#[test]
fn general_table_rows_start_with_the_expected_crates() {
    let parser = setup_content_parser();
    let section = parser.get_general_crates();
    let firsts: Vec<&str> =
        section.entries.iter().map(|e| e.crates[0].name.as_str()).collect();
    assert_eq!(
        firsts,
        vec![
            "rand", "time", "serde", "regex", "uuid", "tempfile", "flate2", "indexmap",
            "arrayvec", "reqwest",
        ]
    );
}
