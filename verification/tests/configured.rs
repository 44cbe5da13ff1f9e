use marketplace_upgrade::config::{
    ConfigLayerStack, MarketplaceConfig, MarketplaceSourceType, MarketplaceTable,
    MarketplacesSection,
};
use marketplace_upgrade::configured::{
    configured_git_marketplace_from_config, configured_git_marketplace_names,
    configured_git_marketplaces, selected_git_marketplaces,
};
use marketplace_upgrade::location::{marketplace_install_root, Location};
use marketplace_upgrade::text::{precedes, starts_with};

fn config(source_type: Option<MarketplaceSourceType>, source: Option<&str>) -> MarketplaceConfig {
    MarketplaceConfig {
        last_updated: Some("2026-01-02T03:04:05Z".to_string()),
        last_revision: Some("abc".to_string()),
        source_type,
        source: source.map(|source| source.to_string()),
        ref_name: Some("main".to_string()),
        sparse_paths: None,
    }
}

fn git(source: &str) -> MarketplaceConfig {
    config(Some(MarketplaceSourceType::Git), Some(source))
}

fn stack(entries: Vec<(&str, MarketplaceConfig)>) -> ConfigLayerStack {
    let mut table = MarketplaceTable::new();
    for (name, config) in entries {
        table.insert(name.to_string(), config);
    }
    ConfigLayerStack { user_layer: Some(MarketplacesSection::Table(table)) }
}

#[test]
fn git_marketplace_takes_its_fields_from_the_configuration() {
    let mut with_paths = git("https://example.com/a.git");
    with_paths.sparse_paths = Some(vec!["plugins".to_string(), "docs".to_string()]);
    let marketplace =
        configured_git_marketplace_from_config("a".to_string(), with_paths).unwrap();
    assert_eq!(marketplace.name, "a");
    assert_eq!(marketplace.source, "https://example.com/a.git");
    assert_eq!(marketplace.ref_name, Some("main".to_string()));
    assert_eq!(marketplace.sparse_paths, vec!["plugins", "docs"]);
    assert_eq!(marketplace.last_revision, Some("abc".to_string()));
}

#[test]
fn missing_sparse_paths_are_empty() {
    let marketplace = configured_git_marketplace_from_config("a".to_string(), git("s")).unwrap();
    assert!(marketplace.sparse_paths.is_empty());
}

#[test]
fn only_git_marketplaces_with_a_source_count() {
    let other = config(Some(MarketplaceSourceType::Other), Some("s"));
    assert!(configured_git_marketplace_from_config("a".to_string(), other).is_none());
    let untyped = config(None, Some("s"));
    assert!(configured_git_marketplace_from_config("a".to_string(), untyped).is_none());
    let sourceless = config(Some(MarketplaceSourceType::Git), None);
    assert!(configured_git_marketplace_from_config("a".to_string(), sourceless).is_none());
}

#[test]
fn names_are_sorted_whatever_the_order_of_entries() {
    let names = ["b", "a", "ab", "B", "\u{e9}", "z"];
    let expected = vec!["B", "a", "ab", "b", "z", "\u{e9}"];
    let forward = stack(names.iter().map(|name| (*name, git(name))).collect());
    let backward = stack(names.iter().rev().map(|name| (*name, git(name))).collect());
    assert_eq!(configured_git_marketplace_names(&forward), expected);
    assert_eq!(configured_git_marketplace_names(&backward), expected);
    assert!(configured_git_marketplaces(&forward) == configured_git_marketplaces(&backward));
}

#[test]
fn marketplaces_that_do_not_count_are_left_out() {
    let stack = stack(vec![
        ("c", git("c")),
        ("b", config(Some(MarketplaceSourceType::Other), Some("b"))),
        ("a", git("a")),
        ("d", config(Some(MarketplaceSourceType::Git), None)),
    ]);
    assert_eq!(configured_git_marketplace_names(&stack), vec!["a", "c"]);
}

#[test]
fn missing_or_invalid_sections_configure_nothing() {
    let none = ConfigLayerStack { user_layer: None };
    let absent = ConfigLayerStack { user_layer: Some(MarketplacesSection::Absent) };
    let invalid = ConfigLayerStack {
        user_layer: Some(MarketplacesSection::Invalid("bad".to_string())),
    };
    assert!(configured_git_marketplaces(&none).is_empty());
    assert!(configured_git_marketplaces(&absent).is_empty());
    assert!(configured_git_marketplaces(&invalid).is_empty());
}

#[test]
fn a_name_selects_the_marketplace_that_has_it() {
    let stack = stack(vec![
        ("b", git("b")),
        ("a", git("a")),
        ("c", config(None, Some("c"))),
    ]);
    let all = selected_git_marketplaces(&stack, None);
    assert_eq!(all.len(), 2);
    let b = selected_git_marketplaces(&stack, Some("b"));
    assert_eq!(b.len(), 1);
    assert!(b[0] == all[1]);
    assert!(selected_git_marketplaces(&stack, Some("c")).is_empty());
    assert!(selected_git_marketplaces(&stack, Some("missing")).is_empty());
}

#[test]
fn table_replaces_and_removes_by_name() {
    let mut table = MarketplaceTable::new();
    table.insert("a".to_string(), git("first"));
    table.insert("b".to_string(), git("b"));
    table.insert("a".to_string(), git("second"));
    assert_eq!(table.entries().len(), 2);
    assert_eq!(table.remove("a").unwrap().source, Some("second".to_string()));
    assert!(table.remove("a").is_none());
    assert_eq!(table.entries().len(), 1);
}

#[test]
fn install_root_lies_below_the_home() {
    let root = marketplace_install_root(&Location::base());
    assert_eq!(*root.parts(), vec![".tmp/marketplaces"]);
    let nested = marketplace_install_root(&Location::base().join("home"));
    assert_eq!(*nested.parts(), vec!["home", ".tmp/marketplaces"]);
}

#[test]
fn strings_are_ordered_as_std_orders_them() {
    let words = ["", "a", "ab", "b", "Z", "\u{7f}", "\u{e9}", "\u{ffff}", "\u{10000}"];
    for left in words {
        for right in words {
            assert_eq!(precedes(left, right), left < right);
            assert_eq!(starts_with(left, right), left.starts_with(right));
        }
    }
}
