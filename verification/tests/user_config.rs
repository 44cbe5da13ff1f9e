use marketplace_upgrade::config::{
    ConfigLayerStack, MarketplaceConfig, MarketplaceConfigUpdate, MarketplaceSourceType,
    MarketplaceTable, MarketplacesSection,
};
use marketplace_upgrade::configured::{selected_git_marketplaces, ConfiguredGitMarketplace};
use marketplace_upgrade::record::{RecordAction, RecordEvent, UpgradeRecord};
use marketplace_upgrade::user_config::{
    ensure_configured_git_marketplace_unchanged, marketplaces_value, parsed_user_config,
    read_configured_git_marketplace, read_user_config, ConfigRead,
};

fn config(source: &str) -> MarketplaceConfig {
    MarketplaceConfig {
        last_updated: None,
        last_revision: None,
        source_type: Some(MarketplaceSourceType::Git),
        source: Some(source.to_string()),
        ref_name: None,
        sparse_paths: None,
    }
}

fn section(entries: Vec<(&str, MarketplaceConfig)>) -> MarketplacesSection {
    let mut table = MarketplaceTable::new();
    for (name, config) in entries {
        table.insert(name.to_string(), config);
    }
    MarketplacesSection::Table(table)
}

fn expected() -> ConfiguredGitMarketplace {
    ConfiguredGitMarketplace {
        name: "debug".to_string(),
        source: "s".to_string(),
        ref_name: None,
        sparse_paths: vec![],
        last_revision: None,
    }
}

fn update() -> MarketplaceConfigUpdate {
    MarketplaceConfigUpdate {
        last_updated: "2026-01-02T03:04:05Z".to_string(),
        last_revision: Some("rev".to_string()),
        source_type: "git".to_string(),
        source: "s".to_string(),
        ref_name: Some("main".to_string()),
        sparse_paths: vec!["p".to_string(), "q".to_string()],
    }
}

#[test]
fn marketplaces_are_found_in_the_text() {
    let text = "model = 'x'\n[marketplaces.debug]\nsource = 's'\n".to_string();
    let config = read_user_config("/c/config.toml", ConfigRead::Text(text)).unwrap().unwrap();
    let value = marketplaces_value(&config).unwrap();
    assert_eq!(value.get("debug").unwrap().get("source").unwrap().as_str(), Some("s"));
}

#[test]
fn configuration_without_marketplaces_has_none() {
    let text = "[other]\nmarketplaces = 1\n".to_string();
    let config = read_user_config("/c/config.toml", ConfigRead::Text(text)).unwrap().unwrap();
    assert!(marketplaces_value(&config).is_none());
    assert!(marketplaces_value(&toml::Value::Integer(3)).is_none());
}

#[test]
fn text_that_is_not_toml_is_an_error() {
    let text = "marketplaces = [";
    let err = toml::from_str::<toml::Value>(text).unwrap_err().to_string();
    assert_eq!(
        read_user_config("/c/config.toml", ConfigRead::Text(text.to_string())),
        Err(format!(
            "failed to parse user config /c/config.toml while checking marketplace auto-upgrade: {err}"
        ))
    );
    assert_eq!(
        parsed_user_config("/c/config.toml", Err("oops".to_string())),
        Err(
            "failed to parse user config /c/config.toml while checking marketplace auto-upgrade: oops"
                .to_string()
        )
    );
}

#[test]
fn missing_file_is_no_configuration() {
    assert_eq!(read_user_config("/c/config.toml", ConfigRead::NotFound), Ok(None));
}

#[test]
fn unreadable_file_is_an_error() {
    assert_eq!(
        read_user_config("/c/config.toml", ConfigRead::Failed("denied".to_string())),
        Err(
            "failed to read user config /c/config.toml while checking marketplace auto-upgrade: denied"
                .to_string()
        )
    );
}

#[test]
fn marketplace_is_read_by_name() {
    let read = read_configured_git_marketplace(
        Ok(Some(section(vec![("other", config("o")), ("debug", config("s"))]))),
        "debug",
    );
    assert_eq!(read, Ok(Some(expected())));
    let missing = read_configured_git_marketplace(
        Ok(Some(section(vec![("other", config("o"))]))),
        "debug",
    );
    assert_eq!(missing, Ok(None));
    let mut other_kind = config("s");
    other_kind.source_type = Some(MarketplaceSourceType::Other);
    let not_git =
        read_configured_git_marketplace(Ok(Some(section(vec![("debug", other_kind)]))), "debug");
    assert_eq!(not_git, Ok(None));
}

#[test]
fn nothing_is_read_where_nothing_is_configured() {
    assert_eq!(read_configured_git_marketplace(Ok(None), "debug"), Ok(None));
    assert_eq!(
        read_configured_git_marketplace(Ok(Some(MarketplacesSection::Absent)), "debug"),
        Ok(None)
    );
}

#[test]
fn unreadable_configuration_is_an_error() {
    assert_eq!(
        read_configured_git_marketplace(Err("denied".to_string()), "debug"),
        Err("denied".to_string())
    );
    assert_eq!(
        read_configured_git_marketplace(
            Ok(Some(MarketplacesSection::Invalid("bad".to_string()))),
            "debug"
        ),
        Err("invalid marketplaces config while checking auto-upgrade: bad".to_string())
    );
}

#[test]
fn unchanged_marketplace_may_go_on() {
    assert_eq!(
        ensure_configured_git_marketplace_unchanged(Ok(Some(expected())), &expected()),
        Ok(())
    );
}

#[test]
fn every_field_counts_as_a_change() {
    let changed = Err(
        "configured marketplace `debug` changed while auto-upgrade was in flight".to_string(),
    );
    let mut source = expected();
    source.source = "t".to_string();
    let mut ref_name = expected();
    ref_name.ref_name = Some("main".to_string());
    let mut paths = expected();
    paths.sparse_paths = vec!["p".to_string()];
    let mut revision = expected();
    revision.last_revision = Some("r".to_string());
    for current in [source, ref_name, paths, revision] {
        assert_eq!(
            ensure_configured_git_marketplace_unchanged(Ok(Some(current)), &expected()),
            changed
        );
    }
}

#[test]
fn removed_marketplace_may_not_go_on() {
    assert_eq!(
        ensure_configured_git_marketplace_unchanged(Ok(None), &expected()),
        Err(
            "configured marketplace `debug` was removed or is no longer a Git marketplace"
                .to_string()
        )
    );
    assert_eq!(
        ensure_configured_git_marketplace_unchanged(Err("denied".to_string()), &expected()),
        Err("denied".to_string())
    );
}

#[test]
fn unchanged_marketplace_is_recorded() {
    let record = UpgradeRecord::begin(&expected(), &update());
    assert!(matches!(record.pending(), RecordAction::ReadCurrent { name } if name == "debug"));
    let record = record.advance(RecordEvent::CurrentRead(Ok(Some(expected()))));
    match record.pending() {
        RecordAction::Write { name, update } => {
            assert_eq!(name, "debug");
            assert_eq!(update.last_updated, "2026-01-02T03:04:05Z");
            assert_eq!(update.last_revision, Some("rev".to_string()));
            assert_eq!(update.source_type, "git");
            assert_eq!(update.source, "s");
            assert_eq!(update.ref_name, Some("main".to_string()));
            assert_eq!(update.sparse_paths, vec!["p", "q"]);
        }
        _ => panic!("the update should be written"),
    }
    let record = record.advance(RecordEvent::Written(Ok(())));
    assert!(matches!(record.pending(), RecordAction::Done));
    assert_eq!(record.into_result(), Some(Ok(())));
}

#[test]
fn changed_marketplace_is_not_recorded() {
    let mut changed = expected();
    changed.source = "t".to_string();
    let record = UpgradeRecord::begin(&expected(), &update())
        .advance(RecordEvent::CurrentRead(Ok(Some(changed))));
    assert!(matches!(record.pending(), RecordAction::Done));
    assert_eq!(
        record.into_result(),
        Some(Err(
            "configured marketplace `debug` changed while auto-upgrade was in flight".to_string()
        ))
    );
}

#[test]
fn failed_record_names_the_marketplace() {
    let record = UpgradeRecord::begin(&expected(), &update())
        .advance(RecordEvent::CurrentRead(Ok(Some(expected()))))
        .advance(RecordEvent::Written(Err("read-only".to_string())));
    assert_eq!(
        record.into_result(),
        Some(Err(
            "failed to record upgraded marketplace `debug` in user config.toml: read-only"
                .to_string()
        ))
    );
}

#[test]
fn record_ignores_events_it_did_not_ask_for() {
    let record = UpgradeRecord::begin(&expected(), &update()).advance(RecordEvent::Written(Ok(())));
    assert!(matches!(record.pending(), RecordAction::ReadCurrent { .. }));
    assert_eq!(record.into_result(), None);
}

#[test]
fn selected_marketplaces_pass_while_the_configuration_stays() {
    let entries = || vec![("b", config("b")), ("debug", config("s")), ("a", config("a"))];
    let stack = ConfigLayerStack { user_layer: Some(section(entries())) };
    let selected = selected_git_marketplaces(&stack, None);
    assert_eq!(selected.len(), 3);
    for marketplace in &selected {
        let current =
            read_configured_git_marketplace(Ok(Some(section(entries()))), &marketplace.name);
        assert_eq!(current, Ok(Some(marketplace.clone())));
        assert_eq!(ensure_configured_git_marketplace_unchanged(current, marketplace), Ok(()));
    }
}

#[test]
fn git_marketplaces_without_source_are_told_apart() {
    let mut without_source = config("s");
    without_source.source = None;
    assert!(without_source.is_git_without_source());
    assert!(!config("s").is_git_without_source());
    without_source.source_type = Some(MarketplaceSourceType::Other);
    assert!(!without_source.is_git_without_source());
    without_source.source_type = None;
    assert!(!without_source.is_git_without_source());
}
