use marketplace_upgrade::config::{
    ConfigLayerStack, MarketplaceConfig, MarketplaceSourceType, MarketplaceTable,
    MarketplacesSection,
};
use marketplace_upgrade::location::Location;
use marketplace_upgrade::outcome::{
    ConfiguredMarketplaceUpgradeError, ConfiguredMarketplaceUpgradeOutcome,
};
use marketplace_upgrade::run::{
    upgrade_configured_git_marketplaces, RunAction, RunEvent, UpgradeRun,
};
use std::path::PathBuf;

fn stack(names: &[&str]) -> ConfigLayerStack {
    let mut table = MarketplaceTable::new();
    for name in names {
        table.insert(
            name.to_string(),
            MarketplaceConfig {
                last_updated: None,
                last_revision: None,
                source_type: Some(MarketplaceSourceType::Git),
                source: Some(format!("source of {name}")),
                ref_name: None,
                sparse_paths: None,
            },
        );
    }
    ConfigLayerStack { user_layer: Some(MarketplacesSection::Table(table)) }
}

fn begin(names: &[&str], name: Option<&str>) -> UpgradeRun {
    upgrade_configured_git_marketplaces(&Location::base(), &stack(names), name)
}

fn upgrades(run: &UpgradeRun, expected: &str) -> bool {
    match run.pending() {
        RunAction::Upgrade { install_root, marketplace } => {
            *install_root.parts() == vec![".tmp/marketplaces"] && marketplace.name == expected
        }
        _ => false,
    }
}

#[test]
fn run_cleans_up_and_upgrades_in_order() {
    let run = begin(&["c", "a", "b"], None);
    assert!(matches!(
        run.pending(),
        RunAction::RemoveStale { install_root }
            if *install_root.parts() == vec![".tmp/marketplaces"]
    ));
    let run = run.advance(RunEvent::StaleRemoved);
    assert!(upgrades(&run, "a"));
    let run = run.advance(RunEvent::Upgraded(Ok(Some(PathBuf::from("/m/a")))));
    assert!(upgrades(&run, "b"));
    let run = run.advance(RunEvent::Upgraded(Err("broken".to_string())));
    assert!(upgrades(&run, "c"));
    let run = run.advance(RunEvent::Upgraded(Ok(None)));
    assert!(matches!(run.pending(), RunAction::Done));
    let outcome = run.into_outcome().unwrap();
    assert!(!outcome.all_succeeded());
    assert_eq!(
        outcome,
        ConfiguredMarketplaceUpgradeOutcome {
            selected_marketplaces: vec!["a".to_string(), "b".to_string(), "c".to_string()],
            upgraded_roots: vec![PathBuf::from("/m/a")],
            errors: vec![ConfiguredMarketplaceUpgradeError {
                marketplace_name: "b".to_string(),
                message: "broken".to_string(),
            }],
        }
    );
}

#[test]
fn run_by_name_upgrades_one() {
    let run = begin(&["a", "b"], Some("b")).advance(RunEvent::StaleRemoved);
    assert!(upgrades(&run, "b"));
    let run = run.advance(RunEvent::Upgraded(Ok(None)));
    let outcome = run.into_outcome().unwrap();
    assert!(outcome.all_succeeded());
    assert_eq!(outcome.selected_marketplaces, vec!["b"]);
    assert!(outcome.upgraded_roots.is_empty());
}

#[test]
fn run_over_nothing_is_done_at_once() {
    let run = begin(&["a"], Some("missing"));
    assert!(matches!(run.pending(), RunAction::Done));
    let outcome = run.into_outcome().unwrap();
    assert!(outcome.all_succeeded());
    assert_eq!(outcome, ConfiguredMarketplaceUpgradeOutcome::default());
}

#[test]
fn run_ignores_events_it_did_not_ask_for() {
    let run = begin(&["a"], None).advance(RunEvent::Upgraded(Err("early".to_string())));
    assert!(matches!(run.pending(), RunAction::RemoveStale { .. }));
    let run = run.advance(RunEvent::StaleRemoved).advance(RunEvent::StaleRemoved);
    assert!(upgrades(&run, "a"));
    assert!(run.into_outcome().is_none());
}
