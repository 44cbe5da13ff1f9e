use marketplace_upgrade::configured::ConfiguredGitMarketplace;
use marketplace_upgrade::location::Location;
use marketplace_upgrade::upgrade::{
    marketplace_config_update, upgrade_configured_git_marketplace, MarketplaceUpgrade,
    PathFailure, UpgradeAction, UpgradeEvent,
};
use std::path::PathBuf;

fn marketplace() -> ConfiguredGitMarketplace {
    ConfiguredGitMarketplace {
        name: "debug".to_string(),
        source: "https://example.com/debug.git".to_string(),
        ref_name: Some("main".to_string()),
        sparse_paths: vec!["plugins".to_string()],
        last_revision: Some("old".to_string()),
    }
}

fn begin() -> MarketplaceUpgrade {
    upgrade_configured_git_marketplace(&Location::base().join("root"), &marketplace())
}

fn drive(events: Vec<UpgradeEvent>) -> MarketplaceUpgrade {
    let mut upgrade = begin();
    for event in events {
        upgrade = upgrade.advance(event);
    }
    upgrade
}

/// The answers of a world in which an upgrade succeeds, up to and with the clone.
fn cloned() -> Vec<UpgradeEvent> {
    vec![
        UpgradeEvent::NameValidated(Ok(())),
        UpgradeEvent::RemoteRevisionFetched(Ok("new".to_string())),
        UpgradeEvent::InstalledChecked(true),
        UpgradeEvent::StagingParentCreated(Ok(())),
        UpgradeEvent::StagedDirCreated(Ok(())),
        UpgradeEvent::SourceCloned(Ok("cloned".to_string())),
    ]
}

fn activated() -> Vec<UpgradeEvent> {
    let mut events = cloned();
    events.push(UpgradeEvent::RootValidated(Ok("debug".to_string())));
    events.push(UpgradeEvent::MetadataWritten(Ok(())));
    events.push(UpgradeEvent::ClockRead(1_767_323_045));
    events
}

fn error_of(events: Vec<UpgradeEvent>) -> String {
    drive(events).into_result().unwrap().unwrap_err()
}

fn failure() -> PathFailure {
    PathFailure { path: "/home/.staging".to_string(), err: "denied".to_string() }
}

#[test]
fn upgrade_asks_for_each_step_in_turn() {
    let upgrade = begin();
    assert!(matches!(
        upgrade.pending(),
        UpgradeAction::ValidateName { name, kind } if name == "debug" && kind == "marketplace name"
    ));
    let upgrade = upgrade.advance(UpgradeEvent::NameValidated(Ok(())));
    assert!(matches!(
        upgrade.pending(),
        UpgradeAction::FetchRemoteRevision { source, ref_name, timeout_secs: 30 }
            if source == "https://example.com/debug.git" && ref_name == Some("main".to_string())
    ));
    let upgrade = upgrade.advance(UpgradeEvent::RemoteRevisionFetched(Ok("new".to_string())));
    assert!(matches!(
        upgrade.pending(),
        UpgradeAction::CheckInstalled { manifest }
            if *manifest.parts() == vec!["root", "debug", ".agents/plugins/marketplace.json"]
    ));
    let upgrade = upgrade.advance(UpgradeEvent::InstalledChecked(false));
    assert!(matches!(
        upgrade.pending(),
        UpgradeAction::CreateStagingParent { parent } if *parent.parts() == vec!["root", ".staging"]
    ));
    let upgrade = upgrade.advance(UpgradeEvent::StagingParentCreated(Ok(())));
    assert!(matches!(
        upgrade.pending(),
        UpgradeAction::CreateStagedDir { parent, prefix }
            if *parent.parts() == vec!["root", ".staging"] && prefix == "marketplace-upgrade-"
    ));
    let upgrade = upgrade.advance(UpgradeEvent::StagedDirCreated(Ok(())));
    assert!(matches!(
        upgrade.pending(),
        UpgradeAction::CloneSource { source, ref_name, sparse_paths, timeout_secs: 30 }
            if source == "https://example.com/debug.git"
                && ref_name == Some("main".to_string())
                && sparse_paths == vec!["plugins"]
    ));
    let upgrade = upgrade.advance(UpgradeEvent::SourceCloned(Ok("cloned".to_string())));
    assert!(matches!(upgrade.pending(), UpgradeAction::ValidateRoot));
    let upgrade = upgrade.advance(UpgradeEvent::RootValidated(Ok("debug".to_string())));
    assert!(matches!(
        upgrade.pending(),
        UpgradeAction::WriteMetadata { marketplace: written, revision }
            if written == marketplace() && revision == "cloned"
    ));
    let upgrade = upgrade.advance(UpgradeEvent::MetadataWritten(Ok(())));
    assert!(matches!(upgrade.pending(), UpgradeAction::ReadClock));
    let upgrade = upgrade.advance(UpgradeEvent::ClockRead(1_767_323_045));
    match upgrade.pending() {
        UpgradeAction::Activate { destination, marketplace: activated, update } => {
            assert_eq!(*destination.parts(), vec!["root", "debug"]);
            assert_eq!(activated, marketplace());
            assert_eq!(update.last_updated, "2026-01-02T03:04:05Z");
            assert_eq!(update.last_revision, Some("cloned".to_string()));
            assert_eq!(update.source_type, "git");
            assert_eq!(update.source, "https://example.com/debug.git");
            assert_eq!(update.ref_name, Some("main".to_string()));
            assert_eq!(update.sparse_paths, vec!["plugins"]);
        }
        _ => panic!("activation should be asked for"),
    }
    let upgrade = upgrade.advance(UpgradeEvent::Activated(Ok(())));
    assert!(matches!(
        upgrade.pending(),
        UpgradeAction::ResolveDestination { destination }
            if *destination.parts() == vec!["root", "debug"]
    ));
    let upgrade =
        upgrade.advance(UpgradeEvent::DestinationResolved(Ok(PathBuf::from("/root/debug"))));
    assert!(matches!(upgrade.pending(), UpgradeAction::Done));
    assert_eq!(upgrade.into_result(), Some(Ok(Some(PathBuf::from("/root/debug")))));
}

#[test]
fn up_to_date_marketplace_is_left_alone() {
    let upgrade = drive(vec![
        UpgradeEvent::NameValidated(Ok(())),
        UpgradeEvent::RemoteRevisionFetched(Ok("old".to_string())),
        UpgradeEvent::InstalledChecked(true),
    ]);
    assert!(matches!(
        upgrade.pending(),
        UpgradeAction::MatchMetadata { destination, marketplace: matched, revision }
            if *destination.parts() == vec!["root", "debug"]
                && matched == marketplace()
                && revision == "old"
    ));
    let upgrade = upgrade.advance(UpgradeEvent::MetadataMatched(true));
    assert_eq!(upgrade.into_result(), Some(Ok(None)));
}

#[test]
fn any_sign_of_age_makes_an_upgrade_due() {
    let changed_metadata = drive(vec![
        UpgradeEvent::NameValidated(Ok(())),
        UpgradeEvent::RemoteRevisionFetched(Ok("old".to_string())),
        UpgradeEvent::InstalledChecked(true),
        UpgradeEvent::MetadataMatched(false),
    ]);
    assert!(matches!(changed_metadata.pending(), UpgradeAction::CreateStagingParent { .. }));
    let not_installed = drive(vec![
        UpgradeEvent::NameValidated(Ok(())),
        UpgradeEvent::RemoteRevisionFetched(Ok("old".to_string())),
        UpgradeEvent::InstalledChecked(false),
    ]);
    assert!(matches!(not_installed.pending(), UpgradeAction::CreateStagingParent { .. }));
    let mut unrecorded = marketplace();
    unrecorded.last_revision = None;
    let upgrade = upgrade_configured_git_marketplace(&Location::base(), &unrecorded)
        .advance(UpgradeEvent::NameValidated(Ok(())))
        .advance(UpgradeEvent::RemoteRevisionFetched(Ok("old".to_string())))
        .advance(UpgradeEvent::InstalledChecked(true));
    assert!(matches!(upgrade.pending(), UpgradeAction::CreateStagingParent { .. }));
}

#[test]
fn refused_names_and_unreachable_repositories_end_the_upgrade() {
    assert_eq!(
        error_of(vec![UpgradeEvent::NameValidated(Err("invalid".to_string()))]),
        "invalid"
    );
    assert_eq!(
        error_of(vec![
            UpgradeEvent::NameValidated(Ok(())),
            UpgradeEvent::RemoteRevisionFetched(Err("unreachable".to_string())),
        ]),
        "unreachable"
    );
}

#[test]
fn staging_failures_name_the_path() {
    let mut events = cloned();
    events.truncate(3);
    events.push(UpgradeEvent::StagingParentCreated(Err(failure())));
    assert_eq!(
        error_of(events),
        "failed to create marketplace upgrade staging directory /home/.staging: denied"
    );
    let mut events = cloned();
    events.truncate(4);
    events.push(UpgradeEvent::StagedDirCreated(Err(failure())));
    assert_eq!(
        error_of(events),
        "failed to create temporary marketplace upgrade directory in /home/.staging: denied"
    );
}

#[test]
fn clones_that_do_not_fit_are_refused() {
    let mut events = cloned();
    events.truncate(5);
    events.push(UpgradeEvent::SourceCloned(Err("no clone".to_string())));
    assert_eq!(error_of(events), "no clone");

    let mut events = cloned();
    events.push(UpgradeEvent::RootValidated(Err("no manifest".to_string())));
    assert_eq!(
        error_of(events),
        "failed to validate upgraded marketplace root: no manifest"
    );

    let mut events = cloned();
    events.push(UpgradeEvent::RootValidated(Ok("other".to_string())));
    assert_eq!(
        error_of(events),
        "upgraded marketplace name `other` does not match configured marketplace `debug`"
    );

    let mut events = cloned();
    events.push(UpgradeEvent::RootValidated(Ok("debug".to_string())));
    events.push(UpgradeEvent::MetadataWritten(Err("disk full".to_string())));
    assert_eq!(error_of(events), "disk full");
}

#[test]
fn failed_activation_and_relative_paths_are_errors() {
    let mut events = activated();
    events.push(UpgradeEvent::Activated(Err("changed".to_string())));
    assert_eq!(error_of(events), "changed");

    let mut events = activated();
    events.push(UpgradeEvent::Activated(Ok(())));
    events.push(UpgradeEvent::DestinationResolved(Err("relative".to_string())));
    assert_eq!(error_of(events), "upgraded marketplace path is not absolute: relative");
}

#[test]
fn unasked_events_change_nothing() {
    let upgrade = begin().advance(UpgradeEvent::Activated(Err("early".to_string())));
    assert!(matches!(upgrade.pending(), UpgradeAction::ValidateName { .. }));
    assert_eq!(upgrade.into_result(), None);
    let done = drive(vec![
        UpgradeEvent::NameValidated(Err("invalid".to_string())),
        UpgradeEvent::NameValidated(Ok(())),
    ]);
    assert_eq!(done.into_result(), Some(Err("invalid".to_string())));
}

#[test]
fn times_are_written_to_the_second_in_utc() {
    for (seconds, text) in [
        (0, "1970-01-01T00:00:00Z"),
        (951_782_400, "2000-02-29T00:00:00Z"),
        (8_210_266_876_799, "+262142-12-31T23:59:59Z"),
    ] {
        let mut events = activated();
        events.truncate(8);
        events.push(UpgradeEvent::ClockRead(seconds));
        match drive(events).pending() {
            UpgradeAction::Activate { update, .. } => assert_eq!(update.last_updated, text),
            _ => panic!("activation should be asked for"),
        }
    }
}

#[test]
fn update_records_what_was_configured_and_cloned() {
    let update = marketplace_config_update(&marketplace(), "rev", "now");
    assert_eq!(update.last_updated, "now");
    assert_eq!(update.last_revision, Some("rev".to_string()));
    assert_eq!(update.source_type, "git");
    assert_eq!(update.sparse_paths, vec!["plugins"]);
}

#[test]
fn recorded_upgrade_is_up_to_date() {
    let update = marketplace_config_update(&marketplace(), "cloned", "now");
    let mut recorded = marketplace();
    recorded.source = update.source;
    recorded.ref_name = update.ref_name;
    recorded.sparse_paths = update.sparse_paths;
    recorded.last_revision = update.last_revision;
    let upgrade = upgrade_configured_git_marketplace(&Location::base(), &recorded)
        .advance(UpgradeEvent::NameValidated(Ok(())))
        .advance(UpgradeEvent::RemoteRevisionFetched(Ok("cloned".to_string())))
        .advance(UpgradeEvent::InstalledChecked(true))
        .advance(UpgradeEvent::MetadataMatched(true));
    assert_eq!(upgrade.into_result(), Some(Ok(None)));
}
