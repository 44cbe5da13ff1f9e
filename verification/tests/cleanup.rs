use marketplace_upgrade::cleanup::{
    remove_stale_marketplace_temp_dirs, DirEntryInfo, StagingListing,
};
use marketplace_upgrade::location::Location;

fn dir(name: &str, age_secs: u64) -> DirEntryInfo {
    DirEntryInfo {
        name: Some(name.to_string()),
        is_dir: Some(true),
        age_secs: Some(age_secs),
    }
}

fn removes(stale: &[Location], parts: &[&str]) -> bool {
    stale.iter().any(|location| location.parts().iter().eq(parts.iter()))
}

#[test]
fn remove_stale_marketplace_temp_dirs_removes_old_staging_dirs() {
    let staging = StagingListing::Entries(vec![
        dir("marketplace-upgrade-aaaaaa", 11 * 60),
        dir("marketplace-add-bbbbbb", 11 * 60),
        dir("marketplace-upgrade-cccccc", 0),
        dir("other-dir", 0),
    ]);
    let installed = Some(vec![dir(".staging", 0)]);

    let stale = remove_stale_marketplace_temp_dirs(&Location::base(), &staging, &installed);

    assert!(
        removes(&stale, &[".staging", "marketplace-upgrade-aaaaaa"]),
        "old upgrade dir should be removed"
    );
    assert!(
        removes(&stale, &[".staging", "marketplace-add-bbbbbb"]),
        "old add dir should be removed"
    );
    assert!(
        !removes(&stale, &[".staging", "marketplace-upgrade-cccccc"]),
        "fresh upgrade dir should be preserved"
    );
    assert!(
        !removes(&stale, &[".staging", "other-dir"]),
        "unrelated dir should be preserved"
    );
    assert_eq!(stale.len(), 2);
}

#[test]
fn remove_stale_marketplace_temp_dirs_removes_old_backup_dirs() {
    let installed = Some(vec![
        dir("marketplace-backup-xxxxxx", 11 * 60),
        dir("marketplace-backup-yyyyyy", 0),
        dir("my-marketplace", 0),
    ]);

    let stale = remove_stale_marketplace_temp_dirs(
        &Location::base(),
        &StagingListing::NoDirectory,
        &installed,
    );

    assert!(
        removes(&stale, &["marketplace-backup-xxxxxx"]),
        "old backup dir should be removed"
    );
    assert!(
        !removes(&stale, &["marketplace-backup-yyyyyy"]),
        "fresh backup dir should be preserved"
    );
    assert!(
        !removes(&stale, &["my-marketplace"]),
        "normal dir should be preserved"
    );
    assert_eq!(stale.len(), 1);
}

#[test]
fn remove_stale_marketplace_temp_dirs_noop_when_no_staging_dir() {
    let stale = remove_stale_marketplace_temp_dirs(
        &Location::base(),
        &StagingListing::NoDirectory,
        &Some(vec![]),
    );
    assert!(stale.is_empty());
}

#[test]
fn old_dirs_of_others_stay() {
    let staging = StagingListing::Entries(vec![
        dir("other-dir", 100_000),
        dir("marketplace-backup-aaaaaa", 100_000),
        dir("x-marketplace-upgrade-aaaaaa", 100_000),
        dir("marketplace-upgrade", 100_000),
    ]);
    let installed = Some(vec![
        dir("my-marketplace", 100_000),
        dir("marketplace-upgrade-aaaaaa", 100_000),
        dir("marketplace-backup", 100_000),
    ]);
    let stale = remove_stale_marketplace_temp_dirs(&Location::base(), &staging, &installed);
    assert!(stale.is_empty());
}

#[test]
fn age_decides_to_the_second() {
    let staging = StagingListing::Entries(vec![
        dir("marketplace-upgrade-young", 599),
        dir("marketplace-upgrade-old", 600),
    ]);
    let installed = Some(vec![
        dir("marketplace-backup-young", 599),
        dir("marketplace-backup-old", 600),
    ]);
    let stale = remove_stale_marketplace_temp_dirs(&Location::base(), &staging, &installed);
    assert_eq!(stale.len(), 2);
    assert_eq!(*stale[0].parts(), vec![".staging", "marketplace-upgrade-old"]);
    assert_eq!(*stale[1].parts(), vec!["marketplace-backup-old"]);
}

#[test]
fn unknown_entries_stay() {
    let mut nameless = dir("", 100_000);
    nameless.name = None;
    let mut untyped = dir("marketplace-add-untyped", 100_000);
    untyped.is_dir = None;
    let mut file = dir("marketplace-add-file", 100_000);
    file.is_dir = Some(false);
    let mut ageless = dir("marketplace-add-ageless", 0);
    ageless.age_secs = None;
    let staging = StagingListing::Entries(vec![nameless, untyped, file, ageless]);
    let stale = remove_stale_marketplace_temp_dirs(&Location::base(), &staging, &None);
    assert!(stale.is_empty());
}

#[test]
fn backups_need_not_be_known_as_directories() {
    let mut backup = dir("marketplace-backup-zzzzzz", 700);
    backup.is_dir = None;
    let stale = remove_stale_marketplace_temp_dirs(
        &Location::base().join("root"),
        &StagingListing::NoDirectory,
        &Some(vec![backup]),
    );
    assert_eq!(stale.len(), 1);
    assert_eq!(*stale[0].parts(), vec!["root", "marketplace-backup-zzzzzz"]);
}

#[test]
fn unreadable_staging_keeps_everything() {
    let stale = remove_stale_marketplace_temp_dirs(
        &Location::base(),
        &StagingListing::Unreadable,
        &Some(vec![dir("marketplace-backup-xxxxxx", 11 * 60)]),
    );
    assert!(stale.is_empty());
}

#[test]
fn second_cleanup_finds_nothing() {
    let mut entries = vec![
        dir("marketplace-upgrade-aaaaaa", 11 * 60),
        dir("marketplace-upgrade-cccccc", 5),
        dir("other-dir", 11 * 60),
    ];
    let first = StagingListing::Entries(vec![
        dir("marketplace-upgrade-aaaaaa", 11 * 60),
        dir("marketplace-upgrade-cccccc", 5),
        dir("other-dir", 11 * 60),
    ]);
    let stale = remove_stale_marketplace_temp_dirs(&Location::base(), &first, &None);
    assert_eq!(stale.len(), 1);
    entries.retain(|entry| !(entry.is_staging_dir() && entry.is_stale()));
    assert_eq!(entries.len(), 2);
    let second = StagingListing::Entries(entries);
    assert!(remove_stale_marketplace_temp_dirs(&Location::base(), &second, &None).is_empty());
}
