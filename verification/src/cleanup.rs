//! Directories that interrupted upgrades have left behind.

use crate::location::{Location, STAGING_DIR};
use crate::sequences::{lemma_filter_of_map, lemma_filter_position};
use crate::text::{has_prefix, option_text, starts_with, Text};
use crate::upgrade::UPGRADE_DIR_PREFIX;
use vstd::prelude::*;
use vstd::string::*;

verus! {

/// How the names of directories begin in which a new marketplace is prepared.
pub const ADD_DIR_PREFIX: &'static str = "marketplace-add-";

/// How the names of directories begin to which an installed marketplace is moved aside.
pub const BACKUP_DIR_PREFIX: &'static str = "marketplace-backup-";

/// From this age in seconds on, a directory has been left behind.
pub const STALE_MARKETPLACE_TEMP_DIR_MAX_AGE_SECS: u64 = 600;

/// What is known of an entry of a directory.
pub struct DirEntryInfo {
    /// Its name, if that is Unicode.
    pub name: Option<String>,
    /// Whether it is a directory, if that could be found out.
    pub is_dir: Option<bool>,
    /// How many whole seconds ago it was modified. Unknown where that could not be found out or
    /// lies in the future.
    pub age_secs: Option<u64>,
}

/// The texts of a [`DirEntryInfo`].
pub struct DirEntryView {
    pub name: Option<Text>,
    pub is_dir: Option<bool>,
    pub age_secs: Option<u64>,
}

impl View for DirEntryInfo {
    type V = DirEntryView;

    open spec fn view(&self) -> DirEntryView {
        DirEntryView {
            name: option_text(self.name),
            is_dir: self.is_dir,
            age_secs: self.age_secs,
        }
    }
}

/// The texts of entries.
pub open spec fn entry_infos(entries: Seq<DirEntryInfo>) -> Seq<DirEntryView> {
    entries.map_values(|entry: DirEntryInfo| entry@)
}

/// What is in the staging directory.
pub enum StagingListing {
    /// There is no such directory.
    NoDirectory,
    /// It could not be listed.
    Unreadable,
    /// These entries.
    Entries(Vec<DirEntryInfo>),
}

impl DirEntryView {
    /// A directory in which an upgrade or a new marketplace is, or was, prepared.
    pub open spec fn is_staging_dir(self) -> bool {
        &&& self.is_dir == Some(true)
        &&& self.name is Some
        &&& has_prefix(self.name->0, UPGRADE_DIR_PREFIX@) || has_prefix(
            self.name->0,
            ADD_DIR_PREFIX@,
        )
    }

    /// Named like a directory to which a marketplace was moved aside.
    pub open spec fn is_backup(self) -> bool {
        self.name is Some && has_prefix(self.name->0, BACKUP_DIR_PREFIX@)
    }

    /// Old enough to have been left behind.
    pub open spec fn is_stale(self) -> bool {
        self.age_secs is Some && self.age_secs->0 >= STALE_MARKETPLACE_TEMP_DIR_MAX_AGE_SECS
    }
}

impl DirEntryInfo {
    /// Whether this is a directory in which an upgrade or a new marketplace is prepared. Its age
    /// does not matter.
    pub fn is_staging_dir(&self) -> (is: bool)
        ensures
            is == self@.is_staging_dir(),
            is <==> self.is_dir == Some(true) && self.name is Some && (
            "marketplace-upgrade-"@.is_prefix_of(self.name->0@)
                || "marketplace-add-"@.is_prefix_of(self.name->0@)),
    {
        match (&self.is_dir, &self.name) {
            (Some(true), Some(name)) => starts_with(name, UPGRADE_DIR_PREFIX) || starts_with(
                name,
                ADD_DIR_PREFIX,
            ),
            _ => false,
        }
    }

    /// Whether this is named like a directory to which a marketplace was moved aside. Its age does
    /// not matter.
    pub fn is_backup(&self) -> (is: bool)
        ensures
            is == self@.is_backup(),
            is <==> self.name is Some && "marketplace-backup-"@.is_prefix_of(self.name->0@),
    {
        match &self.name {
            Some(name) => starts_with(name, BACKUP_DIR_PREFIX),
            None => false,
        }
    }

    /// Whether this is old enough to have been left behind.
    pub fn is_stale(&self) -> (is: bool)
        ensures
            is == self@.is_stale(),
            is <==> self.age_secs is Some && self.age_secs->0 >= 600,
    {
        match self.age_secs {
            Some(age_secs) => age_secs >= STALE_MARKETPLACE_TEMP_DIR_MAX_AGE_SECS,
            None => false,
        }
    }
}

/// The places in `dir` of the entries that were prepared there and left behind, in order.
pub open spec fn stale_staging_dirs(dir: Seq<Text>, entries: Seq<DirEntryView>) -> Seq<Seq<Text>> {
    entries.filter(|entry: DirEntryView| entry.is_staging_dir() && entry.is_stale()).map_values(
        |entry: DirEntryView| dir.push(entry.name->0),
    )
}

/// The places in `dir` of the entries that were moved aside and left behind, in order.
pub open spec fn stale_backups(dir: Seq<Text>, entries: Seq<DirEntryView>) -> Seq<Seq<Text>> {
    entries.filter(|entry: DirEntryView| entry.is_backup() && entry.is_stale()).map_values(
        |entry: DirEntryView| dir.push(entry.name->0),
    )
}

/// What is to be removed below `install_root`, in order: what was left behind in the staging
/// directory, then the backups that were left behind. A staging directory that is missing has
/// nothing to remove; where it cannot be listed, nothing is removed at all.
pub open spec fn stale_dirs(
    install_root: Seq<Text>,
    staging: StagingListing,
    installed: Option<Vec<DirEntryInfo>>,
) -> Seq<Seq<Text>> {
    let backups = match installed {
        Some(entries) => stale_backups(install_root, entry_infos(entries@)),
        None => Seq::empty(),
    };
    match staging {
        StagingListing::NoDirectory => backups,
        StagingListing::Unreadable => Seq::empty(),
        StagingListing::Entries(entries) => stale_staging_dirs(
            install_root.push(STAGING_DIR@),
            entry_infos(entries@),
        ) + backups,
    }
}

/// The places of a list.
pub open spec fn places(locations: Seq<Location>) -> Seq<Seq<Text>> {
    locations.map_values(|location: Location| location@)
}

proof fn lemma_filter_next(
    entries: Seq<DirEntryView>,
    keep: spec_fn(DirEntryView) -> bool,
    place: spec_fn(DirEntryView) -> Seq<Text>,
    i: int,
)
    requires
        0 <= i < entries.len(),
    ensures
        entries.take(i + 1).filter(keep).map_values(place) == if keep(entries[i]) {
            entries.take(i).filter(keep).map_values(place).push(place(entries[i]))
        } else {
            entries.take(i).filter(keep).map_values(place)
        },
{
    reveal(Seq::filter);
    assert(entries.take(i + 1).drop_last() =~= entries.take(i));
    let before = entries.take(i).filter(keep);
    assert(before.push(entries[i]).map_values(place) =~= before.map_values(place).push(
        place(entries[i]),
    ));
}

/// What may have been left behind.
enum Leftover {
    StagingDir,
    Backup,
}

/// The places in `dir` of the entries of a kind that were left behind, in order.
spec fn stale_leftovers(kind: Leftover, dir: Seq<Text>, entries: Seq<DirEntryView>) -> Seq<
    Seq<Text>,
> {
    match kind {
        Leftover::StagingDir => stale_staging_dirs(dir, entries),
        Leftover::Backup => stale_backups(dir, entries),
    }
}

impl Leftover {
    /// `entry` is of this kind.
    spec fn spec_covers(self, entry: DirEntryView) -> bool {
        match self {
            Leftover::StagingDir => entry.is_staging_dir(),
            Leftover::Backup => entry.is_backup(),
        }
    }

    /// Whether `entry` is of this kind.
    fn covers(&self, entry: &DirEntryInfo) -> (is: bool)
        ensures
            is == self.spec_covers(entry@),
    {
        match self {
            Leftover::StagingDir => entry.is_staging_dir(),
            Leftover::Backup => entry.is_backup(),
        }
    }
}

/// Adds the places in `dir` of the entries of a kind that were left behind.
fn add_stale_leftovers(
    kind: Leftover,
    dir: &Location,
    entries: &Vec<DirEntryInfo>,
    found: &mut Vec<Location>,
)
    ensures
        places(final(found)@) == places(old(found)@) + stale_leftovers(
            kind,
            dir@,
            entry_infos(entries@),
        ),
{
    let ghost before = places(found@);
    let ghost infos = entry_infos(entries@);
    let ghost keep = |entry: DirEntryView| kind.spec_covers(entry) && entry.is_stale();
    let ghost place = |entry: DirEntryView| dir@.push(entry.name->0);
    let mut i: usize = 0;
    proof {
        reveal(Seq::filter);
        assert(infos.take(0).filter(keep).map_values(place) =~= Seq::<Seq<Text>>::empty());
        assert(before + Seq::<Seq<Text>>::empty() =~= before);
    }
    while i < entries.len()
        invariant
            i <= entries@.len(),
            infos == entry_infos(entries@),
            keep == (|entry: DirEntryView| kind.spec_covers(entry) && entry.is_stale()),
            place == (|entry: DirEntryView| dir@.push(entry.name->0)),
            places(found@) == before + infos.take(i as int).filter(keep).map_values(place),
        decreases entries@.len() - i,
    {
        proof {
            lemma_filter_next(infos, keep, place, i as int);
        }
        let ghost so_far = places(found@);
        let entry = &entries[i];
        assert(infos[i as int] == entry@);
        if kind.covers(entry) && entry.is_stale() {
            if let Some(name) = &entry.name {
                found.push(dir.join(name));
                assert(places(found@) =~= so_far.push(place(entry@)));
            }
        }
        assert(places(found@) =~= before + infos.take(i + 1).filter(keep).map_values(place));
        i += 1;
    }
    proof {
        assert(infos.take(i as int) =~= infos);
        match kind {
            Leftover::StagingDir => {
                assert(keep =~= |entry: DirEntryView| entry.is_staging_dir() && entry.is_stale());
            },
            Leftover::Backup => {
                assert(keep =~= |entry: DirEntryView| entry.is_backup() && entry.is_stale());
            },
        }
    }
}

/// The directories to remove below `install_root`, in order, because an upgrade or an addition was
/// interrupted and left them behind. `installed` holds the entries of `install_root` itself, unless
/// it could not be listed.
pub fn remove_stale_marketplace_temp_dirs(
    install_root: &Location,
    staging: &StagingListing,
    installed: &Option<Vec<DirEntryInfo>>,
) -> (stale: Vec<Location>)
    ensures
        places(stale@) == stale_dirs(install_root@, *staging, *installed),
{
    let mut stale: Vec<Location> = Vec::new();
    assert(places(stale@) =~= Seq::<Seq<Text>>::empty());
    match staging {
        StagingListing::NoDirectory => {},
        StagingListing::Unreadable => {
            return stale;
        },
        StagingListing::Entries(entries) => {
            let staging_parent = install_root.join(STAGING_DIR);
            add_stale_leftovers(Leftover::StagingDir, &staging_parent, entries, &mut stale);
        },
    }
    if let Some(entries) = installed {
        add_stale_leftovers(Leftover::Backup, install_root, entries, &mut stale);
    }
    assert(places(stale@) =~= stale_dirs(install_root@, *staging, *installed));
    stale
}

proof fn lemma_filtered_places(
    entries: Seq<DirEntryView>,
    keep: spec_fn(DirEntryView) -> bool,
    place: spec_fn(DirEntryView) -> Seq<Text>,
    at: Seq<Text>,
)
    ensures
        entries.filter(keep).map_values(place).contains(at) <==> exists|i: int|
            0 <= i < entries.len() && keep(#[trigger] entries[i]) && place(entries[i]) == at,
{
    broadcast use vstd::seq_lib::group_filter_ensures;

    let kept = entries.filter(keep);
    let found = kept.map_values(place);
    if found.contains(at) {
        let k = choose|k: int| 0 <= k < found.len() && found[k] == at;
        assert(kept.contains(kept[k]));
        entries.lemma_filter_contains_rev(keep, kept[k]);
        let i = choose|i: int| 0 <= i < entries.len() && entries[i] == kept[k];
        assert(keep(entries[i]));
    }
    if exists|i: int|
        0 <= i < entries.len() && keep(#[trigger] entries[i]) && place(entries[i]) == at {
        let i = choose|i: int|
            0 <= i < entries.len() && keep(#[trigger] entries[i]) && place(entries[i]) == at;
        assert(kept.contains(entries[i]));
        let k = choose|k: int| 0 <= k < kept.len() && kept[k] == entries[i];
        assert(found[k] == at);
    }
}

/// A place in the staging directory is to be removed exactly when an entry with its name is a
/// directory, is named as one in which something is prepared, and is stale. So fresh directories
/// and those of others stay.
pub proof fn law_staging_removal_is_exact(
    dir: Seq<Text>,
    entries: Seq<DirEntryView>,
    at: Seq<Text>,
)
    ensures
        stale_staging_dirs(dir, entries).contains(at) <==> exists|i: int|
            0 <= i < entries.len() && (#[trigger] entries[i]).is_staging_dir()
                && entries[i].is_stale() && at == dir.push(entries[i].name->0),
{
    let keep = |entry: DirEntryView| entry.is_staging_dir() && entry.is_stale();
    let place = |entry: DirEntryView| dir.push(entry.name->0);
    lemma_filtered_places(entries, keep, place, at);
}

/// A place below the directory of installed marketplaces is to be removed exactly when an entry
/// with its name is named as a backup and is stale. So fresh backups stay, and so does all that is
/// not named as one.
pub proof fn law_backup_removal_is_exact(dir: Seq<Text>, entries: Seq<DirEntryView>, at: Seq<Text>)
    ensures
        stale_backups(dir, entries).contains(at) <==> exists|i: int|
            0 <= i < entries.len() && (#[trigger] entries[i]).is_backup() && entries[i].is_stale()
                && at == dir.push(entries[i].name->0),
{
    let keep = |entry: DirEntryView| entry.is_backup() && entry.is_stale();
    let place = |entry: DirEntryView| dir.push(entry.name->0);
    lemma_filtered_places(entries, keep, place, at);
}

/// A place is to be removed exactly when it was left behind in the staging directory or as a
/// backup. Backups do not depend on whether there is a staging directory; only one that cannot be
/// listed keeps everything in place.
pub proof fn law_only_what_was_left_behind_is_removed(
    install_root: Seq<Text>,
    staging: StagingListing,
    installed: Option<Vec<DirEntryInfo>>,
    at: Seq<Text>,
)
    ensures
        stale_dirs(install_root, staging, installed).contains(at) <==> {
            ||| staging matches StagingListing::Entries(entries) && stale_staging_dirs(
                install_root.push(STAGING_DIR@),
                entry_infos(entries@),
            ).contains(at)
            ||| installed matches Some(entries) && !(staging is Unreadable) && stale_backups(
                install_root,
                entry_infos(entries@),
            ).contains(at)
        },
{
    let backups = match installed {
        Some(entries) => stale_backups(install_root, entry_infos(entries@)),
        None => Seq::empty(),
    };
    if let StagingListing::Entries(entries) = staging {
        let staged = stale_staging_dirs(
            install_root.push(STAGING_DIR@),
            entry_infos(entries@),
        );
        let both = staged + backups;
        if both.contains(at) {
            let i = choose|i: int| 0 <= i < both.len() && both[i] == at;
            if i < staged.len() {
                assert(staged[i] == at);
            } else {
                assert(backups[i - staged.len()] == at);
            }
        }
        if staged.contains(at) {
            let i = choose|i: int| 0 <= i < staged.len() && staged[i] == at;
            assert(both[i] == at);
        }
        if backups.contains(at) {
            let i = choose|i: int| 0 <= i < backups.len() && backups[i] == at;
            assert(both[staged.len() + i] == at);
        }
    }
}

/// Once what was stale is gone, there is nothing left to remove.
pub proof fn law_cleaned_directories_stay_as_they_are(
    dir: Seq<Text>,
    entries: Seq<DirEntryView>,
)
    ensures
        stale_staging_dirs(
            dir,
            entries.filter(|entry: DirEntryView| !(entry.is_staging_dir() && entry.is_stale())),
        ) == Seq::<Seq<Text>>::empty(),
        stale_backups(
            dir,
            entries.filter(|entry: DirEntryView| !(entry.is_backup() && entry.is_stale())),
        ) == Seq::<Seq<Text>>::empty(),
{
    broadcast use vstd::seq_lib::group_filter_ensures;

    let left = entries.filter(
        |entry: DirEntryView| !(entry.is_staging_dir() && entry.is_stale()),
    );
    let found = stale_staging_dirs(dir, left);
    if found.len() > 0 {
        assert(found.contains(found[0]));
        law_staging_removal_is_exact(dir, left, found[0]);
    }
    assert(found =~= Seq::<Seq<Text>>::empty());
    let left = entries.filter(|entry: DirEntryView| !(entry.is_backup() && entry.is_stale()));
    let found = stale_backups(dir, left);
    if found.len() > 0 {
        assert(found.contains(found[0]));
        law_backup_removal_is_exact(dir, left, found[0]);
    }
    assert(found =~= Seq::<Seq<Text>>::empty());
}

/// What is read of an entry, of entries or of places is what they hold.
pub proof fn law_entries_are_read_in_full(entries: Seq<DirEntryInfo>, locations: Seq<Location>)
    ensures
        entry_infos(entries).len() == entries.len(),
        forall|i: int|
            0 <= i < entries.len() ==> {
                &&& (#[trigger] entry_infos(entries)[i]).name == option_text(entries[i].name)
                &&& entry_infos(entries)[i].is_dir == entries[i].is_dir
                &&& entry_infos(entries)[i].age_secs == entries[i].age_secs
            },
        places(locations).len() == locations.len(),
        forall|i: int|
            0 <= i < locations.len() ==> #[trigger] places(locations)[i] == locations[i]@,
{
}

/// A place below the staging directory is to be removed exactly when an entry has its name, is a
/// directory, is named as one in which an upgrade or a new marketplace is prepared, and was
/// modified ten minutes ago or earlier. A place below the directory of installed marketplaces is to
/// be removed exactly when an entry has its name, is named as a backup and is as old. Nothing is to
/// be removed where the staging directory cannot be listed.
pub proof fn law_what_is_removed_was_left_behind_for_ten_minutes(
    install_root: Seq<Text>,
    staging: StagingListing,
    installed: Option<Vec<DirEntryInfo>>,
    at: Seq<Text>,
)
    ensures
        stale_dirs(install_root, staging, installed).contains(at) <==> {
            ||| staging matches StagingListing::Entries(entries) && exists|i: int|
                0 <= i < entries@.len() && {
                    let entry = #[trigger] entries@[i];
                    &&& entry.is_dir == Some(true)
                    &&& entry.name is Some
                    &&& at == install_root.push(".staging"@).push(entry.name->0@)
                    &&& "marketplace-upgrade-"@.is_prefix_of(entry.name->0@)
                        || "marketplace-add-"@.is_prefix_of(entry.name->0@)
                    &&& entry.age_secs is Some
                    &&& entry.age_secs->0 >= 600
                }
            ||| installed matches Some(entries) && !(staging is Unreadable) && exists|i: int|
                0 <= i < entries@.len() && {
                    let entry = #[trigger] entries@[i];
                    &&& entry.name is Some
                    &&& at == install_root.push(entry.name->0@)
                    &&& "marketplace-backup-"@.is_prefix_of(entry.name->0@)
                    &&& entry.age_secs is Some
                    &&& entry.age_secs->0 >= 600
                }
        },
{
    law_only_what_was_left_behind_is_removed(install_root, staging, installed, at);
    if let StagingListing::Entries(entries) = staging {
        let dir = install_root.push(STAGING_DIR@);
        let infos = entry_infos(entries@);
        law_staging_removal_is_exact(dir, infos, at);
        assert(forall|i: int| 0 <= i < infos.len() ==> #[trigger] infos[i] == entries@[i]@);
        if stale_staging_dirs(dir, infos).contains(at) {
            let i = choose|i: int|
                0 <= i < infos.len() && (#[trigger] infos[i]).is_staging_dir()
                    && infos[i].is_stale() && at == dir.push(infos[i].name->0);
            assert(infos[i] == entries@[i]@);
        }
        assert forall|i: int|
            0 <= i < entries@.len() && (#[trigger] entries@[i])@.is_staging_dir()
                && entries@[i]@.is_stale() && at == dir.push(
                entries@[i].name->0@,
            ) implies stale_staging_dirs(dir, infos).contains(at) by {
            assert(infos[i].is_staging_dir());
        }
    }
    if let Some(entries) = installed {
        let infos = entry_infos(entries@);
        law_backup_removal_is_exact(install_root, infos, at);
        assert(forall|i: int| 0 <= i < infos.len() ==> #[trigger] infos[i] == entries@[i]@);
        if stale_backups(install_root, infos).contains(at) {
            let i = choose|i: int|
                0 <= i < infos.len() && (#[trigger] infos[i]).is_backup() && infos[i].is_stale()
                    && at == install_root.push(infos[i].name->0);
            assert(infos[i] == entries@[i]@);
        }
        assert forall|i: int|
            0 <= i < entries@.len() && (#[trigger] entries@[i])@.is_backup()
                && entries@[i]@.is_stale() && at == install_root.push(
                entries@[i].name->0@,
            ) implies stale_backups(install_root, infos).contains(at) by {
            assert(infos[i].is_backup());
        }
    }
}

/// What is to be removed is listed once for each entry that was left behind: first those of the
/// staging directory, then the backups, both in the order in which the directories list them.
pub proof fn law_what_was_left_behind_is_removed_in_order(
    install_root: Seq<Text>,
    staging: StagingListing,
    installed: Option<Vec<DirEntryInfo>>,
    i: int,
)
    ensures
        ({
            let stale = stale_dirs(install_root, staging, installed);
            let staged = match staging {
                StagingListing::Entries(entries) => entries@,
                _ => Seq::empty(),
            };
            let kept_aside = match installed {
                Some(entries) => if staging is Unreadable {
                    Seq::empty()
                } else {
                    entries@
                },
                None => Seq::empty(),
            };
            let prepared = |entry: DirEntryInfo|
                entry.is_dir == Some(true) && entry.name is Some && (
                "marketplace-upgrade-"@.is_prefix_of(entry.name->0@)
                    || "marketplace-add-"@.is_prefix_of(entry.name->0@)) && entry.age_secs is Some
                    && entry.age_secs->0 >= 600;
            let backup = |entry: DirEntryInfo|
                entry.name is Some && "marketplace-backup-"@.is_prefix_of(entry.name->0@)
                    && entry.age_secs is Some && entry.age_secs->0 >= 600;
            let first_backup = staged.filter(prepared).len();
            let staged_before = staged.take(i).filter(prepared).len() as int;
            let backups_before = kept_aside.take(i).filter(backup).len() as int;
            &&& stale.len() == first_backup + kept_aside.filter(backup).len()
            &&& 0 <= i < staged.len() && prepared(staged[i]) ==> {
                &&& staged_before < first_backup
                &&& stale[staged_before] == install_root.push(".staging"@).push(staged[i].name->0@)
            }
            &&& 0 <= i < kept_aside.len() && backup(kept_aside[i]) ==> {
                &&& first_backup + backups_before < stale.len()
                &&& stale[first_backup + backups_before] == install_root.push(
                    kept_aside[i].name->0@,
                )
            }
        }),
{
    reveal(Seq::filter);
    let staged: Seq<DirEntryInfo> = match staging {
        StagingListing::Entries(entries) => entries@,
        _ => Seq::empty(),
    };
    let kept_aside: Seq<DirEntryInfo> = match installed {
        Some(entries) => if staging is Unreadable {
            Seq::empty()
        } else {
            entries@
        },
        None => Seq::empty(),
    };
    let prepared = |entry: DirEntryInfo|
        entry.is_dir == Some(true) && entry.name is Some && (
        "marketplace-upgrade-"@.is_prefix_of(entry.name->0@) || "marketplace-add-"@.is_prefix_of(
            entry.name->0@,
        )) && entry.age_secs is Some && entry.age_secs->0 >= 600;
    let backup = |entry: DirEntryInfo|
        entry.name is Some && "marketplace-backup-"@.is_prefix_of(entry.name->0@) && entry.age_secs
            is Some && entry.age_secs->0 >= 600;
    let read = |entry: DirEntryInfo| entry@;
    let dir = install_root.push(STAGING_DIR@);
    lemma_filter_of_map(
        staged,
        read,
        prepared,
        |entry: DirEntryView| entry.is_staging_dir() && entry.is_stale(),
    );
    lemma_filter_of_map(
        kept_aside,
        read,
        backup,
        |entry: DirEntryView| entry.is_backup() && entry.is_stale(),
    );
    assert(entry_infos(staged) == staged.map_values(read));
    assert(entry_infos(kept_aside) == kept_aside.map_values(read));
    assert(stale_dirs(install_root, staging, installed) =~= stale_staging_dirs(
        dir,
        entry_infos(staged),
    ) + stale_backups(install_root, entry_infos(kept_aside)));
    if 0 <= i < staged.len() && prepared(staged[i]) {
        lemma_filter_position(staged, prepared, i);
    }
    if 0 <= i < kept_aside.len() && backup(kept_aside[i]) {
        lemma_filter_position(kept_aside, backup, i);
    }
}

/// What is removed at some age is removed at every greater age: as the entries of a directory grow
/// older, nothing that was to be removed is kept.
pub proof fn law_growing_older_saves_nothing(
    dir: Seq<Text>,
    entries: Seq<DirEntryView>,
    older: Seq<DirEntryView>,
    at: Seq<Text>,
)
    requires
        older.len() == entries.len(),
        forall|i: int|
            0 <= i < entries.len() ==> {
                &&& (#[trigger] older[i]).name == entries[i].name
                &&& older[i].is_dir == entries[i].is_dir
                &&& entries[i].age_secs is Some ==> older[i].age_secs is Some
                    && older[i].age_secs->0 >= entries[i].age_secs->0
            },
    ensures
        stale_staging_dirs(dir, entries).contains(at) ==> stale_staging_dirs(dir, older).contains(
            at,
        ),
        stale_backups(dir, entries).contains(at) ==> stale_backups(dir, older).contains(at),
{
    law_staging_removal_is_exact(dir, entries, at);
    law_staging_removal_is_exact(dir, older, at);
    law_backup_removal_is_exact(dir, entries, at);
    law_backup_removal_is_exact(dir, older, at);
    if stale_staging_dirs(dir, entries).contains(at) {
        let i = choose|i: int|
            0 <= i < entries.len() && (#[trigger] entries[i]).is_staging_dir()
                && entries[i].is_stale() && at == dir.push(entries[i].name->0);
        assert(older[i].is_staging_dir());
    }
    if stale_backups(dir, entries).contains(at) {
        let i = choose|i: int|
            0 <= i < entries.len() && (#[trigger] entries[i]).is_backup() && entries[i].is_stale()
                && at == dir.push(entries[i].name->0);
        assert(older[i].is_backup());
    }
}

} // verus!
