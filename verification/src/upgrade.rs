//! The upgrade of one marketplace, step by step.
//!
//! An upgrade asks for one thing at a time ([`MarketplaceUpgrade::pending`]) and goes on with what
//! came of it ([`MarketplaceUpgrade::advance`]), until it has a result.

use crate::config::{MarketplaceConfigUpdate, MarketplaceConfigUpdateView};
use crate::configured::{ConfiguredGitMarketplace, ConfiguredGitMarketplaceView};
use crate::location::{Location, STAGING_DIR};
use crate::messages::{
    invalid_root, invalid_root_message, name_mismatch, name_mismatch_message, not_absolute,
    not_absolute_message, staged_dir_failed, staged_dir_failed_message, staging_parent_failed,
    staging_parent_failed_message,
};
use crate::text::{copy_option, copy_texts, error_text, option_text, same_text, texts, Text};
use crate::timestamp::{format_utc, rfc3339_utc, LAST_SECOND};
use vstd::prelude::*;
use vstd::string::*;

verus! {

/// A path of the file system. The library only hands it on.
#[verifier::external_type_specification]
#[verifier::external_body]
pub struct ExPathBuf(std::path::PathBuf);

/// How many seconds a Git command may take.
pub const MARKETPLACE_UPGRADE_GIT_TIMEOUT_SECS: u64 = 30;

/// What an installed marketplace has at this place below its directory.
pub const MARKETPLACE_MANIFEST: &'static str = ".agents/plugins/marketplace.json";

/// How the names of directories begin in which upgrades are prepared.
pub const UPGRADE_DIR_PREFIX: &'static str = "marketplace-upgrade-";

/// What a marketplace name is called when it is refused.
pub const NAME_KIND: &'static str = "marketplace name";

/// How the configuration writes that a marketplace comes from Git.
pub const GIT_SOURCE_TYPE: &'static str = "git";

/// What went wrong at a path, both as they are displayed.
pub struct PathFailure {
    pub path: String,
    pub err: String,
}

/// The texts of a [`PathFailure`].
pub struct PathFailureView {
    pub path: Text,
    pub err: Text,
}

impl View for PathFailure {
    type V = PathFailureView;

    open spec fn view(&self) -> PathFailureView {
        PathFailureView { path: self.path@, err: self.err@ }
    }
}

/// What an upgrade asks for.
pub enum UpgradeAction {
    /// Check that `name` may name a directory. `kind` says what it is.
    ValidateName { name: String, kind: String },
    /// Ask the repository for its revision.
    FetchRemoteRevision { source: String, ref_name: Option<String>, timeout_secs: u64 },
    /// See whether there is a file at `manifest`.
    CheckInstalled { manifest: Location },
    /// See whether what is at `destination` was installed as `marketplace`, at `revision`.
    MatchMetadata {
        destination: Location,
        marketplace: ConfiguredGitMarketplace,
        revision: String,
    },
    /// Create the directory `parent` and those above it.
    CreateStagingParent { parent: Location },
    /// Create a temporary directory in `parent` whose name begins with `prefix`.
    CreateStagedDir { parent: Location, prefix: String },
    /// Clone the repository into the temporary directory.
    CloneSource {
        source: String,
        ref_name: Option<String>,
        sparse_paths: Vec<String>,
        timeout_secs: u64,
    },
    /// Check that the temporary directory holds a marketplace, and find its name.
    ValidateRoot,
    /// Note in the temporary directory that it holds `marketplace`, at `revision`.
    WriteMetadata { marketplace: ConfiguredGitMarketplace, revision: String },
    /// Tell the seconds since the start of 1970.
    ReadClock,
    /// Put the temporary directory in the place of `destination`, and record `update` of
    /// `marketplace`.
    Activate {
        destination: Location,
        marketplace: ConfiguredGitMarketplace,
        update: MarketplaceConfigUpdate,
    },
    /// Find the absolute path of `destination`.
    ResolveDestination { destination: Location },
    /// Nothing more.
    Done,
}

/// The texts of an [`UpgradeAction`].
pub enum UpgradeActionView {
    ValidateName { name: Text, kind: Text },
    FetchRemoteRevision { source: Text, ref_name: Option<Text>, timeout_secs: u64 },
    CheckInstalled { manifest: Seq<Text> },
    MatchMetadata {
        destination: Seq<Text>,
        marketplace: ConfiguredGitMarketplaceView,
        revision: Text,
    },
    CreateStagingParent { parent: Seq<Text> },
    CreateStagedDir { parent: Seq<Text>, prefix: Text },
    CloneSource {
        source: Text,
        ref_name: Option<Text>,
        sparse_paths: Seq<Text>,
        timeout_secs: u64,
    },
    ValidateRoot,
    WriteMetadata { marketplace: ConfiguredGitMarketplaceView, revision: Text },
    ReadClock,
    Activate {
        destination: Seq<Text>,
        marketplace: ConfiguredGitMarketplaceView,
        update: MarketplaceConfigUpdateView,
    },
    ResolveDestination { destination: Seq<Text> },
    Done,
}

impl View for UpgradeAction {
    type V = UpgradeActionView;

    open spec fn view(&self) -> UpgradeActionView {
        match *self {
            UpgradeAction::ValidateName { name, kind } => UpgradeActionView::ValidateName {
                name: name@,
                kind: kind@,
            },
            UpgradeAction::FetchRemoteRevision { source, ref_name, timeout_secs } =>
                UpgradeActionView::FetchRemoteRevision {
                source: source@,
                ref_name: option_text(ref_name),
                timeout_secs,
            },
            UpgradeAction::CheckInstalled { manifest } => UpgradeActionView::CheckInstalled {
                manifest: manifest@,
            },
            UpgradeAction::MatchMetadata { destination, marketplace, revision } =>
                UpgradeActionView::MatchMetadata {
                destination: destination@,
                marketplace: marketplace@,
                revision: revision@,
            },
            UpgradeAction::CreateStagingParent { parent } =>
                UpgradeActionView::CreateStagingParent { parent: parent@ },
            UpgradeAction::CreateStagedDir { parent, prefix } =>
                UpgradeActionView::CreateStagedDir { parent: parent@, prefix: prefix@ },
            UpgradeAction::CloneSource { source, ref_name, sparse_paths, timeout_secs } =>
                UpgradeActionView::CloneSource {
                source: source@,
                ref_name: option_text(ref_name),
                sparse_paths: texts(sparse_paths@),
                timeout_secs,
            },
            UpgradeAction::ValidateRoot => UpgradeActionView::ValidateRoot,
            UpgradeAction::WriteMetadata { marketplace, revision } =>
                UpgradeActionView::WriteMetadata {
                marketplace: marketplace@,
                revision: revision@,
            },
            UpgradeAction::ReadClock => UpgradeActionView::ReadClock,
            UpgradeAction::Activate { destination, marketplace, update } =>
                UpgradeActionView::Activate {
                destination: destination@,
                marketplace: marketplace@,
                update: update@,
            },
            UpgradeAction::ResolveDestination { destination } =>
                UpgradeActionView::ResolveDestination { destination: destination@ },
            UpgradeAction::Done => UpgradeActionView::Done,
        }
    }
}

/// What came of an [`UpgradeAction`].
pub enum UpgradeEvent {
    NameValidated(Result<(), String>),
    RemoteRevisionFetched(Result<String, String>),
    InstalledChecked(bool),
    MetadataMatched(bool),
    StagingParentCreated(Result<(), PathFailure>),
    StagedDirCreated(Result<(), PathFailure>),
    /// The revision that was checked out.
    SourceCloned(Result<String, String>),
    /// The name that the marketplace gives itself.
    RootValidated(Result<String, String>),
    MetadataWritten(Result<(), String>),
    ClockRead(i64),
    Activated(Result<(), String>),
    DestinationResolved(Result<std::path::PathBuf, String>),
}

/// The texts of an [`UpgradeEvent`].
pub enum UpgradeEventView {
    NameValidated(Result<(), Text>),
    RemoteRevisionFetched(Result<Text, Text>),
    InstalledChecked(bool),
    MetadataMatched(bool),
    StagingParentCreated(Result<(), PathFailureView>),
    StagedDirCreated(Result<(), PathFailureView>),
    SourceCloned(Result<Text, Text>),
    RootValidated(Result<Text, Text>),
    MetadataWritten(Result<(), Text>),
    ClockRead(i64),
    Activated(Result<(), Text>),
    DestinationResolved(Result<std::path::PathBuf, Text>),
}

/// The string of a result, as a text.
pub open spec fn result_text(result: Result<String, String>) -> Result<Text, Text> {
    match result {
        Ok(value) => Ok(value@),
        Err(err) => Err(err@),
    }
}

/// The failure of a result, as texts.
pub open spec fn path_result(result: Result<(), PathFailure>) -> Result<(), PathFailureView> {
    match result {
        Ok(()) => Ok(()),
        Err(failure) => Err(failure@),
    }
}

impl View for UpgradeEvent {
    type V = UpgradeEventView;

    open spec fn view(&self) -> UpgradeEventView {
        match *self {
            UpgradeEvent::NameValidated(r) => UpgradeEventView::NameValidated(error_text(r)),
            UpgradeEvent::RemoteRevisionFetched(r) => UpgradeEventView::RemoteRevisionFetched(
                result_text(r),
            ),
            UpgradeEvent::InstalledChecked(b) => UpgradeEventView::InstalledChecked(b),
            UpgradeEvent::MetadataMatched(b) => UpgradeEventView::MetadataMatched(b),
            UpgradeEvent::StagingParentCreated(r) => UpgradeEventView::StagingParentCreated(
                path_result(r),
            ),
            UpgradeEvent::StagedDirCreated(r) => UpgradeEventView::StagedDirCreated(path_result(r)),
            UpgradeEvent::SourceCloned(r) => UpgradeEventView::SourceCloned(result_text(r)),
            UpgradeEvent::RootValidated(r) => UpgradeEventView::RootValidated(result_text(r)),
            UpgradeEvent::MetadataWritten(r) => UpgradeEventView::MetadataWritten(error_text(r)),
            UpgradeEvent::ClockRead(seconds) => UpgradeEventView::ClockRead(seconds),
            UpgradeEvent::Activated(r) => UpgradeEventView::Activated(error_text(r)),
            UpgradeEvent::DestinationResolved(r) => UpgradeEventView::DestinationResolved(
                error_text(r),
            ),
        }
    }
}

/// How far an upgrade has come.
enum Stage {
    ValidatingName,
    FetchingRevision,
    CheckingInstalled { remote: String },
    MatchingMetadata { remote: String },
    CreatingStagingParent,
    CreatingStagedDir,
    Cloning,
    ValidatingRoot { revision: String },
    WritingMetadata { revision: String },
    ReadingClock { revision: String },
    Activating { revision: String, last_updated: String },
    Resolving,
    Finished { result: Result<Option<std::path::PathBuf>, String> },
}

/// How far an upgrade has come, as texts.
pub enum StageView {
    ValidatingName,
    FetchingRevision,
    CheckingInstalled { remote: Text },
    MatchingMetadata { remote: Text },
    CreatingStagingParent,
    CreatingStagedDir,
    Cloning,
    ValidatingRoot { revision: Text },
    WritingMetadata { revision: Text },
    ReadingClock { revision: Text },
    Activating { revision: Text, last_updated: Text },
    Resolving,
    Finished { result: Result<Option<std::path::PathBuf>, Text> },
}

impl View for Stage {
    type V = StageView;

    closed spec fn view(&self) -> StageView {
        match *self {
            Stage::ValidatingName => StageView::ValidatingName,
            Stage::FetchingRevision => StageView::FetchingRevision,
            Stage::CheckingInstalled { remote } => StageView::CheckingInstalled {
                remote: remote@,
            },
            Stage::MatchingMetadata { remote } => StageView::MatchingMetadata { remote: remote@ },
            Stage::CreatingStagingParent => StageView::CreatingStagingParent,
            Stage::CreatingStagedDir => StageView::CreatingStagedDir,
            Stage::Cloning => StageView::Cloning,
            Stage::ValidatingRoot { revision } => StageView::ValidatingRoot {
                revision: revision@,
            },
            Stage::WritingMetadata { revision } => StageView::WritingMetadata {
                revision: revision@,
            },
            Stage::ReadingClock { revision } => StageView::ReadingClock { revision: revision@ },
            Stage::Activating { revision, last_updated } => StageView::Activating {
                revision: revision@,
                last_updated: last_updated@,
            },
            Stage::Resolving => StageView::Resolving,
            Stage::Finished { result } => StageView::Finished { result: error_text(result) },
        }
    }
}

/// The upgrade of one marketplace, at some stage.
pub struct MarketplaceUpgrade {
    marketplace: ConfiguredGitMarketplace,
    install_root: Location,
    stage: Stage,
}

/// The texts of a [`MarketplaceUpgrade`].
pub struct UpgradeView {
    pub marketplace: ConfiguredGitMarketplaceView,
    pub install_root: Seq<Text>,
    pub stage: StageView,
}

impl View for MarketplaceUpgrade {
    type V = UpgradeView;

    closed spec fn view(&self) -> UpgradeView {
        UpgradeView {
            marketplace: self.marketplace@,
            install_root: self.install_root@,
            stage: self.stage@,
        }
    }
}

/// What an upgrade records of `marketplace`: that it comes from Git as configured, at `revision`,
/// since `last_updated`.
pub open spec fn update_of(
    marketplace: ConfiguredGitMarketplaceView,
    revision: Text,
    last_updated: Text,
) -> MarketplaceConfigUpdateView {
    MarketplaceConfigUpdateView {
        last_updated,
        last_revision: Some(revision),
        source_type: GIT_SOURCE_TYPE@,
        source: marketplace.source,
        ref_name: marketplace.ref_name,
        sparse_paths: marketplace.sparse_paths,
    }
}

/// What an upgrade records of `marketplace`.
pub fn marketplace_config_update(
    marketplace: &ConfiguredGitMarketplace,
    revision: &str,
    last_updated: &str,
) -> (update: MarketplaceConfigUpdate)
    ensures
        update@ == update_of(marketplace@, revision@, last_updated@),
{
    MarketplaceConfigUpdate {
        last_updated: last_updated.to_owned(),
        last_revision: Some(revision.to_owned()),
        source_type: GIT_SOURCE_TYPE.to_owned(),
        source: marketplace.source.clone(),
        ref_name: copy_option(&marketplace.ref_name),
        sparse_paths: copy_texts(&marketplace.sparse_paths),
    }
}

impl UpgradeView {
    /// Where the marketplace is installed.
    pub open spec fn destination(self) -> Seq<Text> {
        self.install_root.push(self.marketplace.name)
    }

    /// Where upgrades are prepared.
    pub open spec fn staging_parent(self) -> Seq<Text> {
        self.install_root.push(STAGING_DIR@)
    }

    /// What the upgrade asks for.
    pub open spec fn pending(self) -> UpgradeActionView {
        match self.stage {
            StageView::ValidatingName => UpgradeActionView::ValidateName {
                name: self.marketplace.name,
                kind: NAME_KIND@,
            },
            StageView::FetchingRevision => UpgradeActionView::FetchRemoteRevision {
                source: self.marketplace.source,
                ref_name: self.marketplace.ref_name,
                timeout_secs: MARKETPLACE_UPGRADE_GIT_TIMEOUT_SECS,
            },
            StageView::CheckingInstalled { remote } => UpgradeActionView::CheckInstalled {
                manifest: self.destination().push(MARKETPLACE_MANIFEST@),
            },
            StageView::MatchingMetadata { remote } => UpgradeActionView::MatchMetadata {
                destination: self.destination(),
                marketplace: self.marketplace,
                revision: remote,
            },
            StageView::CreatingStagingParent => UpgradeActionView::CreateStagingParent {
                parent: self.staging_parent(),
            },
            StageView::CreatingStagedDir => UpgradeActionView::CreateStagedDir {
                parent: self.staging_parent(),
                prefix: UPGRADE_DIR_PREFIX@,
            },
            StageView::Cloning => UpgradeActionView::CloneSource {
                source: self.marketplace.source,
                ref_name: self.marketplace.ref_name,
                sparse_paths: self.marketplace.sparse_paths,
                timeout_secs: MARKETPLACE_UPGRADE_GIT_TIMEOUT_SECS,
            },
            StageView::ValidatingRoot { revision } => UpgradeActionView::ValidateRoot,
            StageView::WritingMetadata { revision } => UpgradeActionView::WriteMetadata {
                marketplace: self.marketplace,
                revision,
            },
            StageView::ReadingClock { revision } => UpgradeActionView::ReadClock,
            StageView::Activating { revision, last_updated } => UpgradeActionView::Activate {
                destination: self.destination(),
                marketplace: self.marketplace,
                update: update_of(self.marketplace, revision, last_updated),
            },
            StageView::Resolving => UpgradeActionView::ResolveDestination {
                destination: self.destination(),
            },
            StageView::Finished { result } => UpgradeActionView::Done,
        }
    }

    /// The stage that follows once `event` has come. An event that answers something else than
    /// what the upgrade asks for changes nothing.
    pub open spec fn next_stage(self, event: UpgradeEventView) -> StageView {
        match (self.stage, event) {
            (StageView::ValidatingName, UpgradeEventView::NameValidated(r)) => match r {
                Ok(()) => StageView::FetchingRevision,
                Err(err) => StageView::Finished { result: Err(err) },
            },
            (StageView::FetchingRevision, UpgradeEventView::RemoteRevisionFetched(r)) => match r {
                Ok(remote) => StageView::CheckingInstalled { remote },
                Err(err) => StageView::Finished { result: Err(err) },
            },
            (StageView::CheckingInstalled { remote }, UpgradeEventView::InstalledChecked(found)) =>
                if found && self.marketplace.last_revision == Some(remote) {
                StageView::MatchingMetadata { remote }
            } else {
                StageView::CreatingStagingParent
            },
            (StageView::MatchingMetadata { remote }, UpgradeEventView::MetadataMatched(same)) =>
                if same {
                StageView::Finished { result: Ok(None) }
            } else {
                StageView::CreatingStagingParent
            },
            (StageView::CreatingStagingParent, UpgradeEventView::StagingParentCreated(r)) =>
                match r {
                Ok(()) => StageView::CreatingStagedDir,
                Err(failure) => StageView::Finished {
                    result: Err(staging_parent_failed_message(failure.path, failure.err)),
                },
            },
            (StageView::CreatingStagedDir, UpgradeEventView::StagedDirCreated(r)) => match r {
                Ok(()) => StageView::Cloning,
                Err(failure) => StageView::Finished {
                    result: Err(staged_dir_failed_message(failure.path, failure.err)),
                },
            },
            (StageView::Cloning, UpgradeEventView::SourceCloned(r)) => match r {
                Ok(revision) => StageView::ValidatingRoot { revision },
                Err(err) => StageView::Finished { result: Err(err) },
            },
            (StageView::ValidatingRoot { revision }, UpgradeEventView::RootValidated(r)) =>
                match r {
                Ok(name) => if name == self.marketplace.name {
                    StageView::WritingMetadata { revision }
                } else {
                    StageView::Finished {
                        result: Err(name_mismatch_message(name, self.marketplace.name)),
                    }
                },
                Err(err) => StageView::Finished { result: Err(invalid_root_message(err)) },
            },
            (StageView::WritingMetadata { revision }, UpgradeEventView::MetadataWritten(r)) =>
                match r {
                Ok(()) => StageView::ReadingClock { revision },
                Err(err) => StageView::Finished { result: Err(err) },
            },
            (StageView::ReadingClock { revision }, UpgradeEventView::ClockRead(seconds)) =>
                StageView::Activating { revision, last_updated: rfc3339_utc(seconds) },
            (StageView::Activating { revision, last_updated }, UpgradeEventView::Activated(r)) =>
                match r {
                Ok(()) => StageView::Resolving,
                Err(err) => StageView::Finished { result: Err(err) },
            },
            (StageView::Resolving, UpgradeEventView::DestinationResolved(r)) => match r {
                Ok(path) => StageView::Finished { result: Ok(Some(path)) },
                Err(err) => StageView::Finished { result: Err(not_absolute_message(err)) },
            },
            (stage, _) => stage,
        }
    }

    /// The upgrade once `event` has come.
    pub open spec fn next(self, event: UpgradeEventView) -> UpgradeView {
        UpgradeView { stage: self.next_stage(event), ..self }
    }
}

/// An upgrade that has not begun.
pub open spec fn upgrade_start(
    install_root: Seq<Text>,
    marketplace: ConfiguredGitMarketplaceView,
) -> UpgradeView {
    UpgradeView { marketplace, install_root, stage: StageView::ValidatingName }
}

/// Begins the upgrade of `marketplace`, which is installed below `install_root`.
pub fn upgrade_configured_git_marketplace(
    install_root: &Location,
    marketplace: &ConfiguredGitMarketplace,
) -> (upgrade: MarketplaceUpgrade)
    ensures
        upgrade@ == upgrade_start(install_root@, marketplace@),
{
    MarketplaceUpgrade {
        marketplace: marketplace.clone(),
        install_root: install_root.copy(),
        stage: Stage::ValidatingName,
    }
}

impl MarketplaceUpgrade {
    /// Where the marketplace is installed.
    fn destination(&self) -> (destination: Location)
        ensures
            destination@ == self@.destination(),
    {
        self.install_root.join(&self.marketplace.name)
    }

    /// What the upgrade asks for.
    pub fn pending(&self) -> (action: UpgradeAction)
        ensures
            action@ == self@.pending(),
    {
        match &self.stage {
            Stage::ValidatingName => UpgradeAction::ValidateName {
                name: self.marketplace.name.clone(),
                kind: NAME_KIND.to_owned(),
            },
            Stage::FetchingRevision => UpgradeAction::FetchRemoteRevision {
                source: self.marketplace.source.clone(),
                ref_name: copy_option(&self.marketplace.ref_name),
                timeout_secs: MARKETPLACE_UPGRADE_GIT_TIMEOUT_SECS,
            },
            Stage::CheckingInstalled { remote: _ } => UpgradeAction::CheckInstalled {
                manifest: self.destination().join(MARKETPLACE_MANIFEST),
            },
            Stage::MatchingMetadata { remote } => UpgradeAction::MatchMetadata {
                destination: self.destination(),
                marketplace: self.marketplace.clone(),
                revision: remote.clone(),
            },
            Stage::CreatingStagingParent => UpgradeAction::CreateStagingParent {
                parent: self.install_root.join(STAGING_DIR),
            },
            Stage::CreatingStagedDir => UpgradeAction::CreateStagedDir {
                parent: self.install_root.join(STAGING_DIR),
                prefix: UPGRADE_DIR_PREFIX.to_owned(),
            },
            Stage::Cloning => UpgradeAction::CloneSource {
                source: self.marketplace.source.clone(),
                ref_name: copy_option(&self.marketplace.ref_name),
                sparse_paths: copy_texts(&self.marketplace.sparse_paths),
                timeout_secs: MARKETPLACE_UPGRADE_GIT_TIMEOUT_SECS,
            },
            Stage::ValidatingRoot { revision: _ } => UpgradeAction::ValidateRoot,
            Stage::WritingMetadata { revision } => UpgradeAction::WriteMetadata {
                marketplace: self.marketplace.clone(),
                revision: revision.clone(),
            },
            Stage::ReadingClock { revision: _ } => UpgradeAction::ReadClock,
            Stage::Activating { revision, last_updated } => UpgradeAction::Activate {
                destination: self.destination(),
                marketplace: self.marketplace.clone(),
                update: marketplace_config_update(&self.marketplace, revision, last_updated),
            },
            Stage::Resolving => UpgradeAction::ResolveDestination {
                destination: self.destination(),
            },
            Stage::Finished { result: _ } => UpgradeAction::Done,
        }
    }

    /// The stage that follows once `event` has come.
    fn next_stage(marketplace: &ConfiguredGitMarketplace, stage: Stage, event: UpgradeEvent) -> (r:
        Stage)
        requires
            event matches UpgradeEvent::ClockRead(seconds) ==> 0 <= seconds <= LAST_SECOND,
        ensures
            forall|install_root: Seq<Text>|
                r@ == (#[trigger] UpgradeView {
                    marketplace: marketplace@,
                    install_root,
                    stage: stage@,
                }.next_stage(event@)),
    {
        match (stage, event) {
            (Stage::ValidatingName, UpgradeEvent::NameValidated(r)) => match r {
                Ok(()) => Stage::FetchingRevision,
                Err(err) => Stage::Finished { result: Err(err) },
            },
            (Stage::FetchingRevision, UpgradeEvent::RemoteRevisionFetched(r)) => match r {
                Ok(remote) => Stage::CheckingInstalled { remote },
                Err(err) => Stage::Finished { result: Err(err) },
            },
            (Stage::CheckingInstalled { remote }, UpgradeEvent::InstalledChecked(found)) => {
                let current = match &marketplace.last_revision {
                    Some(last) => same_text(last, &remote),
                    None => false,
                };
                if found && current {
                    Stage::MatchingMetadata { remote }
                } else {
                    Stage::CreatingStagingParent
                }
            },
            (Stage::MatchingMetadata { .. }, UpgradeEvent::MetadataMatched(same)) => if same {
                Stage::Finished { result: Ok(None) }
            } else {
                Stage::CreatingStagingParent
            },
            (Stage::CreatingStagingParent, UpgradeEvent::StagingParentCreated(r)) => match r {
                Ok(()) => Stage::CreatingStagedDir,
                Err(failure) => Stage::Finished {
                    result: Err(staging_parent_failed(&failure.path, &failure.err)),
                },
            },
            (Stage::CreatingStagedDir, UpgradeEvent::StagedDirCreated(r)) => match r {
                Ok(()) => Stage::Cloning,
                Err(failure) => Stage::Finished {
                    result: Err(staged_dir_failed(&failure.path, &failure.err)),
                },
            },
            (Stage::Cloning, UpgradeEvent::SourceCloned(r)) => match r {
                Ok(revision) => Stage::ValidatingRoot { revision },
                Err(err) => Stage::Finished { result: Err(err) },
            },
            (Stage::ValidatingRoot { revision }, UpgradeEvent::RootValidated(r)) => match r {
                Ok(name) => if same_text(&name, &marketplace.name) {
                    Stage::WritingMetadata { revision }
                } else {
                    Stage::Finished { result: Err(name_mismatch(&name, &marketplace.name)) }
                },
                Err(err) => Stage::Finished { result: Err(invalid_root(&err)) },
            },
            (Stage::WritingMetadata { revision }, UpgradeEvent::MetadataWritten(r)) => match r {
                Ok(()) => Stage::ReadingClock { revision },
                Err(err) => Stage::Finished { result: Err(err) },
            },
            (Stage::ReadingClock { revision }, UpgradeEvent::ClockRead(seconds)) =>
                Stage::Activating { revision, last_updated: format_utc(seconds) },
            (Stage::Activating { .. }, UpgradeEvent::Activated(r)) => match r {
                Ok(()) => Stage::Resolving,
                Err(err) => Stage::Finished { result: Err(err) },
            },
            (Stage::Resolving, UpgradeEvent::DestinationResolved(r)) => match r {
                Ok(path) => Stage::Finished { result: Ok(Some(path)) },
                Err(err) => Stage::Finished { result: Err(not_absolute(&err)) },
            },
            (stage, _) => stage,
        }
    }

    /// Goes on with what came of the action that the upgrade asked for. An event that answers
    /// something else changes nothing.
    pub fn advance(self, event: UpgradeEvent) -> (next: MarketplaceUpgrade)
        requires
            event matches UpgradeEvent::ClockRead(seconds) ==> 0 <= seconds <= LAST_SECOND,
        ensures
            next@ == self@.next(event@),
    {
        let MarketplaceUpgrade { marketplace, install_root, stage } = self;
        let stage = Self::next_stage(&marketplace, stage, event);
        MarketplaceUpgrade { marketplace, install_root, stage }
    }

    /// The result of an upgrade that is done: the path of the marketplace, nothing if it was up to
    /// date, or an error.
    pub fn into_result(self) -> (result: Option<Result<Option<std::path::PathBuf>, String>>)
        ensures
            match result {
                Some(result) => self@.stage == (StageView::Finished { result: error_text(result) }),
                None => !(self@.stage is Finished),
            },
    {
        match self.stage {
            Stage::Finished { result } => Some(result),
            _ => None,
        }
    }
}

/// What an upgrade records of a marketplace: that it comes from Git, the source, ref and sparse
/// paths that are configured, the revision and the time.
pub proof fn law_update_records_what_is_configured(
    marketplace: ConfiguredGitMarketplaceView,
    revision: Text,
    last_updated: Text,
)
    ensures
        ({
            let update = update_of(marketplace, revision, last_updated);
            &&& update.source_type == "git"@
            &&& update.source == marketplace.source
            &&& update.ref_name == marketplace.ref_name
            &&& update.sparse_paths == marketplace.sparse_paths
            &&& update.last_revision == Some(revision)
            &&& update.last_updated == last_updated
        }),
{
}

/// What is read of an action of an upgrade is what it holds.
pub proof fn law_upgrade_actions_are_read_in_full(action: UpgradeAction)
    ensures
        match action {
            UpgradeAction::ValidateName { name, kind } => action@ == (
            UpgradeActionView::ValidateName { name: name@, kind: kind@ }),
            UpgradeAction::FetchRemoteRevision { source, ref_name, timeout_secs } => action@ == (
            UpgradeActionView::FetchRemoteRevision {
                source: source@,
                ref_name: option_text(ref_name),
                timeout_secs,
            }),
            UpgradeAction::CheckInstalled { manifest } => action@ == (
            UpgradeActionView::CheckInstalled { manifest: manifest@ }),
            UpgradeAction::MatchMetadata { destination, marketplace, revision } => action@ == (
            UpgradeActionView::MatchMetadata {
                destination: destination@,
                marketplace: marketplace@,
                revision: revision@,
            }),
            UpgradeAction::CreateStagingParent { parent } => action@ == (
            UpgradeActionView::CreateStagingParent { parent: parent@ }),
            UpgradeAction::CreateStagedDir { parent, prefix } => action@ == (
            UpgradeActionView::CreateStagedDir { parent: parent@, prefix: prefix@ }),
            UpgradeAction::CloneSource { source, ref_name, sparse_paths, timeout_secs } => action@
                == (UpgradeActionView::CloneSource {
                source: source@,
                ref_name: option_text(ref_name),
                sparse_paths: texts(sparse_paths@),
                timeout_secs,
            }),
            UpgradeAction::ValidateRoot => action@ == UpgradeActionView::ValidateRoot,
            UpgradeAction::WriteMetadata { marketplace, revision } => action@ == (
            UpgradeActionView::WriteMetadata { marketplace: marketplace@, revision: revision@ }),
            UpgradeAction::ReadClock => action@ == UpgradeActionView::ReadClock,
            UpgradeAction::Activate { destination, marketplace, update } => action@ == (
            UpgradeActionView::Activate {
                destination: destination@,
                marketplace: marketplace@,
                update: update@,
            }),
            UpgradeAction::ResolveDestination { destination } => action@ == (
            UpgradeActionView::ResolveDestination { destination: destination@ }),
            UpgradeAction::Done => action@ == UpgradeActionView::Done,
        },
{
}

/// What is read of an event of an upgrade is what it holds.
pub proof fn law_upgrade_events_are_read_in_full(event: UpgradeEvent)
    ensures
        match event {
            UpgradeEvent::NameValidated(r) => event@ == UpgradeEventView::NameValidated(
                error_text(r),
            ),
            UpgradeEvent::RemoteRevisionFetched(Ok(revision)) => event@
                == UpgradeEventView::RemoteRevisionFetched(Ok(revision@)),
            UpgradeEvent::RemoteRevisionFetched(Err(err)) => event@
                == UpgradeEventView::RemoteRevisionFetched(Err(err@)),
            UpgradeEvent::InstalledChecked(found) => event@ == UpgradeEventView::InstalledChecked(
                found,
            ),
            UpgradeEvent::MetadataMatched(same) => event@ == UpgradeEventView::MetadataMatched(
                same,
            ),
            UpgradeEvent::StagingParentCreated(Ok(())) => event@
                == UpgradeEventView::StagingParentCreated(Ok(())),
            UpgradeEvent::StagingParentCreated(Err(failure)) => event@
                == UpgradeEventView::StagingParentCreated(
                Err(PathFailureView { path: failure.path@, err: failure.err@ }),
            ),
            UpgradeEvent::StagedDirCreated(Ok(())) => event@ == UpgradeEventView::StagedDirCreated(
                Ok(()),
            ),
            UpgradeEvent::StagedDirCreated(Err(failure)) => event@
                == UpgradeEventView::StagedDirCreated(
                Err(PathFailureView { path: failure.path@, err: failure.err@ }),
            ),
            UpgradeEvent::SourceCloned(Ok(revision)) => event@ == UpgradeEventView::SourceCloned(
                Ok(revision@),
            ),
            UpgradeEvent::SourceCloned(Err(err)) => event@ == UpgradeEventView::SourceCloned(
                Err(err@),
            ),
            UpgradeEvent::RootValidated(Ok(name)) => event@ == UpgradeEventView::RootValidated(
                Ok(name@),
            ),
            UpgradeEvent::RootValidated(Err(err)) => event@ == UpgradeEventView::RootValidated(
                Err(err@),
            ),
            UpgradeEvent::MetadataWritten(r) => event@ == UpgradeEventView::MetadataWritten(
                error_text(r),
            ),
            UpgradeEvent::ClockRead(seconds) => event@ == UpgradeEventView::ClockRead(seconds),
            UpgradeEvent::Activated(r) => event@ == UpgradeEventView::Activated(error_text(r)),
            UpgradeEvent::DestinationResolved(r) => event@ == UpgradeEventView::DestinationResolved(
                error_text(r),
            ),
        },
{
}

} // verus!
