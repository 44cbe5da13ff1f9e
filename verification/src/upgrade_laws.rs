//! What holds of every upgrade of a marketplace, whatever the world answers.

use crate::configured::ConfiguredGitMarketplaceView;
use crate::messages::{
    invalid_root_message, name_mismatch_message, not_absolute_message, staged_dir_failed_message,
    staging_parent_failed_message,
};
use crate::text::Text;
use crate::timestamp::rfc3339_utc;
use crate::upgrade::{
    update_of, upgrade_start, PathFailureView, StageView, UpgradeActionView, UpgradeEventView,
    UpgradeView,
};
use vstd::prelude::*;

verus! {

/// What the world answers to each thing that an upgrade may ask for.
pub struct Answers {
    pub name: Result<(), Text>,
    pub remote_revision: Result<Text, Text>,
    pub installed: bool,
    pub metadata_matches: bool,
    pub staging_parent: Result<(), PathFailureView>,
    pub staged_dir: Result<(), PathFailureView>,
    pub clone: Result<Text, Text>,
    pub root_name: Result<Text, Text>,
    pub metadata: Result<(), Text>,
    pub seconds: i64,
    pub activation: Result<(), Text>,
    pub path: Result<std::path::PathBuf, Text>,
}

impl Answers {
    /// The answer to what is asked for at `stage`.
    pub open spec fn at(self, stage: StageView) -> UpgradeEventView {
        match stage {
            StageView::ValidatingName => UpgradeEventView::NameValidated(self.name),
            StageView::FetchingRevision => UpgradeEventView::RemoteRevisionFetched(
                self.remote_revision,
            ),
            StageView::CheckingInstalled { remote } => UpgradeEventView::InstalledChecked(
                self.installed,
            ),
            StageView::MatchingMetadata { remote } => UpgradeEventView::MetadataMatched(
                self.metadata_matches,
            ),
            StageView::CreatingStagingParent => UpgradeEventView::StagingParentCreated(
                self.staging_parent,
            ),
            StageView::CreatingStagedDir => UpgradeEventView::StagedDirCreated(self.staged_dir),
            StageView::Cloning => UpgradeEventView::SourceCloned(self.clone),
            StageView::ValidatingRoot { revision } => UpgradeEventView::RootValidated(
                self.root_name,
            ),
            StageView::WritingMetadata { revision } => UpgradeEventView::MetadataWritten(
                self.metadata,
            ),
            StageView::ReadingClock { revision } => UpgradeEventView::ClockRead(self.seconds),
            StageView::Activating { revision, last_updated } => UpgradeEventView::Activated(
                self.activation,
            ),
            StageView::Resolving => UpgradeEventView::DestinationResolved(self.path),
            StageView::Finished { result } => UpgradeEventView::ClockRead(self.seconds),
        }
    }

    /// The marketplace is installed, at the revision that its repository has and that the
    /// configuration records, and as configured.
    pub open spec fn up_to_date(self, marketplace: ConfiguredGitMarketplaceView) -> bool {
        &&& self.remote_revision is Ok
        &&& self.installed
        &&& marketplace.last_revision == Some(self.remote_revision->Ok_0)
        &&& self.metadata_matches
    }

    /// The result that these answers lead to: the first of them that is an error, if an upgrade
    /// is due.
    pub open spec fn result(self, marketplace: ConfiguredGitMarketplaceView) -> Result<
        Option<std::path::PathBuf>,
        Text,
    > {
        if self.name is Err {
            Err(self.name->Err_0)
        } else if self.remote_revision is Err {
            Err(self.remote_revision->Err_0)
        } else if self.up_to_date(marketplace) {
            Ok(None)
        } else if self.staging_parent is Err {
            let failure = self.staging_parent->Err_0;
            Err(staging_parent_failed_message(failure.path, failure.err))
        } else if self.staged_dir is Err {
            let failure = self.staged_dir->Err_0;
            Err(staged_dir_failed_message(failure.path, failure.err))
        } else if self.clone is Err {
            Err(self.clone->Err_0)
        } else if self.root_name is Err {
            Err(invalid_root_message(self.root_name->Err_0))
        } else if self.root_name->Ok_0 != marketplace.name {
            Err(name_mismatch_message(self.root_name->Ok_0, marketplace.name))
        } else if self.metadata is Err {
            Err(self.metadata->Err_0)
        } else if self.activation is Err {
            Err(self.activation->Err_0)
        } else if self.path is Err {
            Err(not_absolute_message(self.path->Err_0))
        } else {
            Ok(Some(self.path->Ok_0))
        }
    }

    /// The answers allow what has been prepared for `marketplace` to take its place.
    pub open spec fn allow_activation(self, marketplace: ConfiguredGitMarketplaceView) -> bool {
        &&& self.name is Ok
        &&& self.remote_revision is Ok
        &&& !self.up_to_date(marketplace)
        &&& self.staging_parent is Ok
        &&& self.staged_dir is Ok
        &&& self.clone is Ok
        &&& self.root_name == Ok::<Text, Text>(marketplace.name)
        &&& self.metadata is Ok
    }
}

/// An upgrade after that many answers.
pub open spec fn after(upgrade: UpgradeView, answers: Answers, steps: nat) -> UpgradeView
    decreases steps,
{
    if steps == 0 {
        upgrade
    } else {
        let before = after(upgrade, answers, (steps - 1) as nat);
        before.next(answers.at(before.stage))
    }
}

/// The most answers that an upgrade at `stage` still needs.
pub open spec fn answers_needed(stage: StageView) -> nat {
    match stage {
        StageView::ValidatingName => 12,
        StageView::FetchingRevision => 11,
        StageView::CheckingInstalled { remote } => 10,
        StageView::MatchingMetadata { remote } => 9,
        StageView::CreatingStagingParent => 8,
        StageView::CreatingStagedDir => 7,
        StageView::Cloning => 6,
        StageView::ValidatingRoot { revision } => 5,
        StageView::WritingMetadata { revision } => 4,
        StageView::ReadingClock { revision } => 3,
        StageView::Activating { revision, last_updated } => 2,
        StageView::Resolving => 1,
        StageView::Finished { result } => 0,
    }
}

/// `event` is an answer to `action`.
pub open spec fn answers_action(action: UpgradeActionView, event: UpgradeEventView) -> bool {
    match action {
        UpgradeActionView::ValidateName { .. } => event is NameValidated,
        UpgradeActionView::FetchRemoteRevision { .. } => event is RemoteRevisionFetched,
        UpgradeActionView::CheckInstalled { .. } => event is InstalledChecked,
        UpgradeActionView::MatchMetadata { .. } => event is MetadataMatched,
        UpgradeActionView::CreateStagingParent { .. } => event is StagingParentCreated,
        UpgradeActionView::CreateStagedDir { .. } => event is StagedDirCreated,
        UpgradeActionView::CloneSource { .. } => event is SourceCloned,
        UpgradeActionView::ValidateRoot => event is RootValidated,
        UpgradeActionView::WriteMetadata { .. } => event is MetadataWritten,
        UpgradeActionView::ReadClock => event is ClockRead,
        UpgradeActionView::Activate { .. } => event is Activated,
        UpgradeActionView::ResolveDestination { .. } => event is DestinationResolved,
        UpgradeActionView::Done => false,
    }
}

/// To do what `action` says changes something on disk.
pub open spec fn changes_disk(action: UpgradeActionView) -> bool {
    ||| action is CreateStagingParent
    ||| action is CreateStagedDir
    ||| action is CloneSource
    ||| action is WriteMetadata
    ||| action is Activate
}

/// Every answer brings an upgrade closer to its end, and everything else leaves it as it is.
pub proof fn law_answers_move_on(upgrade: UpgradeView, event: UpgradeEventView)
    ensures
        answers_action(upgrade.pending(), event) ==> answers_needed(upgrade.next(event).stage)
            < answers_needed(upgrade.stage),
        !answers_action(upgrade.pending(), event) ==> upgrade.next(event) == upgrade,
        upgrade.pending() is Done <==> upgrade.stage is Finished,
{
}

/// What an upgrade has been answered when it stands at a stage.
spec fn consistent(
    upgrade: UpgradeView,
    install_root: Seq<Text>,
    marketplace: ConfiguredGitMarketplaceView,
    answers: Answers,
) -> bool {
    let due = answers.name is Ok && answers.remote_revision is Ok && !answers.up_to_date(
        marketplace,
    );
    &&& upgrade.marketplace == marketplace
    &&& upgrade.install_root == install_root
    &&& match upgrade.stage {
        StageView::ValidatingName => true,
        StageView::FetchingRevision => answers.name is Ok,
        StageView::CheckingInstalled { remote } => answers.name is Ok && answers.remote_revision
            == Ok::<Text, Text>(remote),
        StageView::MatchingMetadata { remote } => answers.name is Ok && answers.remote_revision
            == Ok::<Text, Text>(remote) && answers.installed && marketplace.last_revision == Some(
            remote,
        ),
        StageView::CreatingStagingParent => due,
        StageView::CreatingStagedDir => due && answers.staging_parent is Ok,
        StageView::Cloning => due && answers.staging_parent is Ok && answers.staged_dir is Ok,
        StageView::ValidatingRoot { revision } => due && answers.staging_parent is Ok
            && answers.staged_dir is Ok && answers.clone == Ok::<Text, Text>(revision),
        StageView::WritingMetadata { revision } => due && answers.staging_parent is Ok
            && answers.staged_dir is Ok && answers.clone == Ok::<Text, Text>(revision)
            && answers.root_name == Ok::<Text, Text>(marketplace.name),
        StageView::ReadingClock { revision } => answers.allow_activation(marketplace)
            && answers.clone == Ok::<Text, Text>(revision),
        StageView::Activating { revision, last_updated } => answers.allow_activation(marketplace)
            && answers.clone == Ok::<Text, Text>(revision) && last_updated == rfc3339_utc(
            answers.seconds,
        ),
        StageView::Resolving => answers.allow_activation(marketplace) && answers.activation is Ok,
        StageView::Finished { result } => result == answers.result(marketplace),
    }
}

proof fn lemma_consistent(
    install_root: Seq<Text>,
    marketplace: ConfiguredGitMarketplaceView,
    answers: Answers,
    steps: nat,
)
    ensures
        consistent(
            after(upgrade_start(install_root, marketplace), answers, steps),
            install_root,
            marketplace,
            answers,
        ),
        steps >= 12 ==> after(
            upgrade_start(install_root, marketplace),
            answers,
            steps,
        ).stage is Finished,
        answers_needed(after(upgrade_start(install_root, marketplace), answers, steps).stage)
            <= if steps <= 12 {
            (12 - steps) as nat
        } else {
            0
        },
    decreases steps,
{
    if steps > 0 {
        lemma_consistent(install_root, marketplace, answers, (steps - 1) as nat);
    }
}

/// An upgrade that is answered twelve times is done, and its result is the one that the answers
/// lead to; fewer answers do where one of them decides.
pub proof fn law_answers_lead_to_the_result(
    install_root: Seq<Text>,
    marketplace: ConfiguredGitMarketplaceView,
    answers: Answers,
    steps: nat,
)
    ensures
        ({
            let upgrade = after(upgrade_start(install_root, marketplace), answers, steps);
            &&& steps >= 12 ==> upgrade.stage is Finished
            &&& upgrade.stage matches StageView::Finished { result } ==> result == answers.result(
                marketplace,
            )
        }),
{
    lemma_consistent(install_root, marketplace, answers, steps);
}

/// A marketplace that is up to date is left alone: its upgrade never asks for anything that changes
/// the disk, and reports no path.
pub proof fn law_up_to_date_is_left_alone(
    install_root: Seq<Text>,
    marketplace: ConfiguredGitMarketplaceView,
    answers: Answers,
    steps: nat,
)
    requires
        answers.up_to_date(marketplace),
    ensures
        !changes_disk(after(upgrade_start(install_root, marketplace), answers, steps).pending()),
        answers.name is Ok ==> answers.result(marketplace) == Ok::<
            Option<std::path::PathBuf>,
            Text,
        >(None),
{
    lemma_consistent(install_root, marketplace, answers, steps);
}

/// Nothing on disk is touched for a marketplace whose name is refused or whose repository cannot
/// be asked.
pub proof fn law_refused_marketplace_is_left_alone(
    install_root: Seq<Text>,
    marketplace: ConfiguredGitMarketplaceView,
    answers: Answers,
    steps: nat,
)
    requires
        answers.name is Err || answers.remote_revision is Err,
    ensures
        !changes_disk(after(upgrade_start(install_root, marketplace), answers, steps).pending()),
        answers.result(marketplace) is Err,
{
    lemma_consistent(install_root, marketplace, answers, steps);
}

/// What is installed is replaced only by a clone that was validated, calls itself as configured
/// and carries its metadata; it then goes where the marketplace belongs, and what is recorded of
/// that marketplace is the revision that was cloned, the time that was read and the configured
/// source.
pub proof fn law_only_a_checked_clone_is_activated(
    install_root: Seq<Text>,
    marketplace: ConfiguredGitMarketplaceView,
    answers: Answers,
    steps: nat,
)
    ensures
        after(upgrade_start(install_root, marketplace), answers, steps).pending() matches
            UpgradeActionView::Activate { destination, marketplace: activated, update } ==> {
            &&& answers.allow_activation(marketplace)
            &&& destination == install_root.push(marketplace.name)
            &&& activated == marketplace
            &&& update == update_of(
                marketplace,
                answers.clone->Ok_0,
                rfc3339_utc(answers.seconds),
            )
        },
{
    lemma_consistent(install_root, marketplace, answers, steps);
}

/// Metadata speaks of the marketplace as it is configured. What is installed is held against the
/// revision that the repository has, and what was cloned is noted with the revision that was
/// cloned, once it was validated and calls itself as configured.
pub proof fn law_metadata_speaks_of_the_configured_marketplace(
    install_root: Seq<Text>,
    marketplace: ConfiguredGitMarketplaceView,
    answers: Answers,
    steps: nat,
)
    ensures
        ({
            let action = after(upgrade_start(install_root, marketplace), answers, steps).pending();
            &&& action is MatchMetadata ==> answers.remote_revision is Ok && action == (
            UpgradeActionView::MatchMetadata {
                destination: install_root.push(marketplace.name),
                marketplace,
                revision: answers.remote_revision->Ok_0,
            })
            &&& action is WriteMetadata ==> answers.clone is Ok && answers.root_name == Ok::<
                Text,
                Text,
            >(marketplace.name) && action == (UpgradeActionView::WriteMetadata {
                marketplace,
                revision: answers.clone->Ok_0,
            })
        }),
{
    lemma_consistent(install_root, marketplace, answers, steps);
}

/// An upgrade ends without an error and without a path exactly when the marketplace is up to date.
pub proof fn law_nothing_to_do_means_up_to_date(
    marketplace: ConfiguredGitMarketplaceView,
    answers: Answers,
)
    ensures
        answers.result(marketplace) == Ok::<Option<std::path::PathBuf>, Text>(None)
            <==> answers.name is Ok && answers.up_to_date(marketplace),
{
}

/// Once the configuration says what an upgrade recorded, the marketplace is up to date for as long
/// as its repository keeps the revision that was cloned and what was installed stays in place.
pub proof fn law_recorded_upgrade_is_up_to_date(
    marketplace: ConfiguredGitMarketplaceView,
    revision: Text,
    last_updated: Text,
    answers: Answers,
)
    requires
        answers.name is Ok,
        answers.remote_revision == Ok::<Text, Text>(revision),
        answers.installed,
        answers.metadata_matches,
    ensures
        ({
            let update = update_of(marketplace, revision, last_updated);
            let recorded = ConfiguredGitMarketplaceView {
                name: marketplace.name,
                source: update.source,
                ref_name: update.ref_name,
                sparse_paths: update.sparse_paths,
                last_revision: update.last_revision,
            };
            &&& answers.result(recorded) == Ok::<Option<std::path::PathBuf>, Text>(None)
            &&& recorded == ConfiguredGitMarketplaceView {
                last_revision: Some(revision),
                ..marketplace
            }
        }),
{
}

/// A path is reported exactly when a checked clone was activated and its path found.
pub proof fn law_reported_path_was_activated(
    marketplace: ConfiguredGitMarketplaceView,
    answers: Answers,
    path: std::path::PathBuf,
)
    ensures
        answers.result(marketplace) == Ok::<Option<std::path::PathBuf>, Text>(Some(path)) <==> {
            &&& answers.allow_activation(marketplace)
            &&& answers.activation is Ok
            &&& answers.path == Ok::<std::path::PathBuf, Text>(path)
        },
{
}

/// Whatever an upgrade asks for, it asks as configured: the repository and the clone are those of
/// the configured source at the configured ref, the clone holds the configured sparse paths, and
/// everything on disk lies where the name of the marketplace says.
pub proof fn law_requests_are_made_as_configured(
    install_root: Seq<Text>,
    marketplace: ConfiguredGitMarketplaceView,
    answers: Answers,
    steps: nat,
)
    ensures
        match after(upgrade_start(install_root, marketplace), answers, steps).pending() {
            UpgradeActionView::ValidateName { name, kind } => {
                &&& name == marketplace.name
                &&& kind == "marketplace name"@
            },
            UpgradeActionView::FetchRemoteRevision { source, ref_name, timeout_secs } => {
                &&& source == marketplace.source
                &&& ref_name == marketplace.ref_name
                &&& timeout_secs == 30
            },
            UpgradeActionView::CheckInstalled { manifest } => manifest == install_root.push(
                marketplace.name,
            ).push(".agents/plugins/marketplace.json"@),
            UpgradeActionView::MatchMetadata { destination, marketplace: matched, revision } => {
                &&& destination == install_root.push(marketplace.name)
                &&& matched == marketplace
                &&& answers.remote_revision == Ok::<Text, Text>(revision)
            },
            UpgradeActionView::CreateStagingParent { parent } => parent == install_root.push(
                ".staging"@,
            ),
            UpgradeActionView::CreateStagedDir { parent, prefix } => {
                &&& parent == install_root.push(".staging"@)
                &&& prefix == "marketplace-upgrade-"@
            },
            UpgradeActionView::CloneSource { source, ref_name, sparse_paths, timeout_secs } => {
                &&& source == marketplace.source
                &&& ref_name == marketplace.ref_name
                &&& sparse_paths == marketplace.sparse_paths
                &&& timeout_secs == 30
            },
            UpgradeActionView::WriteMetadata { marketplace: written, revision } => {
                &&& written == marketplace
                &&& answers.clone == Ok::<Text, Text>(revision)
            },
            UpgradeActionView::Activate { destination, marketplace: activated, update } => {
                &&& destination == install_root.push(marketplace.name)
                &&& activated == marketplace
                &&& update.source_type == "git"@
                &&& update.source == marketplace.source
                &&& update.ref_name == marketplace.ref_name
                &&& update.sparse_paths == marketplace.sparse_paths
                &&& update.last_revision is Some
                &&& answers.clone == Ok::<Text, Text>(update.last_revision->0)
                &&& update.last_updated == rfc3339_utc(answers.seconds)
            },
            UpgradeActionView::ResolveDestination { destination } => destination
                == install_root.push(marketplace.name),
            _ => true,
        },
{
    lemma_consistent(install_root, marketplace, answers, steps);
}

/// An upgrade asks for one thing only once all that it rests on was granted: nothing before the
/// name was accepted, nothing that touches the disk unless the marketplace is due, no clone without
/// a place for it, and no activation but of a clone that was validated, has the right name and
/// carries its metadata.
pub proof fn law_requests_rest_on_what_was_granted(
    install_root: Seq<Text>,
    marketplace: ConfiguredGitMarketplaceView,
    answers: Answers,
    steps: nat,
)
    ensures
        ({
            let action = after(upgrade_start(install_root, marketplace), answers, steps).pending();
            let known = answers.name is Ok && answers.remote_revision is Ok;
            let recorded = answers.remote_revision is Ok && marketplace.last_revision == Some(
                answers.remote_revision->Ok_0,
            );
            let due = known && !(answers.installed && recorded && answers.metadata_matches);
            let prepared = due && answers.staging_parent is Ok && answers.staged_dir is Ok;
            let checked = prepared && answers.clone is Ok && answers.root_name == Ok::<Text, Text>(
                marketplace.name,
            );
            &&& action is FetchRemoteRevision ==> answers.name is Ok
            &&& action is CheckInstalled ==> known
            &&& action is MatchMetadata ==> known && answers.installed && recorded
            &&& action is CreateStagingParent ==> due
            &&& action is CreateStagedDir ==> due && answers.staging_parent is Ok
            &&& action is CloneSource ==> prepared
            &&& action is ValidateRoot ==> prepared && answers.clone is Ok
            &&& action is WriteMetadata ==> checked
            &&& action is ReadClock ==> checked && answers.metadata is Ok
            &&& action is Activate ==> checked && answers.metadata is Ok
            &&& action is ResolveDestination ==> checked && answers.metadata is Ok
                && answers.activation is Ok
        }),
{
    lemma_consistent(install_root, marketplace, answers, steps);
}

/// An upgrade that is done reports nothing exactly when the marketplace was up to date, and a path
/// exactly when everything was granted. Otherwise it reports the first thing that was not: as it
/// was told where it was told in full, else with what was being done.
pub proof fn law_upgrade_ends_as_it_was_answered(
    install_root: Seq<Text>,
    marketplace: ConfiguredGitMarketplaceView,
    answers: Answers,
    steps: nat,
    path: std::path::PathBuf,
)
    ensures
        ({
            let stage = after(upgrade_start(install_root, marketplace), answers, steps).stage;
            let known = answers.name is Ok && answers.remote_revision is Ok;
            let up_to_date = known && answers.installed && marketplace.last_revision == Some(
                answers.remote_revision->Ok_0,
            ) && answers.metadata_matches;
            let due = known && !up_to_date;
            let cloned = due && answers.staging_parent is Ok && answers.staged_dir is Ok
                && answers.clone is Ok;
            let checked = cloned && answers.root_name == Ok::<Text, Text>(marketplace.name);
            let activated = checked && answers.metadata is Ok && answers.activation is Ok;
            &&& steps >= 12 ==> stage is Finished
            &&& stage matches StageView::Finished { result } ==> {
                &&& result == Ok::<Option<std::path::PathBuf>, Text>(None) <==> up_to_date
                &&& result == Ok::<Option<std::path::PathBuf>, Text>(Some(path)) <==> activated
                    && answers.path == Ok::<std::path::PathBuf, Text>(path)
                &&& answers.name matches Err(err) ==> result == Err::<
                    Option<std::path::PathBuf>,
                    Text,
                >(err)
                &&& answers.name is Ok ==> (answers.remote_revision matches Err(err) ==> result
                    == Err::<Option<std::path::PathBuf>, Text>(err))
                &&& due ==> (answers.staging_parent matches Err(failure) ==> result == Err::<
                    Option<std::path::PathBuf>,
                    Text,
                >(
                    "failed to create marketplace upgrade staging directory "@ + failure.path
                        + ": "@ + failure.err,
                ))
                &&& due && answers.staging_parent is Ok ==> (answers.staged_dir matches Err(
                    failure,
                ) ==> result == Err::<Option<std::path::PathBuf>, Text>(
                    "failed to create temporary marketplace upgrade directory in "@ + failure.path
                        + ": "@ + failure.err,
                ))
                &&& due && answers.staging_parent is Ok && answers.staged_dir is Ok ==> (
                answers.clone matches Err(err) ==> result == Err::<
                    Option<std::path::PathBuf>,
                    Text,
                >(err))
                &&& cloned ==> (answers.root_name matches Err(err) ==> result == Err::<
                    Option<std::path::PathBuf>,
                    Text,
                >("failed to validate upgraded marketplace root: "@ + err))
                &&& cloned ==> (answers.root_name matches Ok(found) ==> found != marketplace.name
                    ==> result == Err::<Option<std::path::PathBuf>, Text>(
                    "upgraded marketplace name `"@ + found
                        + "` does not match configured marketplace `"@ + marketplace.name + "`"@,
                ))
                &&& checked ==> (answers.metadata matches Err(err) ==> result == Err::<
                    Option<std::path::PathBuf>,
                    Text,
                >(err))
                &&& checked && answers.metadata is Ok ==> (answers.activation matches Err(err)
                    ==> result == Err::<Option<std::path::PathBuf>, Text>(err))
                &&& activated ==> (answers.path matches Err(err) ==> result == Err::<
                    Option<std::path::PathBuf>,
                    Text,
                >("upgraded marketplace path is not absolute: "@ + err))
            }
        }),
{
    lemma_consistent(install_root, marketplace, answers, steps);
}

/// Each answer is the one to what was asked for.
pub proof fn law_answers_are_those_to_what_was_asked(upgrade: UpgradeView, answers: Answers)
    ensures
        ({
            let answer = answers.at(upgrade.stage);
            match upgrade.pending() {
                UpgradeActionView::ValidateName { .. } => answer == UpgradeEventView::NameValidated(
                    answers.name,
                ),
                UpgradeActionView::FetchRemoteRevision { .. } => answer
                    == UpgradeEventView::RemoteRevisionFetched(answers.remote_revision),
                UpgradeActionView::CheckInstalled { .. } => answer
                    == UpgradeEventView::InstalledChecked(answers.installed),
                UpgradeActionView::MatchMetadata { .. } => answer
                    == UpgradeEventView::MetadataMatched(answers.metadata_matches),
                UpgradeActionView::CreateStagingParent { .. } => answer
                    == UpgradeEventView::StagingParentCreated(answers.staging_parent),
                UpgradeActionView::CreateStagedDir { .. } => answer
                    == UpgradeEventView::StagedDirCreated(answers.staged_dir),
                UpgradeActionView::CloneSource { .. } => answer == UpgradeEventView::SourceCloned(
                    answers.clone,
                ),
                UpgradeActionView::ValidateRoot => answer == UpgradeEventView::RootValidated(
                    answers.root_name,
                ),
                UpgradeActionView::WriteMetadata { .. } => answer
                    == UpgradeEventView::MetadataWritten(answers.metadata),
                UpgradeActionView::ReadClock => answer == UpgradeEventView::ClockRead(
                    answers.seconds,
                ),
                UpgradeActionView::Activate { .. } => answer == UpgradeEventView::Activated(
                    answers.activation,
                ),
                UpgradeActionView::ResolveDestination { .. } => answer
                    == UpgradeEventView::DestinationResolved(answers.path),
                UpgradeActionView::Done => upgrade.next(answer) == upgrade,
            }
        }),
{
}

/// An upgrade begins with its name, and goes on by one answer at a time.
pub proof fn law_upgrade_goes_on_answer_by_answer(
    install_root: Seq<Text>,
    marketplace: ConfiguredGitMarketplaceView,
    answers: Answers,
    steps: nat,
)
    ensures
        ({
            let start = upgrade_start(install_root, marketplace);
            let now = after(start, answers, steps);
            &&& start.pending() is ValidateName
            &&& start.install_root == install_root
            &&& start.marketplace == marketplace
            &&& after(start, answers, 0) == start
            &&& after(start, answers, steps + 1) == now.next(answers.at(now.stage))
        }),
{
}

/// What was not asked for does not count, and nothing changes which marketplace is upgraded or
/// where it is installed.
pub proof fn law_only_what_was_asked_for_counts(upgrade: UpgradeView, event: UpgradeEventView)
    ensures
        ({
            let action = upgrade.pending();
            let asked = match event {
                UpgradeEventView::NameValidated(_) => action is ValidateName,
                UpgradeEventView::RemoteRevisionFetched(_) => action is FetchRemoteRevision,
                UpgradeEventView::InstalledChecked(_) => action is CheckInstalled,
                UpgradeEventView::MetadataMatched(_) => action is MatchMetadata,
                UpgradeEventView::StagingParentCreated(_) => action is CreateStagingParent,
                UpgradeEventView::StagedDirCreated(_) => action is CreateStagedDir,
                UpgradeEventView::SourceCloned(_) => action is CloneSource,
                UpgradeEventView::RootValidated(_) => action is ValidateRoot,
                UpgradeEventView::MetadataWritten(_) => action is WriteMetadata,
                UpgradeEventView::ClockRead(_) => action is ReadClock,
                UpgradeEventView::Activated(_) => action is Activate,
                UpgradeEventView::DestinationResolved(_) => action is ResolveDestination,
            };
            &&& !asked ==> upgrade.next(event) == upgrade
            &&& asked ==> upgrade.next(event).stage != upgrade.stage
            &&& upgrade.next(event).marketplace == upgrade.marketplace
            &&& upgrade.next(event).install_root == upgrade.install_root
            &&& action is Done <==> upgrade.stage is Finished
        }),
{
}

} // verus!
