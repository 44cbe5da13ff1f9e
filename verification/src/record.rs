//! Recording an upgrade in the user's configuration, step by step.
//!
//! A record first has the configuration read again. It goes on only if that still says of the
//! marketplace what it said when the upgrade began.

use crate::config::{MarketplaceConfigUpdate, MarketplaceConfigUpdateView};
use crate::configured::{ConfiguredGitMarketplace, ConfiguredGitMarketplaceView};
use crate::messages::{record_failed, record_failed_message};
use crate::text::{error_text, Text};
use crate::user_config::{current_view, ensure_configured_git_marketplace_unchanged, unchanged};
use vstd::prelude::*;
use vstd::string::*;

verus! {

/// What a record asks for.
pub enum RecordAction {
    /// Read what the configuration says of the marketplace called `name`.
    ReadCurrent { name: String },
    /// Write `update` to the configuration of the marketplace called `name`.
    Write { name: String, update: MarketplaceConfigUpdate },
    /// Nothing more.
    Done,
}

/// The texts of a [`RecordAction`].
pub enum RecordActionView {
    ReadCurrent { name: Text },
    Write { name: Text, update: MarketplaceConfigUpdateView },
    Done,
}

impl View for RecordAction {
    type V = RecordActionView;

    open spec fn view(&self) -> RecordActionView {
        match *self {
            RecordAction::ReadCurrent { name } => RecordActionView::ReadCurrent { name: name@ },
            RecordAction::Write { name, update } => RecordActionView::Write {
                name: name@,
                update: update@,
            },
            RecordAction::Done => RecordActionView::Done,
        }
    }
}

/// What came of a [`RecordAction`].
pub enum RecordEvent {
    CurrentRead(Result<Option<ConfiguredGitMarketplace>, String>),
    Written(Result<(), String>),
}

/// The texts of a [`RecordEvent`].
pub enum RecordEventView {
    CurrentRead(Result<Option<ConfiguredGitMarketplaceView>, Text>),
    Written(Result<(), Text>),
}

impl View for RecordEvent {
    type V = RecordEventView;

    open spec fn view(&self) -> RecordEventView {
        match *self {
            RecordEvent::CurrentRead(current) => RecordEventView::CurrentRead(
                current_view(current),
            ),
            RecordEvent::Written(r) => RecordEventView::Written(error_text(r)),
        }
    }
}

/// How far a record has come.
enum RecordStage {
    Reading,
    Writing,
    Finished { result: Result<(), String> },
}

/// How far a record has come, as texts.
pub enum RecordStageView {
    Reading,
    Writing,
    Finished { result: Result<(), Text> },
}

impl View for RecordStage {
    type V = RecordStageView;

    closed spec fn view(&self) -> RecordStageView {
        match *self {
            RecordStage::Reading => RecordStageView::Reading,
            RecordStage::Writing => RecordStageView::Writing,
            RecordStage::Finished { result } => RecordStageView::Finished {
                result: error_text(result),
            },
        }
    }
}

/// The record of the upgrade of one marketplace, at some stage.
pub struct UpgradeRecord {
    marketplace: ConfiguredGitMarketplace,
    update: MarketplaceConfigUpdate,
    stage: RecordStage,
}

/// The texts of an [`UpgradeRecord`].
pub struct RecordView {
    pub marketplace: ConfiguredGitMarketplaceView,
    pub update: MarketplaceConfigUpdateView,
    pub stage: RecordStageView,
}

impl View for UpgradeRecord {
    type V = RecordView;

    closed spec fn view(&self) -> RecordView {
        RecordView {
            marketplace: self.marketplace@,
            update: self.update@,
            stage: self.stage@,
        }
    }
}

/// What writing the upgrade of the marketplace called `name` to the configuration comes to.
pub open spec fn written_result(name: Text, written: Result<(), Text>) -> Result<(), Text> {
    match written {
        Ok(()) => Ok(()),
        Err(err) => Err(record_failed_message(name, err)),
    }
}

impl RecordView {
    /// What the record asks for.
    pub open spec fn pending(self) -> RecordActionView {
        match self.stage {
            RecordStageView::Reading => RecordActionView::ReadCurrent {
                name: self.marketplace.name,
            },
            RecordStageView::Writing => RecordActionView::Write {
                name: self.marketplace.name,
                update: self.update,
            },
            RecordStageView::Finished { result } => RecordActionView::Done,
        }
    }

    /// The stage that follows once `event` has come. An event that answers something else than
    /// what the record asks for changes nothing.
    pub open spec fn next_stage(self, event: RecordEventView) -> RecordStageView {
        match (self.stage, event) {
            (RecordStageView::Reading, RecordEventView::CurrentRead(current)) =>
                match unchanged(current, self.marketplace) {
                Ok(()) => RecordStageView::Writing,
                Err(err) => RecordStageView::Finished { result: Err(err) },
            },
            (RecordStageView::Writing, RecordEventView::Written(r)) => RecordStageView::Finished {
                result: written_result(self.marketplace.name, r),
            },
            (stage, _) => stage,
        }
    }

    /// The record once `event` has come.
    pub open spec fn next(self, event: RecordEventView) -> RecordView {
        RecordView { stage: self.next_stage(event), ..self }
    }
}

/// A record that has not begun.
pub open spec fn record_start(
    marketplace: ConfiguredGitMarketplaceView,
    update: MarketplaceConfigUpdateView,
) -> RecordView {
    RecordView { marketplace, update, stage: RecordStageView::Reading }
}

impl UpgradeRecord {
    /// Begins to record `update` of `marketplace`, as it was configured when the upgrade began.
    pub fn begin(marketplace: &ConfiguredGitMarketplace, update: &MarketplaceConfigUpdate) -> (
    record: UpgradeRecord)
        ensures
            record@ == record_start(marketplace@, update@),
    {
        UpgradeRecord {
            marketplace: marketplace.clone(),
            update: update.clone(),
            stage: RecordStage::Reading,
        }
    }

    /// What the record asks for.
    pub fn pending(&self) -> (action: RecordAction)
        ensures
            action@ == self@.pending(),
    {
        match &self.stage {
            RecordStage::Reading => RecordAction::ReadCurrent {
                name: self.marketplace.name.clone(),
            },
            RecordStage::Writing => RecordAction::Write {
                name: self.marketplace.name.clone(),
                update: self.update.clone(),
            },
            RecordStage::Finished { .. } => RecordAction::Done,
        }
    }

    /// Goes on with what came of the action that the record asked for. An event that answers
    /// something else changes nothing.
    pub fn advance(self, event: RecordEvent) -> (next: UpgradeRecord)
        ensures
            next@ == self@.next(event@),
    {
        let UpgradeRecord { marketplace, update, stage } = self;
        let stage = match (stage, event) {
            (RecordStage::Reading, RecordEvent::CurrentRead(current)) => {
                match ensure_configured_git_marketplace_unchanged(current, &marketplace) {
                    Ok(()) => RecordStage::Writing,
                    Err(err) => RecordStage::Finished { result: Err(err) },
                }
            },
            (RecordStage::Writing, RecordEvent::Written(r)) => match r {
                Ok(()) => RecordStage::Finished { result: Ok(()) },
                Err(err) => RecordStage::Finished {
                    result: Err(record_failed(&marketplace.name, &err)),
                },
            },
            (stage, _) => stage,
        };
        UpgradeRecord { marketplace, update, stage }
    }

    /// The result of a record that is done.
    pub fn into_result(self) -> (result: Option<Result<(), String>>)
        ensures
            match result {
                Some(result) => self@.stage == (RecordStageView::Finished {
                    result: error_text(result),
                }),
                None => !(self@.stage is Finished),
            },
    {
        match self.stage {
            RecordStage::Finished { result } => Some(result),
            _ => None,
        }
    }
}

/// An upgrade is written to the configuration only if the configuration says of the marketplace
/// exactly what it said when the upgrade began, and then what is written is what was to be recorded
/// of that marketplace. Otherwise the record is done with an error.
pub proof fn law_only_unchanged_marketplaces_are_recorded(
    marketplace: ConfiguredGitMarketplaceView,
    update: MarketplaceConfigUpdateView,
    current: Result<Option<ConfiguredGitMarketplaceView>, Text>,
)
    ensures
        ({
            let start = record_start(marketplace, update);
            let record = start.next(RecordEventView::CurrentRead(current));
            &&& start.pending() == (RecordActionView::ReadCurrent {
                name: marketplace.name,
            })
            &&& record.pending() is Write <==> current == Ok::<
                Option<ConfiguredGitMarketplaceView>,
                Text,
            >(Some(marketplace))
            &&& record.pending() is Write ==> record.pending() == (RecordActionView::Write {
                name: marketplace.name,
                update,
            })
            &&& !(record.pending() is Write) ==> (record.stage matches RecordStageView::Finished {
                result,
            } && result is Err)
        }),
{
}

/// A record succeeds exactly when the configuration was unchanged and could be written.
pub proof fn law_record_succeeds_when_unchanged_and_written(
    marketplace: ConfiguredGitMarketplaceView,
    update: MarketplaceConfigUpdateView,
    current: Result<Option<ConfiguredGitMarketplaceView>, Text>,
    written: Result<(), Text>,
)
    ensures
        record_start(marketplace, update).next(RecordEventView::CurrentRead(current)).next(
            RecordEventView::Written(written),
        ).stage == (RecordStageView::Finished { result: Ok(()) }) <==> current == Ok::<
            Option<ConfiguredGitMarketplaceView>,
            Text,
        >(Some(marketplace)) && written is Ok,
{
}

/// An event that a record did not ask for leaves it as it is.
pub proof fn law_unasked_events_leave_a_record_alone(record: RecordView, event: RecordEventView)
    ensures
        !(record.pending() is ReadCurrent && event is CurrentRead) && !(record.pending() is Write
            && event is Written) ==> record.next(event) == record,
{
}

/// A record that does not succeed says why: what was wrong with reading the configuration, that the
/// marketplace is gone from it or has changed, or what was wrong with writing it.
pub proof fn law_failed_record_says_why(
    marketplace: ConfiguredGitMarketplaceView,
    update: MarketplaceConfigUpdateView,
    current: Result<Option<ConfiguredGitMarketplaceView>, Text>,
    written: Result<(), Text>,
)
    ensures
        ({
            let start = record_start(marketplace, update);
            let read = start.next(RecordEventView::CurrentRead(current));
            let done = read.next(RecordEventView::Written(written));
            &&& current matches Err(err) ==> read.stage == (RecordStageView::Finished {
                result: Err(err),
            })
            &&& current matches Ok(None) ==> read.stage == (RecordStageView::Finished {
                result: Err(
                    "configured marketplace `"@ + marketplace.name
                        + "` was removed or is no longer a Git marketplace"@,
                ),
            })
            &&& current matches Ok(Some(now)) ==> now != marketplace ==> read.stage == (
            RecordStageView::Finished {
                result: Err(
                    "configured marketplace `"@ + marketplace.name
                        + "` changed while auto-upgrade was in flight"@,
                ),
            })
            &&& current == Ok::<Option<ConfiguredGitMarketplaceView>, Text>(Some(marketplace)) ==> (
            written matches Err(err) ==> done.stage == (RecordStageView::Finished {
                result: Err(
                    "failed to record upgraded marketplace `"@ + marketplace.name
                        + "` in user config.toml: "@ + err,
                ),
            }))
        }),
{
}

/// A record holds on to what it records and of which marketplace, whatever comes, and asks for
/// nothing exactly when it is done.
pub proof fn law_record_stays_what_it_is(record: RecordView, event: RecordEventView)
    ensures
        record.next(event).marketplace == record.marketplace,
        record.next(event).update == record.update,
        record.pending() is Done <==> record.stage is Finished,
        record.stage is Finished ==> record.next(event) == record,
{
}

/// What is read of an action or an event of a record is what it holds.
pub proof fn law_record_steps_are_read_in_full(action: RecordAction, event: RecordEvent)
    ensures
        match action {
            RecordAction::ReadCurrent { name } => action@ is ReadCurrent
                && action@->ReadCurrent_name == name@,
            RecordAction::Write { name, update } => action@ is Write && action@->Write_name == name@
                && action@->update == update@,
            RecordAction::Done => action@ is Done,
        },
        match event {
            RecordEvent::CurrentRead(current) => event@ is CurrentRead && event@->CurrentRead_0
                == current_view(current),
            RecordEvent::Written(written) => event@ is Written && event@->Written_0 == error_text(
                written,
            ),
        },
{
}

} // verus!
