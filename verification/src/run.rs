//! A run over all marketplaces that were asked for, step by step.
//!
//! A run first has left-over directories removed, then has each marketplace upgraded in the order
//! of their names. A run over nothing is done at once.

use crate::config::ConfigLayerStack;
use crate::configured::{
    lists_selected, selected, selected_git_marketplaces, view_names, views,
    ConfiguredGitMarketplace, ConfiguredGitMarketplaceView,
};
use crate::location::{marketplace_install_root, Location, INSTALLED_MARKETPLACES_DIR};
use crate::outcome::{
    law_outcome_reports_each_result_once, no_outcome, outcome_of, outcome_of_run, result_views,
    ConfiguredMarketplaceUpgradeOutcome, OutcomeView, UpgradeResult,
};
use crate::text::{error_text, option_str, Text};
use vstd::prelude::*;
use vstd::string::*;

verus! {

/// What a run asks for.
pub enum RunAction {
    /// Remove what interrupted upgrades have left behind below `install_root`.
    RemoveStale { install_root: Location },
    /// Upgrade `marketplace`, which is installed below `install_root`.
    Upgrade { install_root: Location, marketplace: ConfiguredGitMarketplace },
    /// Nothing more.
    Done,
}

/// The texts of a [`RunAction`].
pub enum RunActionView {
    RemoveStale { install_root: Seq<Text> },
    Upgrade { install_root: Seq<Text>, marketplace: ConfiguredGitMarketplaceView },
    Done,
}

impl View for RunAction {
    type V = RunActionView;

    open spec fn view(&self) -> RunActionView {
        match *self {
            RunAction::RemoveStale { install_root } => RunActionView::RemoveStale {
                install_root: install_root@,
            },
            RunAction::Upgrade { install_root, marketplace } => RunActionView::Upgrade {
                install_root: install_root@,
                marketplace: marketplace@,
            },
            RunAction::Done => RunActionView::Done,
        }
    }
}

/// What came of a [`RunAction`].
pub enum RunEvent {
    StaleRemoved,
    Upgraded(Result<Option<std::path::PathBuf>, String>),
}

/// The texts of a [`RunEvent`].
pub enum RunEventView {
    StaleRemoved,
    Upgraded(UpgradeResult),
}

impl View for RunEvent {
    type V = RunEventView;

    open spec fn view(&self) -> RunEventView {
        match *self {
            RunEvent::StaleRemoved => RunEventView::StaleRemoved,
            RunEvent::Upgraded(result) => RunEventView::Upgraded(error_text(result)),
        }
    }
}

/// A run over marketplaces, at some point.
pub struct UpgradeRun {
    install_root: Location,
    marketplaces: Vec<ConfiguredGitMarketplace>,
    cleaned: bool,
    results: Vec<Result<Option<std::path::PathBuf>, String>>,
}

/// The texts of an [`UpgradeRun`].
pub struct RunView {
    pub install_root: Seq<Text>,
    /// All marketplaces of the run.
    pub marketplaces: Seq<ConfiguredGitMarketplaceView>,
    /// Left-over directories have been removed.
    pub cleaned: bool,
    /// What the upgrades ended in that are over.
    pub results: Seq<UpgradeResult>,
}

impl View for UpgradeRun {
    type V = RunView;

    closed spec fn view(&self) -> RunView {
        RunView {
            install_root: self.install_root@,
            marketplaces: views(self.marketplaces@),
            cleaned: self.cleaned,
            results: result_views(self.results@),
        }
    }
}

impl RunView {
    /// What the run asks for.
    pub open spec fn pending(self) -> RunActionView {
        if self.results.len() >= self.marketplaces.len() {
            RunActionView::Done
        } else if !self.cleaned {
            RunActionView::RemoveStale { install_root: self.install_root }
        } else {
            RunActionView::Upgrade {
                install_root: self.install_root,
                marketplace: self.marketplaces[self.results.len() as int],
            }
        }
    }

    /// The run once `event` has come. An event that answers something else than what the run asks
    /// for changes nothing.
    pub open spec fn next(self, event: RunEventView) -> RunView {
        match (self.pending(), event) {
            (RunActionView::RemoveStale { install_root }, RunEventView::StaleRemoved) => RunView {
                cleaned: true,
                ..self
            },
            (
                RunActionView::Upgrade { install_root, marketplace },
                RunEventView::Upgraded(result),
            ) => RunView { results: self.results.push(result), ..self },
            _ => self,
        }
    }

    /// What came of a run that is done.
    pub open spec fn outcome(self) -> OutcomeView {
        outcome_of(view_names(self.marketplaces), self.results)
    }
}

/// A run over `marketplaces` that has not begun.
pub open spec fn run_start(
    install_root: Seq<Text>,
    marketplaces: Seq<ConfiguredGitMarketplaceView>,
) -> RunView {
    RunView { install_root, marketplaces, cleaned: false, results: Seq::empty() }
}

/// Begins a run over the configured Git marketplaces: over all of them, or over the one called
/// `marketplace_name`.
pub fn upgrade_configured_git_marketplaces(
    codex_home: &Location,
    config_layer_stack: &ConfigLayerStack,
    marketplace_name: Option<&str>,
) -> (run: UpgradeRun)
    ensures
        run@ == run_start(
            codex_home@.push(INSTALLED_MARKETPLACES_DIR@),
            selected(config_layer_stack.table(), option_str(marketplace_name)),
        ),
        lists_selected(
            config_layer_stack.table(),
            option_str(marketplace_name),
            run@.marketplaces,
        ),
{
    let marketplaces = selected_git_marketplaces(config_layer_stack, marketplace_name);
    let run = UpgradeRun {
        install_root: marketplace_install_root(codex_home),
        marketplaces,
        cleaned: false,
        results: Vec::new(),
    };
    assert(result_views(run.results@) =~= Seq::<UpgradeResult>::empty());
    run
}

impl UpgradeRun {
    #[verifier::type_invariant]
    spec fn results_fit(self) -> bool {
        self.results@.len() <= self.marketplaces@.len()
    }

    /// What the run asks for.
    pub fn pending(&self) -> (action: RunAction)
        ensures
            action@ == self@.pending(),
    {
        assert(result_views(self.results@).len() == self.results@.len());
        assert(views(self.marketplaces@).len() == self.marketplaces@.len());
        if self.results.len() >= self.marketplaces.len() {
            RunAction::Done
        } else if !self.cleaned {
            RunAction::RemoveStale { install_root: self.install_root.copy() }
        } else {
            RunAction::Upgrade {
                install_root: self.install_root.copy(),
                marketplace: self.marketplaces[self.results.len()].clone(),
            }
        }
    }

    /// Goes on with what came of the action that the run asked for. An event that answers something
    /// else changes nothing.
    pub fn advance(self, event: RunEvent) -> (next: UpgradeRun)
        ensures
            next@ == self@.next(event@),
    {
        proof {
            use_type_invariant(&self);
            assert(result_views(self.results@).len() == self.results@.len());
            assert(views(self.marketplaces@).len() == self.marketplaces@.len());
        }
        let UpgradeRun { install_root, marketplaces, cleaned, results } = self;
        if results.len() >= marketplaces.len() {
            return UpgradeRun { install_root, marketplaces, cleaned, results };
        }
        match (cleaned, event) {
            (false, RunEvent::StaleRemoved) => UpgradeRun {
                install_root,
                marketplaces,
                cleaned: true,
                results,
            },
            (true, RunEvent::Upgraded(result)) => {
                let ghost before = results@;
                let mut results = results;
                results.push(result);
                assert(result_views(results@) =~= result_views(before).push(error_text(result)));
                UpgradeRun { install_root, marketplaces, cleaned, results }
            },
            _ => UpgradeRun { install_root, marketplaces, cleaned, results },
        }
    }

    /// The outcome of a run that is done.
    pub fn into_outcome(self) -> (outcome: Option<ConfiguredMarketplaceUpgradeOutcome>)
        ensures
            outcome is Some <==> self@.pending() is Done,
            outcome matches Some(outcome) ==> outcome@ == self@.outcome(),
    {
        proof {
            use_type_invariant(&self);
            assert(result_views(self.results@).len() == self.results@.len());
            assert(views(self.marketplaces@).len() == self.marketplaces@.len());
        }
        let UpgradeRun { install_root: _, marketplaces, cleaned: _, results } = self;
        if results.len() < marketplaces.len() {
            None
        } else {
            Some(outcome_of_run(&marketplaces, results))
        }
    }
}

/// A run after left-over directories were removed and that many upgrades ended in `results`.
pub open spec fn run_after(run: RunView, results: Seq<UpgradeResult>, upgrades: nat) -> RunView
    decreases upgrades,
{
    if upgrades == 0 {
        run.next(RunEventView::StaleRemoved)
    } else {
        run_after(run, results, (upgrades - 1) as nat).next(
            RunEventView::Upgraded(results[upgrades - 1]),
        )
    }
}

/// A run has left-over directories removed before anything else, then upgrades each marketplace
/// once, in order, and is done with the outcome of what the upgrades ended in.
pub proof fn law_run_upgrades_each_marketplace_once(
    install_root: Seq<Text>,
    marketplaces: Seq<ConfiguredGitMarketplaceView>,
    results: Seq<UpgradeResult>,
    upgrades: nat,
)
    requires
        results.len() == marketplaces.len(),
        marketplaces.len() > 0,
        upgrades <= marketplaces.len(),
    ensures
        ({
            let start = run_start(install_root, marketplaces);
            let run = run_after(start, results, upgrades);
            &&& start.pending() == (RunActionView::RemoveStale { install_root })
            &&& upgrades < marketplaces.len() ==> run.pending() == (RunActionView::Upgrade {
                install_root,
                marketplace: marketplaces[upgrades as int],
            })
            &&& upgrades == marketplaces.len() ==> run.pending() is Done && run.outcome()
                == outcome_of(view_names(marketplaces), results)
        }),
{
    lemma_run_after(install_root, marketplaces, results, upgrades);
    assert(results.take(results.len() as int) =~= results);
}

proof fn lemma_run_after(
    install_root: Seq<Text>,
    marketplaces: Seq<ConfiguredGitMarketplaceView>,
    results: Seq<UpgradeResult>,
    upgrades: nat,
)
    requires
        results.len() == marketplaces.len(),
        marketplaces.len() > 0,
        upgrades <= marketplaces.len(),
    ensures
        run_after(run_start(install_root, marketplaces), results, upgrades) == (RunView {
            install_root,
            marketplaces,
            cleaned: true,
            results: results.take(upgrades as int),
        }),
    decreases upgrades,
{
    if upgrades == 0 {
        assert(results.take(0) =~= Seq::<UpgradeResult>::empty());
    } else {
        lemma_run_after(install_root, marketplaces, results, (upgrades - 1) as nat);
        assert(results.take(upgrades - 1).push(results[upgrades - 1]) =~= results.take(
            upgrades as int,
        ));
    }
}

/// An event that a run did not ask for leaves it as it is; the others bring it one step closer to
/// its end.
pub proof fn law_run_answers_move_on(run: RunView, event: RunEventView)
    ensures
        match (run.pending(), event) {
            (RunActionView::RemoveStale { .. }, RunEventView::StaleRemoved) => run.next(
                event,
            ).cleaned && run.next(event).results == run.results,
            (RunActionView::Upgrade { .. }, RunEventView::Upgraded(_)) => run.next(
                event,
            ).results.len() == run.results.len() + 1 && run.next(event).cleaned,
            _ => run.next(event) == run,
        },
        run.next(event).marketplaces == run.marketplaces,
        run.next(event).install_root == run.install_root,
{
}

/// A run over nothing asks for nothing, not even for left-over directories to be removed, and has
/// an empty outcome.
pub proof fn law_run_over_nothing_is_done(install_root: Seq<Text>)
    ensures
        run_start(install_root, Seq::empty()).pending() is Done,
        run_start(install_root, Seq::empty()).outcome() == no_outcome(),
{
    assert(view_names(Seq::empty()) =~= Seq::<Text>::empty());
}

/// What a run ends in: the names of all its marketplaces, one error for each upgrade that failed,
/// under the name of its marketplace, and one path for each that reported one, all in the order of
/// the run.
pub proof fn law_run_reports_each_upgrade_once(run: RunView, i: int)
    requires
        run.results.len() <= run.marketplaces.len(),
    ensures
        ({
            let outcome = run.outcome();
            let failed = |result: UpgradeResult| result is Err;
            let upgraded = |result: UpgradeResult| result is Ok && result->Ok_0 is Some;
            let errors_before = run.results.take(i).filter(failed).len() as int;
            let roots_before = run.results.take(i).filter(upgraded).len() as int;
            &&& outcome.selected_marketplaces.len() == run.marketplaces.len()
            &&& 0 <= i < run.marketplaces.len() ==> outcome.selected_marketplaces[i]
                == run.marketplaces[i].name
            &&& outcome.errors.len() == run.results.filter(failed).len()
            &&& outcome.upgraded_roots.len() == run.results.filter(upgraded).len()
            &&& 0 <= i < run.results.len() && run.results[i] is Err ==> {
                &&& errors_before < outcome.errors.len()
                &&& outcome.errors[errors_before].marketplace_name == run.marketplaces[i].name
                &&& outcome.errors[errors_before].message == run.results[i]->Err_0
            }
            &&& 0 <= i < run.results.len() && run.results[i] is Ok && run.results[i]->Ok_0
                is Some ==> {
                &&& roots_before < outcome.upgraded_roots.len()
                &&& outcome.upgraded_roots[roots_before] == run.results[i]->Ok_0->0
            }
        }),
{
    law_outcome_reports_each_result_once(view_names(run.marketplaces), run.results, i);
}

/// A run that has not begun holds the marketplaces and the place that it was given, and nothing
/// that was done.
pub proof fn law_run_starts_with_nothing_done(
    install_root: Seq<Text>,
    marketplaces: Seq<ConfiguredGitMarketplaceView>,
)
    ensures
        run_start(install_root, marketplaces).install_root == install_root,
        run_start(install_root, marketplaces).marketplaces == marketplaces,
        run_start(install_root, marketplaces).results.len() == 0,
        !run_start(install_root, marketplaces).cleaned,
{
}

/// A run with upgrades to come asks for the one that follows those that are over, once left-over
/// directories were removed; a run with none to come asks for nothing.
pub proof fn law_run_asks_for_what_comes_next(run: RunView)
    ensures
        run.pending() is Done <==> run.results.len() >= run.marketplaces.len(),
        run.results.len() < run.marketplaces.len() && !run.cleaned ==> run.pending() == (
        RunActionView::RemoveStale { install_root: run.install_root }),
        run.results.len() < run.marketplaces.len() && run.cleaned ==> run.pending() == (
        RunActionView::Upgrade {
            install_root: run.install_root,
            marketplace: run.marketplaces[run.results.len() as int],
        }),
{
}

/// An upgrade that a run asked for adds what it ended in to what is known, and nothing else does.
pub proof fn law_run_keeps_what_upgrades_ended_in(run: RunView, event: RunEventView)
    ensures
        run.pending() is Upgrade ==> (event matches RunEventView::Upgraded(result) ==> run.next(
            event,
        ).results == run.results.push(result)),
        !(run.pending() is Upgrade && event is Upgraded) ==> run.next(event).results == run.results,
        run.next(event).cleaned <==> run.cleaned || (run.pending() is RemoveStale && event
            is StaleRemoved),
{
}

/// Each step of a run is told by the step before it.
pub proof fn law_run_goes_on_step_by_step(run: RunView, results: Seq<UpgradeResult>, upgrades: nat)
    ensures
        run_after(run, results, 0) == run.next(RunEventView::StaleRemoved),
        run_after(run, results, upgrades + 1) == run_after(run, results, upgrades).next(
            RunEventView::Upgraded(results[upgrades as int]),
        ),
{
}

/// What is read of an action or an event of a run is what it holds.
pub proof fn law_run_steps_are_read_in_full(action: RunAction, event: RunEvent)
    ensures
        match action {
            RunAction::RemoveStale { install_root } => action@ is RemoveStale
                && action@->RemoveStale_install_root == install_root@,
            RunAction::Upgrade { install_root, marketplace } => action@ is Upgrade
                && action@->Upgrade_install_root == install_root@ && action@->marketplace
                == marketplace@,
            RunAction::Done => action@ is Done,
        },
        match event {
            RunEvent::StaleRemoved => event@ is StaleRemoved,
            RunEvent::Upgraded(result) => event@ is Upgraded && event@->0 == error_text(result),
        },
{
}

} // verus!
