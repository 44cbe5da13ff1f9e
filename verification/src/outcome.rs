//! What came of a run over all marketplaces that were asked for.

use crate::configured::{names_of, view_names, views, ConfiguredGitMarketplace};
use crate::text::{error_text, texts, Text};
use vstd::prelude::*;
use vstd::string::*;

verus! {

/// A marketplace that could not be upgraded, and why.
#[derive(Debug, Clone, PartialEq, Eq)]
pub struct ConfiguredMarketplaceUpgradeError {
    pub marketplace_name: String,
    pub message: String,
}

/// The texts of a [`ConfiguredMarketplaceUpgradeError`].
pub struct UpgradeErrorView {
    pub marketplace_name: Text,
    pub message: Text,
}

impl View for ConfiguredMarketplaceUpgradeError {
    type V = UpgradeErrorView;

    open spec fn view(&self) -> UpgradeErrorView {
        UpgradeErrorView { marketplace_name: self.marketplace_name@, message: self.message@ }
    }
}

/// The marketplaces that were asked for, where those lie that were upgraded, and what went wrong
/// with the others that were due.
#[derive(Debug, Clone, PartialEq, Eq)]
pub struct ConfiguredMarketplaceUpgradeOutcome {
    pub selected_marketplaces: Vec<String>,
    pub upgraded_roots: Vec<std::path::PathBuf>,
    pub errors: Vec<ConfiguredMarketplaceUpgradeError>,
}

/// The texts of a [`ConfiguredMarketplaceUpgradeOutcome`].
pub struct OutcomeView {
    pub selected_marketplaces: Seq<Text>,
    pub upgraded_roots: Seq<std::path::PathBuf>,
    pub errors: Seq<UpgradeErrorView>,
}

impl View for ConfiguredMarketplaceUpgradeOutcome {
    type V = OutcomeView;

    open spec fn view(&self) -> OutcomeView {
        OutcomeView {
            selected_marketplaces: texts(self.selected_marketplaces@),
            upgraded_roots: self.upgraded_roots@,
            errors: error_views(self.errors@),
        }
    }
}

/// The texts of errors.
pub open spec fn error_views(errors: Seq<ConfiguredMarketplaceUpgradeError>) -> Seq<
    UpgradeErrorView,
> {
    errors.map_values(|error: ConfiguredMarketplaceUpgradeError| error@)
}

/// The outcome of a run over nothing.
pub open spec fn no_outcome() -> OutcomeView {
    OutcomeView {
        selected_marketplaces: Seq::empty(),
        upgraded_roots: Seq::empty(),
        errors: Seq::empty(),
    }
}

impl Default for ConfiguredMarketplaceUpgradeOutcome {
    fn default() -> (outcome: Self)
        ensures
            outcome@ == no_outcome(),
    {
        let outcome = ConfiguredMarketplaceUpgradeOutcome {
            selected_marketplaces: Vec::new(),
            upgraded_roots: Vec::new(),
            errors: Vec::new(),
        };
        assert(texts(outcome.selected_marketplaces@) =~= Seq::<Text>::empty());
        assert(error_views(outcome.errors@) =~= Seq::<UpgradeErrorView>::empty());
        outcome
    }
}

impl ConfiguredMarketplaceUpgradeOutcome {
    /// Whether nothing went wrong.
    pub fn all_succeeded(&self) -> (succeeded: bool)
        ensures
            succeeded == (self@.errors.len() == 0),
            succeeded <==> self.errors@.len() == 0,
    {
        self.errors.len() == 0
    }
}

/// What the upgrade of one marketplace ends in.
pub type UpgradeResult = Result<Option<std::path::PathBuf>, Text>;

/// The errors of results, as texts.
pub open spec fn result_views(
    results: Seq<Result<Option<std::path::PathBuf>, String>>,
) -> Seq<UpgradeResult> {
    results.map_values(|result: Result<Option<std::path::PathBuf>, String>| error_text(result))
}

/// The paths among the results, in order.
pub open spec fn roots_among(results: Seq<UpgradeResult>) -> Seq<std::path::PathBuf>
    decreases results.len(),
{
    if results.len() == 0 {
        Seq::empty()
    } else {
        let roots = roots_among(results.drop_last());
        match results.last() {
            Ok(Some(root)) => roots.push(root),
            _ => roots,
        }
    }
}

/// The errors among the results, in order, each with the name of the marketplace that it is about.
pub open spec fn errors_among(names: Seq<Text>, results: Seq<UpgradeResult>) -> Seq<
    UpgradeErrorView,
>
    decreases results.len(),
{
    if results.len() == 0 {
        Seq::empty()
    } else {
        let errors = errors_among(names, results.drop_last());
        match results.last() {
            Err(message) => errors.push(
                UpgradeErrorView { marketplace_name: names[results.len() - 1], message },
            ),
            _ => errors,
        }
    }
}

/// The outcome of a run over the marketplaces called `names` that ended in `results`.
pub open spec fn outcome_of(names: Seq<Text>, results: Seq<UpgradeResult>) -> OutcomeView {
    OutcomeView {
        selected_marketplaces: names,
        upgraded_roots: roots_among(results),
        errors: errors_among(names, results),
    }
}

/// The outcome of a run over `marketplaces`. `results` holds what the upgrade of each ended in.
pub(crate) fn outcome_of_run(
    marketplaces: &Vec<ConfiguredGitMarketplace>,
    results: Vec<Result<Option<std::path::PathBuf>, String>>,
) -> (outcome: ConfiguredMarketplaceUpgradeOutcome)
    requires
        results@.len() == marketplaces@.len(),
    ensures
        outcome@ == outcome_of(view_names(views(marketplaces@)), result_views(results@)),
{
    let selected_marketplaces = names_of(marketplaces);
    let ghost names = texts(selected_marketplaces@);
    let ghost ends = result_views(results@);
    let mut upgraded_roots: Vec<std::path::PathBuf> = Vec::new();
    let mut errors: Vec<ConfiguredMarketplaceUpgradeError> = Vec::new();
    let count: usize = selected_marketplaces.len();
    let mut i: usize = 0;
    assert(names.len() == count);
    assert(ends.take(0) =~= Seq::<UpgradeResult>::empty());
    assert(error_views(errors@) =~= Seq::<UpgradeErrorView>::empty());
    for result in iter: results
        invariant
            i == iter.index(),
            iter.seq() == results@,
            ends == result_views(results@),
            names == texts(selected_marketplaces@),
            count == selected_marketplaces@.len(),
            results@.len() == count,
            upgraded_roots@ == roots_among(ends.take(i as int)),
            error_views(errors@) == errors_among(names, ends.take(i as int)),
    {
        proof {
            assert(ends.take(i + 1).drop_last() =~= ends.take(i as int));
            assert(ends.take(i + 1).last() == error_text(result));
        }
        let ghost before = errors@;
        match result {
            Ok(Some(root)) => {
                upgraded_roots.push(root);
            },
            Ok(None) => {},
            Err(message) => {
                errors.push(
                    ConfiguredMarketplaceUpgradeError {
                        marketplace_name: selected_marketplaces[i].clone(),
                        message,
                    },
                );
                assert(names[i as int] == selected_marketplaces@[i as int]@);
                assert(error_views(errors@) =~= error_views(before).push(errors@.last()@));
            },
        }
        i += 1;
    }
    assert(ends.take(ends.len() as int) =~= ends);
    ConfiguredMarketplaceUpgradeOutcome { selected_marketplaces, upgraded_roots, errors }
}

/// Nothing went wrong exactly when every upgrade ended without an error.
pub proof fn law_all_succeed_without_errors(names: Seq<Text>, results: Seq<UpgradeResult>)
    ensures
        outcome_of(names, results).errors.len() == 0 <==> forall|i: int|
            0 <= i < results.len() ==> (#[trigger] results[i]) is Ok,
    decreases results.len(),
{
    if results.len() > 0 {
        let shorter = results.drop_last();
        law_all_succeed_without_errors(names, shorter);
        assert(forall|i: int| 0 <= i < shorter.len() ==> #[trigger] shorter[i] == results[i]);
        if outcome_of(names, results).errors.len() == 0 {
            assert forall|i: int| 0 <= i < results.len() implies (#[trigger] results[i]) is Ok by {
                if i < shorter.len() {
                    assert(shorter[i] is Ok);
                }
            }
        }
        if forall|i: int| 0 <= i < results.len() ==> (#[trigger] results[i]) is Ok {
            assert forall|i: int| 0 <= i < shorter.len() implies (#[trigger] shorter[i]) is Ok by {
                assert(results[i] is Ok);
            }
            assert(results[results.len() - 1] is Ok);
        }
    }
}

/// An outcome lists exactly the errors that occurred, each under the name of its marketplace, and
/// exactly the paths that were reported.
pub proof fn law_outcome_reports_every_result(
    names: Seq<Text>,
    results: Seq<UpgradeResult>,
    error: UpgradeErrorView,
    root: std::path::PathBuf,
)
    ensures
        outcome_of(names, results).errors.contains(error) <==> exists|i: int|
            0 <= i < results.len() && #[trigger] results[i] == Err::<
                Option<std::path::PathBuf>,
                Text,
            >(error.message) && names[i] == error.marketplace_name,
        outcome_of(names, results).upgraded_roots.contains(root) <==> exists|i: int|
            0 <= i < results.len() && #[trigger] results[i] == Ok::<
                Option<std::path::PathBuf>,
                Text,
            >(Some(root)),
    decreases results.len(),
{
    if results.len() > 0 {
        let shorter = results.drop_last();
        let last = results.len() - 1;
        law_outcome_reports_every_result(names, shorter, error, root);
        let old_errors = errors_among(names, shorter);
        let errors = errors_among(names, results);
        let old_roots = roots_among(shorter);
        let roots = roots_among(results);
        assert(forall|i: int| 0 <= i < shorter.len() ==> #[trigger] shorter[i] == results[i]);
        assert(errors.contains(error) <==> old_errors.contains(error) || (results[last] == Err::<
            Option<std::path::PathBuf>,
            Text,
        >(error.message) && names[last] == error.marketplace_name)) by {
            if let Err(message) = results[last] {
                let added = UpgradeErrorView { marketplace_name: names[last], message };
                lemma_push_contains(old_errors, added, error);
            }
        }
        assert(roots.contains(root) <==> old_roots.contains(root) || results[last] == Ok::<
            Option<std::path::PathBuf>,
            Text,
        >(Some(root))) by {
            if let Ok(Some(added)) = results[last] {
                lemma_push_contains(old_roots, added, root);
            }
        }
        if old_errors.contains(error) {
            let i = choose|i: int|
                0 <= i < shorter.len() && #[trigger] shorter[i] == Err::<
                    Option<std::path::PathBuf>,
                    Text,
                >(error.message) && names[i] == error.marketplace_name;
            assert(results[i] == shorter[i]);
        }
        if old_roots.contains(root) {
            let i = choose|i: int|
                0 <= i < shorter.len() && #[trigger] shorter[i] == Ok::<
                    Option<std::path::PathBuf>,
                    Text,
                >(Some(root));
            assert(results[i] == shorter[i]);
        }
        if exists|i: int|
            0 <= i < results.len() && #[trigger] results[i] == Err::<
                Option<std::path::PathBuf>,
                Text,
            >(error.message) && names[i] == error.marketplace_name {
            let i = choose|i: int|
                0 <= i < results.len() && #[trigger] results[i] == Err::<
                    Option<std::path::PathBuf>,
                    Text,
                >(error.message) && names[i] == error.marketplace_name;
            if i < last {
                assert(shorter[i] == results[i]);
            }
        }
        if exists|i: int|
            0 <= i < results.len() && #[trigger] results[i] == Ok::<
                Option<std::path::PathBuf>,
                Text,
            >(Some(root)) {
            let i = choose|i: int|
                0 <= i < results.len() && #[trigger] results[i] == Ok::<
                    Option<std::path::PathBuf>,
                    Text,
                >(Some(root));
            if i < last {
                assert(shorter[i] == results[i]);
            }
        }
    }
}

/// A sequence with one more element holds that element and what it held before.
proof fn lemma_push_contains<T>(s: Seq<T>, added: T, x: T)
    ensures
        s.push(added).contains(x) <==> s.contains(x) || x == added,
{
    let longer = s.push(added);
    if longer.contains(x) {
        let i = choose|i: int| 0 <= i < longer.len() && longer[i] == x;
        if i < s.len() {
            assert(s[i] == x);
        }
    }
    if s.contains(x) {
        let i = choose|i: int| 0 <= i < s.len() && s[i] == x;
        assert(longer[i] == x);
    }
    assert(longer[s.len() as int] == added);
}

/// An outcome names every marketplace of the run. It has one error for each upgrade that failed and
/// one path for each that reported one, in the order of the run: what an upgrade ended in comes
/// after as many others as there were of its kind before it.
pub proof fn law_outcome_reports_each_result_once(
    names: Seq<Text>,
    results: Seq<UpgradeResult>,
    i: int,
)
    ensures
        ({
            let outcome = outcome_of(names, results);
            let failed = |result: UpgradeResult| result is Err;
            let upgraded = |result: UpgradeResult| result is Ok && result->Ok_0 is Some;
            let errors_before = results.take(i).filter(failed).len() as int;
            let roots_before = results.take(i).filter(upgraded).len() as int;
            &&& outcome.selected_marketplaces == names
            &&& outcome.errors.len() == results.filter(failed).len()
            &&& outcome.upgraded_roots.len() == results.filter(upgraded).len()
            &&& 0 <= i < results.len() && results[i] is Err ==> {
                &&& errors_before < outcome.errors.len()
                &&& outcome.errors[errors_before].marketplace_name == names[i]
                &&& outcome.errors[errors_before].message == results[i]->Err_0
            }
            &&& 0 <= i < results.len() && results[i] is Ok && results[i]->Ok_0 is Some ==> {
                &&& roots_before < outcome.upgraded_roots.len()
                &&& outcome.upgraded_roots[roots_before] == results[i]->Ok_0->0
            }
        }),
    decreases results.len(),
{
    reveal(Seq::filter);
    let failed = |result: UpgradeResult| result is Err;
    let upgraded = |result: UpgradeResult| result is Ok && result->Ok_0 is Some;
    if results.len() > 0 {
        let shorter = results.drop_last();
        law_outcome_reports_each_result_once(names, shorter, i);
        if 0 <= i < shorter.len() {
            assert(shorter.take(i) =~= results.take(i));
            assert(shorter[i] == results[i]);
        } else if i == shorter.len() {
            assert(results.take(i) =~= shorter);
        }
    }
}

/// The outcome of a run over some marketplaces and then over others is the outcome of the first
/// followed by that of the others.
pub proof fn law_outcomes_add_up(
    names: Seq<Text>,
    results: Seq<UpgradeResult>,
    more_names: Seq<Text>,
    more_results: Seq<UpgradeResult>,
)
    requires
        names.len() == results.len(),
        more_names.len() == more_results.len(),
    ensures
        ({
            let first = outcome_of(names, results);
            let others = outcome_of(more_names, more_results);
            let all = outcome_of(names + more_names, results + more_results);
            &&& all.selected_marketplaces == first.selected_marketplaces
                + others.selected_marketplaces
            &&& all.upgraded_roots == first.upgraded_roots + others.upgraded_roots
            &&& all.errors == first.errors + others.errors
        }),
    decreases more_results.len(),
{
    if more_results.len() == 0 {
        assert(results + more_results =~= results);
        assert(names + more_names =~= names);
        assert(errors_among(more_names, more_results) =~= Seq::<UpgradeErrorView>::empty());
        assert(roots_among(more_results) =~= Seq::<std::path::PathBuf>::empty());
    } else {
        let fewer_names = more_names.drop_last();
        let fewer_results = more_results.drop_last();
        law_outcomes_add_up(names, results, fewer_names, fewer_results);
        assert((results + more_results).drop_last() =~= results + fewer_results);
        assert((results + more_results).last() == more_results.last());
        lemma_errors_need_only_their_names(
            names + more_names,
            names + fewer_names,
            results + fewer_results,
        );
        lemma_errors_need_only_their_names(more_names, fewer_names, fewer_results);
        assert((names + more_names)[names.len() + more_names.len() - 1]
            == more_names[more_names.len() - 1]);
    }
}

/// Errors depend only on the names of the marketplaces whose results they come from.
proof fn lemma_errors_need_only_their_names(
    names: Seq<Text>,
    other_names: Seq<Text>,
    results: Seq<UpgradeResult>,
)
    requires
        forall|i: int| 0 <= i < results.len() ==> #[trigger] names[i] == other_names[i],
    ensures
        errors_among(names, results) == errors_among(other_names, results),
    decreases results.len(),
{
    if results.len() > 0 {
        lemma_errors_need_only_their_names(names, other_names, results.drop_last());
        assert(names[results.len() - 1] == other_names[results.len() - 1]);
    }
}

/// What is read of an outcome, its errors and results is what they hold.
pub proof fn law_outcome_is_read_in_full(
    outcome: ConfiguredMarketplaceUpgradeOutcome,
    results: Seq<Result<Option<std::path::PathBuf>, String>>,
)
    ensures
        outcome@.selected_marketplaces == texts(outcome.selected_marketplaces@),
        outcome@.upgraded_roots == outcome.upgraded_roots@,
        outcome@.errors.len() == outcome.errors@.len(),
        forall|i: int|
            0 <= i < outcome.errors@.len() ==> {
                &&& (#[trigger] outcome@.errors[i]).marketplace_name
                    == outcome.errors@[i].marketplace_name@
                &&& outcome@.errors[i].message == outcome.errors@[i].message@
            },
        result_views(results).len() == results.len(),
        forall|i: int|
            0 <= i < results.len() ==> #[trigger] result_views(results)[i] == error_text(
                results[i],
            ),
{
}

/// The outcome of a run over nothing has no marketplaces, paths or errors.
pub proof fn law_no_outcome_is_empty()
    ensures
        no_outcome().selected_marketplaces.len() == 0,
        no_outcome().upgraded_roots.len() == 0,
        no_outcome().errors.len() == 0,
{
}

} // verus!
