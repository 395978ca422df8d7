//! The result of a batch of per-package operations.

use crate::host::{ProcessOutcome, ProcessOutcomeView};
use crate::text::{decimal, numeral, texts};
use vstd::prelude::*;
use vstd::string::StringExecFns;

verus! {

/// A package that could not be handled, with the reason as it is shown.
#[derive(Debug, Clone, PartialEq, Eq)]
pub struct Failure {
    pub package: String,
    pub reason: String,
}

/// What a [`Failure`] stands for in contracts.
pub struct FailureView {
    pub package: Seq<char>,
    pub reason: Seq<char>,
}

impl View for Failure {
    type V = FailureView;

    open spec fn view(&self) -> FailureView {
        FailureView { package: self.package@, reason: self.reason@ }
    }
}

/// The views of a list of failures, item by item.
pub open spec fn failure_views(items: Seq<Failure>) -> Seq<FailureView> {
    items.map_values(|f: Failure| f@)
}

/// The views of a list of outcomes, item by item.
pub open spec fn outcome_views(items: Seq<ProcessOutcome>) -> Seq<ProcessOutcomeView> {
    items.map_values(|o: ProcessOutcome| o@)
}

/// What a batch came to: how many packages were handled, and which were not,
/// in the order in which they were tried. No failure hides another.
#[derive(Debug, Clone, PartialEq, Eq)]
pub struct BatchResult {
    pub successes: usize,
    pub failures: Vec<Failure>,
}

/// What a [`BatchResult`] stands for in contracts.
pub struct BatchResultView {
    pub successes: nat,
    pub failures: Seq<FailureView>,
}

impl View for BatchResult {
    type V = BatchResultView;

    open spec fn view(&self) -> BatchResultView {
        BatchResultView {
            successes: self.successes as nat,
            failures: failure_views(self.failures@),
        }
    }
}

/// One package together with how its command came out.
pub struct Attempt {
    pub package: Seq<char>,
    pub outcome: ProcessOutcomeView,
}

/// The packages that were tried, each with its outcome, in order. A package
/// without an outcome was not tried.
pub open spec fn attempts(packages: Seq<Seq<char>>, outcomes: Seq<ProcessOutcomeView>) -> Seq<
    Attempt,
> {
    Seq::new(
        if packages.len() <= outcomes.len() {
            packages.len()
        } else {
            outcomes.len()
        },
        |i: int| Attempt { package: packages[i], outcome: outcomes[i] },
    )
}

/// The reason shown for a package whose removal failed: one wording for a
/// command that could not be started, another for one that ended badly.
pub open spec fn failure_reason(package: Seq<char>, outcome: ProcessOutcomeView) -> Seq<char> {
    match outcome {
        ProcessOutcomeView::NotStarted(reason) => "Command error for "@ + package + ": "@ + reason,
        ProcessOutcomeView::Exited { stderr, .. } => "Failed to unstow "@ + package + ": "@
            + stderr,
    }
}

/// The failure that a failed attempt is recorded as.
pub open spec fn failure_of(attempt: Attempt) -> FailureView {
    FailureView {
        package: attempt.package,
        reason: failure_reason(attempt.package, attempt.outcome),
    }
}

/// The attempts that succeeded, in order.
pub open spec fn succeeded(tried: Seq<Attempt>) -> Seq<Attempt> {
    tried.filter(|a: Attempt| a.outcome.succeeded())
}

/// The attempts that failed, in order.
pub open spec fn failed(tried: Seq<Attempt>) -> Seq<Attempt> {
    tried.filter(|a: Attempt| !a.outcome.succeeded())
}

/// The result of a batch: the number of attempts that succeeded, and one
/// failure for each attempt that did not, in the order of the attempts.
pub open spec fn tally(tried: Seq<Attempt>) -> BatchResultView {
    BatchResultView {
        successes: succeeded(tried).len(),
        failures: failed(tried).map_values(|a: Attempt| failure_of(a)),
    }
}

/// One more attempt adds one success or one failure, at the end, and leaves
/// what was counted before as it was.
pub proof fn lemma_tally_push(tried: Seq<Attempt>, next: Attempt)
    ensures
        next.outcome.succeeded() ==> tally(tried.push(next)) == (BatchResultView {
            successes: tally(tried).successes + 1,
            failures: tally(tried).failures,
        }),
        !next.outcome.succeeded() ==> tally(tried.push(next)) == (BatchResultView {
            successes: tally(tried).successes,
            failures: tally(tried).failures.push(failure_of(next)),
        }),
{
    let longer = tried.push(next);
    assert(longer.drop_last() =~= tried);
    assert(longer.last() == next);
    reveal(Seq::filter);
    if next.outcome.succeeded() {
        assert(succeeded(longer) =~= succeeded(tried).push(next));
        assert(failed(longer) =~= failed(tried));
    } else {
        assert(succeeded(longer) =~= succeeded(tried));
        assert(failed(longer) =~= failed(tried).push(next));
        assert(tally(longer).failures =~= tally(tried).failures.push(failure_of(next)));
    }
}

/// Every attempt is counted exactly once: as a success or as a failure.
pub proof fn lemma_tally_total(tried: Seq<Attempt>)
    ensures
        tally(tried).successes + tally(tried).failures.len() == tried.len(),
    decreases tried.len(),
{
    reveal(Seq::filter);
    if tried.len() > 0 {
        lemma_tally_total(tried.drop_last());
        assert(tried.drop_last().push(tried.last()) =~= tried);
        lemma_tally_push(tried.drop_last(), tried.last());
    } else {
        assert(succeeded(tried) =~= Seq::<Attempt>::empty());
        assert(failed(tried) =~= Seq::<Attempt>::empty());
    }
}

/// The lines that list the failures: each on a line of its own, after a dash.
pub open spec fn failure_lines(failures: Seq<FailureView>) -> Seq<char>
    decreases failures.len(),
{
    if failures.len() == 0 {
        Seq::empty()
    } else {
        failure_lines(failures.drop_last()) + "\n- "@ + failures.last().reason
    }
}

impl BatchResultView {
    /// The status line of a batch. With at least one success it gives their
    /// number and, if there were failures, lists them below. Without any,
    /// it lists the failures, or says that nothing was there to handle.
    pub open spec fn status(self) -> Seq<char> {
        if self.successes > 0 {
            let head = "Successfully unstowed "@ + numeral(self.successes)
                + " dotfile directories."@;
            if self.failures.len() > 0 {
                head + "\n\nErrors encountered:"@ + failure_lines(self.failures)
            } else {
                head
            }
        } else if self.failures.len() == 0 {
            "No dotfiles were found to unstow."@
        } else {
            "Failed to unstow dotfiles. Errors encountered:"@ + failure_lines(self.failures)
        }
    }
}

fn reason_for(package: &String, outcome: &ProcessOutcome) -> (r: String)
    ensures
        r@ == failure_reason(package@, outcome@),
{
    match outcome {
        ProcessOutcome::NotStarted(reason) => String::from_str("Command error for ").concat(
            package.as_str(),
        ).concat(": ").concat(reason.as_str()),
        ProcessOutcome::Exited { stderr, .. } => String::from_str("Failed to unstow ").concat(
            package.as_str(),
        ).concat(": ").concat(stderr.as_str()),
    }
}

impl BatchResult {
    /// Counts a batch: `outcomes[i]` is how the command for `packages[i]`
    /// came out.
    pub fn tally(packages: &Vec<String>, outcomes: &Vec<ProcessOutcome>) -> (r: BatchResult)
        ensures
            r@ == tally(attempts(texts(packages@), outcome_views(outcomes@))),
    {
        let n = if packages.len() <= outcomes.len() {
            packages.len()
        } else {
            outcomes.len()
        };
        let ghost tried = attempts(texts(packages@), outcome_views(outcomes@));
        let mut successes: usize = 0;
        let mut failures: Vec<Failure> = Vec::new();
        let mut i: usize = 0;
        proof {
            lemma_tally_total(tried.take(0));
            reveal(Seq::filter);
            assert(failure_views(failures@) =~= tally(tried.take(0)).failures);
        }
        while i < n
            invariant
                i <= n,
                n == tried.len(),
                n <= packages.len(),
                n <= outcomes.len(),
                tried == attempts(texts(packages@), outcome_views(outcomes@)),
                successes == tally(tried.take(i as int)).successes,
                failure_views(failures@) == tally(tried.take(i as int)).failures,
            decreases n - i,
        {
            proof {
                lemma_tally_total(tried.take(i as int));
                lemma_tally_push(tried.take(i as int), tried[i as int]);
                assert(tried.take(i as int).push(tried[i as int]) =~= tried.take(i + 1));
            }
            if outcomes[i].succeeded() {
                successes += 1;
            } else {
                let ghost before = failures@;
                let failure = Failure {
                    package: packages[i].clone(),
                    reason: reason_for(&packages[i], &outcomes[i]),
                };
                failures.push(failure);
                assert(failure_views(failures@) =~= failure_views(before).push(
                    failure_of(tried[i as int]),
                ));
            }
            i += 1;
        }
        assert(tried.take(n as int) =~= tried);
        BatchResult { successes, failures }
    }

    /// Words the status line of the batch.
    pub fn status(&self) -> (r: String)
        ensures
            r@ == self@.status(),
    {
        if self.successes == 0 && self.failures.len() == 0 {
            return String::from_str("No dotfiles were found to unstow.");
        }
        let mut text = if self.successes > 0 {
            let head = String::from_str("Successfully unstowed ").concat(
                decimal(self.successes).as_str(),
            ).concat(" dotfile directories.");
            if self.failures.len() > 0 {
                head.concat("\n\nErrors encountered:")
            } else {
                head
            }
        } else {
            String::from_str("Failed to unstow dotfiles. Errors encountered:")
        };
        let ghost head = text@;
        let ghost all = failure_views(self.failures@);
        let mut i: usize = 0;
        assert(failure_lines(all.take(0)) =~= Seq::<char>::empty());
        assert(text@ =~= head + failure_lines(all.take(0)));
        while i < self.failures.len()
            invariant
                i <= self.failures.len(),
                all == failure_views(self.failures@),
                text@ == head + failure_lines(all.take(i as int)),
            decreases self.failures.len() - i,
        {
            text.append("\n- ");
            text.append(self.failures[i].reason.as_str());
            i += 1;
            assert(all.take(i as int).drop_last() =~= all.take(i - 1));
            assert(text@ =~= head + failure_lines(all.take(i as int)));
        }
        assert(all.take(self.failures.len() as int) =~= all);
        assert(self.failures.len() == 0 ==> failure_lines(all) =~= Seq::<char>::empty());
        assert(text@ =~= self@.status());
        text
    }
}

/// A batch always has a status line.
pub proof fn lemma_batch_status_says_something(batch: BatchResultView)
    ensures
        batch.status().len() > 0,
{
    reveal_strlit("Successfully unstowed ");
    reveal_strlit("No dotfiles were found to unstow.");
    reveal_strlit("Failed to unstow dotfiles. Errors encountered:");
}

} // verus!
