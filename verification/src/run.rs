//! A run as a whole: how it is asked for, and what it ends with.

use vstd::prelude::*;
use crate::csv_writer::table_bytes;
use crate::csv_writer::write_csv;
use crate::error::AppError;
use crate::fetch::FetchOutcome;
use crate::fetch::OutcomeView;
use crate::scheduler::SchedulerView;
use crate::scheduler::agrees;
use crate::scheduler::all_done;
use crate::scheduler::lemma_outcomes_follow_the_identifiers;
use crate::table::found;
use crate::table::found_records;
use crate::table::lemma_found_skips_failures;
use crate::table::table_of;
use crate::text::str_eq;

verus! {

/// The text `s` in lower case, as `str::to_lowercase` gives it.
pub uninterp spec fn lowercase(s: Seq<char>) -> Seq<char>;

/// Whether the value of the test-mode variable asks for test mode: `1`, or
/// `true` in any mix of upper and lower case.
pub open spec fn asks_for_test_mode(value: Seq<char>) -> bool {
    value == "1"@ || lowercase(value) == "true"@
}

/// Whether a run is to be made in test mode: what the event says, and where
/// it says nothing, what the test-mode variable says; `false` where neither
/// says anything.
pub open spec fn test_mode_of(event: Option<bool>, variable: Option<Seq<char>>) -> bool {
    match event {
        Some(flag) => flag,
        None => match variable {
            Some(value) => asks_for_test_mode(value),
            None => false,
        },
    }
}

/// What a run reports: how many records it wrote, and how many identifiers
/// it could not write a record for.
#[derive(Debug, Clone, Copy, PartialEq, Eq)]
pub struct RunSummary {
    /// Records written to the table.
    pub written: usize,
    /// Identifiers the catalog has no record for.
    pub not_found: usize,
    /// Identifiers whose fetch failed.
    pub failed: usize,
}

/// How many of the outcomes are `NotFound`.
pub open spec fn count_not_found(outcomes: Seq<OutcomeView>) -> nat
    decreases outcomes.len(),
{
    if outcomes.len() == 0 {
        0
    } else {
        count_not_found(outcomes.drop_last()) + if outcomes.last() is NotFound {
            1nat
        } else {
            0nat
        }
    }
}

/// How many of the outcomes are `Failed`.
pub open spec fn count_failed(outcomes: Seq<OutcomeView>) -> nat
    decreases outcomes.len(),
{
    if outcomes.len() == 0 {
        0
    } else {
        count_failed(outcomes.drop_last()) + if outcomes.last() is Failed {
            1nat
        } else {
            0nat
        }
    }
}

/// The views of a vector of outcomes.
pub open spec fn outcome_views(outcomes: Seq<FetchOutcome>) -> Seq<OutcomeView> {
    outcomes.map_values(|o: FetchOutcome| o@)
}

/// `str::to_lowercase`.
#[verifier::external_body]
fn to_lowercase(s: &str) -> (lower: String)
    ensures
        lower@ == lowercase(s@),
{
    s.to_lowercase()
}

/// Decides whether a run is made in test mode, from the flag of the event
/// that asked for it and from the value of the test-mode variable.
pub fn resolve_test_mode(event: Option<bool>, variable: Option<&str>) -> (test_mode: bool)
    ensures
        test_mode == test_mode_of(
            event,
            match variable {
                Some(value) => Some(value@),
                None => None,
            },
        ),
{
    match event {
        Some(flag) => flag,
        None => match variable {
            Some(value) => str_eq(value, "1") || str_eq(to_lowercase(value).as_str(), "true"),
            None => false,
        },
    }
}

/// Every outcome is counted once: as written, as not found or as failed.
pub proof fn lemma_counts_add_up(outcomes: Seq<OutcomeView>)
    ensures
        found(outcomes).len() + count_not_found(outcomes) + count_failed(outcomes) == outcomes.len(),
    decreases outcomes.len(),
{
    if outcomes.len() > 0 {
        lemma_counts_add_up(outcomes.drop_last());
    }
}

/// Counts the outcomes of a run by kind.
pub fn summarize(outcomes: &Vec<FetchOutcome>) -> (summary: RunSummary)
    ensures
        summary.written == found(outcome_views(outcomes@)).len(),
        summary.not_found == count_not_found(outcome_views(outcomes@)),
        summary.failed == count_failed(outcome_views(outcomes@)),
{
    let ghost views = outcome_views(outcomes@);
    let mut summary = RunSummary { written: 0, not_found: 0, failed: 0 };
    let mut i: usize = 0;
    while i < outcomes.len()
        invariant
            i <= outcomes.len(),
            views == outcome_views(outcomes@),
            summary.written == found(views.take(i as int)).len(),
            summary.not_found == count_not_found(views.take(i as int)),
            summary.failed == count_failed(views.take(i as int)),
        decreases outcomes.len() - i,
    {
        proof {
            let next = views.take(i as int + 1);
            assert(next.drop_last() =~= views.take(i as int));
            assert(next.last() == outcomes@[i as int]@);
            lemma_counts_add_up(views.take(i as int));
        }
        match &outcomes[i] {
            FetchOutcome::Found(_, _) => {
                summary.written = summary.written + 1;
            },
            FetchOutcome::NotFound => {
                summary.not_found = summary.not_found + 1;
            },
            FetchOutcome::Failed(_) => {
                summary.failed = summary.failed + 1;
            },
        }
        i += 1;
    }
    proof {
        assert(views.take(outcomes.len() as int) =~= views);
    }
    summary
}

/// Ends a run: the outcomes, in the order of their identifiers, become the
/// table in delimited text and the report. Outcomes that are not `Found` are
/// counted and otherwise left out; they never make the run fail.
pub fn finish_run(outcomes: Vec<FetchOutcome>) -> (r: Result<(Vec<u8>, RunSummary), AppError>)
    ensures
        r is Ok,
        r.unwrap().0@ == table_bytes(table_of(found(outcome_views(outcomes@)))),
        r.unwrap().1.written == found(outcome_views(outcomes@)).len(),
        r.unwrap().1.not_found == count_not_found(outcome_views(outcomes@)),
        r.unwrap().1.failed == count_failed(outcome_views(outcomes@)),
{
    let summary = summarize(&outcomes);
    let records = found_records(outcomes);
    match write_csv(records.as_slice()) {
        Ok(bytes) => Ok((bytes, summary)),
        Err(error) => Err(error),
    }
}

/// Running again gives the same table: two fan-outs over the same
/// identifiers that have ended, each holding for every identifier the
/// outcome of that identifier, give the same bytes, whatever the order in
/// which their fetches ended.
pub proof fn lemma_rerun_gives_the_same_table(
    first: SchedulerView,
    second: SchedulerView,
    fetched: spec_fn(int) -> OutcomeView,
)
    requires
        first.ids == second.ids,
        first.valid(),
        second.valid(),
        all_done(first.slots),
        all_done(second.slots),
        agrees(first, fetched),
        agrees(second, fetched),
    ensures
        first.outcomes() == second.outcomes(),
        table_bytes(table_of(found(first.outcomes()))) == table_bytes(
            table_of(found(second.outcomes())),
        ),
{
    lemma_outcomes_follow_the_identifiers(first, fetched);
    lemma_outcomes_follow_the_identifiers(second, fetched);
}

/// An identifier whose fetch failed, or that the catalog does not have,
/// leaves the table as it would be without that identifier.
pub proof fn lemma_failure_leaves_table(outcomes: Seq<OutcomeView>, index: int)
    requires
        0 <= index < outcomes.len(),
        !(outcomes[index] is Found),
    ensures
        table_bytes(table_of(found(outcomes))) == table_bytes(
            table_of(found(outcomes.remove(index))),
        ),
{
    lemma_found_skips_failures(outcomes, index);
}

} // verus!
