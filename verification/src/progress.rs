//! The milestones of an analysis and the percentage that each reports.
//!
//! Progress is told for the reader's sake only. Nothing that an analysis
//! finds depends on it.

use crate::text::{decimal, decimal_string, join3};
use vstd::prelude::*;
use vstd::string::StringExecFns;

verus! {

/// A point that an analysis has reached.
#[derive(Debug, Clone, Copy, PartialEq, Eq, Structural)]
pub enum Milestone {
    /// The handle is about to be resolved.
    ResolvingHandle,
    /// The posts are about to be fetched.
    FetchingPosts,
    /// `count` posts were fetched.
    PostsFetched { count: usize },
    /// The labels on the account are about to be asked for.
    AccountLabels,
    /// Batch `index`, counted from zero, of `total` is about to be asked for.
    Batch { index: usize, total: usize },
    /// All labels are in.
    Analyzing,
    /// `done` of `total` posts were looked at.
    Processing { done: usize, total: usize },
    /// The analysis is over.
    Complete,
}

impl Milestone {
    /// Whether the counts of this milestone fit together.
    pub open spec fn well_formed(self) -> bool {
        match self {
            Milestone::Batch { index, total } => index < total,
            Milestone::Processing { done, total } => 0 < done <= total,
            _ => true,
        }
    }

    /// The place of this milestone in the course of an analysis.
    pub open spec fn stage(self) -> int {
        match self {
            Milestone::ResolvingHandle => 0,
            Milestone::FetchingPosts => 1,
            Milestone::PostsFetched { .. } => 2,
            Milestone::AccountLabels => 3,
            Milestone::Batch { .. } => 4,
            Milestone::Analyzing => 5,
            Milestone::Processing { .. } => 6,
            Milestone::Complete => 7,
        }
    }

    /// The percentage that this milestone reports. The batches share the
    /// span from 30 to 85 and the posts looked at that from 90 to 99, each
    /// by the part that is done, rounded down; counts that do not fit
    /// together report the end of their span.
    pub open spec fn spec_percent(self) -> int {
        match self {
            Milestone::ResolvingHandle => 5,
            Milestone::FetchingPosts => 15,
            Milestone::PostsFetched { .. } => 20,
            Milestone::AccountLabels => 25,
            Milestone::Batch { index, total } => if index < total {
                30 + (55 * index) / (total as int)
            } else {
                85
            },
            Milestone::Analyzing => 90,
            Milestone::Processing { done, total } => if done <= total && total > 0 {
                90 + (9 * done) / (total as int)
            } else {
                99
            },
            Milestone::Complete => 100,
        }
    }

    /// The percentage that this milestone reports.
    pub fn percent(&self) -> (p: u8)
        ensures
            p == self.spec_percent(),
            p <= 100,
    {
        match self {
            Milestone::ResolvingHandle => 5,
            Milestone::FetchingPosts => 15,
            Milestone::PostsFetched { .. } => 20,
            Milestone::AccountLabels => 25,
            Milestone::Batch { index, total } => {
                if *index < *total {
                    let part: u128 = (55u128 * (*index as u128)) / (*total as u128);
                    assert(part < 55) by (nonlinear_arith)
                        requires
                            part == (55 * (*index as int)) / (*total as int),
                            0 <= *index < *total,
                    ;
                    30 + (part as u8)
                } else {
                    85
                }
            },
            Milestone::Analyzing => 90,
            Milestone::Processing { done, total } => {
                if *done <= *total && *total > 0 {
                    let part: u128 = (9u128 * (*done as u128)) / (*total as u128);
                    assert(part <= 9) by (nonlinear_arith)
                        requires
                            part == (9 * (*done as int)) / (*total as int),
                            0 <= *done <= *total,
                            *total > 0,
                    ;
                    90 + (part as u8)
                } else {
                    99
                }
            },
            Milestone::Complete => 100,
        }
    }

    /// What this milestone tells the reader. Batches are counted from one;
    /// a batch beyond the last is told as the last.
    pub open spec fn spec_message(self) -> Seq<char> {
        match self {
            Milestone::ResolvingHandle => "Resolving handle..."@,
            Milestone::FetchingPosts => "Fetching posts from PDS..."@,
            Milestone::PostsFetched { count } => "Fetched "@ + decimal(count as nat)
                + " posts, querying labels..."@,
            Milestone::AccountLabels => "Checking account-level labels..."@,
            Milestone::Batch { index, total } => "Querying mod.bsky.app: batch "@ + decimal(
                if index < total {
                    (index + 1) as nat
                } else {
                    total as nat
                },
            ) + "/"@ + decimal(total as nat) + "..."@,
            Milestone::Analyzing => "Analyzing results..."@,
            Milestone::Processing { done, total } => "Processing posts ("@ + decimal(done as nat)
                + "/"@ + decimal(total as nat) + ")..."@,
            Milestone::Complete => "Analysis complete!"@,
        }
    }

    /// What this milestone tells the reader.
    pub fn message(&self) -> (m: String)
        ensures
            m@ == self.spec_message(),
    {
        match self {
            Milestone::ResolvingHandle => "Resolving handle...".to_owned(),
            Milestone::FetchingPosts => "Fetching posts from PDS...".to_owned(),
            Milestone::PostsFetched { count } => join3(
                "Fetched ",
                decimal_string(*count as u64).as_str(),
                " posts, querying labels...",
            ),
            Milestone::AccountLabels => "Checking account-level labels...".to_owned(),
            Milestone::Batch { index, total } => {
                let mut m = String::from_str("Querying mod.bsky.app: batch ");
                let number: usize = if *index < *total {
                    *index + 1
                } else {
                    *total
                };
                m.append(decimal_string(number as u64).as_str());
                m.append("/");
                m.append(decimal_string(*total as u64).as_str());
                m.append("...");
                m
            },
            Milestone::Analyzing => "Analyzing results...".to_owned(),
            Milestone::Processing { done, total } => {
                let mut m = String::from_str("Processing posts (");
                m.append(decimal_string(*done as u64).as_str());
                m.append("/");
                m.append(decimal_string(*total as u64).as_str());
                m.append(")...");
                m
            },
            Milestone::Complete => "Analysis complete!".to_owned(),
        }
    }
}

/// Whether the looking at posts reports after the post that makes `done`
/// of `total`: after every hundredth post and after the last.
pub open spec fn reports_after(done: usize, total: usize) -> bool {
    done % 100 == 0 || done == total
}

/// Whether the looking at posts reports after the post that makes `done`
/// of `total`.
pub fn should_report(done: usize, total: usize) -> (r: bool)
    ensures
        r == reports_after(done, total),
{
    done % 100 == 0 || done == total
}

/// Whether `later` is reached no sooner than `earlier` in one analysis: it
/// is of a later stage, or of the same stage with no less done of the same
/// whole.
pub open spec fn follows(earlier: Milestone, later: Milestone) -> bool {
    earlier.stage() < later.stage() || (earlier.stage() == later.stage() && match (
        earlier,
        later,
    ) {
        (Milestone::Batch { index: i, total: n }, Milestone::Batch { index: j, total: m }) => n
            == m && i <= j,
        (
            Milestone::Processing { done: i, total: n },
            Milestone::Processing { done: j, total: m },
        ) => n == m && i <= j,
        _ => true,
    })
}

/// The percentages of an analysis never fall, and stay within 0 and 100.
pub proof fn percent_never_falls(earlier: Milestone, later: Milestone)
    requires
        earlier.well_formed(),
        later.well_formed(),
        follows(earlier, later),
    ensures
        0 <= earlier.spec_percent() <= later.spec_percent() <= 100,
{
    match earlier {
        Milestone::Batch { index, total } => {
            assert(0 <= (55 * index) / (total as int) < 55) by (nonlinear_arith)
                requires
                    0 <= index < total,
            ;
        },
        Milestone::Processing { done, total } => {
            assert(0 <= (9 * done) / (total as int) <= 9) by (nonlinear_arith)
                requires
                    0 < done <= total,
            ;
        },
        _ => {},
    }
    match later {
        Milestone::Batch { index, total } => {
            assert(0 <= (55 * index) / (total as int) < 55) by (nonlinear_arith)
                requires
                    0 <= index < total,
            ;
        },
        Milestone::Processing { done, total } => {
            assert(0 <= (9 * done) / (total as int) <= 9) by (nonlinear_arith)
                requires
                    0 < done <= total,
            ;
        },
        _ => {},
    }
    match (earlier, later) {
        (Milestone::Batch { index: i, total: n }, Milestone::Batch { index: j, total: m }) => {
            assert((55 * i) / (n as int) <= (55 * j) / (n as int)) by (nonlinear_arith)
                requires
                    0 <= i <= j,
                    n > 0,
            ;
        },
        (
            Milestone::Processing { done: i, total: n },
            Milestone::Processing { done: j, total: m },
        ) => {
            assert((9 * i) / (n as int) <= (9 * j) / (n as int)) by (nonlinear_arith)
                requires
                    0 <= i <= j,
                    n > 0,
            ;
        },
        _ => {},
    }
}

} // verus!
