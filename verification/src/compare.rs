//! The comparison engine: one full comparison cycle's classification.
//!
//! Both producers are run on the same input; their results are compared as
//! exact character sequences. Equality is the verdict `Equivalent`; a
//! difference is the distinguished verdict `Diverged`, carrying the computed
//! alignment; a failure of either producer short-circuits the cycle.

use vstd::prelude::*;
use crate::diff::current_text;
use crate::diff::diff_texts;
use crate::diff::previous_text;
use crate::diff::word_diff_of;
use crate::outcome::CompareError;
use crate::outcome::Outcome;
use crate::outcome::ProducerError;
use crate::outcome::outcome_equivalent;

verus! {

/// The AST text a producer delivered, if it succeeded.
pub open spec fn produced_text(r: Result<String, ProducerError>) -> Option<Seq<char>> {
    match r {
        Ok(ast) => Some(ast@),
        Err(_) => None,
    }
}

/// What the verdict of one comparison cycle is, given both producers'
/// results: `Equivalent` exactly when both succeeded with identical text;
/// `Diverged` exactly when both succeeded and the texts differ, carrying the
/// alignment of (previous, current), which reconstructs both texts; `Failed`
/// wrapping the producer error otherwise, the current producer's first.
pub open spec fn compare_post(
    current: Result<String, ProducerError>,
    previous: Result<String, ProducerError>,
    r: Outcome,
) -> bool {
    match (current, previous) {
        (Ok(cur), Ok(prev)) => if cur@ == prev@ {
            r == Outcome::Equivalent
        } else {
            match r {
                Outcome::Diverged(segments) => segments@ == word_diff_of(prev@, cur@)
                    && previous_text(segments@) == prev@ && current_text(segments@) == cur@,
                _ => false,
            }
        },
        (Err(e), _) => r == Outcome::Failed(CompareError::Producer(e)),
        (Ok(_), Err(e)) => r == Outcome::Failed(CompareError::Producer(e)),
    }
}

/// Classifies one comparison cycle from the two producers' results: the
/// current producer's and the previous producer's answer for the same input
/// and mode.
pub fn compare(
    current: Result<String, ProducerError>,
    previous: Result<String, ProducerError>,
) -> (r: Outcome)
    ensures
        compare_post(current, previous, r),
{
    match (current, previous) {
        (Ok(cur), Ok(prev)) => {
            if cur == prev {
                Outcome::Equivalent
            } else {
                Outcome::Diverged(diff_texts(prev.as_str(), cur.as_str()))
            }
        },
        (Err(e), _) => Outcome::Failed(CompareError::Producer(e)),
        (Ok(_), Err(e)) => Outcome::Failed(CompareError::Producer(e)),
    }
}

/// The comparison is deterministic: any two outcomes classified from the same
/// pair of producer results are the same verdict, with the same alignment and
/// the same diagnostic. (The producers themselves are referentially
/// transparent, so repeated cycles on one input and mode feed this with the
/// same pair.)
pub proof fn lemma_compare_deterministic(
    current: Result<String, ProducerError>,
    previous: Result<String, ProducerError>,
    r1: Outcome,
    r2: Outcome,
)
    requires
        compare_post(current, previous, r1),
        compare_post(current, previous, r2),
    ensures
        outcome_equivalent(r1, r2),
{
}

/// If the producers return identical AST text, the comparison is
/// `Equivalent`, and no alignment is computed or carried.
pub proof fn lemma_identical_text_is_equivalent(
    current: Result<String, ProducerError>,
    previous: Result<String, ProducerError>,
    r: Outcome,
)
    requires
        compare_post(current, previous, r),
        produced_text(current) is Some,
        produced_text(current) == produced_text(previous),
    ensures
        r == Outcome::Equivalent,
        !(r is Diverged),
{
}

/// If the producers return different AST text, the comparison is `Diverged`,
/// and the alignment it carries reconstructs both texts: its equal and
/// deleted fragments spell the previous text exactly, its equal and inserted
/// fragments the current text.
pub proof fn lemma_diverged_reconstructs_both(
    current: Result<String, ProducerError>,
    previous: Result<String, ProducerError>,
    r: Outcome,
)
    requires
        compare_post(current, previous, r),
        produced_text(current) is Some,
        produced_text(previous) is Some,
        produced_text(current) != produced_text(previous),
    ensures
        r is Diverged,
        match (current, previous, r) {
            (Ok(cur), Ok(prev), Outcome::Diverged(segments)) => previous_text(segments@) == prev@
                && current_text(segments@) == cur@,
            _ => false,
        },
{
}

/// When the reference executable could not be located, the comparison never
/// reports a verdict on the ASTs: the outcome is a failure, and when the
/// current producer itself succeeded, a failure classified as the tool not
/// being found.
pub proof fn lemma_tool_not_found_never_compares(
    current: Result<String, ProducerError>,
    previous: Result<String, ProducerError>,
    r: Outcome,
)
    requires
        compare_post(current, previous, r),
        match previous {
            Err(e) => e is ToolNotFound,
            Ok(_) => false,
        },
    ensures
        r is Failed,
        !(r is Diverged),
        !(r is Equivalent),
        current is Ok ==> match r {
            Outcome::Failed(CompareError::Producer(e)) => e is ToolNotFound,
            _ => false,
        },
{
}

} // verus!
