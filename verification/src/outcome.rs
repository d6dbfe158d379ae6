//! Failure classification and the outcome of one comparison cycle.

use vstd::prelude::*;
use crate::diff::DiffSegment;

verus! {

/// Why a producer failed to deliver AST text.
#[derive(Debug, PartialEq, Eq)]
pub enum ProducerError {
    /// The in-process library rejected the input (parse or type-check
    /// failure); the message is the library's own diagnostic.
    Rejected(String),
    /// The reference executable ran but exited with a nonzero status; the
    /// message is its captured standard error.
    ProcessFailed(String),
    /// The reference executable's standard output could not be decoded as
    /// UTF-8 text.
    Malformed,
    /// The reference executable could not be located by any strategy; the
    /// payload names the binary that was looked for.
    ToolNotFound(String),
}

/// Why a comparison failed without a verdict on the ASTs.
#[derive(Debug, PartialEq, Eq)]
pub enum CompareError {
    /// A configuration error: the requested mode pairing is invalid, detected
    /// before any producer call.
    InvalidMode,
    /// One of the two producers failed; the comparison short-circuits with
    /// that failure rather than a "differ" verdict.
    Producer(ProducerError),
}

/// The verdict of one comparison cycle.
#[derive(Debug, PartialEq, Eq)]
pub enum Outcome {
    /// Both producers delivered character-for-character identical AST text.
    Equivalent,
    /// Both producers delivered AST text, and the texts differ; the payload
    /// is the computed alignment between the previous and the current text.
    Diverged(Vec<DiffSegment>),
    /// The comparison could not be carried out.
    Failed(CompareError),
}

/// The diagnostic text carried by a producer error, if any.
pub open spec fn error_text(e: ProducerError) -> Seq<char> {
    match e {
        ProducerError::Rejected(m) => m@,
        ProducerError::ProcessFailed(m) => m@,
        ProducerError::Malformed => Seq::empty(),
        ProducerError::ToolNotFound(m) => m@,
    }
}

/// Two producer errors are equivalent when they classify the failure the same
/// way and carry the same diagnostic text.
pub open spec fn error_equivalent(a: ProducerError, b: ProducerError) -> bool {
    &&& (a is Rejected <==> b is Rejected)
    &&& (a is ProcessFailed <==> b is ProcessFailed)
    &&& (a is Malformed <==> b is Malformed)
    &&& (a is ToolNotFound <==> b is ToolNotFound)
    &&& error_text(a) == error_text(b)
}

/// Two comparison failures are equivalent when they carry equivalent errors.
pub open spec fn failure_equivalent(a: CompareError, b: CompareError) -> bool {
    match (a, b) {
        (CompareError::InvalidMode, CompareError::InvalidMode) => true,
        (CompareError::Producer(x), CompareError::Producer(y)) => error_equivalent(x, y),
        _ => false,
    }
}

/// Two outcomes are equivalent when they agree on the verdict, on the
/// rendered alignment, and on the failure diagnostic.
pub open spec fn outcome_equivalent(a: Outcome, b: Outcome) -> bool {
    match (a, b) {
        (Outcome::Equivalent, Outcome::Equivalent) => true,
        (Outcome::Diverged(x), Outcome::Diverged(y)) => x@ == y@,
        (Outcome::Failed(x), Outcome::Failed(y)) => failure_equivalent(x, y),
        _ => false,
    }
}

} // verus!
