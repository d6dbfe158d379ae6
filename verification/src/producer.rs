//! The two AST producers' verifiable halves.
//!
//! The current producer is an in-process library binding; the previous
//! producer is an external executable run as a child process. Both calls
//! cross boundaries this library does not verify, so the callers obtain the
//! raw outcome — the binding's result, or the child's exit status and
//! captured streams — and hand it to these functions, which classify it.

use vstd::prelude::*;
use crate::mode::SpecificationMode;
use crate::outcome::ProducerError;

verus! {

/// Which producer is to render the tree for a print request.
#[derive(Clone, Copy, Debug, PartialEq, Eq, Structural)]
pub enum AstSource {
    /// The current in-process library binding.
    CurrentLibrary,
    /// The previously released external executable.
    PreviousRelease,
}

/// How a library outcome is classified: success passes the AST text through
/// unchanged, and a library diagnostic becomes a rejection with that message.
pub open spec fn spec_translate_library_outcome(outcome: Result<String, String>) -> Result<
    String,
    ProducerError,
> {
    match outcome {
        Ok(ast) => Ok(ast),
        Err(message) => Err(ProducerError::Rejected(message)),
    }
}

/// Classifies the current producer's outcome for an mCRL2 specification: the
/// in-process binding either delivers the printed AST or reports why it
/// rejected the input.
pub fn print_ast_mcrl2(outcome: Result<String, String>) -> (r: Result<String, ProducerError>)
    ensures
        r == spec_translate_library_outcome(outcome),
{
    match outcome {
        Ok(ast) => Ok(ast),
        Err(message) => Err(ProducerError::Rejected(message)),
    }
}

/// Classifies the current producer's outcome for a modal formula (MCF): the
/// in-process binding either delivers the printed AST or reports why it
/// rejected the input.
pub fn print_ast_mcf(outcome: Result<String, String>) -> (r: Result<String, ProducerError>)
    ensures
        r == spec_translate_library_outcome(outcome),
{
    match outcome {
        Ok(ast) => Ok(ast),
        Err(message) => Err(ProducerError::Rejected(message)),
    }
}

/// How a finished child process is interpreted: a nonzero exit turns the
/// captured standard error into the failure message, an undecodable standard
/// output is malformed, and otherwise the decoded standard output is the AST
/// text.
pub open spec fn spec_interpret_process_output(
    exit_success: bool,
    stdout_text: Option<String>,
    stderr_text: String,
) -> Result<String, ProducerError> {
    if !exit_success {
        Err(ProducerError::ProcessFailed(stderr_text))
    } else {
        match stdout_text {
            Some(ast) => Ok(ast),
            None => Err(ProducerError::Malformed),
        }
    }
}

/// Classifies what the reference executable produced: its exit status, its
/// standard output decoded as UTF-8 text (`None` when decoding failed), and
/// its captured standard error.
pub fn interpret_process_output(
    exit_success: bool,
    stdout_text: Option<String>,
    stderr_text: String,
) -> (r: Result<String, ProducerError>)
    ensures
        r == spec_interpret_process_output(exit_success, stdout_text, stderr_text),
{
    if !exit_success {
        Err(ProducerError::ProcessFailed(stderr_text))
    } else {
        match stdout_text {
            Some(ast) => Ok(ast),
            None => Err(ProducerError::Malformed),
        }
    }
}

/// Decides which producer serves a print request and in which mode: the
/// current in-process binding when the current tree is asked for, the
/// previous release's executable otherwise; modal-formula input selects the
/// modal-formula mode.
pub fn print(print_current: bool, mcf: bool) -> (r: (AstSource, SpecificationMode))
    ensures
        r.0 == if print_current {
            AstSource::CurrentLibrary
        } else {
            AstSource::PreviousRelease
        },
        r.1 == if mcf {
            SpecificationMode::ModalFormula
        } else {
            SpecificationMode::StandardSpecification
        },
{
    let source = if print_current {
        AstSource::CurrentLibrary
    } else {
        AstSource::PreviousRelease
    };
    let mode = if mcf {
        SpecificationMode::ModalFormula
    } else {
        SpecificationMode::StandardSpecification
    };
    (source, mode)
}

} // verus!
