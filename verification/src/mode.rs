//! Specification modes and their mapping to the reference executable's
//! command-line flags.

use vstd::prelude::*;
use vstd::string::StringExecFns;
use crate::outcome::CompareError;
use crate::outcome::Outcome;

verus! {

/// The kind of input handed to the producers, and how it is to be parsed.
#[derive(Clone, Copy, Debug, PartialEq, Eq, Structural)]
pub enum SpecificationMode {
    /// An mCRL2 process specification.
    StandardSpecification,
    /// A modal formula (MCF).
    ModalFormula,
    /// A quantitative modal formula; valid only for modal-formula input.
    QuantitativeModalFormula,
}

/// The first phase of a comparison: either the requested mode pairing is
/// refused before any producer runs, or a validated mode to run both
/// producers under.
#[derive(Debug, PartialEq, Eq)]
pub enum ComparePlan {
    /// The request is invalid; this outcome is final and no producer runs.
    Refused(Outcome),
    /// The request is valid; both producers are to be run under this mode.
    Run(SpecificationMode),
}

/// What a comparison request begins with: the validated mode for a legal
/// pairing of flags, and a configuration failure for the one illegal pairing
/// (quantitative without modal-formula input).
pub open spec fn spec_compare_begin(modal_formula: bool, quantitative: bool) -> ComparePlan {
    if quantitative && !modal_formula {
        ComparePlan::Refused(Outcome::Failed(CompareError::InvalidMode))
    } else if modal_formula && quantitative {
        ComparePlan::Run(SpecificationMode::QuantitativeModalFormula)
    } else if modal_formula {
        ComparePlan::Run(SpecificationMode::ModalFormula)
    } else {
        ComparePlan::Run(SpecificationMode::StandardSpecification)
    }
}

/// Validates the requested mode pairing before any producer is invoked.
/// A quantitative request is valid only for modal-formula input; pairing it
/// with a standard specification is a configuration error, decided here so
/// that the invalid combination is unrepresentable past this point.
pub fn compare_begin(modal_formula: bool, quantitative: bool) -> (r: ComparePlan)
    ensures
        r == spec_compare_begin(modal_formula, quantitative),
{
    if quantitative && !modal_formula {
        ComparePlan::Refused(Outcome::Failed(CompareError::InvalidMode))
    } else if modal_formula && quantitative {
        ComparePlan::Run(SpecificationMode::QuantitativeModalFormula)
    } else if modal_formula {
        ComparePlan::Run(SpecificationMode::ModalFormula)
    } else {
        ComparePlan::Run(SpecificationMode::StandardSpecification)
    }
}

/// Requesting a quantitative modal formula together with a standard
/// specification always yields a configuration error, whatever the input
/// text: validation consults the flags alone. Every other pairing is
/// accepted.
pub proof fn lemma_quantitative_with_standard_is_config_error(modal_formula: bool, quantitative: bool)
    ensures
        spec_compare_begin(false, true) == ComparePlan::Refused(
            Outcome::Failed(CompareError::InvalidMode),
        ),
        spec_compare_begin(modal_formula, quantitative) is Refused <==> (!modal_formula
            && quantitative),
{
}

/// The flag view of each mode: no flags for a standard specification,
/// `--mcf` for a modal formula, and additionally `--quantitative` for a
/// quantitative modal formula.
pub open spec fn spec_mode_arguments(mode: SpecificationMode) -> Seq<Seq<char>> {
    match mode {
        SpecificationMode::StandardSpecification => seq![],
        SpecificationMode::ModalFormula => seq!["--mcf"@],
        SpecificationMode::QuantitativeModalFormula => seq!["--mcf"@, "--quantitative"@],
    }
}

/// Builds the argument list under which the reference executable parses the
/// input in the given mode.
pub fn mode_arguments(mode: SpecificationMode) -> (r: Vec<String>)
    ensures
        r.deep_view() == spec_mode_arguments(mode),
{
    let mut args: Vec<String> = Vec::new();
    match mode {
        SpecificationMode::StandardSpecification => {},
        SpecificationMode::ModalFormula => {
            args.push(String::from_str("--mcf"));
        },
        SpecificationMode::QuantitativeModalFormula => {
            args.push(String::from_str("--mcf"));
            args.push(String::from_str("--quantitative"));
        },
    }
    proof {
        assert(args.deep_view() =~= spec_mode_arguments(mode));
    }
    args
}

} // verus!
