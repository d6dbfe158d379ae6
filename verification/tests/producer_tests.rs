//! Tests for mode validation, producer-result classification, and the
//! locator's decision logic.

use parse_checker::locator::{expected_tool_name, fallback_candidate, locate_tool};
use parse_checker::mode::{compare_begin, mode_arguments, ComparePlan, SpecificationMode};
use parse_checker::outcome::{CompareError, Outcome, ProducerError};
use parse_checker::producer::{
    interpret_process_output, print, print_ast_mcf, print_ast_mcrl2, AstSource,
};

#[test]
fn quantitative_with_standard_is_a_configuration_error() {
    // Regardless of input text (none is consulted), the pairing alone decides.
    assert_eq!(
        compare_begin(false, true),
        ComparePlan::Refused(Outcome::Failed(CompareError::InvalidMode))
    );
}

#[test]
fn valid_mode_pairings_run() {
    assert_eq!(
        compare_begin(false, false),
        ComparePlan::Run(SpecificationMode::StandardSpecification)
    );
    assert_eq!(compare_begin(true, false), ComparePlan::Run(SpecificationMode::ModalFormula));
    assert_eq!(
        compare_begin(true, true),
        ComparePlan::Run(SpecificationMode::QuantitativeModalFormula)
    );
}

#[test]
fn mode_flags_for_the_reference_executable() {
    assert_eq!(mode_arguments(SpecificationMode::StandardSpecification), Vec::<String>::new());
    assert_eq!(mode_arguments(SpecificationMode::ModalFormula), vec!["--mcf".to_string()]);
    assert_eq!(
        mode_arguments(SpecificationMode::QuantitativeModalFormula),
        vec!["--mcf".to_string(), "--quantitative".to_string()]
    );
}

#[test]
fn library_outcome_translation() {
    assert_eq!(print_ast_mcrl2(Ok("Spec(...)".to_string())), Ok("Spec(...)".to_string()));
    assert_eq!(
        print_ast_mcrl2(Err("type error at line 3".to_string())),
        Err(ProducerError::Rejected("type error at line 3".to_string()))
    );
    assert_eq!(print_ast_mcf(Ok("Formula(...)".to_string())), Ok("Formula(...)".to_string()));
    assert_eq!(
        print_ast_mcf(Err("unbound variable".to_string())),
        Err(ProducerError::Rejected("unbound variable".to_string()))
    );
}

#[test]
fn process_output_classification() {
    assert_eq!(
        interpret_process_output(true, Some("Spec(...)".to_string()), String::new()),
        Ok("Spec(...)".to_string())
    );
    assert_eq!(
        interpret_process_output(false, Some("partial".to_string()), "parse error".to_string()),
        Err(ProducerError::ProcessFailed("parse error".to_string()))
    );
    assert_eq!(
        interpret_process_output(true, None, String::new()),
        Err(ProducerError::Malformed)
    );
}

#[test]
fn print_request_dispatch() {
    assert_eq!(
        print(true, false),
        (AstSource::CurrentLibrary, SpecificationMode::StandardSpecification)
    );
    assert_eq!(print(true, true), (AstSource::CurrentLibrary, SpecificationMode::ModalFormula));
    assert_eq!(
        print(false, false),
        (AstSource::PreviousRelease, SpecificationMode::StandardSpecification)
    );
    assert_eq!(print(false, true), (AstSource::PreviousRelease, SpecificationMode::ModalFormula));
}

#[test]
fn tool_name_is_platform_appropriate() {
    assert_eq!(expected_tool_name(false), "mcrl2-2024");
    assert_eq!(expected_tool_name(true), "mcrl2-2024.exe");
}

#[test]
fn fallback_strips_the_deps_directory() {
    let exe = vec![
        "target".to_string(),
        "debug".to_string(),
        "deps".to_string(),
        "parse-checker".to_string(),
    ];
    assert_eq!(
        fallback_candidate(&exe, false),
        vec!["target".to_string(), "debug".to_string(), "mcrl2-2024".to_string()]
    );
}

#[test]
fn fallback_keeps_an_ordinary_directory() {
    let exe = vec!["opt".to_string(), "tools".to_string(), "parse-checker".to_string()];
    assert_eq!(
        fallback_candidate(&exe, true),
        vec!["opt".to_string(), "tools".to_string(), "mcrl2-2024.exe".to_string()]
    );
}

#[test]
fn locator_prefers_the_search_path() {
    assert_eq!(
        locate_tool(Some("/usr/bin/mcrl2-2024".to_string()), Some("/opt/mcrl2-2024".to_string()), false),
        Ok("/usr/bin/mcrl2-2024".to_string())
    );
    assert_eq!(
        locate_tool(None, Some("/opt/mcrl2-2024".to_string()), false),
        Ok("/opt/mcrl2-2024".to_string())
    );
}

#[test]
fn locator_failure_names_the_binary() {
    assert_eq!(
        locate_tool(None, None, false),
        Err(ProducerError::ToolNotFound("mcrl2-2024".to_string()))
    );
    assert_eq!(
        locate_tool(None, None, true),
        Err(ProducerError::ToolNotFound("mcrl2-2024.exe".to_string()))
    );
}
