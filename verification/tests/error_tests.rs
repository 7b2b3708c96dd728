use kb::error::{CrossLanguageInconsistencyError, KbError};

#[test]
fn test_validation_error_message_format() {
    let e = KbError::validation("docs/topic.yaml", 1, "bad value".to_string(), "fix it");
    assert_eq!(
        e.message(),
        "Schema validation failed in 'docs/topic.yaml':\n  Line 1: bad value\n\n  Suggestion: fix it"
    );
}

#[test]
fn test_missing_field_message_format() {
    let e = KbError::missing_field("title", "a.yaml", 1, "add a title");
    assert_eq!(
        e.message(),
        "Missing required field 'title' in schema 'a.yaml' at line 1\n\n  Suggestion: add a title"
    );
}

#[test]
fn test_invalid_code_ref_message_format() {
    let e = KbError::invalid_code_ref("bad::path", "a.yaml", 12, "good::path");
    let msg = e.message();
    assert!(msg.contains("Invalid code reference 'bad::path' in 'a.yaml' at line 12"));
    assert!(msg.contains("Did you mean 'good::path'?"));
}

#[test]
fn test_code_syntax_error_message_format() {
    let e = KbError::CodeSyntaxError {
        language: "Rust".to_string(),
        file: "a.yaml".to_string(),
        line: 1,
        error: "Unclosed delimiter: '{'".to_string(),
        code: "let x = {".to_string(),
    };
    let msg = e.message();
    assert!(msg.starts_with("Syntax error in Rust code example in 'a.yaml' at line 1:"));
    assert!(msg.contains("Unclosed delimiter: '{'"));
    assert!(msg.ends_with("Code:\nlet x = {"));
}

#[test]
fn test_output_validation_error_message_format() {
    let e = KbError::OutputValidationError {
        generator: "mdbook".to_string(),
        message: "Output is empty".to_string(),
    };
    assert_eq!(
        e.message(),
        "Output validation failed for mdbook generator:\n  Output is empty"
    );
}

#[test]
fn test_cross_language_message_format() {
    let e = CrossLanguageInconsistencyError {
        file: "a.yaml".to_string(),
        example: "Power Rule".to_string(),
        message: "outputs differ".to_string(),
        rust_output: "2".to_string(),
        python_output: "3".to_string(),
        js_output: "4".to_string(),
    };
    let msg = e.message();
    assert!(msg.starts_with("Cross-language consistency error in 'a.yaml' example 'Power Rule':"));
    assert!(msg.contains("Rust output: 2"));
    assert!(msg.contains("JavaScript output: 4"));
}

#[test]
fn test_invalid_output_message_format() {
    let e = KbError::InvalidOutput {
        format: "notebook".to_string(),
        file: "out.ipynb".to_string(),
        error: "truncated".to_string(),
    };
    assert_eq!(
        e.message(),
        "Generated notebook output is invalid:\n  truncated\n\n  Output file: out.ipynb"
    );
}
