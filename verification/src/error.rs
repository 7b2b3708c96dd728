//! The error taxonomy of the pipeline. Every validation failure carries the
//! source file, a best-effort line number, a human-readable message, and a
//! suggested fix; `message` renders the full report deterministically.

use vstd::prelude::*;
use crate::text::dec_str;

verus! {

/// Cross-language consistency error.
#[derive(Debug, Clone, PartialEq)]
pub struct CrossLanguageInconsistencyError {
    pub file: String,
    pub example: String,
    pub message: String,
    pub rust_output: String,
    pub python_output: String,
    pub js_output: String,
}

/// The rendered report of a cross-language consistency error.
pub open spec fn cross_language_message(e: CrossLanguageInconsistencyError) -> Seq<char> {
    "Cross-language consistency error in '"@ + e.file@ + "' example '"@ + e.example@ + "':\n  "@
        + e.message@ + "\n\n  Rust output: "@ + e.rust_output@ + "\n  Python output: "@
        + e.python_output@ + "\n  JavaScript output: "@ + e.js_output@
}

impl CrossLanguageInconsistencyError {
    /// Renders the full error report as one string.
    pub fn message(&self) -> (r: String)
        ensures
            r@ == cross_language_message(*self),
    {
        let mut out = String::new();
        out.append("Cross-language consistency error in '");
        out.append(self.file.as_str());
        out.append("' example '");
        out.append(self.example.as_str());
        out.append("':\n  ");
        out.append(self.message.as_str());
        out.append("\n\n  Rust output: ");
        out.append(self.rust_output.as_str());
        out.append("\n  Python output: ");
        out.append(self.python_output.as_str());
        out.append("\n  JavaScript output: ");
        out.append(self.js_output.as_str());
        proof {
            assert(out@ =~= cross_language_message(*self));
        }
        out
    }
}

/// Errors that can occur in the knowledge-base engine.
#[derive(Debug, Clone, PartialEq)]
pub enum KbError {
    /// A schema failed a validation rule.
    ValidationError { file: String, line: usize, message: String, suggestion: String },
    /// A required schema field is missing or empty.
    MissingField { field: String, file: String, line: usize, suggestion: String },
    /// A code reference does not resolve.
    InvalidCodeRef { reference: String, file: String, line: usize, suggestion: String },
    /// A code example fails the balanced-delimiter syntax check.
    CodeSyntaxError { language: String, file: String, line: usize, error: String, code: String },
    /// Example outputs disagree across languages.
    CrossLanguageInconsistency(Box<CrossLanguageInconsistencyError>),
    /// A generated artifact is invalid for its format.
    InvalidOutput { format: String, file: String, error: String },
    /// A generator's own structural check rejected its output.
    OutputValidationError { generator: String, message: String },
    /// Any other failure.
    Other(String),
}

/// The rendered report of an error, variant by variant.
pub open spec fn error_message(e: KbError) -> Seq<char> {
    match e {
        KbError::ValidationError { file, line, message, suggestion } => {
            "Schema validation failed in '"@ + file@ + "':\n  Line "@ + dec_str(line as nat)
                + ": "@ + message@ + "\n\n  Suggestion: "@ + suggestion@
        },
        KbError::MissingField { field, file, line, suggestion } => {
            "Missing required field '"@ + field@ + "' in schema '"@ + file@ + "' at line "@
                + dec_str(line as nat) + "\n\n  Suggestion: "@ + suggestion@
        },
        KbError::InvalidCodeRef { reference, file, line, suggestion } => {
            "Invalid code reference '"@ + reference@ + "' in '"@ + file@ + "' at line "@ + dec_str(
                line as nat,
            ) + "\n\n  Function not found in mathhook codebase.\n  Did you mean '"@ + suggestion@
                + "'?"@
        },
        KbError::CodeSyntaxError { language, file, line, error, code } => {
            "Syntax error in "@ + language@ + " code example in '"@ + file@ + "' at line "@
                + dec_str(line as nat) + ":\n  "@ + error@ + "\n\n  Code:\n"@ + code@
        },
        KbError::CrossLanguageInconsistency(b) => cross_language_message(*b),
        KbError::InvalidOutput { format, file, error } => {
            "Generated "@ + format@ + " output is invalid:\n  "@ + error@ + "\n\n  Output file: "@
                + file@
        },
        KbError::OutputValidationError { generator, message } => {
            "Output validation failed for "@ + generator@ + " generator:\n  "@ + message@
        },
        KbError::Other(s) => s@,
    }
}

impl KbError {
    /// Renders the full error report as one string, as a display
    /// implementation would.
    pub fn message(&self) -> (r: String)
        ensures
            r@ == error_message(*self),
    {
        match self {
            KbError::ValidationError { file, line, message, suggestion } => {
                let mut out = String::new();
                out.append("Schema validation failed in '");
                out.append(file.as_str());
                out.append("':\n  Line ");
                crate::text::append_u64(&mut out, *line as u64);
                out.append(": ");
                out.append(message.as_str());
                out.append("\n\n  Suggestion: ");
                out.append(suggestion.as_str());
                proof {
                    assert(out@ =~= error_message(*self));
                }
                out
            },
            KbError::MissingField { field, file, line, suggestion } => {
                let mut out = String::new();
                out.append("Missing required field '");
                out.append(field.as_str());
                out.append("' in schema '");
                out.append(file.as_str());
                out.append("' at line ");
                crate::text::append_u64(&mut out, *line as u64);
                out.append("\n\n  Suggestion: ");
                out.append(suggestion.as_str());
                proof {
                    assert(out@ =~= error_message(*self));
                }
                out
            },
            KbError::InvalidCodeRef { reference, file, line, suggestion } => {
                let mut out = String::new();
                out.append("Invalid code reference '");
                out.append(reference.as_str());
                out.append("' in '");
                out.append(file.as_str());
                out.append("' at line ");
                crate::text::append_u64(&mut out, *line as u64);
                out.append("\n\n  Function not found in mathhook codebase.\n  Did you mean '");
                out.append(suggestion.as_str());
                out.append("'?");
                proof {
                    assert(out@ =~= error_message(*self));
                }
                out
            },
            KbError::CodeSyntaxError { language, file, line, error, code } => {
                let mut out = String::new();
                out.append("Syntax error in ");
                out.append(language.as_str());
                out.append(" code example in '");
                out.append(file.as_str());
                out.append("' at line ");
                crate::text::append_u64(&mut out, *line as u64);
                out.append(":\n  ");
                out.append(error.as_str());
                out.append("\n\n  Code:\n");
                out.append(code.as_str());
                proof {
                    assert(out@ =~= error_message(*self));
                }
                out
            },
            KbError::CrossLanguageInconsistency(b) => b.message(),
            KbError::InvalidOutput { format, file, error } => {
                let mut out = String::new();
                out.append("Generated ");
                out.append(format.as_str());
                out.append(" output is invalid:\n  ");
                out.append(error.as_str());
                out.append("\n\n  Output file: ");
                out.append(file.as_str());
                proof {
                    assert(out@ =~= error_message(*self));
                }
                out
            },
            KbError::OutputValidationError { generator, message } => {
                let mut out = String::new();
                out.append("Output validation failed for ");
                out.append(generator.as_str());
                out.append(" generator:\n  ");
                out.append(message.as_str());
                proof {
                    assert(out@ =~= error_message(*self));
                }
                out
            },
            KbError::Other(s) => s.clone(),
        }
    }

    /// Builds a validation error with the given context.
    pub fn validation(file: &str, line: usize, message: String, suggestion: &str) -> (r: KbError)
        ensures
            r matches KbError::ValidationError { file: f, line: l, message: m, suggestion: s }
                && f@ == file@ && l == line && m@ == message@ && s@ == suggestion@,
    {
        KbError::ValidationError {
            file: file.to_owned(),
            line,
            message,
            suggestion: suggestion.to_owned(),
        }
    }

    /// Builds a missing-field error.
    pub fn missing_field(field: &str, file: &str, line: usize, suggestion: &str) -> (r: KbError)
        ensures
            r matches KbError::MissingField { field: fd, file: f, line: l, suggestion: s }
                && fd@ == field@ && f@ == file@ && l == line && s@ == suggestion@,
    {
        KbError::MissingField {
            field: field.to_owned(),
            file: file.to_owned(),
            line,
            suggestion: suggestion.to_owned(),
        }
    }

    /// Builds an invalid code reference error.
    pub fn invalid_code_ref(reference: &str, file: &str, line: usize, suggestion: &str) -> (r:
        KbError)
        ensures
            r matches KbError::InvalidCodeRef { reference: rf, file: f, line: l, suggestion: s }
                && rf@ == reference@ && f@ == file@ && l == line && s@ == suggestion@,
    {
        KbError::InvalidCodeRef {
            reference: reference.to_owned(),
            file: file.to_owned(),
            line,
            suggestion: suggestion.to_owned(),
        }
    }
}

} // verus!
