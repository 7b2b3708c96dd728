//! Schema validation: required fields, the dotted-identifier topic grammar,
//! per-example code checks with a balanced-delimiter scan, and output-hint
//! checks. Validation is fail-fast: the first failure wins.

use vstd::prelude::*;
use crate::error::KbError;
use crate::schema::{Example, OutputHints, Schema};
use crate::text::dec_str;

verus! {

/// A character that Unicode (and `str::trim`) treats as whitespace.
pub open spec fn is_ws(c: char) -> bool {
    let u = c as u32;
    u == 0x09 || u == 0x0A || u == 0x0B || u == 0x0C || u == 0x0D || u == 0x20 || u == 0x85
        || u == 0xA0 || u == 0x1680 || (0x2000 <= u && u <= 0x200A) || u == 0x2028 || u == 0x2029
        || u == 0x202F || u == 0x205F || u == 0x3000
}

/// Every character of `s` is whitespace: `s` trims to the empty string.
pub open spec fn spec_blank(s: Seq<char>) -> bool {
    forall|k: int| 0 <= k < s.len() ==> is_ws(#[trigger] s[k])
}

/// Whether `s` holds no non-whitespace character.
pub fn is_blank(s: &str) -> (r: bool)
    ensures
        r == spec_blank(s@),
{
    let n = s.unicode_len();
    let mut i: usize = 0;
    while i < n
        invariant
            n == s@.len(),
            i <= n,
            forall|k: int| 0 <= k < i ==> is_ws(#[trigger] s@[k]),
        decreases n - i,
    {
        let c = s.get_char(i);
        let u = c as u32;
        let ws = u == 0x09 || u == 0x0A || u == 0x0B || u == 0x0C || u == 0x0D || u == 0x20
            || u == 0x85 || u == 0xA0 || u == 0x1680 || (0x2000 <= u && u <= 0x200A) || u == 0x2028
            || u == 0x2029 || u == 0x202F || u == 0x205F || u == 0x3000;
        if !ws {
            proof {
                assert(!is_ws(s@[i as int]));
            }
            return false;
        }
        i = i + 1;
    }
    true
}

/// A character that may open a topic segment: a lowercase letter or `_`.
pub open spec fn is_seg_start(c: char) -> bool {
    ('a' <= c && c <= 'z') || c == '_'
}

/// A character that may continue a topic segment.
pub open spec fn is_seg_char(c: char) -> bool {
    ('a' <= c && c <= 'z') || ('0' <= c && c <= '9') || c == '_' || c == '-'
}

/// The dotted-identifier topic grammar: `segment(.segment)*` where a segment
/// starts with a lowercase letter or underscore and continues with lowercase
/// letters, digits, underscores and hyphens.
pub open spec fn valid_topic(s: Seq<char>) -> bool {
    &&& s.len() > 0
    &&& is_seg_start(s[0])
    &&& forall|k: int| 0 <= k < s.len() ==> is_seg_char(#[trigger] s[k]) || s[k] == '.'
    &&& forall|k: int|
        0 <= k < s.len() && #[trigger] s[k] == '.' ==> k + 1 < s.len() && is_seg_start(s[k + 1])
}

/// Whether `s` matches the dotted-identifier topic grammar.
pub fn topic_matches(s: &str) -> (r: bool)
    ensures
        r == valid_topic(s@),
{
    let n = s.unicode_len();
    if n == 0 {
        return false;
    }
    let c0 = s.get_char(0);
    if !(('a' <= c0 && c0 <= 'z') || c0 == '_') {
        return false;
    }
    let mut i: usize = 0;
    while i < n
        invariant
            n == s@.len(),
            i <= n,
            is_seg_start(s@[0]),
            forall|k: int| 0 <= k < i ==> is_seg_char(#[trigger] s@[k]) || s@[k] == '.',
            forall|k: int|
                0 <= k < i && #[trigger] s@[k] == '.' ==> k + 1 < s@.len() && is_seg_start(
                    s@[k + 1],
                ),
        decreases n - i,
    {
        let c = s.get_char(i);
        let seg = ('a' <= c && c <= 'z') || ('0' <= c && c <= '9') || c == '_' || c == '-';
        if c == '.' {
            if i + 1 >= n {
                return false;
            }
            let cn = s.get_char(i + 1);
            if !(('a' <= cn && cn <= 'z') || cn == '_') {
                return false;
            }
        } else if !seg {
            return false;
        }
        i = i + 1;
    }
    true
}

/// The result of the balanced-delimiter scan over one code snippet.
#[derive(Debug, Clone, Copy, PartialEq, Eq, Structural)]
pub enum DelimOutcome {
    /// Every delimiter closed in order.
    Balanced,
    /// A closing delimiter with no matching opener; carries the closer.
    UnmatchedClose(char),
    /// An opener left unclosed at the end; carries that opener.
    Unclosed(char),
}

/// The stack scan over `s` from position `i` with open delimiters `st`:
/// push on open, pop-and-compare on close, fail on mismatch or leftovers.
pub open spec fn delim_scan(s: Seq<char>, i: int, st: Seq<char>) -> DelimOutcome
    decreases s.len() - i,
{
    if i < 0 || i >= s.len() {
        if st.len() == 0 {
            DelimOutcome::Balanced
        } else {
            DelimOutcome::Unclosed(st.last())
        }
    } else {
        let c = s[i];
        if c == '(' || c == '[' || c == '{' {
            delim_scan(s, i + 1, st.push(c))
        } else if c == ')' {
            if st.len() > 0 && st.last() == '(' {
                delim_scan(s, i + 1, st.drop_last())
            } else {
                DelimOutcome::UnmatchedClose(')')
            }
        } else if c == ']' {
            if st.len() > 0 && st.last() == '[' {
                delim_scan(s, i + 1, st.drop_last())
            } else {
                DelimOutcome::UnmatchedClose(']')
            }
        } else if c == '}' {
            if st.len() > 0 && st.last() == '{' {
                delim_scan(s, i + 1, st.drop_last())
            } else {
                DelimOutcome::UnmatchedClose('}')
            }
        } else {
            delim_scan(s, i + 1, st)
        }
    }
}

/// The scan outcome for the whole of `code`.
pub open spec fn delim_check(code: Seq<char>) -> DelimOutcome {
    delim_scan(code, 0, Seq::empty())
}

/// Runs the balanced-delimiter scan over `code`.
pub fn check_delimiters(code: &str) -> (r: DelimOutcome)
    ensures
        r == delim_check(code@),
{
    let n = code.unicode_len();
    let mut st: Vec<char> = Vec::new();
    let mut i: usize = 0;
    while i < n
        invariant
            n == code@.len(),
            i <= n,
            delim_check(code@) == delim_scan(code@, i as int, st@),
        decreases n - i,
    {
        let c = code.get_char(i);
        if c == '(' || c == '[' || c == '{' {
            st.push(c);
        } else if c == ')' {
            if st.len() > 0 && st[st.len() - 1] == '(' {
                st.pop();
            } else {
                return DelimOutcome::UnmatchedClose(')');
            }
        } else if c == ']' {
            if st.len() > 0 && st[st.len() - 1] == '[' {
                st.pop();
            } else {
                return DelimOutcome::UnmatchedClose(']');
            }
        } else if c == '}' {
            if st.len() > 0 && st[st.len() - 1] == '{' {
                st.pop();
            } else {
                return DelimOutcome::UnmatchedClose('}');
            }
        }
        i = i + 1;
    }
    if st.len() == 0 {
        DelimOutcome::Balanced
    } else {
        DelimOutcome::Unclosed(st[st.len() - 1])
    }
}

/// The error message for a failed delimiter scan.
pub open spec fn delim_error_message(o: DelimOutcome) -> Seq<char> {
    match o {
        DelimOutcome::Balanced => Seq::empty(),
        DelimOutcome::UnmatchedClose(c) => {
            if c == ')' {
                "Unmatched closing parenthesis"@
            } else if c == ']' {
                "Unmatched closing bracket"@
            } else {
                "Unmatched closing brace"@
            }
        },
        DelimOutcome::Unclosed(c) => "Unclosed delimiter: '"@ + seq![c] + "'"@,
    }
}

/// The outcome of one validation rule, before it is wrapped in an error
/// carrying the file path and line number.
pub enum ValidationOutcome {
    /// The rule passed.
    Pass,
    /// A required field is missing or empty.
    FieldMissing { field: Seq<char>, suggestion: Seq<char> },
    /// A value is present but malformed.
    Invalid { message: Seq<char>, suggestion: Seq<char> },
    /// A code example failed the syntax scan.
    Syntax { language: Seq<char>, error: Seq<char>, code: Seq<char> },
}

/// The required-fields rule: topic present and well-formed, title and
/// description non-empty.
pub open spec fn required_outcome(s: Schema) -> ValidationOutcome {
    if s.topic@.len() == 0 {
        ValidationOutcome::FieldMissing {
            field: "topic"@,
            suggestion: "Add a topic identifier: topic: \"calculus.derivative\""@,
        }
    } else if !valid_topic(s.topic@) {
        ValidationOutcome::Invalid {
            message: "Topic '"@ + s.topic@
                + "' must follow dotted notation (lowercase, alphanumeric, underscores, hyphens)"@,
            suggestion:
                "Example: topic: \"calculus.derivative\" or topic: \"algebra.polynomial.factoring\""@,
        }
    } else if s.title@.len() == 0 {
        ValidationOutcome::FieldMissing {
            field: "title"@,
            suggestion: "Add a human-readable title: title: \"Symbolic Differentiation\""@,
        }
    } else if s.description@.len() == 0 {
        ValidationOutcome::FieldMissing {
            field: "description"@,
            suggestion: "Add a detailed description explaining what this function/concept does"@,
        }
    } else {
        ValidationOutcome::Pass
    }
}

/// The code-references rule: when present, the primary (Rust) reference must
/// be non-empty; secondary languages are deliberately lenient.
pub open spec fn code_refs_outcome(s: Schema) -> ValidationOutcome {
    match s.code_refs {
        None => ValidationOutcome::Pass,
        Some(cr) => if cr.rust@.len() == 0 {
            ValidationOutcome::Invalid {
                message: "Rust code reference is empty"@,
                suggestion: "Example: mathhook_core::calculus::derivative"@,
            }
        } else {
            ValidationOutcome::Pass
        },
    }
}

/// The per-example rule: non-empty title, code in at least one language, and
/// a balanced-delimiter scan over every non-blank snippet.
pub open spec fn example_outcome(e: Example, idx: int) -> ValidationOutcome {
    if e.title@.len() == 0 {
        ValidationOutcome::Invalid {
            message: "Example "@ + dec_str((idx + 1) as nat) + " has empty title"@,
            suggestion: "Add a descriptive title: title: \"Power Rule\""@,
        }
    } else if spec_blank(e.code.rust@) && spec_blank(e.code.python@) && spec_blank(
        e.code.nodejs@,
    ) {
        ValidationOutcome::Invalid {
            message: "Example '"@ + e.title@ + "' has no code in any language"@,
            suggestion: "Add code in at least one language (Rust, Python, or JavaScript)"@,
        }
    } else if !spec_blank(e.code.rust@) && delim_check(e.code.rust@) != DelimOutcome::Balanced {
        ValidationOutcome::Syntax {
            language: "Rust"@,
            error: delim_error_message(delim_check(e.code.rust@)),
            code: e.code.rust@,
        }
    } else if !spec_blank(e.code.python@) && delim_check(e.code.python@)
        != DelimOutcome::Balanced {
        ValidationOutcome::Syntax {
            language: "Python"@,
            error: delim_error_message(delim_check(e.code.python@)),
            code: e.code.python@,
        }
    } else if !spec_blank(e.code.nodejs@) && delim_check(e.code.nodejs@)
        != DelimOutcome::Balanced {
        ValidationOutcome::Syntax {
            language: "JavaScript"@,
            error: delim_error_message(delim_check(e.code.nodejs@)),
            code: e.code.nodejs@,
        }
    } else {
        ValidationOutcome::Pass
    }
}

/// The first failing example rule at or after index `i`, if any.
pub open spec fn examples_outcome(es: Seq<Example>, i: int) -> ValidationOutcome
    decreases es.len() - i,
{
    if i < 0 || i >= es.len() {
        ValidationOutcome::Pass
    } else {
        let o = example_outcome(es[i], i);
        if o is Pass {
            examples_outcome(es, i + 1)
        } else {
            o
        }
    }
}

/// A chunk strategy the retrieval-chunk renderer accepts: one of the fixed
/// set, or any custom strategy under the `by_` prefix convention.
pub open spec fn valid_strategy(s: Seq<char>) -> bool {
    s == "by_example"@ || s == "by_section"@ || s == "fixed_size"@ || (s.len() >= 3 && s.subrange(
        0,
        3,
    ) == "by_"@)
}

/// The output-hints rule: the retrieval-chunk block, when present, must name
/// a known strategy, a chunk size in 1..=8192, and a known priority.
pub open spec fn hints_outcome(h: OutputHints) -> ValidationOutcome {
    match h.llm_rag {
        None => ValidationOutcome::Pass,
        Some(rag) => if !valid_strategy(rag.chunk_strategy@) {
            ValidationOutcome::Invalid {
                message: "Invalid chunk_strategy '"@ + rag.chunk_strategy@ + "'"@,
                suggestion: "Valid strategies: by_example, by_section, fixed_size"@,
            }
        } else if rag.max_chunk_size == 0 || rag.max_chunk_size > 8192 {
            ValidationOutcome::Invalid {
                message: "Invalid max_chunk_size "@ + dec_str(rag.max_chunk_size as nat),
                suggestion: "Chunk size must be between 1 and 8192 tokens"@,
            }
        } else if rag.embedding_priority@ != "high"@ && rag.embedding_priority@ != "medium"@
            && rag.embedding_priority@ != "low"@ {
            ValidationOutcome::Invalid {
                message: "Invalid embedding_priority '"@ + rag.embedding_priority@ + "'"@,
                suggestion: "Valid priorities: high, medium, low"@,
            }
        } else {
            ValidationOutcome::Pass
        },
    }
}

/// The whole validation, fail-fast: required fields, then code references,
/// then examples in order, then output hints.
pub open spec fn validate_spec(s: Schema) -> ValidationOutcome {
    let r1 = required_outcome(s);
    if !(r1 is Pass) {
        r1
    } else {
        let r2 = code_refs_outcome(s);
        if !(r2 is Pass) {
            r2
        } else {
            let r3 = examples_outcome(s.examples@, 0);
            if !(r3 is Pass) {
                r3
            } else {
                hints_outcome(s.outputs)
            }
        }
    }
}

/// The returned error matches the outcome `o`, wrapped with source file
/// `file` at line 1.
pub open spec fn err_matches(r: Result<(), KbError>, o: ValidationOutcome, file: Seq<char>) -> bool {
    match o {
        ValidationOutcome::Pass => r is Ok,
        ValidationOutcome::FieldMissing { field, suggestion } => r matches Err(e) && (
        e matches KbError::MissingField { field: fd, file: f, line: l, suggestion: su } && fd@
            == field && f@ == file && l == 1 && su@ == suggestion),
        ValidationOutcome::Invalid { message, suggestion } => r matches Err(e) && (
        e matches KbError::ValidationError { file: f, line: l, message: m, suggestion: su } && f@
            == file && l == 1 && m@ == message && su@ == suggestion),
        ValidationOutcome::Syntax { language, error, code } => r matches Err(e) && (
        e matches KbError::CodeSyntaxError { language: lg, file: f, line: l, error: er, code: cd }
            && lg@ == language && f@ == file && l == 1 && er@ == error && cd@ == code),
    }
}

fn validate_required_fields(schema: &Schema, file_path: &str) -> (r: Result<(), KbError>)
    ensures
        err_matches(r, required_outcome(*schema), file_path@),
{
    if schema.topic.as_str().is_empty() {
        return Err(
            KbError::missing_field(
                "topic",
                file_path,
                1,
                "Add a topic identifier: topic: \"calculus.derivative\"",
            ),
        );
    }
    if !topic_matches(schema.topic.as_str()) {
        let mut msg = String::new();
        msg.append("Topic '");
        msg.append(schema.topic.as_str());
        msg.append("' must follow dotted notation (lowercase, alphanumeric, underscores, hyphens)");
        proof {
            assert(msg@ =~= "Topic '"@ + schema.topic@
                + "' must follow dotted notation (lowercase, alphanumeric, underscores, hyphens)"@);
        }
        return Err(
            KbError::validation(
                file_path,
                1,
                msg,
                "Example: topic: \"calculus.derivative\" or topic: \"algebra.polynomial.factoring\"",
            ),
        );
    }
    if schema.title.as_str().is_empty() {
        return Err(
            KbError::missing_field(
                "title",
                file_path,
                1,
                "Add a human-readable title: title: \"Symbolic Differentiation\"",
            ),
        );
    }
    if schema.description.as_str().is_empty() {
        return Err(
            KbError::missing_field(
                "description",
                file_path,
                1,
                "Add a detailed description explaining what this function/concept does",
            ),
        );
    }
    Ok(())
}

fn validate_code_references(schema: &Schema, file_path: &str) -> (r: Result<(), KbError>)
    ensures
        err_matches(r, code_refs_outcome(*schema), file_path@),
{
    match &schema.code_refs {
        None => Ok(()),
        Some(code_refs) => {
            if code_refs.rust.as_str().is_empty() {
                Err(
                    KbError::validation(
                        file_path,
                        1,
                        String::from_str("Rust code reference is empty"),
                        "Example: mathhook_core::calculus::derivative",
                    ),
                )
            } else {
                Ok(())
            }
        },
    }
}

/// Basic syntax validation over one code snippet: balanced `()`, `[]`, `{}`.
pub fn validate_code_syntax(code: &str, language: &str, file_path: &str) -> (r: Result<
    (),
    KbError,
>)
    ensures
        delim_check(code@) is Balanced <==> r is Ok,
        r matches Err(e) ==> e matches KbError::CodeSyntaxError {
            language: lg,
            file: f,
            line: l,
            error: er,
            code: cd,
        } && lg@ == language@ && f@ == file_path@ && l == 1 && er@ == delim_error_message(
            delim_check(code@),
        ) && cd@ == code@,
{
    let outcome = check_delimiters(code);
    match outcome {
        DelimOutcome::Balanced => Ok(()),
        DelimOutcome::UnmatchedClose(c) => {
            let mut err = String::new();
            if c == ')' {
                err.append("Unmatched closing parenthesis");
            } else if c == ']' {
                err.append("Unmatched closing bracket");
            } else {
                err.append("Unmatched closing brace");
            }
            proof {
                assert(err@ =~= delim_error_message(delim_check(code@)));
            }
            Err(
                KbError::CodeSyntaxError {
                    language: language.to_owned(),
                    file: file_path.to_owned(),
                    line: 1,
                    error: err,
                    code: code.to_owned(),
                },
            )
        },
        DelimOutcome::Unclosed(c) => {
            let mut err = String::new();
            err.append("Unclosed delimiter: '");
            crate::text::push_char(&mut err, c);
            err.append("'");
            proof {
                assert(err@ =~= delim_error_message(delim_check(code@)));
            }
            Err(
                KbError::CodeSyntaxError {
                    language: language.to_owned(),
                    file: file_path.to_owned(),
                    line: 1,
                    error: err,
                    code: code.to_owned(),
                },
            )
        },
    }
}

fn validate_one_example(example: &Example, idx: usize, file_path: &str) -> (r: Result<
    (),
    KbError,
>)
    requires
        idx < usize::MAX,
    ensures
        err_matches(r, example_outcome(*example, idx as int), file_path@),
{
    if example.title.as_str().is_empty() {
        let mut msg = String::new();
        msg.append("Example ");
        crate::text::append_u64(&mut msg, (idx + 1) as u64);
        msg.append(" has empty title");
        proof {
            assert(msg@ =~= "Example "@ + dec_str((idx + 1) as nat) + " has empty title"@);
        }
        return Err(
            KbError::validation(
                file_path,
                1,
                msg,
                "Add a descriptive title: title: \"Power Rule\"",
            ),
        );
    }
    let has_rust = !is_blank(example.code.rust.as_str());
    let has_python = !is_blank(example.code.python.as_str());
    let has_nodejs = !is_blank(example.code.nodejs.as_str());
    if !has_rust && !has_python && !has_nodejs {
        let mut msg = String::new();
        msg.append("Example '");
        msg.append(example.title.as_str());
        msg.append("' has no code in any language");
        proof {
            assert(msg@ =~= "Example '"@ + example.title@ + "' has no code in any language"@);
        }
        return Err(
            KbError::validation(
                file_path,
                1,
                msg,
                "Add code in at least one language (Rust, Python, or JavaScript)",
            ),
        );
    }
    if has_rust {
        let r = validate_code_syntax(example.code.rust.as_str(), "Rust", file_path);
        if r.is_err() {
            return r;
        }
    }
    if has_python {
        let r = validate_code_syntax(example.code.python.as_str(), "Python", file_path);
        if r.is_err() {
            return r;
        }
    }
    if has_nodejs {
        let r = validate_code_syntax(example.code.nodejs.as_str(), "JavaScript", file_path);
        if r.is_err() {
            return r;
        }
    }
    Ok(())
}

fn validate_examples(schema: &Schema, file_path: &str) -> (r: Result<(), KbError>)
    ensures
        err_matches(r, examples_outcome(schema.examples@, 0), file_path@),
{
    let n = schema.examples.len();
    let mut i: usize = 0;
    while i < n
        invariant
            n == schema.examples@.len(),
            i <= n,
            examples_outcome(schema.examples@, 0) == examples_outcome(
                schema.examples@,
                i as int,
            ),
        decreases n - i,
    {
        let r = validate_one_example(&schema.examples[i], i, file_path);
        if r.is_err() {
            return r;
        }
        i = i + 1;
    }
    Ok(())
}

fn validate_output_hints(schema: &Schema, file_path: &str) -> (r: Result<(), KbError>)
    ensures
        err_matches(r, hints_outcome(schema.outputs), file_path@),
{
    match &schema.outputs.llm_rag {
        None => Ok(()),
        Some(rag) => {
            let strat = rag.chunk_strategy.as_str();
            let mut ok = crate::text::str_eq(strat, "by_example") || crate::text::str_eq(
                strat,
                "by_section",
            ) || crate::text::str_eq(strat, "fixed_size");
            if !ok && strat.unicode_len() >= 3 {
                let prefix = strat.substring_char(0, 3);
                if crate::text::str_eq(prefix, "by_") {
                    ok = true;
                }
            }
            if !ok {
                let mut msg = String::new();
                msg.append("Invalid chunk_strategy '");
                msg.append(strat);
                msg.append("'");
                proof {
                    assert(msg@ =~= "Invalid chunk_strategy '"@ + rag.chunk_strategy@ + "'"@);
                }
                return Err(
                    KbError::validation(
                        file_path,
                        1,
                        msg,
                        "Valid strategies: by_example, by_section, fixed_size",
                    ),
                );
            }
            if rag.max_chunk_size == 0 || rag.max_chunk_size > 8192 {
                let mut msg = String::new();
                msg.append("Invalid max_chunk_size ");
                crate::text::append_u64(&mut msg, rag.max_chunk_size as u64);
                proof {
                    assert(msg@ =~= "Invalid max_chunk_size "@ + dec_str(
                        rag.max_chunk_size as nat,
                    ));
                }
                return Err(
                    KbError::validation(
                        file_path,
                        1,
                        msg,
                        "Chunk size must be between 1 and 8192 tokens",
                    ),
                );
            }
            let prio = rag.embedding_priority.as_str();
            if !(crate::text::str_eq(prio, "high") || crate::text::str_eq(prio, "medium")
                || crate::text::str_eq(prio, "low")) {
                let mut msg = String::new();
                msg.append("Invalid embedding_priority '");
                msg.append(prio);
                msg.append("'");
                proof {
                    assert(msg@ =~= "Invalid embedding_priority '"@ + rag.embedding_priority@
                        + "'"@);
                }
                return Err(
                    KbError::validation(file_path, 1, msg, "Valid priorities: high, medium, low"),
                );
            }
            Ok(())
        },
    }
}

/// Validates a schema for correctness and completeness; the first failing
/// rule wins and is reported with the source file at line 1.
pub fn validate_schema(schema: &Schema, file_path: String) -> (r: Result<(), KbError>)
    ensures
        err_matches(r, validate_spec(*schema), file_path@),
        r is Ok <==> validate_spec(*schema) is Pass,
{
    let fp = file_path.as_str();
    let r1 = validate_required_fields(schema, fp);
    if r1.is_err() {
        return r1;
    }
    let r2 = validate_code_references(schema, fp);
    if r2.is_err() {
        return r2;
    }
    let r3 = validate_examples(schema, fp);
    if r3.is_err() {
        return r3;
    }
    validate_output_hints(schema, fp)
}

} // verus!
