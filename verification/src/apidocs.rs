//! The API-spec renderer: one fixed operation per schema, keyed by the
//! topic path with dots replaced by slashes; request and response schemas
//! are generic, and up to the first three examples become named request and
//! response examples — a deliberate cap, not an error path.

use vstd::prelude::*;
use crate::error::KbError;
use crate::generator::OutputGenerator;
use crate::json::{jstr, json_wf};
use crate::schema::{Example, Schema};
use crate::text::{
    before_first, index_of_from, lower_of, spec_contains, spec_lines, spec_replaced, spec_trim,
    str_contains,
};

verus! {

/// Whether a code line carries an expression: it holds an equals sign and
/// does not start (after trimming) with a comment marker.
pub open spec fn line_has_expr(line: Seq<char>) -> bool {
    index_of_from(line, '=', 0) < line.len() && !(spec_trim(line).len() > 0 && spec_trim(line)[0]
        == '#')
}

/// The expression of a line: the trimmed text between the first and second
/// equals signs (or the end of the line).
pub open spec fn line_expr(line: Seq<char>) -> Seq<char> {
    let i = index_of_from(line, '=', 0);
    let j = index_of_from(line, '=', i + 1);
    spec_trim(line.subrange(i + 1, j))
}

/// The expression extracted from the lines of a snippet at or after line
/// `k`: the first line holding one, or the stock placeholder.
pub open spec fn extract_expr_from(lines: Seq<Seq<char>>, k: int) -> Seq<char>
    decreases lines.len() - k,
{
    if k < 0 || k >= lines.len() {
        "x**2"@
    } else if line_has_expr(lines[k]) {
        line_expr(lines[k])
    } else {
        extract_expr_from(lines, k + 1)
    }
}

/// The expression the request example carries for a code snippet.
pub open spec fn extract_expr(code: Seq<char>) -> Seq<char> {
    extract_expr_from(spec_lines(code), 0)
}

/// Extracts a representative expression from a code snippet: the trimmed
/// text after the first equals sign of the first non-comment line that has
/// one, or a stock placeholder.
pub fn extract_expression_from_code(code: &str) -> (r: String)
    ensures
        r@ == extract_expr(code@),
{
    let lines = crate::text::split_lines(code);
    let n = lines.len();
    let mut k: usize = 0;
    while k < n
        invariant
            n == lines@.len(),
            lines@.len() == spec_lines(code@).len(),
            forall|q: int| 0 <= q < n ==> (#[trigger] lines@[q])@ == spec_lines(code@)[q],
            k <= n,
            extract_expr(code@) == extract_expr_from(spec_lines(code@), k as int),
        decreases n - k,
    {
        let line = &lines[k];
        let ln = line.as_str().unicode_len();
        let i = crate::text::find_char_from(line.as_str(), '=', 0);
        let trimmed = crate::text::trim_str(line.as_str());
        let is_comment = trimmed.as_str().unicode_len() > 0 && trimmed.as_str().get_char(0) == '#';
        if i < ln && !is_comment {
            proof {
                crate::text::lemma_index_of_from(line@, '=', 0);
            }
            let j = crate::text::find_char_from(line.as_str(), '=', i + 1);
            proof {
                crate::text::lemma_index_of_from(line@, '=', i + 1);
            }
            let seg = line.as_str().substring_char(i + 1, j);
            let r = crate::text::trim_str(seg);
            proof {
                assert(line@ == spec_lines(code@)[k as int]);
                assert(line_has_expr(line@));
                assert(r@ == line_expr(line@));
            }
            return r;
        }
        proof {
            assert(!line_has_expr(line@));
        }
        k = k + 1;
    }
    let mut r = String::new();
    r.append("x**2");
    r
}

/// The JSON-object key of a named example: the title with spaces as
/// underscores, lowercased.
pub open spec fn example_key(title: Seq<char>) -> Seq<char> {
    lower_of(spec_replaced(title, ' ', '_'))
}

/// The number of examples the named-example objects may draw from: at most
/// the first three.
pub open spec fn example_cap(es: Seq<Example>) -> int {
    if es.len() < 3 {
        es.len() as int
    } else {
        3
    }
}

/// One named request example.
pub open spec fn req_entry(e: Example, ind: Seq<char>) -> Seq<char> {
    ind + jstr(example_key(e.title@)) + ": {\n"@ + ind + "  \"summary\": "@ + jstr(e.title@)
        + ",\n"@ + ind + "  \"description\": "@ + jstr(e.explanation@) + ",\n"@ + ind
        + "  \"value\": {\n"@ + ind + "    \"expression\": "@ + jstr(extract_expr(e.code.python@))
        + "\n"@ + ind + "  }\n"@ + ind + "}"@
}

/// The named request examples for the first `n` examples, comma-separated.
pub open spec fn req_entries(es: Seq<Example>, n: int, ind: Seq<char>) -> Seq<char>
    decreases n,
{
    if n <= 0 {
        Seq::empty()
    } else if n == 1 {
        req_entry(es[0], ind)
    } else {
        req_entries(es, n - 1, ind) + ",\n"@ + req_entry(es[n - 1], ind)
    }
}

/// The request examples object; at most three named examples.
pub open spec fn req_examples_json(es: Seq<Example>, ind: Seq<char>, close: Seq<char>) -> Seq<
    char,
> {
    if example_cap(es) == 0 {
        "{}"@
    } else {
        "{\n"@ + req_entries(es, example_cap(es), ind) + "\n"@ + close + "}"@
    }
}

/// One named response example.
pub open spec fn resp_entry(e: Example, o: Seq<char>, ind: Seq<char>) -> Seq<char> {
    ind + jstr(example_key(e.title@)) + ": {\n"@ + ind + "  \"summary\": "@ + jstr(e.title@)
        + ",\n"@ + ind + "  \"value\": {\n"@ + ind + "    \"result\": "@ + jstr(o) + ",\n"@ + ind
        + "    \"latex\": "@ + jstr("$"@ + o + "$"@) + "\n"@ + ind + "  }\n"@ + ind + "}"@
}

/// Whether any of the first `n` examples has an expected output.
pub open spec fn resp_has_before(es: Seq<Example>, n: int) -> bool
    decreases n,
{
    if n <= 0 {
        false
    } else {
        es[n - 1].expected_output is Some || resp_has_before(es, n - 1)
    }
}

/// The named response examples among the first `n` examples, one for each
/// example with an expected output, comma-separated.
pub open spec fn resp_entries(es: Seq<Example>, n: int, ind: Seq<char>) -> Seq<char>
    decreases n,
{
    if n <= 0 {
        Seq::empty()
    } else {
        resp_entries(es, n - 1, ind) + match es[n - 1].expected_output {
            Some(o) => (if resp_has_before(es, n - 1) {
                ",\n"@
            } else {
                Seq::empty()
            }) + resp_entry(es[n - 1], o@, ind),
            None => Seq::empty(),
        }
    }
}

/// The response examples object; at most the first three examples with
/// outputs.
pub open spec fn resp_examples_json(es: Seq<Example>, ind: Seq<char>, close: Seq<char>) -> Seq<
    char,
> {
    if !resp_has_before(es, example_cap(es)) {
        "{}"@
    } else {
        "{\n"@ + resp_entries(es, example_cap(es), ind) + "\n"@ + close + "}"@
    }
}

/// The whole API-spec document for a schema.
pub open spec fn apidocs_output(s: Schema) -> Seq<char> {
    "{\n  \"openapi\": \"3.0.0\",\n  \"info\": {\n    \"title\": "@ + jstr(s.title@)
        + ",\n    \"description\": "@ + jstr(s.description@)
        + ",\n    \"version\": \"1.0.0\"\n  },\n  \"servers\": [\n    {\n      \"url\": \"https://api.mathhook.org/v1\",\n      \"description\": \"Production server\"\n    }\n  ],\n  \"paths\": {\n    "@
        + jstr("/"@ + spec_replaced(s.topic@, '.', '/')) + ": {\n      \"post\": {\n        \"summary\": "@
        + jstr(s.title@) + ",\n        \"description\": "@ + jstr(s.description@)
        + ",\n        \"requestBody\": {\n          \"required\": true,\n          \"content\": {\n            \"application/json\": {\n              \"schema\": {\n                \"$ref\": \"#/components/schemas/Request\"\n              },\n              \"examples\": "@
        + req_examples_json(s.examples@, "                "@, "              "@)
        + "\n            }\n          }\n        },\n        \"responses\": {\n          \"200\": {\n            \"description\": \"Successful computation\",\n            \"content\": {\n              \"application/json\": {\n                \"schema\": {\n                  \"$ref\": \"#/components/schemas/Response\"\n                },\n                \"examples\": "@
        + resp_examples_json(s.examples@, "                  "@, "                "@)
        + "\n              }\n            }\n          },\n          \"400\": {\n            \"description\": \"Invalid input\",\n            \"content\": {\n              \"application/json\": {\n                \"schema\": {\n                  \"$ref\": \"#/components/schemas/Error\"\n                }\n              }\n            }\n          }\n        },\n        \"tags\": ["@
        + jstr(before_first(s.topic@, '.'))
        + "]\n      }\n    }\n  },\n  \"components\": {\n    \"schemas\": {\n      \"Request\": {\n        \"type\": \"object\",\n        \"required\": [\"expression\"],\n        \"properties\": {\n          \"expression\": {\n            \"type\": \"string\",\n            \"description\": \"Mathematical expression to evaluate\"\n          },\n          \"variables\": {\n            \"type\": \"object\",\n            \"description\": \"Variable values for evaluation\"\n          }\n        }\n      },\n      \"Response\": {\n        \"type\": \"object\",\n        \"properties\": {\n          \"result\": {\n            \"type\": \"string\",\n            \"description\": \"Computed result\"\n          },\n          \"latex\": {\n            \"type\": \"string\",\n            \"description\": \"LaTeX representation\"\n          },\n          \"steps\": {\n            \"type\": \"array\",\n            \"description\": \"Step-by-step solution\",\n            \"items\": {\n              \"type\": \"object\",\n              \"properties\": {\n                \"description\": { \"type\": \"string\" },\n                \"expression\": { \"type\": \"string\" }\n              }\n            }\n          }\n        }\n      },\n      \"Error\": {\n        \"type\": \"object\",\n        \"properties\": {\n          \"error\": {\n            \"type\": \"string\",\n            \"description\": \"Error message\"\n          },\n          \"code\": {\n            \"type\": \"string\",\n            \"description\": \"Error code\"\n          }\n        }\n      }\n    }\n  },\n  \"tags\": [\n    {\n      \"name\": "@
        + jstr(before_first(s.topic@, '.')) + ",\n      \"description\": "@ + jstr(
        before_first(s.topic@, '.') + " operations"@,
    ) + "\n    }\n  ]\n}"@
}

/// API-spec generator.
#[derive(Debug, Clone, PartialEq)]
pub struct ApiDocsGenerator {}

impl ApiDocsGenerator {
    /// Creates a new API-spec generator; never fails.
    pub fn new() -> (r: Result<Self, KbError>)
        ensures
            r is Ok,
    {
        Ok(ApiDocsGenerator {  })
    }

    /// The first topic segment, used as the operation category.
    pub fn extract_category(&self, topic: &str) -> (r: String)
        ensures
            r@ == before_first(topic@, '.'),
    {
        crate::text::before_first_char(topic, '.')
    }

    fn append_req_entry(&self, out: &mut String, e: &Example, ind: &str)
        ensures
            final(out)@ == old(out)@ + req_entry(*e, ind@),
    {
        out.append(ind);
        let key_src = crate::text::replaced_string(e.title.as_str(), ' ', '_');
        let key = crate::text::lowercase(key_src.as_str());
        crate::json::append_json_string(out, key.as_str());
        out.append(": {\n");
        out.append(ind);
        out.append("  \"summary\": ");
        crate::json::append_json_string(out, e.title.as_str());
        out.append(",\n");
        out.append(ind);
        out.append("  \"description\": ");
        crate::json::append_json_string(out, e.explanation.as_str());
        out.append(",\n");
        out.append(ind);
        out.append("  \"value\": {\n");
        out.append(ind);
        out.append("    \"expression\": ");
        let expr = extract_expression_from_code(e.code.python.as_str());
        crate::json::append_json_string(out, expr.as_str());
        out.append("\n");
        out.append(ind);
        out.append("  }\n");
        out.append(ind);
        out.append("}");
        proof {
            assert(out@ =~= old(out)@ + req_entry(*e, ind@));
        }
    }

    fn append_req_examples(&self, out: &mut String, examples: &Vec<Example>, ind: &str, close: &str)
        ensures
            final(out)@ == old(out)@ + req_examples_json(examples@, ind@, close@),
    {
        let n = examples.len();
        let cap = if n < 3 {
            n
        } else {
            3
        };
        if cap == 0 {
            out.append("{}");
            proof {
                assert(out@ =~= old(out)@ + req_examples_json(examples@, ind@, close@));
            }
            return ;
        }
        out.append("{\n");
        let mut idx: usize = 0;
        while idx < cap
            invariant
                n == examples@.len(),
                cap as int == example_cap(examples@),
                cap >= 1,
                idx <= cap,
                out@ == old(out)@ + "{\n"@ + req_entries(examples@, idx as int, ind@),
            decreases cap - idx,
        {
            if idx > 0 {
                out.append(",\n");
            }
            self.append_req_entry(out, &examples[idx], ind);
            idx = idx + 1;
            proof {
                assert(out@ =~= old(out)@ + "{\n"@ + req_entries(examples@, idx as int, ind@));
            }
        }
        out.append("\n");
        out.append(close);
        out.append("}");
        proof {
            assert(out@ =~= old(out)@ + req_examples_json(examples@, ind@, close@));
        }
    }

    fn append_resp_entry(&self, out: &mut String, e: &Example, o: &String, ind: &str)
        ensures
            final(out)@ == old(out)@ + resp_entry(*e, o@, ind@),
    {
        out.append(ind);
        let key_src = crate::text::replaced_string(e.title.as_str(), ' ', '_');
        let key = crate::text::lowercase(key_src.as_str());
        crate::json::append_json_string(out, key.as_str());
        out.append(": {\n");
        out.append(ind);
        out.append("  \"summary\": ");
        crate::json::append_json_string(out, e.title.as_str());
        out.append(",\n");
        out.append(ind);
        out.append("  \"value\": {\n");
        out.append(ind);
        out.append("    \"result\": ");
        crate::json::append_json_string(out, o.as_str());
        out.append(",\n");
        out.append(ind);
        out.append("    \"latex\": ");
        let mut latex = String::new();
        latex.append("$");
        latex.append(o.as_str());
        latex.append("$");
        proof {
            assert(latex@ =~= "$"@ + o@ + "$"@);
        }
        crate::json::append_json_string(out, latex.as_str());
        out.append("\n");
        out.append(ind);
        out.append("  }\n");
        out.append(ind);
        out.append("}");
        proof {
            assert(out@ =~= old(out)@ + resp_entry(*e, o@, ind@));
        }
    }

    fn append_resp_examples(
        &self,
        out: &mut String,
        examples: &Vec<Example>,
        ind: &str,
        close: &str,
    )
        ensures
            final(out)@ == old(out)@ + resp_examples_json(examples@, ind@, close@),
    {
        let n = examples.len();
        let cap = if n < 3 {
            n
        } else {
            3
        };
        let mut any: bool = false;
        let mut probe: usize = 0;
        while probe < cap
            invariant
                n == examples@.len(),
                cap as int == example_cap(examples@),
                probe <= cap,
                any == resp_has_before(examples@, probe as int),
            decreases cap - probe,
        {
            if examples[probe].expected_output.is_some() {
                any = true;
            }
            probe = probe + 1;
        }
        if !any {
            out.append("{}");
            proof {
                assert(out@ =~= old(out)@ + resp_examples_json(examples@, ind@, close@));
            }
            return ;
        }
        out.append("{\n");
        let mut idx: usize = 0;
        let mut emitted: bool = false;
        while idx < cap
            invariant
                n == examples@.len(),
                cap as int == example_cap(examples@),
                idx <= cap,
                emitted == resp_has_before(examples@, idx as int),
                out@ == old(out)@ + "{\n"@ + resp_entries(examples@, idx as int, ind@),
            decreases cap - idx,
        {
            match &examples[idx].expected_output {
                Some(o) => {
                    if emitted {
                        out.append(",\n");
                    }
                    self.append_resp_entry(out, &examples[idx], o, ind);
                    emitted = true;
                },
                None => {},
            }
            idx = idx + 1;
            proof {
                assert(out@ =~= old(out)@ + "{\n"@ + resp_entries(examples@, idx as int, ind@));
            }
        }
        out.append("\n");
        out.append(close);
        out.append("}");
        proof {
            assert(out@ =~= old(out)@ + resp_examples_json(examples@, ind@, close@));
        }
    }

    /// Renders the API-spec document for a schema.
    #[verifier::rlimit(100)]
    fn generate_openapi(&self, schema: &Schema) -> (r: String)
        ensures
            r@ == apidocs_output(*schema),
    {
        let mut out = String::new();
        out.append("{\n  \"openapi\": \"3.0.0\",\n  \"info\": {\n    \"title\": ");
        crate::json::append_json_string(&mut out, schema.title.as_str());
        out.append(",\n    \"description\": ");
        crate::json::append_json_string(&mut out, schema.description.as_str());
        out.append(
            ",\n    \"version\": \"1.0.0\"\n  },\n  \"servers\": [\n    {\n      \"url\": \"https://api.mathhook.org/v1\",\n      \"description\": \"Production server\"\n    }\n  ],\n  \"paths\": {\n    ",
        );
        let mut path = String::new();
        path.append("/");
        crate::text::append_replaced(&mut path, schema.topic.as_str(), '.', '/');
        proof {
            assert(path@ =~= "/"@ + spec_replaced(schema.topic@, '.', '/'));
        }
        crate::json::append_json_string(&mut out, path.as_str());
        out.append(": {\n      \"post\": {\n        \"summary\": ");
        crate::json::append_json_string(&mut out, schema.title.as_str());
        out.append(",\n        \"description\": ");
        crate::json::append_json_string(&mut out, schema.description.as_str());
        out.append(
            ",\n        \"requestBody\": {\n          \"required\": true,\n          \"content\": {\n            \"application/json\": {\n              \"schema\": {\n                \"$ref\": \"#/components/schemas/Request\"\n              },\n              \"examples\": ",
        );
        self.append_req_examples(&mut out, &schema.examples, "                ", "              ");
        out.append(
            "\n            }\n          }\n        },\n        \"responses\": {\n          \"200\": {\n            \"description\": \"Successful computation\",\n            \"content\": {\n              \"application/json\": {\n                \"schema\": {\n                  \"$ref\": \"#/components/schemas/Response\"\n                },\n                \"examples\": ",
        );
        self.append_resp_examples(
            &mut out,
            &schema.examples,
            "                  ",
            "                ",
        );
        out.append(
            "\n              }\n            }\n          },\n          \"400\": {\n            \"description\": \"Invalid input\",\n            \"content\": {\n              \"application/json\": {\n                \"schema\": {\n                  \"$ref\": \"#/components/schemas/Error\"\n                }\n              }\n            }\n          }\n        },\n        \"tags\": [",
        );
        let category = self.extract_category(schema.topic.as_str());
        crate::json::append_json_string(&mut out, category.as_str());
        out.append(
            "]\n      }\n    }\n  },\n  \"components\": {\n    \"schemas\": {\n      \"Request\": {\n        \"type\": \"object\",\n        \"required\": [\"expression\"],\n        \"properties\": {\n          \"expression\": {\n            \"type\": \"string\",\n            \"description\": \"Mathematical expression to evaluate\"\n          },\n          \"variables\": {\n            \"type\": \"object\",\n            \"description\": \"Variable values for evaluation\"\n          }\n        }\n      },\n      \"Response\": {\n        \"type\": \"object\",\n        \"properties\": {\n          \"result\": {\n            \"type\": \"string\",\n            \"description\": \"Computed result\"\n          },\n          \"latex\": {\n            \"type\": \"string\",\n            \"description\": \"LaTeX representation\"\n          },\n          \"steps\": {\n            \"type\": \"array\",\n            \"description\": \"Step-by-step solution\",\n            \"items\": {\n              \"type\": \"object\",\n              \"properties\": {\n                \"description\": { \"type\": \"string\" },\n                \"expression\": { \"type\": \"string\" }\n              }\n            }\n          }\n        }\n      },\n      \"Error\": {\n        \"type\": \"object\",\n        \"properties\": {\n          \"error\": {\n            \"type\": \"string\",\n            \"description\": \"Error message\"\n          },\n          \"code\": {\n            \"type\": \"string\",\n            \"description\": \"Error code\"\n          }\n        }\n      }\n    }\n  },\n  \"tags\": [\n    {\n      \"name\": ",
        );
        crate::json::append_json_string(&mut out, category.as_str());
        out.append(",\n      \"description\": ");
        let mut catdesc = String::new();
        catdesc.append(category.as_str());
        catdesc.append(" operations");
        proof {
            assert(catdesc@ =~= before_first(schema.topic@, '.') + " operations"@);
        }
        crate::json::append_json_string(&mut out, catdesc.as_str());
        out.append("\n    }\n  ]\n}");
        proof {
            assert(out@ =~= apidocs_output(*schema));
        }
        out
    }
}

impl Default for ApiDocsGenerator {
    /// The stock API-spec generator.
    fn default() -> (r: Self)
        ensures
            true,
    {
        ApiDocsGenerator {  }
    }
}

impl OutputGenerator for ApiDocsGenerator {
    open spec fn spec_name(&self) -> Seq<char> {
        "api-docs"@
    }

    open spec fn spec_extension(&self) -> Seq<char> {
        "json"@
    }

    open spec fn spec_generate(&self, schema: Schema) -> Seq<char> {
        apidocs_output(schema)
    }

    /// Valid output must parse as JSON and carry the spec-version and paths
    /// keys.
    open spec fn spec_validates(&self, output: Seq<char>) -> bool {
        json_wf(output) && spec_contains(output, "\"openapi\""@) && spec_contains(
            output,
            "\"paths\""@,
        )
    }

    fn name(&self) -> (r: &str) {
        "api-docs"
    }

    fn file_extension(&self) -> (r: &str) {
        "json"
    }

    fn generate(&self, schema: &Schema) -> (r: Result<String, KbError>) {
        Ok(self.generate_openapi(schema))
    }

    fn validate_output(&self, output: &str) -> (r: Result<(), KbError>) {
        if !crate::json::is_valid_json(output) {
            return Err(
                KbError::OutputValidationError {
                    generator: "api-docs".to_owned(),
                    message: "Invalid JSON".to_owned(),
                },
            );
        }
        if !str_contains(output, "\"openapi\"") {
            return Err(
                KbError::OutputValidationError {
                    generator: "api-docs".to_owned(),
                    message: "Missing 'openapi' field".to_owned(),
                },
            );
        }
        if !str_contains(output, "\"paths\"") {
            return Err(
                KbError::OutputValidationError {
                    generator: "api-docs".to_owned(),
                    message: "Missing 'paths' field".to_owned(),
                },
            );
        }
        Ok(())
    }
}


/// Every schema renders to a non-empty API-spec document.
pub proof fn lemma_apidocs_output_nonempty(g: ApiDocsGenerator, s: Schema)
    ensures
        g.spec_generate(s).len() > 0,
{
    reveal_strlit("{\n  \"openapi\": \"3.0.0\",\n  \"info\": {\n    \"title\": ");
}

/// The structural check rejects empty input.
pub proof fn lemma_apidocs_rejects_empty(g: ApiDocsGenerator)
    ensures
        !g.spec_validates(Seq::empty()),
{
    reveal_strlit("\"openapi\"");
}

} // verus!
