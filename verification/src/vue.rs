//! The component-template renderer: fills one parameterized single-file
//! component per schema, with code tabs for each language, example cards,
//! an optional math block, and SEO-derived page metadata.

use vstd::prelude::*;
use crate::error::KbError;
use crate::generator::OutputGenerator;
use crate::json::jstr;
use crate::schema::{Example, Schema};
use crate::text::{spec_contains, str_contains};

verus! {

/// The opening of the component: template root, header with title and
/// description.
pub open spec fn vue_open(title: Seq<char>, description: Seq<char>) -> Seq<char> {
    "<template>\n  <div class=\"doc-page\">\n    <header class=\"doc-header\">\n      <h1>"@ + title
        + "</h1>\n      <p class=\"description\">"@ + description
        + "</p>\n    </header>\n\n    "@
}

/// The optional mathematical-definition section.
pub open spec fn vue_math(m: Option<String>) -> Seq<char> {
    match m {
        Some(m) => if m@.len() > 0 {
            "\n    <section class=\"math-definition\">\n      <h2>Mathematical Definition</h2>\n      <div class=\"katex-block\">"@
                + m@ + "</div>\n    </section>\n    "@
        } else {
            Seq::empty()
        },
        None => Seq::empty(),
    }
}

/// One example card: title, explanation, code tabs for each language, and
/// the output block when an output is present.
pub open spec fn vue_example(e: Example) -> Seq<char> {
    "\n      <div class=\"example-card\">\n        <h3>"@ + e.title@ + "</h3>\n        <p>"@
        + e.explanation@
        + "</p>\n        \n        <div class=\"code-tabs\">\n          <button @click=\"activeTab = 'rust'\">Rust</button>\n          <button @click=\"activeTab = 'python'\">Python</button>\n          <button @click=\"activeTab = 'javascript'\">JavaScript</button>\n        </div>\n\n        <div v-show=\"activeTab === 'rust'\" class=\"code-block\">\n          <pre><code class=\"language-rust\">"@
        + e.code.rust@
        + "</code></pre>\n        </div>\n        <div v-show=\"activeTab === 'python'\" class=\"code-block\">\n          <pre><code class=\"language-python\">"@
        + e.code.python@
        + "</code></pre>\n        </div>\n        <div v-show=\"activeTab === 'javascript'\" class=\"code-block\">\n          <pre><code class=\"language-javascript\">"@
        + e.code.nodejs@ + "</code></pre>\n        </div>\n\n        "@ + (match e.expected_output {
        Some(o) => if o@.len() > 0 {
            "\n        <div class=\"output\">\n          <strong>Output:</strong>\n          <pre><code>"@
                + o@ + "</code></pre>\n        </div>\n        "@
        } else {
            Seq::empty()
        },
        None => Seq::empty(),
    }) + "\n      </div>\n      "@
}

/// The rendered example cards.
pub open spec fn vue_examples(es: Seq<Example>, n: int) -> Seq<char>
    decreases n,
{
    if n <= 0 {
        Seq::empty()
    } else {
        vue_examples(es, n - 1) + vue_example(es[n - 1])
    }
}

/// The page's meta description: the SEO meta description when present,
/// else the schema description.
pub open spec fn vue_meta_description(s: Schema) -> Seq<char> {
    match s.seo {
        Some(seo) => match seo.meta_description {
            Some(d) => d@,
            None => s.description@,
        },
        None => s.description@,
    }
}

/// The keyword array as compact JSON.
pub open spec fn vue_keywords_json(s: Schema) -> Seq<char> {
    match s.seo {
        Some(seo) => jarr_compact(
            seo.keywords@.map_values(|x: String| x@),
            seo.keywords@.len() as int,
        ),
        None => "[]"@,
    }
}

/// A compact JSON array of strings.
pub open spec fn jarr_compact(items: Seq<Seq<char>>, n: int) -> Seq<char> {
    "["@ + jarr_compact_items(items, n) + "]"@
}

/// The comma-separated items of a compact JSON string array.
pub open spec fn jarr_compact_items(items: Seq<Seq<char>>, n: int) -> Seq<char>
    decreases n,
{
    if n <= 0 {
        Seq::empty()
    } else if n == 1 {
        jstr(items[0])
    } else {
        jarr_compact_items(items, n - 1) + ","@ + jstr(items[n - 1])
    }
}

/// The optional Open Graph image line of the page metadata.
pub open spec fn vue_og_image(s: Schema) -> Seq<char> {
    match s.seo {
        Some(seo) => match seo.og_image {
            Some(img) => if img@.len() > 0 {
                "ogImage: '"@ + img@ + "',"@
            } else {
                Seq::empty()
            },
            None => Seq::empty(),
        },
        None => Seq::empty(),
    }
}

/// The script block of the component.
pub open spec fn vue_script(s: Schema) -> Seq<char> {
    "\n    </section>\n  </div>\n</template>\n\n<script setup lang=\"ts\">\nimport { ref } from 'vue'\n\nconst activeTab = ref('python')\n\n// SEO metadata\nconst metaDescription = \""@
        + vue_meta_description(s) + "\"\nconst keywords = "@ + vue_keywords_json(s)
        + "\n\n// Define page metadata\ndefinePageMeta({\n  title: '"@ + s.title@
        + "',\n  description: metaDescription,\n  keywords: keywords.join(', '),\n  "@
        + vue_og_image(s) + "\n})\n</script>\n\n"@
}

/// The fixed scoped style block of the component.
pub open spec fn vue_style() -> Seq<char> {
    "<style scoped>\n.doc-page {\n  max-width: 1200px;\n  margin: 0 auto;\n  padding: 2rem;\n}\n\n.doc-header h1 {\n  font-size: 2.5rem;\n  margin-bottom: 1rem;\n}\n\n.description {\n  font-size: 1.2rem;\n  color: #666;\n}\n\n.math-definition {\n  background: #f5f5f5;\n  padding: 1.5rem;\n  border-radius: 8px;\n  margin: 2rem 0;\n}\n\n.example-card {\n  border: 1px solid #ddd;\n  border-radius: 8px;\n  padding: 1.5rem;\n  margin-bottom: 2rem;\n}\n\n.code-tabs {\n  display: flex;\n  gap: 0.5rem;\n  margin-bottom: 1rem;\n}\n\n.code-tabs button {\n  padding: 0.5rem 1rem;\n  border: none;\n  background: #eee;\n  cursor: pointer;\n  border-radius: 4px;\n}\n\n.code-tabs button:hover {\n  background: #ddd;\n}\n\n.code-block {\n  background: #1e1e1e;\n  color: #d4d4d4;\n  padding: 1rem;\n  border-radius: 4px;\n  overflow-x: auto;\n}\n\n.output {\n  margin-top: 1rem;\n  padding: 1rem;\n  background: #f9f9f9;\n  border-left: 4px solid #42b883;\n}\n</style>\n"@
}

/// The whole component for a schema.
pub open spec fn vue_output(s: Schema) -> Seq<char> {
    vue_open(s.title@, s.description@) + vue_math(s.mathematical_definition)
        + "\n\n    <section class=\"examples\">\n      <h2>Interactive Examples</h2>\n      "@
        + vue_examples(s.examples@, s.examples@.len() as int) + vue_script(s) + vue_style()
}

/// Site-component generator.
#[derive(Debug, Clone, PartialEq)]
pub struct VueGenerator {}

impl VueGenerator {
    /// Creates a new component generator; never fails.
    pub fn new() -> (r: Result<Self, KbError>)
        ensures
            r is Ok,
    {
        Ok(VueGenerator {  })
    }

    /// Renders the component for a schema.
    #[verifier::rlimit(100)]
    fn generate_component(&self, schema: &Schema) -> (r: String)
        ensures
            r@ == vue_output(*schema),
    {
        let mut out = String::new();
        out.append("<template>\n  <div class=\"doc-page\">\n    <header class=\"doc-header\">\n      <h1>");
        out.append(schema.title.as_str());
        out.append("</h1>\n      <p class=\"description\">");
        out.append(schema.description.as_str());
        out.append("</p>\n    </header>\n\n    ");
        proof {
            assert(out@ =~= vue_open(schema.title@, schema.description@));
        }
        let ghost p1 = out@;
        if let Some(m) = &schema.mathematical_definition {
            if m.as_str().unicode_len() > 0 {
                out.append(
                    "\n    <section class=\"math-definition\">\n      <h2>Mathematical Definition</h2>\n      <div class=\"katex-block\">",
                );
                out.append(m.as_str());
                out.append("</div>\n    </section>\n    ");
            }
        }
        proof {
            assert(out@ =~= p1 + vue_math(schema.mathematical_definition));
        }
        out.append("\n\n    <section class=\"examples\">\n      <h2>Interactive Examples</h2>\n      ");
        let ghost p2 = out@;
        let n = schema.examples.len();
        let mut i: usize = 0;
        while i < n
            invariant
                n == schema.examples@.len(),
                i <= n,
                out@ == p2 + vue_examples(schema.examples@, i as int),
            decreases n - i,
        {
            self.append_example(&mut out, &schema.examples[i]);
            i = i + 1;
            proof {
                assert(out@ =~= p2 + vue_examples(schema.examples@, i as int));
            }
        }
        self.append_script(&mut out, schema);
        out.append(
            "<style scoped>\n.doc-page {\n  max-width: 1200px;\n  margin: 0 auto;\n  padding: 2rem;\n}\n\n.doc-header h1 {\n  font-size: 2.5rem;\n  margin-bottom: 1rem;\n}\n\n.description {\n  font-size: 1.2rem;\n  color: #666;\n}\n\n.math-definition {\n  background: #f5f5f5;\n  padding: 1.5rem;\n  border-radius: 8px;\n  margin: 2rem 0;\n}\n\n.example-card {\n  border: 1px solid #ddd;\n  border-radius: 8px;\n  padding: 1.5rem;\n  margin-bottom: 2rem;\n}\n\n.code-tabs {\n  display: flex;\n  gap: 0.5rem;\n  margin-bottom: 1rem;\n}\n\n.code-tabs button {\n  padding: 0.5rem 1rem;\n  border: none;\n  background: #eee;\n  cursor: pointer;\n  border-radius: 4px;\n}\n\n.code-tabs button:hover {\n  background: #ddd;\n}\n\n.code-block {\n  background: #1e1e1e;\n  color: #d4d4d4;\n  padding: 1rem;\n  border-radius: 4px;\n  overflow-x: auto;\n}\n\n.output {\n  margin-top: 1rem;\n  padding: 1rem;\n  background: #f9f9f9;\n  border-left: 4px solid #42b883;\n}\n</style>\n",
        );
        proof {
            assert(out@ =~= vue_output(*schema));
        }
        out
    }

    #[verifier::rlimit(100)]
    fn append_example(&self, out: &mut String, e: &Example)
        ensures
            final(out)@ == old(out)@ + vue_example(*e),
    {
        out.append("\n      <div class=\"example-card\">\n        <h3>");
        out.append(e.title.as_str());
        out.append("</h3>\n        <p>");
        out.append(e.explanation.as_str());
        out.append(
            "</p>\n        \n        <div class=\"code-tabs\">\n          <button @click=\"activeTab = 'rust'\">Rust</button>\n          <button @click=\"activeTab = 'python'\">Python</button>\n          <button @click=\"activeTab = 'javascript'\">JavaScript</button>\n        </div>\n\n        <div v-show=\"activeTab === 'rust'\" class=\"code-block\">\n          <pre><code class=\"language-rust\">",
        );
        out.append(e.code.rust.as_str());
        out.append(
            "</code></pre>\n        </div>\n        <div v-show=\"activeTab === 'python'\" class=\"code-block\">\n          <pre><code class=\"language-python\">",
        );
        out.append(e.code.python.as_str());
        out.append(
            "</code></pre>\n        </div>\n        <div v-show=\"activeTab === 'javascript'\" class=\"code-block\">\n          <pre><code class=\"language-javascript\">",
        );
        out.append(e.code.nodejs.as_str());
        out.append("</code></pre>\n        </div>\n\n        ");
        if let Some(o) = &e.expected_output {
            if o.as_str().unicode_len() > 0 {
                out.append(
                    "\n        <div class=\"output\">\n          <strong>Output:</strong>\n          <pre><code>",
                );
                out.append(o.as_str());
                out.append("</code></pre>\n        </div>\n        ");
            }
        }
        out.append("\n      </div>\n      ");
        proof {
            assert(out@ =~= old(out)@ + vue_example(*e));
        }
    }

    #[verifier::rlimit(100)]
    fn append_script(&self, out: &mut String, schema: &Schema)
        ensures
            final(out)@ == old(out)@ + vue_script(*schema),
    {
        out.append(
            "\n    </section>\n  </div>\n</template>\n\n<script setup lang=\"ts\">\nimport { ref } from 'vue'\n\nconst activeTab = ref('python')\n\n// SEO metadata\nconst metaDescription = \"",
        );
        match &schema.seo {
            Some(seo) => match &seo.meta_description {
                Some(d) => out.append(d.as_str()),
                None => out.append(schema.description.as_str()),
            },
            None => out.append(schema.description.as_str()),
        }
        out.append("\"\nconst keywords = ");
        let ghost p1 = out@;
        match &schema.seo {
            Some(seo) => {
                out.append("[");
                let nk = seo.keywords.len();
                let mut j: usize = 0;
                while j < nk
                    invariant
                        nk == seo.keywords@.len(),
                        j <= nk,
                        out@ == p1 + "["@ + jarr_compact_items(
                            seo.keywords@.map_values(|x: String| x@),
                            j as int,
                        ),
                    decreases nk - j,
                {
                    if j > 0 {
                        out.append(",");
                    }
                    crate::json::append_json_string(out, seo.keywords[j].as_str());
                    j = j + 1;
                    proof {
                        assert(out@ =~= p1 + "["@ + jarr_compact_items(
                            seo.keywords@.map_values(|x: String| x@),
                            j as int,
                        ));
                    }
                }
                out.append("]");
            },
            None => {
                out.append("[]");
            },
        }
        proof {
            assert(out@ =~= p1 + vue_keywords_json(*schema));
        }
        out.append("\n\n// Define page metadata\ndefinePageMeta({\n  title: '");
        out.append(schema.title.as_str());
        out.append("',\n  description: metaDescription,\n  keywords: keywords.join(', '),\n  ");
        let ghost p2 = out@;
        if let Some(seo) = &schema.seo {
            if let Some(img) = &seo.og_image {
                if img.as_str().unicode_len() > 0 {
                    out.append("ogImage: '");
                    out.append(img.as_str());
                    out.append("',");
                }
            }
        }
        proof {
            assert(out@ =~= p2 + vue_og_image(*schema));
        }
        out.append("\n})\n</script>\n\n");
        proof {
            assert(out@ =~= old(out)@ + vue_script(*schema));
        }
    }
}

impl Default for VueGenerator {
    /// The stock component generator.
    fn default() -> (r: Self)
        ensures
            true,
    {
        VueGenerator {  }
    }
}

impl OutputGenerator for VueGenerator {
    open spec fn spec_name(&self) -> Seq<char> {
        "vue"@
    }

    open spec fn spec_extension(&self) -> Seq<char> {
        "vue"@
    }

    open spec fn spec_generate(&self, schema: Schema) -> Seq<char> {
        vue_output(schema)
    }

    /// Valid output is non-empty and carries the template and script block
    /// markers of the component convention.
    open spec fn spec_validates(&self, output: Seq<char>) -> bool {
        output.len() > 0 && spec_contains(output, "<template>"@) && spec_contains(
            output,
            "<script"@,
        )
    }

    fn name(&self) -> (r: &str) {
        "vue"
    }

    fn file_extension(&self) -> (r: &str) {
        "vue"
    }

    fn generate(&self, schema: &Schema) -> (r: Result<String, KbError>) {
        Ok(self.generate_component(schema))
    }

    fn validate_output(&self, output: &str) -> (r: Result<(), KbError>) {
        if output.unicode_len() == 0 {
            return Err(
                KbError::OutputValidationError {
                    generator: "vue".to_owned(),
                    message: "Output is empty".to_owned(),
                },
            );
        }
        if !str_contains(output, "<template>") || !str_contains(output, "<script") {
            return Err(
                KbError::OutputValidationError {
                    generator: "vue".to_owned(),
                    message: "Output must contain Vue component structure (<template> and <script>)".to_owned(),
                },
            );
        }
        Ok(())
    }
}


/// A schema without an article still renders: the output is never empty,
/// and it opens with its required template marker.
pub proof fn lemma_vue_output_valid(g: VueGenerator, s: Schema)
    ensures
        g.spec_generate(s).len() > 0,
        g.spec_validates(g.spec_generate(s)),
{
    reveal_strlit("<template>");
    reveal_strlit(
        "<template>\n  <div class=\"doc-page\">\n    <header class=\"doc-header\">\n      <h1>",
    );
    let out = vue_output(s);
    assert(out.subrange(0, 0 + "<template>"@.len() as int) =~= "<template>"@);
    reveal_strlit("<script");
    reveal_strlit(
        "\n    </section>\n  </div>\n</template>\n\n<script setup lang=\"ts\">\nimport { ref } from 'vue'\n\nconst activeTab = ref('python')\n\n// SEO metadata\nconst metaDescription = \"",
    );
    let pre = vue_open(s.title@, s.description@) + vue_math(s.mathematical_definition)
        + "\n\n    <section class=\"examples\">\n      <h2>Interactive Examples</h2>\n      "@
        + vue_examples(s.examples@, s.examples@.len() as int);
    let at = pre.len() as int + 38;
    assert(out.subrange(at, at + "<script"@.len() as int) =~= "<script"@);
}

/// The structural check rejects empty input.
pub proof fn lemma_vue_rejects_empty(g: VueGenerator)
    ensures
        !g.spec_validates(Seq::empty()),
{
}

} // verus!
