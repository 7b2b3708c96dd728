//! The reference-doc renderer: one long-form markdown page per schema, with
//! an SEO frontmatter block, full narrative, every example with
//! multi-language code disclosure, performance, API references, and
//! see-also links.

use vstd::prelude::*;
use crate::error::KbError;
use crate::generator::OutputGenerator;
use crate::llm_rag::join_comma;
use crate::schema::{CodeReferences, Example, Performance, Schema, SeoMetadata};
use crate::text::{spec_contains, spec_replaced, str_contains};

verus! {

/// A frontmatter line `prefix + value + "\"\n"` when the value is present
/// and non-empty, or a bare newline otherwise.
pub open spec fn fm_quoted_line(prefix: Seq<char>, v: Option<Seq<char>>) -> Seq<char> {
    match v {
        Some(x) => if x.len() > 0 {
            prefix + x + "\"\n"@
        } else {
            "\n"@
        },
        None => "\n"@,
    }
}

/// The keywords frontmatter line: the keywords joined with comma and space,
/// or a bare newline when that is empty.
pub open spec fn fm_keywords_line(seo: Option<SeoMetadata>) -> Seq<char> {
    match seo {
        Some(seo) => {
            let joined = join_comma(
                seo.keywords@.map_values(|x: String| x@),
                seo.keywords@.len() as int,
            );
            if joined.len() > 0 {
                "keywords: "@ + joined + "\n"@
            } else {
                "\n"@
            }
        },
        None => "\n"@,
    }
}

/// The view of an optional string.
pub open spec fn opt_view(v: Option<String>) -> Option<Seq<char>> {
    match v {
        Some(x) => Some(x@),
        None => None,
    }
}

/// The first three frontmatter lines: description, keywords, canonical.
pub open spec fn fm_seo_a(seo: SeoMetadata) -> Seq<char> {
    fm_quoted_line("description: \""@, opt_view(seo.meta_description)) + fm_keywords_line(
        Some(seo),
    ) + fm_quoted_line("canonical_url: \""@, opt_view(seo.canonical_url))
}

/// The Open Graph frontmatter lines.
pub open spec fn fm_seo_b(seo: SeoMetadata) -> Seq<char> {
    fm_quoted_line("og:title: \""@, opt_view(seo.og_title)) + fm_quoted_line(
        "og:description: \""@,
        opt_view(seo.og_description),
    ) + fm_quoted_line("og:image: \""@, opt_view(seo.og_image))
}

/// The card, structured-data-type and language frontmatter lines.
pub open spec fn fm_seo_c(seo: SeoMetadata) -> Seq<char> {
    fm_quoted_line("twitter:card: \""@, Some(seo.twitter_card@)) + fm_quoted_line(
        "schema_type: \""@,
        opt_view(seo.schema_org_type),
    ) + fm_quoted_line("language: \""@, Some(seo.language@))
}

/// The nine frontmatter lines for a present SEO block.
pub open spec fn fm_seo_lines(seo: SeoMetadata) -> Seq<char> {
    fm_seo_a(seo) + fm_seo_b(seo) + fm_seo_c(seo)
}

/// The nine-line SEO frontmatter block between `---` delimiters; absent
/// fields leave blank lines.
pub open spec fn mdbook_frontmatter(seo: Option<SeoMetadata>) -> Seq<char> {
    "---\n"@ + (match seo {
        Some(seo) => fm_seo_lines(seo),
        None => "\n\n\n\n\n\n\n\n\n"@,
    }) + "---\n\n"@
}

/// The page head: title, topic callout, description.
pub open spec fn mdbook_head(s: Schema) -> Seq<char> {
    "# "@ + s.title@ + "\n\n> **Topic**: `"@ + s.topic@ + "`\n\n"@ + s.description@ + "\n\n"@
}

/// The optional mathematical-definition block.
pub open spec fn mdbook_math(s: Schema) -> Seq<char> {
    (match s.mathematical_definition {
        Some(m) => if m@.len() > 0 {
            "\n## Mathematical Definition\n\n$$"@ + m@ + "$$\n"@
        } else {
            Seq::empty()
        },
        None => Seq::empty(),
    }) + "\n\n"@
}

/// The hook of the narrative: the structured article's hook, or the whole
/// content of a simple article.
pub open spec fn mdbook_hook(a: crate::article::Article) -> Seq<char> {
    match a {
        crate::article::Article::Simple(sa) => sa.content@,
        crate::article::Article::Structured(b) => (*b).introduction.hook@,
    }
}

/// The narrative sections of the article; a simple article has none.
pub open spec fn mdbook_article_sections(a: crate::article::Article) -> Seq<
    crate::article::Section,
> {
    match a {
        crate::article::Article::Simple(_) => Seq::empty(),
        crate::article::Article::Structured(b) => (*b).sections@,
    }
}

/// The reference-doc article variation of the article, when present.
pub open spec fn mdbook_variation(a: crate::article::Article) -> Option<
    crate::article::MdBookArticle,
> {
    match a {
        crate::article::Article::Simple(_) => None,
        crate::article::Article::Structured(b) => match (*b).variations {
            Some(v) => v.mdbook,
            None => None,
        },
    }
}

/// The rendered sections, one heading and body each.
pub open spec fn mdbook_sections(secs: Seq<crate::article::Section>, n: int) -> Seq<char>
    decreases n,
{
    if n <= 0 {
        Seq::empty()
    } else {
        mdbook_sections(secs, n - 1) + "\n## "@ + secs[n - 1].title@ + "\n\n"@ + secs[n
            - 1].content@ + "\n"@
    }
}

/// The rendered deep dives.
pub open spec fn mdbook_dives(ds: Seq<crate::article::DeepDive>, n: int) -> Seq<char>
    decreases n,
{
    if n <= 0 {
        Seq::empty()
    } else {
        mdbook_dives(ds, n - 1) + "\n### "@ + ds[n - 1].title@ + "\n\n"@ + ds[n - 1].content@
            + "\n"@
    }
}

/// The deep-dives block of the reference-doc variation.
pub open spec fn mdbook_dd_block(v: Option<crate::article::MdBookArticle>) -> Seq<char> {
    match v {
        Some(m) => if m.deep_dives@.len() > 0 {
            "\n---\n\n## Deep Dives\n\n"@ + mdbook_dives(m.deep_dives@, m.deep_dives@.len() as int)
                + "\n"@
        } else {
            Seq::empty()
        },
        None => Seq::empty(),
    }
}

/// The implementation-notes block of the reference-doc variation.
pub open spec fn mdbook_impl_block(v: Option<crate::article::MdBookArticle>) -> Seq<char> {
    match v {
        Some(m) => match m.implementation_notes {
            Some(notes) => if notes@.len() > 0 {
                "\n---\n\n## Implementation Notes\n\n"@ + notes@ + "\n"@
            } else {
                Seq::empty()
            },
            None => Seq::empty(),
        },
        None => Seq::empty(),
    }
}

/// The complexity-analysis block of the reference-doc variation.
pub open spec fn mdbook_comp_block(v: Option<crate::article::MdBookArticle>) -> Seq<char> {
    match v {
        Some(m) => match m.complexity_analysis {
            Some(ca) => if ca@.len() > 0 {
                "\n---\n\n## Complexity Analysis\n\n"@ + ca@ + "\n"@
            } else {
                Seq::empty()
            },
            None => Seq::empty(),
        },
        None => Seq::empty(),
    }
}

/// The whole narrative block, empty when the schema has no article.
pub open spec fn mdbook_article(a: Option<crate::article::Article>) -> Seq<char> {
    (match a {
        Some(a) => "\n"@ + mdbook_hook(a) + "\n\n"@ + mdbook_sections(
            mdbook_article_sections(a),
            mdbook_article_sections(a).len() as int,
        ) + "\n\n"@ + mdbook_dd_block(mdbook_variation(a)) + "\n\n"@ + mdbook_impl_block(
            mdbook_variation(a),
        ) + "\n\n"@ + mdbook_comp_block(mdbook_variation(a)) + "\n\n"@,
        None => Seq::empty(),
    }) + "\n\n## Examples\n\n"@
}

/// One rendered example: title, explanation, and collapsible code blocks
/// for all three languages, with the expected output when present.
pub open spec fn mdbook_example(e: Example) -> Seq<char> {
    "\n### "@ + e.title@ + "\n\n"@ + e.explanation@
        + "\n\n<details>\n<summary><b>Rust</b></summary>\n\n```rust\n"@ + e.code.rust@
        + "\n```\n</details>\n\n<details>\n<summary><b>Python</b></summary>\n\n```python\n"@
        + e.code.python@
        + "\n```\n</details>\n\n<details>\n<summary><b>JavaScript</b></summary>\n\n```javascript\n"@
        + e.code.nodejs@ + "\n```\n</details>\n\n"@ + (match e.expected_output {
        Some(o) => if o@.len() > 0 {
            "\n**Expected Output:**\n```\n"@ + o@ + "\n```\n"@
        } else {
            Seq::empty()
        },
        None => Seq::empty(),
    }) + "\n\n"@
}

/// The rendered example list.
pub open spec fn mdbook_examples(es: Seq<Example>, n: int) -> Seq<char>
    decreases n,
{
    if n <= 0 {
        Seq::empty()
    } else {
        mdbook_examples(es, n - 1) + mdbook_example(es[n - 1])
    }
}

/// The optional performance block.
pub open spec fn mdbook_perf(p: Option<Performance>) -> Seq<char> {
    match p {
        Some(p) => if p.complexity@.len() > 0 {
            "\n## Performance\n\n**Time Complexity**: "@ + p.complexity@ + "\n"@
        } else {
            Seq::empty()
        },
        None => Seq::empty(),
    }
}

/// The API-reference block; a schema without code references lists empty
/// paths.
pub open spec fn mdbook_api_ref(cr: Option<CodeReferences>) -> Seq<char> {
    "\n\n## API Reference\n\n- **Rust**: `"@ + (match cr {
        Some(c) => c.rust@,
        None => Seq::empty(),
    }) + "`\n- **Python**: `"@ + (match cr {
        Some(c) => c.python@,
        None => Seq::empty(),
    }) + "`\n- **JavaScript**: `"@ + (match cr {
        Some(c) => c.nodejs@,
        None => Seq::empty(),
    }) + "`\n\n"@
}

/// The see-also link lines, each topic linked at its slash path.
pub open spec fn mdbook_related_lines(ts: Seq<Seq<char>>, n: int) -> Seq<char>
    decreases n,
{
    if n <= 0 {
        Seq::empty()
    } else {
        mdbook_related_lines(ts, n - 1) + "\n- ["@ + ts[n - 1] + "](../"@ + spec_replaced(
            ts[n - 1],
            '.',
            '/',
        ) + ".md)\n"@
    }
}

/// The see-also block, absent when there are no related topics.
pub open spec fn mdbook_related(ts: Seq<Seq<char>>) -> Seq<char> {
    (if ts.len() > 0 {
        "\n## See Also\n\n"@ + mdbook_related_lines(ts, ts.len() as int) + "\n"@
    } else {
        Seq::empty()
    }) + "\n"@
}

/// The closing part of the page: performance, API references, see-also.
pub open spec fn mdbook_tail(s: Schema) -> Seq<char> {
    mdbook_perf(s.performance) + mdbook_api_ref(s.code_refs) + mdbook_related(
        s.related_topics@.map_values(|x: String| x@),
    )
}

/// The whole reference-doc page for a schema.
pub open spec fn mdbook_output(s: Schema) -> Seq<char> {
    mdbook_frontmatter(s.seo) + mdbook_head(s) + mdbook_math(s) + mdbook_article(s.article)
        + mdbook_examples(s.examples@, s.examples@.len() as int) + "\n\n"@ + mdbook_tail(s)
}

/// Appends a quoted frontmatter line, or a bare newline.
fn append_fm_quoted(out: &mut String, prefix: &str, v: Option<&String>)
    ensures
        final(out)@ == old(out)@ + fm_quoted_line(
            prefix@,
            match v {
                Some(x) => Some(x@),
                None => None,
            },
        ),
{
    match v {
        Some(x) => {
            if x.as_str().unicode_len() > 0 {
                out.append(prefix);
                out.append(x.as_str());
                out.append("\"\n");
                proof {
                    assert(out@ =~= old(out)@ + (prefix@ + x@ + "\"\n"@));
                }
            } else {
                out.append("\n");
            }
        },
        None => {
            out.append("\n");
        },
    }
}

/// Joins strings with `", "`.
pub fn join_comma_string(items: &Vec<String>) -> (r: String)
    ensures
        r@ == join_comma(items@.map_values(|x: String| x@), items@.len() as int),
{
    let mut out = String::new();
    let n = items.len();
    let mut j: usize = 0;
    while j < n
        invariant
            n == items@.len(),
            j <= n,
            out@ == join_comma(items@.map_values(|x: String| x@), j as int),
        decreases n - j,
    {
        if j > 0 {
            out.append(", ");
        }
        out.append(items[j].as_str());
        j = j + 1;
        proof {
            assert(out@ =~= join_comma(items@.map_values(|x: String| x@), j as int));
        }
    }
    out
}

/// Reference-doc markdown generator.
#[derive(Debug, Clone, PartialEq)]
pub struct MdBookGenerator {}

impl MdBookGenerator {
    /// Creates a new reference-doc generator; never fails.
    pub fn new() -> (r: Result<Self, KbError>)
        ensures
            r is Ok,
    {
        Ok(MdBookGenerator {  })
    }

    #[verifier::rlimit(100)]
    fn append_frontmatter(&self, out: &mut String, seo: &Option<SeoMetadata>)
        ensures
            final(out)@ == old(out)@ + mdbook_frontmatter(*seo),
    {
        out.append("---\n");
        match seo {
            Some(seo) => {
                let ghost p0 = out@;
                append_fm_quoted(out, "description: \"", seo.meta_description.as_ref());
                let ghost p1 = out@;
                let joined = join_comma_string(&seo.keywords);
                if joined.as_str().unicode_len() > 0 {
                    out.append("keywords: ");
                    out.append(joined.as_str());
                    out.append("\n");
                } else {
                    out.append("\n");
                }
                proof {
                    assert(out@ =~= p1 + fm_keywords_line(Some(*seo)));
                }
                append_fm_quoted(out, "canonical_url: \"", seo.canonical_url.as_ref());
                proof {
                    assert(out@ =~= p0 + fm_seo_a(*seo));
                }
                let ghost pa = out@;
                append_fm_quoted(out, "og:title: \"", seo.og_title.as_ref());
                append_fm_quoted(out, "og:description: \"", seo.og_description.as_ref());
                append_fm_quoted(out, "og:image: \"", seo.og_image.as_ref());
                proof {
                    assert(out@ =~= pa + fm_seo_b(*seo));
                }
                let ghost pb = out@;
                append_fm_quoted(out, "twitter:card: \"", Some(&seo.twitter_card));
                append_fm_quoted(out, "schema_type: \"", seo.schema_org_type.as_ref());
                append_fm_quoted(out, "language: \"", Some(&seo.language));
                proof {
                    assert(out@ =~= pb + fm_seo_c(*seo));
                    assert(out@ =~= p0 + fm_seo_lines(*seo));
                }
            },
            None => {
                out.append("\n\n\n\n\n\n\n\n\n");
            },
        }
        out.append("---\n\n");
        proof {
            assert(out@ =~= old(out)@ + mdbook_frontmatter(*seo));
        }
    }

    /// Renders the page body for a schema.
    fn generate_page(&self, schema: &Schema) -> (r: String)
        ensures
            r@ == mdbook_output(*schema),
    {
        let mut out = String::new();
        self.append_frontmatter(&mut out, &schema.seo);
        out.append("# ");
        out.append(schema.title.as_str());
        out.append("\n\n> **Topic**: `");
        out.append(schema.topic.as_str());
        out.append("`\n\n");
        out.append(schema.description.as_str());
        out.append("\n\n");
        proof {
            assert(out@ =~= mdbook_frontmatter(schema.seo) + mdbook_head(*schema));
        }
        let ghost p1 = out@;
        if let Some(m) = &schema.mathematical_definition {
            if m.as_str().unicode_len() > 0 {
                out.append("\n## Mathematical Definition\n\n$$");
                out.append(m.as_str());
                out.append("$$\n");
            }
        }
        out.append("\n\n");
        proof {
            assert(out@ =~= p1 + mdbook_math(*schema));
        }
        self.append_article(&mut out, &schema.article);
        let ghost p8 = out@;
        let n = schema.examples.len();
        let mut i: usize = 0;
        while i < n
            invariant
                n == schema.examples@.len(),
                i <= n,
                out@ == p8 + mdbook_examples(schema.examples@, i as int),
            decreases n - i,
        {
            self.append_example(&mut out, &schema.examples[i]);
            i = i + 1;
            proof {
                assert(out@ =~= p8 + mdbook_examples(schema.examples@, i as int));
            }
        }
        out.append("\n\n");
        self.append_tail(&mut out, schema);
        proof {
            assert(out@ =~= mdbook_output(*schema));
        }
        out
    }

    /// Appends the narrative block and the examples heading.
    #[verifier::rlimit(100)]
    fn append_article(&self, out: &mut String, a: &Option<crate::article::Article>)
        ensures
            final(out)@ == old(out)@ + mdbook_article(*a),
    {
        if let Some(article) = a {
            out.append("\n");
            match article {
                crate::article::Article::Simple(sa) => {
                    out.append(sa.content.as_str());
                },
                crate::article::Article::Structured(b) => {
                    out.append(b.introduction.hook.as_str());
                },
            }
            out.append("\n\n");
            let ghost p3 = out@;
            proof {
                assert(p3 =~= old(out)@ + "\n"@ + mdbook_hook(*article) + "\n\n"@);
            }
            match article {
                crate::article::Article::Simple(_) => {
                    proof {
                        assert(out@ =~= p3 + mdbook_sections(
                            mdbook_article_sections(*article),
                            mdbook_article_sections(*article).len() as int,
                        ));
                    }
                },
                crate::article::Article::Structured(b) => {
                    let secs = &(**b).sections;
                    let n = secs.len();
                    let mut i: usize = 0;
                    while i < n
                        invariant
                            n == secs@.len(),
                            i <= n,
                            out@ == p3 + mdbook_sections(secs@, i as int),
                        decreases n - i,
                    {
                        out.append("\n## ");
                        out.append(secs[i].title.as_str());
                        out.append("\n\n");
                        out.append(secs[i].content.as_str());
                        out.append("\n");
                        i = i + 1;
                        proof {
                            assert(out@ =~= p3 + mdbook_sections(secs@, i as int));
                        }
                    }
                    proof {
                        assert(mdbook_article_sections(*article) == secs@);
                    }
                },
            }
            out.append("\n\n");
            let variation = match article {
                crate::article::Article::Simple(_) => None,
                crate::article::Article::Structured(b) => match &(**b).variations {
                    Some(v) => v.mdbook.as_ref(),
                    None => None,
                },
            };
            proof {
                match variation {
                    Some(m) => {
                        assert(mdbook_variation(*article) == Some(*m));
                    },
                    None => {
                        assert(mdbook_variation(*article) is None);
                    },
                }
            }
            self.append_variation_blocks(out, variation);
            out.append("\n\n");
        }
        out.append("\n\n## Examples\n\n");
        proof {
            assert(out@ =~= old(out)@ + mdbook_article(*a));
        }
    }

    /// Appends the deep-dive, implementation-notes and complexity blocks of
    /// the reference-doc variation.
    #[verifier::rlimit(100)]
    fn append_variation_blocks(
        &self,
        out: &mut String,
        variation: Option<&crate::article::MdBookArticle>,
    )
        ensures
            final(out)@ == old(out)@ + mdbook_dd_block(
                match variation {
                    Some(m) => Some(*m),
                    None => None,
                },
            ) + "\n\n"@ + mdbook_impl_block(
                match variation {
                    Some(m) => Some(*m),
                    None => None,
                },
            ) + "\n\n"@ + mdbook_comp_block(
                match variation {
                    Some(m) => Some(*m),
                    None => None,
                },
            ),
    {
        let ghost v = match variation {
            Some(m) => Some(*m),
            None => None,
        };
        if let Some(m) = variation {
            if m.deep_dives.len() > 0 {
                out.append("\n---\n\n## Deep Dives\n\n");
                let ghost p5 = out@;
                let nd = m.deep_dives.len();
                let mut i: usize = 0;
                while i < nd
                    invariant
                        nd == m.deep_dives@.len(),
                        i <= nd,
                        out@ == p5 + mdbook_dives(m.deep_dives@, i as int),
                    decreases nd - i,
                {
                    out.append("\n### ");
                    out.append(m.deep_dives[i].title.as_str());
                    out.append("\n\n");
                    out.append(m.deep_dives[i].content.as_str());
                    out.append("\n");
                    i = i + 1;
                    proof {
                        assert(out@ =~= p5 + mdbook_dives(m.deep_dives@, i as int));
                    }
                }
                out.append("\n");
            }
        }
        proof {
            assert(out@ =~= old(out)@ + mdbook_dd_block(v));
        }
        out.append("\n\n");
        let ghost p6 = out@;
        if let Some(m) = variation {
            if let Some(notes) = &m.implementation_notes {
                if notes.as_str().unicode_len() > 0 {
                    out.append("\n---\n\n## Implementation Notes\n\n");
                    out.append(notes.as_str());
                    out.append("\n");
                }
            }
        }
        proof {
            assert(out@ =~= p6 + mdbook_impl_block(v));
        }
        out.append("\n\n");
        let ghost p7 = out@;
        if let Some(m) = variation {
            if let Some(ca) = &m.complexity_analysis {
                if ca.as_str().unicode_len() > 0 {
                    out.append("\n---\n\n## Complexity Analysis\n\n");
                    out.append(ca.as_str());
                    out.append("\n");
                }
            }
        }
        proof {
            assert(out@ =~= p7 + mdbook_comp_block(v));
        }
    }

    /// Appends the performance, API-reference and see-also blocks.
    #[verifier::rlimit(100)]
    fn append_tail(&self, out: &mut String, schema: &Schema)
        ensures
            final(out)@ == old(out)@ + mdbook_tail(*schema),
    {
        if let Some(p) = &schema.performance {
            if p.complexity.as_str().unicode_len() > 0 {
                out.append("\n## Performance\n\n**Time Complexity**: ");
                out.append(p.complexity.as_str());
                out.append("\n");
            }
        }
        proof {
            assert(out@ =~= old(out)@ + mdbook_perf(schema.performance));
        }
        let ghost p9 = out@;
        out.append("\n\n## API Reference\n\n- **Rust**: `");
        if let Some(cr) = &schema.code_refs {
            out.append(cr.rust.as_str());
        }
        out.append("`\n- **Python**: `");
        if let Some(cr) = &schema.code_refs {
            out.append(cr.python.as_str());
        }
        out.append("`\n- **JavaScript**: `");
        if let Some(cr) = &schema.code_refs {
            out.append(cr.nodejs.as_str());
        }
        out.append("`\n\n");
        proof {
            assert(out@ =~= p9 + mdbook_api_ref(schema.code_refs));
        }
        let ghost p10 = out@;
        if schema.related_topics.len() > 0 {
            out.append("\n## See Also\n\n");
            let ghost p11 = out@;
            let nt = schema.related_topics.len();
            let mut i: usize = 0;
            while i < nt
                invariant
                    nt == schema.related_topics@.len(),
                    i <= nt,
                    out@ == p11 + mdbook_related_lines(
                        schema.related_topics@.map_values(|x: String| x@),
                        i as int,
                    ),
                decreases nt - i,
            {
                out.append("\n- [");
                out.append(schema.related_topics[i].as_str());
                out.append("](../");
                crate::text::append_replaced(out, schema.related_topics[i].as_str(), '.', '/');
                out.append(".md)\n");
                i = i + 1;
                proof {
                    assert(out@ =~= p11 + mdbook_related_lines(
                        schema.related_topics@.map_values(|x: String| x@),
                        i as int,
                    ));
                }
            }
            out.append("\n");
        }
        out.append("\n");
        proof {
            assert(out@ =~= p10 + mdbook_related(
                schema.related_topics@.map_values(|x: String| x@),
            ));
        }
    }

    #[verifier::rlimit(100)]
    fn append_example(&self, out: &mut String, e: &Example)
        ensures
            final(out)@ == old(out)@ + mdbook_example(*e),
    {
        out.append("\n### ");
        out.append(e.title.as_str());
        out.append("\n\n");
        out.append(e.explanation.as_str());
        out.append("\n\n<details>\n<summary><b>Rust</b></summary>\n\n```rust\n");
        out.append(e.code.rust.as_str());
        out.append("\n```\n</details>\n\n<details>\n<summary><b>Python</b></summary>\n\n```python\n");
        out.append(e.code.python.as_str());
        out.append(
            "\n```\n</details>\n\n<details>\n<summary><b>JavaScript</b></summary>\n\n```javascript\n",
        );
        out.append(e.code.nodejs.as_str());
        out.append("\n```\n</details>\n\n");
        if let Some(o) = &e.expected_output {
            if o.as_str().unicode_len() > 0 {
                out.append("\n**Expected Output:**\n```\n");
                out.append(o.as_str());
                out.append("\n```\n");
            }
        }
        out.append("\n\n");
        proof {
            assert(out@ =~= old(out)@ + mdbook_example(*e));
        }
    }
}

impl Default for MdBookGenerator {
    /// The stock reference-doc generator.
    fn default() -> (r: Self)
        ensures
            true,
    {
        MdBookGenerator {  }
    }
}

impl OutputGenerator for MdBookGenerator {
    open spec fn spec_name(&self) -> Seq<char> {
        "mdbook"@
    }

    open spec fn spec_extension(&self) -> Seq<char> {
        "md"@
    }

    open spec fn spec_generate(&self, schema: Schema) -> Seq<char> {
        mdbook_output(schema)
    }

    /// Valid output is non-empty and carries a level-1 heading.
    open spec fn spec_validates(&self, output: Seq<char>) -> bool {
        output.len() > 0 && spec_contains(output, "# "@)
    }

    fn name(&self) -> (r: &str) {
        "mdbook"
    }

    fn file_extension(&self) -> (r: &str) {
        "md"
    }

    fn generate(&self, schema: &Schema) -> (r: Result<String, KbError>) {
        Ok(self.generate_page(schema))
    }

    fn validate_output(&self, output: &str) -> (r: Result<(), KbError>) {
        if output.unicode_len() == 0 {
            return Err(
                KbError::OutputValidationError {
                    generator: "mdbook".to_owned(),
                    message: "Output is empty".to_owned(),
                },
            );
        }
        if !str_contains(output, "# ") {
            return Err(
                KbError::OutputValidationError {
                    generator: "mdbook".to_owned(),
                    message: "Output must contain a title heading (#)".to_owned(),
                },
            );
        }
        Ok(())
    }
}


/// A schema without an article still renders: the output is never empty,
/// and it carries its required level-1 heading, which stands right after
/// the frontmatter block.
pub proof fn lemma_mdbook_fallback_valid(g: MdBookGenerator, s: Schema)
    requires
        s.article is None,
    ensures
        g.spec_generate(s).len() > 0,
        g.spec_validates(g.spec_generate(s)),
{
    reveal_strlit("# ");
    reveal_strlit("---\n");
    let out = mdbook_output(s);
    let fm = mdbook_frontmatter(s.seo);
    let at = fm.len() as int;
    assert(out.subrange(at, at + 2) =~= "# "@);
}

/// The structural check rejects empty input.
pub proof fn lemma_mdbook_rejects_empty(g: MdBookGenerator)
    ensures
        !g.spec_validates(Seq::empty()),
{
}

} // verus!
