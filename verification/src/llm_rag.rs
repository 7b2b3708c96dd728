//! The retrieval-chunk renderer: splits one schema into independently
//! embeddable markdown chunks, each led by a metadata frontmatter header.
//! Strategy is by-example, by-section, or fixed-size; the fixed-size
//! strategy is a known gap and falls back to by-example chunking.

use vstd::prelude::*;
use crate::error::KbError;
use crate::generator::OutputGenerator;
use crate::schema::{Example, Schema, SeoMetadata};
use crate::text::{
    after_last, after_last_char, append_bullets, bullet_lines, dec_str, inc_sat, lower_of,
    lowercase, sat_inc, spec_contains, spec_replaced, str_contains,
};

verus! {

/// Strategy for chunking documentation.
#[derive(Debug, Clone, PartialEq, Eq, Structural)]
pub enum ChunkStrategy {
    /// One chunk per example.
    ByExample,
    /// One chunk per section.
    BySection,
    /// Fixed-size chunking with overlap.
    FixedSize { size: usize, overlap: usize },
}

impl Default for ChunkStrategy {
    /// The default strategy: by example.
    fn default() -> (r: Self)
        ensures
            r == ChunkStrategy::ByExample,
    {
        ChunkStrategy::ByExample
    }
}

/// Metadata for one documentation chunk.
#[derive(Debug, Clone, PartialEq)]
pub struct ChunkMetadata {
    /// Unique identifier: the topic with dots as underscores, two colons,
    /// then the chunk index.
    pub id: String,
    /// Topic this chunk belongs to.
    pub topic: String,
    /// Section or example title.
    pub title: String,
    /// Keywords for retrieval.
    pub keywords: Vec<String>,
    /// Languages featured in this chunk.
    pub languages: Vec<String>,
    /// Chunk index in the document.
    pub chunk_index: usize,
    /// Total chunks in the document.
    pub total_chunks: usize,
    /// Embedding priority ("high", "medium", "low").
    pub priority: String,
}

/// The chunk id for a topic and index.
pub open spec fn chunk_id(topic: Seq<char>, idx: nat) -> Seq<char> {
    spec_replaced(topic, '.', '_') + "::"@ + dec_str(idx)
}


impl ChunkMetadata {
    /// Creates metadata for one chunk, with the default language list, no
    /// keywords, and medium priority.
    pub fn new(topic: String, title: String, chunk_index: usize, total_chunks: usize) -> (r: Self)
        ensures
            r.id@ == chunk_id(topic@, chunk_index as nat),
            r.topic@ == topic@,
            r.title@ == title@,
            r.keywords@.len() == 0,
            r.languages@.map_values(|x: String| x@) == seq!["rust"@, "python"@, "javascript"@],
            r.chunk_index == chunk_index,
            r.total_chunks == total_chunks,
            r.priority@ == "medium"@,
    {
        let mut id = crate::text::replaced_string(topic.as_str(), '.', '_');
        id.append("::");
        crate::text::append_u64(&mut id, chunk_index as u64);
        proof {
            assert(id@ =~= chunk_id(topic@, chunk_index as nat));
        }
        let mut languages: Vec<String> = Vec::new();
        languages.push("rust".to_owned());
        languages.push("python".to_owned());
        languages.push("javascript".to_owned());
        proof {
            assert(languages@.map_values(|x: String| x@) =~= seq![
                "rust"@,
                "python"@,
                "javascript"@,
            ]);
        }
        ChunkMetadata {
            id,
            topic,
            title,
            keywords: Vec::new(),
            languages,
            chunk_index,
            total_chunks,
            priority: "medium".to_owned(),
        }
    }

    /// Replaces the keyword list.
    pub fn with_keywords(self, keywords: Vec<String>) -> (r: Self)
        ensures
            r.keywords == keywords,
            r.id == self.id,
            r.topic == self.topic,
            r.title == self.title,
            r.languages == self.languages,
            r.chunk_index == self.chunk_index,
            r.total_chunks == self.total_chunks,
            r.priority == self.priority,
    {
        ChunkMetadata { keywords, ..self }
    }

    /// Replaces the priority.
    pub fn with_priority(self, priority: String) -> (r: Self)
        ensures
            r.priority == priority,
            r.id == self.id,
            r.topic == self.topic,
            r.title == self.title,
            r.keywords == self.keywords,
            r.languages == self.languages,
            r.chunk_index == self.chunk_index,
            r.total_chunks == self.total_chunks,
    {
        ChunkMetadata { priority, ..self }
    }
}

/// One retrieval chunk: its metadata and its markdown body.
#[derive(Debug, Clone, PartialEq)]
pub struct Chunk {
    pub metadata: ChunkMetadata,
    pub content: String,
}

/// The keyword lines of the frontmatter, one `  - keyword` line each.
pub open spec fn kw_lines(kws: Seq<Seq<char>>, n: int) -> Seq<char>
    decreases n,
{
    if n <= 0 {
        Seq::empty()
    } else {
        kw_lines(kws, n - 1) + "  - "@ + kws[n - 1] + "\n"@
    }
}

/// The language list joined with comma and space.
pub open spec fn join_comma(ls: Seq<Seq<char>>, n: int) -> Seq<char>
    decreases n,
{
    if n <= 0 {
        Seq::empty()
    } else if n == 1 {
        ls[0]
    } else {
        join_comma(ls, n - 1) + ", "@ + ls[n - 1]
    }
}

/// The SEO lines propagated into each chunk's frontmatter.
pub open spec fn seo_lines(seo: Option<SeoMetadata>) -> Seq<char> {
    match seo {
        None => Seq::empty(),
        Some(seo) => (match seo.meta_description {
            Some(md) => "description: \""@ + md@ + "\"\n"@,
            None => Seq::empty(),
        }) + (if seo.keywords@.len() > 0 {
            "seo_keywords:\n"@ + kw_lines(
                seo.keywords@.map_values(|x: String| x@),
                seo.keywords@.len() as int,
            )
        } else {
            Seq::empty()
        }) + (match seo.canonical_url {
            Some(cu) => "canonical_url: \""@ + cu@ + "\"\n"@,
            None => Seq::empty(),
        }),
    }
}

/// The fixed head of a chunk's frontmatter: delimiter, id, topic, title
/// and priority lines.
pub open spec fn chunk_front(
    id: Seq<char>,
    topic: Seq<char>,
    title: Seq<char>,
    priority: Seq<char>,
) -> Seq<char> {
    "---\n"@ + "chunk_id: "@ + id + "\n"@ + "topic: "@ + topic + "\n"@ + "title: "@ + title
        + "\n"@ + "priority: "@ + priority + "\n"@
}

/// The keyword block of the frontmatter, empty when there are no keywords.
pub open spec fn kw_block(keywords: Seq<Seq<char>>) -> Seq<char> {
    if keywords.len() > 0 {
        "keywords:\n"@ + kw_lines(keywords, keywords.len() as int)
    } else {
        Seq::empty()
    }
}

/// The language line of the frontmatter.
pub open spec fn lang_block(languages: Seq<Seq<char>>) -> Seq<char> {
    "languages: ["@ + join_comma(languages, languages.len() as int) + "]\n"@
}

/// The `chunk: i/n` line, with the one-based position.
pub open spec fn chunk_line(idx: nat, total: nat) -> Seq<char> {
    "chunk: "@ + dec_str(idx + 1) + "/"@ + dec_str(total) + "\n"@
}

/// One rendered chunk: frontmatter between `---` delimiters, then the body.
pub open spec fn chunk_block(
    id: Seq<char>,
    topic: Seq<char>,
    title: Seq<char>,
    priority: Seq<char>,
    keywords: Seq<Seq<char>>,
    languages: Seq<Seq<char>>,
    idx: nat,
    total: nat,
    seo: Option<SeoMetadata>,
    content: Seq<char>,
) -> Seq<char> {
    chunk_front(id, topic, title, priority) + kw_block(keywords) + lang_block(languages)
        + chunk_line(idx, total) + seo_lines(seo) + "---\n\n"@ + content + "\n\n"@
}

/// The rendering of a chunk value.
pub open spec fn chunk_md(c: Chunk, seo: Option<SeoMetadata>) -> Seq<char> {
    chunk_block(
        c.metadata.id@,
        c.metadata.topic@,
        c.metadata.title@,
        c.metadata.priority@,
        c.metadata.keywords@.map_values(|x: String| x@),
        c.metadata.languages@.map_values(|x: String| x@),
        c.metadata.chunk_index as nat,
        c.metadata.total_chunks as nat,
        seo,
        c.content@,
    )
}

/// Appends one rendered chunk to `out`.
fn append_chunk_front(out: &mut String, c: &Chunk)
    ensures
        final(out)@ == old(out)@ + chunk_front(
            c.metadata.id@,
            c.metadata.topic@,
            c.metadata.title@,
            c.metadata.priority@,
        ),
{
    out.append("---\n");
    out.append("chunk_id: ");
    out.append(c.metadata.id.as_str());
    out.append("\n");
    out.append("topic: ");
    out.append(c.metadata.topic.as_str());
    out.append("\n");
    out.append("title: ");
    out.append(c.metadata.title.as_str());
    out.append("\n");
    out.append("priority: ");
    out.append(c.metadata.priority.as_str());
    out.append("\n");
    proof {
        assert(out@ =~= old(out)@ + chunk_front(
            c.metadata.id@,
            c.metadata.topic@,
            c.metadata.title@,
            c.metadata.priority@,
        ));
    }
}

/// Appends `  - item` lines for each keyword.
fn append_kw_lines(out: &mut String, items: &Vec<String>)
    ensures
        final(out)@ == old(out)@ + kw_lines(
            items@.map_values(|x: String| x@),
            items@.len() as int,
        ),
{
    let n = items.len();
    let mut j: usize = 0;
    while j < n
        invariant
            n == items@.len(),
            j <= n,
            out@ == old(out)@ + kw_lines(items@.map_values(|x: String| x@), j as int),
        decreases n - j,
    {
        out.append("  - ");
        out.append(items[j].as_str());
        out.append("\n");
        j = j + 1;
        proof {
            assert(out@ =~= old(out)@ + kw_lines(items@.map_values(|x: String| x@), j as int));
        }
    }
}

fn append_kw_block(out: &mut String, items: &Vec<String>)
    ensures
        final(out)@ == old(out)@ + kw_block(items@.map_values(|x: String| x@)),
{
    if items.len() > 0 {
        out.append("keywords:\n");
        append_kw_lines(out, items);
    }
    proof {
        assert(out@ =~= old(out)@ + kw_block(items@.map_values(|x: String| x@)));
    }
}

fn append_lang_block(out: &mut String, languages: &Vec<String>)
    ensures
        final(out)@ == old(out)@ + lang_block(languages@.map_values(|x: String| x@)),
{
    out.append("languages: [");
    let nl = languages.len();
    let mut j: usize = 0;
    while j < nl
        invariant
            nl == languages@.len(),
            j <= nl,
            out@ == old(out)@ + "languages: ["@ + join_comma(
                languages@.map_values(|x: String| x@),
                j as int,
            ),
        decreases nl - j,
    {
        if j > 0 {
            out.append(", ");
        }
        out.append(languages[j].as_str());
        j = j + 1;
        proof {
            assert(out@ =~= old(out)@ + "languages: ["@ + join_comma(
                languages@.map_values(|x: String| x@),
                j as int,
            ));
        }
    }
    out.append("]\n");
    proof {
        assert(out@ =~= old(out)@ + lang_block(languages@.map_values(|x: String| x@)));
    }
}

fn append_chunk_line(out: &mut String, idx: usize, total: usize)
    ensures
        final(out)@ == old(out)@ + chunk_line(idx as nat, total as nat),
{
    out.append("chunk: ");
    crate::text::append_u128(out, (idx as u128) + 1);
    out.append("/");
    crate::text::append_u128(out, total as u128);
    out.append("\n");
    proof {
        assert(out@ =~= old(out)@ + chunk_line(idx as nat, total as nat));
    }
}

fn append_seo_lines(out: &mut String, seo: &Option<SeoMetadata>)
    ensures
        final(out)@ == old(out)@ + seo_lines(*seo),
{
    match seo {
        None => {
            proof {
                assert(out@ =~= old(out)@ + seo_lines(None::<SeoMetadata>));
            }
        },
        Some(sm) => {
            if let Some(md) = &sm.meta_description {
                out.append("description: \"");
                out.append(md.as_str());
                out.append("\"\n");
            }
            if sm.keywords.len() > 0 {
                out.append("seo_keywords:\n");
                append_kw_lines(out, &sm.keywords);
            }
            if let Some(cu) = &sm.canonical_url {
                out.append("canonical_url: \"");
                out.append(cu.as_str());
                out.append("\"\n");
            }
            proof {
                assert(out@ =~= old(out)@ + seo_lines(Some(*sm)));
            }
        },
    }
}

/// Appends one rendered chunk to `out`.
fn append_chunk(out: &mut String, c: &Chunk, schema: &Schema)
    ensures
        final(out)@ == old(out)@ + chunk_md(*c, schema.seo),
{
    append_chunk_front(out, c);
    append_kw_block(out, &c.metadata.keywords);
    append_lang_block(out, &c.metadata.languages);
    append_chunk_line(out, c.metadata.chunk_index, c.metadata.total_chunks);
    append_seo_lines(out, &schema.seo);
    out.append("---\n\n");
    out.append(c.content.as_str());
    out.append("\n\n");
    proof {
        assert(out@ =~= old(out)@ + chunk_md(*c, schema.seo));
    }
}

/// The markdown body of one example chunk: the example under its own
/// heading, code in all three languages, and the expected output if any.
pub open spec fn example_chunk_content(e: Example) -> Seq<char> {
    "## "@ + e.title@ + "\n\n"@ + e.explanation@ + "\n\n"@ + "### Rust\n\n"@ + "```rust\n"@
        + e.code.rust@ + "\n```\n\n"@ + "### Python\n\n"@ + "```python\n"@ + e.code.python@
        + "\n```\n\n"@ + "### JavaScript\n\n"@ + "```javascript\n"@ + e.code.nodejs@ + "\n```\n\n"@
        + match e.expected_output {
        Some(o) => "### Expected Output\n\n"@ + "```\n"@ + o@ + "\n```\n\n"@,
        None => Seq::empty(),
    }
}

/// The optional mathematical-definition block of the overview chunk.
pub open spec fn overview_math_block(s: Schema) -> Seq<char> {
    match s.mathematical_definition {
        Some(md) => "### Mathematical Definition\n\n"@ + md@ + "\n\n"@,
        None => Seq::empty(),
    }
}

/// The optional use-cases block of the overview chunk.
pub open spec fn overview_use_cases_block(s: Schema) -> Seq<char> {
    if s.use_cases@.len() > 0 {
        "### Use Cases\n\n"@ + bullet_lines(
            s.use_cases@.map_values(|x: String| x@),
            s.use_cases@.len() as int,
        ) + "\n"@
    } else {
        Seq::empty()
    }
}

/// The optional related-topics block of the overview chunk.
pub open spec fn overview_related_block(s: Schema) -> Seq<char> {
    if s.related_topics@.len() > 0 {
        "### Related Topics\n\n"@ + bullet_lines(
            s.related_topics@.map_values(|x: String| x@),
            s.related_topics@.len() as int,
        ) + "\n"@
    } else {
        Seq::empty()
    }
}

/// The optional code-references block of the overview chunk.
pub open spec fn overview_code_refs_block(s: Schema) -> Seq<char> {
    match s.code_refs {
        Some(cr) => "### Code References\n\n"@ + "- **Rust**: `"@ + cr.rust@ + "`\n"@
            + "- **Python**: `"@ + cr.python@ + "`\n"@ + "- **JavaScript**: `"@ + cr.nodejs@
            + "`\n"@ + "\n"@,
        None => Seq::empty(),
    }
}

/// The markdown body of the single overview chunk used when a schema has no
/// examples: description, then the optional mathematical definition, use
/// cases, related topics, and code references.
pub open spec fn overview_content(s: Schema) -> Seq<char> {
    "## Overview\n\n"@ + s.description@ + "\n\n"@ + overview_math_block(s)
        + overview_use_cases_block(s) + overview_related_block(s) + overview_code_refs_block(s)
}

/// Retrieval-chunk markdown generator.
#[derive(Debug, Clone, PartialEq)]
pub struct LlmRagGenerator {
    pub chunk_strategy: ChunkStrategy,
    pub max_chunk_size: usize,
    pub embedding_priority: String,
}

/// The document header: title heading and description.
pub open spec fn rag_header(s: Schema) -> Seq<char> {
    "# "@ + s.title@ + "\n\n"@ + s.description@ + "\n\n"@
}

/// The fields of the example chunk at index `k`: its keywords are the last
/// topic segment and the lowercased example title.
pub open spec fn example_chunk_ok(c: Chunk, s: Schema, k: int, total: nat, priority: Seq<char>) -> bool {
    &&& c.metadata.id@ == chunk_id(s.topic@, k as nat)
    &&& c.metadata.topic@ == s.topic@
    &&& c.metadata.title@ == s.examples@[k].title@
    &&& c.metadata.priority@ == priority
    &&& c.metadata.keywords@.map_values(|x: String| x@) == seq![
        after_last(s.topic@, '.'),
        lower_of(s.examples@[k].title@),
    ]
    &&& c.metadata.languages@.map_values(|x: String| x@) == seq![
        "rust"@,
        "python"@,
        "javascript"@,
    ]
    &&& c.metadata.chunk_index == k
    &&& c.metadata.total_chunks == total
    &&& c.content@ == example_chunk_content(s.examples@[k])
}

/// The fields of the single overview chunk: index 0 of 1, titled
/// "Overview", at high priority.
pub open spec fn overview_chunk_ok(c: Chunk, s: Schema) -> bool {
    &&& c.metadata.id@ == chunk_id(s.topic@, 0)
    &&& c.metadata.topic@ == s.topic@
    &&& c.metadata.title@ == "Overview"@
    &&& c.metadata.priority@ == "high"@
    &&& c.metadata.keywords@.map_values(|x: String| x@) == seq![
        after_last(s.topic@, '.'),
        lower_of(s.title@),
    ]
    &&& c.metadata.languages@.map_values(|x: String| x@) == seq![
        "rust"@,
        "python"@,
        "javascript"@,
    ]
    &&& c.metadata.chunk_index == 0
    &&& c.metadata.total_chunks == 1
    &&& c.content@ == overview_content(s)
}

/// The rendered chunk sequence for the by-example strategy.
pub open spec fn example_chunks_md(s: Schema, priority: Seq<char>, n: int) -> Seq<char>
    decreases n,
{
    if n <= 0 {
        Seq::empty()
    } else {
        example_chunks_md(s, priority, n - 1) + chunk_block(
            chunk_id(s.topic@, (n - 1) as nat),
            s.topic@,
            s.examples@[n - 1].title@,
            priority,
            seq![after_last(s.topic@, '.'), lower_of(s.examples@[n - 1].title@)],
            seq!["rust"@, "python"@, "javascript"@],
            (n - 1) as nat,
            s.examples@.len(),
            s.seo,
            example_chunk_content(s.examples@[n - 1]),
        )
    }
}

/// The whole by-example output: header, then one chunk per example, or the
/// single overview chunk when there are no examples.
pub open spec fn by_example_output(priority: Seq<char>, s: Schema) -> Seq<char> {
    rag_header(s) + if s.examples@.len() == 0 {
        chunk_block(
            chunk_id(s.topic@, 0),
            s.topic@,
            "Overview"@,
            "high"@,
            seq![after_last(s.topic@, '.'), lower_of(s.title@)],
            seq!["rust"@, "python"@, "javascript"@],
            0,
            1,
            s.seo,
            overview_content(s),
        )
    } else {
        example_chunks_md(s, priority, s.examples@.len() as int)
    }
}

/// The rendered chunk sequence for the sections of a structured article.
pub open spec fn section_chunks_md(s: Schema, priority: Seq<char>, sections: Seq<
    crate::article::Section,
>, n: int) -> Seq<char>
    decreases n,
{
    if n <= 0 {
        Seq::empty()
    } else {
        section_chunks_md(s, priority, sections, n - 1) + chunk_block(
            chunk_id(s.topic@, n as nat),
            s.topic@,
            sections[n - 1].title@,
            priority,
            Seq::empty(),
            seq!["rust"@, "python"@, "javascript"@],
            n as nat,
            sat_inc(sections.len()),
            s.seo,
            "## "@ + sections[n - 1].title@ + "\n\n"@ + sections[n - 1].content@ + "\n\n"@,
        )
    }
}

/// The whole by-section output: a content chunk for a simple article, or an
/// introduction chunk plus one chunk per section for a structured one; a
/// schema without an article falls back to the by-example output.
pub open spec fn by_section_output(priority: Seq<char>, s: Schema) -> Seq<char> {
    match s.article {
        None => by_example_output(priority, s),
        Some(a) => rag_header(s) + match a {
            crate::article::Article::Simple(sa) => chunk_block(
                chunk_id(s.topic@, 0),
                s.topic@,
                "Content"@,
                "high"@,
                Seq::empty(),
                seq!["rust"@, "python"@, "javascript"@],
                0,
                1,
                s.seo,
                "## Content\n\n"@ + sa.content@ + "\n\n"@,
            ),
            crate::article::Article::Structured(b) => chunk_block(
                chunk_id(s.topic@, 0),
                s.topic@,
                "Introduction"@,
                "high"@,
                Seq::empty(),
                seq!["rust"@, "python"@, "javascript"@],
                0,
                sat_inc((*b).sections@.len()),
                s.seo,
                "## Introduction\n\n"@ + (*b).introduction.hook@ + "\n\n"@,
            ) + section_chunks_md(s, priority, (*b).sections@, (*b).sections@.len() as int),
        },
    }
}

/// The output of this generator for a schema, by its configured strategy;
/// the fixed-size strategy reproduces the by-example behaviour.
pub open spec fn rag_output(g: LlmRagGenerator, s: Schema) -> Seq<char> {
    match g.chunk_strategy {
        ChunkStrategy::ByExample => by_example_output(g.embedding_priority@, s),
        ChunkStrategy::BySection => by_section_output(g.embedding_priority@, s),
        ChunkStrategy::FixedSize { .. } => by_example_output(g.embedding_priority@, s),
    }
}

impl LlmRagGenerator {
    /// Creates a generator with the default settings: by-example chunking,
    /// 512-token chunks, medium priority.
    pub fn new() -> (r: Self)
        ensures
            r.chunk_strategy == ChunkStrategy::ByExample,
            r.max_chunk_size == 512,
            r.embedding_priority@ == "medium"@,
    {
        LlmRagGenerator {
            chunk_strategy: ChunkStrategy::ByExample,
            max_chunk_size: 512,
            embedding_priority: "medium".to_owned(),
        }
    }

    /// Builds a generator from the schema's retrieval-chunk hints, or with
    /// the defaults when the hint block is absent.
    pub fn from_schema(schema: &Schema) -> (r: Self)
        ensures
            match schema.outputs.llm_rag {
                None => r.chunk_strategy == ChunkStrategy::ByExample && r.max_chunk_size == 512
                    && r.embedding_priority@ == "medium"@,
                Some(h) => {
                    &&& r.chunk_strategy == (if h.chunk_strategy@ == "by_section"@ {
                        ChunkStrategy::BySection
                    } else if h.chunk_strategy@ == "fixed_size"@ {
                        ChunkStrategy::FixedSize {
                            size: h.max_chunk_size,
                            overlap: (h.max_chunk_size / 4) as usize,
                        }
                    } else {
                        ChunkStrategy::ByExample
                    })
                    &&& r.max_chunk_size == h.max_chunk_size
                    &&& r.embedding_priority@ == h.embedding_priority@
                },
            },
    {
        match &schema.outputs.llm_rag {
            Some(hints) => {
                let strategy = if crate::text::str_eq(hints.chunk_strategy.as_str(), "by_section") {
                    ChunkStrategy::BySection
                } else if crate::text::str_eq(hints.chunk_strategy.as_str(), "fixed_size") {
                    ChunkStrategy::FixedSize {
                        size: hints.max_chunk_size,
                        overlap: hints.max_chunk_size / 4,
                    }
                } else {
                    ChunkStrategy::ByExample
                };
                LlmRagGenerator {
                    chunk_strategy: strategy,
                    max_chunk_size: hints.max_chunk_size,
                    embedding_priority: hints.embedding_priority.clone(),
                }
            },
            None => LlmRagGenerator::new(),
        }
    }

    /// The chunk list for the by-example strategy. For a schema with K
    /// examples (K >= 1) there are exactly K chunks, indexed 0..K-1 in
    /// order, each declaring K as the total; with no examples there is
    /// exactly one chunk, titled "Overview".
    pub fn chunks_by_example(&self, schema: &Schema) -> (chunks: Vec<Chunk>)
        ensures
            schema.examples@.len() == 0 ==> chunks@.len() == 1 && overview_chunk_ok(
                chunks@[0],
                *schema,
            ),
            schema.examples@.len() >= 1 ==> chunks@.len() == schema.examples@.len() && forall|
                k: int,
            |
                0 <= k < chunks@.len() ==> example_chunk_ok(
                    #[trigger] chunks@[k],
                    *schema,
                    k,
                    schema.examples@.len(),
                    self.embedding_priority@,
                ),
    {
        let mut chunks: Vec<Chunk> = Vec::new();
        if schema.examples.len() == 0 {
            let mut keywords: Vec<String> = Vec::new();
            keywords.push(after_last_char(schema.topic.as_str(), '.'));
            keywords.push(lowercase(schema.title.as_str()));
            proof {
                assert(keywords@.map_values(|x: String| x@) =~= seq![
                    after_last(schema.topic@, '.'),
                    lower_of(schema.title@),
                ]);
            }
            let metadata = ChunkMetadata::new(
                schema.topic.clone(),
                "Overview".to_owned(),
                0,
                1,
            ).with_keywords(keywords).with_priority("high".to_owned());
            let content = self.overview_body(schema);
            chunks.push(Chunk { metadata, content });
            return chunks;
        }
        let total = schema.examples.len();
        let mut idx: usize = 0;
        while idx < total
            invariant
                total == schema.examples@.len(),
                idx <= total,
                chunks@.len() == idx,
                forall|k: int|
                    0 <= k < idx ==> example_chunk_ok(
                        #[trigger] chunks@[k],
                        *schema,
                        k,
                        schema.examples@.len(),
                        self.embedding_priority@,
                    ),
            decreases total - idx,
        {
            let example = &schema.examples[idx];
            let mut keywords: Vec<String> = Vec::new();
            keywords.push(after_last_char(schema.topic.as_str(), '.'));
            keywords.push(lowercase(example.title.as_str()));
            proof {
                assert(keywords@.map_values(|x: String| x@) =~= seq![
                    after_last(schema.topic@, '.'),
                    lower_of(schema.examples@[idx as int].title@),
                ]);
            }
            let metadata = ChunkMetadata::new(
                schema.topic.clone(),
                example.title.clone(),
                idx,
                total,
            ).with_keywords(keywords).with_priority(self.embedding_priority.clone());
            let content = example_body(example);
            chunks.push(Chunk { metadata, content });
            idx = idx + 1;
        }
        chunks
    }

    /// The markdown body of the overview chunk.
    #[verifier::rlimit(100)]
    fn overview_body(&self, schema: &Schema) -> (r: String)
        ensures
            r@ == overview_content(*schema),
    {
        let mut body = String::new();
        body.append("## Overview\n\n");
        body.append(schema.description.as_str());
        body.append("\n\n");
        let ghost head = body@;
        proof {
            assert(head =~= "## Overview\n\n"@ + schema.description@ + "\n\n"@);
        }
        if let Some(math_def) = &schema.mathematical_definition {
            body.append("### Mathematical Definition\n\n");
            body.append(math_def.as_str());
            body.append("\n\n");
        }
        proof {
            assert(body@ =~= head + overview_math_block(*schema));
        }
        let ghost p1 = body@;
        if schema.use_cases.len() > 0 {
            body.append("### Use Cases\n\n");
            append_bullets(&mut body, &schema.use_cases);
            body.append("\n");
        }
        proof {
            assert(body@ =~= p1 + overview_use_cases_block(*schema));
        }
        let ghost p2 = body@;
        if schema.related_topics.len() > 0 {
            body.append("### Related Topics\n\n");
            append_bullets(&mut body, &schema.related_topics);
            body.append("\n");
        }
        proof {
            assert(body@ =~= p2 + overview_related_block(*schema));
        }
        let ghost p3 = body@;
        if let Some(code_refs) = &schema.code_refs {
            body.append("### Code References\n\n");
            body.append("- **Rust**: `");
            body.append(code_refs.rust.as_str());
            body.append("`\n");
            body.append("- **Python**: `");
            body.append(code_refs.python.as_str());
            body.append("`\n");
            body.append("- **JavaScript**: `");
            body.append(code_refs.nodejs.as_str());
            body.append("`\n");
            body.append("\n");
        }
        proof {
            assert(body@ =~= p3 + overview_code_refs_block(*schema));
            assert(body@ =~= overview_content(*schema));
        }
        body
    }

    /// Renders the by-example output: header, then every chunk.
    #[verifier::rlimit(60)]
    fn generate_by_example(&self, schema: &Schema) -> (r: String)
        ensures
            r@ == by_example_output(self.embedding_priority@, *schema),
    {
        let mut out = String::new();
        out.append("# ");
        out.append(schema.title.as_str());
        out.append("\n\n");
        out.append(schema.description.as_str());
        out.append("\n\n");
        proof {
            assert(out@ =~= rag_header(*schema));
        }
        let chunks = self.chunks_by_example(schema);
        if schema.examples.len() == 0 {
            append_chunk(&mut out, &chunks[0], schema);
            proof {
                assert(out@ =~= by_example_output(self.embedding_priority@, *schema));
            }
            return out;
        }
        let n = chunks.len();
        let mut k: usize = 0;
        while k < n
            invariant
                n == chunks@.len(),
                n == schema.examples@.len(),
                n >= 1,
                k <= n,
                forall|j: int|
                    0 <= j < n ==> example_chunk_ok(
                        #[trigger] chunks@[j],
                        *schema,
                        j,
                        schema.examples@.len(),
                        self.embedding_priority@,
                    ),
                out@ == rag_header(*schema) + example_chunks_md(
                    *schema,
                    self.embedding_priority@,
                    k as int,
                ),
            decreases n - k,
        {
            append_chunk(&mut out, &chunks[k], schema);
            k = k + 1;
            proof {
                assert(out@ =~= rag_header(*schema) + example_chunks_md(
                    *schema,
                    self.embedding_priority@,
                    k as int,
                ));
            }
        }
        proof {
            assert(out@ =~= by_example_output(self.embedding_priority@, *schema));
        }
        out
    }

    /// Renders the by-section output; a schema without an article falls back
    /// to the by-example rendering.
    #[verifier::rlimit(60)]
    fn generate_by_section(&self, schema: &Schema) -> (r: String)
        ensures
            r@ == by_section_output(self.embedding_priority@, *schema),
    {
        let article = match &schema.article {
            None => {
                let r = self.generate_by_example(schema);
                proof {
                    assert(r@ =~= by_section_output(self.embedding_priority@, *schema));
                }
                return r;
            },
            Some(a) => a,
        };
        let mut out = String::new();
        out.append("# ");
        out.append(schema.title.as_str());
        out.append("\n\n");
        out.append(schema.description.as_str());
        out.append("\n\n");
        proof {
            assert(out@ =~= rag_header(*schema));
        }
        match article {
            crate::article::Article::Simple(simple) => {
                let metadata = ChunkMetadata::new(
                    schema.topic.clone(),
                    "Content".to_owned(),
                    0,
                    1,
                ).with_priority("high".to_owned());
                let mut content = String::new();
                content.append("## Content\n\n");
                content.append(simple.content.as_str());
                content.append("\n\n");
                proof {
                    assert(content@ =~= "## Content\n\n"@ + simple.content@ + "\n\n"@);
                }
                let chunk = Chunk { metadata, content };
                append_chunk(&mut out, &chunk, schema);
                proof {
                    assert(out@ =~= by_section_output(self.embedding_priority@, *schema));
                }
                out
            },
            crate::article::Article::Structured(structured) => {
                let structured = &**structured;
                let total = structured.sections.len();
                let total_decl = inc_sat(total);
                let intro_metadata = ChunkMetadata::new(
                    schema.topic.clone(),
                    "Introduction".to_owned(),
                    0,
                    total_decl,
                ).with_priority("high".to_owned());
                let mut intro_content = String::new();
                intro_content.append("## Introduction\n\n");
                intro_content.append(structured.introduction.hook.as_str());
                intro_content.append("\n\n");
                proof {
                    assert(intro_content@ =~= "## Introduction\n\n"@
                        + structured.introduction.hook@ + "\n\n"@);
                }
                let intro_chunk = Chunk { metadata: intro_metadata, content: intro_content };
                append_chunk(&mut out, &intro_chunk, schema);
                let ghost mid = out@;
                let mut idx: usize = 0;
                while idx < total
                    invariant
                        total == structured.sections@.len(),
                        total_decl as nat == sat_inc(total as nat),
                        idx <= total,
                        out@ == mid + section_chunks_md(
                            *schema,
                            self.embedding_priority@,
                            structured.sections@,
                            idx as int,
                        ),
                    decreases total - idx,
                {
                    let section = &structured.sections[idx];
                    let metadata = ChunkMetadata::new(
                        schema.topic.clone(),
                        section.title.clone(),
                        idx + 1,
                        total_decl,
                    ).with_priority(self.embedding_priority.clone());
                    let mut content = String::new();
                    content.append("## ");
                    content.append(section.title.as_str());
                    content.append("\n\n");
                    content.append(section.content.as_str());
                    content.append("\n\n");
                    proof {
                        assert(content@ =~= "## "@ + structured.sections@[idx as int].title@
                            + "\n\n"@ + structured.sections@[idx as int].content@ + "\n\n"@);
                    }
                    let chunk = Chunk { metadata, content };
                    append_chunk(&mut out, &chunk, schema);
                    idx = idx + 1;
                    proof {
                        assert(out@ =~= mid + section_chunks_md(
                            *schema,
                            self.embedding_priority@,
                            structured.sections@,
                            idx as int,
                        ));
                    }
                }
                proof {
                    assert(out@ =~= by_section_output(self.embedding_priority@, *schema));
                }
                out
            },
        }
    }
}

impl Default for LlmRagGenerator {
    /// The default generator configuration.
    fn default() -> (r: Self)
        ensures
            r.chunk_strategy == ChunkStrategy::ByExample,
            r.max_chunk_size == 512,
            r.embedding_priority@ == "medium"@,
    {
        LlmRagGenerator::new()
    }
}

/// The markdown body of one example chunk.
fn example_body(e: &Example) -> (r: String)
    ensures
        r@ == example_chunk_content(*e),
{
    let mut body = String::new();
    body.append("## ");
    body.append(e.title.as_str());
    body.append("\n\n");
    body.append(e.explanation.as_str());
    body.append("\n\n");
    body.append("### Rust\n\n");
    body.append("```rust\n");
    body.append(e.code.rust.as_str());
    body.append("\n```\n\n");
    body.append("### Python\n\n");
    body.append("```python\n");
    body.append(e.code.python.as_str());
    body.append("\n```\n\n");
    body.append("### JavaScript\n\n");
    body.append("```javascript\n");
    body.append(e.code.nodejs.as_str());
    body.append("\n```\n\n");
    if let Some(expected_output) = &e.expected_output {
        body.append("### Expected Output\n\n");
        body.append("```\n");
        body.append(expected_output.as_str());
        body.append("\n```\n\n");
    }
    proof {
        assert(body@ =~= example_chunk_content(*e));
    }
    body
}

impl OutputGenerator for LlmRagGenerator {
    open spec fn spec_name(&self) -> Seq<char> {
        "llm-rag"@
    }

    open spec fn spec_extension(&self) -> Seq<char> {
        "md"@
    }

    open spec fn spec_generate(&self, schema: Schema) -> Seq<char> {
        rag_output(*self, schema)
    }

    /// Valid output must carry a frontmatter delimiter, a chunk id field,
    /// and a topic field.
    open spec fn spec_validates(&self, output: Seq<char>) -> bool {
        spec_contains(output, "---\n"@) && spec_contains(output, "chunk_id:"@) && spec_contains(
            output,
            "topic:"@,
        )
    }

    fn name(&self) -> (r: &str) {
        "llm-rag"
    }

    fn file_extension(&self) -> (r: &str) {
        "md"
    }

    fn generate(&self, schema: &Schema) -> (r: Result<String, KbError>) {
        match &self.chunk_strategy {
            ChunkStrategy::ByExample => Ok(self.generate_by_example(schema)),
            ChunkStrategy::BySection => Ok(self.generate_by_section(schema)),
            ChunkStrategy::FixedSize { .. } => Ok(self.generate_by_example(schema)),
        }
    }

    fn validate_output(&self, output: &str) -> (r: Result<(), KbError>) {
        if !str_contains(output, "---\n") {
            return Err(
                KbError::OutputValidationError {
                    generator: "llm-rag".to_owned(),
                    message: "Output must contain YAML frontmatter (---)".to_owned(),
                },
            );
        }
        if !str_contains(output, "chunk_id:") {
            return Err(
                KbError::OutputValidationError {
                    generator: "llm-rag".to_owned(),
                    message: "Output must contain chunk_id metadata".to_owned(),
                },
            );
        }
        if !str_contains(output, "topic:") {
            return Err(
                KbError::OutputValidationError {
                    generator: "llm-rag".to_owned(),
                    message: "Output must contain topic metadata".to_owned(),
                },
            );
        }
        Ok(())
    }
}


/// A schema without an article still renders, through the by-example (or
/// overview) fallback: the output is never empty.
pub proof fn lemma_rag_fallback_nonempty(g: LlmRagGenerator, s: Schema)
    requires
        s.article is None,
    ensures
        g.spec_generate(s).len() > 0,
{
    reveal_strlit("# ");
}

/// The structural check rejects empty input.
pub proof fn lemma_rag_rejects_empty(g: LlmRagGenerator)
    ensures
        !g.spec_validates(Seq::empty()),
{
    reveal_strlit("---\n");
}

} // verus!
