//! The schema data model: the in-memory representation of one documentation
//! topic. A schema is built once by the loader, validated, and then read-only
//! input to every renderer.

use vstd::prelude::*;
use crate::article::Article;

verus! {

/// Main schema structure for a documentation topic.
#[derive(Debug, Clone, PartialEq)]
pub struct Schema {
    /// Unique dotted topic identifier (e.g. `calculus.derivative`).
    pub topic: String,
    /// Human-readable title.
    pub title: String,
    /// Detailed description of the function or concept.
    pub description: String,
    /// Mathematical definition in typeset (LaTeX) notation.
    pub mathematical_definition: Option<String>,
    /// Code references across languages.
    pub code_refs: Option<CodeReferences>,
    /// Code examples demonstrating usage.
    pub examples: Vec<Example>,
    /// Rich narrative article content.
    pub article: Option<Article>,
    /// Use cases and applications.
    pub use_cases: Vec<String>,
    /// Related topics.
    pub related_topics: Vec<String>,
    /// Performance characteristics.
    pub performance: Option<Performance>,
    /// Interactive playground configuration.
    pub interactive_playground: Option<PlaygroundConfig>,
    /// Output-specific hints.
    pub outputs: OutputHints,
    /// Schema metadata.
    pub metadata: Option<Metadata>,
    /// SEO optimization data.
    pub seo: Option<SeoMetadata>,
}

/// Code references for different language bindings.
#[derive(Debug, Clone, PartialEq)]
pub struct CodeReferences {
    /// Rust function path (e.g. `mathhook_core::calculus::derivative`).
    pub rust: String,
    /// Python function path; optional, empty when absent.
    pub python: String,
    /// Node.js function path; optional, empty when absent.
    pub nodejs: String,
}

/// A code example with multi-language support.
#[derive(Debug, Clone, PartialEq)]
pub struct Example {
    /// Example title (e.g. "Power Rule").
    pub title: String,
    /// Explanation of what this example demonstrates; may be empty.
    pub explanation: String,
    /// Code snippets in different languages.
    pub code: CodeSnippets,
    /// Expected output, if any.
    pub expected_output: Option<String>,
}

/// Code snippets in the supported languages; each may be empty.
#[derive(Debug, Clone, PartialEq)]
pub struct CodeSnippets {
    pub rust: String,
    pub python: String,
    pub nodejs: String,
}

/// Performance characteristics.
#[derive(Debug, Clone, PartialEq)]
pub struct Performance {
    /// Time complexity (e.g. "O(n)").
    pub complexity: String,
    /// Typical execution time.
    pub typical_time: Option<String>,
    /// Benchmark data as ordered key/value pairs.
    pub benchmarks: Vec<(String, String)>,
}

/// Interactive playground configuration.
#[derive(Debug, Clone, PartialEq)]
pub struct PlaygroundConfig {
    pub enabled: bool,
    pub default_expression: String,
    pub default_variable: String,
}

/// Output-specific hints: one optional block per output format.
#[derive(Debug, Clone, PartialEq)]
pub struct OutputHints {
    pub jupyter: Option<JupyterHints>,
    pub mdbook: Option<MdBookHints>,
    pub vue_site: Option<VueSiteHints>,
    pub api_docs: Option<ApiDocsHints>,
    pub llm_rag: Option<LlmRagHints>,
    pub colab: Option<ColabHints>,
    pub latex: Option<LatexHints>,
}

impl OutputHints {
    /// Whether no hint block is present at all.
    pub fn is_default(&self) -> (r: bool)
        ensures
            r == (self.jupyter is None && self.mdbook is None && self.vue_site is None
                && self.api_docs is None && self.llm_rag is None && self.colab is None
                && self.latex is None),
    {
        self.jupyter.is_none() && self.mdbook.is_none() && self.vue_site.is_none()
            && self.api_docs.is_none() && self.llm_rag.is_none() && self.colab.is_none()
            && self.latex.is_none()
    }
}

impl Default for OutputHints {
    /// The empty hint set: every block absent.
    fn default() -> (r: Self)
        ensures
            r.jupyter is None,
            r.mdbook is None,
            r.vue_site is None,
            r.api_docs is None,
            r.llm_rag is None,
            r.colab is None,
            r.latex is None,
    {
        OutputHints {
            jupyter: None,
            mdbook: None,
            vue_site: None,
            api_docs: None,
            llm_rag: None,
            colab: None,
            latex: None,
        }
    }
}

/// Notebook-tutorial specific hints.
#[derive(Debug, Clone, PartialEq)]
pub struct JupyterHints {
    pub include_interactive_plots: bool,
    pub include_performance_section: bool,
    pub custom_intro: Option<String>,
}

/// Reference-doc specific hints.
#[derive(Debug, Clone, PartialEq)]
pub struct MdBookHints {
    pub include_mathematical_proof: bool,
    pub include_implementation_details: bool,
    pub runnable_code: bool,
}

/// Site-component specific hints.
#[derive(Debug, Clone, PartialEq)]
pub struct VueSiteHints {
    pub include_live_demo: bool,
    pub seo_keywords: Vec<String>,
    pub og_image: Option<String>,
}

/// API-spec specific hints.
#[derive(Debug, Clone, PartialEq)]
pub struct ApiDocsHints {
    pub include_playground: bool,
    pub show_all_languages: bool,
}

/// Retrieval-chunk specific hints.
#[derive(Debug, Clone, PartialEq)]
pub struct LlmRagHints {
    /// Chunking strategy ("by_example", "by_section", "fixed_size").
    pub chunk_strategy: String,
    /// Maximum chunk size in tokens; valid range 1..=8192.
    pub max_chunk_size: usize,
    /// Embedding priority ("high", "medium", "low").
    pub embedding_priority: String,
}

/// Notebook-variant (hosted notebook) specific hints.
#[derive(Debug, Clone, PartialEq)]
pub struct ColabHints {
    pub include_gpu_example: bool,
    pub install_command: String,
}

/// Typeset-document specific hints.
#[derive(Debug, Clone, PartialEq)]
pub struct LatexHints {
    pub document_class: String,
    pub additional_packages: Vec<String>,
}

/// Schema metadata.
#[derive(Debug, Clone, PartialEq)]
pub struct Metadata {
    pub schema_version: String,
    pub author: Option<String>,
    /// Last updated date, expected in `YYYY-MM-DD` form.
    pub last_updated: Option<String>,
    pub tags: Vec<String>,
}

/// SEO metadata for search engine optimization.
#[derive(Debug, Clone, PartialEq)]
pub struct SeoMetadata {
    /// Primary SEO keywords.
    pub keywords: Vec<String>,
    /// Secondary keywords.
    pub secondary_keywords: Vec<String>,
    /// Meta description shown in search results.
    pub meta_description: Option<String>,
    /// Canonical URL.
    pub canonical_url: Option<String>,
    /// Open Graph title.
    pub og_title: Option<String>,
    /// Open Graph description.
    pub og_description: Option<String>,
    /// Open Graph image URL.
    pub og_image: Option<String>,
    /// Twitter card type ("summary", "summary_large_image").
    pub twitter_card: String,
    /// Structured data type (e.g. "TechArticle").
    pub schema_org_type: Option<String>,
    /// Sitemap page priority in tenths: 0 stands for 0.0, 10 for 1.0;
    /// the default is 5 (0.5).
    pub priority_tenths: u8,
    /// Sitemap update frequency ("always", "hourly", "daily", "weekly",
    /// "monthly", "yearly", "never"); the default is "monthly".
    pub change_frequency: String,
    /// Language code (e.g. "en").
    pub language: String,
    /// Alternative language versions as ordered pairs.
    pub alternate_languages: Vec<(String, String)>,
}

} // verus!
