//! Article content types for rich documentation narratives, in two variants:
//! a simple markdown blob, or a structured article with introduction,
//! sections, conclusion and sidebars.

use vstd::prelude::*;

verus! {

/// Complete article structure: either simple content or the structured form.
/// Exactly one variant is active; every consumer branches on which.
#[derive(Debug, Clone, PartialEq)]
pub enum Article {
    /// Simple markdown content.
    Simple(SimpleArticle),
    /// Structured article with introduction, sections, conclusion.
    Structured(Box<StructuredArticle>),
}

/// Simple article with just markdown content.
#[derive(Debug, Clone, PartialEq)]
pub struct SimpleArticle {
    pub content: String,
}

/// Structured article with introduction, body sections, and conclusion.
#[derive(Debug, Clone, PartialEq)]
pub struct StructuredArticle {
    pub introduction: Introduction,
    pub sections: Vec<Section>,
    pub conclusion: Option<Conclusion>,
    pub sidebars: Vec<Sidebar>,
    pub variations: Option<ArticleVariations>,
}

/// Introduction section.
#[derive(Debug, Clone, PartialEq)]
pub struct Introduction {
    /// Opening paragraph.
    pub hook: String,
    pub learning_objectives: Vec<String>,
    pub prerequisites: Vec<String>,
    pub estimated_time: Option<String>,
}

/// Main content section.
#[derive(Debug, Clone, PartialEq)]
pub struct Section {
    pub title: String,
    pub content: String,
    pub subsections: Vec<SubSection>,
    /// References into the schema's examples, by example title.
    pub code_examples: Vec<String>,
    pub math_content: Option<String>,
}

/// Subsection for hierarchical content.
#[derive(Debug, Clone, PartialEq)]
pub struct SubSection {
    pub title: String,
    pub content: String,
}

/// Conclusion section.
#[derive(Debug, Clone, PartialEq)]
pub struct Conclusion {
    pub summary: String,
    pub next_steps: Vec<String>,
    pub further_reading: Vec<Resource>,
    pub exercises: Vec<Exercise>,
}

/// External resource reference.
#[derive(Debug, Clone, PartialEq)]
pub struct Resource {
    pub title: String,
    pub url: Option<String>,
    pub description: Option<String>,
}

/// Practice exercise.
#[derive(Debug, Clone, PartialEq)]
pub struct Exercise {
    pub prompt: String,
    pub difficulty: ExerciseDifficulty,
    pub hints: Vec<String>,
    pub solution: Option<String>,
}

/// Exercise difficulty levels.
#[derive(Debug, Clone, PartialEq, Eq, Structural)]
pub enum ExerciseDifficulty {
    Beginner,
    Intermediate,
    Advanced,
    Expert,
}

impl ExerciseDifficulty {
    /// The capitalized display label of the difficulty.
    pub fn label(&self) -> (r: &'static str)
        ensures
            r@ == self.spec_label(),
    {
        match self {
            ExerciseDifficulty::Beginner => "Beginner",
            ExerciseDifficulty::Intermediate => "Intermediate",
            ExerciseDifficulty::Advanced => "Advanced",
            ExerciseDifficulty::Expert => "Expert",
        }
    }

    pub open spec fn spec_label(&self) -> Seq<char> {
        match self {
            ExerciseDifficulty::Beginner => "Beginner"@,
            ExerciseDifficulty::Intermediate => "Intermediate"@,
            ExerciseDifficulty::Advanced => "Advanced"@,
            ExerciseDifficulty::Expert => "Expert"@,
        }
    }
}

/// Sidebar content (tips, warnings, notes).
#[derive(Debug, Clone, PartialEq)]
pub struct Sidebar {
    pub sidebar_type: SidebarType,
    pub title: String,
    pub content: String,
}

/// Sidebar types.
#[derive(Debug, Clone, PartialEq, Eq, Structural)]
pub enum SidebarType {
    /// Helpful tip.
    Tip,
    /// Warning about common mistakes.
    Warning,
    /// Important note.
    Note,
    /// Additional information.
    Info,
    /// Performance consideration.
    Performance,
    /// Best practice.
    BestPractice,
}

/// Format-specific article variations.
#[derive(Debug, Clone, PartialEq)]
pub struct ArticleVariations {
    pub jupyter: Option<JupyterArticle>,
    pub mdbook: Option<MdBookArticle>,
    pub vue_site: Option<VueSiteArticle>,
}

/// Notebook-specific article content (conversational, tutorial).
#[derive(Debug, Clone, PartialEq)]
pub struct JupyterArticle {
    pub tutorial_intro: Option<String>,
    pub interactive_prompts: Vec<String>,
    pub checkpoint_questions: Vec<String>,
}

/// Reference-doc-specific article content (technical reference).
#[derive(Debug, Clone, PartialEq)]
pub struct MdBookArticle {
    pub deep_dives: Vec<DeepDive>,
    pub implementation_notes: Option<String>,
    pub complexity_analysis: Option<String>,
}

/// Technical deep dive.
#[derive(Debug, Clone, PartialEq)]
pub struct DeepDive {
    pub title: String,
    pub content: String,
}

/// Site-specific article content (marketing and engagement).
#[derive(Debug, Clone, PartialEq)]
pub struct VueSiteArticle {
    pub marketing_hook: Option<String>,
    pub use_case_stories: Vec<UseCaseStory>,
    pub call_to_action: Option<String>,
}

/// Use case story (real-world application).
#[derive(Debug, Clone, PartialEq)]
pub struct UseCaseStory {
    pub title: String,
    pub problem: String,
    pub solution: String,
    pub outcome: String,
}

/// The markdown rendering of one structured-article section:
/// a level-2 heading, then the content.
pub open spec fn section_md(s: Section) -> Seq<char> {
    "## "@ + s.title@ + "\n\n"@ + s.content@ + "\n\n"@
}

/// The markdown renderings of the sections before index `n`, concatenated.
pub open spec fn sections_md_upto(sections: Seq<Section>, n: int) -> Seq<char>
    decreases n,
{
    if n <= 0 {
        Seq::empty()
    } else {
        sections_md_upto(sections, n - 1) + section_md(sections[n - 1])
    }
}

/// The markdown form of a whole article: the simple variant is its content;
/// the structured variant is hook, sections, and an optional conclusion.
pub open spec fn article_md(a: Article) -> Seq<char> {
    match a {
        Article::Simple(s) => s.content@,
        Article::Structured(b) => {
            let s = *b;
            s.introduction.hook@ + "\n\n"@ + sections_md_upto(s.sections@, s.sections@.len() as int)
                + match s.conclusion {
                Some(c) => "## Conclusion\n\n"@ + c.summary@ + "\n"@,
                None => Seq::empty(),
            }
        },
    }
}

impl Article {
    /// Renders the article as one markdown string, for either variant.
    pub fn to_markdown(&self) -> (r: String)
        ensures
            r@ == article_md(*self),
    {
        match self {
            Article::Simple(s) => s.content.clone(),
            Article::Structured(boxed_s) => {
                let s = &**boxed_s;
                let mut md = String::new();
                md.append(s.introduction.hook.as_str());
                md.append("\n\n");
                let n = s.sections.len();
                let mut i: usize = 0;
                while i < n
                    invariant
                        n == s.sections@.len(),
                        i <= n,
                        md@ == s.introduction.hook@ + "\n\n"@ + sections_md_upto(
                            s.sections@,
                            i as int,
                        ),
                    decreases n - i,
                {
                    let sec = &s.sections[i];
                    md.append("## ");
                    md.append(sec.title.as_str());
                    md.append("\n\n");
                    md.append(sec.content.as_str());
                    md.append("\n\n");
                    i = i + 1;
                    proof {
                        assert(md@ =~= s.introduction.hook@ + "\n\n"@ + sections_md_upto(
                            s.sections@,
                            i as int,
                        ));
                    }
                }
                if let Some(conclusion) = &s.conclusion {
                    md.append("## Conclusion\n\n");
                    md.append(conclusion.summary.as_str());
                    md.append("\n");
                }
                proof {
                    assert(md@ =~= article_md(*self));
                }
                md
            },
        }
    }

    /// The structured article, if this is the structured variant.
    pub fn as_structured(&self) -> (r: Option<&StructuredArticle>)
        ensures
            match self {
                Article::Structured(b) => r is Some && *r->Some_0 == **b,
                Article::Simple(_) => r is None,
            },
    {
        match self {
            Article::Structured(s) => Some(&**s),
            Article::Simple(_) => None,
        }
    }

    /// The simple article, if this is the simple variant.
    pub fn as_simple(&self) -> (r: Option<&SimpleArticle>)
        ensures
            match self {
                Article::Simple(s) => r is Some && *r->Some_0 == *s,
                Article::Structured(_) => r is None,
            },
    {
        match self {
            Article::Simple(s) => Some(s),
            Article::Structured(_) => None,
        }
    }
}

} // verus!
