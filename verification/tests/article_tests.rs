use kb::article::{
    Article, ArticleVariations, Conclusion, Exercise, ExerciseDifficulty, Introduction,
    JupyterArticle, Resource, Section, Sidebar, SidebarType, SimpleArticle, StructuredArticle,
};
use kb::generator::OutputGenerator;
use kb::jupyter::JupyterGenerator;
use kb::llm_rag::{ChunkStrategy, LlmRagGenerator};
use kb::schema::{CodeSnippets, Example, LlmRagHints, OutputHints, Schema};

fn structured_article() -> Article {
    Article::Structured(Box::new(StructuredArticle {
        introduction: Introduction {
            hook: "Let's explore symbolic differentiation!".to_string(),
            learning_objectives: vec![
                "Understand derivatives".to_string(),
                "Use mathhook for calculus".to_string(),
            ],
            prerequisites: vec!["Algebra".to_string()],
            estimated_time: Some("15 minutes".to_string()),
        },
        sections: vec![Section {
            title: "What is a Derivative?".to_string(),
            content: "A derivative measures the rate of change...".to_string(),
            subsections: vec![],
            code_examples: vec!["Power Rule".to_string()],
            math_content: None,
        }],
        conclusion: Some(Conclusion {
            summary: "We covered the basics.".to_string(),
            next_steps: vec!["Integrals".to_string()],
            further_reading: vec![Resource {
                title: "Calculus Book".to_string(),
                url: Some("https://example.com/book".to_string()),
                description: None,
            }],
            exercises: vec![Exercise {
                prompt: "Differentiate x^3".to_string(),
                difficulty: ExerciseDifficulty::Beginner,
                hints: vec!["Use the power rule".to_string()],
                solution: None,
            }],
        }),
        sidebars: vec![Sidebar {
            sidebar_type: SidebarType::Tip,
            title: "Pro Tip".to_string(),
            content: "Always simplify before differentiating".to_string(),
        }],
        variations: Some(ArticleVariations {
            jupyter: Some(JupyterArticle {
                tutorial_intro: Some("Welcome to the tutorial!".to_string()),
                interactive_prompts: vec!["What is the derivative of x^2?".to_string()],
                checkpoint_questions: vec![],
            }),
            mdbook: None,
            vue_site: None,
        }),
    }))
}

fn schema_with_article(article: Article) -> Schema {
    Schema {
        topic: "calculus.derivative".to_string(),
        title: "Derivatives".to_string(),
        description: "All about derivatives".to_string(),
        mathematical_definition: None,
        code_refs: None,
        examples: vec![Example {
            title: "Power Rule".to_string(),
            explanation: "The power rule".to_string(),
            code: CodeSnippets {
                rust: "".to_string(),
                python: "diff(x**3)".to_string(),
                nodejs: "".to_string(),
            },
            expected_output: Some("3*x**2".to_string()),
        }],
        article: Some(article),
        use_cases: vec![],
        related_topics: vec![],
        performance: None,
        interactive_playground: None,
        outputs: OutputHints::default(),
        metadata: None,
        seo: None,
    }
}

#[test]
fn test_to_markdown_simple() {
    let article = Article::Simple(SimpleArticle {
        content: "Just some markdown.".to_string(),
    });
    assert_eq!(article.to_markdown(), "Just some markdown.");
    assert!(article.as_simple().is_some());
    assert!(article.as_structured().is_none());
}

#[test]
fn test_to_markdown_structured() {
    let article = structured_article();
    let md = article.to_markdown();
    assert!(md.starts_with("Let's explore symbolic differentiation!\n\n"));
    assert!(md.contains("## What is a Derivative?"));
    assert!(md.contains("## Conclusion\n\nWe covered the basics.\n"));
    assert!(article.as_structured().is_some());
    assert!(article.as_simple().is_none());
}

#[test]
fn test_structured_notebook_cells() {
    let schema = schema_with_article(structured_article());
    let generator = JupyterGenerator::new();
    let output = generator.generate(&schema).unwrap();
    assert!(output.contains("Learning Objectives"));
    assert!(output.contains("Welcome to the tutorial!"));
    assert!(output.contains("Interactive Checkpoint 1"));
    assert!(output.contains("Pro Tip"));
    assert!(output.contains("Exercise 1"));
    assert!(output.contains("Power Rule"));
    assert!(generator.validate_output(&output).is_ok());
}

#[test]
fn test_by_section_chunking() {
    let mut schema = schema_with_article(structured_article());
    schema.outputs.llm_rag = Some(LlmRagHints {
        chunk_strategy: "by_section".to_string(),
        max_chunk_size: 512,
        embedding_priority: "medium".to_string(),
    });
    let generator = LlmRagGenerator::from_schema(&schema);
    assert_eq!(generator.chunk_strategy, ChunkStrategy::BySection);
    let output = generator.generate(&schema).unwrap();
    assert!(output.contains("title: Introduction"));
    assert!(output.contains("title: What is a Derivative?"));
    assert!(output.contains("chunk: 1/2"));
    assert!(output.contains("chunk: 2/2"));
}

#[test]
fn test_by_section_without_article_falls_back() {
    let mut schema = schema_with_article(structured_article());
    schema.article = None;
    schema.outputs.llm_rag = Some(LlmRagHints {
        chunk_strategy: "by_section".to_string(),
        max_chunk_size: 512,
        embedding_priority: "medium".to_string(),
    });
    let generator = LlmRagGenerator::from_schema(&schema);
    let output = generator.generate(&schema).unwrap();
    assert!(output.contains("title: Power Rule"));
    assert!(output.contains("chunk: 1/1"));
}

#[test]
fn test_fixed_size_degrades_to_by_example() {
    let mut schema = schema_with_article(structured_article());
    schema.article = None;
    schema.outputs.llm_rag = Some(LlmRagHints {
        chunk_strategy: "fixed_size".to_string(),
        max_chunk_size: 512,
        embedding_priority: "medium".to_string(),
    });
    let generator = LlmRagGenerator::from_schema(&schema);
    assert!(matches!(
        generator.chunk_strategy,
        ChunkStrategy::FixedSize { size: 512, overlap: 128 }
    ));
    let by_example = LlmRagGenerator::new().generate(&schema).unwrap();
    let fixed = generator.generate(&schema).unwrap();
    assert_eq!(by_example, fixed);
}

#[test]
fn test_difficulty_labels() {
    assert_eq!(ExerciseDifficulty::Beginner.label(), "Beginner");
    assert_eq!(ExerciseDifficulty::Expert.label(), "Expert");
}
