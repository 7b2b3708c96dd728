use kb::apidocs::ApiDocsGenerator;
use kb::colab::ColabGenerator;
use kb::generator::OutputGenerator;
use kb::jupyter::JupyterGenerator;
use kb::latex::LatexGenerator;
use kb::llm_rag::LlmRagGenerator;
use kb::mdbook::MdBookGenerator;
use kb::schema::{CodeReferences, CodeSnippets, Example, OutputHints, Performance, Schema};
use kb::vue::VueGenerator;

fn create_test_schema() -> Schema {
    Schema {
        topic: "test.example".to_string(),
        title: "Test Example".to_string(),
        description: "A test example".to_string(),
        mathematical_definition: Some("f(x) = x^2".to_string()),
        code_refs: Some(CodeReferences {
            rust: "test::example".to_string(),
            python: "test.example".to_string(),
            nodejs: "test.example".to_string(),
        }),
        examples: vec![Example {
            title: "Power Rule".to_string(),
            explanation: "Test explanation".to_string(),
            code: CodeSnippets {
                rust: "let f = expr!(x ^ 2);".to_string(),
                python: "f = x**2".to_string(),
                nodejs: "const f = x**2;".to_string(),
            },
            expected_output: Some("2*x".to_string()),
        }],
        article: None,
        use_cases: vec![],
        related_topics: vec!["test.related".to_string()],
        performance: Some(Performance {
            complexity: "O(n)".to_string(),
            typical_time: None,
            benchmarks: vec![],
        }),
        interactive_playground: None,
        outputs: OutputHints::default(),
        metadata: None,
        seo: None,
    }
}

#[test]
fn test_generator_creation() {
    let generator = ApiDocsGenerator::new();
    assert!(generator.is_ok());

    let generator = ColabGenerator::new();
    assert!(generator.is_ok());

    let generator = LlmRagGenerator::new();
    assert_eq!(generator.name(), "llm-rag");
    assert_eq!(generator.file_extension(), "md");
}

#[test]
fn generator_test_generator_creation() {
    let generator = JupyterGenerator::new();
    assert_eq!(generator.name(), "jupyter");
    assert_eq!(generator.file_extension(), "ipynb");

    let generator = MdBookGenerator::new();
    assert!(generator.is_ok());
    let gen = generator.unwrap();
    assert_eq!(gen.name(), "mdbook");
    assert_eq!(gen.file_extension(), "md");

    let generator = LatexGenerator::new();
    assert!(generator.is_ok());

    let generator = VueGenerator::new();
    assert!(generator.is_ok());
}

#[test]
fn test_generate() {
    let schema = create_test_schema();

    let generator = MdBookGenerator::new().unwrap();
    let result = generator.generate(&schema);
    assert!(result.is_ok());
    let output = result.unwrap();
    assert!(output.contains("# Test Example"));
    assert!(output.contains("test.example"));
    assert!(output.contains("Power Rule"));
    assert!(output.contains("```rust"));
    assert!(output.contains("```python"));
    assert!(output.contains("```javascript"));
    assert!(output.contains("O(n)"));

    let generator = ColabGenerator::new().unwrap();
    let result = generator.generate(&schema);
    assert!(result.is_ok());
    let output = result.unwrap();
    assert!(output.contains("nbformat"));
    assert!(output.contains("colab"));
    assert!(output.contains("colab-badge.svg"));
}

#[test]
fn generator_test_generate() {
    let schema = create_test_schema();

    let generator = ApiDocsGenerator::new().unwrap();
    let result = generator.generate(&schema);
    assert!(result.is_ok());
    let output = result.unwrap();
    assert!(output.contains("openapi"));
    assert!(output.contains("paths"));

    let generator = LatexGenerator::new().unwrap();
    let result = generator.generate(&schema);
    assert!(result.is_ok());
    let output = result.unwrap();
    assert!(output.contains("\\documentclass"));
    assert!(output.contains("\\begin{document}"));
    assert!(output.contains("\\end{document}"));

    let generator = VueGenerator::new().unwrap();
    let result = generator.generate(&schema);
    assert!(result.is_ok());
    let output = result.unwrap();
    assert!(output.contains("<template>"));
    assert!(output.contains("<script"));
    assert!(output.contains("Test Example"));
}

#[test]
fn test_validate_output() {
    let schema = create_test_schema();

    let generator = JupyterGenerator::new();
    let output = generator.generate(&schema).unwrap();
    assert!(generator.validate_output(&output).is_ok());

    let generator = LlmRagGenerator::new();
    let output = generator.generate(&schema).unwrap();
    assert!(generator.validate_output(&output).is_ok());

    let generator = MdBookGenerator::new().unwrap();
    let output = generator.generate(&schema).unwrap();
    assert!(generator.validate_output(&output).is_ok());

    let generator = ColabGenerator::new().unwrap();
    let output = generator.generate(&schema).unwrap();
    assert!(generator.validate_output(&output).is_ok());
}

#[test]
fn generator_test_validate_output() {
    let schema = create_test_schema();

    let generator = ApiDocsGenerator::new().unwrap();
    let output = generator.generate(&schema).unwrap();
    assert!(generator.validate_output(&output).is_ok());

    let generator = LatexGenerator::new().unwrap();
    let output = generator.generate(&schema).unwrap();
    assert!(generator.validate_output(&output).is_ok());

    let generator = VueGenerator::new().unwrap();
    let output = generator.generate(&schema).unwrap();
    assert!(generator.validate_output(&output).is_ok());
}

#[test]
fn test_validate_empty_output() {
    let generator = MdBookGenerator::new().unwrap();
    let validation = generator.validate_output("");
    assert!(validation.is_err());
}

#[test]
fn test_validate_no_title() {
    let generator = MdBookGenerator::new().unwrap();
    let validation = generator.validate_output("Some content without title");
    assert!(validation.is_err());
}

#[test]
fn test_api_spec_example_cap() {
    let mut schema = create_test_schema();
    schema.examples = (1..=5)
        .map(|k| Example {
            title: format!("Case Number{}", k),
            explanation: "x".to_string(),
            code: CodeSnippets {
                rust: "".to_string(),
                python: "v = 1".to_string(),
                nodejs: "".to_string(),
            },
            expected_output: Some("1".to_string()),
        })
        .collect();
    let generator = ApiDocsGenerator::new().unwrap();
    let output = generator.generate(&schema).unwrap();
    assert!(output.contains("case_number1"));
    assert!(output.contains("case_number2"));
    assert!(output.contains("case_number3"));
    assert!(!output.contains("case_number4"));
    assert!(!output.contains("case_number5"));
}

#[test]
fn test_apidocs_json_parses() {
    let schema = create_test_schema();
    let generator = ApiDocsGenerator::new().unwrap();
    let output = generator.generate(&schema).unwrap();
    let parsed: serde_json::Value = serde_json::from_str(&output).expect("API spec JSON parses");
    assert!(parsed.get("openapi").is_some());
    assert!(parsed.get("paths").is_some());
}

#[test]
fn test_apidocs_extracts_expression() {
    let schema = create_test_schema();
    let generator = ApiDocsGenerator::new().unwrap();
    let output = generator.generate(&schema).unwrap();
    assert!(output.contains("\"expression\": \"x**2\""));
}

#[test]
fn test_mdbook_seo_frontmatter() {
    let mut schema = create_test_schema();
    schema.seo = Some(kb::schema::SeoMetadata {
        keywords: vec!["calculus".to_string(), "derivative".to_string()],
        secondary_keywords: vec![],
        meta_description: Some("All about derivatives".to_string()),
        canonical_url: Some("https://mathhook.org/docs/x".to_string()),
        og_title: None,
        og_description: None,
        og_image: None,
        twitter_card: "summary".to_string(),
        schema_org_type: None,
        priority_tenths: 5,
        change_frequency: "monthly".to_string(),
        language: "en".to_string(),
        alternate_languages: vec![],
    });
    let generator = MdBookGenerator::new().unwrap();
    let output = generator.generate(&schema).unwrap();
    assert!(output.starts_with("---\n"));
    assert!(output.contains("description: \"All about derivatives\"\n"));
    assert!(output.contains("keywords: calculus, derivative\n"));
    assert!(output.contains("canonical_url: \"https://mathhook.org/docs/x\"\n"));
    assert!(output.contains("twitter:card: \"summary\"\n"));
    assert!(output.contains("language: \"en\"\n"));
}

#[test]
fn test_mdbook_see_also_links() {
    let schema = create_test_schema();
    let generator = MdBookGenerator::new().unwrap();
    let output = generator.generate(&schema).unwrap();
    assert!(output.contains("## See Also"));
    assert!(output.contains("- [test.related](../test/related.md)"));
}
