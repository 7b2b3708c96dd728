use kb::generator::OutputGenerator;
use kb::json_out::JsonGenerator;
use kb::schema::{CodeReferences, CodeSnippets, Example, OutputHints, Schema};

fn create_test_schema() -> Schema {
    Schema {
        topic: "test.example".to_string(),
        title: "Test Example".to_string(),
        description: "A test example".to_string(),
        mathematical_definition: Some("f(x) = x^2".to_string()),
        code_refs: Some(CodeReferences {
            rust: "test::example".to_string(),
            python: "test.example".to_string(),
            nodejs: "test.example".to_string(),
        }),
        examples: vec![Example {
            title: "Power Rule".to_string(),
            explanation: "Test explanation".to_string(),
            code: CodeSnippets {
                rust: "let f = expr!(x ^ 2);".to_string(),
                python: "f = x**2".to_string(),
                nodejs: "const f = x**2;".to_string(),
            },
            expected_output: Some("2*x".to_string()),
        }],
        article: None,
        use_cases: vec![],
        related_topics: vec![],
        performance: None,
        interactive_playground: None,
        outputs: OutputHints::default(),
        metadata: None,
        seo: None,
    }
}

#[test]
fn lib_test_generator_creation() {
    let _ = JsonGenerator::new();
}

#[test]
fn lib_test_generate() {
    let generator = JsonGenerator::new();
    let schema = create_test_schema();
    let result = generator.generate(&schema);
    assert!(result.is_ok());

    let output = result.unwrap();
    assert!(output.contains("\"topic\": \"test.example\""));
    assert!(output.contains("\"title\": \"Test Example\""));
}

#[test]
fn lib_test_validate_output() {
    let generator = JsonGenerator::new();
    let schema = create_test_schema();
    let output = generator.generate(&schema).unwrap();
    let validation = generator.validate_output(&output);
    assert!(validation.is_ok());
}

#[test]
fn test_json_document_parses_and_round_trips_fields() {
    let generator = JsonGenerator::new();
    let mut schema = create_test_schema();
    schema.use_cases = vec!["analysis".to_string()];
    schema.outputs.llm_rag = Some(kb::schema::LlmRagHints {
        chunk_strategy: "by_example".to_string(),
        max_chunk_size: 512,
        embedding_priority: "medium".to_string(),
    });
    let output = generator.generate(&schema).unwrap();
    let parsed: serde_json::Value = serde_json::from_str(&output).expect("schema JSON parses");
    assert_eq!(parsed["topic"], "test.example");
    assert_eq!(parsed["examples"][0]["title"], "Power Rule");
    assert_eq!(parsed["examples"][0]["code"]["python"], "f = x**2");
    assert_eq!(parsed["use_cases"][0], "analysis");
    assert_eq!(parsed["outputs"]["llm_rag"]["max_chunk_size"], 512);
    assert!(parsed.get("metadata").is_none());
}
