use kb::generator::OutputGenerator;
use kb::llm_rag::{ChunkMetadata, ChunkStrategy, LlmRagGenerator};
use kb::schema::{CodeReferences, CodeSnippets, Example, LlmRagHints, OutputHints, Schema};

fn create_test_schema() -> Schema {
    Schema {
        topic: "test.example".to_string(),
        title: "Test Example".to_string(),
        description: "A test example".to_string(),
        mathematical_definition: None,
        code_refs: Some(CodeReferences {
            rust: "test::example".to_string(),
            python: "test.example".to_string(),
            nodejs: "test.example".to_string(),
        }),
        examples: vec![Example {
            title: "Basic Example".to_string(),
            explanation: "This is a test".to_string(),
            code: CodeSnippets {
                rust: "let x = 2;".to_string(),
                python: "x = 2".to_string(),
                nodejs: "const x = 2;".to_string(),
            },
            expected_output: Some("2".to_string()),
        }],
        article: None,
        use_cases: vec![],
        related_topics: vec![],
        performance: None,
        interactive_playground: None,
        outputs: OutputHints::default(),
        metadata: None,
        seo: None,
    }
}

#[test]
fn test_chunk_strategy_default() {
    assert_eq!(ChunkStrategy::default(), ChunkStrategy::ByExample);
}

#[test]
fn test_chunk_metadata_creation() {
    let metadata = ChunkMetadata::new(
        "calculus.derivative".to_string(),
        "Power Rule".to_string(),
        0,
        5,
    );

    assert_eq!(metadata.topic, "calculus.derivative");
    assert_eq!(metadata.title, "Power Rule");
    assert_eq!(metadata.chunk_index, 0);
    assert_eq!(metadata.total_chunks, 5);
    assert_eq!(metadata.id, "calculus_derivative::0");
}

#[test]
fn test_chunk_metadata_with_keywords() {
    let metadata = ChunkMetadata::new(
        "calculus.derivative".to_string(),
        "Power Rule".to_string(),
        0,
        5,
    )
    .with_keywords(vec!["power".to_string(), "derivative".to_string()]);

    assert_eq!(metadata.keywords.len(), 2);
    assert!(metadata.keywords.contains(&"power".to_string()));
}

#[test]
fn test_chunk_metadata_with_priority() {
    let metadata = ChunkMetadata::new(
        "calculus.derivative".to_string(),
        "Power Rule".to_string(),
        0,
        5,
    )
    .with_priority("high".to_string());

    assert_eq!(metadata.priority, "high");
}

#[test]
fn test_generate_by_example() {
    let generator = LlmRagGenerator::new();
    let schema = create_test_schema();
    let result = generator.generate(&schema);
    assert!(result.is_ok());

    let output = result.unwrap();
    assert!(output.contains("---\n"));
    assert!(output.contains("chunk_id:"));
    assert!(output.contains("Test Example"));
    assert!(output.contains("Basic Example"));
    assert!(output.contains("```rust"));
    assert!(output.contains("```python"));
    assert!(output.contains("```javascript"));
}

#[test]
fn test_validate_invalid_output() {
    let generator = LlmRagGenerator::new();
    let invalid = "No frontmatter here";
    let validation = generator.validate_output(invalid);
    assert!(validation.is_err());
}

#[test]
fn test_from_schema_with_hints() {
    let mut schema = create_test_schema();
    schema.outputs.llm_rag = Some(LlmRagHints {
        chunk_strategy: "by_section".to_string(),
        max_chunk_size: 1024,
        embedding_priority: "high".to_string(),
    });

    let generator = LlmRagGenerator::from_schema(&schema);
    assert_eq!(generator.embedding_priority, "high");
    assert_eq!(generator.max_chunk_size, 1024);
}

#[test]
fn test_generate_without_examples() {
    let generator = LlmRagGenerator::new();
    let schema = Schema {
        topic: "test.no_examples".to_string(),
        title: "Schema Without Examples".to_string(),
        description: "This schema has no examples".to_string(),
        mathematical_definition: Some("f(x) = x^2".to_string()),
        code_refs: Some(CodeReferences {
            rust: "test::no_examples".to_string(),
            python: "test.no_examples".to_string(),
            nodejs: "test.noExamples".to_string(),
        }),
        examples: vec![],
        article: None,
        use_cases: vec!["Testing".to_string()],
        related_topics: vec!["test.other".to_string()],
        performance: None,
        interactive_playground: None,
        outputs: OutputHints::default(),
        metadata: None,
        seo: None,
    };

    let result = generator.generate(&schema);
    assert!(
        result.is_ok(),
        "Generation should succeed for schema without examples"
    );

    let output = result.unwrap();
    assert!(output.contains("---\n"), "Output should contain frontmatter");
    assert!(output.contains("chunk_id:"), "Output should contain chunk_id");
    assert!(output.contains("topic:"), "Output should contain topic");
    assert!(output.contains("Overview"), "Output should contain overview section");
    assert!(
        output.contains("f(x) = x^2"),
        "Output should contain mathematical definition"
    );

    let validation = generator.validate_output(&output);
    assert!(validation.is_ok(), "Output should pass validation");
}

#[test]
fn test_chunk_count_invariant() {
    let generator = LlmRagGenerator::new();
    let mut schema = create_test_schema();
    for k in 2..=3 {
        schema.examples.push(Example {
            title: format!("Example {}", k),
            explanation: "More".to_string(),
            code: CodeSnippets {
                rust: "".to_string(),
                python: "y = 1".to_string(),
                nodejs: "".to_string(),
            },
            expected_output: None,
        });
    }
    let chunks = generator.chunks_by_example(&schema);
    assert_eq!(chunks.len(), 3);
    for (k, chunk) in chunks.iter().enumerate() {
        assert_eq!(chunk.metadata.chunk_index, k);
        assert_eq!(chunk.metadata.total_chunks, 3);
    }
    let output = generator.generate(&schema).unwrap();
    assert!(output.contains("chunk: 1/3"));
    assert!(output.contains("chunk: 2/3"));
    assert!(output.contains("chunk: 3/3"));
}

#[test]
fn test_overview_fallback_single_chunk() {
    let generator = LlmRagGenerator::new();
    let mut schema = create_test_schema();
    schema.examples = vec![];
    let chunks = generator.chunks_by_example(&schema);
    assert_eq!(chunks.len(), 1);
    assert_eq!(chunks[0].metadata.title, "Overview");
    assert_eq!(chunks[0].metadata.chunk_index, 0);
    assert_eq!(chunks[0].metadata.total_chunks, 1);
}

#[test]
fn test_keywords_are_lowercased() {
    let generator = LlmRagGenerator::new();
    let schema = create_test_schema();
    let chunks = generator.chunks_by_example(&schema);
    assert_eq!(chunks[0].metadata.keywords[0], "example");
    assert_eq!(chunks[0].metadata.keywords[1], "basic example");
}
