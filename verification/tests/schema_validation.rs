use kb::error::KbError;
use kb::schema::{CodeReferences, CodeSnippets, Example, LlmRagHints, OutputHints, Schema};
use kb::validation::validate_schema;

fn base_schema() -> Schema {
    Schema {
        topic: "calculus.derivative".to_string(),
        title: "Symbolic Differentiation".to_string(),
        description: "Computes the derivative of an expression".to_string(),
        mathematical_definition: None,
        code_refs: Some(CodeReferences {
            rust: "mathhook_core::calculus::derivative".to_string(),
            python: "mathhook.calculus.derivative".to_string(),
            nodejs: "mathhook.calculus.derivative".to_string(),
        }),
        examples: vec![Example {
            title: "Power Rule".to_string(),
            explanation: "Derivative of x^n".to_string(),
            code: CodeSnippets {
                rust: "let f = expr!(x ^ 3);".to_string(),
                python: "f = expr('x^3')".to_string(),
                nodejs: "const f = expr('x^3');".to_string(),
            },
            expected_output: None,
        }],
        article: None,
        use_cases: vec![],
        related_topics: vec![],
        performance: None,
        interactive_playground: None,
        outputs: OutputHints::default(),
        metadata: None,
        seo: None,
    }
}

#[test]
fn test_valid_schema() {
    let schema = base_schema();
    assert!(validate_schema(&schema, "test.yaml".to_string()).is_ok());
}

#[test]
fn test_valid_schema_without_code_refs() {
    let mut schema = base_schema();
    schema.topic = "getting-started.installation".to_string();
    schema.title = "Installation".to_string();
    schema.description = "How to install MathHook".to_string();
    schema.code_refs = None;
    schema.examples = vec![];
    assert!(validate_schema(&schema, "test.yaml".to_string()).is_ok());
}

#[test]
fn test_missing_topic() {
    let mut schema = base_schema();
    schema.topic = "".to_string();
    schema.title = "Test".to_string();
    schema.description = "Test description".to_string();
    schema.code_refs = Some(CodeReferences {
        rust: "test::func".to_string(),
        python: "test.func".to_string(),
        nodejs: "test.func".to_string(),
    });
    schema.examples = vec![Example {
        title: "Example".to_string(),
        explanation: "Test".to_string(),
        code: CodeSnippets {
            rust: "test()".to_string(),
            python: "test()".to_string(),
            nodejs: "test()".to_string(),
        },
        expected_output: None,
    }];
    let result = validate_schema(&schema, "test.yaml".to_string());
    assert!(result.is_err());
    assert!(result.unwrap_err().message().contains("topic"));
}

#[test]
fn test_unbalanced_braces() {
    let mut schema = base_schema();
    schema.topic = "test.function".to_string();
    schema.title = "Test".to_string();
    schema.description = "Test description".to_string();
    schema.examples = vec![Example {
        title: "Example".to_string(),
        explanation: "Test".to_string(),
        code: CodeSnippets {
            rust: "let x = {1, 2, 3;".to_string(),
            python: "x = [1, 2, 3]".to_string(),
            nodejs: "const x = [1, 2, 3];".to_string(),
        },
        expected_output: None,
    }];
    let result = validate_schema(&schema, "test.yaml".to_string());
    assert!(result.is_err());
    assert!(result.unwrap_err().message().contains("Unclosed delimiter"));
}

#[test]
fn test_uppercase_topic_rejected() {
    let mut schema = base_schema();
    schema.topic = "Calculus.Derivative".to_string();
    let result = validate_schema(&schema, "test.yaml".to_string());
    assert!(result.is_err());
    schema.topic = "calculus.derivative".to_string();
    assert!(validate_schema(&schema, "test.yaml".to_string()).is_ok());
}

#[test]
fn test_balanced_parens_pass() {
    let mut schema = base_schema();
    schema.examples[0].code.rust = "let x = (1, 2, 3);".to_string();
    assert!(validate_schema(&schema, "test.yaml".to_string()).is_ok());
}

#[test]
fn test_unmatched_closing_paren() {
    let mut schema = base_schema();
    schema.examples[0].code.rust = "let x = 1);".to_string();
    let result = validate_schema(&schema, "test.yaml".to_string());
    assert!(result.is_err());
    assert!(result
        .unwrap_err()
        .message()
        .contains("Unmatched closing parenthesis"));
}

#[test]
fn test_missing_title() {
    let mut schema = base_schema();
    schema.title = "".to_string();
    let result = validate_schema(&schema, "test.yaml".to_string());
    assert!(result.is_err());
    assert!(result.unwrap_err().message().contains("title"));
}

#[test]
fn test_missing_description() {
    let mut schema = base_schema();
    schema.description = "".to_string();
    let result = validate_schema(&schema, "test.yaml".to_string());
    assert!(result.is_err());
    assert!(result.unwrap_err().message().contains("description"));
}

#[test]
fn test_empty_rust_code_ref() {
    let mut schema = base_schema();
    schema.code_refs = Some(CodeReferences {
        rust: "".to_string(),
        python: "p".to_string(),
        nodejs: "n".to_string(),
    });
    let result = validate_schema(&schema, "test.yaml".to_string());
    assert!(result.is_err());
    assert!(result
        .unwrap_err()
        .message()
        .contains("Rust code reference is empty"));
}

#[test]
fn test_example_without_code() {
    let mut schema = base_schema();
    schema.examples[0].code = CodeSnippets {
        rust: "  ".to_string(),
        python: "".to_string(),
        nodejs: "\t".to_string(),
    };
    let result = validate_schema(&schema, "test.yaml".to_string());
    assert!(result.is_err());
    assert!(result
        .unwrap_err()
        .message()
        .contains("has no code in any language"));
}

#[test]
fn test_invalid_chunk_size_hint() {
    let mut schema = base_schema();
    schema.outputs.llm_rag = Some(LlmRagHints {
        chunk_strategy: "by_example".to_string(),
        max_chunk_size: 0,
        embedding_priority: "medium".to_string(),
    });
    let result = validate_schema(&schema, "test.yaml".to_string());
    assert!(result.is_err());
    assert!(result.unwrap_err().message().contains("Invalid max_chunk_size"));

    schema.outputs.llm_rag = Some(LlmRagHints {
        chunk_strategy: "by_example".to_string(),
        max_chunk_size: 9000,
        embedding_priority: "medium".to_string(),
    });
    assert!(validate_schema(&schema, "test.yaml".to_string()).is_err());
}

#[test]
fn test_invalid_embedding_priority_hint() {
    let mut schema = base_schema();
    schema.outputs.llm_rag = Some(LlmRagHints {
        chunk_strategy: "by_example".to_string(),
        max_chunk_size: 512,
        embedding_priority: "urgent".to_string(),
    });
    let result = validate_schema(&schema, "test.yaml".to_string());
    assert!(result.is_err());
    assert!(result
        .unwrap_err()
        .message()
        .contains("Invalid embedding_priority"));
}

#[test]
fn test_invalid_chunk_strategy_hint() {
    let mut schema = base_schema();
    schema.outputs.llm_rag = Some(LlmRagHints {
        chunk_strategy: "".to_string(),
        max_chunk_size: 512,
        embedding_priority: "medium".to_string(),
    });
    let result = validate_schema(&schema, "test.yaml".to_string());
    assert!(result.is_err());
    assert!(result.unwrap_err().message().contains("Invalid chunk_strategy"));

    schema.outputs.llm_rag = Some(LlmRagHints {
        chunk_strategy: "by_paragraph".to_string(),
        max_chunk_size: 512,
        embedding_priority: "medium".to_string(),
    });
    assert!(validate_schema(&schema, "test.yaml".to_string()).is_ok());
}

#[test]
fn test_validation_error_carries_suggestion() {
    let mut schema = base_schema();
    schema.topic = "".to_string();
    let err = validate_schema(&schema, "notes.yaml".to_string()).unwrap_err();
    match err {
        KbError::MissingField {
            field,
            file,
            line,
            suggestion,
        } => {
            assert_eq!(field, "topic");
            assert_eq!(file, "notes.yaml");
            assert_eq!(line, 1);
            assert!(!suggestion.is_empty());
        }
        other => panic!("unexpected error variant: {:?}", other),
    }
}
