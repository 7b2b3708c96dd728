use kb::apidocs::ApiDocsGenerator;
use kb::colab::ColabGenerator;
use kb::error::KbError;
use kb::generator::{GeneratorRegistry, OutputGenerator};
use kb::jupyter::JupyterGenerator;
use kb::latex::LatexGenerator;
use kb::llm_rag::LlmRagGenerator;
use kb::mdbook::MdBookGenerator;
use kb::schema::{CodeReferences, CodeSnippets, Example, OutputHints, Schema};
use kb::vue::VueGenerator;

fn test_schema() -> Schema {
    Schema {
        topic: "calculus.derivative".to_string(),
        title: "Test".to_string(),
        description: "Test".to_string(),
        mathematical_definition: None,
        code_refs: Some(CodeReferences {
            rust: "test::func".to_string(),
            python: "test.func".to_string(),
            nodejs: "test.func".to_string(),
        }),
        examples: vec![Example {
            title: "Example".to_string(),
            explanation: "Test".to_string(),
            code: CodeSnippets {
                rust: "test()".to_string(),
                python: "test()".to_string(),
                nodejs: "test()".to_string(),
            },
            expected_output: None,
        }],
        article: None,
        use_cases: vec![],
        related_topics: vec![],
        performance: None,
        interactive_playground: None,
        outputs: OutputHints::default(),
        metadata: None,
        seo: None,
    }
}

struct MockGenerator;

// The spec items of the contract survive compilation as ordinary trait
// items; no call site remains after erasure, so stubs suffice here.
impl OutputGenerator for MockGenerator {
    fn spec_name(&self) -> vstd::seq::Seq<char> {
        panic!()
    }

    fn spec_extension(&self) -> vstd::seq::Seq<char> {
        panic!()
    }

    fn spec_generate(&self, _schema: Schema) -> vstd::seq::Seq<char> {
        panic!()
    }

    fn spec_validates(&self, _output: vstd::seq::Seq<char>) -> bool {
        panic!()
    }

    fn name(&self) -> &str {
        "mock"
    }

    fn file_extension(&self) -> &str {
        "txt"
    }

    fn generate(&self, schema: &Schema) -> Result<String, KbError> {
        Ok(format!("Generated: {}", schema.title))
    }

    fn validate_output(&self, _output: &str) -> Result<(), KbError> {
        Ok(())
    }
}

#[test]
fn test_generator_filename() {
    let schema = test_schema();
    let gen = MockGenerator;
    let filename = gen.get_output_filename(&schema);
    assert_eq!(filename, "calculus-derivative.txt");
}

#[test]
fn test_generator_registry() {
    let mut registry = GeneratorRegistry::new();
    registry.register(Box::new(MockGenerator));

    assert!(registry.get("mock").is_some());
    assert!(registry.get("nonexistent").is_none());
    assert_eq!(registry.all().len(), 1);
}

#[test]
fn test_filename_derivation_per_format() {
    let schema = test_schema();
    assert_eq!(
        JupyterGenerator::new().get_output_filename(&schema),
        "calculus-derivative.ipynb"
    );
    assert_eq!(
        MdBookGenerator::new().unwrap().get_output_filename(&schema),
        "calculus-derivative.md"
    );
    assert_eq!(
        LatexGenerator::new().unwrap().get_output_filename(&schema),
        "calculus-derivative.tex"
    );
}

#[test]
fn test_generate_deterministic() {
    let schema = test_schema();
    let generators: Vec<Box<dyn OutputGenerator>> = vec![
        Box::new(JupyterGenerator::new()),
        Box::new(MdBookGenerator::new().unwrap()),
        Box::new(LlmRagGenerator::new()),
        Box::new(VueGenerator::new().unwrap()),
        Box::new(ApiDocsGenerator::new().unwrap()),
        Box::new(ColabGenerator::new().unwrap()),
        Box::new(LatexGenerator::new().unwrap()),
    ];
    for g in &generators {
        let a = g.generate(&schema).unwrap();
        let b = g.generate(&schema).unwrap();
        assert_eq!(a, b);
    }
}

#[test]
fn test_end_to_end_scenario() {
    let schema = Schema {
        topic: "algebra.factor".to_string(),
        title: "Factoring".to_string(),
        description: "Factors expressions into products of simpler terms".to_string(),
        mathematical_definition: None,
        code_refs: None,
        examples: vec![Example {
            title: "Basic".to_string(),
            explanation: "".to_string(),
            code: CodeSnippets {
                rust: "".to_string(),
                python: "x = 2".to_string(),
                nodejs: "".to_string(),
            },
            expected_output: None,
        }],
        article: None,
        use_cases: vec![],
        related_topics: vec![],
        performance: None,
        interactive_playground: None,
        outputs: OutputHints::default(),
        metadata: None,
        seo: None,
    };
    let mut registry = GeneratorRegistry::new();
    registry.register(Box::new(JupyterGenerator::new()));
    registry.register(Box::new(MdBookGenerator::new().unwrap()));
    registry.register(Box::new(LlmRagGenerator::new()));
    registry.register(Box::new(VueGenerator::new().unwrap()));
    registry.register(Box::new(ApiDocsGenerator::new().unwrap()));
    registry.register(Box::new(ColabGenerator::new().unwrap()));
    registry.register(Box::new(LatexGenerator::new().unwrap()));

    let outputs = registry.generate_all(&schema).unwrap();
    assert_eq!(outputs.len(), 7);
    for (k, (filename, content)) in outputs.iter().enumerate() {
        assert!(!filename.is_empty());
        assert!(!content.is_empty());
        let generator = &registry.all()[k];
        assert!(generator.validate_output(content).is_ok());
    }
}

#[test]
fn test_article_variant_fallback() {
    let schema = test_schema();
    assert!(schema.article.is_none());
    let generators: Vec<Box<dyn OutputGenerator>> = vec![
        Box::new(JupyterGenerator::new()),
        Box::new(MdBookGenerator::new().unwrap()),
        Box::new(LlmRagGenerator::new()),
        Box::new(VueGenerator::new().unwrap()),
        Box::new(ApiDocsGenerator::new().unwrap()),
        Box::new(ColabGenerator::new().unwrap()),
        Box::new(LatexGenerator::new().unwrap()),
    ];
    for g in &generators {
        let out = g.generate(&schema).unwrap();
        assert!(!out.is_empty());
        assert!(g.validate_output(&out).is_ok());
    }
}

#[test]
fn test_output_self_validation() {
    let schema = test_schema();
    let generators: Vec<Box<dyn OutputGenerator>> = vec![
        Box::new(JupyterGenerator::new()),
        Box::new(MdBookGenerator::new().unwrap()),
        Box::new(LlmRagGenerator::new()),
        Box::new(VueGenerator::new().unwrap()),
        Box::new(ApiDocsGenerator::new().unwrap()),
        Box::new(ColabGenerator::new().unwrap()),
        Box::new(LatexGenerator::new().unwrap()),
    ];
    for g in &generators {
        let out = g.generate(&schema).unwrap();
        assert!(g.validate_output(&out).is_ok());
        assert!(g.validate_output("").is_err());
    }
}

#[test]
fn test_has_output_hints() {
    let mut schema = test_schema();
    let g = LlmRagGenerator::new();
    assert!(!g.has_output_hints(&schema));
    schema.outputs.llm_rag = Some(kb::schema::LlmRagHints {
        chunk_strategy: "by_example".to_string(),
        max_chunk_size: 512,
        embedding_priority: "medium".to_string(),
    });
    assert!(g.has_output_hints(&schema));
}
