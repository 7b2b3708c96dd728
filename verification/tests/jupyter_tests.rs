use kb::generator::OutputGenerator;
use kb::jupyter::{Cell, CellType, JupyterGenerator, Notebook, TemplateManager};
use kb::schema::{CodeReferences, CodeSnippets, Example, OutputHints, Schema};

fn create_simple_schema() -> Schema {
    Schema {
        topic: "test.example".to_string(),
        title: "Test Example".to_string(),
        description: "A test example".to_string(),
        mathematical_definition: Some("f(x) = x^2".to_string()),
        code_refs: Some(CodeReferences {
            rust: "test::example".to_string(),
            python: "test.example".to_string(),
            nodejs: "test.example".to_string(),
        }),
        examples: vec![Example {
            title: "Simple Example".to_string(),
            explanation: "This is a test".to_string(),
            code: CodeSnippets {
                rust: "let x = 2;".to_string(),
                python: "x = 2".to_string(),
                nodejs: "const x = 2;".to_string(),
            },
            expected_output: Some("2".to_string()),
        }],
        article: None,
        use_cases: vec![],
        related_topics: vec![],
        performance: None,
        interactive_playground: None,
        outputs: OutputHints::default(),
        metadata: None,
        seo: None,
    }
}

#[test]
fn test_generate_simple_schema() {
    let generator = JupyterGenerator::new();
    let schema = create_simple_schema();
    let result = generator.generate(&schema);
    assert!(result.is_ok());

    let output = result.unwrap();
    assert!(output.contains("nbformat"));
    assert!(output.contains("cells"));
    assert!(output.contains("Test Example"));
}

#[test]
fn generator_test_validate_invalid_output() {
    let generator = JupyterGenerator::new();
    let invalid_json = r#"{"invalid": "json"}"#;
    let validation = generator.validate_output(invalid_json);
    assert!(validation.is_err());
}

#[test]
fn test_generate_with_multiple_examples() {
    let generator = JupyterGenerator::new();
    let mut schema = create_simple_schema();
    schema.examples.push(Example {
        title: "Second Example".to_string(),
        explanation: "Another test".to_string(),
        code: CodeSnippets {
            rust: "let y = 3;".to_string(),
            python: "y = 3".to_string(),
            nodejs: "const y = 3;".to_string(),
        },
        expected_output: None,
    });

    let result = generator.generate(&schema);
    assert!(result.is_ok());

    let output = result.unwrap();
    assert!(output.contains("Simple Example"));
    assert!(output.contains("Second Example"));
}

#[test]
fn test_create_empty_notebook() {
    let notebook = Notebook::new();
    assert_eq!(notebook.nbformat, 4);
    assert_eq!(notebook.nbformat_minor, 5);
    assert_eq!(notebook.cells.len(), 0);
}

#[test]
fn test_add_markdown_cell() {
    let mut notebook = Notebook::new();
    notebook.add_markdown("# Hello World".to_string());
    assert_eq!(notebook.cells.len(), 1);
    assert_eq!(notebook.cells[0].cell_type, CellType::Markdown);
}

#[test]
fn test_add_code_cell() {
    let mut notebook = Notebook::new();
    notebook.add_code("print('Hello')".to_string());
    assert_eq!(notebook.cells.len(), 1);
    assert_eq!(notebook.cells[0].cell_type, CellType::Code);
}

#[test]
fn test_notebook_to_json() {
    let mut notebook = Notebook::new();
    notebook.add_markdown("# Test".to_string());
    let json = notebook.to_json().expect("Failed to serialize");
    assert!(json.contains("nbformat"));
    assert!(json.contains("cells"));
}

#[test]
fn test_cell_source_lines() {
    let cell = Cell::markdown("Line 1\nLine 2\nLine 3".to_string());
    assert_eq!(cell.source.len(), 3);
    assert_eq!(cell.source[0], "Line 1\n");
    assert_eq!(cell.source[1], "Line 2\n");
    assert_eq!(cell.source[2], "Line 3\n");
}

#[test]
fn test_template_manager_creation() {
    let manager = TemplateManager::new();
    assert!(manager.is_ok());
}

#[test]
fn test_render_header() {
    let manager = TemplateManager::new().unwrap();
    let result = manager.render_header("Test Title", "Test description");
    assert!(result.is_ok());
    let rendered = result.unwrap();
    assert!(rendered.contains("Test Title"));
    assert!(rendered.contains("Test description"));
}

#[test]
fn test_render_introduction() {
    let manager = TemplateManager::new().unwrap();
    let objectives = vec!["Learn X".to_string(), "Understand Y".to_string()];
    let prerequisites = vec!["Know Z".to_string()];
    let time = Some("30 minutes".to_string());

    let result =
        manager.render_introduction("This is a hook", &objectives, &prerequisites, time.as_ref());
    assert!(result.is_ok());
    let rendered = result.unwrap();
    assert!(rendered.contains("This is a hook"));
    assert!(rendered.contains("Learn X"));
    assert!(rendered.contains("30 minutes"));
}

#[test]
fn test_render_example() {
    let manager = TemplateManager::new().unwrap();
    let result = manager.render_example(
        "Power Rule",
        "This demonstrates the power rule",
        "x**2",
        Some(&"2*x".to_string()),
    );
    assert!(result.is_ok());
    let rendered = result.unwrap();
    assert!(rendered.contains("Power Rule"));
    assert!(rendered.contains("x**2"));
    assert!(rendered.contains("2*x"));
}

#[test]
fn test_render_sidebar_tip() {
    let manager = TemplateManager::new().unwrap();
    let result = manager.render_sidebar("tip", "Quick Tip", "Always validate input");
    assert!(result.is_ok());
    let rendered = result.unwrap();
    assert!(rendered.contains("\u{1F4A1}"));
    assert!(rendered.contains("Quick Tip"));
}

#[test]
fn test_render_conclusion() {
    let manager = TemplateManager::new().unwrap();
    let next_steps = vec!["Step 1".to_string(), "Step 2".to_string()];
    let further_reading = vec!["Book A".to_string()];

    let result = manager.render_conclusion("We learned a lot", &next_steps, &further_reading);
    assert!(result.is_ok());
    let rendered = result.unwrap();
    assert!(rendered.contains("We learned a lot"));
    assert!(rendered.contains("Step 1"));
    assert!(rendered.contains("Book A"));
}

#[test]
fn test_render_exercise() {
    let manager = TemplateManager::new().unwrap();
    let hints = vec!["Hint 1".to_string(), "Hint 2".to_string()];

    let result =
        manager.render_exercise(1, "First Exercise", "Medium", "Solve this problem", &hints);
    assert!(result.is_ok());
    let rendered = result.unwrap();
    assert!(rendered.contains("Exercise 1"));
    assert!(rendered.contains("Medium"));
    assert!(rendered.contains("Hint 1"));
}

#[test]
fn test_notebook_json_parses() {
    let generator = JupyterGenerator::new();
    let schema = create_simple_schema();
    let output = generator.generate(&schema).unwrap();
    let parsed: serde_json::Value = serde_json::from_str(&output).expect("notebook JSON parses");
    assert!(parsed.get("nbformat").is_some());
    assert!(parsed.get("cells").is_some());
    let cells = parsed.get("cells").and_then(|c| c.as_array()).unwrap();
    for cell in cells {
        assert!(cell.get("cell_type").is_some());
        assert!(cell.get("source").is_some());
        assert!(cell.get("execution_count").is_some());
    }
}
