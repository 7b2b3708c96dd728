use kb::colab::{ColabConfig, ColabGenerator, ColabManifest};
use kb::generator::OutputGenerator;
use kb::schema::{CodeReferences, CodeSnippets, Example, OutputHints, Schema};

fn create_test_schema() -> Schema {
    Schema {
        topic: "calculus.derivative".to_string(),
        title: "Symbolic Differentiation".to_string(),
        description: "Compute derivatives symbolically".to_string(),
        mathematical_definition: Some("\\frac{d}{dx} f(x)".to_string()),
        code_refs: Some(CodeReferences {
            rust: "mathhook::calculus::derivative".to_string(),
            python: "mathhook.calculus.derivative".to_string(),
            nodejs: "mathhook.calculus.derivative".to_string(),
        }),
        examples: vec![Example {
            title: "Power Rule".to_string(),
            explanation: "Derivative of x^n is n*x^(n-1)".to_string(),
            code: CodeSnippets {
                rust: "let f = expr!(x ^ 2);".to_string(),
                python: "f = x**2\ndf = diff(f, x)".to_string(),
                nodejs: "const f = x**2;".to_string(),
            },
            expected_output: Some("2*x".to_string()),
        }],
        article: None,
        use_cases: vec![],
        related_topics: vec![],
        performance: None,
        interactive_playground: None,
        outputs: OutputHints::default(),
        metadata: None,
        seo: None,
    }
}

#[test]
fn test_colab_url_generation() {
    let config = ColabConfig::new("AhmedMashour", "mathhook", "main", "colab-notebooks");

    let url = config.get_colab_url("calculus", "derivative.colab.ipynb");

    assert_eq!(
        url,
        "https://colab.research.google.com/github/AhmedMashour/mathhook/blob/main/colab-notebooks/calculus/derivative.colab.ipynb"
    );
}

#[test]
fn test_github_url_generation() {
    let config = ColabConfig::new("AhmedMashour", "mathhook", "main", "colab-notebooks");

    let url = config.get_github_url("algebra", "simplify.colab.ipynb");

    assert_eq!(
        url,
        "https://github.com/AhmedMashour/mathhook/blob/main/colab-notebooks/algebra/simplify.colab.ipynb"
    );
}

#[test]
fn test_manifest_add() {
    let config = ColabConfig::default();
    let mut manifest = ColabManifest::new(config);

    manifest.add(
        "calculus.derivative",
        "Symbolic Differentiation",
        "calculus-derivative.colab.ipynb",
    );
    manifest.add(
        "calculus.integral",
        "Symbolic Integration",
        "calculus-integral.colab.ipynb",
    );
    manifest.add(
        "algebra.simplify",
        "Expression Simplification",
        "algebra-simplify.colab.ipynb",
    );

    assert_eq!(manifest.total_notebooks, 3);
    assert_eq!(manifest.categories.len(), 2);
    assert_eq!(manifest.category_entries("calculus").unwrap().len(), 2);
    assert_eq!(manifest.category_entries("algebra").unwrap().len(), 1);
}

#[test]
fn test_readme_generation() {
    let config = ColabConfig::new("test", "repo", "main", "notebooks");
    let mut manifest = ColabManifest::new(config);

    manifest.add("calculus.derivative", "Derivatives", "calc-deriv.ipynb");

    let readme = manifest.generate_readme();

    assert!(readme.contains("# MathHook Colab Notebooks"));
    assert!(readme.contains("### Calculus"));
    assert!(readme.contains("colab-badge.svg"));
}

#[test]
fn test_sorted_categories_order() {
    let config = ColabConfig::default();
    let mut manifest = ColabManifest::new(config);
    manifest.add("trig.sine", "Sine", "trig-sine.ipynb");
    manifest.add("algebra.simplify", "Simplify", "algebra-simplify.ipynb");
    manifest.add("calculus.derivative", "Derivatives", "calculus-derivative.ipynb");
    let sorted = manifest.sorted_categories();
    assert_eq!(sorted, vec!["algebra", "calculus", "trig"]);
}

#[test]
fn test_category_readme() {
    let config = ColabConfig::default();
    let mut manifest = ColabManifest::new(config);
    manifest.add("calculus.derivative", "Derivatives", "calculus-derivative.ipynb");
    let readme = manifest.generate_category_readme("calculus").unwrap();
    assert!(readme.contains("# Calculus Notebooks"));
    assert!(readme.contains("Derivatives"));
    assert!(manifest.generate_category_readme("missing").is_none());
}

#[test]
fn test_colab_url_in_output() {
    let config = ColabConfig::new("TestUser", "test-repo", "main", "notebooks");
    let generator = ColabGenerator::with_config(config);
    let schema = create_test_schema();

    let output = generator.generate(&schema).unwrap();

    assert!(output.contains("colab.research.google.com/github/TestUser/test-repo"));
    assert!(output.contains("notebooks/calculus/"));
}

#[test]
fn test_output_filename() {
    let generator = ColabGenerator::new().unwrap();
    let schema = create_test_schema();
    let filename = generator.get_output_filename(&schema);
    assert_eq!(filename, "calculus-derivative.colab.ipynb");
}

#[test]
fn test_colab_json_parses() {
    let generator = ColabGenerator::new().unwrap();
    let schema = create_test_schema();
    let output = generator.generate(&schema).unwrap();
    let parsed: serde_json::Value = serde_json::from_str(&output).expect("colab JSON parses");
    assert!(parsed.get("nbformat").is_some());
    assert!(parsed
        .get("metadata")
        .and_then(|m| m.get("colab"))
        .is_some());
    assert!(parsed.get("cells").is_some());
}

#[test]
fn test_setup_cell_import_line() {
    let generator = ColabGenerator::new().unwrap();
    let schema = create_test_schema();
    let output = generator.generate(&schema).unwrap();
    assert!(output.contains("from mathhook.calculus import *"));
}
