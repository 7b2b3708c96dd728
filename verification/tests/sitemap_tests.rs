use kb::schema::{Metadata, OutputHints, Schema, SeoMetadata};
use kb::sitemap::{
    escape_xml, extract_urls_from_sitemap, SitemapConfig, SitemapEntry, SitemapGenerator,
    SitemapIndex,
};

fn schema_with_seo() -> Schema {
    Schema {
        topic: "calculus.derivative".to_string(),
        title: "Derivatives".to_string(),
        description: "Derivatives".to_string(),
        mathematical_definition: None,
        code_refs: None,
        examples: vec![],
        article: None,
        use_cases: vec![],
        related_topics: vec![],
        performance: None,
        interactive_playground: None,
        outputs: OutputHints::default(),
        metadata: Some(Metadata {
            schema_version: "1.0".to_string(),
            author: None,
            last_updated: Some("2024-01-15".to_string()),
            tags: vec![],
        }),
        seo: Some(SeoMetadata {
            keywords: vec![],
            secondary_keywords: vec![],
            meta_description: None,
            canonical_url: None,
            og_title: None,
            og_description: None,
            og_image: None,
            twitter_card: "summary".to_string(),
            schema_org_type: None,
            priority_tenths: 8,
            change_frequency: "weekly".to_string(),
            language: "en".to_string(),
            alternate_languages: vec![],
        }),
    }
}

#[test]
fn test_sitemap_entry_to_xml() {
    let entry = SitemapEntry::new("https://example.com/page")
        .with_priority(8)
        .with_changefreq("weekly");

    let xml = entry.to_xml();
    assert!(xml.contains("<loc>https://example.com/page</loc>"));
    assert!(xml.contains("<priority>0.8</priority>"));
    assert!(xml.contains("<changefreq>weekly</changefreq>"));
}

#[test]
fn test_sitemap_config_builder() {
    let config = SitemapConfig::new("https://mathhook.org/")
        .with_docs_prefix("/documentation")
        .with_default_priority(7);

    assert_eq!(config.base_url, "https://mathhook.org");
    assert_eq!(config.docs_prefix, "/documentation");
    assert_eq!(config.default_priority_tenths, 7);
}

#[test]
fn test_xml_escaping() {
    let escaped = escape_xml("<test & \"quoted\" 'single'>");
    assert_eq!(
        escaped,
        "&lt;test &amp; &quot;quoted&quot; &apos;single&apos;&gt;"
    );
}

#[test]
fn test_sitemap_index_to_xml() {
    let mut index = SitemapIndex::new("https://example.com");
    index.add_sitemap("sitemap-1.xml", None);
    index.add_sitemap("sitemap-2.xml", None);

    let xml = index.to_xml();
    assert!(xml.contains("<sitemapindex"));
    assert!(xml.contains("https://example.com/sitemap-1.xml"));
    assert!(xml.contains("https://example.com/sitemap-2.xml"));
}

#[test]
fn test_sitemap_config_creation() {
    let config = SitemapConfig::new("https://mathhook.org");
    assert_eq!(config.base_url, "https://mathhook.org");
}

#[test]
fn test_priority_one_renders_as_unit() {
    let entry = SitemapEntry::new("https://example.com").with_priority(10);
    let xml = entry.to_xml();
    assert!(xml.contains("<priority>1.0</priority>"));
}

#[test]
fn test_schema_entries_use_seo_metadata() {
    let config = SitemapConfig::new("https://mathhook.org");
    let generator = SitemapGenerator::new(config);
    let schemas = vec![schema_with_seo()];
    let entries = generator.schemas_to_entries(&schemas);
    assert_eq!(entries.len(), 3);
    let entry = &entries[2];
    assert_eq!(entry.loc, "https://mathhook.org/docs/calculus-derivative");
    let xml = entry.to_xml();
    assert!(xml.contains("<priority>0.8</priority>"));
    assert!(xml.contains("<changefreq>weekly</changefreq>"));
    assert!(xml.contains("<lastmod>2024-01-15</lastmod>"));
}

#[test]
fn test_invalid_last_updated_is_skipped() {
    let mut schema = schema_with_seo();
    schema.metadata = Some(Metadata {
        schema_version: "1.0".to_string(),
        author: None,
        last_updated: Some("not a date".to_string()),
        tags: vec![],
    });
    let config = SitemapConfig::new("https://mathhook.org").without_static_pages();
    let generator = SitemapGenerator::new(config);
    let entries = generator.schemas_to_entries(&vec![schema]);
    assert_eq!(entries.len(), 1);
    assert!(!entries[0].to_xml().contains("<lastmod>"));
}

#[test]
fn test_generate_from_schemas_wellformed() {
    let config = SitemapConfig::new("https://mathhook.org");
    let generator = SitemapGenerator::new(config);
    let xml = generator.generate_from_schemas(&vec![schema_with_seo()]).unwrap();
    assert!(xml.starts_with("<?xml version=\"1.0\" encoding=\"UTF-8\"?>"));
    assert!(xml.contains("<urlset"));
    assert!(xml.ends_with("</urlset>\n"));
}

#[test]
fn test_extract_urls() {
    let content = "<urlset>\n  <url>\n    <loc>https://a.example/x</loc>\n  </url>\n  <url>\n    <loc>https://a.example/y</loc>\n  </url>\n</urlset>\n";
    let urls = extract_urls_from_sitemap(content);
    assert_eq!(urls, vec!["https://a.example/x", "https://a.example/y"]);
}
