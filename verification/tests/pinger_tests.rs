use kb::pinger::{
    any_success, ping_result_for_status, PingResult, PingerConfig, SearchEngine,
    SearchEnginePinger,
};

#[test]
fn test_ping_url_generation() {
    let sitemap = "https://mathhook.org/sitemap.xml";

    let google_url = SearchEngine::Google.ping_url(sitemap);
    assert!(google_url.contains("google.com/ping"));
    assert!(google_url.contains("sitemap="));

    let bing_url = SearchEngine::Bing.ping_url(sitemap);
    assert!(bing_url.contains("bing.com/ping"));
}

#[test]
fn test_url_encoding() {
    let sitemap = "https://example.com/sitemap.xml?v=1&test=2";
    let url = SearchEngine::Google.ping_url(sitemap);
    assert!(url.contains("%3F"));
    assert!(url.contains("%26"));
}

#[test]
fn test_default_engines() {
    let config = PingerConfig::default();
    assert!(config.engines.contains(&SearchEngine::Google));
    assert!(config.engines.contains(&SearchEngine::Bing));
}

#[test]
fn test_config_builder() {
    let config = PingerConfig::new()
        .with_timeout(60)
        .verbose()
        .with_engines(vec![SearchEngine::Google]);

    assert_eq!(config.timeout_secs, 60);
    assert!(config.verbose);
    assert_eq!(config.engines.len(), 1);
}

#[test]
fn test_with_indexnow_key_adds_engine() {
    let config = PingerConfig::new().with_indexnow_key("SECRET-REDACTED");
    assert!(config.engines.contains(&SearchEngine::IndexNow));
    let config = config.with_indexnow_key("SECRET-REDACTED");
    assert_eq!(
        config
            .engines
            .iter()
            .filter(|e| **e == SearchEngine::IndexNow)
            .count(),
        1
    );
}

#[test]
fn test_ping_result_classification() {
    let ok = ping_result_for_status(SearchEngine::Google, 200);
    assert!(ok.success);
    assert_eq!(ok.message, "Successfully pinged Google");

    let bad = ping_result_for_status(SearchEngine::Bing, 404);
    assert!(!bad.success);
    assert_eq!(bad.message, "Unexpected status 404 from Bing");
}

#[test]
fn test_any_success() {
    let results = vec![
        ping_result_for_status(SearchEngine::Google, 500),
        ping_result_for_status(SearchEngine::Bing, 204),
    ];
    assert!(any_success(&results));
    let results: Vec<PingResult> = vec![ping_result_for_status(SearchEngine::Google, 500)];
    assert!(!any_success(&results));
}

#[test]
fn test_ping_urls_per_engine() {
    let pinger = SearchEnginePinger::new();
    let urls = pinger.ping_urls("https://mathhook.org/sitemap.xml");
    assert_eq!(urls.len(), 2);
    assert_eq!(urls[0].0, SearchEngine::Google);
    assert_eq!(urls[1].0, SearchEngine::Bing);
    assert!(urls[0].1.contains("google.com"));
}
