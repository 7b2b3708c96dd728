//! Search-engine sitemap submission support: ping-URL construction and the
//! classification of ping responses. The HTTP calls themselves live with
//! the caller; this module decides what to send and what an outcome means.

use vstd::prelude::*;

verus! {

/// What `urlencoding::encode` returns: a function of the text alone.
pub uninterp spec fn url_encoded(s: Seq<char>) -> Seq<char>;

/// Relies on `urlencoding::encode`: percent-encodes every byte except
/// alphanumerics and `-`, `_`, `.`, `~`; the result depends on the text
/// alone, and an empty string stays empty.
#[verifier::external_body]
pub fn encode_url_component(s: &str) -> (r: String)
    ensures
        r@ == url_encoded(s@),
        s@.len() == 0 ==> r@.len() == 0,
{
    urlencoding::encode(s).into_owned()
}

/// Search engines that support sitemap ping.
#[derive(Debug, Clone, Copy, PartialEq, Eq, Structural)]
pub enum SearchEngine {
    /// Google Search.
    Google,
    /// Bing (also powers other engines).
    Bing,
    /// The IndexNow protocol.
    IndexNow,
}

/// The ping URL of an engine for a sitemap URL.
pub open spec fn ping_url_of(e: SearchEngine, sitemap_url: Seq<char>) -> Seq<char> {
    match e {
        SearchEngine::Google => "https://www.google.com/ping?sitemap="@ + url_encoded(sitemap_url),
        SearchEngine::Bing => "https://www.bing.com/ping?sitemap="@ + url_encoded(sitemap_url),
        SearchEngine::IndexNow => "https://www.bing.com/indexnow?url="@ + url_encoded(sitemap_url),
    }
}

impl SearchEngine {
    /// The ping URL for this engine, with the sitemap URL encoded.
    pub fn ping_url(&self, sitemap_url: &str) -> (r: String)
        ensures
            r@ == ping_url_of(*self, sitemap_url@),
    {
        let encoded = encode_url_component(sitemap_url);
        let mut out = String::new();
        match self {
            SearchEngine::Google => out.append("https://www.google.com/ping?sitemap="),
            SearchEngine::Bing => out.append("https://www.bing.com/ping?sitemap="),
            SearchEngine::IndexNow => out.append("https://www.bing.com/indexnow?url="),
        }
        out.append(encoded.as_str());
        proof {
            assert(out@ =~= ping_url_of(*self, sitemap_url@));
        }
        out
    }

    /// Human-readable name.
    pub fn name(&self) -> (r: &'static str)
        ensures
            r@ == self.spec_name(),
    {
        match self {
            SearchEngine::Google => "Google",
            SearchEngine::Bing => "Bing",
            SearchEngine::IndexNow => "IndexNow",
        }
    }

    pub open spec fn spec_name(&self) -> Seq<char> {
        match self {
            SearchEngine::Google => "Google"@,
            SearchEngine::Bing => "Bing"@,
            SearchEngine::IndexNow => "IndexNow"@,
        }
    }
}

/// Result of one ping.
#[derive(Debug, Clone, PartialEq)]
pub struct PingResult {
    /// Engine that was pinged.
    pub engine: SearchEngine,
    /// HTTP status code; 0 for a transport failure.
    pub status_code: u16,
    /// Whether the ping succeeded (a 2xx status).
    pub success: bool,
    /// Response or error message.
    pub message: String,
}

impl PingResult {
    /// A successful outcome.
    pub fn success(engine: SearchEngine, status_code: u16, message: String) -> (r: Self)
        ensures
            r.engine == engine,
            r.status_code == status_code,
            r.success,
            r.message == message,
    {
        PingResult { engine, status_code, success: true, message }
    }

    /// A failed outcome.
    pub fn failure(engine: SearchEngine, status_code: u16, message: String) -> (r: Self)
        ensures
            r.engine == engine,
            r.status_code == status_code,
            !r.success,
            r.message == message,
    {
        PingResult { engine, status_code, success: false, message }
    }
}

/// Classifies an HTTP status for a ping: success exactly on the 2xx range,
/// with a specific message naming the engine either way.
pub fn ping_result_for_status(engine: SearchEngine, status: u16) -> (r: PingResult)
    ensures
        r.engine == engine,
        r.status_code == status,
        r.success <==> (200 <= status && status < 300),
        (200 <= status && status < 300) ==> r.message@ == "Successfully pinged "@
            + engine.spec_name(),
        !(200 <= status && status < 300) ==> r.message@ == "Unexpected status "@
            + crate::text::dec_str(status as nat) + " from "@ + engine.spec_name(),
{
    if 200 <= status && status < 300 {
        let mut msg = String::new();
        msg.append("Successfully pinged ");
        msg.append(engine.name());
        proof {
            assert(msg@ =~= "Successfully pinged "@ + engine.spec_name());
        }
        PingResult::success(engine, status, msg)
    } else {
        let mut msg = String::new();
        msg.append("Unexpected status ");
        crate::text::append_u64(&mut msg, status as u64);
        msg.append(" from ");
        msg.append(engine.name());
        proof {
            assert(msg@ =~= "Unexpected status "@ + crate::text::dec_str(status as nat)
                + " from "@ + engine.spec_name());
        }
        PingResult::failure(engine, status, msg)
    }
}

/// Whether at least one ping in a batch succeeded: the condition under
/// which a require-one submission run counts as a success.
pub fn any_success(results: &Vec<PingResult>) -> (r: bool)
    ensures
        r == exists|k: int| 0 <= k < results@.len() && (#[trigger] results@[k]).success,
{
    let n = results.len();
    let mut i: usize = 0;
    while i < n
        invariant
            n == results@.len(),
            i <= n,
            forall|k: int| 0 <= k < i ==> !(#[trigger] results@[k]).success,
        decreases n - i,
    {
        if results[i].success {
            return true;
        }
        i = i + 1;
    }
    false
}

/// Configuration for the pinger.
#[derive(Debug, Clone, PartialEq)]
pub struct PingerConfig {
    /// Timeout for HTTP requests in seconds.
    pub timeout_secs: u64,
    /// User agent string.
    pub user_agent: String,
    /// Which engines to ping.
    pub engines: Vec<SearchEngine>,
    /// IndexNow API key, when one is configured.
    pub indexnow_key: Option<String>,
    /// Verbose output.
    pub verbose: bool,
}

impl Default for PingerConfig {
    /// The stock configuration: a 30-second timeout, the project user
    /// agent, and the two ping engines.
    fn default() -> (r: Self)
        ensures
            r.timeout_secs == 30,
            r.user_agent@ == "MathHook-KB-Sitemap (https://mathhook.org)"@,
            r.engines@.len() == 2,
            r.engines@[0] == SearchEngine::Google,
            r.engines@[1] == SearchEngine::Bing,
            r.indexnow_key is None,
            !r.verbose,
    {
        let mut engines: Vec<SearchEngine> = Vec::new();
        engines.push(SearchEngine::Google);
        engines.push(SearchEngine::Bing);
        PingerConfig {
            timeout_secs: 30,
            user_agent: "MathHook-KB-Sitemap (https://mathhook.org)".to_owned(),
            engines,
            indexnow_key: None,
            verbose: false,
        }
    }
}

impl PingerConfig {
    /// Creates the stock configuration.
    pub fn new() -> (r: Self)
        ensures
            r.timeout_secs == 30,
            r.engines@.len() == 2,
            r.engines@[0] == SearchEngine::Google,
            r.engines@[1] == SearchEngine::Bing,
            r.indexnow_key is None,
            !r.verbose,
    {
        Default::default()
    }

    /// Replaces the timeout.
    pub fn with_timeout(self, secs: u64) -> (r: Self)
        ensures
            r.timeout_secs == secs,
            r.user_agent == self.user_agent,
            r.engines == self.engines,
            r.indexnow_key == self.indexnow_key,
            r.verbose == self.verbose,
    {
        PingerConfig { timeout_secs: secs, ..self }
    }

    /// Enables verbose output.
    pub fn verbose(self) -> (r: Self)
        ensures
            r.verbose,
            r.timeout_secs == self.timeout_secs,
            r.user_agent == self.user_agent,
            r.engines == self.engines,
            r.indexnow_key == self.indexnow_key,
    {
        PingerConfig { verbose: true, ..self }
    }

    /// Replaces the engine list.
    pub fn with_engines(self, engines: Vec<SearchEngine>) -> (r: Self)
        ensures
            r.engines == engines,
            r.timeout_secs == self.timeout_secs,
            r.user_agent == self.user_agent,
            r.indexnow_key == self.indexnow_key,
            r.verbose == self.verbose,
    {
        PingerConfig { engines, ..self }
    }

    /// Sets the IndexNow API key, and adds the IndexNow engine when it is
    /// not yet listed.
    pub fn with_indexnow_key(self, key: &str) -> (r: Self)
        ensures
            r.indexnow_key matches Some(k) && k@ == key@,
            r.timeout_secs == self.timeout_secs,
            r.user_agent == self.user_agent,
            r.verbose == self.verbose,
            (exists|k: int|
                0 <= k < self.engines@.len() && #[trigger] self.engines@[k]
                    == SearchEngine::IndexNow) ==> r.engines == self.engines,
            !(exists|k: int|
                0 <= k < self.engines@.len() && #[trigger] self.engines@[k]
                    == SearchEngine::IndexNow) ==> r.engines@ == self.engines@.push(
                SearchEngine::IndexNow,
            ),
    {
        let mut engines = self.engines;
        let ghost orig = engines@;
        let n = engines.len();
        let mut found = false;
        let mut i: usize = 0;
        while i < n
            invariant
                n == engines@.len(),
                engines@ == orig,
                i <= n,
                found == exists|k: int|
                    0 <= k < i && #[trigger] orig[k] == SearchEngine::IndexNow,
            decreases n - i,
        {
            if matches!(engines[i], SearchEngine::IndexNow) {
                found = true;
            }
            i = i + 1;
        }
        if !found {
            engines.push(SearchEngine::IndexNow);
        }
        PingerConfig { indexnow_key: Some(key.to_owned()), engines, ..self }
    }
}

/// Plans and classifies search-engine sitemap submissions; the HTTP calls
/// are performed by the caller.
#[derive(Debug, Clone, PartialEq)]
pub struct SearchEnginePinger {
    /// The configuration in use.
    pub config: PingerConfig,
}

impl SearchEnginePinger {
    /// Creates a pinger with the stock configuration.
    pub fn new() -> (r: Self)
        ensures
            r.config.timeout_secs == 30,
            r.config.engines@.len() == 2,
    {
        SearchEnginePinger { config: Default::default() }
    }

    /// Creates a pinger with the given configuration.
    pub fn with_config(config: PingerConfig) -> (r: Self)
        ensures
            r.config == config,
    {
        SearchEnginePinger { config }
    }

    /// The (engine, ping URL) pairs this pinger would contact for a
    /// sitemap URL, one per configured engine, in order.
    pub fn ping_urls(&self, sitemap_url: &str) -> (r: Vec<(SearchEngine, String)>)
        ensures
            r@.len() == self.config.engines@.len(),
            forall|k: int|
                0 <= k < r@.len() ==> (#[trigger] r@[k]).0 == self.config.engines@[k]
                    && r@[k].1@ == ping_url_of(self.config.engines@[k], sitemap_url@),
    {
        let mut out: Vec<(SearchEngine, String)> = Vec::new();
        let n = self.config.engines.len();
        let mut i: usize = 0;
        while i < n
            invariant
                n == self.config.engines@.len(),
                i <= n,
                out@.len() == i,
                forall|k: int|
                    0 <= k < i ==> (#[trigger] out@[k]).0 == self.config.engines@[k]
                        && out@[k].1@ == ping_url_of(self.config.engines@[k], sitemap_url@),
            decreases n - i,
        {
            let engine = self.config.engines[i];
            let url = engine.ping_url(sitemap_url);
            out.push((engine, url));
            i = i + 1;
        }
        out
    }
}

impl Default for SearchEnginePinger {
    /// The stock pinger.
    fn default() -> (r: Self)
        ensures
            r.config.timeout_secs == 30,
    {
        SearchEnginePinger::new()
    }
}

} // verus!
