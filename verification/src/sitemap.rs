//! Sitemap XML generation from schemas: builds standard sitemap documents
//! from (URL, priority, change-frequency) data, with SEO metadata taken
//! from each schema and an index document for large sites.

use vstd::prelude::*;
use crate::schema::Schema;
use crate::text::{dec_str, digit_char, spec_replaced};

verus! {

/// One XML character escape.
pub open spec fn xesc_char(c: char) -> Seq<char> {
    if c == '&' {
        "&amp;"@
    } else if c == '<' {
        "&lt;"@
    } else if c == '>' {
        "&gt;"@
    } else if c == '"' {
        "&quot;"@
    } else if c == '\'' {
        "&apos;"@
    } else {
        seq![c]
    }
}

/// The XML-escaped form of a string.
pub open spec fn xml_escaped(s: Seq<char>) -> Seq<char>
    decreases s.len(),
{
    if s.len() == 0 {
        Seq::empty()
    } else {
        xml_escaped(s.drop_last()) + xesc_char(s.last())
    }
}

/// Escapes the five XML special characters.
pub fn escape_xml(s: &str) -> (r: String)
    ensures
        r@ == xml_escaped(s@),
{
    let n = s.unicode_len();
    let mut out = String::new();
    let mut i: usize = 0;
    while i < n
        invariant
            n == s@.len(),
            i <= n,
            out@ == xml_escaped(s@.take(i as int)),
        decreases n - i,
    {
        let c = s.get_char(i);
        if c == '&' {
            out.append("&amp;");
        } else if c == '<' {
            out.append("&lt;");
        } else if c == '>' {
            out.append("&gt;");
        } else if c == '"' {
            out.append("&quot;");
        } else if c == '\'' {
            out.append("&apos;");
        } else {
            crate::text::push_char(&mut out, c);
        }
        i = i + 1;
        proof {
            assert(s@.take(i as int).drop_last() =~= s@.take(i - 1));
            assert(out@ =~= xml_escaped(s@.take(i as int)));
        }
    }
    proof {
        assert(s@.take(n as int) =~= s@);
    }
    out
}

/// A calendar date as the sitemap prints it.
#[derive(Debug, Clone, Copy, PartialEq, Eq, Structural)]
pub struct SitemapDate {
    pub year: u32,
    pub month: u8,
    pub day: u8,
}

impl SitemapDate {
    /// A calendar-plausible date, as the date parser guarantees.
    pub open spec fn wf(&self) -> bool {
        1 <= self.month <= 12 && 1 <= self.day <= 31
    }
}

/// A decimal number zero-padded to two digits.
pub open spec fn pad2(n: nat) -> Seq<char> {
    if n < 10 {
        seq!['0', digit_char(n)]
    } else {
        dec_str(n)
    }
}

/// A decimal number zero-padded to four digits.
pub open spec fn pad4(n: nat) -> Seq<char> {
    if n < 10 {
        seq!['0', '0', '0', digit_char(n)]
    } else if n < 100 {
        seq!['0', '0'] + dec_str(n)
    } else if n < 1000 {
        seq!['0'] + dec_str(n)
    } else {
        dec_str(n)
    }
}

/// A date in `YYYY-MM-DD` form.
pub open spec fn date_str(d: SitemapDate) -> Seq<char> {
    pad4(d.year as nat) + "-"@ + pad2(d.month as nat) + "-"@ + pad2(d.day as nat)
}

/// Appends the `YYYY-MM-DD` form of a date.
#[verifier::rlimit(60)]
pub fn append_date(out: &mut String, d: &SitemapDate)
    ensures
        final(out)@ == old(out)@ + date_str(*d),
{
    if d.year < 10 {
        out.append("000");
    } else if d.year < 100 {
        out.append("00");
    } else if d.year < 1000 {
        out.append("0");
    }
    crate::text::append_u64(out, d.year as u64);
    out.append("-");
    if d.month < 10 {
        out.append("0");
    }
    crate::text::append_u64(out, d.month as u64);
    out.append("-");
    if d.day < 10 {
        out.append("0");
    }
    crate::text::append_u64(out, d.day as u64);
    proof {
        reveal_strlit("000");
        reveal_strlit("00");
        reveal_strlit("0");
        assert(out@ =~= old(out)@ + date_str(*d));
    }
}

/// What `chrono::NaiveDate::parse_from_str` with the `%Y-%m-%d` format
/// returns for a string, as a (year, month, day) triple: a function of the
/// string alone.
pub uninterp spec fn parsed_ymd_raw(s: Seq<char>) -> Option<(i64, u8, u8)>;

/// Relies on `chrono::NaiveDate::parse_from_str` with the `%Y-%m-%d`
/// format: the outcome depends on the text alone, and a parsed value is a
/// calendar date, so its month and day lie in their documented ranges.
#[verifier::external_body]
fn parse_ymd_raw(s: &str) -> (r: Option<(i64, u8, u8)>)
    ensures
        r == parsed_ymd_raw(s@),
        r matches Some(t) ==> 1 <= t.1 <= 12 && 1 <= t.2 <= 31,
{
    chrono::NaiveDate::parse_from_str(s, "%Y-%m-%d").ok().map(
        |d| (
            chrono::Datelike::year(&d) as i64,
            chrono::Datelike::month(&d) as u8,
            chrono::Datelike::day(&d) as u8,
        ),
    )
}

/// The date a metadata string parses to: a parsed calendar date within the
/// four-digit-year range, so the printed form round-trips.
pub open spec fn parsed_ymd(s: Seq<char>) -> Option<SitemapDate> {
    match parsed_ymd_raw(s) {
        Some(t) => if 0 <= t.0 <= 9999 && 1 <= t.1 <= 12 && 1 <= t.2 <= 31 {
            Some(SitemapDate { year: t.0 as u32, month: t.1, day: t.2 })
        } else {
            None
        },
        None => None,
    }
}

/// Parses a `YYYY-MM-DD` date; dates outside the four-digit-year range are
/// rejected so the printed form round-trips.
pub fn parse_ymd(s: &str) -> (r: Option<SitemapDate>)
    ensures
        r == parsed_ymd(s@),
        r matches Some(d) ==> d.wf() && d.year <= 9999,
{
    match parse_ymd_raw(s) {
        Some(t) => {
            if 0 <= t.0 && t.0 <= 9999 && 1 <= t.1 && t.1 <= 12 && 1 <= t.2 && t.2 <= 31 {
                Some(SitemapDate { year: t.0 as u32, month: t.1, day: t.2 })
            } else {
                None
            }
        },
        None => None,
    }
}

/// Relies on `chrono::Utc::now`: the current date; its month and day lie
/// in their documented calendar ranges.
#[verifier::external_body]
pub fn today_utc() -> (r: SitemapDate)
    ensures
        r.wf(),
{
    let now = chrono::Utc::now().date_naive();
    SitemapDate {
        year: chrono::Datelike::year(&now) as u32,
        month: chrono::Datelike::month(&now) as u8,
        day: chrono::Datelike::day(&now) as u8,
    }
}

/// The priority in tenths as the sitemap prints it: one decimal place.
pub open spec fn priority_str(tenths: nat) -> Seq<char> {
    if tenths >= 10 {
        "1.0"@
    } else {
        seq!['0', '.', digit_char(tenths)]
    }
}

/// Appends the one-decimal form of a priority in tenths.
pub fn append_priority(out: &mut String, tenths: u8)
    ensures
        final(out)@ == old(out)@ + priority_str(tenths as nat),
{
    if tenths >= 10 {
        out.append("1.0");
    } else {
        out.append("0.");
        crate::text::append_u64(out, tenths as u64);
        proof {
            assert(dec_str(tenths as nat) =~= seq![digit_char(tenths as nat)]);
        }
    }
    proof {
        reveal_strlit("0.");
        assert(out@ =~= old(out)@ + priority_str(tenths as nat));
    }
}

/// Configuration for sitemap generation.
#[derive(Debug, Clone, PartialEq)]
pub struct SitemapConfig {
    /// Base URL for the site, without a trailing slash.
    pub base_url: String,
    /// URL path prefix for docs pages.
    pub docs_prefix: String,
    /// Default page priority in tenths (5 stands for 0.5) for schemas
    /// without SEO metadata.
    pub default_priority_tenths: u8,
    /// Default change frequency.
    pub default_change_freq: String,
    /// Maximum URLs per sitemap file.
    pub max_urls_per_sitemap: usize,
    /// Whether the homepage and docs index are included.
    pub include_static_pages: bool,
}

/// A base URL with one trailing slash removed.
pub open spec fn base_trimmed(s: Seq<char>) -> Seq<char> {
    if s.len() > 0 && s.last() == '/' {
        s.drop_last()
    } else {
        s
    }
}

impl SitemapConfig {
    /// Creates a configuration with the given base URL; one trailing slash
    /// is removed.
    pub fn new(base_url: &str) -> (r: Self)
        ensures
            r.base_url@ == base_trimmed(base_url@),
            r.docs_prefix@ == "/docs"@,
            r.default_priority_tenths == 5,
            r.default_change_freq@ == "monthly"@,
            r.max_urls_per_sitemap == 50000,
            r.include_static_pages,
    {
        let n = base_url.unicode_len();
        let url = if n > 0 && base_url.get_char(n - 1) == '/' {
            base_url.substring_char(0, n - 1).to_owned()
        } else {
            base_url.to_owned()
        };
        proof {
            if n > 0 && base_url@.last() == '/' {
                assert(base_url@.subrange(0, n - 1) =~= base_url@.drop_last());
            }
        }
        SitemapConfig {
            base_url: url,
            docs_prefix: "/docs".to_owned(),
            default_priority_tenths: 5,
            default_change_freq: "monthly".to_owned(),
            max_urls_per_sitemap: 50000,
            include_static_pages: true,
        }
    }

    /// Replaces the docs URL prefix.
    pub fn with_docs_prefix(self, prefix: &str) -> (r: Self)
        ensures
            r.docs_prefix@ == prefix@,
            r.base_url == self.base_url,
            r.default_priority_tenths == self.default_priority_tenths,
            r.default_change_freq == self.default_change_freq,
            r.max_urls_per_sitemap == self.max_urls_per_sitemap,
            r.include_static_pages == self.include_static_pages,
    {
        SitemapConfig { docs_prefix: prefix.to_owned(), ..self }
    }

    /// Replaces the default priority, clamped to the unit range.
    pub fn with_default_priority(self, tenths: u8) -> (r: Self)
        ensures
            r.default_priority_tenths == (if tenths > 10 {
                10u8
            } else {
                tenths
            }),
            r.base_url == self.base_url,
            r.docs_prefix == self.docs_prefix,
            r.default_change_freq == self.default_change_freq,
            r.max_urls_per_sitemap == self.max_urls_per_sitemap,
            r.include_static_pages == self.include_static_pages,
    {
        SitemapConfig {
            default_priority_tenths: if tenths > 10 {
                10
            } else {
                tenths
            },
            ..self
        }
    }

    /// Replaces the default change frequency.
    pub fn with_default_change_freq(self, freq: &str) -> (r: Self)
        ensures
            r.default_change_freq@ == freq@,
            r.base_url == self.base_url,
            r.docs_prefix == self.docs_prefix,
            r.default_priority_tenths == self.default_priority_tenths,
            r.max_urls_per_sitemap == self.max_urls_per_sitemap,
            r.include_static_pages == self.include_static_pages,
    {
        SitemapConfig { default_change_freq: freq.to_owned(), ..self }
    }

    /// Excludes the static pages.
    pub fn without_static_pages(self) -> (r: Self)
        ensures
            !r.include_static_pages,
            r.base_url == self.base_url,
            r.docs_prefix == self.docs_prefix,
            r.default_priority_tenths == self.default_priority_tenths,
            r.default_change_freq == self.default_change_freq,
            r.max_urls_per_sitemap == self.max_urls_per_sitemap,
    {
        SitemapConfig { include_static_pages: false, ..self }
    }
}

/// A single sitemap entry.
#[derive(Debug, Clone, PartialEq)]
pub struct SitemapEntry {
    /// Full URL of the page.
    pub loc: String,
    /// Last modification date.
    pub lastmod: Option<SitemapDate>,
    /// Change frequency (always, hourly, daily, weekly, monthly, yearly,
    /// never).
    pub changefreq: Option<String>,
    /// Priority in tenths: 8 stands for 0.8.
    pub priority_tenths: Option<u8>,
}

/// The XML element of one sitemap entry.
pub open spec fn entry_xml(e: SitemapEntry) -> Seq<char> {
    "  <url>\n    <loc>"@ + xml_escaped(e.loc@) + "</loc>\n"@ + (match e.lastmod {
        Some(d) => "    <lastmod>"@ + date_str(d) + "</lastmod>\n"@,
        None => Seq::empty(),
    }) + (match e.changefreq {
        Some(f) => "    <changefreq>"@ + f@ + "</changefreq>\n"@,
        None => Seq::empty(),
    }) + (match e.priority_tenths {
        Some(p) => "    <priority>"@ + priority_str(p as nat) + "</priority>\n"@,
        None => Seq::empty(),
    }) + "  </url>\n"@
}

impl SitemapEntry {
    /// Creates an entry for a URL.
    pub fn new(loc: &str) -> (r: Self)
        ensures
            r.loc@ == loc@,
            r.lastmod is None,
            r.changefreq is None,
            r.priority_tenths is None,
    {
        SitemapEntry { loc: loc.to_owned(), lastmod: None, changefreq: None, priority_tenths: None }
    }

    /// Sets the last modification date.
    pub fn with_lastmod(self, lastmod: SitemapDate) -> (r: Self)
        ensures
            r.lastmod == Some(lastmod),
            r.loc == self.loc,
            r.changefreq == self.changefreq,
            r.priority_tenths == self.priority_tenths,
    {
        SitemapEntry { lastmod: Some(lastmod), ..self }
    }

    /// Sets the change frequency.
    pub fn with_changefreq(self, freq: &str) -> (r: Self)
        ensures
            r.changefreq matches Some(f) && f@ == freq@,
            r.loc == self.loc,
            r.lastmod == self.lastmod,
            r.priority_tenths == self.priority_tenths,
    {
        SitemapEntry { changefreq: Some(freq.to_owned()), ..self }
    }

    /// Sets the priority in tenths, clamped to the unit range.
    pub fn with_priority(self, tenths: u8) -> (r: Self)
        ensures
            tenths > 10 ==> r.priority_tenths == Some(10u8),
            tenths <= 10 ==> r.priority_tenths == Some(tenths),
            r.loc == self.loc,
            r.lastmod == self.lastmod,
            r.changefreq == self.changefreq,
    {
        let clamped = if tenths > 10 {
            10
        } else {
            tenths
        };
        SitemapEntry { priority_tenths: Some(clamped), ..self }
    }

    /// Renders this entry as its XML element.
    pub fn to_xml(&self) -> (r: String)
        ensures
            r@ == entry_xml(*self),
    {
        let mut out = String::new();
        out.append("  <url>\n    <loc>");
        let escaped = escape_xml(self.loc.as_str());
        out.append(escaped.as_str());
        out.append("</loc>\n");
        if let Some(d) = &self.lastmod {
            out.append("    <lastmod>");
            append_date(&mut out, d);
            out.append("</lastmod>\n");
        }
        if let Some(f) = &self.changefreq {
            out.append("    <changefreq>");
            out.append(f.as_str());
            out.append("</changefreq>\n");
        }
        if let Some(p) = self.priority_tenths {
            out.append("    <priority>");
            append_priority(&mut out, p);
            out.append("</priority>\n");
        }
        out.append("  </url>\n");
        proof {
            assert(out@ =~= entry_xml(*self));
        }
        out
    }
}

/// Entry in a sitemap index.
#[derive(Debug, Clone, PartialEq)]
pub struct SitemapIndexEntry {
    pub loc: String,
    pub lastmod: Option<SitemapDate>,
}

/// A base URL with every trailing slash removed.
pub open spec fn rtrim_slashes(s: Seq<char>) -> Seq<char>
    decreases s.len(),
{
    if s.len() > 0 && s.last() == '/' {
        rtrim_slashes(s.drop_last())
    } else {
        s
    }
}

/// The location a sitemap filename resolves to: kept as is when it is
/// already absolute, else under the base URL.
pub open spec fn index_loc(base: Seq<char>, filename: Seq<char>) -> Seq<char> {
    if filename.len() >= 4 && filename.subrange(0, 4) == "http"@ {
        filename
    } else {
        rtrim_slashes(base) + "/"@ + filename
    }
}

/// Sitemap index for large sites.
#[derive(Debug, Clone, PartialEq)]
pub struct SitemapIndex {
    pub base_url: String,
    pub sitemaps: Vec<SitemapIndexEntry>,
}

/// One element of the sitemap index.
pub open spec fn index_entry_xml(e: SitemapIndexEntry) -> Seq<char> {
    "  <sitemap>\n    <loc>"@ + xml_escaped(e.loc@) + "</loc>\n"@ + (match e.lastmod {
        Some(d) => "    <lastmod>"@ + date_str(d) + "</lastmod>\n"@,
        None => Seq::empty(),
    }) + "  </sitemap>\n"@
}

/// The elements of the index up to position `n`.
pub open spec fn index_entries_xml(es: Seq<SitemapIndexEntry>, n: int) -> Seq<char>
    decreases n,
{
    if n <= 0 {
        Seq::empty()
    } else {
        index_entries_xml(es, n - 1) + index_entry_xml(es[n - 1])
    }
}

/// The whole sitemap index document.
pub open spec fn index_xml(idx: SitemapIndex) -> Seq<char> {
    "<?xml version=\"1.0\" encoding=\"UTF-8\"?>"@ + "\n"@
        + "<sitemapindex xmlns=\"http://www.sitemaps.org/schemas/sitemap/0.9\">"@ + "\n"@
        + index_entries_xml(idx.sitemaps@, idx.sitemaps@.len() as int) + "</sitemapindex>\n"@
}

impl SitemapIndex {
    /// Creates an empty index.
    pub fn new(base_url: &str) -> (r: Self)
        ensures
            r.base_url@ == base_url@,
            r.sitemaps@.len() == 0,
    {
        SitemapIndex { base_url: base_url.to_owned(), sitemaps: Vec::new() }
    }

    /// Adds one sitemap file: an absolute URL stands as given, a filename
    /// goes under the base URL.
    pub fn add_sitemap(&mut self, filename: &str, lastmod: Option<SitemapDate>)
        ensures
            final(self).base_url == old(self).base_url,
            final(self).sitemaps@.len() == old(self).sitemaps@.len() + 1,
            final(self).sitemaps@.drop_last() == old(self).sitemaps@,
            final(self).sitemaps@.last().loc@ == index_loc(old(self).base_url@, filename@),
            final(self).sitemaps@.last().lastmod == lastmod,
    {
        let n = filename.unicode_len();
        let is_http = if n >= 4 {
            crate::text::str_eq(filename.substring_char(0, 4), "http")
        } else {
            false
        };
        let loc = if is_http {
            filename.to_owned()
        } else {
            let bn = self.base_url.as_str().unicode_len();
            let mut cut: usize = bn;
            proof {
                assert(self.base_url@.take(bn as int) =~= self.base_url@);
            }
            loop
                invariant_except_break
                    bn == self.base_url@.len(),
                    cut <= bn,
                    rtrim_slashes(self.base_url@) == rtrim_slashes(
                        self.base_url@.take(cut as int),
                    ),
                ensures
                    cut <= bn,
                    bn == self.base_url@.len(),
                    rtrim_slashes(self.base_url@) == self.base_url@.take(cut as int),
                decreases cut,
            {
                if cut == 0 {
                    proof {
                        assert(self.base_url@.take(0int) =~= Seq::<char>::empty());
                    }
                    break ;
                }
                if self.base_url.as_str().get_char(cut - 1) != '/' {
                    proof {
                        assert(self.base_url@.take(cut as int).last() != '/');
                    }
                    break ;
                }
                proof {
                    assert(self.base_url@.take(cut as int).drop_last() =~= self.base_url@.take(
                        cut - 1,
                    ));
                }
                cut = cut - 1;
            }
            let mut l = self.base_url.as_str().substring_char(0, cut).to_owned();
            l.append("/");
            l.append(filename);
            proof {
                assert(l@ =~= index_loc(self.base_url@, filename@));
            }
            l
        };
        let ghost before = self.sitemaps@;
        self.sitemaps.push(SitemapIndexEntry { loc, lastmod });
        proof {
            assert(self.sitemaps@.drop_last() =~= before);
        }
    }

    /// Renders the whole index document.
    #[verifier::rlimit(60)]
    pub fn to_xml(&self) -> (r: String)
        ensures
            r@ == index_xml(*self),
    {
        let mut out = String::new();
        out.append("<?xml version=\"1.0\" encoding=\"UTF-8\"?>");
        out.append("\n");
        out.append("<sitemapindex xmlns=\"http://www.sitemaps.org/schemas/sitemap/0.9\">");
        out.append("\n");
        let ghost head = out@;
        let n = self.sitemaps.len();
        let mut i: usize = 0;
        while i < n
            invariant
                n == self.sitemaps@.len(),
                i <= n,
                out@ == head + index_entries_xml(self.sitemaps@, i as int),
            decreases n - i,
        {
            let e = &self.sitemaps[i];
            out.append("  <sitemap>\n    <loc>");
            let escaped = escape_xml(e.loc.as_str());
            out.append(escaped.as_str());
            out.append("</loc>\n");
            if let Some(d) = &e.lastmod {
                out.append("    <lastmod>");
                append_date(&mut out, d);
                out.append("</lastmod>\n");
            }
            out.append("  </sitemap>\n");
            i = i + 1;
            proof {
                assert(out@ =~= head + index_entries_xml(self.sitemaps@, i as int));
            }
        }
        out.append("</sitemapindex>\n");
        proof {
            assert(out@ =~= index_xml(*self));
        }
        out
    }
}

/// The sitemap entry derived from one schema: the docs URL from the topic
/// slug; priority and change frequency from the SEO block or the
/// configured defaults; the last-modified date parsed from the metadata.
pub open spec fn schema_entry_ok(e: SitemapEntry, c: SitemapConfig, s: Schema) -> bool {
    &&& e.loc@ == c.base_url@ + c.docs_prefix@ + "/"@ + spec_replaced(s.topic@, '.', '-')
    &&& (match s.seo {
        Some(seo) => e.priority_tenths == Some(seo.priority_tenths),
        None => e.priority_tenths == Some(c.default_priority_tenths),
    })
    &&& (match e.changefreq {
        Some(f) => f@ == (match s.seo {
            Some(seo) => seo.change_frequency@,
            None => c.default_change_freq@,
        }),
        None => false,
    })
    &&& e.lastmod == (match s.metadata {
        Some(m) => match m.last_updated {
            Some(lu) => parsed_ymd(lu@),
            None => None,
        },
        None => None,
    })
}

/// Sitemap generator.
#[derive(Debug, Clone, PartialEq)]
pub struct SitemapGenerator {
    /// The configuration in use.
    pub config: SitemapConfig,
}

/// The static entries that open a sitemap when configured: homepage and
/// docs index, at high priority.
pub open spec fn static_entries_ok(es: Seq<SitemapEntry>, c: SitemapConfig) -> bool {
    if c.include_static_pages {
        &&& es.len() == 2
        &&& es[0].loc@ == c.base_url@
        &&& es[0].priority_tenths == Some(10u8)
        &&& es[0].changefreq matches Some(f) && f@ == "weekly"@
        &&& es[0].lastmod is None
        &&& es[1].loc@ == c.base_url@ + c.docs_prefix@
        &&& es[1].priority_tenths == Some(9u8)
        &&& es[1].changefreq matches Some(f) && f@ == "weekly"@
        &&& es[1].lastmod is None
    } else {
        es.len() == 0
    }
}

/// The whole XML sitemap document over a list of entries.
pub open spec fn entries_xml(es: Seq<SitemapEntry>, n: int) -> Seq<char>
    decreases n,
{
    if n <= 0 {
        Seq::empty()
    } else {
        entries_xml(es, n - 1) + entry_xml(es[n - 1])
    }
}

/// A full sitemap document.
pub open spec fn urlset_xml(es: Seq<SitemapEntry>) -> Seq<char> {
    "<?xml version=\"1.0\" encoding=\"UTF-8\"?>"@ + "\n"@
        + "<urlset xmlns=\"http://www.sitemaps.org/schemas/sitemap/0.9\">"@ + "\n"@ + entries_xml(
        es,
        es.len() as int,
    ) + "</urlset>\n"@
}

impl SitemapGenerator {
    /// Creates a generator.
    pub fn new(config: SitemapConfig) -> (r: Self)
        ensures
            r.config == config,
    {
        SitemapGenerator { config }
    }

    /// The sitemap entry for one schema.
    fn schema_to_entry(&self, schema: &Schema) -> (r: SitemapEntry)
        ensures
            schema_entry_ok(r, self.config, *schema),
    {
        let mut url = String::new();
        url.append(self.config.base_url.as_str());
        url.append(self.config.docs_prefix.as_str());
        url.append("/");
        crate::text::append_replaced(&mut url, schema.topic.as_str(), '.', '-');
        proof {
            assert(url@ =~= self.config.base_url@ + self.config.docs_prefix@ + "/"@
                + spec_replaced(schema.topic@, '.', '-'));
        }
        let priority = match &schema.seo {
            Some(seo) => seo.priority_tenths,
            None => self.config.default_priority_tenths,
        };
        let changefreq = match &schema.seo {
            Some(seo) => seo.change_frequency.clone(),
            None => self.config.default_change_freq.clone(),
        };
        let lastmod = match &schema.metadata {
            Some(m) => match &m.last_updated {
                Some(lu) => parse_ymd(lu.as_str()),
                None => None,
            },
            None => None,
        };
        SitemapEntry {
            loc: url,
            lastmod,
            changefreq: Some(changefreq),
            priority_tenths: Some(priority),
        }
    }

    /// Converts schemas to sitemap entries, after the static pages when
    /// those are configured.
    pub fn schemas_to_entries(&self, schemas: &Vec<Schema>) -> (r: Vec<SitemapEntry>)
        ensures
            ({
                let stat: int = if self.config.include_static_pages {
                    2
                } else {
                    0
                };
                &&& r@.len() == stat + schemas@.len()
                &&& static_entries_ok(r@.take(stat), self.config)
                &&& forall|k: int|
                    0 <= k < schemas@.len() ==> schema_entry_ok(
                        #[trigger] r@[stat + k],
                        self.config,
                        schemas@[k],
                    )
            }),
    {
        let mut entries: Vec<SitemapEntry> = Vec::new();
        let ghost stat: int = if self.config.include_static_pages {
            2int
        } else {
            0int
        };
        if self.config.include_static_pages {
            let home = SitemapEntry::new(self.config.base_url.as_str()).with_priority(
                10,
            ).with_changefreq("weekly");
            entries.push(home);
            let mut docs_url = String::new();
            docs_url.append(self.config.base_url.as_str());
            docs_url.append(self.config.docs_prefix.as_str());
            proof {
                assert(docs_url@ =~= self.config.base_url@ + self.config.docs_prefix@);
            }
            let docs = SitemapEntry::new(docs_url.as_str()).with_priority(9).with_changefreq(
                "weekly",
            );
            entries.push(docs);
        }
        proof {
            assert(entries@.take(stat) =~= entries@);
            assert(static_entries_ok(entries@.take(stat), self.config));
        }
        let n = schemas.len();
        let mut i: usize = 0;
        while i < n
            invariant
                n == schemas@.len(),
                i <= n,
                stat == (if self.config.include_static_pages {
                    2int
                } else {
                    0int
                }),
                entries@.len() == stat + i,
                static_entries_ok(entries@.take(stat), self.config),
                forall|k: int|
                    0 <= k < i ==> schema_entry_ok(
                        #[trigger] entries@[stat + k],
                        self.config,
                        schemas@[k],
                    ),
            decreases n - i,
        {
            let entry = self.schema_to_entry(&schemas[i]);
            entries.push(entry);
            i = i + 1;
            proof {
                assert(entries@.take(stat) =~= entries@.drop_last().take(stat));
            }
        }
        entries
    }

    /// Renders a list of entries as one sitemap document.
    pub fn entries_to_xml(&self, entries: &Vec<SitemapEntry>) -> (r: String)
        ensures
            r@ == urlset_xml(entries@),
    {
        let mut out = String::new();
        out.append("<?xml version=\"1.0\" encoding=\"UTF-8\"?>");
        out.append("\n");
        out.append("<urlset xmlns=\"http://www.sitemaps.org/schemas/sitemap/0.9\">");
        out.append("\n");
        let ghost head = out@;
        let n = entries.len();
        let mut i: usize = 0;
        while i < n
            invariant
                n == entries@.len(),
                i <= n,
                out@ == head + entries_xml(entries@, i as int),
            decreases n - i,
        {
            let x = entries[i].to_xml();
            out.append(x.as_str());
            i = i + 1;
            proof {
                assert(out@ =~= head + entries_xml(entries@, i as int));
            }
        }
        out.append("</urlset>\n");
        proof {
            assert(out@ =~= urlset_xml(entries@));
        }
        out
    }

    /// Generates the sitemap document for a list of schemas.
    pub fn generate_from_schemas(&self, schemas: &Vec<Schema>) -> (r: Result<
        String,
        crate::error::KbError,
    >)
        ensures
            r matches Ok(xml) && exists|es: Seq<SitemapEntry>|
                #[trigger] urlset_xml(es) == xml@ && es.len() == (
                if self.config.include_static_pages {
                    2int
                } else {
                    0int
                }) + schemas@.len(),
    {
        let entries = self.schemas_to_entries(schemas);
        let xml = self.entries_to_xml(&entries);
        proof {
            let es = entries@;
            assert(xml@ == urlset_xml(es) && es.len() == (if self.config.include_static_pages {
                2int
            } else {
                0int
            }) + schemas@.len());
        }
        Ok(xml)
    }

    /// Splits the entries into sitemap files of at most the configured
    /// size, with an index document when more than one file is needed.
    pub fn generate_split_sitemaps(&self, schemas: &Vec<Schema>) -> (r: Result<
        (Vec<(String, String)>, Option<String>),
        crate::error::KbError,
    >)
        requires
            self.config.max_urls_per_sitemap >= 1,
        ensures
            r matches Ok(p) && p.0@.len() >= 1,
            r matches Ok(p) ==> (p.1 is None ==> p.0@.len() == 1),
    {
        let entries = self.schemas_to_entries(schemas);
        if entries.len() <= self.config.max_urls_per_sitemap {
            let xml = self.entries_to_xml(&entries);
            let mut files: Vec<(String, String)> = Vec::new();
            files.push(("sitemap.xml".to_owned(), xml));
            return Ok((files, None));
        }
        let mut files: Vec<(String, String)> = Vec::new();
        let mut index = SitemapIndex::new(self.config.base_url.as_str());
        let now = today_utc();
        let n = entries.len();
        let size = self.config.max_urls_per_sitemap;
        let mut start: usize = 0;
        let mut file_no: usize = 1;
        while start < n
            invariant
                n == entries@.len(),
                size >= 1,
                start <= n,
                files@.len() == index.sitemaps@.len(),
                file_no >= 1,
                start > 0 ==> files@.len() >= 1,
                start == 0 ==> files@.len() == 0,
            decreases n - start,
        {
            let end = if n - start < size {
                n
            } else {
                start + size
            };
            let mut chunk: Vec<SitemapEntry> = Vec::new();
            let mut j: usize = start;
            while j < end
                invariant
                    start <= j <= end <= n,
                    n == entries@.len(),
                    chunk@.len() == j - start,
                decreases end - j,
            {
                chunk.push(entries[j].clone());
                j = j + 1;
            }
            let xml = self.entries_to_xml(&chunk);
            let mut filename = String::new();
            filename.append("sitemap-");
            crate::text::append_u64(&mut filename, file_no as u64);
            filename.append(".xml");
            index.add_sitemap(filename.as_str(), Some(now));
            files.push((filename, xml));
            start = end;
            file_no = if file_no < usize::MAX {
                file_no + 1
            } else {
                file_no
            };
        }
        let index_xml_text = index.to_xml();
        proof {
            assert(files@.len() >= 1);
        }
        Ok((files, Some(index_xml_text)))
    }
}

/// The URLs between `<loc>` and `</loc>` markers, line by line; a line
/// whose closing marker stands before the opening one yields nothing.
pub open spec fn loc_of_line(line: Seq<char>) -> Option<Seq<char>> {
    let s = find_sub(line, "<loc>"@, 0);
    let e = find_sub(line, "</loc>"@, 0);
    if s >= 0 && e >= 0 && e >= s + 5 {
        Some(line.subrange(s + 5, e))
    } else {
        None
    }
}

/// Index of the first occurrence of `needle` in `hay` at or after `from`,
/// or -1 when absent.
pub open spec fn find_sub(hay: Seq<char>, needle: Seq<char>, from: int) -> int
    decreases hay.len() + 1 - from,
{
    if from < 0 || from + needle.len() > hay.len() {
        -1
    } else if hay.subrange(from, from + needle.len() as int) == needle {
        from
    } else {
        find_sub(hay, needle, from + 1)
    }
}

/// The extracted URLs of all lines up to `n`.
pub open spec fn locs_upto(lines: Seq<Seq<char>>, n: int) -> Seq<Seq<char>>
    decreases n,
{
    if n <= 0 {
        Seq::empty()
    } else {
        locs_upto(lines, n - 1) + (match loc_of_line(lines[n - 1]) {
            Some(u) => seq![u],
            None => Seq::empty(),
        })
    }
}

/// Finds `needle` in `hay` starting at `from`.
fn find_sub_exec(hay: &Vec<char>, needle: &Vec<char>, from: usize) -> (r: Option<usize>)
    requires
        from <= hay@.len(),
    ensures
        match r {
            Some(i) => i as int == find_sub(hay@, needle@, from as int) && from <= i && i
                + needle@.len() <= hay@.len(),
            None => find_sub(hay@, needle@, from as int) == -1,
        },
{
    let n = hay.len();
    let m = needle.len();
    if m > n {
        proof {
            lemma_find_sub_none(hay@, needle@, from as int);
        }
        return None;
    }
    if m == 0 {
        proof {
            assert(hay@.subrange(from as int, from as int) =~= needle@);
        }
        return Some(from);
    }
    let mut i: usize = from;
    while i <= n - m
        invariant
            n == hay@.len(),
            m == needle@.len(),
            1 <= m <= n,
            from <= i,
            i <= n,
            find_sub(hay@, needle@, from as int) == find_sub(hay@, needle@, i as int),
        decreases n - i,
    {
        if crate::text::match_at(hay, needle, i) {
            return Some(i);
        }
        i = i + 1;
    }
    proof {
        assert(find_sub(hay@, needle@, i as int) == -1);
    }
    None
}

proof fn lemma_find_sub_none(hay: Seq<char>, needle: Seq<char>, from: int)
    requires
        needle.len() > hay.len(),
    ensures
        find_sub(hay, needle, from) == -1,
    decreases hay.len() + 1 - from,
{
}

/// Extracts the URLs between `<loc>` markers from a sitemap document, one
/// per line that carries a well-formed pair of markers.
pub fn extract_urls_from_sitemap(content: &str) -> (urls: Vec<String>)
    ensures
        urls@.map_values(|x: String| x@) == locs_upto(
            crate::text::spec_lines(content@),
            crate::text::spec_lines(content@).len() as int,
        ),
{
    let lines = crate::text::split_lines(content);
    let mut urls: Vec<String> = Vec::new();
    let open_marker = crate::text::chars_vec("<loc>");
    let close_marker = crate::text::chars_vec("</loc>");
    let n = lines.len();
    let mut i: usize = 0;
    while i < n
        invariant
            n == lines@.len(),
            lines@.len() == crate::text::spec_lines(content@).len(),
            forall|q: int|
                0 <= q < n ==> (#[trigger] lines@[q])@ == crate::text::spec_lines(content@)[q],
            open_marker@ == "<loc>"@,
            close_marker@ == "</loc>"@,
            i <= n,
            urls@.map_values(|x: String| x@) == locs_upto(
                crate::text::spec_lines(content@),
                i as int,
            ),
        decreases n - i,
    {
        let line = &lines[i];
        let lv = crate::text::chars_vec(line.as_str());
        let s = find_sub_exec(&lv, &open_marker, 0);
        let e = find_sub_exec(&lv, &close_marker, 0);
        let ghost before = urls@.map_values(|x: String| x@);
        match (s, e) {
            (Some(si), Some(ei)) => {
                proof {
                    reveal_strlit("<loc>");
                    reveal_strlit("</loc>");
                }
                if ei >= si && ei - si >= 5 {
                    let url = line.as_str().substring_char(si + 5, ei);
                    urls.push(url.to_owned());
                    proof {
                        assert(urls@.map_values(|x: String| x@) =~= before.push(url@));
                    }
                }
            },
            _ => {},
        }
        proof {
            reveal_strlit("<loc>");
            reveal_strlit("</loc>");
            assert(urls@.map_values(|x: String| x@) =~= locs_upto(
                crate::text::spec_lines(content@),
                i + 1,
            ));
        }
        i = i + 1;
    }
    urls
}

} // verus!
