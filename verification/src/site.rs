//! The sites that one server answers for, told apart by host name.

use vstd::prelude::*;
use vstd::string::*;
use crate::text::{contains, occurs_in};

verus! {

/// The sites, in the order of their entries.
#[derive(Debug, Clone, Copy, PartialEq, Eq)]
pub enum SiteId {
    Xyz,
    Online,
    Cloud,
    ChatNews,
    YourNews,
    Velo,
    Claud,
}

/// What a site says of itself in its pages' head.
#[derive(Debug, Clone, Copy, PartialEq, Eq)]
pub struct SiteMeta {
    pub site_id: SiteId,
    pub name: &'static str,
    pub title: &'static str,
    pub description: &'static str,
    pub description_long: &'static str,
    pub url: &'static str,
    pub image: &'static str,
    pub theme_color: &'static str,
    pub lang: &'static str,
    pub keywords: &'static str,
}

/// The site that a host name belongs to. The marks are tried in a fixed
/// order, and the first that occurs in the host name decides; a host name
/// with none of them belongs to the default site.
pub open spec fn site_of_host(host: Seq<char>) -> SiteId {
    if occurs_in("online"@, host) {
        SiteId::Online
    } else if occurs_in("chatnews"@, host) {
        SiteId::ChatNews
    } else if occurs_in("yournews"@, host) {
        SiteId::YourNews
    } else if occurs_in("velo"@, host) {
        SiteId::Velo
    } else if occurs_in(".cloud"@, host) {
        SiteId::Cloud
    } else if occurs_in("claud"@, host) {
        SiteId::Claud
    } else {
        SiteId::Xyz
    }
}

/// What the sites say of themselves, in the order of `SiteId`: name, title,
/// description, long description, address, image, theme colour, language,
/// keywords.
pub const SITE_TABLE: [(
    &'static str,
    &'static str,
    &'static str,
    &'static str,
    &'static str,
    &'static str,
    &'static str,
    &'static str,
    &'static str,
); 7] = [
    (
        "news.xyz",
        "news.xyz - AI-Powered News",
        "Smart news with AI-generated summaries, Q&A, and voice reading. The fastest AI news aggregator.",
        "AI-Powered News Aggregator. Get the latest news across tech, business, entertainment, sports, and science with AI summaries, voice reading, and interactive Q&A.",
        "https://news.xyz/",
        "https://news.xyz/icons/icon-512.png",
        "#1a1a2e",
        "en",
        "news,AI,artificial intelligence,news aggregator,AI summary,voice news,tech news,breaking news",
    ),
    (
        "news.online",
        "news.online - Voice News Feed",
        "TikTok-style AI voice news feed. Swipe through the latest news with AI-generated podcast dialogues.",
        "Voice News - TikTok-style AI voice news feed. Swipe through the latest news with AI-generated podcast dialogues and voice narration.",
        "https://news.online/",
        "https://news.online/icons/icon-512.png",
        "#000000",
        "en",
        "voice news,AI podcast,news feed,TikTok news,audio news,AI narration,news online",
    ),
    (
        "news.cloud",
        "news.cloud - News API Platform",
        "Developer-friendly news aggregation API. AI summaries, article search, podcast generation, and MCP support.",
        "News API Platform for developers. Access AI-powered news aggregation, article search, AI summaries, podcast generation, and MCP integration via a simple REST API.",
        "https://news.cloud/",
        "https://news.cloud/icons/icon-512.png",
        "#0f172a",
        "en",
        "news API,developer API,news aggregation,AI API,MCP,REST API,news data,news platform",
    ),
    (
        "ChatNews",
        "ChatNews - Conversational AI News",
        "Chat with AI about the latest news. Get summaries, deep dives, and answers in a conversational format.",
        "Conversational AI News Experience. Chat with AI about the latest news, get instant summaries, deep-dive analysis, and answers to your questions.",
        "https://chatnews.link/",
        "https://chatnews.link/icons/icon-512.png",
        "#18181b",
        "en",
        "chat news,AI chat,conversational news,news AI,chatbot news,AI assistant,news summary",
    ),
    (
        "YourNews",
        "YourNews - Personalized AI News",
        "AI-curated news tailored to your interests. Your personalized news feed delivered daily.",
        "Your Personalized AI News. AI curates and delivers news tailored to your interests with smart summaries and voice reading.",
        "https://yournews.link/",
        "https://yournews.link/icons/icon-512.png",
        "#0c0a09",
        "en",
        "personalized news,AI curation,custom news feed,news for you,AI news,daily news,smart news",
    ),
    (
        "velo.tech",
        "velo.tech - Web Speed Insights",
        "Instant web performance measurement. Core Web Vitals, speed scores, and optimization suggestions in one click.",
        "Web Speed Insights. Measure your website performance instantly with Core Web Vitals analysis, speed scores, and actionable optimization suggestions.",
        "https://velo.tech/",
        "https://velo.tech/icons/icon-512.png",
        "#020617",
        "en",
        "web performance,Core Web Vitals,speed test,website speed,performance audit,web optimization",
    ),
    (
        "ClaudNews",
        "ClaudNews - AI News",
        "AI-powered news aggregator. Smart summaries, Q&A, and voice reading.",
        "AI News. Get the latest news with AI-generated summaries, interactive Q&A, and voice reading.",
        "https://news.claud/",
        "https://news.claud/icons/icon-512.png",
        "#1c1917",
        "en",
        "AI news,news summary,AI aggregator,smart news",
    ),
];

/// The place of a site's entry.
pub open spec fn index_of(site: SiteId) -> int {
    match site {
        SiteId::Xyz => 0,
        SiteId::Online => 1,
        SiteId::Cloud => 2,
        SiteId::ChatNews => 3,
        SiteId::YourNews => 4,
        SiteId::Velo => 5,
        SiteId::Claud => 6,
    }
}

/// The entry of a site.
pub open spec fn meta_of(site: SiteId) -> SiteMeta {
    let row = SITE_TABLE[index_of(site)];
    SiteMeta {
        site_id: site,
        name: row.0,
        title: row.1,
        description: row.2,
        description_long: row.3,
        url: row.4,
        image: row.5,
        theme_color: row.6,
        lang: row.7,
        keywords: row.8,
    }
}

/// The entry of `site`.
pub fn site_meta(site: SiteId) -> (meta: SiteMeta)
    ensures
        meta == meta_of(site),
{
    let at: usize = match site {
        SiteId::Xyz => 0,
        SiteId::Online => 1,
        SiteId::Cloud => 2,
        SiteId::ChatNews => 3,
        SiteId::YourNews => 4,
        SiteId::Velo => 5,
        SiteId::Claud => 6,
    };
    let row = SITE_TABLE[at];
    SiteMeta {
        site_id: site,
        name: row.0,
        title: row.1,
        description: row.2,
        description_long: row.3,
        url: row.4,
        image: row.5,
        theme_color: row.6,
        lang: row.7,
        keywords: row.8,
    }
}

/// The site that `host` belongs to.
pub fn site_id_of(host: &str) -> (site: SiteId)
    ensures
        site == site_of_host(host@),
{
    if contains(host, "online") {
        SiteId::Online
    } else if contains(host, "chatnews") {
        SiteId::ChatNews
    } else if contains(host, "yournews") {
        SiteId::YourNews
    } else if contains(host, "velo") {
        SiteId::Velo
    } else if contains(host, ".cloud") {
        SiteId::Cloud
    } else if contains(host, "claud") {
        SiteId::Claud
    } else {
        SiteId::Xyz
    }
}

/// The entry of the site that `host` belongs to.
pub fn detect_site(host: &str) -> (meta: SiteMeta)
    ensures
        meta == meta_of(site_of_host(host@)),
{
    site_meta(site_id_of(host))
}

/// Where a request to a host that has moved is sent on to: the same path
/// on the host's new name. `None` for every other host.
pub open spec fn redirect_of(host: Seq<char>, path_and_query: Seq<char>) -> Option<Seq<char>> {
    if occurs_in("chatnews.tech"@, host) {
        Some("https://chatnews.link"@ + path_and_query)
    } else {
        None
    }
}

/// Where a request for `path_and_query` on `host` is sent on to, if `host`
/// has moved.
pub fn redirect_target(host: &str, path_and_query: &str) -> (target: Option<String>)
    ensures
        match target {
            Some(t) => redirect_of(host@, path_and_query@) == Some(t@),
            None => redirect_of(host@, path_and_query@) is None,
        },
{
    if contains(host, "chatnews.tech") {
        let mut target = "https://chatnews.link".to_owned();
        target.append(path_and_query);
        Some(target)
    } else {
        None
    }
}

/// What a site tells robots: everything is allowed, and where the site map
/// is.
pub open spec fn robots_of(site: SiteMeta) -> Seq<char> {
    "User-agent: *\nAllow: /\n\nSitemap: "@ + site.url@ + "sitemap.xml\n"@
}

/// What `site` tells robots.
pub fn robots_txt(site: &SiteMeta) -> (text: String)
    ensures
        text@ == robots_of(*site),
{
    let mut text = "User-agent: *\nAllow: /\n\nSitemap: ".to_owned();
    text.append(site.url);
    text.append("sitemap.xml\n");
    text
}

} // verus!
