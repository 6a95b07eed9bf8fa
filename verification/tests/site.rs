use news_server::site::{detect_site, redirect_target, robots_txt, site_id_of, site_meta, SiteId};

#[test]
fn the_first_mark_in_the_fixed_order_decides() {
    assert_eq!(site_id_of("news.online"), SiteId::Online);
    assert_eq!(site_id_of("chatnews.link"), SiteId::ChatNews);
    assert_eq!(site_id_of("yournews.link"), SiteId::YourNews);
    assert_eq!(site_id_of("velo.tech"), SiteId::Velo);
    assert_eq!(site_id_of("news.cloud"), SiteId::Cloud);
    assert_eq!(site_id_of("news.claud"), SiteId::Claud);
    assert_eq!(site_id_of("news.xyz"), SiteId::Xyz);
    assert_eq!(site_id_of("online.chatnews.link"), SiteId::Online);
    assert_eq!(site_id_of("claud.velo.tech"), SiteId::Velo);
    assert_eq!(site_id_of("cloud.example"), SiteId::Xyz);
    assert_eq!(site_id_of("x.cloud.claud"), SiteId::Cloud);
}

#[test]
fn an_unknown_host_belongs_to_the_default_site() {
    for host in ["", "localhost:8080", "example.com", "NEWS.ONLINE", "news-xyz.fly.dev"] {
        assert_eq!(site_id_of(host), SiteId::Xyz);
        assert_eq!(detect_site(host).name, "news.xyz");
    }
}

#[test]
fn each_site_has_its_entry() {
    let online = detect_site("news.online");
    assert_eq!(online.site_id, SiteId::Online);
    assert_eq!(online.name, "news.online");
    assert_eq!(online.title, "news.online - Voice News Feed");
    assert_eq!(online.url, "https://news.online/");
    assert_eq!(online.image, "https://news.online/icons/icon-512.png");
    assert_eq!(online.theme_color, "#000000");
    assert_eq!(online.lang, "en");
    let velo = detect_site("www.velo.tech:443");
    assert_eq!(velo.title, "velo.tech - Web Speed Insights");
    assert_eq!(velo.theme_color, "#020617");
    let cloud = site_meta(SiteId::Cloud);
    assert_eq!(cloud.url, "https://news.cloud/");
    assert_eq!(cloud.keywords, "news API,developer API,news aggregation,AI API,MCP,REST API,news data,news platform");
    let xyz = site_meta(SiteId::Xyz);
    assert_eq!(xyz.description, "Smart news with AI-generated summaries, Q&A, and voice reading. The fastest AI news aggregator.");
    assert_eq!(site_meta(SiteId::ChatNews).url, "https://chatnews.link/");
    assert_eq!(site_meta(SiteId::YourNews).theme_color, "#0c0a09");
    assert_eq!(site_meta(SiteId::Claud).url, "https://news.claud/");
}

#[test]
fn the_moved_host_is_sent_on_with_its_path() {
    assert_eq!(
        redirect_target("chatnews.tech", "/a?b=c"),
        Some("https://chatnews.link/a?b=c".to_string())
    );
    assert_eq!(redirect_target("www.chatnews.tech:443", "/"), Some("https://chatnews.link/".to_string()));
    assert_eq!(redirect_target("chatnews.link", "/"), None);
    assert_eq!(redirect_target("news.xyz", "/a"), None);
    assert_eq!(redirect_target("", "/"), None);
}

#[test]
fn robots_are_told_where_the_site_map_is() {
    assert_eq!(
        robots_txt(&site_meta(SiteId::Online)),
        "User-agent: *\nAllow: /\n\nSitemap: https://news.online/sitemap.xml\n"
    );
    assert_eq!(
        robots_txt(&detect_site("unknown")),
        "User-agent: *\nAllow: /\n\nSitemap: https://news.xyz/sitemap.xml\n"
    );
}

#[test]
fn every_entry_is_pinned() {
    let velo = site_meta(SiteId::Velo);
    assert_eq!(velo.name, "velo.tech");
    assert_eq!(
        velo.description,
        "Instant web performance measurement. Core Web Vitals, speed scores, and optimization suggestions in one click."
    );
    assert_eq!(
        velo.description_long,
        "Web Speed Insights. Measure your website performance instantly with Core Web Vitals analysis, speed scores, and actionable optimization suggestions."
    );
    assert_eq!(
        velo.keywords,
        "web performance,Core Web Vitals,speed test,website speed,performance audit,web optimization"
    );
    let xyz = site_meta(SiteId::Xyz);
    assert_eq!(xyz.title, "news.xyz - AI-Powered News");
    assert_eq!(
        xyz.description_long,
        "AI-Powered News Aggregator. Get the latest news across tech, business, entertainment, sports, and science with AI summaries, voice reading, and interactive Q&A."
    );
    assert_eq!(xyz.theme_color, "#1a1a2e");
    assert_eq!(
        xyz.keywords,
        "news,AI,artificial intelligence,news aggregator,AI summary,voice news,tech news,breaking news"
    );
    let online = site_meta(SiteId::Online);
    assert_eq!(
        online.description,
        "TikTok-style AI voice news feed. Swipe through the latest news with AI-generated podcast dialogues."
    );
    assert_eq!(
        online.description_long,
        "Voice News - TikTok-style AI voice news feed. Swipe through the latest news with AI-generated podcast dialogues and voice narration."
    );
    assert_eq!(
        online.keywords,
        "voice news,AI podcast,news feed,TikTok news,audio news,AI narration,news online"
    );
    let cloud = site_meta(SiteId::Cloud);
    assert_eq!(cloud.name, "news.cloud");
    assert_eq!(cloud.title, "news.cloud - News API Platform");
    assert_eq!(
        cloud.description,
        "Developer-friendly news aggregation API. AI summaries, article search, podcast generation, and MCP support."
    );
    assert_eq!(
        cloud.description_long,
        "News API Platform for developers. Access AI-powered news aggregation, article search, AI summaries, podcast generation, and MCP integration via a simple REST API."
    );
    assert_eq!(cloud.theme_color, "#0f172a");
    let chat = site_meta(SiteId::ChatNews);
    assert_eq!(chat.name, "ChatNews");
    assert_eq!(chat.title, "ChatNews - Conversational AI News");
    assert_eq!(
        chat.description,
        "Chat with AI about the latest news. Get summaries, deep dives, and answers in a conversational format."
    );
    assert_eq!(
        chat.description_long,
        "Conversational AI News Experience. Chat with AI about the latest news, get instant summaries, deep-dive analysis, and answers to your questions."
    );
    assert_eq!(chat.theme_color, "#18181b");
    assert_eq!(
        chat.keywords,
        "chat news,AI chat,conversational news,news AI,chatbot news,AI assistant,news summary"
    );
    let your = site_meta(SiteId::YourNews);
    assert_eq!(your.name, "YourNews");
    assert_eq!(your.title, "YourNews - Personalized AI News");
    assert_eq!(
        your.description,
        "AI-curated news tailored to your interests. Your personalized news feed delivered daily."
    );
    assert_eq!(
        your.description_long,
        "Your Personalized AI News. AI curates and delivers news tailored to your interests with smart summaries and voice reading."
    );
    assert_eq!(
        your.keywords,
        "personalized news,AI curation,custom news feed,news for you,AI news,daily news,smart news"
    );
    let claud = site_meta(SiteId::Claud);
    assert_eq!(claud.name, "ClaudNews");
    assert_eq!(claud.image, "https://news.claud/icons/icon-512.png");
    assert_eq!(claud.theme_color, "#1c1917");
    assert_eq!(claud.lang, "en");
}
