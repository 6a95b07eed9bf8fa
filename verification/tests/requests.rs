use news_server::requests::{
    clamp_limit, AddFeedRequest, ArticleAskRequest, ArticleQuestionsRequest, ArticlesQuery,
    CategoryAction, CategoryCommand, CategoryError, CommandRequest, FeedQuery,
    PodcastGenerateRequest, SubscribeRequest, SummarizeRequest, ToReadingRequest,
    ToggleFeatureRequest, TtsRequest, UpdateFeedRequest,
};

fn articles(limit: Option<i64>) -> ArticlesQuery {
    ArticlesQuery { category: None, limit, cursor: None }
}

fn feed(limit: Option<i64>) -> FeedQuery {
    FeedQuery { category: None, limit, cursor: None }
}

#[test]
fn page_sizes_are_kept_within_their_bounds() {
    assert_eq!(articles(None).page_limit(), 30);
    assert_eq!(articles(Some(50)).page_limit(), 50);
    assert_eq!(articles(Some(100)).page_limit(), 100);
    assert_eq!(articles(Some(101)).page_limit(), 100);
    assert_eq!(articles(Some(0)).page_limit(), 1);
    assert_eq!(articles(Some(-5)).page_limit(), 1);
    assert_eq!(articles(Some(i64::MAX)).page_limit(), 100);
    assert_eq!(articles(Some(i64::MIN)).page_limit(), 1);
    assert_eq!(feed(None).page_limit(), 10);
    assert_eq!(feed(Some(20)).page_limit(), 20);
    assert_eq!(feed(Some(21)).page_limit(), 20);
    assert_eq!(feed(Some(0)).page_limit(), 1);
    assert_eq!(clamp_limit(None, 20, 100), 20);
    assert_eq!(clamp_limit(Some(7), 20, 100), 7);
    assert_eq!(clamp_limit(Some(7), 20, 0), 1);
}

#[test]
fn a_summary_lasts_between_one_and_ten_minutes() {
    assert_eq!(SummarizeRequest { minutes: 0 }.clamped_minutes(), 1);
    assert_eq!(SummarizeRequest { minutes: 1 }.clamped_minutes(), 1);
    assert_eq!(SummarizeRequest { minutes: 7 }.clamped_minutes(), 7);
    assert_eq!(SummarizeRequest { minutes: 10 }.clamped_minutes(), 10);
    assert_eq!(SummarizeRequest { minutes: 11 }.clamped_minutes(), 10);
    assert_eq!(SummarizeRequest { minutes: u32::MAX }.clamped_minutes(), 10);
    assert_eq!(SummarizeRequest { minutes: 0 }.target_chars(), 300);
    assert_eq!(SummarizeRequest { minutes: 3 }.target_chars(), 900);
    assert_eq!(SummarizeRequest { minutes: 99 }.target_chars(), 3000);
}

#[test]
fn a_summary_is_cached_under_minutes_and_titles() {
    let titles = vec!["First".to_string(), "二番目".to_string(), "Third|x".to_string()];
    assert_eq!(SummarizeRequest { minutes: 3 }.cache_payload(&titles), "3:First|二番目|Third|x");
    assert_eq!(SummarizeRequest { minutes: 0 }.cache_payload(&titles[..1].to_vec()), "1:First");
    assert_eq!(SummarizeRequest { minutes: 25 }.cache_payload(&vec![]), "10:");
}

#[test]
fn questions_and_answers_are_cached_under_their_fields() {
    let q = ArticleQuestionsRequest {
        title: "T".to_string(),
        description: "D".to_string(),
        source: "S".to_string(),
        url: Some("https://u".to_string()),
        custom_prompt: Some("ignored".to_string()),
    };
    assert_eq!(q.cache_payload(), "T|D|S|https://u");
    let q = ArticleQuestionsRequest { url: None, ..q };
    assert_eq!(q.cache_payload(), "T|D|S|");
    let a = ArticleAskRequest {
        title: "T".to_string(),
        description: "D".to_string(),
        source: "S".to_string(),
        question: "Why?".to_string(),
        url: None,
        custom_prompt: None,
    };
    assert_eq!(a.cache_payload(), "T|D|S|Why?|");
    let a = ArticleAskRequest { url: Some("u".to_string()), ..a };
    assert_eq!(a.cache_payload(), "T|D|S|Why?|u");
}

#[test]
fn a_dialogue_is_cached_under_title_source_and_address() {
    let p = PodcastGenerateRequest {
        article_id: Some("a1".to_string()),
        title: "T".to_string(),
        description: "D".to_string(),
        source: "S".to_string(),
        url: None,
        provider: None,
    };
    assert_eq!(p.cache_payload(), "T|S|");
    assert!(!p.uses_qwen_omni());
    let p = PodcastGenerateRequest { url: Some("u".to_string()), provider: Some("qwen-omni".to_string()), ..p };
    assert_eq!(p.cache_payload(), "T|S|u");
    assert!(p.uses_qwen_omni());
    let p = PodcastGenerateRequest { provider: Some("openai".to_string()), ..p };
    assert!(!p.uses_qwen_omni());
    let p = PodcastGenerateRequest { provider: Some("Qwen-Omni".to_string()), ..p };
    assert!(!p.uses_qwen_omni());
}

#[test]
fn a_speech_request_holds_text_and_voice() {
    let r = TtsRequest { text: "hello".to_string(), voice_id: "openai:nova".to_string() };
    assert_eq!(r.clone(), r);
    assert_eq!(r.voice_id, "openai:nova");
}

fn action(name: &str, id: Option<&str>, label: Option<&str>, order: Option<Vec<&str>>) -> CategoryAction {
    CategoryAction {
        action: name.to_string(),
        id: id.map(|s| s.to_string()),
        label_ja: label.map(|s| s.to_string()),
        order: order.map(|o| o.into_iter().map(|s| s.to_string()).collect()),
    }
}

#[test]
fn a_category_is_added_under_its_label_or_its_identifier() {
    assert_eq!(
        action("add", Some("tech"), Some("テック"), None).into_command(),
        Ok(CategoryCommand::Add { id: "tech".to_string(), label: "テック".to_string() })
    );
    assert_eq!(
        action("add", Some("tech"), None, None).into_command(),
        Ok(CategoryCommand::Add { id: "tech".to_string(), label: "tech".to_string() })
    );
    assert_eq!(action("add", Some(""), Some("x"), None).into_command(), Err(CategoryError::IdRequired));
    assert_eq!(action("add", None, Some("x"), None).into_command(), Err(CategoryError::IdRequired));
}

#[test]
fn a_category_is_removed_renamed_or_reordered_with_what_that_takes() {
    assert_eq!(
        action("remove", Some("tech"), None, None).into_command(),
        Ok(CategoryCommand::Remove { id: "tech".to_string() })
    );
    assert_eq!(
        action("remove", Some(""), None, None).into_command(),
        Ok(CategoryCommand::Remove { id: String::new() })
    );
    assert_eq!(action("remove", None, None, None).into_command(), Err(CategoryError::IdRequired));
    assert_eq!(
        action("rename", Some("tech"), Some("IT"), None).into_command(),
        Ok(CategoryCommand::Rename { id: "tech".to_string(), label: "IT".to_string() })
    );
    assert_eq!(action("rename", None, Some("IT"), None).into_command(), Err(CategoryError::IdRequired));
    assert_eq!(action("rename", None, None, None).into_command(), Err(CategoryError::IdRequired));
    assert_eq!(action("rename", Some("tech"), None, None).into_command(), Err(CategoryError::LabelRequired));
    assert_eq!(
        action("reorder", None, None, Some(vec!["b", "a"])).into_command(),
        Ok(CategoryCommand::Reorder { order: vec!["b".to_string(), "a".to_string()] })
    );
    assert_eq!(action("reorder", Some("x"), None, None).into_command(), Err(CategoryError::OrderRequired));
}

#[test]
fn an_unknown_action_is_refused() {
    for name in ["", "Add", "delete", "add ", "reorder!"] {
        assert_eq!(
            action(name, Some("x"), Some("y"), Some(vec![])).into_command(),
            Err(CategoryError::UnknownAction)
        );
    }
}

#[test]
fn a_feed_needs_address_source_and_category() {
    let feed = |url: &str, source: &str, category: &str| AddFeedRequest {
        url: url.to_string(),
        source: source.to_string(),
        category: category.to_string(),
    };
    assert!(feed("https://x/rss", "X", "tech").is_complete());
    assert!(!feed("", "X", "tech").is_complete());
    assert!(!feed("https://x/rss", "", "tech").is_complete());
    assert!(!feed("https://x/rss", "X", "").is_complete());
}

#[test]
fn a_feed_keeps_its_state_unless_told_otherwise() {
    assert!(UpdateFeedRequest { enabled: None }.enabled_after(true));
    assert!(!UpdateFeedRequest { enabled: None }.enabled_after(false));
    assert!(UpdateFeedRequest { enabled: Some(true) }.enabled_after(false));
    assert!(!UpdateFeedRequest { enabled: Some(false) }.enabled_after(true));
}

#[test]
fn names_and_commands_are_taken_without_white_space_at_their_ends() {
    let toggle = |feature: &str| ToggleFeatureRequest { feature: feature.to_string(), enabled: true };
    assert_eq!(toggle("  grouping\n").feature_name(), Some("grouping"));
    assert_eq!(toggle("a b").feature_name(), Some("a b"));
    assert_eq!(toggle(" \t\u{3000} ").feature_name(), None);
    assert_eq!(toggle("").feature_name(), None);
    let command = |text: &str| CommandRequest { command: text.to_string() };
    assert_eq!(command(" add feed x ").command_text(), Some("add feed x"));
    assert_eq!(command("\n").command_text(), None);
}

#[test]
fn a_checkout_is_opened_under_the_device_if_there_is_one() {
    assert_eq!(SubscribeRequest { device_id: Some("dev".to_string()) }.client_reference(), "dev");
    assert_eq!(SubscribeRequest { device_id: None }.client_reference(), "");
    assert_eq!(ToReadingRequest { text: "x".to_string() }.text, "x");
}
