use news_server::adapter::AdapterError;
use news_server::dispatch::{AttemptOutcome, DispatchError, DispatchStep};
use news_server::gateway::{
    audio_payload, cache_ttl, can_clip, clip_text, Gateway, GenerationOpening, MissingConfig,
    TtsAnswer, TtsOpening, AUDIO_TTL_SECS, MAX_TEXT_BYTES, READING_TTL_SECS,
};
use news_server::provider::GatewayConfig;
use news_server::quota::{QuotaDenied, UserTier};

fn config_with(keys: &[&str]) -> GatewayConfig {
    let has = |name: &str| if keys.contains(&name) { "k".to_string() } else { String::new() };
    GatewayConfig {
        api_key: has("api"),
        elevenlabs_api_key: has("elevenlabs"),
        openai_api_key: has("openai"),
        cartesia_api_key: has("cartesia"),
        fish_audio_api_key: has("fish"),
        aimlapi_key: has("aimlapi"),
        venice_api_key: has("venice"),
        runpod_api_key: has("runpod"),
        cosyvoice_endpoint_id: has("cosyvoice"),
        qwen_tts_endpoint_id: has("qwen_tts"),
        qwen_omni_endpoint_id: has("qwen_omni"),
        elevenlabs_default_voice: "el-voice".to_string(),
        cartesia_default_voice: "ca-voice".to_string(),
        fish_default_voice: "fi-voice".to_string(),
    }
}

fn gateway() -> Gateway {
    Gateway::new(config_with(&["api", "aimlapi", "venice", "openai", "runpod", "qwen_omni", "cosyvoice"]))
}

fn free(device: &str) -> UserTier {
    UserTier::Free { device_id: device.to_string() }
}

fn delivered(bytes: &[u8]) -> AttemptOutcome {
    AttemptOutcome::Delivered { audio: bytes.to_vec() }
}

fn failure() -> AttemptOutcome {
    AttemptOutcome::Failed { error: AdapterError::Transport }
}

#[test]
fn ttls_are_fixed_per_feature() {
    assert_eq!(AUDIO_TTL_SECS, 21_600);
    assert_eq!(READING_TTL_SECS, 86_400);
    assert_eq!(cache_ttl("summarize"), Some(10_800));
    assert_eq!(cache_ttl("questions"), Some(21_600));
    assert_eq!(cache_ttl("ask"), Some(21_600));
    assert_eq!(cache_ttl("podcast"), Some(21_600));
    assert_eq!(cache_ttl("to_reading"), None);
    assert_eq!(cache_ttl("tts"), None);
}

#[test]
fn audio_is_cached_under_voice_bar_text() {
    assert_eq!(audio_payload("openai:nova", "hello"), "openai:nova|hello");
    assert_eq!(audio_payload("", ""), "|");
}

#[test]
fn a_miss_opens_the_dispatch() {
    let g = gateway();
    match g.open_tts(&free("d"), "openai:nova", "hello", 100, 0) {
        TtsOpening::Dispatch { step } => match step {
            DispatchStep::Attempt { voice_id, timeout_secs, .. } => {
                assert_eq!(voice_id, "openai:nova");
                assert_eq!(timeout_secs, 10);
            }
            other => panic!("not an attempt: {:?}", other),
        },
        other => panic!("not a dispatch: {:?}", other),
    }
}

#[test]
fn a_caller_without_identity_is_rejected_before_the_cache() {
    let mut g = gateway();
    g.settle_tts(&UserTier::Pro, "openai:nova", "hello", b"abc", 100, 0);
    assert_eq!(
        g.open_tts(&UserTier::Anonymous, "openai:nova", "hello", 101, 0),
        TtsOpening::Rejected { reason: QuotaDenied::DeviceIdRequired }
    );
    assert_eq!(
        g.open_tts(&UserTier::Pro, "openai:nova", "hello", 101, 0),
        TtsOpening::Cached { audio: b"abc".to_vec() }
    );
}

#[test]
fn the_same_request_within_the_ttl_is_served_from_the_cache() {
    let mut g = gateway();
    let tier = free("dev");
    let (first, asked) = g.replay_tts(&tier, "openai:nova", "hello", 1_000, 0, vec![delivered(b"\x00\x01audio\xff")]);
    assert_eq!(first, TtsAnswer::Audio { audio: b"\x00\x01audio\xff".to_vec() });
    assert_eq!(asked, vec!["openai:nova".to_string()]);
    let (second, asked) = g.replay_tts(&tier, "openai:nova", "hello", 1_000 + 21_599, 0, vec![delivered(b"other")]);
    assert_eq!(second, first);
    assert!(asked.is_empty());
}

#[test]
fn after_the_ttl_the_providers_are_asked_again() {
    let mut g = gateway();
    let tier = UserTier::Pro;
    g.replay_tts(&tier, "openai:nova", "hello", 1_000, 0, vec![delivered(b"one")]);
    let (second, asked) = g.replay_tts(&tier, "openai:nova", "hello", 1_000 + 21_600, 0, vec![delivered(b"two")]);
    assert_eq!(second, TtsAnswer::Audio { audio: b"two".to_vec() });
    assert_eq!(asked, vec!["openai:nova".to_string()]);
}

#[test]
fn another_voice_or_text_is_another_request() {
    let mut g = gateway();
    let tier = UserTier::Pro;
    g.replay_tts(&tier, "openai:nova", "hello", 0, 0, vec![delivered(b"one")]);
    let (_, asked) = g.replay_tts(&tier, "openai:coral", "hello", 1, 0, vec![delivered(b"two")]);
    assert_eq!(asked.len(), 1);
    let (_, asked) = g.replay_tts(&tier, "openai:nova", "hello!", 1, 0, vec![delivered(b"three")]);
    assert_eq!(asked.len(), 1);
    assert_eq!(g.cached_audio("openai:nova", "hello", 2), Some(b"one".to_vec()));
    assert_eq!(g.cached_audio("openai:coral", "hello", 2), Some(b"two".to_vec()));
}

#[test]
fn a_cache_hit_consumes_no_quota() {
    let mut g = gateway();
    let tier = free("dev");
    g.replay_tts(&tier, "openai:nova", "hello", 0, 5, vec![delivered(b"a")]);
    assert_eq!(g.ledger.get_usage("dev", "tts", 5), 1);
    for now in 1..10 {
        let (answer, asked) = g.replay_tts(&tier, "openai:nova", "hello", now, 5, vec![]);
        assert_eq!(answer, TtsAnswer::Audio { audio: b"a".to_vec() });
        assert!(asked.is_empty());
    }
    assert_eq!(g.ledger.get_usage("dev", "tts", 5), 1);
}

#[test]
fn a_failed_request_consumes_no_quota_and_caches_nothing() {
    let mut g = gateway();
    let tier = free("dev");
    let (answer, asked) = g.replay_tts(&tier, "fish:x", "hello", 0, 5, vec![failure(), failure(), failure(), failure()]);
    assert_eq!(answer, TtsAnswer::Failed { error: DispatchError::AllProvidersFailed });
    assert_eq!(asked.len(), 4);
    assert_eq!(g.ledger.get_usage("dev", "tts", 5), 0);
    assert_eq!(g.cached_audio("fish:x", "hello", 1), None);
}

#[test]
fn audio_of_an_alternate_is_cached_under_the_asked_voice() {
    let mut g = gateway();
    let (answer, asked) = g.replay_tts(&UserTier::Pro, "fish:x", "hello", 0, 0, vec![failure(), delivered(b"alt")]);
    assert_eq!(answer, TtsAnswer::Audio { audio: b"alt".to_vec() });
    assert_eq!(asked, vec!["fish:x".to_string(), "aimlapi:openai/gpt-4o-mini-tts:nova".to_string()]);
    assert_eq!(g.cached_audio("fish:x", "hello", 1), Some(b"alt".to_vec()));
    assert_eq!(g.cached_audio("aimlapi:openai/gpt-4o-mini-tts:nova", "hello", 1), None);
}

#[test]
fn the_request_at_the_limit_passes_and_the_next_is_rejected() {
    let mut g = gateway();
    let tier = free("dev");
    for n in 1..=3u64 {
        let text = format!("text {}", n);
        let (answer, _) = g.replay_tts(&tier, "openai:nova", &text, n, 9, vec![delivered(b"a")]);
        assert_eq!(answer, TtsAnswer::Audio { audio: b"a".to_vec() });
        assert_eq!(g.ledger.get_usage("dev", "tts", 9), n);
    }
    let (answer, asked) = g.replay_tts(&tier, "openai:nova", "text 4", 4, 9, vec![delivered(b"a")]);
    assert_eq!(answer, TtsAnswer::Rejected { reason: QuotaDenied::LimitReached { limit: 3, used: 3 } });
    assert!(asked.is_empty());
    assert_eq!(g.ledger.get_usage("dev", "tts", 9), 3);
    let (answer, _) = g.replay_tts(&tier, "openai:nova", "text 1", 5, 9, vec![]);
    assert_eq!(answer, TtsAnswer::Rejected { reason: QuotaDenied::LimitReached { limit: 3, used: 3 } });
    let (answer, _) = g.replay_tts(&free("other"), "openai:nova", "text 1", 5, 9, vec![]);
    assert_eq!(answer, TtsAnswer::Audio { audio: b"a".to_vec() });
}

#[test]
fn a_batch_provider_that_times_out_is_final() {
    let mut g = gateway();
    let (answer, asked) = g.replay_tts(&UserTier::Pro, "cosyvoice:x", "t", 0, 0, vec![AttemptOutcome::TimedOut, delivered(b"never")]);
    assert_eq!(answer, TtsAnswer::Failed { error: DispatchError::AttemptTimeout });
    assert_eq!(asked, vec!["cosyvoice:x".to_string()]);
}

#[test]
fn a_dispatch_without_outcome_waits() {
    let mut g = gateway();
    let (answer, asked) = g.replay_tts(&UserTier::Pro, "openai:nova", "t", 0, 0, vec![]);
    assert_eq!(answer, TtsAnswer::Waiting);
    assert!(asked.is_empty());
    let (answer, asked) = g.replay_tts(&UserTier::Pro, "openai:nova", "t", 0, 0, vec![failure()]);
    assert_eq!(answer, TtsAnswer::Waiting);
    assert_eq!(asked, vec!["openai:nova".to_string()]);
}

#[test]
fn audio_is_kept_as_base64_text_under_its_request_s_key() {
    let mut g = gateway();
    g.settle_tts(&UserTier::Pro, "openai:nova", "hello", &[1, 2, 3, 4], 0, 0);
    assert_eq!(g.lookup("tts_audio", "openai:nova|hello", 1), Some("AQIDBA==".to_string()));
    assert_eq!(
        g.cache.get("746183ef421cff06172f96ac10ce47996e3a6d373f894ee0c9c9e81581a9e52d", 1),
        Some("AQIDBA==".to_string())
    );
    assert_eq!(g.cached_audio("openai:nova", "hello", 1), Some(vec![1, 2, 3, 4]));
}

#[test]
fn a_cached_text_that_is_no_base64_counts_as_a_miss() {
    let mut g = gateway();
    let payload = audio_payload("openai:nova", "hello");
    g.settle(&UserTier::Pro, "tts", "tts_audio", &payload, "***", 100, 0, 0);
    assert_eq!(g.lookup("tts_audio", &payload, 1), Some("***".to_string()));
    assert_eq!(g.cached_audio("openai:nova", "hello", 1), None);
}

#[test]
fn readings_are_kept_for_a_day_without_counting() {
    let mut g = gateway();
    assert_eq!(g.cached_reading("漢字", 0), None);
    g.store_reading("漢字", "かんじ", 10);
    assert_eq!(g.cached_reading("漢字", 10 + 86_399), Some("かんじ".to_string()));
    assert_eq!(g.cached_reading("漢字", 10 + 86_400), None);
    assert_eq!(g.ledger.get_usage("", "to_reading", 0), 0);
}

#[test]
fn generation_is_unavailable_without_the_generator_s_key() {
    let g = Gateway::new(config_with(&["openai"]));
    assert_eq!(
        g.open_generation(&UserTier::Pro, "questions", "p", 0, 0),
        GenerationOpening::Unavailable { missing: MissingConfig::GeneratorKey }
    );
    assert_eq!(
        g.open_generation(&UserTier::Anonymous, "questions", "p", 0, 0),
        GenerationOpening::Rejected { reason: QuotaDenied::DeviceIdRequired }
    );
}

#[test]
fn a_generated_answer_is_cached_and_counted_once() {
    let mut g = gateway();
    let tier = free("dev");
    assert_eq!(g.open_generation(&tier, "questions", "p", 0, 3), GenerationOpening::Generate);
    g.settle_generation(&tier, "questions", "p", r#"{"questions":["a","b"]}"#, 0, 3);
    assert_eq!(g.ledger.get_usage("dev", "questions", 3), 1);
    assert_eq!(
        g.open_generation(&tier, "questions", "p", 21_599, 3),
        GenerationOpening::Cached { answer: r#"{"questions":["a","b"]}"#.to_string() }
    );
    assert_eq!(g.open_generation(&tier, "questions", "p", 21_600, 3), GenerationOpening::Generate);
    assert_eq!(g.open_generation(&tier, "ask", "p", 1, 3), GenerationOpening::Generate);
    assert_eq!(g.ledger.get_usage("dev", "questions", 3), 1);
}

#[test]
fn a_summary_is_kept_for_three_hours() {
    let mut g = gateway();
    g.settle_generation(&UserTier::Pro, "summarize", "3:a|b", "{}", 100, 0);
    assert_eq!(
        g.open_generation(&UserTier::Pro, "summarize", "3:a|b", 100 + 10_799, 0),
        GenerationOpening::Cached { answer: "{}".to_string() }
    );
    assert_eq!(
        g.open_generation(&UserTier::Pro, "summarize", "3:a|b", 100 + 10_800, 0),
        GenerationOpening::Generate
    );
}

#[test]
fn a_limited_caller_at_the_limit_is_rejected_even_where_the_cache_holds_the_answer() {
    let mut g = gateway();
    let tier = free("dev");
    g.settle_generation(&tier, "summarize", "p", "{}", 0, 3);
    assert_eq!(
        g.open_generation(&tier, "summarize", "p", 1, 3),
        GenerationOpening::Rejected { reason: QuotaDenied::LimitReached { limit: 1, used: 1 } }
    );
    assert_eq!(
        g.open_generation(&free("other"), "summarize", "p", 1, 3),
        GenerationOpening::Cached { answer: "{}".to_string() }
    );
}

#[test]
fn a_cached_text_that_is_no_json_counts_as_a_miss() {
    let mut g = gateway();
    g.settle_generation(&UserTier::Pro, "ask", "p", "{broken", 0, 0);
    assert_eq!(g.lookup("ask", "p", 1), Some("{broken".to_string()));
    assert_eq!(g.open_generation(&UserTier::Pro, "ask", "p", 1, 0), GenerationOpening::Generate);
}

#[test]
fn a_reading_is_counted_but_not_cached() {
    let mut g = gateway();
    let tier = free("dev");
    g.settle_generation(&tier, "to_reading", "text", r#"{"reading":"x"}"#, 0, 3);
    assert_eq!(g.ledger.get_usage("dev", "to_reading", 3), 1);
    assert_eq!(g.lookup("to_reading", "text", 1), None);
    assert_eq!(g.open_generation(&tier, "to_reading", "text", 1, 3), GenerationOpening::Generate);
}

#[test]
fn a_dialogue_needs_the_provider_that_speaks_it() {
    let g = Gateway::new(config_with(&["api"]));
    assert_eq!(
        g.open_podcast(&UserTier::Pro, false, "p", 0, 0),
        GenerationOpening::Unavailable { missing: MissingConfig::SpeechKey }
    );
    assert_eq!(
        g.open_podcast(&UserTier::Pro, true, "p", 0, 0),
        GenerationOpening::Unavailable { missing: MissingConfig::BatchEndpoint }
    );
    let g = Gateway::new(config_with(&["api", "runpod"]));
    assert_eq!(
        g.open_podcast(&UserTier::Pro, true, "p", 0, 0),
        GenerationOpening::Unavailable { missing: MissingConfig::BatchEndpoint }
    );
    let g = Gateway::new(config_with(&["openai", "runpod", "qwen_omni"]));
    assert_eq!(
        g.open_podcast(&UserTier::Pro, true, "p", 0, 0),
        GenerationOpening::Unavailable { missing: MissingConfig::GeneratorKey }
    );
    let mut g = Gateway::new(config_with(&["api", "openai"]));
    assert_eq!(g.open_podcast(&UserTier::Pro, false, "p", 0, 0), GenerationOpening::Generate);
    g.settle_generation(&UserTier::Pro, "podcast", "p", "[]", 0, 0);
    assert_eq!(
        g.open_podcast(&UserTier::Pro, false, "p", 1, 0),
        GenerationOpening::Cached { answer: "[]".to_string() }
    );
    assert_eq!(
        g.open_podcast(&UserTier::Anonymous, false, "p", 1, 0),
        GenerationOpening::Rejected { reason: QuotaDenied::DeviceIdRequired }
    );
}

#[test]
fn a_long_text_is_cut_at_five_thousand_bytes() {
    assert_eq!(MAX_TEXT_BYTES, 5000);
    let short = "short text";
    assert!(can_clip(short));
    assert_eq!(clip_text(short), short);
    let exact = "a".repeat(5000);
    assert!(can_clip(&exact));
    assert_eq!(clip_text(&exact), exact);
    let long = "b".repeat(5001);
    assert!(can_clip(&long));
    assert_eq!(clip_text(&long), "b".repeat(5000));
    let wide = "あ".repeat(1667);
    assert_eq!(wide.len(), 5001);
    assert!(!can_clip(&wide));
    let fitting = format!("ab{}", "あ".repeat(1700));
    assert!(can_clip(&fitting));
    assert_eq!(clip_text(&fitting), format!("ab{}", "あ".repeat(1666)));
}

#[test]
fn a_kept_reading_is_never_served_as_the_answer_of_the_reading_feature() {
    let mut g = gateway();
    g.store_reading("text", "123", 0);
    g.store_reading("other", r#"{"reading":"x"}"#, 0);
    assert_eq!(g.cached_reading("text", 1), Some("123".to_string()));
    assert_eq!(g.open_generation(&UserTier::Pro, "to_reading", "text", 1, 0), GenerationOpening::Generate);
    assert_eq!(g.open_generation(&UserTier::Pro, "to_reading", "other", 1, 0), GenerationOpening::Generate);
}

#[test]
fn a_feature_whose_answers_are_not_cached_never_opens_from_the_cache() {
    let mut g = gateway();
    g.settle(&UserTier::Pro, "tts", "tts", "p", "{}", 100, 0, 0);
    g.settle(&UserTier::Pro, "unlisted", "unlisted", "p", "{}", 100, 0, 0);
    assert_eq!(g.lookup("unlisted", "p", 1), Some("{}".to_string()));
    assert_eq!(g.open_generation(&UserTier::Pro, "tts", "p", 1, 0), GenerationOpening::Generate);
    assert_eq!(g.open_generation(&UserTier::Pro, "unlisted", "p", 1, 0), GenerationOpening::Generate);
}
