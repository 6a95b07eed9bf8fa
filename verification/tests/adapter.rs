use news_server::adapter::{
    advance, begin_attempt, begin_attempt_on, continue_attempt, job_audio, read_fields, status_is_success,
    AdapterError, AdapterState, AdapterStep, CallKind, ReplyFields, UpstreamReply,
    NEWSREADER_INSTRUCTIONS, NEWSREADER_PROMPT,
};
use news_server::poller::{MAX_POLL_ATTEMPTS, POLL_INTERVAL_SECS};
use news_server::provider::{GatewayConfig, ProviderKind};

fn full_config() -> GatewayConfig {
    GatewayConfig {
        api_key: "gen-key".to_string(),
        elevenlabs_api_key: "el-key".to_string(),
        openai_api_key: "oa-key".to_string(),
        cartesia_api_key: "ca-key".to_string(),
        fish_audio_api_key: "fi-key".to_string(),
        aimlapi_key: "ai-key".to_string(),
        venice_api_key: "ve-key".to_string(),
        runpod_api_key: "rp-key".to_string(),
        cosyvoice_endpoint_id: "cosy-ep".to_string(),
        qwen_tts_endpoint_id: "qtts-ep".to_string(),
        qwen_omni_endpoint_id: "omni-ep".to_string(),
        elevenlabs_default_voice: "el-voice".to_string(),
        cartesia_default_voice: "ca-voice".to_string(),
        fish_default_voice: "fi-voice".to_string(),
    }
}

fn empty_config() -> GatewayConfig {
    GatewayConfig {
        api_key: String::new(),
        elevenlabs_api_key: String::new(),
        openai_api_key: String::new(),
        cartesia_api_key: String::new(),
        fish_audio_api_key: String::new(),
        aimlapi_key: String::new(),
        venice_api_key: String::new(),
        runpod_api_key: String::new(),
        cosyvoice_endpoint_id: String::new(),
        qwen_tts_endpoint_id: String::new(),
        qwen_omni_endpoint_id: String::new(),
        elevenlabs_default_voice: String::new(),
        cartesia_default_voice: String::new(),
        fish_default_voice: String::new(),
    }
}

fn no_fields() -> ReplyFields {
    ReplyFields { status: None, audio_base64: None, error: None, id: None, audio_url: None }
}

fn response(status: u16, body: &str) -> UpstreamReply {
    UpstreamReply::Response { status, body: body.as_bytes().to_vec() }
}

fn failed(step: AdapterStep) -> AdapterError {
    match step {
        AdapterStep::Failed { error } => error,
        other => panic!("not a failure: {:?}", other),
    }
}

fn sent(step: AdapterStep) -> (u64, news_server::adapter::UpstreamCall, AdapterState) {
    match step {
        AdapterStep::Send { delay_secs, call, state } => (delay_secs, call, state),
        other => panic!("not a call: {:?}", other),
    }
}

#[test]
fn an_unconfigured_provider_fails_before_any_call() {
    let config = empty_config();
    for voice in [
        "voice", "openai:nova", "cartesia:x", "fish:x", "aimlapi:m:v", "venice:v",
        "cosyvoice:v", "qwen-tts:Japanese", "qwen-omni:Ethan",
    ] {
        assert_eq!(failed(begin_attempt(&config, voice, "text")), AdapterError::NotConfigured);
    }
}

#[test]
fn a_batch_provider_needs_key_and_endpoint() {
    let mut config = empty_config();
    config.runpod_api_key = "k".to_string();
    assert_eq!(failed(begin_attempt(&config, "cosyvoice:v", "t")), AdapterError::NotConfigured);
    config.runpod_api_key = String::new();
    config.cosyvoice_endpoint_id = "ep".to_string();
    assert_eq!(failed(begin_attempt(&config, "cosyvoice:v", "t")), AdapterError::NotConfigured);
}

#[test]
fn the_default_provider_is_called_at_the_voice_s_address() {
    let (delay, call, state) = sent(begin_attempt(&full_config(), "Xb7hH8MSUJpSbSDYk0k2", "hello"));
    assert_eq!(delay, 0);
    assert_eq!(state, AdapterState::AwaitSpeech);
    assert_eq!(call.kind, CallKind::Speech);
    assert_eq!(call.provider, ProviderKind::ElevenLabs);
    assert_eq!(call.url, "https://api.elevenlabs.io/v1/text-to-speech/Xb7hH8MSUJpSbSDYk0k2");
    assert_eq!(call.credential, "el-key");
    assert_eq!(call.voice, "Xb7hH8MSUJpSbSDYk0k2");
    assert_eq!(call.model, "");
    assert_eq!(call.text, "hello");
    assert_eq!(call.instructions, "");
}

#[test]
fn each_speech_provider_has_its_address_and_key() {
    let config = full_config();
    let cases = [
        ("openai:nova", ProviderKind::OpenAi, "https://api.openai.com/v1/audio/speech", "oa-key", "nova"),
        ("cartesia:v1", ProviderKind::Cartesia, "https://api.cartesia.ai/tts/bytes", "ca-key", "v1"),
        ("fish:r1", ProviderKind::Fish, "https://api.fish.audio/v1/tts", "fi-key", "r1"),
        ("venice:af_sky", ProviderKind::Venice, "https://api.venice.ai/api/v1/audio/speech", "ve-key", "af_sky"),
    ];
    for (voice_id, provider, url, key, voice) in cases {
        let (delay, call, state) = sent(begin_attempt(&config, voice_id, "t"));
        assert_eq!(delay, 0);
        assert_eq!(state, AdapterState::AwaitSpeech);
        assert_eq!(call.kind, CallKind::Speech);
        assert_eq!(call.provider, provider);
        assert_eq!(call.url, url);
        assert_eq!(call.credential, key);
        assert_eq!(call.voice, voice);
        assert_eq!(call.text, "t");
    }
}

#[test]
fn two_providers_are_told_how_to_read() {
    let config = full_config();
    let (_, openai, _) = sent(begin_attempt(&config, "openai:nova", "t"));
    assert_eq!(openai.instructions, NEWSREADER_INSTRUCTIONS);
    let (_, omni, _) = sent(begin_attempt(&config, "qwen-omni:Ethan", "t"));
    assert_eq!(omni.instructions, NEWSREADER_PROMPT);
    let (_, venice, _) = sent(begin_attempt(&config, "venice:af_sky", "t"));
    assert_eq!(venice.instructions, "");
}

#[test]
fn the_locator_provider_takes_model_and_voice_about_the_last_colon() {
    let config = full_config();
    let (_, call, state) = sent(begin_attempt(&config, "aimlapi:openai/gpt-4o-mini-tts:nova", "t"));
    assert_eq!(state, AdapterState::AwaitLocator);
    assert_eq!(call.url, "https://api.aimlapi.com/v1/tts");
    assert_eq!(call.credential, "ai-key");
    assert_eq!(call.model, "openai/gpt-4o-mini-tts");
    assert_eq!(call.voice, "nova");
    let (_, call, _) = sent(begin_attempt(&config, "aimlapi:a:b:c", "t"));
    assert_eq!(call.model, "a:b");
    assert_eq!(call.voice, "c");
    let (_, call, _) = sent(begin_attempt(&config, "aimlapi:luna", "t"));
    assert_eq!(call.model, "openai/gpt-4o-mini-tts");
    assert_eq!(call.voice, "luna");
    let (_, call, _) = sent(begin_attempt(&config, "aimlapi:model:", "t"));
    assert_eq!(call.model, "model");
    assert_eq!(call.voice, "");
}

#[test]
fn batch_providers_run_on_their_endpoints() {
    let config = full_config();
    let (_, call, state) = sent(begin_attempt(&config, "cosyvoice:日本語女性", "t"));
    assert_eq!(state, AdapterState::AwaitRunSync);
    assert_eq!(call.kind, CallKind::RunSync);
    assert_eq!(call.url, "https://api.runpod.ai/v2/cosy-ep/runsync");
    assert_eq!(call.credential, "rp-key");
    assert_eq!(call.voice, "日本語女性");
    let (_, call, state) = sent(begin_attempt(&config, "qwen-tts:Japanese", "t"));
    assert_eq!(state, AdapterState::AwaitRunSync);
    assert_eq!(call.url, "https://api.runpod.ai/v2/qtts-ep/runsync");
    assert_eq!(call.voice, "Japanese");
    let (_, call, state) = sent(begin_attempt(&config, "qwen-omni:Chelsie", "t"));
    assert_eq!(state, AdapterState::AwaitSubmit);
    assert_eq!(call.kind, CallKind::Submit);
    assert_eq!(call.url, "https://api.runpod.ai/v2/omni-ep/run");
    assert_eq!(call.voice, "Chelsie");
}

#[test]
fn status_in_the_200s_is_success() {
    assert!(status_is_success(200));
    assert!(status_is_success(204));
    assert!(status_is_success(299));
    assert!(!status_is_success(199));
    assert!(!status_is_success(300));
    assert!(!status_is_success(404));
    assert!(!status_is_success(500));
}

#[test]
fn a_call_that_does_not_get_through_is_a_transport_error() {
    let config = full_config();
    for state in [
        AdapterState::AwaitSpeech,
        AdapterState::AwaitLocator,
        AdapterState::AwaitDownload,
        AdapterState::AwaitRunSync,
        AdapterState::AwaitSubmit,
        AdapterState::Polling { job_id: "j".to_string(), polls_done: 3 },
    ] {
        assert_eq!(
            failed(continue_attempt(&config, state, UpstreamReply::Transport)),
            AdapterError::Transport
        );
    }
}

#[test]
fn a_status_outside_the_200s_is_an_upstream_error() {
    let config = full_config();
    for state in [
        AdapterState::AwaitSpeech,
        AdapterState::AwaitLocator,
        AdapterState::AwaitDownload,
        AdapterState::AwaitRunSync,
        AdapterState::AwaitSubmit,
    ] {
        assert_eq!(
            failed(continue_attempt(&config, state, response(429, "slow down"))),
            AdapterError::Upstream { status: 429, body: b"slow down".to_vec() }
        );
    }
}

#[test]
fn speech_is_the_body_of_a_successful_reply() {
    let config = full_config();
    let step = continue_attempt(&config, AdapterState::AwaitSpeech, response(200, "ID3-bytes"));
    assert_eq!(step, AdapterStep::Delivered { audio: b"ID3-bytes".to_vec() });
    let step = continue_attempt(&config, AdapterState::AwaitDownload, response(200, "{\"status\":\"FAILED\"}"));
    assert_eq!(step, AdapterStep::Delivered { audio: b"{\"status\":\"FAILED\"}".to_vec() });
}

#[test]
fn a_locator_leads_to_a_download() {
    let config = full_config();
    let reply = response(200, r#"{"audio":{"url":"https://cdn.example/a.mp3"}}"#);
    let (delay, call, state) = sent(continue_attempt(&config, AdapterState::AwaitLocator, reply));
    assert_eq!(delay, 0);
    assert_eq!(state, AdapterState::AwaitDownload);
    assert_eq!(call.kind, CallKind::Download);
    assert_eq!(call.url, "https://cdn.example/a.mp3");
    assert_eq!(call.credential, "");
}

#[test]
fn a_reply_without_locator_is_of_the_wrong_shape() {
    let config = full_config();
    for body in [r#"{"audio":{}}"#, r#"{"audio":{"url":17}}"#, "not json", "", r#"{"url":"x"}"#] {
        assert_eq!(
            failed(continue_attempt(&config, AdapterState::AwaitLocator, response(200, body))),
            AdapterError::Decode
        );
    }
}

#[test]
fn a_completed_job_delivers_its_decoded_audio() {
    let config = full_config();
    let reply = response(200, r#"{"status":"COMPLETED","output":{"audio_base64":"AQIDBA=="}}"#);
    assert_eq!(
        continue_attempt(&config, AdapterState::AwaitRunSync, reply),
        AdapterStep::Delivered { audio: vec![1, 2, 3, 4] }
    );
}

#[test]
fn a_completed_job_without_usable_audio_is_of_the_wrong_shape() {
    let config = full_config();
    for body in [
        r#"{"status":"COMPLETED"}"#,
        r#"{"status":"COMPLETED","output":{}}"#,
        r#"{"status":"COMPLETED","output":{"audio_base64":""}}"#,
        r#"{"status":"COMPLETED","output":{"audio_base64":"***"}}"#,
        r#"{"status":"COMPLETED","output":["audio_base64"]}"#,
    ] {
        assert_eq!(
            failed(continue_attempt(&config, AdapterState::AwaitRunSync, response(200, body))),
            AdapterError::Decode
        );
    }
}

#[test]
fn a_failed_job_gives_its_reason() {
    let config = full_config();
    let reply = response(200, r#"{"status":"FAILED","error":"out of memory"}"#);
    assert_eq!(
        failed(continue_attempt(&config, AdapterState::AwaitRunSync, reply)),
        AdapterError::JobFailed { reason: "out of memory".to_string() }
    );
    let reply = response(200, r#"{"status":"FAILED"}"#);
    assert_eq!(
        failed(continue_attempt(&config, AdapterState::AwaitRunSync, reply)),
        AdapterError::JobFailed { reason: "unknown".to_string() }
    );
}

#[test]
fn a_job_run_in_the_call_cannot_be_pending() {
    let config = full_config();
    for status in ["IN_QUEUE", "IN_PROGRESS", "CANCELLED", "completed"] {
        let body = format!(r#"{{"status":"{}"}}"#, status);
        assert_eq!(
            failed(continue_attempt(&config, AdapterState::AwaitRunSync, response(200, &body))),
            AdapterError::UnknownStatus { status: status.to_string() }
        );
    }
    assert_eq!(
        failed(continue_attempt(&config, AdapterState::AwaitRunSync, response(200, "{}"))),
        AdapterError::Decode
    );
    assert_eq!(
        failed(continue_attempt(&config, AdapterState::AwaitRunSync, response(200, "<html>"))),
        AdapterError::Decode
    );
}

#[test]
fn a_submitted_job_is_polled_after_the_interval() {
    let config = full_config();
    let reply = response(200, r#"{"id":"job-42","status":"IN_QUEUE"}"#);
    let (delay, call, state) = sent(continue_attempt(&config, AdapterState::AwaitSubmit, reply));
    assert_eq!(delay, POLL_INTERVAL_SECS);
    assert_eq!(delay, 2);
    assert_eq!(state, AdapterState::Polling { job_id: "job-42".to_string(), polls_done: 0 });
    assert_eq!(call.kind, CallKind::Status);
    assert_eq!(call.url, "https://api.runpod.ai/v2/omni-ep/status/job-42");
    assert_eq!(call.credential, "rp-key");
    assert_eq!(
        failed(continue_attempt(&config, AdapterState::AwaitSubmit, response(200, r#"{"status":"IN_QUEUE"}"#))),
        AdapterError::Decode
    );
}

#[test]
fn a_poll_reads_the_document_whatever_the_status_code() {
    let config = full_config();
    let state = AdapterState::Polling { job_id: "j".to_string(), polls_done: 0 };
    let reply = response(500, r#"{"status":"COMPLETED","output":{"audio_base64":"AQIDBA=="}}"#);
    assert_eq!(
        continue_attempt(&config, state, reply),
        AdapterStep::Delivered { audio: vec![1, 2, 3, 4] }
    );
}

#[test]
fn a_pending_job_is_polled_again() {
    let config = full_config();
    for status in ["IN_QUEUE", "IN_PROGRESS"] {
        let state = AdapterState::Polling { job_id: "j".to_string(), polls_done: 7 };
        let body = format!(r#"{{"status":"{}"}}"#, status);
        let (delay, call, state) = sent(continue_attempt(&config, state, response(200, &body)));
        assert_eq!(delay, 2);
        assert_eq!(call.url, "https://api.runpod.ai/v2/omni-ep/status/j");
        assert_eq!(state, AdapterState::Polling { job_id: "j".to_string(), polls_done: 8 });
    }
}

#[test]
fn a_poll_ends_on_a_terminal_or_unknown_status() {
    let config = full_config();
    let polling = || AdapterState::Polling { job_id: "j".to_string(), polls_done: 1 };
    assert_eq!(
        failed(continue_attempt(&config, polling(), response(200, r#"{"status":"FAILED","error":"boom"}"#))),
        AdapterError::JobFailed { reason: "boom".to_string() }
    );
    assert_eq!(
        failed(continue_attempt(&config, polling(), response(200, r#"{"status":"TIMED_OUT"}"#))),
        AdapterError::UnknownStatus { status: "TIMED_OUT".to_string() }
    );
    assert_eq!(
        failed(continue_attempt(&config, polling(), response(200, r#"{"state":"IN_QUEUE"}"#))),
        AdapterError::Decode
    );
    assert_eq!(
        failed(continue_attempt(&config, polling(), response(200, "oops"))),
        AdapterError::Decode
    );
}

#[test]
fn a_job_that_never_finishes_is_given_up_after_sixty_polls() {
    let config = full_config();
    let mut step = continue_attempt(&config, AdapterState::AwaitSubmit, response(200, r#"{"id":"j"}"#));
    let mut polls = 0u32;
    let mut waited = 0u64;
    loop {
        match step {
            AdapterStep::Send { delay_secs, call, state } => {
                assert_eq!(call.kind, CallKind::Status);
                polls += 1;
                waited += delay_secs;
                assert!(polls <= MAX_POLL_ATTEMPTS);
                step = continue_attempt(&config, state, response(200, r#"{"status":"IN_PROGRESS"}"#));
            }
            AdapterStep::Failed { error } => {
                assert_eq!(error, AdapterError::PollTimeout);
                break;
            }
            AdapterStep::Delivered { .. } => panic!("nothing was delivered"),
        }
    }
    assert_eq!(polls, 60);
    assert_eq!(waited, 120);
}

#[test]
fn the_last_poll_still_takes_a_finished_job() {
    let config = full_config();
    let state = AdapterState::Polling { job_id: "j".to_string(), polls_done: 59 };
    let reply = response(200, r#"{"status":"COMPLETED","output":{"audio_base64":"AQIDBA=="}}"#);
    assert_eq!(
        continue_attempt(&config, state, reply),
        AdapterStep::Delivered { audio: vec![1, 2, 3, 4] }
    );
    let state = AdapterState::Polling { job_id: "j".to_string(), polls_done: 59 };
    assert_eq!(
        failed(continue_attempt(&config, state, response(200, r#"{"status":"IN_QUEUE"}"#))),
        AdapterError::PollTimeout
    );
    let state = AdapterState::Polling { job_id: "j".to_string(), polls_done: 60 };
    let reply = response(200, r#"{"status":"COMPLETED","output":{"audio_base64":"AQIDBA=="}}"#);
    assert_eq!(failed(continue_attempt(&config, state, reply)), AdapterError::PollTimeout);
}

#[test]
fn fields_are_read_at_their_places() {
    let body = br#"{"id":"j1","status":"COMPLETED","error":"e","output":{"audio_base64":"QQ=="},"audio":{"url":"u"}}"#;
    assert_eq!(
        read_fields(body),
        ReplyFields {
            status: Some("COMPLETED".to_string()),
            audio_base64: Some("QQ==".to_string()),
            error: Some("e".to_string()),
            id: Some("j1".to_string()),
            audio_url: Some("u".to_string()),
        }
    );
    assert_eq!(read_fields(b"[1,2]"), no_fields());
    assert_eq!(read_fields(b"\xff\xfe"), no_fields());
    assert_eq!(read_fields(br#"{"status":null,"id":5}"#), no_fields());
}

#[test]
fn job_audio_is_decoded_from_base64() {
    assert_eq!(job_audio(Some("YXVkaW8tYnl0ZXMA/w==")), Ok(b"audio-bytes\x00\xff".to_vec()));
    assert_eq!(job_audio(Some("")), Err(AdapterError::Decode));
    assert_eq!(job_audio(Some("not base64!")), Err(AdapterError::Decode));
    assert_eq!(job_audio(Some("AQIDBA")), Err(AdapterError::Decode));
    assert_eq!(job_audio(None), Err(AdapterError::Decode));
}

#[test]
fn advance_takes_the_fields_as_given() {
    let config = full_config();
    let fields = ReplyFields { id: Some("given".to_string()), ..no_fields() };
    let (_, call, state) = sent(advance(&config, AdapterState::AwaitSubmit, response(200, "ignored"), fields));
    assert_eq!(call.url, "https://api.runpod.ai/v2/omni-ep/status/given");
    assert_eq!(state, AdapterState::Polling { job_id: "given".to_string(), polls_done: 0 });
}

#[test]
fn an_attempt_on_a_provider_goes_to_that_provider() {
    let config = full_config();
    let (_, call, state) = sent(begin_attempt_on(&config, ProviderKind::Cartesia, "cartesia:ca-voice", "t"));
    assert_eq!(state, AdapterState::AwaitSpeech);
    assert_eq!(call.provider, ProviderKind::Cartesia);
    assert_eq!(call.voice, "ca-voice");
    assert_eq!(call.credential, "ca-key");
    let (_, call, _) = sent(begin_attempt_on(&config, ProviderKind::ElevenLabs, "openai:nova", "t"));
    assert_eq!(call.provider, ProviderKind::ElevenLabs);
    assert_eq!(call.url, "https://api.elevenlabs.io/v1/text-to-speech/openai:nova");
    assert_eq!(call.voice, "openai:nova");
    let (_, call, _) = sent(begin_attempt_on(&config, ProviderKind::Fish, "plain", "t"));
    assert_eq!(call.provider, ProviderKind::Fish);
    assert_eq!(call.voice, "plain");
    assert_eq!(
        failed(begin_attempt_on(&empty_config(), ProviderKind::Fish, "fish:x", "t")),
        AdapterError::NotConfigured
    );
}

#[test]
fn an_attempt_on_the_selected_provider_is_the_attempt_with_the_voice() {
    let config = full_config();
    for voice_id in ["plain", "openai:nova", "aimlapi:m:v", "cosyvoice:x", "qwen-omni:Ethan", ""] {
        let kind = news_server::provider::resolve_voice(voice_id).provider;
        assert_eq!(begin_attempt_on(&config, kind, voice_id, "t"), begin_attempt(&config, voice_id, "t"));
    }
}
