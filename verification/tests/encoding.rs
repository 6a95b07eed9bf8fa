use news_server::adapter::{begin_attempt, continue_attempt, AdapterState, AdapterStep, UpstreamCall, UpstreamReply};
use news_server::encoding::{
    build_body, build_headers, encode_call, listing_request, BodyField, BodyValue, Channel,
    HttpRequest, Method,
};
use news_server::provider::{GatewayConfig, ProviderKind};

fn full_config() -> GatewayConfig {
    GatewayConfig {
        api_key: "gen-key".to_string(),
        elevenlabs_api_key: "el-key".to_string(),
        openai_api_key: "oa-key".to_string(),
        cartesia_api_key: "ca-key".to_string(),
        fish_audio_api_key: "fi-key".to_string(),
        aimlapi_key: "ai-key".to_string(),
        venice_api_key: "ve-key".to_string(),
        runpod_api_key: "rp-key".to_string(),
        cosyvoice_endpoint_id: "cosy-ep".to_string(),
        qwen_tts_endpoint_id: "qtts-ep".to_string(),
        qwen_omni_endpoint_id: "omni-ep".to_string(),
        elevenlabs_default_voice: "el-voice".to_string(),
        cartesia_default_voice: "ca-voice".to_string(),
        fish_default_voice: "fi-voice".to_string(),
    }
}

fn first_call(voice_id: &str, text: &str) -> UpstreamCall {
    match begin_attempt(&full_config(), voice_id, text) {
        AdapterStep::Send { call, .. } => call,
        other => panic!("not a call: {:?}", other),
    }
}

fn pair(name: &str, value: &str) -> (String, String) {
    (name.to_string(), value.to_string())
}

fn text(path: &str, value: &str) -> BodyField {
    BodyField { path: path.to_string(), value: BodyValue::Text(value.to_string()) }
}

fn other(path: &str, value: BodyValue) -> BodyField {
    BodyField { path: path.to_string(), value }
}

#[test]
fn the_default_provider_takes_its_key_in_its_own_header() {
    let request = encode_call(&first_call("voice-1", "hello"));
    assert_eq!(request.method, Method::Post);
    assert_eq!(request.channel, Channel::General);
    assert_eq!(request.url, "https://api.elevenlabs.io/v1/text-to-speech/voice-1");
    assert_eq!(
        request.headers,
        vec![pair("xi-api-key", "el-key"), pair("content-type", "application/json"), pair("accept", "audio/mpeg")]
    );
    assert_eq!(
        request.body,
        vec![
            text("text", "hello"),
            text("model_id", "eleven_multilingual_v2"),
            other("voice_settings.stability", BodyValue::Tenths(5)),
            other("voice_settings.similarity_boost", BodyValue::Tenths(8)),
            other("voice_settings.style", BodyValue::Tenths(3)),
            other("voice_settings.use_speaker_boost", BodyValue::Flag(true)),
        ]
    );
}

#[test]
fn bearers_carry_their_key_in_the_authorization_header() {
    for (voice_id, key) in [
        ("openai:nova", "oa-key"),
        ("fish:r", "fi-key"),
        ("aimlapi:m:v", "ai-key"),
        ("venice:v", "ve-key"),
        ("cosyvoice:v", "rp-key"),
        ("qwen-tts:Japanese", "rp-key"),
        ("qwen-omni:Ethan", "rp-key"),
    ] {
        let call = first_call(voice_id, "t");
        assert_eq!(
            build_headers(&call),
            vec![pair("Authorization", &format!("Bearer {}", key)), pair("content-type", "application/json")]
        );
    }
    assert_eq!(
        build_headers(&first_call("cartesia:v", "t")),
        vec![pair("X-API-Key", "ca-key"), pair("Cartesia-Version", "2025-04-16"), pair("content-type", "application/json")]
    );
}

#[test]
fn each_provider_takes_the_fields_of_its_protocol() {
    let call = first_call("openai:nova", "hello");
    assert_eq!(
        build_body(&call),
        vec![
            text("model", "gpt-4o-mini-tts"),
            text("input", "hello"),
            text("voice", "nova"),
            text("response_format", "mp3"),
            text("instructions", &call.instructions),
        ]
    );
    assert_eq!(
        build_body(&first_call("cartesia:v9", "hello")),
        vec![
            text("model_id", "sonic-3"),
            text("transcript", "hello"),
            text("voice.mode", "id"),
            text("voice.id", "v9"),
            text("language", "ja"),
            text("output_format.container", "mp3"),
            other("output_format.sample_rate", BodyValue::Whole(44100)),
            other("output_format.bit_rate", BodyValue::Whole(128000)),
        ]
    );
    assert_eq!(
        build_body(&first_call("fish:ref", "hello")),
        vec![text("text", "hello"), text("reference_id", "ref"), text("format", "mp3"), text("latency", "normal")]
    );
    assert_eq!(
        build_body(&first_call("aimlapi:deepgram/aura-2:luna", "hello")),
        vec![text("model", "deepgram/aura-2"), text("text", "hello"), text("voice", "luna"), text("response_format", "mp3")]
    );
    assert_eq!(
        build_body(&first_call("venice:af_sky", "hello")),
        vec![text("model", "tts-kokoro"), text("input", "hello"), text("voice", "af_sky"), text("response_format", "mp3")]
    );
}

#[test]
fn batch_providers_take_their_input_in_an_object() {
    let request = encode_call(&first_call("cosyvoice:日本語女性", "hello"));
    assert_eq!(request.method, Method::Post);
    assert_eq!(request.channel, Channel::Batch);
    assert_eq!(request.url, "https://api.runpod.ai/v2/cosy-ep/runsync");
    assert_eq!(
        request.body,
        vec![text("input.text", "hello"), text("input.voice", "日本語女性"), other("input.speed", BodyValue::Tenths(10))]
    );
    assert_eq!(
        build_body(&first_call("qwen-tts:Japanese", "hello")),
        vec![text("input.text", "hello"), text("input.language", "Japanese")]
    );
    let call = first_call("qwen-omni:Chelsie", "hello");
    assert_eq!(
        build_body(&call),
        vec![text("input.text", "hello"), text("input.voice", "Chelsie"), text("input.system_prompt", &call.instructions)]
    );
    assert_eq!(encode_call(&call).channel, Channel::Batch);
}

#[test]
fn a_poll_only_asks() {
    let reply = UpstreamReply::Response { status: 200, body: br#"{"id":"job-1"}"#.to_vec() };
    let call = match continue_attempt(&full_config(), AdapterState::AwaitSubmit, reply) {
        AdapterStep::Send { call, .. } => call,
        other => panic!("not a call: {:?}", other),
    };
    assert_eq!(
        encode_call(&call),
        HttpRequest {
            method: Method::Get,
            channel: Channel::Batch,
            url: "https://api.runpod.ai/v2/omni-ep/status/job-1".to_string(),
            headers: vec![pair("Authorization", "Bearer rp-key")],
            body: vec![],
        }
    );
}

#[test]
fn a_download_carries_nothing() {
    let reply = UpstreamReply::Response { status: 200, body: br#"{"audio":{"url":"https://cdn/a.mp3"}}"#.to_vec() };
    let call = match continue_attempt(&full_config(), AdapterState::AwaitLocator, reply) {
        AdapterStep::Send { call, .. } => call,
        other => panic!("not a call: {:?}", other),
    };
    assert_eq!(
        encode_call(&call),
        HttpRequest {
            method: Method::Get,
            channel: Channel::General,
            url: "https://cdn/a.mp3".to_string(),
            headers: vec![],
            body: vec![],
        }
    );
}

#[test]
fn three_providers_list_their_voices_themselves() {
    let config = full_config();
    let el = listing_request(&config, ProviderKind::ElevenLabs).unwrap();
    assert_eq!(el.method, Method::Get);
    assert_eq!(el.url, "https://api.elevenlabs.io/v1/voices");
    assert_eq!(el.headers, vec![pair("xi-api-key", "el-key")]);
    assert!(el.body.is_empty());
    let ca = listing_request(&config, ProviderKind::Cartesia).unwrap();
    assert_eq!(ca.url, "https://api.cartesia.ai/voices");
    assert_eq!(ca.headers, vec![pair("X-API-Key", "ca-key"), pair("Cartesia-Version", "2025-04-16")]);
    let fi = listing_request(&config, ProviderKind::Fish).unwrap();
    assert_eq!(fi.url, "https://api.fish.audio/model?page_size=50&language=ja");
    assert_eq!(fi.headers, vec![pair("Authorization", "Bearer fi-key")]);
    for kind in [
        ProviderKind::OpenAi, ProviderKind::AimlApi, ProviderKind::Venice,
        ProviderKind::CosyVoice, ProviderKind::QwenTts, ProviderKind::QwenOmni,
    ] {
        assert_eq!(listing_request(&config, kind), None);
    }
}
