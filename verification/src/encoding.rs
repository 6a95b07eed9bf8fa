//! How a call upstream is written as an HTTP request: the method, the
//! headers and the fields of the JSON body that each provider takes. The
//! transport turns the fields into a document and sends it.

use vstd::prelude::*;
use vstd::string::*;
use crate::adapter::{CallKind, UpstreamCall, UpstreamCallView};
use crate::adapter::credential_of;
use crate::provider::{GatewayConfig, ProviderKind};

verus! {

/// The method of a request.
#[derive(Debug, Clone, Copy, PartialEq, Eq)]
pub enum Method {
    Get,
    Post,
}

/// The connection that a request goes through: the general one, or the
/// one for batch providers, which waits longer for an answer.
#[derive(Debug, Clone, Copy, PartialEq, Eq)]
pub enum Channel {
    General,
    Batch,
}

/// The value of one field of a body.
#[derive(Debug, Clone, PartialEq, Eq)]
pub enum BodyValue {
    Text(String),
    Flag(bool),
    Whole(u32),
    /// A number given in tenths: 5 stands for 0.5.
    Tenths(u32),
}

/// A `BodyValue` as a plain value.
pub ghost enum BodyValueView {
    Text(Seq<char>),
    Flag(bool),
    Whole(u32),
    Tenths(u32),
}

impl View for BodyValue {
    type V = BodyValueView;

    open spec fn view(&self) -> BodyValueView {
        match *self {
            BodyValue::Text(s) => BodyValueView::Text(s@),
            BodyValue::Flag(b) => BodyValueView::Flag(b),
            BodyValue::Whole(n) => BodyValueView::Whole(n),
            BodyValue::Tenths(n) => BodyValueView::Tenths(n),
        }
    }
}

/// One field of a body: where it stands in the document, as the names of
/// the objects that lead to it with dots between, and its value.
#[derive(Debug, Clone, PartialEq, Eq)]
pub struct BodyField {
    pub path: String,
    pub value: BodyValue,
}

/// An HTTP request, ready to be sent.
#[derive(Debug, Clone, PartialEq, Eq)]
pub struct HttpRequest {
    pub method: Method,
    pub channel: Channel,
    pub url: String,
    pub headers: Vec<(String, String)>,
    /// The fields of the JSON body; none for a request without body.
    pub body: Vec<BodyField>,
}

/// An `HttpRequest` as a plain value.
pub ghost struct HttpRequestView {
    pub method: Method,
    pub channel: Channel,
    pub url: Seq<char>,
    pub headers: Seq<(Seq<char>, Seq<char>)>,
    pub body: Seq<(Seq<char>, BodyValueView)>,
}

/// Headers as plain values.
pub open spec fn headers_view(headers: Seq<(String, String)>) -> Seq<(Seq<char>, Seq<char>)> {
    Seq::new(headers.len(), |i: int| (headers[i].0@, headers[i].1@))
}

/// Fields as plain values.
pub open spec fn body_view(body: Seq<BodyField>) -> Seq<(Seq<char>, BodyValueView)> {
    Seq::new(body.len(), |i: int| (body[i].path@, body[i].value@))
}

impl View for HttpRequest {
    type V = HttpRequestView;

    open spec fn view(&self) -> HttpRequestView {
        HttpRequestView {
            method: self.method,
            channel: self.channel,
            url: self.url@,
            headers: headers_view(self.headers@),
            body: body_view(self.body@),
        }
    }
}

/// The method of a call: the two kinds that only ask are read, the others
/// post a body.
pub open spec fn method_of(kind: CallKind) -> Method {
    match kind {
        CallKind::Download | CallKind::Status => Method::Get,
        _ => Method::Post,
    }
}

/// The connection of a call.
pub open spec fn channel_of(kind: CallKind) -> Channel {
    match kind {
        CallKind::RunSync | CallKind::Submit | CallKind::Status => Channel::Batch,
        _ => Channel::General,
    }
}

/// The header that says that the body is JSON.
pub open spec fn json_header() -> (Seq<char>, Seq<char>) {
    ("content-type"@, "application/json"@)
}

/// The header that authorises a bearer of `key`.
pub open spec fn bearer_header(key: Seq<char>) -> (Seq<char>, Seq<char>) {
    ("Authorization"@, "Bearer "@ + key)
}

/// The headers of a call: how the provider takes its key, and what the body
/// is where there is one. A download carries none.
pub open spec fn headers_of(call: UpstreamCallView) -> Seq<(Seq<char>, Seq<char>)> {
    match call.kind {
        CallKind::Download => Seq::empty(),
        CallKind::Status => seq![bearer_header(call.credential)],
        _ => match call.provider {
            ProviderKind::ElevenLabs => seq![
                ("xi-api-key"@, call.credential),
                json_header(),
                ("accept"@, "audio/mpeg"@),
            ],
            ProviderKind::Cartesia => seq![
                ("X-API-Key"@, call.credential),
                ("Cartesia-Version"@, "2025-04-16"@),
                json_header(),
            ],
            _ => seq![bearer_header(call.credential), json_header()],
        },
    }
}

/// A field that holds a text.
pub open spec fn text_at(path: Seq<char>, value: Seq<char>) -> (Seq<char>, BodyValueView) {
    (path, BodyValueView::Text(value))
}

/// The body of a call: the fields that the provider takes, with the
/// settings that each is always given. A call that only asks has none.
pub open spec fn body_of(call: UpstreamCallView) -> Seq<(Seq<char>, BodyValueView)> {
    match call.kind {
        CallKind::Download | CallKind::Status => Seq::empty(),
        _ => match call.provider {
            ProviderKind::ElevenLabs => seq![
                text_at("text"@, call.text),
                text_at("model_id"@, "eleven_multilingual_v2"@),
                ("voice_settings.stability"@, BodyValueView::Tenths(5)),
                ("voice_settings.similarity_boost"@, BodyValueView::Tenths(8)),
                ("voice_settings.style"@, BodyValueView::Tenths(3)),
                ("voice_settings.use_speaker_boost"@, BodyValueView::Flag(true)),
            ],
            ProviderKind::OpenAi => seq![
                text_at("model"@, "gpt-4o-mini-tts"@),
                text_at("input"@, call.text),
                text_at("voice"@, call.voice),
                text_at("response_format"@, "mp3"@),
                text_at("instructions"@, call.instructions),
            ],
            ProviderKind::Cartesia => seq![
                text_at("model_id"@, "sonic-3"@),
                text_at("transcript"@, call.text),
                text_at("voice.mode"@, "id"@),
                text_at("voice.id"@, call.voice),
                text_at("language"@, "ja"@),
                text_at("output_format.container"@, "mp3"@),
                ("output_format.sample_rate"@, BodyValueView::Whole(44100)),
                ("output_format.bit_rate"@, BodyValueView::Whole(128000)),
            ],
            ProviderKind::Fish => seq![
                text_at("text"@, call.text),
                text_at("reference_id"@, call.voice),
                text_at("format"@, "mp3"@),
                text_at("latency"@, "normal"@),
            ],
            ProviderKind::AimlApi => seq![
                text_at("model"@, call.model),
                text_at("text"@, call.text),
                text_at("voice"@, call.voice),
                text_at("response_format"@, "mp3"@),
            ],
            ProviderKind::Venice => seq![
                text_at("model"@, "tts-kokoro"@),
                text_at("input"@, call.text),
                text_at("voice"@, call.voice),
                text_at("response_format"@, "mp3"@),
            ],
            ProviderKind::CosyVoice => seq![
                text_at("input.text"@, call.text),
                text_at("input.voice"@, call.voice),
                ("input.speed"@, BodyValueView::Tenths(10)),
            ],
            ProviderKind::QwenTts => seq![
                text_at("input.text"@, call.text),
                text_at("input.language"@, call.voice),
            ],
            ProviderKind::QwenOmni => seq![
                text_at("input.text"@, call.text),
                text_at("input.voice"@, call.voice),
                text_at("input.system_prompt"@, call.instructions),
            ],
        },
    }
}

/// The request that a call is written as.
pub open spec fn request_of(call: UpstreamCallView) -> HttpRequestView {
    HttpRequestView {
        method: method_of(call.kind),
        channel: channel_of(call.kind),
        url: call.url,
        headers: headers_of(call),
        body: body_of(call),
    }
}

/// One header.
fn header(name: &str, value: &str) -> (pair: (String, String))
    ensures
        pair.0@ == name@,
        pair.1@ == value@,
{
    (name.to_owned(), value.to_owned())
}

/// The header that authorises a bearer of `key`.
fn bearer(key: &str) -> (pair: (String, String))
    ensures
        (pair.0@, pair.1@) == bearer_header(key@),
{
    let mut value = "Bearer ".to_owned();
    value.append(key);
    ("Authorization".to_owned(), value)
}

/// A field that holds a text.
fn text_field(path: &str, value: &str) -> (field: BodyField)
    ensures
        (field.path@, field.value@) == text_at(path@, value@),
{
    BodyField { path: path.to_owned(), value: BodyValue::Text(value.to_owned()) }
}

/// A field that holds a value other than a text.
fn field(path: &str, value: BodyValue) -> (field: BodyField)
    ensures
        field.path@ == path@,
        field.value == value,
{
    BodyField { path: path.to_owned(), value }
}

/// The headers of a call.
pub fn build_headers(call: &UpstreamCall) -> (headers: Vec<(String, String)>)
    ensures
        headers_view(headers@) == headers_of(call@),
{
    let key = call.credential.as_str();
    let mut headers: Vec<(String, String)> = Vec::new();
    match call.kind {
        CallKind::Download => {},
        CallKind::Status => {
            headers.push(bearer(key));
        },
        _ => match call.provider {
            ProviderKind::ElevenLabs => {
                headers.push(header("xi-api-key", key));
                headers.push(header("content-type", "application/json"));
                headers.push(header("accept", "audio/mpeg"));
            },
            ProviderKind::Cartesia => {
                headers.push(header("X-API-Key", key));
                headers.push(header("Cartesia-Version", "2025-04-16"));
                headers.push(header("content-type", "application/json"));
            },
            _ => {
                headers.push(bearer(key));
                headers.push(header("content-type", "application/json"));
            },
        },
    }
    assert(headers_view(headers@) =~= headers_of(call@));
    headers
}

/// The body of a call.
pub fn build_body(call: &UpstreamCall) -> (body: Vec<BodyField>)
    ensures
        body_view(body@) == body_of(call@),
{
    let text = call.text.as_str();
    let voice = call.voice.as_str();
    let mut body: Vec<BodyField> = Vec::new();
    match call.kind {
        CallKind::Download | CallKind::Status => {},
        _ => match call.provider {
            ProviderKind::ElevenLabs => {
                body.push(text_field("text", text));
                body.push(text_field("model_id", "eleven_multilingual_v2"));
                body.push(field("voice_settings.stability", BodyValue::Tenths(5)));
                body.push(field("voice_settings.similarity_boost", BodyValue::Tenths(8)));
                body.push(field("voice_settings.style", BodyValue::Tenths(3)));
                body.push(field("voice_settings.use_speaker_boost", BodyValue::Flag(true)));
            },
            ProviderKind::OpenAi => {
                body.push(text_field("model", "gpt-4o-mini-tts"));
                body.push(text_field("input", text));
                body.push(text_field("voice", voice));
                body.push(text_field("response_format", "mp3"));
                body.push(text_field("instructions", call.instructions.as_str()));
            },
            ProviderKind::Cartesia => {
                body.push(text_field("model_id", "sonic-3"));
                body.push(text_field("transcript", text));
                body.push(text_field("voice.mode", "id"));
                body.push(text_field("voice.id", voice));
                body.push(text_field("language", "ja"));
                body.push(text_field("output_format.container", "mp3"));
                body.push(field("output_format.sample_rate", BodyValue::Whole(44100)));
                body.push(field("output_format.bit_rate", BodyValue::Whole(128000)));
            },
            ProviderKind::Fish => {
                body.push(text_field("text", text));
                body.push(text_field("reference_id", voice));
                body.push(text_field("format", "mp3"));
                body.push(text_field("latency", "normal"));
            },
            ProviderKind::AimlApi => {
                body.push(text_field("model", call.model.as_str()));
                body.push(text_field("text", text));
                body.push(text_field("voice", voice));
                body.push(text_field("response_format", "mp3"));
            },
            ProviderKind::Venice => {
                body.push(text_field("model", "tts-kokoro"));
                body.push(text_field("input", text));
                body.push(text_field("voice", voice));
                body.push(text_field("response_format", "mp3"));
            },
            ProviderKind::CosyVoice => {
                body.push(text_field("input.text", text));
                body.push(text_field("input.voice", voice));
                body.push(field("input.speed", BodyValue::Tenths(10)));
            },
            ProviderKind::QwenTts => {
                body.push(text_field("input.text", text));
                body.push(text_field("input.language", voice));
            },
            ProviderKind::QwenOmni => {
                body.push(text_field("input.text", text));
                body.push(text_field("input.voice", voice));
                body.push(text_field("input.system_prompt", call.instructions.as_str()));
            },
        },
    }
    assert(body_view(body@) =~= body_of(call@));
    body
}

/// Writes a call as an HTTP request.
pub fn encode_call(call: &UpstreamCall) -> (request: HttpRequest)
    ensures
        request@ == request_of(call@),
{
    let method = match call.kind {
        CallKind::Download | CallKind::Status => Method::Get,
        _ => Method::Post,
    };
    let channel = match call.kind {
        CallKind::RunSync | CallKind::Submit | CallKind::Status => Channel::Batch,
        _ => Channel::General,
    };
    HttpRequest {
        method,
        channel,
        url: call.url.clone(),
        headers: build_headers(call),
        body: build_body(call),
    }
}

/// The request that reads a provider's own listing of voices; `None` for
/// a provider that has no listing.
pub open spec fn listing_request_of(config: GatewayConfig, kind: ProviderKind) -> Option<
    HttpRequestView,
> {
    match kind {
        ProviderKind::ElevenLabs => Some(
            HttpRequestView {
                method: Method::Get,
                channel: Channel::General,
                url: "https://api.elevenlabs.io/v1/voices"@,
                headers: seq![("xi-api-key"@, credential_of(config, kind))],
                body: Seq::empty(),
            },
        ),
        ProviderKind::Cartesia => Some(
            HttpRequestView {
                method: Method::Get,
                channel: Channel::General,
                url: "https://api.cartesia.ai/voices"@,
                headers: seq![
                    ("X-API-Key"@, credential_of(config, kind)),
                    ("Cartesia-Version"@, "2025-04-16"@),
                ],
                body: Seq::empty(),
            },
        ),
        ProviderKind::Fish => Some(
            HttpRequestView {
                method: Method::Get,
                channel: Channel::General,
                url: "https://api.fish.audio/model?page_size=50&language=ja"@,
                headers: seq![bearer_header(credential_of(config, kind))],
                body: Seq::empty(),
            },
        ),
        _ => None,
    }
}

/// The request that reads the listing of voices of `kind`.
pub fn listing_request(config: &GatewayConfig, kind: ProviderKind) -> (request: Option<HttpRequest>)
    ensures
        match request {
            Some(r) => listing_request_of(*config, kind) == Some(r@),
            None => listing_request_of(*config, kind) is None,
        },
{
    let key = config.credential(kind);
    let mut headers: Vec<(String, String)> = Vec::new();
    let url = match kind {
        ProviderKind::ElevenLabs => {
            headers.push(header("xi-api-key", key));
            "https://api.elevenlabs.io/v1/voices"
        },
        ProviderKind::Cartesia => {
            headers.push(header("X-API-Key", key));
            headers.push(header("Cartesia-Version", "2025-04-16"));
            "https://api.cartesia.ai/voices"
        },
        ProviderKind::Fish => {
            headers.push(bearer(key));
            "https://api.fish.audio/model?page_size=50&language=ja"
        },
        _ => {
            return None;
        },
    };
    let request = HttpRequest {
        method: Method::Get,
        channel: Channel::General,
        url: url.to_owned(),
        headers,
        body: Vec::new(),
    };
    assert(request@.headers =~= listing_request_of(*config, kind)->0.headers);
    assert(request@.body =~= Seq::empty());
    Some(request)
}

} // verus!
