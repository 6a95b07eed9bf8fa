//! Provider adapters without I/O. An attempt on one provider is a short
//! exchange: the adapter names the call to make upstream, is handed the
//! reply, and names the next call or the outcome. The transport makes the
//! calls; nothing here retries.

use vstd::prelude::*;
use vstd::string::*;
use crate::codec::{base64_bytes, base64_decode};
use crate::json::{json_text_at, json_text_of};
use crate::poller::{
    is_pending, next_poll, read_status, reading_of, verdict_of, JobStatus, PollVerdict,
    StatusReading, MAX_POLL_ATTEMPTS, POLL_INTERVAL_SECS,
};
use crate::provider::{
    argument_of, configured, fallback_argument_of, fallback_voice_of, lemma_prefix_split,
    provider_of, resolve_voice, tag_of, GatewayConfig, ProviderKind,
};
use crate::text::{lemma_last_colon_unique, rsplit_once_colon, split_at_last_colon, strip_prefix};

verus! {

/// Why an attempt on a provider failed.
#[derive(Debug, Clone, PartialEq, Eq)]
pub enum AdapterError {
    /// A credential or an endpoint identifier that the provider needs is
    /// empty. No call was made.
    NotConfigured,
    /// The call did not get through.
    Transport,
    /// The provider answered with a status outside the 200s.
    Upstream { status: u16, body: Vec<u8> },
    /// The reply is not of the shape that the protocol gives it.
    Decode,
    /// The job was run and failed upstream.
    JobFailed { reason: String },
    /// The reply names a job status that the protocol does not know, or one
    /// that cannot stand where it stands.
    UnknownStatus { status: String },
    /// The job was still pending when the last poll was answered.
    PollTimeout,
}

/// An `AdapterError` as a plain value.
pub ghost enum AdapterErrorView {
    NotConfigured,
    Transport,
    Upstream { status: u16, body: Seq<u8> },
    Decode,
    JobFailed { reason: Seq<char> },
    UnknownStatus { status: Seq<char> },
    PollTimeout,
}

impl View for AdapterError {
    type V = AdapterErrorView;

    open spec fn view(&self) -> AdapterErrorView {
        match *self {
            AdapterError::NotConfigured => AdapterErrorView::NotConfigured,
            AdapterError::Transport => AdapterErrorView::Transport,
            AdapterError::Upstream { status, body } => AdapterErrorView::Upstream {
                status,
                body: body@,
            },
            AdapterError::Decode => AdapterErrorView::Decode,
            AdapterError::JobFailed { reason } => AdapterErrorView::JobFailed { reason: reason@ },
            AdapterError::UnknownStatus { status } => AdapterErrorView::UnknownStatus {
                status: status@,
            },
            AdapterError::PollTimeout => AdapterErrorView::PollTimeout,
        }
    }
}

/// The kinds of call that an adapter makes.
#[derive(Debug, Clone, Copy, PartialEq, Eq)]
pub enum CallKind {
    /// Post a text, get audio or a locator of audio back.
    Speech,
    /// Get the audio that a locator points at.
    Download,
    /// Post a job and wait for its result in the same call.
    RunSync,
    /// Post a job to be polled.
    Submit,
    /// Get the status of a posted job.
    Status,
}

/// One call upstream. The transport turns it into a request: the kind and
/// the provider fix the method, the headers and the layout of the body.
#[derive(Debug, Clone, PartialEq, Eq)]
pub struct UpstreamCall {
    pub kind: CallKind,
    pub provider: ProviderKind,
    /// Where the call goes.
    pub url: String,
    /// The key that authorises it; empty for a download.
    pub credential: String,
    /// The model to speak with, where the voice identifier names one.
    pub model: String,
    /// The voice, the reference or the language, as the provider takes it.
    pub voice: String,
    /// The text to speak; empty where the call posts none.
    pub text: String,
    /// How to speak it, for a provider that takes such a direction; empty
    /// otherwise.
    pub instructions: String,
}

/// An `UpstreamCall` as a plain value.
pub ghost struct UpstreamCallView {
    pub kind: CallKind,
    pub provider: ProviderKind,
    pub url: Seq<char>,
    pub credential: Seq<char>,
    pub model: Seq<char>,
    pub voice: Seq<char>,
    pub text: Seq<char>,
    pub instructions: Seq<char>,
}

impl View for UpstreamCall {
    type V = UpstreamCallView;

    open spec fn view(&self) -> UpstreamCallView {
        UpstreamCallView {
            kind: self.kind,
            provider: self.provider,
            url: self.url@,
            credential: self.credential@,
            model: self.model@,
            voice: self.voice@,
            text: self.text@,
            instructions: self.instructions@,
        }
    }
}

/// What came back from a call.
#[derive(Debug, Clone, PartialEq, Eq)]
pub enum UpstreamReply {
    /// Nothing: the call did not get through.
    Transport,
    /// A response with its status and body.
    Response { status: u16, body: Vec<u8> },
}

/// An `UpstreamReply` as a plain value.
pub ghost enum UpstreamReplyView {
    Transport,
    Response { status: u16, body: Seq<u8> },
}

impl View for UpstreamReply {
    type V = UpstreamReplyView;

    open spec fn view(&self) -> UpstreamReplyView {
        match *self {
            UpstreamReply::Transport => UpstreamReplyView::Transport,
            UpstreamReply::Response { status, body } => UpstreamReplyView::Response {
                status,
                body: body@,
            },
        }
    }
}

/// Where an exchange stands: the reply that it waits for.
#[derive(Debug, Clone, PartialEq, Eq)]
pub enum AdapterState {
    /// Audio in the body.
    AwaitSpeech,
    /// A document that holds the locator of the audio.
    AwaitLocator,
    /// The audio that the locator points at.
    AwaitDownload,
    /// The result of a job that was run in the call.
    AwaitRunSync,
    /// The identifier of a submitted job.
    AwaitSubmit,
    /// The status of the job, after `polls_done` answered polls.
    Polling { job_id: String, polls_done: u32 },
}

/// An `AdapterState` as a plain value.
pub ghost enum AdapterStateView {
    AwaitSpeech,
    AwaitLocator,
    AwaitDownload,
    AwaitRunSync,
    AwaitSubmit,
    Polling { job_id: Seq<char>, polls_done: u32 },
}

impl View for AdapterState {
    type V = AdapterStateView;

    open spec fn view(&self) -> AdapterStateView {
        match *self {
            AdapterState::AwaitSpeech => AdapterStateView::AwaitSpeech,
            AdapterState::AwaitLocator => AdapterStateView::AwaitLocator,
            AdapterState::AwaitDownload => AdapterStateView::AwaitDownload,
            AdapterState::AwaitRunSync => AdapterStateView::AwaitRunSync,
            AdapterState::AwaitSubmit => AdapterStateView::AwaitSubmit,
            AdapterState::Polling { job_id, polls_done } => AdapterStateView::Polling {
                job_id: job_id@,
                polls_done,
            },
        }
    }
}

/// What the transport does next.
#[derive(Debug, Clone, PartialEq, Eq)]
pub enum AdapterStep {
    /// Wait `delay_secs` seconds, make `call`, and come back with the reply
    /// and `state`.
    Send { delay_secs: u64, call: UpstreamCall, state: AdapterState },
    /// The attempt is over: this is the audio.
    Delivered { audio: Vec<u8> },
    /// The attempt is over: it failed.
    Failed { error: AdapterError },
}

/// An `AdapterStep` as a plain value.
pub ghost enum AdapterStepView {
    Send { delay_secs: u64, call: UpstreamCallView, state: AdapterStateView },
    Delivered { audio: Seq<u8> },
    Failed { error: AdapterErrorView },
}

/// The step that ends an attempt with `result`.
pub open spec fn done_of(result: Result<Seq<u8>, AdapterErrorView>) -> AdapterStepView {
    match result {
        Ok(audio) => AdapterStepView::Delivered { audio },
        Err(error) => AdapterStepView::Failed { error },
    }
}

impl View for AdapterStep {
    type V = AdapterStepView;

    open spec fn view(&self) -> AdapterStepView {
        match *self {
            AdapterStep::Send { delay_secs, call, state } => AdapterStepView::Send {
                delay_secs,
                call: call@,
                state: state@,
            },
            AdapterStep::Delivered { audio } => AdapterStepView::Delivered { audio: audio@ },
            AdapterStep::Failed { error } => AdapterStepView::Failed { error: error@ },
        }
    }
}

/// The strings that an adapter reads of a JSON reply.
#[derive(Debug, Clone, PartialEq, Eq)]
pub struct ReplyFields {
    pub status: Option<String>,
    pub audio_base64: Option<String>,
    pub error: Option<String>,
    pub id: Option<String>,
    pub audio_url: Option<String>,
}

/// `ReplyFields` as a plain value.
pub ghost struct ReplyFieldsView {
    pub status: Option<Seq<char>>,
    pub audio_base64: Option<Seq<char>>,
    pub error: Option<Seq<char>>,
    pub id: Option<Seq<char>>,
    pub audio_url: Option<Seq<char>>,
}

/// An optional string as a plain value.
pub open spec fn text_of(field: Option<String>) -> Option<Seq<char>> {
    match field {
        Some(s) => Some(s@),
        None => None,
    }
}

impl View for ReplyFields {
    type V = ReplyFieldsView;

    open spec fn view(&self) -> ReplyFieldsView {
        ReplyFieldsView {
            status: text_of(self.status),
            audio_base64: text_of(self.audio_base64),
            error: text_of(self.error),
            id: text_of(self.id),
            audio_url: text_of(self.audio_url),
        }
    }
}

/// The fields of a reply in which nothing was found.
pub open spec fn no_fields() -> ReplyFieldsView {
    ReplyFieldsView { status: None, audio_base64: None, error: None, id: None, audio_url: None }
}

/// The fields that a JSON reply holds, each at its place in the document.
pub open spec fn fields_of(body: Seq<u8>) -> ReplyFieldsView {
    ReplyFieldsView {
        status: json_text_of(body, "/status"@),
        audio_base64: json_text_of(body, "/output/audio_base64"@),
        error: json_text_of(body, "/error"@),
        id: json_text_of(body, "/id"@),
        audio_url: json_text_of(body, "/audio/url"@),
    }
}

/// The credential that a provider's calls carry.
pub open spec fn credential_of(config: GatewayConfig, kind: ProviderKind) -> Seq<char> {
    match kind {
        ProviderKind::ElevenLabs => config.elevenlabs_api_key@,
        ProviderKind::OpenAi => config.openai_api_key@,
        ProviderKind::Cartesia => config.cartesia_api_key@,
        ProviderKind::Fish => config.fish_audio_api_key@,
        ProviderKind::AimlApi => config.aimlapi_key@,
        ProviderKind::Venice => config.venice_api_key@,
        _ => config.runpod_api_key@,
    }
}

/// The identifier of the rented endpoint that a batch provider runs on.
pub open spec fn endpoint_of(config: GatewayConfig, kind: ProviderKind) -> Seq<char> {
    match kind {
        ProviderKind::CosyVoice => config.cosyvoice_endpoint_id@,
        ProviderKind::QwenTts => config.qwen_tts_endpoint_id@,
        _ => config.qwen_omni_endpoint_id@,
    }
}

/// The model that the locator provider speaks with where the voice
/// identifier names none.
pub open spec fn default_model() -> Seq<char> {
    "openai/gpt-4o-mini-tts"@
}

/// The model and the voice that the locator provider is asked for: what
/// stands before and behind the last colon of the argument, the default
/// model and the whole argument where it holds no colon.
pub open spec fn model_and_voice_of(argument: Seq<char>) -> (Seq<char>, Seq<char>) {
    match split_at_last_colon(argument) {
        Some(parts) => parts,
        None => (default_model(), argument),
    }
}

/// Where the first call of an attempt goes.
pub open spec fn first_url_of(config: GatewayConfig, kind: ProviderKind, argument: Seq<char>) -> Seq<
    char,
> {
    match kind {
        ProviderKind::ElevenLabs => "https://api.elevenlabs.io/v1/text-to-speech/"@ + argument,
        ProviderKind::OpenAi => "https://api.openai.com/v1/audio/speech"@,
        ProviderKind::Cartesia => "https://api.cartesia.ai/tts/bytes"@,
        ProviderKind::Fish => "https://api.fish.audio/v1/tts"@,
        ProviderKind::AimlApi => "https://api.aimlapi.com/v1/tts"@,
        ProviderKind::Venice => "https://api.venice.ai/api/v1/audio/speech"@,
        ProviderKind::QwenOmni => "https://api.runpod.ai/v2/"@ + endpoint_of(config, kind) + "/run"@,
        _ => "https://api.runpod.ai/v2/"@ + endpoint_of(config, kind) + "/runsync"@,
    }
}

/// The kind of the first call of an attempt.
pub open spec fn first_kind_of(kind: ProviderKind) -> CallKind {
    match kind {
        ProviderKind::CosyVoice | ProviderKind::QwenTts => CallKind::RunSync,
        ProviderKind::QwenOmni => CallKind::Submit,
        _ => CallKind::Speech,
    }
}

/// The reply that an attempt waits for after its first call.
pub open spec fn first_state_of(kind: ProviderKind) -> AdapterStateView {
    match kind {
        ProviderKind::AimlApi => AdapterStateView::AwaitLocator,
        ProviderKind::CosyVoice | ProviderKind::QwenTts => AdapterStateView::AwaitRunSync,
        ProviderKind::QwenOmni => AdapterStateView::AwaitSubmit,
        _ => AdapterStateView::AwaitSpeech,
    }
}

/// How a newsreader speaks, as the first speech provider is told.
pub const NEWSREADER_INSTRUCTIONS: &'static str =
    "あなたはプロの日本語ニュースキャスターです。以下のルールで自然に読み上げてください：\n- 人間が話すような自然な抑揚とリズムで読む\n- 句読点では適切な間を取る\n- 重要なキーワードは少し強調する\n- 機械的な棒読みは絶対に避け、聞き手に語りかけるように話す\n- 固有名詞や数字は正確にはっきり発音する";

/// How a newsreader speaks, as the polled batch provider is told.
pub const NEWSREADER_PROMPT: &'static str =
    "あなたはプロの日本語ニュースキャスターです。自然な会話調で、親しみやすく明るいトーンで読み上げてください。";

/// The direction that a provider is given for reading news: two providers
/// take one, the others none.
pub open spec fn reading_instructions_of(kind: ProviderKind) -> Seq<char> {
    match kind {
        ProviderKind::OpenAi => NEWSREADER_INSTRUCTIONS@,
        ProviderKind::QwenOmni => NEWSREADER_PROMPT@,
        _ => Seq::empty(),
    }
}

/// The first call of an attempt on `kind` with the rest of the voice
/// identifier, the text to speak and the direction for speaking it.
pub open spec fn call_of(
    config: GatewayConfig,
    kind: ProviderKind,
    argument: Seq<char>,
    text: Seq<char>,
    instructions: Seq<char>,
) -> UpstreamCallView {
    UpstreamCallView {
        kind: first_kind_of(kind),
        provider: kind,
        url: first_url_of(config, kind, argument),
        credential: credential_of(config, kind),
        model: if kind == ProviderKind::AimlApi {
            model_and_voice_of(argument).0
        } else {
            Seq::empty()
        },
        voice: if kind == ProviderKind::AimlApi {
            model_and_voice_of(argument).1
        } else {
            argument
        },
        text,
        instructions,
    }
}

/// The first call of an attempt to read news with `kind`.
pub open spec fn first_call_of(
    config: GatewayConfig,
    kind: ProviderKind,
    argument: Seq<char>,
    text: Seq<char>,
) -> UpstreamCallView {
    call_of(config, kind, argument, text, reading_instructions_of(kind))
}

/// The call that gets the audio at `url`.
pub open spec fn download_call_of(url: Seq<char>) -> UpstreamCallView {
    UpstreamCallView {
        kind: CallKind::Download,
        provider: ProviderKind::AimlApi,
        url,
        credential: Seq::empty(),
        model: Seq::empty(),
        voice: Seq::empty(),
        text: Seq::empty(),
        instructions: Seq::empty(),
    }
}

/// The call that asks for the status of the job `job_id`.
pub open spec fn status_call_of(config: GatewayConfig, job_id: Seq<char>) -> UpstreamCallView {
    UpstreamCallView {
        kind: CallKind::Status,
        provider: ProviderKind::QwenOmni,
        url: "https://api.runpod.ai/v2/"@ + config.qwen_omni_endpoint_id@ + "/status/"@ + job_id,
        credential: config.runpod_api_key@,
        model: Seq::empty(),
        voice: Seq::empty(),
        text: Seq::empty(),
        instructions: Seq::empty(),
    }
}

/// What a given provider is handed of a voice identifier: the identifier
/// without the provider's tag where it starts with it, the whole
/// identifier otherwise.
pub open spec fn argument_for(kind: ProviderKind, voice_id: Seq<char>) -> Seq<char> {
    if tag_of(kind).is_prefix_of(voice_id) {
        voice_id.skip(tag_of(kind).len() as int)
    } else {
        voice_id
    }
}

/// How an attempt on `kind` starts: with no call at all where the provider
/// is not configured, with its first call otherwise. The call goes to
/// `kind`, whatever provider the voice identifier would select by itself.
pub open spec fn begin_on_of(
    config: GatewayConfig,
    kind: ProviderKind,
    voice_id: Seq<char>,
    text: Seq<char>,
) -> AdapterStepView {
    if !configured(config, kind) {
        AdapterStepView::Failed { error: AdapterErrorView::NotConfigured }
    } else {
        AdapterStepView::Send {
            delay_secs: 0,
            call: first_call_of(config, kind, argument_for(kind, voice_id), text),
            state: first_state_of(kind),
        }
    }
}

/// How an attempt on the provider of `voice_id` starts: with no call at all
/// where the provider is not configured, with its first call otherwise.
pub open spec fn begin_of(config: GatewayConfig, voice_id: Seq<char>, text: Seq<char>) -> AdapterStepView {
    let kind = provider_of(voice_id);
    if !configured(config, kind) {
        AdapterStepView::Failed { error: AdapterErrorView::NotConfigured }
    } else {
        AdapterStepView::Send {
            delay_secs: 0,
            call: first_call_of(config, kind, argument_of(voice_id), text),
            state: first_state_of(kind),
        }
    }
}

/// An attempt on the provider that a voice identifier selects is the
/// attempt with that identifier.
pub proof fn lemma_begin_on_selected(config: GatewayConfig, voice_id: Seq<char>, text: Seq<char>)
    ensures
        begin_on_of(config, provider_of(voice_id), voice_id, text) == begin_of(
            config,
            voice_id,
            text,
        ),
{
    reveal_strlit("");
    assert(""@.is_prefix_of(voice_id)) by {
        assert(voice_id.subrange(0, 0) =~= ""@);
    }
}

/// An alternate that is asked for its own voice is handed what the
/// configuration gives it, and the call goes to the alternate.
pub proof fn lemma_begin_on_alternate(config: GatewayConfig, kind: ProviderKind, text: Seq<char>)
    requires
        configured(config, kind),
    ensures
        begin_on_of(config, kind, fallback_voice_of(config, kind), text) == (
            AdapterStepView::Send {
                delay_secs: 0,
                call: first_call_of(config, kind, fallback_argument_of(config, kind), text),
                state: first_state_of(kind),
            }
        ),
        first_call_of(config, kind, fallback_argument_of(config, kind), text).provider == kind,
{
    lemma_prefix_split(
        fallback_voice_of(config, kind),
        tag_of(kind),
        fallback_argument_of(config, kind),
    );
}

/// Whether a status is one of the 200s.
pub open spec fn is_success(status: u16) -> bool {
    200 <= status < 300
}

/// The audio that the output of a job holds: the bytes that its Base64 text
/// stands for. A missing or empty text, or one that is no Base64, is a reply
/// of the wrong shape.
pub open spec fn audio_of(field: Option<Seq<char>>) -> Result<Seq<u8>, AdapterErrorView> {
    match field {
        None => Err(AdapterErrorView::Decode),
        Some(t) => if t.len() == 0 {
            Err(AdapterErrorView::Decode)
        } else {
            match base64_bytes(t) {
                Some(bytes) => Ok(bytes),
                None => Err(AdapterErrorView::Decode),
            }
        },
    }
}

/// The reason that a failed job gives, `unknown` where it gives none.
pub open spec fn reason_of(error: Option<Seq<char>>) -> Seq<char> {
    match error {
        Some(e) => e,
        None => "unknown"@,
    }
}

/// The status that a reply names, empty where it names none.
pub open spec fn status_text_of(status: Option<Seq<char>>) -> Seq<char> {
    match status {
        Some(s) => s,
        None => Seq::empty(),
    }
}

/// The outcome of a job by the verdict on its status: its audio where it is
/// finished, the error that the verdict stands for otherwise. `Again` has no
/// outcome; it is given the poller's own error here and never asked for.
pub open spec fn job_outcome_of(verdict: PollVerdict, fields: ReplyFieldsView) -> Result<
    Seq<u8>,
    AdapterErrorView,
> {
    match verdict {
        PollVerdict::Finished => audio_of(fields.audio_base64),
        PollVerdict::JobFailed => Err(AdapterErrorView::JobFailed { reason: reason_of(fields.error) }),
        PollVerdict::Unrecognized => Err(
            AdapterErrorView::UnknownStatus { status: status_text_of(fields.status) },
        ),
        PollVerdict::Missing => Err(AdapterErrorView::Decode),
        _ => Err(AdapterErrorView::PollTimeout),
    }
}

/// The verdict on a job that was run within one call: a status that leaves
/// it pending cannot stand there, and counts as one that the protocol does
/// not know.
pub open spec fn runsync_verdict_of(reading: StatusReading) -> PollVerdict {
    match reading {
        StatusReading::Known(JobStatus::Completed) => PollVerdict::Finished,
        StatusReading::Known(JobStatus::Failed) => PollVerdict::JobFailed,
        StatusReading::Known(_) => PollVerdict::Unrecognized,
        StatusReading::Unrecognized => PollVerdict::Unrecognized,
        StatusReading::Missing => PollVerdict::Missing,
    }
}

/// How an exchange goes on from `state` once `reply` is in, `fields` being
/// what was read of the reply's document.
///
/// A call that did not get through ends the attempt. So does a status
/// outside the 200s, except on a poll, whose document decides alone.
pub open spec fn advance_of(
    config: GatewayConfig,
    state: AdapterStateView,
    reply: UpstreamReplyView,
    fields: ReplyFieldsView,
) -> AdapterStepView {
    match reply {
        UpstreamReplyView::Transport => AdapterStepView::Failed {
            error: AdapterErrorView::Transport,
        },
        UpstreamReplyView::Response { status, body } => {
            if !is_success(status) && !(state is Polling) {
                AdapterStepView::Failed { error: AdapterErrorView::Upstream { status, body } }
            } else {
                match state {
                    AdapterStateView::AwaitSpeech => AdapterStepView::Delivered { audio: body },
                    AdapterStateView::AwaitDownload => AdapterStepView::Delivered { audio: body },
                    AdapterStateView::AwaitLocator => match fields.audio_url {
                        Some(url) => AdapterStepView::Send {
                            delay_secs: 0,
                            call: download_call_of(url),
                            state: AdapterStateView::AwaitDownload,
                        },
                        None => AdapterStepView::Failed { error: AdapterErrorView::Decode },
                    },
                    AdapterStateView::AwaitRunSync => done_of(
                        job_outcome_of(runsync_verdict_of(reading_of(fields.status)), fields),
                    ),
                    AdapterStateView::AwaitSubmit => match fields.id {
                        Some(job_id) => AdapterStepView::Send {
                            delay_secs: POLL_INTERVAL_SECS,
                            call: status_call_of(config, job_id),
                            state: AdapterStateView::Polling { job_id, polls_done: 0 },
                        },
                        None => AdapterStepView::Failed { error: AdapterErrorView::Decode },
                    },
                    AdapterStateView::Polling { job_id, polls_done } => {
                        let verdict = verdict_of(polls_done as int, reading_of(fields.status));
                        if verdict == PollVerdict::Again {
                            AdapterStepView::Send {
                                delay_secs: POLL_INTERVAL_SECS,
                                call: status_call_of(config, job_id),
                                state: AdapterStateView::Polling {
                                    job_id,
                                    polls_done: (polls_done + 1) as u32,
                                },
                            }
                        } else {
                            done_of(job_outcome_of(verdict, fields))
                        }
                    },
                }
            }
        },
    }
}

/// A poll that finds the job pending is followed by the next poll, after
/// the interval, as long as the ceiling is not reached; the poll that
/// reaches the ceiling ends the attempt with the poller's timeout. The
/// count of polls goes up by one with each, so that no attempt polls more
/// often than the ceiling allows.
pub proof fn lemma_pending_poll(
    config: GatewayConfig,
    job_id: Seq<char>,
    polls_done: u32,
    status: u16,
    body: Seq<u8>,
    fields: ReplyFieldsView,
)
    requires
        is_pending(reading_of(fields.status)),
    ensures
        advance_of(
            config,
            AdapterStateView::Polling { job_id, polls_done },
            UpstreamReplyView::Response { status, body },
            fields,
        ) == if polls_done + 1 < MAX_POLL_ATTEMPTS {
            AdapterStepView::Send {
                delay_secs: POLL_INTERVAL_SECS,
                call: status_call_of(config, job_id),
                state: AdapterStateView::Polling { job_id, polls_done: (polls_done + 1) as u32 },
            }
        } else {
            AdapterStepView::Failed { error: AdapterErrorView::PollTimeout }
        },
{
}

/// Whether the reply that a state waits for is a JSON document.
pub open spec fn expects_document(state: AdapterStateView) -> bool {
    !(state is AwaitSpeech || state is AwaitDownload)
}

/// What is read of a reply in a state: the fields of its document where
/// the state waits for one and a response came, nothing otherwise.
pub open spec fn fields_for(state: AdapterStateView, reply: UpstreamReplyView) -> ReplyFieldsView {
    match reply {
        UpstreamReplyView::Response { status, body } => if expects_document(state) {
            fields_of(body)
        } else {
            no_fields()
        },
        UpstreamReplyView::Transport => no_fields(),
    }
}

impl GatewayConfig {
    /// The credential that the calls of `kind` carry.
    pub fn credential(&self, kind: ProviderKind) -> (key: &str)
        ensures
            key@ == credential_of(*self, kind),
    {
        match kind {
            ProviderKind::ElevenLabs => self.elevenlabs_api_key.as_str(),
            ProviderKind::OpenAi => self.openai_api_key.as_str(),
            ProviderKind::Cartesia => self.cartesia_api_key.as_str(),
            ProviderKind::Fish => self.fish_audio_api_key.as_str(),
            ProviderKind::AimlApi => self.aimlapi_key.as_str(),
            ProviderKind::Venice => self.venice_api_key.as_str(),
            _ => self.runpod_api_key.as_str(),
        }
    }

    /// The identifier of the rented endpoint that the batch provider `kind`
    /// runs on.
    pub fn endpoint(&self, kind: ProviderKind) -> (id: &str)
        ensures
            id@ == endpoint_of(*self, kind),
    {
        match kind {
            ProviderKind::CosyVoice => self.cosyvoice_endpoint_id.as_str(),
            ProviderKind::QwenTts => self.qwen_tts_endpoint_id.as_str(),
            _ => self.qwen_omni_endpoint_id.as_str(),
        }
    }
}

/// Whether `status` is one of the 200s.
pub fn status_is_success(status: u16) -> (yes: bool)
    ensures
        yes == is_success(status),
{
    200 <= status && status < 300
}

/// The audio that the output of a job holds in its Base64 field.
pub fn job_audio(field: Option<&str>) -> (res: Result<Vec<u8>, AdapterError>)
    ensures
        match res {
            Ok(audio) => audio_of(
                match field {
                    Some(t) => Some(t@),
                    None => None,
                },
            ) == Ok::<Seq<u8>, AdapterErrorView>(audio@),
            Err(e) => e == AdapterError::Decode && audio_of(
                match field {
                    Some(t) => Some(t@),
                    None => None,
                },
            ) == Err::<Seq<u8>, AdapterErrorView>(AdapterErrorView::Decode),
        },
{
    match field {
        None => Err(AdapterError::Decode),
        Some(text) => {
            if text.is_empty() {
                Err(AdapterError::Decode)
            } else {
                match base64_decode(text) {
                    Ok(audio) => Ok(audio),
                    Err(_) => Err(AdapterError::Decode),
                }
            }
        },
    }
}

/// Reads of a JSON reply the strings that an adapter asks for.
pub fn read_fields(body: &[u8]) -> (fields: ReplyFields)
    ensures
        fields@ == fields_of(body@),
{
    ReplyFields {
        status: json_text_at(body, "/status"),
        audio_base64: json_text_at(body, "/output/audio_base64"),
        error: json_text_at(body, "/error"),
        id: json_text_at(body, "/id"),
        audio_url: json_text_at(body, "/audio/url"),
    }
}

/// The call that asks for the status of the job `job_id`.
fn status_call(config: &GatewayConfig, job_id: &str) -> (call: UpstreamCall)
    ensures
        call@ == status_call_of(*config, job_id@),
{
    let mut url = "https://api.runpod.ai/v2/".to_owned();
    url.append(config.qwen_omni_endpoint_id.as_str());
    url.append("/status/");
    url.append(job_id);
    UpstreamCall {
        kind: CallKind::Status,
        provider: ProviderKind::QwenOmni,
        url,
        credential: config.runpod_api_key.clone(),
        model: String::new(),
        voice: String::new(),
        text: String::new(),
        instructions: String::new(),
    }
}

/// The direction that `kind` is given for reading news.
pub fn reading_instructions(kind: ProviderKind) -> (instructions: &'static str)
    ensures
        instructions@ == reading_instructions_of(kind),
{
    match kind {
        ProviderKind::OpenAi => NEWSREADER_INSTRUCTIONS,
        ProviderKind::QwenOmni => NEWSREADER_PROMPT,
        _ => {
            proof {
                reveal_strlit("");
            }
            let none = "";
            assert(none@ =~= Seq::<char>::empty());
            none
        },
    }
}

/// The first call of an attempt on `kind`.
pub fn build_call(
    config: &GatewayConfig,
    kind: ProviderKind,
    argument: &str,
    text: &str,
    instructions: &str,
) -> (call: UpstreamCall)
    ensures
        call@ == call_of(*config, kind, argument@, text@, instructions@),
{
    let url = match kind {
        ProviderKind::ElevenLabs => {
            let mut url = "https://api.elevenlabs.io/v1/text-to-speech/".to_owned();
            url.append(argument);
            url
        },
        ProviderKind::OpenAi => "https://api.openai.com/v1/audio/speech".to_owned(),
        ProviderKind::Cartesia => "https://api.cartesia.ai/tts/bytes".to_owned(),
        ProviderKind::Fish => "https://api.fish.audio/v1/tts".to_owned(),
        ProviderKind::AimlApi => "https://api.aimlapi.com/v1/tts".to_owned(),
        ProviderKind::Venice => "https://api.venice.ai/api/v1/audio/speech".to_owned(),
        ProviderKind::QwenOmni => {
            let mut url = "https://api.runpod.ai/v2/".to_owned();
            url.append(config.endpoint(kind));
            url.append("/run");
            url
        },
        _ => {
            let mut url = "https://api.runpod.ai/v2/".to_owned();
            url.append(config.endpoint(kind));
            url.append("/runsync");
            url
        },
    };
    let call_kind = match kind {
        ProviderKind::CosyVoice | ProviderKind::QwenTts => CallKind::RunSync,
        ProviderKind::QwenOmni => CallKind::Submit,
        _ => CallKind::Speech,
    };
    let (model, voice) = match kind {
        ProviderKind::AimlApi => match rsplit_once_colon(argument) {
            Some((model, voice)) => {
                proof {
                    lemma_last_colon_unique(argument@, model@, voice@);
                }
                (model.to_owned(), voice.to_owned())
            },
            None => ("openai/gpt-4o-mini-tts".to_owned(), argument.to_owned()),
        },
        _ => (String::new(), argument.to_owned()),
    };
    UpstreamCall {
        kind: call_kind,
        provider: kind,
        url,
        credential: config.credential(kind).to_owned(),
        model,
        voice,
        text: text.to_owned(),
        instructions: instructions.to_owned(),
    }
}

/// The reply that an attempt on `kind` waits for after its first call.
pub fn first_state(kind: ProviderKind) -> (state: AdapterState)
    ensures
        state@ == first_state_of(kind),
{
    match kind {
        ProviderKind::AimlApi => AdapterState::AwaitLocator,
        ProviderKind::CosyVoice | ProviderKind::QwenTts => AdapterState::AwaitRunSync,
        ProviderKind::QwenOmni => AdapterState::AwaitSubmit,
        _ => AdapterState::AwaitSpeech,
    }
}

/// Starts an attempt to speak `text` on `kind` with `voice_id`: names the
/// first call, or fails at once where `kind` is not configured.
pub fn begin_attempt_on(config: &GatewayConfig, kind: ProviderKind, voice_id: &str, text: &str) -> (step:
    AdapterStep)
    ensures
        step@ == begin_on_of(*config, kind, voice_id@, text@),
{
    if !config.is_configured(kind) {
        return AdapterStep::Failed { error: AdapterError::NotConfigured };
    }
    let argument = match strip_prefix(voice_id, kind.tag()) {
        Some(rest) => {
            proof {
                lemma_prefix_split(voice_id@, tag_of(kind), rest@);
            }
            rest
        },
        None => voice_id,
    };
    AdapterStep::Send {
        delay_secs: 0,
        call: build_call(config, kind, argument, text, reading_instructions(kind)),
        state: first_state(kind),
    }
}

/// Starts an attempt to speak `text` with `voice_id`: names the first call,
/// or fails at once where the provider of the voice is not configured.
pub fn begin_attempt(config: &GatewayConfig, voice_id: &str, text: &str) -> (step: AdapterStep)
    ensures
        step@ == begin_of(*config, voice_id@, text@),
{
    let choice = resolve_voice(voice_id);
    if !config.is_configured(choice.provider) {
        return AdapterStep::Failed { error: AdapterError::NotConfigured };
    }
    let state = first_state(choice.provider);
    AdapterStep::Send {
        delay_secs: 0,
        call: build_call(
            config,
            choice.provider,
            choice.argument,
            text,
            reading_instructions(choice.provider),
        ),
        state,
    }
}

/// Ends an attempt on a job by the verdict on its status.
fn job_outcome(verdict: PollVerdict, fields: ReplyFields) -> (step: AdapterStep)
    requires
        verdict != PollVerdict::Again,
    ensures
        step@ == done_of(job_outcome_of(verdict, fields@)),
{
    match verdict {
        PollVerdict::Finished => {
            let field = match &fields.audio_base64 {
                Some(t) => Some(t.as_str()),
                None => None,
            };
            match job_audio(field) {
                Ok(audio) => AdapterStep::Delivered { audio },
                Err(error) => AdapterStep::Failed { error },
            }
        },
        PollVerdict::JobFailed => {
            let reason = match fields.error {
                Some(e) => e,
                None => "unknown".to_owned(),
            };
            AdapterStep::Failed { error: AdapterError::JobFailed { reason } }
        },
        PollVerdict::Unrecognized => {
            let status = match fields.status {
                Some(s) => s,
                None => String::new(),
            };
            AdapterStep::Failed { error: AdapterError::UnknownStatus { status } }
        },
        PollVerdict::Missing => AdapterStep::Failed { error: AdapterError::Decode },
        _ => AdapterStep::Failed { error: AdapterError::PollTimeout },
    }
}

/// The status field of a reply, borrowed.
fn status_field(fields: &ReplyFields) -> (status: Option<&str>)
    ensures
        match status {
            Some(s) => fields@.status == Some(s@),
            None => fields@.status is None,
        },
{
    match &fields.status {
        Some(s) => Some(s.as_str()),
        None => None,
    }
}

/// Goes on with an exchange: `state` is where it stood, `reply` what came
/// back, `fields` what was read of the reply's document.
pub fn advance(config: &GatewayConfig, state: AdapterState, reply: UpstreamReply, fields: ReplyFields) -> (step:
    AdapterStep)
    ensures
        step@ == advance_of(*config, state@, reply@, fields@),
{
    let (status, body) = match reply {
        UpstreamReply::Transport => {
            return AdapterStep::Failed { error: AdapterError::Transport };
        },
        UpstreamReply::Response { status, body } => (status, body),
    };
    let polling = match &state {
        AdapterState::Polling { .. } => true,
        _ => false,
    };
    if !status_is_success(status) && !polling {
        return AdapterStep::Failed { error: AdapterError::Upstream { status, body } };
    }
    match state {
        AdapterState::AwaitSpeech => AdapterStep::Delivered { audio: body },
        AdapterState::AwaitDownload => AdapterStep::Delivered { audio: body },
        AdapterState::AwaitLocator => match fields.audio_url {
            Some(url) => AdapterStep::Send {
                delay_secs: 0,
                call: UpstreamCall {
                    kind: CallKind::Download,
                    provider: ProviderKind::AimlApi,
                    url,
                    credential: String::new(),
                    model: String::new(),
                    voice: String::new(),
                    text: String::new(),
                    instructions: String::new(),
                },
                state: AdapterState::AwaitDownload,
            },
            None => AdapterStep::Failed { error: AdapterError::Decode },
        },
        AdapterState::AwaitRunSync => {
            let verdict = match read_status(status_field(&fields)) {
                StatusReading::Known(JobStatus::Completed) => PollVerdict::Finished,
                StatusReading::Known(JobStatus::Failed) => PollVerdict::JobFailed,
                StatusReading::Known(_) => PollVerdict::Unrecognized,
                StatusReading::Unrecognized => PollVerdict::Unrecognized,
                StatusReading::Missing => PollVerdict::Missing,
            };
            job_outcome(verdict, fields)
        },
        AdapterState::AwaitSubmit => match fields.id {
            Some(job_id) => AdapterStep::Send {
                delay_secs: POLL_INTERVAL_SECS,
                call: status_call(config, job_id.as_str()),
                state: AdapterState::Polling { job_id, polls_done: 0 },
            },
            None => AdapterStep::Failed { error: AdapterError::Decode },
        },
        AdapterState::Polling { job_id, polls_done } => {
            let verdict = next_poll(polls_done, read_status(status_field(&fields)));
            match verdict {
                PollVerdict::Again => AdapterStep::Send {
                    delay_secs: POLL_INTERVAL_SECS,
                    call: status_call(config, job_id.as_str()),
                    state: AdapterState::Polling { job_id, polls_done: polls_done + 1 },
                },
                _ => job_outcome(verdict, fields),
            }
        },
    }
}

/// Goes on with an exchange once a reply is in: reads the reply's document
/// where the state waits for one, and names the next call or the outcome.
pub fn continue_attempt(config: &GatewayConfig, state: AdapterState, reply: UpstreamReply) -> (step:
    AdapterStep)
    ensures
        step@ == advance_of(*config, state@, reply@, fields_for(state@, reply@)),
{
    let wants_document = match &state {
        AdapterState::AwaitSpeech => false,
        AdapterState::AwaitDownload => false,
        _ => true,
    };
    let fields = match &reply {
        UpstreamReply::Response { status, body } => {
            if wants_document {
                read_fields(body.as_slice())
            } else {
                ReplyFields { status: None, audio_base64: None, error: None, id: None, audio_url: None }
            }
        },
        UpstreamReply::Transport => ReplyFields {
            status: None,
            audio_base64: None,
            error: None,
            id: None,
            audio_url: None,
        },
    };
    advance(config, state, reply, fields)
}

} // verus!
