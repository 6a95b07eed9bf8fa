//! A dialogue about an article, spoken by two voices: which provider
//! speaks it, with which voice and direction for each speaker, and what is
//! kept of each line.

use vstd::prelude::*;
use vstd::string::*;
use crate::adapter::{
    build_call, call_of, first_state, first_state_of, AdapterError, AdapterErrorView, AdapterStep,
    AdapterStepView,
};
use crate::codec::{base64_encode, base64_text};
use crate::provider::{configured, GatewayConfig, ProviderKind};
use crate::text::text_eq;

verus! {

/// How the host speaks, as the first speech provider is told.
pub const HOST_INSTRUCTIONS: &'static str =
    "あなたは人気ニュースポッドキャストのホストです。以下のルールで話してください：\n- 親しみやすく明るいトーンで、リスナーに直接語りかけるように話す\n- 自然な相づちや感嘆を入れ、会話感を出す\n- 句読点で適切に間を取り、聞き取りやすくする\n- 棒読みは厳禁。人間同士の会話のようなリズムで話す";

/// How the analyst speaks, as the first speech provider is told.
pub const ANALYST_INSTRUCTIONS: &'static str =
    "あなたはニュース解説の専門家です。以下のルールで話してください：\n- 落ち着いた知的なトーンで、分析的に語る\n- 重要なポイントは少し強調し、説得力を持たせる\n- 自然な話し言葉で、硬すぎない表現を使う\n- 棒読みは厳禁。聞き手が理解しやすいペースで話す";

/// How the host speaks, as the polled batch provider is told.
pub const HOST_PROMPT: &'static str =
    "あなたは人気ニュースポッドキャストのホストです。親しみやすく明るいトーンで、リスナーに直接語りかけるように話してください。";

/// How the analyst speaks, as the polled batch provider is told.
pub const ANALYST_PROMPT: &'static str =
    "あなたはニュース解説の専門家です。落ち着いた知的なトーンで、分析的に語ってください。";

/// One line of the dialogue.
#[derive(Debug, Clone, PartialEq, Eq)]
pub struct DialogueLine {
    pub speaker: String,
    pub text: String,
}

/// One line of the dialogue with its audio as Base64 text; the audio is
/// empty where the line could not be spoken.
#[derive(Debug, Clone, PartialEq, Eq)]
pub struct AudioSegment {
    pub speaker: String,
    pub text: String,
    pub audio_base64: String,
}

/// The provider that speaks the dialogue.
pub open spec fn speaker_provider_of(uses_qwen_omni: bool) -> ProviderKind {
    if uses_qwen_omni {
        ProviderKind::QwenOmni
    } else {
        ProviderKind::OpenAi
    }
}

/// Whether a line is the host's; every other speaker is the analyst.
pub open spec fn is_host(speaker: Seq<char>) -> bool {
    speaker == "host"@
}

/// The voice of a speaker with a provider.
pub open spec fn speaker_voice_of(uses_qwen_omni: bool, speaker: Seq<char>) -> Seq<char> {
    if uses_qwen_omni {
        if is_host(speaker) {
            "Chelsie"@
        } else {
            "Ethan"@
        }
    } else {
        if is_host(speaker) {
            "coral"@
        } else {
            "echo"@
        }
    }
}

/// The direction for a speaker with a provider.
pub open spec fn speaker_instructions_of(uses_qwen_omni: bool, speaker: Seq<char>) -> Seq<char> {
    if uses_qwen_omni {
        if is_host(speaker) {
            HOST_PROMPT@
        } else {
            ANALYST_PROMPT@
        }
    } else {
        if is_host(speaker) {
            HOST_INSTRUCTIONS@
        } else {
            ANALYST_INSTRUCTIONS@
        }
    }
}

/// How the attempt to speak one line starts: with no call where the
/// provider is not configured, with its first call otherwise.
pub open spec fn line_step_of(
    config: GatewayConfig,
    uses_qwen_omni: bool,
    speaker: Seq<char>,
    text: Seq<char>,
) -> AdapterStepView {
    let kind = speaker_provider_of(uses_qwen_omni);
    if !configured(config, kind) {
        AdapterStepView::Failed { error: AdapterErrorView::NotConfigured }
    } else {
        AdapterStepView::Send {
            delay_secs: 0,
            call: call_of(
                config,
                kind,
                speaker_voice_of(uses_qwen_omni, speaker),
                text,
                speaker_instructions_of(uses_qwen_omni, speaker),
            ),
            state: first_state_of(kind),
        }
    }
}

/// The voice of a speaker with a provider.
pub fn speaker_voice(uses_qwen_omni: bool, speaker: &str) -> (voice: &'static str)
    ensures
        voice@ == speaker_voice_of(uses_qwen_omni, speaker@),
{
    let host = text_eq(speaker, "host");
    if uses_qwen_omni {
        if host {
            "Chelsie"
        } else {
            "Ethan"
        }
    } else {
        if host {
            "coral"
        } else {
            "echo"
        }
    }
}

/// The direction for a speaker with a provider.
pub fn speaker_instructions(uses_qwen_omni: bool, speaker: &str) -> (instructions: &'static str)
    ensures
        instructions@ == speaker_instructions_of(uses_qwen_omni, speaker@),
{
    let host = text_eq(speaker, "host");
    if uses_qwen_omni {
        if host {
            HOST_PROMPT
        } else {
            ANALYST_PROMPT
        }
    } else {
        if host {
            HOST_INSTRUCTIONS
        } else {
            ANALYST_INSTRUCTIONS
        }
    }
}

/// Starts the attempt to speak one line of the dialogue.
pub fn begin_line(config: &GatewayConfig, uses_qwen_omni: bool, line: &DialogueLine) -> (step:
    AdapterStep)
    ensures
        step@ == line_step_of(*config, uses_qwen_omni, line.speaker@, line.text@),
{
    let kind = if uses_qwen_omni {
        ProviderKind::QwenOmni
    } else {
        ProviderKind::OpenAi
    };
    if !config.is_configured(kind) {
        return AdapterStep::Failed { error: AdapterError::NotConfigured };
    }
    let speaker = line.speaker.as_str();
    AdapterStep::Send {
        delay_secs: 0,
        call: build_call(
            config,
            kind,
            speaker_voice(uses_qwen_omni, speaker),
            line.text.as_str(),
            speaker_instructions(uses_qwen_omni, speaker),
        ),
        state: first_state(kind),
    }
}

/// What is kept of a line: the line with its audio as Base64 text, or with
/// no audio where the attempt to speak it failed.
pub fn audio_segment(line: &DialogueLine, audio: Option<&[u8]>) -> (segment: AudioSegment)
    ensures
        segment.speaker@ == line.speaker@,
        segment.text@ == line.text@,
        segment.audio_base64@ == (match audio {
            Some(bytes) => base64_text(bytes@),
            None => Seq::<char>::empty(),
        }),
{
    let audio_base64 = match audio {
        Some(bytes) => base64_encode(bytes),
        None => String::new(),
    };
    AudioSegment { speaker: line.speaker.clone(), text: line.text.clone(), audio_base64 }
}

} // verus!
