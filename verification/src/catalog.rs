//! The catalog of voices: what each configured provider offers, in the
//! order in which a client shows it, with the voice to start from.

use vstd::prelude::*;
use vstd::string::*;
use vstd::utf8::*;
use crate::provider::{configured, tag_of, GatewayConfig, ProviderKind};
use crate::text::{
    bytes_before, contains, lemma_bytes_before_irreflexive, lemma_bytes_before_transitive,
    lowercase_of, occurs_in, strip_prefix, text_before, text_eq, to_lowercase,
};

verus! {

/// The voices of the first speech provider: key, model, label, recommended.
pub const OPENAI_TTS_VOICES: [(&'static str, &'static str, &'static str, bool); 11] = [
    ("alloy", "", "Alloy（中性・落ち着き）", true),
    ("ash", "", "Ash（男性・温かみ）", false),
    ("ballad", "", "Ballad（男性・柔らか）", false),
    ("coral", "", "Coral（女性・会話的）", true),
    ("echo", "", "Echo（男性・低音）", false),
    ("fable", "", "Fable（男性・語り）", false),
    ("nova", "", "Nova（女性・自然）", true),
    ("onyx", "", "Onyx（男性・深み）", false),
    ("sage", "", "Sage（女性・知的）", true),
    ("shimmer", "", "Shimmer（女性・明るい）", false),
    ("verse", "", "Verse（中性・表現力）", false),
];

/// The voices of the provider that answers with a locator: key, model,
/// label, recommended.
pub const AIMLAPI_TTS_MODELS: [(&'static str, &'static str, &'static str, bool); 8] = [
    ("nova", "openai/gpt-4o-mini-tts", "gpt-4o-mini-tts Nova", true),
    ("coral", "openai/gpt-4o-mini-tts", "gpt-4o-mini-tts Coral", true),
    ("alloy", "openai/gpt-4o-mini-tts", "gpt-4o-mini-tts Alloy", false),
    ("sage", "openai/gpt-4o-mini-tts", "gpt-4o-mini-tts Sage", false),
    ("amalthea", "deepgram/aura-2", "Deepgram Aura2 Amalthea", false),
    ("athena", "deepgram/aura-2", "Deepgram Aura2 Athena", false),
    ("luna", "deepgram/aura-2", "Deepgram Aura2 Luna", false),
    ("orion", "deepgram/aura-2", "Deepgram Aura2 Orion", false),
];

/// The voices of the third speech provider: key, model, label, recommended.
pub const VENICE_TTS_VOICES: [(&'static str, &'static str, &'static str, bool); 11] = [
    ("af_heart", "tts-kokoro", "Heart（女性・温かい）", true),
    ("af_alloy", "tts-kokoro", "Alloy（女性・中性）", false),
    ("af_aoede", "tts-kokoro", "Aoede（女性・表現力）", false),
    ("af_bella", "tts-kokoro", "Bella（女性・柔らか）", true),
    ("af_nicole", "tts-kokoro", "Nicole（女性・落ち着き）", false),
    ("af_nova", "tts-kokoro", "Nova（女性・自然）", false),
    ("af_sky", "tts-kokoro", "Sky（女性・明るい）", false),
    ("am_adam", "tts-kokoro", "Adam（男性・低音）", true),
    ("am_echo", "tts-kokoro", "Echo（男性・クリア）", false),
    ("am_michael", "tts-kokoro", "Michael（男性・温かみ）", false),
    ("am_onyx", "tts-kokoro", "Onyx（男性・深み）", false),
];

/// The voices of the first batch provider: key, model, label, recommended.
pub const COSYVOICE_VOICES: [(&'static str, &'static str, &'static str, bool); 6] = [
    ("日本語女性", "", "CosyVoice 日本語女性", true),
    ("日本語男性", "", "CosyVoice 日本語男性", true),
    ("英語女性", "", "CosyVoice English Female", false),
    ("英語男性", "", "CosyVoice English Male", false),
    ("中国語女性", "", "CosyVoice 中国語女性", false),
    ("中国語男性", "", "CosyVoice 中国語男性", false),
];

/// The languages of the second batch provider: key, model, label,
/// recommended.
pub const QWEN_TTS_VOICES: [(&'static str, &'static str, &'static str, bool); 7] = [
    ("Japanese", "", "Qwen-TTS 日本語", true),
    ("English", "", "Qwen-TTS English", true),
    ("Chinese", "", "Qwen-TTS 中国語", false),
    ("Korean", "", "Qwen-TTS 한국어", false),
    ("French", "", "Qwen-TTS Français", false),
    ("German", "", "Qwen-TTS Deutsch", false),
    ("Spanish", "", "Qwen-TTS Español", false),
];

/// The voices of the polled batch provider: key, model, label, recommended.
pub const QWEN_OMNI_VOICES: [(&'static str, &'static str, &'static str, bool); 2] = [
    ("Chelsie", "", "Qwen-Omni Chelsie（女性・会話）", true),
    ("Ethan", "", "Qwen-Omni Ethan（男性・会話）", true),
];

/// One voice of the catalog.
#[derive(Debug, Clone, PartialEq, Eq)]
pub struct VoiceInfo {
    pub provider: ProviderKind,
    pub voice_id: String,
    pub name: String,
    pub category: String,
    pub preview_url: Option<String>,
    pub labels: Vec<(String, String)>,
    pub recommended: bool,
}

/// A `VoiceInfo` as a plain value.
pub ghost struct VoiceView {
    pub provider: ProviderKind,
    pub voice_id: Seq<char>,
    pub name: Seq<char>,
    pub category: Seq<char>,
    pub preview_url: Option<Seq<char>>,
    pub labels: Seq<(Seq<char>, Seq<char>)>,
    pub recommended: bool,
}

/// Labels as plain values.
pub open spec fn labels_view(labels: Seq<(String, String)>) -> Seq<(Seq<char>, Seq<char>)> {
    Seq::new(labels.len(), |i: int| (labels[i].0@, labels[i].1@))
}

/// An optional string as a plain value.
pub open spec fn optional_text(field: Option<String>) -> Option<Seq<char>> {
    match field {
        Some(s) => Some(s@),
        None => None,
    }
}

impl View for VoiceInfo {
    type V = VoiceView;

    open spec fn view(&self) -> VoiceView {
        VoiceView {
            provider: self.provider,
            voice_id: self.voice_id@,
            name: self.name@,
            category: self.category@,
            preview_url: optional_text(self.preview_url),
            labels: labels_view(self.labels@),
            recommended: self.recommended,
        }
    }
}

/// Voices as plain values.
pub open spec fn voices_view(voices: Seq<VoiceInfo>) -> Seq<VoiceView> {
    Seq::new(voices.len(), |i: int| voices[i]@)
}

/// What a provider's own listing says of one voice, as far as the catalog
/// reads it. A field that the listing lacks is `None`.
#[derive(Debug, Clone, PartialEq, Eq)]
pub struct RemoteVoice {
    pub id: Option<String>,
    pub name: Option<String>,
    pub category: Option<String>,
    pub language: Option<String>,
    pub preview_url: Option<String>,
    pub labels: Vec<(String, String)>,
}

/// A `RemoteVoice` as a plain value.
pub ghost struct RemoteVoiceView {
    pub id: Option<Seq<char>>,
    pub name: Option<Seq<char>>,
    pub category: Option<Seq<char>>,
    pub language: Option<Seq<char>>,
    pub preview_url: Option<Seq<char>>,
    pub labels: Seq<(Seq<char>, Seq<char>)>,
}

impl View for RemoteVoice {
    type V = RemoteVoiceView;

    open spec fn view(&self) -> RemoteVoiceView {
        RemoteVoiceView {
            id: optional_text(self.id),
            name: optional_text(self.name),
            category: optional_text(self.category),
            language: optional_text(self.language),
            preview_url: optional_text(self.preview_url),
            labels: labels_view(self.labels@),
        }
    }
}

/// Listings as plain values.
pub open spec fn remotes_view(voices: Seq<RemoteVoice>) -> Seq<RemoteVoiceView> {
    Seq::new(voices.len(), |i: int| voices[i]@)
}

/// The category under which a provider's voices are filed. The default
/// provider's voices carry the category of its own listing.
pub open spec fn category_of(kind: ProviderKind) -> Seq<char> {
    match kind {
        ProviderKind::ElevenLabs => "premade"@,
        ProviderKind::OpenAi => "openai"@,
        ProviderKind::Cartesia => "cartesia"@,
        ProviderKind::Fish => "fish"@,
        ProviderKind::AimlApi => "aimlapi"@,
        ProviderKind::Venice => "venice"@,
        ProviderKind::CosyVoice => "cosyvoice"@,
        ProviderKind::QwenTts => "qwen-tts"@,
        ProviderKind::QwenOmni => "qwen-omni"@,
    }
}

/// What stands before the label in the name of a provider's voice.
pub open spec fn name_prefix_of(kind: ProviderKind) -> Seq<char> {
    match kind {
        ProviderKind::OpenAi => "OpenAI "@,
        ProviderKind::Cartesia => "Cartesia "@,
        ProviderKind::Fish => "Fish "@,
        ProviderKind::AimlApi => "AI/ML "@,
        ProviderKind::Venice => "Venice "@,
        _ => ""@,
    }
}

/// The name of a provider in the labels of its voices.
pub open spec fn label_name_of(kind: ProviderKind) -> Seq<char> {
    match kind {
        ProviderKind::Fish => "fish_audio"@,
        _ => category_of(kind),
    }
}

/// The labels of a voice: its provider, its model where it has one, its
/// language.
pub open spec fn labels_of(kind: ProviderKind, model: Seq<char>, language: Seq<char>) -> Seq<
    (Seq<char>, Seq<char>),
> {
    if model.len() > 0 {
        seq![("provider"@, label_name_of(kind)), ("model"@, model), ("language"@, language)]
    } else {
        seq![("provider"@, label_name_of(kind)), ("language"@, language)]
    }
}

/// The identifier of a voice: the provider's tag, the model and a colon
/// where the provider's identifiers name the model, then the key.
pub open spec fn voice_id_of(kind: ProviderKind, model: Seq<char>, key: Seq<char>) -> Seq<char> {
    if kind == ProviderKind::AimlApi {
        tag_of(kind) + model + ":"@ + key
    } else {
        tag_of(kind) + key
    }
}

/// The catalog's entry for a voice that a provider offers to every account.
pub open spec fn listed_voice_of(
    kind: ProviderKind,
    entry: (&'static str, &'static str, &'static str, bool),
) -> VoiceView {
    VoiceView {
        provider: kind,
        voice_id: voice_id_of(kind, entry.1@, entry.0@),
        name: name_prefix_of(kind) + entry.2@,
        category: category_of(kind),
        preview_url: None,
        labels: labels_of(kind, entry.1@, "multilingual"@),
        recommended: entry.3,
    }
}

/// The catalog's entries for a table of voices.
pub open spec fn listed_voices_of(
    kind: ProviderKind,
    table: Seq<(&'static str, &'static str, &'static str, bool)>,
) -> Seq<VoiceView> {
    Seq::new(table.len(), |i: int| listed_voice_of(kind, table[i]))
}

/// A string with a label in front.
fn prefixed(prefix: &str, rest: &str) -> (text: String)
    ensures
        text@ == prefix@ + rest@,
{
    let mut text = prefix.to_owned();
    text.append(rest);
    text
}

/// One label.
fn label(key: &str, value: &str) -> (pair: (String, String))
    ensures
        pair.0@ == key@,
        pair.1@ == value@,
{
    (key.to_owned(), value.to_owned())
}

impl ProviderKind {
    /// The category under which this provider's voices are filed.
    pub fn category(self) -> (category: &'static str)
        ensures
            category@ == category_of(self),
    {
        match self {
            ProviderKind::ElevenLabs => "premade",
            ProviderKind::OpenAi => "openai",
            ProviderKind::Cartesia => "cartesia",
            ProviderKind::Fish => "fish",
            ProviderKind::AimlApi => "aimlapi",
            ProviderKind::Venice => "venice",
            ProviderKind::CosyVoice => "cosyvoice",
            ProviderKind::QwenTts => "qwen-tts",
            ProviderKind::QwenOmni => "qwen-omni",
        }
    }

    /// What stands before the label in the name of this provider's voices.
    pub fn name_prefix(self) -> (prefix: &'static str)
        ensures
            prefix@ == name_prefix_of(self),
    {
        match self {
            ProviderKind::OpenAi => "OpenAI ",
            ProviderKind::Cartesia => "Cartesia ",
            ProviderKind::Fish => "Fish ",
            ProviderKind::AimlApi => "AI/ML ",
            ProviderKind::Venice => "Venice ",
            _ => "",
        }
    }

    /// The name of this provider in the labels of its voices.
    pub fn label_name(self) -> (name: &'static str)
        ensures
            name@ == label_name_of(self),
    {
        match self {
            ProviderKind::Fish => "fish_audio",
            _ => self.category(),
        }
    }
}

/// The labels of a voice.
fn voice_labels(kind: ProviderKind, model: &str, language: &str) -> (labels: Vec<(String, String)>)
    ensures
        labels_view(labels@) == labels_of(kind, model@, language@),
{
    let mut labels: Vec<(String, String)> = Vec::new();
    labels.push(label("provider", kind.label_name()));
    if !model.is_empty() {
        labels.push(label("model", model));
    }
    labels.push(label("language", language));
    assert(labels_view(labels@) =~= labels_of(kind, model@, language@));
    labels
}

/// The identifier of a voice.
fn voice_id(kind: ProviderKind, model: &str, key: &str) -> (id: String)
    ensures
        id@ == voice_id_of(kind, model@, key@),
{
    let mut id = kind.tag().to_owned();
    match kind {
        ProviderKind::AimlApi => {
            id.append(model);
            id.append(":");
        },
        _ => {},
    }
    id.append(key);
    id
}

/// The catalog's entry for a voice that a provider offers to every account.
fn listed_voice(kind: ProviderKind, entry: (&'static str, &'static str, &'static str, bool)) -> (voice:
    VoiceInfo)
    ensures
        voice@ == listed_voice_of(kind, entry),
{
    VoiceInfo {
        provider: kind,
        voice_id: voice_id(kind, entry.1, entry.0),
        name: prefixed(kind.name_prefix(), entry.2),
        category: kind.category().to_owned(),
        preview_url: None,
        labels: voice_labels(kind, entry.1, "multilingual"),
        recommended: entry.3,
    }
}

/// Adds the entries for a table of voices to a list.
fn push_listed(
    voices: &mut Vec<VoiceInfo>,
    kind: ProviderKind,
    table: &[(&'static str, &'static str, &'static str, bool)],
)
    ensures
        voices_view(final(voices)@) == voices_view(old(voices)@) + listed_voices_of(kind, table@),
{
    let ghost before = voices_view(voices@);
    let mut i: usize = 0;
    while i < table.len()
        invariant
            i <= table.len(),
            voices_view(voices@) == before + listed_voices_of(kind, table@.take(i as int)),
        decreases table.len() - i,
    {
        let voice = listed_voice(kind, table[i]);
        proof {
            let ghost now = voices_view(voices@);
            assert(voices_view(voices@.push(voice)) =~= now.push(voice@));
            assert(listed_voices_of(kind, table@.take(i + 1)) =~= listed_voices_of(
                kind,
                table@.take(i as int),
            ).push(listed_voice_of(kind, table@[i as int])));
        }
        voices.push(voice);
        i += 1;
    }
    proof {
        assert(table@.take(table.len() as int) =~= table@);
    }
}

/// A field of a listing, or `default` where the listing lacks it.
pub open spec fn text_or(field: Option<Seq<char>>, default: Seq<char>) -> Seq<char> {
    match field {
        Some(s) => s,
        None => default,
    }
}

/// The value of the first label with the given key.
pub open spec fn label_value_of(labels: Seq<(Seq<char>, Seq<char>)>, key: Seq<char>) -> Option<
    Seq<char>,
>
    decreases labels.len(),
{
    if labels.len() == 0 {
        None
    } else if labels[0].0 == key {
        Some(labels[0].1)
    } else {
        label_value_of(labels.drop_first(), key)
    }
}

/// Whether a language label in lower case names Japanese: it holds `ja`.
pub open spec fn is_japanese_label(lower: Seq<char>) -> bool {
    occurs_in("ja"@, lower) || occurs_in("japanese"@, lower)
}

/// Whether a language label names Japanese, in whatever case it is
/// written.
pub open spec fn names_japanese(language: Option<Seq<char>>) -> bool {
    match language {
        Some(lang) => is_japanese_label(lowercase_of(lang)),
        None => false,
    }
}

/// Whether a language code is Japanese or one of its regional forms.
pub open spec fn is_japanese_code(language: Seq<char>) -> bool {
    language == "ja"@ || "ja-"@.is_prefix_of(language)
}

/// The catalog's entry for a voice of the default provider's listing: a
/// cloned voice and one that speaks Japanese are recommended.
pub open spec fn elevenlabs_voice_of(remote: RemoteVoiceView) -> VoiceView {
    let category = text_or(remote.category, "premade"@);
    VoiceView {
        provider: ProviderKind::ElevenLabs,
        voice_id: text_or(remote.id, ""@),
        name: text_or(remote.name, ""@),
        category,
        preview_url: remote.preview_url,
        labels: remote.labels,
        recommended: category == "cloned"@ || names_japanese(
            label_value_of(remote.labels, "language"@),
        ),
    }
}

/// The catalog's entry for a voice of the second listing: a voice whose
/// language is Japanese is recommended.
pub open spec fn cartesia_voice_of(remote: RemoteVoiceView) -> VoiceView {
    let language = text_or(remote.language, ""@);
    VoiceView {
        provider: ProviderKind::Cartesia,
        voice_id: "cartesia:"@ + text_or(remote.id, ""@),
        name: "Cartesia "@ + text_or(remote.name, "Unknown"@),
        category: "cartesia"@,
        preview_url: None,
        labels: labels_of(ProviderKind::Cartesia, ""@, language),
        recommended: is_japanese_code(language),
    }
}

/// The catalog's entry for a voice of the third listing, which is asked for
/// Japanese voices only: each is recommended.
pub open spec fn fish_voice_of(remote: RemoteVoiceView) -> VoiceView {
    VoiceView {
        provider: ProviderKind::Fish,
        voice_id: "fish:"@ + text_or(remote.id, ""@),
        name: "Fish "@ + text_or(remote.name, "Unknown"@),
        category: "fish"@,
        preview_url: None,
        labels: labels_of(ProviderKind::Fish, ""@, "ja"@),
        recommended: true,
    }
}

/// Whether a listing's voice can be asked for at all: it has an identifier.
pub open spec fn has_id(remote: RemoteVoiceView) -> bool {
    text_or(remote.id, ""@).len() > 0
}

/// The catalog's entries for the default provider's listing.
pub open spec fn elevenlabs_voices_of(remotes: Seq<RemoteVoiceView>) -> Seq<VoiceView> {
    Seq::new(remotes.len(), |i: int| elevenlabs_voice_of(remotes[i]))
}

/// The catalog's entries for the second listing.
pub open spec fn cartesia_voices_of(remotes: Seq<RemoteVoiceView>) -> Seq<VoiceView> {
    Seq::new(remotes.len(), |i: int| cartesia_voice_of(remotes[i]))
}

/// The catalog's entries for the third listing: one for each voice that
/// has an identifier.
pub open spec fn fish_voices_of(remotes: Seq<RemoteVoiceView>) -> Seq<VoiceView>
    decreases remotes.len(),
{
    if remotes.len() == 0 {
        Seq::empty()
    } else if has_id(remotes.last()) {
        fish_voices_of(remotes.drop_last()).push(fish_voice_of(remotes.last()))
    } else {
        fish_voices_of(remotes.drop_last())
    }
}

/// `voices` where `kind` is configured, nothing where it is not.
pub open spec fn offered(config: GatewayConfig, kind: ProviderKind, voices: Seq<VoiceView>) -> Seq<
    VoiceView,
> {
    if configured(config, kind) {
        voices
    } else {
        Seq::empty()
    }
}

/// The voices of the catalog before they are put in order: for each
/// configured provider what it offers, provider after provider. A provider
/// that is not configured contributes nothing, whatever its listing holds.
pub open spec fn gathered_of(
    config: GatewayConfig,
    elevenlabs: Seq<RemoteVoiceView>,
    cartesia: Seq<RemoteVoiceView>,
    fish: Seq<RemoteVoiceView>,
) -> Seq<VoiceView> {
    offered(config, ProviderKind::ElevenLabs, elevenlabs_voices_of(elevenlabs)) + offered(
        config,
        ProviderKind::OpenAi,
        listed_voices_of(ProviderKind::OpenAi, OPENAI_TTS_VOICES@),
    ) + offered(config, ProviderKind::Cartesia, cartesia_voices_of(cartesia)) + offered(
        config,
        ProviderKind::Fish,
        fish_voices_of(fish),
    ) + offered(
        config,
        ProviderKind::AimlApi,
        listed_voices_of(ProviderKind::AimlApi, AIMLAPI_TTS_MODELS@),
    ) + offered(
        config,
        ProviderKind::Venice,
        listed_voices_of(ProviderKind::Venice, VENICE_TTS_VOICES@),
    ) + offered(
        config,
        ProviderKind::CosyVoice,
        listed_voices_of(ProviderKind::CosyVoice, COSYVOICE_VOICES@),
    ) + offered(
        config,
        ProviderKind::QwenTts,
        listed_voices_of(ProviderKind::QwenTts, QWEN_TTS_VOICES@),
    ) + offered(
        config,
        ProviderKind::QwenOmni,
        listed_voices_of(ProviderKind::QwenOmni, QWEN_OMNI_VOICES@),
    )
}

/// The rank of a voice in the catalog: cloned voices first, recommended
/// ones next, the others last.
pub open spec fn rank_of(voice: VoiceView) -> int {
    if voice.category == "cloned"@ {
        0
    } else if voice.recommended {
        1
    } else {
        2
    }
}

/// Whether `a` stands before `b` in the catalog: by rank, and within a rank
/// by name, byte by byte.
pub open spec fn voice_before(a: VoiceView, b: VoiceView) -> bool {
    rank_of(a) < rank_of(b) || (rank_of(a) == rank_of(b) && bytes_before(
        encode_utf8(a.name),
        encode_utf8(b.name),
    ))
}

/// The place at which a voice enters an ordered list: before the first
/// voice that it stands before, at the end where there is none. A voice
/// thus enters behind every voice that it is on a par with.
pub open spec fn insertion_point(ordered: Seq<VoiceView>, voice: VoiceView) -> int
    decreases ordered.len(),
{
    if ordered.len() == 0 {
        0
    } else if voice_before(voice, ordered[0]) {
        0
    } else {
        1 + insertion_point(ordered.drop_first(), voice)
    }
}

/// The voices in the order of the catalog. Voices that are on a par keep
/// the order in which they were gathered.
pub open spec fn sort_of(voices: Seq<VoiceView>) -> Seq<VoiceView>
    decreases voices.len(),
{
    if voices.len() == 0 {
        Seq::empty()
    } else {
        let ordered = sort_of(voices.drop_last());
        ordered.insert(insertion_point(ordered, voices.last()), voices.last())
    }
}

/// The identifier of the first recommended voice.
pub open spec fn first_recommended(voices: Seq<VoiceView>) -> Option<Seq<char>>
    decreases voices.len(),
{
    if voices.len() == 0 {
        None
    } else if voices[0].recommended {
        Some(voices[0].voice_id)
    } else {
        first_recommended(voices.drop_first())
    }
}

/// The catalog: the voices in order, whether there is any, and the voice
/// that a client starts from.
#[derive(Debug, Clone, PartialEq, Eq)]
pub struct Catalog {
    pub voices: Vec<VoiceInfo>,
    pub available: bool,
    pub default_voice_id: Option<String>,
}

/// A field of a listing, or `default` where the listing lacks it.
fn field_or(field: Option<String>, default: &str) -> (text: String)
    ensures
        text@ == text_or(optional_text(field), default@),
{
    match field {
        Some(s) => s,
        None => default.to_owned(),
    }
}

/// The value of the first label with the given key.
fn label_value<'a>(labels: &'a Vec<(String, String)>, key: &str) -> (value: Option<&'a str>)
    ensures
        match value {
            Some(v) => label_value_of(labels_view(labels@), key@) == Some(v@),
            None => label_value_of(labels_view(labels@), key@) is None,
        },
{
    let ghost all = labels_view(labels@);
    let mut i: usize = 0;
    proof {
        assert(all.skip(0) =~= all);
    }
    while i < labels.len()
        invariant
            i <= labels.len(),
            all == labels_view(labels@),
            label_value_of(all, key@) == label_value_of(all.skip(i as int), key@),
        decreases labels.len() - i,
    {
        proof {
            assert(all.skip(i as int)[0] == all[i as int]);
            assert(all.skip(i as int).drop_first() =~= all.skip(i + 1));
        }
        if text_eq(labels[i].0.as_str(), key) {
            return Some(labels[i].1.as_str());
        }
        i += 1;
    }
    None
}

/// Whether a language label in lower case names Japanese.
pub fn label_names_japanese(lower: &str) -> (yes: bool)
    ensures
        yes == is_japanese_label(lower@),
{
    contains(lower, "ja") || contains(lower, "japanese")
}

/// The catalog's entry for a voice of the default provider's listing.
pub fn elevenlabs_voice(remote: RemoteVoice) -> (voice: VoiceInfo)
    ensures
        voice@ == elevenlabs_voice_of(remote@),
{
    let japanese = match label_value(&remote.labels, "language") {
        Some(language) => {
            let lower = to_lowercase(language);
            label_names_japanese(lower.as_str())
        },
        None => false,
    };
    let category = field_or(remote.category, "premade");
    let cloned = text_eq(category.as_str(), "cloned");
    VoiceInfo {
        provider: ProviderKind::ElevenLabs,
        voice_id: field_or(remote.id, ""),
        name: field_or(remote.name, ""),
        category,
        preview_url: remote.preview_url,
        labels: remote.labels,
        recommended: cloned || japanese,
    }
}

/// The catalog's entry for a voice of the second listing.
pub fn cartesia_voice(remote: RemoteVoice) -> (voice: VoiceInfo)
    ensures
        voice@ == cartesia_voice_of(remote@),
{
    let language = field_or(remote.language, "");
    let japanese = text_eq(language.as_str(), "ja") || match strip_prefix(language.as_str(), "ja-") {
        Some(rest) => {
            proof {
                assert(language@.subrange(0, "ja-"@.len() as int) =~= "ja-"@);
            }
            true
        },
        None => false,
    };
    let id = field_or(remote.id, "");
    let name = field_or(remote.name, "Unknown");
    VoiceInfo {
        provider: ProviderKind::Cartesia,
        voice_id: prefixed("cartesia:", id.as_str()),
        name: prefixed("Cartesia ", name.as_str()),
        category: "cartesia".to_owned(),
        preview_url: None,
        labels: voice_labels(ProviderKind::Cartesia, "", language.as_str()),
        recommended: japanese,
    }
}

/// The catalog's entry for a voice of the third listing, if the voice has
/// an identifier.
pub fn fish_voice(remote: RemoteVoice) -> (voice: Option<VoiceInfo>)
    ensures
        match voice {
            Some(v) => has_id(remote@) && v@ == fish_voice_of(remote@),
            None => !has_id(remote@),
        },
{
    let id = field_or(remote.id, "");
    if id.as_str().is_empty() {
        return None;
    }
    let name = field_or(remote.name, "Unknown");
    Some(
        VoiceInfo {
            provider: ProviderKind::Fish,
            voice_id: prefixed("fish:", id.as_str()),
            name: prefixed("Fish ", name.as_str()),
            category: "fish".to_owned(),
            preview_url: None,
            labels: voice_labels(ProviderKind::Fish, "", "ja"),
            recommended: true,
        },
    )
}

/// The rank of a voice in the catalog.
pub fn voice_rank(voice: &VoiceInfo) -> (rank: u8)
    ensures
        rank == rank_of(voice@),
{
    if text_eq(voice.category.as_str(), "cloned") {
        0
    } else if voice.recommended {
        1
    } else {
        2
    }
}

/// Whether `a` stands before `b` in the catalog.
pub fn stands_before(a: &VoiceInfo, b: &VoiceInfo) -> (before: bool)
    ensures
        before == voice_before(a@, b@),
{
    let ra = voice_rank(a);
    let rb = voice_rank(b);
    ra < rb || (ra == rb && text_before(a.name.as_str(), b.name.as_str()))
}

/// The place at which `voice` enters the ordered list `ordered`.
fn insertion_place(ordered: &Vec<VoiceInfo>, voice: &VoiceInfo) -> (at: usize)
    ensures
        at == insertion_point(voices_view(ordered@), voice@),
        at <= ordered.len(),
{
    let ghost all = voices_view(ordered@);
    let mut i: usize = 0;
    proof {
        assert(all.skip(0) =~= all);
    }
    while i < ordered.len()
        invariant
            i <= ordered.len(),
            all == voices_view(ordered@),
            insertion_point(all, voice@) == i + insertion_point(all.skip(i as int), voice@),
        decreases ordered.len() - i,
    {
        proof {
            assert(all.skip(i as int)[0] == all[i as int]);
            assert(all.skip(i as int).drop_first() =~= all.skip(i + 1));
        }
        if stands_before(voice, &ordered[i]) {
            return i;
        }
        i += 1;
    }
    i
}

/// Puts voices in the order of the catalog.
pub fn sort_voices(voices: Vec<VoiceInfo>) -> (ordered: Vec<VoiceInfo>)
    ensures
        voices_view(ordered@) == sort_of(voices_view(voices@)),
{
    let ghost all = voices_view(voices@);
    let ghost items = voices@;
    let mut ordered: Vec<VoiceInfo> = Vec::new();
    proof {
        assert(all.take(0) =~= Seq::<VoiceView>::empty());
    }
    for voice in it: voices.into_iter()
        invariant
            it.seq() == items,
            all == voices_view(items),
            voices_view(ordered@) == sort_of(all.take(it.index() as int)),
    {
        let at = insertion_place(&ordered, &voice);
        proof {
            let k = it.index() as int;
            assert(all.take(k + 1).drop_last() =~= all.take(k));
            assert(all.take(k + 1).last() == voice@);
            assert(voices_view(ordered@.insert(at as int, voice)) =~= voices_view(ordered@).insert(
                at as int,
                voice@,
            ));
        }
        ordered.insert(at, voice);
    }
    proof {
        assert(all.take(all.len() as int) =~= all);
    }
    ordered
}

/// The identifier of the first recommended voice.
pub fn default_voice(voices: &Vec<VoiceInfo>) -> (id: Option<String>)
    ensures
        optional_text(id) == first_recommended(voices_view(voices@)),
{
    let ghost all = voices_view(voices@);
    let mut i: usize = 0;
    proof {
        assert(all.skip(0) =~= all);
    }
    while i < voices.len()
        invariant
            i <= voices.len(),
            all == voices_view(voices@),
            first_recommended(all) == first_recommended(all.skip(i as int)),
        decreases voices.len() - i,
    {
        proof {
            assert(all.skip(i as int)[0] == all[i as int]);
            assert(all.skip(i as int).drop_first() =~= all.skip(i + 1));
        }
        if voices[i].recommended {
            return Some(voices[i].voice_id.clone());
        }
        i += 1;
    }
    None
}

/// Whether no voice of a list stands before one that precedes it.
pub open spec fn in_order(voices: Seq<VoiceView>) -> bool {
    forall|i: int, j: int| 0 <= i < j < voices.len() ==> !voice_before(voices[j], voices[i])
}

/// What stands before a voice stands before everything behind it.
proof fn lemma_voice_before_transitive(a: VoiceView, b: VoiceView, c: VoiceView)
    requires
        voice_before(a, b),
        voice_before(b, c),
    ensures
        voice_before(a, c),
{
    if rank_of(a) == rank_of(b) && rank_of(b) == rank_of(c) {
        lemma_bytes_before_transitive(encode_utf8(a.name), encode_utf8(b.name), encode_utf8(c.name));
    }
}

/// The place at which a voice enters a list lies within the list or at its
/// end; the voice stands before whatever is at that place, and before
/// nothing ahead of it.
proof fn lemma_insertion_point(ordered: Seq<VoiceView>, voice: VoiceView)
    ensures
        0 <= insertion_point(ordered, voice) <= ordered.len(),
        insertion_point(ordered, voice) < ordered.len() ==> voice_before(
            voice,
            ordered[insertion_point(ordered, voice)],
        ),
        forall|i: int| 0 <= i < insertion_point(ordered, voice) ==> !voice_before(voice, ordered[i]),
    decreases ordered.len(),
{
    if ordered.len() > 0 && !voice_before(voice, ordered[0]) {
        let rest = ordered.drop_first();
        lemma_insertion_point(rest, voice);
        assert forall|i: int| 0 <= i < insertion_point(ordered, voice) implies !voice_before(
            voice,
            ordered[i],
        ) by {
            if i > 0 {
                assert(ordered[i] == rest[i - 1]);
            }
        }
    }
}

/// Putting voices in order neither adds nor drops one: the ordered list is
/// as long as the gathered one, and whatever holds of every gathered voice
/// holds of every ordered one.
pub proof fn lemma_sort_keeps(voices: Seq<VoiceView>, holds: spec_fn(VoiceView) -> bool)
    requires
        forall|i: int| 0 <= i < voices.len() ==> holds(#[trigger] voices[i]),
    ensures
        sort_of(voices).len() == voices.len(),
        forall|i: int| 0 <= i < sort_of(voices).len() ==> holds(#[trigger] sort_of(voices)[i]),
    decreases voices.len(),
{
    if voices.len() > 0 {
        let front = voices.drop_last();
        assert forall|i: int| 0 <= i < front.len() implies holds(#[trigger] front[i]) by {
            assert(front[i] == voices[i]);
        }
        lemma_sort_keeps(front, holds);
        let ordered = sort_of(front);
        let at = insertion_point(ordered, voices.last());
        lemma_insertion_point(ordered, voices.last());
        assert(holds(voices[voices.len() - 1]));
    }
}

/// The ordered list is in order: cloned voices first, recommended ones
/// next, the others last, and each rank by name.
pub proof fn lemma_sort_orders(voices: Seq<VoiceView>)
    ensures
        in_order(sort_of(voices)),
    decreases voices.len(),
{
    if voices.len() > 0 {
        let front = voices.drop_last();
        let voice = voices.last();
        lemma_sort_orders(front);
        let ordered = sort_of(front);
        let at = insertion_point(ordered, voice);
        lemma_insertion_point(ordered, voice);
        let after = ordered.insert(at, voice);
        assert forall|i: int, j: int| 0 <= i < j < after.len() implies !voice_before(
            after[j],
            after[i],
        ) by {
            if j == at {
                assert(after[i] == ordered[i]);
            } else if i == at {
                assert(after[j] == ordered[j - 1]);
                if voice_before(ordered[j - 1], voice) {
                    lemma_voice_before_transitive(ordered[j - 1], voice, ordered[at]);
                    if j - 1 == at {
                        lemma_bytes_before_irreflexive(encode_utf8(ordered[at].name));
                    }
                }
            } else {
                let oi = if i < at {
                    i
                } else {
                    i - 1
                };
                let oj = if j < at {
                    j
                } else {
                    j - 1
                };
                assert(after[i] == ordered[oi]);
                assert(after[j] == ordered[oj]);
            }
        }
    }
}

/// Every entry for the third listing is a voice of that provider.
proof fn lemma_fish_voices(remotes: Seq<RemoteVoiceView>)
    ensures
        forall|i: int|
            0 <= i < fish_voices_of(remotes).len() ==> (#[trigger] fish_voices_of(remotes)[i]).provider
                == ProviderKind::Fish,
    decreases remotes.len(),
{
    if remotes.len() > 0 {
        lemma_fish_voices(remotes.drop_last());
    }
}

/// A provider that is not configured has no voice in the catalog, whatever
/// its listing holds: every voice of the catalog belongs to a configured
/// provider.
pub proof fn lemma_catalog_lists_configured_only(
    config: GatewayConfig,
    elevenlabs: Seq<RemoteVoiceView>,
    cartesia: Seq<RemoteVoiceView>,
    fish: Seq<RemoteVoiceView>,
)
    ensures
        forall|i: int|
            0 <= i < sort_of(gathered_of(config, elevenlabs, cartesia, fish)).len() ==> configured(
                config,
                (#[trigger] sort_of(gathered_of(config, elevenlabs, cartesia, fish))[i]).provider,
            ),
{
    let gathered = gathered_of(config, elevenlabs, cartesia, fish);
    let holds = |voice: VoiceView| configured(config, voice.provider);
    lemma_fish_voices(fish);
    let from_elevenlabs = offered(config, ProviderKind::ElevenLabs, elevenlabs_voices_of(elevenlabs));
    let from_openai = offered(
        config,
        ProviderKind::OpenAi,
        listed_voices_of(ProviderKind::OpenAi, OPENAI_TTS_VOICES@),
    );
    let from_cartesia = offered(config, ProviderKind::Cartesia, cartesia_voices_of(cartesia));
    let from_fish = offered(config, ProviderKind::Fish, fish_voices_of(fish));
    let from_aimlapi = offered(
        config,
        ProviderKind::AimlApi,
        listed_voices_of(ProviderKind::AimlApi, AIMLAPI_TTS_MODELS@),
    );
    let from_venice = offered(
        config,
        ProviderKind::Venice,
        listed_voices_of(ProviderKind::Venice, VENICE_TTS_VOICES@),
    );
    let from_cosyvoice = offered(
        config,
        ProviderKind::CosyVoice,
        listed_voices_of(ProviderKind::CosyVoice, COSYVOICE_VOICES@),
    );
    let from_qwen_tts = offered(
        config,
        ProviderKind::QwenTts,
        listed_voices_of(ProviderKind::QwenTts, QWEN_TTS_VOICES@),
    );
    let from_qwen_omni = offered(
        config,
        ProviderKind::QwenOmni,
        listed_voices_of(ProviderKind::QwenOmni, QWEN_OMNI_VOICES@),
    );
    assert(gathered == from_elevenlabs + from_openai + from_cartesia + from_fish + from_aimlapi + from_venice + from_cosyvoice + from_qwen_tts + from_qwen_omni);
    assert forall|i: int| 0 <= i < gathered.len() implies holds(#[trigger] gathered[i]) by {
        let end_elevenlabs = from_elevenlabs.len();
        let end_openai = end_elevenlabs + from_openai.len();
        let end_cartesia = end_openai + from_cartesia.len();
        let end_fish = end_cartesia + from_fish.len();
        let end_aimlapi = end_fish + from_aimlapi.len();
        let end_venice = end_aimlapi + from_venice.len();
        let end_cosyvoice = end_venice + from_cosyvoice.len();
        let end_qwen_tts = end_cosyvoice + from_qwen_tts.len();
        if i < end_elevenlabs {
            assert(gathered[i] == from_elevenlabs[i]);
        } else if i < end_openai {
            assert(gathered[i] == from_openai[i - end_elevenlabs]);
        } else if i < end_cartesia {
            assert(gathered[i] == from_cartesia[i - end_openai]);
        } else if i < end_fish {
            assert(gathered[i] == from_fish[i - end_cartesia]);
        } else if i < end_aimlapi {
            assert(gathered[i] == from_aimlapi[i - end_fish]);
        } else if i < end_venice {
            assert(gathered[i] == from_venice[i - end_aimlapi]);
        } else if i < end_cosyvoice {
            assert(gathered[i] == from_cosyvoice[i - end_venice]);
        } else if i < end_qwen_tts {
            assert(gathered[i] == from_qwen_tts[i - end_cosyvoice]);
        } else {
            assert(gathered[i] == from_qwen_omni[i - end_qwen_tts]);
        }
    }
    lemma_sort_keeps(gathered, holds);
}

/// Adds the entries for the default provider's listing to a list.
fn push_elevenlabs(voices: &mut Vec<VoiceInfo>, remotes: Vec<RemoteVoice>)
    ensures
        voices_view(final(voices)@) == voices_view(old(voices)@) + elevenlabs_voices_of(
            remotes_view(remotes@),
        ),
{
    let ghost before = voices_view(voices@);
    let ghost items = remotes@;
    let ghost all = remotes_view(remotes@);
    for remote in it: remotes.into_iter()
        invariant
            it.seq() == items,
            all == remotes_view(items),
            voices_view(voices@) == before + elevenlabs_voices_of(all.take(it.index() as int)),
    {
        let voice = elevenlabs_voice(remote);
        proof {
            let k = it.index() as int;
            assert(voices_view(voices@.push(voice)) =~= voices_view(voices@).push(voice@));
            assert(elevenlabs_voices_of(all.take(k + 1)) =~= elevenlabs_voices_of(all.take(k)).push(
                elevenlabs_voice_of(all[k]),
            ));
        }
        voices.push(voice);
    }
    proof {
        assert(all.take(all.len() as int) =~= all);
    }
}

/// Adds the entries for the second listing to a list.
fn push_cartesia(voices: &mut Vec<VoiceInfo>, remotes: Vec<RemoteVoice>)
    ensures
        voices_view(final(voices)@) == voices_view(old(voices)@) + cartesia_voices_of(
            remotes_view(remotes@),
        ),
{
    let ghost before = voices_view(voices@);
    let ghost items = remotes@;
    let ghost all = remotes_view(remotes@);
    for remote in it: remotes.into_iter()
        invariant
            it.seq() == items,
            all == remotes_view(items),
            voices_view(voices@) == before + cartesia_voices_of(all.take(it.index() as int)),
    {
        let voice = cartesia_voice(remote);
        proof {
            let k = it.index() as int;
            assert(voices_view(voices@.push(voice)) =~= voices_view(voices@).push(voice@));
            assert(cartesia_voices_of(all.take(k + 1)) =~= cartesia_voices_of(all.take(k)).push(
                cartesia_voice_of(all[k]),
            ));
        }
        voices.push(voice);
    }
    proof {
        assert(all.take(all.len() as int) =~= all);
    }
}

/// Adds the entries for the third listing to a list.
fn push_fish(voices: &mut Vec<VoiceInfo>, remotes: Vec<RemoteVoice>)
    ensures
        voices_view(final(voices)@) == voices_view(old(voices)@) + fish_voices_of(
            remotes_view(remotes@),
        ),
{
    let ghost before = voices_view(voices@);
    let ghost items = remotes@;
    let ghost all = remotes_view(remotes@);
    proof {
        assert(all.take(0) =~= Seq::<RemoteVoiceView>::empty());
    }
    for remote in it: remotes.into_iter()
        invariant
            it.seq() == items,
            all == remotes_view(items),
            voices_view(voices@) == before + fish_voices_of(all.take(it.index() as int)),
    {
        proof {
            let k = it.index() as int;
            assert(all.take(k + 1).drop_last() =~= all.take(k));
            assert(all.take(k + 1).last() == all[k]);
        }
        match fish_voice(remote) {
            Some(voice) => {
                proof {
                    assert(voices_view(voices@.push(voice)) =~= voices_view(voices@).push(voice@));
                }
                voices.push(voice);
            },
            None => {},
        }
    }
    proof {
        assert(all.take(all.len() as int) =~= all);
    }
}

/// The providers whose own listing the catalog reads: those of the three
/// that list their voices themselves which are configured.
pub fn listings_to_fetch(config: &GatewayConfig) -> (kinds: Vec<ProviderKind>)
    ensures
        kinds@ == offered_kind(*config, ProviderKind::ElevenLabs) + offered_kind(
            *config,
            ProviderKind::Cartesia,
        ) + offered_kind(*config, ProviderKind::Fish),
{
    let mut kinds: Vec<ProviderKind> = Vec::new();
    if config.is_configured(ProviderKind::ElevenLabs) {
        kinds.push(ProviderKind::ElevenLabs);
    }
    let ghost first = kinds@;
    assert(first =~= offered_kind(*config, ProviderKind::ElevenLabs));
    if config.is_configured(ProviderKind::Cartesia) {
        kinds.push(ProviderKind::Cartesia);
    }
    let ghost second = kinds@;
    assert(second =~= first + offered_kind(*config, ProviderKind::Cartesia));
    if config.is_configured(ProviderKind::Fish) {
        kinds.push(ProviderKind::Fish);
    }
    assert(kinds@ =~= second + offered_kind(*config, ProviderKind::Fish));
    kinds
}

/// `kind` alone where it is configured, nothing where it is not.
pub open spec fn offered_kind(config: GatewayConfig, kind: ProviderKind) -> Seq<ProviderKind> {
    if configured(config, kind) {
        seq![kind]
    } else {
        Seq::empty()
    }
}

/// Builds the catalog from the configuration and the three listings that
/// were read. The listing of a provider that is not configured is passed
/// over.
pub fn build_catalog(
    config: &GatewayConfig,
    elevenlabs: Vec<RemoteVoice>,
    cartesia: Vec<RemoteVoice>,
    fish: Vec<RemoteVoice>,
) -> (catalog: Catalog)
    ensures
        voices_view(catalog.voices@) == sort_of(
            gathered_of(
                *config,
                remotes_view(elevenlabs@),
                remotes_view(cartesia@),
                remotes_view(fish@),
            ),
        ),
        catalog.available == (catalog.voices@.len() > 0),
        optional_text(catalog.default_voice_id) == first_recommended(voices_view(catalog.voices@)),
        in_order(voices_view(catalog.voices@)),
        forall|i: int|
            0 <= i < catalog.voices@.len() ==> configured(
                *config,
                (#[trigger] catalog.voices@[i]).provider,
            ),
{
    let ghost el = remotes_view(elevenlabs@);
    let ghost ca = remotes_view(cartesia@);
    let ghost fi = remotes_view(fish@);
    let mut voices: Vec<VoiceInfo> = Vec::new();
    assert(voices_view(voices@) =~= Seq::<VoiceView>::empty());
    if config.is_configured(ProviderKind::ElevenLabs) {
        push_elevenlabs(&mut voices, elevenlabs);
    }
    let ghost g1 = voices_view(voices@);
    assert(g1 =~= offered(*config, ProviderKind::ElevenLabs, elevenlabs_voices_of(el)));
    if config.is_configured(ProviderKind::OpenAi) {
        push_listed(&mut voices, ProviderKind::OpenAi, &OPENAI_TTS_VOICES);
    }
    let ghost g2 = voices_view(voices@);
    assert(g2 =~= g1 + offered(
        *config,
        ProviderKind::OpenAi,
        listed_voices_of(ProviderKind::OpenAi, OPENAI_TTS_VOICES@),
    ));
    if config.is_configured(ProviderKind::Cartesia) {
        push_cartesia(&mut voices, cartesia);
    }
    let ghost g3 = voices_view(voices@);
    assert(g3 =~= g2 + offered(*config, ProviderKind::Cartesia, cartesia_voices_of(ca)));
    if config.is_configured(ProviderKind::Fish) {
        push_fish(&mut voices, fish);
    }
    let ghost g4 = voices_view(voices@);
    assert(g4 =~= g3 + offered(*config, ProviderKind::Fish, fish_voices_of(fi)));
    if config.is_configured(ProviderKind::AimlApi) {
        push_listed(&mut voices, ProviderKind::AimlApi, &AIMLAPI_TTS_MODELS);
    }
    let ghost g5 = voices_view(voices@);
    assert(g5 =~= g4 + offered(
        *config,
        ProviderKind::AimlApi,
        listed_voices_of(ProviderKind::AimlApi, AIMLAPI_TTS_MODELS@),
    ));
    if config.is_configured(ProviderKind::Venice) {
        push_listed(&mut voices, ProviderKind::Venice, &VENICE_TTS_VOICES);
    }
    let ghost g6 = voices_view(voices@);
    assert(g6 =~= g5 + offered(
        *config,
        ProviderKind::Venice,
        listed_voices_of(ProviderKind::Venice, VENICE_TTS_VOICES@),
    ));
    if config.is_configured(ProviderKind::CosyVoice) {
        push_listed(&mut voices, ProviderKind::CosyVoice, &COSYVOICE_VOICES);
    }
    let ghost g7 = voices_view(voices@);
    assert(g7 =~= g6 + offered(
        *config,
        ProviderKind::CosyVoice,
        listed_voices_of(ProviderKind::CosyVoice, COSYVOICE_VOICES@),
    ));
    if config.is_configured(ProviderKind::QwenTts) {
        push_listed(&mut voices, ProviderKind::QwenTts, &QWEN_TTS_VOICES);
    }
    let ghost g8 = voices_view(voices@);
    assert(g8 =~= g7 + offered(
        *config,
        ProviderKind::QwenTts,
        listed_voices_of(ProviderKind::QwenTts, QWEN_TTS_VOICES@),
    ));
    if config.is_configured(ProviderKind::QwenOmni) {
        push_listed(&mut voices, ProviderKind::QwenOmni, &QWEN_OMNI_VOICES);
    }
    assert(voices_view(voices@) =~= g8 + offered(
        *config,
        ProviderKind::QwenOmni,
        listed_voices_of(ProviderKind::QwenOmni, QWEN_OMNI_VOICES@),
    ));
    let ordered = sort_voices(voices);
    proof {
        lemma_sort_orders(gathered_of(*config, el, ca, fi));
        lemma_catalog_lists_configured_only(*config, el, ca, fi);
        assert forall|i: int| 0 <= i < ordered@.len() implies configured(
            *config,
            (#[trigger] ordered@[i]).provider,
        ) by {
            assert(voices_view(ordered@)[i].provider == ordered@[i].provider);
        }
    }
    let available = ordered.len() > 0;
    let default_voice_id = default_voice(&ordered);
    Catalog { voices: ordered, available, default_voice_id }
}

} // verus!
