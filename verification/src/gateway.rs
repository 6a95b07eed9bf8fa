//! The life of a request: quota first, then the cache, then the providers,
//! and on success the write to the cache and the count of one use.

use vstd::prelude::*;
use vstd::string::*;
use vstd::utf8::*;
use crate::cache::{cache_key, cache_key_of, CacheStore, Stored};
use crate::codec::{base64_bytes, base64_decode, base64_encode, base64_text};
use crate::dispatch::{
    resume_dispatch, run_from, start_dispatch, start_of, AttemptOutcome, AttemptOutcomeView,
    DispatchError, DispatchErrorView, DispatchStep, DispatchStepView,
};
use crate::json::{json_is_well_formed, json_well_formed};
use crate::provider::{configured, GatewayConfig, ProviderKind};
use crate::quota::{
    admission, check_rate_limit, counted_once, daily_limit_of, increment_if_free, tier_usage,
    QuotaDenied, UsageLedger, UserTier,
};
use crate::text::{text_eq, texts_view};

verus! {

/// The seconds for which synthesized audio stays in the cache.
pub const AUDIO_TTL_SECS: u64 = 21600;

/// The seconds for which the reading of a text stays in the cache.
pub const READING_TTL_SECS: u64 = 86400;

/// The longest time in seconds for which the answer of a feature stays in
/// the cache.
pub const LONGEST_ANSWER_TTL_SECS: u64 = 21600;

/// The gateway's state: its configuration, handed in where it is built, the
/// response cache and the usage ledger.
#[derive(Debug)]
pub struct Gateway {
    pub config: GatewayConfig,
    pub cache: CacheStore,
    pub ledger: UsageLedger,
}

/// How a request for audio is opened.
#[derive(Debug, Clone, PartialEq, Eq)]
pub enum TtsOpening {
    /// The quota turns the caller away; no provider is touched.
    Rejected { reason: QuotaDenied },
    /// The cache holds the audio; no provider is touched and no use is
    /// counted.
    Cached { audio: Vec<u8> },
    /// The providers have to be asked: this is the first step of the
    /// dispatch.
    Dispatch { step: DispatchStep },
}

/// A `TtsOpening` as a plain value.
pub ghost enum TtsOpeningView {
    Rejected { reason: QuotaDenied },
    Cached { audio: Seq<u8> },
    Dispatch { step: DispatchStepView },
}

impl View for TtsOpening {
    type V = TtsOpeningView;

    open spec fn view(&self) -> TtsOpeningView {
        match *self {
            TtsOpening::Rejected { reason } => TtsOpeningView::Rejected { reason },
            TtsOpening::Cached { audio } => TtsOpeningView::Cached { audio: audio@ },
            TtsOpening::Dispatch { step } => TtsOpeningView::Dispatch { step: step@ },
        }
    }
}

/// What a feature lacks in the configuration.
#[derive(Debug, Clone, Copy, PartialEq, Eq)]
pub enum MissingConfig {
    /// The key of the generating service.
    GeneratorKey,
    /// The key of the provider that speaks a dialogue.
    SpeechKey,
    /// The key or the endpoint of the batch provider that speaks a
    /// dialogue.
    BatchEndpoint,
}

/// How a request for a generated answer is opened.
#[derive(Debug, Clone, PartialEq, Eq)]
pub enum GenerationOpening {
    /// The quota turns the caller away.
    Rejected { reason: QuotaDenied },
    /// Something that the feature needs is not configured.
    Unavailable { missing: MissingConfig },
    /// The cache holds the answer; no use is counted.
    Cached { answer: String },
    /// The answer has to be generated.
    Generate,
}

/// A `GenerationOpening` as a plain value.
pub ghost enum GenerationOpeningView {
    Rejected { reason: QuotaDenied },
    Unavailable { missing: MissingConfig },
    Cached { answer: Seq<char> },
    Generate,
}

impl View for GenerationOpening {
    type V = GenerationOpeningView;

    open spec fn view(&self) -> GenerationOpeningView {
        match *self {
            GenerationOpening::Rejected { reason } => GenerationOpeningView::Rejected { reason },
            GenerationOpening::Unavailable { missing } => GenerationOpeningView::Unavailable {
                missing,
            },
            GenerationOpening::Cached { answer } => GenerationOpeningView::Cached { answer: answer@ },
            GenerationOpening::Generate => GenerationOpeningView::Generate,
        }
    }
}

/// The seconds for which the answer of a feature stays in the cache; `None`
/// for a feature whose answers are not cached.
pub open spec fn cache_ttl_of(feature: Seq<char>) -> Option<u64> {
    if feature == "summarize"@ {
        Some(10800u64)
    } else if feature == "questions"@ || feature == "ask"@ || feature == "podcast"@ {
        Some(21600u64)
    } else {
        None
    }
}

/// The request that audio is cached under: the voice, a bar, the text.
pub open spec fn audio_payload_of(voice_id: Seq<char>, raw_text: Seq<char>) -> Seq<char> {
    voice_id + "|"@ + raw_text
}

/// The cached value that a reader finds for a request at the second `now`.
pub open spec fn hit_of(cache: CacheStore, namespace: Seq<char>, payload: Seq<char>, now: u64) -> Option<
    Seq<char>,
> {
    cache.live(cache_key_of(namespace, payload), now)
}

/// The cached audio for a voice and a text at the second `now`: the bytes
/// that the cached Base64 text stands for. A cached text that is no Base64
/// counts as a miss.
pub open spec fn audio_hit_of(cache: CacheStore, voice_id: Seq<char>, raw_text: Seq<char>, now: u64) -> Option<
    Seq<u8>,
> {
    match hit_of(cache, "tts_audio"@, audio_payload_of(voice_id, raw_text), now) {
        Some(text) => base64_bytes(text),
        None => None,
    }
}

/// The cached answer of a feature for a request at the second `now`. A
/// cached text that is no JSON value counts as a miss.
pub open spec fn answer_hit_of(cache: CacheStore, feature: Seq<char>, payload: Seq<char>, now: u64) -> Option<
    Seq<char>,
> {
    match hit_of(cache, feature, payload, now) {
        Some(text) => if json_well_formed(text) {
            Some(text)
        } else {
            None
        },
        None => None,
    }
}

/// How a request for audio is opened: the quota decides first, then the
/// cache; only a miss leads to the providers.
pub open spec fn tts_opening_of(
    gateway: Gateway,
    tier: UserTier,
    voice_id: Seq<char>,
    raw_text: Seq<char>,
    now: u64,
    day: u64,
) -> TtsOpeningView {
    match admission(tier, "tts"@, tier_usage(gateway.ledger, tier, "tts"@, day)) {
        Err(reason) => TtsOpeningView::Rejected { reason },
        Ok(_) => match audio_hit_of(gateway.cache, voice_id, raw_text, now) {
            Some(audio) => TtsOpeningView::Cached { audio },
            None => TtsOpeningView::Dispatch { step: start_of(voice_id) },
        },
    }
}

/// How a request for a generated answer is opened: the quota decides first,
/// then the configuration, then the cache. The cache is read only for a
/// feature whose answers are cached; for every other feature the answer is
/// generated, whatever the cache holds under the feature's name.
pub open spec fn generation_opening_of(
    gateway: Gateway,
    tier: UserTier,
    feature: Seq<char>,
    payload: Seq<char>,
    now: u64,
    day: u64,
) -> GenerationOpeningView {
    match admission(tier, feature, tier_usage(gateway.ledger, tier, feature, day)) {
        Err(reason) => GenerationOpeningView::Rejected { reason },
        Ok(_) => if gateway.config.api_key@.len() == 0 {
            GenerationOpeningView::Unavailable { missing: MissingConfig::GeneratorKey }
        } else if cache_ttl_of(feature) is None {
            GenerationOpeningView::Generate
        } else {
            cached_or_generate(gateway.cache, feature, payload, now)
        },
    }
}

/// The cached answer where there is one, the order to generate where
/// there is none.
pub open spec fn cached_or_generate(
    cache: CacheStore,
    feature: Seq<char>,
    payload: Seq<char>,
    now: u64,
) -> GenerationOpeningView {
    match answer_hit_of(cache, feature, payload, now) {
        Some(answer) => GenerationOpeningView::Cached { answer },
        None => GenerationOpeningView::Generate,
    }
}

/// The opening for what the cache holds: the cached text where there is
/// one and it is a JSON value, the order to generate otherwise.
pub open spec fn opening_for(cached: Option<Seq<char>>, well_formed: bool) -> GenerationOpeningView {
    match cached {
        Some(answer) => if well_formed {
            GenerationOpeningView::Cached { answer }
        } else {
            GenerationOpeningView::Generate
        },
        None => GenerationOpeningView::Generate,
    }
}

/// The opening for what the cache holds.
pub fn answer_opening(cached: Option<String>, well_formed: bool) -> (opening: GenerationOpening)
    ensures
        opening@ == opening_for(
            match cached {
                Some(a) => Some(a@),
                None => None,
            },
            well_formed,
        ),
{
    match cached {
        Some(answer) => {
            if well_formed {
                GenerationOpening::Cached { answer }
            } else {
                GenerationOpening::Generate
            }
        },
        None => GenerationOpening::Generate,
    }
}

/// How a request for a spoken dialogue is opened: the quota decides first,
/// then the configuration of the generating service and of the provider
/// that is to speak, then the cache.
pub open spec fn podcast_opening_of(
    gateway: Gateway,
    tier: UserTier,
    uses_qwen_omni: bool,
    payload: Seq<char>,
    now: u64,
    day: u64,
) -> GenerationOpeningView {
    match admission(tier, "podcast"@, tier_usage(gateway.ledger, tier, "podcast"@, day)) {
        Err(reason) => GenerationOpeningView::Rejected { reason },
        Ok(_) => if gateway.config.api_key@.len() == 0 {
            GenerationOpeningView::Unavailable { missing: MissingConfig::GeneratorKey }
        } else if !uses_qwen_omni && !configured(gateway.config, ProviderKind::OpenAi) {
            GenerationOpeningView::Unavailable { missing: MissingConfig::SpeechKey }
        } else if uses_qwen_omni && !configured(gateway.config, ProviderKind::QwenOmni) {
            GenerationOpeningView::Unavailable { missing: MissingConfig::BatchEndpoint }
        } else {
            cached_or_generate(gateway.cache, "podcast"@, payload, now)
        },
    }
}

/// The bytes of a text that are spoken at most.
pub const MAX_TEXT_BYTES: usize = 5000;

/// Whether a text can be cut to the bytes that are spoken at most: it is
/// short enough as it is, or the cut falls between two characters.
pub open spec fn clippable(text: Seq<char>) -> bool {
    encode_utf8(text).len() <= MAX_TEXT_BYTES || is_char_boundary(
        encode_utf8(text),
        MAX_TEXT_BYTES as int,
    )
}

/// Whether `text` can be cut to the bytes that are spoken at most.
pub fn can_clip(text: &str) -> (yes: bool)
    ensures
        yes == clippable(text@),
{
    text.as_bytes().len() <= MAX_TEXT_BYTES || text.is_char_boundary(MAX_TEXT_BYTES)
}

/// The text that is spoken: the first bytes of `text`, as many as are
/// spoken at most.
pub fn clip_text(text: &str) -> (clipped: &str)
    requires
        clippable(text@),
    ensures
        text.spec_bytes().len() > MAX_TEXT_BYTES ==> clipped.spec_bytes()
            == text.spec_bytes().subrange(0, MAX_TEXT_BYTES as int),
        text.spec_bytes().len() <= MAX_TEXT_BYTES ==> clipped@ == text@,
{
    if text.as_bytes().len() > MAX_TEXT_BYTES {
        let parts = text.split_at(MAX_TEXT_BYTES);
        parts.0
    } else {
        text
    }
}

/// What writing `value` for a request does to the cache: the request's key
/// holds the value until `ttl_seconds` after `now`, and every other key
/// holds what it held.
pub open spec fn written(
    before: CacheStore,
    after: CacheStore,
    namespace: Seq<char>,
    payload: Seq<char>,
    value: Seq<char>,
    ttl_seconds: u64,
    now: u64,
) -> bool {
    &&& after.stored(cache_key_of(namespace, payload)) == Some(
        Stored { namespace, value, expires_at: (now + ttl_seconds) as u64 },
    )
    &&& forall|other: Seq<char>|
        other != cache_key_of(namespace, payload) ==> #[trigger] after.stored(other)
            == before.stored(other)
}

/// What a served request leaves behind: its answer in the cache and one use
/// counted for a limited caller; the configuration as it was.
pub open spec fn settled(
    before: Gateway,
    after: Gateway,
    tier: UserTier,
    feature: Seq<char>,
    namespace: Seq<char>,
    payload: Seq<char>,
    value: Seq<char>,
    ttl_seconds: u64,
    now: u64,
    day: u64,
) -> bool {
    &&& after.config == before.config
    &&& written(before.cache, after.cache, namespace, payload, value, ttl_seconds, now)
    &&& counted_once(before.ledger, after.ledger, tier, feature, day)
}

/// What a request for audio that a provider served leaves behind: the audio
/// in the cache, as a Base64 text that reads back as the same bytes, and one
/// use counted for a limited caller.
pub open spec fn audio_settled(
    before: Gateway,
    after: Gateway,
    tier: UserTier,
    voice_id: Seq<char>,
    raw_text: Seq<char>,
    audio: Seq<u8>,
    now: u64,
    day: u64,
) -> bool {
    &&& settled(
        before,
        after,
        tier,
        "tts"@,
        "tts_audio"@,
        audio_payload_of(voice_id, raw_text),
        base64_text(audio),
        AUDIO_TTL_SECS,
        now,
        day,
    )
    &&& base64_bytes(base64_text(audio)) == Some(audio)
}

/// A gateway that holds what another holds.
pub open spec fn unchanged(before: Gateway, after: Gateway) -> bool {
    &&& after.config == before.config
    &&& forall|key: Seq<char>| #[trigger] after.cache.stored(key) == before.cache.stored(key)
    &&& forall|s: Seq<char>, f: Seq<char>, d: u64|
        #[trigger] after.ledger.used(s, f, d) == before.ledger.used(s, f, d)
}

/// One request for audio: who asks, for what, when, and how the attempts
/// on the providers end, in the order in which they are made.
pub ghost struct TtsCall {
    pub tier: UserTier,
    pub voice_id: Seq<char>,
    pub raw_text: Seq<char>,
    pub now: u64,
    pub day: u64,
    pub outcomes: Seq<AttemptOutcomeView>,
}

/// The answer to a request for audio.
pub ghost enum TtsReply {
    Rejected { reason: QuotaDenied },
    Audio { audio: Seq<u8> },
    Failed { error: DispatchErrorView },
    /// The dispatch waits for an outcome that the call does not give.
    Waiting,
}

/// The answer to a request for audio, as the gateway gives it.
#[derive(Debug, Clone, PartialEq, Eq)]
pub enum TtsAnswer {
    Rejected { reason: QuotaDenied },
    Audio { audio: Vec<u8> },
    Failed { error: DispatchError },
    /// The dispatch waits for an outcome that was not given.
    Waiting,
}

impl View for TtsAnswer {
    type V = TtsReply;

    open spec fn view(&self) -> TtsReply {
        match *self {
            TtsAnswer::Rejected { reason } => TtsReply::Rejected { reason },
            TtsAnswer::Audio { audio } => TtsReply::Audio { audio: audio@ },
            TtsAnswer::Failed { error } => TtsReply::Failed { error: error@ },
            TtsAnswer::Waiting => TtsReply::Waiting,
        }
    }
}

/// Outcomes as plain values.
pub open spec fn outcomes_view(outcomes: Seq<AttemptOutcome>) -> Seq<AttemptOutcomeView> {
    Seq::new(outcomes.len(), |i: int| outcomes[i]@)
}

/// Whether a gateway that handles `call` by the steps of this module goes
/// from `before` to `after`, answers `reply` and asks the voices `asked` of
/// the providers, in that order.
///
/// A rejected request and one that the cache answers ask no provider and
/// change nothing. A dispatched request changes the gateway only where a
/// provider delivers: its audio is settled then.
pub open spec fn tts_served(
    before: Gateway,
    after: Gateway,
    call: TtsCall,
    reply: TtsReply,
    asked: Seq<Seq<char>>,
) -> bool {
    match tts_opening_of(before, call.tier, call.voice_id, call.raw_text, call.now, call.day) {
        TtsOpeningView::Rejected { reason } => {
            &&& reply == TtsReply::Rejected { reason }
            &&& asked.len() == 0
            &&& unchanged(before, after)
        },
        TtsOpeningView::Cached { audio } => {
            &&& reply == TtsReply::Audio { audio }
            &&& asked.len() == 0
            &&& unchanged(before, after)
        },
        TtsOpeningView::Dispatch { step } => {
            let end = run_from(before.config, step, call.outcomes);
            &&& asked == end.1
            &&& match end.0 {
                DispatchStepView::Deliver { audio } => {
                    &&& reply == TtsReply::Audio { audio }
                    &&& audio_settled(
                        before,
                        after,
                        call.tier,
                        call.voice_id,
                        call.raw_text,
                        audio,
                        call.now,
                        call.day,
                    )
                },
                DispatchStepView::Fail { error } => {
                    &&& reply == TtsReply::Failed { error }
                    &&& unchanged(before, after)
                },
                DispatchStepView::Attempt { .. } => {
                    &&& reply == TtsReply::Waiting
                    &&& unchanged(before, after)
                },
            }
        },
    }
}

/// A value written to the cache is found under its request until its time
/// to live is over, and not from then on.
pub proof fn lemma_entry_lives_for_its_ttl(
    before: CacheStore,
    after: CacheStore,
    namespace: Seq<char>,
    payload: Seq<char>,
    value: Seq<char>,
    ttl_seconds: u64,
    now: u64,
    later: u64,
)
    requires
        written(before, after, namespace, payload, value, ttl_seconds, now),
        now + ttl_seconds <= u64::MAX,
    ensures
        later < now + ttl_seconds ==> hit_of(after, namespace, payload, later) == Some(value),
        later >= now + ttl_seconds ==> hit_of(after, namespace, payload, later) is None,
{
}

/// A request that is not served leaves no trace, and neither does one that
/// the cache answers: no use is counted for it.
pub proof fn lemma_only_provider_served_requests_count(
    before: Gateway,
    after: Gateway,
    call: TtsCall,
    reply: TtsReply,
    asked: Seq<Seq<char>>,
)
    requires
        tts_served(before, after, call, reply, asked),
    ensures
        asked.len() == 0 ==> unchanged(before, after),
        !(reply is Audio) ==> unchanged(before, after),
        reply is Audio && asked.len() > 0 ==> counted_once(
            before.ledger,
            after.ledger,
            call.tier,
            "tts"@,
            call.day,
        ),
{
    let opening = tts_opening_of(
        before,
        call.tier,
        call.voice_id,
        call.raw_text,
        call.now,
        call.day,
    );
    if opening is Dispatch {
        let step = start_of(call.voice_id);
        if call.outcomes.len() == 0 {
            assert(run_from(before.config, step, call.outcomes).0 == step);
        }
    }
}

/// The same request for audio, made again within the time to live of what
/// a provider delivered for it, and let through by the quota, is answered
/// with the same bytes, and no provider is asked.
pub proof fn lemma_repeat_is_served_from_cache(
    start: Gateway,
    between: Gateway,
    end: Gateway,
    first: TtsCall,
    first_reply: TtsReply,
    first_asked: Seq<Seq<char>>,
    second: TtsCall,
    second_reply: TtsReply,
    second_asked: Seq<Seq<char>>,
)
    requires
        tts_served(start, between, first, first_reply, first_asked),
        tts_served(between, end, second, second_reply, second_asked),
        first_reply is Audio,
        first_asked.len() > 0,
        second.voice_id == first.voice_id,
        second.raw_text == first.raw_text,
        first.now + AUDIO_TTL_SECS <= u64::MAX,
        first.now <= second.now < first.now + AUDIO_TTL_SECS,
        admission(
            second.tier,
            "tts"@,
            tier_usage(between.ledger, second.tier, "tts"@, second.day),
        ) is Ok,
    ensures
        second_reply == first_reply,
        second_asked.len() == 0,
        unchanged(between, end),
{
    lemma_only_provider_served_requests_count(start, between, first, first_reply, first_asked);
    let audio = first_reply->audio;
    assert(audio_settled(
        start,
        between,
        first.tier,
        first.voice_id,
        first.raw_text,
        audio,
        first.now,
        first.day,
    ));
    lemma_entry_lives_for_its_ttl(
        start.cache,
        between.cache,
        "tts_audio"@,
        audio_payload_of(first.voice_id, first.raw_text),
        base64_text(audio),
        AUDIO_TTL_SECS,
        first.now,
        second.now,
    );
    assert(audio_hit_of(between.cache, second.voice_id, second.raw_text, second.now) == Some(audio));
}

/// The answer that was generated for a request is served from the cache
/// to whoever makes the same request within the time to live of the
/// feature's answers and is let through by the quota. A feature whose
/// answers are not cached is left out.
pub proof fn lemma_generated_answer_is_served_again(
    before: Gateway,
    after: Gateway,
    tier: UserTier,
    feature: Seq<char>,
    payload: Seq<char>,
    answer: Seq<char>,
    ttl_seconds: u64,
    now: u64,
    day: u64,
    next_tier: UserTier,
    later: u64,
    later_day: u64,
)
    requires
        cache_ttl_of(feature) == Some(ttl_seconds),
        settled(before, after, tier, feature, feature, payload, answer, ttl_seconds, now, day),
        json_well_formed(answer),
        now + ttl_seconds <= u64::MAX,
        now <= later < now + ttl_seconds,
        after.config.api_key@.len() > 0,
        admission(next_tier, feature, tier_usage(after.ledger, next_tier, feature, later_day)) is Ok,
    ensures
        generation_opening_of(after, next_tier, feature, payload, later, later_day) == (
            GenerationOpeningView::Cached { answer }
        ),
{
    lemma_entry_lives_for_its_ttl(
        before.cache,
        after.cache,
        feature,
        payload,
        answer,
        ttl_seconds,
        now,
        later,
    );
}

/// The same request for audio, made twice by a limited caller within the
/// time to live of what a provider delivered for the first, uses up one unit
/// of the caller's quota, not two: the second is answered from the cache or
/// turned away, and counts nothing either way.
pub proof fn lemma_repeat_counts_once(
    start: Gateway,
    between: Gateway,
    end: Gateway,
    first: TtsCall,
    first_reply: TtsReply,
    first_asked: Seq<Seq<char>>,
    second: TtsCall,
    second_reply: TtsReply,
    second_asked: Seq<Seq<char>>,
)
    requires
        tts_served(start, between, first, first_reply, first_asked),
        tts_served(between, end, second, second_reply, second_asked),
        first_reply is Audio,
        first_asked.len() > 0,
        second.tier == first.tier,
        second.voice_id == first.voice_id,
        second.raw_text == first.raw_text,
        first.now + AUDIO_TTL_SECS <= u64::MAX,
        first.now <= second.now < first.now + AUDIO_TTL_SECS,
    ensures
        counted_once(start.ledger, between.ledger, first.tier, "tts"@, first.day),
        unchanged(between, end),
        counted_once(start.ledger, end.ledger, first.tier, "tts"@, first.day),
{
    lemma_only_provider_served_requests_count(start, between, first, first_reply, first_asked);
    let audio = first_reply->audio;
    lemma_entry_lives_for_its_ttl(
        start.cache,
        between.cache,
        "tts_audio"@,
        audio_payload_of(first.voice_id, first.raw_text),
        base64_text(audio),
        AUDIO_TTL_SECS,
        first.now,
        second.now,
    );
    assert(audio_hit_of(between.cache, second.voice_id, second.raw_text, second.now) == Some(audio));
    lemma_only_provider_served_requests_count(between, end, second, second_reply, second_asked);
}

/// With a daily limit of N, the request that a provider serves as a
/// device's N-th of the day goes through and brings the device's count to
/// N; the device's next request of that day is turned away because the
/// limit is reached, and the count stays N.
pub proof fn lemma_request_at_the_limit(
    start: Gateway,
    between: Gateway,
    end: Gateway,
    first: TtsCall,
    first_reply: TtsReply,
    first_asked: Seq<Seq<char>>,
    second: TtsCall,
    second_reply: TtsReply,
    second_asked: Seq<Seq<char>>,
)
    requires
        tts_served(start, between, first, first_reply, first_asked),
        tts_served(between, end, second, second_reply, second_asked),
        first.tier is Free,
        second.tier == first.tier,
        second.day == first.day,
        first_reply is Audio,
        first_asked.len() > 0,
        tier_usage(start.ledger, first.tier, "tts"@, first.day) == daily_limit_of("tts"@) - 1,
    ensures
        tier_usage(between.ledger, first.tier, "tts"@, first.day) == daily_limit_of("tts"@),
        second_reply == (TtsReply::Rejected {
            reason: QuotaDenied::LimitReached {
                limit: daily_limit_of("tts"@) as i64,
                used: daily_limit_of("tts"@) as u64,
            },
        }),
        second_asked.len() == 0,
        tier_usage(end.ledger, first.tier, "tts"@, first.day) == daily_limit_of("tts"@),
{
    lemma_only_provider_served_requests_count(start, between, first, first_reply, first_asked);
}

/// The seconds for which the answer of `feature` stays in the cache.
pub fn cache_ttl(feature: &str) -> (ttl: Option<u64>)
    ensures
        ttl == cache_ttl_of(feature@),
{
    if text_eq(feature, "summarize") {
        Some(10800)
    } else if text_eq(feature, "questions") || text_eq(feature, "ask") || text_eq(feature, "podcast") {
        Some(21600)
    } else {
        None
    }
}

/// The request that audio is cached under.
pub fn audio_payload(voice_id: &str, raw_text: &str) -> (payload: String)
    ensures
        payload@ == audio_payload_of(voice_id@, raw_text@),
{
    let mut payload = voice_id.to_owned();
    payload.append("|");
    payload.append(raw_text);
    payload
}

impl Gateway {
    /// A gateway with the given configuration, an empty cache and an empty
    /// ledger.
    pub fn new(config: GatewayConfig) -> (gateway: Gateway)
        ensures
            gateway.config == config,
            forall|key: Seq<char>| gateway.cache.stored(key) is None,
            forall|s: Seq<char>, f: Seq<char>, d: u64| gateway.ledger.used(s, f, d) == 0,
    {
        Gateway { config, cache: CacheStore::new(), ledger: UsageLedger::new() }
    }

    /// Whether the quota lets a caller of `tier` use `feature` on `day`.
    pub fn check_quota(&self, tier: &UserTier, feature: &str, day: u64) -> (res: Result<(), QuotaDenied>)
        ensures
            res == admission(*tier, feature@, tier_usage(self.ledger, *tier, feature@, day)),
    {
        check_rate_limit(&self.ledger, tier, feature, day)
    }

    /// The cached value for a request at the second `now`.
    pub fn lookup(&self, namespace: &str, payload: &str, now: u64) -> (value: Option<String>)
        ensures
            match value {
                Some(v) => hit_of(self.cache, namespace@, payload@, now) == Some(v@),
                None => hit_of(self.cache, namespace@, payload@, now) is None,
            },
    {
        let key = cache_key(namespace, payload);
        self.cache.get(key.as_str(), now)
    }

    /// Leaves behind what a served request leaves: `value` in the cache for
    /// `ttl_seconds`, and one use of `feature` counted for a limited caller.
    pub fn settle(
        &mut self,
        tier: &UserTier,
        feature: &str,
        namespace: &str,
        payload: &str,
        value: &str,
        ttl_seconds: u64,
        now: u64,
        day: u64,
    )
        requires
            now + ttl_seconds <= u64::MAX,
        ensures
            settled(
                *old(self),
                *final(self),
                *tier,
                feature@,
                namespace@,
                payload@,
                value@,
                ttl_seconds,
                now,
                day,
            ),
    {
        let key = cache_key(namespace, payload);
        self.cache.set(key.as_str(), namespace, value, ttl_seconds, now);
        increment_if_free(&mut self.ledger, tier, feature, day);
    }

    /// The cached audio for a voice and a text at the second `now`.
    pub fn cached_audio(&self, voice_id: &str, raw_text: &str, now: u64) -> (audio: Option<Vec<u8>>)
        ensures
            match audio {
                Some(a) => audio_hit_of(self.cache, voice_id@, raw_text@, now) == Some(a@),
                None => audio_hit_of(self.cache, voice_id@, raw_text@, now) is None,
            },
    {
        let payload = audio_payload(voice_id, raw_text);
        match self.lookup("tts_audio", payload.as_str(), now) {
            Some(text) => match base64_decode(text.as_str()) {
                Ok(audio) => Some(audio),
                Err(_) => None,
            },
            None => None,
        }
    }

    /// Opens a request to speak `raw_text` with `voice_id`.
    pub fn open_tts(&self, tier: &UserTier, voice_id: &str, raw_text: &str, now: u64, day: u64) -> (opening:
        TtsOpening)
        ensures
            opening@ == tts_opening_of(*self, *tier, voice_id@, raw_text@, now, day),
    {
        match self.check_quota(tier, "tts", day) {
            Err(reason) => TtsOpening::Rejected { reason },
            Ok(_) => match self.cached_audio(voice_id, raw_text, now) {
                Some(audio) => TtsOpening::Cached { audio },
                None => TtsOpening::Dispatch { step: start_dispatch(voice_id) },
            },
        }
    }

    /// Closes a request for audio that a provider served: the audio goes to
    /// the cache as Base64 text, and one use is counted for a limited
    /// caller.
    pub fn settle_tts(
        &mut self,
        tier: &UserTier,
        voice_id: &str,
        raw_text: &str,
        audio: &[u8],
        now: u64,
        day: u64,
    )
        requires
            now + AUDIO_TTL_SECS <= u64::MAX,
        ensures
            audio_settled(*old(self), *final(self), *tier, voice_id@, raw_text@, audio@, now, day),
    {
        let payload = audio_payload(voice_id, raw_text);
        let text = base64_encode(audio);
        self.settle(tier, "tts", "tts_audio", payload.as_str(), text.as_str(), AUDIO_TTL_SECS, now, day);
    }

    /// Handles a request for audio whose attempts on the providers end as
    /// `outcomes` say, one after the other: opens it, goes through the
    /// dispatch as far as the outcomes lead, and settles it where a provider
    /// delivered. Gives the answer and the voices that were asked for, in the
    /// order of the attempts.
    pub fn replay_tts(
        &mut self,
        tier: &UserTier,
        voice_id: &str,
        raw_text: &str,
        now: u64,
        day: u64,
        outcomes: Vec<AttemptOutcome>,
    ) -> (answer: (TtsAnswer, Vec<String>))
        requires
            now + AUDIO_TTL_SECS <= u64::MAX,
        ensures
            tts_served(
                *old(self),
                *final(self),
                (TtsCall {
                    tier: *tier,
                    voice_id: voice_id@,
                    raw_text: raw_text@,
                    now,
                    day,
                    outcomes: outcomes_view(outcomes@),
                }),
                answer.0@,
                texts_view(answer.1@),
            ),
    {
        let mut asked: Vec<String> = Vec::new();
        assert(texts_view(asked@) =~= Seq::<Seq<char>>::empty());
        let first = match self.open_tts(tier, voice_id, raw_text, now, day) {
            TtsOpening::Rejected { reason } => {
                return (TtsAnswer::Rejected { reason }, asked);
            },
            TtsOpening::Cached { audio } => {
                return (TtsAnswer::Audio { audio }, asked);
            },
            TtsOpening::Dispatch { step } => step,
        };
        let ghost start = first@;
        let ghost items = outcomes@;
        let ghost all = outcomes_view(outcomes@);
        let ghost config = self.config;
        let mut step = first;
        proof {
            assert(all.skip(0) =~= all);
            assert(texts_view(asked@) + run_from(config, step@, all).1 =~= run_from(
                config,
                step@,
                all,
            ).1);
        }
        for outcome in it: outcomes.into_iter()
            invariant
                it.seq() == items,
                all == outcomes_view(items),
                *self == *old(self),
                config == self.config,
                run_from(config, start, all).0 == run_from(
                    config,
                    step@,
                    all.skip(it.index() as int),
                ).0,
                run_from(config, start, all).1 == texts_view(asked@) + run_from(
                    config,
                    step@,
                    all.skip(it.index() as int),
                ).1,
        {
            proof {
                let k = it.index() as int;
                assert(all.skip(k)[0] == outcome@);
                assert(all.skip(k).drop_first() =~= all.skip(k + 1));
            }
            let ghost before_step = step@;
            let ghost before_asked = texts_view(asked@);
            step = match step {
                DispatchStep::Attempt { provider, voice_id, timeout_secs, state } => {
                    let next = resume_dispatch(&self.config, state, outcome);
                    proof {
                        assert(texts_view(asked@.push(voice_id)) =~= before_asked.push(voice_id@));
                    }
                    asked.push(voice_id);
                    next
                },
                other => other,
            };
            proof {
                let k = it.index() as int;
                let rest = run_from(config, step@, all.skip(k + 1));
                assert(texts_view(asked@) + rest.1 =~= before_asked + run_from(
                    config,
                    before_step,
                    all.skip(k),
                ).1);
            }
        }
        proof {
            assert(all.skip(all.len() as int) =~= Seq::<AttemptOutcomeView>::empty());
            assert(texts_view(asked@) + Seq::<Seq<char>>::empty() =~= texts_view(asked@));
        }
        match step {
            DispatchStep::Deliver { audio } => {
                self.settle_tts(tier, voice_id, raw_text, audio.as_slice(), now, day);
                (TtsAnswer::Audio { audio }, asked)
            },
            DispatchStep::Fail { error } => (TtsAnswer::Failed { error }, asked),
            DispatchStep::Attempt { .. } => (TtsAnswer::Waiting, asked),
        }
    }

    /// The cached reading of a text at the second `now`.
    pub fn cached_reading(&self, raw_text: &str, now: u64) -> (reading: Option<String>)
        ensures
            match reading {
                Some(r) => hit_of(self.cache, "to_reading"@, raw_text@, now) == Some(r@),
                None => hit_of(self.cache, "to_reading"@, raw_text@, now) is None,
            },
    {
        self.lookup("to_reading", raw_text, now)
    }

    /// Keeps the reading of a text in the cache. No use is counted.
    pub fn store_reading(&mut self, raw_text: &str, reading: &str, now: u64)
        requires
            now + READING_TTL_SECS <= u64::MAX,
        ensures
            final(self).config == old(self).config,
            written(
                old(self).cache,
                final(self).cache,
                "to_reading"@,
                raw_text@,
                reading@,
                READING_TTL_SECS,
                now,
            ),
            forall|s: Seq<char>, f: Seq<char>, d: u64|
                final(self).ledger.used(s, f, d) == old(self).ledger.used(s, f, d),
    {
        let key = cache_key("to_reading", raw_text);
        self.cache.set(key.as_str(), "to_reading", reading, READING_TTL_SECS, now);
    }

    /// Opens a request for an answer of `feature` to `payload`.
    pub fn open_generation(&self, tier: &UserTier, feature: &str, payload: &str, now: u64, day: u64) -> (opening:
        GenerationOpening)
        ensures
            opening@ == generation_opening_of(*self, *tier, feature@, payload@, now, day),
            cache_ttl_of(feature@) is None ==> !(opening is Cached),
    {
        match self.check_quota(tier, feature, day) {
            Err(reason) => GenerationOpening::Rejected { reason },
            Ok(_) => {
                if self.config.api_key.as_str().is_empty() {
                    GenerationOpening::Unavailable { missing: MissingConfig::GeneratorKey }
                } else {
                    match cache_ttl(feature) {
                        Some(_) => self.cached_answer(feature, payload, now),
                        None => GenerationOpening::Generate,
                    }
                }
            },
        }
    }

    /// The cached answer where there is one, the order to generate where
    /// there is none.
    pub fn cached_answer(&self, feature: &str, payload: &str, now: u64) -> (opening:
        GenerationOpening)
        ensures
            opening@ == cached_or_generate(self.cache, feature@, payload@, now),
    {
        let cached = self.lookup(feature, payload, now);
        let well_formed = match &cached {
            Some(answer) => json_is_well_formed(answer.as_str()),
            None => false,
        };
        answer_opening(cached, well_formed)
    }

    /// Opens a request for a spoken dialogue that is cached under `payload`.
    pub fn open_podcast(&self, tier: &UserTier, uses_qwen_omni: bool, payload: &str, now: u64, day: u64) -> (opening:
        GenerationOpening)
        ensures
            opening@ == podcast_opening_of(*self, *tier, uses_qwen_omni, payload@, now, day),
    {
        match self.check_quota(tier, "podcast", day) {
            Err(reason) => GenerationOpening::Rejected { reason },
            Ok(_) => {
                if self.config.api_key.as_str().is_empty() {
                    GenerationOpening::Unavailable { missing: MissingConfig::GeneratorKey }
                } else if !uses_qwen_omni && !self.config.is_configured(ProviderKind::OpenAi) {
                    GenerationOpening::Unavailable { missing: MissingConfig::SpeechKey }
                } else if uses_qwen_omni && !self.config.is_configured(ProviderKind::QwenOmni) {
                    GenerationOpening::Unavailable { missing: MissingConfig::BatchEndpoint }
                } else {
                    self.cached_answer("podcast", payload, now)
                }
            },
        }
    }

    /// Closes a request for an answer that was generated: one use is counted
    /// for a limited caller, and the answer goes to the cache where the
    /// feature's answers are cached.
    pub fn settle_generation(
        &mut self,
        tier: &UserTier,
        feature: &str,
        payload: &str,
        answer: &str,
        now: u64,
        day: u64,
    )
        requires
            now + LONGEST_ANSWER_TTL_SECS <= u64::MAX,
        ensures
            match cache_ttl_of(feature@) {
                Some(ttl) => settled(
                    *old(self),
                    *final(self),
                    *tier,
                    feature@,
                    feature@,
                    payload@,
                    answer@,
                    ttl,
                    now,
                    day,
                ),
                None => {
                    &&& final(self).config == old(self).config
                    &&& forall|key: Seq<char>|
                        final(self).cache.stored(key) == old(self).cache.stored(key)
                    &&& counted_once(old(self).ledger, final(self).ledger, *tier, feature@, day)
                },
            },
    {
        match cache_ttl(feature) {
            Some(ttl) => {
                self.settle(tier, feature, feature, payload, answer, ttl, now, day);
            },
            None => {
                increment_if_free(&mut self.ledger, tier, feature, day);
            },
        }
    }
}

} // verus!
