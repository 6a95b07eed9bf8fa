//! The closed set of upstream providers: how a voice identifier selects one,
//! which credentials each needs, its latency class, and the order in which
//! alternates are tried after a failure.

use vstd::prelude::*;
use vstd::string::*;
use crate::text::strip_prefix;

verus! {

/// The upstream providers.
#[derive(Debug, Clone, Copy, PartialEq, Eq, Hash)]
pub enum ProviderKind {
    ElevenLabs,
    OpenAi,
    Cartesia,
    Fish,
    AimlApi,
    Venice,
    CosyVoice,
    QwenTts,
    QwenOmni,
}

/// How a provider answers: at once, or through a job that is polled.
#[derive(Debug, Clone, Copy, PartialEq, Eq)]
pub enum Capability {
    Synchronous,
    Asynchronous,
}

/// The latency class of a provider. It decides the timeout of an attempt and
/// whether a failure is followed by alternates.
#[derive(Debug, Clone, Copy, PartialEq, Eq)]
pub enum ProviderClass {
    Interactive,
    Batch,
}

/// Credentials, endpoint identifiers and default voices, handed in where
/// the gateway is built. An empty string stands for a value that is not
/// configured.
#[derive(Debug, Clone, PartialEq, Eq)]
pub struct GatewayConfig {
    pub api_key: String,
    pub elevenlabs_api_key: String,
    pub openai_api_key: String,
    pub cartesia_api_key: String,
    pub fish_audio_api_key: String,
    pub aimlapi_key: String,
    pub venice_api_key: String,
    pub runpod_api_key: String,
    pub cosyvoice_endpoint_id: String,
    pub qwen_tts_endpoint_id: String,
    pub qwen_omni_endpoint_id: String,
    /// The voice of the default provider where it stands in for another.
    /// The voices of this provider and of the two below belong to an
    /// account, so that none can be fixed here. A provider whose default
    /// voice is left empty is still asked where it is configured, with an
    /// empty voice.
    pub elevenlabs_default_voice: String,
    /// The voice of the second listing provider where it stands in for
    /// another.
    pub cartesia_default_voice: String,
    /// The voice of the third listing provider where it stands in for
    /// another.
    pub fish_default_voice: String,
}

/// What the registry says of one provider.
#[derive(Debug, Clone, PartialEq, Eq)]
pub struct ProviderDescriptor {
    pub id: &'static str,
    pub kind: Capability,
    pub configured: bool,
    pub class: ProviderClass,
}

/// A voice identifier, resolved: the provider it selects and what is left of
/// it once the provider's tag is taken off.
#[derive(Debug, Clone, Copy, PartialEq, Eq)]
pub struct VoiceChoice<'a> {
    pub provider: ProviderKind,
    pub argument: &'a str,
}

/// The tag that selects a provider at the start of a voice identifier. The
/// default provider has none.
pub open spec fn tag_of(kind: ProviderKind) -> Seq<char> {
    match kind {
        ProviderKind::ElevenLabs => ""@,
        ProviderKind::OpenAi => "openai:"@,
        ProviderKind::Cartesia => "cartesia:"@,
        ProviderKind::Fish => "fish:"@,
        ProviderKind::AimlApi => "aimlapi:"@,
        ProviderKind::Venice => "venice:"@,
        ProviderKind::CosyVoice => "cosyvoice:"@,
        ProviderKind::QwenTts => "qwen-tts:"@,
        ProviderKind::QwenOmni => "qwen-omni:"@,
    }
}

/// The provider that a voice identifier selects: the one whose tag it starts
/// with, the default provider where it starts with none.
pub open spec fn provider_of(voice_id: Seq<char>) -> ProviderKind {
    if "openai:"@.is_prefix_of(voice_id) {
        ProviderKind::OpenAi
    } else if "cartesia:"@.is_prefix_of(voice_id) {
        ProviderKind::Cartesia
    } else if "fish:"@.is_prefix_of(voice_id) {
        ProviderKind::Fish
    } else if "aimlapi:"@.is_prefix_of(voice_id) {
        ProviderKind::AimlApi
    } else if "venice:"@.is_prefix_of(voice_id) {
        ProviderKind::Venice
    } else if "cosyvoice:"@.is_prefix_of(voice_id) {
        ProviderKind::CosyVoice
    } else if "qwen-tts:"@.is_prefix_of(voice_id) {
        ProviderKind::QwenTts
    } else if "qwen-omni:"@.is_prefix_of(voice_id) {
        ProviderKind::QwenOmni
    } else {
        ProviderKind::ElevenLabs
    }
}

/// What a voice identifier hands to its provider: the identifier without the
/// provider's tag.
pub open spec fn argument_of(voice_id: Seq<char>) -> Seq<char> {
    voice_id.skip(tag_of(provider_of(voice_id)).len() as int)
}

/// The latency class of a provider: those that start cold on rented
/// hardware are batch, the others interactive.
pub open spec fn class_of(kind: ProviderKind) -> ProviderClass {
    match kind {
        ProviderKind::CosyVoice | ProviderKind::QwenTts | ProviderKind::QwenOmni => ProviderClass::Batch,
        _ => ProviderClass::Interactive,
    }
}

/// How a provider answers.
pub open spec fn capability_of(kind: ProviderKind) -> Capability {
    match kind {
        ProviderKind::QwenOmni => Capability::Asynchronous,
        _ => Capability::Synchronous,
    }
}

/// Whether everything that a provider needs is configured.
pub open spec fn configured(config: GatewayConfig, kind: ProviderKind) -> bool {
    match kind {
        ProviderKind::ElevenLabs => config.elevenlabs_api_key@.len() > 0,
        ProviderKind::OpenAi => config.openai_api_key@.len() > 0,
        ProviderKind::Cartesia => config.cartesia_api_key@.len() > 0,
        ProviderKind::Fish => config.fish_audio_api_key@.len() > 0,
        ProviderKind::AimlApi => config.aimlapi_key@.len() > 0,
        ProviderKind::Venice => config.venice_api_key@.len() > 0,
        ProviderKind::CosyVoice => config.runpod_api_key@.len() > 0
            && config.cosyvoice_endpoint_id@.len() > 0,
        ProviderKind::QwenTts => config.runpod_api_key@.len() > 0
            && config.qwen_tts_endpoint_id@.len() > 0,
        ProviderKind::QwenOmni => config.runpod_api_key@.len() > 0
            && config.qwen_omni_endpoint_id@.len() > 0,
    }
}

/// The timeout in seconds of a first attempt: short for an interactive
/// provider, long for a batch one.
pub open spec fn primary_timeout_of(class: ProviderClass) -> u64 {
    match class {
        ProviderClass::Interactive => 10,
        ProviderClass::Batch => 90,
    }
}

/// The timeout in seconds of each attempt on an alternate.
pub const FALLBACK_TIMEOUT_SECS: u64 = 5;

/// The name under which a provider appears in the registry.
pub open spec fn name_of(kind: ProviderKind) -> Seq<char> {
    match kind {
        ProviderKind::ElevenLabs => "elevenlabs"@,
        ProviderKind::OpenAi => "openai"@,
        ProviderKind::Cartesia => "cartesia"@,
        ProviderKind::Fish => "fish"@,
        ProviderKind::AimlApi => "aimlapi"@,
        ProviderKind::Venice => "venice"@,
        ProviderKind::CosyVoice => "cosyvoice"@,
        ProviderKind::QwenTts => "qwen-tts"@,
        ProviderKind::QwenOmni => "qwen-omni"@,
    }
}

impl ProviderKind {
    /// The tag that selects this provider in a voice identifier.
    pub fn tag(self) -> (tag: &'static str)
        ensures
            tag@ == tag_of(self),
    {
        match self {
            ProviderKind::ElevenLabs => "",
            ProviderKind::OpenAi => "openai:",
            ProviderKind::Cartesia => "cartesia:",
            ProviderKind::Fish => "fish:",
            ProviderKind::AimlApi => "aimlapi:",
            ProviderKind::Venice => "venice:",
            ProviderKind::CosyVoice => "cosyvoice:",
            ProviderKind::QwenTts => "qwen-tts:",
            ProviderKind::QwenOmni => "qwen-omni:",
        }
    }

    /// The name under which this provider appears in the registry.
    pub fn name(self) -> (name: &'static str)
        ensures
            name@ == name_of(self),
    {
        match self {
            ProviderKind::ElevenLabs => "elevenlabs",
            ProviderKind::OpenAi => "openai",
            ProviderKind::Cartesia => "cartesia",
            ProviderKind::Fish => "fish",
            ProviderKind::AimlApi => "aimlapi",
            ProviderKind::Venice => "venice",
            ProviderKind::CosyVoice => "cosyvoice",
            ProviderKind::QwenTts => "qwen-tts",
            ProviderKind::QwenOmni => "qwen-omni",
        }
    }

    /// The latency class of this provider.
    pub fn class(self) -> (class: ProviderClass)
        ensures
            class == class_of(self),
    {
        match self {
            ProviderKind::CosyVoice | ProviderKind::QwenTts | ProviderKind::QwenOmni => ProviderClass::Batch,
            _ => ProviderClass::Interactive,
        }
    }

    /// How this provider answers.
    pub fn capability(self) -> (capability: Capability)
        ensures
            capability == capability_of(self),
    {
        match self {
            ProviderKind::QwenOmni => Capability::Asynchronous,
            _ => Capability::Synchronous,
        }
    }
}

impl ProviderClass {
    /// The timeout in seconds of a first attempt on a provider of this class.
    pub fn primary_timeout_secs(self) -> (secs: u64)
        ensures
            secs == primary_timeout_of(self),
    {
        match self {
            ProviderClass::Interactive => 10,
            ProviderClass::Batch => 90,
        }
    }
}

impl GatewayConfig {
    /// Whether everything that `kind` needs is configured.
    pub fn is_configured(&self, kind: ProviderKind) -> (yes: bool)
        ensures
            yes == configured(*self, kind),
    {
        match kind {
            ProviderKind::ElevenLabs => !self.elevenlabs_api_key.as_str().is_empty(),
            ProviderKind::OpenAi => !self.openai_api_key.as_str().is_empty(),
            ProviderKind::Cartesia => !self.cartesia_api_key.as_str().is_empty(),
            ProviderKind::Fish => !self.fish_audio_api_key.as_str().is_empty(),
            ProviderKind::AimlApi => !self.aimlapi_key.as_str().is_empty(),
            ProviderKind::Venice => !self.venice_api_key.as_str().is_empty(),
            ProviderKind::CosyVoice => !self.runpod_api_key.as_str().is_empty()
                && !self.cosyvoice_endpoint_id.as_str().is_empty(),
            ProviderKind::QwenTts => !self.runpod_api_key.as_str().is_empty()
                && !self.qwen_tts_endpoint_id.as_str().is_empty(),
            ProviderKind::QwenOmni => !self.runpod_api_key.as_str().is_empty()
                && !self.qwen_omni_endpoint_id.as_str().is_empty(),
        }
    }

    /// What the registry says of `kind` under this configuration.
    pub fn descriptor(&self, kind: ProviderKind) -> (d: ProviderDescriptor)
        ensures
            d.id@ == name_of(kind),
            d.kind == capability_of(kind),
            d.configured == configured(*self, kind),
            d.class == class_of(kind),
    {
        ProviderDescriptor {
            id: kind.name(),
            kind: kind.capability(),
            configured: self.is_configured(kind),
            class: kind.class(),
        }
    }
}

/// A string that starts with `prefix` and goes on with `rest` has `prefix`
/// as a prefix and `rest` behind it.
pub proof fn lemma_prefix_split(s: Seq<char>, prefix: Seq<char>, rest: Seq<char>)
    requires
        s == prefix + rest,
    ensures
        prefix.is_prefix_of(s),
        s.skip(prefix.len() as int) == rest,
{
    assert(s.subrange(0, prefix.len() as int) =~= prefix);
    assert(s.skip(prefix.len() as int) =~= rest);
}

/// Resolves a voice identifier: the provider whose tag it starts with and
/// the rest behind the tag; the default provider and the whole identifier
/// where it starts with no tag.
pub fn resolve_voice<'a>(voice_id: &'a str) -> (choice: VoiceChoice<'a>)
    ensures
        choice.provider == provider_of(voice_id@),
        choice.argument@ == argument_of(voice_id@),
{
    if let Some(rest) = strip_prefix(voice_id, "openai:") {
        proof {
            lemma_prefix_split(voice_id@, "openai:"@, rest@);
        }
        return VoiceChoice { provider: ProviderKind::OpenAi, argument: rest };
    }
    if let Some(rest) = strip_prefix(voice_id, "cartesia:") {
        proof {
            lemma_prefix_split(voice_id@, "cartesia:"@, rest@);
        }
        return VoiceChoice { provider: ProviderKind::Cartesia, argument: rest };
    }
    if let Some(rest) = strip_prefix(voice_id, "fish:") {
        proof {
            lemma_prefix_split(voice_id@, "fish:"@, rest@);
        }
        return VoiceChoice { provider: ProviderKind::Fish, argument: rest };
    }
    if let Some(rest) = strip_prefix(voice_id, "aimlapi:") {
        proof {
            lemma_prefix_split(voice_id@, "aimlapi:"@, rest@);
        }
        return VoiceChoice { provider: ProviderKind::AimlApi, argument: rest };
    }
    if let Some(rest) = strip_prefix(voice_id, "venice:") {
        proof {
            lemma_prefix_split(voice_id@, "venice:"@, rest@);
        }
        return VoiceChoice { provider: ProviderKind::Venice, argument: rest };
    }
    if let Some(rest) = strip_prefix(voice_id, "cosyvoice:") {
        proof {
            lemma_prefix_split(voice_id@, "cosyvoice:"@, rest@);
        }
        return VoiceChoice { provider: ProviderKind::CosyVoice, argument: rest };
    }
    if let Some(rest) = strip_prefix(voice_id, "qwen-tts:") {
        proof {
            lemma_prefix_split(voice_id@, "qwen-tts:"@, rest@);
        }
        return VoiceChoice { provider: ProviderKind::QwenTts, argument: rest };
    }
    if let Some(rest) = strip_prefix(voice_id, "qwen-omni:") {
        proof {
            lemma_prefix_split(voice_id@, "qwen-omni:"@, rest@);
        }
        return VoiceChoice { provider: ProviderKind::QwenOmni, argument: rest };
    }
    proof {
        reveal_strlit("");
        assert(voice_id@.skip(0) =~= voice_id@);
    }
    VoiceChoice { provider: ProviderKind::ElevenLabs, argument: voice_id }
}

/// Whether `kind` may stand in for a provider that failed: it is another
/// provider, it is configured, and it is interactive.
pub open spec fn eligible(config: GatewayConfig, failed: ProviderKind, kind: ProviderKind) -> bool {
    kind != failed && configured(config, kind) && class_of(kind) == ProviderClass::Interactive
}

/// `kind` alone where it is eligible, nothing where it is not.
pub open spec fn pick(config: GatewayConfig, failed: ProviderKind, kind: ProviderKind) -> Seq<
    ProviderKind,
> {
    if eligible(config, failed, kind) {
        seq![kind]
    } else {
        Seq::empty()
    }
}

/// The alternates to try after `failed`, in the order of trial: every
/// eligible provider, once, in the fixed order of priority, the fastest
/// and cheapest first.
pub open spec fn fallback_chain_of(config: GatewayConfig, failed: ProviderKind) -> Seq<ProviderKind> {
    pick(config, failed, ProviderKind::AimlApi) + pick(config, failed, ProviderKind::Venice) + pick(
        config,
        failed,
        ProviderKind::OpenAi,
    ) + pick(config, failed, ProviderKind::ElevenLabs) + pick(
        config,
        failed,
        ProviderKind::Cartesia,
    ) + pick(config, failed, ProviderKind::Fish)
}

/// What an alternate is handed as the rest of its voice identifier: a
/// fixed voice for the providers whose voices every account can use, the
/// configured default voice for those whose voices belong to an account.
pub open spec fn fallback_argument_of(config: GatewayConfig, kind: ProviderKind) -> Seq<char> {
    match kind {
        ProviderKind::AimlApi => "openai/gpt-4o-mini-tts:nova"@,
        ProviderKind::Venice => "af_heart"@,
        ProviderKind::OpenAi => "nova"@,
        ProviderKind::ElevenLabs => config.elevenlabs_default_voice@,
        ProviderKind::Cartesia => config.cartesia_default_voice@,
        ProviderKind::Fish => config.fish_default_voice@,
        _ => Seq::empty(),
    }
}

/// The voice identifier that an alternate is asked for: its tag and what
/// it is handed behind it.
pub open spec fn fallback_voice_of(config: GatewayConfig, kind: ProviderKind) -> Seq<char> {
    tag_of(kind) + fallback_argument_of(config, kind)
}

/// The place of a provider in the fixed order of priority. The batch
/// providers, which are never alternates, come last.
pub open spec fn priority_of(kind: ProviderKind) -> int {
    match kind {
        ProviderKind::AimlApi => 0,
        ProviderKind::Venice => 1,
        ProviderKind::OpenAi => 2,
        ProviderKind::ElevenLabs => 3,
        ProviderKind::Cartesia => 4,
        ProviderKind::Fish => 5,
        _ => 6,
    }
}

/// A provider is in the chain of alternates if and only if it is another
/// provider than the one that failed, is configured and is interactive.
/// The alternates stand in strictly rising priority, so that none occurs
/// twice.
pub proof fn lemma_fallback_chain(config: GatewayConfig, failed: ProviderKind)
    ensures
        forall|i: int|
            0 <= i < fallback_chain_of(config, failed).len() ==> eligible(
                config,
                failed,
                #[trigger] fallback_chain_of(config, failed)[i],
            ),
        forall|i: int, j: int|
            0 <= i < j < fallback_chain_of(config, failed).len() ==> priority_of(
                fallback_chain_of(config, failed)[i],
            ) < priority_of(fallback_chain_of(config, failed)[j]),
        forall|kind: ProviderKind|
            fallback_chain_of(config, failed).contains(kind) <==> eligible(config, failed, kind),
{
    let a = pick(config, failed, ProviderKind::AimlApi);
    let b = pick(config, failed, ProviderKind::Venice);
    let c = pick(config, failed, ProviderKind::OpenAi);
    let d = pick(config, failed, ProviderKind::ElevenLabs);
    let e = pick(config, failed, ProviderKind::Cartesia);
    let f = pick(config, failed, ProviderKind::Fish);
    let chain = fallback_chain_of(config, failed);
    assert(chain == a + b + c + d + e + f);
    let nb = a.len() as int;
    let nc = nb + b.len();
    let nd = nc + c.len();
    let ne = nd + d.len();
    let nf = ne + e.len();
    assert forall|i: int| 0 <= i < chain.len() implies eligible(config, failed, #[trigger] chain[i])
        && priority_of(chain[i]) == (if i < nb {
        0int
    } else if i < nc {
        1int
    } else if i < nd {
        2int
    } else if i < ne {
        3int
    } else if i < nf {
        4int
    } else {
        5int
    }) by {
        if i < nb {
            assert(chain[i] == a[i]);
        } else if i < nc {
            assert(chain[i] == b[i - nb]);
        } else if i < nd {
            assert(chain[i] == c[i - nc]);
        } else if i < ne {
            assert(chain[i] == d[i - nd]);
        } else if i < nf {
            assert(chain[i] == e[i - ne]);
        } else {
            assert(chain[i] == f[i - nf]);
        }
    }
    assert forall|i: int, j: int| 0 <= i < j < chain.len() implies priority_of(chain[i])
        < priority_of(chain[j]) by {
        assert(eligible(config, failed, chain[i]));
        assert(eligible(config, failed, chain[j]));
    }
    assert forall|kind: ProviderKind| eligible(config, failed, kind) implies chain.contains(
        kind,
    ) by {
        match kind {
            ProviderKind::AimlApi => {
                assert(chain[0] == kind);
            },
            ProviderKind::Venice => {
                assert(chain[nb] == kind);
            },
            ProviderKind::OpenAi => {
                assert(chain[nc] == kind);
            },
            ProviderKind::ElevenLabs => {
                assert(chain[nd] == kind);
            },
            ProviderKind::Cartesia => {
                assert(chain[ne] == kind);
            },
            ProviderKind::Fish => {
                assert(chain[nf] == kind);
            },
            _ => {},
        }
    }
    assert forall|kind: ProviderKind| chain.contains(kind) implies eligible(
        config,
        failed,
        kind,
    ) by {
        let i = choose|i: int| 0 <= i < chain.len() && chain[i] == kind;
        assert(eligible(config, failed, chain[i]));
    }
}

impl GatewayConfig {
    /// What `kind` is handed as the rest of its voice identifier where it
    /// stands in for another provider.
    pub fn fallback_argument(&self, kind: ProviderKind) -> (argument: &str)
        ensures
            argument@ == fallback_argument_of(*self, kind),
    {
        match kind {
            ProviderKind::AimlApi => "openai/gpt-4o-mini-tts:nova",
            ProviderKind::Venice => "af_heart",
            ProviderKind::OpenAi => "nova",
            ProviderKind::ElevenLabs => self.elevenlabs_default_voice.as_str(),
            ProviderKind::Cartesia => self.cartesia_default_voice.as_str(),
            ProviderKind::Fish => self.fish_default_voice.as_str(),
            _ => {
                proof {
                    reveal_strlit("");
                }
                let none = "";
                assert(none@ =~= Seq::<char>::empty());
                none
            },
        }
    }

    /// The voice identifier that `kind` is asked for where it stands in for
    /// another provider.
    pub fn fallback_voice(&self, kind: ProviderKind) -> (voice: String)
        ensures
            voice@ == fallback_voice_of(*self, kind),
    {
        let mut voice = kind.tag().to_owned();
        voice.append(self.fallback_argument(kind));
        voice
    }
}

/// Whether two providers are the same.
pub fn same_provider(a: ProviderKind, b: ProviderKind) -> (same: bool)
    ensures
        same == (a == b),
{
    match (a, b) {
        (ProviderKind::ElevenLabs, ProviderKind::ElevenLabs) => true,
        (ProviderKind::OpenAi, ProviderKind::OpenAi) => true,
        (ProviderKind::Cartesia, ProviderKind::Cartesia) => true,
        (ProviderKind::Fish, ProviderKind::Fish) => true,
        (ProviderKind::AimlApi, ProviderKind::AimlApi) => true,
        (ProviderKind::Venice, ProviderKind::Venice) => true,
        (ProviderKind::CosyVoice, ProviderKind::CosyVoice) => true,
        (ProviderKind::QwenTts, ProviderKind::QwenTts) => true,
        (ProviderKind::QwenOmni, ProviderKind::QwenOmni) => true,
        _ => false,
    }
}

/// Adds `kind` to a chain where it may stand in for `failed`.
fn push_if_eligible(
    chain: &mut Vec<ProviderKind>,
    config: &GatewayConfig,
    failed: ProviderKind,
    kind: ProviderKind,
)
    ensures
        final(chain)@ == old(chain)@ + pick(*config, failed, kind),
{
    let interactive = match kind.class() {
        ProviderClass::Interactive => true,
        ProviderClass::Batch => false,
    };
    if !same_provider(kind, failed) && config.is_configured(kind) && interactive {
        chain.push(kind);
        assert(chain@ =~= old(chain)@ + pick(*config, failed, kind));
    } else {
        assert(chain@ =~= old(chain)@ + pick(*config, failed, kind));
    }
}

/// The alternates to try after `failed`, in the order of trial: every
/// configured interactive provider other than `failed`, once, by rising
/// priority.
pub fn fallback_providers(config: &GatewayConfig, failed: ProviderKind) -> (chain: Vec<ProviderKind>)
    ensures
        chain@ == fallback_chain_of(*config, failed),
        forall|kind: ProviderKind| chain@.contains(kind) <==> eligible(*config, failed, kind),
        forall|i: int, j: int|
            0 <= i < j < chain@.len() ==> priority_of(chain@[i]) < priority_of(chain@[j]),
{
    proof {
        lemma_fallback_chain(*config, failed);
    }
    let mut chain: Vec<ProviderKind> = Vec::new();
    push_if_eligible(&mut chain, config, failed, ProviderKind::AimlApi);
    push_if_eligible(&mut chain, config, failed, ProviderKind::Venice);
    push_if_eligible(&mut chain, config, failed, ProviderKind::OpenAi);
    push_if_eligible(&mut chain, config, failed, ProviderKind::ElevenLabs);
    push_if_eligible(&mut chain, config, failed, ProviderKind::Cartesia);
    push_if_eligible(&mut chain, config, failed, ProviderKind::Fish);
    assert(chain@ =~= fallback_chain_of(*config, failed));
    chain
}

/// The alternates to try after the provider of `current_voice_id` failed, as
/// pairs of a provider's name and the voice identifier to ask it for.
pub fn tts_fallback_chain(config: &GatewayConfig, current_voice_id: &str) -> (chain: Vec<
    (&'static str, String),
>)
    ensures
        chain@.len() == fallback_chain_of(*config, provider_of(current_voice_id@)).len(),
        forall|i: int|
            0 <= i < chain@.len() ==> {
                let kind = fallback_chain_of(*config, provider_of(current_voice_id@))[i];
                &&& (#[trigger] chain@[i]).0@ == name_of(kind)
                &&& chain@[i].1@ == fallback_voice_of(*config, kind)
            },
{
    let failed = resolve_voice(current_voice_id).provider;
    let kinds = fallback_providers(config, failed);
    let mut chain: Vec<(&'static str, String)> = Vec::new();
    let mut i: usize = 0;
    while i < kinds.len()
        invariant
            i <= kinds.len(),
            chain@.len() == i,
            forall|k: int|
                0 <= k < i ==> (#[trigger] chain@[k]).0@ == name_of(kinds@[k]) && chain@[k].1@
                    == fallback_voice_of(*config, kinds@[k]),
        decreases kinds.len() - i,
    {
        let kind = kinds[i];
        chain.push((kind.name(), config.fallback_voice(kind)));
        i += 1;
    }
    chain
}

} // verus!
