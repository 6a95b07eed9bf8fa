//! The failover dispatcher: which provider is tried first and for how long,
//! and what follows each attempt. The caller runs the attempts; the
//! dispatcher decides.

use vstd::prelude::*;
use crate::adapter::{AdapterError, AdapterErrorView};
use crate::provider::{
    class_of, eligible, fallback_chain_of, fallback_providers, fallback_voice_of,
    lemma_fallback_chain, primary_timeout_of, provider_of, resolve_voice, GatewayConfig,
    ProviderClass, ProviderKind, FALLBACK_TIMEOUT_SECS,
};

verus! {

/// How one attempt on one provider ended.
#[derive(Debug, Clone, PartialEq, Eq)]
pub enum AttemptOutcome {
    /// The provider delivered audio.
    Delivered { audio: Vec<u8> },
    /// The provider's adapter reported an error.
    Failed { error: AdapterError },
    /// The attempt's deadline passed first.
    TimedOut,
}

/// An `AttemptOutcome` as a plain value.
pub ghost enum AttemptOutcomeView {
    Delivered { audio: Seq<u8> },
    Failed { error: AdapterErrorView },
    TimedOut,
}

impl View for AttemptOutcome {
    type V = AttemptOutcomeView;

    open spec fn view(&self) -> AttemptOutcomeView {
        match *self {
            AttemptOutcome::Delivered { audio } => AttemptOutcomeView::Delivered { audio: audio@ },
            AttemptOutcome::Failed { error } => AttemptOutcomeView::Failed { error: error@ },
            AttemptOutcome::TimedOut => AttemptOutcomeView::TimedOut,
        }
    }
}

/// Why a dispatch ended without audio.
#[derive(Debug, Clone, PartialEq, Eq)]
pub enum DispatchError {
    /// A batch provider failed; no alternate is tried after one.
    Provider { error: AdapterError },
    /// A batch provider did not answer within its deadline.
    AttemptTimeout,
    /// The first provider failed, and so did every alternate, if there was
    /// any.
    AllProvidersFailed,
}

/// A `DispatchError` as a plain value.
pub ghost enum DispatchErrorView {
    Provider { error: AdapterErrorView },
    AttemptTimeout,
    AllProvidersFailed,
}

impl View for DispatchError {
    type V = DispatchErrorView;

    open spec fn view(&self) -> DispatchErrorView {
        match *self {
            DispatchError::Provider { error } => DispatchErrorView::Provider { error: error@ },
            DispatchError::AttemptTimeout => DispatchErrorView::AttemptTimeout,
            DispatchError::AllProvidersFailed => DispatchErrorView::AllProvidersFailed,
        }
    }
}

/// Where a dispatch stands: the attempt whose outcome it waits for.
#[derive(Debug, Clone, PartialEq, Eq)]
pub enum DispatchState {
    /// The attempt on the provider that the request asked for.
    Primary { voice_id: String },
    /// The attempt on the alternate at `index` of `chain`.
    Fallback { chain: Vec<ProviderKind>, index: usize },
}

/// A `DispatchState` as a plain value.
pub ghost enum DispatchStateView {
    Primary { voice_id: Seq<char> },
    Fallback { chain: Seq<ProviderKind>, index: int },
}

impl View for DispatchState {
    type V = DispatchStateView;

    open spec fn view(&self) -> DispatchStateView {
        match *self {
            DispatchState::Primary { voice_id } => DispatchStateView::Primary { voice_id: voice_id@ },
            DispatchState::Fallback { chain, index } => DispatchStateView::Fallback {
                chain: chain@,
                index: index as int,
            },
        }
    }
}

/// What the caller does next.
#[derive(Debug, Clone, PartialEq, Eq)]
pub enum DispatchStep {
    /// Run one attempt on `provider` with `voice_id` under a deadline of
    /// `timeout_secs` seconds, and come back with its outcome and `state`.
    Attempt { provider: ProviderKind, voice_id: String, timeout_secs: u64, state: DispatchState },
    /// The dispatch succeeded with this audio.
    Deliver { audio: Vec<u8> },
    /// The dispatch failed for good.
    Fail { error: DispatchError },
}

/// A `DispatchStep` as a plain value.
pub ghost enum DispatchStepView {
    Attempt {
        provider: ProviderKind,
        voice_id: Seq<char>,
        timeout_secs: u64,
        state: DispatchStateView,
    },
    Deliver { audio: Seq<u8> },
    Fail { error: DispatchErrorView },
}

impl View for DispatchStep {
    type V = DispatchStepView;

    open spec fn view(&self) -> DispatchStepView {
        match *self {
            DispatchStep::Attempt { provider, voice_id, timeout_secs, state } => {
                DispatchStepView::Attempt { provider, voice_id: voice_id@, timeout_secs, state: state@ }
            },
            DispatchStep::Deliver { audio } => DispatchStepView::Deliver { audio: audio@ },
            DispatchStep::Fail { error } => DispatchStepView::Fail { error: error@ },
        }
    }
}

/// The first step of a dispatch: an attempt on the provider of the asked
/// voice, with the deadline of its class.
pub open spec fn start_of(voice_id: Seq<char>) -> DispatchStepView {
    DispatchStepView::Attempt {
        provider: provider_of(voice_id),
        voice_id,
        timeout_secs: primary_timeout_of(class_of(provider_of(voice_id))),
        state: DispatchStateView::Primary { voice_id },
    }
}

/// The step that tries the alternate at `index` of `chain`, or gives up
/// where the chain has none there.
pub open spec fn try_from(config: GatewayConfig, chain: Seq<ProviderKind>, index: int) -> DispatchStepView {
    if 0 <= index < chain.len() {
        DispatchStepView::Attempt {
            provider: chain[index],
            voice_id: fallback_voice_of(config, chain[index]),
            timeout_secs: FALLBACK_TIMEOUT_SECS,
            state: DispatchStateView::Fallback { chain, index },
        }
    } else {
        DispatchStepView::Fail { error: DispatchErrorView::AllProvidersFailed }
    }
}

/// The error with which a dispatch ends where a batch provider did not
/// deliver.
pub open spec fn terminal_error_of(outcome: AttemptOutcomeView) -> DispatchErrorView {
    match outcome {
        AttemptOutcomeView::Failed { error } => DispatchErrorView::Provider { error },
        _ => DispatchErrorView::AttemptTimeout,
    }
}

/// The step that follows the outcome of the attempt that `state` waited
/// for. Audio ends the dispatch. Without audio, a batch provider ends it
/// too; an interactive one is followed by the first alternate, and an
/// alternate by the next one.
pub open spec fn resume_of(
    config: GatewayConfig,
    state: DispatchStateView,
    outcome: AttemptOutcomeView,
) -> DispatchStepView {
    match outcome {
        AttemptOutcomeView::Delivered { audio } => DispatchStepView::Deliver { audio },
        _ => match state {
            DispatchStateView::Primary { voice_id } => {
                let kind = provider_of(voice_id);
                if class_of(kind) == ProviderClass::Batch {
                    DispatchStepView::Fail { error: terminal_error_of(outcome) }
                } else {
                    try_from(config, fallback_chain_of(config, kind), 0)
                }
            },
            DispatchStateView::Fallback { chain, index } => try_from(config, chain, index + 1),
        },
    }
}

/// Where a dispatch ends that stands at `step` and whose attempts end as
/// `outcomes` say, one after the other; the voices that it has then asked
/// for, and the providers that it has asked, in the order of the attempts.
/// A dispatch whose outcomes run out stays at the attempt that it waits
/// for.
pub open spec fn run_from(
    config: GatewayConfig,
    step: DispatchStepView,
    outcomes: Seq<AttemptOutcomeView>,
) -> (DispatchStepView, Seq<Seq<char>>, Seq<ProviderKind>)
    decreases outcomes.len(),
{
    match step {
        DispatchStepView::Attempt { provider, voice_id, timeout_secs, state } => {
            if outcomes.len() == 0 {
                (step, Seq::empty(), Seq::empty())
            } else {
                let rest = run_from(config, resume_of(config, state, outcomes[0]), outcomes.drop_first());
                (rest.0, seq![voice_id] + rest.1, seq![provider] + rest.2)
            }
        },
        _ => (step, Seq::empty(), Seq::empty()),
    }
}

/// Starts a dispatch for `voice_id`.
pub fn start_dispatch(voice_id: &str) -> (step: DispatchStep)
    ensures
        step@ == start_of(voice_id@),
{
    let kind = resolve_voice(voice_id).provider;
    DispatchStep::Attempt {
        provider: kind,
        voice_id: voice_id.to_owned(),
        timeout_secs: kind.class().primary_timeout_secs(),
        state: DispatchState::Primary { voice_id: voice_id.to_owned() },
    }
}

/// The step that tries the alternate at `index` of `chain`.
fn try_alternate(config: &GatewayConfig, chain: Vec<ProviderKind>, index: usize) -> (step:
    DispatchStep)
    ensures
        step@ == try_from(*config, chain@, index as int),
{
    if index < chain.len() {
        let provider = chain[index];
        let voice_id = config.fallback_voice(provider);
        DispatchStep::Attempt {
            provider,
            voice_id,
            timeout_secs: FALLBACK_TIMEOUT_SECS,
            state: DispatchState::Fallback { chain, index },
        }
    } else {
        DispatchStep::Fail { error: DispatchError::AllProvidersFailed }
    }
}

/// The step that tries the alternate behind the one at `index` of `chain`.
fn next_alternate(config: &GatewayConfig, chain: Vec<ProviderKind>, index: usize) -> (step:
    DispatchStep)
    ensures
        step@ == try_from(*config, chain@, index + 1),
{
    if index < chain.len() {
        try_alternate(config, chain, index + 1)
    } else {
        DispatchStep::Fail { error: DispatchError::AllProvidersFailed }
    }
}

/// Goes on with a dispatch once the attempt that `state` waited for has
/// ended with `outcome`.
pub fn resume_dispatch(config: &GatewayConfig, state: DispatchState, outcome: AttemptOutcome) -> (step:
    DispatchStep)
    ensures
        step@ == resume_of(*config, state@, outcome@),
{
    match outcome {
        AttemptOutcome::Delivered { audio } => DispatchStep::Deliver { audio },
        AttemptOutcome::Failed { error } => match state {
            DispatchState::Primary { voice_id } => {
                let kind = resolve_voice(voice_id.as_str()).provider;
                match kind.class() {
                    ProviderClass::Batch => DispatchStep::Fail {
                        error: DispatchError::Provider { error },
                    },
                    ProviderClass::Interactive => try_alternate(config, fallback_providers(config, kind), 0),
                }
            },
            DispatchState::Fallback { chain, index } => next_alternate(config, chain, index),
        },
        AttemptOutcome::TimedOut => match state {
            DispatchState::Primary { voice_id } => {
                let kind = resolve_voice(voice_id.as_str()).provider;
                match kind.class() {
                    ProviderClass::Batch => DispatchStep::Fail { error: DispatchError::AttemptTimeout },
                    ProviderClass::Interactive => try_alternate(config, fallback_providers(config, kind), 0),
                }
            },
            DispatchState::Fallback { chain, index } => next_alternate(config, chain, index),
        },
    }
}

/// A dispatch that goes through a chain of alternates from `index` on asks
/// them in the order of the chain, each for its own voice, one for each
/// outcome without audio, and none behind an outcome with audio.
pub proof fn lemma_chain_trace(
    config: GatewayConfig,
    chain: Seq<ProviderKind>,
    index: int,
    outcomes: Seq<AttemptOutcomeView>,
)
    requires
        0 <= index,
    ensures
        ({
            let run = run_from(config, try_from(config, chain, index), outcomes);
            &&& run.1.len() == run.2.len()
            &&& run.2.len() <= outcomes.len()
            &&& index + run.2.len() <= chain.len() || run.2.len() == 0
            &&& forall|i: int|
                0 <= i < run.2.len() ==> #[trigger] run.2[i] == chain[index + i] && run.1[i]
                    == fallback_voice_of(config, chain[index + i])
            &&& forall|j: int| 0 <= j < run.2.len() - 1 ==> !(#[trigger] outcomes[j] is Delivered)
        }),
        outcomes.len() >= chain.len() - index && (forall|j: int|
            0 <= j < outcomes.len() ==> !(#[trigger] outcomes[j] is Delivered)) ==> run_from(
            config,
            try_from(config, chain, index),
            outcomes,
        ).0 == (DispatchStepView::Fail { error: DispatchErrorView::AllProvidersFailed }),
    decreases outcomes.len(),
{
    let step = try_from(config, chain, index);
    if index < chain.len() && outcomes.len() > 0 {
        let rest = outcomes.drop_first();
        let state = DispatchStateView::Fallback { chain, index };
        let next = resume_of(config, state, outcomes[0]);
        let tail = run_from(config, next, rest);
        let run = run_from(config, step, outcomes);
        assert(run.1 == seq![fallback_voice_of(config, chain[index])] + tail.1);
        assert(run.2 == seq![chain[index]] + tail.2);
        if outcomes[0] is Delivered {
            assert(tail.2.len() == 0);
            assert(tail.1.len() == 0);
        } else {
            assert(next == try_from(config, chain, index + 1));
            lemma_chain_trace(config, chain, index + 1, rest);
            assert forall|i: int| 0 <= i < run.2.len() implies #[trigger] run.2[i] == chain[index
                + i] && run.1[i] == fallback_voice_of(config, chain[index + i]) by {
                if i > 0 {
                    assert(run.2[i] == tail.2[i - 1]);
                    assert(run.1[i] == tail.1[i - 1]);
                }
            }
            assert forall|j: int| 0 <= j < run.2.len() - 1 implies !(
            #[trigger] outcomes[j] is Delivered) by {
                if j > 0 {
                    assert(outcomes[j] == rest[j - 1]);
                }
            }
            if outcomes.len() >= chain.len() - index && (forall|j: int|
                0 <= j < outcomes.len() ==> !(#[trigger] outcomes[j] is Delivered)) {
                assert forall|j: int| 0 <= j < rest.len() implies !(#[trigger] rest[j] is Delivered) by {
                    assert(rest[j] == outcomes[j + 1]);
                }
            }
        }
    }
}

/// After an interactive provider failed, the dispatch asks the alternates of
/// its chain in their order of priority: the next one only after the one
/// before it has failed too, each of them a configured interactive
/// provider other than the one that failed first, and that one never
/// again. Where every attempt fails, the dispatch ends with the failure of
/// all providers.
pub proof fn lemma_failover_order(
    config: GatewayConfig,
    voice_id: Seq<char>,
    outcomes: Seq<AttemptOutcomeView>,
)
    requires
        class_of(provider_of(voice_id)) == ProviderClass::Interactive,
        outcomes.len() > 0,
        !(outcomes[0] is Delivered),
    ensures
        ({
            let failed = provider_of(voice_id);
            let chain = fallback_chain_of(config, failed);
            let run = run_from(config, start_of(voice_id), outcomes);
            &&& run.1.len() == run.2.len()
            &&& 1 <= run.2.len() <= outcomes.len()
            &&& run.2.len() <= 1 + chain.len()
            &&& run.1[0] == voice_id
            &&& run.2[0] == failed
            &&& forall|i: int|
                1 <= i < run.2.len() ==> {
                    &&& #[trigger] run.2[i] == chain[i - 1]
                    &&& run.1[i] == fallback_voice_of(config, chain[i - 1])
                    &&& eligible(config, failed, run.2[i])
                    &&& run.2[i] != failed
                }
            &&& forall|j: int| 0 <= j < run.2.len() - 1 ==> !(#[trigger] outcomes[j] is Delivered)
        }),
        (forall|j: int| 0 <= j < outcomes.len() ==> !(#[trigger] outcomes[j] is Delivered))
            && outcomes.len() > fallback_chain_of(config, provider_of(voice_id)).len() ==> run_from(
            config,
            start_of(voice_id),
            outcomes,
        ).0 == (DispatchStepView::Fail { error: DispatchErrorView::AllProvidersFailed }),
{
    let kind = provider_of(voice_id);
    let chain = fallback_chain_of(config, kind);
    let rest = outcomes.drop_first();
    let state = DispatchStateView::Primary { voice_id };
    let next = resume_of(config, state, outcomes[0]);
    assert(next == try_from(config, chain, 0));
    let tail = run_from(config, next, rest);
    let run = run_from(config, start_of(voice_id), outcomes);
    assert(run.1 == seq![voice_id] + tail.1);
    assert(run.2 == seq![kind] + tail.2);
    lemma_chain_trace(config, chain, 0, rest);
    lemma_fallback_chain(config, kind);
    assert forall|i: int| 1 <= i < run.2.len() implies {
        &&& #[trigger] run.2[i] == chain[i - 1]
        &&& run.1[i] == fallback_voice_of(config, chain[i - 1])
        &&& eligible(config, kind, run.2[i])
        &&& run.2[i] != kind
    } by {
        assert(run.2[i] == tail.2[i - 1]);
        assert(run.1[i] == tail.1[i - 1]);
        assert(eligible(config, kind, chain[i - 1]));
    }
    assert forall|j: int| 0 <= j < run.2.len() - 1 implies !(#[trigger] outcomes[j] is Delivered) by {
        if j > 0 {
            assert(outcomes[j] == rest[j - 1]);
        }
    }
    if (forall|j: int| 0 <= j < outcomes.len() ==> !(#[trigger] outcomes[j] is Delivered))
        && outcomes.len() > chain.len() {
        assert forall|j: int| 0 <= j < rest.len() implies !(#[trigger] rest[j] is Delivered) by {
            assert(rest[j] == outcomes[j + 1]);
        }
    }
}

/// A batch provider that does not deliver ends the dispatch at once: with
/// its own error where it failed, with the timeout of the attempt where its
/// deadline passed. No alternate is asked, whatever is configured.
pub proof fn lemma_batch_never_falls_back(
    config: GatewayConfig,
    voice_id: Seq<char>,
    outcomes: Seq<AttemptOutcomeView>,
)
    requires
        class_of(provider_of(voice_id)) == ProviderClass::Batch,
        outcomes.len() > 0,
        !(outcomes[0] is Delivered),
    ensures
        run_from(config, start_of(voice_id), outcomes) == (
            DispatchStepView::Fail { error: terminal_error_of(outcomes[0]) },
            seq![voice_id],
            seq![provider_of(voice_id)],
        ),
{
    let state = DispatchStateView::Primary { voice_id };
    let next = resume_of(config, state, outcomes[0]);
    let rest = run_from(config, next, outcomes.drop_first());
    assert(rest.1 =~= Seq::empty());
    assert(rest.2 =~= Seq::empty());
    assert(seq![voice_id] + rest.1 =~= seq![voice_id]);
    assert(seq![provider_of(voice_id)] + rest.2 =~= seq![provider_of(voice_id)]);
}

} // verus!
