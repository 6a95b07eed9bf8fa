//! What is made of the answers of several models to one question about
//! an article: which answer is taken, where its document stands in it, and
//! whether the analysis that the document holds is sound.

use vstd::prelude::*;
use crate::text::{contains, first_occurrence, occurs_in, split_once, text_eq, trim, trimmed_of};

verus! {

/// What answers without the preferred mark are set back by, in
/// milliseconds.
pub const UNPREFERRED_PENALTY_MS: u64 = 10000;

/// The answer of one model.
#[derive(Debug, Clone, PartialEq, Eq)]
pub struct ModelResponse {
    pub model: String,
    pub response: String,
    pub tokens: u32,
    pub latency_ms: u64,
}

/// Why an analysis is not sound.
#[derive(Debug, Clone, Copy, PartialEq, Eq)]
pub enum AnalysisError {
    EmptySummary,
    EmptyKeywords,
    InvalidSentiment,
}

/// Whether an answer can be taken at all: it is not empty.
pub open spec fn is_usable(r: ModelResponse) -> bool {
    r.response@.len() > 0
}

/// The score of an answer, lower being better: its latency, set back by
/// the penalty where the model's name does not hold the preferred mark.
pub open spec fn score_of(r: ModelResponse, preferred: Seq<char>) -> int {
    if occurs_in(preferred, r.model@) {
        r.latency_ms as int
    } else {
        UNPREFERRED_PENALTY_MS + r.latency_ms
    }
}

/// Whether the answer at `best` is the one to take: it is usable, no usable
/// answer scores lower, and none ahead of it scores as low.
pub open spec fn is_best(responses: Seq<ModelResponse>, preferred: Seq<char>, best: int) -> bool {
    &&& 0 <= best < responses.len()
    &&& is_usable(responses[best])
    &&& forall|j: int|
        0 <= j < responses.len() && is_usable(#[trigger] responses[j]) ==> score_of(
            responses[best],
            preferred,
        ) <= score_of(responses[j], preferred)
    &&& forall|j: int|
        0 <= j < best && is_usable(#[trigger] responses[j]) ==> score_of(responses[best], preferred)
            < score_of(responses[j], preferred)
}

/// What stands before the first fence of a text, the whole text where it
/// holds none.
pub open spec fn up_to_fence(s: Seq<char>) -> Seq<char> {
    match first_occurrence(s, "```"@) {
        Some(i) => s.take(i),
        None => s,
    }
}

/// What stands before the first fence that is marked as JSON, the whole
/// text where it holds none.
pub open spec fn up_to_json_fence(s: Seq<char>) -> Seq<char> {
    match first_occurrence(s, "```json"@) {
        Some(i) => s.take(i),
        None => s,
    }
}

/// The document in an answer. Where the answer holds a fence that is
/// marked as JSON, it is taken from what stands behind the first such
/// fence and before the next: of that, what stands before the first
/// fence. Without such a fence, it is what stands between the first two
/// fences; without any fence, the whole answer. It is taken without the
/// white space at its ends.
pub open spec fn json_block_of(response: Seq<char>) -> Seq<char> {
    match first_occurrence(response, "```json"@) {
        Some(i) => trimmed_of(
            up_to_fence(up_to_json_fence(response.skip(i + "```json"@.len()))),
        ),
        None => match first_occurrence(response, "```"@) {
            Some(i) => trimmed_of(up_to_fence(response.skip(i + "```"@.len()))),
            None => trimmed_of(response),
        },
    }
}

/// Whether a sentiment is one of the three that an analysis may name.
pub open spec fn is_sentiment(s: Seq<char>) -> bool {
    s == "positive"@ || s == "negative"@ || s == "neutral"@
}

/// What is wrong with an analysis, if anything: the first of an empty
/// summary, an empty list of keywords and a sentiment that is none.
pub open spec fn soundness_of(summary: Seq<char>, keywords: int, sentiment: Seq<char>) -> Result<
    (),
    AnalysisError,
> {
    if summary.len() == 0 {
        Err(AnalysisError::EmptySummary)
    } else if keywords == 0 {
        Err(AnalysisError::EmptyKeywords)
    } else if !is_sentiment(sentiment) {
        Err(AnalysisError::InvalidSentiment)
    } else {
        Ok(())
    }
}

/// The score of an answer.
fn score(r: &ModelResponse, preferred: &str) -> (score: u128)
    ensures
        score == score_of(*r, preferred@),
{
    if contains(r.model.as_str(), preferred) {
        r.latency_ms as u128
    } else {
        UNPREFERRED_PENALTY_MS as u128 + r.latency_ms as u128
    }
}

/// The place of the answer to take: the usable answer with the lowest
/// score, the first of them where several score alike; `None` where no
/// answer is usable.
pub fn select_best_response(responses: &Vec<ModelResponse>, preferred: &str) -> (best: Option<usize>)
    ensures
        match best {
            Some(i) => is_best(responses@, preferred@, i as int),
            None => forall|j: int| 0 <= j < responses.len() ==> !is_usable(#[trigger] responses[j]),
        },
{
    let mut best: Option<usize> = None;
    let mut best_score: u128 = 0;
    let mut i: usize = 0;
    while i < responses.len()
        invariant
            i <= responses.len(),
            match best {
                Some(b) => {
                    &&& b < i
                    &&& is_usable(responses[b as int])
                    &&& best_score == score_of(responses[b as int], preferred@)
                    &&& forall|j: int|
                        0 <= j < i && is_usable(#[trigger] responses[j]) ==> best_score <= score_of(
                            responses[j],
                            preferred@,
                        )
                    &&& forall|j: int|
                        0 <= j < b && is_usable(#[trigger] responses[j]) ==> best_score < score_of(
                            responses[j],
                            preferred@,
                        )
                },
                None => forall|j: int| 0 <= j < i ==> !is_usable(#[trigger] responses[j]),
            },
        decreases responses.len() - i,
    {
        let r = &responses[i];
        if !r.response.as_str().is_empty() {
            let s = score(r, preferred);
            match best {
                Some(_) => {
                    if s < best_score {
                        best = Some(i);
                        best_score = s;
                    }
                },
                None => {
                    best = Some(i);
                    best_score = s;
                },
            }
        }
        i += 1;
    }
    best
}

/// What stands before the first fence of a text.
fn before_fence<'a>(s: &'a str) -> (head: &'a str)
    ensures
        head@ == up_to_fence(s@),
{
    match split_once(s, "```") {
        Some((head, _)) => head,
        None => s,
    }
}

/// What stands before the first fence that is marked as JSON.
fn before_json_fence<'a>(s: &'a str) -> (head: &'a str)
    ensures
        head@ == up_to_json_fence(s@),
{
    match split_once(s, "```json") {
        Some((head, _)) => head,
        None => s,
    }
}

/// The document in an answer.
pub fn extract_json_block<'a>(response: &'a str) -> (block: &'a str)
    ensures
        block@ == json_block_of(response@),
{
    match split_once(response, "```json") {
        Some((_, tail)) => trim(before_fence(before_json_fence(tail))),
        None => match split_once(response, "```") {
            Some((_, tail)) => trim(before_fence(tail)),
            None => trim(response),
        },
    }
}

/// Whether `sentiment` is one of the three that an analysis may name.
pub fn is_valid_sentiment(sentiment: &str) -> (valid: bool)
    ensures
        valid == is_sentiment(sentiment@),
{
    text_eq(sentiment, "positive") || text_eq(sentiment, "negative") || text_eq(sentiment, "neutral")
}

/// Checks an analysis that was read of a document: its summary and its
/// keywords must not be empty, and its sentiment must be one of three.
pub fn validate_analysis(summary: &str, keywords: &Vec<String>, sentiment: &str) -> (res: Result<
    (),
    AnalysisError,
>)
    ensures
        res == soundness_of(summary@, keywords@.len() as int, sentiment@),
{
    if summary.is_empty() {
        Err(AnalysisError::EmptySummary)
    } else if keywords.len() == 0 {
        Err(AnalysisError::EmptyKeywords)
    } else if !is_valid_sentiment(sentiment) {
        Err(AnalysisError::InvalidSentiment)
    } else {
        Ok(())
    }
}

} // verus!
