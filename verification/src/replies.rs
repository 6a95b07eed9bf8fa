//! What a caller is told when a request fails: one of a few stable
//! categories, a status, and a message to read. What a provider answered
//! is not passed on.

use vstd::prelude::*;
use vstd::string::*;
use crate::dispatch::DispatchError;
use crate::gateway::MissingConfig;
use crate::quota::QuotaDenied;
use crate::text::{signed_decimal_of, signed_decimal_text, text_eq};

verus! {

/// The categories of failure that a caller can tell apart.
#[derive(Debug, Clone, Copy, PartialEq, Eq)]
pub enum ErrorCategory {
    ConfigurationUnavailable,
    QuotaExceeded,
    Unauthenticated,
    TimedOut,
    ProviderFailed,
    AllProvidersFailed,
    GenerationFailed,
}

/// The answer to a request that failed.
#[derive(Debug, Clone, PartialEq, Eq)]
pub struct ErrorReply {
    pub category: ErrorCategory,
    pub status: u16,
    pub kind: &'static str,
    pub message: String,
}

/// Where a limited caller is sent to lift its limit.
pub const UPGRADE_URL: &'static str = "/pro";

/// What a caller that has reached its limit is told besides the message:
/// the feature, its daily limit, what the caller has used, and where to
/// lift the limit.
#[derive(Debug, Clone, PartialEq, Eq)]
pub struct LimitNotice {
    pub feature: String,
    pub limit: i64,
    pub used: u64,
    pub upgrade_url: &'static str,
}

/// The status with which a category is answered.
pub open spec fn status_of(category: ErrorCategory) -> u16 {
    match category {
        ErrorCategory::ConfigurationUnavailable => 503,
        ErrorCategory::QuotaExceeded => 402,
        ErrorCategory::Unauthenticated => 402,
        ErrorCategory::TimedOut => 504,
        _ => 500,
    }
}

/// The name of a category in an answer.
pub open spec fn kind_of(category: ErrorCategory) -> Seq<char> {
    match category {
        ErrorCategory::ConfigurationUnavailable => "configuration_unavailable"@,
        ErrorCategory::QuotaExceeded => "rate_limit_exceeded"@,
        ErrorCategory::Unauthenticated => "device_id_required"@,
        ErrorCategory::TimedOut => "timed_out"@,
        ErrorCategory::ProviderFailed => "provider_failed"@,
        ErrorCategory::AllProvidersFailed => "all_providers_failed"@,
        ErrorCategory::GenerationFailed => "generation_failed"@,
    }
}

/// The category of a refusal by the quota.
pub open spec fn quota_category_of(reason: QuotaDenied) -> ErrorCategory {
    match reason {
        QuotaDenied::LimitReached { .. } => ErrorCategory::QuotaExceeded,
        QuotaDenied::DeviceIdRequired => ErrorCategory::Unauthenticated,
    }
}

/// What a caller reads when the quota turns it away.
pub open spec fn quota_message_of(reason: QuotaDenied, feature: Seq<char>) -> Seq<char> {
    match reason {
        QuotaDenied::LimitReached { limit, used } => "本日の"@ + feature + "回数上限（"@
            + signed_decimal_of(limit as int)
            + "回）に達しました。Proプランにアップグレードすると無制限でご利用いただけます。"@,
        QuotaDenied::DeviceIdRequired => "AI機能を利用するにはデバイスIDが必要です。"@,
    }
}

/// The category of a failed dispatch.
pub open spec fn dispatch_category_of(error: DispatchError) -> ErrorCategory {
    match error {
        DispatchError::Provider { .. } => ErrorCategory::ProviderFailed,
        DispatchError::AttemptTimeout => ErrorCategory::TimedOut,
        DispatchError::AllProvidersFailed => ErrorCategory::AllProvidersFailed,
    }
}

/// What a caller reads when a dispatch failed.
pub open spec fn dispatch_message_of(error: DispatchError) -> Seq<char> {
    match error {
        DispatchError::Provider { .. } => "TTS生成に失敗しました"@,
        DispatchError::AttemptTimeout =>
            "TTS生成がタイムアウトしました。GPUのコールドスタート中の可能性があります。しばらくしてお試しください。"@,
        DispatchError::AllProvidersFailed => "全TTSプロバイダが失敗しました"@,
    }
}

/// What a caller reads when the configuration lacks something.
pub open spec fn missing_message_of(missing: MissingConfig) -> Seq<char> {
    match missing {
        MissingConfig::GeneratorKey => "APIキーが設定されていません"@,
        MissingConfig::SpeechKey => "OpenAI APIキーが設定されていません（TTS用）"@,
        MissingConfig::BatchEndpoint => "Qwen-Omni endpoint が設定されていません"@,
    }
}

/// What a caller reads when the answer of a feature could not be
/// generated.
pub open spec fn generation_message_of(feature: Seq<char>) -> Seq<char> {
    if feature == "summarize"@ {
        "要約の生成に失敗しました。しばらくしてお試しください。"@
    } else if feature == "to_reading"@ {
        "読み変換に失敗しました。しばらくしてお試しください。"@
    } else if feature == "questions"@ {
        "質問の生成に失敗しました。しばらくしてお試しください。"@
    } else if feature == "podcast"@ {
        "対話スクリプトの生成に失敗しました"@
    } else {
        "回答の生成に失敗しました。しばらくしてお試しください。"@
    }
}

impl ErrorCategory {
    /// The status with which this category is answered.
    pub fn status(self) -> (status: u16)
        ensures
            status == status_of(self),
    {
        match self {
            ErrorCategory::ConfigurationUnavailable => 503,
            ErrorCategory::QuotaExceeded => 402,
            ErrorCategory::Unauthenticated => 402,
            ErrorCategory::TimedOut => 504,
            _ => 500,
        }
    }

    /// The name of this category in an answer.
    pub fn kind(self) -> (kind: &'static str)
        ensures
            kind@ == kind_of(self),
    {
        match self {
            ErrorCategory::ConfigurationUnavailable => "configuration_unavailable",
            ErrorCategory::QuotaExceeded => "rate_limit_exceeded",
            ErrorCategory::Unauthenticated => "device_id_required",
            ErrorCategory::TimedOut => "timed_out",
            ErrorCategory::ProviderFailed => "provider_failed",
            ErrorCategory::AllProvidersFailed => "all_providers_failed",
            ErrorCategory::GenerationFailed => "generation_failed",
        }
    }
}

/// The answer of a category with a message.
fn reply(category: ErrorCategory, message: String) -> (reply: ErrorReply)
    ensures
        reply.category == category,
        reply.status == status_of(category),
        reply.kind@ == kind_of(category),
        reply.message == message,
{
    ErrorReply { category, status: category.status(), kind: category.kind(), message }
}

/// The answer to a caller that the quota turned away from `feature`.
pub fn quota_reply(reason: &QuotaDenied, feature: &str) -> (reply: ErrorReply)
    ensures
        reply.category == quota_category_of(*reason),
        reply.status == status_of(reply.category),
        reply.kind@ == kind_of(reply.category),
        reply.message@ == quota_message_of(*reason, feature@),
{
    match reason {
        QuotaDenied::LimitReached { limit, used } => {
            let mut message = "本日の".to_owned();
            message.append(feature);
            message.append("回数上限（");
            let digits = signed_decimal_text(*limit);
            message.append(digits.as_str());
            message.append(
                "回）に達しました。Proプランにアップグレードすると無制限でご利用いただけます。",
            );
            self::reply(ErrorCategory::QuotaExceeded, message)
        },
        QuotaDenied::DeviceIdRequired => self::reply(
            ErrorCategory::Unauthenticated,
            "AI機能を利用するにはデバイスIDが必要です。".to_owned(),
        ),
    }
}

/// What a caller that the quota turned away from `feature` is told
/// besides the message: the notice of the limit where the limit is the
/// reason, nothing where the caller lacks an identity.
pub fn limit_notice(reason: &QuotaDenied, feature: &str) -> (notice: Option<LimitNotice>)
    ensures
        match *reason {
            QuotaDenied::LimitReached { limit, used } => {
                &&& notice matches Some(n)
                &&& n.feature@ == feature@
                &&& n.limit == limit
                &&& n.used == used
                &&& n.upgrade_url@ == UPGRADE_URL@
            },
            QuotaDenied::DeviceIdRequired => notice is None,
        },
{
    match reason {
        QuotaDenied::LimitReached { limit, used } => Some(
            LimitNotice {
                feature: feature.to_owned(),
                limit: *limit,
                used: *used,
                upgrade_url: UPGRADE_URL,
            },
        ),
        QuotaDenied::DeviceIdRequired => None,
    }
}

/// The answer to a caller whose dispatch failed. What the provider said is
/// left out.
pub fn dispatch_reply(error: &DispatchError) -> (reply: ErrorReply)
    ensures
        reply.category == dispatch_category_of(*error),
        reply.status == status_of(reply.category),
        reply.kind@ == kind_of(reply.category),
        reply.message@ == dispatch_message_of(*error),
{
    match error {
        DispatchError::Provider { .. } => self::reply(
            ErrorCategory::ProviderFailed,
            "TTS生成に失敗しました".to_owned(),
        ),
        DispatchError::AttemptTimeout => self::reply(
            ErrorCategory::TimedOut,
            "TTS生成がタイムアウトしました。GPUのコールドスタート中の可能性があります。しばらくしてお試しください。".to_owned(),
        ),
        DispatchError::AllProvidersFailed => self::reply(
            ErrorCategory::AllProvidersFailed,
            "全TTSプロバイダが失敗しました".to_owned(),
        ),
    }
}

/// The answer to a caller of a feature that lacks something in the
/// configuration.
pub fn unavailable_reply(missing: MissingConfig) -> (reply: ErrorReply)
    ensures
        reply.category == ErrorCategory::ConfigurationUnavailable,
        reply.status == 503,
        reply.kind@ == kind_of(reply.category),
        reply.message@ == missing_message_of(missing),
{
    let message = match missing {
        MissingConfig::GeneratorKey => "APIキーが設定されていません",
        MissingConfig::SpeechKey => "OpenAI APIキーが設定されていません（TTS用）",
        MissingConfig::BatchEndpoint => "Qwen-Omni endpoint が設定されていません",
    };
    self::reply(ErrorCategory::ConfigurationUnavailable, message.to_owned())
}

/// The answer to a caller of `feature` whose answer could not be
/// generated.
pub fn generation_failed_reply(feature: &str) -> (reply: ErrorReply)
    ensures
        reply.category == ErrorCategory::GenerationFailed,
        reply.status == 500,
        reply.kind@ == kind_of(reply.category),
        reply.message@ == generation_message_of(feature@),
{
    let message = if text_eq(feature, "summarize") {
        "要約の生成に失敗しました。しばらくしてお試しください。"
    } else if text_eq(feature, "to_reading") {
        "読み変換に失敗しました。しばらくしてお試しください。"
    } else if text_eq(feature, "questions") {
        "質問の生成に失敗しました。しばらくしてお試しください。"
    } else if text_eq(feature, "podcast") {
        "対話スクリプトの生成に失敗しました"
    } else {
        "回答の生成に失敗しました。しばらくしてお試しください。"
    };
    self::reply(ErrorCategory::GenerationFailed, message.to_owned())
}

} // verus!
