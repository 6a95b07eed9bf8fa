//! The bodies and query strings of the requests that the gateway answers,
//! as plain values.

use vstd::prelude::*;
use vstd::string::*;
use crate::text::{
    decimal_of, decimal_text, join, joined, text_eq, texts_view, trim, trimmed_of,
};

verus! {

/// Query of the article list.
#[derive(Debug, Clone, PartialEq, Eq)]
pub struct ArticlesQuery {
    pub category: Option<String>,
    pub limit: Option<i64>,
    pub cursor: Option<String>,
}

/// A command in natural language for the administrator's console.
#[derive(Debug, Clone, PartialEq, Eq)]
pub struct CommandRequest {
    pub command: String,
}

/// Request for a spoken summary of the given length.
#[derive(Debug, Clone, PartialEq, Eq)]
pub struct SummarizeRequest {
    pub minutes: u32,
}

/// Switches a feature on or off.
#[derive(Debug, Clone, PartialEq, Eq)]
pub struct ToggleFeatureRequest {
    pub feature: String,
    pub enabled: bool,
}

/// Request to turn a text into its reading.
#[derive(Debug, Clone, PartialEq, Eq)]
pub struct ToReadingRequest {
    pub text: String,
}

/// Request for a two-voice dialogue about an article.
#[derive(Debug, Clone, PartialEq, Eq)]
pub struct PodcastGenerateRequest {
    pub article_id: Option<String>,
    pub title: String,
    pub description: String,
    pub source: String,
    pub url: Option<String>,
    pub provider: Option<String>,
}

/// Query of the swipe feed.
#[derive(Debug, Clone, PartialEq, Eq)]
pub struct FeedQuery {
    pub category: Option<String>,
    pub limit: Option<i64>,
    pub cursor: Option<String>,
}

/// One change to the list of categories.
#[derive(Debug, Clone, PartialEq, Eq)]
pub struct CategoryAction {
    pub action: String,
    pub id: Option<String>,
    pub label_ja: Option<String>,
    pub order: Option<Vec<String>>,
}

/// Request for questions that a reader might ask about an article.
#[derive(Debug, Clone, PartialEq, Eq)]
pub struct ArticleQuestionsRequest {
    pub title: String,
    pub description: String,
    pub source: String,
    pub url: Option<String>,
    pub custom_prompt: Option<String>,
}

/// A reader's question about an article.
#[derive(Debug, Clone, PartialEq, Eq)]
pub struct ArticleAskRequest {
    pub title: String,
    pub description: String,
    pub source: String,
    pub question: String,
    pub url: Option<String>,
    pub custom_prompt: Option<String>,
}

/// A feed to add.
#[derive(Debug, Clone, PartialEq, Eq)]
pub struct AddFeedRequest {
    pub url: String,
    pub source: String,
    pub category: String,
}

/// What to change of a feed.
#[derive(Debug, Clone, PartialEq, Eq)]
pub struct UpdateFeedRequest {
    pub enabled: Option<bool>,
}

/// Request to speak a text with a voice.
#[derive(Debug, Clone, PartialEq, Eq)]
pub struct TtsRequest {
    pub text: String,
    pub voice_id: String,
}

/// Request to start a subscription.
#[derive(Debug, Clone, PartialEq, Eq)]
pub struct SubscribeRequest {
    pub device_id: Option<String>,
}

/// A page size: the asked one, or `default` where none was asked, kept
/// between 1 and `ceiling`.
pub open spec fn page_size(asked: Option<i64>, default: i64, ceiling: i64) -> int {
    let wanted = match asked {
        Some(n) => n,
        None => default,
    };
    if wanted > ceiling {
        if ceiling < 1 {
            1
        } else {
            ceiling as int
        }
    } else if wanted < 1 {
        1
    } else {
        wanted as int
    }
}

/// The page size for `asked`, between 1 and `ceiling`.
pub fn clamp_limit(asked: Option<i64>, default: i64, ceiling: i64) -> (limit: i64)
    ensures
        limit == page_size(asked, default, ceiling),
{
    let wanted = match asked {
        Some(n) => n,
        None => default,
    };
    let capped = if wanted > ceiling {
        ceiling
    } else {
        wanted
    };
    if capped < 1 {
        1
    } else {
        capped
    }
}

impl ArticlesQuery {
    /// How many articles a page holds: 30 unless asked otherwise, at most 100.
    pub fn page_limit(&self) -> (limit: i64)
        ensures
            limit == page_size(self.limit, 30, 100),
            1 <= limit <= 100,
    {
        clamp_limit(self.limit, 30, 100)
    }
}

impl FeedQuery {
    /// How many articles a page holds: 10 unless asked otherwise, at most 20.
    pub fn page_limit(&self) -> (limit: i64)
        ensures
            limit == page_size(self.limit, 10, 20),
            1 <= limit <= 20,
    {
        clamp_limit(self.limit, 10, 20)
    }
}

impl SummarizeRequest {
    /// The length of the summary in minutes, kept between 1 and 10.
    pub open spec fn spec_minutes(&self) -> int {
        if self.minutes < 1 {
            1
        } else if self.minutes > 10 {
            10
        } else {
            self.minutes as int
        }
    }

    /// The length of the summary in minutes, kept between 1 and 10.
    pub fn clamped_minutes(&self) -> (minutes: u32)
        ensures
            minutes == self.spec_minutes(),
    {
        if self.minutes < 1 {
            1
        } else if self.minutes > 10 {
            10
        } else {
            self.minutes
        }
    }

    /// The number of characters that the summary aims at: 300 a minute.
    pub fn target_chars(&self) -> (chars: usize)
        ensures
            chars == 300 * self.spec_minutes(),
    {
        let minutes = self.clamped_minutes();
        (minutes as usize) * 300
    }
}

/// An optional string, empty where there is none.
pub open spec fn text_or_empty(field: Option<String>) -> Seq<char> {
    match field {
        Some(s) => s@,
        None => Seq::empty(),
    }
}

/// An optional string, empty where there is none.
fn or_empty(field: &Option<String>) -> (text: &str)
    ensures
        text@ == text_or_empty(*field),
{
    match field {
        Some(s) => s.as_str(),
        None => {
            proof {
                reveal_strlit("");
            }
            let text = "";
            assert(text@ =~= Seq::<char>::empty());
            text
        },
    }
}

impl SummarizeRequest {
    /// What a summary is cached under: its length in minutes, a colon, and
    /// the titles of the articles that it is made of, with bars between.
    pub fn cache_payload(&self, titles: &Vec<String>) -> (payload: String)
        ensures
            payload@ == decimal_of(self.spec_minutes() as nat) + ":"@ + joined(
                texts_view(titles@),
                "|"@,
            ),
    {
        let mut payload = decimal_text(self.clamped_minutes() as u64);
        payload.append(":");
        let titles_text = join(titles, "|");
        payload.append(titles_text.as_str());
        payload
    }
}

impl PodcastGenerateRequest {
    /// Whether the dialogue is to be spoken by the polled batch provider.
    pub fn uses_qwen_omni(&self) -> (yes: bool)
        ensures
            yes == (match self.provider {
                Some(p) => p@ == "qwen-omni"@,
                None => false,
            }),
    {
        match &self.provider {
            Some(p) => text_eq(p.as_str(), "qwen-omni"),
            None => false,
        }
    }

    /// What a dialogue is cached under: title, source and address of the
    /// article, with bars between.
    pub fn cache_payload(&self) -> (payload: String)
        ensures
            payload@ == self.title@ + "|"@ + self.source@ + "|"@ + text_or_empty(self.url),
    {
        let mut payload = self.title.clone();
        payload.append("|");
        payload.append(self.source.as_str());
        payload.append("|");
        payload.append(or_empty(&self.url));
        payload
    }
}

impl ArticleQuestionsRequest {
    /// What the questions are cached under: title, description, source and
    /// address of the article, with bars between.
    pub fn cache_payload(&self) -> (payload: String)
        ensures
            payload@ == self.title@ + "|"@ + self.description@ + "|"@ + self.source@ + "|"@
                + text_or_empty(self.url),
    {
        let mut payload = self.title.clone();
        payload.append("|");
        payload.append(self.description.as_str());
        payload.append("|");
        payload.append(self.source.as_str());
        payload.append("|");
        payload.append(or_empty(&self.url));
        payload
    }
}

impl ArticleAskRequest {
    /// What an answer is cached under: title, description and source of the
    /// article, the question, and the article's address, with bars between.
    pub fn cache_payload(&self) -> (payload: String)
        ensures
            payload@ == self.title@ + "|"@ + self.description@ + "|"@ + self.source@ + "|"@
                + self.question@ + "|"@ + text_or_empty(self.url),
    {
        let mut payload = self.title.clone();
        payload.append("|");
        payload.append(self.description.as_str());
        payload.append("|");
        payload.append(self.source.as_str());
        payload.append("|");
        payload.append(self.question.as_str());
        payload.append("|");
        payload.append(or_empty(&self.url));
        payload
    }
}

/// What a change to the list of categories asks for, once it is checked.
#[derive(Debug, Clone, PartialEq, Eq)]
pub enum CategoryCommand {
    /// Add the category `id`, shown as `label`.
    Add { id: String, label: String },
    /// Remove the category `id`.
    Remove { id: String },
    /// Show the category `id` as `label`.
    Rename { id: String, label: String },
    /// Put the categories in this order.
    Reorder { order: Vec<String> },
}

/// Why a change to the list of categories was refused.
#[derive(Debug, Clone, Copy, PartialEq, Eq)]
pub enum CategoryError {
    IdRequired,
    LabelRequired,
    OrderRequired,
    UnknownAction,
}

/// Whether a change to the list of categories is in order, and why not
/// where it is not. To add a category takes an identifier that is not
/// empty; to remove or rename one takes an identifier, to rename one a
/// label too; to reorder takes an order. No other action is known.
pub open spec fn category_check(action: CategoryAction) -> Result<(), CategoryError> {
    if action.action@ == "add"@ {
        match action.id {
            Some(id) => if id@.len() > 0 {
                Ok(())
            } else {
                Err(CategoryError::IdRequired)
            },
            None => Err(CategoryError::IdRequired),
        }
    } else if action.action@ == "remove"@ {
        if action.id is Some {
            Ok(())
        } else {
            Err(CategoryError::IdRequired)
        }
    } else if action.action@ == "rename"@ {
        if action.id is None {
            Err(CategoryError::IdRequired)
        } else if action.label_ja is None {
            Err(CategoryError::LabelRequired)
        } else {
            Ok(())
        }
    } else if action.action@ == "reorder"@ {
        if action.order is Some {
            Ok(())
        } else {
            Err(CategoryError::OrderRequired)
        }
    } else {
        Err(CategoryError::UnknownAction)
    }
}

impl CategoryAction {
    /// Checks this change and gives what it asks for. A category that is
    /// added without a label is shown by its identifier.
    pub fn into_command(self) -> (res: Result<CategoryCommand, CategoryError>)
        ensures
            match res {
                Ok(command) => {
                    &&& category_check(self) is Ok
                    &&& match command {
                        CategoryCommand::Add { id, label } => {
                            &&& self.action@ == "add"@
                            &&& self.id == Some(id)
                            &&& match self.label_ja {
                                Some(l) => label == l,
                                None => label@ == id@,
                            }
                        },
                        CategoryCommand::Remove { id } => self.action@ == "remove"@ && self.id
                            == Some(id),
                        CategoryCommand::Rename { id, label } => self.action@ == "rename"@
                            && self.id == Some(id) && self.label_ja == Some(label),
                        CategoryCommand::Reorder { order } => self.action@ == "reorder"@
                            && self.order == Some(order),
                    }
                },
                Err(e) => category_check(self) == Err::<(), CategoryError>(e),
            },
    {
        proof {
            reveal_strlit("add");
            reveal_strlit("remove");
            reveal_strlit("rename");
            reveal_strlit("reorder");
            assert("add"@.len() != "remove"@.len());
            assert("add"@.len() != "reorder"@.len());
            assert("remove"@[2] != "rename"@[2]);
            assert("remove"@.len() != "reorder"@.len());
            assert("rename"@.len() != "reorder"@.len());
        }
        let CategoryAction { action, id, label_ja, order } = self;
        if text_eq(action.as_str(), "add") {
            match id {
                Some(id) => {
                    if id.as_str().is_empty() {
                        Err(CategoryError::IdRequired)
                    } else {
                        let label = match label_ja {
                            Some(l) => l,
                            None => id.clone(),
                        };
                        Ok(CategoryCommand::Add { id, label })
                    }
                },
                None => Err(CategoryError::IdRequired),
            }
        } else if text_eq(action.as_str(), "remove") {
            match id {
                Some(id) => Ok(CategoryCommand::Remove { id }),
                None => Err(CategoryError::IdRequired),
            }
        } else if text_eq(action.as_str(), "rename") {
            match id {
                Some(id) => match label_ja {
                    Some(label) => Ok(CategoryCommand::Rename { id, label }),
                    None => Err(CategoryError::LabelRequired),
                },
                None => Err(CategoryError::IdRequired),
            }
        } else if text_eq(action.as_str(), "reorder") {
            match order {
                Some(order) => Ok(CategoryCommand::Reorder { order }),
                None => Err(CategoryError::OrderRequired),
            }
        } else {
            Err(CategoryError::UnknownAction)
        }
    }
}

impl AddFeedRequest {
    /// Whether the request names an address, a source and a category.
    pub fn is_complete(&self) -> (complete: bool)
        ensures
            complete == (self.url@.len() > 0 && self.source@.len() > 0 && self.category@.len() > 0),
    {
        !self.url.as_str().is_empty() && !self.source.as_str().is_empty()
            && !self.category.as_str().is_empty()
    }
}

impl UpdateFeedRequest {
    /// Whether a feed is enabled after this change, given whether it is now.
    pub fn enabled_after(&self, current: bool) -> (enabled: bool)
        ensures
            enabled == (match self.enabled {
                Some(e) => e,
                None => current,
            }),
    {
        match self.enabled {
            Some(e) => e,
            None => current,
        }
    }
}

impl SubscribeRequest {
    /// The reference under which the checkout is opened: the device
    /// identifier, empty where the request names none.
    pub fn client_reference(&self) -> (reference: &str)
        ensures
            reference@ == text_or_empty(self.device_id),
    {
        or_empty(&self.device_id)
    }
}

impl ToggleFeatureRequest {
    /// The name of the feature without the white space at its ends;
    /// `None` where nothing is left of it.
    pub fn feature_name(&self) -> (name: Option<&str>)
        ensures
            match name {
                Some(n) => n@ == trimmed_of(self.feature@) && n@.len() > 0,
                None => trimmed_of(self.feature@).len() == 0,
            },
    {
        let name = trim(self.feature.as_str());
        if name.is_empty() {
            None
        } else {
            Some(name)
        }
    }
}

impl CommandRequest {
    /// The command without the white space at its ends; `None` where
    /// nothing is left of it.
    pub fn command_text(&self) -> (text: Option<&str>)
        ensures
            match text {
                Some(t) => t@ == trimmed_of(self.command@) && t@.len() > 0,
                None => trimmed_of(self.command@).len() == 0,
            },
    {
        let text = trim(self.command.as_str());
        if text.is_empty() {
            None
        } else {
            Some(text)
        }
    }
}

} // verus!
