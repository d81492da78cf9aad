//! The provider-agnostic chat surface: conversation messages, the normalized
//! response record, model names, and the mapping onto the OpenAI request
//! shape.

use vstd::prelude::*;
use crate::openai::{OpenAIChatCompletion, OpenAIChatMessage, OpenAIChatRole};
use crate::qianfan::QianfanChatResponse;

verus! {

/// The sender of a chat message.
#[derive(Debug, Clone, Copy, PartialEq, Eq, Structural)]
pub enum ChatRole {
    User,
    Assistant,
}

/// One message of a conversation.
#[derive(Debug, Clone, PartialEq)]
pub struct ChatMessage {
    pub role: ChatRole,
    pub content: String,
}

/// Token-usage counters of a normalized response.
#[derive(Debug, Clone, Copy, PartialEq, Eq)]
pub struct ChatTokenUsage {
    pub prompt_tokens: u32,
    pub completion_tokens: u32,
    pub total_tokens: u32,
}

/// A provider-agnostic chat response: the text, whether the answer is
/// complete, and the usage counters copied from the provider's record.
#[derive(Debug, Clone, PartialEq)]
pub struct ChatResponse {
    pub content: String,
    pub is_complete: bool,
    pub usage: ChatTokenUsage,
}

/// The chat models the unified interface knows of.
#[derive(Debug, Clone, Copy, PartialEq, Eq, Structural)]
pub enum ChatModelName {
    OpenAIGPT3_5Turbo,
    OpenAIGPT3_5Turbo16K,
    OpenAIGPT4,
    ErnieBot4,
    ErnieBot,
    ErnieBotTurbo,
}

/// A model name handed to a provider that does not serve it.
#[derive(Debug, Clone, Copy, PartialEq, Eq, Structural)]
pub enum ChatModelError {
    UnsupportedModel,
}

/// The OpenAI chat endpoint serves exactly the OpenAI model names.
pub open spec fn spec_is_openai_chat_model(name: ChatModelName) -> bool {
    ||| name is OpenAIGPT3_5Turbo
    ||| name is OpenAIGPT3_5Turbo16K
    ||| name is OpenAIGPT4
}

/// Whether the unified interface can dispatch a model name to the OpenAI
/// chat endpoint.
pub fn is_openai_chat_model(name: &ChatModelName) -> (r: bool)
    ensures
        r == spec_is_openai_chat_model(*name),
{
    match name {
        ChatModelName::OpenAIGPT3_5Turbo => true,
        ChatModelName::OpenAIGPT3_5Turbo16K => true,
        ChatModelName::OpenAIGPT4 => true,
        _ => false,
    }
}

/// The identifier under which OpenAI's API serves a model, for the model
/// names the provider has; the other names are rejected.
pub fn chat_model_name_to_string(model_name: &ChatModelName) -> (r: Result<String, ChatModelError>)
    ensures
        match *model_name {
            ChatModelName::OpenAIGPT3_5Turbo => r matches Ok(s) && s@ == "gpt-3.5-turbo"@,
            ChatModelName::OpenAIGPT3_5Turbo16K => r matches Ok(s) && s@ == "gpt-3.5-turbo-16k"@,
            ChatModelName::OpenAIGPT4 => r matches Ok(s) && s@ == "gpt-4"@,
            _ => r == Err::<String, ChatModelError>(ChatModelError::UnsupportedModel),
        },
        r is Ok <==> spec_is_openai_chat_model(*model_name),
{
    match model_name {
        ChatModelName::OpenAIGPT3_5Turbo => Ok("gpt-3.5-turbo".to_owned()),
        ChatModelName::OpenAIGPT3_5Turbo16K => Ok("gpt-3.5-turbo-16k".to_owned()),
        ChatModelName::OpenAIGPT4 => Ok("gpt-4".to_owned()),
        _ => Err(ChatModelError::UnsupportedModel),
    }
}

/// How a conversation role maps onto the OpenAI request shape.
pub open spec fn map_chat_role(role: ChatRole) -> OpenAIChatRole {
    match role {
        ChatRole::User => OpenAIChatRole::User,
        ChatRole::Assistant => OpenAIChatRole::Assistant,
    }
}

/// How many messages a profile prepends.
pub open spec fn profile_offset(profile: Option<String>) -> int {
    if profile is Some {
        1
    } else {
        0
    }
}

/// Build the OpenAI message list for a request: the model's profile, when it
/// has one, leads as a system message, and the conversation follows in order
/// with the roles mapped.
pub fn build_openai_messages(profile: &Option<String>, messages: &Vec<ChatMessage>) -> (r: Vec<
    OpenAIChatMessage,
>)
    ensures
        r@.len() == profile_offset(*profile) + messages@.len(),
        (*profile matches Some(p) ==> r@[0].role == OpenAIChatRole::System && r@[0].content@
            == p@),
        forall|k: int|
            profile_offset(*profile) <= k < r@.len() ==> {
                &&& (#[trigger] r@[k]).role == map_chat_role(
                    messages@[k - profile_offset(*profile)].role,
                )
                &&& r@[k].content@ == messages@[k - profile_offset(*profile)].content@
            },
{
    let mut r: Vec<OpenAIChatMessage> = Vec::new();
    match profile {
        Some(p) => {
            r.push(OpenAIChatMessage { role: OpenAIChatRole::System, content: p.clone() });
        },
        None => {},
    }
    let n = messages.len();
    let mut i: usize = 0;
    while i < n
        invariant
            n == messages@.len(),
            i <= n,
            r@.len() == profile_offset(*profile) + i,
            (*profile matches Some(p) ==> r@[0].role == OpenAIChatRole::System && r@[0].content@
                == p@),
            forall|k: int|
                profile_offset(*profile) <= k < r@.len() ==> {
                    &&& (#[trigger] r@[k]).role == map_chat_role(
                        messages@[k - profile_offset(*profile)].role,
                    )
                    &&& r@[k].content@ == messages@[k - profile_offset(*profile)].content@
                },
        decreases n - i,
    {
        let role = match messages[i].role {
            ChatRole::User => OpenAIChatRole::User,
            ChatRole::Assistant => OpenAIChatRole::Assistant,
        };
        r.push(OpenAIChatMessage { role, content: messages[i].content.clone() });
        i = i + 1;
    }
    r
}

/// Why a provider response could not be normalized.
#[derive(Debug, Clone, Copy, PartialEq, Eq, Structural)]
pub enum NormalizeError {
    /// The provider's choice list was empty, so there is no content to hand
    /// back.
    EmptyChoiceList,
}

impl ChatResponse {
    /// Normalize a single-shot OpenAI completion: the first choice's content,
    /// unconditional completeness, and the usage counters copied verbatim.
    /// An empty choice list is an explicit error, never an out-of-bounds
    /// access.
    pub fn from_completion(completion: &OpenAIChatCompletion) -> (r: Result<
        ChatResponse,
        NormalizeError,
    >)
        ensures
            match r {
                Ok(resp) => {
                    &&& completion.choices@.len() > 0
                    &&& resp.content@ == completion.choices@[0].message.content@
                    &&& resp.is_complete == true
                    &&& resp.usage.prompt_tokens == completion.usage.prompt_tokens
                    &&& resp.usage.completion_tokens == completion.usage.completion_tokens
                    &&& resp.usage.total_tokens == completion.usage.total_tokens
                },
                Err(e) => completion.choices@.len() == 0 && e == NormalizeError::EmptyChoiceList,
            },
            r is Ok <==> completion.choices@.len() > 0,
    {
        if completion.choices.len() == 0 {
            return Err(NormalizeError::EmptyChoiceList);
        }
        Ok(
            ChatResponse {
                content: completion.choices[0].message.content.clone(),
                is_complete: true,
                usage: ChatTokenUsage {
                    prompt_tokens: completion.usage.prompt_tokens,
                    completion_tokens: completion.usage.completion_tokens,
                    total_tokens: completion.usage.total_tokens,
                },
            },
        )
    }

    /// Normalize one streamed record: completeness comes from the record's
    /// end-of-stream flag, and a missing flag reads as "not yet complete".
    pub fn from_streamed(record: &QianfanChatResponse) -> (r: ChatResponse)
        ensures
            r.content@ == record.result@,
            r.is_complete == (record.is_end == Some(true)),
            r.usage.prompt_tokens == record.usage.prompt_tokens,
            r.usage.completion_tokens == record.usage.completion_tokens,
            r.usage.total_tokens == record.usage.total_tokens,
    {
        let is_complete = match record.is_end {
            Some(b) => b,
            None => false,
        };
        ChatResponse {
            content: record.result.clone(),
            is_complete,
            usage: ChatTokenUsage {
                prompt_tokens: record.usage.prompt_tokens,
                completion_tokens: record.usage.completion_tokens,
                total_tokens: record.usage.total_tokens,
            },
        }
    }
}

} // verus!
