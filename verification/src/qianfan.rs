//! Typed records of the Qianfan chat API: the streamed completion record,
//! the provider's structured error body, and the decoders that turn one
//! event payload or one single-shot response body into them.

use vstd::prelude::*;
use crate::json::{
    JsonModel, json_model, json_of, parse_json, json_get, json_error_text, get_str_field,
    get_u32_field, get_bool_field, get_opt_u32_field, get_opt_bool_field, sub_field, str_field,
    u32_field, bool_field, opt_u32_field, opt_bool_field,
};

verus! {

/// Token-usage counters reported with a chat response.
#[derive(Debug, Clone, Copy, PartialEq, Eq)]
pub struct QianfanChatTokenUsage {
    pub prompt_tokens: u32,
    pub completion_tokens: u32,
    pub total_tokens: u32,
}

/// One chat-completion record: a single streamed fragment, or the whole
/// response of a single-shot call.
#[derive(Debug, Clone, PartialEq)]
pub struct QianfanChatResponse {
    pub id: String,
    pub object: String,
    pub created: u32,
    pub sentence_id: Option<u32>,
    pub is_end: Option<bool>,
    pub is_truncated: bool,
    pub result: String,
    pub need_clear_history: bool,
    pub usage: QianfanChatTokenUsage,
}

/// Specification view of a record: strings as character sequences.
pub struct QianfanChatResponseView {
    pub id: Seq<char>,
    pub object: Seq<char>,
    pub created: u32,
    pub sentence_id: Option<u32>,
    pub is_end: Option<bool>,
    pub is_truncated: bool,
    pub result: Seq<char>,
    pub need_clear_history: bool,
    pub usage: QianfanChatTokenUsage,
}

impl View for QianfanChatResponse {
    type V = QianfanChatResponseView;

    open spec fn view(&self) -> QianfanChatResponseView {
        QianfanChatResponseView {
            id: self.id@,
            object: self.object@,
            created: self.created,
            sentence_id: self.sentence_id,
            is_end: self.is_end,
            is_truncated: self.is_truncated,
            result: self.result@,
            need_clear_history: self.need_clear_history,
            usage: self.usage,
        }
    }
}

/// The token-usage schema: an object with three unsigned counters.
pub open spec fn usage_of_json(j: JsonModel) -> Option<QianfanChatTokenUsage> {
    let prompt_tokens = u32_field(j, "prompt_tokens"@);
    let completion_tokens = u32_field(j, "completion_tokens"@);
    let total_tokens = u32_field(j, "total_tokens"@);
    if prompt_tokens is Some && completion_tokens is Some && total_tokens is Some {
        Some(
            QianfanChatTokenUsage {
                prompt_tokens: prompt_tokens->Some_0,
                completion_tokens: completion_tokens->Some_0,
                total_tokens: total_tokens->Some_0,
            },
        )
    } else {
        None
    }
}

/// The chat-record schema over a parsed JSON document: the field set a
/// payload must carry, with `sentence_id` and `is_end` optional.
pub open spec fn record_of_json(j: JsonModel) -> Option<QianfanChatResponseView> {
    let id = str_field(j, "id"@);
    let object = str_field(j, "object"@);
    let created = u32_field(j, "created"@);
    let sentence_id = opt_u32_field(j, "sentence_id"@);
    let is_end = opt_bool_field(j, "is_end"@);
    let is_truncated = bool_field(j, "is_truncated"@);
    let result = str_field(j, "result"@);
    let need_clear_history = bool_field(j, "need_clear_history"@);
    let usage = match sub_field(j, "usage"@) {
        Some(u) => usage_of_json(u),
        None => None,
    };
    if id is Some && object is Some && created is Some && sentence_id is Some && is_end is Some
        && is_truncated is Some && result is Some && need_clear_history is Some && usage is Some {
        Some(
            QianfanChatResponseView {
                id: id->Some_0,
                object: object->Some_0,
                created: created->Some_0,
                sentence_id: sentence_id->Some_0,
                is_end: is_end->Some_0,
                is_truncated: is_truncated->Some_0,
                result: result->Some_0,
                need_clear_history: need_clear_history->Some_0,
                usage: usage->Some_0,
            },
        )
    } else {
        None
    }
}

/// What a text decodes to under the record schema: `None` when it is not
/// valid JSON or does not match the schema.
pub open spec fn parsed_record(s: Seq<char>) -> Option<QianfanChatResponseView> {
    match json_of(s) {
        Some(j) => record_of_json(j),
        None => None,
    }
}

/// Build the token-usage counters from a parsed JSON value.
fn usage_from_json(v: &serde_json::Value) -> (r: Option<QianfanChatTokenUsage>)
    ensures
        r == usage_of_json(json_model(*v)),
{
    let prompt_tokens = match get_u32_field(v, "prompt_tokens") {
        Some(n) => n,
        None => {
            return None;
        },
    };
    let completion_tokens = match get_u32_field(v, "completion_tokens") {
        Some(n) => n,
        None => {
            return None;
        },
    };
    let total_tokens = match get_u32_field(v, "total_tokens") {
        Some(n) => n,
        None => {
            return None;
        },
    };
    Some(QianfanChatTokenUsage { prompt_tokens, completion_tokens, total_tokens })
}

/// Build a chat record from a parsed JSON value, checking the whole schema.
fn record_from_json(v: &serde_json::Value) -> (r: Option<QianfanChatResponse>)
    ensures
        match record_of_json(json_model(*v)) {
            Some(rv) => r matches Some(rec) && rec@ == rv,
            None => r is None,
        },
{
    let id = match get_str_field(v, "id") {
        Some(s) => s,
        None => {
            return None;
        },
    };
    let object = match get_str_field(v, "object") {
        Some(s) => s,
        None => {
            return None;
        },
    };
    let created = match get_u32_field(v, "created") {
        Some(n) => n,
        None => {
            return None;
        },
    };
    let sentence_id = match get_opt_u32_field(v, "sentence_id") {
        Some(o) => o,
        None => {
            return None;
        },
    };
    let is_end = match get_opt_bool_field(v, "is_end") {
        Some(o) => o,
        None => {
            return None;
        },
    };
    let is_truncated = match get_bool_field(v, "is_truncated") {
        Some(b) => b,
        None => {
            return None;
        },
    };
    let result = match get_str_field(v, "result") {
        Some(s) => s,
        None => {
            return None;
        },
    };
    let need_clear_history = match get_bool_field(v, "need_clear_history") {
        Some(b) => b,
        None => {
            return None;
        },
    };
    let usage = match json_get(v, "usage") {
        Some(u) => match usage_from_json(u) {
            Some(x) => x,
            None => {
                return None;
            },
        },
        None => {
            return None;
        },
    };
    Some(
        QianfanChatResponse {
            id,
            object,
            created,
            sentence_id,
            is_end,
            is_truncated,
            result,
            need_clear_history,
            usage,
        },
    )
}

/// Why one event frame failed to decode into a record.
#[derive(Debug, PartialEq)]
pub enum QianfanChatResponseParseError {
    /// The frame had no `data:` marker and its text did not parse as a bare
    /// record either.
    MissingDataPrefix,
    /// The frame was marked but its payload is not a record: the underlying
    /// parse failure's description is kept as the cause.
    JsonParseError(String),
}

/// The `data:` marker (without the trailing space) stands at the front.
pub open spec fn has_data_prefix(s: Seq<char>) -> bool {
    &&& s.len() >= 5
    &&& s[0] == 'd'
    &&& s[1] == 'a'
    &&& s[2] == 't'
    &&& s[3] == 'a'
    &&& s[4] == ':'
}

/// The text with a leading `data:` marker removed, when one is present.
pub open spec fn strip_data_prefix(s: Seq<char>) -> Seq<char> {
    if has_data_prefix(s) {
        s.subrange(5, s.len() as int)
    } else {
        s
    }
}

impl QianfanChatResponse {
    /// Parse one frame payload, its marker already stripped, as a record.
    /// Exactly the payloads matching the record schema parse; any failure is
    /// a `JsonParseError` keeping the cause's description.
    pub fn parse_payload(payload: &str) -> (r: Result<
        QianfanChatResponse,
        QianfanChatResponseParseError,
    >)
        ensures
            match r {
                Ok(rec) => parsed_record(payload@) == Some(rec@),
                Err(e) => parsed_record(payload@) is None && e is JsonParseError,
            },
    {
        match parse_json(payload) {
            Ok(v) => match record_from_json(&v) {
                Some(rec) => Ok(rec),
                None => Err(
                    QianfanChatResponseParseError::JsonParseError(
                        "payload does not match the chat response schema".to_owned(),
                    ),
                ),
            },
            Err(e) => Err(QianfanChatResponseParseError::JsonParseError(json_error_text(&e))),
        }
    }

    /// Decode one event frame into a record.
    ///
    /// A leading `data:` marker, if present, is stripped before parsing; a
    /// frame handed over by the extractor already has it stripped. Exactly
    /// the texts whose payload matches the record schema decode; an unmarked
    /// frame that does not parse as a bare record fails with
    /// `MissingDataPrefix`, a marked one with `JsonParseError`.
    pub fn try_from(frame: &str) -> (r: Result<QianfanChatResponse, QianfanChatResponseParseError>)
        ensures
            ({
                let payload = strip_data_prefix(frame@);
                match r {
                    Ok(rec) => parsed_record(payload) == Some(rec@),
                    Err(e) => {
                        &&& parsed_record(payload) is None
                        &&& (e is MissingDataPrefix <==> !has_data_prefix(frame@))
                    },
                }
            }),
    {
        let n = frame.unicode_len();
        let has_prefix = n >= 5 && frame.get_char(0) == 'd' && frame.get_char(1) == 'a'
            && frame.get_char(2) == 't' && frame.get_char(3) == 'a' && frame.get_char(4) == ':';
        let payload: &str = if has_prefix {
            frame.substring_char(5, n)
        } else {
            frame
        };
        match Self::parse_payload(payload) {
            Ok(rec) => Ok(rec),
            Err(e) => if has_prefix {
                Err(e)
            } else {
                Err(QianfanChatResponseParseError::MissingDataPrefix)
            },
        }
    }
}

/// The provider's structured error body.
#[derive(Debug, Clone, PartialEq)]
pub struct QianfanError {
    pub error_code: u32,
    pub error_msg: String,
}

/// Specification view of the provider error body.
pub struct QianfanErrorView {
    pub error_code: u32,
    pub error_msg: Seq<char>,
}

impl View for QianfanError {
    type V = QianfanErrorView;

    open spec fn view(&self) -> QianfanErrorView {
        QianfanErrorView { error_code: self.error_code, error_msg: self.error_msg@ }
    }
}

/// The provider-error schema: an object with a code and a message.
pub open spec fn qianfan_error_of_json(j: JsonModel) -> Option<QianfanErrorView> {
    let error_code = u32_field(j, "error_code"@);
    let error_msg = str_field(j, "error_msg"@);
    if error_code is Some && error_msg is Some {
        Some(QianfanErrorView { error_code: error_code->Some_0, error_msg: error_msg->Some_0 })
    } else {
        None
    }
}

/// What a text decodes to under the provider-error schema.
pub open spec fn parsed_qianfan_error(s: Seq<char>) -> Option<QianfanErrorView> {
    match json_of(s) {
        Some(j) => qianfan_error_of_json(j),
        None => None,
    }
}

/// Build a provider error body from a parsed JSON value.
fn qianfan_error_from_json(v: &serde_json::Value) -> (r: Option<QianfanError>)
    ensures
        match qianfan_error_of_json(json_model(*v)) {
            Some(ev) => r matches Some(e) && e@ == ev,
            None => r is None,
        },
{
    let error_code = match get_u32_field(v, "error_code") {
        Some(n) => n,
        None => {
            return None;
        },
    };
    let error_msg = match get_str_field(v, "error_msg") {
        Some(s) => s,
        None => {
            return None;
        },
    };
    Some(QianfanError { error_code, error_msg })
}

/// Why a single-shot chat call's response body could not be read as a record.
#[derive(Debug, PartialEq)]
pub enum QianfanChatCallError {
    /// The provider answered with its structured error body.
    Api(QianfanError),
    /// The body parsed as neither a record nor a provider error; the parse
    /// failure's description is kept.
    Malformed(String),
}

/// Read the body of a single-shot chat call: a record when the body matches
/// the record schema, the provider's own error when it matches the error
/// schema instead, and `Malformed` otherwise.
pub fn parse_complete_chat_response(content: &str) -> (r: Result<
    QianfanChatResponse,
    QianfanChatCallError,
>)
    ensures
        match r {
            Ok(rec) => parsed_record(content@) == Some(rec@),
            Err(QianfanChatCallError::Api(e)) => {
                &&& parsed_record(content@) is None
                &&& parsed_qianfan_error(content@) == Some(e@)
            },
            Err(QianfanChatCallError::Malformed(_)) => {
                &&& parsed_record(content@) is None
                &&& parsed_qianfan_error(content@) is None
            },
        },
{
    match parse_json(content) {
        Ok(v) => match record_from_json(&v) {
            Some(rec) => Ok(rec),
            None => match qianfan_error_from_json(&v) {
                Some(e) => Err(QianfanChatCallError::Api(e)),
                None => Err(
                    QianfanChatCallError::Malformed(
                        "response body matches neither the chat response schema nor the error schema".to_owned(),
                    ),
                ),
            },
        },
        Err(e) => Err(QianfanChatCallError::Malformed(json_error_text(&e))),
    }
}

/// The access-token schema of the authentication endpoint: the one field the
/// client reads.
pub open spec fn parsed_access_token(s: Seq<char>) -> Option<Seq<char>> {
    match json_of(s) {
        Some(j) => str_field(j, "access_token"@),
        None => None,
    }
}

/// Read the bearer token out of an authentication response body.
pub fn parse_access_token(content: &str) -> (r: Option<String>)
    ensures
        match parsed_access_token(content@) {
            Some(chars) => r matches Some(t) && t@ == chars,
            None => r is None,
        },
{
    match parse_json(content) {
        Ok(v) => get_str_field(&v, "access_token"),
        Err(_) => None,
    }
}

/// The chat models the Qianfan provider serves.
#[derive(Debug, Clone, Copy, PartialEq, Eq, Structural)]
pub enum QianfanChatModelName {
    ErnieBot4,
    ErnieBot,
    ErnieBotTurbo,
    BloomZ7B,
}

/// A model name handed to an endpoint that does not serve it.
#[derive(Debug, Clone, Copy, PartialEq, Eq, Structural)]
pub enum QianfanModelError {
    UnsupportedModel,
}

/// The chat API endpoint that serves a model, for the models that have one.
pub fn get_api_endpoint(model_name: QianfanChatModelName) -> (r: Result<
    &'static str,
    QianfanModelError,
>)
    ensures
        match model_name {
            QianfanChatModelName::ErnieBot4 => r matches Ok(u) && u@
                == "https://aip.baidubce.com/rpc/2.0/ai_custom/v1/wenxinworkshop/chat/completions_pro"@,
            QianfanChatModelName::ErnieBot => r matches Ok(u) && u@
                == "https://aip.baidubce.com/rpc/2.0/ai_custom/v1/wenxinworkshop/chat/completions"@,
            QianfanChatModelName::ErnieBotTurbo => r matches Ok(u) && u@
                == "https://aip.baidubce.com/rpc/2.0/ai_custom/v1/wenxinworkshop/chat/eb-instant"@,
            QianfanChatModelName::BloomZ7B => r == Err::<
                &'static str,
                QianfanModelError,
            >(QianfanModelError::UnsupportedModel),
        },
{
    match model_name {
        QianfanChatModelName::ErnieBot4 => Ok(
            "https://aip.baidubce.com/rpc/2.0/ai_custom/v1/wenxinworkshop/chat/completions_pro",
        ),
        QianfanChatModelName::ErnieBot => Ok(
            "https://aip.baidubce.com/rpc/2.0/ai_custom/v1/wenxinworkshop/chat/completions",
        ),
        QianfanChatModelName::ErnieBotTurbo => Ok(
            "https://aip.baidubce.com/rpc/2.0/ai_custom/v1/wenxinworkshop/chat/eb-instant",
        ),
        QianfanChatModelName::BloomZ7B => Err(QianfanModelError::UnsupportedModel),
    }
}

/// One chat message of a Qianfan conversation.
#[derive(Debug, Clone, PartialEq)]
pub struct QianfanChatMessage {
    pub role: QianfanChatRole,
    pub content: String,
}

/// The sender of a Qianfan chat message.
#[derive(Debug, Clone, Copy, PartialEq, Eq, Structural)]
pub enum QianfanChatRole {
    User,
    Assistant,
}

} // verus!
