//! Typed records of the OpenAI chat API: the request-side message shape and
//! the single-shot completion record, with a verified parse of a response
//! body.

use vstd::prelude::*;
use crate::json::{
    JsonModel, json_model, json_of, parse_json, json_get, json_as_array, get_str_field,
    get_u32_field, get_i64_field, sub_field, str_field, u32_field, i64_field,
};

verus! {

/// The sender of an OpenAI chat message.
#[derive(Debug, Clone, Copy, PartialEq, Eq, Structural)]
pub enum OpenAIChatRole {
    System,
    User,
    Assistant,
}

/// One chat message of an OpenAI conversation.
#[derive(Debug, Clone, PartialEq)]
pub struct OpenAIChatMessage {
    pub role: OpenAIChatRole,
    pub content: String,
}

/// Token-usage counters of one completion.
#[derive(Debug, Clone, Copy, PartialEq, Eq)]
pub struct OpenAIChatTokenUsage {
    pub prompt_tokens: u32,
    pub completion_tokens: u32,
    pub total_tokens: u32,
}

/// The assistant message inside one completion choice.
#[derive(Debug, Clone, PartialEq)]
pub struct OpenAIChatResponseMessage {
    pub content: String,
    pub role: String,
}

/// One completion choice.
#[derive(Debug, Clone, PartialEq)]
pub struct OpenAIChatResponseChoice {
    pub finish_reason: String,
    pub index: u32,
    pub message: OpenAIChatResponseMessage,
}

/// A single-shot chat completion.
#[derive(Debug, Clone, PartialEq)]
pub struct OpenAIChatCompletion {
    pub id: String,
    pub choices: Vec<OpenAIChatResponseChoice>,
    pub object: String,
    pub created: i64,
    pub model: String,
    pub usage: OpenAIChatTokenUsage,
}

/// Specification view of the message inside a choice.
pub struct OpenAIChatResponseMessageView {
    pub content: Seq<char>,
    pub role: Seq<char>,
}

impl View for OpenAIChatResponseMessage {
    type V = OpenAIChatResponseMessageView;

    open spec fn view(&self) -> OpenAIChatResponseMessageView {
        OpenAIChatResponseMessageView { content: self.content@, role: self.role@ }
    }
}

/// Specification view of one completion choice.
pub struct OpenAIChatResponseChoiceView {
    pub finish_reason: Seq<char>,
    pub index: u32,
    pub message: OpenAIChatResponseMessageView,
}

impl View for OpenAIChatResponseChoice {
    type V = OpenAIChatResponseChoiceView;

    open spec fn view(&self) -> OpenAIChatResponseChoiceView {
        OpenAIChatResponseChoiceView {
            finish_reason: self.finish_reason@,
            index: self.index,
            message: self.message@,
        }
    }
}

/// Specification view of a completion.
pub struct OpenAIChatCompletionView {
    pub id: Seq<char>,
    pub choices: Seq<OpenAIChatResponseChoiceView>,
    pub object: Seq<char>,
    pub created: i64,
    pub model: Seq<char>,
    pub usage: OpenAIChatTokenUsage,
}

impl View for OpenAIChatCompletion {
    type V = OpenAIChatCompletionView;

    open spec fn view(&self) -> OpenAIChatCompletionView {
        OpenAIChatCompletionView {
            id: self.id@,
            choices: Seq::new(self.choices@.len(), |i: int| self.choices@[i]@),
            object: self.object@,
            created: self.created,
            model: self.model@,
            usage: self.usage,
        }
    }
}

/// The message schema inside a choice: two required strings.
pub open spec fn message_of_json(j: JsonModel) -> Option<OpenAIChatResponseMessageView> {
    let content = str_field(j, "content"@);
    let role = str_field(j, "role"@);
    if content is Some && role is Some {
        Some(OpenAIChatResponseMessageView { content: content->Some_0, role: role->Some_0 })
    } else {
        None
    }
}

/// The schema of one completion choice.
pub open spec fn choice_of_json(j: JsonModel) -> Option<OpenAIChatResponseChoiceView> {
    let finish_reason = str_field(j, "finish_reason"@);
    let index = u32_field(j, "index"@);
    let message = match sub_field(j, "message"@) {
        Some(m) => message_of_json(m),
        None => None,
    };
    if finish_reason is Some && index is Some && message is Some {
        Some(
            OpenAIChatResponseChoiceView {
                finish_reason: finish_reason->Some_0,
                index: index->Some_0,
                message: message->Some_0,
            },
        )
    } else {
        None
    }
}

/// The schema of the choice list: every element must be a choice.
pub open spec fn choices_of_json(items: Seq<JsonModel>) -> Option<
    Seq<OpenAIChatResponseChoiceView>,
>
    decreases items.len(),
{
    if items.len() == 0 {
        Some(Seq::empty())
    } else {
        match (choices_of_json(items.drop_last()), choice_of_json(items.last())) {
            (Some(init), Some(c)) => Some(init.push(c)),
            _ => None,
        }
    }
}

/// The token-usage schema: an object with three unsigned counters.
pub open spec fn openai_usage_of_json(j: JsonModel) -> Option<OpenAIChatTokenUsage> {
    let prompt_tokens = u32_field(j, "prompt_tokens"@);
    let completion_tokens = u32_field(j, "completion_tokens"@);
    let total_tokens = u32_field(j, "total_tokens"@);
    if prompt_tokens is Some && completion_tokens is Some && total_tokens is Some {
        Some(
            OpenAIChatTokenUsage {
                prompt_tokens: prompt_tokens->Some_0,
                completion_tokens: completion_tokens->Some_0,
                total_tokens: total_tokens->Some_0,
            },
        )
    } else {
        None
    }
}

/// The completion schema over a parsed JSON document.
pub open spec fn completion_of_json(j: JsonModel) -> Option<OpenAIChatCompletionView> {
    let id = str_field(j, "id"@);
    let object = str_field(j, "object"@);
    let created = i64_field(j, "created"@);
    let model = str_field(j, "model"@);
    let choices = match sub_field(j, "choices"@) {
        Some(JsonModel::Arr { items }) => choices_of_json(items),
        _ => None,
    };
    let usage = match sub_field(j, "usage"@) {
        Some(u) => openai_usage_of_json(u),
        None => None,
    };
    if id is Some && object is Some && created is Some && model is Some && choices is Some
        && usage is Some {
        Some(
            OpenAIChatCompletionView {
                id: id->Some_0,
                choices: choices->Some_0,
                object: object->Some_0,
                created: created->Some_0,
                model: model->Some_0,
                usage: usage->Some_0,
            },
        )
    } else {
        None
    }
}

/// What a text decodes to under the completion schema.
pub open spec fn parsed_completion(s: Seq<char>) -> Option<OpenAIChatCompletionView> {
    match json_of(s) {
        Some(j) => completion_of_json(j),
        None => None,
    }
}

/// One element of the choice list fails the choice schema, so the whole list
/// fails it.
proof fn lemma_choices_elem_none(items: Seq<JsonModel>, i: int)
    requires
        0 <= i < items.len(),
        choice_of_json(items[i]) is None,
    ensures
        choices_of_json(items) is None,
    decreases items.len(),
{
    if items.len() > 0 && i < items.len() - 1 {
        lemma_choices_elem_none(items.drop_last(), i);
    }
}

/// Build the message inside a choice from a parsed JSON value.
fn message_from_json(v: &serde_json::Value) -> (r: Option<OpenAIChatResponseMessage>)
    ensures
        match message_of_json(json_model(*v)) {
            Some(mv) => r matches Some(m) && m@ == mv,
            None => r is None,
        },
{
    let content = match get_str_field(v, "content") {
        Some(s) => s,
        None => {
            return None;
        },
    };
    let role = match get_str_field(v, "role") {
        Some(s) => s,
        None => {
            return None;
        },
    };
    Some(OpenAIChatResponseMessage { content, role })
}

/// Build one completion choice from a parsed JSON value.
fn choice_from_json(v: &serde_json::Value) -> (r: Option<OpenAIChatResponseChoice>)
    ensures
        match choice_of_json(json_model(*v)) {
            Some(cv) => r matches Some(c) && c@ == cv,
            None => r is None,
        },
{
    let finish_reason = match get_str_field(v, "finish_reason") {
        Some(s) => s,
        None => {
            return None;
        },
    };
    let index = match get_u32_field(v, "index") {
        Some(n) => n,
        None => {
            return None;
        },
    };
    let message = match json_get(v, "message") {
        Some(m) => match message_from_json(m) {
            Some(x) => x,
            None => {
                return None;
            },
        },
        None => {
            return None;
        },
    };
    Some(OpenAIChatResponseChoice { finish_reason, index, message })
}

/// Build the whole choice list from a parsed JSON array.
fn choices_from_json(arr: &Vec<serde_json::Value>, items: Ghost<Seq<JsonModel>>) -> (r: Option<
    Vec<OpenAIChatResponseChoice>,
>)
    requires
        items@.len() == arr@.len(),
        forall|i: int| 0 <= i < arr@.len() ==> #[trigger] json_model(arr@[i]) == items@[i],
    ensures
        match choices_of_json(items@) {
            Some(cs) => r matches Some(v) && v@.len() == cs.len() && (forall|i: int|
                0 <= i < cs.len() ==> #[trigger] v@[i]@ == cs[i]),
            None => r is None,
        },
{
    let mut out: Vec<OpenAIChatResponseChoice> = Vec::new();
    let n = arr.len();
    let mut i: usize = 0;
    while i < n
        invariant
            n == arr@.len(),
            items@.len() == arr@.len(),
            forall|k: int| 0 <= k < arr@.len() ==> #[trigger] json_model(arr@[k]) == items@[k],
            i <= n,
            out@.len() == i,
            choices_of_json(items@.subrange(0, i as int)) matches Some(cs) && cs.len() == i && (
            forall|k: int| 0 <= k < i as int ==> #[trigger] out@[k]@ == cs[k]),
        decreases n - i,
    {
        let c = match choice_from_json(&arr[i]) {
            Some(c) => c,
            None => {
                proof {
                    lemma_choices_elem_none(items@, i as int);
                }
                return None;
            },
        };
        out.push(c);
        proof {
            assert(items@.subrange(0, i as int + 1).drop_last() =~= items@.subrange(0, i as int));
            assert(items@.subrange(0, i as int + 1).last() == items@[i as int]);
        }
        i = i + 1;
    }
    proof {
        assert(items@.subrange(0, n as int) =~= items@);
    }
    Some(out)
}

/// Build a completion from a parsed JSON value, checking the whole schema.
fn completion_from_json(v: &serde_json::Value) -> (r: Option<OpenAIChatCompletion>)
    ensures
        match completion_of_json(json_model(*v)) {
            Some(cv) => r matches Some(c) && c@ == cv,
            None => r is None,
        },
{
    let id = match get_str_field(v, "id") {
        Some(s) => s,
        None => {
            return None;
        },
    };
    let object = match get_str_field(v, "object") {
        Some(s) => s,
        None => {
            return None;
        },
    };
    let created = match get_i64_field(v, "created") {
        Some(n) => n,
        None => {
            return None;
        },
    };
    let model = match get_str_field(v, "model") {
        Some(s) => s,
        None => {
            return None;
        },
    };
    let choices = match json_get(v, "choices") {
        Some(c) => match json_as_array(c) {
            Some(arr) => {
                let ghost items = (match json_model(*c) {
                    JsonModel::Arr { items } => items,
                    _ => Seq::empty(),
                });
                match choices_from_json(arr, Ghost(items)) {
                    Some(x) => x,
                    None => {
                        return None;
                    },
                }
            },
            None => {
                return None;
            },
        },
        None => {
            return None;
        },
    };
    let usage = match json_get(v, "usage") {
        Some(u) => match openai_usage_from_json(u) {
            Some(x) => x,
            None => {
                return None;
            },
        },
        None => {
            return None;
        },
    };
    let r = OpenAIChatCompletion { id, choices, object, created, model, usage };
    proof {
        let cv = completion_of_json(json_model(*v))->Some_0;
        assert(r@.choices =~= cv.choices);
    }
    Some(r)
}

/// Build the token-usage counters from a parsed JSON value.
fn openai_usage_from_json(v: &serde_json::Value) -> (r: Option<OpenAIChatTokenUsage>)
    ensures
        r == openai_usage_of_json(json_model(*v)),
{
    let prompt_tokens = match get_u32_field(v, "prompt_tokens") {
        Some(n) => n,
        None => {
            return None;
        },
    };
    let completion_tokens = match get_u32_field(v, "completion_tokens") {
        Some(n) => n,
        None => {
            return None;
        },
    };
    let total_tokens = match get_u32_field(v, "total_tokens") {
        Some(n) => n,
        None => {
            return None;
        },
    };
    Some(OpenAIChatTokenUsage { prompt_tokens, completion_tokens, total_tokens })
}

/// Read the body of a single-shot chat call. Exactly the bodies matching the
/// completion schema parse; any other body is handed back whole as the error,
/// so the caller sees what the provider sent.
pub fn parse_chat_completion(content: &str) -> (r: Result<OpenAIChatCompletion, String>)
    ensures
        match r {
            Ok(c) => parsed_completion(content@) == Some(c@),
            Err(e) => parsed_completion(content@) is None && e@ == content@,
        },
{
    match parse_json(content) {
        Ok(v) => match completion_from_json(&v) {
            Some(c) => Ok(c),
            None => Err(content.to_owned()),
        },
        Err(_) => Err(content.to_owned()),
    }
}

} // verus!
