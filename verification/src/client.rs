//! The single exchange with the chat-completion service: what is sent, and
//! what is made of the answer.
//!
//! Nothing here touches the network. [`request`] says what the one call
//! carries; the caller performs the call and hands what came back, as a
//! [`Reply`], to [`translation`]. There is no second attempt and no fallback:
//! a reply either yields the text of its first choice or an error.

use crate::lang::Lang;
use crate::prompt::{lemma_prompt_ends_with_document, prompt_text};
use vstd::prelude::*;

verus! {

/// The model every request is addressed to.
pub const MODEL: &'static str = "gpt-3.5-turbo";

/// Who wrote a message of a conversation.
#[derive(Debug, Clone, Copy, PartialEq, Eq, Structural)]
pub enum Role {
    /// The instructions that frame the conversation.
    System,
    /// The person asking.
    User,
    /// The model answering.
    Assistant,
    /// The result of a function that the model asked for.
    Function,
}

/// One message of a conversation.
#[derive(Debug, Clone, PartialEq, Eq)]
pub struct ChatMessage {
    /// Who wrote the message.
    pub role: Role,
    /// Its text, where it has one.
    pub content: Option<String>,
}

/// A [`ChatMessage`] as a mathematical value.
pub struct MessageView {
    /// Who wrote the message.
    pub role: Role,
    /// Its text, where it has one.
    pub content: Option<Seq<char>>,
}

impl View for ChatMessage {
    type V = MessageView;

    open spec fn view(&self) -> MessageView {
        MessageView {
            role: self.role,
            content: match self.content {
                Some(text) => Some(text@),
                None => None,
            },
        }
    }
}

/// The views of a list of messages, in the same order.
pub open spec fn message_views(messages: Seq<ChatMessage>) -> Seq<MessageView> {
    Seq::new(messages.len(), |i: int| messages[i]@)
}

/// Everything one call to the service carries.
#[derive(Debug, Clone, PartialEq, Eq)]
pub struct ChatRequest {
    /// The credential the call is made under.
    pub api_key: String,
    /// The model the conversation is submitted to.
    pub model: String,
    /// The conversation, oldest message first.
    pub messages: Vec<ChatMessage>,
}

/// A [`ChatRequest`] as a mathematical value.
pub struct RequestView {
    /// The credential the call is made under.
    pub api_key: Seq<char>,
    /// The model the conversation is submitted to.
    pub model: Seq<char>,
    /// The conversation, oldest message first.
    pub messages: Seq<MessageView>,
}

impl View for ChatRequest {
    type V = RequestView;

    open spec fn view(&self) -> RequestView {
        RequestView {
            api_key: self.api_key@,
            model: self.model@,
            messages: message_views(self.messages@),
        }
    }
}

/// What one call to the service ended in.
#[derive(Debug, Clone, PartialEq, Eq)]
pub enum Reply {
    /// The call could not be completed, or the service rejected it.
    Failed,
    /// The service answered with a completion.
    Completed {
        /// The message of each choice, in the order the service gave them.
        choices: Vec<ChatMessage>,
    },
}

/// A [`Reply`] as a mathematical value.
pub enum ReplyView {
    /// The call could not be completed, or the service rejected it.
    Failed,
    /// The service answered with a completion.
    Completed {
        /// The message of each choice, in the order the service gave them.
        choices: Seq<MessageView>,
    },
}

impl View for Reply {
    type V = ReplyView;

    open spec fn view(&self) -> ReplyView {
        match self {
            Reply::Failed => ReplyView::Failed,
            Reply::Completed { choices } => ReplyView::Completed {
                choices: message_views(choices@),
            },
        }
    }
}

/// Why an exchange produced no text.
#[derive(Debug, Clone, Copy, PartialEq, Eq, Structural)]
pub enum TranslationError {
    /// The call could not be completed, or the service rejected it.
    Transport,
    /// The completion holds no choice.
    NoChoices,
    /// The first choice's message holds no text.
    NoContent,
}

/// The request that asks for `prompt` under the credential `api_key`: the
/// fixed model, and a conversation of one message, written by the user, whose
/// text is the prompt.
pub open spec fn request_for(api_key: Seq<char>, prompt: Seq<char>) -> RequestView {
    RequestView {
        api_key,
        model: MODEL@,
        messages: seq![MessageView { role: Role::User, content: Some(prompt) }],
    }
}

/// What a reply yields: the text of the first choice's message, or the reason
/// why there is none.
pub open spec fn translation_of(reply: ReplyView) -> Result<Seq<char>, TranslationError> {
    match reply {
        ReplyView::Failed => Err(TranslationError::Transport),
        ReplyView::Completed { choices } => if choices.len() == 0 {
            Err(TranslationError::NoChoices)
        } else {
            match choices[0].content {
                Some(text) => Ok(text),
                None => Err(TranslationError::NoContent),
            }
        },
    }
}

/// The outcome of [`translation`] as a mathematical value.
pub open spec fn outcome_view(outcome: Result<String, TranslationError>) -> Result<
    Seq<char>,
    TranslationError,
> {
    match outcome {
        Ok(text) => Ok(text@),
        Err(reason) => Err(reason),
    }
}

/// Describes the one call that asks the service for `prompt` under the
/// credential `api_key`.
///
/// The call goes to [`MODEL`] and carries a conversation of exactly one
/// message: written by the user, with `prompt` as its text, unchanged.
pub fn request(api_key: &str, prompt: &str) -> (call: ChatRequest)
    ensures
        call@ == request_for(api_key@, prompt@),
        call.messages@.len() == 1,
        call.messages@[0].role == Role::User,
        call.messages@[0]@.content == Some(prompt@),
{
    let message = ChatMessage { role: Role::User, content: Some(String::from_str(prompt)) };
    let mut messages: Vec<ChatMessage> = Vec::new();
    messages.push(message);
    let call = ChatRequest {
        api_key: String::from_str(api_key),
        model: String::from_str(MODEL),
        messages,
    };
    assert(call@.messages =~= request_for(api_key@, prompt@).messages);
    call
}

/// Reads the translated text out of what the call ended in.
///
/// The text is that of the first choice's message, exactly as the service gave
/// it: nothing is trimmed from it and nothing is added, and a text that is
/// present but empty is handed on as it is. A failed call, a completion
/// without choices, and a first message without text each give their own
/// error; no text is made up in their place.
pub fn translation(reply: &Reply) -> (outcome: Result<String, TranslationError>)
    ensures
        outcome_view(outcome) == translation_of(reply@),
        outcome is Ok <==> (reply@ matches ReplyView::Completed { choices } && choices.len() > 0
            && choices[0].content is Some),
        outcome matches Ok(text) ==> (reply@ matches ReplyView::Completed { choices }
            && choices[0].content == Some(text@)),
        (outcome matches Err(reason) && reason == TranslationError::Transport) <==> reply@
            is Failed,
        (outcome matches Err(reason) && reason == TranslationError::NoChoices) <==> (
        reply@ matches ReplyView::Completed { choices } && choices.len() == 0),
        (outcome matches Err(reason) && reason == TranslationError::NoContent) <==> (
        reply@ matches ReplyView::Completed { choices } && choices.len() > 0
            && choices[0].content is None),
{
    match reply {
        Reply::Failed => Err(TranslationError::Transport),
        Reply::Completed { choices } => {
            if choices.len() == 0 {
                Err(TranslationError::NoChoices)
            } else {
                match &choices[0].content {
                    Some(text) => Ok(text.clone()),
                    None => Err(TranslationError::NoContent),
                }
            }
        },
    }
}

/// From the document to the wire nothing is lost: the request made for a
/// prompt carries one message, and that message's text ends with the document
/// the prompt was built from.
pub proof fn lemma_request_carries_the_document(
    api_key: Seq<char>,
    content: Seq<char>,
    source: Lang,
    target: Lang,
)
    ensures
        request_for(api_key, prompt_text(content, source, target)).messages.len() == 1,
        request_for(api_key, prompt_text(content, source, target)).messages[0].content
            matches Some(text) && content.is_suffix_of(text),
{
    lemma_prompt_ends_with_document(content, source, target);
}

} // verus!
