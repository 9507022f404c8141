//! Ready-made requests: the payloads that a simple client sends.

use vstd::prelude::*;
use vstd::string::*;
use crate::chat::{
    new_chat_request, ChatCompletionRequest, ChatCompletionRequestView, ChatMessage,
    ChatMessageView, Role,
};
use crate::completions::{new_completion_request, CompletionRequest, CompletionRequestView};
use crate::embeddings::{new_embeddings_request, EmbeddingsRequest, EmbeddingsRequestView};

verus! {

/// A conversation of one message, in which the user says `text`.
pub open spec fn single_user_message(text: Seq<char>) -> Seq<ChatMessageView> {
    seq![
        ChatMessageView { role: Role::User, content: text, name: None, function_call: None },
    ]
}

fn user_conversation(text: &str) -> (messages: Vec<ChatMessage>)
    ensures
        messages.len() == 1,
        messages.deep_view() == single_user_message(text@),
{
    let mut messages: Vec<ChatMessage> = Vec::new();
    messages.push(ChatMessage::new(Role::User, text));
    assert(messages.deep_view() =~= single_user_message(text@));
    messages
}

fn single_text(text: &str) -> (texts: Vec<String>)
    ensures
        texts.len() == 1,
        texts.deep_view() == seq![text@],
{
    let mut texts: Vec<String> = Vec::new();
    texts.push(String::from_str(text));
    assert(texts.deep_view() =~= seq![text@]);
    texts
}

/// The chat request that asks the model `gpt-3.5-turbo` to continue `prompt`,
/// given as the one message of the user.
pub fn create_chat_request(prompt: &str) -> (request: ChatCompletionRequest)
    ensures
        request@ == ChatCompletionRequestView::initial(
            "gpt-3.5-turbo"@,
            single_user_message(prompt@),
        ),
{
    let messages = user_conversation(prompt);
    new_chat_request("gpt-3.5-turbo", messages).unwrap().build()
}

/// The chat request that leaves the choice of the model to the service and
/// asks it what Bitcoin is.
pub fn create_llama_chat_request() -> (request: ChatCompletionRequest)
    ensures
        request@ == ChatCompletionRequestView::initial(
            ""@,
            single_user_message("What is Bitcoin?"@),
        ),
{
    let messages = user_conversation("What is Bitcoin?");
    new_chat_request("", messages).unwrap().build()
}

/// The completion request that asks `text-davinci-003` to say that this is a
/// test.
pub fn create_completion_request() -> (request: CompletionRequest)
    ensures
        request@ == (CompletionRequestView {
            model: "text-davinci-003"@,
            prompts: seq!["Say this is a test"@],
        }),
{
    let prompts = single_text("Say this is a test");
    new_completion_request("text-davinci-003", prompts).unwrap().build()
}

/// The embeddings request that asks `text-embedding-ada-002` for the vector
/// of one sentence.
pub fn create_embedding_request() -> (request: EmbeddingsRequest)
    ensures
        request@ == (EmbeddingsRequestView {
            model: "text-embedding-ada-002"@,
            inputs: seq!["The food was delicious and the waiter..."@],
        }),
{
    let inputs = single_text("The food was delicious and the waiter...");
    new_embeddings_request("text-embedding-ada-002", inputs).unwrap().build()
}

} // verus!
