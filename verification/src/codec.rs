//! The wire shape of each payload, and the way back from it.
//!
//! Every payload is written as an object with its fields under fixed keys;
//! a field that was not set has no member. Reading an object back gives the
//! payload it was written from.

use vstd::prelude::*;
use vstd::string::*;
use crate::chat::{
    new_chat_request, ChatCompletionRequest, ChatCompletionRequestView, ChatMessage,
    ChatMessageView, Role, SamplingStrategy,
};
use crate::completions::{new_completion_request, CompletionRequest, CompletionRequestView};
use crate::embeddings::{new_embeddings_request, EmbeddingsRequest, EmbeddingsRequestView};
use crate::number::Decimal;
use crate::wire::{
    copy_members, find, lemma_list_view, lemma_lookup_concat, lemma_lookup_optional,
    lemma_object_view, lemma_texts_round_trip, lookup, optional_member, put, texts_from_wire,
    texts_parse, texts_to_wire, texts_wire, WireValue, WireTree,
};

verus! {

/// The member that holds `value` under `key`.
pub open spec fn member(key: Seq<char>, value: WireTree) -> Seq<(Seq<char>, WireTree)> {
    optional_member(key, Some(value))
}

/// The value as a text, where there is one.
pub open spec fn optional_text(value: Option<Seq<char>>) -> Option<WireTree> {
    match value {
        Some(t) => Some(WireTree::Text(t)),
        None => None,
    }
}

/// The value as a number, where there is one.
pub open spec fn optional_number(value: Option<Decimal>) -> Option<WireTree> {
    match value {
        Some(n) => Some(WireTree::Number(n)),
        None => None,
    }
}

/// What a member that may be absent holds, read as a text: nothing if it is
/// absent, and no reading at all if it holds anything but a text.
pub open spec fn read_optional_text(value: Option<WireTree>) -> Option<Option<Seq<char>>> {
    match value {
        None => Some(None),
        Some(WireTree::Text(t)) => Some(Some(t)),
        Some(_) => None,
    }
}

/// What a member that may be absent holds, read as a number.
pub open spec fn read_optional_number(value: Option<WireTree>) -> Option<Option<Decimal>> {
    match value {
        None => Some(None),
        Some(WireTree::Number(n)) => Some(Some(n)),
        Some(_) => None,
    }
}

/// The wire shape of a completion request.
pub open spec fn completion_wire(request: CompletionRequestView) -> WireTree {
    WireTree::Object(
        member("model"@, WireTree::Text(request.model)) + member(
            "prompt"@,
            texts_wire(request.prompts),
        ),
    )
}

/// The completion request that an object holds, if it holds one: a model
/// and at least one prompt.
pub open spec fn completion_parse(doc: WireTree) -> Option<CompletionRequestView> {
    match doc {
        WireTree::Object(members) => match (lookup(members, "model"@), lookup(members, "prompt"@)) {
            (Some(WireTree::Text(model)), Some(list)) => match texts_parse(list) {
                Some(prompts) => if prompts.len() > 0 {
                    Some(CompletionRequestView { model, prompts })
                } else {
                    None
                },
                None => None,
            },
            _ => None,
        },
        _ => None,
    }
}

/// Serialization fidelity for completion requests: writing a well-formed
/// payload and reading it back gives the same payload.
pub proof fn law_completion_round_trip(request: CompletionRequestView)
    requires
        request.wf(),
    ensures
        completion_parse(completion_wire(request)) == Some(request),
{
    broadcast use {lemma_lookup_concat, lemma_lookup_optional, lemma_texts_round_trip};

    reveal_strlit("model");
    reveal_strlit("prompt");
    assert("model"@.len() == 5 && "prompt"@.len() == 6);
}

/// The wire shape of an embeddings request.
pub open spec fn embeddings_wire(request: EmbeddingsRequestView) -> WireTree {
    WireTree::Object(
        member("model"@, WireTree::Text(request.model)) + member(
            "input"@,
            texts_wire(request.inputs),
        ),
    )
}

/// The embeddings request that an object holds, if it holds one: a model
/// and at least one input text.
pub open spec fn embeddings_parse(doc: WireTree) -> Option<EmbeddingsRequestView> {
    match doc {
        WireTree::Object(members) => match (lookup(members, "model"@), lookup(members, "input"@)) {
            (Some(WireTree::Text(model)), Some(list)) => match texts_parse(list) {
                Some(inputs) => if inputs.len() > 0 {
                    Some(EmbeddingsRequestView { model, inputs })
                } else {
                    None
                },
                None => None,
            },
            _ => None,
        },
        _ => None,
    }
}

/// Serialization fidelity for embeddings requests: writing a well-formed
/// payload and reading it back gives the same payload.
pub proof fn law_embeddings_round_trip(request: EmbeddingsRequestView)
    requires
        request.wf(),
    ensures
        embeddings_parse(embeddings_wire(request)) == Some(request),
{
    broadcast use {lemma_lookup_concat, lemma_lookup_optional, lemma_texts_round_trip};

    reveal_strlit("model");
    reveal_strlit("input");
    assert("model"@[0] == 'm' && "input"@[0] == 'i');
}

/// The value as an object, where there is one.
pub open spec fn optional_object(value: Option<Seq<(Seq<char>, WireTree)>>) -> Option<WireTree> {
    match value {
        Some(members) => Some(WireTree::Object(members)),
        None => None,
    }
}

/// What a member that may be absent holds, read as an object.
pub open spec fn read_optional_object(value: Option<WireTree>) -> Option<
    Option<Seq<(Seq<char>, WireTree)>>,
> {
    match value {
        None => Some(None),
        Some(WireTree::Object(members)) => Some(Some(members)),
        Some(_) => None,
    }
}

/// The wire shape of a message.
pub open spec fn message_wire(message: ChatMessageView) -> WireTree {
    WireTree::Object(
        member("role"@, WireTree::Text(message.role.word())) + member(
            "content"@,
            WireTree::Text(message.content),
        ) + optional_member("name"@, optional_text(message.name)) + optional_member(
            "function_call"@,
            optional_object(message.function_call),
        ),
    )
}

/// The message that an object holds, if it holds one: the word of a role,
/// a text, and where they are present a name and the object of a function
/// call.
pub open spec fn message_parse(doc: WireTree) -> Option<ChatMessageView> {
    match doc {
        WireTree::Object(members) => match (
            lookup(members, "role"@),
            lookup(members, "content"@),
            read_optional_text(lookup(members, "name"@)),
            read_optional_object(lookup(members, "function_call"@)),
        ) {
            (
                Some(WireTree::Text(word)),
                Some(WireTree::Text(content)),
                Some(name),
                Some(function_call),
            ) => match Role::named(word) {
                Some(role) => Some(ChatMessageView { role, content, name, function_call }),
                None => None,
            },
            _ => None,
        },
        _ => None,
    }
}

/// Serialization fidelity for messages: writing a message and reading it
/// back gives the same message.
pub broadcast proof fn law_message_round_trip(message: ChatMessageView)
    ensures
        #[trigger] message_parse(message_wire(message)) == Some(message),
{
    broadcast use {lemma_lookup_concat, lemma_lookup_optional, Role::word_names_role};

    reveal_strlit("role");
    reveal_strlit("content");
    reveal_strlit("name");
    reveal_strlit("function_call");
    assert("role"@[0] == 'r' && "name"@[0] == 'n' && "content"@.len() == 7
        && "function_call"@.len() == 13 && "role"@.len() == 4 && "name"@.len() == 4);
}

/// The list that holds the wire shape of each message, in order.
pub open spec fn messages_wire(messages: Seq<ChatMessageView>) -> WireTree {
    WireTree::List(Seq::new(messages.len(), |i: int| message_wire(messages[i])))
}

/// The messages that a list holds, if it is a list and each of its items
/// holds a message.
pub open spec fn messages_parse(doc: WireTree) -> Option<Seq<ChatMessageView>> {
    match doc {
        WireTree::List(items) => if forall|i: int|
            0 <= i < items.len() ==> message_parse(#[trigger] items[i]) is Some {
            Some(Seq::new(items.len(), |i: int| message_parse(items[i])->0))
        } else {
            None
        },
        _ => None,
    }
}

/// A list of messages is read back as the messages it was made of, in the
/// same order.
pub broadcast proof fn law_messages_round_trip(messages: Seq<ChatMessageView>)
    ensures
        #[trigger] messages_parse(messages_wire(messages)) == Some(messages),
{
    broadcast use law_message_round_trip;

    assert(messages_parse(messages_wire(messages))->0 =~= messages);
}

/// The value as a whole number, where there is one.
pub open spec fn optional_count(value: Option<u32>) -> Option<WireTree> {
    match value {
        Some(n) => Some(WireTree::Number(Decimal::whole_number(n))),
        None => None,
    }
}

/// The value as a list of texts, where there is one.
pub open spec fn optional_texts(value: Option<Seq<Seq<char>>>) -> Option<WireTree> {
    match value {
        Some(texts) => Some(texts_wire(texts)),
        None => None,
    }
}

/// The sampling strategy that the two members of a request hold between
/// them: none if both are absent, the one that is present if its value is a
/// number in range, and no reading at all if both are present.
pub open spec fn read_sampling(temperature: Option<WireTree>, top_p: Option<WireTree>) -> Option<
    Option<SamplingStrategy>,
> {
    match (temperature, top_p) {
        (None, None) => Some(None),
        (Some(WireTree::Number(t)), None) => if SamplingStrategy::Temperature(t).wf() {
            Some(Some(SamplingStrategy::Temperature(t)))
        } else {
            None
        },
        (None, Some(WireTree::Number(p))) => if SamplingStrategy::TopP(p).wf() {
            Some(Some(SamplingStrategy::TopP(p)))
        } else {
            None
        },
        _ => None,
    }
}

/// What a member that may be absent holds, read as a token limit: a whole
/// number above zero.
pub open spec fn read_max_tokens(value: Option<WireTree>) -> Option<Option<u32>> {
    match value {
        None => Some(None),
        Some(WireTree::Number(n)) => match n.as_whole_number() {
            Some(limit) => if limit > 0 {
                Some(Some(limit))
            } else {
                None
            },
            None => None,
        },
        Some(_) => None,
    }
}

/// What a member that may be absent holds, read as a list of texts.
pub open spec fn read_optional_texts(value: Option<WireTree>) -> Option<Option<Seq<Seq<char>>>> {
    match value {
        None => Some(None),
        Some(list) => match texts_parse(list) {
            Some(texts) => Some(Some(texts)),
            None => None,
        },
    }
}

/// The members of the wire shape of a chat request.
pub open spec fn chat_members(request: ChatCompletionRequestView) -> Seq<(Seq<char>, WireTree)> {
    member("model"@, WireTree::Text(request.model)) + member(
        "messages"@,
        messages_wire(request.messages),
    ) + optional_member("temperature"@, optional_number(request.temperature()))
        + optional_member("top_p"@, optional_number(request.top_p())) + optional_member(
        "max_tokens"@,
        optional_count(request.max_tokens),
    ) + optional_member("stop"@, optional_texts(request.stop)) + optional_member(
        "presence_penalty"@,
        optional_number(request.presence_penalty),
    ) + optional_member("frequency_penalty"@, optional_number(request.frequency_penalty))
}

/// The wire shape of a chat request.
pub open spec fn chat_wire(request: ChatCompletionRequestView) -> WireTree {
    WireTree::Object(chat_members(request))
}

/// The chat request that an object holds, if it holds one: a model, at
/// least one message, and where they are present one sampling value in its
/// range, a token limit above zero, stop sequences and penalties.
pub open spec fn chat_parse(doc: WireTree) -> Option<ChatCompletionRequestView> {
    match doc {
        WireTree::Object(members) => match (
            lookup(members, "model"@),
            lookup(members, "messages"@),
            read_sampling(lookup(members, "temperature"@), lookup(members, "top_p"@)),
            read_max_tokens(lookup(members, "max_tokens"@)),
            read_optional_texts(lookup(members, "stop"@)),
            read_optional_number(lookup(members, "presence_penalty"@)),
            read_optional_number(lookup(members, "frequency_penalty"@)),
        ) {
            (
                Some(WireTree::Text(model)),
                Some(list),
                Some(sampling),
                Some(max_tokens),
                Some(stop),
                Some(presence_penalty),
                Some(frequency_penalty),
            ) => match messages_parse(list) {
                Some(messages) => if messages.len() > 0 {
                    Some(
                        ChatCompletionRequestView {
                            model,
                            messages,
                            sampling,
                            max_tokens,
                            stop,
                            presence_penalty,
                            frequency_penalty,
                        },
                    )
                } else {
                    None
                },
                None => None,
            },
            _ => None,
        },
        _ => None,
    }
}

/// What the wire shape of a chat request holds under each of its keys.
pub proof fn lemma_chat_members(request: ChatCompletionRequestView)
    ensures
        lookup(chat_members(request), "model"@) == Some(WireTree::Text(request.model)),
        lookup(chat_members(request), "messages"@) == Some(messages_wire(request.messages)),
        lookup(chat_members(request), "temperature"@) == optional_number(request.temperature()),
        lookup(chat_members(request), "top_p"@) == optional_number(request.top_p()),
        lookup(chat_members(request), "max_tokens"@) == optional_count(request.max_tokens),
        lookup(chat_members(request), "stop"@) == optional_texts(request.stop),
        lookup(chat_members(request), "presence_penalty"@) == optional_number(
            request.presence_penalty,
        ),
        lookup(chat_members(request), "frequency_penalty"@) == optional_number(
            request.frequency_penalty,
        ),
{
    broadcast use {lemma_lookup_concat, lemma_lookup_optional};

    reveal_strlit("model");
    reveal_strlit("messages");
    reveal_strlit("temperature");
    reveal_strlit("top_p");
    reveal_strlit("max_tokens");
    reveal_strlit("stop");
    reveal_strlit("presence_penalty");
    reveal_strlit("frequency_penalty");
    assert("model"@.len() == 5 && "messages"@.len() == 8 && "temperature"@.len() == 11
        && "top_p"@.len() == 5 && "max_tokens"@.len() == 10 && "stop"@.len() == 4
        && "presence_penalty"@.len() == 16 && "frequency_penalty"@.len() == 17);
    assert("model"@[0] == 'm' && "top_p"@[0] == 't');
}

/// Serialization fidelity for chat requests: writing a well-formed payload
/// and reading it back gives the same payload, field for field.
pub proof fn law_chat_round_trip(request: ChatCompletionRequestView)
    requires
        request.wf(),
    ensures
        chat_parse(chat_wire(request)) == Some(request),
{
    broadcast use {law_messages_round_trip, lemma_texts_round_trip};

    lemma_chat_members(request);
}

/// On the wire a chat request never carries both a temperature and a
/// nucleus-sampling mass.
pub proof fn law_one_sampling_member(request: ChatCompletionRequestView)
    ensures
        lookup(chat_members(request), "temperature"@) is None || lookup(
            chat_members(request),
            "top_p"@,
        ) is None,
{
    lemma_chat_members(request);
}

impl CompletionRequest {
    /// The wire shape of the request.
    pub fn to_wire(&self) -> (doc: WireValue)
        ensures
            doc@ == completion_wire(self@),
            completion_parse(doc@) == Some(self@),
    {
        let mut members: Vec<(String, WireValue)> = Vec::new();
        put(&mut members, "model", Some(WireValue::Text(self.model().clone())));
        put(&mut members, "prompt", Some(texts_to_wire(self.prompts())));
        proof {
            lemma_object_view(members);
            law_completion_round_trip(self@);
        }
        WireValue::Object(members)
    }

    /// The request that a value holds, if it holds one.
    pub fn from_wire(doc: &WireValue) -> (r: Option<CompletionRequest>)
        ensures
            r matches Some(request) ==> completion_parse(doc@) == Some(request@),
            r is None ==> completion_parse(doc@) is None,
    {
        match doc {
            WireValue::Object(members) => {
                proof {
                    lemma_object_view(*members);
                }
                let model = match find(members, "model") {
                    Some(WireValue::Text(model)) => model,
                    _ => {
                        return None;
                    },
                };
                let list = match find(members, "prompt") {
                    Some(list) => list,
                    None => {
                        return None;
                    },
                };
                let prompts = match texts_from_wire(list) {
                    Some(prompts) => prompts,
                    None => {
                        return None;
                    },
                };
                match new_completion_request(model.as_str(), prompts) {
                    Ok(builder) => Some(builder.build()),
                    Err(_) => None,
                }
            },
            _ => None,
        }
    }
}

impl EmbeddingsRequest {
    /// The wire shape of the request.
    pub fn to_wire(&self) -> (doc: WireValue)
        ensures
            doc@ == embeddings_wire(self@),
            embeddings_parse(doc@) == Some(self@),
    {
        let mut members: Vec<(String, WireValue)> = Vec::new();
        put(&mut members, "model", Some(WireValue::Text(self.model().clone())));
        put(&mut members, "input", Some(texts_to_wire(self.inputs())));
        proof {
            lemma_object_view(members);
            law_embeddings_round_trip(self@);
        }
        WireValue::Object(members)
    }

    /// The request that a value holds, if it holds one.
    pub fn from_wire(doc: &WireValue) -> (r: Option<EmbeddingsRequest>)
        ensures
            r matches Some(request) ==> embeddings_parse(doc@) == Some(request@),
            r is None ==> embeddings_parse(doc@) is None,
    {
        match doc {
            WireValue::Object(members) => {
                proof {
                    lemma_object_view(*members);
                }
                let model = match find(members, "model") {
                    Some(WireValue::Text(model)) => model,
                    _ => {
                        return None;
                    },
                };
                let list = match find(members, "input") {
                    Some(list) => list,
                    None => {
                        return None;
                    },
                };
                let inputs = match texts_from_wire(list) {
                    Some(inputs) => inputs,
                    None => {
                        return None;
                    },
                };
                match new_embeddings_request(model.as_str(), inputs) {
                    Ok(builder) => Some(builder.build()),
                    Err(_) => None,
                }
            },
            _ => None,
        }
    }
}

impl ChatMessage {
    /// The wire shape of the message.
    pub fn to_wire(&self) -> (doc: WireValue)
        ensures
            doc@ == message_wire(self@),
            message_parse(doc@) == Some(self@),
    {
        let name = match &self.name {
            Some(name) => Some(WireValue::Text(name.clone())),
            None => None,
        };
        let function_call = match &self.function_call {
            Some(members) => {
                let copy = copy_members(members);
                proof {
                    lemma_object_view(copy);
                }
                Some(WireValue::Object(copy))
            },
            None => None,
        };
        let mut members: Vec<(String, WireValue)> = Vec::new();
        put(&mut members, "role", Some(WireValue::Text(String::from_str(self.role.as_str()))));
        put(&mut members, "content", Some(WireValue::Text(self.content.clone())));
        put(&mut members, "name", name);
        put(&mut members, "function_call", function_call);
        proof {
            lemma_object_view(members);
            law_message_round_trip(self@);
        }
        WireValue::Object(members)
    }

    /// The message that a value holds, if it holds one.
    pub fn from_wire(doc: &WireValue) -> (r: Option<ChatMessage>)
        ensures
            r.deep_view() == message_parse(doc@),
    {
        match doc {
            WireValue::Object(members) => {
                proof {
                    lemma_object_view(*members);
                }
                let word = match find(members, "role") {
                    Some(WireValue::Text(word)) => word,
                    _ => {
                        return None;
                    },
                };
                let content = match find(members, "content") {
                    Some(WireValue::Text(content)) => content,
                    _ => {
                        return None;
                    },
                };
                let name = match find(members, "name") {
                    None => None,
                    Some(WireValue::Text(name)) => Some(name.clone()),
                    Some(_) => {
                        return None;
                    },
                };
                let function_call = match find(members, "function_call") {
                    None => None,
                    Some(WireValue::Object(call)) => {
                        proof {
                            lemma_object_view(*call);
                        }
                        Some(copy_members(call))
                    },
                    Some(_) => {
                        return None;
                    },
                };
                match Role::from_word(word.as_str()) {
                    Some(role) => Some(
                        ChatMessage { role, content: content.clone(), name, function_call },
                    ),
                    None => None,
                }
            },
            _ => None,
        }
    }
}

/// The list that holds the wire shape of each message, in order.
pub fn messages_to_wire(messages: &Vec<ChatMessage>) -> (doc: WireValue)
    ensures
        doc@ == messages_wire(messages.deep_view()),
{
    let mut items: Vec<WireValue> = Vec::new();
    let mut i: usize = 0;
    while i < messages.len()
        invariant
            i <= messages.len(),
            items.len() == i,
            forall|j: int| 0 <= j < i ==> items@[j]@ == message_wire(messages@[j]@),
        decreases messages.len() - i,
    {
        items.push(messages[i].to_wire());
        i += 1;
    }
    proof {
        lemma_list_view(items);
        assert(items.deep_view() =~= messages_wire(messages.deep_view())->List_0);
    }
    WireValue::List(items)
}

/// The messages that a value holds, if it is a list and each of its items
/// holds a message.
pub fn messages_from_wire(doc: &WireValue) -> (r: Option<Vec<ChatMessage>>)
    ensures
        r.deep_view() == messages_parse(doc@),
{
    match doc {
        WireValue::List(items) => {
            proof {
                lemma_list_view(*items);
            }
            let mut messages: Vec<ChatMessage> = Vec::new();
            let mut i: usize = 0;
            while i < items.len()
                invariant
                    i <= items.len(),
                    messages.len() == i,
                    doc@ == WireTree::List(items.deep_view()),
                    forall|j: int| 0 <= j < i ==> message_parse(items@[j]@) == Some(messages@[j]@),
                decreases items.len() - i,
            {
                match ChatMessage::from_wire(&items[i]) {
                    Some(message) => {
                        messages.push(message);
                    },
                    None => {
                        assert(message_parse(items.deep_view()[i as int]) is None);
                        return None;
                    },
                }
                i += 1;
            }
            proof {
                assert forall|j: int| 0 <= j < items.len() implies message_parse(
                    #[trigger] items.deep_view()[j],
                ) is Some by {
                    assert(message_parse(items@[j]@) == Some(messages@[j]@));
                }
                assert(messages.deep_view() =~= messages_parse(doc@)->0);
            }
            Some(messages)
        },
        _ => None,
    }
}

impl ChatCompletionRequest {
    /// The wire shape of the request.
    pub fn to_wire(&self) -> (doc: WireValue)
        ensures
            doc@ == chat_wire(self@),
            chat_parse(doc@) == Some(self@),
    {
        let (temperature, top_p) = match self.sampling() {
            Some(SamplingStrategy::Temperature(t)) => (Some(WireValue::Number(t)), None),
            Some(SamplingStrategy::TopP(p)) => (None, Some(WireValue::Number(p))),
            None => (None, None),
        };
        let max_tokens = match self.max_tokens() {
            Some(limit) => Some(WireValue::Number(Decimal::from_integer(limit))),
            None => None,
        };
        let stop = match self.stop() {
            Some(texts) => Some(texts_to_wire(texts)),
            None => None,
        };
        let presence_penalty = match self.presence_penalty() {
            Some(p) => Some(WireValue::Number(p)),
            None => None,
        };
        let frequency_penalty = match self.frequency_penalty() {
            Some(p) => Some(WireValue::Number(p)),
            None => None,
        };
        let mut members: Vec<(String, WireValue)> = Vec::new();
        put(&mut members, "model", Some(WireValue::Text(self.model().clone())));
        put(&mut members, "messages", Some(messages_to_wire(self.messages())));
        put(&mut members, "temperature", temperature);
        put(&mut members, "top_p", top_p);
        put(&mut members, "max_tokens", max_tokens);
        put(&mut members, "stop", stop);
        put(&mut members, "presence_penalty", presence_penalty);
        put(&mut members, "frequency_penalty", frequency_penalty);
        proof {
            lemma_object_view(members);
            law_chat_round_trip(self@);
        }
        WireValue::Object(members)
    }

    /// The request that a value holds, if it holds one.
    pub fn from_wire(doc: &WireValue) -> (r: Option<ChatCompletionRequest>)
        ensures
            r matches Some(request) ==> chat_parse(doc@) == Some(request@),
            r is None ==> chat_parse(doc@) is None,
    {
        match doc {
            WireValue::Object(members) => {
                proof {
                    lemma_object_view(*members);
                }
                let model = match find(members, "model") {
                    Some(WireValue::Text(model)) => model,
                    _ => {
                        return None;
                    },
                };
                let list = match find(members, "messages") {
                    Some(list) => list,
                    None => {
                        return None;
                    },
                };
                let sampling = match read_sampling_members(
                    find(members, "temperature"),
                    find(members, "top_p"),
                ) {
                    Some(sampling) => sampling,
                    None => {
                        return None;
                    },
                };
                let max_tokens = match find(members, "max_tokens") {
                    None => None,
                    Some(WireValue::Number(n)) => match n.to_integer() {
                        Some(limit) => {
                            if limit == 0 {
                                return None;
                            }
                            Some(limit)
                        },
                        None => {
                            return None;
                        },
                    },
                    Some(_) => {
                        return None;
                    },
                };
                let stop = match find(members, "stop") {
                    None => None,
                    Some(list) => match texts_from_wire(list) {
                        Some(texts) => Some(texts),
                        None => {
                            return None;
                        },
                    },
                };
                let presence_penalty = match find(members, "presence_penalty") {
                    None => None,
                    Some(WireValue::Number(p)) => Some(*p),
                    Some(_) => {
                        return None;
                    },
                };
                let frequency_penalty = match find(members, "frequency_penalty") {
                    None => None,
                    Some(WireValue::Number(p)) => Some(*p),
                    Some(_) => {
                        return None;
                    },
                };
                let messages = match messages_from_wire(list) {
                    Some(messages) => messages,
                    None => {
                        return None;
                    },
                };
                let mut builder = match new_chat_request(model.as_str(), messages) {
                    Ok(builder) => builder,
                    Err(_) => {
                        return None;
                    },
                };
                if let Some(strategy) = sampling {
                    builder = builder.with_sampling(strategy);
                }
                if let Some(limit) = max_tokens {
                    builder = builder.with_max_tokens(limit);
                }
                if let Some(texts) = stop {
                    builder = builder.with_stop(texts);
                }
                if let Some(penalty) = presence_penalty {
                    builder = builder.with_presence_penalty(penalty);
                }
                if let Some(penalty) = frequency_penalty {
                    builder = builder.with_frequency_penalty(penalty);
                }
                Some(builder.build())
            },
            _ => None,
        }
    }
}

/// The sampling strategy that the two members of a request hold between
/// them.
fn read_sampling_members(temperature: Option<&WireValue>, top_p: Option<&WireValue>) -> (r: Option<
    Option<SamplingStrategy>,
>)
    ensures
        r == read_sampling(temperature.deep_view(), top_p.deep_view()),
{
    match temperature {
        None => match top_p {
            None => Some(None),
            Some(WireValue::Number(p)) => match SamplingStrategy::top_p(*p) {
                Ok(strategy) => Some(Some(strategy)),
                Err(_) => None,
            },
            Some(_) => None,
        },
        Some(WireValue::Number(t)) => match top_p {
            None => match SamplingStrategy::temperature(*t) {
                Ok(strategy) => Some(Some(strategy)),
                Err(_) => None,
            },
            Some(_) => None,
        },
        Some(_) => None,
    }
}

} // verus!
