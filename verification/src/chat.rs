//! Chat completion requests: conversation messages, the sampling strategy,
//! the payload, and the builder that assembles it.

use vstd::prelude::*;
use vstd::string::*;
use crate::error::ConfigurationError;
use crate::number::Decimal;
use crate::wire::{copy_members, WireValue, WireTree};

verus! {

/// Who is speaking in a message.
#[derive(Clone, Copy, Debug, PartialEq, Eq, Structural)]
pub enum Role {
    System,
    User,
    Assistant,
    Function,
}

impl Role {
    /// The word that stands for the role on the wire.
    pub open spec fn word(self) -> Seq<char> {
        match self {
            Role::System => "system"@,
            Role::User => "user"@,
            Role::Assistant => "assistant"@,
            Role::Function => "function"@,
        }
    }

    /// The role that a word stands for, if it stands for one.
    pub open spec fn named(word: Seq<char>) -> Option<Role> {
        if word == "system"@ {
            Some(Role::System)
        } else if word == "user"@ {
            Some(Role::User)
        } else if word == "assistant"@ {
            Some(Role::Assistant)
        } else if word == "function"@ {
            Some(Role::Function)
        } else {
            None
        }
    }

    /// Each role is the one that its word stands for.
    pub broadcast proof fn word_names_role(role: Role)
        ensures
            #[trigger] Role::named(role.word()) == Some(role),
    {
        reveal_strlit("system");
        reveal_strlit("user");
        reveal_strlit("assistant");
        reveal_strlit("function");
        assert("system"@.len() == 6 && "user"@.len() == 4 && "assistant"@.len() == 9
            && "function"@.len() == 8);
    }

    /// The word that stands for the role on the wire.
    pub fn as_str(&self) -> (word: &'static str)
        ensures
            word@ == self.word(),
    {
        match self {
            Role::System => "system",
            Role::User => "user",
            Role::Assistant => "assistant",
            Role::Function => "function",
        }
    }

    /// The role that a word stands for, if it stands for one.
    pub fn from_word(word: &str) -> (role: Option<Role>)
        ensures
            role == Role::named(word@),
    {
        let given = String::from_str(word);
        if given == String::from_str("system") {
            Some(Role::System)
        } else if given == String::from_str("user") {
            Some(Role::User)
        } else if given == String::from_str("assistant") {
            Some(Role::Assistant)
        } else if given == String::from_str("function") {
            Some(Role::Function)
        } else {
            None
        }
    }
}

/// One message of a conversation.
#[derive(Debug, PartialEq, Eq)]
pub struct ChatMessage {
    pub role: Role,
    /// The text of the message; it may be empty.
    pub content: String,
    /// The name of the speaker, where one is given.
    pub name: Option<String>,
    /// The members of the function call that the message carries, where it
    /// carries one. The value is handed on as it is.
    pub function_call: Option<Vec<(String, WireValue)>>,
}

/// What a [`ChatMessage`] holds, as a mathematical value.
pub struct ChatMessageView {
    pub role: Role,
    pub content: Seq<char>,
    pub name: Option<Seq<char>>,
    pub function_call: Option<Seq<(Seq<char>, WireTree)>>,
}

impl View for ChatMessage {
    type V = ChatMessageView;

    open spec fn view(&self) -> ChatMessageView {
        ChatMessageView {
            role: self.role,
            content: self.content@,
            name: self.name.deep_view(),
            function_call: self.function_call.deep_view(),
        }
    }
}

impl DeepView for ChatMessage {
    type V = ChatMessageView;

    open spec fn deep_view(&self) -> ChatMessageView {
        self@
    }
}

impl Clone for ChatMessage {
    fn clone(&self) -> (r: ChatMessage)
        ensures
            r@ == self@,
    {
        let name = match &self.name {
            Some(n) => Some(n.clone()),
            None => None,
        };
        let function_call = match &self.function_call {
            Some(members) => Some(copy_members(members)),
            None => None,
        };
        ChatMessage { role: self.role, content: self.content.clone(), name, function_call }
    }
}

impl ChatMessage {
    /// A message of `role` with the text `content`, without a name or a
    /// function call.
    pub fn new(role: Role, content: &str) -> (m: ChatMessage)
        ensures
            m@ == (ChatMessageView {
                role,
                content: content@,
                name: None,
                function_call: None,
            }),
    {
        ChatMessage { role, content: String::from_str(content), name: None, function_call: None }
    }

    /// The same message, spoken under `name`. A name set before is replaced.
    pub fn with_name(self, name: &str) -> (m: ChatMessage)
        ensures
            m@ == (ChatMessageView { name: Some(name@), ..self@ }),
    {
        ChatMessage {
            role: self.role,
            content: self.content,
            name: Some(String::from_str(name)),
            function_call: self.function_call,
        }
    }

    /// The same message, carrying the function call with the given members.
    /// A call set before is replaced.
    pub fn with_function_call(self, members: Vec<(String, WireValue)>) -> (m: ChatMessage)
        ensures
            m@ == (ChatMessageView { function_call: Some(members.deep_view()), ..self@ }),
    {
        ChatMessage {
            role: self.role,
            content: self.content,
            name: self.name,
            function_call: Some(members),
        }
    }
}

/// The greatest temperature, in thousandths.
pub const MAX_TEMPERATURE: i64 = 2000;

/// The greatest nucleus-sampling mass, in thousandths.
pub const MAX_TOP_P: i64 = 1000;

/// How randomness in generation is controlled: by temperature or by
/// nucleus sampling, never by both.
#[derive(Clone, Copy, Debug, PartialEq, Eq, Structural)]
pub enum SamplingStrategy {
    /// A temperature in `0.0..=2.0`.
    Temperature(Decimal),
    /// A probability mass in `0.0..=1.0`.
    TopP(Decimal),
}

impl SamplingStrategy {
    /// Whether the value lies in the range of its strategy.
    pub open spec fn wf(self) -> bool {
        match self {
            SamplingStrategy::Temperature(t) => t.within(0, MAX_TEMPERATURE as int),
            SamplingStrategy::TopP(p) => p.within(0, MAX_TOP_P as int),
        }
    }

    /// Sampling at temperature `value`, if that lies in `0.0..=2.0`.
    pub fn temperature(value: Decimal) -> (r: Result<SamplingStrategy, ConfigurationError>)
        ensures
            value.within(0, MAX_TEMPERATURE as int) ==> r == Ok::<
                SamplingStrategy,
                ConfigurationError,
            >(SamplingStrategy::Temperature(value)),
            !value.within(0, MAX_TEMPERATURE as int) ==> r == Err::<
                SamplingStrategy,
                ConfigurationError,
            >(ConfigurationError::TemperatureOutOfRange),
    {
        if value.is_within(0, MAX_TEMPERATURE) {
            Ok(SamplingStrategy::Temperature(value))
        } else {
            Err(ConfigurationError::TemperatureOutOfRange)
        }
    }

    /// Nucleus sampling with mass `value`, if that lies in `0.0..=1.0`.
    pub fn top_p(value: Decimal) -> (r: Result<SamplingStrategy, ConfigurationError>)
        ensures
            value.within(0, MAX_TOP_P as int) ==> r == Ok::<SamplingStrategy, ConfigurationError>(
                SamplingStrategy::TopP(value),
            ),
            !value.within(0, MAX_TOP_P as int) ==> r == Err::<
                SamplingStrategy,
                ConfigurationError,
            >(ConfigurationError::TopPOutOfRange),
    {
        if value.is_within(0, MAX_TOP_P) {
            Ok(SamplingStrategy::TopP(value))
        } else {
            Err(ConfigurationError::TopPOutOfRange)
        }
    }

    /// Whether the value lies in the range of its strategy.
    pub fn is_valid(&self) -> (b: bool)
        ensures
            b == self.wf(),
    {
        match self {
            SamplingStrategy::Temperature(t) => t.is_within(0, MAX_TEMPERATURE),
            SamplingStrategy::TopP(p) => p.is_within(0, MAX_TOP_P),
        }
    }
}

/// A chat completion request, ready to be put on the wire.
///
/// A value of this type always holds at least one message, a sampling value
/// within its range where it holds one, and a token limit above zero where
/// it holds one.
#[derive(Debug, PartialEq, Eq)]
pub struct ChatCompletionRequest {
    model: String,
    messages: Vec<ChatMessage>,
    sampling: Option<SamplingStrategy>,
    max_tokens: Option<u32>,
    stop: Option<Vec<String>>,
    presence_penalty: Option<Decimal>,
    frequency_penalty: Option<Decimal>,
}

/// What a [`ChatCompletionRequest`] holds, as a mathematical value.
pub struct ChatCompletionRequestView {
    /// The model that is asked; empty where the service is to choose.
    pub model: Seq<char>,
    pub messages: Seq<ChatMessageView>,
    pub sampling: Option<SamplingStrategy>,
    pub max_tokens: Option<u32>,
    pub stop: Option<Seq<Seq<char>>>,
    pub presence_penalty: Option<Decimal>,
    pub frequency_penalty: Option<Decimal>,
}

impl ChatCompletionRequestView {
    /// Whether the payload is well formed: it has a message, its sampling
    /// value is in range, and its token limit is positive.
    pub open spec fn wf(self) -> bool {
        &&& self.messages.len() > 0
        &&& (self.sampling matches Some(s) ==> s.wf())
        &&& (self.max_tokens matches Some(n) ==> n > 0)
    }

    /// The payload that holds the required fields and nothing else.
    pub open spec fn initial(model: Seq<char>, messages: Seq<ChatMessageView>) -> Self {
        ChatCompletionRequestView {
            model,
            messages,
            sampling: None,
            max_tokens: None,
            stop: None,
            presence_penalty: None,
            frequency_penalty: None,
        }
    }

    /// The temperature that the payload carries, if its strategy is one.
    pub open spec fn temperature(self) -> Option<Decimal> {
        match self.sampling {
            Some(SamplingStrategy::Temperature(t)) => Some(t),
            _ => None,
        }
    }

    /// The nucleus-sampling mass that the payload carries, if its strategy
    /// is one.
    pub open spec fn top_p(self) -> Option<Decimal> {
        match self.sampling {
            Some(SamplingStrategy::TopP(p)) => Some(p),
            _ => None,
        }
    }
}

/// One optional setting of a chat request, as a mathematical value.
pub enum ChatSetting {
    Sampling(SamplingStrategy),
    MaxTokens(u32),
    Stop(Seq<Seq<char>>),
    PresencePenalty(Decimal),
    FrequencyPenalty(Decimal),
}

impl ChatSetting {
    /// Whether the setting may be recorded: a sampling value lies in its
    /// range and a token limit is positive.
    pub open spec fn wf(self) -> bool {
        match self {
            ChatSetting::Sampling(s) => s.wf(),
            ChatSetting::MaxTokens(n) => n > 0,
            _ => true,
        }
    }

    /// Whether two settings speak of the same field of the payload.
    pub open spec fn same_field(self, other: ChatSetting) -> bool {
        match (self, other) {
            (ChatSetting::Sampling(_), ChatSetting::Sampling(_)) => true,
            (ChatSetting::MaxTokens(_), ChatSetting::MaxTokens(_)) => true,
            (ChatSetting::Stop(_), ChatSetting::Stop(_)) => true,
            (ChatSetting::PresencePenalty(_), ChatSetting::PresencePenalty(_)) => true,
            (ChatSetting::FrequencyPenalty(_), ChatSetting::FrequencyPenalty(_)) => true,
            _ => false,
        }
    }
}

impl ChatCompletionRequestView {
    /// The payload with one setting recorded in place of what its field held.
    pub open spec fn set(self, setting: ChatSetting) -> Self {
        match setting {
            ChatSetting::Sampling(s) => ChatCompletionRequestView { sampling: Some(s), ..self },
            ChatSetting::MaxTokens(n) => ChatCompletionRequestView {
                max_tokens: Some(n),
                ..self
            },
            ChatSetting::Stop(stop) => ChatCompletionRequestView { stop: Some(stop), ..self },
            ChatSetting::PresencePenalty(p) => ChatCompletionRequestView {
                presence_penalty: Some(p),
                ..self
            },
            ChatSetting::FrequencyPenalty(p) => ChatCompletionRequestView {
                frequency_penalty: Some(p),
                ..self
            },
        }
    }

    /// The payload with a series of settings recorded, first to last.
    pub open spec fn set_all(self, settings: Seq<ChatSetting>) -> Self
        decreases settings.len(),
    {
        if settings.len() == 0 {
            self
        } else {
            self.set_all(settings.drop_last()).set(settings.last())
        }
    }
}

/// Order preservation: whatever settings are recorded after a request was
/// started, the payload holds the model and the conversation that it was
/// started with, message for message and in the same order.
pub proof fn law_messages_preserved(
    model: Seq<char>,
    messages: Seq<ChatMessageView>,
    settings: Seq<ChatSetting>,
)
    ensures
        ChatCompletionRequestView::initial(model, messages).set_all(settings).messages
            == messages,
        ChatCompletionRequestView::initial(model, messages).set_all(settings).model == model,
    decreases settings.len(),
{
    if settings.len() > 0 {
        law_messages_preserved(model, messages, settings.drop_last());
    }
}

/// A payload started with a message and given settings that may be recorded
/// is well formed.
pub proof fn law_settings_keep_well_formed(
    payload: ChatCompletionRequestView,
    settings: Seq<ChatSetting>,
)
    requires
        payload.wf(),
        forall|i: int| 0 <= i < settings.len() ==> (#[trigger] settings[i]).wf(),
    ensures
        payload.set_all(settings).wf(),
    decreases settings.len(),
{
    if settings.len() > 0 {
        law_settings_keep_well_formed(payload, settings.drop_last());
    }
}

/// The last write wins: of two settings of the same field recorded one after
/// the other, the payload holds the second and nothing of the first. A
/// temperature followed by a nucleus-sampling mass leaves the mass alone.
pub proof fn law_last_setting_wins(
    payload: ChatCompletionRequestView,
    first: ChatSetting,
    second: ChatSetting,
)
    requires
        first.same_field(second),
    ensures
        payload.set(first).set(second) == payload.set(second),
{
}

/// Settings of different fields do not touch each other: the order in which
/// they are recorded does not matter.
pub proof fn law_settings_independent(
    payload: ChatCompletionRequestView,
    first: ChatSetting,
    second: ChatSetting,
)
    requires
        !first.same_field(second),
    ensures
        payload.set(first).set(second) == payload.set(second).set(first),
{
}

/// No payload carries a temperature and a nucleus-sampling mass at once, and
/// after a strategy was recorded the payload carries that one only.
pub proof fn law_one_sampling_strategy(payload: ChatCompletionRequestView, value: Decimal)
    ensures
        payload.temperature() is None || payload.top_p() is None,
        payload.set(ChatSetting::Sampling(SamplingStrategy::TopP(value))).top_p() == Some(value),
        payload.set(ChatSetting::Sampling(SamplingStrategy::TopP(value))).temperature() is None,
        payload.set(ChatSetting::Sampling(SamplingStrategy::Temperature(value))).temperature()
            == Some(value),
        payload.set(ChatSetting::Sampling(SamplingStrategy::Temperature(value))).top_p() is None,
{
}

impl View for ChatCompletionRequest {
    type V = ChatCompletionRequestView;

    closed spec fn view(&self) -> ChatCompletionRequestView {
        ChatCompletionRequestView {
            model: self.model@,
            messages: self.messages.deep_view(),
            sampling: self.sampling,
            max_tokens: self.max_tokens,
            stop: self.stop.deep_view(),
            presence_penalty: self.presence_penalty,
            frequency_penalty: self.frequency_penalty,
        }
    }
}

impl ChatCompletionRequest {
    #[verifier::type_invariant]
    spec fn well_formed(self) -> bool {
        self@.wf()
    }

    /// The model that is asked.
    pub fn model(&self) -> (m: &String)
        ensures
            m@ == self@.model,
    {
        &self.model
    }

    /// The messages, in the order in which they were given.
    pub fn messages(&self) -> (ms: &Vec<ChatMessage>)
        ensures
            ms.deep_view() == self@.messages,
            ms.len() > 0,
    {
        proof {
            use_type_invariant(self);
        }
        &self.messages
    }

    /// The sampling strategy, where one was set.
    pub fn sampling(&self) -> (s: Option<SamplingStrategy>)
        ensures
            s == self@.sampling,
            s matches Some(strategy) ==> strategy.wf(),
    {
        proof {
            use_type_invariant(self);
        }
        self.sampling
    }

    /// The temperature, where the strategy is one.
    pub fn temperature(&self) -> (t: Option<Decimal>)
        ensures
            t == self@.temperature(),
    {
        match self.sampling {
            Some(SamplingStrategy::Temperature(t)) => Some(t),
            _ => None,
        }
    }

    /// The nucleus-sampling mass, where the strategy is one.
    pub fn top_p(&self) -> (p: Option<Decimal>)
        ensures
            p == self@.top_p(),
    {
        match self.sampling {
            Some(SamplingStrategy::TopP(p)) => Some(p),
            _ => None,
        }
    }

    /// The greatest number of tokens to generate, where one was set.
    pub fn max_tokens(&self) -> (n: Option<u32>)
        ensures
            n == self@.max_tokens,
            n matches Some(limit) ==> limit > 0,
    {
        proof {
            use_type_invariant(self);
        }
        self.max_tokens
    }

    /// The sequences at which generation stops, where any were set.
    pub fn stop(&self) -> (s: &Option<Vec<String>>)
        ensures
            s.deep_view() == self@.stop,
    {
        &self.stop
    }

    /// The presence penalty, where one was set.
    pub fn presence_penalty(&self) -> (p: Option<Decimal>)
        ensures
            p == self@.presence_penalty,
    {
        self.presence_penalty
    }

    /// The frequency penalty, where one was set.
    pub fn frequency_penalty(&self) -> (p: Option<Decimal>)
        ensures
            p == self@.frequency_penalty,
    {
        self.frequency_penalty
    }
}

/// A chat completion request under construction.
#[derive(Debug)]
pub struct ChatCompletionRequestBuilder {
    request: ChatCompletionRequest,
}

impl View for ChatCompletionRequestBuilder {
    type V = ChatCompletionRequestView;

    /// The payload that `build` would return now.
    closed spec fn view(&self) -> ChatCompletionRequestView {
        self.request@
    }
}

/// Starts a chat request to `model` with the given conversation.
///
/// The conversation must hold a message: an empty one is refused with
/// [`ConfigurationError::EmptyMessages`]. An empty `model` leaves the choice
/// of the model to the service.
pub fn new_chat_request(model: &str, messages: Vec<ChatMessage>) -> (r: Result<
    ChatCompletionRequestBuilder,
    ConfigurationError,
>)
    ensures
        messages.len() > 0 ==> r is Ok && r->Ok_0@ == ChatCompletionRequestView::initial(
            model@,
            messages.deep_view(),
        ),
        messages.len() == 0 ==> r == Err::<ChatCompletionRequestBuilder, ConfigurationError>(
            ConfigurationError::EmptyMessages,
        ),
{
    if messages.len() == 0 {
        return Err(ConfigurationError::EmptyMessages);
    }
    let request = ChatCompletionRequest {
        model: String::from_str(model),
        messages,
        sampling: None,
        max_tokens: None,
        stop: None,
        presence_penalty: None,
        frequency_penalty: None,
    };
    Ok(ChatCompletionRequestBuilder { request })
}

impl ChatCompletionRequestBuilder {
    /// Records the sampling strategy. A strategy recorded before is
    /// replaced, whichever kind it was.
    pub fn with_sampling(self, strategy: SamplingStrategy) -> (b: ChatCompletionRequestBuilder)
        requires
            strategy.wf(),
        ensures
            b@ == self@.set(ChatSetting::Sampling(strategy)),
    {
        let mut request = self.request;
        proof {
            use_type_invariant(&request);
        }
        request.sampling = Some(strategy);
        ChatCompletionRequestBuilder { request }
    }

    /// Records the greatest number of tokens to generate.
    pub fn with_max_tokens(self, limit: u32) -> (b: ChatCompletionRequestBuilder)
        requires
            limit > 0,
        ensures
            b@ == self@.set(ChatSetting::MaxTokens(limit)),
    {
        let mut request = self.request;
        proof {
            use_type_invariant(&request);
        }
        request.max_tokens = Some(limit);
        ChatCompletionRequestBuilder { request }
    }

    /// Records the sequences at which generation stops.
    pub fn with_stop(self, stop: Vec<String>) -> (b: ChatCompletionRequestBuilder)
        ensures
            b@ == self@.set(ChatSetting::Stop(stop.deep_view())),
    {
        let mut request = self.request;
        proof {
            use_type_invariant(&request);
        }
        request.stop = Some(stop);
        ChatCompletionRequestBuilder { request }
    }

    /// Records the penalty on tokens that are already present.
    pub fn with_presence_penalty(self, penalty: Decimal) -> (b: ChatCompletionRequestBuilder)
        ensures
            b@ == self@.set(ChatSetting::PresencePenalty(penalty)),
    {
        let mut request = self.request;
        proof {
            use_type_invariant(&request);
        }
        request.presence_penalty = Some(penalty);
        ChatCompletionRequestBuilder { request }
    }

    /// Records the penalty on tokens by how often they occur.
    pub fn with_frequency_penalty(self, penalty: Decimal) -> (b: ChatCompletionRequestBuilder)
        ensures
            b@ == self@.set(ChatSetting::FrequencyPenalty(penalty)),
    {
        let mut request = self.request;
        proof {
            use_type_invariant(&request);
        }
        request.frequency_penalty = Some(penalty);
        ChatCompletionRequestBuilder { request }
    }

    /// The payload that holds what was recorded.
    pub fn build(self) -> (request: ChatCompletionRequest)
        ensures
            request@ == self@,
            request@.wf(),
    {
        proof {
            use_type_invariant(&self.request);
        }
        self.request
    }
}

} // verus!
