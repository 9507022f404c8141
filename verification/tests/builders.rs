use llm_requests::chat::{
    new_chat_request, ChatCompletionRequest, ChatMessage, Role, SamplingStrategy,
};
use llm_requests::completions::new_completion_request;
use llm_requests::embeddings::new_embeddings_request;
use llm_requests::error::ConfigurationError;
use llm_requests::number::Decimal;
use llm_requests::presets::{
    create_chat_request, create_completion_request, create_embedding_request,
    create_llama_chat_request,
};
use llm_requests::wire::WireValue;

fn greeting() -> Vec<ChatMessage> {
    vec![
        ChatMessage::new(Role::System, "You are a helpful assistant."),
        ChatMessage::new(Role::User, "Hello!"),
    ]
}

fn temperature(thousandths: i64) -> SamplingStrategy {
    SamplingStrategy::temperature(Decimal::from_thousandths(thousandths)).unwrap()
}

fn top_p(thousandths: i64) -> SamplingStrategy {
    SamplingStrategy::top_p(Decimal::from_thousandths(thousandths)).unwrap()
}

#[test]
fn chat_request_with_temperature() {
    let request = new_chat_request("gpt-3.5-turbo", greeting())
        .unwrap()
        .with_sampling(temperature(800))
        .build();
    assert_eq!(request.model(), "gpt-3.5-turbo");
    assert_eq!(request.messages().len(), 2);
    assert_eq!(request.messages()[0].role, Role::System);
    assert_eq!(request.messages()[0].content, "You are a helpful assistant.");
    assert_eq!(request.messages()[1].role, Role::User);
    assert_eq!(request.messages()[1].content, "Hello!");
    assert_eq!(request.temperature(), Some(Decimal::from_thousandths(800)));
    assert_eq!(request.temperature().unwrap().to_text(), "0.8");
    assert_eq!(request.top_p(), None);
    assert_eq!(request.max_tokens(), None);
    assert_eq!(request.stop(), &None);
    assert_eq!(request.presence_penalty(), None);
    assert_eq!(request.frequency_penalty(), None);
}

#[test]
fn completion_request_holds_model_and_prompt() {
    let request = new_completion_request(
        "text-davinci-003",
        vec![String::from("Say this is a test")],
    )
    .unwrap()
    .build();
    assert_eq!(request.model(), "text-davinci-003");
    assert_eq!(request.prompts(), &vec![String::from("Say this is a test")]);
}

#[test]
fn embeddings_request_holds_model_and_input() {
    let request = new_embeddings_request(
        "text-embedding-ada-002",
        vec![String::from("The food was delicious and the waiter...")],
    )
    .unwrap()
    .build();
    assert_eq!(request.model(), "text-embedding-ada-002");
    assert_eq!(
        request.inputs(),
        &vec![String::from("The food was delicious and the waiter...")]
    );
}

#[test]
fn messages_keep_their_order() {
    let messages: Vec<ChatMessage> = (0..50)
        .map(|i| {
            let role = if i % 2 == 0 { Role::User } else { Role::Assistant };
            ChatMessage::new(role, &format!("turn {}", i))
        })
        .collect();
    let expected: Vec<ChatMessage> = messages.clone();
    let request = new_chat_request("m", messages)
        .unwrap()
        .with_max_tokens(7)
        .with_sampling(top_p(900))
        .with_stop(vec![String::from("\n")])
        .build();
    assert_eq!(request.messages(), &expected);
    assert_eq!(request.messages()[49].content, "turn 49");
}

#[test]
fn last_sampling_strategy_wins() {
    let request = new_chat_request("m", greeting())
        .unwrap()
        .with_sampling(temperature(700))
        .with_sampling(top_p(950))
        .build();
    assert_eq!(request.sampling(), Some(SamplingStrategy::TopP(Decimal::from_thousandths(950))));
    assert_eq!(request.top_p(), Some(Decimal::from_thousandths(950)));
    assert_eq!(request.temperature(), None);

    let request = new_chat_request("m", greeting())
        .unwrap()
        .with_sampling(top_p(950))
        .with_sampling(temperature(700))
        .build();
    assert_eq!(request.temperature(), Some(Decimal::from_thousandths(700)));
    assert_eq!(request.top_p(), None);
}

#[test]
fn setters_replace_and_do_not_touch_each_other() {
    let one = new_chat_request("m", greeting())
        .unwrap()
        .with_max_tokens(16)
        .with_presence_penalty(Decimal::from_thousandths(-500))
        .with_max_tokens(32)
        .with_frequency_penalty(Decimal::from_thousandths(1250))
        .with_stop(vec![String::from("a")])
        .with_stop(vec![String::from("b"), String::from("c")])
        .build();
    let other = new_chat_request("m", greeting())
        .unwrap()
        .with_stop(vec![String::from("b"), String::from("c")])
        .with_frequency_penalty(Decimal::from_thousandths(1250))
        .with_presence_penalty(Decimal::from_thousandths(-500))
        .with_max_tokens(32)
        .build();
    assert_eq!(one, other);
    assert_eq!(one.max_tokens(), Some(32));
    assert_eq!(one.stop(), &Some(vec![String::from("b"), String::from("c")]));
    assert_eq!(one.presence_penalty(), Some(Decimal::from_thousandths(-500)));
    assert_eq!(one.frequency_penalty(), Some(Decimal::from_thousandths(1250)));
    assert_eq!(one.sampling(), None);
}

#[test]
fn empty_conversation_is_refused() {
    let refused = new_chat_request("gpt-3.5-turbo", Vec::new());
    assert_eq!(refused.err(), Some(ConfigurationError::EmptyMessages));
}

#[test]
fn empty_batches_are_refused() {
    assert_eq!(
        new_completion_request("text-davinci-003", Vec::new()).err(),
        Some(ConfigurationError::EmptyPrompts)
    );
    assert_eq!(
        new_embeddings_request("text-embedding-ada-002", Vec::new()).err(),
        Some(ConfigurationError::EmptyInputs)
    );
}

#[test]
fn empty_model_and_empty_content_are_accepted() {
    let request = new_chat_request("", vec![ChatMessage::new(Role::User, "")]).unwrap().build();
    assert_eq!(request.model(), "");
    assert_eq!(request.messages()[0].content, "");
    let request = new_completion_request("", vec![String::new()]).unwrap().build();
    assert_eq!(request.prompts(), &vec![String::new()]);
}

#[test]
fn sampling_values_are_held_to_their_range() {
    for inside in [0, 1, 800, 2000] {
        assert_eq!(
            SamplingStrategy::temperature(Decimal::from_thousandths(inside)),
            Ok(SamplingStrategy::Temperature(Decimal::from_thousandths(inside)))
        );
    }
    for outside in [-1, 2001, i64::MAX, i64::MIN] {
        assert_eq!(
            SamplingStrategy::temperature(Decimal::from_thousandths(outside)),
            Err(ConfigurationError::TemperatureOutOfRange)
        );
    }
    for inside in [0, 500, 1000] {
        assert_eq!(
            SamplingStrategy::top_p(Decimal::from_thousandths(inside)),
            Ok(SamplingStrategy::TopP(Decimal::from_thousandths(inside)))
        );
    }
    for outside in [-1, 1001, 2000] {
        assert_eq!(
            SamplingStrategy::top_p(Decimal::from_thousandths(outside)),
            Err(ConfigurationError::TopPOutOfRange)
        );
    }
    assert!(SamplingStrategy::Temperature(Decimal::from_thousandths(2000)).is_valid());
    assert!(!SamplingStrategy::Temperature(Decimal::from_thousandths(2001)).is_valid());
    assert!(SamplingStrategy::TopP(Decimal::from_thousandths(1000)).is_valid());
    assert!(!SamplingStrategy::TopP(Decimal::from_thousandths(1001)).is_valid());
}

#[test]
fn errors_describe_themselves() {
    assert_eq!(
        ConfigurationError::EmptyMessages.message(),
        "a chat request needs at least one message"
    );
    assert_eq!(
        ConfigurationError::EmptyPrompts.message(),
        "a completion request needs at least one prompt"
    );
    assert_eq!(
        ConfigurationError::EmptyInputs.message(),
        "an embeddings request needs at least one input"
    );
    assert_eq!(
        ConfigurationError::TemperatureOutOfRange.message(),
        "temperature must lie between 0 and 2"
    );
    assert_eq!(ConfigurationError::TopPOutOfRange.message(), "top_p must lie between 0 and 1");
}

#[test]
fn message_setters_keep_the_rest() {
    let call = vec![
        (String::from("name"), WireValue::Text(String::from("get_weather"))),
        (String::from("arguments"), WireValue::Text(String::from("{\"city\":\"Paris\"}"))),
    ];
    let message = ChatMessage::new(Role::Assistant, "")
        .with_name("first")
        .with_function_call(call.clone())
        .with_name("helper");
    assert_eq!(
        message,
        ChatMessage {
            role: Role::Assistant,
            content: String::new(),
            name: Some(String::from("helper")),
            function_call: Some(call),
        }
    );
    assert_eq!(message.clone(), message);
    let plain = ChatMessage::new(Role::Function, "42");
    assert_eq!(plain.name, None);
    assert_eq!(plain.function_call, None);
}

#[test]
fn role_words() {
    let all = [
        (Role::System, "system"),
        (Role::User, "user"),
        (Role::Assistant, "assistant"),
        (Role::Function, "function"),
    ];
    for (role, word) in all {
        assert_eq!(role.as_str(), word);
        assert_eq!(Role::from_word(word), Some(role));
    }
    assert_eq!(Role::from_word("User"), None);
    assert_eq!(Role::from_word(""), None);
    assert_eq!(Role::from_word("tool"), None);
}

fn single_user_request(model: &str, text: &str) -> ChatCompletionRequest {
    new_chat_request(model, vec![ChatMessage::new(Role::User, text)]).unwrap().build()
}

#[test]
fn ready_made_requests() {
    assert_eq!(
        create_chat_request("<s>[INST] hi [/INST]"),
        single_user_request("gpt-3.5-turbo", "<s>[INST] hi [/INST]")
    );
    assert_eq!(create_chat_request(""), single_user_request("gpt-3.5-turbo", ""));
    assert_eq!(create_llama_chat_request(), single_user_request("", "What is Bitcoin?"));

    let completion = create_completion_request();
    assert_eq!(completion.model(), "text-davinci-003");
    assert_eq!(completion.prompts(), &vec![String::from("Say this is a test")]);

    let embedding = create_embedding_request();
    assert_eq!(embedding.model(), "text-embedding-ada-002");
    assert_eq!(
        embedding.inputs(),
        &vec![String::from("The food was delicious and the waiter...")]
    );
}
