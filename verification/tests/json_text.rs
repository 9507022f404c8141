use llm_requests::chat::{
    new_chat_request, ChatCompletionRequest, ChatMessage, Role, SamplingStrategy,
};
use llm_requests::json::{push_json, push_outcome, render};
use llm_requests::number::Decimal;
use llm_requests::presets::{create_completion_request, create_embedding_request};
use llm_requests::wire::WireValue;

fn text(s: &str) -> WireValue {
    WireValue::Text(String::from(s))
}

fn number(thousandths: i64) -> WireValue {
    WireValue::Number(Decimal::from_thousandths(thousandths))
}

fn object(members: Vec<(&str, WireValue)>) -> WireValue {
    WireValue::Object(members.into_iter().map(|(k, v)| (String::from(k), v)).collect())
}

/// The wire value that a parsed JSON value holds.
fn from_serde(value: &serde_json::Value) -> WireValue {
    match value {
        serde_json::Value::Null => WireValue::Null,
        serde_json::Value::Bool(b) => WireValue::Bool(*b),
        serde_json::Value::Number(n) => {
            let thousandths = (n.as_f64().unwrap() * 1000.0).round();
            WireValue::Number(Decimal::from_thousandths(thousandths as i64))
        }
        serde_json::Value::String(s) => WireValue::Text(s.clone()),
        serde_json::Value::Array(items) => WireValue::List(items.iter().map(from_serde).collect()),
        serde_json::Value::Object(members) => WireValue::Object(
            members.iter().map(|(k, v)| (k.clone(), from_serde(v))).collect(),
        ),
    }
}

#[test]
fn text_of_plain_values() {
    assert_eq!(render(&WireValue::Null).unwrap(), "null");
    assert_eq!(render(&WireValue::Bool(true)).unwrap(), "true");
    assert_eq!(render(&WireValue::Bool(false)).unwrap(), "false");
    assert_eq!(render(&number(800)).unwrap(), "0.8");
    assert_eq!(render(&number(-16000)).unwrap(), "-16");
    assert_eq!(render(&WireValue::List(vec![])).unwrap(), "[]");
    assert_eq!(render(&object(vec![])).unwrap(), "{}");
    assert_eq!(
        render(&WireValue::List(vec![number(1000), WireValue::Null, WireValue::List(vec![])]))
            .unwrap(),
        "[1,null,[]]"
    );
}

#[test]
fn strings_are_quoted_and_escaped() {
    assert_eq!(render(&text("")).unwrap(), "\"\"");
    assert_eq!(render(&text("hi")).unwrap(), "\"hi\"");
    assert_eq!(render(&text("say \"hi\"")).unwrap(), "\"say \\\"hi\\\"\"");
    assert_eq!(render(&text("a\\b")).unwrap(), "\"a\\\\b\"");
    assert_eq!(render(&text("a/b")).unwrap(), "\"a/b\"");
    assert_eq!(
        render(&text("\u{8}\t\n\u{c}\r")).unwrap(),
        "\"\\b\\t\\n\\f\\r\""
    );
    assert_eq!(
        render(&text("\u{0}\u{1}\u{b}\u{e}\u{11}\u{1f}")).unwrap(),
        "\"\\u0000\\u0001\\u000b\\u000e\\u0011\\u001f\""
    );
    assert_eq!(
        render(&text(" \u{7f}\u{80}é\u{2028}\u{1f600}")).unwrap(),
        "\" \u{7f}\u{80}é\u{2028}\u{1f600}\""
    );
}

#[test]
fn every_character_is_escaped_as_stated() {
    for code in 0u32..=0x10ffff {
        let Some(c) = char::from_u32(code) else { continue };
        let expected = match c {
            '"' => String::from("\\\""),
            '\\' => String::from("\\\\"),
            '\u{8}' => String::from("\\b"),
            '\t' => String::from("\\t"),
            '\n' => String::from("\\n"),
            '\u{c}' => String::from("\\f"),
            '\r' => String::from("\\r"),
            c if code < 0x20 => {
                let digits = ['0', '1', '2', '3', '4', '5', '6', '7', '8', '9', 'a', 'b', 'c', 'd', 'e', 'f'];
                let _ = c;
                format!("\\u00{}{}", digits[(code / 16) as usize], digits[(code % 16) as usize])
            }
            c => c.to_string(),
        };
        let rendered = render(&WireValue::Text(c.to_string())).unwrap();
        assert_eq!(rendered, format!("\"{}\"", expected), "U+{:04X}", code);
    }
}

#[test]
fn text_of_a_chat_request() {
    let request = new_chat_request(
        "gpt-3.5-turbo",
        vec![
            ChatMessage::new(Role::System, "You are a helpful assistant."),
            ChatMessage::new(Role::User, "Hello!"),
        ],
    )
    .unwrap()
    .with_sampling(SamplingStrategy::temperature(Decimal::from_thousandths(800)).unwrap())
    .build();
    assert_eq!(
        render(&request.to_wire()).unwrap(),
        "{\"model\":\"gpt-3.5-turbo\",\"messages\":[{\"role\":\"system\",\"content\":\"You are a helpful assistant.\"},{\"role\":\"user\",\"content\":\"Hello!\"}],\"temperature\":0.8}"
    );
}

#[test]
fn text_of_completion_and_embeddings_requests() {
    assert_eq!(
        render(&create_completion_request().to_wire()).unwrap(),
        "{\"model\":\"text-davinci-003\",\"prompt\":[\"Say this is a test\"]}"
    );
    assert_eq!(
        render(&create_embedding_request().to_wire()).unwrap(),
        "{\"model\":\"text-embedding-ada-002\",\"input\":[\"The food was delicious and the waiter...\"]}"
    );
}

#[test]
fn a_parser_reads_the_scenario_as_given() {
    let request = new_chat_request(
        "gpt-3.5-turbo",
        vec![
            ChatMessage::new(Role::System, "You are a helpful assistant."),
            ChatMessage::new(Role::User, "Hello!"),
        ],
    )
    .unwrap()
    .with_sampling(SamplingStrategy::temperature(Decimal::from_thousandths(800)).unwrap())
    .build();
    let parsed: serde_json::Value =
        serde_json::from_str(&render(&request.to_wire()).unwrap()).unwrap();

    let mut system = serde_json::Map::new();
    system.insert(String::from("role"), serde_json::Value::from("system"));
    system.insert(String::from("content"), serde_json::Value::from("You are a helpful assistant."));
    let mut user = serde_json::Map::new();
    user.insert(String::from("role"), serde_json::Value::from("user"));
    user.insert(String::from("content"), serde_json::Value::from("Hello!"));
    let mut expected = serde_json::Map::new();
    expected.insert(String::from("model"), serde_json::Value::from("gpt-3.5-turbo"));
    expected.insert(
        String::from("messages"),
        serde_json::Value::Array(vec![
            serde_json::Value::Object(system),
            serde_json::Value::Object(user),
        ]),
    );
    expected.insert(String::from("temperature"), serde_json::Value::from(0.8));
    assert_eq!(parsed, serde_json::Value::Object(expected));
}

#[test]
fn written_text_is_read_back_as_the_same_request() {
    let call = vec![
        (String::from("arguments"), text("{\"city\":\"Paris\"}")),
        (String::from("name"), text("get_weather")),
    ];
    let requests = vec![
        new_chat_request("", vec![ChatMessage::new(Role::User, "")]).unwrap().build(),
        new_chat_request(
            "gpt-3.5-turbo",
            vec![
                ChatMessage::new(Role::System, "Line one\nLine \"two\"\t\\ end \u{1}"),
                ChatMessage::new(Role::User, "Grüße, 世界 \u{1f600}").with_name("ann"),
                ChatMessage::new(Role::Assistant, "").with_function_call(call),
                ChatMessage::new(Role::Function, "18").with_name("get_weather"),
            ],
        )
        .unwrap()
        .with_sampling(SamplingStrategy::top_p(Decimal::from_thousandths(950)).unwrap())
        .with_max_tokens(4096)
        .with_stop(vec![String::from("\n\n"), String::from("</s>")])
        .with_presence_penalty(Decimal::from_thousandths(-2000))
        .with_frequency_penalty(Decimal::from_thousandths(125))
        .build(),
        new_chat_request("m", vec![ChatMessage::new(Role::User, "x")])
            .unwrap()
            .with_sampling(SamplingStrategy::temperature(Decimal::from_thousandths(2000)).unwrap())
            .with_max_tokens(1)
            .build(),
    ];
    for request in requests {
        let written = render(&request.to_wire()).unwrap();
        let parsed: serde_json::Value = serde_json::from_str(&written).unwrap();
        let read = ChatCompletionRequest::from_wire(&from_serde(&parsed));
        assert_eq!(read, Some(request), "{}", written);
    }
}

#[test]
fn written_text_is_what_the_json_crate_writes() {
    let doc = object(vec![
        ("a", WireValue::List(vec![text("x\ny"), WireValue::Null, WireValue::Bool(true)])),
        ("b \"quoted\"", object(vec![("c", text("\u{1f}")), ("d", WireValue::List(vec![]))])),
        ("e", text("")),
    ]);
    let written = render(&doc).unwrap();
    let parsed: serde_json::Value = serde_json::from_str(&written).unwrap();
    assert_eq!(serde_json::to_string(&parsed).unwrap(), written);
    assert_eq!(from_serde(&parsed), doc);
}

#[test]
fn text_is_appended_to_what_is_there() {
    let mut out = String::from("data: ");
    push_json(&object(vec![("k", text("v"))]), &mut out).unwrap();
    out.push('\n');
    push_json(&WireValue::List(vec![number(500), number(-500)]), &mut out).unwrap();
    assert_eq!(out, "data: {\"k\":\"v\"}\n[0.5,-0.5]");
}

#[test]
fn the_outcome_of_quoting_is_taken_as_it_comes() {
    let mut out = String::from("[");
    assert!(push_outcome(Ok(String::from("\"a\"")), &mut out).is_ok());
    assert_eq!(out, "[\"a\"");

    let cause = serde_json::from_str::<serde_json::Value>("{").unwrap_err();
    let expected = cause.to_string();
    let refused = push_outcome(Err(cause), &mut out).unwrap_err();
    assert_eq!(refused.cause.to_string(), expected);
    assert_eq!(out, "[\"a\"");
}
