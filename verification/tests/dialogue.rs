use llm_requests::chat::{new_chat_request, ChatMessage, Role};
use llm_requests::dialogue::{
    classify_line, is_blank, is_whitespace, trim, Action, Conversation, LineKind, QUIT,
};

const SYSTEM: &str = "<<SYS>>\nYou are a helpful, respectful and honest assistant. Always answer as short as possible, while being safe. <</SYS>>\n\n";

#[test]
fn white_space_is_what_the_standard_library_says() {
    for code in 0u32..=0x10ffff {
        if let Some(c) = char::from_u32(code) {
            assert_eq!(is_whitespace(c), c.is_whitespace(), "U+{:04X}", code);
        }
    }
}

#[test]
fn trimming_agrees_with_the_standard_library() {
    let samples = [
        "",
        " ",
        "\n",
        "\r\n",
        "hello",
        "  hello",
        "hello  ",
        " \t hello world \r\n",
        "\u{3000}wide\u{a0}",
        "a",
        " a ",
        "\u{11}\n",
        " \u{85}\u{2028} ",
        "x\u{200b}",
        "in  side",
        "é ü",
        "\n\n\n last line",
    ];
    for sample in samples {
        assert_eq!(trim(sample), sample.trim(), "{:?}", sample);
    }
}

#[test]
fn trimming_keeps_inner_white_space() {
    assert_eq!(trim("  What  is\tBitcoin? \n"), "What  is\tBitcoin?");
    assert_eq!(trim(" \t\r\n"), "");
}

#[test]
fn blank_lines() {
    assert!(is_blank(""));
    assert!(is_blank("\n"));
    assert!(is_blank("\r\n"));
    assert!(!is_blank(" "));
    assert!(!is_blank("\r"));
    assert!(!is_blank("\n\n"));
    assert!(!is_blank(" \n"));
    assert!(!is_blank("a\n"));
    assert!(!is_blank("\r\n\n"));
}

#[test]
fn kinds_of_lines() {
    assert_eq!(QUIT, '\u{11}');
    assert_eq!(classify_line("\u{11}"), LineKind::Quit);
    assert_eq!(classify_line("\u{11}\n"), LineKind::Quit);
    assert_eq!(classify_line("  \u{11} \r\n"), LineKind::Quit);
    assert_eq!(classify_line(""), LineKind::Blank);
    assert_eq!(classify_line("\n"), LineKind::Blank);
    assert_eq!(classify_line("\r\n"), LineKind::Blank);
    assert_eq!(classify_line("Hello\n"), LineKind::Question);
    assert_eq!(classify_line("\u{11}\u{11}\n"), LineKind::Question);
    assert_eq!(classify_line("q\n"), LineKind::Question);
    // A line of spaces is not blank: it asks the empty question.
    assert_eq!(classify_line("   \n"), LineKind::Question);
}

fn request_for(prompt: &str) -> Action {
    Action::Send(
        new_chat_request("gpt-3.5-turbo", vec![ChatMessage::new(Role::User, prompt)])
            .unwrap()
            .build(),
    )
}

#[test]
fn a_conversation_of_two_turns() {
    let mut conversation = Conversation::new(SYSTEM);
    assert_eq!(conversation.prompt(), "");

    assert_eq!(conversation.on_line("\n"), Action::ReadAgain);
    assert_eq!(conversation.prompt(), "");

    let first = format!("<s>[INST] {} {} [/INST]", SYSTEM, "What is Bitcoin?");
    assert_eq!(conversation.on_line("  What is Bitcoin? \n"), request_for(&first));
    assert_eq!(conversation.prompt(), &first);

    let shown = conversation.on_answer("\n Bitcoin is a digital currency. \n");
    assert_eq!(shown, "Bitcoin is a digital currency.");
    let answered = format!("{} {} </s>", first, "Bitcoin is a digital currency.");
    assert_eq!(conversation.prompt(), &answered);

    assert_eq!(conversation.on_line(""), Action::ReadAgain);
    assert_eq!(conversation.on_line("\r\n"), Action::ReadAgain);
    assert_eq!(conversation.prompt(), &answered);

    let second = format!("{}<s>[INST] {} [/INST]", answered, "Who made it?");
    assert_eq!(conversation.on_line("Who made it?\r\n"), request_for(&second));
    assert_eq!(conversation.prompt(), &second);

    assert_eq!(conversation.on_line("\u{11}\n"), Action::Stop);
    assert_eq!(conversation.prompt(), &second);
}

#[test]
fn the_first_prompt_is_exact() {
    let mut conversation = Conversation::new("Be brief.");
    conversation.on_line("Hi\n");
    assert_eq!(conversation.prompt(), "<s>[INST] Be brief. Hi [/INST]");
    conversation.on_answer("Hello.");
    assert_eq!(conversation.prompt(), "<s>[INST] Be brief. Hi [/INST] Hello. </s>");
    conversation.on_line("Bye\n");
    assert_eq!(
        conversation.prompt(),
        "<s>[INST] Be brief. Hi [/INST] Hello. </s><s>[INST] Bye [/INST]"
    );
}

#[test]
fn a_line_of_spaces_asks_the_empty_question() {
    let mut conversation = Conversation::new("S");
    let action = conversation.on_line("   \n");
    assert_eq!(action, request_for("<s>[INST] S  [/INST]"));
}

#[test]
fn quitting_before_anything_was_said() {
    let mut conversation = Conversation::new("S");
    assert_eq!(conversation.on_line(" \u{11}\n"), Action::Stop);
    assert_eq!(conversation.prompt(), "");
}

#[test]
fn an_empty_answer_still_closes_the_turn() {
    let mut conversation = Conversation::new("S");
    conversation.on_line("Q\n");
    assert_eq!(conversation.on_answer("  \n"), "");
    assert_eq!(conversation.prompt(), "<s>[INST] S Q [/INST]  </s>");
}
