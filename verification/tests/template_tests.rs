use llama_engine::config::ChatMessage;
use llama_engine::template::build_single_prompt;
use llama_engine::template::format_chat_messages;

fn msg(role: &str, content: &str) -> ChatMessage {
    ChatMessage { role: role.to_string(), content: content.to_string() }
}

#[test]
fn test_format_chat_messages() {
    let messages = vec![
        msg("system", "You are a helpful assistant."),
        msg("user", "Hello!"),
    ];

    let prompt = format_chat_messages(&messages);
    assert!(prompt.contains("system"));
    assert!(prompt.contains("user"));
    assert!(prompt.contains("You are a helpful assistant."));
    assert!(prompt.contains("Hello!"));
}

#[test]
fn test_chat_prompt_exact() {
    let messages = vec![
        msg("system", "You are a helpful assistant."),
        msg("user", "Hello!"),
    ];
    let prompt = format_chat_messages(&messages);
    assert_eq!(
        prompt,
        "<|begin_of_text|>\
         <|start_header_id|>system<|end_header_id|>\n\nYou are a helpful assistant.<|eot_id|>\
         <|start_header_id|>user<|end_header_id|>\n\nHello!<|eot_id|>\
         <|start_header_id|>assistant<|end_header_id|>\n\n"
    );
}

#[test]
fn test_chat_prompt_ends_with_open_assistant_header() {
    let messages = vec![msg("user", "Hi"), msg("assistant", "Hello"), msg("user", "Bye")];
    let prompt = format_chat_messages(&messages);
    assert!(prompt.ends_with("<|start_header_id|>assistant<|end_header_id|>\n\n"));
    // Contents appear in input order.
    let hi = prompt.find("Hi").unwrap();
    let hello = prompt.find("Hello").unwrap();
    let bye = prompt.find("Bye").unwrap();
    assert!(hi < hello && hello < bye);
}

#[test]
fn test_unknown_role_dropped() {
    let messages = vec![msg("narrator", "Once upon a time"), msg("user", "Hi")];
    let prompt = format_chat_messages(&messages);
    assert!(!prompt.contains("Once upon a time"));
    assert!(!prompt.contains("narrator"));
    assert!(prompt.contains("Hi"));
    // Role matching is case-sensitive.
    let messages = vec![msg("System", "hidden")];
    assert!(!format_chat_messages(&messages).contains("hidden"));
}

#[test]
fn test_empty_chat_still_opens_assistant() {
    let prompt = format_chat_messages(&Vec::new());
    assert_eq!(
        prompt,
        "<|begin_of_text|><|start_header_id|>assistant<|end_header_id|>\n\n"
    );
}

#[test]
fn test_single_prompt_with_system() {
    let prompt = build_single_prompt(Some("Be brief."), "What is Rust?");
    assert_eq!(
        prompt,
        "<|begin_of_text|>\
         <|start_header_id|>system<|end_header_id|>\n\nBe brief.<|eot_id|>\
         <|start_header_id|>user<|end_header_id|>\n\nWhat is Rust?<|eot_id|>\
         <|start_header_id|>assistant<|end_header_id|>\n\n"
    );
}

#[test]
fn test_single_prompt_without_system() {
    let prompt = build_single_prompt(None, "What is Rust?");
    assert_eq!(
        prompt,
        "<|begin_of_text|>\
         <|start_header_id|>user<|end_header_id|>\n\nWhat is Rust?<|eot_id|>\
         <|start_header_id|>assistant<|end_header_id|>\n\n"
    );
}
