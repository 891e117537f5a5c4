use llm_client::formatting::{format_plan, o1_preview_plan, RequestMessage};
use llm_client::{LLMClientError, LLMClientMessage, LLMClientMessageFunctionCall, LLMClientRole};

fn msg(role: LLMClientRole, text: &str) -> LLMClientMessage {
    LLMClientMessage::new(role, text.to_owned())
}

fn call(name: &str, arguments: &str) -> LLMClientMessageFunctionCall {
    LLMClientMessageFunctionCall::new(name.to_owned(), arguments.to_owned())
}

fn with_call(role: LLMClientRole, text: &str, name: &str, arguments: &str) -> LLMClientMessage {
    LLMClientMessage::with_function_call(role, text.to_owned(), call(name, arguments))
}

#[test]
fn format_plan_is_one_for_one() {
    let messages = vec![
        msg(LLMClientRole::System, "be brief"),
        msg(LLMClientRole::User, "hi"),
        msg(LLMClientRole::Assistant, "hello"),
        with_call(LLMClientRole::Assistant, "ignored", "search", "{\"q\":1}"),
        with_call(LLMClientRole::Function, "result", "search", "{\"q\":1}"),
    ];
    let plan = format_plan(&messages).unwrap();
    assert_eq!(
        plan,
        vec![
            RequestMessage::System("be brief".to_owned()),
            RequestMessage::User("hi".to_owned()),
            RequestMessage::Assistant("hello".to_owned()),
            RequestMessage::AssistantFunctionCall(call("search", "{\"q\":1}")),
            RequestMessage::FunctionResult("result".to_owned(), call("search", "{\"q\":1}")),
        ]
    );
}

#[test]
fn format_plan_refuses_function_message_without_call() {
    let messages = vec![msg(LLMClientRole::User, "hi"), msg(LLMClientRole::Function, "out")];
    assert!(matches!(format_plan(&messages), Err(LLMClientError::FunctionCallNotPresent)));
}

#[test]
fn format_plan_of_empty_chat_is_empty() {
    assert_eq!(format_plan(&[]).unwrap(), vec![]);
    assert_eq!(o1_preview_plan(&[]).unwrap(), vec![]);
}

#[test]
fn o1_plan_merges_system_and_user_text() {
    let messages = vec![
        msg(LLMClientRole::System, "rules"),
        msg(LLMClientRole::User, "question"),
        msg(LLMClientRole::User, "more"),
    ];
    assert_eq!(
        o1_preview_plan(&messages).unwrap(),
        vec![RequestMessage::User("rules\nquestion\nmore".to_owned())]
    );
}

#[test]
fn o1_plan_splits_runs_at_replies() {
    let messages = vec![
        msg(LLMClientRole::User, "a"),
        msg(LLMClientRole::Assistant, "b"),
        msg(LLMClientRole::System, "c"),
        msg(LLMClientRole::User, "d"),
        with_call(LLMClientRole::Function, "e", "f", "g"),
        msg(LLMClientRole::User, "h"),
    ];
    assert_eq!(
        o1_preview_plan(&messages).unwrap(),
        vec![
            RequestMessage::User("a".to_owned()),
            RequestMessage::Assistant("b".to_owned()),
            RequestMessage::User("c\nd".to_owned()),
            RequestMessage::FunctionResult("e".to_owned(), call("f", "g")),
            RequestMessage::User("h".to_owned()),
        ]
    );
}

#[test]
fn o1_plan_drops_empty_user_text() {
    let messages = vec![
        msg(LLMClientRole::User, ""),
        msg(LLMClientRole::Assistant, "x"),
        msg(LLMClientRole::User, ""),
    ];
    assert_eq!(
        o1_preview_plan(&messages).unwrap(),
        vec![RequestMessage::Assistant("x".to_owned())]
    );
}

#[test]
fn o1_plan_keeps_two_empty_texts_as_a_line_break() {
    let messages = vec![msg(LLMClientRole::User, ""), msg(LLMClientRole::System, "")];
    assert_eq!(o1_preview_plan(&messages).unwrap(), vec![RequestMessage::User("\n".to_owned())]);
}

#[test]
fn o1_plan_sends_function_calls() {
    let messages = vec![
        msg(LLMClientRole::User, "find it"),
        with_call(LLMClientRole::Assistant, "", "find", "{}"),
        with_call(LLMClientRole::Function, "found", "find", "{}"),
    ];
    assert_eq!(
        o1_preview_plan(&messages).unwrap(),
        vec![
            RequestMessage::User("find it".to_owned()),
            RequestMessage::AssistantFunctionCall(call("find", "{}")),
            RequestMessage::FunctionResult("found".to_owned(), call("find", "{}")),
        ]
    );
}

#[test]
fn o1_plan_refuses_function_message_without_call() {
    let messages = vec![
        msg(LLMClientRole::User, "a"),
        msg(LLMClientRole::Function, "b"),
        msg(LLMClientRole::User, "c"),
    ];
    assert!(matches!(o1_preview_plan(&messages), Err(LLMClientError::FunctionCallNotPresent)));
}

#[test]
fn both_formats_fail_alike() {
    let bad = vec![
        msg(LLMClientRole::Assistant, "a"),
        with_call(LLMClientRole::Function, "ok", "f", "x"),
        msg(LLMClientRole::Function, "missing"),
    ];
    assert!(matches!(format_plan(&bad), Err(LLMClientError::FunctionCallNotPresent)));
    assert!(matches!(o1_preview_plan(&bad), Err(LLMClientError::FunctionCallNotPresent)));
    let good = vec![msg(LLMClientRole::System, "s"), msg(LLMClientRole::Assistant, "a")];
    assert!(format_plan(&good).is_ok());
    assert!(o1_preview_plan(&good).is_ok());
}

#[test]
fn formats_agree_without_text() {
    let messages = vec![
        msg(LLMClientRole::Assistant, "a"),
        with_call(LLMClientRole::Assistant, "", "f", "1"),
        with_call(LLMClientRole::Function, "r", "f", "1"),
        msg(LLMClientRole::Assistant, "b"),
    ];
    assert_eq!(format_plan(&messages).unwrap(), o1_preview_plan(&messages).unwrap());
}

#[test]
fn o1_request_has_no_adjacent_user_messages() {
    let messages = vec![
        msg(LLMClientRole::User, "1"),
        msg(LLMClientRole::System, "2"),
        msg(LLMClientRole::Assistant, "3"),
        msg(LLMClientRole::User, "4"),
        msg(LLMClientRole::User, "5"),
    ];
    let plan = o1_preview_plan(&messages).unwrap();
    for pair in plan.windows(2) {
        assert!(!(matches!(pair[0], RequestMessage::User(_)) && matches!(pair[1], RequestMessage::User(_))));
    }
    assert!(plan.iter().all(|m| !matches!(m, RequestMessage::System(_))));
    assert_eq!(plan.len(), 3);
}
