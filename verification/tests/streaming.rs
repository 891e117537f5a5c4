use llm_client::streaming::{CompletionAccumulator, StreamItem, StreamStep};
use llm_client::{LLMClientError, LLMClientMessage, LLMClientRole, LLMType, OpenAIClient};

#[test]
fn prepare_refuses_unserved_model() {
    let client = OpenAIClient::new();
    let messages = vec![LLMClientMessage::new(LLMClientRole::User, "hi".to_owned())];
    assert!(matches!(
        client.prepare_chat_request(&LLMType::ClaudeSonnet, &messages),
        Err(LLMClientError::UnSupportedModel)
    ));
}

#[test]
fn prepare_streams_all_but_o1_preview() {
    let client = OpenAIClient::new();
    let messages = vec![
        LLMClientMessage::new(LLMClientRole::System, "s".to_owned()),
        LLMClientMessage::new(LLMClientRole::User, "u".to_owned()),
    ];
    let request = client.prepare_chat_request(&LLMType::Gpt4O, &messages).unwrap();
    assert_eq!(request.model, "gpt-4o");
    assert!(request.stream);
    assert_eq!(request.messages.len(), 2);
    let request = client.prepare_chat_request(&LLMType::O1Preview, &messages).unwrap();
    assert_eq!(request.model, "o1-preview");
    assert!(!request.stream);
    assert_eq!(request.messages.len(), 1);
}

#[test]
fn prepare_passes_on_formatting_error() {
    let client = OpenAIClient::new();
    let messages = vec![LLMClientMessage::new(LLMClientRole::Function, "x".to_owned())];
    assert!(matches!(
        client.prepare_chat_request(&LLMType::Gpt4, &messages),
        Err(LLMClientError::FunctionCallNotPresent)
    ));
}

fn passed(step: StreamStep) -> llm_client::LLMClientCompletionResponse {
    match step {
        StreamStep::Pass(r) => r,
        _ => panic!("expected a step to pass on"),
    }
}

#[test]
fn azure_steps_grow_the_answer() {
    let mut acc = CompletionAccumulator::new("gpt-4".to_owned());
    let first = passed(acc.azure_step(StreamItem::Piece(Some(Some("Hel".to_owned())))));
    assert_eq!(first.answer_up_until_now(), "Hel");
    assert_eq!(first.delta(), Some("Hel"));
    assert_eq!(first.model(), "gpt-4");
    let empty = passed(acc.azure_step(StreamItem::Piece(Some(None))));
    assert_eq!(empty.answer_up_until_now(), "Hel");
    assert_eq!(empty.delta(), Some(""));
    let none = passed(acc.azure_step(StreamItem::Piece(None)));
    assert_eq!(none.delta(), Some(""));
    let last = passed(acc.azure_step(StreamItem::Piece(Some(Some("lo".to_owned())))));
    assert_eq!(last.answer_up_until_now(), "Hello");
    assert!(matches!(acc.azure_step(StreamItem::Broken), StreamStep::Stop));
    assert_eq!(acc.into_answer(), "Hello");
}

#[test]
fn openai_steps_grow_the_answer() {
    let mut acc = CompletionAccumulator::new("gpt-4o".to_owned());
    let step = passed(acc.openai_step(StreamItem::Piece(Some(Some("a".to_owned())))).unwrap());
    assert_eq!(step.answer_up_until_now(), "a");
    assert_eq!(step.delta(), Some("a"));
    assert!(matches!(acc.openai_step(StreamItem::Piece(Some(None))), Ok(StreamStep::Quiet)));
    let step = passed(acc.openai_step(StreamItem::Piece(Some(Some("b".to_owned())))).unwrap());
    assert_eq!(step.answer_up_until_now(), "ab");
    assert_eq!(step.model(), "gpt-4o");
    assert!(matches!(
        acc.openai_step(StreamItem::Piece(None)),
        Err(LLMClientError::FailedToGetResponse)
    ));
    assert!(matches!(acc.openai_step(StreamItem::Broken), Ok(StreamStep::Stop)));
    assert_eq!(acc.answer(), "ab");
}

#[test]
fn passed_answers_only_grow() {
    let mut acc = CompletionAccumulator::new("m".to_owned());
    let mut answers: Vec<String> = Vec::new();
    for piece in ["x", "", "yz", "w"] {
        let step = passed(acc.azure_step(StreamItem::Piece(Some(Some(piece.to_owned())))));
        assert_eq!(step.model(), "m");
        answers.push(step.answer_up_until_now().to_owned());
    }
    let answer = acc.into_answer();
    assert_eq!(answer, "xyzw");
    assert_eq!(answers.last().unwrap(), &answer);
    for a in answers.iter() {
        assert!(answer.starts_with(a.as_str()));
    }
}

#[test]
fn complete_answer_is_one_step() {
    assert!(matches!(
        CompletionAccumulator::from_complete_answer("o1-preview".to_owned(), None),
        Err(LLMClientError::FailedToGetResponse)
    ));
    assert!(matches!(
        CompletionAccumulator::from_complete_answer("o1-preview".to_owned(), Some(None)),
        Err(LLMClientError::FailedToGetResponse)
    ));
    let (acc, step) =
        CompletionAccumulator::from_complete_answer("o1-preview".to_owned(), Some(Some("done".to_owned())))
            .unwrap();
    assert_eq!(step.answer_up_until_now(), "done");
    assert_eq!(step.delta(), Some("done"));
    assert_eq!(step.model(), "o1-preview");
    assert_eq!(acc.into_answer(), "done");
}

#[test]
fn prompt_completion_is_refused() {
    let client = OpenAIClient::new();
    assert!(matches!(
        client.prompt_completion(),
        Err(LLMClientError::OpenAIDoesNotSupportCompletion)
    ));
}
