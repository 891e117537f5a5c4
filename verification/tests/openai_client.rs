#![allow(deprecated)]

use async_openai::types::{
    ChatCompletionRequestAssistantMessage, ChatCompletionRequestMessage,
    ChatCompletionRequestSystemMessage, ChatCompletionRequestUserMessage,
    ChatCompletionRequestUserMessageContent, FunctionCall, Role,
};
use llm_client::openai::{EndpointConfig, OpenAIClientType};
use llm_client::provider::{
    AnthropicAPIKey, AzureConfig, GoogleAIStudioKey, LLMProviderAPIKeys, OpenAIProvider,
};
use llm_client::{
    LLMClientError, LLMClientMessage, LLMClientMessageFunctionCall, LLMClientRole, LLMProvider,
    LLMType, OpenAIClient,
};

fn msg(role: LLMClientRole, text: &str) -> LLMClientMessage {
    LLMClientMessage::new(role, text.to_owned())
}

fn with_call(role: LLMClientRole, text: &str, name: &str, arguments: &str) -> LLMClientMessage {
    LLMClientMessage::with_function_call(
        role,
        text.to_owned(),
        LLMClientMessageFunctionCall::new(name.to_owned(), arguments.to_owned()),
    )
}

fn user(text: &str) -> ChatCompletionRequestMessage {
    ChatCompletionRequestMessage::User(ChatCompletionRequestUserMessage {
        content: ChatCompletionRequestUserMessageContent::Text(text.to_owned()),
        role: Role::User,
        name: None,
    })
}

fn assistant(role: Role, content: Option<&str>, call: Option<(&str, &str)>) -> ChatCompletionRequestMessage {
    ChatCompletionRequestMessage::Assistant(ChatCompletionRequestAssistantMessage {
        content: content.map(|c| c.to_owned()),
        role,
        name: None,
        tool_calls: None,
        function_call: call.map(|(n, a)| FunctionCall { name: n.to_owned(), arguments: a.to_owned() }),
    })
}

fn azure_key() -> LLMProviderAPIKeys {
    LLMProviderAPIKeys::OpenAIAzureConfig(AzureConfig::new(
        "deploy".to_owned(),
        "https://example.azure".to_owned(),
        "azure-key".to_owned(),
        "2024-02-01".to_owned(),
    ))
}

#[test]
fn model_names_of_served_models() {
    let client = OpenAIClient::new();
    let cases = [
        (LLMType::GPT3_5_16k, "gpt-3.5-turbo-16k-0613"),
        (LLMType::Gpt4, "gpt-4-0613"),
        (LLMType::Gpt4Turbo, "gpt-4-1106-preview"),
        (LLMType::Gpt4_32k, "gpt-4-32k-0613"),
        (LLMType::Gpt4O, "gpt-4o"),
        (LLMType::Gpt4OMini, "gpt-4o-mini"),
        (LLMType::DeepSeekCoder33BInstruct, "deepseek-coder-33b"),
        (LLMType::Llama3_1_8bInstruct, "llama-3.1-8b-instant"),
        (LLMType::O1Preview, "o1-preview"),
    ];
    for (model, name) in cases.iter() {
        assert_eq!(client.model(model), Some(name.to_string()));
    }
}

#[test]
fn model_names_of_other_models_are_none() {
    let client = OpenAIClient::new();
    assert_eq!(client.model(&LLMType::ClaudeOpus), None);
    assert_eq!(client.model(&LLMType::GeminiPro), None);
    assert_eq!(client.model(&LLMType::Mixtral), None);
    assert_eq!(client.model(&LLMType::Custom("gpt-4o".to_owned())), None);
}

#[test]
fn only_o1_preview_is_o1_preview() {
    assert!(LLMType::O1Preview.is_o1_preview());
    assert!(!LLMType::Gpt4O.is_o1_preview());
}

#[test]
fn client_speaks_to_openai() {
    assert_eq!(*OpenAIClient::new().client(), LLMProvider::OpenAI);
}

#[test]
fn messages_builds_each_kind() {
    let client = OpenAIClient::new();
    let messages = vec![
        msg(LLMClientRole::System, "sys"),
        msg(LLMClientRole::User, "hi"),
        msg(LLMClientRole::Assistant, "hello"),
        with_call(LLMClientRole::Assistant, "dropped", "f", "{}"),
        with_call(LLMClientRole::Function, "result", "f", "{}"),
    ];
    let built = client.messages(&messages).unwrap();
    assert_eq!(
        built,
        vec![
            ChatCompletionRequestMessage::System(ChatCompletionRequestSystemMessage {
                content: "sys".to_owned(),
                role: Role::System,
                name: None,
            }),
            user("hi"),
            assistant(Role::Assistant, Some("hello"), None),
            assistant(Role::Function, None, Some(("f", "{}"))),
            assistant(Role::Function, Some("result"), Some(("f", "{}"))),
        ]
    );
}

#[test]
fn messages_refuses_function_without_call() {
    let client = OpenAIClient::new();
    let messages = vec![msg(LLMClientRole::Function, "x")];
    assert!(matches!(client.messages(&messages), Err(LLMClientError::FunctionCallNotPresent)));
}

#[test]
fn o1_preview_messages_merge_user_text() {
    let client = OpenAIClient::new();
    let messages = vec![
        msg(LLMClientRole::System, "sys"),
        msg(LLMClientRole::User, "hi"),
        msg(LLMClientRole::Assistant, "hello"),
        msg(LLMClientRole::User, "bye"),
    ];
    let built = client.o1_preview_messages(&messages).unwrap();
    assert_eq!(
        built,
        vec![user("sys\nhi"), assistant(Role::Assistant, Some("hello"), None), user("bye")]
    );
}

#[test]
fn o1_preview_messages_refuse_function_without_call() {
    let client = OpenAIClient::new();
    let messages = vec![msg(LLMClientRole::User, "a"), msg(LLMClientRole::Function, "x")];
    assert!(matches!(
        client.o1_preview_messages(&messages),
        Err(LLMClientError::FunctionCallNotPresent)
    ));
}

#[test]
fn endpoint_for_openai_key() {
    let client = OpenAIClient::new();
    let key = LLMProviderAPIKeys::OpenAI(OpenAIProvider::new("sk".to_owned()));
    assert_eq!(
        client.endpoint_config(key, &LLMType::Gpt4).unwrap(),
        EndpointConfig::OpenAI { api_key: "sk".to_owned(), api_base: None }
    );
}

#[test]
fn endpoint_for_azure_key() {
    let client = OpenAIClient::new();
    assert_eq!(
        client.endpoint_config(azure_key(), &LLMType::Gpt4O).unwrap(),
        EndpointConfig::Azure {
            api_base: "https://example.azure".to_owned(),
            api_key: "azure-key".to_owned(),
            deployment_id: "deploy".to_owned(),
            api_version: "2024-02-01".to_owned(),
        }
    );
}

#[test]
fn endpoint_for_deepseek_uses_azure_base() {
    let client = OpenAIClient::new();
    assert_eq!(
        client.endpoint_config(azure_key(), &LLMType::DeepSeekCoder33BInstruct).unwrap(),
        EndpointConfig::OpenAI {
            api_key: "azure-key".to_owned(),
            api_base: Some("https://example.azure".to_owned()),
        }
    );
    let key = LLMProviderAPIKeys::OpenAI(OpenAIProvider::new("sk".to_owned()));
    assert!(matches!(
        client.endpoint_config(key, &LLMType::DeepSeekCoder33BInstruct),
        Err(LLMClientError::WrongAPIKeyType)
    ));
}

#[test]
fn endpoint_refuses_other_keys() {
    let client = OpenAIClient::new();
    let key = LLMProviderAPIKeys::Anthropic(AnthropicAPIKey::new("a".to_owned()));
    assert!(matches!(client.endpoint_config(key, &LLMType::Gpt4), Err(LLMClientError::WrongAPIKeyType)));
    let key = LLMProviderAPIKeys::GoogleAIStudio(GoogleAIStudioKey::new("g".to_owned()));
    assert!(matches!(client.endpoint_config(key, &LLMType::Gpt4), Err(LLMClientError::WrongAPIKeyType)));
    assert!(matches!(
        client.endpoint_config(LLMProviderAPIKeys::CodeStory, &LLMType::Gpt4),
        Err(LLMClientError::WrongAPIKeyType)
    ));
}

#[test]
fn generated_client_matches_key() {
    let client = OpenAIClient::new();
    let key = LLMProviderAPIKeys::OpenAI(OpenAIProvider::new("sk".to_owned()));
    assert!(matches!(
        client.generate_openai_client(key, &LLMType::Gpt4),
        Ok(OpenAIClientType::OpenAIClient(_))
    ));
    assert!(matches!(
        client.generate_openai_client(azure_key(), &LLMType::Gpt4),
        Ok(OpenAIClientType::AzureClient(_))
    ));
    assert!(matches!(
        client.generate_openai_client(azure_key(), &LLMType::DeepSeekCoder33BInstruct),
        Ok(OpenAIClientType::OpenAIClient(_))
    ));
    assert!(matches!(
        client.generate_openai_client(LLMProviderAPIKeys::CodeStory, &LLMType::Gpt4),
        Err(LLMClientError::WrongAPIKeyType)
    ));
}
