//! The calls into `async_openai` that the library makes, each with the
//! contract that the crate's source gives it.

use vstd::prelude::*;

use async_openai::config::{AzureConfig, OpenAIConfig};
use async_openai::error::OpenAIError;
use async_openai::types::{
    ChatCompletionRequestAssistantMessageArgs, ChatCompletionRequestMessage,
    ChatCompletionRequestSystemMessageArgs, ChatCompletionRequestUserMessageArgs, FunctionCall,
    Role,
};
use async_openai::Client;

use crate::openai::EndpointView;

verus! {

/// `async_openai::types::ChatCompletionRequestMessage`: one message of a chat
/// completion request, as the OpenAI client library sends it.
#[verifier::external_type_specification]
#[verifier::external_body]
pub struct ExChatCompletionRequestMessage(ChatCompletionRequestMessage);

/// `async_openai::error::OpenAIError`: an error of the OpenAI client library.
#[verifier::external_type_specification]
#[verifier::external_body]
pub struct ExOpenAIError(OpenAIError);

/// The `async_openai::Client` of an OpenAI endpoint. Its fields (the HTTP
/// connection pool and the configuration) are not modeled; what it was
/// configured with is kept beside it, in `OpenAIHttpClient`.
#[verifier::external_body]
pub struct OpenAIClientHandle {
    pub client: Client<OpenAIConfig>,
}

/// The `async_openai::Client` of an Azure OpenAI deployment, kept beside its
/// settings in `AzureHttpClient`.
#[verifier::external_body]
pub struct AzureClientHandle {
    pub client: Client<AzureConfig>,
}

/// The HTTP client of an OpenAI endpoint, and the settings it was made with.
pub struct OpenAIHttpClient {
    pub handle: OpenAIClientHandle,
    settings: Ghost<EndpointView>,
}

/// The HTTP client of an Azure OpenAI deployment, and the settings it was made
/// with.
pub struct AzureHttpClient {
    pub handle: AzureClientHandle,
    settings: Ghost<EndpointView>,
}

impl OpenAIHttpClient {
    /// The endpoint settings that the client was made with.
    pub closed spec fn settings(&self) -> EndpointView {
        self.settings@
    }
}

impl AzureHttpClient {
    /// The endpoint settings that the client was made with.
    pub closed spec fn settings(&self) -> EndpointView {
        self.settings@
    }
}

/// What a message builder of the OpenAI client library hands back.
pub type BuiltMessage = Result<ChatCompletionRequestMessage, OpenAIError>;

/// The user message with the given text: `ChatCompletionRequestMessage::User`
/// with role `user`, content `Text(content)` and no name.
pub uninterp spec fn user_request_message(content: Seq<char>) -> ChatCompletionRequestMessage;

/// The system message with the given text: `ChatCompletionRequestMessage::System`
/// with role `system`, that content and no name.
pub uninterp spec fn system_request_message(content: Seq<char>) -> ChatCompletionRequestMessage;

/// The assistant message with the given text: `ChatCompletionRequestMessage::Assistant`
/// with role `assistant`, `Some(content)`, and no name, tool calls or function call.
pub uninterp spec fn assistant_text_message(content: Seq<char>) -> ChatCompletionRequestMessage;

/// The assistant message that carries a function call:
/// `ChatCompletionRequestMessage::Assistant` with role `function`, no content,
/// and `function_call` holding that name and those arguments.
pub uninterp spec fn assistant_call_message(
    name: Seq<char>,
    arguments: Seq<char>,
) -> ChatCompletionRequestMessage;

/// The message that answers a function call: `ChatCompletionRequestMessage::Assistant`
/// with role `function`, `Some(content)`, and `function_call` holding that name
/// and those arguments.
pub uninterp spec fn function_result_message(
    content: Seq<char>,
    name: Seq<char>,
    arguments: Seq<char>,
) -> ChatCompletionRequestMessage;

/// Calls the builder `ChatCompletionRequestUserMessageArgs` with role `User` and
/// the given content. Every field of that builder has a default, so `build`
/// never fails: the result is `Ok` of the user message with that text.
#[verifier::external_body]
pub(crate) fn build_user_message(content: String) -> (r: BuiltMessage)
    ensures
        r is Ok,
        r->Ok_0 == user_request_message(content@),
{
    ChatCompletionRequestUserMessageArgs::default().role(Role::User).content(content).build().map(
        ChatCompletionRequestMessage::User,
    )
}

/// Calls the builder `ChatCompletionRequestSystemMessageArgs` with role `System`
/// and the given content; `build` never fails (every field has a default).
#[verifier::external_body]
pub(crate) fn build_system_message(content: String) -> (r: BuiltMessage)
    ensures
        r is Ok,
        r->Ok_0 == system_request_message(content@),
{
    ChatCompletionRequestSystemMessageArgs::default().role(Role::System).content(content).build().map(
        ChatCompletionRequestMessage::System,
    )
}

/// Calls the builder `ChatCompletionRequestAssistantMessageArgs` with role
/// `Assistant` and the given content; `build` never fails.
#[verifier::external_body]
pub(crate) fn build_assistant_text_message(content: String) -> (r: BuiltMessage)
    ensures
        r is Ok,
        r->Ok_0 == assistant_text_message(content@),
{
    ChatCompletionRequestAssistantMessageArgs::default().role(Role::Assistant).content(
        content,
    ).build().map(ChatCompletionRequestMessage::Assistant)
}

/// Calls the builder `ChatCompletionRequestAssistantMessageArgs` with role
/// `Function` and a `FunctionCall` of the given name and arguments; `build`
/// never fails.
#[verifier::external_body]
pub(crate) fn build_assistant_call_message(name: String, arguments: String) -> (r: BuiltMessage)
    ensures
        r is Ok,
        r->Ok_0 == assistant_call_message(name@, arguments@),
{
    ChatCompletionRequestAssistantMessageArgs::default().role(Role::Function).function_call(
        FunctionCall { name, arguments },
    ).build().map(ChatCompletionRequestMessage::Assistant)
}

/// Calls the builder `ChatCompletionRequestAssistantMessageArgs` with role
/// `Function`, the given content and a `FunctionCall` of the given name and
/// arguments; `build` never fails.
#[verifier::external_body]
pub(crate) fn build_function_result_message(
    content: String,
    name: String,
    arguments: String,
) -> (r: BuiltMessage)
    ensures
        r is Ok,
        r->Ok_0 == function_result_message(content@, name@, arguments@),
{
    ChatCompletionRequestAssistantMessageArgs::default().role(Role::Function).content(
        content,
    ).function_call(FunctionCall { name, arguments }).build().map(
        ChatCompletionRequestMessage::Assistant,
    )
}

/// Calls `Client::with_config` on `OpenAIConfig::new().with_api_key(api_key)`:
/// the client is configured with that key and OpenAI's own base URL
/// (`with_config` stores the configuration as given). Nothing more is stated:
/// the client also holds a fresh HTTP connection pool, and
/// `reqwest::Client::new` panics where the machine's TLS backend cannot start.
#[verifier::external_body]
pub(crate) fn openai_client(api_key: String) -> (r: OpenAIHttpClient)
    ensures
        r.settings() == (EndpointView::OpenAI { api_key: api_key@, api_base: None }),
{
    OpenAIHttpClient {
        settings: Ghost(EndpointView::OpenAI { api_key: api_key@, api_base: None }),
        handle: OpenAIClientHandle {
            client: Client::with_config(OpenAIConfig::new().with_api_key(api_key)),
        },
    }
}

/// Calls `Client::with_config` on
/// `OpenAIConfig::new().with_api_key(api_key).with_api_base(api_base)`: the
/// client is configured with that key and base URL. Nothing more is stated,
/// for the reasons given at `openai_client`.
#[verifier::external_body]
pub(crate) fn openai_client_with_base(api_key: String, api_base: String) -> (r: OpenAIHttpClient)
    ensures
        r.settings() == (EndpointView::OpenAI { api_key: api_key@, api_base: Some(api_base@) }),
{
    OpenAIHttpClient {
        settings: Ghost(EndpointView::OpenAI { api_key: api_key@, api_base: Some(api_base@) }),
        handle: OpenAIClientHandle {
            client: Client::with_config(
                OpenAIConfig::new().with_api_key(api_key).with_api_base(api_base),
            ),
        },
    }
}

/// Calls `Client::with_config` on an `AzureConfig` with the given base URL, key,
/// deployment and API version: the client is configured with exactly these.
/// Nothing more is stated, for the reasons given at `openai_client`.
#[verifier::external_body]
pub(crate) fn azure_client(
    api_base: String,
    api_key: String,
    deployment_id: String,
    api_version: String,
) -> (r: AzureHttpClient)
    ensures
        r.settings() == (EndpointView::Azure {
            api_base: api_base@,
            api_key: api_key@,
            deployment_id: deployment_id@,
            api_version: api_version@,
        }),
{
    let config = AzureConfig::new().with_api_base(api_base).with_api_key(api_key)
        .with_deployment_id(deployment_id).with_api_version(api_version);
    AzureHttpClient {
        settings: Ghost(EndpointView::Azure {
            api_base: api_base@,
            api_key: api_key@,
            deployment_id: deployment_id@,
            api_version: api_version@,
        }),
        handle: AzureClientHandle { client: Client::with_config(config) },
    }
}

} // verus!
