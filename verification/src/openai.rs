//! The client for OpenAI and Azure OpenAI chat endpoints: model names, request
//! messages, and the endpoint an API key calls for.

use vstd::prelude::*;

use async_openai::types::ChatCompletionRequestMessage;

use crate::formatting::{
    format_messages, format_plan, o1_format, o1_preview_plan, RequestMessage, RequestView,
    requests_view,
};
use crate::openai_api::{
    assistant_call_message, assistant_text_message, azure_client, build_assistant_call_message,
    build_assistant_text_message, build_function_result_message, build_system_message,
    build_user_message, function_result_message, openai_client, openai_client_with_base,
    system_request_message, user_request_message, AzureHttpClient, OpenAIHttpClient,
};
use crate::provider::LLMProviderAPIKeys;
use crate::types::{
    messages_view, string_option_view, LLMClientError, LLMClientMessage, LLMProvider, LLMType,
};

verus! {

/// The client for OpenAI chat endpoints.
pub struct OpenAIClient {}

/// The HTTP client of the endpoint that an API key calls for.
pub enum OpenAIClientType {
    AzureClient(AzureHttpClient),
    OpenAIClient(OpenAIHttpClient),
}

/// The settings of the endpoint that a request goes to.
#[derive(Debug, PartialEq, Eq)]
pub enum EndpointConfig {
    /// An OpenAI endpoint with this key, at this base URL or at OpenAI's own.
    OpenAI { api_key: String, api_base: Option<String> },
    /// An Azure OpenAI deployment.
    Azure { api_base: String, api_key: String, deployment_id: String, api_version: String },
}

/// Endpoint settings as plain text.
pub enum EndpointView {
    OpenAI { api_key: Seq<char>, api_base: Option<Seq<char>> },
    Azure { api_base: Seq<char>, api_key: Seq<char>, deployment_id: Seq<char>, api_version: Seq<char> },
}

impl View for EndpointConfig {
    type V = EndpointView;

    open spec fn view(&self) -> EndpointView {
        match self {
            EndpointConfig::OpenAI { api_key, api_base } => EndpointView::OpenAI {
                api_key: api_key@,
                api_base: string_option_view(*api_base),
            },
            EndpointConfig::Azure { api_base, api_key, deployment_id, api_version } =>
                EndpointView::Azure {
                api_base: api_base@,
                api_key: api_key@,
                deployment_id: deployment_id@,
                api_version: api_version@,
            },
        }
    }
}

/// The name under which an OpenAI-style endpoint serves a model, where it
/// serves it.
pub open spec fn model_name(model: LLMType) -> Option<Seq<char>> {
    match model {
        LLMType::GPT3_5_16k => Some("gpt-3.5-turbo-16k-0613"@),
        LLMType::Gpt4 => Some("gpt-4-0613"@),
        LLMType::Gpt4Turbo => Some("gpt-4-1106-preview"@),
        LLMType::Gpt4_32k => Some("gpt-4-32k-0613"@),
        LLMType::Gpt4O => Some("gpt-4o"@),
        LLMType::Gpt4OMini => Some("gpt-4o-mini"@),
        LLMType::DeepSeekCoder33BInstruct => Some("deepseek-coder-33b"@),
        LLMType::Llama3_1_8bInstruct => Some("llama-3.1-8b-instant"@),
        LLMType::O1Preview => Some("o1-preview"@),
        _ => None,
    }
}

/// The endpoint that an API key calls for with a model. DeepSeek Coder 33B is
/// served by an OpenAI-compatible endpoint at the base URL of an Azure key;
/// otherwise an OpenAI key goes to OpenAI and an Azure key to its deployment.
/// Any other key is refused with `WrongAPIKeyType`.
pub open spec fn endpoint_for(api_key: LLMProviderAPIKeys, model: LLMType) -> Result<
    EndpointView,
    LLMClientError,
> {
    if model is DeepSeekCoder33BInstruct {
        match api_key {
            LLMProviderAPIKeys::OpenAIAzureConfig(c) => Ok(
                EndpointView::OpenAI { api_key: c.api_key@, api_base: Some(c.api_base@) },
            ),
            _ => Err(LLMClientError::WrongAPIKeyType),
        }
    } else {
        match api_key {
            LLMProviderAPIKeys::OpenAI(k) => Ok(
                EndpointView::OpenAI { api_key: k.api_key@, api_base: None },
            ),
            LLMProviderAPIKeys::OpenAIAzureConfig(c) => Ok(
                EndpointView::Azure {
                    api_base: c.api_base@,
                    api_key: c.api_key@,
                    deployment_id: c.deployment_id@,
                    api_version: c.api_version@,
                },
            ),
            _ => Err(LLMClientError::WrongAPIKeyType),
        }
    }
}

/// The endpoint settings that an HTTP client was made with.
pub open spec fn client_settings(c: OpenAIClientType) -> EndpointView {
    match c {
        OpenAIClientType::AzureClient(a) => a.settings(),
        OpenAIClientType::OpenAIClient(o) => o.settings(),
    }
}

/// The view of what `endpoint_config` returns.
pub open spec fn endpoint_result_view(r: Result<EndpointConfig, LLMClientError>) -> Result<
    EndpointView,
    LLMClientError,
> {
    match r {
        Ok(c) => Ok(c@),
        Err(e) => Err(e),
    }
}

/// The message that the OpenAI client library builds for a request message.
pub open spec fn request_of(q: RequestView) -> ChatCompletionRequestMessage {
    match q {
        RequestView::User(t) => user_request_message(t),
        RequestView::System(t) => system_request_message(t),
        RequestView::Assistant(t) => assistant_text_message(t),
        RequestView::AssistantFunctionCall(c) => assistant_call_message(c.name, c.arguments),
        RequestView::FunctionResult(t, c) => function_result_message(t, c.name, c.arguments),
    }
}

/// The messages that the OpenAI client library builds for request messages.
pub open spec fn requests_of(qs: Seq<RequestView>) -> Seq<ChatCompletionRequestMessage> {
    qs.map_values(|q: RequestView| request_of(q))
}

/// What a formatter of the client returns, given what the request messages
/// are: the built messages where they are `Ok`, the same error otherwise.
pub open spec fn built_from(
    r: Result<Vec<ChatCompletionRequestMessage>, LLMClientError>,
    plan: Result<Seq<RequestView>, LLMClientError>,
) -> bool {
    match plan {
        Ok(p) => r is Ok && r->Ok_0@ == requests_of(p),
        Err(e) => r is Err && r->Err_0 == e,
    }
}

/// Builds one request message with the OpenAI client library.
fn build_request(q: &RequestMessage) -> (r: Result<ChatCompletionRequestMessage, LLMClientError>)
    ensures
        r is Ok,
        r->Ok_0 == request_of(q@),
{
    let built = match q {
        RequestMessage::User(t) => build_user_message(t.clone()),
        RequestMessage::System(t) => build_system_message(t.clone()),
        RequestMessage::Assistant(t) => build_assistant_text_message(t.clone()),
        RequestMessage::AssistantFunctionCall(c) => build_assistant_call_message(
            c.name().to_owned(),
            c.arguments().to_owned(),
        ),
        RequestMessage::FunctionResult(t, c) => build_function_result_message(
            t.clone(),
            c.name().to_owned(),
            c.arguments().to_owned(),
        ),
    };
    match built {
        Ok(m) => Ok(m),
        Err(e) => Err(LLMClientError::OpenAPIError(e)),
    }
}

/// Builds every request message of a plan, in order.
fn build_requests(plan: &Vec<RequestMessage>) -> (r: Result<
    Vec<ChatCompletionRequestMessage>,
    LLMClientError,
>)
    ensures
        r is Ok,
        r->Ok_0@ == requests_of(requests_view(plan@)),
{
    let mut out: Vec<ChatCompletionRequestMessage> = Vec::new();
    let n = plan.len();
    let mut i: usize = 0;
    while i < n
        invariant
            n == plan@.len(),
            0 <= i <= n,
            out@ == requests_of(requests_view(plan@)).take(i as int),
        decreases n - i,
    {
        let m = build_request(&plan[i])?;
        out.push(m);
        assert(out@ =~= requests_of(requests_view(plan@)).take(i + 1));
        i += 1;
    }
    assert(requests_of(requests_view(plan@)).take(n as int) =~= requests_of(requests_view(plan@)));
    Ok(out)
}

impl OpenAIClient {
    pub fn new() -> (r: Self)
        ensures
            r == (OpenAIClient {}),
    {
        OpenAIClient {  }
    }

    /// The name under which the endpoint serves a model, or `None` where it
    /// does not serve it.
    pub fn model(&self, model: &LLMType) -> (r: Option<String>)
        ensures
            string_option_view(r) == model_name(*model),
    {
        match model {
            LLMType::GPT3_5_16k => Some("gpt-3.5-turbo-16k-0613".to_owned()),
            LLMType::Gpt4 => Some("gpt-4-0613".to_owned()),
            LLMType::Gpt4Turbo => Some("gpt-4-1106-preview".to_owned()),
            LLMType::Gpt4_32k => Some("gpt-4-32k-0613".to_owned()),
            LLMType::Gpt4O => Some("gpt-4o".to_owned()),
            LLMType::Gpt4OMini => Some("gpt-4o-mini".to_owned()),
            LLMType::DeepSeekCoder33BInstruct => Some("deepseek-coder-33b".to_owned()),
            LLMType::Llama3_1_8bInstruct => Some("llama-3.1-8b-instant".to_owned()),
            LLMType::O1Preview => Some("o1-preview".to_owned()),
            _ => None,
        }
    }

    /// The request messages for o1-preview, built by the OpenAI client
    /// library: see `o1_preview_plan` for which messages these are.
    pub fn o1_preview_messages(&self, messages: &[LLMClientMessage]) -> (r: Result<
        Vec<ChatCompletionRequestMessage>,
        LLMClientError,
    >)
        ensures
            built_from(r, o1_format(messages_view(messages@))),
    {
        let plan = o1_preview_plan(messages)?;
        build_requests(&plan)
    }

    /// The request messages for any other model, one for each message, built
    /// by the OpenAI client library: see `format_plan`.
    pub fn messages(&self, messages: &[LLMClientMessage]) -> (r: Result<
        Vec<ChatCompletionRequestMessage>,
        LLMClientError,
    >)
        ensures
            built_from(r, format_messages(messages_view(messages@))),
    {
        let plan = format_plan(messages)?;
        build_requests(&plan)
    }

    /// The settings of the endpoint that an API key calls for with a model.
    pub fn endpoint_config(&self, api_key: LLMProviderAPIKeys, llm_model: &LLMType) -> (r: Result<
        EndpointConfig,
        LLMClientError,
    >)
        ensures
            endpoint_result_view(r) == endpoint_for(api_key, *llm_model),
    {
        if matches!(llm_model, LLMType::DeepSeekCoder33BInstruct) {
            return match api_key {
                LLMProviderAPIKeys::OpenAIAzureConfig(c) => Ok(
                    EndpointConfig::OpenAI { api_key: c.api_key, api_base: Some(c.api_base) },
                ),
                _ => Err(LLMClientError::WrongAPIKeyType),
            };
        }
        match api_key {
            LLMProviderAPIKeys::OpenAI(k) => Ok(
                EndpointConfig::OpenAI { api_key: k.api_key, api_base: None },
            ),
            LLMProviderAPIKeys::OpenAIAzureConfig(c) => Ok(
                EndpointConfig::Azure {
                    api_base: c.api_base,
                    api_key: c.api_key,
                    deployment_id: c.deployment_id,
                    api_version: c.api_version,
                },
            ),
            _ => Err(LLMClientError::WrongAPIKeyType),
        }
    }

    /// The HTTP client of the endpoint that an API key calls for with a model:
    /// an Azure client exactly where `endpoint_config` gives Azure settings,
    /// an OpenAI client where it gives OpenAI settings, and its error where it
    /// fails.
    pub fn generate_openai_client(&self, api_key: LLMProviderAPIKeys, llm_model: &LLMType) -> (r:
        Result<OpenAIClientType, LLMClientError>)
        ensures
            r is Ok <==> endpoint_for(api_key, *llm_model) is Ok,
            r is Err ==> r->Err_0 == endpoint_for(api_key, *llm_model)->Err_0,
            r is Ok ==> (r->Ok_0 is AzureClient <==> endpoint_for(api_key, *llm_model)->Ok_0 is Azure),
            r is Ok ==> endpoint_for(api_key, *llm_model) == Ok::<EndpointView, LLMClientError>(
                client_settings(r->Ok_0),
            ),
    {
        match self.endpoint_config(api_key, llm_model)? {
            EndpointConfig::OpenAI { api_key, api_base } => match api_base {
                Some(base) => Ok(OpenAIClientType::OpenAIClient(openai_client_with_base(api_key, base))),
                None => Ok(OpenAIClientType::OpenAIClient(openai_client(api_key))),
            },
            EndpointConfig::Azure { api_base, api_key, deployment_id, api_version } => Ok(
                OpenAIClientType::AzureClient(azure_client(api_base, api_key, deployment_id, api_version)),
            ),
        }
    }

    /// A plain prompt completion, which this endpoint does not offer: it
    /// always fails with `OpenAIDoesNotSupportCompletion`.
    pub fn prompt_completion(&self) -> (r: Result<String, LLMClientError>)
        ensures
            r is Err && r->Err_0 == LLMClientError::OpenAIDoesNotSupportCompletion,
    {
        Err(LLMClientError::OpenAIDoesNotSupportCompletion)
    }

    /// The provider that this client speaks to.
    pub fn client(&self) -> (r: &'static LLMProvider)
        ensures
            *r == LLMProvider::OpenAI,
    {
        &LLMProvider::OpenAI
    }
}

/// The models that OpenAI-style endpoints serve.
pub open spec fn is_served_model(model: LLMType) -> bool {
    ||| model is GPT3_5_16k
    ||| model is Gpt4
    ||| model is Gpt4Turbo
    ||| model is Gpt4_32k
    ||| model is Gpt4O
    ||| model is Gpt4OMini
    ||| model is DeepSeekCoder33BInstruct
    ||| model is Llama3_1_8bInstruct
    ||| model is O1Preview
}

/// A model has an endpoint name exactly when it is one of the nine served
/// models; no two models share a name, and no name is empty.
pub proof fn lemma_model_names_are_distinct(a: LLMType, b: LLMType)
    ensures
        model_name(a) is Some <==> is_served_model(a),
        model_name(a) is Some ==> model_name(a)->Some_0.len() > 0,
        model_name(a) is Some && model_name(a) == model_name(b) ==> a == b,
{
    reveal_strlit("gpt-3.5-turbo-16k-0613");
    reveal_strlit("gpt-4-0613");
    reveal_strlit("gpt-4-1106-preview");
    reveal_strlit("gpt-4-32k-0613");
    reveal_strlit("gpt-4o");
    reveal_strlit("gpt-4o-mini");
    reveal_strlit("deepseek-coder-33b");
    reveal_strlit("llama-3.1-8b-instant");
    reveal_strlit("o1-preview");
    if model_name(a) is Some && model_name(a) == model_name(b) {
        let n = model_name(a)->Some_0;
        assert(n.len() == model_name(b)->Some_0.len());
        assert(n[0] == model_name(b)->Some_0[0]);
        assert(n[5] == model_name(b)->Some_0[5]);
        assert(n[6] == model_name(b)->Some_0[6]);
        assert(n[4] == model_name(b)->Some_0[4]);
    }
}

/// Which model a request is for matters to the endpoint only as DeepSeek
/// Coder 33B or not: any two other models get the same endpoint for the same
/// key.
pub proof fn lemma_endpoint_ignores_other_models(api_key: LLMProviderAPIKeys, m1: LLMType, m2: LLMType)
    requires
        !(m1 is DeepSeekCoder33BInstruct),
        !(m2 is DeepSeekCoder33BInstruct),
    ensures
        endpoint_for(api_key, m1) == endpoint_for(api_key, m2),
{
}

/// For any model but DeepSeek Coder 33B, an OpenAI key goes to OpenAI's own
/// base URL with that key, an Azure key to its own deployment with all of its
/// settings, and any other key is refused. For DeepSeek Coder 33B only an
/// Azure key is taken, as an OpenAI-style endpoint at its base URL with its
/// key.
pub proof fn lemma_endpoint_follows_key(api_key: LLMProviderAPIKeys, m: LLMType)
    ensures
        !(m is DeepSeekCoder33BInstruct) ==> match api_key {
            LLMProviderAPIKeys::OpenAI(k) => endpoint_for(api_key, m) == Ok::<
                EndpointView,
                LLMClientError,
            >(EndpointView::OpenAI { api_key: k.api_key@, api_base: None }),
            LLMProviderAPIKeys::OpenAIAzureConfig(c) => endpoint_for(api_key, m) == Ok::<
                EndpointView,
                LLMClientError,
            >(
                EndpointView::Azure {
                    api_base: c.api_base@,
                    api_key: c.api_key@,
                    deployment_id: c.deployment_id@,
                    api_version: c.api_version@,
                },
            ),
            _ => endpoint_for(api_key, m) == Err::<EndpointView, LLMClientError>(
                LLMClientError::WrongAPIKeyType,
            ),
        },
        m is DeepSeekCoder33BInstruct ==> match api_key {
            LLMProviderAPIKeys::OpenAIAzureConfig(c) => endpoint_for(api_key, m) == Ok::<
                EndpointView,
                LLMClientError,
            >(EndpointView::OpenAI { api_key: c.api_key@, api_base: Some(c.api_base@) }),
            _ => endpoint_for(api_key, m) == Err::<EndpointView, LLMClientError>(
                LLMClientError::WrongAPIKeyType,
            ),
        },
{
}

} // verus!
