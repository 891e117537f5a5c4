//! The API keys and endpoint settings that callers hand the client.

use vstd::prelude::*;

verus! {

/// The key of the OpenAI endpoint.
#[derive(Debug, PartialEq, Eq)]
pub struct OpenAIProvider {
    pub api_key: String,
}

/// The settings of an Azure OpenAI deployment.
#[derive(Debug, PartialEq, Eq)]
pub struct AzureConfig {
    pub deployment_id: String,
    pub api_base: String,
    pub api_key: String,
    pub api_version: String,
}

/// The key of the Anthropic endpoint.
#[derive(Debug, PartialEq, Eq)]
pub struct AnthropicAPIKey {
    pub api_key: String,
}

/// The key of Google AI Studio.
#[derive(Debug, PartialEq, Eq)]
pub struct GoogleAIStudioKey {
    pub api_key: String,
}

/// The key that a caller holds for one provider.
#[derive(Debug, PartialEq, Eq)]
pub enum LLMProviderAPIKeys {
    OpenAI(OpenAIProvider),
    OpenAIAzureConfig(AzureConfig),
    Anthropic(AnthropicAPIKey),
    GoogleAIStudio(GoogleAIStudioKey),
    CodeStory,
}

impl OpenAIProvider {
    pub fn new(api_key: String) -> (r: Self)
        ensures
            r.api_key == api_key,
    {
        OpenAIProvider { api_key }
    }
}

impl AzureConfig {
    pub fn new(deployment_id: String, api_base: String, api_key: String, api_version: String) -> (r: Self)
        ensures
            r.deployment_id == deployment_id,
            r.api_base == api_base,
            r.api_key == api_key,
            r.api_version == api_version,
    {
        AzureConfig { deployment_id, api_base, api_key, api_version }
    }
}

impl AnthropicAPIKey {
    pub fn new(api_key: String) -> (r: Self)
        ensures
            r.api_key == api_key,
    {
        AnthropicAPIKey { api_key }
    }
}

impl GoogleAIStudioKey {
    pub fn new(api_key: String) -> (r: Self)
        ensures
            r.api_key == api_key,
    {
        GoogleAIStudioKey { api_key }
    }
}

} // verus!
