//! Request shaping for OpenAI-style chat completion endpoints.
//!
//! The library turns the client's own chat messages into the request messages
//! that the OpenAI chat API takes, picks the endpoint configuration that an API
//! key calls for, and keeps the running answer of a streamed completion.

pub mod formatting;
pub mod openai;
pub mod openai_api;
pub mod provider;
pub mod streaming;
pub mod types;

pub use openai::OpenAIClient;
pub use types::{
    LLMClientCompletionResponse, LLMClientError, LLMClientMessage, LLMClientMessageFunctionCall,
    LLMClientRole, LLMProvider, LLMType,
};
