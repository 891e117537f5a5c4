use vstd::prelude::*;

use async_openai::error::OpenAIError;

verus! {

/// The language models that the client knows by name.
#[derive(Clone, Debug, PartialEq, Eq)]
pub enum LLMType {
    Mixtral,
    MistralInstruct,
    Gpt4,
    GPT3_5_16k,
    Gpt4_32k,
    Gpt4O,
    Gpt4OMini,
    Gpt4Turbo,
    DeepSeekCoder1_3BInstruct,
    DeepSeekCoder33BInstruct,
    DeepSeekCoder6BInstruct,
    CodeLLama70BInstruct,
    CodeLlama13BInstruct,
    CodeLlama7BInstruct,
    Llama3_8bInstruct,
    Llama3_1_8bInstruct,
    Llama3_1_70bInstruct,
    ClaudeOpus,
    ClaudeSonnet,
    ClaudeHaiku,
    GeminiPro,
    GeminiProFlash,
    O1Preview,
    Custom(String),
}

impl LLMType {
    /// Whether this is the o1-preview model, which takes no streaming and no
    /// system messages.
    pub fn is_o1_preview(&self) -> (r: bool)
        ensures
            r == (*self is O1Preview),
    {
        match self {
            LLMType::O1Preview => true,
            _ => false,
        }
    }
}


/// Who wrote a chat message.
#[derive(Clone, Copy, Debug, PartialEq, Eq, Structural)]
pub enum LLMClientRole {
    System,
    User,
    Assistant,
    Function,
}

/// The function call that an assistant message asks for, or that a function
/// message answers.
#[derive(Debug, PartialEq, Eq)]
pub struct LLMClientMessageFunctionCall {
    name: String,
    arguments: String,
}

/// What a function call is, as plain text.
pub struct FunctionCallView {
    pub name: Seq<char>,
    pub arguments: Seq<char>,
}

impl View for LLMClientMessageFunctionCall {
    type V = FunctionCallView;

    closed spec fn view(&self) -> FunctionCallView {
        FunctionCallView { name: self.name@, arguments: self.arguments@ }
    }
}

impl LLMClientMessageFunctionCall {
    pub fn new(name: String, arguments: String) -> (r: Self)
        ensures
            r@ == (FunctionCallView { name: name@, arguments: arguments@ }),
    {
        LLMClientMessageFunctionCall { name, arguments }
    }

    pub fn name(&self) -> (r: &str)
        ensures
            r@ == self@.name,
    {
        self.name.as_str()
    }

    pub fn arguments(&self) -> (r: &str)
        ensures
            r@ == self@.arguments,
    {
        self.arguments.as_str()
    }

    /// A second function call with the same name and arguments.
    pub fn duplicate(&self) -> (r: Self)
        ensures
            r@ == self@,
    {
        LLMClientMessageFunctionCall { name: self.name.clone(), arguments: self.arguments.clone() }
    }
}

/// One message of a chat, as the client's callers write it.
#[derive(Debug, PartialEq, Eq)]
pub struct LLMClientMessage {
    role: LLMClientRole,
    message: String,
    function_call: Option<LLMClientMessageFunctionCall>,
}

/// What a chat message is, as plain values.
pub struct MessageView {
    pub role: LLMClientRole,
    pub content: Seq<char>,
    pub function_call: Option<FunctionCallView>,
}

pub open spec fn function_call_view(c: Option<LLMClientMessageFunctionCall>) -> Option<FunctionCallView> {
    match c {
        Some(c) => Some(c@),
        None => None,
    }
}

impl View for LLMClientMessage {
    type V = MessageView;

    closed spec fn view(&self) -> MessageView {
        MessageView {
            role: self.role,
            content: self.message@,
            function_call: function_call_view(self.function_call),
        }
    }
}

impl LLMClientMessage {
    /// A message with the given role and text and no function call.
    pub fn new(role: LLMClientRole, message: String) -> (r: Self)
        ensures
            r@ == (MessageView { role, content: message@, function_call: None }),
    {
        LLMClientMessage { role, message, function_call: None }
    }

    /// A message with the given role and text that carries a function call.
    pub fn with_function_call(
        role: LLMClientRole,
        message: String,
        function_call: LLMClientMessageFunctionCall,
    ) -> (r: Self)
        ensures
            r@ == (MessageView { role, content: message@, function_call: Some(function_call@) }),
    {
        LLMClientMessage { role, message, function_call: Some(function_call) }
    }

    pub fn role(&self) -> (r: LLMClientRole)
        ensures
            r == self@.role,
    {
        self.role
    }

    pub fn content(&self) -> (r: &str)
        ensures
            r@ == self@.content,
    {
        self.message.as_str()
    }

    pub fn get_function_call(&self) -> (r: Option<&LLMClientMessageFunctionCall>)
        ensures
            match r {
                Some(c) => self@.function_call == Some(c@),
                None => self@.function_call is None,
            },
    {
        match &self.function_call {
            Some(c) => Some(c),
            None => None,
        }
    }
}

/// The views of a sequence of messages.
pub open spec fn messages_view(messages: Seq<LLMClientMessage>) -> Seq<MessageView> {
    messages.map_values(|m: LLMClientMessage| m@)
}

/// Why a request to the model could not be made or answered.
#[derive(Debug)]
pub enum LLMClientError {
    /// The OpenAI client library refused the request or its answer.
    OpenAPIError(OpenAIError),
    /// A function message carries no function call.
    FunctionCallNotPresent,
    /// The API key is of a kind that this endpoint does not take.
    WrongAPIKeyType,
    /// The model has no name at this endpoint.
    UnSupportedModel,
    /// The answer held no choice, or a choice without content.
    FailedToGetResponse,
    /// This endpoint only offers chat completion.
    OpenAIDoesNotSupportCompletion,
}

/// The providers that serve language models.
#[derive(Clone, Copy, Debug, PartialEq, Eq, Structural)]
pub enum LLMProvider {
    OpenAI,
    TogetherAI,
    Ollama,
    LMStudio,
    CodeStory,
    Azure,
    OpenAICompatible,
    Anthropic,
    FireworksAI,
    GeminiPro,
    GoogleAIStudio,
    OpenRouter,
}

/// One step of a streamed answer: the answer so far, the piece that this step
/// added, and the model that wrote it.
#[derive(Debug, PartialEq, Eq)]
pub struct LLMClientCompletionResponse {
    answer_up_until_now: String,
    delta: Option<String>,
    model: String,
}

/// A streamed answer step as plain text.
pub struct CompletionResponseView {
    pub answer_up_until_now: Seq<char>,
    pub delta: Option<Seq<char>>,
    pub model: Seq<char>,
}

pub open spec fn string_option_view(s: Option<String>) -> Option<Seq<char>> {
    match s {
        Some(s) => Some(s@),
        None => None,
    }
}

impl View for LLMClientCompletionResponse {
    type V = CompletionResponseView;

    closed spec fn view(&self) -> CompletionResponseView {
        CompletionResponseView {
            answer_up_until_now: self.answer_up_until_now@,
            delta: string_option_view(self.delta),
            model: self.model@,
        }
    }
}

impl LLMClientCompletionResponse {
    pub fn new(answer_up_until_now: String, delta: Option<String>, model: String) -> (r: Self)
        ensures
            r@ == (CompletionResponseView {
                answer_up_until_now: answer_up_until_now@,
                delta: string_option_view(delta),
                model: model@,
            }),
    {
        LLMClientCompletionResponse { answer_up_until_now, delta, model }
    }

    pub fn answer_up_until_now(&self) -> (r: &str)
        ensures
            r@ == self@.answer_up_until_now,
    {
        self.answer_up_until_now.as_str()
    }

    pub fn delta(&self) -> (r: Option<&str>)
        ensures
            match r {
                Some(d) => self@.delta == Some(d@),
                None => self@.delta is None,
            },
    {
        match &self.delta {
            Some(d) => Some(d.as_str()),
            None => None,
        }
    }

    pub fn model(&self) -> (r: &str)
        ensures
            r@ == self@.model,
    {
        self.model.as_str()
    }
}

} // verus!
