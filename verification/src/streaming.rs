//! The decisions of a chat completion: which request to send, and how the
//! answer grows as the endpoint hands back its pieces.
//!
//! The caller sends the request and reads the answer; each piece it reads is
//! handed to a `CompletionAccumulator`, which says what to pass on.

use vstd::prelude::*;

use async_openai::types::ChatCompletionRequestMessage;

use crate::formatting::{format_messages, o1_format, RequestView};
use crate::openai::{built_from, model_name, OpenAIClient};
use crate::types::{
    messages_view, CompletionResponseView, LLMClientCompletionResponse,
    LLMClientError, LLMClientMessage, LLMType, MessageView,
};

verus! {

/// A chat completion request, but for its sampling temperature and frequency
/// penalty, which the caller adds.
pub struct PreparedRequest {
    /// The name of the model at the endpoint.
    pub model: String,
    /// The messages of the chat.
    pub messages: Vec<ChatCompletionRequestMessage>,
    /// Whether the answer is streamed (every model but o1-preview); o1-preview
    /// is asked at temperature 1, the others at the caller's temperature.
    pub stream: bool,
}

/// The request messages for a model: o1-preview takes the merged form, any
/// other model one request message for each chat message.
pub open spec fn request_plan_for(model: LLMType, msgs: Seq<MessageView>) -> Result<
    Seq<RequestView>,
    LLMClientError,
> {
    if model is O1Preview {
        o1_format(msgs)
    } else {
        format_messages(msgs)
    }
}

impl OpenAIClient {
    /// The request for a chat with a model: fails with `UnSupportedModel`
    /// where the endpoint does not serve the model, then with the error of
    /// formatting the chat; otherwise it names the model, holds the messages
    /// that the model takes, and streams for every model but o1-preview.
    pub fn prepare_chat_request(&self, llm_model: &LLMType, messages: &[LLMClientMessage]) -> (r:
        Result<PreparedRequest, LLMClientError>)
        ensures
            model_name(*llm_model) is None ==> r is Err && r->Err_0
                == LLMClientError::UnSupportedModel,
            model_name(*llm_model) is Some ==> {
                let plan = request_plan_for(*llm_model, messages_view(messages@));
                &&& r is Ok <==> plan is Ok
                &&& r is Err ==> r->Err_0 == plan->Err_0
                &&& r is Ok ==> {
                    &&& r->Ok_0.model@ == model_name(*llm_model)->Some_0
                    &&& built_from(Ok(r->Ok_0.messages), plan)
                    &&& r->Ok_0.stream == !(*llm_model is O1Preview)
                }
            },
            model_name(*llm_model) is Some && !(*llm_model is O1Preview) ==> {
                let plan = format_messages(messages_view(messages@));
                &&& r is Ok <==> plan is Ok
                &&& r is Err ==> r->Err_0 == plan->Err_0
                &&& r is Ok ==> built_from(Ok(r->Ok_0.messages), plan)
            },
            *llm_model is O1Preview ==> {
                let plan = o1_format(messages_view(messages@));
                &&& r is Ok <==> plan is Ok
                &&& r is Err ==> r->Err_0 == plan->Err_0
                &&& r is Ok ==> built_from(Ok(r->Ok_0.messages), plan)
            },
    {
        let model = match self.model(llm_model) {
            Some(m) => m,
            None => {
                return Err(LLMClientError::UnSupportedModel);
            },
        };
        let o1 = llm_model.is_o1_preview();
        let messages = if o1 {
            self.o1_preview_messages(messages)?
        } else {
            self.messages(messages)?
        };
        Ok(PreparedRequest { model, messages, stream: !o1 })
    }
}

/// The answer of a chat completion so far, the model that writes it, and the
/// steps passed on to the caller so far.
pub struct CompletionAccumulator {
    buffer: String,
    model: String,
    sent: Ghost<Seq<CompletionResponseView>>,
}

/// An answer in progress as plain text, with the steps passed on so far.
pub struct AccumulatorView {
    pub answer: Seq<char>,
    pub model: Seq<char>,
    pub sent: Seq<CompletionResponseView>,
}

impl View for CompletionAccumulator {
    type V = AccumulatorView;

    closed spec fn view(&self) -> AccumulatorView {
        AccumulatorView { answer: self.buffer@, model: self.model@, sent: self.sent@ }
    }
}

/// The steps of a streamed answer hang together: every step names the model
/// and carries a piece; the first step's answer is its piece, each later
/// step's answer is the one before with its piece added; and the answer so
/// far is the last step's answer, or empty where no step was passed on.
pub open spec fn answer_chain(v: AccumulatorView) -> bool {
    &&& forall|i: int|
        0 <= i < v.sent.len() ==> (#[trigger] v.sent[i]).model == v.model && v.sent[i].delta is Some
    &&& v.sent.len() > 0 ==> v.sent[0].answer_up_until_now == v.sent[0].delta->Some_0
    &&& forall|i: int|
        0 < i < v.sent.len() ==> (#[trigger] v.sent[i]).answer_up_until_now == v.sent[i
            - 1].answer_up_until_now + v.sent[i].delta->Some_0
    &&& v.sent.len() == 0 ==> v.answer.len() == 0
    &&& v.sent.len() > 0 ==> v.answer == v.sent.last().answer_up_until_now
}

/// The text of the first choice of a streamed piece, where it has one, and
/// the empty text otherwise.
pub open spec fn delta_text(first_choice: Option<Option<String>>) -> Seq<char> {
    match first_choice {
        Some(Some(t)) => t@,
        _ => Seq::empty(),
    }
}

/// What the endpoint's stream yields: a piece, given by the content of its
/// first choice (`None` where it has no choice), or a broken piece.
pub enum StreamItem {
    Piece(Option<Option<String>>),
    Broken,
}

/// What to do with a piece of the stream.
pub enum StreamStep {
    /// Pass this step on to the caller, and read on.
    Pass(LLMClientCompletionResponse),
    /// Pass nothing on, and read on.
    Quiet,
    /// Stop reading; the answer is what it is so far.
    Stop,
}

impl CompletionAccumulator {
    /// An empty answer of the given model.
    pub fn new(model: String) -> (r: Self)
        ensures
            r@.answer == Seq::<char>::empty(),
            r@.model == model@,
            r@.sent == Seq::<CompletionResponseView>::empty(),
            answer_chain(r@),
    {
        CompletionAccumulator { buffer: String::new(), model, sent: Ghost(Seq::empty()) }
    }

    /// The answer so far.
    pub fn answer(&self) -> (r: &str)
        ensures
            r@ == self@.answer,
    {
        self.buffer.as_str()
    }

    /// The answer, once the completion is over.
    pub fn into_answer(self) -> (r: String)
        ensures
            r@ == self@.answer,
    {
        self.buffer
    }

    /// Adds a piece to the answer and gives the step to pass on.
    fn add_piece(&mut self, piece: String) -> (r: LLMClientCompletionResponse)
        requires
            answer_chain(old(self)@),
        ensures
            answer_chain(final(self)@),
            final(self)@.model == old(self)@.model,
            final(self)@.answer == old(self)@.answer + piece@,
            final(self)@.sent == old(self)@.sent.push(r@),
            r@ == (CompletionResponseView {
                answer_up_until_now: final(self)@.answer,
                delta: Some(piece@),
                model: old(self)@.model,
            }),
    {
        let ghost before = self@;
        self.buffer.append(piece.as_str());
        let r = LLMClientCompletionResponse::new(self.buffer.clone(), Some(piece), self.model.clone());
        proof {
            self.sent@ = self.sent@.push(r@);
            let v = self@;
            assert(v.sent.last() == r@);
            if before.sent.len() == 0 {
                assert(before.answer =~= Seq::<char>::empty());
                assert(v.answer =~= piece@);
            }
            assert forall|i: int| 0 < i < v.sent.len() implies (#[trigger] v.sent[i]).answer_up_until_now
                == v.sent[i - 1].answer_up_until_now + v.sent[i].delta->Some_0 by {
                if i < v.sent.len() - 1 {
                    assert(v.sent[i] == before.sent[i]);
                    assert(v.sent[i - 1] == before.sent[i - 1]);
                } else {
                    assert(v.sent[i - 1] == before.sent.last());
                }
            }
            assert forall|i: int| 0 <= i < v.sent.len() implies (#[trigger] v.sent[i]).model == v.model
                && v.sent[i].delta is Some by {
                if i < v.sent.len() - 1 {
                    assert(v.sent[i] == before.sent[i]);
                }
            }
        }
        r
    }

    /// A piece of an Azure stream: a broken piece stops the reading and
    /// changes nothing; otherwise the content of the first choice, or the
    /// empty text where there is none, is added to the answer and the step is
    /// passed on.
    pub fn azure_step(&mut self, item: StreamItem) -> (r: StreamStep)
        requires
            answer_chain(old(self)@),
        ensures
            answer_chain(final(self)@),
            final(self)@.model == old(self)@.model,
            item is Broken ==> r is Stop && final(self)@ == old(self)@,
            item matches StreamItem::Piece(Some(Some(t))) ==> {
                &&& final(self)@.answer == old(self)@.answer + t@
                &&& r is Pass
                &&& r->Pass_0@.delta == Some(t@)
            },
            (item == StreamItem::Piece(None) || item == StreamItem::Piece(Some(None))) ==> {
                &&& final(self)@.answer == old(self)@.answer
                &&& r is Pass
                &&& r->Pass_0@.delta == Some(Seq::<char>::empty())
            },
            item matches StreamItem::Piece(first_choice) ==> {
                &&& final(self)@.answer == old(self)@.answer + delta_text(first_choice)
                &&& r is Pass
                &&& final(self)@.sent == old(self)@.sent.push(r->Pass_0@)
                &&& r->Pass_0@ == (CompletionResponseView {
                    answer_up_until_now: final(self)@.answer,
                    delta: Some(delta_text(first_choice)),
                    model: old(self)@.model,
                })
            },
    {
        match item {
            StreamItem::Broken => StreamStep::Stop,
            StreamItem::Piece(first_choice) => {
                let piece = match first_choice {
                    Some(Some(t)) => t,
                    _ => String::new(),
                };
                StreamStep::Pass(self.add_piece(piece))
            },
        }
    }

    /// A piece of an OpenAI stream: a broken piece stops the reading; a piece
    /// without a choice fails with `FailedToGetResponse`; a choice without
    /// content passes nothing on; in these cases nothing changes. Content is
    /// added to the answer and the step is passed on.
    pub fn openai_step(&mut self, item: StreamItem) -> (r: Result<StreamStep, LLMClientError>)
        requires
            answer_chain(old(self)@),
        ensures
            answer_chain(final(self)@),
            final(self)@.model == old(self)@.model,
            item is Broken ==> r is Ok && r->Ok_0 is Stop && final(self)@ == old(self)@,
            item == StreamItem::Piece(None) ==> r is Err && r->Err_0
                == LLMClientError::FailedToGetResponse && final(self)@ == old(self)@,
            item == StreamItem::Piece(Some(None)) ==> r is Ok && r->Ok_0 is Quiet && final(self)@
                == old(self)@,
            item matches StreamItem::Piece(Some(Some(t))) ==> {
                &&& final(self)@.answer == old(self)@.answer + t@
                &&& r is Ok && r->Ok_0 is Pass
                &&& final(self)@.sent == old(self)@.sent.push(r->Ok_0->Pass_0@)
                &&& r->Ok_0->Pass_0@ == (CompletionResponseView {
                    answer_up_until_now: final(self)@.answer,
                    delta: Some(t@),
                    model: old(self)@.model,
                })
            },
    {
        match item {
            StreamItem::Broken => Ok(StreamStep::Stop),
            StreamItem::Piece(None) => Err(LLMClientError::FailedToGetResponse),
            StreamItem::Piece(Some(None)) => Ok(StreamStep::Quiet),
            StreamItem::Piece(Some(Some(text))) => Ok(StreamStep::Pass(self.add_piece(text))),
        }
    }

    /// The whole answer of a completion that is not streamed (o1-preview),
    /// given by the content of its first choice (`None` where it has no
    /// choice): without a choice or content it fails with
    /// `FailedToGetResponse`; otherwise the content is the answer, passed on
    /// as the one step.
    pub fn from_complete_answer(model: String, first_choice: Option<Option<String>>) -> (r: Result<
        (CompletionAccumulator, LLMClientCompletionResponse),
        LLMClientError,
    >)
        ensures
            first_choice matches Some(Some(t)) ==> {
                &&& r is Ok
                &&& r->Ok_0.0@.answer == t@
                &&& r->Ok_0.0@.model == model@
                &&& r->Ok_0.0@.sent == seq![r->Ok_0.1@]
                &&& answer_chain(r->Ok_0.0@)
                &&& r->Ok_0.1@ == (CompletionResponseView {
                    answer_up_until_now: t@,
                    delta: Some(t@),
                    model: model@,
                })
            },
            !(first_choice matches Some(Some(_))) ==> r is Err && r->Err_0
                == LLMClientError::FailedToGetResponse,
    {
        match first_choice {
            Some(Some(content)) => {
                let mut answer = CompletionAccumulator::new(model);
                let step = answer.add_piece(content);
                assert(Seq::<char>::empty() + answer@.answer =~= answer@.answer);
                assert(answer@.sent =~= seq![step@]);
                Ok((answer, step))
            },
            _ => Err(LLMClientError::FailedToGetResponse),
        }
    }
}

/// Every answer passed on during a streamed completion is a beginning of the
/// answer that the completion ends with: answers only grow.
pub proof fn lemma_passed_answers_grow(v: AccumulatorView, i: int)
    requires
        answer_chain(v),
        0 <= i < v.sent.len(),
    ensures
        v.sent[i].answer_up_until_now.len() <= v.answer.len(),
        v.answer.subrange(0, v.sent[i].answer_up_until_now.len() as int)
            == v.sent[i].answer_up_until_now,
    decreases v.sent.len() - i,
{
    if i < v.sent.len() - 1 {
        lemma_passed_answers_grow(v, i + 1);
        let a = v.sent[i].answer_up_until_now;
        let b = v.sent[i + 1].answer_up_until_now;
        assert(b == a + v.sent[i + 1].delta->Some_0);
        assert(b.subrange(0, a.len() as int) =~= a);
        assert(v.answer.subrange(0, b.len() as int) == b);
        assert(v.answer.subrange(0, a.len() as int) =~= b.subrange(0, a.len() as int));
    } else {
        assert(v.answer.subrange(0, v.answer.len() as int) =~= v.answer);
    }
}

/// Every model but o1-preview is sent the chat one message for each message;
/// o1-preview is sent the merged form. Any two models other than o1-preview
/// get the same request messages.
pub proof fn lemma_request_plan_by_model(m1: LLMType, m2: LLMType, msgs: Seq<MessageView>)
    ensures
        !(m1 is O1Preview) ==> request_plan_for(m1, msgs) == format_messages(msgs),
        m1 is O1Preview ==> request_plan_for(m1, msgs) == o1_format(msgs),
        !(m1 is O1Preview) && !(m2 is O1Preview) ==> request_plan_for(m1, msgs)
            == request_plan_for(m2, msgs),
{
}

/// The text that a streamed piece adds is the content of its first choice,
/// exactly as it came, and nothing where it has no choice or no content.
pub proof fn lemma_piece_text(t: String)
    ensures
        delta_text(Some(Some(t))) == t@,
        delta_text(Some(None)) == Seq::<char>::empty(),
        delta_text(None) == Seq::<char>::empty(),
{
}

} // verus!
