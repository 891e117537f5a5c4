//! How the client's chat messages become the messages of a chat completion
//! request: one for one for most models, and with runs of system and user
//! text merged into single user messages for o1-preview.

use vstd::prelude::*;

use crate::types::{
    messages_view, FunctionCallView, LLMClientError, LLMClientMessage,
    LLMClientMessageFunctionCall, LLMClientRole, MessageView,
};

verus! {

/// One message of a chat completion request, before the OpenAI client library
/// builds it.
#[derive(Debug, PartialEq, Eq)]
pub enum RequestMessage {
    /// A user message with this text.
    User(String),
    /// A system message with this text.
    System(String),
    /// An assistant message with this text.
    Assistant(String),
    /// An assistant message that asks for this function call.
    AssistantFunctionCall(LLMClientMessageFunctionCall),
    /// The answer, with this text, to this function call.
    FunctionResult(String, LLMClientMessageFunctionCall),
}

/// A request message as plain values.
pub enum RequestView {
    User(Seq<char>),
    System(Seq<char>),
    Assistant(Seq<char>),
    AssistantFunctionCall(FunctionCallView),
    FunctionResult(Seq<char>, FunctionCallView),
}

impl View for RequestMessage {
    type V = RequestView;

    open spec fn view(&self) -> RequestView {
        match self {
            RequestMessage::User(t) => RequestView::User(t@),
            RequestMessage::System(t) => RequestView::System(t@),
            RequestMessage::Assistant(t) => RequestView::Assistant(t@),
            RequestMessage::AssistantFunctionCall(c) => RequestView::AssistantFunctionCall(c@),
            RequestMessage::FunctionResult(t, c) => RequestView::FunctionResult(t@, c@),
        }
    }
}

/// The views of a sequence of request messages.
pub open spec fn requests_view(requests: Seq<RequestMessage>) -> Seq<RequestView> {
    requests.map_values(|q: RequestMessage| q@)
}

/// The view of what a formatter returns.
pub open spec fn plan_view(r: Result<Vec<RequestMessage>, LLMClientError>) -> Result<
    Seq<RequestView>,
    LLMClientError,
> {
    match r {
        Ok(v) => Ok(requests_view(v@)),
        Err(e) => Err(e),
    }
}

/// The request message that stands for one chat message: system, user and
/// assistant text keep their role, an assistant message with a function call
/// asks for that call, and a function message answers its call. A function
/// message without a function call has none.
pub open spec fn convert_message(m: MessageView) -> Option<RequestView> {
    match m.role {
        LLMClientRole::System => Some(RequestView::System(m.content)),
        LLMClientRole::User => Some(RequestView::User(m.content)),
        LLMClientRole::Assistant => match m.function_call {
            Some(c) => Some(RequestView::AssistantFunctionCall(c)),
            None => Some(RequestView::Assistant(m.content)),
        },
        LLMClientRole::Function => match m.function_call {
            Some(c) => Some(RequestView::FunctionResult(m.content, c)),
            None => None,
        },
    }
}

/// Some function message of the chat carries no function call.
pub open spec fn function_call_missing(msgs: Seq<MessageView>) -> bool {
    exists|i: int| 0 <= i < msgs.len() && #[trigger] convert_message(msgs[i]) is None
}

/// The request of a chat, one message for each message: it fails exactly when
/// a function message carries no function call.
pub open spec fn format_messages(msgs: Seq<MessageView>) -> Result<Seq<RequestView>, LLMClientError> {
    if function_call_missing(msgs) {
        Err(LLMClientError::FunctionCallNotPresent)
    } else {
        Ok(msgs.map_values(|m: MessageView| convert_message(m)->Some_0))
    }
}

/// The line break that joins merged user text.
pub open spec fn line_break() -> Seq<char> {
    seq!['\n']
}

/// The user text that is still waiting to be sent, if it is sent at all: a
/// user message only where the text is not empty.
pub open spec fn flush_pending(out: Seq<RequestView>, pending: Option<Seq<char>>) -> Seq<RequestView> {
    match pending {
        Some(p) => if p.len() > 0 {
            out.push(RequestView::User(p))
        } else {
            out
        },
        None => out,
    }
}

/// The o1-preview request of a chat read so far: the messages sent, and the
/// text of the run of system and user messages that ends the chat, if it
/// ends with one. Texts of one run are joined by line breaks; an assistant or
/// function message sends the pending run, then itself.
pub open spec fn o1_progress(msgs: Seq<MessageView>) -> Result<
    (Seq<RequestView>, Option<Seq<char>>),
    LLMClientError,
>
    decreases msgs.len(),
{
    if msgs.len() == 0 {
        Ok((Seq::empty(), None))
    } else {
        let m = msgs.last();
        match o1_progress(msgs.drop_last()) {
            Err(e) => Err(e),
            Ok((out, pending)) => match m.role {
                LLMClientRole::System | LLMClientRole::User => Ok(
                    (
                        out,
                        Some(
                            match pending {
                                Some(p) => p + line_break() + m.content,
                                None => m.content,
                            },
                        ),
                    ),
                ),
                _ => match convert_message(m) {
                    Some(q) => Ok((flush_pending(out, pending).push(q), None)),
                    None => Err(LLMClientError::FunctionCallNotPresent),
                },
            },
        }
    }
}

/// The o1-preview request of a chat: each run of system and user messages
/// becomes one user message (its texts joined by line breaks, dropped where
/// that text is empty); assistant and function messages are kept as they are.
pub open spec fn o1_format(msgs: Seq<MessageView>) -> Result<Seq<RequestView>, LLMClientError> {
    match o1_progress(msgs) {
        Ok((out, pending)) => Ok(flush_pending(out, pending)),
        Err(e) => Err(e),
    }
}

/// The request message for one chat message, if it has one.
pub fn convert(message: &LLMClientMessage) -> (r: Option<RequestMessage>)
    ensures
        match r {
            Some(q) => convert_message(message@) == Some(q@),
            None => convert_message(message@) is None,
        },
{
    let content = message.content();
    match message.role() {
        LLMClientRole::System => Some(RequestMessage::System(content.to_owned())),
        LLMClientRole::User => Some(RequestMessage::User(content.to_owned())),
        LLMClientRole::Assistant => match message.get_function_call() {
            Some(c) => Some(RequestMessage::AssistantFunctionCall(c.duplicate())),
            None => Some(RequestMessage::Assistant(content.to_owned())),
        },
        LLMClientRole::Function => match message.get_function_call() {
            Some(c) => Some(RequestMessage::FunctionResult(content.to_owned(), c.duplicate())),
            None => None,
        },
    }
}

/// The request messages of a chat, one for each message; fails with
/// `FunctionCallNotPresent` exactly when a function message has no call.
pub fn format_plan(messages: &[LLMClientMessage]) -> (r: Result<Vec<RequestMessage>, LLMClientError>)
    ensures
        plan_view(r) == format_messages(messages_view(messages@)),
{
    let ghost msgs = messages_view(messages@);
    let ghost converted = msgs.map_values(|m: MessageView| convert_message(m)->Some_0);
    let mut out: Vec<RequestMessage> = Vec::new();
    let n = messages.len();
    let mut i: usize = 0;
    while i < n
        invariant
            n == messages@.len(),
            msgs == messages_view(messages@),
            converted == msgs.map_values(|m: MessageView| convert_message(m)->Some_0),
            0 <= i <= n,
            forall|j: int| 0 <= j < i ==> #[trigger] convert_message(msgs[j]) is Some,
            requests_view(out@) == converted.take(i as int),
        decreases n - i,
    {
        let message = &messages[i];
        assert(msgs[i as int] == message@);
        match convert(message) {
            Some(q) => {
                let ghost before = out@;
                out.push(q);
                assert(requests_view(out@) =~= requests_view(before).push(q@));
                assert(converted.take(i + 1) =~= converted.take(i as int).push(converted[i as int]));
            },
            None => {
                assert(function_call_missing(msgs));
                return Err(LLMClientError::FunctionCallNotPresent);
            },
        }
        i += 1;
    }
    assert(!function_call_missing(msgs));
    assert(converted.take(n as int) =~= converted);
    Ok(out)
}

/// Once a prefix of a chat fails to format for o1-preview, the whole chat
/// fails with the same error.
proof fn lemma_o1_error_persists(msgs: Seq<MessageView>, k: int)
    requires
        0 <= k <= msgs.len(),
        o1_progress(msgs.take(k)) is Err,
    ensures
        o1_progress(msgs) == o1_progress(msgs.take(k)),
    decreases msgs.len() - k,
{
    if k < msgs.len() {
        assert(msgs.take(k + 1).drop_last() =~= msgs.take(k));
        lemma_o1_error_persists(msgs, k + 1);
    } else {
        assert(msgs.take(k) =~= msgs);
    }
}

/// The pending user text of the o1-preview formatter: the text gathered so
/// far where the last message read was system or user text.
pub open spec fn pending_text(last_role: Option<LLMClientRole>, text: Seq<char>) -> Option<Seq<char>> {
    if last_role == Some(LLMClientRole::User) {
        Some(text)
    } else {
        None
    }
}

/// The o1-preview request messages of a chat: system and user messages are
/// both sent as user text, each run of them merged into one user message with
/// its texts joined by line breaks (a run whose text is empty is dropped);
/// assistant and function messages are sent as `convert` gives them. Fails
/// with `FunctionCallNotPresent` exactly when a function message has no call.
pub fn o1_preview_plan(messages: &[LLMClientMessage]) -> (r: Result<Vec<RequestMessage>, LLMClientError>)
    ensures
        plan_view(r) == o1_format(messages_view(messages@)),
{
    let ghost msgs = messages_view(messages@);
    let mut formatted: Vec<RequestMessage> = Vec::new();
    let mut accumulated = String::new();
    let mut last_role: Option<LLMClientRole> = None;
    let n = messages.len();
    let mut i: usize = 0;
    proof {
        reveal_strlit("\n");
        assert(msgs.take(0) =~= Seq::<MessageView>::empty());
        assert(requests_view(formatted@) =~= Seq::<RequestView>::empty());
    }
    while i < n
        invariant
            n == messages@.len(),
            msgs == messages_view(messages@),
            0 <= i <= n,
            o1_progress(msgs.take(i as int)) == Ok::<
                (Seq<RequestView>, Option<Seq<char>>),
                LLMClientError,
            >((requests_view(formatted@), pending_text(last_role, accumulated@))),
            last_role != Some(LLMClientRole::User) ==> accumulated@.len() == 0,
            "\n"@ == line_break(),
        decreases n - i,
    {
        let message = &messages[i];
        let ghost prefix = msgs.take(i as int);
        assert(msgs.take(i + 1).drop_last() =~= prefix);
        assert(msgs.take(i + 1).last() == message@);
        let current_role = match message.role() {
            LLMClientRole::System | LLMClientRole::User => LLMClientRole::User,
            other => other,
        };
        match current_role {
            LLMClientRole::User => {
                if matches!(last_role, Some(LLMClientRole::User)) {
                    accumulated.append("\n");
                    accumulated.append(message.content());
                } else {
                    accumulated = message.content().to_owned();
                }
                last_role = Some(LLMClientRole::User);
            },
            _ => {
                let ghost before = formatted@;
                let ghost pending = pending_text(last_role, accumulated@);
                if matches!(last_role, Some(LLMClientRole::User)) && !accumulated.as_str().is_empty() {
                    formatted.push(RequestMessage::User(accumulated));
                    accumulated = String::new();
                    assert(requests_view(formatted@) =~= requests_view(before).push(
                        formatted@.last()@,
                    ));
                }
                assert(requests_view(formatted@) =~= flush_pending(requests_view(before), pending));
                accumulated = String::new();
                match convert(message) {
                    Some(q) => {
                        let ghost mid = formatted@;
                        formatted.push(q);
                        assert(requests_view(formatted@) =~= requests_view(mid).push(q@));
                    },
                    None => {
                        proof {
                            lemma_o1_error_persists(msgs, i + 1);
                        }
                        return Err(LLMClientError::FunctionCallNotPresent);
                    },
                }
                last_role = Some(current_role);
            },
        }
        i += 1;
    }
    assert(msgs.take(n as int) =~= msgs);
    if matches!(last_role, Some(LLMClientRole::User)) && !accumulated.as_str().is_empty() {
        let ghost before = formatted@;
        formatted.push(RequestMessage::User(accumulated));
        assert(requests_view(formatted@) =~= requests_view(before).push(formatted@.last()@));
    }
    Ok(formatted)
}

/// The messages that are not user text, in order.
pub open spec fn replies(out: Seq<RequestView>) -> Seq<RequestView>
    decreases out.len(),
{
    if out.len() == 0 {
        Seq::empty()
    } else if out.last() is User {
        replies(out.drop_last())
    } else {
        replies(out.drop_last()).push(out.last())
    }
}

/// The request messages of the assistant and function messages of a chat, in
/// order.
pub open spec fn reply_messages(msgs: Seq<MessageView>) -> Seq<RequestView>
    decreases msgs.len(),
{
    if msgs.len() == 0 {
        Seq::empty()
    } else if msgs.last().role == LLMClientRole::System || msgs.last().role
        == LLMClientRole::User {
        reply_messages(msgs.drop_last())
    } else {
        reply_messages(msgs.drop_last()).push(convert_message(msgs.last())->Some_0)
    }
}

/// The texts of a chat's messages joined by line breaks.
pub open spec fn joined_text(msgs: Seq<MessageView>) -> Seq<char>
    decreases msgs.len(),
{
    if msgs.len() <= 1 {
        if msgs.len() == 1 {
            msgs[0].content
        } else {
            Seq::empty()
        }
    } else {
        joined_text(msgs.drop_last()) + line_break() + msgs.last().content
    }
}

/// A request that o1-preview takes: no system message, no empty user
/// message, and no two user messages in a row.
pub open spec fn o1_shaped(out: Seq<RequestView>) -> bool {
    &&& forall|i: int| 0 <= i < out.len() ==> !(#[trigger] out[i] is System)
    &&& forall|i: int|
        0 <= i < out.len() && #[trigger] out[i] is User ==> out[i]->User_0.len() > 0
    &&& forall|i: int|
        0 <= i < out.len() - 1 && #[trigger] out[i] is User ==> !(out[i + 1] is User)
}

proof fn lemma_o1_progress_facts(msgs: Seq<MessageView>)
    ensures
        o1_progress(msgs) is Err <==> function_call_missing(msgs),
        o1_progress(msgs) is Err ==> o1_progress(msgs)->Err_0
            == LLMClientError::FunctionCallNotPresent,
        o1_progress(msgs) is Ok ==> {
            let (out, pending) = o1_progress(msgs)->Ok_0;
            &&& o1_shaped(out)
            &&& out.len() > 0 ==> !(out.last() is User)
            &&& replies(out) == reply_messages(msgs)
        },
    decreases msgs.len(),
{
    if msgs.len() > 0 {
        let prefix = msgs.drop_last();
        let m = msgs.last();
        lemma_o1_progress_facts(prefix);
        if function_call_missing(prefix) {
            let i = choose|i: int| 0 <= i < prefix.len() && #[trigger] convert_message(prefix[i]) is None;
            assert(convert_message(msgs[i]) is None);
        }
        if function_call_missing(msgs) {
            let i = choose|i: int| 0 <= i < msgs.len() && #[trigger] convert_message(msgs[i]) is None;
            if i < prefix.len() {
                assert(convert_message(prefix[i]) is None);
            }
        }
        if convert_message(m) is None {
            assert(convert_message(msgs[msgs.len() - 1]) is None);
        }
        if o1_progress(prefix) is Ok {
            let (out, pending) = o1_progress(prefix)->Ok_0;
            if !(m.role == LLMClientRole::System || m.role == LLMClientRole::User) {
                if convert_message(m) is Some {
                    let q = convert_message(m)->Some_0;
                    let flushed = flush_pending(out, pending);
                    let next = flushed.push(q);
                    if flushed.len() != out.len() {
                        assert(flushed.drop_last() =~= out);
                    }
                    assert(replies(flushed) == replies(out));
                    assert(next.drop_last() =~= flushed);
                    assert(o1_shaped(flushed));
                    assert(o1_shaped(next));
                }
            }
        }
    }
}

/// o1-preview formatting fails exactly where one-for-one formatting fails:
/// where a function message carries no function call, and then with
/// `FunctionCallNotPresent`.
pub proof fn lemma_formats_fail_alike(msgs: Seq<MessageView>)
    ensures
        o1_format(msgs) is Err <==> function_call_missing(msgs),
        format_messages(msgs) is Err <==> function_call_missing(msgs),
        o1_format(msgs) is Err ==> o1_format(msgs) == format_messages(msgs),
{
    lemma_o1_progress_facts(msgs);
}

/// What o1-preview is sent has no system message, no empty user message and
/// no two user messages in a row; and its other messages are exactly the
/// assistant and function messages of the chat, in order, as one-for-one
/// formatting sends them.
pub proof fn lemma_o1_request_shape(msgs: Seq<MessageView>)
    requires
        o1_format(msgs) is Ok,
    ensures
        o1_shaped(o1_format(msgs)->Ok_0),
        replies(o1_format(msgs)->Ok_0) == reply_messages(msgs),
{
    lemma_o1_progress_facts(msgs);
    let (out, pending) = o1_progress(msgs)->Ok_0;
    let flushed = flush_pending(out, pending);
    if flushed.len() != out.len() {
        assert(flushed.drop_last() =~= out);
        assert(o1_shaped(flushed));
    }
}

proof fn lemma_o1_progress_without_text(msgs: Seq<MessageView>)
    requires
        forall|i: int|
            0 <= i < msgs.len() ==> (#[trigger] msgs[i]).role == LLMClientRole::Assistant
                || msgs[i].role == LLMClientRole::Function,
        !function_call_missing(msgs),
    ensures
        o1_progress(msgs) == Ok::<(Seq<RequestView>, Option<Seq<char>>), LLMClientError>(
            (msgs.map_values(|m: MessageView| convert_message(m)->Some_0), None),
        ),
    decreases msgs.len(),
{
    if msgs.len() > 0 {
        let prefix = msgs.drop_last();
        assert forall|i: int| 0 <= i < prefix.len() implies (#[trigger] prefix[i]).role
            == LLMClientRole::Assistant || prefix[i].role == LLMClientRole::Function by {
            assert(prefix[i] == msgs[i]);
        }
        if function_call_missing(prefix) {
            let i = choose|i: int| 0 <= i < prefix.len() && #[trigger] convert_message(prefix[i]) is None;
            assert(convert_message(msgs[i]) is None);
        }
        lemma_o1_progress_without_text(prefix);
        assert(msgs.last() == msgs[msgs.len() - 1]);
        assert(convert_message(msgs[msgs.len() - 1]) is Some);
        assert(msgs.map_values(|m: MessageView| convert_message(m)->Some_0) =~= prefix.map_values(
            |m: MessageView| convert_message(m)->Some_0,
        ).push(convert_message(msgs.last())->Some_0));
    } else {
        assert(msgs.map_values(|m: MessageView| convert_message(m)->Some_0) =~= Seq::<
            RequestView,
        >::empty());
    }
}

/// A chat with no system or user text is sent to o1-preview exactly as to
/// any other model.
pub proof fn lemma_formats_agree_without_text(msgs: Seq<MessageView>)
    requires
        forall|i: int|
            0 <= i < msgs.len() ==> (#[trigger] msgs[i]).role == LLMClientRole::Assistant
                || msgs[i].role == LLMClientRole::Function,
    ensures
        o1_format(msgs) == format_messages(msgs),
{
    lemma_o1_progress_facts(msgs);
    if !function_call_missing(msgs) {
        lemma_o1_progress_without_text(msgs);
    }
}

proof fn lemma_o1_progress_all_text(msgs: Seq<MessageView>)
    requires
        msgs.len() > 0,
        forall|i: int|
            0 <= i < msgs.len() ==> (#[trigger] msgs[i]).role == LLMClientRole::System
                || msgs[i].role == LLMClientRole::User,
    ensures
        o1_progress(msgs) == Ok::<(Seq<RequestView>, Option<Seq<char>>), LLMClientError>(
            (Seq::empty(), Some(joined_text(msgs))),
        ),
    decreases msgs.len(),
{
    let prefix = msgs.drop_last();
    assert(msgs.last() == msgs[msgs.len() - 1]);
    if prefix.len() > 0 {
        assert forall|i: int| 0 <= i < prefix.len() implies (#[trigger] prefix[i]).role
            == LLMClientRole::System || prefix[i].role == LLMClientRole::User by {
            assert(prefix[i] == msgs[i]);
        }
        lemma_o1_progress_all_text(prefix);
    } else {
        assert(msgs[0] == msgs.last());
    }
}

/// A chat of system and user messages alone reaches o1-preview as one user
/// message, its texts joined by line breaks, or as nothing where that text is
/// empty.
pub proof fn lemma_o1_merges_text(msgs: Seq<MessageView>)
    requires
        msgs.len() > 0,
        forall|i: int|
            0 <= i < msgs.len() ==> (#[trigger] msgs[i]).role == LLMClientRole::System
                || msgs[i].role == LLMClientRole::User,
    ensures
        o1_format(msgs) == Ok::<Seq<RequestView>, LLMClientError>(
            if joined_text(msgs).len() > 0 {
                seq![RequestView::User(joined_text(msgs))]
            } else {
                Seq::empty()
            },
        ),
{
    lemma_o1_progress_all_text(msgs);
    assert(Seq::<RequestView>::empty().push(RequestView::User(joined_text(msgs))) =~= seq![
        RequestView::User(joined_text(msgs)),
    ]);
}

/// Whether a chat message is system or user text.
pub open spec fn is_text(m: MessageView) -> bool {
    m.role == LLMClientRole::System || m.role == LLMClientRole::User
}

/// The progress of a chat read after a part that sent `outp` and left nothing
/// pending.
pub open spec fn progress_after(
    outp: Seq<RequestView>,
    r: Result<(Seq<RequestView>, Option<Seq<char>>), LLMClientError>,
) -> Result<(Seq<RequestView>, Option<Seq<char>>), LLMClientError> {
    match r {
        Ok((o, pending)) => Ok((outp + o, pending)),
        Err(e) => Err(e),
    }
}

proof fn lemma_flush_after(a: Seq<RequestView>, b: Seq<RequestView>, pending: Option<Seq<char>>)
    ensures
        flush_pending(a + b, pending) == a + flush_pending(b, pending),
{
    match pending {
        Some(p) => {
            if p.len() > 0 {
                assert((a + b).push(RequestView::User(p)) =~= a + b.push(RequestView::User(p)));
            }
        },
        None => {},
    }
}

proof fn lemma_o1_progress_concat(p: Seq<MessageView>, q: Seq<MessageView>)
    requires
        o1_progress(p) is Ok,
        o1_progress(p)->Ok_0.1 is None,
    ensures
        o1_progress(p + q) == progress_after(o1_progress(p)->Ok_0.0, o1_progress(q)),
    decreases q.len(),
{
    let outp = o1_progress(p)->Ok_0.0;
    if q.len() == 0 {
        assert(p + q =~= p);
        assert(outp + Seq::<RequestView>::empty() =~= outp);
    } else {
        let q2 = q.drop_last();
        lemma_o1_progress_concat(p, q2);
        assert((p + q).drop_last() =~= p + q2);
        assert((p + q).last() == q.last());
        if o1_progress(q2) is Ok {
            let (o, pending) = o1_progress(q2)->Ok_0;
            let m = q.last();
            if !is_text(m) {
                if convert_message(m) is Some {
                    let c = convert_message(m)->Some_0;
                    lemma_flush_after(outp, o, pending);
                    assert((outp + flush_pending(o, pending)).push(c) =~= outp + flush_pending(
                        o,
                        pending,
                    ).push(c));
                }
            }
        }
    }
}

proof fn lemma_o1_after_reply_pending(p: Seq<MessageView>)
    requires
        p.len() > 0,
        !is_text(p.last()),
        o1_progress(p) is Ok,
    ensures
        o1_progress(p)->Ok_0.1 is None,
        o1_format(p) == Ok::<Seq<RequestView>, LLMClientError>(o1_progress(p)->Ok_0.0),
{
}

/// A chat that ends with an assistant or function message is a boundary for
/// o1-preview: what follows it is formatted on its own and sent after it.
/// Formatting fails where either part fails, with the first part's error
/// first.
pub proof fn lemma_o1_concat_after_reply(p: Seq<MessageView>, q: Seq<MessageView>)
    requires
        p.len() > 0,
        !is_text(p.last()),
    ensures
        o1_format(p) is Err ==> o1_format(p + q) == o1_format(p),
        o1_format(p) is Ok && o1_format(q) is Err ==> o1_format(p + q) == o1_format(q),
        o1_format(p) is Ok && o1_format(q) is Ok ==> o1_format(p + q) == Ok::<
            Seq<RequestView>,
            LLMClientError,
        >(o1_format(p)->Ok_0 + o1_format(q)->Ok_0),
{
    if o1_progress(p) is Err {
        assert((p + q).take(p.len() as int) =~= p);
        lemma_o1_error_persists(p + q, p.len() as int);
    } else {
        lemma_o1_after_reply_pending(p);
        lemma_o1_progress_concat(p, q);
        if o1_progress(q) is Ok {
            let (o, pending) = o1_progress(q)->Ok_0;
            lemma_flush_after(o1_progress(p)->Ok_0.0, o, pending);
        }
    }
}

/// A run of system and user messages after an assistant or function message
/// reaches o1-preview as one more user message: every text of the run, in
/// order, joined by line breaks (nothing, where that text is empty).
pub proof fn lemma_o1_run_after_reply(p: Seq<MessageView>, run: Seq<MessageView>)
    requires
        p.len() > 0,
        !is_text(p.last()),
        o1_format(p) is Ok,
        run.len() > 0,
        forall|i: int| 0 <= i < run.len() ==> is_text(#[trigger] run[i]),
    ensures
        o1_format(p + run) == Ok::<Seq<RequestView>, LLMClientError>(
            o1_format(p)->Ok_0 + if joined_text(run).len() > 0 {
                seq![RequestView::User(joined_text(run))]
            } else {
                Seq::empty()
            },
        ),
{
    assert forall|i: int| 0 <= i < run.len() implies (#[trigger] run[i]).role
        == LLMClientRole::System || run[i].role == LLMClientRole::User by {
        assert(is_text(run[i]));
    }
    lemma_o1_merges_text(run);
    lemma_o1_concat_after_reply(p, run);
}

/// One more system or user message after system or user text continues the
/// same o1-preview user message: the last user message sent gets a line break
/// and the new text; where the run so far had empty text and so sent
/// nothing, a user message of a line break and the new text is added.
pub proof fn lemma_o1_text_continues_run(msgs: Seq<MessageView>, m: MessageView)
    requires
        msgs.len() > 0,
        is_text(msgs.last()),
        is_text(m),
        o1_format(msgs) is Ok,
    ensures
        o1_format(msgs.push(m)) == Ok::<Seq<RequestView>, LLMClientError>(
            {
                let out = o1_format(msgs)->Ok_0;
                if out.len() > 0 && out.last() is User {
                    out.drop_last().push(
                        RequestView::User(out.last()->User_0 + line_break() + m.content),
                    )
                } else {
                    out.push(RequestView::User(line_break() + m.content))
                }
            },
        ),
{
    lemma_o1_progress_facts(msgs);
    assert(msgs.push(m).drop_last() =~= msgs);
    let (base, pending) = o1_progress(msgs)->Ok_0;
    let pp = pending->Some_0;
    let joined = pp + line_break() + m.content;
    assert(joined.len() > 0);
    if pp.len() > 0 {
        assert(base.push(RequestView::User(pp)).drop_last() =~= base);
    } else {
        assert(pp + line_break() + m.content =~= line_break() + m.content);
    }
}

/// Formatting for any model but o1-preview keeps each message in its place
/// and its role: system and user text stay system and user text, an
/// assistant message keeps its text or its function call, and a function
/// message answers its call with its text.
pub proof fn lemma_one_for_one_keeps_each_message(msgs: Seq<MessageView>)
    requires
        format_messages(msgs) is Ok,
    ensures
        format_messages(msgs)->Ok_0.len() == msgs.len(),
        forall|i: int|
            0 <= i < msgs.len() ==> {
                let m = #[trigger] msgs[i];
                let q = format_messages(msgs)->Ok_0[i];
                &&& m.role == LLMClientRole::System ==> q == RequestView::System(m.content)
                &&& m.role == LLMClientRole::User ==> q == RequestView::User(m.content)
                &&& m.role == LLMClientRole::Assistant && m.function_call is None ==> q
                    == RequestView::Assistant(m.content)
                &&& m.role == LLMClientRole::Assistant && m.function_call is Some ==> q
                    == RequestView::AssistantFunctionCall(m.function_call->Some_0)
                &&& m.role == LLMClientRole::Function ==> m.function_call is Some && q
                    == RequestView::FunctionResult(m.content, m.function_call->Some_0)
            },
{
    assert forall|i: int| 0 <= i < msgs.len() implies convert_message(#[trigger] msgs[i]) is Some by {
        if convert_message(msgs[i]) is None {
            assert(function_call_missing(msgs));
        }
    }
}

} // verus!
