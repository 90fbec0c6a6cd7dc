//! A conversation: what is kept of it, and what follows from what the model answers.
use crate::agent::llm;
use crate::agent::llm::{ContentBlock, ContentBlockView, Message, MessageView};
use crate::json;
use crate::text;
use vstd::prelude::*;
use vstd::string::*;

verus! {

/// Messages of a conversation that are kept. Older ones are dropped, so that the model is not
/// given more than it can take in.
pub const MAX_CONVERSATION_MESSAGES: usize = 40;

// ---- earlier conversations -------------------------------------------------

/// A row of a stored conversation.
#[derive(Debug)]
pub struct ConversationRow {
    /// Whose message it was.
    pub role: String,
    /// Its text.
    pub content: String,
}

/// The message that a stored row gives, if it gives one. What the user said always does, what
/// the model said only if it was more than calls of tools.
pub open spec fn restored_message(role: Seq<char>, content: Seq<char>) -> Option<MessageView> {
    if role == "user"@ {
        Some(MessageView::user(content))
    } else if role == "assistant"@ && content.len() > 0 {
        Some(MessageView::said(content))
    } else {
        None
    }
}

/// The messages that stored rows give. Rows come newest first, messages oldest first.
pub open spec fn restored(rows: Seq<ConversationRow>) -> Seq<MessageView>
    decreases rows.len(),
{
    if rows.len() == 0 {
        Seq::empty()
    } else {
        let earlier = restored(rows.skip(1));
        match restored_message(rows[0].role@, rows[0].content@) {
            Some(message) => earlier.push(message),
            None => earlier,
        }
    }
}

// ---- answers of the model --------------------------------------------------

/// A tool that the model wants called.
#[derive(Debug)]
pub struct ToolCall {
    /// Name of the request.
    pub id: String,
    /// The tool.
    pub name: String,
    /// What the tool is given, as JSON.
    pub input: String,
}

/// The contents of a [`ToolCall`].
pub struct ToolCallView {
    pub id: Seq<char>,
    pub name: Seq<char>,
    pub input: Seq<char>,
}

impl View for ToolCall {
    type V = ToolCallView;

    open spec fn view(&self) -> ToolCallView {
        ToolCallView { id: self.id@, name: self.name@, input: self.input@ }
    }
}

/// The contents of a list of calls.
pub open spec fn call_views(v: Seq<ToolCall>) -> Seq<ToolCallView> {
    Seq::new(v.len(), |i: int| v[i]@)
}

/// The tools that the parts of an answer want called, in order.
pub open spec fn calls_in(content: Seq<ContentBlockView>) -> Seq<ToolCallView>
    decreases content.len(),
{
    if content.len() == 0 {
        Seq::empty()
    } else {
        let earlier = calls_in(content.drop_last());
        match content.last() {
            ContentBlockView::ToolUse { id, name, input } => earlier.push(
                ToolCallView { id, name, input },
            ),
            _ => earlier,
        }
    }
}

/// The names of the tools in calls.
pub open spec fn call_names(calls: Seq<ToolCallView>) -> Seq<Seq<char>> {
    Seq::new(calls.len(), |i: int| calls[i].name)
}

/// What tools gave, among parts of messages, in order.
pub open spec fn results_in(content: Seq<ContentBlockView>) -> Seq<ContentBlockView>
    decreases content.len(),
{
    if content.len() == 0 {
        Seq::empty()
    } else {
        let earlier = results_in(content.drop_last());
        if content.last() is ToolResult {
            earlier.push(content.last())
        } else {
            earlier
        }
    }
}

/// What follows from an answer of the model.
#[derive(Debug)]
pub enum Next {
    /// The answer is complete, and this is its text.
    Done {
        /// The text of the answer.
        answer: String,
    },
    /// Tools are to be called, and the model is to be told what they give.
    Call {
        /// The calls.
        calls: Vec<ToolCall>,
    },
}

/// An answer of the model, taken in.
#[derive(Debug)]
pub struct Turn {
    /// Texts to show.
    pub shown: Vec<String>,
    /// What follows.
    pub next: Next,
}

/// The tools that the parts of an answer want called, in order.
fn calls(content: &Vec<ContentBlock>) -> (r: Vec<ToolCall>)
    ensures
        call_views(r@) == calls_in(llm::block_views(content@)),
{
    let ghost all = llm::block_views(content@);
    let mut r: Vec<ToolCall> = Vec::new();
    assert(call_views(r@) =~= calls_in(all.take(0)));
    for i in 0..content.len()
        invariant
            all == llm::block_views(content@),
            call_views(r@) == calls_in(all.take(i as int)),
    {
        assert(all.take(i as int + 1).drop_last() =~= all.take(i as int));
        assert(all.take(i as int + 1).last() == content@[i as int]@);
        if let ContentBlock::ToolUse { id, name, input } = &content[i] {
            let ghost earlier = call_views(r@);
            let call = ToolCall { id: id.clone(), name: name.clone(), input: input.clone() };
            let ghost here = call@;
            r.push(call);
            assert(call_views(r@) =~= earlier.push(here));
        }
    }
    assert(all.take(all.len() as int) =~= all);
    r
}

/// What is stored of the calls of an answer, given the names of the tools in JSON: nothing if
/// they could not be written.
pub fn stored_calls(written: Option<String>) -> (r: String)
    ensures
        r@ == (match written {
            Some(names) => names@,
            None => Seq::empty(),
        }),
{
    match written {
        Some(names) => names,
        None => String::new(),
    }
}

/// What is stored of the calls of an answer: the names of the tools, in JSON.
pub fn log_calls(calls: &Vec<ToolCall>) -> (r: String)
    ensures
        r@ == (match json::json_array(call_names(call_views(calls@))) {
            Some(names) => names,
            None => Seq::empty(),
        }),
{
    let mut names: Vec<String> = Vec::new();
    for i in 0..calls.len()
        invariant
            names@.len() == i,
            forall|j: int| 0 <= j < i ==> (#[trigger] names@[j])@ == calls@[j].name@,
    {
        names.push(calls[i].name.clone());
    }
    assert(text::views(names@) =~= call_names(call_views(calls@)));
    stored_calls(json::write_array(&names))
}

// ---- the conversation ------------------------------------------------------

/// A conversation with a model.
#[derive(Debug)]
pub struct Conversation {
    /// The messages, oldest first.
    pub messages: Vec<Message>,
}

impl View for Conversation {
    type V = Seq<MessageView>;

    open spec fn view(&self) -> Seq<MessageView> {
        llm::message_views(self.messages@)
    }
}

/// The last messages of a conversation, as many as are kept.
pub open spec fn recent(messages: Seq<MessageView>) -> Seq<MessageView> {
    if messages.len() <= MAX_CONVERSATION_MESSAGES {
        messages
    } else {
        messages.skip(messages.len() - MAX_CONVERSATION_MESSAGES)
    }
}

impl Conversation {
    /// The conversation that stored rows tell of. Rows come newest first; without rows the
    /// conversation is empty.
    pub fn restore(rows: &Vec<ConversationRow>) -> (r: Conversation)
        ensures
            r@ == restored(rows@),
    {
        let mut messages: Vec<Message> = Vec::new();
        let mut i: usize = rows.len();
        assert(llm::message_views(messages@) =~= restored(rows@.skip(i as int)));
        while i > 0
            invariant
                i <= rows@.len(),
                llm::message_views(messages@) == restored(rows@.skip(i as int)),
            decreases i,
        {
            i = i - 1;
            assert(rows@.skip(i as int).skip(1) =~= rows@.skip(i as int + 1));
            let ghost earlier = llm::message_views(messages@);
            let role = rows[i].role.as_str();
            if role.eq("user") {
                messages.push(Message::user(rows[i].content.as_str()));
                assert(llm::message_views(messages@) =~= earlier.push(
                    MessageView::user(rows@[i as int].content@),
                ));
            } else if role.eq("assistant") && !rows[i].content.as_str().is_empty() {
                messages.push(Message::said(rows[i].content.clone()));
                assert(llm::message_views(messages@) =~= earlier.push(
                    MessageView::said(rows@[i as int].content@),
                ));
            }
        }
        assert(rows@.skip(0) =~= rows@);
        Conversation { messages }
    }

    /// Adds what the user said.
    pub fn add_user(&mut self, input: &str)
        ensures
            final(self)@ == old(self)@.push(MessageView::user(input@)),
    {
        let ghost before = self@;
        self.messages.push(Message::user(input));
        assert(self@ =~= before.push(MessageView::user(input@)));
    }

    /// Adds an answer of the model. Returns the texts to show and what follows: without calls
    /// of tools the answer is complete.
    pub fn take_response(&mut self, content: Vec<ContentBlock>) -> (r: Turn)
        ensures
            final(self)@ == old(self)@.push(
                MessageView { role: "assistant"@, content: llm::block_views(content@) },
            ),
            text::views(r.shown@) == llm::texts_of(llm::block_views(content@)),
            match r.next {
                Next::Done { answer } => calls_in(llm::block_views(content@)).len() == 0
                    && answer@ == text::joined(
                    llm::texts_of(llm::block_views(content@)),
                    Seq::empty(),
                ),
                Next::Call { calls } => calls_in(llm::block_views(content@)).len() > 0
                    && call_views(calls@) == calls_in(llm::block_views(content@)),
            },
    {
        let ghost before = self@;
        let ghost parts = llm::block_views(content@);
        let shown = llm::texts(&content);
        let wanted = calls(&content);
        let next = if wanted.len() == 0 {
            proof {
                reveal_strlit("");
            }
            assert(""@ =~= Seq::<char>::empty());
            Next::Done { answer: text::join(&shown, "") }
        } else {
            Next::Call { calls: wanted }
        };
        self.messages.push(Message { role: "assistant".to_owned(), content });
        assert(self@ =~= before.push(MessageView { role: "assistant"@, content: parts }));
        Turn { shown, next }
    }

    /// Adds what tools gave, as a message to the model. Anything else among the parts is left
    /// out.
    pub fn take_results(&mut self, results: &Vec<ContentBlock>)
        ensures
            final(self)@ == old(self)@.push(
                MessageView {
                    role: "user"@,
                    content: results_in(llm::block_views(results@)),
                },
            ),
    {
        let ghost before = self@;
        let ghost all = llm::block_views(results@);
        let mut content: Vec<ContentBlock> = Vec::new();
        assert(llm::block_views(content@) =~= results_in(all.take(0)));
        for i in 0..results.len()
            invariant
                all == llm::block_views(results@),
                llm::block_views(content@) == results_in(all.take(i as int)),
        {
            assert(all.take(i as int + 1).drop_last() =~= all.take(i as int));
            assert(all.take(i as int + 1).last() == results@[i as int]@);
            if let ContentBlock::ToolResult { .. } = &results[i] {
                let ghost earlier = llm::block_views(content@);
                let copy = results[i].clone();
                content.push(copy);
                assert(llm::block_views(content@) =~= earlier.push(all[i as int]));
            }
        }
        assert(all.take(all.len() as int) =~= all);
        self.messages.push(Message { role: "user".to_owned(), content });
        assert(self@ =~= before.push(MessageView { role: "user"@, content: results_in(all) }));
    }

    /// Drops the oldest messages where there are more than are kept.
    pub fn trim(&mut self)
        ensures
            final(self)@ == recent(old(self)@),
    {
        let ghost before = self@;
        while self.messages.len() > MAX_CONVERSATION_MESSAGES
            invariant
                self@.len() == self.messages@.len(),
                self@.len() <= before.len(),
                self@ == before.skip(before.len() - self@.len()),
                before.len() >= MAX_CONVERSATION_MESSAGES ==> self@.len()
                    >= MAX_CONVERSATION_MESSAGES,
                before.len() < MAX_CONVERSATION_MESSAGES ==> self@.len() == before.len(),
            decreases self.messages.len(),
        {
            let ghost here = self@;
            let _oldest = self.messages.remove(0);
            assert(self@ =~= here.skip(1));
            assert(self@ =~= before.skip(before.len() - self@.len()));
        }
        assert(before.skip(0) =~= before);
    }
}

// ---- what holds of conversations -------------------------------------------

/// However long a conversation gets, at most 40 messages are kept: the last ones, in order.
/// Nothing is dropped of a conversation that is not longer than that, and dropping twice drops
/// no more than dropping once.
pub proof fn recent_messages_are_kept(messages: Seq<MessageView>)
    ensures
        recent(messages).len() <= MAX_CONVERSATION_MESSAGES,
        messages.len() <= MAX_CONVERSATION_MESSAGES ==> recent(messages) == messages,
        exists|dropped: Seq<MessageView>|
            dropped.len() == messages.len() - recent(messages).len() && #[trigger] (dropped
                + recent(messages)) == messages,
        recent(recent(messages)) == recent(messages),
{
    let n = messages.len() - recent(messages).len();
    let dropped = messages.take(n as int);
    assert(dropped + recent(messages) =~= messages);
}

/// Dropping early or late makes no difference: what is kept after more messages came is the
/// same whether or not older ones had been dropped before.
pub proof fn trimming_commutes_with_adding(messages: Seq<MessageView>, message: MessageView)
    ensures
        recent(recent(messages).push(message)) == recent(messages.push(message)),
{
    assert(recent(recent(messages).push(message)) =~= recent(messages.push(message)));
}

/// Restoring gives the messages in the order in which they were said: what an older row gives
/// comes before what newer rows give.
pub proof fn restoring_is_chronological(newer: Seq<ConversationRow>, older: Seq<ConversationRow>)
    ensures
        restored(newer + older) == restored(older) + restored(newer),
    decreases newer.len(),
{
    if newer.len() == 0 {
        assert(newer + older =~= older);
        assert(restored(older) + restored(newer) =~= restored(older));
    } else {
        restoring_is_chronological(newer.skip(1), older);
        assert((newer + older).skip(1) =~= newer.skip(1) + older);
        assert((newer + older)[0] == newer[0]);
        assert(restored(newer + older) =~= restored(older) + restored(newer));
    }
}

/// Every message that is restored has text of its row, and rows of other roles give none.
pub proof fn restored_messages_are_said(role: Seq<char>, content: Seq<char>)
    ensures
        match restored_message(role, content) {
            Some(message) => message.role == role && message.text() == content,
            None => role != "user"@ && (role != "assistant"@ || content.len() == 0),
        },
{
    llm::user_text_is_read_back(content);
}

} // verus!
