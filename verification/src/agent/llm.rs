//! Messages of a chat with a language model.
use crate::text;
use vstd::prelude::*;
use vstd::string::*;

verus! {

/// A part of a message.
#[derive(Debug)]
pub enum ContentBlock {
    /// Text.
    Text {
        /// The text.
        text: String,
    },
    /// A request of the model to call a tool.
    ToolUse {
        /// Name of the request.
        id: String,
        /// The tool.
        name: String,
        /// What the tool is given, as JSON.
        input: String,
    },
    /// What a tool gave.
    ToolResult {
        /// Name of the request that is answered.
        tool_use_id: String,
        /// What the tool gave.
        content: String,
        /// Whether the tool failed, if that is said.
        is_error: Option<bool>,
    },
}

/// The contents of a [`ContentBlock`].
pub enum ContentBlockView {
    Text { text: Seq<char> },
    ToolUse { id: Seq<char>, name: Seq<char>, input: Seq<char> },
    ToolResult { tool_use_id: Seq<char>, content: Seq<char>, is_error: Option<bool> },
}

impl View for ContentBlock {
    type V = ContentBlockView;

    open spec fn view(&self) -> ContentBlockView {
        match self {
            ContentBlock::Text { text } => ContentBlockView::Text { text: text@ },
            ContentBlock::ToolUse { id, name, input } => ContentBlockView::ToolUse {
                id: id@,
                name: name@,
                input: input@,
            },
            ContentBlock::ToolResult { tool_use_id, content, is_error } =>
                ContentBlockView::ToolResult {
                tool_use_id: tool_use_id@,
                content: content@,
                is_error: *is_error,
            },
        }
    }
}

impl Clone for ContentBlock {
    fn clone(&self) -> (r: Self)
        ensures
            r@ == self@,
    {
        match self {
            ContentBlock::Text { text } => ContentBlock::Text { text: text.clone() },
            ContentBlock::ToolUse { id, name, input } => ContentBlock::ToolUse {
                id: id.clone(),
                name: name.clone(),
                input: input.clone(),
            },
            ContentBlock::ToolResult { tool_use_id, content, is_error } =>
                ContentBlock::ToolResult {
                tool_use_id: tool_use_id.clone(),
                content: content.clone(),
                is_error: *is_error,
            },
        }
    }
}

/// The contents of a list of parts.
pub open spec fn block_views(v: Seq<ContentBlock>) -> Seq<ContentBlockView> {
    Seq::new(v.len(), |i: int| v[i]@)
}

/// A message, by the user or by the model.
#[derive(Debug)]
pub struct Message {
    /// Whose message it is.
    pub role: String,
    /// Its parts.
    pub content: Vec<ContentBlock>,
}

/// The contents of a [`Message`].
pub struct MessageView {
    pub role: Seq<char>,
    pub content: Seq<ContentBlockView>,
}

impl View for Message {
    type V = MessageView;

    open spec fn view(&self) -> MessageView {
        MessageView { role: self.role@, content: block_views(self.content@) }
    }
}

/// The contents of a list of messages.
pub open spec fn message_views(v: Seq<Message>) -> Seq<MessageView> {
    Seq::new(v.len(), |i: int| v[i]@)
}

/// The texts among the parts of a message, in order.
pub open spec fn texts_of(content: Seq<ContentBlockView>) -> Seq<Seq<char>>
    decreases content.len(),
{
    if content.len() == 0 {
        Seq::empty()
    } else {
        let earlier = texts_of(content.drop_last());
        match content.last() {
            ContentBlockView::Text { text } => earlier.push(text),
            _ => earlier,
        }
    }
}

impl MessageView {
    /// A message of the user's.
    pub open spec fn user(s: Seq<char>) -> MessageView {
        MessageView { role: "user"@, content: seq![ContentBlockView::Text { text: s }] }
    }

    /// A message of the model's that is one text.
    pub open spec fn said(s: Seq<char>) -> MessageView {
        MessageView { role: "assistant"@, content: seq![ContentBlockView::Text { text: s }] }
    }

    /// The text of the message.
    pub open spec fn text(self) -> Seq<char> {
        text::joined(texts_of(self.content), Seq::empty())
    }
}

/// The texts among the parts of a message, in order.
pub fn texts(content: &Vec<ContentBlock>) -> (r: Vec<String>)
    ensures
        text::views(r@) == texts_of(block_views(content@)),
{
    let ghost all = block_views(content@);
    let mut r: Vec<String> = Vec::new();
    assert(text::views(r@) =~= texts_of(all.take(0)));
    for i in 0..content.len()
        invariant
            all == block_views(content@),
            text::views(r@) == texts_of(all.take(i as int)),
    {
        assert(all.take(i as int + 1).drop_last() =~= all.take(i as int));
        assert(all.take(i as int + 1).last() == content@[i as int]@);
        if let ContentBlock::Text { text } = &content[i] {
            let ghost earlier = text::views(r@);
            let ghost said = text@;
            r.push(text.clone());
            assert(text::views(r@) =~= earlier.push(said));
        }
    }
    assert(all.take(all.len() as int) =~= all);
    r
}

impl Message {
    /// A message of the user's.
    pub fn user(s: &str) -> (r: Message)
        ensures
            r@ == MessageView::user(s@),
    {
        let mut content: Vec<ContentBlock> = Vec::new();
        content.push(ContentBlock::Text { text: s.to_owned() });
        assert(block_views(content@) =~= MessageView::user(s@).content);
        Message { role: "user".to_owned(), content }
    }

    /// A message of the model's that is one text.
    pub fn said(s: String) -> (r: Message)
        ensures
            r@ == MessageView::said(s@),
    {
        let mut content: Vec<ContentBlock> = Vec::new();
        content.push(ContentBlock::Text { text: s });
        assert(block_views(content@) =~= MessageView::said(s@).content);
        Message { role: "assistant".to_owned(), content }
    }

    /// The text of the message: its texts, one after the other.
    pub fn text(&self) -> (r: String)
        ensures
            r@ == self@.text(),
    {
        proof {
            reveal_strlit("");
        }
        assert(""@ =~= Seq::<char>::empty());
        text::join(&texts(&self.content), "")
    }
}

/// The text of a message of the user's is what the user said.
pub proof fn user_text_is_read_back(s: Seq<char>)
    ensures
        MessageView::user(s).text() == s,
        MessageView::said(s).text() == s,
{
    let content = MessageView::user(s).content;
    assert(content.drop_last() =~= Seq::empty());
    assert(texts_of(content.drop_last()) =~= Seq::empty());
    assert(texts_of(content) =~= seq![s]);
    assert(seq![s].drop_last() =~= Seq::<Seq<char>>::empty());
    reveal_with_fuel(text::joined, 2);
    assert(text::joined(seq![s], Seq::empty()) =~= s);
}

/// What the model answered.
#[derive(Debug)]
pub struct ApiResponse {
    /// Name of the answer.
    pub id: String,
    /// Its parts.
    pub content: Vec<ContentBlock>,
    /// Why the model stopped.
    pub stop_reason: Option<String>,
    /// What the answer took.
    pub usage: Usage,
}

/// Tokens that an answer took.
#[derive(Debug, Clone, Copy, PartialEq, Eq, Structural)]
pub struct Usage {
    /// Tokens that the model read.
    pub input_tokens: u32,
    /// Tokens that the model wrote.
    pub output_tokens: u32,
}

/// The contents of an [`ApiResponse`].
pub struct ApiResponseView {
    pub id: Seq<char>,
    pub content: Seq<ContentBlockView>,
    pub stop_reason: Option<Seq<char>>,
    pub usage: Usage,
}

impl View for ApiResponse {
    type V = ApiResponseView;

    open spec fn view(&self) -> ApiResponseView {
        ApiResponseView {
            id: self.id@,
            content: block_views(self.content@),
            stop_reason: text::opt_view(self.stop_reason),
            usage: self.usage,
        }
    }
}

} // verus!
