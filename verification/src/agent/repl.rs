//! The course of a chat: what is shown, stored and done about what the user enters and what
//! the model answers.
use crate::agent::conversation;
use crate::agent::conversation::{Conversation, Next, ToolCall, ToolCallView};
use crate::agent::laws;
use crate::agent::llm;
use crate::agent::llm::{ContentBlock, ContentBlockView, MessageView};
use crate::agent::session;
use crate::agent::session::{Input, InputView};
use crate::json;
use crate::text;
use vstd::prelude::*;
use vstd::string::*;

verus! {

/// What is done next.
#[derive(Debug)]
pub enum Step {
    /// Read what the user enters.
    Read,
    /// Ask the model.
    Ask,
    /// Call tools, in order.
    Call(Vec<ToolCall>),
    /// End the chat.
    Stop,
}

/// The contents of a [`Step`].
pub enum StepView {
    Read,
    Ask,
    Call(Seq<ToolCallView>),
    Stop,
}

impl View for Step {
    type V = StepView;

    open spec fn view(&self) -> StepView {
        match self {
            Step::Read => StepView::Read,
            Step::Ask => StepView::Ask,
            Step::Call(calls) => StepView::Call(conversation::call_views(calls@)),
            Step::Stop => StepView::Stop,
        }
    }
}

/// A message to store.
#[derive(Debug)]
pub struct Stored {
    /// Whose message it is.
    pub role: &'static str,
    /// Its text.
    pub content: String,
    /// The tools that it calls, as JSON.
    pub tool_calls: Option<String>,
}

/// The contents of a [`Stored`].
pub struct StoredView {
    pub role: Seq<char>,
    pub content: Seq<char>,
    pub tool_calls: Option<Seq<char>>,
}

impl View for Stored {
    type V = StoredView;

    open spec fn view(&self) -> StoredView {
        StoredView {
            role: self.role@,
            content: self.content@,
            tool_calls: text::opt_view(self.tool_calls),
        }
    }
}

/// What follows from something that happened in a chat.
#[derive(Debug)]
pub struct Outcome {
    /// Lines to show.
    pub shown: Vec<String>,
    /// What to store.
    pub stored: Option<Stored>,
    /// What is done next.
    pub step: Step,
}

/// The contents of an [`Outcome`].
pub struct OutcomeView {
    pub shown: Seq<Seq<char>>,
    pub stored: Option<StoredView>,
    pub step: StepView,
}

impl View for Outcome {
    type V = OutcomeView;

    open spec fn view(&self) -> OutcomeView {
        OutcomeView {
            shown: text::views(self.shown@),
            stored: match self.stored {
                Some(s) => Some(s@),
                None => None,
            },
            step: self.step@,
        }
    }
}

// ---- what follows from what ------------------------------------------------

/// What follows from what the user enters. A message is stored and put to the model, an empty
/// line is passed over, and everything else ends the chat, the end of input with an empty
/// line.
pub open spec fn after_input(input: InputView) -> OutcomeView {
    match input {
        InputView::End => OutcomeView {
            shown: seq![Seq::empty()],
            stored: None,
            step: StepView::Stop,
        },
        InputView::Nothing => OutcomeView {
            shown: Seq::empty(),
            stored: None,
            step: StepView::Read,
        },
        InputView::Quit => OutcomeView {
            shown: Seq::empty(),
            stored: None,
            step: StepView::Stop,
        },
        InputView::Message(m) => OutcomeView {
            shown: Seq::empty(),
            stored: Some(StoredView { role: "user"@, content: m, tool_calls: None }),
            step: StepView::Ask,
        },
    }
}

/// The conversation after what the user entered.
pub open spec fn with_input(messages: Seq<MessageView>, input: InputView) -> Seq<MessageView> {
    match input {
        InputView::Message(m) => messages.push(MessageView::user(m)),
        _ => messages,
    }
}

/// What follows from an answer of the model. Its texts are shown. Without calls of tools the
/// answer is stored and the user is asked again.
pub open spec fn after_answer(content: Seq<ContentBlockView>) -> OutcomeView {
    let calls = conversation::calls_in(content);
    OutcomeView {
        shown: llm::texts_of(content),
        stored: if calls.len() == 0 {
            Some(
                StoredView {
                    role: "assistant"@,
                    content: text::joined(llm::texts_of(content), Seq::empty()),
                    tool_calls: None,
                },
            )
        } else {
            None
        },
        step: if calls.len() == 0 {
            StepView::Read
        } else {
            StepView::Call(calls)
        },
    }
}

/// The conversation after an answer of the model. When the turn is over, only recent messages
/// are kept.
pub open spec fn with_answer(
    messages: Seq<MessageView>,
    content: Seq<ContentBlockView>,
) -> Seq<MessageView> {
    let longer = messages.push(MessageView { role: "assistant"@, content });
    if conversation::calls_in(content).len() == 0 {
        conversation::recent(longer)
    } else {
        longer
    }
}

/// The conversation after tools were called.
pub open spec fn with_results(
    messages: Seq<MessageView>,
    results: Seq<ContentBlockView>,
) -> Seq<MessageView> {
    messages.push(
        MessageView { role: "user"@, content: conversation::results_in(results) },
    )
}

impl Conversation {
    /// Takes in what the user entered, given how many bytes were read and the line.
    pub fn on_input(&mut self, bytes_read: usize, line: &str) -> (r: Outcome)
        ensures
            r@ == after_input(session::entered(bytes_read as int, line@)),
            final(self)@ == with_input(
                old(self)@,
                session::entered(bytes_read as int, line@),
            ),
    {
        let mut shown: Vec<String> = Vec::new();
        assert(text::views(shown@) =~= Seq::empty());
        match session::read_input(bytes_read, line) {
            Input::End => {
                shown.push(String::new());
                assert(text::views(shown@) =~= seq![Seq::empty()]);
                Outcome { shown, stored: None, step: Step::Stop }
            },
            Input::Nothing => Outcome { shown, stored: None, step: Step::Read },
            Input::Quit => Outcome { shown, stored: None, step: Step::Stop },
            Input::Message(m) => {
                self.add_user(m.as_str());
                Outcome {
                    shown,
                    stored: Some(Stored { role: "user", content: m, tool_calls: None }),
                    step: Step::Ask,
                }
            },
        }
    }

    /// Takes in an answer of the model.
    pub fn on_answer(&mut self, content: Vec<ContentBlock>) -> (r: Outcome)
        ensures
            r@ == after_answer(llm::block_views(content@)),
            text::views(r.shown@) == llm::block_views(content@).filter_map(
                |part: ContentBlockView|
                    match part {
                        ContentBlockView::Text { text } => Some(text),
                        _ => None,
                    },
            ),
            final(self)@ == with_answer(old(self)@, llm::block_views(content@)),
    {
        proof {
            laws::answers_are_shown(llm::block_views(content@));
        }
        let turn = self.take_response(content);
        match turn.next {
            Next::Done { answer } => {
                self.trim();
                Outcome {
                    shown: turn.shown,
                    stored: Some(
                        Stored { role: "assistant", content: answer, tool_calls: None },
                    ),
                    step: Step::Read,
                }
            },
            Next::Call { calls } => Outcome {
                shown: turn.shown,
                stored: None,
                step: Step::Call(calls),
            },
        }
    }

    /// Takes in that the model could not be asked. The turn is over.
    pub fn on_failure(&mut self, error: &str) -> (r: Outcome)
        ensures
            r@ == (OutcomeView {
                shown: seq!["Error: "@ + error@],
                stored: None,
                step: StepView::Read,
            }),
            final(self)@ == conversation::recent(old(self)@),
    {
        self.trim();
        let mut shown: Vec<String> = Vec::new();
        shown.push(text::concat("Error: ", error));
        assert(text::views(shown@) =~= seq!["Error: "@ + error@]);
        Outcome { shown, stored: None, step: Step::Read }
    }

    /// Takes in what tools gave. The names of the tools are stored, and the model is asked
    /// again.
    pub fn on_results(&mut self, calls: &Vec<ToolCall>, results: &Vec<ContentBlock>) -> (r: Outcome)
        ensures
            r@ == (OutcomeView {
                shown: Seq::empty(),
                stored: Some(
                    StoredView {
                        role: "assistant"@,
                        content: Seq::empty(),
                        tool_calls: Some(
                            match json::json_array(
                                conversation::call_names(conversation::call_views(calls@)),
                            ) {
                                Some(names) => names,
                                None => Seq::empty(),
                            },
                        ),
                    },
                ),
                step: StepView::Ask,
            }),
            final(self)@ == with_results(old(self)@, llm::block_views(results@)),
    {
        self.take_results(results);
        let names = conversation::log_calls(calls);
        let shown: Vec<String> = Vec::new();
        assert(text::views(shown@) =~= Seq::empty());
        Outcome {
            shown,
            stored: Some(
                Stored { role: "assistant", content: String::new(), tool_calls: Some(names) },
            ),
            step: Step::Ask,
        }
    }
}

/// What is shown before a tool is called.
pub fn calling_line(name: &str) -> (r: String)
    ensures
        r@ == "  [calling "@ + name@ + "...]"@,
{
    let mut r = text::concat("  [calling ", name);
    r.append("...]");
    r
}

// ---- what holds of every chat ----------------------------------------------

/// The conversation after answers that call tools, each followed by what the tools gave.
pub open spec fn with_exchanges(
    messages: Seq<MessageView>,
    exchanges: Seq<(Seq<ContentBlockView>, Seq<ContentBlockView>)>,
) -> Seq<MessageView>
    decreases exchanges.len(),
{
    if exchanges.len() == 0 {
        messages
    } else {
        with_results(
            with_answer(
                with_exchanges(messages, exchanges.drop_last()),
                exchanges.last().0,
            ),
            exchanges.last().1,
        )
    }
}

/// Whether an answer calls tools.
pub open spec fn calls_tools(content: Seq<ContentBlockView>) -> bool {
    conversation::calls_in(content).len() > 0
}

/// A turn, from what the user says to the answer that calls no more tools. The model is asked
/// each time with a message of the user's last, nothing that was said before or during the
/// turn is dropped while it goes on, and afterwards at most 40 messages are kept: the last
/// ones of all that was said.
pub proof fn turns_are_bounded_and_lossless(
    messages: Seq<MessageView>,
    said: Seq<char>,
    exchanges: Seq<(Seq<ContentBlockView>, Seq<ContentBlockView>)>,
    answer: Seq<ContentBlockView>,
)
    requires
        forall|i: int| 0 <= i < exchanges.len() ==> calls_tools((#[trigger] exchanges[i]).0),
        !calls_tools(answer),
    ensures
        ({
            let asked = with_exchanges(messages.push(MessageView::user(said)), exchanges);
            let done = with_answer(asked, answer);
            &&& asked.last().role == "user"@
            &&& asked.len() == messages.len() + 1 + 2 * exchanges.len()
            &&& asked.take(messages.len() as int) == messages
            &&& done == conversation::recent(
                asked.push(MessageView { role: "assistant"@, content: answer }),
            )
            &&& done.len() <= conversation::MAX_CONVERSATION_MESSAGES
            &&& done.last() == (MessageView { role: "assistant"@, content: answer })
        }),
    decreases exchanges.len(),
{
    let start = messages.push(MessageView::user(said));
    let asked = with_exchanges(start, exchanges);
    if exchanges.len() == 0 {
        assert(asked.take(messages.len() as int) =~= messages);
    } else {
        let shorter = exchanges.drop_last();
        assert forall|i: int| 0 <= i < shorter.len() implies calls_tools(
            (#[trigger] shorter[i]).0,
        ) by {
            assert(shorter[i] == exchanges[i]);
        }
        turns_are_bounded_and_lossless(messages, said, shorter, answer);
        assert(exchanges.last() == exchanges[exchanges.len() - 1]);
        let before = with_exchanges(start, shorter);
        assert(asked.take(messages.len() as int) =~= before.take(messages.len() as int));
    }
}

} // verus!
