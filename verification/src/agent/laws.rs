//! What holds of every chat, whatever is entered, answered and stored.
use crate::agent::conversation;
use crate::agent::conversation::{Conversation, ConversationRow, ToolCall, ToolCallView};
use crate::agent::llm;
use crate::agent::llm::{ContentBlock, ContentBlockView, Message, MessageView};
use crate::agent::ollama;
use crate::agent::ollama::{
    OllamaClient, OllamaError, OllamaErrorView, OllamaRequest, OllamaResponse,
};
use crate::agent::repl;
use crate::agent::repl::{Outcome, StepView, StoredView};
use crate::agent::session;
use crate::agent::session::{Provider, Schedule, Skill};
use crate::agent::{AgentConfig, AgentErrorView};
use crate::json;
use crate::text;
use vstd::prelude::*;
use vstd::string::*;

verus! {

// ---- answers ---------------------------------------------------------------

proof fn texts_are_selected(
    content: Seq<ContentBlockView>,
    pick: spec_fn(ContentBlockView) -> Option<Seq<char>>,
)
    requires
        forall|b: ContentBlockView| #[trigger]
            pick(b) == match b {
                ContentBlockView::Text { text } => Some(text),
                _ => None,
            },
    ensures
        llm::texts_of(content) == content.filter_map(pick),
    decreases content.len(),
{
    if content.len() > 0 {
        texts_are_selected(content.drop_last(), pick);
        assert(llm::texts_of(content) =~= content.filter_map(pick));
    }
}

proof fn calls_are_selected(
    content: Seq<ContentBlockView>,
    pick: spec_fn(ContentBlockView) -> Option<ToolCallView>,
)
    requires
        forall|b: ContentBlockView| #[trigger]
            pick(b) == match b {
                ContentBlockView::ToolUse { id, name, input } => Some(
                    ToolCallView { id, name, input },
                ),
                _ => None,
            },
    ensures
        conversation::calls_in(content) == content.filter_map(pick),
        conversation::calls_in(content).len() == 0 <==> forall|i: int|
            0 <= i < content.len() ==> !(#[trigger] content[i] is ToolUse),
    decreases content.len(),
{
    if content.len() > 0 {
        let shorter = content.drop_last();
        calls_are_selected(shorter, pick);
        assert(conversation::calls_in(content) =~= content.filter_map(pick));
        assert(content.last() == content[content.len() - 1]);
        assert(forall|i: int| 0 <= i < shorter.len() ==> #[trigger] content[i] == shorter[i]);
        if conversation::calls_in(content).len() == 0 {
            assert forall|i: int| 0 <= i < content.len() implies !(#[trigger] content[i]
                is ToolUse) by {
                if i < shorter.len() {
                    assert(!(shorter[i] is ToolUse));
                }
            }
        } else if !(content.last() is ToolUse) {
            let i = choose|i: int| 0 <= i < shorter.len() && shorter[i] is ToolUse;
            assert(content[i] is ToolUse);
        }
    }
}

proof fn joining_without_separator(parts: Seq<Seq<char>>)
    ensures
        text::joined(parts, Seq::empty()) == parts.flatten(),
    decreases parts.len(),
{
    parts.lemma_flatten_and_flatten_alt_are_equivalent();
    if parts.len() == 1 {
        parts.lemma_flatten_one_element();
    } else if parts.len() > 1 {
        joining_without_separator(parts.drop_last());
        parts.drop_last().lemma_flatten_and_flatten_alt_are_equivalent();
        assert(text::joined(parts, Seq::empty()) =~= parts.flatten_alt());
    }
}

/// Every text of every answer is shown, whether or not the answer calls tools: the lines shown
/// are the texts among its parts, in order, and nothing else.
pub proof fn answers_are_shown(content: Seq<ContentBlockView>)
    ensures
        repl::after_answer(content).shown == content.filter_map(
            |part: ContentBlockView|
                match part {
                    ContentBlockView::Text { text } => Some(text),
                    _ => None,
                },
        ),
{
    let pick = |part: ContentBlockView|
        match part {
            ContentBlockView::Text { text } => Some(text),
            _ => None,
        };
    texts_are_selected(content, pick);
}

/// Exactly the tools that an answer asks for are called, in order, and the turn is over exactly
/// if there are none. What was shown of the last answer of a turn is stored as one text; of an
/// answer that calls tools nothing is stored before they gave their results.
pub proof fn answers_are_acted_on(content: Seq<ContentBlockView>)
    ensures
        ({
            let outcome = repl::after_answer(content);
            let calling = exists|i: int| 0 <= i < content.len() && #[trigger] content[i] is ToolUse;
            &&& calling ==> outcome.stored is None && outcome.step == StepView::Call(
                content.filter_map(
                    |part: ContentBlockView|
                        match part {
                            ContentBlockView::ToolUse { id, name, input } => Some(
                                ToolCallView { id, name, input },
                            ),
                            _ => None,
                        },
                ),
            )
            &&& !calling ==> outcome.step == StepView::Read && outcome.stored == Some(
                StoredView {
                    role: "assistant"@,
                    content: outcome.shown.flatten(),
                    tool_calls: None,
                },
            )
        }),
{
    let pick = |part: ContentBlockView|
        match part {
            ContentBlockView::ToolUse { id, name, input } => Some(ToolCallView { id, name, input }),
            _ => None,
        };
    calls_are_selected(content, pick);
    joining_without_separator(llm::texts_of(content));
}

/// An answer enters the conversation whole, after all that was said before. While tools are
/// called nothing leaves it; when the turn is over the last 40 messages stay.
pub proof fn answers_are_remembered(messages: Seq<MessageView>, content: Seq<ContentBlockView>)
    ensures
        ({
            let longer = messages.push(MessageView { role: "assistant"@, content });
            let calling = exists|i: int| 0 <= i < content.len() && #[trigger] content[i] is ToolUse;
            let after = repl::with_answer(messages, content);
            &&& calling ==> after == longer
            &&& !calling ==> after.is_suffix_of(longer) && after.len() == if longer.len() > 40 {
                40
            } else {
                longer.len()
            }
        }),
{
    let pick = |part: ContentBlockView|
        match part {
            ContentBlockView::ToolUse { id, name, input } => Some(ToolCallView { id, name, input }),
            _ => None,
        };
    calls_are_selected(content, pick);
    kept_messages_are_the_last(messages.push(MessageView { role: "assistant"@, content }));
}

/// At most 40 messages are kept, the last ones, and all of them where there are no more.
pub proof fn kept_messages_are_the_last(messages: Seq<MessageView>)
    ensures
        conversation::recent(messages).is_suffix_of(messages),
        conversation::recent(messages).len() == if messages.len() > 40 {
            40
        } else {
            messages.len()
        },
{
    let kept = conversation::recent(messages);
    assert(kept =~= messages.subrange(messages.len() - kept.len(), messages.len() as int));
}

/// What tools gave is put to the model as one message of the user's: every result that came,
/// in order, after all that was said before.
pub proof fn results_are_fed_back(messages: Seq<MessageView>, results: Seq<ContentBlockView>)
    ensures
        repl::with_results(messages, results) == messages.push(
            MessageView {
                role: "user"@,
                content: results.filter(|part: ContentBlockView| part is ToolResult),
            },
        ),
        (forall|i: int| 0 <= i < results.len() ==> #[trigger] results[i] is ToolResult)
            ==> repl::with_results(messages, results).last().content == results,
{
    let pick = |part: ContentBlockView| part is ToolResult;
    results_are_selected(results, pick);
}

proof fn results_are_selected(
    results: Seq<ContentBlockView>,
    pick: spec_fn(ContentBlockView) -> bool,
)
    requires
        forall|b: ContentBlockView| #[trigger] pick(b) == b is ToolResult,
    ensures
        conversation::results_in(results) == results.filter(pick),
        (forall|i: int| 0 <= i < results.len() ==> #[trigger] results[i] is ToolResult)
            ==> conversation::results_in(results) == results,
    decreases results.len(),
{
    reveal(Seq::filter);
    if results.len() > 0 {
        let shorter = results.drop_last();
        results_are_selected(shorter, pick);
        assert(results =~= shorter.push(results.last()));
        if forall|i: int| 0 <= i < results.len() ==> #[trigger] results[i] is ToolResult {
            assert forall|i: int| 0 <= i < shorter.len() implies #[trigger] shorter[i]
                is ToolResult by {
                assert(shorter[i] == results[i]);
            }
            assert(results[results.len() - 1] is ToolResult);
        }
    }
}

/// The names under which called tools are stored are those of the calls, in order.
pub proof fn called_tools_are_named(calls: Seq<ToolCallView>)
    ensures
        conversation::call_names(calls) == calls.map_values(|call: ToolCallView| call.name),
{
    assert(conversation::call_names(calls) =~= calls.map_values(|call: ToolCallView| call.name));
}

// ---- what the user enters --------------------------------------------------

/// What the user enters counts without the white space around it. An empty line is passed
/// over, `quit` and `exit` end the chat, and everything else is stored, added to the
/// conversation and put to the model, word for word.
pub proof fn entered_lines_are_said(
    messages: Seq<MessageView>,
    bytes_read: int,
    before: Seq<char>,
    said: Seq<char>,
    after: Seq<char>,
)
    requires
        bytes_read != 0,
        forall|i: int| 0 <= i < before.len() ==> text::white_space(#[trigger] before[i]),
        forall|i: int| 0 <= i < after.len() ==> text::white_space(#[trigger] after[i]),
        said.len() > 0 ==> !text::white_space(said[0]) && !text::white_space(said.last()),
    ensures
        ({
            let input = session::entered(bytes_read, before + said + after);
            let outcome = repl::after_input(input);
            let later = repl::with_input(messages, input);
            &&& outcome.shown.len() == 0
            &&& said.len() == 0 ==> outcome.stored is None && outcome.step == StepView::Read
                && later == messages
            &&& said == "quit"@ || said == "exit"@ ==> outcome.stored is None && outcome.step
                == StepView::Stop && later == messages
            &&& said.len() > 0 && said != "quit"@ && said != "exit"@ ==> {
                &&& outcome.stored == Some(
                    StoredView { role: "user"@, content: said, tool_calls: None },
                )
                &&& outcome.step == StepView::Ask
                &&& later == messages.push(
                    MessageView {
                        role: "user"@,
                        content: seq![ContentBlockView::Text { text: said }],
                    },
                )
            }
        }),
{
    reveal_strlit("quit");
    reveal_strlit("exit");
    text::trimming_takes_white_space(before, said, after);
}

/// The end of input ends the chat with an empty line, whatever was read before; nothing is
/// stored or said.
pub proof fn input_ends(messages: Seq<MessageView>, line: Seq<char>)
    ensures
        ({
            let input = session::entered(0, line);
            let outcome = repl::after_input(input);
            &&& outcome.shown == seq![Seq::<char>::empty()]
            &&& outcome.stored is None
            &&& outcome.step == StepView::Stop
            &&& repl::with_input(messages, input) == messages
        }),
{
}

// ---- what was stored -------------------------------------------------------

/// A stored conversation is restored oldest first, each row as the message it was stored from:
/// all that the user said, and what the model said that was more than calls of tools. Rows of
/// others give nothing.
pub proof fn stored_rows_are_restored(rows: Seq<ConversationRow>)
    ensures
        conversation::restored(rows) == rows.reverse().filter_map(
            |row: ConversationRow|
                if row.role@ == "user"@ || (row.role@ == "assistant"@ && row.content@.len() > 0) {
                    Some(
                        MessageView {
                            role: row.role@,
                            content: seq![ContentBlockView::Text { text: row.content@ }],
                        },
                    )
                } else {
                    None
                },
        ),
{
    let pick = |row: ConversationRow|
        if row.role@ == "user"@ || (row.role@ == "assistant"@ && row.content@.len() > 0) {
            Some(
                MessageView {
                    role: row.role@,
                    content: seq![ContentBlockView::Text { text: row.content@ }],
                },
            )
        } else {
            None
        };
    rows_are_selected(rows, pick);
}

proof fn rows_are_selected(
    rows: Seq<ConversationRow>,
    pick: spec_fn(ConversationRow) -> Option<MessageView>,
)
    requires
        forall|row: ConversationRow| #[trigger]
            pick(row) == if row.role@ == "user"@ || (row.role@ == "assistant"@
                && row.content@.len() > 0) {
                Some(
                    MessageView {
                        role: row.role@,
                        content: seq![ContentBlockView::Text { text: row.content@ }],
                    },
                )
            } else {
                None
            },
    ensures
        conversation::restored(rows) == rows.reverse().filter_map(pick),
    decreases rows.len(),
{
    if rows.len() > 0 {
        rows_are_selected(rows.skip(1), pick);
        assert(rows.reverse().drop_last() =~= rows.skip(1).reverse());
        assert(rows.reverse().last() == rows[0]);
        reveal_strlit("user");
        reveal_strlit("assistant");
        assert(conversation::restored(rows) =~= rows.reverse().filter_map(pick));
    }
}

/// The text of a message is what its parts say, one after the other, without what it asks of
/// tools or what they gave.
pub proof fn message_texts_are_complete(message: MessageView)
    ensures
        message.text() == message.content.filter_map(
            |part: ContentBlockView|
                match part {
                    ContentBlockView::Text { text } => Some(text),
                    _ => None,
                },
        ).flatten(),
{
    let pick = |part: ContentBlockView|
        match part {
            ContentBlockView::Text { text } => Some(text),
            _ => None,
        };
    texts_are_selected(message.content, pick);
    joining_without_separator(llm::texts_of(message.content));
}

// ---- how a session is set up -----------------------------------------------

/// A session is a client of one router and looks for no other: the router that the caller
/// names, else the one that the environment names, else the one on this machine.
pub proof fn sessions_have_one_router(asked: Option<Seq<char>>, env: Option<Seq<char>>)
    ensures
        ({
            let router = if asked is Some {
                asked->0
            } else if env is Some {
                env->0
            } else {
                "tcp/127.0.0.1:7447"@
            };
            let settings = session::settings_of(session::endpoint_of(asked, env));
            &&& settings.contains(("mode"@, "\"client\""@))
            &&& settings.contains(("connect/endpoints"@, "[\""@ + router + "\"]"@))
            &&& settings.contains(("scouting/multicast/enabled"@, "false"@))
            &&& settings.contains(("scouting/gossip/enabled"@, "false"@))
            &&& settings.len() == 4
        }),
{
    let settings = session::settings_of(session::endpoint_of(asked, env));
    assert(settings[0] == ("mode"@, "\"client\""@));
    assert(settings.contains(settings[0]));
    assert(settings.contains(settings[1]));
    assert(settings.contains(settings[2]));
    assert(settings.contains(settings[3]));
}

/// A model that is asked for is used, whoever provides it. Otherwise each provider has a model
/// of its own, and names other than those of the two providers are refused by name.
pub proof fn models_and_providers_are_as_asked(
    model: Option<Seq<char>>,
    provider: Provider,
    name: Seq<char>,
    hosted_name: Seq<char>,
    hosted_model: Seq<char>,
)
    ensures
        ({
            let used = session::model_of(model, provider, hosted_model);
            &&& model is Some ==> used == model->0
            &&& model is None && provider == Provider::Ollama ==> used == "llama3.2"@
            &&& model is None && provider == Provider::Hosted ==> used == hosted_model
        }),
        ({
            let chosen = session::provider_of(Some(name), hosted_name);
            &&& name == "ollama"@ <==> chosen == Ok::<_, AgentErrorView>(Provider::Ollama)
            &&& name == hosted_name && name != "ollama"@ <==> chosen == Ok::<_, AgentErrorView>(
                Provider::Hosted,
            )
            &&& chosen matches Err(e) ==> e == AgentErrorView::InvalidProvider(name)
        }),
        session::provider_of(None, hosted_name) == Ok::<_, AgentErrorView>(Provider::Hosted),
{
}

/// The inbox of a session is named by its parts: the deployment, then the session.
pub proof fn inboxes_name_their_session(scope: Seq<char>, name: Seq<char>)
    requires
        !scope.contains('/'),
        !name.contains('/'),
    ensures
        text::split_at(session::inbox_of(scope, name), '/') == seq![
            "bubbaloop"@,
            scope,
            "agent"@,
            name,
            "inbox"@,
        ],
{
    reveal_strlit("bubbaloop/");
    reveal_strlit("/agent/");
    reveal_strlit("/inbox");
    reveal_strlit("bubbaloop");
    reveal_strlit("agent");
    reveal_strlit("inbox");
    let rest3 = name.push('/') + "inbox"@;
    let rest2 = "agent"@.push('/') + rest3;
    let rest1 = scope.push('/') + rest2;
    assert(session::inbox_of(scope, name) =~= "bubbaloop"@.push('/') + rest1);
    text::separators_part_texts("bubbaloop"@, '/', rest1);
    text::separators_part_texts(scope, '/', rest2);
    text::separators_part_texts("agent"@, '/', rest3);
    text::separators_part_texts(name, '/', "inbox"@);
    text::separators_part_texts("inbox"@, '/', Seq::empty());
    assert(text::split_at(session::inbox_of(scope, name), '/') =~= seq![
        "bubbaloop"@,
        scope,
        "agent"@,
        name,
        "inbox"@,
    ]);
}

/// Nothing that is sent to an inbox is lost: a message that says what it is about is read as
/// that, any other as it stands. Who sent it is who it says; one in JSON that does not say is
/// from `unknown`, and one that is not JSON from `unknown-agent`.
pub proof fn inbox_messages_are_read(
    payload: Seq<char>,
    sender: Option<Seq<char>>,
    message: Option<Seq<char>>,
)
    ensures
        ({
            let (from, said) = session::inbox_message(payload, Some((sender, message)));
            &&& message is Some ==> said == message->0
            &&& message is None ==> said == payload
            &&& sender is Some ==> from == sender->0
            &&& sender is None ==> from == "unknown"@
        }),
        session::inbox_message(payload, None) == ("unknown-agent"@, payload),
{
}

/// A skill's schedule runs what the skill does when the skill says, under the skill's name; it
/// has not run yet and was made by the skill. Without actions that could be written it does
/// nothing.
pub proof fn schedules_are_those_of_skills(
    name: Seq<char>,
    cron: Seq<char>,
    actions: Option<Seq<char>>,
    id: Seq<char>,
)
    ensures
        ({
            let schedule = session::schedule_of(name, cron, actions, id);
            &&& schedule.id == id
            &&& schedule.name == name
            &&& schedule.cron == cron
            &&& actions is Some ==> schedule.actions == actions->0
            &&& actions is None ==> schedule.actions == "[]"@
            &&& schedule.tier == 1
            &&& schedule.last_run is None
            &&& schedule.next_run is None
            &&& schedule.created_by == "skill"@
        }),
{
}

/// The user is greeted with the version, the model, the name and the inbox of the session, and
/// how many tools and nodes there are, each once and in this order, between empty lines.
pub proof fn greetings_tell_the_session(
    version: Seq<char>,
    model: Seq<char>,
    name: Seq<char>,
    inbox: Seq<char>,
    tools: int,
    nodes: Seq<char>,
)
    ensures
        ({
            let lines = session::greeting_of(version, model, name, inbox, tools, nodes);
            &&& lines.len() == 7
            &&& lines[0].len() == 0
            &&& lines[1] == "  Bubbaloop Agent v"@ + version
            &&& lines[2] == "  Model: "@ + model
            &&& lines[3] == "  Name: "@ + name + " | Inbox: "@ + inbox
            &&& lines[4] == "  Tools: "@ + text::decimal(tools) + " | Nodes: "@ + nodes
            &&& lines[5].len() == 0
            &&& lines[6] == "  Type a message to chat, 'quit' to exit."@
        }),
{
}

/// The number of nodes is the first word of the first line of an inventory, whatever follows;
/// there are none in one that says so or that begins with an empty line.
pub proof fn nodes_are_counted(count: Seq<char>, line: Seq<char>, rest: Seq<char>)
    requires
        count.len() > 0,
        forall|i: int| 0 <= i < count.len() ==> !text::white_space(#[trigger] count[i]),
        !line.contains('\n'),
        line.len() == 0 || line.last() != '\r',
    ensures
        ({
            let first = count.push(' ') + line;
            let inventory = first.push('\n') + rest;
            &&& !"No nodes"@.is_prefix_of(first) ==> session::count_in(first) == count
            &&& !"No nodes"@.is_prefix_of(inventory) ==> session::count_in(inventory) == count
        }),
        session::count_in("No nodes"@ + rest) == "0"@,
        session::count_in(seq!['\n'] + rest) == "0"@,
        session::count_in(Seq::empty()) == "0"@,
{
    reveal_strlit("No nodes");
    let first = count.push(' ') + line;
    assert forall|i: int| 0 <= i < first.len() implies first[i] != '\n' by {
        if i < count.len() {
            assert(first[i] == count[i]);
        } else if i > count.len() {
            assert(first[i] == line[i - count.len() - 1]);
        }
    }
    assert(first.last() != '\r') by {
        if line.len() > 0 {
            assert(first.last() == line.last());
        } else {
            assert(first.last() == ' ');
        }
    }
    text::newlines_end_lines(first, rest);
    text::white_space_parts_words(count, ' ', line);
    assert(text::words_of(first)[0] == count);
    assert((seq![first] + text::lines_of(rest))[0] == first);
    assert("No nodes"@ =~= ("No nodes"@ + rest).take("No nodes"@.len() as int));
    let none = Seq::<char>::empty();
    text::newlines_end_lines(none, rest);
    assert(seq!['\n'] + rest =~= none.push('\n') + rest);
    text::white_space_parts_words(none, ' ', none);
    assert((seq![none] + text::lines_of(rest))[0] == none);
}

// ---- models on a server ----------------------------------------------------

/// A server is told what the model is told beforehand, if there is such a thing, and then every
/// message of the chat, in order, each with its role and all of its text.
pub proof fn servers_are_told_the_chat(system: Option<Seq<char>>, messages: Seq<MessageView>)
    ensures
        ({
            let told = ollama::chat_of(system, messages);
            let start = if system is Some {
                1int
            } else {
                0int
            };
            &&& told.len() == start + messages.len()
            &&& system is Some ==> told[0] == ("system"@, system->0)
            &&& forall|i: int|
                0 <= i < messages.len() ==> (#[trigger] told[start + i]).0 == messages[i].role
                    && told[start + i].1 == messages[i].text()
        }),
{
}

/// What a server answers is one text, for which it took as many tokens as it says; what it does
/// not say counts as none.
pub proof fn servers_answer_in_one_text(id: Seq<char>, resp: OllamaResponse)
    ensures
        ({
            let answer = ollama::answer_of(id, resp);
            &&& answer.id == id
            &&& answer.content == seq![ContentBlockView::Text { text: resp.message.content@ }]
            &&& answer.stop_reason == Some("end_turn"@)
            &&& answer.usage.input_tokens == if resp.prompt_eval_count is Some {
                resp.prompt_eval_count->0
            } else {
                0
            }
            &&& answer.usage.output_tokens == if resp.eval_count is Some {
                resp.eval_count->0
            } else {
                0
            }
        }),
{
}

/// A turn with a server is one round: its answer is shown as it stands, and the user is asked
/// again.
pub proof fn server_answers_are_shown(id: Seq<char>, resp: OllamaResponse)
    ensures
        ({
            let outcome = repl::after_answer(ollama::answer_of(id, resp).content);
            &&& outcome.shown == seq![resp.message.content@]
            &&& outcome.step == StepView::Read
        }),
{
    let content = ollama::answer_of(id, resp).content;
    assert(content.drop_last() =~= Seq::empty());
    assert(llm::texts_of(content.drop_last()) =~= Seq::empty());
    assert(llm::texts_of(content) =~= seq![resp.message.content@]);
    assert(conversation::calls_in(content.drop_last()) =~= Seq::empty());
    assert(conversation::calls_in(content) =~= Seq::empty());
}

// ---- errors ----------------------------------------------------------------

/// What went wrong in a session is told in words of its own kind, followed by the words in
/// which it was reported.
pub proof fn session_errors_are_told(label: Seq<char>, words: Seq<char>, status: u16)
    ensures
        (AgentErrorView::Hosted { label, message: words }).text() == label + " API error: "@ + words,
        AgentErrorView::Memory(words).text() == "Memory error: "@ + words,
        AgentErrorView::Zenoh(words).text() == "Zenoh connection failed: "@ + words,
        AgentErrorView::Io(words).text() == "IO error: "@ + words,
        AgentErrorView::InvalidProvider(words).text() == "Unknown provider: "@ + words,
        AgentErrorView::Ollama(OllamaErrorView::Http(words)).text()
            == "Ollama API error: "@ + ("HTTP error: "@ + words),
        AgentErrorView::Ollama((OllamaErrorView::Api { status, message: words })).text()
            == "Ollama API error: "@ + ("API error (status "@ + text::decimal(status as int)
            + "): "@ + words),
{
}

// ---- what is handed back ---------------------------------------------------

/// A message in JSON is read by its members: who sent it and what it says. One that is not JSON
/// has none.
pub proof fn inbox_messages_are_read_by_members(payload: Seq<char>)
    ensures
        ({
            let sender = json::json_text_member(payload, "sender"@);
            let message = json::json_text_member(payload, "message"@);
            let (from, said) = session::inbox_message(payload, session::fields_in(payload));
            &&& json::json_value(payload) ==> from == if sender is Some {
                sender->0
            } else {
                "unknown"@
            }
            &&& json::json_value(payload) ==> said == if message is Some {
                message->0
            } else {
                payload
            }
            &&& !json::json_value(payload) ==> from == "unknown-agent"@ && said == payload
        }),
{
}

/// A session goes by the name that the caller gives it, else by the one that the environment
/// gives, else by `default`; its deployment is the one that the environment names, else
/// `local`.
pub proof fn sessions_go_by_their_names(
    config: &AgentConfig,
    env: Option<String>,
    name: String,
    scope: String,
)
    requires
        call_ensures(session::agent_name, (config, env), name),
        call_ensures(session::scope_name, (env,), scope),
    ensures
        config.name is Some ==> name@ == config.name->0@,
        config.name is None && env is Some ==> name@ == env->0@,
        config.name is None && env is None ==> name@ == "default"@,
        env is Some ==> scope@ == env->0@,
        env is None ==> scope@ == "local"@,
{
}

/// A server granted a request exactly if it gave a status of success; otherwise the status and
/// what it said are told.
pub proof fn servers_grant_or_refuse(
    status: u16,
    body: Option<String>,
    granted: Result<(), OllamaError>,
)
    requires
        call_ensures(ollama::check_status, (status, body), granted),
    ensures
        granted is Ok <==> 200 <= status <= 299,
        granted matches Err(e) ==> e@ is Api && e@->status == status,
        granted is Err && body is Some ==> granted->Err_0@->message == body->0@,
        granted is Err && body is None ==> granted->Err_0@->message == "unknown error"@,
{
}

/// A server is asked for the model by name, at its address without slashes at the end, and for
/// an answer in one piece. Without a name or an address the usual ones are used.
pub proof fn servers_are_asked_at_their_address(
    model: Option<&str>,
    host: Option<String>,
    made: Result<OllamaClient, OllamaError>,
    system: Option<&str>,
    messages: &Vec<Message>,
    request: OllamaRequest,
)
    requires
        call_ensures(OllamaClient::from_env, (model, host), made),
        call_ensures(OllamaClient::request, (&made->Ok_0, system, messages), request),
    ensures
        made is Ok,
        model is Some ==> request@.model == model->0@,
        model is None ==> request@.model == "llama3.2"@,
        host is None ==> request@.url == text::trim_end_char_of("http://localhost:11434"@, '/')
            + "/api/chat"@,
        host is Some ==> request@.url == text::trim_end_char_of(host->0@, '/') + "/api/chat"@,
        !request@.stream,
        request@.messages == ollama::chat_of(
            text::opt_str_view(system),
            llm::message_views(messages@),
        ),
{
}

/// Before a tool is called its name is shown.
pub proof fn calls_are_announced(name: &str, line: String)
    requires
        call_ensures(repl::calling_line, (name,), line),
    ensures
        line@ == "  [calling "@ + name@ + "...]"@,
{
}

// ---- a turn, step by step --------------------------------------------------

/// Whatever the model answers, every text of the answer is shown, in order; the answer is added
/// whole to the conversation, and tools are called exactly if it asks for some.
pub proof fn taking_in_an_answer_shows_it(content: Vec<ContentBlock>)
    ensures
        forall|chat: &mut Conversation, outcome: Outcome| #[trigger]
            call_ensures(Conversation::on_answer, (chat, content), outcome) ==> {
                let parts = llm::block_views(content@);
                let calling = exists|i: int| 0 <= i < parts.len() && #[trigger] parts[i] is ToolUse;
                &&& outcome@.shown == parts.filter_map(
                    |part: ContentBlockView|
                        match part {
                            ContentBlockView::Text { text } => Some(text),
                            _ => None,
                        },
                )
                &&& outcome@.step is Call <==> calling
                &&& outcome@.step is Read <==> !calling
                &&& outcome@.stored is Some <==> !calling
                &&& (*final(chat))@.last() == (MessageView { role: "assistant"@, content: parts })
                &&& (*final(chat))@.is_suffix_of(
                    (*chat)@.push(MessageView { role: "assistant"@, content: parts }),
                )
            },
{
    let parts = llm::block_views(content@);
    answers_are_shown(parts);
    answers_are_acted_on(parts);
    assert forall|chat: &mut Conversation, outcome: Outcome| #[trigger]
        call_ensures(Conversation::on_answer, (chat, content), outcome) implies ({
        &&& (*final(chat))@.last() == (MessageView { role: "assistant"@, content: parts })
        &&& (*final(chat))@.is_suffix_of(
            (*chat)@.push(MessageView { role: "assistant"@, content: parts }),
        )
    }) by {
        let longer = (*chat)@.push(MessageView { role: "assistant"@, content: parts });
        answers_are_remembered((*chat)@, parts);
        assert(longer =~= longer.subrange(0, longer.len() as int));
    }
}

/// When the model could not be asked, that is told in its words, nothing is stored and the user
/// is asked again; of the conversation the last 40 messages stay.
pub proof fn failures_end_the_turn(error: &str)
    ensures
        forall|chat: &mut Conversation, outcome: Outcome| #[trigger]
            call_ensures(Conversation::on_failure, (chat, error), outcome) ==> {
                &&& outcome@.shown == seq!["Error: "@ + error@]
                &&& outcome@.stored is None
                &&& outcome@.step == StepView::Read
                &&& (*final(chat))@.is_suffix_of((*chat)@)
                &&& (*final(chat))@.len() == if (*chat)@.len() > 40 {
                    40
                } else {
                    (*chat)@.len()
                }
            },
{
    assert forall|chat: &mut Conversation, outcome: Outcome| #[trigger]
        call_ensures(Conversation::on_failure, (chat, error), outcome) implies ({
        &&& (*final(chat))@.is_suffix_of((*chat)@)
        &&& (*final(chat))@.len() == if (*chat)@.len() > 40 {
            40
        } else {
            (*chat)@.len()
        }
    }) by {
        kept_messages_are_the_last((*chat)@);
    }
}

/// When tools have given their results, the model is asked again with all of them, nothing is
/// shown, and the names of the tools are stored without any text.
pub proof fn results_are_put_to_the_model(calls: &Vec<ToolCall>, results: &Vec<ContentBlock>)
    ensures
        forall|chat: &mut Conversation, outcome: Outcome| #[trigger]
            call_ensures(Conversation::on_results, (chat, calls, results), outcome) ==> {
                let names = json::json_array(
                    conversation::call_views(calls@).map_values(|call: ToolCallView| call.name),
                );
                &&& outcome@.shown.len() == 0
                &&& outcome@.step == StepView::Ask
                &&& outcome@.stored is Some
                &&& outcome@.stored->0.role == "assistant"@
                &&& outcome@.stored->0.content.len() == 0
                &&& outcome@.stored->0.tool_calls == Some(
                    if names is Some {
                        names->0
                    } else {
                        Seq::empty()
                    },
                )
                &&& (*final(chat))@ == (*chat)@.push(
                    MessageView {
                        role: "user"@,
                        content: llm::block_views(results@).filter(
                            |part: ContentBlockView| part is ToolResult,
                        ),
                    },
                )
            },
{
    called_tools_are_named(conversation::call_views(calls@));
    assert forall|chat: &mut Conversation, outcome: Outcome| #[trigger]
        call_ensures(Conversation::on_results, (chat, calls, results), outcome) implies (
    *final(chat))@ == (*chat)@.push(
        MessageView {
            role: "user"@,
            content: llm::block_views(results@).filter(
                |part: ContentBlockView| part is ToolResult,
            ),
        },
    ) by {
        results_are_fed_back((*chat)@, llm::block_views(results@));
    }
}

/// A skill has a schedule exactly if it says when it is to run and has something to do.
pub proof fn skills_with_work_are_scheduled(
    skill: &Skill,
    actions: Option<String>,
    schedule: Option<Schedule>,
)
    requires
        call_ensures(session::skill_schedule, (skill, actions), schedule),
    ensures
        schedule is Some <==> skill.schedule is Some && skill.actions > 0,
        schedule matches Some(made) ==> made@.name == skill.name@ && made@.cron
            == skill.schedule->0@,
{
}

} // verus!
