//! How a chat session is set up, and what it reads.
use crate::agent::ollama;
use crate::agent::{AgentConfig, AgentError, AgentErrorView};
use crate::ids;
use crate::json;
use crate::text;
use crate::validation;
use vstd::prelude::*;
use vstd::string::*;

verus! {

/// Where the bus is found if nothing else is said.
pub const DEFAULT_ZENOH_ENDPOINT: &'static str = "tcp/127.0.0.1:7447";

// ---- the bus ---------------------------------------------------------------

/// Where the bus is found: where the caller says, else where the environment says, else on
/// this machine.
pub open spec fn endpoint_of(asked: Option<Seq<char>>, env: Option<Seq<char>>) -> Seq<char> {
    match (asked, env) {
        (Some(endpoint), _) => endpoint,
        (None, Some(endpoint)) => endpoint,
        (None, None) => DEFAULT_ZENOH_ENDPOINT@,
    }
}

/// The settings of a session on the bus, each a key and a value in JSON5. The session is a
/// client of the one router at the endpoint and looks for no other.
pub open spec fn settings_of(endpoint: Seq<char>) -> Seq<(Seq<char>, Seq<char>)> {
    seq![
        ("mode"@, "\"client\""@),
        ("connect/endpoints"@, "[\""@ + endpoint + "\"]"@),
        ("scouting/multicast/enabled"@, "false"@),
        ("scouting/gossip/enabled"@, "false"@),
    ]
}

/// The contents of a list of settings.
pub open spec fn setting_views(v: Seq<(&'static str, String)>) -> Seq<(Seq<char>, Seq<char>)> {
    Seq::new(v.len(), |i: int| (v[i].0@, v[i].1@))
}

/// The settings of a session on the bus, each a key and a value in JSON5.
pub fn session_settings(endpoint: Option<&str>, env_endpoint: Option<&str>) -> (r: Vec<
    (&'static str, String),
>)
    ensures
        setting_views(r@) == settings_of(
            endpoint_of(text::opt_str_view(endpoint), text::opt_str_view(env_endpoint)),
        ),
{
    let chosen = match endpoint {
        Some(e) => e,
        None => match env_endpoint {
            Some(e) => e,
            None => DEFAULT_ZENOH_ENDPOINT,
        },
    };
    let mut endpoints = text::concat("[\"", chosen);
    endpoints.append("\"]");
    let mut r: Vec<(&'static str, String)> = Vec::new();
    r.push(("mode", "\"client\"".to_owned()));
    r.push(("connect/endpoints", endpoints));
    r.push(("scouting/multicast/enabled", "false".to_owned()));
    r.push(("scouting/gossip/enabled", "false".to_owned()));
    assert(setting_views(r@) =~= settings_of(chosen@));
    r
}

// ---- the model -------------------------------------------------------------

/// Who provides the model.
#[derive(Debug, Clone, Copy, PartialEq, Eq, Structural)]
pub enum Provider {
    /// Whoever hosts the model.
    Hosted,
    /// An Ollama server.
    Ollama,
}

/// A provider that hosts its model elsewhere.
#[derive(Debug)]
pub struct HostedProvider {
    /// What the provider is called.
    pub label: String,
    /// Name by which it is asked for.
    pub name: String,
    /// The model that is used where none is asked for.
    pub default_model: String,
}

/// The provider of a name, where `hosted` is the name of the one that hosts its model. Without
/// a name it is that one.
pub open spec fn provider_of(name: Option<Seq<char>>, hosted: Seq<char>) -> Result<
    Provider,
    AgentErrorView,
> {
    match name {
        None => Ok(Provider::Hosted),
        Some(n) => if n == "ollama"@ {
            Ok(Provider::Ollama)
        } else if n == hosted {
            Ok(Provider::Hosted)
        } else {
            Err(AgentErrorView::InvalidProvider(n))
        },
    }
}

/// The provider of a name.
pub fn select_provider(name: Option<&str>, hosted: &HostedProvider) -> (r: Result<
    Provider,
    AgentError,
>)
    ensures
        match r {
            Ok(provider) => provider_of(text::opt_str_view(name), hosted.name@) == Ok::<
                _,
                AgentErrorView,
            >(provider),
            Err(e) => provider_of(text::opt_str_view(name), hosted.name@) == Err::<Provider, _>(
                e@,
            ),
        },
{
    match name {
        None => Ok(Provider::Hosted),
        Some(n) => if n.eq("ollama") {
            Ok(Provider::Ollama)
        } else if n.eq(hosted.name.as_str()) {
            Ok(Provider::Hosted)
        } else {
            Err(AgentError::InvalidProvider(n.to_owned()))
        },
    }
}

/// Asking for the hosted provider by its name is the same as asking for none, and every other
/// name but that of Ollama is refused.
pub proof fn hosted_provider_is_the_default(name: Seq<char>, hosted: Seq<char>)
    requires
        hosted != "ollama"@,
    ensures
        provider_of(Some(hosted), hosted) == provider_of(None, hosted),
        provider_of(None, hosted) == Ok::<_, AgentErrorView>(Provider::Hosted),
        provider_of(Some(name), hosted) is Ok <==> name == hosted || name == "ollama"@,
{
}

/// The model that a session uses: the one asked for, else the usual one of the provider.
pub open spec fn model_of(model: Option<Seq<char>>, provider: Provider, hosted: Seq<char>) -> Seq<
    char,
> {
    match model {
        Some(m) => m,
        None => match provider {
            Provider::Ollama => ollama::DEFAULT_MODEL@,
            Provider::Hosted => hosted,
        },
    }
}

/// The model that a session uses.
pub fn model_name(model: Option<&str>, provider: Provider, hosted: &HostedProvider) -> (r: String)
    ensures
        r@ == model_of(text::opt_str_view(model), provider, hosted.default_model@),
{
    match model {
        Some(m) => m.to_owned(),
        None => match provider {
            Provider::Ollama => ollama::DEFAULT_MODEL.to_owned(),
            Provider::Hosted => hosted.default_model.clone(),
        },
    }
}

/// What the failure of a hosted model is told as.
pub fn hosted_error(hosted: &HostedProvider, message: String) -> (r: AgentError)
    ensures
        r@ == (AgentErrorView::Hosted { label: hosted.label@, message: message@ }),
{
    AgentError::Hosted { label: hosted.label.clone(), message }
}

// ---- names on the bus ------------------------------------------------------

/// The deployment that the session belongs to, given what the environment says.
pub fn scope_name(env: Option<String>) -> (r: String)
    ensures
        r@ == (match env {
            Some(s) => s@,
            None => "local"@,
        }),
{
    match env {
        Some(s) => s,
        None => "local".to_owned(),
    }
}

/// The name of the session: what the caller says, else what the environment says, else
/// `default`.
pub fn agent_name(config: &AgentConfig, env: Option<String>) -> (r: String)
    ensures
        r@ == (match (config.name, env) {
            (Some(name), _) => name@,
            (None, Some(name)) => name@,
            (None, None) => "default"@,
        }),
{
    match &config.name {
        Some(name) => name.clone(),
        None => match env {
            Some(name) => name,
            None => "default".to_owned(),
        },
    }
}

/// The topic on which others send messages to a session.
pub open spec fn inbox_of(scope: Seq<char>, name: Seq<char>) -> Seq<char> {
    "bubbaloop/"@ + scope + "/agent/"@ + name + "/inbox"@
}

/// The topic on which others send messages to a session.
pub fn inbox_topic(scope: &str, name: &str) -> (r: String)
    ensures
        r@ == inbox_of(scope@, name@),
{
    let mut r = text::concat("bubbaloop/", scope);
    r.append("/agent/");
    r.append(name);
    r.append("/inbox");
    r
}

/// Messages can be published to the inbox of every session whose scope and name are accepted
/// names.
pub proof fn inboxes_can_be_published_to(scope: Seq<char>, name: Seq<char>)
    requires
        validation::valid_name(scope),
        validation::valid_name(name),
    ensures
        validation::topic_fault(inbox_of(scope, name)) is None,
{
    reveal_strlit("bubbaloop/");
    reveal_strlit("/agent/");
    reveal_strlit("/inbox");
    let kind = |c: char| validation::name_char(c);
    let topic = inbox_of(scope, name);
    let a = 10 + scope.len();
    let b = a + 7;
    let c = b + name.len();
    assert forall|i: int| 0 <= i < topic.len() implies validation::topic_char(#[trigger] topic[i])
        && topic[i] != '*' by {
        if i < 10 {
            assert(topic[i] == "bubbaloop/"@[i]);
        } else if i < a {
            assert(topic[i] == scope[i - 10]);
            assert(kind(scope[i - 10]));
        } else if i < b {
            assert(topic[i] == "/agent/"@[i - a]);
        } else if i < c {
            assert(topic[i] == name[i - b]);
            assert(kind(name[i - b]));
        } else {
            assert(topic[i] == "/inbox"@[i - c]);
        }
    }
    assert("bubbaloop/"@ =~= topic.take(10));
}

/// Who sent a message and what it says. `fields` holds the sender and the message that a JSON
/// message names, each if it is a string; it is none if the message is not JSON.
pub open spec fn inbox_message(
    payload: Seq<char>,
    fields: Option<(Option<Seq<char>>, Option<Seq<char>>)>,
) -> (Seq<char>, Seq<char>) {
    match fields {
        Some((sender, message)) => (
            match sender {
                Some(s) => s,
                None => "unknown"@,
            },
            match message {
                Some(m) => m,
                None => payload,
            },
        ),
        None => ("unknown-agent"@, payload),
    }
}

/// The contents of the fields of a message.
pub open spec fn field_views(fields: Option<(Option<String>, Option<String>)>) -> Option<
    (Option<Seq<char>>, Option<Seq<char>>),
> {
    match fields {
        Some((sender, message)) => Some((text::opt_view(sender), text::opt_view(message))),
        None => None,
    }
}

/// Who sent a message and what it says.
pub fn decode_inbox(payload: String, fields: Option<(Option<String>, Option<String>)>) -> (r: (
    String,
    String,
))
    ensures
        (r.0@, r.1@) == inbox_message(payload@, field_views(fields)),
{
    match fields {
        Some((sender, message)) => (
            match sender {
                Some(s) => s,
                None => "unknown".to_owned(),
            },
            match message {
                Some(m) => m,
                None => payload,
            },
        ),
        None => ("unknown-agent".to_owned(), payload),
    }
}

/// The fields of a message that came as bytes.
pub open spec fn fields_in(payload: Seq<char>) -> Option<(Option<Seq<char>>, Option<Seq<char>>)> {
    if json::json_value(payload) {
        Some(
            (
                json::json_text_member(payload, "sender"@),
                json::json_text_member(payload, "message"@),
            ),
        )
    } else {
        None
    }
}

/// Who sent a message that came as bytes, and what it says.
pub fn read_inbox(bytes: &[u8]) -> (r: (String, String))
    ensures
        (r.0@, r.1@) == inbox_message(text::lossy(bytes@), fields_in(text::lossy(bytes@))),
{
    let payload = text::utf8_lossy(bytes);
    let fields = if json::is_json(payload.as_str()) {
        Some(
            (
                json::text_member(payload.as_str(), "sender"),
                json::text_member(payload.as_str(), "message"),
            ),
        )
    } else {
        None
    };
    decode_inbox(payload, fields)
}

// ---- schedules -------------------------------------------------------------

/// What is known of a skill.
#[derive(Debug)]
pub struct Skill {
    /// Its name.
    pub name: String,
    /// When it is to run, if it is to run by itself.
    pub schedule: Option<String>,
    /// How many actions it has.
    pub actions: usize,
}

/// A schedule to store.
#[derive(Debug)]
pub struct Schedule {
    /// Name of the schedule.
    pub id: String,
    /// What it is shown as.
    pub name: String,
    /// When it runs.
    pub cron: String,
    /// What it does, as JSON.
    pub actions: String,
    /// How much of the model it takes.
    pub tier: i32,
    /// When it ran last.
    pub last_run: Option<String>,
    /// When it runs next.
    pub next_run: Option<String>,
    /// Who made it.
    pub created_by: String,
}

/// The contents of a [`Schedule`].
pub struct ScheduleView {
    pub id: Seq<char>,
    pub name: Seq<char>,
    pub cron: Seq<char>,
    pub actions: Seq<char>,
    pub tier: i32,
    pub last_run: Option<Seq<char>>,
    pub next_run: Option<Seq<char>>,
    pub created_by: Seq<char>,
}

impl View for Schedule {
    type V = ScheduleView;

    open spec fn view(&self) -> ScheduleView {
        ScheduleView {
            id: self.id@,
            name: self.name@,
            cron: self.cron@,
            actions: self.actions@,
            tier: self.tier,
            last_run: text::opt_view(self.last_run),
            next_run: text::opt_view(self.next_run),
            created_by: self.created_by@,
        }
    }
}

/// The schedule of a skill, under a name. `actions` is what the skill does, as JSON, if that
/// could be written.
pub open spec fn schedule_of(
    name: Seq<char>,
    cron: Seq<char>,
    actions: Option<Seq<char>>,
    id: Seq<char>,
) -> ScheduleView {
    ScheduleView {
        id,
        name,
        cron,
        actions: match actions {
            Some(a) => a,
            None => "[]"@,
        },
        tier: 1,
        last_run: None,
        next_run: None,
        created_by: "skill"@,
    }
}

/// The schedule of a skill. Only a skill that says when it is to run, and has something to do,
/// has one.
pub fn skill_schedule(skill: &Skill, actions_json: Option<String>) -> (r: Option<Schedule>)
    ensures
        r is Some <==> skill.schedule is Some && skill.actions > 0,
        r matches Some(schedule) ==> ids::random_uuid(schedule@.id) && schedule@ == schedule_of(
            skill.name@,
            skill.schedule->0@,
            text::opt_view(actions_json),
            schedule@.id,
        ),
{
    match &skill.schedule {
        Some(cron) if skill.actions > 0 => Some(
            Schedule {
                id: ids::new_uuid(),
                name: skill.name.clone(),
                cron: cron.clone(),
                actions: match actions_json {
                    Some(a) => a,
                    None => "[]".to_owned(),
                },
                tier: 1,
                last_run: None,
                next_run: None,
                created_by: "skill".to_owned(),
            },
        ),
        _ => None,
    }
}

// ---- what is shown and read ------------------------------------------------

/// How many nodes an inventory tells of: the first word of its first line.
pub open spec fn count_in(inventory: Seq<char>) -> Seq<char> {
    let lines = text::lines_of(inventory);
    if "No nodes"@.is_prefix_of(inventory) || lines.len() == 0 || text::words_of(lines[0]).len()
        == 0 {
        "0"@
    } else {
        text::words_of(lines[0])[0]
    }
}

/// How many nodes an inventory tells of.
pub fn node_count(inventory: &str) -> (r: String)
    ensures
        r@ == count_in(inventory@),
{
    if text::starts_with(inventory, "No nodes") {
        return "0".to_owned();
    }
    let lines = text::lines(inventory);
    let ghost all = text::lines_of(inventory@);
    assert(text::views(lines@) == all);
    if lines.len() == 0 {
        return "0".to_owned();
    }
    assert(lines@[0]@ == all[0]);
    let words = text::words(lines[0].as_str());
    assert(text::views(words@) == text::words_of(all[0]));
    if words.len() == 0 {
        return "0".to_owned();
    }
    assert(words@[0]@ == text::words_of(all[0])[0]);
    words[0].clone()
}

/// The lines that greet the user.
pub open spec fn greeting_of(
    version: Seq<char>,
    model: Seq<char>,
    name: Seq<char>,
    inbox: Seq<char>,
    tools: int,
    nodes: Seq<char>,
) -> Seq<Seq<char>> {
    seq![
        Seq::empty(),
        "  Bubbaloop Agent v"@ + version,
        "  Model: "@ + model,
        "  Name: "@ + name + " | Inbox: "@ + inbox,
        "  Tools: "@ + text::decimal(tools) + " | Nodes: "@ + nodes,
        Seq::empty(),
        "  Type a message to chat, 'quit' to exit."@,
    ]
}

/// The lines that greet the user.
pub fn greeting(
    version: &str,
    model: &str,
    name: &str,
    inbox: &str,
    tools: usize,
    nodes: &str,
) -> (r: Vec<String>)
    ensures
        text::views(r@) == greeting_of(version@, model@, name@, inbox@, tools as int, nodes@),
{
    let mut third = text::concat("  Name: ", name);
    third.append(" | Inbox: ");
    third.append(inbox);
    let mut fourth = text::concat("  Tools: ", text::number(tools as u64).as_str());
    fourth.append(" | Nodes: ");
    fourth.append(nodes);
    let mut r: Vec<String> = Vec::new();
    r.push(String::new());
    r.push(text::concat("  Bubbaloop Agent v", version));
    r.push(text::concat("  Model: ", model));
    r.push(third);
    r.push(fourth);
    r.push(String::new());
    r.push("  Type a message to chat, 'quit' to exit.".to_owned());
    assert(text::views(r@) =~= greeting_of(
        version@,
        model@,
        name@,
        inbox@,
        tools as int,
        nodes@,
    ));
    r
}

/// What the user entered.
#[derive(Debug)]
pub enum Input {
    /// Nothing, and there is no more to come.
    End,
    /// An empty line.
    Nothing,
    /// That the session is to end.
    Quit,
    /// A message to the model.
    Message(String),
}

/// The contents of an [`Input`].
pub enum InputView {
    End,
    Nothing,
    Quit,
    Message(Seq<char>),
}

impl View for Input {
    type V = InputView;

    open spec fn view(&self) -> InputView {
        match self {
            Input::End => InputView::End,
            Input::Nothing => InputView::Nothing,
            Input::Quit => InputView::Quit,
            Input::Message(m) => InputView::Message(m@),
        }
    }
}

/// What the user entered, given how many bytes were read and the line.
pub open spec fn entered(bytes_read: int, line: Seq<char>) -> InputView {
    let input = text::trim_of(line);
    if bytes_read == 0 {
        InputView::End
    } else if input.len() == 0 {
        InputView::Nothing
    } else if input == "quit"@ || input == "exit"@ {
        InputView::Quit
    } else {
        InputView::Message(input)
    }
}

/// What the user entered, given how many bytes were read and the line.
pub fn read_input(bytes_read: usize, line: &str) -> (r: Input)
    ensures
        r@ == entered(bytes_read as int, line@),
{
    if bytes_read == 0 {
        return Input::End;
    }
    let input = text::trim(line);
    if input.is_empty() {
        Input::Nothing
    } else if input.eq("quit") || input.eq("exit") {
        Input::Quit
    } else {
        Input::Message(input.to_owned())
    }
}

} // verus!
