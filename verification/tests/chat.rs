use bubbaloop::agent::conversation::{
    log_calls, stored_calls, Conversation, ConversationRow, Next, ToolCall,
    MAX_CONVERSATION_MESSAGES,
};
use bubbaloop::agent::llm::{ContentBlock, Message, Usage};
use bubbaloop::agent::ollama::{
    check_status, named_response, to_api_response, OllamaClient, OllamaError, OllamaMessageResp,
    OllamaResponse, DEFAULT_MODEL,
};
use bubbaloop::agent::repl::{calling_line, Step};
use bubbaloop::agent::session::{
    agent_name, decode_inbox, greeting, hosted_error, inbox_topic, model_name, node_count,
    read_inbox, read_input, scope_name, select_provider, session_settings, skill_schedule,
    HostedProvider, Input, Provider, Skill,
};
use bubbaloop::agent::{AgentConfig, AgentError};
use bubbaloop::cli::agent::AgentCommand;
use bubbaloop::cli::paths::{cert_dir, mcp_log_dir, mcp_log_path};
use bubbaloop::validation::validate_publish_topic;

fn text(s: &str) -> ContentBlock {
    ContentBlock::Text { text: s.to_string() }
}

fn call(id: &str, name: &str) -> ContentBlock {
    ContentBlock::ToolUse {
        id: id.to_string(),
        name: name.to_string(),
        input: "{}".to_string(),
    }
}

fn acme() -> HostedProvider {
    HostedProvider {
        label: "Acme".to_string(),
        name: "acme".to_string(),
        default_model: "acme-large".to_string(),
    }
}

fn row(role: &str, content: &str) -> ConversationRow {
    ConversationRow {
        role: role.to_string(),
        content: content.to_string(),
    }
}

#[test]
fn conversations_are_restored_in_order() {
    let rows = vec![
        row("assistant", "fine"),
        row("assistant", ""),
        row("tool", "x"),
        row("user", ""),
        row("user", "how are you"),
    ];
    let restored = Conversation::restore(&rows);
    let shown: Vec<(String, String)> = restored
        .messages
        .iter()
        .map(|m: &Message| (m.role.clone(), m.text()))
        .collect();
    let expected: Vec<(String, String)> = vec![
        ("user".to_string(), "how are you".to_string()),
        ("user".to_string(), "".to_string()),
        ("assistant".to_string(), "fine".to_string()),
    ];
    assert_eq!(shown, expected);
    assert!(Conversation::restore(&vec![]).messages.is_empty());
}

#[test]
fn turns_end_without_calls() {
    let mut c = Conversation { messages: vec![] };
    c.add_user("hi");
    let turn = c.take_response(vec![text("a"), text("b")]);
    assert_eq!(turn.shown, vec!["a", "b"]);
    match turn.next {
        Next::Done { answer } => assert_eq!(answer, "ab"),
        other => panic!("unexpected: {:?}", other),
    }
    assert_eq!(c.messages.len(), 2);
    assert_eq!(c.messages[0].role, "user");
    assert_eq!(c.messages[1].role, "assistant");
    let turn = c.take_response(vec![]);
    match turn.next {
        Next::Done { answer } => assert_eq!(answer, ""),
        other => panic!("unexpected: {:?}", other),
    }
}

#[test]
fn turns_go_on_with_calls() {
    let mut c = Conversation { messages: vec![] };
    let turn = c.take_response(vec![
        text("let me see"),
        call("1", "list_nodes"),
        call("2", "get_node_logs"),
    ]);
    assert_eq!(turn.shown, vec!["let me see"]);
    let calls: Vec<ToolCall> = match turn.next {
        Next::Call { calls } => calls,
        other => panic!("unexpected: {:?}", other),
    };
    let ids: Vec<&str> = calls.iter().map(|c| c.id.as_str()).collect();
    assert_eq!(ids, vec!["1", "2"]);
    assert_eq!(calls[1].name, "get_node_logs");
    assert_eq!(calls[1].input, "{}");
    assert_eq!(log_calls(&calls), "[\"list_nodes\",\"get_node_logs\"]");
    assert_eq!(log_calls(&vec![]), "[]");
    assert_eq!(stored_calls(None), "");
    c.take_results(&vec![
        ContentBlock::ToolResult {
            tool_use_id: "1".to_string(),
            content: "none".to_string(),
            is_error: None,
        },
        text("dropped"),
        ContentBlock::ToolResult {
            tool_use_id: "2".to_string(),
            content: "no".to_string(),
            is_error: Some(true),
        },
    ]);
    let last = &c.messages[1];
    assert_eq!(last.role, "user");
    assert_eq!(last.content.len(), 2);
    match &last.content[1] {
        ContentBlock::ToolResult {
            tool_use_id,
            content,
            is_error,
        } => {
            assert_eq!(tool_use_id, "2");
            assert_eq!(content, "no");
            assert_eq!(*is_error, Some(true));
        }
        other => panic!("unexpected: {:?}", other),
    }
}

#[test]
fn recent_messages_are_kept_on_values() {
    let mut c = Conversation { messages: vec![] };
    for i in 0..45 {
        c.add_user(&format!("{}", i));
    }
    c.trim();
    assert_eq!(c.messages.len(), MAX_CONVERSATION_MESSAGES);
    assert_eq!(c.messages[0].text(), "5");
    assert_eq!(c.messages[39].text(), "44");
    c.trim();
    assert_eq!(c.messages.len(), 40);
    let mut short = Conversation { messages: vec![] };
    short.add_user("x");
    short.trim();
    assert_eq!(short.messages.len(), 1);
}

#[test]
fn ollama_clients_have_defaults() {
    let usual = OllamaClient::from_env(None, None).unwrap();
    assert_eq!(usual.model, "llama3.2");
    assert_eq!(usual.endpoint, "http://localhost:11434");
    let other = OllamaClient::from_env(Some("qwen"), Some("http://h:1//".to_string())).unwrap();
    assert_eq!(other.model, "qwen");
    let messages = vec![
        Message::user("hi"),
        Message {
            role: "assistant".to_string(),
            content: vec![text("a"), call("1", "t"), text("b")],
        },
    ];
    let request = other.request(Some("be brief"), &messages);
    assert_eq!(request.url, "http://h:1/api/chat");
    assert_eq!(request.model, "qwen");
    assert!(!request.stream);
    let chat: Vec<(&str, &str)> = request
        .messages
        .iter()
        .map(|m| (m.role.as_str(), m.content.as_str()))
        .collect();
    assert_eq!(
        chat,
        vec![("system", "be brief"), ("user", "hi"), ("assistant", "ab")]
    );
    assert_eq!(usual.request(None, &vec![]).messages.len(), 0);
}

#[test]
fn ollama_answers_are_read() {
    assert!(check_status(200, None).is_ok());
    assert!(check_status(299, None).is_ok());
    let refused = check_status(404, Some("no such model".to_string())).unwrap_err();
    assert_eq!(refused.to_string(), "API error (status 404): no such model");
    assert_eq!(
        check_status(300, None).unwrap_err().to_string(),
        "API error (status 300): unknown error"
    );
    assert!(check_status(199, None).is_err());
    let resp = |p, e| OllamaResponse {
        message: OllamaMessageResp { content: "hello".to_string() },
        prompt_eval_count: p,
        eval_count: e,
    };
    let r = to_api_response("id".to_string(), resp(Some(3), None));
    assert_eq!(r.id, "id");
    assert_eq!(r.stop_reason, Some("end_turn".to_string()));
    assert_eq!(r.usage, Usage { input_tokens: 3, output_tokens: 0 });
    match &r.content[0] {
        ContentBlock::Text { text } => assert_eq!(text, "hello"),
        other => panic!("unexpected: {:?}", other),
    }
    let a = named_response(resp(None, Some(9)));
    let b = named_response(resp(None, Some(9)));
    assert!(a.id.starts_with("ollama-"));
    assert_eq!(a.id.len(), 7 + 36);
    assert_ne!(a.id, b.id);
    assert_eq!(a.usage, Usage { input_tokens: 0, output_tokens: 9 });
}

#[test]
fn agent_errors_in_words() {
    let s = || "x".to_string();
    let hosted = hosted_error(&acme(), s());
    assert_eq!(hosted.to_string(), "Acme API error: x");
    assert_eq!(
        AgentError::Ollama(OllamaError::Http(s())).to_string(),
        "Ollama API error: HTTP error: x"
    );
    assert_eq!(AgentError::Memory(s()).to_string(), "Memory error: x");
    assert_eq!(AgentError::Zenoh(s()).to_string(), "Zenoh connection failed: x");
    assert_eq!(AgentError::Io(s()).to_string(), "IO error: x");
    assert_eq!(AgentError::InvalidProvider(s()).to_string(), "Unknown provider: x");
}

#[test]
fn sessions_are_set_up() {
    let settings = session_settings(None, None);
    let shown: Vec<(&str, &str)> = settings.iter().map(|(k, v)| (*k, v.as_str())).collect();
    assert_eq!(
        shown,
        vec![
            ("mode", "\"client\""),
            ("connect/endpoints", "[\"tcp/127.0.0.1:7447\"]"),
            ("scouting/multicast/enabled", "false"),
            ("scouting/gossip/enabled", "false"),
        ]
    );
    assert_eq!(session_settings(None, Some("tcp/e:1"))[1].1, "[\"tcp/e:1\"]");
    assert_eq!(session_settings(Some("tcp/a:1"), Some("tcp/e:1"))[1].1, "[\"tcp/a:1\"]");
}

#[test]
fn providers_and_models() {
    let hosted = acme();
    assert_eq!(select_provider(None, &hosted).unwrap(), Provider::Hosted);
    assert_eq!(select_provider(Some("acme"), &hosted).unwrap(), Provider::Hosted);
    assert_eq!(select_provider(Some("ollama"), &hosted).unwrap(), Provider::Ollama);
    match select_provider(Some("other"), &hosted) {
        Err(AgentError::InvalidProvider(name)) => assert_eq!(name, "other"),
        other => panic!("unexpected: {:?}", other),
    }
    assert_eq!(model_name(None, Provider::Hosted, &hosted), "acme-large");
    assert_eq!(model_name(None, Provider::Ollama, &hosted), DEFAULT_MODEL);
    assert_eq!(model_name(Some("m"), Provider::Ollama, &hosted), "m");
}

#[test]
fn names_on_the_bus() {
    let command = AgentCommand {
        model: None,
        provider: Some("ollama".to_string()),
        zenoh_endpoint: None,
        name: Some("ada".to_string()),
    };
    let config = command.config();
    assert_eq!(config.provider, Some("ollama".to_string()));
    assert_eq!(agent_name(&config, Some("env".to_string())), "ada");
    let unnamed = AgentConfig { model: None, provider: None, name: None };
    assert_eq!(agent_name(&unnamed, Some("env".to_string())), "env");
    assert_eq!(agent_name(&unnamed, None), "default");
    assert_eq!(scope_name(None), "local");
    assert_eq!(scope_name(Some("lab".to_string())), "lab");
    let topic = inbox_topic("local", "ada");
    assert_eq!(topic, "bubbaloop/local/agent/ada/inbox");
    assert!(validate_publish_topic(&topic).is_ok());
}

#[test]
fn inbox_messages_are_read() {
    let pair = |a: &str, b: &str| (a.to_string(), b.to_string());
    assert_eq!(
        read_inbox(b"{\"sender\": \"bob\", \"message\": \"hi\"}"),
        pair("bob", "hi")
    );
    assert_eq!(
        read_inbox(b"{\"sender\": 4, \"message\": \"hi\"}"),
        pair("unknown", "hi")
    );
    assert_eq!(read_inbox(b"[1, 2]"), pair("unknown", "[1, 2]"));
    assert_eq!(read_inbox(b"hello there"), pair("unknown-agent", "hello there"));
    assert_eq!(read_inbox(&[0xff]), pair("unknown-agent", "\u{fffd}"));
    assert_eq!(decode_inbox("p".to_string(), None), pair("unknown-agent", "p"));
    assert_eq!(
        decode_inbox("p".to_string(), Some((None, None))),
        pair("unknown", "p")
    );
}

#[test]
fn skills_are_scheduled() {
    let skill = |schedule: Option<&str>, actions| Skill {
        name: "patrol".to_string(),
        schedule: schedule.map(|s: &str| s.to_string()),
        actions,
    };
    let json = || Some("[\"look\"]".to_string());
    let s = skill_schedule(&skill(Some("0 * * * *"), 1), json()).unwrap();
    assert_eq!(s.name, "patrol");
    assert_eq!(s.cron, "0 * * * *");
    assert_eq!(s.actions, "[\"look\"]");
    assert_eq!(s.tier, 1);
    assert_eq!(s.created_by, "skill");
    assert_eq!(s.last_run, None);
    assert_eq!(s.next_run, None);
    assert_eq!(s.id.len(), 36);
    let t = skill_schedule(&skill(Some("0 * * * *"), 1), None).unwrap();
    assert_eq!(t.actions, "[]");
    assert_ne!(s.id, t.id);
    assert!(skill_schedule(&skill(Some("0 * * * *"), 0), json()).is_none());
    assert!(skill_schedule(&skill(None, 1), json()).is_none());
}

#[test]
fn nodes_are_counted_in_the_inventory() {
    assert_eq!(node_count("No nodes registered"), "0");
    assert_eq!(node_count("3 nodes:\n- a\n- b\n- c"), "3");
    assert_eq!(node_count(""), "0");
    assert_eq!(node_count("   \n5 nodes"), "0");
}

#[test]
fn users_are_greeted() {
    assert_eq!(
        greeting("0.1.0", "llama3.2", "ada", "bubbaloop/local/agent/ada/inbox", 42, "7"),
        vec![
            "",
            "  Bubbaloop Agent v0.1.0",
            "  Model: llama3.2",
            "  Name: ada | Inbox: bubbaloop/local/agent/ada/inbox",
            "  Tools: 42 | Nodes: 7",
            "",
            "  Type a message to chat, 'quit' to exit.",
        ]
    );
}

#[test]
fn input_is_classified() {
    assert!(matches!(read_input(0, ""), Input::End));
    assert!(matches!(read_input(3, " \t\n"), Input::Nothing));
    assert!(matches!(read_input(5, " quit\n"), Input::Quit));
    assert!(matches!(read_input(5, "exit\n"), Input::Quit));
    match read_input(9, "  quit it\u{3000}\n") {
        Input::Message(m) => assert_eq!(m, "quit it"),
        other => panic!("unexpected: {:?}", other),
    }
}

#[test]
fn files_have_their_places() {
    assert_eq!(mcp_log_dir(Some("/home/ada")), "/home/ada/.bubbaloop");
    assert_eq!(mcp_log_dir(None), "/tmp/.bubbaloop");
    assert_eq!(
        mcp_log_path("/home/ada/.bubbaloop"),
        "/home/ada/.bubbaloop/mcp-stdio.log"
    );
    assert_eq!(cert_dir(None, Some("/home/ada")), "/home/ada/.bubbaloop/certs");
    assert_eq!(cert_dir(None, None), "/home/user/.bubbaloop/certs");
    assert_eq!(cert_dir(Some("out".to_string()), Some("/home/ada")), "out");
}

#[test]
fn a_chat_takes_its_course() {
    let mut c = Conversation { messages: vec![] };
    let o = c.on_input(1, "\n");
    assert!(matches!(o.step, Step::Read));
    assert!(o.stored.is_none() && o.shown.is_empty());

    let o = c.on_input(6, "hello\n");
    assert!(matches!(o.step, Step::Ask));
    let stored = o.stored.unwrap();
    assert_eq!((stored.role, stored.content.as_str()), ("user", "hello"));
    assert_eq!(stored.tool_calls, None);

    let o = c.on_answer(vec![text("one moment"), call("1", "list_nodes")]);
    assert_eq!(o.shown, vec!["one moment"]);
    assert!(o.stored.is_none());
    let calls = match o.step {
        Step::Call(calls) => calls,
        other => panic!("unexpected: {:?}", other),
    };
    assert_eq!(calling_line(&calls[0].name), "  [calling list_nodes...]");

    let result = ContentBlock::ToolResult {
        tool_use_id: "1".to_string(),
        content: "none".to_string(),
        is_error: None,
    };
    let o = c.on_results(&calls, &vec![result]);
    assert!(matches!(o.step, Step::Ask));
    let stored = o.stored.unwrap();
    assert_eq!((stored.role, stored.content.as_str()), ("assistant", ""));
    assert_eq!(stored.tool_calls, Some("[\"list_nodes\"]".to_string()));
    assert_eq!(c.messages.last().unwrap().role, "user");

    let o = c.on_answer(vec![text("no "), text("nodes")]);
    assert!(matches!(o.step, Step::Read));
    let stored = o.stored.unwrap();
    assert_eq!((stored.role, stored.content.as_str()), ("assistant", "no nodes"));
    assert_eq!(c.messages.len(), 4);

    let o = c.on_input(5, "exit\n");
    assert!(matches!(o.step, Step::Stop));
    assert!(o.shown.is_empty());
    let o = c.on_input(0, "");
    assert!(matches!(o.step, Step::Stop));
    assert_eq!(o.shown, vec![""]);
}

#[test]
fn failures_end_the_turn() {
    let mut c = Conversation { messages: vec![] };
    for i in 0..50 {
        c.add_user(&format!("{}", i));
    }
    let o = c.on_failure("down");
    assert_eq!(o.shown, vec!["Error: down"]);
    assert!(o.stored.is_none());
    assert!(matches!(o.step, Step::Read));
    assert_eq!(c.messages.len(), 40);
    assert_eq!(c.messages[0].text(), "10");
}

#[test]
fn long_turns_are_cut_at_their_end() {
    let mut c = Conversation { messages: vec![] };
    c.on_input(3, "go\n");
    for i in 0..30 {
        let o = c.on_answer(vec![call(&format!("{}", i), "t")]);
        let calls = match o.step {
            Step::Call(calls) => calls,
            other => panic!("unexpected: {:?}", other),
        };
        c.on_results(&calls, &vec![]);
        assert_eq!(c.messages.len(), 3 + 2 * i);
    }
    c.on_answer(vec![text("done")]);
    assert_eq!(c.messages.len(), 40);
    assert_eq!(c.messages[39].text(), "done");
}

#[test]
fn messages_are_read_back() {
    assert_eq!(Message::user("h\u{e4}llo").text(), "h\u{e4}llo");
    assert_eq!(Message::said("fine".to_string()).text(), "fine");
    assert_eq!(Message::said("fine".to_string()).role, "assistant");
}

#[test]
fn trimming_early_or_late_is_the_same() {
    let texts = |c: &Conversation| -> Vec<String> { c.messages.iter().map(|m| m.text()).collect() };
    let mut early = Conversation { messages: vec![] };
    let mut late = Conversation { messages: vec![] };
    for i in 0..60 {
        early.add_user(&format!("{}", i));
        early.trim();
        late.add_user(&format!("{}", i));
    }
    late.trim();
    assert_eq!(texts(&early), texts(&late));
}
