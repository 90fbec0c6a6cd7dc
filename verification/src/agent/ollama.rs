//! Chat with a model that runs on an Ollama server.
use crate::agent::llm;
use crate::agent::llm::{
    ApiResponse, ApiResponseView, ContentBlock, ContentBlockView, Message, MessageView, Usage,
};
use crate::ids;
use crate::text;
use vstd::prelude::*;
use vstd::string::*;

verus! {

/// The model that is used where none is asked for.
pub const DEFAULT_MODEL: &'static str = "llama3.2";

/// The server that is used where none is named.
pub const DEFAULT_ENDPOINT: &'static str = "http://localhost:11434";

/// Why a model could not answer.
#[derive(Debug)]
pub enum OllamaError {
    /// The server could not be talked to.
    Http(String),
    /// The server refused.
    Api {
        /// The status it gave.
        status: u16,
        /// What it said.
        message: String,
    },
}

/// The contents of an [`OllamaError`].
pub enum OllamaErrorView {
    Http(Seq<char>),
    Api { status: u16, message: Seq<char> },
}

impl View for OllamaError {
    type V = OllamaErrorView;

    open spec fn view(&self) -> OllamaErrorView {
        match self {
            OllamaError::Http(s) => OllamaErrorView::Http(s@),
            OllamaError::Api { status, message } => OllamaErrorView::Api {
                status: *status,
                message: message@,
            },
        }
    }
}

impl OllamaErrorView {
    /// The error in words.
    pub open spec fn text(self) -> Seq<char> {
        match self {
            OllamaErrorView::Http(s) => "HTTP error: "@ + s,
            OllamaErrorView::Api { status, message } => "API error (status "@ + text::decimal(
                status as int,
            ) + "): "@ + message,
        }
    }
}

impl OllamaError {
    /// The error in words.
    pub fn to_string(&self) -> (r: String)
        ensures
            r@ == self@.text(),
    {
        match self {
            OllamaError::Http(s) => text::concat("HTTP error: ", s.as_str()),
            OllamaError::Api { status, message } => {
                let mut r = text::concat(
                    "API error (status ",
                    text::number(*status as u64).as_str(),
                );
                r.append("): ");
                r.append(message.as_str());
                r
            },
        }
    }
}

/// A model on a server.
#[derive(Debug)]
pub struct OllamaClient {
    /// The model.
    pub model: String,
    /// Address of the server.
    pub endpoint: String,
}

/// One message as the server takes it.
#[derive(Debug)]
pub struct OllamaMessage {
    /// Whose message it is.
    pub role: String,
    /// Its text.
    pub content: String,
}

/// What the server is asked.
#[derive(Debug)]
pub struct OllamaRequest {
    /// Where the request goes.
    pub url: String,
    /// The model.
    pub model: String,
    /// The chat so far.
    pub messages: Vec<OllamaMessage>,
    /// Whether the answer may come in pieces.
    pub stream: bool,
}

/// The contents of an [`OllamaRequest`]. A message is its role and its text.
pub struct OllamaRequestView {
    pub url: Seq<char>,
    pub model: Seq<char>,
    pub messages: Seq<(Seq<char>, Seq<char>)>,
    pub stream: bool,
}

/// The contents of a list of messages.
pub open spec fn chat_views(v: Seq<OllamaMessage>) -> Seq<(Seq<char>, Seq<char>)> {
    Seq::new(v.len(), |i: int| (v[i].role@, v[i].content@))
}

impl View for OllamaRequest {
    type V = OllamaRequestView;

    open spec fn view(&self) -> OllamaRequestView {
        OllamaRequestView {
            url: self.url@,
            model: self.model@,
            messages: chat_views(self.messages@),
            stream: self.stream,
        }
    }
}

/// The message in an answer.
#[derive(Debug)]
pub struct OllamaMessageResp {
    /// Its text.
    pub content: String,
}

/// What the server answers.
#[derive(Debug)]
pub struct OllamaResponse {
    /// The message.
    pub message: OllamaMessageResp,
    /// Tokens that the model read, if that is said.
    pub prompt_eval_count: Option<u32>,
    /// Tokens that the model wrote, if that is said.
    pub eval_count: Option<u32>,
}

/// A chat as the server takes it: what the model is told beforehand, then the messages.
pub open spec fn chat_of(system: Option<Seq<char>>, messages: Seq<MessageView>) -> Seq<
    (Seq<char>, Seq<char>),
> {
    (match system {
        Some(s) => seq![("system"@, s)],
        None => Seq::empty(),
    }) + Seq::new(messages.len(), |i: int| (messages[i].role, messages[i].text()))
}

/// The answer as every model gives it. What the server does not say it took counts as nothing.
pub open spec fn answer_of(id: Seq<char>, resp: OllamaResponse) -> ApiResponseView {
    ApiResponseView {
        id,
        content: seq![ContentBlockView::Text { text: resp.message.content@ }],
        stop_reason: Some("end_turn"@),
        usage: Usage {
            input_tokens: match resp.prompt_eval_count {
                Some(n) => n,
                None => 0,
            },
            output_tokens: match resp.eval_count {
                Some(n) => n,
                None => 0,
            },
        },
    }
}

impl OllamaClient {
    /// The model that is asked for, on the server that is named, or the usual ones.
    pub fn from_env(model: Option<&str>, host: Option<String>) -> (r: Result<
        OllamaClient,
        OllamaError,
    >)
        ensures
            r matches Ok(client) && client.model@ == (match model {
                Some(m) => m@,
                None => DEFAULT_MODEL@,
            }) && client.endpoint@ == (match host {
                Some(h) => h@,
                None => DEFAULT_ENDPOINT@,
            }),
    {
        Ok(
            OllamaClient {
                model: match model {
                    Some(m) => m.to_owned(),
                    None => DEFAULT_MODEL.to_owned(),
                },
                endpoint: match host {
                    Some(h) => h,
                    None => DEFAULT_ENDPOINT.to_owned(),
                },
            },
        )
    }

    /// What the server is asked: the chat so far, to be answered in one piece. Tools are not
    /// told of.
    pub fn request(&self, system: Option<&str>, messages: &Vec<Message>) -> (r: OllamaRequest)
        ensures
            r@ == (OllamaRequestView {
                url: text::trim_end_char_of(self.endpoint@, '/') + "/api/chat"@,
                model: self.model@,
                messages: chat_of(
                    text::opt_str_view(system),
                    llm::message_views(messages@),
                ),
                stream: false,
            }),
    {
        let ghost views = llm::message_views(messages@);
        let ghost start = chat_of(text::opt_str_view(system), Seq::empty());
        let mut chat: Vec<OllamaMessage> = Vec::new();
        if let Some(s) = system {
            chat.push(OllamaMessage { role: "system".to_owned(), content: s.to_owned() });
        }
        assert(chat_views(chat@) =~= start);
        for i in 0..messages.len()
            invariant
                views == llm::message_views(messages@),
                chat_views(chat@) == start + Seq::new(
                    i as nat,
                    |j: int| (views[j].role, views[j].text()),
                ),
        {
            let ghost earlier = chat_views(chat@);
            let message = OllamaMessage {
                role: messages[i].role.clone(),
                content: messages[i].text(),
            };
            let ghost here = (message.role@, message.content@);
            chat.push(message);
            assert(chat_views(chat@) =~= earlier.push(here));
            assert(chat_views(chat@) =~= start + Seq::new(
                (i + 1) as nat,
                |j: int| (views[j].role, views[j].text()),
            ));
        }
        assert(chat_views(chat@) =~= chat_of(text::opt_str_view(system), views));
        let url = text::concat(
            text::trim_end_char(self.endpoint.as_str(), '/'),
            "/api/chat",
        );
        OllamaRequest { url, model: self.model.clone(), messages: chat, stream: false }
    }
}

/// Whether the server granted a request. `body` is what it said, if that could be read.
pub fn check_status(status: u16, body: Option<String>) -> (r: Result<(), OllamaError>)
    ensures
        match r {
            Ok(_) => 200 <= status < 300,
            Err(e) => !(200 <= status < 300) && e@ == (OllamaErrorView::Api {
                status,
                message: match body {
                    Some(b) => b@,
                    None => "unknown error"@,
                },
            }),
        },
{
    if 200 <= status && status < 300 {
        Ok(())
    } else {
        Err(
            OllamaError::Api {
                status,
                message: match body {
                    Some(b) => b,
                    None => "unknown error".to_owned(),
                },
            },
        )
    }
}

/// The answer as every model gives it, under a given name.
pub fn to_api_response(id: String, resp: OllamaResponse) -> (r: ApiResponse)
    ensures
        r@ == answer_of(id@, resp),
{
    let ghost said = resp.message.content@;
    let mut content: Vec<ContentBlock> = Vec::new();
    content.push(ContentBlock::Text { text: resp.message.content });
    assert(llm::block_views(content@) =~= seq![ContentBlockView::Text { text: said }]);
    ApiResponse {
        id,
        content,
        stop_reason: Some("end_turn".to_owned()),
        usage: Usage {
            input_tokens: match resp.prompt_eval_count {
                Some(n) => n,
                None => 0,
            },
            output_tokens: match resp.eval_count {
                Some(n) => n,
                None => 0,
            },
        },
    }
}

/// The answer as every model gives it, under a name of its own.
pub fn named_response(resp: OllamaResponse) -> (r: ApiResponse)
    ensures
        exists|unique: Seq<char>| #[trigger]
            ids::random_uuid(unique) && r@ == answer_of("ollama-"@ + unique, resp),
{
    let unique = ids::new_uuid();
    let id = text::concat("ollama-", unique.as_str());
    let r = to_api_response(id, resp);
    assert(ids::random_uuid(unique@) && r@ == answer_of("ollama-"@ + unique@, resp));
    r
}

} // verus!
