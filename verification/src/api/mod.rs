//! The canonical chat model that every provider is translated to and from,
//! and what all provider clients share: how a client is chosen and how an
//! HTTP answer is classified.
//!
//! JSON payloads (a tool's parameter schema, a tool call's arguments) are held
//! as text and never inspected here.

use vstd::prelude::*;
use crate::error::GrokError;
use crate::text::{concat, copy_opt, decimal, decimal_string, owned, same_str};

pub mod anthropic;
pub mod openai;
pub mod xai;

verus! {

/// A function call as contracts see it.
pub struct FunctionCallView {
    pub name: Seq<char>,
    pub arguments: Seq<char>,
}

/// A tool call as contracts see it.
pub struct ToolCallView {
    pub id: Seq<char>,
    pub kind: Seq<char>,
    pub function: FunctionCallView,
}

/// A message as contracts see it.
pub struct MessageView {
    pub role: Seq<char>,
    pub content: Option<Seq<char>>,
    pub tool_calls: Option<Seq<ToolCallView>>,
    pub tool_call_id: Option<Seq<char>>,
}

/// A tool descriptor as contracts see it.
pub struct ToolView {
    pub kind: Seq<char>,
    pub name: Seq<char>,
    pub description: Seq<char>,
    pub parameters: Seq<char>,
}

/// A request as contracts see it.
pub struct RequestView {
    pub model: Seq<char>,
    pub messages: Seq<MessageView>,
    pub tools: Option<Seq<ToolView>>,
    pub tool_choice: Seq<char>,
    pub temperature_milli: u32,
    pub max_tokens: u32,
    pub response_format: Option<Seq<char>>,
}

/// The name and the JSON-encoded arguments of a requested call.
#[derive(Clone, Debug)]
pub struct FunctionCall {
    pub name: String,
    pub arguments: String,
}

/// A call of a tool that the model asks for.
#[derive(Clone, Debug)]
pub struct ToolCall {
    pub id: String,
    /// The wire field `type`; providers send `function`.
    pub kind: String,
    pub function: FunctionCall,
}

/// One entry of the conversation.
#[derive(Clone, Debug)]
pub struct Message {
    pub role: String,
    pub content: Option<String>,
    pub tool_calls: Option<Vec<ToolCall>>,
    pub tool_call_id: Option<String>,
}

/// What a tool is called, what it does, and the JSON schema of its arguments.
#[derive(Clone, Debug)]
pub struct Function {
    pub name: String,
    pub description: String,
    /// The parameter schema, as JSON text.
    pub parameters: String,
}

/// A tool offered to the model.
#[derive(Clone, Debug)]
pub struct Tool {
    /// The wire field `type`; always `function`.
    pub kind: String,
    pub function: Function,
}

/// The output format asked of the model.
#[derive(Clone, Debug)]
pub struct ResponseFormat {
    /// The wire field `type`, such as `json_object`.
    pub kind: String,
}

/// A request for a chat completion.
#[derive(Clone, Debug)]
pub struct ChatCompletionRequest {
    pub model: String,
    pub messages: Vec<Message>,
    pub tools: Option<Vec<Tool>>,
    pub tool_choice: String,
    /// The sampling temperature in thousandths.
    pub temperature_milli: u32,
    pub max_tokens: u32,
    pub response_format: Option<ResponseFormat>,
}

/// One alternative of a completion.
#[derive(Clone, Debug)]
pub struct Choice {
    pub message: Message,
}

/// A chat completion.
#[derive(Clone, Debug)]
pub struct ChatCompletionResponse {
    pub choices: Vec<Choice>,
}

/// How to reach a provider.
#[derive(Clone, Debug)]
pub struct ApiConfig {
    pub api_key: String,
    pub base_url: String,
    pub model: String,
    pub timeout_secs: u64,
    pub max_retries: u32,
}

impl View for FunctionCall {
    type V = FunctionCallView;

    open spec fn view(&self) -> FunctionCallView {
        FunctionCallView { name: self.name@, arguments: self.arguments@ }
    }
}

impl View for ToolCall {
    type V = ToolCallView;

    open spec fn view(&self) -> ToolCallView {
        ToolCallView { id: self.id@, kind: self.kind@, function: self.function@ }
    }
}

/// The views of a list of tool calls.
pub open spec fn tool_call_views(calls: Seq<ToolCall>) -> Seq<ToolCallView> {
    calls.map_values(|c: ToolCall| c@)
}

impl View for Message {
    type V = MessageView;

    open spec fn view(&self) -> MessageView {
        MessageView {
            role: self.role@,
            content: self.content.deep_view(),
            tool_calls: match self.tool_calls {
                Some(calls) => Some(tool_call_views(calls@)),
                None => None,
            },
            tool_call_id: self.tool_call_id.deep_view(),
        }
    }
}

/// The views of a list of messages.
pub open spec fn message_views(messages: Seq<Message>) -> Seq<MessageView> {
    messages.map_values(|m: Message| m@)
}

impl View for Tool {
    type V = ToolView;

    open spec fn view(&self) -> ToolView {
        ToolView {
            kind: self.kind@,
            name: self.function.name@,
            description: self.function.description@,
            parameters: self.function.parameters@,
        }
    }
}

/// The views of a list of tool descriptors.
pub open spec fn tool_views(tools: Seq<Tool>) -> Seq<ToolView> {
    tools.map_values(|t: Tool| t@)
}

impl View for ChatCompletionRequest {
    type V = RequestView;

    open spec fn view(&self) -> RequestView {
        RequestView {
            model: self.model@,
            messages: message_views(self.messages@),
            tools: match self.tools {
                Some(tools) => Some(tool_views(tools@)),
                None => None,
            },
            tool_choice: self.tool_choice@,
            temperature_milli: self.temperature_milli,
            max_tokens: self.max_tokens,
            response_format: match self.response_format {
                Some(f) => Some(f.kind@),
                None => None,
            },
        }
    }
}

impl View for ChatCompletionResponse {
    type V = Seq<MessageView>;

    /// The messages of the choices, in order.
    open spec fn view(&self) -> Seq<MessageView> {
        self.choices@.map_values(|c: Choice| c.message@)
    }
}

impl FunctionCall {
    /// A copy with the same name and arguments.
    pub fn duplicate(&self) -> (out: Self)
        ensures
            out@ == self@,
    {
        FunctionCall { name: self.name.clone(), arguments: self.arguments.clone() }
    }
}

impl ToolCall {
    /// A copy with the same contents.
    pub fn duplicate(&self) -> (out: Self)
        ensures
            out@ == self@,
    {
        ToolCall {
            id: self.id.clone(),
            kind: self.kind.clone(),
            function: self.function.duplicate(),
        }
    }
}

/// A copy of a list of tool calls.
pub fn copy_tool_calls(calls: &Vec<ToolCall>) -> (out: Vec<ToolCall>)
    ensures
        tool_call_views(out@) == tool_call_views(calls@),
{
    let mut out: Vec<ToolCall> = Vec::new();
    let mut i: usize = 0;
    while i < calls.len()
        invariant
            i <= calls.len(),
            out@.len() == i,
            forall|k: int| 0 <= k < i ==> (#[trigger] out@[k])@ == calls@[k]@,
        decreases calls.len() - i,
    {
        out.push(calls[i].duplicate());
        i += 1;
    }
    assert(tool_call_views(out@) =~= tool_call_views(calls@));
    out
}

impl Message {
    /// A copy with the same contents.
    pub fn duplicate(&self) -> (out: Self)
        ensures
            out@ == self@,
    {
        let tool_calls = match &self.tool_calls {
            Some(calls) => Some(copy_tool_calls(calls)),
            None => None,
        };
        Message {
            role: self.role.clone(),
            content: copy_opt(&self.content),
            tool_calls,
            tool_call_id: copy_opt(&self.tool_call_id),
        }
    }

    /// A message of the given role with text and nothing else.
    pub fn plain(role: &str, content: String) -> (out: Self)
        ensures
            out@ == (MessageView {
                role: role@,
                content: Some(content@),
                tool_calls: None,
                tool_call_id: None,
            }),
    {
        Message { role: owned(role), content: Some(content), tool_calls: None, tool_call_id: None }
    }
}

/// A copy of a list of messages.
pub fn copy_messages(messages: &[Message]) -> (out: Vec<Message>)
    ensures
        message_views(out@) == message_views(messages@),
{
    let mut out: Vec<Message> = Vec::new();
    let mut i: usize = 0;
    while i < messages.len()
        invariant
            i <= messages.len(),
            out@.len() == i,
            forall|k: int| 0 <= k < i ==> (#[trigger] out@[k])@ == messages@[k]@,
        decreases messages.len() - i,
    {
        out.push(messages[i].duplicate());
        i += 1;
    }
    assert(message_views(out@) =~= message_views(messages@));
    out
}

impl Tool {
    /// A copy with the same contents.
    pub fn duplicate(&self) -> (out: Self)
        ensures
            out@ == self@,
    {
        Tool {
            kind: self.kind.clone(),
            function: Function {
                name: self.function.name.clone(),
                description: self.function.description.clone(),
                parameters: self.function.parameters.clone(),
            },
        }
    }
}

/// A copy of a list of tool descriptors.
pub fn copy_tools(tools: &Vec<Tool>) -> (out: Vec<Tool>)
    ensures
        tool_views(out@) == tool_views(tools@),
{
    let mut out: Vec<Tool> = Vec::new();
    let mut i: usize = 0;
    while i < tools.len()
        invariant
            i <= tools.len(),
            out@.len() == i,
            forall|k: int| 0 <= k < i ==> (#[trigger] out@[k])@ == tools@[k]@,
        decreases tools.len() - i,
    {
        out.push(tools[i].duplicate());
        i += 1;
    }
    assert(tool_views(out@) =~= tool_views(tools@));
    out
}

/// The HTTP status that means the provider limits the rate of requests.
pub const STATUS_TOO_MANY_REQUESTS: u16 = 429;

/// The seconds to wait after a rate limit when the provider names none.
pub const DEFAULT_RETRY_AFTER: u64 = 60;

/// Why a request to a provider gave no completion.
#[derive(Clone, Debug)]
pub enum Failure {
    /// HTTP 429: the provider limits the rate of requests.
    RateLimited { message: String, retry_after: u64 },
    /// Any other status outside 200..=299, with the answer's body.
    ApiError { status: u16, body: String },
    /// The request timed out.
    Timeout { detail: String },
    /// The request could not be sent, or the answer could not be read.
    TransportError { detail: String },
}

/// A failure as contracts see it.
pub enum FailureView {
    RateLimited { message: Seq<char>, retry_after: u64 },
    ApiError { status: u16, body: Seq<char> },
    Timeout { detail: Seq<char> },
    TransportError { detail: Seq<char> },
}

impl View for Failure {
    type V = FailureView;

    open spec fn view(&self) -> FailureView {
        match self {
            Failure::RateLimited { message, retry_after } => FailureView::RateLimited {
                message: message@,
                retry_after: *retry_after,
            },
            Failure::ApiError { status, body } => FailureView::ApiError {
                status: *status,
                body: body@,
            },
            Failure::Timeout { detail } => FailureView::Timeout { detail: detail@ },
            Failure::TransportError { detail } => FailureView::TransportError { detail: detail@ },
        }
    }
}

/// A status in 200..=299.
pub open spec fn is_success(status: u16) -> bool {
    200 <= status <= 299
}

/// How an HTTP answer is classified: nothing for a success, a rate limit for
/// 429 (with 60 seconds where the provider names no delay), and an API error
/// with status and body for everything else.
pub open spec fn classified(status: u16, body: Seq<char>, retry_after: Option<u64>) -> Option<
    FailureView,
> {
    if is_success(status) {
        None
    } else if status == STATUS_TOO_MANY_REQUESTS {
        Some(
            FailureView::RateLimited {
                message: body,
                retry_after: match retry_after {
                    Some(s) => s,
                    None => DEFAULT_RETRY_AFTER,
                },
            },
        )
    } else {
        Some(FailureView::ApiError { status, body })
    }
}

/// Classifies the HTTP answer of a provider, the same for every provider.
pub fn classify_status(status: u16, body: &str, retry_after: Option<u64>) -> (out: Option<Failure>)
    ensures
        out.deep_view() == classified(status, body@, retry_after),
{
    if 200 <= status && status <= 299 {
        None
    } else if status == STATUS_TOO_MANY_REQUESTS {
        let seconds = match retry_after {
            Some(s) => s,
            None => DEFAULT_RETRY_AFTER,
        };
        Some(Failure::RateLimited { message: owned(body), retry_after: seconds })
    } else {
        Some(Failure::ApiError { status, body: owned(body) })
    }
}

/// Classifies a failure of the transport: a timeout, or anything else.
pub fn classify_transport(timed_out: bool, detail: &str) -> (out: Failure)
    ensures
        timed_out ==> out@ == (FailureView::Timeout { detail: detail@ }),
        !timed_out ==> out@ == (FailureView::TransportError { detail: detail@ }),
{
    if timed_out {
        Failure::Timeout { detail: owned(detail) }
    } else {
        Failure::TransportError { detail: owned(detail) }
    }
}

impl DeepView for Failure {
    type V = FailureView;

    open spec fn deep_view(&self) -> FailureView {
        self@
    }
}

impl Failure {
    /// The text of an API error: `API error `, the status, `: `, the body.
    pub open spec fn api_error_text(status: u16, body: Seq<char>) -> Seq<char> {
        "API error "@ + decimal(status as nat) + ": "@ + body
    }

    /// The error that stands for this failure elsewhere in the assistant.
    pub fn into_error(self) -> (e: GrokError)
        ensures
            match self@ {
                FailureView::RateLimited { message, retry_after } => e is RateLimitExceeded
                    && e.detail() == message && e.retry_delay() == Some(retry_after),
                FailureView::ApiError { status, body } => e is ApiError && e.detail()
                    == Self::api_error_text(status, body),
                FailureView::Timeout { detail } => e is Timeout && e.detail() == detail,
                FailureView::TransportError { detail } => e is Http && e.detail() == detail,
            },
    {
        match self {
            Failure::RateLimited { message, retry_after } => GrokError::RateLimitExceeded {
                message,
                retry_after: Some(retry_after),
            },
            Failure::ApiError { status, body } => {
                let number = decimal_string(status as u64);
                let head = concat("API error ", number.as_str());
                let head = concat(head.as_str(), ": ");
                GrokError::ApiError(concat(head.as_str(), body.as_str()))
            },
            Failure::Timeout { detail } => GrokError::Timeout(detail),
            Failure::TransportError { detail } => GrokError::Http(detail),
        }
    }
}

/// The providers that can be talked to.
#[derive(Clone, Copy, Debug, PartialEq, Eq, Structural)]
pub enum Provider {
    Xai,
    OpenAi,
    Anthropic,
}

/// The provider that a name stands for.
pub open spec fn provider_of(name: Seq<char>) -> Option<Provider> {
    if name == "xai"@ {
        Some(Provider::Xai)
    } else if name == "openai"@ {
        Some(Provider::OpenAi)
    } else if name == "anthropic"@ {
        Some(Provider::Anthropic)
    } else {
        None
    }
}

/// A client for one of the providers. Clients hold their configuration and
/// nothing that changes.
pub enum ApiClient {
    Xai(xai::XaiClient),
    OpenAi(openai::OpenAiClient),
    Anthropic(anthropic::AnthropicClient),
}

impl ApiClient {
    /// The provider that the client talks to.
    pub open spec fn provider(&self) -> Provider {
        match self {
            ApiClient::Xai(_) => Provider::Xai,
            ApiClient::OpenAi(_) => Provider::OpenAi,
            ApiClient::Anthropic(_) => Provider::Anthropic,
        }
    }

    /// The configuration that the client was made with.
    pub open spec fn spec_config(&self) -> ApiConfig {
        match self {
            ApiClient::Xai(c) => c.config,
            ApiClient::OpenAi(c) => c.config,
            ApiClient::Anthropic(c) => c.config,
        }
    }

    /// The configuration that the client was made with.
    pub fn config(&self) -> (config: &ApiConfig)
        ensures
            *config == self.spec_config(),
    {
        match self {
            ApiClient::Xai(c) => c.config(),
            ApiClient::OpenAi(c) => c.config(),
            ApiClient::Anthropic(c) => c.config(),
        }
    }

    /// The address that completions are asked from.
    pub fn endpoint(&self) -> (url: String)
        ensures
            self.provider() == Provider::Anthropic ==> url@ == self.spec_config().base_url@
                + "/messages"@,
            self.provider() != Provider::Anthropic ==> url@ == self.spec_config().base_url@
                + "/chat/completions"@,
    {
        match self {
            ApiClient::Xai(c) => c.endpoint(),
            ApiClient::OpenAi(c) => c.endpoint(),
            ApiClient::Anthropic(c) => c.endpoint(),
        }
    }
}

/// The client for the provider of the given name: `xai`, `openai` or
/// `anthropic`. Any other name is a configuration error that names it.
pub fn create_client(provider: &str, config: ApiConfig) -> (out: Result<ApiClient, GrokError>)
    ensures
        match provider_of(provider@) {
            Some(p) => out matches Ok(client) && client.provider() == p && client.spec_config()
                == config,
            None => out matches Err(e) && e is Config && e.detail() == "Unknown API provider: "@
                + provider@,
        },
{
    if same_str(provider, "xai") {
        Ok(ApiClient::Xai(xai::XaiClient::new(config)))
    } else if same_str(provider, "openai") {
        Ok(ApiClient::OpenAi(openai::OpenAiClient::new(config)))
    } else if same_str(provider, "anthropic") {
        Ok(ApiClient::Anthropic(anthropic::AnthropicClient::new(config)))
    } else {
        Err(GrokError::Config(concat("Unknown API provider: ", provider)))
    }
}

/// The headers of a request that carries a bearer token: the authorization
/// and the content type.
pub open spec fn bearer_headers(api_key: Seq<char>) -> Seq<(Seq<char>, Seq<char>)> {
    seq![
        ("authorization"@, "Bearer "@ + api_key),
        ("content-type"@, "application/json"@),
    ]
}

/// The views of a list of headers.
pub open spec fn header_views(headers: Seq<(String, String)>) -> Seq<(Seq<char>, Seq<char>)> {
    headers.map_values(|h: (String, String)| (h.0@, h.1@))
}

/// The headers of a request that carries a bearer token.
pub fn bearer_request_headers(api_key: &str) -> (out: Vec<(String, String)>)
    ensures
        header_views(out@) == bearer_headers(api_key@),
{
    let mut out: Vec<(String, String)> = Vec::new();
    out.push((owned("authorization"), concat("Bearer ", api_key)));
    out.push((owned("content-type"), owned("application/json")));
    assert(header_views(out@) =~= bearer_headers(api_key@));
    out
}

} // verus!
