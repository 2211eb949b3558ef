//! The client for Anthropic, whose wire format differs from the canonical
//! model: the system prompt is a field of its own, only `user` and `assistant`
//! messages are sent, tools are `{name, description, input_schema}`, and an
//! answer is a list of typed content blocks.

use vstd::prelude::*;
use vstd::utf8::encode_utf8;
use crate::api::{
    header_views, tool_call_views, tool_views, message_views, ApiConfig, ChatCompletionRequest,
    ChatCompletionResponse, Choice, FunctionCall, FunctionCallView, Message, MessageView,
    RequestView, ToolCall, ToolCallView, ToolView,
};
use crate::error::GrokError;
use crate::text::{concat, copy_opt, from_chars, join, joined, owned, rows, same_str, to_chars};

verus! {

/// A message on the wire: a role and text.
#[derive(Clone, Debug)]
pub struct AnthropicMessage {
    pub role: String,
    pub content: String,
}

/// A tool on the wire.
#[derive(Clone, Debug)]
pub struct AnthropicTool {
    pub name: String,
    pub description: String,
    /// The schema of the tool's input, as JSON text.
    pub input_schema: String,
}

/// A request on the wire.
#[derive(Clone, Debug)]
pub struct AnthropicRequest {
    pub model: String,
    pub messages: Vec<AnthropicMessage>,
    pub system: Option<String>,
    pub max_tokens: u32,
    /// The sampling temperature in thousandths.
    pub temperature_milli: Option<u32>,
    pub tools: Option<Vec<AnthropicTool>>,
}

/// One content block of an answer.
#[derive(Clone, Debug)]
pub struct AnthropicContent {
    /// The wire field `type`: `text`, `tool_use`, or something else.
    pub kind: String,
    pub text: Option<String>,
    pub id: Option<String>,
    pub name: Option<String>,
    /// The input of a `tool_use` block, as JSON text.
    pub input: Option<String>,
}

/// An answer on the wire.
#[derive(Clone, Debug)]
pub struct AnthropicResponse {
    pub content: Vec<AnthropicContent>,
    pub stop_reason: Option<String>,
}

/// A wire message as contracts see it.
pub struct WireMessageView {
    pub role: Seq<char>,
    pub content: Seq<char>,
}

/// A wire tool as contracts see it.
pub struct WireToolView {
    pub name: Seq<char>,
    pub description: Seq<char>,
    pub input_schema: Seq<char>,
}

/// A wire request as contracts see it.
pub struct WireRequestView {
    pub model: Seq<char>,
    pub messages: Seq<WireMessageView>,
    pub system: Option<Seq<char>>,
    pub max_tokens: u32,
    pub temperature_milli: Option<u32>,
    pub tools: Option<Seq<WireToolView>>,
}

/// A content block as contracts see it.
pub struct BlockView {
    pub kind: Seq<char>,
    pub text: Option<Seq<char>>,
    pub id: Option<Seq<char>>,
    pub name: Option<Seq<char>>,
    pub input: Option<Seq<char>>,
}

impl View for AnthropicMessage {
    type V = WireMessageView;

    open spec fn view(&self) -> WireMessageView {
        WireMessageView { role: self.role@, content: self.content@ }
    }
}

impl View for AnthropicTool {
    type V = WireToolView;

    open spec fn view(&self) -> WireToolView {
        WireToolView {
            name: self.name@,
            description: self.description@,
            input_schema: self.input_schema@,
        }
    }
}

impl View for AnthropicRequest {
    type V = WireRequestView;

    open spec fn view(&self) -> WireRequestView {
        WireRequestView {
            model: self.model@,
            messages: self.messages@.map_values(|m: AnthropicMessage| m@),
            system: self.system.deep_view(),
            max_tokens: self.max_tokens,
            temperature_milli: self.temperature_milli,
            tools: match self.tools {
                Some(tools) => Some(tools@.map_values(|t: AnthropicTool| t@)),
                None => None,
            },
        }
    }
}

impl View for AnthropicContent {
    type V = BlockView;

    open spec fn view(&self) -> BlockView {
        BlockView {
            kind: self.kind@,
            text: self.text.deep_view(),
            id: self.id.deep_view(),
            name: self.name.deep_view(),
            input: self.input.deep_view(),
        }
    }
}

/// The views of a list of content blocks.
pub open spec fn block_views(blocks: Seq<AnthropicContent>) -> Seq<BlockView> {
    blocks.map_values(|b: AnthropicContent| b@)
}

/// The text of an option, empty where there is none.
pub open spec fn or_empty(text: Option<Seq<char>>) -> Seq<char> {
    match text {
        Some(t) => t,
        None => Seq::empty(),
    }
}

/// The roles that are sent to this provider.
pub open spec fn is_chat_role(role: Seq<char>) -> bool {
    role == "user"@ || role == "assistant"@
}

/// The messages that are sent: those of the roles `user` and `assistant`, in
/// order, each with its text (empty where it has none). Messages of any
/// other role are left out.
pub open spec fn wire_messages(messages: Seq<MessageView>) -> Seq<WireMessageView>
    decreases messages.len(),
{
    if messages.len() == 0 {
        seq![]
    } else {
        let m = messages.last();
        let front = wire_messages(messages.drop_last());
        if is_chat_role(m.role) {
            front.push(WireMessageView { role: m.role, content: or_empty(m.content) })
        } else {
            front
        }
    }
}

/// The system prompt that is sent: the text of the last `system` message.
pub open spec fn system_of(messages: Seq<MessageView>) -> Option<Seq<char>>
    decreases messages.len(),
{
    if messages.len() == 0 {
        None
    } else if messages.last().role == "system"@ {
        messages.last().content
    } else {
        system_of(messages.drop_last())
    }
}

/// The tools that are sent: name, description and schema of each.
pub open spec fn wire_tools(tools: Seq<ToolView>) -> Seq<WireToolView> {
    tools.map_values(
        |t: ToolView|
            WireToolView { name: t.name, description: t.description, input_schema: t.parameters },
    )
}

/// The wire request for a canonical request, by a client configured for
/// `model`.
pub open spec fn converted_request(model: Seq<char>, request: RequestView) -> WireRequestView {
    WireRequestView {
        model,
        messages: wire_messages(request.messages),
        system: system_of(request.messages),
        max_tokens: request.max_tokens,
        temperature_milli: Some(request.temperature_milli),
        tools: match request.tools {
            Some(tools) => Some(wire_tools(tools)),
            None => None,
        },
    }
}

/// The JSON text that stands for a missing input.
pub open spec fn input_text(input: Option<Seq<char>>) -> Seq<char> {
    match input {
        Some(t) => t,
        None => "null"@,
    }
}

/// The tool call that a `tool_use` block asks for.
pub open spec fn tool_call_of(block: BlockView) -> ToolCallView {
    ToolCallView {
        id: or_empty(block.id),
        kind: "function"@,
        function: FunctionCallView {
            name: or_empty(block.name),
            arguments: input_text(block.input),
        },
    }
}

/// The tool calls of the `tool_use` blocks, in order.
pub open spec fn tool_uses(blocks: Seq<BlockView>) -> Seq<ToolCallView>
    decreases blocks.len(),
{
    if blocks.len() == 0 {
        seq![]
    } else {
        let front = tool_uses(blocks.drop_last());
        if blocks.last().kind == "tool_use"@ {
            front.push(tool_call_of(blocks.last()))
        } else {
            front
        }
    }
}

/// The texts of the `text` blocks that carry text, in order.
pub open spec fn block_texts(blocks: Seq<BlockView>) -> Seq<Seq<char>>
    decreases blocks.len(),
{
    if blocks.len() == 0 {
        seq![]
    } else {
        let front = block_texts(blocks.drop_last());
        let b = blocks.last();
        if b.kind == "text"@ && b.text is Some {
            front.push(b.text->0)
        } else {
            front
        }
    }
}

/// The canonical message for the content blocks of an answer: the texts
/// joined by line feeds (no content where that is empty), and the tool calls
/// (none where there is no `tool_use` block).
pub open spec fn converted_response(blocks: Seq<BlockView>) -> MessageView {
    let text = join(block_texts(blocks), seq!['\n']);
    let calls = tool_uses(blocks);
    MessageView {
        role: "assistant"@,
        content: if text.len() == 0 {
            None
        } else {
            Some(text)
        },
        tool_calls: if calls.len() == 0 {
            None
        } else {
            Some(calls)
        },
        tool_call_id: None,
    }
}

/// A byte that may stand in the value of an HTTP header.
pub open spec fn header_byte_ok(b: u8) -> bool {
    (b >= 32 && b != 127) || b == 9
}

/// Every byte may stand in the value of an HTTP header.
pub open spec fn header_value_ok(bytes: Seq<u8>) -> bool {
    forall|i: int| 0 <= i < bytes.len() ==> header_byte_ok(#[trigger] bytes[i])
}

/// The headers of a request to this provider.
pub open spec fn anthropic_headers(api_key: Seq<char>) -> Seq<(Seq<char>, Seq<char>)> {
    seq![
        ("x-api-key"@, api_key),
        ("content-type"@, "application/json"@),
        ("anthropic-version"@, "2023-06-01"@),
    ]
}

/// Whether a text may be the value of an HTTP header: it holds no control
/// byte but the tab.
pub fn is_header_value(value: &str) -> (ok: bool)
    ensures
        ok == header_value_ok(encode_utf8(value@)),
{
    let bytes = value.as_bytes();
    let mut i: usize = 0;
    while i < bytes.len()
        invariant
            i <= bytes.len(),
            bytes@ == encode_utf8(value@),
            forall|k: int| 0 <= k < i ==> header_byte_ok(#[trigger] bytes@[k]),
        decreases bytes.len() - i,
    {
        let b = bytes[i];
        if !((b >= 32 && b != 127) || b == 9) {
            return false;
        }
        i += 1;
    }
    true
}

/// A client for Anthropic.
pub struct AnthropicClient {
    pub config: ApiConfig,
}

impl AnthropicClient {
    /// A client with the given configuration.
    pub fn new(config: ApiConfig) -> (client: Self)
        ensures
            client.config == config,
    {
        AnthropicClient { config }
    }

    /// The configuration that the client was made with.
    pub fn config(&self) -> (config: &ApiConfig)
        ensures
            *config == self.config,
    {
        &self.config
    }

    /// The address that completions are asked from.
    pub fn endpoint(&self) -> (url: String)
        ensures
            url@ == self.config.base_url@ + "/messages"@,
    {
        concat(self.config.base_url.as_str(), "/messages")
    }

    /// The headers of a request: the key, the content type and the version of
    /// the protocol. A key that cannot stand in a header is a configuration
    /// error.
    pub fn headers(&self) -> (out: Result<Vec<(String, String)>, GrokError>)
        ensures
            header_value_ok(encode_utf8(self.config.api_key@)) ==> (out matches Ok(h)
                && header_views(h@) == anthropic_headers(self.config.api_key@)),
            !header_value_ok(encode_utf8(self.config.api_key@)) ==> (out matches Err(e)
                && e is Config && e.detail() == "Invalid API key format"@),
    {
        if !is_header_value(self.config.api_key.as_str()) {
            return Err(GrokError::Config(owned("Invalid API key format")));
        }
        let mut out: Vec<(String, String)> = Vec::new();
        out.push((owned("x-api-key"), self.config.api_key.clone()));
        out.push((owned("content-type"), owned("application/json")));
        out.push((owned("anthropic-version"), owned("2023-06-01")));
        assert(header_views(out@) =~= anthropic_headers(self.config.api_key@));
        Ok(out)
    }

    /// Translates a canonical request into the wire format. The model is the
    /// one that the client is configured for.
    pub fn convert_request(&self, request: ChatCompletionRequest) -> (out: AnthropicRequest)
        ensures
            out@ == converted_request(self.config.model@, request@),
    {
        let mut messages: Vec<AnthropicMessage> = Vec::new();
        let mut system: Option<String> = None;
        let ghost all = message_views(request.messages@);
        let mut i: usize = 0;
        assert(all.take(0) =~= Seq::<MessageView>::empty());
        while i < request.messages.len()
            invariant
                i <= request.messages.len(),
                all == message_views(request.messages@),
                messages@.map_values(|m: AnthropicMessage| m@) == wire_messages(
                    all.take(i as int),
                ),
                system.deep_view() == system_of(all.take(i as int)),
            decreases request.messages.len() - i,
        {
            let msg = &request.messages[i];
            proof {
                let next = all.take(i + 1);
                assert(next.drop_last() =~= all.take(i as int));
                assert(next.last() == msg@);
            }
            if same_str(msg.role.as_str(), "system") {
                system = copy_opt(&msg.content);
                proof {
                    reveal_strlit("system");
                    reveal_strlit("user");
                    reveal_strlit("assistant");
                    assert("system"@.len() == 6);
                    assert("user"@.len() == 4);
                    assert("assistant"@.len() == 9);
                }
            } else if same_str(msg.role.as_str(), "user") || same_str(
                msg.role.as_str(),
                "assistant",
            ) {
                let content = match &msg.content {
                    Some(c) => c.clone(),
                    None => String::new(),
                };
                let ghost before = messages@.map_values(|m: AnthropicMessage| m@);
                let wire = AnthropicMessage { role: msg.role.clone(), content };
                messages.push(wire);
                assert(messages@.map_values(|m: AnthropicMessage| m@) =~= before.push(
                    WireMessageView { role: msg@.role, content: or_empty(msg@.content) },
                ));
            }
            i += 1;
        }
        assert(all.take(request.messages.len() as int) =~= all);
        let tools = match &request.tools {
            Some(list) => {
                let mut out: Vec<AnthropicTool> = Vec::new();
                let mut j: usize = 0;
                while j < list.len()
                    invariant
                        j <= list.len(),
                        out@.len() == j,
                        forall|k: int|
                            0 <= k < j ==> (#[trigger] out@[k])@ == (WireToolView {
                                name: list@[k]@.name,
                                description: list@[k]@.description,
                                input_schema: list@[k]@.parameters,
                            }),
                    decreases list.len() - j,
                {
                    let t = &list[j];
                    out.push(
                        AnthropicTool {
                            name: t.function.name.clone(),
                            description: t.function.description.clone(),
                            input_schema: t.function.parameters.clone(),
                        },
                    );
                    j += 1;
                }
                assert(out@.map_values(|t: AnthropicTool| t@) =~= wire_tools(tool_views(list@)));
                Some(out)
            },
            None => None,
        };
        AnthropicRequest {
            model: self.config.model.clone(),
            messages,
            system,
            max_tokens: request.max_tokens,
            temperature_milli: Some(request.temperature_milli),
            tools,
        }
    }

    /// Translates the wire answer into a canonical response with one choice.
    pub fn convert_response(&self, response: AnthropicResponse) -> (out: ChatCompletionResponse)
        ensures
            out@ == seq![converted_response(block_views(response.content@))],
            out.choices@.len() == 1,
            out.choices@[0].message@ == converted_response(block_views(response.content@)),
    {
        let mut calls: Vec<ToolCall> = Vec::new();
        let mut texts: Vec<Vec<char>> = Vec::new();
        let ghost all = block_views(response.content@);
        let mut i: usize = 0;
        assert(all.take(0) =~= Seq::<BlockView>::empty());
        while i < response.content.len()
            invariant
                i <= response.content.len(),
                all == block_views(response.content@),
                tool_call_views(calls@) == tool_uses(all.take(i as int)),
                rows(texts@) == block_texts(all.take(i as int)),
            decreases response.content.len() - i,
        {
            let block = &response.content[i];
            proof {
                let next = all.take(i + 1);
                assert(next.drop_last() =~= all.take(i as int));
                assert(next.last() == block@);
            }
            if same_str(block.kind.as_str(), "tool_use") {
                let id = match &block.id {
                    Some(t) => t.clone(),
                    None => String::new(),
                };
                let name = match &block.name {
                    Some(t) => t.clone(),
                    None => String::new(),
                };
                let arguments = match &block.input {
                    Some(t) => t.clone(),
                    None => owned("null"),
                };
                let ghost before = tool_call_views(calls@);
                calls.push(
                    ToolCall {
                        id,
                        kind: owned("function"),
                        function: FunctionCall { name, arguments },
                    },
                );
                assert(tool_call_views(calls@) =~= before.push(tool_call_of(block@)));
                proof {
                    reveal_strlit("tool_use");
                    reveal_strlit("text");
                    assert("tool_use"@.len() == 8);
                    assert("text"@.len() == 4);
                }
            } else if same_str(block.kind.as_str(), "text") {
                match &block.text {
                    Some(t) => {
                        let ghost before = rows(texts@);
                        texts.push(to_chars(t.as_str()));
                        assert(rows(texts@) =~= before.push(t@));
                    },
                    None => {},
                }
            }
            i += 1;
        }
        assert(all.take(response.content.len() as int) =~= all);
        let sep: Vec<char> = vec!['\n'];
        assert(sep@ =~= seq!['\n']);
        let text = joined(&texts, sep.as_slice());
        let content = if text.len() == 0 {
            None
        } else {
            Some(from_chars(text.as_slice()))
        };
        let tool_calls = if calls.len() == 0 {
            None
        } else {
            Some(calls)
        };
        let message = Message { role: owned("assistant"), content, tool_calls, tool_call_id: None };
        let mut choices: Vec<Choice> = Vec::new();
        choices.push(Choice { message });
        let out = ChatCompletionResponse { choices };
        assert(out@ =~= seq![converted_response(all)]);
        out
    }
}

} // verus!
