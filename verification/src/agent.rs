//! The conversation engine: one turn from a user's message to a final answer,
//! as a state machine.
//!
//! The engine owns the history and decides; it performs no call itself. Each
//! of its steps takes what happened (the model answered, the call failed, the
//! tools are done, a wait is over) and returns what to show and what to do
//! next: ask the model, wait, run a batch of tools, or stop.

use vstd::prelude::*;
use crate::api::{
    copy_messages, copy_tools, create_client, message_views, tool_views, ApiClient, ApiConfig,
    ChatCompletionRequest, ChatCompletionResponse, Failure, FailureView, Message, MessageView,
    RequestView, ResponseFormat, Tool, ToolCallView, ToolView,
};
use crate::cache::{
    after_get, after_put, distinct_keys, expired_count, get_result, spec_key, CacheStats,
    EntryView, ResponseCache,
};
use crate::dispatch::{
    completion_views, invocation_views, invocations, invocations_of, merge_results, merged,
    numbered, output_views, plan_batch, selected, BatchPlan, Completion, CompletionView,
    InvocationView, OutputView, ToolInvocation,
};
use crate::display::{action_of, display_result, displayed, icon_of, tool_action, tool_icon};
use crate::error::GrokError;
use crate::text::{
    blank, concat, concat3, contains, decimal, decimal_string, has, is_blank, owned, same_str,
    to_chars, views,
};

verus! {

/// The number of model calls that one turn may consume.
pub const MAX_ITERATIONS: u32 = 15;

/// The number of waits after a rate limit before an iteration is given up.
pub const MAX_RATE_LIMIT_RETRIES: u32 = 5;

/// The number of silent retries after a timeout.
pub const MAX_TIMEOUT_RETRIES: u32 = 3;

/// A server error is retried while the iteration counter is below this.
pub const SERVER_RETRY_ITERATIONS: u32 = 5;

/// The seconds to wait after a server error.
pub const SERVER_RETRY_SECONDS: u64 = 2;

/// The seconds of the first wait after a rate limit; each further wait is
/// twice as long.
pub const RATE_LIMIT_BASE_SECONDS: u64 = 5;

/// The sampling temperature of a chat request, in thousandths.
pub const CHAT_TEMPERATURE_MILLI: u32 = 700;

/// The token limit of a chat request.
pub const CHAT_MAX_TOKENS: u32 = 4096;

/// The sampling temperature of a summary request, in thousandths.
pub const SUMMARY_TEMPERATURE_MILLI: u32 = 500;

/// The token limit of a summary request.
pub const SUMMARY_MAX_TOKENS: u32 = 1000;

/// The capacity of the response cache.
pub const CACHE_ENTRIES: usize = 100;

/// The time to live of a cached response, in seconds.
pub const CACHE_TTL_SECONDS: u64 = 300;

/// What the engine tells whoever shows the conversation.
#[derive(Clone, Debug)]
pub enum TuiUpdate {
    /// A message entered the conversation.
    Message(Message),
    /// A tool starts.
    ToolStart { name: String, icon: String },
    /// A tool is done.
    ToolResult { name: String, result: String },
    /// Progress of the turn.
    Processing { message: String },
    /// The turn failed.
    Error { message: String },
    /// The turn is over.
    Complete,
}

/// An update as contracts see it.
pub enum UpdateView {
    Message(MessageView),
    ToolStart { name: Seq<char>, icon: Seq<char> },
    ToolResult { name: Seq<char>, result: Seq<char> },
    Processing { message: Seq<char> },
    Error { message: Seq<char> },
    Complete,
}

impl View for TuiUpdate {
    type V = UpdateView;

    open spec fn view(&self) -> UpdateView {
        match self {
            TuiUpdate::Message(m) => UpdateView::Message(m@),
            TuiUpdate::ToolStart { name, icon } => UpdateView::ToolStart {
                name: name@,
                icon: icon@,
            },
            TuiUpdate::ToolResult { name, result } => UpdateView::ToolResult {
                name: name@,
                result: result@,
            },
            TuiUpdate::Processing { message } => UpdateView::Processing { message: message@ },
            TuiUpdate::Error { message } => UpdateView::Error { message: message@ },
            TuiUpdate::Complete => UpdateView::Complete,
        }
    }
}

/// The views of a list of updates.
pub open spec fn update_views(updates: Seq<TuiUpdate>) -> Seq<UpdateView> {
    updates.map_values(|u: TuiUpdate| u@)
}

/// Where a turn stands.
#[derive(Clone, Copy, Debug, PartialEq, Eq, Structural)]
pub enum Phase {
    /// No turn was started yet.
    Idle,
    /// A request to the model is under way.
    AwaitingModel,
    /// A wait before the next request is under way.
    Waiting,
    /// A batch of tools is running.
    AwaitingTools,
    /// The turn is over.
    Finished,
}

/// How a turn ended.
#[derive(Clone, Copy, Debug, PartialEq, Eq, Structural)]
pub enum Outcome {
    /// The model answered in text and the caller asked for one answer.
    Answered,
    /// The budget of iterations is used up.
    MaxIterations,
    /// The provider refused for want of credits.
    CreditError,
    /// The provider did not answer in time, more often than is retried.
    TimedOut,
    /// The provider's servers kept failing.
    Unreachable,
    /// The call failed in a way that is not retried.
    Failed,
    /// The provider returned no choice.
    EmptyChoices,
    /// The model returned neither text nor tool calls.
    NothingToDo,
    /// The engine was told of something that it was not waiting for.
    OutOfTurn,
}

/// The kinds of failure that the engine tells apart.
#[derive(Clone, Copy, Debug, PartialEq, Eq, Structural)]
pub enum FailureClass {
    Credit,
    RateLimited,
    Timeout,
    Server,
    Other,
}

/// What to do next.
#[derive(Clone, Debug)]
pub enum Action {
    /// Ask the model. Where a key is given, a cached response under it
    /// serves instead, and a fresh response is stored under it.
    Query { request: ChatCompletionRequest, cache_key: Option<String> },
    /// Wait, then call [`GrokAgent::resume`].
    Wait { seconds: u64 },
    /// Run the tools, then call [`GrokAgent::on_tool_results`].
    Dispatch { plan: BatchPlan },
    /// Stop: the turn is over.
    Finish { outcome: Outcome },
}

/// An action as contracts see it.
pub enum ActionView {
    Query { request: RequestView, cache_key: Option<Seq<char>> },
    Wait { seconds: u64 },
    Dispatch { parallel: Seq<InvocationView>, sequential: Seq<InvocationView> },
    Finish { outcome: Outcome },
}

impl View for Action {
    type V = ActionView;

    open spec fn view(&self) -> ActionView {
        match self {
            Action::Query { request, cache_key } => ActionView::Query {
                request: request@,
                cache_key: cache_key.deep_view(),
            },
            Action::Wait { seconds } => ActionView::Wait { seconds: *seconds },
            Action::Dispatch { plan } => ActionView::Dispatch {
                parallel: invocation_views(plan.parallel@),
                sequential: invocation_views(plan.sequential@),
            },
            Action::Finish { outcome } => ActionView::Finish { outcome: *outcome },
        }
    }
}

/// What a step of the engine returns: what to show, then what to do.
#[derive(Clone, Debug)]
pub struct Reaction {
    pub updates: Vec<TuiUpdate>,
    pub action: Action,
}

/// The state of a turn as contracts see it.
pub struct TurnView {
    /// The history; entry 0 is the system message.
    pub messages: Seq<MessageView>,
    /// The texts that tools returned in this turn, in order.
    pub tool_results: Seq<Seq<char>>,
    /// The message that started the turn.
    pub user_message: Seq<char>,
    /// Whether the turn goes on after an answer in text.
    pub interactive: bool,
    /// Whether responses are cached.
    pub cache_enabled: bool,
    /// The iteration counter.
    pub iterations: nat,
    /// The waits after a rate limit since the last response.
    pub rate_limit_retries: nat,
    /// The timeouts since the last response.
    pub timeout_retries: nat,
    /// Where the turn stands.
    pub phase: Phase,
    /// The batch of tools that is running.
    pub pending: Seq<InvocationView>,
}

/// What does not change while turns run.
pub struct Settings {
    pub model: Seq<char>,
    pub tools: Seq<ToolView>,
    pub debug: bool,
}

/// The result of a step as contracts see it.
pub struct StepView {
    pub state: TurnView,
    pub updates: Seq<UpdateView>,
    pub action: ActionView,
}

/// The state is one that the engine can be in.
pub open spec fn turn_ok(s: TurnView) -> bool {
    &&& s.messages.len() >= 1
    &&& s.messages[0].role == "system"@
    &&& s.iterations <= MAX_ITERATIONS
    &&& s.timeout_retries <= MAX_TIMEOUT_RETRIES + 1
    &&& s.phase != Phase::Finished ==> s.timeout_retries <= MAX_TIMEOUT_RETRIES
    &&& s.phase == Phase::AwaitingModel ==> s.iterations >= 1 && s.rate_limit_retries + 1
        <= MAX_RATE_LIMIT_RETRIES + s.iterations
    &&& s.phase != Phase::AwaitingModel ==> s.rate_limit_retries <= MAX_RATE_LIMIT_RETRIES
        + s.iterations
    &&& s.phase == Phase::AwaitingTools ==> s.pending.len() > 0 && numbered(s.pending)
}

/// The iterations of the budget that are used up: those counted, without the
/// one whose request is under way.
pub open spec fn consumed(s: TurnView) -> int {
    if s.phase == Phase::AwaitingModel {
        s.iterations - 1
    } else {
        s.iterations as int
    }
}

/// The kind of a failure. A 403 whose body speaks of credits is a credit
/// error; 502, 503 and 504 are server errors.
pub open spec fn class_of(f: FailureView) -> FailureClass {
    match f {
        FailureView::RateLimited { .. } => FailureClass::RateLimited,
        FailureView::Timeout { .. } => FailureClass::Timeout,
        FailureView::ApiError { status, body } => if status == 403 && contains(body, "credits"@) {
            FailureClass::Credit
        } else if status == 502 || status == 503 || status == 504 {
            FailureClass::Server
        } else {
            FailureClass::Other
        },
        FailureView::TransportError { .. } => FailureClass::Other,
    }
}

/// The text of a failure, as it is shown when details are asked for.
pub open spec fn failure_detail(f: FailureView) -> Seq<char> {
    match f {
        FailureView::RateLimited { message, .. } => "Rate limit exceeded: "@ + message,
        FailureView::ApiError { status, body } => Failure::api_error_text(status, body),
        FailureView::Timeout { detail } => "Operation timed out: "@ + detail,
        FailureView::TransportError { detail } => "HTTP error: "@ + detail,
    }
}

/// The seconds to wait after the `retry`-th rate limit in a row: 5, and
/// twice as long each further time.
pub open spec fn backoff_seconds(retry: nat) -> nat
    decreases retry,
{
    if retry <= 1 {
        RATE_LIMIT_BASE_SECONDS as nat
    } else {
        2 * backoff_seconds((retry - 1) as nat)
    }
}

/// The notice that the turn starts.
pub open spec fn thinking_notice() -> Seq<char> {
    "🤔 Thinking"@
}

/// The notice that the budget of iterations is used up.
pub open spec fn max_iterations_notice() -> Seq<char> {
    "Max iterations reached. Stopping."@
}

/// The notice of a credit error.
pub open spec fn credit_notice() -> Seq<char> {
    "\n❌ API Credit Error Detected!\n\nIt looks like your credits haven't activated yet. This is common with xAI.\n\nQuick solutions:\n1. Wait 5-15 minutes for credits to activate\n2. Visit your team billing page to check status:\nhttps://console.x.ai/team/[your-team-id]\n3. Try regenerating your API key after credits show as available\n4. Use OpenAI instead: grok-code --dev (requires OPENAI_API_KEY)\n\nFor detailed troubleshooting, see: ./TROUBLESHOOTING_XAI.md"@
}

/// The notice that the provider did not answer in time.
pub open spec fn timeout_notice() -> Seq<char> {
    "\n⏱️  The request is taking longer than expected. This sometimes happens with complex requests.\nPlease try again with a simpler request or use --dev mode for faster responses."@
}

/// The notice that the provider cannot be reached.
pub open spec fn unreachable_notice() -> Seq<char> {
    "\n💬 I'm having trouble connecting right now. Please try again in a moment."@
}

/// The notice of any other failure, with the detail where it is asked for.
pub open spec fn failed_notice(debug: bool, detail: Seq<char>) -> Seq<char> {
    if debug {
        "\n❌ Something went wrong. Please try again."@ + "\nDEBUG: "@ + detail
    } else {
        "\n❌ Something went wrong. Please try again."@
    }
}

/// The notice that the provider returned no choice.
pub open spec fn empty_notice(debug: bool) -> Seq<char> {
    if debug {
        "❌ Empty response from API (no choices)."@ + "\nDEBUG: Empty API response received"@
    } else {
        "❌ Empty response from API (no choices)."@
    }
}

/// The notice that the model returned nothing to act on.
pub open spec fn nothing_notice() -> Seq<char> {
    "No content or tool calls in response."@
}

/// The notice that several tools start.
pub open spec fn batch_notice(count: nat) -> Seq<char> {
    "🔄 Executing "@ + decimal(count) + " tools concurrently..."@
}

/// The request that asks the model to continue the conversation. The last
/// iteration that the budget allows asks for a JSON object.
pub open spec fn chat_request(cfg: Settings, messages: Seq<MessageView>, structured: bool)
    -> RequestView {
    RequestView {
        model: cfg.model,
        messages,
        tools: Some(cfg.tools),
        tool_choice: "auto"@,
        temperature_milli: CHAT_TEMPERATURE_MILLI,
        max_tokens: CHAT_MAX_TOKENS,
        response_format: if structured {
            Some("json_object"@)
        } else {
            None
        },
    }
}

/// The end of a turn: the state is finished, the updates end with the signal
/// that the turn is over.
pub open spec fn finished(s: TurnView, outcome: Outcome, updates: Seq<UpdateView>) -> StepView {
    StepView {
        state: TurnView { phase: Phase::Finished, ..s },
        updates: updates.push(UpdateView::Complete),
        action: ActionView::Finish { outcome },
    }
}

/// The head of the loop. With the budget used up the turn ends. Otherwise the
/// iteration is counted and the model is asked, under a cache key where
/// caching is on and a tool has returned something in this turn. Progress is
/// shown unless the request repeats one that failed: retries are silent.
pub open spec fn head(cfg: Settings, s: TurnView) -> StepView {
    if s.iterations >= MAX_ITERATIONS {
        finished(s, Outcome::MaxIterations, seq![UpdateView::Processing { message: max_iterations_notice() }])
    } else {
        let n = s.iterations + 1;
        StepView {
            state: TurnView { iterations: n, phase: Phase::AwaitingModel, ..s },
            updates: if s.timeout_retries != 0 || s.rate_limit_retries != 0 {
                seq![]
            } else if n == 1 {
                seq![UpdateView::Processing { message: thinking_notice() }]
            } else {
                seq![UpdateView::Processing { message: "."@ }]
            },
            action: ActionView::Query {
                request: chat_request(cfg, s.messages, n == MAX_ITERATIONS),
                cache_key: if s.cache_enabled && s.tool_results.len() > 0 {
                    Some(spec_key(s.user_message, s.tool_results))
                } else {
                    None
                },
            },
        }
    }
}

/// The step for news that the engine was not waiting for: nothing changes,
/// nothing is shown, and the caller is told to stop.
pub open spec fn out_of_turn(s: TurnView) -> StepView {
    StepView { state: s, updates: seq![], action: ActionView::Finish { outcome: Outcome::OutOfTurn } }
}

/// The step after a wait, where the engine asked for one.
pub open spec fn resumed(cfg: Settings, s: TurnView) -> StepView {
    if s.phase == Phase::Waiting {
        head(cfg, s)
    } else {
        out_of_turn(s)
    }
}

/// The step after a failed call, where a call was under way.
pub open spec fn after_failure(cfg: Settings, s: TurnView, f: FailureView) -> StepView {
    if s.phase == Phase::AwaitingModel {
        failed(cfg, s, f)
    } else {
        out_of_turn(s)
    }
}

/// The step after a response, where a call was under way.
pub open spec fn after_response(cfg: Settings, s: TurnView, response: Seq<MessageView>)
    -> StepView {
    if s.phase == Phase::AwaitingModel {
        replied(cfg, s, response)
    } else {
        out_of_turn(s)
    }
}

/// The step after a batch of tools, where one was running.
pub open spec fn after_tools(cfg: Settings, s: TurnView, completions: Seq<CompletionView>)
    -> StepView {
    if s.phase == Phase::AwaitingTools {
        tools_done(cfg, s, completions)
    } else {
        out_of_turn(s)
    }
}

/// A step with updates put before its own.
pub open spec fn after(updates: Seq<UpdateView>, step: StepView) -> StepView {
    StepView { state: step.state, updates: updates + step.updates, action: step.action }
}

/// A message of the user.
pub open spec fn user_message_view(text: Seq<char>) -> MessageView {
    MessageView { role: "user"@, content: Some(text), tool_calls: None, tool_call_id: None }
}

/// The start of a turn: the user's message joins the history, what the last
/// turn accumulated is dropped, and the loop begins.
pub open spec fn started(
    cfg: Settings,
    s: TurnView,
    user_message: Seq<char>,
    interactive: bool,
    cache_enabled: bool,
) -> StepView {
    let m = user_message_view(user_message);
    after(
        seq![UpdateView::Message(m)],
        head(
            cfg,
            TurnView {
                messages: s.messages.push(m),
                tool_results: Seq::empty(),
                user_message,
                interactive,
                cache_enabled,
                iterations: 0,
                rate_limit_retries: 0,
                timeout_retries: 0,
                phase: Phase::Idle,
                pending: Seq::empty(),
            },
        ),
    )
}

/// The step after a failed call.
///
/// A credit error ends the turn at once. A rate limit is waited out, up to
/// five times, without use of the budget; after that the iteration is given
/// up and the loop goes on. A timeout is retried at once, up to three times,
/// without use of the budget; after that the turn ends. A server error is
/// retried after two seconds while the iteration counter is below five;
/// after that the turn ends. Any other failure ends the turn.
pub open spec fn failed(cfg: Settings, s: TurnView, f: FailureView) -> StepView {
    match class_of(f) {
        FailureClass::Credit => finished(
            s,
            Outcome::CreditError,
            seq![UpdateView::Error { message: credit_notice() }],
        ),
        FailureClass::RateLimited => {
            let r = s.rate_limit_retries + 1;
            if r > MAX_RATE_LIMIT_RETRIES {
                head(cfg, TurnView { rate_limit_retries: r, phase: Phase::Waiting, ..s })
            } else {
                StepView {
                    state: TurnView {
                        rate_limit_retries: r,
                        iterations: (s.iterations - 1) as nat,
                        phase: Phase::Waiting,
                        ..s
                    },
                    updates: seq![],
                    action: ActionView::Wait { seconds: backoff_seconds(r) as u64 },
                }
            }
        },
        FailureClass::Timeout => {
            let t = s.timeout_retries + 1;
            if t > MAX_TIMEOUT_RETRIES {
                finished(
                    TurnView { timeout_retries: t, ..s },
                    Outcome::TimedOut,
                    seq![UpdateView::Error { message: timeout_notice() }],
                )
            } else {
                head(
                    cfg,
                    TurnView {
                        timeout_retries: t,
                        iterations: (s.iterations - 1) as nat,
                        phase: Phase::Waiting,
                        ..s
                    },
                )
            }
        },
        FailureClass::Server => if s.iterations < SERVER_RETRY_ITERATIONS {
            StepView {
                state: TurnView {
                    iterations: (s.iterations - 1) as nat,
                    phase: Phase::Waiting,
                    ..s
                },
                updates: seq![],
                action: ActionView::Wait { seconds: SERVER_RETRY_SECONDS },
            }
        } else {
            finished(
                s,
                Outcome::Unreachable,
                seq![UpdateView::Error { message: unreachable_notice() }],
            )
        },
        FailureClass::Other => finished(
            s,
            Outcome::Failed,
            seq![UpdateView::Error { message: failed_notice(cfg.debug, failure_detail(f)) }],
        ),
    }
}

/// The updates that announce the tools of a batch.
pub open spec fn start_updates(calls: Seq<ToolCallView>) -> Seq<UpdateView> {
    Seq::new(
        calls.len(),
        |i: int|
            UpdateView::ToolStart {
                name: action_of(calls[i].function.name),
                icon: icon_of(calls[i].function.name),
            },
    )
}

/// The updates before a batch runs: a notice where it has several tools,
/// then each tool.
pub open spec fn batch_updates(calls: Seq<ToolCallView>) -> Seq<UpdateView> {
    if calls.len() > 1 {
        seq![UpdateView::Processing { message: batch_notice(calls.len()) }] + start_updates(calls)
    } else {
        start_updates(calls)
    }
}

/// The step for a message that asks for tools: the message joins the
/// history and the batch is handed out. An empty batch goes on with the loop.
pub open spec fn dispatching(cfg: Settings, s: TurnView, m: MessageView) -> StepView {
    let calls = m.tool_calls->0;
    let joined = TurnView { messages: s.messages.push(m), ..s };
    if calls.len() == 0 {
        head(cfg, joined)
    } else {
        let batch = invocations_of(calls);
        StepView {
            state: TurnView { pending: batch, phase: Phase::AwaitingTools, ..joined },
            updates: batch_updates(calls),
            action: ActionView::Dispatch {
                parallel: selected(batch, false),
                sequential: selected(batch, true),
            },
        }
    }
}

/// A message carries text that is not only white space.
pub open spec fn has_text(m: MessageView) -> bool {
    m.content is Some && !is_blank(m.content->0)
}

/// The step after the model answered.
///
/// Without a choice the turn ends. Otherwise the retry counters start again,
/// and the first choice decides. With text it joins the history and is shown;
/// a caller who asked for one answer is done, else its tool calls run, or the
/// loop goes on. Without text, tool calls run; blank text without tool calls
/// joins the history and the loop goes on; neither text nor tool calls ends
/// the turn.
pub open spec fn replied(cfg: Settings, s: TurnView, response: Seq<MessageView>) -> StepView {
    if response.len() == 0 {
        finished(
            s,
            Outcome::EmptyChoices,
            seq![UpdateView::Error { message: empty_notice(cfg.debug) }],
        )
    } else {
        let m = response[0];
        let fresh = TurnView { rate_limit_retries: 0, timeout_retries: 0, ..s };
        if has_text(m) {
            let told = TurnView { messages: fresh.messages.push(m), ..fresh };
            let shown = seq![UpdateView::Message(m)];
            if !s.interactive {
                finished(told, Outcome::Answered, shown)
            } else if m.tool_calls is Some {
                after(shown, dispatching(cfg, told, m))
            } else {
                after(shown, head(cfg, told))
            }
        } else if m.tool_calls is Some {
            dispatching(cfg, fresh, m)
        } else if m.content is Some {
            head(cfg, TurnView { messages: fresh.messages.push(m), ..fresh })
        } else {
            finished(
                fresh,
                Outcome::NothingToDo,
                seq![UpdateView::Processing { message: nothing_notice() }],
            )
        }
    }
}

/// The message that brings the result of a tool into the history.
pub open spec fn tool_message(o: OutputView) -> MessageView {
    MessageView {
        role: "tool"@,
        content: Some(o.result),
        tool_calls: None,
        tool_call_id: Some(o.id),
    }
}

/// The step after the tools of a batch are done: for each call, in the order
/// of the calls, its result is shown, joins the results of the turn, and
/// joins the history as a message that names the call. Then the loop goes on.
pub open spec fn tools_done(cfg: Settings, s: TurnView, completions: Seq<CompletionView>)
    -> StepView {
    let outputs = merged(s.pending, completions);
    after(
        Seq::new(
            outputs.len(),
            |i: int|
                UpdateView::ToolResult {
                    name: outputs[i].name,
                    result: displayed(outputs[i].name, outputs[i].result),
                },
        ),
        head(
            cfg,
            TurnView {
                messages: s.messages + Seq::new(outputs.len(), |i: int| tool_message(outputs[i])),
                tool_results: s.tool_results + Seq::new(outputs.len(), |i: int| outputs[i].result),
                pending: Seq::empty(),
                phase: Phase::Waiting,
                ..s
            },
        ),
    )
}

/// The system message for a project and its summary.
pub open spec fn system_prompt(project_root: Seq<char>, label: Seq<char>, summary: Seq<char>)
    -> Seq<char> {
    "You are Grok Code, a helpful coding agent. You have access to the user's project at "@
        + project_root + ". "@ + label + summary
        + "\n\nUse the available tools to help the user. Be smart about which tools to use - for simple summaries, you might only need to read key files. For deeper analysis or when asked to find issues, you can use lint or search tools. Match your tool usage to what the user actually asked for."@
}

/// The request that asks for a summary of the project.
pub open spec fn summary_request_view(model: Seq<char>, summary: Seq<char>) -> RequestView {
    RequestView {
        model,
        messages: seq![
            MessageView {
                role: "system"@,
                content: Some("You are an expert at summarizing codebases concisely."@),
                tool_calls: None,
                tool_call_id: None,
            },
            MessageView {
                role: "user"@,
                content: Some(
                    "Provide a concise summary of this project structure for an AI coding agent to use as context. Highlight key files, directories, and potential main components:\n"@
                        + summary,
                ),
                tool_calls: None,
                tool_call_id: None,
            },
        ],
        tools: None,
        tool_choice: "none"@,
        temperature_milli: SUMMARY_TEMPERATURE_MILLI,
        max_tokens: SUMMARY_MAX_TOKENS,
        response_format: None,
    }
}

/// The state in which the model is asked again after each of the given
/// failures was answered by a wait and the wait is over.
pub open spec fn after_waits(cfg: Settings, s: TurnView, failures: Seq<FailureView>) -> TurnView
    decreases failures.len(),
{
    if failures.len() == 0 {
        s
    } else {
        head(cfg, failed(cfg, after_waits(cfg, s, failures.drop_last()), failures.last()).state).state
    }
}

/// One rate limit, while fewer than five were waited out in a row: the engine
/// asks for a wait of 5 seconds times two to the number of earlier waits, and
/// after the wait asks the model again, with nothing of the budget used.
pub proof fn law_rate_limit_wait_is_free(cfg: Settings, s: TurnView, f: FailureView)
    requires
        turn_ok(s),
        s.phase == Phase::AwaitingModel,
        class_of(f) == FailureClass::RateLimited,
        s.rate_limit_retries < MAX_RATE_LIMIT_RETRIES,
    ensures
        failed(cfg, s, f).action == (ActionView::Wait {
            seconds: backoff_seconds(s.rate_limit_retries + 1) as u64,
        }),
        failed(cfg, s, f).updates.len() == 0,
        turn_ok(failed(cfg, s, f).state),
        failed(cfg, s, f).state.phase == Phase::Waiting,
        consumed(failed(cfg, s, f).state) == consumed(s),
        turn_ok(head(cfg, failed(cfg, s, f).state).state),
        head(cfg, failed(cfg, s, f).state).state.phase == Phase::AwaitingModel,
        head(cfg, failed(cfg, s, f).state).state.rate_limit_retries == s.rate_limit_retries + 1,
        head(cfg, failed(cfg, s, f).state).state.messages == s.messages,
        consumed(head(cfg, failed(cfg, s, f).state).state) == consumed(s),
{
}

/// Every response uses exactly one iteration of the budget.
pub proof fn law_response_uses_one_iteration(
    cfg: Settings,
    s: TurnView,
    response: Seq<MessageView>,
)
    requires
        turn_ok(s),
        s.phase == Phase::AwaitingModel,
    ensures
        consumed(replied(cfg, s, response).state) == consumed(s) + 1,
        turn_ok(replied(cfg, s, response).state),
{
}

/// Iteration accounting: K rate limits in a row (with the waits before them
/// at most five), each waited out, and then a response use nothing of the
/// budget for the failures and exactly one iteration for the response.
pub proof fn law_iteration_accounting(
    cfg: Settings,
    s: TurnView,
    failures: Seq<FailureView>,
    response: Seq<MessageView>,
)
    requires
        turn_ok(s),
        s.phase == Phase::AwaitingModel,
        forall|i: int|
            0 <= i < failures.len() ==> class_of(#[trigger] failures[i])
                == FailureClass::RateLimited,
        s.rate_limit_retries + failures.len() <= MAX_RATE_LIMIT_RETRIES,
    ensures
        turn_ok(after_waits(cfg, s, failures)),
        after_waits(cfg, s, failures).phase == Phase::AwaitingModel,
        after_waits(cfg, s, failures).rate_limit_retries == s.rate_limit_retries + failures.len(),
        consumed(after_waits(cfg, s, failures)) == consumed(s),
        consumed(replied(cfg, after_waits(cfg, s, failures), response).state) == consumed(s) + 1,
    decreases failures.len(),
{
    if failures.len() > 0 {
        let front = failures.drop_last();
        assert forall|i: int| 0 <= i < front.len() implies class_of(#[trigger] front[i])
            == FailureClass::RateLimited by {
            assert(front[i] == failures[i]);
        }
        law_iteration_accounting(cfg, s, front, response);
        law_rate_limit_wait_is_free(cfg, after_waits(cfg, s, front), failures.last());
    }
    law_response_uses_one_iteration(cfg, after_waits(cfg, s, failures), response);
}

/// A credit error ends the turn at the first failure: nothing is retried and
/// nothing joins the history.
pub proof fn law_credit_error_ends_turn(cfg: Settings, s: TurnView, status: u16, body: Seq<char>)
    requires
        status == 403,
        contains(body, "credits"@),
    ensures
        failed(cfg, s, FailureView::ApiError { status, body }).action == (ActionView::Finish {
            outcome: Outcome::CreditError,
        }),
        failed(cfg, s, FailureView::ApiError { status, body }).state.phase == Phase::Finished,
        failed(cfg, s, FailureView::ApiError { status, body }).state.messages == s.messages,
        failed(cfg, s, FailureView::ApiError { status, body }).state.iterations == s.iterations,
{
}

/// A response without choices ends the turn, and nothing joins the history.
pub proof fn law_empty_choices_end_turn(cfg: Settings, s: TurnView)
    ensures
        replied(cfg, s, Seq::empty()).action == (ActionView::Finish {
            outcome: Outcome::EmptyChoices,
        }),
        replied(cfg, s, Seq::empty()).state.phase == Phase::Finished,
        replied(cfg, s, Seq::empty()).state.messages == s.messages,
{
}

/// The history only grows: every step of a turn keeps the messages that were
/// there, in their places.
pub proof fn law_history_is_append_only(
    cfg: Settings,
    s: TurnView,
    f: FailureView,
    response: Seq<MessageView>,
    completions: Seq<CompletionView>,
    user_message: Seq<char>,
    interactive: bool,
    cache_enabled: bool,
)
    ensures
        s.messages.is_prefix_of(head(cfg, s).state.messages),
        s.messages.is_prefix_of(failed(cfg, s, f).state.messages),
        s.messages.is_prefix_of(replied(cfg, s, response).state.messages),
        s.messages.is_prefix_of(tools_done(cfg, s, completions).state.messages),
        s.messages.is_prefix_of(
            started(cfg, s, user_message, interactive, cache_enabled).state.messages,
        ),
{
}

/// Every step keeps the state one that the engine can be in.
pub proof fn law_steps_keep_state_valid(
    cfg: Settings,
    s: TurnView,
    f: FailureView,
    response: Seq<MessageView>,
    completions: Seq<CompletionView>,
    user_message: Seq<char>,
    interactive: bool,
    cache_enabled: bool,
)
    requires
        turn_ok(s),
    ensures
        turn_ok(started(cfg, s, user_message, interactive, cache_enabled).state),
        turn_ok(resumed(cfg, s).state),
        turn_ok(after_failure(cfg, s, f).state),
        turn_ok(after_response(cfg, s, response).state),
        turn_ok(after_tools(cfg, s, completions).state),
{
    if s.phase == Phase::AwaitingTools {
        let outputs = merged(s.pending, completions);
        let grown = s.messages + Seq::new(outputs.len(), |i: int| tool_message(outputs[i]));
        assert(grown[0] == s.messages[0]);
    }
}

/// Tool results follow the calls: when the model asks for tools and the
/// tools are done, the history grows by one message of the role `tool` for
/// each call, in the order of the calls, and each names its call.
pub proof fn law_tool_results_follow_calls(
    cfg: Settings,
    s: TurnView,
    m: MessageView,
    completions: Seq<CompletionView>,
)
    requires
        m.tool_calls is Some,
        m.tool_calls->0.len() > 0,
    ensures
        ({
            let asked = dispatching(cfg, s, m).state;
            let done = tools_done(cfg, asked, completions).state;
            let calls = m.tool_calls->0;
            &&& asked.phase == Phase::AwaitingTools
            &&& done.messages.len() == asked.messages.len() + calls.len()
            &&& forall|i: int|
                0 <= i < calls.len() ==> {
                    &&& (#[trigger] done.messages[asked.messages.len() + i]).role == "tool"@
                    &&& done.messages[asked.messages.len() + i].tool_call_id == Some(calls[i].id)
                    &&& done.messages[asked.messages.len() + i].content is Some
                }
            &&& done.tool_results.len() == asked.tool_results.len() + calls.len()
        }),
{
    let asked = dispatching(cfg, s, m).state;
    let calls = m.tool_calls->0;
    let outputs = merged(asked.pending, completions);
    assert(asked.pending == invocations_of(calls));
    let grown = asked.messages + Seq::new(outputs.len(), |i: int| tool_message(outputs[i]));
    assert forall|i: int| 0 <= i < calls.len() implies {
        &&& (#[trigger] grown[asked.messages.len() + i]).role == "tool"@
        &&& grown[asked.messages.len() + i].tool_call_id == Some(calls[i].id)
        &&& grown[asked.messages.len() + i].content is Some
    } by {
        assert(grown[asked.messages.len() + i] == tool_message(outputs[i]));
    }
}

/// The lines of a project summary: a heading, then each file behind a dash.
/// After the 201st file the list is cut with a note.
pub open spec fn file_listing(files: Seq<Seq<char>>) -> Seq<char>
    decreases files.len(),
{
    if files.len() == 0 {
        "Project structure:\n"@
    } else if files.len() > 201 {
        file_listing(files.take(201))
    } else if files.len() == 201 {
        file_listing(files.drop_last()) + "- "@ + files.last() + "\n"@
            + "... (truncated for size)\n"@
    } else {
        file_listing(files.drop_last()) + "- "@ + files.last() + "\n"@
    }
}

/// What an agent holds besides the state of the turn.
pub struct FixedView {
    pub settings: Settings,
    pub project_root: Seq<char>,
    pub dry_run: bool,
    pub no_confirm: bool,
    pub cache_capacity: nat,
    pub cache_ttl: nat,
}

/// The coding agent: the conversation, the tools it offers to the model, the
/// response cache, and the state of the turn that is under way.
pub struct GrokAgent {
    api_client: ApiClient,
    messages: Vec<Message>,
    tools: Vec<Tool>,
    project_root: String,
    codebase_summary: String,
    dry_run: bool,
    no_confirm: bool,
    debug: bool,
    response_cache: ResponseCache,
    user_message: String,
    interactive: bool,
    cache_enabled: bool,
    tool_results: Vec<String>,
    iterations: u32,
    rate_limit_retries: u32,
    timeout_retries: u32,
    phase: Phase,
    pending: Vec<ToolInvocation>,
}

fn backoff(retry: u32) -> (seconds: u64)
    requires
        1 <= retry <= MAX_RATE_LIMIT_RETRIES,
    ensures
        seconds == backoff_seconds(retry as nat),
        seconds <= 80,
{
    proof {
        reveal_with_fuel(backoff_seconds, 6);
    }
    if retry == 1 {
        5
    } else if retry == 2 {
        10
    } else if retry == 3 {
        20
    } else if retry == 4 {
        40
    } else {
        80
    }
}

fn classify(failure: &Failure) -> (class: FailureClass)
    ensures
        class == class_of(failure@),
{
    match failure {
        Failure::RateLimited { .. } => FailureClass::RateLimited,
        Failure::Timeout { .. } => FailureClass::Timeout,
        Failure::ApiError { status, body } => {
            if *status == 403 {
                let text = to_chars(body.as_str());
                let word = to_chars("credits");
                if has(text.as_slice(), word.as_slice()) {
                    FailureClass::Credit
                } else {
                    FailureClass::Other
                }
            } else if *status == 502 || *status == 503 || *status == 504 {
                FailureClass::Server
            } else {
                FailureClass::Other
            }
        },
        Failure::TransportError { .. } => FailureClass::Other,
    }
}

fn detail_of(failure: &Failure) -> (text: String)
    ensures
        text@ == failure_detail(failure@),
{
    match failure {
        Failure::RateLimited { message, .. } => concat("Rate limit exceeded: ", message.as_str()),
        Failure::ApiError { status, body } => {
            let number = decimal_string(*status as u64);
            let head = concat("API error ", number.as_str());
            let head = concat(head.as_str(), ": ");
            concat(head.as_str(), body.as_str())
        },
        Failure::Timeout { detail } => concat("Operation timed out: ", detail.as_str()),
        Failure::TransportError { detail } => concat("HTTP error: ", detail.as_str()),
    }
}

fn system_text(project_root: &str, label: &str, summary: &str) -> (text: String)
    ensures
        text@ == system_prompt(project_root@, label@, summary@),
{
    let mut out = to_chars(
        "You are Grok Code, a helpful coding agent. You have access to the user's project at ",
    );
    crate::text::extend_str(&mut out, project_root);
    crate::text::extend_str(&mut out, ". ");
    crate::text::extend_str(&mut out, label);
    crate::text::extend_str(&mut out, summary);
    crate::text::extend_str(
        &mut out,
        "\n\nUse the available tools to help the user. Be smart about which tools to use - for simple summaries, you might only need to read key files. For deeper analysis or when asked to find issues, you can use lint or search tools. Match your tool usage to what the user actually asked for.",
    );
    crate::text::from_chars(out.as_slice())
}

impl GrokAgent {
    /// The state of the turn.
    pub closed spec fn view(&self) -> TurnView {
        TurnView {
            messages: message_views(self.messages@),
            tool_results: views(self.tool_results@),
            user_message: self.user_message@,
            interactive: self.interactive,
            cache_enabled: self.cache_enabled,
            iterations: self.iterations as nat,
            rate_limit_retries: self.rate_limit_retries as nat,
            timeout_retries: self.timeout_retries as nat,
            phase: self.phase,
            pending: invocation_views(self.pending@),
        }
    }

    /// What the agent was made with.
    pub closed spec fn fixed(&self) -> FixedView {
        FixedView {
            settings: Settings {
                model: self.api_client.spec_config().model@,
                tools: tool_views(self.tools@),
                debug: self.debug,
            },
            project_root: self.project_root@,
            dry_run: self.dry_run,
            no_confirm: self.no_confirm,
            cache_capacity: self.response_cache.capacity(),
            cache_ttl: self.response_cache.ttl(),
        }
    }

    /// The client that the agent talks through.
    pub closed spec fn client(&self) -> ApiClient {
        self.api_client
    }

    /// The current summary of the project.
    pub closed spec fn summary(&self) -> Seq<char> {
        self.codebase_summary@
    }

    /// The entries of the response cache.
    pub closed spec fn cache(&self) -> Seq<EntryView> {
        self.response_cache@
    }

    /// The agent is well formed: its turn is in a state that the engine can
    /// be in, and no two cache entries share a key.
    pub closed spec fn wf(&self) -> bool {
        &&& turn_ok(self@)
        &&& self.response_cache.wf()
    }

    /// A well-formed agent's turn is in a state that the engine can be in.
    pub proof fn lemma_wf(&self)
        requires
            self.wf(),
        ensures
            turn_ok(self@),
            distinct_keys(self.cache()),
    {
    }

    /// An agent for the provider of the given name, with a conversation that
    /// holds the system message for the project and its summary, an empty
    /// cache of 100 responses that live 300 seconds, and no turn under way.
    /// A name that stands for no provider is a configuration error.
    pub fn new(
        provider: &str,
        api_config: ApiConfig,
        project_root: &str,
        codebase_summary: &str,
        tools: Vec<Tool>,
        dry_run: bool,
        auto_approve: bool,
        debug: bool,
    ) -> (out: Result<Self, GrokError>)
        ensures
            crate::api::provider_of(provider@) is Some ==> (out matches Ok(agent) && agent.wf()
                && agent@ == (TurnView {
                messages: seq![
                    MessageView {
                        role: "system"@,
                        content: Some(
                            system_prompt(project_root@, "Summary: "@, codebase_summary@),
                        ),
                        tool_calls: None,
                        tool_call_id: None,
                    },
                ],
                tool_results: Seq::empty(),
                user_message: Seq::empty(),
                interactive: false,
                cache_enabled: false,
                iterations: 0,
                rate_limit_retries: 0,
                timeout_retries: 0,
                phase: Phase::Idle,
                pending: Seq::empty(),
            }) && agent.fixed() == (FixedView {
                settings: Settings { model: api_config.model@, tools: tool_views(tools@), debug },
                project_root: project_root@,
                dry_run,
                no_confirm: auto_approve,
                cache_capacity: CACHE_ENTRIES as nat,
                cache_ttl: CACHE_TTL_SECONDS as nat,
            }) && agent.summary() == codebase_summary@ && agent.cache() == Seq::<
                EntryView,
            >::empty() && Some(agent.client().provider()) == crate::api::provider_of(provider@)
                && agent.client().spec_config() == api_config),
            crate::api::provider_of(provider@) is None ==> (out matches Err(e) && e is Config
                && e.detail() == "Unknown API provider: "@ + provider@),
    {
        let api_client = match create_client(provider, api_config) {
            Ok(c) => c,
            Err(e) => {
                return Err(e);
            },
        };
        let text = system_text(project_root, "Summary: ", codebase_summary);
        let mut messages: Vec<Message> = Vec::new();
        messages.push(Message::plain("system", text));
        let agent = GrokAgent {
            api_client,
            messages,
            tools,
            project_root: owned(project_root),
            codebase_summary: owned(codebase_summary),
            dry_run,
            no_confirm: auto_approve,
            debug,
            response_cache: ResponseCache::new(CACHE_ENTRIES, CACHE_TTL_SECONDS),
            user_message: String::new(),
            interactive: false,
            cache_enabled: false,
            tool_results: Vec::new(),
            iterations: 0,
            rate_limit_retries: 0,
            timeout_retries: 0,
            phase: Phase::Idle,
            pending: Vec::new(),
        };
        proof {
            assert(agent@.messages =~= seq![agent.messages@[0]@]);
            assert(agent@.tool_results =~= Seq::<Seq<char>>::empty());
            assert(agent@.pending =~= Seq::<InvocationView>::empty());
            assert(agent@.user_message =~= Seq::<char>::empty());
        }
        Ok(agent)
    }

    /// The summary of a project from the paths of its files, in the order in
    /// which they were found.
    pub fn generate_codebase_summary(files: &[String]) -> (summary: String)
        ensures
            summary@ == file_listing(views(files@)),
    {
        let mut out = to_chars("Project structure:\n");
        let ghost all = views(files@);
        let mut i: usize = 0;
        assert(all.take(0) =~= Seq::<Seq<char>>::empty());
        while i < files.len() && i < 201
            invariant
                i <= files.len(),
                i <= 201,
                all == views(files@),
                i < 201 ==> out@ == file_listing(all.take(i as int)),
                i == 201 ==> out@ == file_listing(all.take(201)),
            decreases files.len() - i,
        {
            proof {
                let next = all.take(i + 1);
                assert(next.drop_last() =~= all.take(i as int));
                assert(next.last() == files@[i as int]@);
            }
            crate::text::extend_str(&mut out, "- ");
            crate::text::extend_str(&mut out, files[i].as_str());
            crate::text::extend_str(&mut out, "\n");
            i += 1;
            if i == 201 {
                crate::text::extend_str(&mut out, "... (truncated for size)\n");
            }
        }
        proof {
            if i < 201 {
                assert(all.take(files.len() as int) =~= all);
            } else if files.len() == 201 {
                assert(all.take(201) =~= all);
            }
        }
        crate::text::from_chars(out.as_slice())
    }

    /// The client that the agent talks through.
    pub fn api_client(&self) -> (client: &ApiClient)
        ensures
            *client == self.client(),
            client.spec_config().model@ == self.fixed().settings.model,
    {
        &self.api_client
    }

    /// Where the turn stands.
    pub fn phase(&self) -> (phase: Phase)
        ensures
            phase == self@.phase,
    {
        self.phase
    }

    /// Whether tools describe what they would do instead of doing it.
    pub fn dry_run(&self) -> (b: bool)
        ensures
            b == self.fixed().dry_run,
    {
        self.dry_run
    }

    /// Whether tools act without asking.
    pub fn no_confirm(&self) -> (b: bool)
        ensures
            b == self.fixed().no_confirm,
    {
        self.no_confirm
    }

    /// The root of the project.
    pub fn project_root(&self) -> (root: &str)
        ensures
            root@ == self.fixed().project_root,
    {
        self.project_root.as_str()
    }

    /// The number of messages in the history.
    pub fn message_count(&self) -> (n: usize)
        ensures
            n == self@.messages.len(),
    {
        self.messages.len()
    }

    /// Copies of the last `count` messages, or of all where there are fewer.
    pub fn get_recent_messages(&self, count: usize) -> (out: Vec<Message>)
        ensures
            message_views(out@) == self@.messages.skip(
                if self@.messages.len() > count {
                    self@.messages.len() - count
                } else {
                    0
                },
            ),
            out@.len() == if self@.messages.len() > count {
                count as int
            } else {
                self@.messages.len() as int
            },
    {
        let len = self.messages.len();
        let start: usize = if len > count {
            len - count
        } else {
            0
        };
        let part = &self.messages.as_slice()[start..len];
        let out = copy_messages(part);
        assert(message_views(part@) =~= message_views(self.messages@).skip(start as int));
        out
    }

    /// The last message of the assistant, if there is one.
    pub fn get_last_assistant_message(&self) -> (out: Option<&Message>)
        ensures
            match out {
                Some(m) => exists|i: int|
                    0 <= i < self@.messages.len() && #[trigger] self@.messages[i] == m@
                        && m@.role == "assistant"@ && forall|j: int|
                        i < j < self@.messages.len() ==> (#[trigger] self@.messages[j]).role
                            != "assistant"@,
                None => forall|j: int|
                    0 <= j < self@.messages.len() ==> (#[trigger] self@.messages[j]).role
                        != "assistant"@,
            },
    {
        let mut i: usize = self.messages.len();
        while i > 0
            invariant
                i <= self.messages.len(),
                forall|j: int|
                    i <= j < self.messages.len() ==> (#[trigger] message_views(
                        self.messages@,
                    )[j]).role != "assistant"@,
            decreases i,
        {
            i -= 1;
            if same_str(self.messages[i].role.as_str(), "assistant") {
                assert(message_views(self.messages@)[i as int] == self.messages[i as int]@);
                return Some(&self.messages[i]);
            }
        }
        None
    }

    /// The messages from position `index` on; none where the history is not
    /// that long.
    pub fn get_messages_since(&self, index: usize) -> (out: &[Message])
        ensures
            index < self@.messages.len() ==> message_views(out@) == self@.messages.skip(
                index as int,
            ),
            index < self@.messages.len() ==> out@.len() == self@.messages.len() - index,
            index >= self@.messages.len() ==> out@.len() == 0,
    {
        let len = self.messages.len();
        let start: usize = if index < len {
            index
        } else {
            len
        };
        let part = &self.messages.as_slice()[start..len];
        assert(message_views(part@) =~= message_views(self.messages@).skip(start as int));
        part
    }

    fn finish(&mut self, outcome: Outcome, updates: Vec<TuiUpdate>) -> (r: Reaction)
        ensures
            final(self)@ == finished(old(self)@, outcome, update_views(updates@)).state,
            update_views(r.updates@) == finished(
                old(self)@,
                outcome,
                update_views(updates@),
            ).updates,
            r.action@ == finished(old(self)@, outcome, update_views(updates@)).action,
            final(self).fixed() == old(self).fixed(),
            final(self).cache() == old(self).cache(),
            final(self).summary() == old(self).summary(),
            final(self).response_cache.wf() == old(self).response_cache.wf(),
    {
        let mut updates = updates;
        let ghost before = update_views(updates@);
        updates.push(TuiUpdate::Complete);
        assert(update_views(updates@) =~= before.push(UpdateView::Complete));
        self.phase = Phase::Finished;
        Reaction { updates, action: Action::Finish { outcome } }
    }

    fn head(&mut self, updates: Vec<TuiUpdate>) -> (r: Reaction)
        requires
            old(self)@.iterations <= MAX_ITERATIONS,
        ensures
            final(self)@ == head(old(self).fixed().settings, old(self)@).state,
            update_views(r.updates@) == update_views(updates@) + head(
                old(self).fixed().settings,
                old(self)@,
            ).updates,
            r.action@ == head(old(self).fixed().settings, old(self)@).action,
            final(self).fixed() == old(self).fixed(),
            final(self).cache() == old(self).cache(),
            final(self).summary() == old(self).summary(),
            final(self).response_cache.wf() == old(self).response_cache.wf(),
    {
        let mut updates = updates;
        let ghost before = update_views(updates@);
        if self.iterations >= MAX_ITERATIONS {
            updates.push(
                TuiUpdate::Processing { message: owned("Max iterations reached. Stopping.") },
            );
            assert(update_views(updates@) =~= before.push(
                UpdateView::Processing { message: max_iterations_notice() },
            ));
            let r = self.finish(Outcome::MaxIterations, updates);
            assert(update_views(r.updates@) =~= before.push(
                UpdateView::Processing { message: max_iterations_notice() },
            ).push(UpdateView::Complete));
            assert(update_views(r.updates@) =~= before + head(
                old(self).fixed().settings,
                old(self)@,
            ).updates);
            return r;
        }
        self.iterations = self.iterations + 1;
        if self.timeout_retries != 0 || self.rate_limit_retries != 0 {
        } else if self.iterations == 1 {
            updates.push(TuiUpdate::Processing { message: owned("🤔 Thinking") });
        } else {
            updates.push(TuiUpdate::Processing { message: owned(".") });
        }
        assert(update_views(updates@) =~= before + head(
            old(self).fixed().settings,
            old(self)@,
        ).updates);
        let structured = self.iterations == MAX_ITERATIONS;
        let cache_key = if self.cache_enabled && self.tool_results.len() > 0 {
            Some(
                ResponseCache::generate_key(
                    self.user_message.as_str(),
                    self.tool_results.as_slice(),
                ),
            )
        } else {
            None
        };
        let response_format = if structured {
            Some(ResponseFormat { kind: owned("json_object") })
        } else {
            None
        };
        let request = ChatCompletionRequest {
            model: self.api_client.config().model.clone(),
            messages: copy_messages(self.messages.as_slice()),
            tools: Some(copy_tools(&self.tools)),
            tool_choice: owned("auto"),
            temperature_milli: CHAT_TEMPERATURE_MILLI,
            max_tokens: CHAT_MAX_TOKENS,
            response_format,
        };
        self.phase = Phase::AwaitingModel;
        Reaction { updates, action: Action::Query { request, cache_key } }
    }

    /// Starts a turn with a message of the user. `interactive` says whether
    /// the turn goes on after the model answered in text; `cache_enabled`
    /// whether responses are cached.
    pub fn process_prompt(&mut self, user_message: &str, interactive: bool, cache_enabled: bool)
        -> (r: Reaction)
        requires
            old(self).wf(),
        ensures
            final(self).wf(),
            final(self)@ == started(
                old(self).fixed().settings,
                old(self)@,
                user_message@,
                interactive,
                cache_enabled,
            ).state,
            update_views(r.updates@) == started(
                old(self).fixed().settings,
                old(self)@,
                user_message@,
                interactive,
                cache_enabled,
            ).updates,
            r.action@ == started(
                old(self).fixed().settings,
                old(self)@,
                user_message@,
                interactive,
                cache_enabled,
            ).action,
            final(self).fixed() == old(self).fixed(),
            final(self).cache() == old(self).cache(),
            final(self).summary() == old(self).summary(),
    {
        let message = Message::plain("user", owned(user_message));
        let shown = message.duplicate();
        let ghost before = message_views(self.messages@);
        self.messages.push(message);
        assert(message_views(self.messages@) =~= before.push(user_message_view(user_message@)));
        self.tool_results = Vec::new();
        self.user_message = owned(user_message);
        self.interactive = interactive;
        self.cache_enabled = cache_enabled;
        self.iterations = 0;
        self.rate_limit_retries = 0;
        self.timeout_retries = 0;
        self.phase = Phase::Idle;
        self.pending = Vec::new();
        assert(views(self.tool_results@) =~= Seq::<Seq<char>>::empty());
        assert(invocation_views(self.pending@) =~= Seq::<InvocationView>::empty());
        let mut updates: Vec<TuiUpdate> = Vec::new();
        updates.push(TuiUpdate::Message(shown));
        assert(update_views(updates@) =~= seq![
            UpdateView::Message(user_message_view(user_message@)),
        ]);
        self.head(updates)
    }

    fn refuse(&self) -> (r: Reaction)
        ensures
            update_views(r.updates@) == out_of_turn(self@).updates,
            r.action@ == out_of_turn(self@).action,
    {
        let updates: Vec<TuiUpdate> = Vec::new();
        assert(update_views(updates@) =~= Seq::<UpdateView>::empty());
        Reaction { updates, action: Action::Finish { outcome: Outcome::OutOfTurn } }
    }

    /// Goes on after a wait. See [`resumed`].
    pub fn resume(&mut self) -> (r: Reaction)
        requires
            old(self).wf(),
        ensures
            final(self).wf(),
            final(self)@ == resumed(old(self).fixed().settings, old(self)@).state,
            update_views(r.updates@) == resumed(old(self).fixed().settings, old(self)@).updates,
            r.action@ == resumed(old(self).fixed().settings, old(self)@).action,
            final(self).fixed() == old(self).fixed(),
            final(self).cache() == old(self).cache(),
            final(self).summary() == old(self).summary(),
    {
        match self.phase {
            Phase::Waiting => {},
            _ => {
                return self.refuse();
            },
        }
        let updates: Vec<TuiUpdate> = Vec::new();
        assert(update_views(updates@) =~= Seq::<UpdateView>::empty());
        let r = self.head(updates);
        assert(Seq::<UpdateView>::empty() + head(old(self).fixed().settings, old(self)@).updates
            =~= head(old(self).fixed().settings, old(self)@).updates);
        r
    }

    /// Takes the failure of the call that was under way. See [`failed`].
    pub fn on_failure(&mut self, failure: &Failure) -> (r: Reaction)
        requires
            old(self).wf(),
        ensures
            final(self).wf(),
            final(self)@ == after_failure(old(self).fixed().settings, old(self)@, failure@).state,
            update_views(r.updates@) == after_failure(
                old(self).fixed().settings,
                old(self)@,
                failure@,
            ).updates,
            r.action@ == after_failure(old(self).fixed().settings, old(self)@, failure@).action,
            final(self).fixed() == old(self).fixed(),
            final(self).cache() == old(self).cache(),
            final(self).summary() == old(self).summary(),
    {
        match self.phase {
            Phase::AwaitingModel => {},
            _ => {
                return self.refuse();
            },
        }
        let mut updates: Vec<TuiUpdate> = Vec::new();
        assert(update_views(updates@) =~= Seq::<UpdateView>::empty());
        let ghost cfg = self.fixed().settings;
        let ghost s = self@;
        match classify(failure) {
            FailureClass::Credit => {
                updates.push(
                    TuiUpdate::Error {
                        message: owned(
                            "\n❌ API Credit Error Detected!\n\nIt looks like your credits haven't activated yet. This is common with xAI.\n\nQuick solutions:\n1. Wait 5-15 minutes for credits to activate\n2. Visit your team billing page to check status:\nhttps://console.x.ai/team/[your-team-id]\n3. Try regenerating your API key after credits show as available\n4. Use OpenAI instead: grok-code --dev (requires OPENAI_API_KEY)\n\nFor detailed troubleshooting, see: ./TROUBLESHOOTING_XAI.md",
                        ),
                    },
                );
                assert(update_views(updates@) =~= seq![
                    UpdateView::Error { message: credit_notice() },
                ]);
                self.finish(Outcome::CreditError, updates)
            },
            FailureClass::RateLimited => {
                self.rate_limit_retries = self.rate_limit_retries + 1;
                if self.rate_limit_retries > MAX_RATE_LIMIT_RETRIES {
                    self.phase = Phase::Waiting;
                    let r = self.head(updates);
                    assert(Seq::<UpdateView>::empty() + failed(cfg, s, failure@).updates =~= failed(
                        cfg,
                        s,
                        failure@,
                    ).updates);
                    r
                } else {
                    self.iterations = self.iterations - 1;
                    self.phase = Phase::Waiting;
                    let seconds = backoff(self.rate_limit_retries);
                    Reaction { updates, action: Action::Wait { seconds } }
                }
            },
            FailureClass::Timeout => {
                self.timeout_retries = self.timeout_retries + 1;
                if self.timeout_retries > MAX_TIMEOUT_RETRIES {
                    updates.push(
                        TuiUpdate::Error {
                            message: owned(
                                "\n⏱️  The request is taking longer than expected. This sometimes happens with complex requests.\nPlease try again with a simpler request or use --dev mode for faster responses.",
                            ),
                        },
                    );
                    assert(update_views(updates@) =~= seq![
                        UpdateView::Error { message: timeout_notice() },
                    ]);
                    self.finish(Outcome::TimedOut, updates)
                } else {
                    self.iterations = self.iterations - 1;
                    self.phase = Phase::Waiting;
                    let r = self.head(updates);
                    assert(Seq::<UpdateView>::empty() + failed(cfg, s, failure@).updates =~= failed(
                        cfg,
                        s,
                        failure@,
                    ).updates);
                    r
                }
            },
            FailureClass::Server => {
                if self.iterations < SERVER_RETRY_ITERATIONS {
                    self.iterations = self.iterations - 1;
                    self.phase = Phase::Waiting;
                    Reaction { updates, action: Action::Wait { seconds: SERVER_RETRY_SECONDS } }
                } else {
                    updates.push(
                        TuiUpdate::Error {
                            message: owned(
                                "\n💬 I'm having trouble connecting right now. Please try again in a moment.",
                            ),
                        },
                    );
                    assert(update_views(updates@) =~= seq![
                        UpdateView::Error { message: unreachable_notice() },
                    ]);
                    self.finish(Outcome::Unreachable, updates)
                }
            },
            FailureClass::Other => {
                let message = if self.debug {
                    let detail = detail_of(failure);
                    concat3(
                        "\n❌ Something went wrong. Please try again.",
                        "\nDEBUG: ",
                        detail.as_str(),
                    )
                } else {
                    owned("\n❌ Something went wrong. Please try again.")
                };
                updates.push(TuiUpdate::Error { message });
                assert(update_views(updates@) =~= seq![
                    UpdateView::Error {
                        message: failed_notice(cfg.debug, failure_detail(failure@)),
                    },
                ]);
                self.finish(Outcome::Failed, updates)
            },
        }
    }

    fn dispatch(&mut self, message: Message, updates: Vec<TuiUpdate>) -> (r: Reaction)
        requires
            message.tool_calls is Some,
            old(self)@.iterations <= MAX_ITERATIONS,
        ensures
            final(self)@ == dispatching(old(self).fixed().settings, old(self)@, message@).state,
            update_views(r.updates@) == update_views(updates@) + dispatching(
                old(self).fixed().settings,
                old(self)@,
                message@,
            ).updates,
            r.action@ == dispatching(old(self).fixed().settings, old(self)@, message@).action,
            final(self).fixed() == old(self).fixed(),
            final(self).cache() == old(self).cache(),
            final(self).summary() == old(self).summary(),
            final(self).response_cache.wf() == old(self).response_cache.wf(),
    {
        let mut updates = updates;
        let ghost before = update_views(updates@);
        let ghost calls = message@.tool_calls->0;
        let batch = match &message.tool_calls {
            Some(list) => invocations(list.as_slice()),
            None => Vec::new(),
        };
        assert(invocation_views(batch@) == invocations_of(calls));
        assert(batch@.len() == calls.len());
        let ghost history = message_views(self.messages@);
        self.messages.push(message);
        assert(message_views(self.messages@) =~= history.push(message@));
        if batch.len() == 0 {
            return self.head(updates);
        }
        if batch.len() > 1 {
            let number = decimal_string(batch.len() as u64);
            updates.push(
                TuiUpdate::Processing {
                    message: concat3("🔄 Executing ", number.as_str(), " tools concurrently..."),
                },
            );
        }
        let ghost lead = update_views(updates@);
        assert(lead =~= before + (if calls.len() > 1 {
            seq![UpdateView::Processing { message: batch_notice(calls.len()) }]
        } else {
            Seq::<UpdateView>::empty()
        }));
        let mut i: usize = 0;
        while i < batch.len()
            invariant
                i <= batch.len(),
                batch@.len() == calls.len(),
                invocation_views(batch@) == invocations_of(calls),
                updates@.len() == lead.len() + i,
                forall|k: int| 0 <= k < lead.len() ==> (#[trigger] updates@[k])@ == lead[k],
                forall|j: int|
                    lead.len() <= j < lead.len() + i ==> (#[trigger] updates@[j])@
                        == start_updates(calls)[j - lead.len()],
            decreases batch.len() - i,
        {
            let name = batch[i].name.as_str();
            assert(invocation_views(batch@)[i as int] == batch@[i as int]@);
            assert(batch@[i as int]@.name == calls[i as int].function.name);
            updates.push(
                TuiUpdate::ToolStart { name: tool_action(name), icon: owned(tool_icon(name)) },
            );
            i += 1;
        }
        assert(update_views(updates@) =~= lead + start_updates(calls));
        assert(lead + start_updates(calls) =~= before + batch_updates(calls));
        let plan = plan_batch(batch.as_slice());
        self.pending = batch;
        self.phase = Phase::AwaitingTools;
        Reaction { updates, action: Action::Dispatch { plan } }
    }

    /// Takes the response to the request that was under way. See [`replied`].
    pub fn on_response(&mut self, response: &ChatCompletionResponse) -> (r: Reaction)
        requires
            old(self).wf(),
        ensures
            final(self).wf(),
            final(self)@ == after_response(old(self).fixed().settings, old(self)@, response@).state,
            update_views(r.updates@) == after_response(
                old(self).fixed().settings,
                old(self)@,
                response@,
            ).updates,
            r.action@ == after_response(old(self).fixed().settings, old(self)@, response@).action,
            final(self).fixed() == old(self).fixed(),
            final(self).cache() == old(self).cache(),
            final(self).summary() == old(self).summary(),
    {
        match self.phase {
            Phase::AwaitingModel => {},
            _ => {
                return self.refuse();
            },
        }
        let mut updates: Vec<TuiUpdate> = Vec::new();
        assert(update_views(updates@) =~= Seq::<UpdateView>::empty());
        let ghost cfg = self.fixed().settings;
        let ghost s = self@;
        let ghost step = replied(cfg, s, response@);
        if response.choices.len() == 0 {
            let message = if self.debug {
                concat(
                    "❌ Empty response from API (no choices).",
                    "\nDEBUG: Empty API response received",
                )
            } else {
                owned("❌ Empty response from API (no choices).")
            };
            updates.push(TuiUpdate::Error { message });
            assert(update_views(updates@) =~= seq![
                UpdateView::Error { message: empty_notice(cfg.debug) },
            ]);
            return self.finish(Outcome::EmptyChoices, updates);
        }
        let m = response.choices[0].message.duplicate();
        assert(m@ == response@[0]);
        self.rate_limit_retries = 0;
        self.timeout_retries = 0;
        let text_present = match &m.content {
            Some(c) => {
                let chars = to_chars(c.as_str());
                !blank(chars.as_slice())
            },
            None => false,
        };
        assert(text_present == has_text(m@));
        if text_present {
            let ghost history = message_views(self.messages@);
            self.messages.push(m.duplicate());
            assert(message_views(self.messages@) =~= history.push(m@));
            updates.push(TuiUpdate::Message(m.duplicate()));
            assert(update_views(updates@) =~= seq![UpdateView::Message(m@)]);
            if !self.interactive {
                self.finish(Outcome::Answered, updates)
            } else if m.tool_calls.is_some() {
                self.dispatch(m, updates)
            } else {
                self.head(updates)
            }
        } else if m.tool_calls.is_some() {
            let r = self.dispatch(m, updates);
            assert(Seq::<UpdateView>::empty() + step.updates =~= step.updates);
            r
        } else if m.content.is_some() {
            let ghost history = message_views(self.messages@);
            self.messages.push(m);
            assert(message_views(self.messages@) =~= history.push(m@));
            let r = self.head(updates);
            assert(Seq::<UpdateView>::empty() + step.updates =~= step.updates);
            r
        } else {
            updates.push(
                TuiUpdate::Processing { message: owned("No content or tool calls in response.") },
            );
            assert(update_views(updates@) =~= seq![
                UpdateView::Processing { message: nothing_notice() },
            ]);
            self.finish(Outcome::NothingToDo, updates)
        }
    }

    /// Takes the ends of the units that ran the batch, in any order. See
    /// [`tools_done`]. News that the engine was not waiting for change nothing.
    pub fn on_tool_results(&mut self, completions: &[Completion]) -> (r: Reaction)
        requires
            old(self).wf(),
        ensures
            final(self).wf(),
            final(self)@ == after_tools(
                old(self).fixed().settings,
                old(self)@,
                completion_views(completions@),
            ).state,
            update_views(r.updates@) == after_tools(
                old(self).fixed().settings,
                old(self)@,
                completion_views(completions@),
            ).updates,
            r.action@ == after_tools(
                old(self).fixed().settings,
                old(self)@,
                completion_views(completions@),
            ).action,
            final(self).fixed() == old(self).fixed(),
            final(self).cache() == old(self).cache(),
            final(self).summary() == old(self).summary(),
    {
        match self.phase {
            Phase::AwaitingTools => {},
            _ => {
                return self.refuse();
            },
        }
        let outputs = merge_results(self.pending.as_slice(), completions);
        let ghost outs = output_views(outputs@);
        let ghost history = message_views(self.messages@);
        let ghost results = views(self.tool_results@);
        let ghost cfg = self.fixed().settings;
        let ghost s = self@;
        let mut updates: Vec<TuiUpdate> = Vec::new();
        let mut i: usize = 0;
        while i < outputs.len()
            invariant
                i <= outputs.len(),
                outs == output_views(outputs@),
                updates@.len() == i,
                forall|k: int|
                    0 <= k < i ==> (#[trigger] updates@[k])@ == (UpdateView::ToolResult {
                        name: outs[k].name,
                        result: displayed(outs[k].name, outs[k].result),
                    }),
                self.messages@.len() == history.len() + i,
                forall|k: int|
                    0 <= k < history.len() ==> (#[trigger] self.messages@[k])@ == history[k],
                forall|j: int|
                    history.len() <= j < history.len() + i ==> (#[trigger] self.messages@[j])@
                        == tool_message(outs[j - history.len()]),
                self.tool_results@.len() == results.len() + i,
                forall|k: int|
                    0 <= k < results.len() ==> (#[trigger] self.tool_results@[k])@ == results[k],
                forall|j: int|
                    results.len() <= j < results.len() + i ==> (#[trigger] self.tool_results@[j])@
                        == outs[j - results.len()].result,
                self.fixed() == old(self).fixed(),
                self.cache() == old(self).cache(),
                self.summary() == old(self).summary(),
                self.response_cache.wf() == old(self).response_cache.wf(),
                self@.iterations == s.iterations,
                self@.rate_limit_retries == s.rate_limit_retries,
                self@.timeout_retries == s.timeout_retries,
                self@.user_message == s.user_message,
                self@.interactive == s.interactive,
                self@.cache_enabled == s.cache_enabled,
            decreases outputs.len() - i,
        {
            let o = &outputs[i];
            assert(outs[i as int] == o@);
            updates.push(
                TuiUpdate::ToolResult {
                    name: o.name.clone(),
                    result: display_result(o.name.as_str(), o.result.as_str()),
                },
            );
            self.tool_results.push(o.result.clone());
            self.messages.push(
                Message {
                    role: owned("tool"),
                    content: Some(o.result.clone()),
                    tool_calls: None,
                    tool_call_id: Some(o.id.clone()),
                },
            );
            i += 1;
        }
        self.pending = Vec::new();
        self.phase = Phase::Waiting;
        proof {
            assert(outs == merged(s.pending, completion_views(completions@)));
            assert(message_views(self.messages@) =~= s.messages + Seq::new(
                outs.len(),
                |i: int| tool_message(outs[i]),
            ));
            assert(views(self.tool_results@) =~= s.tool_results + Seq::new(
                outs.len(),
                |i: int| outs[i].result,
            ));
            assert(invocation_views(self.pending@) =~= Seq::<InvocationView>::empty());
            assert(update_views(updates@) =~= Seq::new(
                outs.len(),
                |i: int|
                    UpdateView::ToolResult {
                        name: outs[i].name,
                        result: displayed(outs[i].name, outs[i].result),
                    },
            ));
        }
        self.head(updates)
    }

    /// Reads the cached response under `key` at time `now`, if one is stored
    /// and has not outlived its time.
    pub fn cached_response(&mut self, key: &str, now: u64) -> (out: Option<String>)
        requires
            old(self).wf(),
        ensures
            final(self).wf(),
            final(self)@ == old(self)@,
            final(self).fixed() == old(self).fixed(),
            final(self).summary() == old(self).summary(),
            final(self).cache() == after_get(
                old(self).cache(),
                old(self).fixed().cache_ttl,
                key@,
                now as nat,
            ),
            out.deep_view() == get_result(
                old(self).cache(),
                old(self).fixed().cache_ttl,
                key@,
                now as nat,
            ),
    {
        self.response_cache.get(key, now)
    }

    /// Stores the serialized response of a request under the key that the
    /// request came with; without a key nothing is stored.
    pub fn remember_response(&mut self, cache_key: &Option<String>, serialized: String, now: u64)
        requires
            old(self).wf(),
        ensures
            final(self).wf(),
            final(self)@ == old(self)@,
            final(self).fixed() == old(self).fixed(),
            final(self).summary() == old(self).summary(),
            final(self).cache() == match cache_key {
                Some(key) => after_put(
                    old(self).cache(),
                    old(self).fixed().cache_capacity,
                    key@,
                    serialized@,
                    now as nat,
                ),
                None => old(self).cache(),
            },
    {
        match cache_key {
            Some(key) => {
                self.response_cache.put(key.clone(), serialized, now);
            },
            None => {},
        }
    }

    /// Counts the entries of the response cache at time `now`.
    pub fn cache_stats(&self, now: u64) -> (stats: CacheStats)
        ensures
            stats.total_entries == self.cache().len(),
            stats.expired_entries == expired_count(
                self.cache(),
                self.fixed().cache_ttl,
                now as nat,
            ),
            stats.active_entries == stats.total_entries - stats.expired_entries,
    {
        self.response_cache.stats(now)
    }

    /// The request that asks the model for a better summary of the project.
    pub fn summary_request(&self) -> (request: ChatCompletionRequest)
        ensures
            request@ == summary_request_view(self.fixed().settings.model, self.summary()),
    {
        let mut messages: Vec<Message> = Vec::new();
        messages.push(
            Message::plain("system", owned("You are an expert at summarizing codebases concisely.")),
        );
        messages.push(
            Message::plain(
                "user",
                concat(
                    "Provide a concise summary of this project structure for an AI coding agent to use as context. Highlight key files, directories, and potential main components:\n",
                    self.codebase_summary.as_str(),
                ),
            ),
        );
        let request = ChatCompletionRequest {
            model: self.api_client.config().model.clone(),
            messages,
            tools: None,
            tool_choice: owned("none"),
            temperature_milli: SUMMARY_TEMPERATURE_MILLI,
            max_tokens: SUMMARY_MAX_TOKENS,
            response_format: None,
        };
        assert(request@.messages =~= summary_request_view(
            self.fixed().settings.model,
            self.summary(),
        ).messages);
        request
    }

    /// Takes the answer to the summary request. The text of the first choice
    /// becomes the summary and the system message is written anew with it.
    /// An answer without a choice, or whose first choice has no text, is an
    /// error and changes nothing.
    pub fn enhance_summary(&mut self, response: &ChatCompletionResponse) -> (out: Result<
        (),
        GrokError,
    >)
        requires
            old(self).wf(),
        ensures
            final(self).wf(),
            final(self).fixed() == old(self).fixed(),
            final(self).cache() == old(self).cache(),
            response@.len() > 0 && response@[0].content is Some ==> {
                &&& out is Ok
                &&& final(self).summary() == response@[0].content->0
                &&& final(self)@ == (TurnView {
                    messages: old(self)@.messages.update(
                        0,
                        MessageView {
                            content: Some(
                                system_prompt(
                                    old(self).fixed().project_root,
                                    "Updated Summary: "@,
                                    response@[0].content->0,
                                ),
                            ),
                            ..old(self)@.messages[0]
                        },
                    ),
                    ..old(self)@
                })
            },
            !(response@.len() > 0 && response@[0].content is Some) ==> {
                &&& out matches Err(e)
                &&& e is NoSummaryGenerated
                &&& final(self)@ == old(self)@
                &&& final(self).summary() == old(self).summary()
            },
    {
        if response.choices.len() == 0 {
            return Err(GrokError::NoSummaryGenerated);
        }
        let first = &response.choices[0].message;
        assert(first@ == response@[0]);
        match &first.content {
            Some(content) => {
                let ghost history = message_views(self.messages@);
                let text = system_text(
                    self.project_root.as_str(),
                    "Updated Summary: ",
                    content.as_str(),
                );
                let head = self.messages.remove(0);
                assert(head@ == history[0]);
                let renewed = Message {
                    role: head.role,
                    content: Some(text),
                    tool_calls: head.tool_calls,
                    tool_call_id: head.tool_call_id,
                };
                self.messages.insert(0, renewed);
                self.codebase_summary = content.clone();
                assert(message_views(self.messages@) =~= history.update(0, renewed@));
                Ok(())
            },
            None => Err(GrokError::NoSummaryGenerated),
        }
    }
}


} // verus!
