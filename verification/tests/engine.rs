use grok_code::agent::{Action, GrokAgent, Outcome, Phase, Reaction, TuiUpdate};
use grok_code::api::{
    ApiConfig, ChatCompletionResponse, Choice, Failure, FunctionCall, Message, ToolCall,
};
use grok_code::cache::ResponseCache;
use grok_code::dispatch::{Completion, UnitOutcome};
use grok_code::tools::ToolRegistry;

fn config() -> ApiConfig {
    ApiConfig {
        api_key: "test_key".to_string(),
        base_url: "https://api.x.ai/v1".to_string(),
        model: "grok-2-latest".to_string(),
        timeout_secs: 60,
        max_retries: 3,
    }
}

fn agent() -> GrokAgent {
    let tools = ToolRegistry::new(Vec::new()).get_tools();
    GrokAgent::new("xai", config(), "/project", "Project structure:\n", tools, false, true, false)
        .unwrap()
}

fn text(content: &str) -> ChatCompletionResponse {
    ChatCompletionResponse {
        choices: vec![Choice {
            message: Message {
                role: "assistant".to_string(),
                content: Some(content.to_string()),
                tool_calls: None,
                tool_call_id: None,
            },
        }],
    }
}

fn call(id: &str, name: &str) -> ToolCall {
    ToolCall {
        id: id.to_string(),
        kind: "function".to_string(),
        function: FunctionCall { name: name.to_string(), arguments: "{}".to_string() },
    }
}

fn calls(content: Option<&str>, list: Vec<ToolCall>) -> ChatCompletionResponse {
    ChatCompletionResponse {
        choices: vec![Choice {
            message: Message {
                role: "assistant".to_string(),
                content: content.map(|c| c.to_string()),
                tool_calls: Some(list),
                tool_call_id: None,
            },
        }],
    }
}

fn done(index: usize, result: &str) -> Completion {
    Completion { index, outcome: UnitOutcome::Finished(result.to_string()) }
}

fn rate_limit() -> Failure {
    Failure::RateLimited { message: "slow down".to_string(), retry_after: 60 }
}

fn is_query(r: &Reaction) -> bool {
    matches!(r.action, Action::Query { .. })
}

fn outcome(r: &Reaction) -> Option<Outcome> {
    match r.action {
        Action::Finish { outcome } => Some(outcome),
        _ => None,
    }
}

fn ends_with_complete(r: &Reaction) -> bool {
    matches!(r.updates.last(), Some(TuiUpdate::Complete))
}

#[test]
fn new_agent_holds_the_system_message() {
    let a = agent();
    assert_eq!(a.message_count(), 1);
    assert!(a.phase() == Phase::Idle);
    let first = &a.get_messages_since(0)[0];
    assert_eq!(first.role, "system");
    let content = first.content.clone().unwrap();
    assert!(content.starts_with(
        "You are Grok Code, a helpful coding agent. You have access to the user's project at /project. Summary: Project structure:\n\n\nUse the available tools"
    ));
    assert!(content.ends_with("Match your tool usage to what the user actually asked for."));
    assert!(a.dry_run() == false && a.no_confirm());
    assert_eq!(a.project_root(), "/project");
}

#[test]
fn test_invalid_provider() {
    let tools = ToolRegistry::new(Vec::new()).get_tools();
    let result =
        GrokAgent::new("invalid_provider", config(), "/project", "", tools, false, false, false);
    assert!(result.is_err());
    assert_eq!(
        result.err().unwrap().message(),
        "Configuration error: Unknown API provider: invalid_provider"
    );
}

#[test]
fn first_request_carries_history_and_tools() {
    let mut a = agent();
    let r = a.process_prompt("hello", false, true);
    assert!(a.phase() == Phase::AwaitingModel);
    assert_eq!(a.message_count(), 2);
    match &r.action {
        Action::Query { request, cache_key } => {
            assert_eq!(request.model, "grok-2-latest");
            assert_eq!(request.messages.len(), 2);
            assert_eq!(request.messages[1].role, "user");
            assert_eq!(request.messages[1].content, Some("hello".to_string()));
            assert_eq!(request.tools.as_ref().unwrap().len(), 16);
            assert_eq!(request.tool_choice, "auto");
            assert_eq!(request.temperature_milli, 700);
            assert_eq!(request.max_tokens, 4096);
            assert!(request.response_format.is_none());
            // no tool has returned anything yet: nothing to look up
            assert!(cache_key.is_none());
        }
        _ => panic!("the turn starts by asking the model"),
    }
    assert_eq!(r.updates.len(), 2);
    assert!(matches!(&r.updates[0], TuiUpdate::Message(m) if m.role == "user"));
    assert!(matches!(&r.updates[1], TuiUpdate::Processing { message } if message == "🤔 Thinking"));
}

#[test]
fn plain_answer_ends_a_non_interactive_turn() {
    let mut a = agent();
    a.process_prompt("hello", false, true);
    let r = a.on_response(&text("Hi there"));
    assert_eq!(outcome(&r), Some(Outcome::Answered));
    assert!(a.phase() == Phase::Finished);
    assert_eq!(a.message_count(), 3);
    assert_eq!(a.get_last_assistant_message().unwrap().content, Some("Hi there".to_string()));
    assert!(matches!(&r.updates[0], TuiUpdate::Message(m) if m.content == Some("Hi there".to_string())));
    assert!(ends_with_complete(&r));
}

#[test]
fn plain_answer_goes_on_in_an_interactive_turn() {
    let mut a = agent();
    a.process_prompt("hello", true, true);
    let r = a.on_response(&text("Working on it"));
    assert!(is_query(&r));
    assert!(a.phase() == Phase::AwaitingModel);
    assert_eq!(a.message_count(), 3);
    assert!(matches!(&r.updates[1], TuiUpdate::Processing { message } if message == "."));
}

#[test]
fn blank_answer_joins_history_unseen() {
    let mut a = agent();
    a.process_prompt("hello", false, true);
    let r = a.on_response(&text("  \n "));
    assert!(is_query(&r));
    assert_eq!(a.message_count(), 3);
    assert!(!r.updates.iter().any(|u| matches!(u, TuiUpdate::Message(_))));
}

#[test]
fn answer_without_text_or_calls_ends_the_turn() {
    let mut a = agent();
    a.process_prompt("hello", true, true);
    let response = ChatCompletionResponse {
        choices: vec![Choice {
            message: Message {
                role: "assistant".to_string(),
                content: None,
                tool_calls: None,
                tool_call_id: None,
            },
        }],
    };
    let r = a.on_response(&response);
    assert_eq!(outcome(&r), Some(Outcome::NothingToDo));
    assert_eq!(a.message_count(), 2);
    assert!(matches!(
        &r.updates[0],
        TuiUpdate::Processing { message } if message == "No content or tool calls in response."
    ));
}

#[test]
fn empty_choices_end_the_turn() {
    let mut a = agent();
    a.process_prompt("hello", true, true);
    let before = a.message_count();
    let r = a.on_response(&ChatCompletionResponse { choices: vec![] });
    assert_eq!(outcome(&r), Some(Outcome::EmptyChoices));
    assert!(a.phase() == Phase::Finished);
    assert_eq!(a.message_count(), before);
    assert!(a.get_last_assistant_message().is_none());
    assert!(ends_with_complete(&r));
}

#[test]
fn credit_error_ends_the_turn_at_once() {
    let mut a = agent();
    a.process_prompt("hello", false, true);
    let failure = Failure::ApiError {
        status: 403,
        body: "Your team has no credits available".to_string(),
    };
    let r = a.on_failure(&failure);
    // the first attempt ends the turn: no wait, no second request
    assert_eq!(outcome(&r), Some(Outcome::CreditError));
    assert!(a.phase() == Phase::Finished);
    assert_eq!(r.updates.len(), 2);
    assert!(matches!(
        &r.updates[0],
        TuiUpdate::Error { message } if message.contains("API Credit Error Detected!")
    ));
    assert!(ends_with_complete(&r));
}

#[test]
fn other_403_is_no_credit_error() {
    let mut a = agent();
    a.process_prompt("hello", false, true);
    let r = a.on_failure(&Failure::ApiError { status: 403, body: "forbidden".to_string() });
    assert_eq!(outcome(&r), Some(Outcome::Failed));
    assert!(matches!(
        &r.updates[0],
        TuiUpdate::Error { message } if message == "\n❌ Something went wrong. Please try again."
    ));
}

#[test]
fn failure_detail_is_shown_when_asked_for() {
    let tools = ToolRegistry::new(Vec::new()).get_tools();
    let mut a =
        GrokAgent::new("openai", config(), "/project", "", tools, false, false, true).unwrap();
    a.process_prompt("hello", false, true);
    let r = a.on_failure(&Failure::ApiError { status: 400, body: "bad request".to_string() });
    assert!(matches!(
        &r.updates[0],
        TuiUpdate::Error { message }
            if message == "\n❌ Something went wrong. Please try again.\nDEBUG: API error 400: bad request"
    ));
}

#[test]
fn rate_limits_back_off_and_use_no_budget() {
    let mut a = agent();
    a.process_prompt("hello", false, true);
    let mut waits = Vec::new();
    for _ in 0..5 {
        let r = a.on_failure(&rate_limit());
        match r.action {
            Action::Wait { seconds } => waits.push(seconds),
            _ => panic!("a rate limit is waited out"),
        }
        // waits are silent
        assert!(r.updates.is_empty());
        assert!(a.phase() == Phase::Waiting);
        let again = a.resume();
        assert!(is_query(&again));
    }
    assert_eq!(waits, vec![5, 10, 20, 40, 80]);
    // five failures used nothing: fourteen more iterations can follow this one
    let mut answered = 0;
    loop {
        let r = a.on_response(&text(" "));
        answered += 1;
        if outcome(&r) == Some(Outcome::MaxIterations) {
            break;
        }
        assert!(is_query(&r));
    }
    assert_eq!(answered, 15);
}

#[test]
fn sixth_rate_limit_gives_up_the_iteration() {
    let mut a = agent();
    a.process_prompt("hello", false, true);
    for _ in 0..5 {
        a.on_failure(&rate_limit());
        a.resume();
    }
    // the sixth in a row: no wait, the loop goes on and the iteration is spent
    let r = a.on_failure(&rate_limit());
    assert!(is_query(&r));
    let mut spent = 1;
    loop {
        let r = a.on_failure(&rate_limit());
        spent += 1;
        if outcome(&r) == Some(Outcome::MaxIterations) {
            break;
        }
    }
    assert_eq!(spent, 15);
}

#[test]
fn response_resets_the_retry_counters() {
    let mut a = agent();
    a.process_prompt("hello", true, true);
    for _ in 0..4 {
        a.on_failure(&rate_limit());
        a.resume();
    }
    a.on_response(&text("step"));
    let r = a.on_failure(&rate_limit());
    assert!(matches!(r.action, Action::Wait { seconds: 5 }));
}

#[test]
fn timeouts_are_retried_three_times() {
    let mut a = agent();
    a.process_prompt("hello", false, true);
    let timeout = Failure::Timeout { detail: "request timed out".to_string() };
    for _ in 0..3 {
        let r = a.on_failure(&timeout);
        assert!(is_query(&r));
        assert!(r.updates.is_empty());
    }
    let r = a.on_failure(&timeout);
    assert_eq!(outcome(&r), Some(Outcome::TimedOut));
    assert!(matches!(
        &r.updates[0],
        TuiUpdate::Error { message } if message.contains("taking longer than expected")
    ));
}

#[test]
fn server_errors_are_retried_in_the_first_iterations() {
    let mut a = agent();
    a.process_prompt("hello", true, true);
    let bad_gateway = Failure::ApiError { status: 502, body: String::new() };
    let r = a.on_failure(&bad_gateway);
    assert!(matches!(r.action, Action::Wait { seconds: 2 }));
    a.resume();
    // four answers later the iteration counter stands at five
    for _ in 0..4 {
        a.on_response(&text("step"));
    }
    let r = a.on_failure(&Failure::ApiError { status: 504, body: String::new() });
    assert_eq!(outcome(&r), Some(Outcome::Unreachable));
    assert!(matches!(
        &r.updates[0],
        TuiUpdate::Error { message } if message.contains("trouble connecting")
    ));
}

#[test]
fn transport_failure_ends_the_turn() {
    let mut a = agent();
    a.process_prompt("hello", false, true);
    let r = a.on_failure(&Failure::TransportError { detail: "connection reset".to_string() });
    assert_eq!(outcome(&r), Some(Outcome::Failed));
}

#[test]
fn last_iteration_asks_for_a_json_object() {
    let mut a = agent();
    let mut r = a.process_prompt("hello", true, true);
    for _ in 0..14 {
        match &r.action {
            Action::Query { request, .. } => assert!(request.response_format.is_none()),
            _ => panic!("the loop goes on"),
        }
        r = a.on_response(&text("step"));
    }
    match &r.action {
        Action::Query { request, .. } => {
            assert_eq!(request.response_format.as_ref().unwrap().kind, "json_object")
        }
        _ => panic!("the fifteenth iteration asks once more"),
    }
    let end = a.on_response(&text("step"));
    assert_eq!(outcome(&end), Some(Outcome::MaxIterations));
    assert!(matches!(
        &end.updates[1],
        TuiUpdate::Processing { message } if message == "Max iterations reached. Stopping."
    ));
}

#[test]
fn mixed_batch_keeps_the_order_of_the_calls() {
    // A and C run side by side, B changes the repository and runs alone
    let batch = vec![
        call("call_a", "read_file"),
        call("call_b", "create_commit"),
        call("call_c", "search_codebase"),
    ];
    for order in [[0, 1, 2], [2, 0, 1], [1, 2, 0], [2, 1, 0]] {
        let mut a = agent();
        a.process_prompt("do it", false, true);
        let r = a.on_response(&calls(None, batch.clone()));
        match &r.action {
            Action::Dispatch { plan } => {
                let parallel: Vec<usize> = plan.parallel.iter().map(|i| i.index).collect();
                let sequential: Vec<usize> = plan.sequential.iter().map(|i| i.index).collect();
                assert_eq!(parallel, vec![0, 2]);
                assert_eq!(sequential, vec![1]);
                assert_eq!(plan.sequential[0].id, "call_b");
            }
            _ => panic!("tool calls are handed out"),
        }
        assert!(a.phase() == Phase::AwaitingTools);
        let results = ["A", "B", "C"];
        let completions: Vec<Completion> =
            order.iter().map(|&i| done(i, results[i])).collect();
        let before = a.message_count();
        let next = a.on_tool_results(&completions);
        assert!(is_query(&next));
        let added = a.get_messages_since(before);
        assert_eq!(added.len(), 3);
        let contents: Vec<&str> =
            added.iter().map(|m| m.content.as_deref().unwrap()).collect();
        assert_eq!(contents, vec!["A", "B", "C"]);
        let ids: Vec<&str> = added.iter().map(|m| m.tool_call_id.as_deref().unwrap()).collect();
        assert_eq!(ids, vec!["call_a", "call_b", "call_c"]);
        assert!(added.iter().all(|m| m.role == "tool"));
    }
}

#[test]
fn batch_of_four_keeps_parallel_and_sequential_apart() {
    let mut a = agent();
    a.process_prompt("do it", false, true);
    let r = a.on_response(&calls(
        None,
        vec![
            call("1", "read_file"),
            call("2", "list_files"),
            call("3", "resolve_merge_conflict"),
            call("4", "run_lint"),
        ],
    ));
    match &r.action {
        Action::Dispatch { plan } => {
            assert_eq!(plan.parallel.len(), 3);
            assert_eq!(plan.sequential.len(), 1);
            assert_eq!(plan.sequential[0].name, "resolve_merge_conflict");
        }
        _ => panic!("tool calls are handed out"),
    }
    assert!(matches!(
        &r.updates[0],
        TuiUpdate::Processing { message } if message == "🔄 Executing 4 tools concurrently..."
    ));
    assert!(matches!(
        &r.updates[1],
        TuiUpdate::ToolStart { name, icon } if name == "Reading file" && icon == "📖"
    ));
    assert!(matches!(
        &r.updates[3],
        TuiUpdate::ToolStart { name, icon } if name == "resolve_merge_conflict" && icon == "⚙️"
    ));
}

#[test]
fn failed_and_missing_units_still_give_one_result_each() {
    let mut a = agent();
    a.process_prompt("do it", false, true);
    a.on_response(&calls(None, vec![call("x", "read_file"), call("y", "write_file")]));
    let before = a.message_count();
    let completions = vec![
        Completion { index: 0, outcome: UnitOutcome::Failed("task panicked".to_string()) },
        done(7, "stray"),
    ];
    a.on_tool_results(&completions);
    let added = a.get_messages_since(before);
    assert_eq!(added.len(), 2);
    assert_eq!(added[0].content.as_deref(), Some("Error executing tool: task panicked"));
    assert_eq!(added[0].tool_call_id.as_deref(), Some("x"));
    assert_eq!(added[1].content.as_deref(), Some("Error executing tool: no result"));
    assert_eq!(added[1].tool_call_id.as_deref(), Some("y"));
}

#[test]
fn text_with_tool_calls_is_shown_and_the_tools_run() {
    let mut a = agent();
    a.process_prompt("do it", true, true);
    let r = a.on_response(&calls(Some("Let me look"), vec![call("1", "read_file")]));
    assert!(matches!(r.action, Action::Dispatch { .. }));
    assert!(matches!(&r.updates[0], TuiUpdate::Message(m) if m.content.as_deref() == Some("Let me look")));
    // a caller who asked for one answer gets the text and the tools do not run
    let mut b = agent();
    b.process_prompt("do it", false, true);
    let r = b.on_response(&calls(Some("Let me look"), vec![call("1", "read_file")]));
    assert_eq!(outcome(&r), Some(Outcome::Answered));
}

#[test]
fn empty_batch_goes_on_with_the_loop() {
    let mut a = agent();
    a.process_prompt("do it", false, true);
    let r = a.on_response(&calls(None, Vec::new()));
    assert!(is_query(&r));
    assert_eq!(a.message_count(), 3);
}

#[test]
fn cache_key_covers_all_results_of_the_turn() {
    let mut a = agent();
    a.process_prompt("question", false, true);
    a.on_response(&calls(None, vec![call("1", "read_file")]));
    let r = a.on_tool_results(&[done(0, "R1")]);
    let first = match &r.action {
        Action::Query { cache_key, .. } => cache_key.clone().unwrap(),
        _ => panic!("the loop goes on"),
    };
    assert_eq!(first, ResponseCache::generate_key("question", &["R1".to_string()]));
    a.on_response(&calls(None, vec![call("2", "list_files"), call("3", "read_file")]));
    let r = a.on_tool_results(&[done(1, "R3"), done(0, "R2")]);
    let second = match &r.action {
        Action::Query { cache_key, .. } => cache_key.clone().unwrap(),
        _ => panic!("the loop goes on"),
    };
    assert_eq!(
        second,
        ResponseCache::generate_key(
            "question",
            &["R1".to_string(), "R2".to_string(), "R3".to_string()]
        )
    );
    // a new turn starts without results
    let fresh = a.process_prompt("question", false, true);
    assert!(matches!(fresh.action, Action::Query { cache_key: None, .. }));
}

#[test]
fn caching_can_be_switched_off() {
    let mut a = agent();
    a.process_prompt("question", false, false);
    a.on_response(&calls(None, vec![call("1", "read_file")]));
    let r = a.on_tool_results(&[done(0, "R1")]);
    assert!(matches!(r.action, Action::Query { cache_key: None, .. }));
}

/// Runs one turn the way a caller does: a cached response serves instead of a
/// call of the adapter. Returns the number of adapter calls.
fn run_turn(a: &mut GrokAgent, prompt: &str, now: u64) -> usize {
    let mut adapter_calls = 0;
    let mut reaction = a.process_prompt(prompt, false, true);
    loop {
        reaction = match reaction.action {
            Action::Query { cache_key, .. } => {
                let cached = match &cache_key {
                    Some(key) => a.cached_response(key, now),
                    None => None,
                };
                match cached {
                    Some(stored) => {
                        assert_eq!(stored, "final answer");
                        a.on_response(&text(&stored))
                    }
                    None => {
                        adapter_calls += 1;
                        // the adapter asks for a tool first, then answers
                        if adapter_calls % 2 == 1 {
                            a.remember_response(&cache_key, "tool request".to_string(), now);
                            a.on_response(&calls(None, vec![call("1", "read_file")]))
                        } else {
                            a.remember_response(&cache_key, "final answer".to_string(), now);
                            a.on_response(&text("final answer"))
                        }
                    }
                }
            }
            Action::Dispatch { .. } => a.on_tool_results(&[done(0, "R1")]),
            Action::Wait { .. } => a.resume(),
            Action::Finish { .. } => return adapter_calls,
        };
    }
}

#[test]
fn cache_hit_avoids_the_network() {
    let mut a = agent();
    // turn 1: two adapter calls, the second one under the key of ["R1"]
    assert_eq!(run_turn(&mut a, "same question", 1_000), 2);
    assert_eq!(a.cache_stats(1_000).total_entries, 1);
    // turn 2: the same message and the same results: the second call is served
    // from the cache
    assert_eq!(run_turn(&mut a, "same question", 2_000), 1);
    // after the time to live the adapter is asked again
    assert_eq!(run_turn(&mut a, "same question", 2_000 + 301 * 1_000_000_000), 2);
}

#[test]
fn recent_messages_and_history_getters() {
    let mut a = agent();
    a.process_prompt("one", true, true);
    a.on_response(&text("two"));
    a.on_response(&text("three"));
    assert_eq!(a.message_count(), 4);
    let recent = a.get_recent_messages(2);
    assert_eq!(recent.len(), 2);
    assert_eq!(recent[0].content.as_deref(), Some("two"));
    assert_eq!(recent[1].content.as_deref(), Some("three"));
    assert_eq!(a.get_recent_messages(10).len(), 4);
    assert_eq!(a.get_recent_messages(0).len(), 0);
    assert_eq!(a.get_messages_since(3).len(), 1);
    assert_eq!(a.get_messages_since(4).len(), 0);
    assert_eq!(a.get_messages_since(9).len(), 0);
    assert_eq!(a.get_last_assistant_message().unwrap().content.as_deref(), Some("three"));
}

#[test]
fn summary_is_asked_for_and_taken_over() {
    let mut a = agent();
    let request = a.summary_request();
    assert_eq!(request.model, "grok-2-latest");
    assert_eq!(request.tool_choice, "none");
    assert_eq!(request.temperature_milli, 500);
    assert_eq!(request.max_tokens, 1000);
    assert!(request.tools.is_none());
    assert_eq!(request.messages.len(), 2);
    assert_eq!(
        request.messages[0].content.as_deref(),
        Some("You are an expert at summarizing codebases concisely.")
    );
    assert!(request.messages[1]
        .content
        .as_deref()
        .unwrap()
        .ends_with("main components:\nProject structure:\n"));

    assert!(a.enhance_summary(&text("A small crate.")).is_ok());
    let system = a.get_messages_since(0)[0].content.clone().unwrap();
    assert!(system.contains("/project. Updated Summary: A small crate.\n\nUse the available"));
    assert_eq!(a.message_count(), 1);

    let none = a.enhance_summary(&ChatCompletionResponse { choices: vec![] });
    assert_eq!(none.unwrap_err().message(), "No summary generated");
    let empty = ChatCompletionResponse {
        choices: vec![Choice {
            message: Message {
                role: "assistant".to_string(),
                content: None,
                tool_calls: None,
                tool_call_id: None,
            },
        }],
    };
    assert!(a.enhance_summary(&empty).is_err());
    assert!(a.get_messages_since(0)[0].content.clone().unwrap().contains("A small crate."));
}

#[test]
fn codebase_summary_lists_files_and_cuts_after_201() {
    assert_eq!(GrokAgent::generate_codebase_summary(&[]), "Project structure:\n");
    assert_eq!(
        GrokAgent::generate_codebase_summary(&["a.rs".to_string(), "src/b.rs".to_string()]),
        "Project structure:\n- a.rs\n- src/b.rs\n"
    );
    let many: Vec<String> = (0..300).map(|i| format!("f{i}")).collect();
    let summary = GrokAgent::generate_codebase_summary(&many);
    assert_eq!(summary.lines().count(), 1 + 201 + 1);
    assert!(summary.ends_with("- f200\n... (truncated for size)\n"));
    let exact: Vec<String> = (0..200).map(|i| format!("f{i}")).collect();
    assert!(GrokAgent::generate_codebase_summary(&exact).ends_with("- f199\n"));
}

#[test]
fn news_out_of_turn_change_nothing() {
    let mut a = agent();
    // nothing is under way before the first prompt
    assert_eq!(outcome(&a.on_response(&text("hi"))), Some(Outcome::OutOfTurn));
    assert_eq!(outcome(&a.on_failure(&rate_limit())), Some(Outcome::OutOfTurn));
    assert_eq!(outcome(&a.on_tool_results(&[done(0, "x")])), Some(Outcome::OutOfTurn));
    assert_eq!(outcome(&a.resume()), Some(Outcome::OutOfTurn));
    assert_eq!(a.message_count(), 1);
    assert!(a.phase() == Phase::Idle);
    a.process_prompt("hello", false, true);
    let r = a.on_tool_results(&[done(0, "x")]);
    assert_eq!(outcome(&r), Some(Outcome::OutOfTurn));
    assert!(r.updates.is_empty());
    assert!(a.phase() == Phase::AwaitingModel);
    a.on_response(&text("answer"));
    assert_eq!(outcome(&a.on_response(&text("again"))), Some(Outcome::OutOfTurn));
    assert_eq!(a.message_count(), 3);
}

#[test]
fn test_non_interactive_mode() {
    let tools = ToolRegistry::new(Vec::new()).get_tools();
    let agent = GrokAgent::new("xai", config(), "/tmp/project", "Project structure:\n", tools, false, true, false);

    assert!(agent.is_ok());
    let agent = agent.unwrap();
    assert!(agent.no_confirm());
}

#[test]
fn edge_cases_test_dry_run_mode() {
    let tools = ToolRegistry::new(Vec::new()).get_tools();
    let agent = GrokAgent::new("xai", config(), "/tmp/project", "Project structure:\n", tools, true, false, false);

    assert!(agent.is_ok());
    assert!(agent.unwrap().dry_run());
}

#[test]
fn test_empty_project_directory() {
    let summary = GrokAgent::generate_codebase_summary(&[]);
    // Empty directory will just have the header
    assert!(summary.contains("Project structure:"));
}

#[test]
fn text_with_tool_calls_joins_the_history_as_text_and_as_request() {
    let mut a = agent();
    a.process_prompt("do it", true, true);
    let before = a.message_count();
    a.on_response(&calls(Some("Let me look"), vec![call("1", "read_file")]));
    // the message is kept once for its text and once for its tool calls
    let added = a.get_messages_since(before);
    assert_eq!(added.len(), 2);
    assert_eq!(added[0].content.as_deref(), Some("Let me look"));
    assert!(added[1].tool_calls.is_some());
    a.on_tool_results(&[done(0, "R")]);
    assert_eq!(a.message_count(), before + 3);
}
