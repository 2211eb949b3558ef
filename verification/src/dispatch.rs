//! The tool dispatcher: which calls of a batch may run side by side, and how
//! the results of a batch are brought back into the order of the calls.
//!
//! Tools that change the shared repository run one after another, after the
//! others, which run side by side without the repository. Whatever the order
//! in which the units complete, each call gets exactly one result, and the
//! results stand in the order in which the model asked for the calls.

use vstd::prelude::*;
use crate::api::{tool_call_views, ToolCall, ToolCallView};
use crate::text::{concat, same_str};

verus! {

/// One call of a batch, with its position in the batch.
#[derive(Clone, Debug)]
pub struct ToolInvocation {
    pub index: usize,
    pub id: String,
    pub name: String,
    pub arguments: String,
}

/// The result of one call of a batch.
#[derive(Clone, Debug)]
pub struct ToolOutput {
    pub index: usize,
    pub id: String,
    pub name: String,
    pub result: String,
}

/// How a unit of execution ended.
#[derive(Clone, Debug)]
pub enum UnitOutcome {
    /// The tool ran and returned this text (which may itself report an
    /// error of the tool).
    Finished(String),
    /// The unit did not run to its end; the text says why.
    Failed(String),
}

/// The end of the unit that ran the call at position `index`.
#[derive(Clone, Debug)]
pub struct Completion {
    pub index: usize,
    pub outcome: UnitOutcome,
}

/// The calls of a batch, split by how they run.
#[derive(Clone, Debug)]
pub struct BatchPlan {
    /// The calls that run side by side, without the repository.
    pub parallel: Vec<ToolInvocation>,
    /// The calls that run one after another, each with the repository to
    /// itself, after the others are done.
    pub sequential: Vec<ToolInvocation>,
}

/// An invocation as contracts see it.
pub struct InvocationView {
    pub index: nat,
    pub id: Seq<char>,
    pub name: Seq<char>,
    pub arguments: Seq<char>,
}

/// An output as contracts see it.
pub struct OutputView {
    pub index: nat,
    pub id: Seq<char>,
    pub name: Seq<char>,
    pub result: Seq<char>,
}

/// How a unit ended, as contracts see it.
pub enum OutcomeView {
    Finished(Seq<char>),
    Failed(Seq<char>),
}

/// A completion as contracts see it.
pub struct CompletionView {
    pub index: nat,
    pub outcome: OutcomeView,
}

impl View for ToolInvocation {
    type V = InvocationView;

    open spec fn view(&self) -> InvocationView {
        InvocationView {
            index: self.index as nat,
            id: self.id@,
            name: self.name@,
            arguments: self.arguments@,
        }
    }
}

impl View for ToolOutput {
    type V = OutputView;

    open spec fn view(&self) -> OutputView {
        OutputView { index: self.index as nat, id: self.id@, name: self.name@, result: self.result@ }
    }
}

impl View for Completion {
    type V = CompletionView;

    open spec fn view(&self) -> CompletionView {
        CompletionView {
            index: self.index as nat,
            outcome: match self.outcome {
                UnitOutcome::Finished(t) => OutcomeView::Finished(t@),
                UnitOutcome::Failed(t) => OutcomeView::Failed(t@),
            },
        }
    }
}

/// The views of a list of invocations.
pub open spec fn invocation_views(items: Seq<ToolInvocation>) -> Seq<InvocationView> {
    items.map_values(|i: ToolInvocation| i@)
}

/// The views of a list of outputs.
pub open spec fn output_views(items: Seq<ToolOutput>) -> Seq<OutputView> {
    items.map_values(|o: ToolOutput| o@)
}

/// The views of a list of completions.
pub open spec fn completion_views(items: Seq<Completion>) -> Seq<CompletionView> {
    items.map_values(|c: Completion| c@)
}

/// The tools that change the shared repository.
pub open spec fn changes_repository(name: Seq<char>) -> bool {
    name == "create_commit"@ || name == "submit_pr"@ || name == "resolve_merge_conflict"@
}

/// Whether a tool must run alone, with the repository to itself.
pub fn is_sequential_tool(name: &str) -> (b: bool)
    ensures
        b == changes_repository(name@),
{
    same_str(name, "create_commit") || same_str(name, "submit_pr") || same_str(
        name,
        "resolve_merge_conflict",
    )
}

/// The invocation for the call at position `i`.
pub open spec fn invocation_of(call: ToolCallView, i: nat) -> InvocationView {
    InvocationView { index: i, id: call.id, name: call.function.name, arguments: call.function.arguments }
}

/// The invocations of a batch of calls, in the order of the calls.
pub open spec fn invocations_of(calls: Seq<ToolCallView>) -> Seq<InvocationView> {
    Seq::new(calls.len(), |i: int| invocation_of(calls[i], i as nat))
}

/// The invocations that run alone (`sequential`) or side by side, in the
/// order of the batch.
pub open spec fn selected(items: Seq<InvocationView>, sequential: bool) -> Seq<InvocationView>
    decreases items.len(),
{
    if items.len() == 0 {
        seq![]
    } else {
        let front = selected(items.drop_last(), sequential);
        if changes_repository(items.last().name) == sequential {
            front.push(items.last())
        } else {
            front
        }
    }
}

/// The invocations of a batch of calls, each with its position.
pub fn invocations(calls: &[ToolCall]) -> (out: Vec<ToolInvocation>)
    ensures
        invocation_views(out@) == invocations_of(tool_call_views(calls@)),
        out@.len() == calls@.len(),
        forall|i: int|
            0 <= i < out@.len() ==> (#[trigger] out@[i])@ == invocation_of(calls@[i]@, i as nat),
{
    let mut out: Vec<ToolInvocation> = Vec::new();
    let mut i: usize = 0;
    while i < calls.len()
        invariant
            i <= calls.len(),
            out@.len() == i,
            forall|k: int|
                0 <= k < i ==> (#[trigger] out@[k])@ == invocation_of(calls@[k]@, k as nat),
        decreases calls.len() - i,
    {
        let call = &calls[i];
        out.push(
            ToolInvocation {
                index: i,
                id: call.id.clone(),
                name: call.function.name.clone(),
                arguments: call.function.arguments.clone(),
            },
        );
        i += 1;
    }
    assert(invocation_views(out@) =~= invocations_of(tool_call_views(calls@)));
    out
}

impl ToolInvocation {
    /// A copy with the same contents.
    pub fn duplicate(&self) -> (out: Self)
        ensures
            out@ == self@,
    {
        ToolInvocation {
            index: self.index,
            id: self.id.clone(),
            name: self.name.clone(),
            arguments: self.arguments.clone(),
        }
    }
}

/// Splits a batch: the tools that change the repository run alone, in their
/// order in the batch; all others run side by side.
pub fn plan_batch(batch: &[ToolInvocation]) -> (plan: BatchPlan)
    ensures
        invocation_views(plan.parallel@) == selected(invocation_views(batch@), false),
        invocation_views(plan.sequential@) == selected(invocation_views(batch@), true),
{
    let mut parallel: Vec<ToolInvocation> = Vec::new();
    let mut sequential: Vec<ToolInvocation> = Vec::new();
    let ghost all = invocation_views(batch@);
    let mut i: usize = 0;
    assert(all.take(0) =~= Seq::<InvocationView>::empty());
    while i < batch.len()
        invariant
            i <= batch.len(),
            all == invocation_views(batch@),
            invocation_views(parallel@) == selected(all.take(i as int), false),
            invocation_views(sequential@) == selected(all.take(i as int), true),
        decreases batch.len() - i,
    {
        let item = &batch[i];
        proof {
            let next = all.take(i + 1);
            assert(next.drop_last() =~= all.take(i as int));
            assert(next.last() == item@);
        }
        if is_sequential_tool(item.name.as_str()) {
            let ghost before = invocation_views(sequential@);
            sequential.push(item.duplicate());
            assert(invocation_views(sequential@) =~= before.push(item@));
        } else {
            let ghost before = invocation_views(parallel@);
            parallel.push(item.duplicate());
            assert(invocation_views(parallel@) =~= before.push(item@));
        }
        i += 1;
    }
    assert(all.take(batch.len() as int) =~= all);
    BatchPlan { parallel, sequential }
}

/// The split is a partition: every call of a batch runs either side by side
/// or alone, the calls that run alone are exactly those that change the
/// repository, and both groups keep the order of the batch.
pub proof fn law_batch_is_partitioned(batch: Seq<InvocationView>)
    ensures
        selected(batch, false).len() + selected(batch, true).len() == batch.len(),
        forall|i: int|
            0 <= i < selected(batch, true).len() ==> changes_repository(
                (#[trigger] selected(batch, true)[i]).name,
            ) && batch.contains(selected(batch, true)[i]),
        forall|i: int|
            0 <= i < selected(batch, false).len() ==> !changes_repository(
                (#[trigger] selected(batch, false)[i]).name,
            ) && batch.contains(selected(batch, false)[i]),
        numbered(batch) ==> forall|i: int, j: int|
            0 <= i < j < selected(batch, true).len() ==> (#[trigger] selected(batch, true)[i]).index
                < (#[trigger] selected(batch, true)[j]).index,
    decreases batch.len(),
{
    if batch.len() > 0 {
        let front = batch.drop_last();
        law_batch_is_partitioned(front);
        assert forall|k: int| 0 <= k < front.len() implies batch.contains(#[trigger] front[k]) by {
            assert(front[k] == batch[k]);
        }
        assert(batch.contains(batch.last())) by {
            assert(batch[batch.len() - 1] == batch.last());
        }
        assert forall|i: int| 0 <= i < selected(batch, true).len() implies changes_repository(
            (#[trigger] selected(batch, true)[i]).name,
        ) && batch.contains(selected(batch, true)[i]) by {
            if i < selected(front, true).len() {
                let x = selected(front, true)[i];
                assert(front.contains(x));
                let k = choose|k: int| 0 <= k < front.len() && front[k] == x;
                assert(batch[k] == x);
            }
        }
        assert forall|i: int| 0 <= i < selected(batch, false).len() implies !changes_repository(
            (#[trigger] selected(batch, false)[i]).name,
        ) && batch.contains(selected(batch, false)[i]) by {
            if i < selected(front, false).len() {
                let x = selected(front, false)[i];
                assert(front.contains(x));
                let k = choose|k: int| 0 <= k < front.len() && front[k] == x;
                assert(batch[k] == x);
            }
        }
        if numbered(batch) {
            assert forall|k: int| 0 <= k < front.len() implies (#[trigger] front[k]).index == k by {
                assert(front[k] == batch[k]);
            }
            assert forall|i: int, j: int| 0 <= i < j < selected(batch, true).len() implies (
            #[trigger] selected(batch, true)[i]).index < (#[trigger] selected(
                batch,
                true,
            )[j]).index by {
                if j == selected(front, true).len() {
                    let x = selected(front, true)[i];
                    assert(front.contains(x));
                    let k = choose|k: int| 0 <= k < front.len() && front[k] == x;
                    assert(front[k].index == k);
                }
            }
        }
    }
}

/// The position of the first completion for the call at `index`, or the
/// length if there is none.
pub open spec fn completion_of(completions: Seq<CompletionView>, index: nat) -> int
    decreases completions.len(),
{
    if completions.len() == 0 {
        0
    } else if completions[0].index == index {
        0
    } else {
        1 + completion_of(completions.drop_first(), index)
    }
}

/// The text that stands for a unit that did not run to its end.
pub open spec fn failure_text(reason: Seq<char>) -> Seq<char> {
    "Error executing tool: "@ + reason
}

/// The text that stands for a call whose unit never reported.
pub open spec fn missing_text() -> Seq<char> {
    failure_text("no result"@)
}

/// The result text of a call, given the completions that arrived.
pub open spec fn result_text(completions: Seq<CompletionView>, index: nat) -> Seq<char> {
    let at = completion_of(completions, index);
    if at < completions.len() {
        match completions[at].outcome {
            OutcomeView::Finished(text) => text,
            OutcomeView::Failed(reason) => failure_text(reason),
        }
    } else {
        missing_text()
    }
}

/// The output of a call, given the completions that arrived.
pub open spec fn output_of(call: InvocationView, completions: Seq<CompletionView>) -> OutputView {
    OutputView {
        index: call.index,
        id: call.id,
        name: call.name,
        result: result_text(completions, call.index),
    }
}

/// The outputs of a batch, one for each call and in the order of the calls.
pub open spec fn merged(batch: Seq<InvocationView>, completions: Seq<CompletionView>) -> Seq<
    OutputView,
> {
    Seq::new(batch.len(), |i: int| output_of(batch[i], completions))
}

/// `completion_of` finds the first completion with the index.
pub proof fn lemma_completion_of(completions: Seq<CompletionView>, index: nat)
    ensures
        0 <= completion_of(completions, index) <= completions.len(),
        completion_of(completions, index) < completions.len() ==> completions[completion_of(
            completions,
            index,
        )].index == index,
        forall|j: int|
            0 <= j < completion_of(completions, index) ==> (#[trigger] completions[j]).index
                != index,
    decreases completions.len(),
{
    if completions.len() > 0 && completions[0].index != index {
        let rest = completions.drop_first();
        lemma_completion_of(rest, index);
        assert forall|j: int| 0 <= j < completion_of(completions, index) implies (
        #[trigger] completions[j]).index != index by {
            if j > 0 {
                assert(completions[j] == rest[j - 1]);
            }
        }
        if completion_of(completions, index) < completions.len() {
            assert(completions[completion_of(completions, index)] == rest[completion_of(
                rest,
                index,
            )]);
        }
    }
}

/// The position `at` is the one that `completion_of` finds, if it holds the
/// index (or is the length) and no earlier position holds it.
pub proof fn lemma_completion_of_is(completions: Seq<CompletionView>, index: nat, at: int)
    requires
        0 <= at <= completions.len(),
        at < completions.len() ==> completions[at].index == index,
        forall|j: int| 0 <= j < at ==> (#[trigger] completions[j]).index != index,
    ensures
        completion_of(completions, index) == at,
{
    lemma_completion_of(completions, index);
    let k = completion_of(completions, index);
    if k < at {
        assert(completions[k].index != index);
    }
}

/// No two completions are for the same call.
pub open spec fn distinct_units(completions: Seq<CompletionView>) -> bool {
    forall|i: int, j: int|
        0 <= i < j < completions.len() ==> (#[trigger] completions[i]).index != (
        #[trigger] completions[j]).index
}

/// The batch is numbered by position.
pub open spec fn numbered(batch: Seq<InvocationView>) -> bool {
    forall|i: int| 0 <= i < batch.len() ==> (#[trigger] batch[i]).index == i
}

/// Order of results: whatever completions arrive and in whatever order, the
/// results of a batch of N calls are N, and the result at each position is
/// for the call at that position, with its identifier and name.
pub proof fn law_results_in_call_order(
    batch: Seq<InvocationView>,
    completions: Seq<CompletionView>,
)
    requires
        numbered(batch),
    ensures
        merged(batch, completions).len() == batch.len(),
        forall|i: int|
            0 <= i < batch.len() ==> {
                &&& (#[trigger] merged(batch, completions)[i]).index == i
                &&& merged(batch, completions)[i].id == batch[i].id
                &&& merged(batch, completions)[i].name == batch[i].name
            },
        forall|i: int, j: int|
            0 <= i <= j < batch.len() ==> merged(batch, completions)[i].index <= merged(
                batch,
                completions,
            )[j].index,
{
}

/// Independence of the order of completion: when each unit reports once, two
/// arrival orders of the same completions give the same results.
pub proof fn law_completion_order_is_irrelevant(
    batch: Seq<InvocationView>,
    first: Seq<CompletionView>,
    second: Seq<CompletionView>,
)
    requires
        distinct_units(first),
        distinct_units(second),
        forall|i: int| 0 <= i < first.len() ==> second.contains(#[trigger] first[i]),
        forall|i: int| 0 <= i < second.len() ==> first.contains(#[trigger] second[i]),
    ensures
        merged(batch, first) == merged(batch, second),
{
    assert forall|i: int| 0 <= i < batch.len() implies merged(batch, first)[i] == merged(
        batch,
        second,
    )[i] by {
        let index = batch[i].index;
        lemma_completion_of(first, index);
        lemma_completion_of(second, index);
        let a = completion_of(first, index);
        let b = completion_of(second, index);
        if a < first.len() {
            assert(second.contains(first[a]));
            let k = choose|k: int| 0 <= k < second.len() && second[k] == first[a];
            if b != k {
                assert(second[b].index == index);
                assert(second[k].index == index);
            }
        } else if b < second.len() {
            assert(first.contains(second[b]));
            let k = choose|k: int| 0 <= k < first.len() && first[k] == second[b];
            assert(first[k].index == index);
        }
    }
    assert(merged(batch, first) =~= merged(batch, second));
}

/// Brings the results of a batch back into the order of the calls.
///
/// Each call gets exactly one output with its position, identifier and name.
/// Its text is what the tool returned; where the unit did not run to its end,
/// the text says so with the reason; where no unit reported for the call, the
/// text says that. Completions for positions outside the batch are ignored.
pub fn merge_results(batch: &[ToolInvocation], completions: &[Completion]) -> (out: Vec<
    ToolOutput,
>)
    ensures
        output_views(out@) == merged(invocation_views(batch@), completion_views(completions@)),
        out@.len() == batch@.len(),
        forall|i: int|
            0 <= i < out@.len() ==> (#[trigger] out@[i])@ == output_of(
                batch@[i]@,
                completion_views(completions@),
            ),
{
    let mut out: Vec<ToolOutput> = Vec::new();
    let ghost arrived = completion_views(completions@);
    let mut i: usize = 0;
    while i < batch.len()
        invariant
            i <= batch.len(),
            arrived == completion_views(completions@),
            out@.len() == i,
            forall|k: int| 0 <= k < i ==> (#[trigger] out@[k])@ == output_of(batch@[k]@, arrived),
        decreases batch.len() - i,
    {
        let call = &batch[i];
        let mut at: usize = 0;
        while at < completions.len() && completions[at].index != call.index
            invariant
                at <= completions.len(),
                arrived == completion_views(completions@),
                forall|j: int| 0 <= j < at ==> (#[trigger] arrived[j]).index != call.index,
            decreases completions.len() - at,
        {
            at += 1;
        }
        proof {
            lemma_completion_of_is(arrived, call.index as nat, at as int);
        }
        let result = if at < completions.len() {
            match &completions[at].outcome {
                UnitOutcome::Finished(text) => text.clone(),
                UnitOutcome::Failed(reason) => concat("Error executing tool: ", reason.as_str()),
            }
        } else {
            concat("Error executing tool: ", "no result")
        };
        out.push(
            ToolOutput { index: call.index, id: call.id.clone(), name: call.name.clone(), result },
        );
        i += 1;
    }
    assert(output_views(out@) =~= merged(invocation_views(batch@), arrived));
    out
}

} // verus!
