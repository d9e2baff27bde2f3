//! The agent runtime: one turn runs classify, policy, confirmation gate and
//! dispatch in this order, and reports each step as an event.
//!
//! A turn is planned by `plan_turn`, which decides everything up to the
//! dispatch; when the plan asks for it, the caller performs the effect that
//! `ToolRouter::route` names and hands the outcome to `finish`.
use vstd::prelude::*;
use crate::intent::{classify, decide_tool};
use crate::policy::{decision_for, PolicyEngine};
use crate::protocol::{
    events_view, CallView, CoreEvent, EventView, OutputView, ResultView, ToolCall,
    ToolOutput, ToolResult,
};

verus! {

/// The echo that opens every turn.
pub open spec fn heard(input: Seq<char>) -> Seq<char> {
    "Heard: "@ + input
}

pub open spec fn no_tool_text() -> Seq<char> {
    "No tool selected. I can run: system status, read/write file, shell exec, network get."@
}

pub open spec fn confirm_text(tool: Seq<char>, reason: Seq<char>) -> Seq<char> {
    "Tool "@ + tool + " requires confirmation: "@ + reason
}

/// The events of a turn up to the dispatch, and whether the tool is to run.
pub open spec fn turn_plan(input: Seq<char>, auto_approve: bool, id: Seq<char>) -> (
    Seq<EventView>,
    bool,
) {
    let echo = EventView::ResponseText(heard(input));
    match classify(input) {
        None => (seq![echo, EventView::ResponseText(no_tool_text())], false),
        Some((tool, args)) => {
            let d = decision_for(tool, args);
            if !d.allowed {
                (seq![echo, EventView::Error(d.reason)], false)
            } else {
                let call = EventView::ToolCall(
                    CallView { id, tool, args, requires_confirmation: d.requires_confirmation },
                );
                if d.requires_confirmation && !auto_approve {
                    (
                        seq![echo, call, EventView::ResponseText(confirm_text(tool, d.reason))],
                        false,
                    )
                } else {
                    (seq![echo, call], true)
                }
            }
        },
    }
}

/// What a tool outcome reports: the output, or the error as a failure.
pub open spec fn outcome_output(outcome: Result<OutputView, Seq<char>>) -> OutputView {
    match outcome {
        Ok(o) => o,
        Err(e) => OutputView::Failed { error: e },
    }
}

/// The events of a turn once the outcome is in: one `ToolResult` for the call
/// that closes a dispatching plan, nothing added otherwise.
pub open spec fn finished(
    events: Seq<EventView>,
    dispatch: bool,
    outcome: Result<OutputView, Seq<char>>,
) -> Seq<EventView> {
    if dispatch && events.len() > 0 && events.last() is ToolCall {
        events.push(
            EventView::ToolResult(
                ResultView {
                    id: events.last()->ToolCall_0.id,
                    ok: outcome is Ok,
                    output: outcome_output(outcome),
                },
            ),
        )
    } else {
        events
    }
}

pub open spec fn outcome_view(outcome: Result<ToolOutput, String>) -> Result<OutputView, Seq<char>> {
    match outcome {
        Ok(o) => Ok(o@),
        Err(e) => Err(e@),
    }
}

/// The events decided so far in a turn, and whether the call that closes them
/// is to be dispatched.
pub struct TurnPlan {
    pub events: Vec<CoreEvent>,
    pub dispatch: bool,
}

/// Runs turns; it keeps no memory from one turn to the next.
pub struct AgentRuntime {
    policy: PolicyEngine,
}

impl AgentRuntime {
    pub fn new() -> (r: AgentRuntime) {
        AgentRuntime { policy: PolicyEngine::new() }
    }

    /// Plans the turn for `input`, naming a dispatched call `id`.
    pub fn plan_turn(&self, input: &str, auto_approve: bool, id: String) -> (r: TurnPlan)
        ensures
            (events_view(r.events@), r.dispatch) == turn_plan(input@, auto_approve, id@),
            r.events@.len() > 0,
            r.events@[0]@ == EventView::ResponseText(heard(input@)),
    {
        let mut events: Vec<CoreEvent> = Vec::new();
        events.push(CoreEvent::ResponseText(crate::text::joined("Heard: ", input)));
        let ghost echo = EventView::ResponseText(heard(input@));
        match decide_tool(input) {
            None => {
                events.push(
                    CoreEvent::ResponseText(
                        String::from_str(
                            "No tool selected. I can run: system status, read/write file, shell exec, network get.",
                        ),
                    ),
                );
                assert(events_view(events@) =~= seq![echo, EventView::ResponseText(no_tool_text())]);
                TurnPlan { events, dispatch: false }
            },
            Some((tool, args)) => {
                let decision = self.policy.evaluate(tool.as_str(), &args);
                if !decision.allowed {
                    events.push(CoreEvent::Error(decision.reason));
                    assert(events_view(events@) =~= seq![echo, EventView::Error(decision@.reason)]);
                    return TurnPlan { events, dispatch: false };
                }
                let confirm = decision.requires_confirmation;
                let held = confirm && !auto_approve;
                let ghost call_view = EventView::ToolCall(
                    CallView { id: id@, tool: tool@, args: args@, requires_confirmation: confirm },
                );
                let note = if held {
                    let mut t = crate::text::joined("Tool ", tool.as_str());
                    t.append(" requires confirmation: ");
                    t.append(decision.reason.as_str());
                    Some(t)
                } else {
                    None
                };
                events.push(
                    CoreEvent::ToolCall(
                        ToolCall { id, tool, args, requires_confirmation: confirm },
                    ),
                );
                match note {
                    Some(t) => {
                        let ghost tv = t@;
                        events.push(CoreEvent::ResponseText(t));
                        assert(events_view(events@) =~= seq![
                            echo,
                            call_view,
                            EventView::ResponseText(tv),
                        ]);
                        TurnPlan { events, dispatch: false }
                    },
                    None => {
                        assert(events_view(events@) =~= seq![echo, call_view]);
                        TurnPlan { events, dispatch: true }
                    },
                }
            },
        }
    }

    /// Plans the turn for `input` with a fresh call id.
    pub fn begin(&self, input: &str, auto_approve: bool) -> (r: TurnPlan)
        ensures
            exists|id: Seq<char>|
                id.len() == 36 && (events_view(r.events@), r.dispatch) == turn_plan(
                    input@,
                    auto_approve,
                    id,
                ),
            r.events@.len() > 0,
            r.events@[0]@ == EventView::ResponseText(heard(input@)),
    {
        let id = crate::protocol::fresh_id();
        let r = self.plan_turn(input, auto_approve, id);
        assert(events_view(r.events@)[0] == r.events@[0]@);
        r
    }

    /// The call that a plan asks to dispatch.
    pub fn pending_call(plan: &TurnPlan) -> (r: Option<&ToolCall>)
        ensures
            match r {
                Some(c) => plan.dispatch && plan.events@.len() > 0 && events_view(
                    plan.events@,
                ).last() == EventView::ToolCall(c@),
                None => !(plan.dispatch && plan.events@.len() > 0 && events_view(
                    plan.events@,
                ).last() is ToolCall),
            },
    {
        let n = plan.events.len();
        if !plan.dispatch || n == 0 {
            return None;
        }
        match &plan.events[n - 1] {
            CoreEvent::ToolCall(c) => Some(c),
            _ => None,
        }
    }

    /// Closes a turn with the outcome of its dispatched call: a tool failure
    /// becomes a `ToolResult` that is not ok, never a fault of the runtime.
    pub fn finish(plan: TurnPlan, outcome: Result<ToolOutput, String>) -> (r: Vec<CoreEvent>)
        ensures
            events_view(r@) == finished(events_view(plan.events@), plan.dispatch, outcome_view(outcome)),
    {
        let ghost before = events_view(plan.events@);
        let n = plan.events.len();
        if !plan.dispatch || n == 0 {
            return plan.events;
        }
        let id = match &plan.events[n - 1] {
            CoreEvent::ToolCall(c) => c.id.clone(),
            _ => {
                return plan.events;
            },
        };
        let ok = outcome.is_ok();
        let output = match outcome {
            Ok(o) => o,
            Err(e) => ToolOutput::Failed { error: e },
        };
        let mut events = plan.events;
        events.push(CoreEvent::ToolResult(ToolResult { id, ok, output }));
        assert(events_view(events@) =~= finished(before, true, outcome_view(outcome)));
        events
    }
}

/// Every turn opens with the echo of its input, whatever the rules, the
/// policy and the tool's outcome make of the rest.
pub proof fn lemma_turn_opens_with_echo(
    input: Seq<char>,
    auto_approve: bool,
    id: Seq<char>,
    outcome: Result<OutputView, Seq<char>>,
)
    ensures
        ({
            let (events, dispatch) = turn_plan(input, auto_approve, id);
            let all = finished(events, dispatch, outcome);
            all.len() > 0 && all[0] == EventView::ResponseText(heard(input))
        }),
{
}

/// A call that needs confirmation, without auto-approval, is never dispatched:
/// the turn ends with no `ToolResult`, whatever outcome is handed in.
pub proof fn lemma_unconfirmed_call_not_dispatched(
    input: Seq<char>,
    id: Seq<char>,
    outcome: Result<OutputView, Seq<char>>,
)
    requires
        match classify(input) {
            Some((tool, args)) => decision_for(tool, args).requires_confirmation,
            None => false,
        },
    ensures
        ({
            let (events, dispatch) = turn_plan(input, false, id);
            let all = finished(events, dispatch, outcome);
            &&& !dispatch
            &&& all == events
            &&& forall|i: int| 0 <= i < all.len() ==> !(all[i] is ToolResult)
        }),
{
}

/// Classification depends on the text alone: equal texts are classified alike.
pub proof fn lemma_classify_is_pure(a: Seq<char>, b: Seq<char>)
    requires
        a == b,
    ensures
        classify(a) == classify(b),
{
}

} // verus!
