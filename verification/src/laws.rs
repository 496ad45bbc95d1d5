use vstd::prelude::*;

use crate::errors::RenderError;
use crate::protocol::Argument;
use crate::protocol::RenderState;
use crate::protocol::VmAction;
use crate::protocol::VmEvent;
use crate::protocol::argument_spec;
use crate::protocol::lemma_run_push;
use crate::protocol::next_action_spec;
use crate::protocol::run_spec;
use crate::protocol::step_spec;

verus! {

/// The five outcomes the VM reports for a render call in which every step
/// succeeds: the module compiles, instantiates and evaluates cleanly, its
/// default export is callable, and the call returns a value whose string
/// form is `html`.
pub open spec fn all_steps_succeed(html: String) -> Seq<VmEvent> {
    seq![
        VmEvent::CompileSucceeded,
        VmEvent::InstantiateSucceeded,
        VmEvent::EvaluationCompleted,
        VmEvent::DefaultCallable,
        VmEvent::CallReturned(html),
    ]
}

/// A render call in which every VM step succeeds finishes with `Ok` holding
/// exactly the render function's stringified return value, whatever the
/// params were: the protocol alters the returned text in no way.
pub proof fn lemma_successful_render(html: String)
    ensures
        run_spec(all_steps_succeed(html)) == RenderState::Finished(Ok(html)),
{
    let e0 = Seq::<VmEvent>::empty();
    let e1 = e0.push(VmEvent::CompileSucceeded);
    let e2 = e1.push(VmEvent::InstantiateSucceeded);
    let e3 = e2.push(VmEvent::EvaluationCompleted);
    let e4 = e3.push(VmEvent::DefaultCallable);
    let e5 = e4.push(VmEvent::CallReturned(html));
    lemma_run_push(e0, VmEvent::CompileSucceeded);
    lemma_run_push(e1, VmEvent::InstantiateSucceeded);
    lemma_run_push(e2, VmEvent::EvaluationCompleted);
    lemma_run_push(e3, VmEvent::DefaultCallable);
    lemma_run_push(e4, VmEvent::CallReturned(html));
    assert(e5 =~= all_steps_succeed(html));
}

/// With no params the render function is still invoked, and with the VM's
/// undefined value as its one argument; its return value is still the
/// render result.
pub proof fn lemma_absent_params_invoke_undefined(html: String)
    ensures
        next_action_spec(RenderState::Resolved, Option::None) == Option::Some(
            VmAction::Invoke(Argument::Undefined),
        ),
        step_spec(RenderState::Resolved, VmEvent::CallReturned(html)) == RenderState::Finished(
            Ok(html),
        ),
{
}

/// Present params are passed through verbatim as the one argument, for any
/// params text: nothing is parsed, validated or re-encoded.
pub proof fn lemma_params_passed_verbatim(params: String)
    ensures
        argument_spec(Option::Some(params)) == Argument::Text(params),
        next_action_spec(RenderState::Resolved, Option::Some(params)) == Option::Some(
            VmAction::Invoke(Argument::Text(params)),
        ),
{
}

/// A module whose exported namespace lacks a `default` property finishes
/// with the missing-export error, whatever run of events brought the call
/// to the resolve step; no other error and no panic.
pub proof fn lemma_missing_export(events: Seq<VmEvent>)
    requires
        run_spec(events) == RenderState::Evaluated,
    ensures
        run_spec(events.push(VmEvent::DefaultMissing)) == RenderState::Finished(
            Err(RenderError::MissingExportError),
        ),
{
    lemma_run_push(events, VmEvent::DefaultMissing);
}

/// A `default` export that exists but is not invocable finishes with the
/// not-callable error: narrowing the export to a callable is checked, never
/// assumed.
pub proof fn lemma_export_not_callable(events: Seq<VmEvent>)
    requires
        run_spec(events) == RenderState::Evaluated,
    ensures
        run_spec(events.push(VmEvent::DefaultNotCallable)) == RenderState::Finished(
            Err(RenderError::NotCallableError),
        ),
{
    lemma_run_push(events, VmEvent::DefaultNotCallable);
}

/// A module whose top-level code throws finishes with an evaluation error
/// whose message equals the thrown exception's message text.
pub proof fn lemma_top_level_throw(events: Seq<VmEvent>, message: String)
    requires
        run_spec(events) == RenderState::Instantiated,
    ensures
        run_spec(events.push(VmEvent::EvaluationThrew(message))) == RenderState::Finished(
            Err(RenderError::EvaluationError(message)),
        ),
        RenderError::EvaluationError(message).message_spec() == message@,
{
    lemma_run_push(events, VmEvent::EvaluationThrew(message));
}

/// A render function that throws when invoked finishes with an invocation
/// error whose message equals the thrown exception's message text, not a
/// generic string form of the thrown object.
pub proof fn lemma_invocation_throw(events: Seq<VmEvent>, message: String)
    requires
        run_spec(events) == RenderState::Resolved,
    ensures
        run_spec(events.push(VmEvent::CallThrew(message))) == RenderState::Finished(
            Err(RenderError::InvocationError(message)),
        ),
        RenderError::InvocationError(message).message_spec() == message@,
{
    lemma_run_push(events, VmEvent::CallThrew(message));
}

/// The protocol itself is stateless across calls: the state a call reaches
/// is a function of the reported VM outcomes alone, so two calls that see
/// the same outcomes finish in the same state. (Whether two calls with the
/// same source and params see the same outcomes is up to the guest code:
/// top-level code may mutate globals that survive in the shared context.)
pub proof fn lemma_replay_same_outcome(first: Seq<VmEvent>, second: Seq<VmEvent>)
    requires
        first == second,
    ensures
        run_spec(first) == run_spec(second),
{
}

/// The machine never stalls and never runs past the end: a state owes a
/// next action exactly as long as the call is not finished.
pub proof fn lemma_owes_action_until_finished(state: RenderState, params: Option<String>)
    ensures
        next_action_spec(state, params) is None <==> state is Finished,
{
}

/// Failures short-circuit: once a call is finished, no further reported
/// outcome moves it, so no partial result is ever overwritten.
pub proof fn lemma_finished_is_final(outcome: Result<String, RenderError>, event: VmEvent)
    ensures
        step_spec(RenderState::Finished(outcome), event) == RenderState::Finished(outcome),
{
}

} // verus!
