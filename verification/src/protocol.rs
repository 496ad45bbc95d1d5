use vstd::prelude::*;

use crate::errors::RenderError;

verus! {

/// The single argument handed to the render function when it is invoked:
/// the caller's params string wrapped as a VM string value, passed through
/// verbatim (it is expected to be JSON, but is never parsed or validated
/// here), or the VM's undefined value when no params were given.
#[derive(Debug, Clone, PartialEq, Eq)]
pub enum Argument {
    Undefined,
    Text(String),
}

/// One step of VM work the host driver is asked to perform next. The driver
/// owns the execution environment (isolate and context); it performs the
/// action there and reports the outcome back as a [`VmEvent`].
#[derive(Debug, Clone, PartialEq, Eq)]
pub enum VmAction {
    /// Compile the call's source text as an ES module, against a synthetic
    /// resource descriptor (the source is supplied in memory; no real file
    /// path exists).
    Compile,
    /// Resolve the module's static imports. No external module resolution
    /// is supported, so a module that is not self-contained fails here.
    Instantiate,
    /// Run the module's top-level statements, then inspect the module's
    /// status flag for a top-level exception.
    Evaluate,
    /// Read the module namespace object and look up the property named
    /// `default`, checking that its value is invocable.
    ResolveDefault,
    /// Call the resolved render function with `this` undefined and the
    /// given single argument, inside an exception trap, and convert the
    /// return value to its string form (lossy conversion: unrepresentable
    /// code points are replaced, never a failure).
    Invoke(Argument),
}

/// What the VM reported for one performed action. The exception-carrying
/// variants hold the guest exception's `message` property (falling back to
/// the exception's string conversion when it has none), already converted
/// to a host string.
#[derive(Debug, Clone, PartialEq, Eq)]
pub enum VmEvent {
    CompileSucceeded,
    CompileFailed,
    InstantiateSucceeded,
    InstantiateFailed,
    /// Evaluation ran and the module's status is not errored.
    EvaluationCompleted,
    /// The module's status is errored; holds the thrown exception's message.
    EvaluationThrew(String),
    /// The `default` property exists and is invocable.
    DefaultCallable,
    /// The exported namespace has no property named `default`.
    DefaultMissing,
    /// The `default` property exists but is not invocable.
    DefaultNotCallable,
    /// The call returned; holds the return value's lossy string form.
    CallReturned(String),
    /// The exception trap caught a throw; holds the exception's message.
    CallThrew(String),
}

/// Where one render call stands in the protocol. A call starts at
/// [`RenderState::Started`] and moves forward one state per event; every
/// failure short-circuits straight to [`RenderState::Finished`] with the
/// distinct error of the step that failed, and no state past `Finished`
/// exists: no partial result is ever produced.
#[derive(Debug, PartialEq, Eq)]
pub enum RenderState {
    Started,
    Compiled,
    Instantiated,
    Evaluated,
    /// The default export was resolved and is known to be callable.
    Resolved,
    Finished(Result<String, RenderError>),
}

/// The protocol's transition function. Each stage accepts exactly the
/// outcomes of its own action: a success moves to the next stage, a failure
/// finishes the call with that stage's error. An event that does not answer
/// the stage's action leaves the state unchanged.
pub open spec fn step_spec(state: RenderState, event: VmEvent) -> RenderState {
    match (state, event) {
        (RenderState::Started, VmEvent::CompileSucceeded) => RenderState::Compiled,
        (RenderState::Started, VmEvent::CompileFailed) => RenderState::Finished(
            Err(RenderError::CompileError),
        ),
        (RenderState::Compiled, VmEvent::InstantiateSucceeded) => RenderState::Instantiated,
        (RenderState::Compiled, VmEvent::InstantiateFailed) => RenderState::Finished(
            Err(RenderError::InstantiateError),
        ),
        (RenderState::Instantiated, VmEvent::EvaluationCompleted) => RenderState::Evaluated,
        (RenderState::Instantiated, VmEvent::EvaluationThrew(m)) => RenderState::Finished(
            Err(RenderError::EvaluationError(m)),
        ),
        (RenderState::Evaluated, VmEvent::DefaultCallable) => RenderState::Resolved,
        (RenderState::Evaluated, VmEvent::DefaultMissing) => RenderState::Finished(
            Err(RenderError::MissingExportError),
        ),
        (RenderState::Evaluated, VmEvent::DefaultNotCallable) => RenderState::Finished(
            Err(RenderError::NotCallableError),
        ),
        (RenderState::Resolved, VmEvent::CallReturned(s)) => RenderState::Finished(Ok(s)),
        (RenderState::Resolved, VmEvent::CallThrew(m)) => RenderState::Finished(
            Err(RenderError::InvocationError(m)),
        ),
        (s, _) => s,
    }
}

/// Advances one render call by one reported VM outcome.
pub fn step(state: RenderState, event: VmEvent) -> (next: RenderState)
    ensures
        next == step_spec(state, event),
{
    match (state, event) {
        (RenderState::Started, VmEvent::CompileSucceeded) => RenderState::Compiled,
        (RenderState::Started, VmEvent::CompileFailed) => RenderState::Finished(
            Err(RenderError::CompileError),
        ),
        (RenderState::Compiled, VmEvent::InstantiateSucceeded) => RenderState::Instantiated,
        (RenderState::Compiled, VmEvent::InstantiateFailed) => RenderState::Finished(
            Err(RenderError::InstantiateError),
        ),
        (RenderState::Instantiated, VmEvent::EvaluationCompleted) => RenderState::Evaluated,
        (RenderState::Instantiated, VmEvent::EvaluationThrew(m)) => RenderState::Finished(
            Err(RenderError::EvaluationError(m)),
        ),
        (RenderState::Evaluated, VmEvent::DefaultCallable) => RenderState::Resolved,
        (RenderState::Evaluated, VmEvent::DefaultMissing) => RenderState::Finished(
            Err(RenderError::MissingExportError),
        ),
        (RenderState::Evaluated, VmEvent::DefaultNotCallable) => RenderState::Finished(
            Err(RenderError::NotCallableError),
        ),
        (RenderState::Resolved, VmEvent::CallReturned(s)) => RenderState::Finished(Ok(s)),
        (RenderState::Resolved, VmEvent::CallThrew(m)) => RenderState::Finished(
            Err(RenderError::InvocationError(m)),
        ),
        (s, _) => s,
    }
}

/// The argument the render function receives for the given optional params.
pub open spec fn argument_spec(params: Option<String>) -> Argument {
    match params {
        Option::None => Argument::Undefined,
        Option::Some(p) => Argument::Text(p),
    }
}

/// Wraps the params for invocation: the string verbatim when present, the
/// undefined value when absent.
pub fn argument_for(params: &Option<String>) -> (arg: Argument)
    ensures
        arg == argument_spec(*params),
{
    match params {
        Option::None => Argument::Undefined,
        Option::Some(p) => Argument::Text(p.clone()),
    }
}

/// The action owed at each state, in the protocol's fixed order. Exactly
/// the finished state owes none.
pub open spec fn next_action_spec(state: RenderState, params: Option<String>) -> Option<
    VmAction,
> {
    match state {
        RenderState::Started => Option::Some(VmAction::Compile),
        RenderState::Compiled => Option::Some(VmAction::Instantiate),
        RenderState::Instantiated => Option::Some(VmAction::Evaluate),
        RenderState::Evaluated => Option::Some(VmAction::ResolveDefault),
        RenderState::Resolved => Option::Some(VmAction::Invoke(argument_spec(params))),
        RenderState::Finished(_) => Option::None,
    }
}

/// Tells the host driver which VM action to perform next for this call, or
/// `None` once the call is finished.
pub fn next_action(state: &RenderState, params: &Option<String>) -> (action: Option<VmAction>)
    ensures
        action == next_action_spec(*state, *params),
{
    match state {
        RenderState::Started => Option::Some(VmAction::Compile),
        RenderState::Compiled => Option::Some(VmAction::Instantiate),
        RenderState::Instantiated => Option::Some(VmAction::Evaluate),
        RenderState::Evaluated => Option::Some(VmAction::ResolveDefault),
        RenderState::Resolved => Option::Some(VmAction::Invoke(argument_for(params))),
        RenderState::Finished(_) => Option::None,
    }
}

/// The state one render call reaches after the VM reported the given
/// outcomes, in order, starting from a fresh call. This is a function of
/// the events alone: the protocol keeps no state of its own between calls.
pub open spec fn run_spec(events: Seq<VmEvent>) -> RenderState
    decreases events.len(),
{
    if events.len() == 0 {
        RenderState::Started
    } else {
        step_spec(run_spec(events.drop_last()), events.last())
    }
}

/// One more reported outcome advances the run by exactly one transition.
pub proof fn lemma_run_push(events: Seq<VmEvent>, event: VmEvent)
    ensures
        run_spec(events.push(event)) == step_spec(run_spec(events), event),
{
    assert(events.push(event).drop_last() =~= events);
    assert(events.push(event).last() == event);
}

/// The finished call's outcome on the caller-facing surface, where the
/// error channel carries the human-readable message: the rendered string as
/// the VM produced it, or the failed step's message. `None` while the call
/// is still under way.
pub fn finished_outcome(state: &RenderState) -> (outcome: Option<Result<String, String>>)
    ensures
        match outcome {
            Option::None => !(*state is Finished),
            Option::Some(Ok(rendered)) => (*state matches RenderState::Finished(Ok(s))
                && rendered@ == s@),
            Option::Some(Err(message)) => (*state matches RenderState::Finished(Err(e))
                && message@ == e.message_spec()),
        },
{
    match state {
        RenderState::Finished(Ok(s)) => Option::Some(Ok(s.clone())),
        RenderState::Finished(Err(e)) => Option::Some(Err(e.message())),
        _ => Option::None,
    }
}

/// Replays a whole recorded sequence of VM outcomes from a fresh call.
pub fn run_protocol(events: Vec<VmEvent>) -> (state: RenderState)
    ensures
        state == run_spec(events@),
{
    let ghost all = events@;
    let mut remaining = events;
    let mut state = RenderState::Started;
    while remaining.len() > 0
        invariant
            remaining@.len() <= all.len(),
            remaining@ == all.skip(all.len() - remaining@.len()),
            state == run_spec(all.take(all.len() - remaining@.len())),
        decreases remaining@.len(),
    {
        let ghost done: int = all.len() - remaining@.len();
        let event = remaining.remove(0);
        proof {
            assert(remaining@ =~= all.skip(done + 1));
            assert(all.take(done).push(all[done]) =~= all.take(done + 1));
            lemma_run_push(all.take(done), event);
        }
        state = step(state, event);
    }
    proof {
        assert(all.take(all.len() - remaining@.len()) =~= all);
    }
    state
}

} // verus!
