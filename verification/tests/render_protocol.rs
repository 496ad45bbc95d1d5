use rust_ssr::errors::RenderError;
use rust_ssr::protocol::argument_for;
use rust_ssr::protocol::finished_outcome;
use rust_ssr::protocol::next_action;
use rust_ssr::protocol::run_protocol;
use rust_ssr::protocol::step;
use rust_ssr::protocol::Argument;
use rust_ssr::protocol::RenderState;
use rust_ssr::protocol::VmAction;
use rust_ssr::protocol::VmEvent;

fn all_steps_succeed(html: &str) -> Vec<VmEvent> {
    vec![
        VmEvent::CompileSucceeded,
        VmEvent::InstantiateSucceeded,
        VmEvent::EvaluationCompleted,
        VmEvent::DefaultCallable,
        VmEvent::CallReturned(html.to_string()),
    ]
}

#[test]
fn render_simple_module() {
    // export default () => "<html></html>";  with no params
    let state = run_protocol(all_steps_succeed("<html></html>"));
    assert_eq!(
        state,
        RenderState::Finished(Ok("<html></html>".to_string()))
    );
    assert_eq!(
        finished_outcome(&state),
        Some(Ok("<html></html>".to_string()))
    );
}

#[test]
fn params_passed_verbatim() {
    // export default (p) => "params:" + p;  with params = Some("\"x\"")
    let params = Some("\"x\"".to_string());
    assert_eq!(
        argument_for(&params),
        Argument::Text("\"x\"".to_string())
    );
    assert_eq!(
        next_action(&RenderState::Resolved, &params),
        Some(VmAction::Invoke(Argument::Text("\"x\"".to_string())))
    );
    let state = run_protocol(all_steps_succeed("params:\"x\""));
    assert_eq!(
        finished_outcome(&state),
        Some(Ok("params:\"x\"".to_string()))
    );
}

#[test]
fn absent_params_invoke_undefined() {
    // A function ignoring its argument is still called, with undefined.
    assert_eq!(argument_for(&None), Argument::Undefined);
    assert_eq!(
        next_action(&RenderState::Resolved, &None),
        Some(VmAction::Invoke(Argument::Undefined))
    );
    let state = step(
        RenderState::Resolved,
        VmEvent::CallReturned("<html></html>".to_string()),
    );
    assert_eq!(
        state,
        RenderState::Finished(Ok("<html></html>".to_string()))
    );
}

#[test]
fn throwing_render_function() {
    // export default () => { throw new Error("fail"); };
    let state = run_protocol(vec![
        VmEvent::CompileSucceeded,
        VmEvent::InstantiateSucceeded,
        VmEvent::EvaluationCompleted,
        VmEvent::DefaultCallable,
        VmEvent::CallThrew("fail".to_string()),
    ]);
    assert_eq!(
        state,
        RenderState::Finished(Err(RenderError::InvocationError("fail".to_string())))
    );
    let message = match finished_outcome(&state) {
        Some(Err(m)) => m,
        other => panic!("expected an error outcome, got {:?}", other),
    };
    // The message is the thrown value's message text itself, not a generic
    // string form of the thrown object.
    assert_eq!(message, "fail");
    assert!(message.contains("fail"));
}

#[test]
fn missing_default_export() {
    // A module with no default export fails with the missing-export error.
    let state = run_protocol(vec![
        VmEvent::CompileSucceeded,
        VmEvent::InstantiateSucceeded,
        VmEvent::EvaluationCompleted,
        VmEvent::DefaultMissing,
    ]);
    assert_eq!(
        state,
        RenderState::Finished(Err(RenderError::MissingExportError))
    );
    let message = RenderError::MissingExportError.message();
    assert!(message.contains("default export"));
}

#[test]
fn top_level_throw_carries_message() {
    // A module whose top level does: throw new Error("boom");
    let state = run_protocol(vec![
        VmEvent::CompileSucceeded,
        VmEvent::InstantiateSucceeded,
        VmEvent::EvaluationThrew("boom".to_string()),
    ]);
    assert_eq!(
        state,
        RenderState::Finished(Err(RenderError::EvaluationError("boom".to_string())))
    );
    let message = RenderError::EvaluationError("boom".to_string()).message();
    assert_eq!(message, "boom");
    assert!(message.contains("boom"));
}

#[test]
fn compile_failure() {
    let state = run_protocol(vec![VmEvent::CompileFailed]);
    assert_eq!(
        state,
        RenderState::Finished(Err(RenderError::CompileError))
    );
    assert_eq!(RenderError::CompileError.message(), "no runnable script");
}

#[test]
fn instantiate_failure() {
    // A module that statically imports anything cannot be resolved here.
    let state = run_protocol(vec![
        VmEvent::CompileSucceeded,
        VmEvent::InstantiateFailed,
    ]);
    assert_eq!(
        state,
        RenderState::Finished(Err(RenderError::InstantiateError))
    );
    assert_eq!(
        RenderError::InstantiateError.message(),
        "failed to instantiate module"
    );
}

#[test]
fn not_callable_export() {
    // export default 42;  resolves but cannot be invoked.
    let state = run_protocol(vec![
        VmEvent::CompileSucceeded,
        VmEvent::InstantiateSucceeded,
        VmEvent::EvaluationCompleted,
        VmEvent::DefaultNotCallable,
    ]);
    assert_eq!(
        state,
        RenderState::Finished(Err(RenderError::NotCallableError))
    );
    assert_eq!(
        RenderError::NotCallableError.message(),
        "default export is not a function"
    );
}

#[test]
fn repeat_render_same_events() {
    // Two calls that see identical VM outcomes finish identically: the
    // protocol keeps no state between calls.
    let first = run_protocol(all_steps_succeed("<p>twice</p>"));
    let second = run_protocol(all_steps_succeed("<p>twice</p>"));
    assert_eq!(first, second);
}

#[test]
fn driver_follows_fixed_order() {
    // Drive the machine as the host does and record the actions it owes.
    let params: Option<String> = None;
    let mut state = RenderState::Started;
    let mut actions: Vec<VmAction> = Vec::new();
    let script = vec![
        VmEvent::CompileSucceeded,
        VmEvent::InstantiateSucceeded,
        VmEvent::EvaluationCompleted,
        VmEvent::DefaultCallable,
        VmEvent::CallReturned("<html></html>".to_string()),
    ];
    for event in script {
        let action = next_action(&state, &params).expect("unfinished call owes an action");
        actions.push(action);
        state = step(state, event);
    }
    assert_eq!(next_action(&state, &params), None);
    assert_eq!(
        actions,
        vec![
            VmAction::Compile,
            VmAction::Instantiate,
            VmAction::Evaluate,
            VmAction::ResolveDefault,
            VmAction::Invoke(Argument::Undefined),
        ]
    );
    assert_eq!(
        finished_outcome(&state),
        Some(Ok("<html></html>".to_string()))
    );
}

#[test]
fn unfinished_call_has_no_outcome() {
    assert_eq!(finished_outcome(&RenderState::Started), None);
    assert_eq!(finished_outcome(&RenderState::Evaluated), None);
}

#[test]
fn no_events_no_progress() {
    let state = run_protocol(Vec::new());
    assert_eq!(state, RenderState::Started);
    assert_eq!(finished_outcome(&state), None);
}

#[test]
fn finished_call_ignores_later_events() {
    let done = RenderState::Finished(Ok("kept".to_string()));
    let after = step(done, VmEvent::CompileFailed);
    assert_eq!(after, RenderState::Finished(Ok("kept".to_string())));
}

#[test]
fn mismatched_event_leaves_state_unchanged() {
    let state = step(RenderState::Started, VmEvent::DefaultMissing);
    assert_eq!(state, RenderState::Started);
}
