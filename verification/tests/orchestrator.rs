use command_repl::command::{CommandDef, CommandSet};
use command_repl::orchestrator::{DispatchInstruction, Orchestrator, Phase};
use command_repl::types::{
    ApiClientHandle, ErrorReport, HandlerError, Message, ServiceIdentity, StreamError,
    UpdateEnvelope,
};

fn help_set() -> CommandSet {
    CommandSet { defs: vec![CommandDef { name: b"help".to_vec(), arity: 0 }] }
}

fn msg(text: &[u8]) -> UpdateEnvelope {
    UpdateEnvelope::Message(Message { text: text.to_vec() })
}

fn ready_orchestrator() -> Orchestrator {
    let mut orch = Orchestrator::new(ApiClientHandle { id: 1 }, help_set());
    assert!(orch.needs_identity());
    orch.cache_identity(ServiceIdentity { id: 9 });
    assert!(!orch.needs_identity());
    orch
}

#[test]
fn command_update_orders_a_primary_invocation() {
    let mut orch = ready_orchestrator();
    let instr = orch.on_update(msg(b"/help"));
    match instr {
        DispatchInstruction::InvokePrimary(reg) => {
            assert_eq!(reg.api_client, Some(ApiClientHandle { id: 1 }));
            assert_eq!(reg.message, Some(Message { text: b"/help".to_vec() }));
            let pc = reg.command.expect("the parsed command must be registered");
            assert_eq!(pc.index, 0);
            assert_eq!(pc.args.len(), 0);
            assert_eq!(reg.identity, Some(ServiceIdentity { id: 9 }));
        }
        DispatchInstruction::InvokeDefault(_) => {
            panic!("a classified command must reach the primary handler");
        }
    }
}

#[test]
fn non_command_update_orders_a_default_invocation() {
    let mut orch = ready_orchestrator();
    let instr = orch.on_update(msg(b"hello"));
    assert!(matches!(instr, DispatchInstruction::InvokeDefault(UpdateEnvelope::Message(_))));
    let instr = orch.on_dispatch_complete(None);
    assert!(instr.is_none());
    let other = orch.on_update(UpdateEnvelope::Other);
    assert!(matches!(other, DispatchInstruction::InvokeDefault(UpdateEnvelope::Other)));
}

#[test]
fn handler_failure_is_reported_and_loop_keeps_running() {
    let mut orch = ready_orchestrator();
    let _ = orch.on_update(msg(b"/help"));
    let report = orch.on_dispatch_complete(Some(Err(HandlerError { code: 3 })));
    assert_eq!(report, Some(ErrorReport::Handler(HandlerError { code: 3 })));
    assert_eq!(orch.phase(), Phase::Running);
    assert!(orch.should_pull());
}

#[test]
fn shutdown_with_work_in_flight_drains_before_stopping() {
    let mut orch = ready_orchestrator();
    let _ = orch.on_update(msg(b"/help"));
    orch.observe_shutdown();
    // No further pulls, but the started dispatch is allowed to finish.
    assert!(!orch.should_pull());
    assert_eq!(orch.phase(), Phase::Draining);
    let report = orch.on_dispatch_complete(Some(Ok(())));
    assert!(report.is_none());
    assert_eq!(orch.phase(), Phase::Stopped);
}

#[test]
fn drain_waits_for_every_in_flight_dispatch() {
    // The source may yield a batch, so several dispatches can be in
    // flight at once; draining stops only when the last one completes.
    let mut orch = ready_orchestrator();
    let _ = orch.on_update(msg(b"/help"));
    let _ = orch.on_update(msg(b"hello"));
    orch.observe_shutdown();
    assert_eq!(orch.phase(), Phase::Draining);
    let _ = orch.on_dispatch_complete(Some(Ok(())));
    assert_eq!(orch.phase(), Phase::Draining);
    let _ = orch.on_dispatch_complete(None);
    assert_eq!(orch.phase(), Phase::Stopped);
}

#[test]
fn shutdown_with_nothing_in_flight_stops_at_once() {
    let mut orch = ready_orchestrator();
    orch.observe_shutdown();
    assert_eq!(orch.phase(), Phase::Stopped);
    assert!(!orch.should_pull());
}

#[test]
fn transient_stream_error_keeps_the_loop_running() {
    let mut orch = ready_orchestrator();
    let err = StreamError { fatal: false, code: 5 };
    let report = orch.on_stream_error(err);
    assert_eq!(report, ErrorReport::Listener(err));
    assert!(orch.should_pull());
}

#[test]
fn fatal_stream_error_stops_the_loop() {
    let mut orch = ready_orchestrator();
    let err = StreamError { fatal: true, code: 6 };
    let report = orch.on_stream_error(err);
    assert_eq!(report, ErrorReport::Listener(err));
    assert_eq!(orch.phase(), Phase::Stopped);
    assert!(!orch.should_pull());
}
