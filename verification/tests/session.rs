use command_repl::command::{CommandDef, CommandSet};
use command_repl::orchestrator::Phase;
use command_repl::session::{run_session, ListenerEvent, SessionReport};
use command_repl::types::{
    ApiClientHandle, DispatchOutcome, ErrorReport, HandlerError, Message, ServiceIdentity,
    SetupError, StreamError, UpdateEnvelope,
};

fn help_set() -> CommandSet {
    CommandSet { defs: vec![CommandDef { name: b"help".to_vec(), arity: 0 }] }
}

fn msg(text: &[u8]) -> ListenerEvent {
    ListenerEvent::Update(UpdateEnvelope::Message(Message { text: text.to_vec() }))
}

fn run_ok(
    events: Vec<ListenerEvent>,
    handler_results: Vec<Result<(), HandlerError>>,
) -> SessionReport {
    run_session(
        Ok(()),
        events,
        &handler_results,
        ApiClientHandle { id: 1 },
        ServiceIdentity { id: 9 },
        help_set(),
    )
    .expect("a run with a sound setup must report")
}

#[test]
fn two_commands_around_plain_text() {
    // `/help` registered; the plain message takes the default path.
    let rep = run_ok(vec![msg(b"/help"), msg(b"hello"), msg(b"/help")], vec![Ok(()), Ok(())]);
    assert_eq!(rep.primaries.len(), 2);
    assert_eq!(rep.defaults.len(), 1);
    assert_eq!(rep.consumed, 3);
    assert_eq!(
        rep.outcomes,
        vec![
            DispatchOutcome::Handled(Ok(())),
            DispatchOutcome::Unmatched,
            DispatchOutcome::Handled(Ok(())),
        ]
    );
    for reg in &rep.primaries {
        assert_eq!(reg.api_client, Some(ApiClientHandle { id: 1 }));
        assert_eq!(reg.message, Some(Message { text: b"/help".to_vec() }));
        let pc = reg.command.as_ref().expect("the parsed command must be registered");
        assert_eq!(pc.index, 0);
        assert_eq!(pc.args.len(), 0);
        assert_eq!(reg.identity, Some(ServiceIdentity { id: 9 }));
    }
    assert_eq!(
        rep.defaults,
        vec![UpdateEnvelope::Message(Message { text: b"hello".to_vec() })]
    );
}

#[test]
fn fatal_setup_error_prevents_any_dispatch() {
    // The error is surfaced to the caller before any dispatch state exists.
    let r = run_session(
        Err(SetupError { code: 7 }),
        vec![msg(b"/help"), msg(b"hello")],
        &vec![Ok(())],
        ApiClientHandle { id: 1 },
        ServiceIdentity { id: 9 },
        help_set(),
    );
    match r {
        Ok(_) => panic!("a fatal setup error must reach the caller"),
        Err(e) => assert_eq!(e, SetupError { code: 7 }),
    }
}

#[test]
fn handler_failure_is_isolated_from_later_dispatches() {
    let rep = run_ok(
        vec![msg(b"/help"), msg(b"/help")],
        vec![Err(HandlerError { code: 3 }), Ok(())],
    );
    // The failure on the first dispatch neither stops the loop nor skips
    // the second, independent update.
    assert_eq!(rep.primaries.len(), 2);
    assert_eq!(rep.consumed, 2);
    assert_eq!(
        rep.outcomes,
        vec![
            DispatchOutcome::Handled(Err(HandlerError { code: 3 })),
            DispatchOutcome::Handled(Ok(())),
        ]
    );
    assert_eq!(rep.reports, vec![ErrorReport::Handler(HandlerError { code: 3 })]);
    assert_eq!(rep.phase, Phase::Running);
}

#[test]
fn shutdown_stops_further_pulls() {
    let rep = run_ok(
        vec![msg(b"/help"), ListenerEvent::Shutdown, msg(b"/help")],
        vec![Ok(()), Ok(())],
    );
    // The update after the signal is never pulled.
    assert_eq!(rep.consumed, 2);
    assert_eq!(rep.primaries.len(), 1);
    assert_eq!(rep.phase, Phase::Stopped);
    assert_eq!(rep.outcomes, vec![DispatchOutcome::Handled(Ok(()))]);
}

#[test]
fn transient_stream_error_is_reported_and_loop_continues() {
    let err = StreamError { fatal: false, code: 5 };
    let rep = run_ok(vec![ListenerEvent::Failure(err), msg(b"/help")], vec![Ok(())]);
    assert_eq!(rep.consumed, 2);
    assert_eq!(rep.primaries.len(), 1);
    assert_eq!(
        rep.outcomes,
        vec![DispatchOutcome::ListenerError(err), DispatchOutcome::Handled(Ok(()))]
    );
    assert_eq!(rep.reports, vec![ErrorReport::Listener(err)]);
    assert_eq!(rep.phase, Phase::Running);
}

#[test]
fn fatal_stream_error_ends_the_run() {
    let err = StreamError { fatal: true, code: 6 };
    let rep = run_ok(vec![ListenerEvent::Failure(err), msg(b"/help")], vec![Ok(())]);
    assert_eq!(rep.consumed, 1);
    assert_eq!(rep.primaries.len(), 0);
    assert_eq!(rep.defaults.len(), 0);
    assert_eq!(rep.outcomes, vec![DispatchOutcome::ListenerError(err)]);
    assert_eq!(rep.reports, vec![ErrorReport::Listener(err)]);
    assert_eq!(rep.phase, Phase::Stopped);
}

#[test]
fn non_message_updates_take_the_default_path() {
    let rep = run_ok(vec![ListenerEvent::Update(UpdateEnvelope::Other)], vec![]);
    assert_eq!(rep.primaries.len(), 0);
    assert_eq!(rep.defaults, vec![UpdateEnvelope::Other]);
    assert_eq!(rep.outcomes, vec![DispatchOutcome::Unmatched]);
}

#[test]
fn exhausted_result_script_counts_as_success() {
    let rep = run_ok(vec![msg(b"/help")], Vec::new());
    assert_eq!(rep.primaries.len(), 1);
    assert_eq!(rep.outcomes, vec![DispatchOutcome::Handled(Ok(()))]);
    assert_eq!(rep.reports.len(), 0);
}

#[test]
fn empty_source_consumes_nothing() {
    let rep = run_ok(Vec::new(), Vec::new());
    assert_eq!(rep.consumed, 0);
    assert_eq!(rep.outcomes.len(), 0);
    assert_eq!(rep.primaries.len(), 0);
    assert_eq!(rep.defaults.len(), 0);
}
