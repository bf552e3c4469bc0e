//! A whole run of the dispatch loop over a scripted update source.
//!
//! `run_session` drives the orchestrator from setup to `Stopped` over a
//! given sequence of source items and a script of handler results, and
//! returns everything observable about the run: the outcome of every
//! consumed item, each primary and default invocation, and each failure
//! report. Its trace is pinned, item by item, to the specification-level
//! fold `spec_session`, and the loop's guarantees — exactly one primary
//! invocation per classified command, exactly one default invocation for
//! everything else, isolation of handler failures, and no pulls after a
//! shutdown signal — are proved of that fold once and for all.

use vstd::prelude::*;

use crate::command::{spec_classify_envelope, CommandSet, ParsedCommandView};
use crate::orchestrator::{DispatchInstruction, Orchestrator, Phase};
use crate::registry::DependencyRegistry;
use crate::types::{
    ApiClientHandle, DispatchOutcome, ErrorReport, HandlerError, Message, ServiceIdentity,
    SetupError, StreamError, UpdateEnvelope,
};

verus! {

/// One item the update source hands the loop.
#[derive(Debug)]
pub enum ListenerEvent {
    /// The source yielded an update envelope.
    Update(UpdateEnvelope),
    /// The source failed on this pull.
    Failure(StreamError),
    /// The external shutdown signal was observed before the next pull.
    Shutdown,
}

/// One primary-handler invocation owed by the loop: the dispatched message
/// and its parsed command.
pub struct PrimaryCall {
    /// The message of the dispatch.
    pub message: Message,
    /// The parsed command of the dispatch.
    pub command: ParsedCommandView,
}

/// Everything observable about a (partial) run of the loop.
pub struct SessionTrace {
    /// What each consumed source item became, in order.
    pub outcomes: Seq<DispatchOutcome>,
    /// The primary invocations, in dispatch order.
    pub primaries: Seq<PrimaryCall>,
    /// The envelopes routed to the default handler, in dispatch order.
    pub defaults: Seq<UpdateEnvelope>,
    /// The failure notifications handed to the error reporter, in order.
    pub reports: Seq<ErrorReport>,
    /// How many source items were consumed.
    pub consumed: int,
    /// The phase the loop is in.
    pub phase: Phase,
}

/// The empty trace of a loop that has just entered `Running`.
pub open spec fn empty_trace() -> SessionTrace {
    SessionTrace {
        outcomes: Seq::empty(),
        primaries: Seq::empty(),
        defaults: Seq::empty(),
        reports: Seq::empty(),
        consumed: 0,
        phase: Phase::Running,
    }
}

/// The trace after a running loop consumes one more source item `ev`.
///
/// The `k`-th primary invocation gets the `k`-th scripted handler result;
/// an exhausted script counts as success. A handler failure is reported
/// and the phase stays `Running`: it never stops the loop. A source
/// failure is reported and stops the loop only when marked fatal. A
/// shutdown consumes no envelope and stops the loop.
pub open spec fn spec_step(
    t: SessionTrace,
    ev: ListenerEvent,
    results: Seq<Result<(), HandlerError>>,
    set: CommandSet,
) -> SessionTrace {
    match ev {
        ListenerEvent::Shutdown => SessionTrace {
            consumed: t.consumed + 1,
            phase: Phase::Stopped,
            ..t
        },
        ListenerEvent::Failure(err) => SessionTrace {
            outcomes: t.outcomes.push(DispatchOutcome::ListenerError(err)),
            reports: t.reports.push(ErrorReport::Listener(err)),
            consumed: t.consumed + 1,
            phase: if err.fatal {
                Phase::Stopped
            } else {
                Phase::Running
            },
            ..t
        },
        ListenerEvent::Update(env) => match spec_classify_envelope(env, set) {
            Some(cv) => {
                let k = t.primaries.len() as int;
                let result = if k < results.len() {
                    results[k]
                } else {
                    Ok(())
                };
                SessionTrace {
                    outcomes: t.outcomes.push(DispatchOutcome::Handled(result)),
                    primaries: t.primaries.push(
                        PrimaryCall { message: env->Message_0, command: cv },
                    ),
                    reports: if result is Err {
                        t.reports.push(ErrorReport::Handler(result->Err_0))
                    } else {
                        t.reports
                    },
                    consumed: t.consumed + 1,
                    ..t
                }
            },
            None => SessionTrace {
                outcomes: t.outcomes.push(DispatchOutcome::Unmatched),
                defaults: t.defaults.push(env),
                consumed: t.consumed + 1,
                ..t
            },
        },
    }
}

/// The trace after the loop has worked through the first `i` source items,
/// consuming each in source order while running and nothing once stopped.
pub open spec fn spec_session_prefix(
    events: Seq<ListenerEvent>,
    i: int,
    results: Seq<Result<(), HandlerError>>,
    set: CommandSet,
) -> SessionTrace
    decreases i,
{
    if i <= 0 {
        empty_trace()
    } else {
        let t = spec_session_prefix(events, i - 1, results, set);
        if t.phase == Phase::Running && i - 1 < events.len() {
            spec_step(t, events[i - 1], results, set)
        } else {
            t
        }
    }
}

/// The trace of a whole run over the scripted source items.
pub open spec fn spec_session(
    events: Seq<ListenerEvent>,
    results: Seq<Result<(), HandlerError>>,
    set: CommandSet,
) -> SessionTrace {
    spec_session_prefix(events, events.len() as int, results, set)
}

/// Whether `reg` is the registry owed to the primary invocation `call`:
/// it holds the API client, the call's message, its parsed command, and
/// the cached service identity — nothing of another dispatch.
pub open spec fn registry_of_call(
    reg: DependencyRegistry,
    api_client: ApiClientHandle,
    call: PrimaryCall,
    identity: ServiceIdentity,
) -> bool {
    &&& reg.api_client == Some(api_client)
    &&& reg.message == Some(call.message)
    &&& (reg.command matches Some(pc) && pc@ == call.command)
    &&& reg.identity == Some(identity)
}

/// Everything a finished run reports back to the caller.
#[derive(Debug)]
pub struct SessionReport {
    /// What each consumed source item became, in order.
    pub outcomes: Vec<DispatchOutcome>,
    /// The registry of each primary invocation, in dispatch order.
    pub primaries: Vec<DependencyRegistry>,
    /// The envelopes routed to the default handler, in dispatch order.
    pub defaults: Vec<UpdateEnvelope>,
    /// The failure notifications handed to the error reporter, in order.
    pub reports: Vec<ErrorReport>,
    /// How many source items were consumed.
    pub consumed: usize,
    /// The phase the loop ended in.
    pub phase: Phase,
}

/// Whether the report `rep` records exactly the trace `t`.
pub open spec fn report_matches(
    rep: SessionReport,
    t: SessionTrace,
    api_client: ApiClientHandle,
    identity: ServiceIdentity,
) -> bool {
    &&& rep.outcomes@ == t.outcomes
    &&& rep.primaries@.len() == t.primaries.len()
    &&& (forall|j: int|
        0 <= j < t.primaries.len() ==> registry_of_call(
            #[trigger] rep.primaries@[j],
            api_client,
            t.primaries[j],
            identity,
        ))
    &&& rep.defaults@ == t.defaults
    &&& rep.reports@ == t.reports
    &&& rep.consumed as int == t.consumed
    &&& rep.phase == t.phase
}

/// Runs the dispatch loop to completion over a scripted update source.
///
/// `setup` is the source's setup outcome: a fatal setup failure is
/// surfaced to the caller unchanged, before any dispatch state exists, so
/// no handler — primary or default — ever runs for it. Otherwise the
/// loop consumes `events` in order until a shutdown, a fatal source
/// failure, or the end of the script, dispatching each envelope exactly
/// once; the `k`-th primary invocation receives the `k`-th entry of
/// `handler_results`. The report records the run exactly as
/// `spec_session` folds it, and each recorded primary registry holds the
/// API client, the dispatched message, its parsed command, and the
/// identity fetched once for the whole run.
pub fn run_session(
    setup: Result<(), SetupError>,
    events: Vec<ListenerEvent>,
    handler_results: &Vec<Result<(), HandlerError>>,
    api_client: ApiClientHandle,
    identity: ServiceIdentity,
    commands: CommandSet,
) -> (r: Result<SessionReport, SetupError>)
    ensures
        (r is Ok <==> setup is Ok),
        (setup matches Err(e) ==> r == Err::<SessionReport, SetupError>(e)),
        (r matches Ok(rep) ==> report_matches(
            rep,
            spec_session(events@, handler_results@, commands),
            api_client,
            identity,
        )),
{
    match setup {
        Err(e) => {
            return Err(e);
        },
        Ok(()) => {},
    }
    let ghost all = events@;
    let mut orch = Orchestrator::new(api_client, commands);
    orch.cache_identity(identity);
    let mut queue = events;
    let mut outcomes: Vec<DispatchOutcome> = Vec::new();
    let mut primaries: Vec<DependencyRegistry> = Vec::new();
    let mut defaults: Vec<UpdateEnvelope> = Vec::new();
    let mut reports: Vec<ErrorReport> = Vec::new();
    let mut i: usize = 0;
    let total = queue.len();
    proof {
        assert(all.skip(0) =~= all);
    }
    while queue.len() > 0 && orch.should_pull()
        invariant
            all.len() == total as int,
            i <= all.len(),
            queue@ == all.skip(i as int),
            orch.spec_in_flight() == 0,
            orch.spec_identity() == Some(identity),
            orch.spec_api_client() == api_client,
            orch.spec_commands() == commands,
            ({
                let t = spec_session_prefix(all, i as int, handler_results@, commands);
                &&& orch.spec_phase() == t.phase
                &&& outcomes@ == t.outcomes
                &&& primaries@.len() == t.primaries.len()
                &&& (forall|j: int|
                    0 <= j < t.primaries.len() ==> registry_of_call(
                        #[trigger] primaries@[j],
                        api_client,
                        t.primaries[j],
                        identity,
                    ))
                &&& defaults@ == t.defaults
                &&& reports@ == t.reports
                &&& t.consumed == i as int
            }),
        decreases queue.len(),
    {
        let ghost t = spec_session_prefix(all, i as int, handler_results@, commands);
        proof {
            assert(all.skip(i as int).len() == all.len() - i as int);
            assert(all.skip(i as int)[0] == all[i as int]);
            assert(all.skip(i as int).skip(1) =~= all.skip(i as int + 1));
            assert(spec_session_prefix(all, i as int + 1, handler_results@, commands)
                == spec_step(t, all[i as int], handler_results@, commands));
        }
        let ev = queue.remove(0);
        proof {
            assert(queue@ =~= all.skip(i as int + 1));
        }
        match ev {
            ListenerEvent::Shutdown => {
                orch.observe_shutdown();
            },
            ListenerEvent::Failure(err) => {
                let report = orch.on_stream_error(err);
                outcomes.push(DispatchOutcome::ListenerError(err));
                reports.push(report);
            },
            ListenerEvent::Update(env) => {
                let instr = orch.on_update(env);
                match instr {
                    DispatchInstruction::InvokePrimary(reg) => {
                        let k = primaries.len();
                        let result = if k < handler_results.len() {
                            handler_results[k]
                        } else {
                            Ok(())
                        };
                        outcomes.push(DispatchOutcome::Handled(result));
                        primaries.push(reg);
                        let report = orch.on_dispatch_complete(Some(result));
                        match report {
                            Some(rp) => reports.push(rp),
                            None => {},
                        }
                    },
                    DispatchInstruction::InvokeDefault(raw) => {
                        outcomes.push(DispatchOutcome::Unmatched);
                        defaults.push(raw);
                        let _ = orch.on_dispatch_complete(None);
                    },
                }
            },
        }
        i = i + 1;
    }
    proof {
        let t = spec_session_prefix(all, i as int, handler_results@, commands);
        if i < all.len() {
            assert(t.phase != Phase::Running);
            lemma_session_prefix_stable(
                all,
                i as int,
                all.len() as int,
                handler_results@,
                commands,
            );
        }
        assert(all.skip(i as int).len() == all.len() - i as int);
    }
    let phase = orch.phase();
    Ok(SessionReport { outcomes, primaries, defaults, reports, consumed: i, phase })
}

/// Once the loop has left `Running` within the first `i` items, working
/// through more items changes nothing: the trace is final.
pub proof fn lemma_session_prefix_stable(
    events: Seq<ListenerEvent>,
    i: int,
    j: int,
    results: Seq<Result<(), HandlerError>>,
    set: CommandSet,
)
    requires
        0 <= i <= j,
        spec_session_prefix(events, i, results, set).phase != Phase::Running,
    ensures
        spec_session_prefix(events, j, results, set) == spec_session_prefix(
            events,
            i,
            results,
            set,
        ),
    decreases j - i,
{
    if j > i {
        lemma_session_prefix_stable(events, i, j - 1, results, set);
    }
}

/// The primary invocations a consumed prefix of source items owes: one
/// call, in order, for each envelope wrapping a message whose text
/// classifies to a declared command — with that message and its parsed
/// command — and none for any other item.
pub open spec fn primaries_of(events: Seq<ListenerEvent>, set: CommandSet) -> Seq<PrimaryCall>
    decreases events.len(),
{
    if events.len() == 0 {
        Seq::empty()
    } else {
        let front = primaries_of(events.drop_last(), set);
        match events.last() {
            ListenerEvent::Update(env) => match spec_classify_envelope(env, set) {
                Some(cv) => front.push(PrimaryCall { message: env->Message_0, command: cv }),
                None => front,
            },
            _ => front,
        }
    }
}

/// The default invocations a consumed prefix of source items owes: one
/// call, in order, for each envelope that is not a message or fails
/// classification — with the raw envelope — and none for any other item.
pub open spec fn defaults_of(events: Seq<ListenerEvent>, set: CommandSet) -> Seq<UpdateEnvelope>
    decreases events.len(),
{
    if events.len() == 0 {
        Seq::empty()
    } else {
        let front = defaults_of(events.drop_last(), set);
        match events.last() {
            ListenerEvent::Update(env) => match spec_classify_envelope(env, set) {
                Some(cv) => front,
                None => front.push(env),
            },
            _ => front,
        }
    }
}

proof fn lemma_prefix_calls(
    events: Seq<ListenerEvent>,
    i: int,
    results: Seq<Result<(), HandlerError>>,
    set: CommandSet,
)
    requires
        0 <= i <= events.len(),
    ensures
        spec_session_prefix(events, i, results, set).primaries == primaries_of(
            events.take(spec_session_prefix(events, i, results, set).consumed),
            set,
        ),
        spec_session_prefix(events, i, results, set).defaults == defaults_of(
            events.take(spec_session_prefix(events, i, results, set).consumed),
            set,
        ),
    decreases i,
{
    if i > 0 {
        lemma_prefix_calls(events, i - 1, results, set);
        lemma_session_prefix_consumed(events, i - 1, results, set);
        let t = spec_session_prefix(events, i - 1, results, set);
        if t.phase == Phase::Running {
            assert(events.take(i).drop_last() =~= events.take(i - 1));
            assert(events.take(i).last() == events[i - 1]);
        }
    } else {
        assert(events.take(0) =~= Seq::<ListenerEvent>::empty());
    }
}

/// For every consumed envelope wrapping a message whose text classifies to
/// a declared command, the loop performs exactly one primary invocation,
/// carrying that message and its parsed command, in source order — and
/// performs none for any other consumed item.
pub proof fn lemma_primary_dispatch_exact(
    events: Seq<ListenerEvent>,
    results: Seq<Result<(), HandlerError>>,
    set: CommandSet,
)
    ensures
        spec_session(events, results, set).primaries == primaries_of(
            events.take(spec_session(events, results, set).consumed),
            set,
        ),
{
    lemma_prefix_calls(events, events.len() as int, results, set);
}

/// For every consumed envelope that is not a message or whose text fails
/// classification, the loop performs exactly one default invocation with
/// the raw envelope, in source order — the primary handler is never
/// invoked for such an envelope, and no envelope is silently dropped.
pub proof fn lemma_default_dispatch_exact(
    events: Seq<ListenerEvent>,
    results: Seq<Result<(), HandlerError>>,
    set: CommandSet,
)
    ensures
        spec_session(events, results, set).defaults == defaults_of(
            events.take(spec_session(events, results, set).consumed),
            set,
        ),
{
    lemma_prefix_calls(events, events.len() as int, results, set);
}

proof fn lemma_prefix_isolated(
    events: Seq<ListenerEvent>,
    i: int,
    results_a: Seq<Result<(), HandlerError>>,
    results_b: Seq<Result<(), HandlerError>>,
    set: CommandSet,
)
    requires
        0 <= i,
    ensures
        spec_session_prefix(events, i, results_a, set).consumed == spec_session_prefix(
            events,
            i,
            results_b,
            set,
        ).consumed,
        spec_session_prefix(events, i, results_a, set).primaries == spec_session_prefix(
            events,
            i,
            results_b,
            set,
        ).primaries,
        spec_session_prefix(events, i, results_a, set).defaults == spec_session_prefix(
            events,
            i,
            results_b,
            set,
        ).defaults,
        spec_session_prefix(events, i, results_a, set).phase == spec_session_prefix(
            events,
            i,
            results_b,
            set,
        ).phase,
    decreases i,
{
    if i > 0 {
        lemma_prefix_isolated(events, i - 1, results_a, results_b, set);
    }
}

/// Handler failures are isolated: however the handlers fare — any two
/// scripts of handler results, failures included — the loop consumes the
/// same source items, performs the same primary and default invocations,
/// and ends in the same phase. A failure on one dispatch never prevents
/// the dispatch of a later, independent update.
pub proof fn lemma_handler_failures_isolated(
    events: Seq<ListenerEvent>,
    results_a: Seq<Result<(), HandlerError>>,
    results_b: Seq<Result<(), HandlerError>>,
    set: CommandSet,
)
    ensures
        spec_session(events, results_a, set).consumed == spec_session(
            events,
            results_b,
            set,
        ).consumed,
        spec_session(events, results_a, set).primaries == spec_session(
            events,
            results_b,
            set,
        ).primaries,
        spec_session(events, results_a, set).defaults == spec_session(
            events,
            results_b,
            set,
        ).defaults,
        spec_session(events, results_a, set).phase == spec_session(events, results_b, set).phase,
{
    lemma_prefix_isolated(events, events.len() as int, results_a, results_b, set);
}

/// After a shutdown signal, no further pulls occur: the run consumes at
/// most the items up to and including the signal, and the whole trace is
/// already final one step past it. (In-flight dispatches are not cut
/// short: the orchestrator drains them before reporting `Stopped`.)
pub proof fn lemma_shutdown_stops_pulls(
    events: Seq<ListenerEvent>,
    results: Seq<Result<(), HandlerError>>,
    set: CommandSet,
    i: int,
)
    requires
        0 <= i < events.len(),
        (events[i] is Shutdown),
    ensures
        spec_session(events, results, set).consumed <= i + 1,
        spec_session(events, results, set) == spec_session_prefix(events, i + 1, results, set),
{
    let t = spec_session_prefix(events, i, results, set);
    lemma_session_prefix_consumed(events, i, results, set);
    if t.phase == Phase::Running {
        lemma_session_prefix_stable(events, i + 1, events.len() as int, results, set);
    } else {
        lemma_session_prefix_stable(events, i, events.len() as int, results, set);
        lemma_session_prefix_stable(events, i, i + 1, results, set);
    }
}

/// A running loop has consumed every item it has worked through, one pull
/// each; a stopped one consumed no more than that.
pub proof fn lemma_session_prefix_consumed(
    events: Seq<ListenerEvent>,
    i: int,
    results: Seq<Result<(), HandlerError>>,
    set: CommandSet,
)
    requires
        0 <= i <= events.len(),
    ensures
        spec_session_prefix(events, i, results, set).consumed <= i,
        spec_session_prefix(events, i, results, set).phase == Phase::Running
            ==> spec_session_prefix(events, i, results, set).consumed == i,
    decreases i,
{
    if i > 0 {
        lemma_session_prefix_consumed(events, i - 1, results, set);
    }
}

} // verus!
