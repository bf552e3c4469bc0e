//! The dispatch orchestrator: the state machine at the heart of the loop.
//!
//! The orchestrator decides; the surrounding runtime performs. The runtime
//! pulls from the update source only while `should_pull` says so, hands each
//! pulled item to the orchestrator, carries out the instruction it returns
//! (invoke the primary handler with the assembled registry, or the default
//! handler with the raw envelope), and reports completions back. Phases:
//! `Running` pulls and dispatches; `Draining`, entered on a shutdown signal,
//! issues no new pulls but lets started dispatches finish; `Stopped` is
//! terminal. A handler failure is reported, tagged as a handler failure, and
//! never changes the phase; a source failure is reported, tagged as a
//! listener failure, and stops the loop only when the source marks it fatal.

use vstd::prelude::*;

use crate::command::{spec_classify_envelope, parse, CommandSet, ParsedCommandView};
use crate::registry::DependencyRegistry;
use crate::types::{
    ApiClientHandle, ErrorReport, HandlerError, ServiceIdentity, StreamError, UpdateEnvelope,
};

verus! {

/// The phase of the dispatch loop.
#[derive(Debug, Clone, Copy, PartialEq, Eq, Structural)]
pub enum Phase {
    /// Pulling and dispatching updates.
    Running,
    /// A shutdown signal was observed: no new pulls; started dispatches
    /// finish.
    Draining,
    /// Terminal; control returns to the caller.
    Stopped,
}

/// What the runtime must do with one pulled envelope.
#[derive(Debug)]
pub enum DispatchInstruction {
    /// Invoke the caller's handler, binding it against this registry.
    InvokePrimary(DependencyRegistry),
    /// Invoke the default handler with the raw envelope.
    InvokeDefault(UpdateEnvelope),
}

/// Whether `instr` orders exactly one primary invocation for the message
/// wrapped by `env`, with a registry holding the API client, that message,
/// its parsed command `cv`, and the cached service identity.
pub open spec fn is_primary_instruction(
    instr: DispatchInstruction,
    api_client: ApiClientHandle,
    env: UpdateEnvelope,
    cv: ParsedCommandView,
    identity: ServiceIdentity,
) -> bool {
    instr matches DispatchInstruction::InvokePrimary(reg) && {
        &&& reg.api_client == Some(api_client)
        &&& (env matches UpdateEnvelope::Message(m) && reg.message == Some(m))
        &&& (reg.command matches Some(pc) && pc@ == cv)
        &&& reg.identity == Some(identity)
    }
}

/// The dispatch orchestrator's state.
pub struct Orchestrator {
    phase: Phase,
    in_flight: usize,
    identity: Option<ServiceIdentity>,
    api_client: ApiClientHandle,
    commands: CommandSet,
}

impl Orchestrator {
    /// The current phase.
    pub closed spec fn spec_phase(self) -> Phase {
        self.phase
    }

    /// How many dispatches have started and not yet completed.
    pub closed spec fn spec_in_flight(self) -> int {
        self.in_flight as int
    }

    /// The cached service identity, once fetched.
    pub closed spec fn spec_identity(self) -> Option<ServiceIdentity> {
        self.identity
    }

    /// The long-lived API client shared by all dispatches.
    pub closed spec fn spec_api_client(self) -> ApiClientHandle {
        self.api_client
    }

    /// The caller's declared command set.
    pub closed spec fn spec_commands(self) -> CommandSet {
        self.commands
    }

    /// A fresh orchestrator: running, nothing in flight, identity not yet
    /// fetched.
    pub fn new(api_client: ApiClientHandle, commands: CommandSet) -> (r: Orchestrator)
        ensures
            r.spec_phase() == Phase::Running,
            r.spec_in_flight() == 0,
            (r.spec_identity() is None),
            r.spec_api_client() == api_client,
            r.spec_commands() == commands,
    {
        Orchestrator { phase: Phase::Running, in_flight: 0, identity: None, api_client, commands }
    }

    /// The current phase.
    pub fn phase(&self) -> (r: Phase)
        ensures
            r == self.spec_phase(),
    {
        self.phase
    }

    /// Whether the runtime may pull the next update: only while running.
    /// After a shutdown signal or a fatal source failure this is false, so
    /// no further pulls occur.
    pub fn should_pull(&self) -> (r: bool)
        ensures
            r == (self.spec_phase() == Phase::Running),
    {
        match self.phase {
            Phase::Running => true,
            Phase::Draining => false,
            Phase::Stopped => false,
        }
    }

    /// Whether the service identity still has to be fetched. It is fetched
    /// lazily once per run and cached, never re-fetched per dispatch.
    pub fn needs_identity(&self) -> (r: bool)
        ensures
            r == (self.spec_identity() is None),
    {
        self.identity.is_none()
    }

    /// Caches the service identity fetched by the runtime.
    pub fn cache_identity(&mut self, identity: ServiceIdentity)
        requires
            (old(self).spec_identity() is None),
        ensures
            final(self).spec_identity() == Some(identity),
            final(self).spec_phase() == old(self).spec_phase(),
            final(self).spec_in_flight() == old(self).spec_in_flight(),
            final(self).spec_api_client() == old(self).spec_api_client(),
            final(self).spec_commands() == old(self).spec_commands(),
    {
        self.identity = Some(identity);
    }

    /// Routes one pulled envelope and starts its dispatch.
    ///
    /// An envelope wrapping a message whose text classifies to a declared
    /// command orders exactly one primary invocation, with a registry
    /// holding the API client, that message, its parsed command, and the
    /// cached identity; every other envelope orders exactly one default
    /// invocation with the raw envelope, and the primary handler is not
    /// invoked for it.
    pub fn on_update(&mut self, env: UpdateEnvelope) -> (instr: DispatchInstruction)
        requires
            old(self).spec_phase() == Phase::Running,
            (old(self).spec_identity() is Some),
            old(self).spec_in_flight() < usize::MAX,
        ensures
            final(self).spec_in_flight() == old(self).spec_in_flight() + 1,
            final(self).spec_phase() == Phase::Running,
            final(self).spec_identity() == old(self).spec_identity(),
            final(self).spec_api_client() == old(self).spec_api_client(),
            final(self).spec_commands() == old(self).spec_commands(),
            (match spec_classify_envelope(env, old(self).spec_commands()) {
                Some(cv) => is_primary_instruction(
                    instr,
                    old(self).spec_api_client(),
                    env,
                    cv,
                    old(self).spec_identity()->Some_0,
                ),
                None => instr == DispatchInstruction::InvokeDefault(env),
            }),
    {
        self.in_flight = self.in_flight + 1;
        match env {
            UpdateEnvelope::Message(m) => {
                match parse(&m.text, &self.commands) {
                    Some(pc) => {
                        let identity = self.identity.unwrap();
                        let reg = DependencyRegistry::for_command_dispatch(
                            self.api_client,
                            m,
                            pc,
                            identity,
                        );
                        DispatchInstruction::InvokePrimary(reg)
                    },
                    None => DispatchInstruction::InvokeDefault(UpdateEnvelope::Message(m)),
                }
            },
            UpdateEnvelope::Other => DispatchInstruction::InvokeDefault(UpdateEnvelope::Other),
        }
    }

    /// Absorbs one source-level failure while fetching updates.
    ///
    /// The failure is reported tagged as a listener failure; the loop
    /// continues unless the source marks it fatal, in which case the
    /// orchestrator stops at once.
    pub fn on_stream_error(&mut self, err: StreamError) -> (report: ErrorReport)
        requires
            old(self).spec_phase() == Phase::Running,
        ensures
            report == ErrorReport::Listener(err),
            final(self).spec_phase() == (if err.fatal {
                Phase::Stopped
            } else {
                Phase::Running
            }),
            final(self).spec_in_flight() == old(self).spec_in_flight(),
            final(self).spec_identity() == old(self).spec_identity(),
            final(self).spec_api_client() == old(self).spec_api_client(),
            final(self).spec_commands() == old(self).spec_commands(),
    {
        if err.fatal {
            self.phase = Phase::Stopped;
        }
        ErrorReport::Listener(err)
    }

    /// Observes the external shutdown signal.
    ///
    /// The loop leaves `Running` for good: with dispatches still in flight
    /// it drains, letting them finish; with none it stops at once.
    pub fn observe_shutdown(&mut self)
        requires
            old(self).spec_phase() == Phase::Running,
        ensures
            final(self).spec_phase() == (if old(self).spec_in_flight() == 0 {
                Phase::Stopped
            } else {
                Phase::Draining
            }),
            final(self).spec_phase() != Phase::Running,
            final(self).spec_in_flight() == old(self).spec_in_flight(),
            final(self).spec_identity() == old(self).spec_identity(),
            final(self).spec_api_client() == old(self).spec_api_client(),
            final(self).spec_commands() == old(self).spec_commands(),
    {
        if self.in_flight == 0 {
            self.phase = Phase::Stopped;
        } else {
            self.phase = Phase::Draining;
        }
    }

    /// Records that one started dispatch has completed, with the primary
    /// handler's result when the primary path ran, or `None` for the
    /// default path.
    ///
    /// A handler failure is returned as a report tagged as a handler
    /// failure and never changes the phase while running: the envelope is
    /// consumed regardless of outcome and the loop goes on. While draining,
    /// the last completion stops the loop.
    pub fn on_dispatch_complete(&mut self, result: Option<Result<(), HandlerError>>) -> (report:
        Option<ErrorReport>)
        requires
            old(self).spec_in_flight() > 0,
        ensures
            final(self).spec_in_flight() == old(self).spec_in_flight() - 1,
            final(self).spec_phase() == (if old(self).spec_phase() == Phase::Draining
                && old(self).spec_in_flight() == 1 {
                Phase::Stopped
            } else {
                old(self).spec_phase()
            }),
            report == (match result {
                Some(Err(e)) => Some(ErrorReport::Handler(e)),
                _ => None::<ErrorReport>,
            }),
            final(self).spec_identity() == old(self).spec_identity(),
            final(self).spec_api_client() == old(self).spec_api_client(),
            final(self).spec_commands() == old(self).spec_commands(),
    {
        self.in_flight = self.in_flight - 1;
        if self.in_flight == 0 {
            match self.phase {
                Phase::Draining => {
                    self.phase = Phase::Stopped;
                },
                _ => {},
            }
        }
        match result {
            Some(Err(e)) => Some(ErrorReport::Handler(e)),
            _ => None,
        }
    }
}

} // verus!
