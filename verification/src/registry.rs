//! The per-dispatch dependency registry and the handler invoker's binder.
//!
//! A registry is built fresh for exactly one dispatch attempt, holds at most
//! one value per dependency type, and is discarded when the dispatch ends.
//! Filling an already-filled slot is a programmer error, so each `register`
//! method demands an empty slot; nothing else ever changes an entry, which
//! keeps entries immutable for the dispatch's lifetime. A handler declares
//! the subset of dependency types it needs; binding resolves them all before
//! the handler runs, failing fast on the first missing one.

use vstd::prelude::*;

use crate::command::ParsedCommand;
use crate::types::{ApiClientHandle, Message, ServiceIdentity};

verus! {

/// The type tag of one dependency a handler may declare.
#[derive(Debug, Clone, Copy, PartialEq, Eq, Structural)]
pub enum DepKind {
    /// The shared API client.
    ApiClient,
    /// The raw message of the dispatch.
    Message,
    /// The parsed command of the dispatch.
    Command,
    /// The service's own identity.
    Identity,
}

/// A type-keyed set of per-dispatch values: at most one value per
/// dependency type, assembled before a handler call.
#[derive(Debug, PartialEq, Eq)]
pub struct DependencyRegistry {
    /// The shared API client, if registered.
    pub api_client: Option<ApiClientHandle>,
    /// The dispatched message, if registered.
    pub message: Option<Message>,
    /// The parsed command, if registered.
    pub command: Option<ParsedCommand>,
    /// The service identity, if registered.
    pub identity: Option<ServiceIdentity>,
}

/// The subset of dependency types a handler declares.
#[derive(Debug, Clone, Copy, PartialEq, Eq, Structural)]
pub struct HandlerNeeds {
    /// Whether the handler takes the API client.
    pub api_client: bool,
    /// Whether the handler takes the raw message.
    pub message: bool,
    /// Whether the handler takes the parsed command.
    pub command: bool,
    /// Whether the handler takes the service identity.
    pub identity: bool,
}

/// Binding failed: the handler declares a dependency type absent from the
/// registry. Carries the first missing type, in registry order.
#[derive(Debug, Clone, Copy, PartialEq, Eq, Structural)]
pub struct BindError {
    /// The first declared dependency type the registry lacks.
    pub missing: DepKind,
}

/// The dependency values resolved for one handler call: each declared
/// type's value, taken from the registry.
#[derive(Debug, PartialEq, Eq)]
pub struct BoundArgs {
    /// The API client, when declared.
    pub api_client: Option<ApiClientHandle>,
    /// The raw message, when declared.
    pub message: Option<Message>,
    /// The parsed command, when declared.
    pub command: Option<ParsedCommand>,
    /// The service identity, when declared.
    pub identity: Option<ServiceIdentity>,
}

impl DependencyRegistry {
    /// Whether the registry holds a value of the given dependency type.
    pub open spec fn spec_has(self, kind: DepKind) -> bool {
        match kind {
            DepKind::ApiClient => self.api_client is Some,
            DepKind::Message => self.message is Some,
            DepKind::Command => self.command is Some,
            DepKind::Identity => self.identity is Some,
        }
    }

    /// Whether the registry can satisfy every dependency the handler
    /// declares.
    pub open spec fn spec_satisfies(self, needs: HandlerNeeds) -> bool {
        &&& needs.api_client ==> self.api_client is Some
        &&& needs.message ==> self.message is Some
        &&& needs.command ==> self.command is Some
        &&& needs.identity ==> self.identity is Some
    }

    /// An empty registry, the start of one dispatch attempt.
    pub fn new() -> (r: DependencyRegistry)
        ensures
            (r.api_client is None),
            (r.message is None),
            (r.command is None),
            (r.identity is None),
    {
        DependencyRegistry { api_client: None, message: None, command: None, identity: None }
    }

    /// Registers the API client for this dispatch.
    pub fn register_api_client(&mut self, value: ApiClientHandle)
        requires
            (old(self).api_client is None),
        ensures
            *final(self) == (DependencyRegistry { api_client: Some(value), ..*old(self) }),
    {
        self.api_client = Some(value);
    }

    /// Registers the raw message for this dispatch.
    pub fn register_message(&mut self, value: Message)
        requires
            (old(self).message is None),
        ensures
            *final(self) == (DependencyRegistry { message: Some(value), ..*old(self) }),
    {
        self.message = Some(value);
    }

    /// Registers the parsed command for this dispatch.
    pub fn register_command(&mut self, value: ParsedCommand)
        requires
            (old(self).command is None),
        ensures
            *final(self) == (DependencyRegistry { command: Some(value), ..*old(self) }),
    {
        self.command = Some(value);
    }

    /// Registers the service identity for this dispatch.
    pub fn register_identity(&mut self, value: ServiceIdentity)
        requires
            (old(self).identity is None),
        ensures
            *final(self) == (DependencyRegistry { identity: Some(value), ..*old(self) }),
    {
        self.identity = Some(value);
    }

    /// Whether the registry holds a value of the given dependency type.
    pub fn has(&self, kind: DepKind) -> (r: bool)
        ensures
            r == self.spec_has(kind),
    {
        match kind {
            DepKind::ApiClient => self.api_client.is_some(),
            DepKind::Message => self.message.is_some(),
            DepKind::Command => self.command.is_some(),
            DepKind::Identity => self.identity.is_some(),
        }
    }

    /// Assembles the full registry of one command dispatch: the API client,
    /// the message, its parsed command, and the cached service identity.
    pub fn for_command_dispatch(
        api_client: ApiClientHandle,
        message: Message,
        command: ParsedCommand,
        identity: ServiceIdentity,
    ) -> (r: DependencyRegistry)
        ensures
            r == (DependencyRegistry {
                api_client: Some(api_client),
                message: Some(message),
                command: Some(command),
                identity: Some(identity),
            }),
    {
        let mut r = DependencyRegistry::new();
        r.register_api_client(api_client);
        r.register_message(message);
        r.register_command(command);
        r.register_identity(identity);
        r
    }
}

/// Resolves the handler's declared dependencies from the registry, failing
/// fast — before any handler call — on the first declared type the registry
/// lacks.
///
/// Succeeds exactly when the registry satisfies the declared needs; the
/// bound arguments then carry the registry's value of each declared type
/// and nothing else.
pub fn bind(needs: &HandlerNeeds, registry: DependencyRegistry) -> (r: Result<
    BoundArgs,
    BindError,
>)
    ensures
        r is Ok <==> registry.spec_satisfies(*needs),
        r matches Ok(args) ==> {
            &&& args.api_client == (if needs.api_client {
                registry.api_client
            } else {
                None::<ApiClientHandle>
            })
            &&& args.message == (if needs.message {
                registry.message
            } else {
                None::<Message>
            })
            &&& args.command == (if needs.command {
                registry.command
            } else {
                None::<ParsedCommand>
            })
            &&& args.identity == (if needs.identity {
                registry.identity
            } else {
                None::<ServiceIdentity>
            })
        },
        r matches Err(e) ==> !registry.spec_has(e.missing),
{
    if needs.api_client && registry.api_client.is_none() {
        return Err(BindError { missing: DepKind::ApiClient });
    }
    if needs.message && registry.message.is_none() {
        return Err(BindError { missing: DepKind::Message });
    }
    if needs.command && registry.command.is_none() {
        return Err(BindError { missing: DepKind::Command });
    }
    if needs.identity && registry.identity.is_none() {
        return Err(BindError { missing: DepKind::Identity });
    }
    let DependencyRegistry { api_client, message, command, identity } = registry;
    Ok(
        BoundArgs {
            api_client: if needs.api_client {
                api_client
            } else {
                None
            },
            message: if needs.message {
                message
            } else {
                None
            },
            command: if needs.command {
                command
            } else {
                None
            },
            identity: if needs.identity {
                identity
            } else {
                None
            },
        },
    )
}

} // verus!
