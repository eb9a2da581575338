//! The two-phase construction of an `InteractionHandler`: a builder
//! accumulates commands, groups and configuration, and `build` freezes
//! them into the immutable handler.

use vstd::prelude::*;
use crate::crypto::{ed25519_check_public_key, ed25519_valid_public_key, hex_bytes, hex_decode, valid_hex};
use crate::error::Error;
use crate::handler::{InteractionHandler, InteractionHandlerView};
use crate::model::{Command, CommandGroup, CommandGroupView, CommandView};

verus! {

/// A builder for an `InteractionHandler`. Commands, groups, the
/// application public key, the bot token and the application id are
/// accumulated; `build` validates the key and freezes the registry.
pub struct CommandHandlerBuilder {
    commands: Vec<Command>,
    groups: Vec<CommandGroup>,
    public_key: Option<String>,
    token: Option<String>,
    application_id: Option<String>,
}

/// The view of a `CommandHandlerBuilder`.
#[verifier::ext_equal]
pub struct CommandHandlerBuilderView {
    pub commands: Seq<CommandView>,
    pub groups: Seq<CommandGroupView>,
    pub public_key: Option<Seq<char>>,
    pub token: Option<Seq<char>>,
    pub application_id: Option<Seq<char>>,
}

impl DeepView for CommandHandlerBuilder {
    type V = CommandHandlerBuilderView;

    closed spec fn deep_view(&self) -> CommandHandlerBuilderView {
        CommandHandlerBuilderView {
            commands: self.commands.deep_view(),
            groups: self.groups.deep_view(),
            public_key: self.public_key.deep_view(),
            token: self.token.deep_view(),
            application_id: self.application_id.deep_view(),
        }
    }
}

impl CommandHandlerBuilderView {
    /// Whether `build` succeeds on this builder state: a public key was
    /// supplied and is hex for valid Ed25519 key material.
    pub open spec fn buildable(self) -> bool {
        &&& self.public_key is Some
        &&& valid_hex(self.public_key.unwrap())
        &&& ed25519_valid_public_key(hex_bytes(self.public_key.unwrap()))
    }

    /// The handler that `build` produces from this builder state: the
    /// accumulated registry, the decoded key, and the token and
    /// application id with empty defaults.
    pub open spec fn built(self) -> InteractionHandlerView {
        InteractionHandlerView {
            commands: self.commands,
            groups: self.groups,
            public_key: hex_bytes(self.public_key.unwrap()),
            token: match self.token {
                Some(t) => t,
                None => Seq::empty(),
            },
            application_id: match self.application_id {
                Some(a) => a,
                None => Seq::empty(),
            },
        }
    }
}

impl CommandHandlerBuilder {
    /// The view of a fresh builder.
    pub open spec fn spec_new() -> CommandHandlerBuilderView {
        CommandHandlerBuilderView {
            commands: Seq::empty(),
            groups: Seq::empty(),
            public_key: None,
            token: None,
            application_id: None,
        }
    }

    /// Returns an empty builder.
    pub fn new() -> (r: Self)
        ensures
            r.deep_view() == Self::spec_new(),
    {
        let r = CommandHandlerBuilder {
            commands: Vec::new(),
            groups: Vec::new(),
            public_key: None,
            token: None,
            application_id: None,
        };
        proof {
            assert(r.deep_view() =~= Self::spec_new());
        }
        r
    }

    /// Registers a command; lookups scan commands in registration order.
    pub fn command(self, command: Command) -> (r: Self)
        ensures
            r.deep_view() == (CommandHandlerBuilderView {
                commands: self.deep_view().commands.push(command.deep_view()),
                ..self.deep_view()
            }),
    {
        let mut commands = self.commands;
        let ghost pre = commands.deep_view();
        commands.push(command);
        let r = CommandHandlerBuilder { commands, ..self };
        proof {
            assert(r.deep_view().commands =~= pre.push(command.deep_view()));
            assert(r.deep_view() =~= (CommandHandlerBuilderView {
                commands: pre.push(command.deep_view()),
                ..self.deep_view()
            }));
        }
        r
    }

    /// Registers a command group; lookups scan groups in registration
    /// order, before plain commands.
    pub fn group(self, group: CommandGroup) -> (r: Self)
        ensures
            r.deep_view() == (CommandHandlerBuilderView {
                groups: self.deep_view().groups.push(group.deep_view()),
                ..self.deep_view()
            }),
    {
        let mut groups = self.groups;
        let ghost pre = groups.deep_view();
        groups.push(group);
        let r = CommandHandlerBuilder { groups, ..self };
        proof {
            assert(r.deep_view().groups =~= pre.push(group.deep_view()));
            assert(r.deep_view() =~= (CommandHandlerBuilderView {
                groups: pre.push(group.deep_view()),
                ..self.deep_view()
            }));
        }
        r
    }

    /// Registers the application public key, as hex. It must be called
    /// before `build`.
    pub fn public_key(self, public_key: &str) -> (r: Self)
        ensures
            r.deep_view() == (CommandHandlerBuilderView {
                public_key: Some(public_key@),
                ..self.deep_view()
            }),
    {
        let r = CommandHandlerBuilder { public_key: Some(public_key.to_owned()), ..self };
        proof {
            assert(r.deep_view() =~= (CommandHandlerBuilderView {
                public_key: Some(public_key@),
                ..self.deep_view()
            }));
        }
        r
    }

    /// Registers the bot token used for outbound REST calls.
    pub fn token(self, token: &str) -> (r: Self)
        ensures
            r.deep_view() == (CommandHandlerBuilderView {
                token: Some(token@),
                ..self.deep_view()
            }),
    {
        let r = CommandHandlerBuilder { token: Some(token.to_owned()), ..self };
        proof {
            assert(r.deep_view() =~= (CommandHandlerBuilderView {
                token: Some(token@),
                ..self.deep_view()
            }));
        }
        r
    }

    /// Registers the application id used for outbound REST calls.
    pub fn application_id(self, application_id: &str) -> (r: Self)
        ensures
            r.deep_view() == (CommandHandlerBuilderView {
                application_id: Some(application_id@),
                ..self.deep_view()
            }),
    {
        let r = CommandHandlerBuilder {
            application_id: Some(application_id.to_owned()),
            ..self
        };
        proof {
            assert(r.deep_view() =~= (CommandHandlerBuilderView {
                application_id: Some(application_id@),
                ..self.deep_view()
            }));
        }
        r
    }

    /// Builds the handler. It fails with `ConfigurationError` exactly when
    /// the public key is absent, is not valid hex, or is not Ed25519 key
    /// material; the token and application id default to empty when
    /// omitted.
    pub fn build(self) -> (r: Result<InteractionHandler, Error>)
        ensures
            r is Ok <==> self.deep_view().buildable(),
            r matches Ok(h) ==> h.deep_view() == self.deep_view().built() && h.deep_view().wf(),
            r matches Err(e) ==> e == Error::ConfigurationError,
    {
        let pk_hex = match self.public_key {
            Some(pk) => pk,
            None => {
                return Err(Error::ConfigurationError);
            },
        };
        let pk_bytes = match hex_decode(pk_hex.as_str()) {
            Some(b) => b,
            None => {
                return Err(Error::ConfigurationError);
            },
        };
        if !ed25519_check_public_key(pk_bytes.as_slice()) {
            return Err(Error::ConfigurationError);
        }
        let token = match self.token {
            Some(t) => t,
            None => String::new(),
        };
        let application_id = match self.application_id {
            Some(a) => a,
            None => String::new(),
        };
        let h = InteractionHandler {
            commands: self.commands,
            groups: self.groups,
            public_key: pk_bytes,
            token,
            application_id,
        };
        proof {
            assert(h.deep_view() =~= self.deep_view().built());
        }
        Ok(h)
    }
}

} // verus!
