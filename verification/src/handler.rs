//! The interaction handler: the immutable registry of commands and groups,
//! the request-authentication gate, and the dispatcher that classifies an
//! inbound interaction and resolves it to a leaf command.
//!
//! One request is authenticated first, decoded by the embedding
//! application, and then classified and resolved in a single pass. The
//! returned dispatch action tells the application to answer the ping, to
//! run the resolved command's bound handler, or that the registered tree
//! disagrees with what was delivered.

use vstd::prelude::*;
use crate::builder::CommandHandlerBuilder;
use crate::crypto::{ed25519_verified, ed25519_valid_public_key, ed25519_verify, hex_bytes, hex_decode, valid_hex};
use crate::error::Error;
use crate::interaction::{
    ApplicationCommand, ApplicationCommandView, Interaction, InteractionOption,
    InteractionOptionView, InteractionView, OptionValue, OptionValueView, clone_options,
    lemma_deep_view_options,
};
use crate::model::{
    Command, CommandGroup, CommandGroupView, CommandView, SubCommand, SubCommandGroupView,
    SubCommandView,
};
use crate::text::str_eq;
use vstd::string::StringSliceAdditionalSpecFns;

verus! {

broadcast use crate::interaction::lemma_deep_view_options;

/// A Discord interaction handler: parses interactions and dispatches
/// commands.
#[derive(Debug)]
pub struct InteractionHandler {
    pub commands: Vec<Command>,
    pub groups: Vec<CommandGroup>,
    pub public_key: Vec<u8>,
    pub token: String,
    pub application_id: String,
}

/// The view of an `InteractionHandler`.
#[verifier::ext_equal]
pub struct InteractionHandlerView {
    pub commands: Seq<CommandView>,
    pub groups: Seq<CommandGroupView>,
    pub public_key: Seq<u8>,
    pub token: Seq<char>,
    pub application_id: Seq<char>,
}

impl DeepView for InteractionHandler {
    type V = InteractionHandlerView;

    open spec fn deep_view(&self) -> InteractionHandlerView {
        InteractionHandlerView {
            commands: self.commands.deep_view(),
            groups: self.groups.deep_view(),
            public_key: self.public_key@,
            token: self.token@,
            application_id: self.application_id@,
        }
    }
}

impl InteractionHandlerView {
    /// A handler is well formed when its public key is 32 bytes of valid
    /// Ed25519 key material.
    pub open spec fn wf(self) -> bool {
        ed25519_valid_public_key(self.public_key) && self.public_key.len() == 32
    }
}

/// The first child of a group that is (or is not) a nested group and
/// carries the given name.
pub open spec fn spec_find_child(
    children: Seq<SubCommandView>,
    name: Seq<char>,
    want_group: bool,
) -> Option<SubCommandView>
    decreases children.len(),
{
    if children.len() == 0 {
        None
    } else if (children[0] is Group) == want_group && children[0].name() == name {
        Some(children[0])
    } else {
        spec_find_child(children.drop_first(), name, want_group)
    }
}

/// The first leaf command with the given name.
pub open spec fn spec_find_command(cs: Seq<CommandView>, name: Seq<char>) -> Option<CommandView>
    decreases cs.len(),
{
    if cs.len() == 0 {
        None
    } else if cs[0].name == name {
        Some(cs[0])
    } else {
        spec_find_command(cs.drop_first(), name)
    }
}

/// What one option resolves to inside a nested subcommand group: a
/// subcommand marker selects the leaf command of that name together with
/// its carried options; any other value selects nothing.
pub open spec fn spec_subgroup_resolve_one(
    commands: Seq<CommandView>,
    opt: InteractionOptionView,
) -> Option<(CommandView, Seq<InteractionOptionView>)> {
    match opt.value {
        OptionValueView::SubCommand(inner) => match spec_find_command(commands, opt.name) {
            Some(c) => Some((c, inner)),
            None => None,
        },
        _ => None,
    }
}

/// The first option of a subcommand-group marker that resolves inside the
/// nested group.
pub open spec fn spec_subgroup_lookup(
    commands: Seq<CommandView>,
    opts: Seq<InteractionOptionView>,
) -> Option<(CommandView, Seq<InteractionOptionView>)>
    decreases opts.len(),
{
    if opts.len() == 0 {
        None
    } else {
        match spec_subgroup_resolve_one(commands, opts[0]) {
            Some(r) => Some(r),
            None => spec_subgroup_lookup(commands, opts.drop_first()),
        }
    }
}

/// What one top-level option resolves to inside a group: a subcommand
/// marker selects the first non-group child of that name; a
/// subcommand-group marker selects the first group child of that name and
/// descends one more level; anything else selects nothing.
pub open spec fn spec_group_get_command(g: CommandGroupView, opt: InteractionOptionView) -> Option<
    (CommandView, Seq<InteractionOptionView>),
> {
    match opt.value {
        OptionValueView::SubCommand(inner) => match spec_find_child(g.commands, opt.name, false) {
            Some(SubCommandView::Command(c)) => Some((c, inner)),
            _ => None,
        },
        OptionValueView::SubCommandGroup(subs) => match spec_find_child(
            g.commands,
            opt.name,
            true,
        ) {
            Some(SubCommandView::Group(sub)) => spec_subgroup_lookup(sub.commands, subs),
            _ => None,
        },
        _ => None,
    }
}

/// The first top-level option that resolves inside the group.
pub open spec fn spec_group_options_lookup(
    g: CommandGroupView,
    opts: Seq<InteractionOptionView>,
) -> Option<(CommandView, Seq<InteractionOptionView>)>
    decreases opts.len(),
{
    if opts.len() == 0 {
        None
    } else {
        match spec_group_get_command(g, opts[0]) {
            Some(r) => Some(r),
            None => spec_group_options_lookup(g, opts.drop_first()),
        }
    }
}

/// The first registered group that carries the invoked name and resolves
/// one of the interaction's options.
pub open spec fn spec_groups_lookup(
    groups: Seq<CommandGroupView>,
    data: ApplicationCommandView,
) -> Option<(CommandView, Seq<InteractionOptionView>)>
    decreases groups.len(),
{
    if groups.len() == 0 {
        None
    } else if groups[0].name == data.name && spec_group_options_lookup(groups[0], data.options)
        is Some {
        spec_group_options_lookup(groups[0], data.options)
    } else {
        spec_groups_lookup(groups.drop_first(), data)
    }
}

/// What an interaction resolves to: groups are scanned first in
/// registration order, then plain commands by first name match, whose
/// options are the interaction's flat option list.
pub open spec fn spec_handler_get_command(
    h: InteractionHandlerView,
    data: ApplicationCommandView,
) -> Option<(CommandView, Seq<InteractionOptionView>)> {
    match spec_groups_lookup(h.groups, data) {
        Some(r) => Some(r),
        None => match spec_find_command(h.commands, data.name) {
            Some(c) => Some((c, data.options)),
            None => None,
        },
    }
}

/// The dispatcher's decision for one inbound interaction.
#[derive(Debug, PartialEq)]
pub enum DispatchAction {
    /// Answer a liveness ping with a pong.
    Pong,
    /// Run the bound handler of the resolved command with the resolved
    /// options.
    Invoke(Command, Vec<InteractionOption>),
    /// The registered tree disagrees with what was delivered.
    NotFound,
    /// An interaction kind this crate does not dispatch on.
    Ignore,
}

/// The view of a `DispatchAction`.
#[verifier::ext_equal]
pub enum DispatchActionView {
    Pong,
    Invoke(CommandView, Seq<InteractionOptionView>),
    NotFound,
    Ignore,
}

impl DeepView for DispatchAction {
    type V = DispatchActionView;

    open spec fn deep_view(&self) -> DispatchActionView {
        match self {
            DispatchAction::Pong => DispatchActionView::Pong,
            DispatchAction::Invoke(c, o) => DispatchActionView::Invoke(c.deep_view(), o.deep_view()),
            DispatchAction::NotFound => DispatchActionView::NotFound,
            DispatchAction::Ignore => DispatchActionView::Ignore,
        }
    }
}

/// How the dispatcher classifies an interaction: a ping is answered
/// directly, a command invocation is resolved against the tree, anything
/// else is ignored.
pub open spec fn spec_dispatch(h: InteractionHandlerView, i: InteractionView) -> DispatchActionView {
    match i {
        InteractionView::Ping => DispatchActionView::Pong,
        InteractionView::ApplicationCommand(data) => match spec_handler_get_command(h, data) {
            Some((c, o)) => DispatchActionView::Invoke(c, o),
            None => DispatchActionView::NotFound,
        },
        InteractionView::Other => DispatchActionView::Ignore,
    }
}

/// Whether the authentication gate accepts a request: both headers
/// present, the signature valid hex for 64 bytes, and Ed25519 verification
/// of `timestamp || body` succeeding under the handler's public key.
pub open spec fn spec_verify_accepts(
    h: InteractionHandlerView,
    signature: Option<&str>,
    timestamp: Option<&str>,
    body: Seq<u8>,
) -> bool {
    &&& signature is Some
    &&& timestamp is Some
    &&& valid_hex(signature.unwrap()@)
    &&& hex_bytes(signature.unwrap()@).len() == 64
    &&& ed25519_verified(
        h.public_key,
        timestamp.unwrap().spec_bytes() + body,
        hex_bytes(signature.unwrap()@),
    )
}

proof fn lemma_find_command_skip(cs: Seq<CommandView>, name: Seq<char>, i: int)
    requires
        0 <= i <= cs.len(),
        forall|j: int| 0 <= j < i ==> cs[j].name != name,
    ensures
        spec_find_command(cs, name) == spec_find_command(cs.skip(i), name),
    decreases i,
{
    if i == 0 {
        assert(cs.skip(0) =~= cs);
    } else {
        assert(cs.skip(1) =~= cs.drop_first());
        lemma_find_command_skip(cs.drop_first(), name, i - 1);
        assert(cs.drop_first().skip(i - 1) =~= cs.skip(i));
    }
}

proof fn lemma_find_child_skip(
    children: Seq<SubCommandView>,
    name: Seq<char>,
    want_group: bool,
    i: int,
)
    requires
        0 <= i <= children.len(),
        forall|j: int|
            0 <= j < i ==> !((children[j] is Group) == want_group && children[j].name() == name),
    ensures
        spec_find_child(children, name, want_group) == spec_find_child(
            children.skip(i),
            name,
            want_group,
        ),
    decreases i,
{
    if i == 0 {
        assert(children.skip(0) =~= children);
    } else {
        assert(children.skip(1) =~= children.drop_first());
        lemma_find_child_skip(children.drop_first(), name, want_group, i - 1);
        assert(children.drop_first().skip(i - 1) =~= children.skip(i));
    }
}

proof fn lemma_subgroup_lookup_skip(
    commands: Seq<CommandView>,
    opts: Seq<InteractionOptionView>,
    i: int,
)
    requires
        0 <= i <= opts.len(),
        forall|j: int| 0 <= j < i ==> spec_subgroup_resolve_one(commands, opts[j]) is None,
    ensures
        spec_subgroup_lookup(commands, opts) == spec_subgroup_lookup(commands, opts.skip(i)),
    decreases i,
{
    if i == 0 {
        assert(opts.skip(0) =~= opts);
    } else {
        assert(opts.skip(1) =~= opts.drop_first());
        lemma_subgroup_lookup_skip(commands, opts.drop_first(), i - 1);
        assert(opts.drop_first().skip(i - 1) =~= opts.skip(i));
    }
}

proof fn lemma_group_options_lookup_skip(
    g: CommandGroupView,
    opts: Seq<InteractionOptionView>,
    i: int,
)
    requires
        0 <= i <= opts.len(),
        forall|j: int| 0 <= j < i ==> spec_group_get_command(g, opts[j]) is None,
    ensures
        spec_group_options_lookup(g, opts) == spec_group_options_lookup(g, opts.skip(i)),
    decreases i,
{
    if i == 0 {
        assert(opts.skip(0) =~= opts);
    } else {
        assert(opts.skip(1) =~= opts.drop_first());
        lemma_group_options_lookup_skip(g, opts.drop_first(), i - 1);
        assert(opts.drop_first().skip(i - 1) =~= opts.skip(i));
    }
}

proof fn lemma_groups_lookup_skip(
    groups: Seq<CommandGroupView>,
    data: ApplicationCommandView,
    i: int,
)
    requires
        0 <= i <= groups.len(),
        forall|j: int|
            0 <= j < i ==> !(groups[j].name == data.name && spec_group_options_lookup(
                groups[j],
                data.options,
            ) is Some),
    ensures
        spec_groups_lookup(groups, data) == spec_groups_lookup(groups.skip(i), data),
    decreases i,
{
    if i == 0 {
        assert(groups.skip(0) =~= groups);
    } else {
        assert(groups.skip(1) =~= groups.drop_first());
        lemma_groups_lookup_skip(groups.drop_first(), data, i - 1);
        assert(groups.drop_first().skip(i - 1) =~= groups.skip(i));
    }
}

/// A ping is answered with a pong independently of what is registered: two
/// handlers, whatever their commands and groups, dispatch a ping alike.
pub proof fn lemma_ping_independent_of_registry(
    h1: InteractionHandlerView,
    h2: InteractionHandlerView,
)
    ensures
        spec_dispatch(h1, InteractionView::Ping) == DispatchActionView::Pong,
        spec_dispatch(h1, InteractionView::Ping) == spec_dispatch(h2, InteractionView::Ping),
{
}

/// Tree resolution follows the named path: when a group's first nested
/// group of a given name holds, at position `ci`, the first of its leaf
/// commands with that command name, then an interaction option naming that
/// group and that command resolves to exactly that command, carrying the
/// subcommand's own options — never to a command of another nested group.
pub proof fn lemma_resolution_selects_named(
    g: CommandGroupView,
    gi: int,
    sub: SubCommandGroupView,
    ci: int,
    opts: Seq<InteractionOptionView>,
)
    requires
        0 <= gi < g.commands.len(),
        g.commands[gi] == SubCommandView::Group(sub),
        forall|j: int|
            0 <= j < gi ==> !(g.commands[j] is Group && g.commands[j].name() == sub.name),
        0 <= ci < sub.commands.len(),
        forall|j: int| 0 <= j < ci ==> sub.commands[j].name != sub.commands[ci].name,
    ensures
        spec_group_get_command(
            g,
            InteractionOptionView {
                name: sub.name,
                value: OptionValueView::SubCommandGroup(
                    seq![
                        InteractionOptionView {
                            name: sub.commands[ci].name,
                            value: OptionValueView::SubCommand(opts),
                        },
                    ],
                ),
            },
        ) == Some((sub.commands[ci], opts)),
{
    lemma_find_child_skip(g.commands, sub.name, true, gi);
    assert(g.commands.skip(gi)[0] == g.commands[gi]);
    assert(g.commands.skip(gi).len() > 0);
    assert(spec_find_child(g.commands, sub.name, true) == Some(SubCommandView::Group(sub)));
    lemma_find_command_skip(sub.commands, sub.commands[ci].name, ci);
    assert(sub.commands.skip(ci)[0] == sub.commands[ci]);
    assert(sub.commands.skip(ci).len() > 0);
    assert(spec_find_command(sub.commands, sub.commands[ci].name) == Some(sub.commands[ci]));
    let inner = InteractionOptionView {
        name: sub.commands[ci].name,
        value: OptionValueView::SubCommand(opts),
    };
    assert(spec_subgroup_resolve_one(sub.commands, inner) == Some((sub.commands[ci], opts)));
    assert(seq![inner][0] == inner);
}

fn find_command(cs: &Vec<Command>, name: &String) -> (r: Option<Command>)
    ensures
        match r {
            Some(c) => spec_find_command(cs.deep_view(), name@) == Some(c.deep_view()),
            None => spec_find_command(cs.deep_view(), name@) is None,
        },
{
    let n = cs.len();
    for i in 0..n
        invariant
            n == cs@.len(),
            forall|j: int| 0 <= j < i ==> cs.deep_view()[j].name != name@,
    {
        if str_eq(cs[i].name.as_str(), name.as_str()) {
            proof {
                lemma_find_command_skip(cs.deep_view(), name@, i as int);
                assert(cs.deep_view().skip(i as int)[0] == cs.deep_view()[i as int]);
                assert(cs.deep_view().skip(i as int).len() > 0);
            }
            return Some(cs[i].clone());
        }
    }
    proof {
        lemma_find_command_skip(cs.deep_view(), name@, n as int);
        assert(cs.deep_view().skip(n as int).len() == 0);
    }
    None
}

fn find_child(children: &Vec<SubCommand>, name: &String, want_group: bool) -> (r: Option<
    SubCommand,
>)
    ensures
        match r {
            Some(s) => spec_find_child(children.deep_view(), name@, want_group) == Some(
                s.deep_view(),
            ),
            None => spec_find_child(children.deep_view(), name@, want_group) is None,
        },
{
    let n = children.len();
    for i in 0..n
        invariant
            n == children@.len(),
            forall|j: int|
                0 <= j < i ==> !((children.deep_view()[j] is Group) == want_group
                    && children.deep_view()[j].name() == name@),
    {
        let matches_kind = children[i].is_group() == want_group;
        let child_name = children[i].get_name();
        if matches_kind && str_eq(child_name.as_str(), name.as_str()) {
            proof {
                lemma_find_child_skip(children.deep_view(), name@, want_group, i as int);
                assert(children.deep_view().skip(i as int)[0] == children.deep_view()[i as int]);
                assert(children.deep_view().skip(i as int).len() > 0);
            }
            return Some(children[i].clone());
        }
    }
    proof {
        lemma_find_child_skip(children.deep_view(), name@, want_group, n as int);
        assert(children.deep_view().skip(n as int).len() == 0);
    }
    None
}

impl CommandGroup {
    /// Resolves one top-level interaction option against this group: a
    /// subcommand marker selects the first leaf child of that name, a
    /// subcommand-group marker descends into the first nested group of
    /// that name and takes its first resolving subcommand option.
    pub fn get_command(&self, option: &InteractionOption) -> (r: Option<
        (Command, Vec<InteractionOption>),
    >)
        ensures
            match r {
                Some((c, o)) => spec_group_get_command(self.deep_view(), option.deep_view())
                    == Some((c.deep_view(), o.deep_view())),
                None => spec_group_get_command(self.deep_view(), option.deep_view()) is None,
            },
    {
        match &option.value {
            OptionValue::SubCommand(inner) => {
                proof {
                    lemma_deep_view_options(*inner);
                }
                match find_child(&self.commands, &option.name, false) {
                    Some(SubCommand::Command(c)) => Some((c, clone_options(inner))),
                    _ => None,
                }
            },
            OptionValue::SubCommandGroup(subs) => {
                proof {
                    lemma_deep_view_options(*subs);
                }
                match find_child(&self.commands, &option.name, true) {
                    Some(SubCommand::Group(sub)) => {
                        let n = subs.len();
                        for i in 0..n
                            invariant
                                n == subs@.len(),
                                option.deep_view().value == OptionValueView::SubCommandGroup(
                                    subs.deep_view(),
                                ),
                                forall|j: int|
                                    0 <= j < i ==> spec_subgroup_resolve_one(
                                        sub.commands.deep_view(),
                                        subs.deep_view()[j],
                                    ) is None,
                                spec_find_child(
                                    self.commands.deep_view(),
                                    option.name@,
                                    true,
                                ) == Some(SubCommandView::Group(sub.deep_view())),
                        {
                            match &subs[i].value {
                                OptionValue::SubCommand(inner) => {
                                    proof {
                                        lemma_deep_view_options(*inner);
                                    }
                                    match find_command(&sub.commands, &subs[i].name) {
                                        Some(c) => {
                                            proof {
                                                lemma_subgroup_lookup_skip(
                                                    sub.commands.deep_view(),
                                                    subs.deep_view(),
                                                    i as int,
                                                );
                                                assert(subs.deep_view().skip(i as int)[0]
                                                    == subs.deep_view()[i as int]);
                                                assert(subs.deep_view().skip(i as int).len() > 0);
                                            }
                                            return Some((c, clone_options(inner)));
                                        },
                                        None => (),
                                    }
                                },
                                _ => (),
                            }
                        }
                        proof {
                            lemma_subgroup_lookup_skip(
                                sub.commands.deep_view(),
                                subs.deep_view(),
                                n as int,
                            );
                            assert(subs.deep_view().skip(n as int).len() == 0);
                        }
                        None
                    },
                    _ => None,
                }
            },
            _ => None,
        }
    }
}

impl InteractionHandler {
    /// Returns a fresh builder for an `InteractionHandler`.
    pub fn builder() -> (r: CommandHandlerBuilder)
        ensures
            r.deep_view() == CommandHandlerBuilder::spec_new(),
    {
        CommandHandlerBuilder::new()
    }

    /// Resolves the invoked command: registered groups are scanned first,
    /// in registration order; a plain command of the invoked name is the
    /// fallback, handed the interaction's flat option list. `None` means
    /// the registered tree disagrees with what Discord delivered.
    pub fn get_command(&self, data: &ApplicationCommand) -> (r: Option<
        (Command, Vec<InteractionOption>),
    >)
        ensures
            match r {
                Some((c, o)) => spec_handler_get_command(self.deep_view(), data.deep_view())
                    == Some((c.deep_view(), o.deep_view())),
                None => spec_handler_get_command(self.deep_view(), data.deep_view()) is None,
            },
    {
        let ngroups = self.groups.len();
        for gi in 0..ngroups
            invariant
                ngroups == self.groups@.len(),
                forall|j: int|
                    0 <= j < gi ==> !(self.groups.deep_view()[j].name == data.name@
                        && spec_group_options_lookup(
                        self.groups.deep_view()[j],
                        data.options.deep_view(),
                    ) is Some),
        {
            if str_eq(self.groups[gi].name.as_str(), data.name.as_str()) {
                let group = &self.groups[gi];
                proof {
                    assert(group.deep_view() == self.groups.deep_view()[gi as int]);
                }
                let nopts = data.options.len();
                for oi in 0..nopts
                    invariant
                        nopts == data.options@.len(),
                        ngroups == self.groups@.len(),
                        gi < ngroups,
                        *group == self.groups@[gi as int],
                        group.deep_view() == self.groups.deep_view()[gi as int],
                        group.deep_view().name == data.name@,
                        forall|j: int|
                            0 <= j < gi ==> !(self.groups.deep_view()[j].name == data.name@
                                && spec_group_options_lookup(
                                self.groups.deep_view()[j],
                                data.options.deep_view(),
                            ) is Some),
                        forall|j: int|
                            0 <= j < oi ==> spec_group_get_command(
                                group.deep_view(),
                                data.options.deep_view()[j],
                            ) is None,
                {
                    match group.get_command(&data.options[oi]) {
                        Some(r) => {
                            proof {
                                lemma_group_options_lookup_skip(
                                    group.deep_view(),
                                    data.options.deep_view(),
                                    oi as int,
                                );
                                assert(data.options.deep_view().skip(oi as int)[0]
                                    == data.options.deep_view()[oi as int]);
                                assert(data.options.deep_view().skip(oi as int).len() > 0);
                                lemma_groups_lookup_skip(
                                    self.groups.deep_view(),
                                    data.deep_view(),
                                    gi as int,
                                );
                                assert(self.groups.deep_view().skip(gi as int)[0]
                                    == self.groups.deep_view()[gi as int]);
                                assert(self.groups.deep_view().skip(gi as int).len() > 0);
                            }
                            return Some(r);
                        },
                        None => (),
                    }
                }
                proof {
                    lemma_group_options_lookup_skip(
                        group.deep_view(),
                        data.options.deep_view(),
                        nopts as int,
                    );
                    assert(data.options.deep_view().skip(nopts as int).len() == 0);
                }
            }
        }
        proof {
            lemma_groups_lookup_skip(self.groups.deep_view(), data.deep_view(), ngroups as int);
            assert(self.groups.deep_view().skip(ngroups as int).len() == 0);
        }
        match find_command(&self.commands, &data.name) {
            Some(c) => Some((c, clone_options(&data.options))),
            None => None,
        }
    }

    /// Classifies one verified, decoded interaction and resolves it to a
    /// dispatch action. A ping short-circuits to a pong without any
    /// command lookup; an unresolvable command invocation is a
    /// configuration mismatch.
    pub fn handle_interaction(&self, interaction: &Interaction) -> (r: DispatchAction)
        ensures
            r.deep_view() == spec_dispatch(self.deep_view(), interaction.deep_view()),
    {
        match interaction {
            Interaction::Ping => DispatchAction::Pong,
            Interaction::ApplicationCommand(data) => match self.get_command(data) {
                Some((c, o)) => DispatchAction::Invoke(c, o),
                None => DispatchAction::NotFound,
            },
            Interaction::Other => DispatchAction::Ignore,
        }
    }

    /// Whether this handler's public key is well-formed Ed25519 key
    /// material; handlers from `CommandHandlerBuilder::build` always are.
    pub fn key_is_valid(&self) -> (r: bool)
        ensures
            r == self.deep_view().wf(),
    {
        if self.public_key.len() != 32 {
            false
        } else {
            crate::crypto::ed25519_check_public_key(self.public_key.as_slice())
        }
    }

    /// The request-authentication gate: checks that Discord signed
    /// `timestamp || body` under this handler's public key. It fails with
    /// `AuthenticationFailed` exactly when a header is missing, the
    /// signature is not hex for 64 bytes, or the Ed25519 verification
    /// fails; the caller must answer 401 and stop on failure.
    pub fn verify(&self, signature: Option<&str>, timestamp: Option<&str>, body: &[u8]) -> (r:
        Result<(), Error>)
        requires
            self.deep_view().wf(),
        ensures
            r is Ok <==> spec_verify_accepts(self.deep_view(), signature, timestamp, body@),
            r matches Err(e) ==> e == Error::AuthenticationFailed,
    {
        let sig_hex = match signature {
            Some(s) => s,
            None => {
                return Err(Error::AuthenticationFailed);
            },
        };
        let ts = match timestamp {
            Some(t) => t,
            None => {
                return Err(Error::AuthenticationFailed);
            },
        };
        let sig_bytes = match hex_decode(sig_hex) {
            Some(b) => b,
            None => {
                return Err(Error::AuthenticationFailed);
            },
        };
        if sig_bytes.len() != 64 {
            return Err(Error::AuthenticationFailed);
        }
        let mut message: Vec<u8> = Vec::new();
        message.extend_from_slice(ts.as_bytes());
        proof {
            assert(message@ =~= ts.spec_bytes());
        }
        message.extend_from_slice(body);
        proof {
            assert(message@ =~= ts.spec_bytes() + body@);
        }
        if ed25519_verify(self.public_key.as_slice(), message.as_slice(), sig_bytes.as_slice()) {
            Ok(())
        } else {
            Err(Error::AuthenticationFailed)
        }
    }
}

} // verus!
