//! The inbound interaction envelope: the discriminated union Discord posts
//! to the webhook, reduced to what the dispatcher reads.
//!
//! Raw option values mirror the wire shape: a leaf primitive, a snowflake
//! tagged by the kind of entity it names, or a nested subcommand or
//! subcommand-group marker carrying further options. Floats travel as their
//! IEEE-754 bit pattern; the embedding application converts at the edge.

use vstd::prelude::*;

verus! {

broadcast use
    vstd::std_specs::vec::axiom_vec_index_decreases,
    vstd::std_specs::vec::axiom_vec_decreases_to_view,
    vstd::seq::axiom_seq_index_decreases;

/// The view of an `OptionValue`.
#[verifier::ext_equal]
pub enum OptionValueView {
    Str(Seq<char>),
    Int(i64),
    Boolean(bool),
    Number(u64),
    User(u64),
    Channel(u64),
    Role(u64),
    Mentionable(u64),
    Attachment(u64),
    SubCommand(Seq<InteractionOptionView>),
    SubCommandGroup(Seq<InteractionOptionView>),
}

/// The view of an `InteractionOption`.
#[verifier::ext_equal]
pub struct InteractionOptionView {
    pub name: Seq<char>,
    pub value: OptionValueView,
}

/// One raw option value from an interaction payload.
#[derive(Debug, PartialEq)]
pub enum OptionValue {
    /// A string argument.
    Str(String),
    /// An integer argument.
    Int(i64),
    /// A boolean argument.
    Boolean(bool),
    /// A float argument, as its IEEE-754 bit pattern.
    Number(u64),
    /// A user snowflake.
    User(u64),
    /// A channel snowflake.
    Channel(u64),
    /// A role snowflake.
    Role(u64),
    /// A mentionable snowflake.
    Mentionable(u64),
    /// An attachment snowflake.
    Attachment(u64),
    /// A subcommand marker carrying the leaf options.
    SubCommand(Vec<InteractionOption>),
    /// A subcommand-group marker carrying the nested subcommand options.
    SubCommandGroup(Vec<InteractionOption>),
}

/// One named option from an interaction payload.
#[derive(Debug, PartialEq)]
pub struct InteractionOption {
    pub name: String,
    pub value: OptionValue,
}

/// The views of a list of interaction options.
pub open spec fn deep_view_options(s: Seq<InteractionOption>) -> Seq<InteractionOptionView>
    decreases s,
{
    Seq::new(
        s.len(),
        |i: int|
            if 0 <= i < s.len() {
                s[i].deep_view()
            } else {
                InteractionOptionView { name: Seq::empty(), value: OptionValueView::Int(0) }
            },
    )
}

impl DeepView for OptionValue {
    type V = OptionValueView;

    open spec fn deep_view(&self) -> OptionValueView
        decreases *self,
    {
        match self {
            OptionValue::Str(s) => OptionValueView::Str(s@),
            OptionValue::Int(i) => OptionValueView::Int(*i),
            OptionValue::Boolean(b) => OptionValueView::Boolean(*b),
            OptionValue::Number(bits) => OptionValueView::Number(*bits),
            OptionValue::User(id) => OptionValueView::User(*id),
            OptionValue::Channel(id) => OptionValueView::Channel(*id),
            OptionValue::Role(id) => OptionValueView::Role(*id),
            OptionValue::Mentionable(id) => OptionValueView::Mentionable(*id),
            OptionValue::Attachment(id) => OptionValueView::Attachment(*id),
            OptionValue::SubCommand(v) => OptionValueView::SubCommand(deep_view_options(v@)),
            OptionValue::SubCommandGroup(v) => OptionValueView::SubCommandGroup(
                deep_view_options(v@),
            ),
        }
    }
}

impl DeepView for InteractionOption {
    type V = InteractionOptionView;

    open spec fn deep_view(&self) -> InteractionOptionView
        decreases *self,
    {
        InteractionOptionView { name: self.name@, value: self.value.deep_view() }
    }
}

/// The two sequence views of a list of options coincide.
pub broadcast proof fn lemma_deep_view_options(v: Vec<InteractionOption>)
    ensures
        #[trigger] v.deep_view() == deep_view_options(v@),
{
    assert(v.deep_view() =~= deep_view_options(v@));
}

impl Clone for OptionValue {
    fn clone(&self) -> (res: Self)
        ensures
            res.deep_view() == self.deep_view(),
        decreases *self,
    {
        match self {
            OptionValue::Str(s) => OptionValue::Str(s.clone()),
            OptionValue::Int(i) => OptionValue::Int(*i),
            OptionValue::Boolean(b) => OptionValue::Boolean(*b),
            OptionValue::Number(bits) => OptionValue::Number(*bits),
            OptionValue::User(id) => OptionValue::User(*id),
            OptionValue::Channel(id) => OptionValue::Channel(*id),
            OptionValue::Role(id) => OptionValue::Role(*id),
            OptionValue::Mentionable(id) => OptionValue::Mentionable(*id),
            OptionValue::Attachment(id) => OptionValue::Attachment(*id),
            OptionValue::SubCommand(v) => {
                let cloned = clone_options(v);
                proof {
                    lemma_deep_view_options(cloned);
                    lemma_deep_view_options(*v);
                }
                OptionValue::SubCommand(cloned)
            },
            OptionValue::SubCommandGroup(v) => {
                let cloned = clone_options(v);
                proof {
                    lemma_deep_view_options(cloned);
                    lemma_deep_view_options(*v);
                }
                OptionValue::SubCommandGroup(cloned)
            },
        }
    }
}

impl Clone for InteractionOption {
    fn clone(&self) -> (res: Self)
        ensures
            res.deep_view() == self.deep_view(),
        decreases *self,
    {
        let res = InteractionOption { name: self.name.clone(), value: self.value.clone() };
        proof {
            assert(res.deep_view() =~= self.deep_view());
        }
        res
    }
}

/// Clones a list of raw interaction options.
pub fn clone_options(v: &Vec<InteractionOption>) -> (r: Vec<InteractionOption>)
    ensures
        r.deep_view() == v.deep_view(),
    decreases *v,
{
    let mut out: Vec<InteractionOption> = Vec::new();
    let n = v.len();
    for i in 0..n
        invariant
            n == v@.len(),
            out@.len() == i,
            forall|j: int| 0 <= j < i ==> out@[j].deep_view() == v@[j].deep_view(),
    {
        out.push(v[i].clone());
    }
    proof {
        assert(out.deep_view() =~= v.deep_view());
    }
    out
}

/// The data of an application-command invocation: the invoked top-level
/// name, the invoker's locale tag, and the raw option list.
#[derive(Debug, PartialEq)]
pub struct ApplicationCommand {
    pub name: String,
    pub locale: String,
    pub options: Vec<InteractionOption>,
}

/// The view of an `ApplicationCommand`.
#[verifier::ext_equal]
pub struct ApplicationCommandView {
    pub name: Seq<char>,
    pub locale: Seq<char>,
    pub options: Seq<InteractionOptionView>,
}

impl DeepView for ApplicationCommand {
    type V = ApplicationCommandView;

    open spec fn deep_view(&self) -> ApplicationCommandView {
        ApplicationCommandView {
            name: self.name@,
            locale: self.locale@,
            options: self.options.deep_view(),
        }
    }
}

impl Clone for ApplicationCommand {
    fn clone(&self) -> (res: Self)
        ensures
            res.deep_view() == self.deep_view(),
    {
        let res = ApplicationCommand {
            name: self.name.clone(),
            locale: self.locale.clone(),
            options: clone_options(&self.options),
        };
        proof {
            assert(res.deep_view() =~= self.deep_view());
        }
        res
    }
}

/// The view of an `Interaction`.
#[verifier::ext_equal]
pub enum InteractionView {
    Ping,
    ApplicationCommand(ApplicationCommandView),
    Other,
}

/// One inbound interaction: a liveness ping, a command invocation, or some
/// other kind this crate does not dispatch on.
#[derive(Debug, PartialEq)]
pub enum Interaction {
    Ping,
    ApplicationCommand(ApplicationCommand),
    Other,
}

impl DeepView for Interaction {
    type V = InteractionView;

    open spec fn deep_view(&self) -> InteractionView {
        match self {
            Interaction::Ping => InteractionView::Ping,
            Interaction::ApplicationCommand(c) => InteractionView::ApplicationCommand(
                c.deep_view(),
            ),
            Interaction::Other => InteractionView::Other,
        }
    }
}

} // verus!
