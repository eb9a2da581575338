//! The command model: chat-input commands, their options, choices, and the
//! two-level grouping into subcommands and subcommand groups.
//!
//! Values of these types are built once at startup and never mutated; the
//! dispatcher only reads them. Localized names and descriptions are kept as
//! ordered association lists, serialized in declaration order. Every type
//! has a mathematical view (its `DeepView`), and the contracts of this
//! crate speak about those views.

use vstd::prelude::*;
use vstd::string::StrSliceExecFns;
use crate::i18n::Locales;

verus! {

/// Localized texts, keyed by locale, in declaration order.
pub type I18nMap = Option<Vec<(Locales, String)>>;

/// The view of an `I18nMap`.
pub type I18nMapView = Option<Seq<(Locales, Seq<char>)>>;

impl DeepView for Locales {
    type V = Locales;

    open spec fn deep_view(&self) -> Locales {
        *self
    }
}

/// A float value, carried as its IEEE-754 bit pattern together with the
/// decimal form that is written into JSON. The bits identify the value when
/// choice membership is decided; the text is what serialization emits.
#[derive(Debug, PartialEq)]
pub struct FloatLit {
    pub bits: u64,
    pub text: String,
}

/// The view of a `FloatLit`.
#[verifier::ext_equal]
pub struct FloatLitView {
    pub bits: u64,
    pub text: Seq<char>,
}

impl DeepView for FloatLit {
    type V = FloatLitView;

    open spec fn deep_view(&self) -> FloatLitView {
        FloatLitView { bits: self.bits, text: self.text@ }
    }
}

impl Clone for FloatLit {
    fn clone(&self) -> (res: Self)
        ensures
            res.deep_view() == self.deep_view(),
    {
        let res = FloatLit { bits: self.bits, text: self.text.clone() };
        proof {
            assert(res.deep_view() =~= self.deep_view());
        }
        res
    }
}

/// The value of one declared choice: a string, an integer, or a float,
/// matching the owning option's declared value type.
#[derive(Debug, PartialEq)]
pub enum ChoiceValue {
    Str(String),
    Int(i64),
    Float(FloatLit),
}

/// The view of a `ChoiceValue`.
#[verifier::ext_equal]
pub enum ChoiceValueView {
    Str(Seq<char>),
    Int(i64),
    Float(FloatLitView),
}

impl DeepView for ChoiceValue {
    type V = ChoiceValueView;

    open spec fn deep_view(&self) -> ChoiceValueView {
        match self {
            ChoiceValue::Str(s) => ChoiceValueView::Str(s@),
            ChoiceValue::Int(i) => ChoiceValueView::Int(*i),
            ChoiceValue::Float(f) => ChoiceValueView::Float(f.deep_view()),
        }
    }
}

impl Clone for ChoiceValue {
    fn clone(&self) -> (res: Self)
        ensures
            res.deep_view() == self.deep_view(),
    {
        match self {
            ChoiceValue::Str(s) => ChoiceValue::Str(s.clone()),
            ChoiceValue::Int(i) => ChoiceValue::Int(*i),
            ChoiceValue::Float(f) => ChoiceValue::Float(f.clone()),
        }
    }
}

/// One (display name, value) pair attached to an enumerated option.
#[derive(Debug, PartialEq)]
pub struct Choice {
    pub name: String,
    pub i18n_names: I18nMap,
    pub value: ChoiceValue,
}

/// The view of a `Choice`.
#[verifier::ext_equal]
pub struct ChoiceView {
    pub name: Seq<char>,
    pub i18n_names: I18nMapView,
    pub value: ChoiceValueView,
}

impl DeepView for Choice {
    type V = ChoiceView;

    open spec fn deep_view(&self) -> ChoiceView {
        ChoiceView {
            name: self.name@,
            i18n_names: self.i18n_names.deep_view(),
            value: self.value.deep_view(),
        }
    }
}

impl Clone for Choice {
    fn clone(&self) -> (res: Self)
        ensures
            res.deep_view() == self.deep_view(),
    {
        let res = Choice {
            name: self.name.clone(),
            i18n_names: clone_i18n(&self.i18n_names),
            value: self.value.clone(),
        };
        proof {
            assert(res.deep_view() =~= self.deep_view());
        }
        res
    }
}

/// A numeric bound for an integer or float option.
#[derive(Debug, PartialEq)]
pub enum RangeValue {
    Int(i64),
    Float(FloatLit),
}

/// The view of a `RangeValue`.
#[verifier::ext_equal]
pub enum RangeValueView {
    Int(i64),
    Float(FloatLitView),
}

impl DeepView for RangeValue {
    type V = RangeValueView;

    open spec fn deep_view(&self) -> RangeValueView {
        match self {
            RangeValue::Int(i) => RangeValueView::Int(*i),
            RangeValue::Float(f) => RangeValueView::Float(f.deep_view()),
        }
    }
}

impl Clone for RangeValue {
    fn clone(&self) -> (res: Self)
        ensures
            res.deep_view() == self.deep_view(),
    {
        match self {
            RangeValue::Int(i) => RangeValue::Int(*i),
            RangeValue::Float(f) => RangeValue::Float(f.clone()),
        }
    }
}

/// The semantic type tag of a command option.
#[derive(Debug, Clone, Copy, PartialEq, Eq, Structural)]
pub enum OptionType {
    SubCommand,
    SubCommandGroup,
    Str,
    Int,
    Boolean,
    User,
    Channel,
    Role,
    Mentionable,
    Number,
    Attachment,
}

impl DeepView for OptionType {
    type V = OptionType;

    open spec fn deep_view(&self) -> OptionType {
        *self
    }
}

impl OptionType {
    /// The numeric tag the wire schema uses for this option type.
    pub open spec fn spec_tag(self) -> u64 {
        match self {
            OptionType::SubCommand => 1,
            OptionType::SubCommandGroup => 2,
            OptionType::Str => 3,
            OptionType::Int => 4,
            OptionType::Boolean => 5,
            OptionType::User => 6,
            OptionType::Channel => 7,
            OptionType::Role => 8,
            OptionType::Mentionable => 9,
            OptionType::Number => 10,
            OptionType::Attachment => 11,
        }
    }

    /// Returns the numeric wire tag.
    pub fn tag(&self) -> (r: u64)
        ensures
            r == self.spec_tag(),
    {
        match self {
            OptionType::SubCommand => 1,
            OptionType::SubCommandGroup => 2,
            OptionType::Str => 3,
            OptionType::Int => 4,
            OptionType::Boolean => 5,
            OptionType::User => 6,
            OptionType::Channel => 7,
            OptionType::Role => 8,
            OptionType::Mentionable => 9,
            OptionType::Number => 10,
            OptionType::Attachment => 11,
        }
    }
}

/// The kind of a top-level application command.
#[derive(Debug, Clone, Copy, PartialEq, Eq, Structural)]
pub enum CommandType {
    ChatInput,
    User,
    Message,
}

impl DeepView for CommandType {
    type V = CommandType;

    open spec fn deep_view(&self) -> CommandType {
        *self
    }
}

impl CommandType {
    /// The numeric tag the wire schema uses for this command type.
    pub open spec fn spec_tag(self) -> u64 {
        match self {
            CommandType::ChatInput => 1,
            CommandType::User => 2,
            CommandType::Message => 3,
        }
    }

    /// Returns the numeric wire tag.
    pub fn tag(&self) -> (r: u64)
        ensures
            r == self.spec_tag(),
    {
        match self {
            CommandType::ChatInput => 1,
            CommandType::User => 2,
            CommandType::Message => 3,
        }
    }
}

/// One positional/named argument of a command.
#[derive(Debug, PartialEq)]
pub struct CommandOption {
    pub option_type: OptionType,
    pub name: String,
    pub description: String,
    pub i18n_names: I18nMap,
    pub i18n_descriptions: I18nMap,
    pub choices: Vec<Choice>,
    pub required: bool,
    pub min_value: Option<RangeValue>,
    pub max_value: Option<RangeValue>,
    pub channel_types: Option<Vec<u64>>,
}

/// The view of a `CommandOption`.
#[verifier::ext_equal]
pub struct CommandOptionView {
    pub option_type: OptionType,
    pub name: Seq<char>,
    pub description: Seq<char>,
    pub i18n_names: I18nMapView,
    pub i18n_descriptions: I18nMapView,
    pub choices: Seq<ChoiceView>,
    pub required: bool,
    pub min_value: Option<RangeValueView>,
    pub max_value: Option<RangeValueView>,
    pub channel_types: Option<Seq<u64>>,
}

impl DeepView for CommandOption {
    type V = CommandOptionView;

    open spec fn deep_view(&self) -> CommandOptionView {
        CommandOptionView {
            option_type: self.option_type,
            name: self.name@,
            description: self.description@,
            i18n_names: self.i18n_names.deep_view(),
            i18n_descriptions: self.i18n_descriptions.deep_view(),
            choices: self.choices.deep_view(),
            required: self.required,
            min_value: self.min_value.deep_view(),
            max_value: self.max_value.deep_view(),
            channel_types: self.channel_types.deep_view(),
        }
    }
}

impl Clone for CommandOption {
    fn clone(&self) -> (res: Self)
        ensures
            res.deep_view() == self.deep_view(),
    {
        let res = CommandOption {
            option_type: self.option_type,
            name: self.name.clone(),
            description: self.description.clone(),
            i18n_names: clone_i18n(&self.i18n_names),
            i18n_descriptions: clone_i18n(&self.i18n_descriptions),
            choices: clone_choices(&self.choices),
            required: self.required,
            min_value: clone_range(&self.min_value),
            max_value: clone_range(&self.max_value),
            channel_types: clone_channel_types(&self.channel_types),
        };
        proof {
            assert(res.deep_view() =~= self.deep_view());
        }
        res
    }
}

/// A leaf, invocable command. The `action` field is an opaque token under
/// which the embedding application registered the bound handler; it is not
/// serialized.
#[derive(Debug, PartialEq)]
pub struct Command {
    pub command_type: CommandType,
    pub name: String,
    pub description: String,
    pub i18n_names: I18nMap,
    pub i18n_descriptions: I18nMap,
    pub default_permissions: Option<u64>,
    pub options: Vec<CommandOption>,
    pub action: u64,
}

/// The view of a `Command`.
#[verifier::ext_equal]
pub struct CommandView {
    pub command_type: CommandType,
    pub name: Seq<char>,
    pub description: Seq<char>,
    pub i18n_names: I18nMapView,
    pub i18n_descriptions: I18nMapView,
    pub default_permissions: Option<u64>,
    pub options: Seq<CommandOptionView>,
    pub action: u64,
}

impl DeepView for Command {
    type V = CommandView;

    open spec fn deep_view(&self) -> CommandView {
        CommandView {
            command_type: self.command_type,
            name: self.name@,
            description: self.description@,
            i18n_names: self.i18n_names.deep_view(),
            i18n_descriptions: self.i18n_descriptions.deep_view(),
            default_permissions: self.default_permissions,
            options: self.options.deep_view(),
            action: self.action,
        }
    }
}

impl Clone for Command {
    fn clone(&self) -> (res: Self)
        ensures
            res.deep_view() == self.deep_view(),
    {
        let res = Command {
            command_type: self.command_type,
            name: self.name.clone(),
            description: self.description.clone(),
            i18n_names: clone_i18n(&self.i18n_names),
            i18n_descriptions: clone_i18n(&self.i18n_descriptions),
            default_permissions: if let Some(p) = self.default_permissions {
                Some(p)
            } else {
                None
            },
            options: clone_command_options(&self.options),
            action: self.action,
        };
        proof {
            assert(res.deep_view() =~= self.deep_view());
        }
        res
    }
}

/// A named container of leaf commands, one level below a command group.
#[derive(Debug, PartialEq)]
pub struct SubCommandGroup {
    pub name: String,
    pub i18n_names: I18nMap,
    pub description: String,
    pub i18n_descriptions: I18nMap,
    pub commands: Vec<Command>,
}

/// The view of a `SubCommandGroup`.
#[verifier::ext_equal]
pub struct SubCommandGroupView {
    pub name: Seq<char>,
    pub i18n_names: I18nMapView,
    pub description: Seq<char>,
    pub i18n_descriptions: I18nMapView,
    pub commands: Seq<CommandView>,
}

impl DeepView for SubCommandGroup {
    type V = SubCommandGroupView;

    open spec fn deep_view(&self) -> SubCommandGroupView {
        SubCommandGroupView {
            name: self.name@,
            i18n_names: self.i18n_names.deep_view(),
            description: self.description@,
            i18n_descriptions: self.i18n_descriptions.deep_view(),
            commands: self.commands.deep_view(),
        }
    }
}

impl Clone for SubCommandGroup {
    fn clone(&self) -> (res: Self)
        ensures
            res.deep_view() == self.deep_view(),
    {
        let res = SubCommandGroup {
            name: self.name.clone(),
            i18n_names: clone_i18n(&self.i18n_names),
            description: self.description.clone(),
            i18n_descriptions: clone_i18n(&self.i18n_descriptions),
            commands: clone_commands(&self.commands),
        };
        proof {
            assert(res.deep_view() =~= self.deep_view());
        }
        res
    }
}

/// One child of a command group: either a leaf command or a nested
/// subcommand group. A nested group holds leaf commands only, which keeps
/// the tree within the two levels the wire schema allows.
#[derive(Debug, PartialEq)]
pub enum SubCommand {
    Command(Command),
    Group(SubCommandGroup),
}

/// The view of a `SubCommand`.
#[verifier::ext_equal]
pub enum SubCommandView {
    Command(CommandView),
    Group(SubCommandGroupView),
}

impl DeepView for SubCommand {
    type V = SubCommandView;

    open spec fn deep_view(&self) -> SubCommandView {
        match self {
            SubCommand::Command(c) => SubCommandView::Command(c.deep_view()),
            SubCommand::Group(g) => SubCommandView::Group(g.deep_view()),
        }
    }
}

impl Clone for SubCommand {
    fn clone(&self) -> (res: Self)
        ensures
            res.deep_view() == self.deep_view(),
    {
        match self {
            SubCommand::Command(c) => SubCommand::Command(c.clone()),
            SubCommand::Group(g) => SubCommand::Group(g.clone()),
        }
    }
}

impl SubCommandView {
    /// The child's name.
    pub open spec fn name(self) -> Seq<char> {
        match self {
            SubCommandView::Command(c) => c.name,
            SubCommandView::Group(g) => g.name,
        }
    }
}

impl SubCommand {
    /// Whether this child is a nested subcommand group.
    pub fn is_group(&self) -> (r: bool)
        ensures
            r == (self.deep_view() is Group),
    {
        match self {
            SubCommand::Command(_) => false,
            SubCommand::Group(_) => true,
        }
    }

    /// Returns the child's name.
    pub fn get_name(&self) -> (r: String)
        ensures
            r@ == self.deep_view().name(),
    {
        match self {
            SubCommand::Command(cmd) => cmd.name.clone(),
            SubCommand::Group(group) => group.name.clone(),
        }
    }
}

/// A top-level command group: a named container of subcommands and
/// subcommand groups.
#[derive(Debug, PartialEq)]
pub struct CommandGroup {
    pub name: String,
    pub i18n_names: I18nMap,
    pub description: String,
    pub i18n_descriptions: I18nMap,
    pub default_permissions: Option<u64>,
    pub commands: Vec<SubCommand>,
}

/// The view of a `CommandGroup`.
#[verifier::ext_equal]
pub struct CommandGroupView {
    pub name: Seq<char>,
    pub i18n_names: I18nMapView,
    pub description: Seq<char>,
    pub i18n_descriptions: I18nMapView,
    pub default_permissions: Option<u64>,
    pub commands: Seq<SubCommandView>,
}

impl DeepView for CommandGroup {
    type V = CommandGroupView;

    open spec fn deep_view(&self) -> CommandGroupView {
        CommandGroupView {
            name: self.name@,
            i18n_names: self.i18n_names.deep_view(),
            description: self.description@,
            i18n_descriptions: self.i18n_descriptions.deep_view(),
            default_permissions: self.default_permissions,
            commands: self.commands.deep_view(),
        }
    }
}

impl Clone for CommandGroup {
    fn clone(&self) -> (res: Self)
        ensures
            res.deep_view() == self.deep_view(),
    {
        let res = CommandGroup {
            name: self.name.clone(),
            i18n_names: clone_i18n(&self.i18n_names),
            description: self.description.clone(),
            i18n_descriptions: clone_i18n(&self.i18n_descriptions),
            default_permissions: if let Some(p) = self.default_permissions {
                Some(p)
            } else {
                None
            },
            commands: clone_subcommands(&self.commands),
        };
        proof {
            assert(res.deep_view() =~= self.deep_view());
        }
        res
    }
}

/// Whether an option carries an acceptable description: present, and at
/// most 100 characters long.
pub open spec fn spec_option_description_ok(o: CommandOptionView) -> bool {
    1 <= o.description.len() <= 100
}

/// Validates one declared option: its description must be present and no
/// longer than 100 characters.
pub fn validate_option(option: &CommandOption) -> (r: bool)
    ensures
        r == spec_option_description_ok(option.deep_view()),
{
    let n = option.description.as_str().unicode_len();
    1 <= n && n <= 100
}

fn clone_i18n(m: &I18nMap) -> (r: I18nMap)
    ensures
        r.deep_view() == m.deep_view(),
{
    match m {
        None => None,
        Some(entries) => {
            let mut out: Vec<(Locales, String)> = Vec::new();
            let n = entries.len();
            for i in 0..n
                invariant
                    n == entries@.len(),
                    out@.len() == i,
                    forall|j: int| 0 <= j < i ==> out@[j].deep_view() == entries@[j].deep_view(),
            {
                let locale = entries[i].0;
                let text = entries[i].1.clone();
                out.push((locale, text));
            }
            proof {
                assert(out.deep_view() =~= entries.deep_view());
            }
            Some(out)
        },
    }
}

fn clone_choices(v: &Vec<Choice>) -> (r: Vec<Choice>)
    ensures
        r.deep_view() == v.deep_view(),
{
    let mut out: Vec<Choice> = Vec::new();
    let n = v.len();
    for i in 0..n
        invariant
            n == v@.len(),
            out@.len() == i,
            forall|j: int| 0 <= j < i ==> out@[j].deep_view() == v@[j].deep_view(),
    {
        out.push(v[i].clone());
    }
    proof {
        assert(out.deep_view() =~= v.deep_view());
    }
    out
}

fn clone_range(v: &Option<RangeValue>) -> (r: Option<RangeValue>)
    ensures
        r.deep_view() == v.deep_view(),
{
    match v {
        None => None,
        Some(rv) => Some(rv.clone()),
    }
}

fn clone_channel_types(v: &Option<Vec<u64>>) -> (r: Option<Vec<u64>>)
    ensures
        r.deep_view() == v.deep_view(),
{
    match v {
        None => None,
        Some(ts) => {
            let mut out: Vec<u64> = Vec::new();
            let n = ts.len();
            for i in 0..n
                invariant
                    n == ts@.len(),
                    out@.len() == i,
                    forall|j: int| 0 <= j < i ==> out@[j] == ts@[j],
            {
                out.push(ts[i]);
            }
            proof {
                assert(out.deep_view() =~= ts.deep_view());
            }
            Some(out)
        },
    }
}

fn clone_command_options(v: &Vec<CommandOption>) -> (r: Vec<CommandOption>)
    ensures
        r.deep_view() == v.deep_view(),
{
    let mut out: Vec<CommandOption> = Vec::new();
    let n = v.len();
    for i in 0..n
        invariant
            n == v@.len(),
            out@.len() == i,
            forall|j: int| 0 <= j < i ==> out@[j].deep_view() == v@[j].deep_view(),
    {
        out.push(v[i].clone());
    }
    proof {
        assert(out.deep_view() =~= v.deep_view());
    }
    out
}

fn clone_commands(v: &Vec<Command>) -> (r: Vec<Command>)
    ensures
        r.deep_view() == v.deep_view(),
{
    let mut out: Vec<Command> = Vec::new();
    let n = v.len();
    for i in 0..n
        invariant
            n == v@.len(),
            out@.len() == i,
            forall|j: int| 0 <= j < i ==> out@[j].deep_view() == v@[j].deep_view(),
    {
        out.push(v[i].clone());
    }
    proof {
        assert(out.deep_view() =~= v.deep_view());
    }
    out
}

fn clone_subcommands(v: &Vec<SubCommand>) -> (r: Vec<SubCommand>)
    ensures
        r.deep_view() == v.deep_view(),
{
    let mut out: Vec<SubCommand> = Vec::new();
    let n = v.len();
    for i in 0..n
        invariant
            n == v@.len(),
            out@.len() == i,
            forall|j: int| 0 <= j < i ==> out@[j].deep_view() == v@[j].deep_view(),
    {
        out.push(v[i].clone());
    }
    proof {
        assert(out.deep_view() =~= v.deep_view());
    }
    out
}

} // verus!
