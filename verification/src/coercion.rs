//! The option coercion layer: the boundary between untyped wire values and
//! statically typed handler arguments.
//!
//! Each target type owns a conversion that accepts a raw tagged value and
//! returns either the typed value or `WrongOptionType` when the tag does
//! not match. Enumerated options additionally map a raw primitive to a
//! declared choice by exact value match.

use vstd::prelude::*;
use crate::error::Error;
use crate::interaction::{InteractionOption, InteractionOptionView, OptionValue, OptionValueView};
use crate::model::{Choice, ChoiceValue, ChoiceValueView, ChoiceView, OptionType};
use crate::text::str_eq;

verus! {

/// A float handler argument, as its IEEE-754 bit pattern. The embedding
/// application converts to a float at the edge.
#[derive(Debug, Clone, Copy, PartialEq, Eq, Structural)]
pub struct FloatBits(pub u64);

impl DeepView for FloatBits {
    type V = u64;

    open spec fn deep_view(&self) -> u64 {
        self.0
    }
}

/// A user snowflake handler argument.
#[derive(Debug, Clone, Copy, PartialEq, Eq, Structural)]
pub struct UserId(pub u64);

impl DeepView for UserId {
    type V = u64;

    open spec fn deep_view(&self) -> u64 {
        self.0
    }
}

/// A channel snowflake handler argument.
#[derive(Debug, Clone, Copy, PartialEq, Eq, Structural)]
pub struct ChannelId(pub u64);

impl DeepView for ChannelId {
    type V = u64;

    open spec fn deep_view(&self) -> u64 {
        self.0
    }
}

/// A role snowflake handler argument.
#[derive(Debug, Clone, Copy, PartialEq, Eq, Structural)]
pub struct RoleId(pub u64);

impl DeepView for RoleId {
    type V = u64;

    open spec fn deep_view(&self) -> u64 {
        self.0
    }
}

/// A mentionable snowflake handler argument.
#[derive(Debug, Clone, Copy, PartialEq, Eq, Structural)]
pub struct MentionableId(pub u64);

impl DeepView for MentionableId {
    type V = u64;

    open spec fn deep_view(&self) -> u64 {
        self.0
    }
}

/// An attachment snowflake handler argument.
#[derive(Debug, Clone, Copy, PartialEq, Eq, Structural)]
pub struct AttachmentId(pub u64);

impl DeepView for AttachmentId {
    type V = u64;

    open spec fn deep_view(&self) -> u64 {
        self.0
    }
}

/// A type that can be produced from a raw interaction option value.
/// Implementing it makes the type usable as a command option.
pub trait FromCommandOptionValue: Sized + DeepView {
    /// What the conversion returns, for every raw value.
    spec fn spec_from_option(value: OptionValueView) -> Result<Self::V, Error>;

    /// The option type tag this target type expects on the wire.
    spec fn spec_option_type() -> OptionType;

    /// The declared choices of this target type, if it is enumerated.
    spec fn spec_choices() -> Seq<ChoiceView>;

    /// Converts a raw option value into this type, or reports
    /// `WrongOptionType` exactly when the raw tag does not match.
    fn from_option(value: OptionValue) -> (r: Result<Self, Error>)
        ensures
            match r {
                Ok(v) => Self::spec_from_option(value.deep_view()) == Ok::<Self::V, Error>(
                    v.deep_view(),
                ),
                Err(e) => Self::spec_from_option(value.deep_view()) == Err::<Self::V, Error>(e),
            },
    ;

    /// Returns the option type tag this target type expects.
    fn get_option_type() -> (r: OptionType)
        ensures
            r == Self::spec_option_type(),
    ;

    /// Returns the declared choices of this target type.
    fn choices() -> (r: Vec<Choice>)
        ensures
            r.deep_view() == Self::spec_choices(),
    ;

    /// Whether this target type is enumerated.
    fn has_choices() -> (r: bool)
        ensures
            r == (Self::spec_choices().len() > 0),
    ;
}

impl FromCommandOptionValue for String {
    open spec fn spec_from_option(value: OptionValueView) -> Result<Seq<char>, Error> {
        match value {
            OptionValueView::Str(s) => Ok(s),
            _ => Err(Error::WrongOptionType),
        }
    }

    open spec fn spec_option_type() -> OptionType {
        OptionType::Str
    }

    open spec fn spec_choices() -> Seq<ChoiceView> {
        Seq::empty()
    }

    fn from_option(value: OptionValue) -> (r: Result<Self, Error>) {
        match value {
            OptionValue::Str(s) => Ok(s),
            _ => Err(Error::WrongOptionType),
        }
    }

    fn get_option_type() -> (r: OptionType) {
        OptionType::Str
    }

    fn choices() -> (r: Vec<Choice>) {
        let r: Vec<Choice> = Vec::new();
        proof {
            assert(r.deep_view() =~= Seq::<ChoiceView>::empty());
        }
        r
    }

    fn has_choices() -> (r: bool) {
        false
    }
}

impl FromCommandOptionValue for i64 {
    open spec fn spec_from_option(value: OptionValueView) -> Result<i64, Error> {
        match value {
            OptionValueView::Int(i) => Ok(i),
            _ => Err(Error::WrongOptionType),
        }
    }

    open spec fn spec_option_type() -> OptionType {
        OptionType::Int
    }

    open spec fn spec_choices() -> Seq<ChoiceView> {
        Seq::empty()
    }

    fn from_option(value: OptionValue) -> (r: Result<Self, Error>) {
        match value {
            OptionValue::Int(i) => Ok(i),
            _ => Err(Error::WrongOptionType),
        }
    }

    fn get_option_type() -> (r: OptionType) {
        OptionType::Int
    }

    fn choices() -> (r: Vec<Choice>) {
        let r: Vec<Choice> = Vec::new();
        proof {
            assert(r.deep_view() =~= Seq::<ChoiceView>::empty());
        }
        r
    }

    fn has_choices() -> (r: bool) {
        false
    }
}

impl FromCommandOptionValue for bool {
    open spec fn spec_from_option(value: OptionValueView) -> Result<bool, Error> {
        match value {
            OptionValueView::Boolean(b) => Ok(b),
            _ => Err(Error::WrongOptionType),
        }
    }

    open spec fn spec_option_type() -> OptionType {
        OptionType::Boolean
    }

    open spec fn spec_choices() -> Seq<ChoiceView> {
        Seq::empty()
    }

    fn from_option(value: OptionValue) -> (r: Result<Self, Error>) {
        match value {
            OptionValue::Boolean(b) => Ok(b),
            _ => Err(Error::WrongOptionType),
        }
    }

    fn get_option_type() -> (r: OptionType) {
        OptionType::Boolean
    }

    fn choices() -> (r: Vec<Choice>) {
        let r: Vec<Choice> = Vec::new();
        proof {
            assert(r.deep_view() =~= Seq::<ChoiceView>::empty());
        }
        r
    }

    fn has_choices() -> (r: bool) {
        false
    }
}

impl FromCommandOptionValue for FloatBits {
    open spec fn spec_from_option(value: OptionValueView) -> Result<u64, Error> {
        match value {
            OptionValueView::Number(bits) => Ok(bits),
            _ => Err(Error::WrongOptionType),
        }
    }

    open spec fn spec_option_type() -> OptionType {
        OptionType::Number
    }

    open spec fn spec_choices() -> Seq<ChoiceView> {
        Seq::empty()
    }

    fn from_option(value: OptionValue) -> (r: Result<Self, Error>) {
        match value {
            OptionValue::Number(bits) => Ok(FloatBits(bits)),
            _ => Err(Error::WrongOptionType),
        }
    }

    fn get_option_type() -> (r: OptionType) {
        OptionType::Number
    }

    fn choices() -> (r: Vec<Choice>) {
        let r: Vec<Choice> = Vec::new();
        proof {
            assert(r.deep_view() =~= Seq::<ChoiceView>::empty());
        }
        r
    }

    fn has_choices() -> (r: bool) {
        false
    }
}

impl FromCommandOptionValue for UserId {
    open spec fn spec_from_option(value: OptionValueView) -> Result<u64, Error> {
        match value {
            OptionValueView::User(id) => Ok(id),
            _ => Err(Error::WrongOptionType),
        }
    }

    open spec fn spec_option_type() -> OptionType {
        OptionType::User
    }

    open spec fn spec_choices() -> Seq<ChoiceView> {
        Seq::empty()
    }

    fn from_option(value: OptionValue) -> (r: Result<Self, Error>) {
        match value {
            OptionValue::User(id) => Ok(UserId(id)),
            _ => Err(Error::WrongOptionType),
        }
    }

    fn get_option_type() -> (r: OptionType) {
        OptionType::User
    }

    fn choices() -> (r: Vec<Choice>) {
        let r: Vec<Choice> = Vec::new();
        proof {
            assert(r.deep_view() =~= Seq::<ChoiceView>::empty());
        }
        r
    }

    fn has_choices() -> (r: bool) {
        false
    }
}

impl FromCommandOptionValue for ChannelId {
    open spec fn spec_from_option(value: OptionValueView) -> Result<u64, Error> {
        match value {
            OptionValueView::Channel(id) => Ok(id),
            _ => Err(Error::WrongOptionType),
        }
    }

    open spec fn spec_option_type() -> OptionType {
        OptionType::Channel
    }

    open spec fn spec_choices() -> Seq<ChoiceView> {
        Seq::empty()
    }

    fn from_option(value: OptionValue) -> (r: Result<Self, Error>) {
        match value {
            OptionValue::Channel(id) => Ok(ChannelId(id)),
            _ => Err(Error::WrongOptionType),
        }
    }

    fn get_option_type() -> (r: OptionType) {
        OptionType::Channel
    }

    fn choices() -> (r: Vec<Choice>) {
        let r: Vec<Choice> = Vec::new();
        proof {
            assert(r.deep_view() =~= Seq::<ChoiceView>::empty());
        }
        r
    }

    fn has_choices() -> (r: bool) {
        false
    }
}

impl FromCommandOptionValue for RoleId {
    open spec fn spec_from_option(value: OptionValueView) -> Result<u64, Error> {
        match value {
            OptionValueView::Role(id) => Ok(id),
            _ => Err(Error::WrongOptionType),
        }
    }

    open spec fn spec_option_type() -> OptionType {
        OptionType::Role
    }

    open spec fn spec_choices() -> Seq<ChoiceView> {
        Seq::empty()
    }

    fn from_option(value: OptionValue) -> (r: Result<Self, Error>) {
        match value {
            OptionValue::Role(id) => Ok(RoleId(id)),
            _ => Err(Error::WrongOptionType),
        }
    }

    fn get_option_type() -> (r: OptionType) {
        OptionType::Role
    }

    fn choices() -> (r: Vec<Choice>) {
        let r: Vec<Choice> = Vec::new();
        proof {
            assert(r.deep_view() =~= Seq::<ChoiceView>::empty());
        }
        r
    }

    fn has_choices() -> (r: bool) {
        false
    }
}

impl FromCommandOptionValue for MentionableId {
    open spec fn spec_from_option(value: OptionValueView) -> Result<u64, Error> {
        match value {
            OptionValueView::Mentionable(id) => Ok(id),
            _ => Err(Error::WrongOptionType),
        }
    }

    open spec fn spec_option_type() -> OptionType {
        OptionType::Mentionable
    }

    open spec fn spec_choices() -> Seq<ChoiceView> {
        Seq::empty()
    }

    fn from_option(value: OptionValue) -> (r: Result<Self, Error>) {
        match value {
            OptionValue::Mentionable(id) => Ok(MentionableId(id)),
            _ => Err(Error::WrongOptionType),
        }
    }

    fn get_option_type() -> (r: OptionType) {
        OptionType::Mentionable
    }

    fn choices() -> (r: Vec<Choice>) {
        let r: Vec<Choice> = Vec::new();
        proof {
            assert(r.deep_view() =~= Seq::<ChoiceView>::empty());
        }
        r
    }

    fn has_choices() -> (r: bool) {
        false
    }
}

impl FromCommandOptionValue for AttachmentId {
    open spec fn spec_from_option(value: OptionValueView) -> Result<u64, Error> {
        match value {
            OptionValueView::Attachment(id) => Ok(id),
            _ => Err(Error::WrongOptionType),
        }
    }

    open spec fn spec_option_type() -> OptionType {
        OptionType::Attachment
    }

    open spec fn spec_choices() -> Seq<ChoiceView> {
        Seq::empty()
    }

    fn from_option(value: OptionValue) -> (r: Result<Self, Error>) {
        match value {
            OptionValue::Attachment(id) => Ok(AttachmentId(id)),
            _ => Err(Error::WrongOptionType),
        }
    }

    fn get_option_type() -> (r: OptionType) {
        OptionType::Attachment
    }

    fn choices() -> (r: Vec<Choice>) {
        let r: Vec<Choice> = Vec::new();
        proof {
            assert(r.deep_view() =~= Seq::<ChoiceView>::empty());
        }
        r
    }

    fn has_choices() -> (r: bool) {
        false
    }
}

/// The first value in `opts` supplied under `name`, if any.
pub open spec fn spec_find_option(opts: Seq<InteractionOptionView>, name: Seq<char>) -> Option<
    OptionValueView,
>
    decreases opts.len(),
{
    if opts.len() == 0 {
        None
    } else if opts[0].name == name {
        Some(opts[0].value)
    } else {
        spec_find_option(opts.drop_first(), name)
    }
}

/// What binding a required option named `name` from `opts` yields: the
/// coerced value, `MissingOption` if it is absent, or the conversion's own
/// error.
pub open spec fn spec_get_option<T: FromCommandOptionValue>(
    opts: Seq<InteractionOptionView>,
    name: Seq<char>,
) -> Result<T::V, Error> {
    match spec_find_option(opts, name) {
        None => Err(Error::MissingOption),
        Some(v) => T::spec_from_option(v),
    }
}

/// What binding an optional option named `name` from `opts` yields: `None`
/// if it is absent rather than an error.
pub open spec fn spec_get_optional_option<T: FromCommandOptionValue>(
    opts: Seq<InteractionOptionView>,
    name: Seq<char>,
) -> Result<Option<T::V>, Error> {
    match spec_find_option(opts, name) {
        None => Ok(None),
        Some(v) => match T::spec_from_option(v) {
            Ok(x) => Ok(Some(x)),
            Err(e) => Err(e),
        },
    }
}

proof fn lemma_find_option_skip(opts: Seq<InteractionOptionView>, name: Seq<char>, i: int)
    requires
        0 <= i <= opts.len(),
        forall|j: int| 0 <= j < i ==> opts[j].name != name,
    ensures
        spec_find_option(opts, name) == spec_find_option(opts.skip(i), name),
    decreases i,
{
    if i == 0 {
        assert(opts.skip(0) =~= opts);
    } else {
        assert(opts.skip(1) =~= opts.drop_first());
        lemma_find_option_skip(opts.drop_first(), name, i - 1);
        assert(opts.drop_first().skip(i - 1) =~= opts.skip(i));
    }
}

fn find_option(options: &Vec<InteractionOption>, name: &str) -> (r: Option<OptionValue>)
    ensures
        match r {
            Some(v) => spec_find_option(options.deep_view(), name@) == Some(v.deep_view()),
            None => spec_find_option(options.deep_view(), name@) is None,
        },
{
    let n = options.len();
    for i in 0..n
        invariant
            n == options@.len(),
            forall|j: int| 0 <= j < i ==> options.deep_view()[j].name != name@,
    {
        if str_eq(options[i].name.as_str(), name) {
            let v = options[i].value.clone();
            proof {
                lemma_find_option_skip(options.deep_view(), name@, i as int);
                assert(options.deep_view().skip(i as int)[0] == options.deep_view()[i as int]);
                assert(options.deep_view().skip(i as int).len() > 0);
            }
            return Some(v);
        }
    }
    proof {
        lemma_find_option_skip(options.deep_view(), name@, n as int);
        assert(options.deep_view().skip(n as int).len() == 0);
    }
    None
}

/// Binds a required option: finds the value supplied under `name` and
/// coerces it to `T`. Reports `MissingOption` exactly when no option of
/// that name is present.
pub fn get_option<T: FromCommandOptionValue>(options: &Vec<InteractionOption>, name: &str) -> (r:
    Result<T, Error>)
    ensures
        match r {
            Ok(v) => spec_get_option::<T>(options.deep_view(), name@) == Ok::<T::V, Error>(
                v.deep_view(),
            ),
            Err(e) => spec_get_option::<T>(options.deep_view(), name@) == Err::<T::V, Error>(e),
        },
{
    match find_option(options, name) {
        None => Err(Error::MissingOption),
        Some(v) => T::from_option(v),
    }
}

/// Binds an optional option: an absent name yields `Ok(None)` rather than
/// `MissingOption`.
pub fn get_optional_option<T: FromCommandOptionValue>(
    options: &Vec<InteractionOption>,
    name: &str,
) -> (r: Result<Option<T>, Error>)
    ensures
        match r {
            Ok(Some(v)) => spec_get_optional_option::<T>(options.deep_view(), name@) == Ok::<
                Option<T::V>,
                Error,
            >(Some(v.deep_view())),
            Ok(None) => spec_get_optional_option::<T>(options.deep_view(), name@) == Ok::<
                Option<T::V>,
                Error,
            >(None),
            Err(e) => spec_get_optional_option::<T>(options.deep_view(), name@) == Err::<
                Option<T::V>,
                Error,
            >(e),
        },
{
    match find_option(options, name) {
        None => Ok(None),
        Some(v) => match T::from_option(v) {
            Ok(x) => Ok(Some(x)),
            Err(e) => Err(e),
        },
    }
}

/// Whether a declared choice value and a raw option value are the same
/// value: strings by their characters, integers exactly, floats by their
/// bit pattern.
pub open spec fn spec_choice_value_matches(cv: ChoiceValueView, v: OptionValueView) -> bool {
    match cv {
        ChoiceValueView::Str(a) => v matches OptionValueView::Str(b) && a == b,
        ChoiceValueView::Int(a) => v matches OptionValueView::Int(b) && a == b,
        ChoiceValueView::Float(a) => v matches OptionValueView::Number(b) && a.bits == b,
    }
}

/// The index of the first declared choice whose value equals the raw
/// value, if any.
pub open spec fn spec_choice_index(choices: Seq<ChoiceView>, v: OptionValueView) -> Option<int>
    decreases choices.len(),
{
    if choices.len() == 0 {
        None
    } else if spec_choice_value_matches(choices[0].value, v) {
        Some(0)
    } else {
        match spec_choice_index(choices.drop_first(), v) {
            None => None,
            Some(i) => Some(i + 1),
        }
    }
}

fn choice_value_matches(cv: &ChoiceValue, v: &OptionValue) -> (r: bool)
    ensures
        r == spec_choice_value_matches(cv.deep_view(), v.deep_view()),
{
    match (cv, v) {
        (ChoiceValue::Str(a), OptionValue::Str(b)) => str_eq(a.as_str(), b.as_str()),
        (ChoiceValue::Int(a), OptionValue::Int(b)) => *a == *b,
        (ChoiceValue::Float(a), OptionValue::Number(b)) => a.bits == *b,
        _ => false,
    }
}

proof fn lemma_choice_index_skip(choices: Seq<ChoiceView>, v: OptionValueView, i: int)
    requires
        0 <= i <= choices.len(),
        forall|j: int| 0 <= j < i ==> !spec_choice_value_matches(choices[j].value, v),
    ensures
        spec_choice_index(choices, v) == match spec_choice_index(choices.skip(i), v) {
            None => None::<int>,
            Some(k) => Some(k + i),
        },
    decreases i,
{
    if i == 0 {
        assert(choices.skip(0) =~= choices);
    } else {
        assert(choices.skip(1) =~= choices.drop_first());
        lemma_choice_index_skip(choices.drop_first(), v, i - 1);
        assert(choices.drop_first().skip(i - 1) =~= choices.skip(i));
    }
}

/// Maps a raw primitive to a declared choice by exact value match: returns
/// the index of the first choice whose value equals the raw value, and
/// `WrongOptionType` exactly when no choice matches.
pub fn choice_index(choices: &Vec<Choice>, value: &OptionValue) -> (r: Result<usize, Error>)
    ensures
        match r {
            Ok(i) => spec_choice_index(choices.deep_view(), value.deep_view()) == Some(i as int),
            Err(e) => spec_choice_index(choices.deep_view(), value.deep_view()) is None && e
                == Error::WrongOptionType,
        },
{
    let n = choices.len();
    for i in 0..n
        invariant
            n == choices@.len(),
            forall|j: int|
                0 <= j < i ==> !spec_choice_value_matches(
                    choices.deep_view()[j].value,
                    value.deep_view(),
                ),
    {
        if choice_value_matches(&choices[i].value, value) {
            proof {
                lemma_choice_index_skip(choices.deep_view(), value.deep_view(), i as int);
                assert(choices.deep_view().skip(i as int)[0] == choices.deep_view()[i as int]);
                assert(choices.deep_view().skip(i as int).len() > 0);
            }
            return Ok(i);
        }
    }
    proof {
        lemma_choice_index_skip(choices.deep_view(), value.deep_view(), n as int);
        assert(choices.deep_view().skip(n as int).len() == 0);
    }
    Err(Error::WrongOptionType)
}

/// Coercion exactness: for every target type, a raw value whose tag
/// matches yields exactly the carried value, and a raw value of any other
/// tag yields `WrongOptionType`.
pub proof fn lemma_coercion_exactness(v: OptionValueView)
    ensures
        v matches OptionValueView::Str(s) ==> String::spec_from_option(v) == Ok::<Seq<char>, Error>(
            s,
        ),
        !(v is Str) ==> String::spec_from_option(v) == Err::<Seq<char>, Error>(
            Error::WrongOptionType,
        ),
        v matches OptionValueView::Int(i) ==> i64::spec_from_option(v) == Ok::<i64, Error>(i),
        !(v is Int) ==> i64::spec_from_option(v) == Err::<i64, Error>(Error::WrongOptionType),
        v matches OptionValueView::Boolean(b) ==> bool::spec_from_option(v) == Ok::<bool, Error>(b),
        !(v is Boolean) ==> bool::spec_from_option(v) == Err::<bool, Error>(Error::WrongOptionType),
        v matches OptionValueView::Number(bits) ==> FloatBits::spec_from_option(v) == Ok::<
            u64,
            Error,
        >(bits),
        !(v is Number) ==> FloatBits::spec_from_option(v) == Err::<u64, Error>(
            Error::WrongOptionType,
        ),
        v matches OptionValueView::User(id) ==> UserId::spec_from_option(v) == Ok::<u64, Error>(id),
        !(v is User) ==> UserId::spec_from_option(v) == Err::<u64, Error>(Error::WrongOptionType),
        v matches OptionValueView::Channel(id) ==> ChannelId::spec_from_option(v) == Ok::<
            u64,
            Error,
        >(id),
        !(v is Channel) ==> ChannelId::spec_from_option(v) == Err::<u64, Error>(
            Error::WrongOptionType,
        ),
        v matches OptionValueView::Role(id) ==> RoleId::spec_from_option(v) == Ok::<u64, Error>(id),
        !(v is Role) ==> RoleId::spec_from_option(v) == Err::<u64, Error>(Error::WrongOptionType),
        v matches OptionValueView::Mentionable(id) ==> MentionableId::spec_from_option(v) == Ok::<
            u64,
            Error,
        >(id),
        !(v is Mentionable) ==> MentionableId::spec_from_option(v) == Err::<u64, Error>(
            Error::WrongOptionType,
        ),
        v matches OptionValueView::Attachment(id) ==> AttachmentId::spec_from_option(v) == Ok::<
            u64,
            Error,
        >(id),
        !(v is Attachment) ==> AttachmentId::spec_from_option(v) == Err::<u64, Error>(
            Error::WrongOptionType,
        ),
{
}

/// Option lookup characterization: the lookup misses exactly when no
/// option carries the name, and a hit returns the value of the first
/// option that does.
pub proof fn lemma_find_option_characterizes(opts: Seq<InteractionOptionView>, name: Seq<char>)
    ensures
        spec_find_option(opts, name) is None <==> (forall|j: int|
            0 <= j < opts.len() ==> opts[j].name != name),
        spec_find_option(opts, name) matches Some(v) ==> exists|j: int|
            0 <= j < opts.len() && opts[j].name == name && opts[j].value == v && (forall|k: int|
                0 <= k < j ==> opts[k].name != name),
    decreases opts.len(),
{
    if opts.len() > 0 {
        if opts[0].name == name {
        } else {
            lemma_find_option_characterizes(opts.drop_first(), name);
            assert(forall|k: int| 1 <= k < opts.len() ==> opts[k] == opts.drop_first()[k - 1]);
            match spec_find_option(opts, name) {
                Some(v) => {
                    let j = choose|j: int|
                        0 <= j < opts.drop_first().len() && opts.drop_first()[j].name == name
                            && opts.drop_first()[j].value == v && (forall|k: int|
                            0 <= k < j ==> opts.drop_first()[k].name != name);
                    assert(opts[j + 1].name == name && opts[j + 1].value == v);
                    assert(forall|k: int| 0 <= k < j + 1 ==> opts[k].name != name) by {
                        assert(forall|k: int|
                            1 <= k < j + 1 ==> opts[k] == opts.drop_first()[k - 1]);
                    }
                },
                None => {},
            }
        }
    }
}

/// Choice membership: a hit names the first choice whose declared value
/// equals the raw value exactly; a miss means no declared choice matches.
pub proof fn lemma_choice_membership(choices: Seq<ChoiceView>, v: OptionValueView)
    ensures
        spec_choice_index(choices, v) matches Some(i) ==> 0 <= i < choices.len()
            && spec_choice_value_matches(choices[i].value, v) && (forall|j: int|
            0 <= j < i ==> !spec_choice_value_matches(choices[j].value, v)),
        spec_choice_index(choices, v) is None ==> (forall|j: int|
            0 <= j < choices.len() ==> !spec_choice_value_matches(choices[j].value, v)),
    decreases choices.len(),
{
    if choices.len() > 0 {
        if spec_choice_value_matches(choices[0].value, v) {
        } else {
            lemma_choice_membership(choices.drop_first(), v);
            match spec_choice_index(choices.drop_first(), v) {
                Some(i) => {
                    assert(forall|j: int|
                        1 <= j < i + 1 ==> choices[j] == choices.drop_first()[j - 1]);
                    assert(choices[i + 1] == choices.drop_first()[i]);
                },
                None => {
                    assert(forall|j: int|
                        1 <= j < choices.len() ==> choices[j] == choices.drop_first()[j - 1]);
                },
            }
        }
    }
}

} // verus!
