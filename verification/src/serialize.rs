//! Serialization of the command model into its wire JSON schema.
//!
//! Each emitter's contract pins the exact character sequence produced, key
//! by key: a command serializes as `{type, name, description,
//! name_localizations?, description_localizations?,
//! default_member_permissions?, options}`, an option as `{type, name,
//! description, name_localizations?, description_localizations?, choices?,
//! required, min_value?, max_value?, channel_types?}`, and a command group
//! as a command whose options are subcommand and subcommand-group entries.
//! An absent optional field never emits its key; an absent choice
//! localization map is written as `null`, as a choice always carries that
//! key.

use vstd::prelude::*;
use vstd::string::StringExecFns;
use crate::i18n::Locales;
use crate::json::{append_escaped, spec_json_str};
use crate::model::{
    Choice, ChoiceValue, ChoiceValueView, ChoiceView, Command, CommandGroup, CommandGroupView,
    CommandOption, CommandOptionView, CommandView, I18nMap, I18nMapView, RangeValue,
    RangeValueView, SubCommand, SubCommandGroup, SubCommandGroupView, SubCommandView,
};
use crate::text::{i64_dec, spec_i64_dec, spec_u64_dec, u64_dec};

verus! {

/// One localization entry: the quoted locale code, a colon, the quoted
/// localized text.
pub open spec fn spec_i18n_entry_json(e: (Locales, Seq<char>)) -> Seq<char> {
    e.0.spec_json() + ":"@ + spec_json_str(e.1)
}

/// The comma-separated localization entries, in declaration order.
pub open spec fn spec_i18n_entries_json(m: Seq<(Locales, Seq<char>)>) -> Seq<char>
    decreases m.len(),
{
    if m.len() == 0 {
        Seq::empty()
    } else if m.len() == 1 {
        spec_i18n_entry_json(m[0])
    } else {
        spec_i18n_entries_json(m.drop_last()) + ","@ + spec_i18n_entry_json(m.last())
    }
}

/// A localization map as a JSON object.
pub open spec fn spec_i18n_map_json(m: Seq<(Locales, Seq<char>)>) -> Seq<char> {
    "{"@ + spec_i18n_entries_json(m) + "}"@
}

/// An optional localization field: nothing when absent, otherwise a comma,
/// the quoted key, a colon, and the map.
pub open spec fn spec_i18n_field_json(key: Seq<char>, m: I18nMapView) -> Seq<char> {
    match m {
        None => Seq::empty(),
        Some(entries) => ",\""@ + key + "\":"@ + spec_i18n_map_json(entries),
    }
}

/// A choice value: a JSON string, a decimal integer, or the float's
/// decimal text.
pub open spec fn spec_choice_value_json(v: ChoiceValueView) -> Seq<char> {
    match v {
        ChoiceValueView::Str(s) => spec_json_str(s),
        ChoiceValueView::Int(i) => spec_i64_dec(i as int),
        ChoiceValueView::Float(f) => f.text,
    }
}

/// One choice: name, its localization map (`null` when absent), and the
/// value.
pub open spec fn spec_choice_json(c: ChoiceView) -> Seq<char> {
    "{\"name\":"@ + spec_json_str(c.name) + ",\"name_localizations\":"@ + (match c.i18n_names {
        None => "null"@,
        Some(entries) => spec_i18n_map_json(entries),
    }) + ",\"value\":"@ + spec_choice_value_json(c.value) + "}"@
}

/// The comma-separated choice objects, in declaration order.
pub open spec fn spec_choices_json(cs: Seq<ChoiceView>) -> Seq<char>
    decreases cs.len(),
{
    if cs.len() == 0 {
        Seq::empty()
    } else if cs.len() == 1 {
        spec_choice_json(cs[0])
    } else {
        spec_choices_json(cs.drop_last()) + ","@ + spec_choice_json(cs.last())
    }
}

/// A numeric bound: a decimal integer or the float's decimal text.
pub open spec fn spec_range_value_json(v: RangeValueView) -> Seq<char> {
    match v {
        RangeValueView::Int(i) => spec_i64_dec(i as int),
        RangeValueView::Float(f) => f.text,
    }
}

/// The comma-separated channel type tags.
pub open spec fn spec_channel_types_json(ts: Seq<u64>) -> Seq<char>
    decreases ts.len(),
{
    if ts.len() == 0 {
        Seq::empty()
    } else if ts.len() == 1 {
        spec_u64_dec(ts[0] as nat)
    } else {
        spec_channel_types_json(ts.drop_last()) + ","@ + spec_u64_dec(ts.last() as nat)
    }
}

/// One command option, with its optional fields omitted when absent:
/// `choices` only when non-empty, bounds and channel types only when set.
pub open spec fn spec_option_json(o: CommandOptionView) -> Seq<char> {
    "{\"type\":"@ + spec_u64_dec(o.option_type.spec_tag() as nat) + ",\"name\":"@ + spec_json_str(
        o.name,
    ) + ",\"description\":"@ + spec_json_str(o.description) + spec_i18n_field_json(
        "name_localizations"@,
        o.i18n_names,
    ) + spec_i18n_field_json("description_localizations"@, o.i18n_descriptions) + (if o.choices.len()
        == 0 {
        Seq::<char>::empty()
    } else {
        ",\"choices\":["@ + spec_choices_json(o.choices) + "]"@
    }) + ",\"required\":"@ + (if o.required {
        "true"@
    } else {
        "false"@
    }) + (match o.min_value {
        None => Seq::<char>::empty(),
        Some(v) => ",\"min_value\":"@ + spec_range_value_json(v),
    }) + (match o.max_value {
        None => Seq::<char>::empty(),
        Some(v) => ",\"max_value\":"@ + spec_range_value_json(v),
    }) + (match o.channel_types {
        None => Seq::<char>::empty(),
        Some(ts) => ",\"channel_types\":["@ + spec_channel_types_json(ts) + "]"@,
    }) + "}"@
}

/// The comma-separated option objects, in declaration order.
pub open spec fn spec_options_json(os: Seq<CommandOptionView>) -> Seq<char>
    decreases os.len(),
{
    if os.len() == 0 {
        Seq::empty()
    } else if os.len() == 1 {
        spec_option_json(os[0])
    } else {
        spec_options_json(os.drop_last()) + ","@ + spec_option_json(os.last())
    }
}

/// A top-level command.
pub open spec fn spec_command_json(c: CommandView) -> Seq<char> {
    "{\"type\":"@ + spec_u64_dec(c.command_type.spec_tag() as nat) + ",\"name\":"@ + spec_json_str(
        c.name,
    ) + ",\"description\":"@ + spec_json_str(c.description) + spec_i18n_field_json(
        "name_localizations"@,
        c.i18n_names,
    ) + spec_i18n_field_json("description_localizations"@, c.i18n_descriptions) + (match c.default_permissions {
        None => Seq::<char>::empty(),
        Some(p) => ",\"default_member_permissions\":"@ + spec_u64_dec(p as nat),
    }) + ",\"options\":["@ + spec_options_json(c.options) + "]"@ + "}"@
}

/// A command written as a subcommand entry of a group: option type tag 1,
/// then the command's own fields.
pub open spec fn spec_command_as_subcommand_json(c: CommandView) -> Seq<char> {
    "{\"type\":"@ + spec_u64_dec(1) + ",\"name\":"@ + spec_json_str(c.name) + ",\"description\":"@
        + spec_json_str(c.description) + spec_i18n_field_json("name_localizations"@, c.i18n_names)
        + spec_i18n_field_json("description_localizations"@, c.i18n_descriptions)
        + ",\"options\":["@ + spec_options_json(c.options) + "]"@ + "}"@
}

/// The comma-separated subcommand entries of a nested group.
pub open spec fn spec_group_commands_json(cs: Seq<CommandView>) -> Seq<char>
    decreases cs.len(),
{
    if cs.len() == 0 {
        Seq::empty()
    } else if cs.len() == 1 {
        spec_command_as_subcommand_json(cs[0])
    } else {
        spec_group_commands_json(cs.drop_last()) + ","@ + spec_command_as_subcommand_json(cs.last())
    }
}

/// A nested group written as a subcommand-group entry: option type tag 2,
/// its fields, and its leaf commands as subcommand entries.
pub open spec fn spec_subgroup_json(g: SubCommandGroupView) -> Seq<char> {
    "{\"type\":"@ + spec_u64_dec(2) + ",\"name\":"@ + spec_json_str(g.name) + ",\"description\":"@
        + spec_json_str(g.description) + spec_i18n_field_json("name_localizations"@, g.i18n_names)
        + spec_i18n_field_json("description_localizations"@, g.i18n_descriptions)
        + ",\"options\":["@ + spec_group_commands_json(g.commands) + "]"@ + "}"@
}

/// One child of a top-level group, as a subcommand or subcommand-group
/// entry.
pub open spec fn spec_subcommand_json(s: SubCommandView) -> Seq<char> {
    match s {
        SubCommandView::Command(c) => spec_command_as_subcommand_json(c),
        SubCommandView::Group(g) => spec_subgroup_json(g),
    }
}

/// The comma-separated children of a top-level group.
pub open spec fn spec_subcommands_json(ss: Seq<SubCommandView>) -> Seq<char>
    decreases ss.len(),
{
    if ss.len() == 0 {
        Seq::empty()
    } else if ss.len() == 1 {
        spec_subcommand_json(ss[0])
    } else {
        spec_subcommands_json(ss.drop_last()) + ","@ + spec_subcommand_json(ss.last())
    }
}

/// A top-level command group, serialized as a chat-input command whose
/// options are its subcommand and subcommand-group entries.
pub open spec fn spec_group_json(g: CommandGroupView) -> Seq<char> {
    "{\"type\":"@ + spec_u64_dec(1) + ",\"name\":"@ + spec_json_str(g.name) + ",\"description\":"@
        + spec_json_str(g.description) + spec_i18n_field_json("name_localizations"@, g.i18n_names)
        + spec_i18n_field_json("description_localizations"@, g.i18n_descriptions) + (
    match g.default_permissions {
        None => Seq::<char>::empty(),
        Some(p) => ",\"default_member_permissions\":"@ + spec_u64_dec(p as nat),
    }) + ",\"options\":["@ + spec_subcommands_json(g.commands) + "]"@ + "}"@
}

/// The JSON array of serialized commands that a bulk command upload sends.
pub open spec fn spec_commands_body_json(cs: Seq<CommandView>) -> Seq<char> {
    "["@ + spec_commands_items_json(cs) + "]"@
}

/// The comma-separated top-level command objects.
pub open spec fn spec_commands_items_json(cs: Seq<CommandView>) -> Seq<char>
    decreases cs.len(),
{
    if cs.len() == 0 {
        Seq::empty()
    } else if cs.len() == 1 {
        spec_command_json(cs[0])
    } else {
        spec_commands_items_json(cs.drop_last()) + ","@ + spec_command_json(cs.last())
    }
}

proof fn lemma_assoc(a: Seq<char>, b: Seq<char>, c: Seq<char>)
    ensures
        a + b + c == a + (b + c),
{
    assert(a + b + c =~= a + (b + c));
}

fn append_json_str(out: &mut String, s: &str)
    ensures
        final(out)@ == old(out)@ + spec_json_str(s@),
{
    out.push('"');
    append_escaped(out, s);
    out.push('"');
    proof {
        assert(out@ =~= old(out)@ + spec_json_str(s@));
    }
}

fn append_u64(out: &mut String, n: u64)
    ensures
        final(out)@ == old(out)@ + spec_u64_dec(n as nat),
{
    let d = u64_dec(n);
    out.append(d.as_str());
}

fn append_i64(out: &mut String, n: i64)
    ensures
        final(out)@ == old(out)@ + spec_i64_dec(n as int),
{
    let d = i64_dec(n);
    out.append(d.as_str());
}

fn append_i18n_map(out: &mut String, entries: &Vec<(Locales, String)>)
    ensures
        final(out)@ == old(out)@ + spec_i18n_map_json(entries.deep_view()),
{
    let ghost dv = entries.deep_view();
    out.append("{");
    let ghost mut acc: Seq<char> = "{"@;
    proof {
        assert(spec_i18n_entries_json(dv.take(0)) =~= Seq::<char>::empty());
        assert(acc + spec_i18n_entries_json(dv.take(0)) =~= acc);
    }
    let n = entries.len();
    for i in 0..n
        invariant
            n == entries@.len(),
            dv == entries.deep_view(),
            dv.len() == n,
            acc == "{"@,
            out@ == old(out)@ + (acc + spec_i18n_entries_json(dv.take(i as int))),
    {
        let ghost pre = acc + spec_i18n_entries_json(dv.take(i as int));
        if i > 0 {
            out.append(",");
            proof {
                lemma_assoc(old(out)@, pre, ","@);
            }
        }
        let code = entries[i].0.to_json_string();
        out.append(code.as_str());
        out.append(":");
        append_json_str(out, entries[i].1.as_str());
        proof {
            assert(dv.take(i + 1).drop_last() =~= dv.take(i as int));
            assert(dv.take(i + 1).last() == dv[i as int]);
            assert(dv[i as int] == (entries@[i as int].0, entries@[i as int].1@));
            let entry = spec_i18n_entry_json(dv[i as int]);
            if i == 0 {
                assert(spec_i18n_entries_json(dv.take(1)) == entry);
                assert(out@ =~= old(out)@ + (acc + spec_i18n_entries_json(dv.take(i + 1))));
            } else {
                assert(spec_i18n_entries_json(dv.take(i + 1)) == spec_i18n_entries_json(
                    dv.take(i as int),
                ) + ","@ + entry);
                assert(out@ =~= old(out)@ + (acc + spec_i18n_entries_json(dv.take(i + 1))));
            }
        }
    }
    out.append("}");
    proof {
        assert(dv.take(n as int) =~= dv);
        assert(out@ =~= old(out)@ + spec_i18n_map_json(dv));
    }
}

fn append_i18n_field(out: &mut String, key: &str, m: &I18nMap)
    ensures
        final(out)@ == old(out)@ + spec_i18n_field_json(key@, m.deep_view()),
{
    match m {
        None => (),
        Some(entries) => {
            out.append(",\"");
            out.append(key);
            let ghost mut acc: Seq<char> = ",\""@ + key@;
            proof {
                assert(out@ =~= old(out)@ + acc);
            }
            out.append("\":");
            proof {
                lemma_assoc(old(out)@, acc, "\":"@);
                acc = acc + "\":"@;
            }
            append_i18n_map(out, entries);
            proof {
                lemma_assoc(old(out)@, acc, spec_i18n_map_json(entries.deep_view()));
                acc = acc + spec_i18n_map_json(entries.deep_view());
                assert(acc == spec_i18n_field_json(key@, m.deep_view()));
            }
        },
    }
}

fn append_choice_value(out: &mut String, v: &ChoiceValue)
    ensures
        final(out)@ == old(out)@ + spec_choice_value_json(v.deep_view()),
{
    match v {
        ChoiceValue::Str(s) => append_json_str(out, s.as_str()),
        ChoiceValue::Int(i) => append_i64(out, *i),
        ChoiceValue::Float(f) => out.append(f.text.as_str()),
    }
}

fn append_choice(out: &mut String, c: &Choice)
    ensures
        final(out)@ == old(out)@ + spec_choice_json(c.deep_view()),
{
    out.append("{\"name\":");
    let ghost mut acc: Seq<char> = "{\"name\":"@;
    append_json_str(out, c.name.as_str());
    proof {
        lemma_assoc(old(out)@, acc, spec_json_str(c.name@));
        acc = acc + spec_json_str(c.name@);
    }
    out.append(",\"name_localizations\":");
    proof {
        lemma_assoc(old(out)@, acc, ",\"name_localizations\":"@);
        acc = acc + ",\"name_localizations\":"@;
    }
    match &c.i18n_names {
        None => {
            out.append("null");
            proof {
                lemma_assoc(old(out)@, acc, "null"@);
                acc = acc + "null"@;
            }
        },
        Some(entries) => {
            append_i18n_map(out, entries);
            proof {
                lemma_assoc(old(out)@, acc, spec_i18n_map_json(entries.deep_view()));
                acc = acc + spec_i18n_map_json(entries.deep_view());
            }
        },
    }
    out.append(",\"value\":");
    proof {
        lemma_assoc(old(out)@, acc, ",\"value\":"@);
        acc = acc + ",\"value\":"@;
    }
    append_choice_value(out, &c.value);
    proof {
        lemma_assoc(old(out)@, acc, spec_choice_value_json(c.value.deep_view()));
        acc = acc + spec_choice_value_json(c.value.deep_view());
    }
    out.append("}");
    proof {
        lemma_assoc(old(out)@, acc, "}"@);
        acc = acc + "}"@;
        assert(acc == spec_choice_json(c.deep_view()));
    }
}

fn append_choices(out: &mut String, cs: &Vec<Choice>)
    ensures
        final(out)@ == old(out)@ + spec_choices_json(cs.deep_view()),
{
    let ghost dv = cs.deep_view();
    proof {
        assert(spec_choices_json(dv.take(0)) =~= Seq::<char>::empty());
        assert(out@ + spec_choices_json(dv.take(0)) =~= out@);
    }
    let n = cs.len();
    for i in 0..n
        invariant
            n == cs@.len(),
            dv == cs.deep_view(),
            dv.len() == n,
            out@ == old(out)@ + spec_choices_json(dv.take(i as int)),
    {
        let ghost pre = spec_choices_json(dv.take(i as int));
        if i > 0 {
            out.append(",");
            proof {
                lemma_assoc(old(out)@, pre, ","@);
            }
        }
        append_choice(out, &cs[i]);
        proof {
            assert(dv.take(i + 1).drop_last() =~= dv.take(i as int));
            assert(dv.take(i + 1).last() == dv[i as int]);
            let item = spec_choice_json(dv[i as int]);
            if i == 0 {
                assert(spec_choices_json(dv.take(1)) == item);
            } else {
                assert(spec_choices_json(dv.take(i + 1)) == pre + ","@ + item);
                lemma_assoc(old(out)@, pre + ","@, item);
            }
        }
    }
    proof {
        assert(dv.take(n as int) =~= dv);
    }
}

fn append_range_value(out: &mut String, v: &RangeValue)
    ensures
        final(out)@ == old(out)@ + spec_range_value_json(v.deep_view()),
{
    match v {
        RangeValue::Int(i) => append_i64(out, *i),
        RangeValue::Float(f) => out.append(f.text.as_str()),
    }
}

fn append_channel_types(out: &mut String, ts: &Vec<u64>)
    ensures
        final(out)@ == old(out)@ + spec_channel_types_json(ts.deep_view()),
{
    let ghost dv = ts.deep_view();
    proof {
        assert(spec_channel_types_json(dv.take(0)) =~= Seq::<char>::empty());
        assert(out@ + spec_channel_types_json(dv.take(0)) =~= out@);
    }
    let n = ts.len();
    for i in 0..n
        invariant
            n == ts@.len(),
            dv == ts.deep_view(),
            dv.len() == n,
            out@ == old(out)@ + spec_channel_types_json(dv.take(i as int)),
    {
        let ghost pre = spec_channel_types_json(dv.take(i as int));
        if i > 0 {
            out.append(",");
            proof {
                lemma_assoc(old(out)@, pre, ","@);
            }
        }
        append_u64(out, ts[i]);
        proof {
            assert(dv.take(i + 1).drop_last() =~= dv.take(i as int));
            assert(dv.take(i + 1).last() == dv[i as int]);
            let item = spec_u64_dec(dv[i as int] as nat);
            if i == 0 {
                assert(spec_channel_types_json(dv.take(1)) == item);
            } else {
                assert(spec_channel_types_json(dv.take(i + 1)) == pre + ","@ + item);
                lemma_assoc(old(out)@, pre + ","@, item);
            }
        }
    }
    proof {
        assert(dv.take(n as int) =~= dv);
    }
}

fn append_option(out: &mut String, o: &CommandOption)
    ensures
        final(out)@ == old(out)@ + spec_option_json(o.deep_view()),
{
    out.append("{\"type\":");
    let ghost mut acc: Seq<char> = "{\"type\":"@;
    append_u64(out, o.option_type.tag());
    proof {
        lemma_assoc(old(out)@, acc, spec_u64_dec(o.option_type.spec_tag() as nat));
        acc = acc + spec_u64_dec(o.option_type.spec_tag() as nat);
    }
    out.append(",\"name\":");
    proof {
        lemma_assoc(old(out)@, acc, ",\"name\":"@);
        acc = acc + ",\"name\":"@;
    }
    append_json_str(out, o.name.as_str());
    proof {
        lemma_assoc(old(out)@, acc, spec_json_str(o.name@));
        acc = acc + spec_json_str(o.name@);
    }
    out.append(",\"description\":");
    proof {
        lemma_assoc(old(out)@, acc, ",\"description\":"@);
        acc = acc + ",\"description\":"@;
    }
    append_json_str(out, o.description.as_str());
    proof {
        lemma_assoc(old(out)@, acc, spec_json_str(o.description@));
        acc = acc + spec_json_str(o.description@);
    }
    append_i18n_field(out, "name_localizations", &o.i18n_names);
    proof {
        lemma_assoc(
            old(out)@,
            acc,
            spec_i18n_field_json("name_localizations"@, o.i18n_names.deep_view()),
        );
        acc = acc + spec_i18n_field_json("name_localizations"@, o.i18n_names.deep_view());
    }
    append_i18n_field(out, "description_localizations", &o.i18n_descriptions);
    proof {
        lemma_assoc(
            old(out)@,
            acc,
            spec_i18n_field_json("description_localizations"@, o.i18n_descriptions.deep_view()),
        );
        acc = acc + spec_i18n_field_json(
            "description_localizations"@,
            o.i18n_descriptions.deep_view(),
        );
    }
    if o.choices.len() > 0 {
        out.append(",\"choices\":[");
        proof {
            lemma_assoc(old(out)@, acc, ",\"choices\":["@);
        }
        append_choices(out, &o.choices);
        proof {
            lemma_assoc(old(out)@, acc + ",\"choices\":["@, spec_choices_json(
                o.choices.deep_view(),
            ));
        }
        out.append("]");
        proof {
            lemma_assoc(
                old(out)@,
                acc + ",\"choices\":["@ + spec_choices_json(o.choices.deep_view()),
                "]"@,
            );
            lemma_assoc(acc, ",\"choices\":["@, spec_choices_json(o.choices.deep_view()));
            lemma_assoc(
                acc,
                ",\"choices\":["@ + spec_choices_json(o.choices.deep_view()),
                "]"@,
            );
            assert(o.deep_view().choices.len() == o.choices@.len());
            acc = acc + (",\"choices\":["@ + spec_choices_json(o.choices.deep_view()) + "]"@);
            assert(out@ =~= old(out)@ + acc);
        }
    } else {
        proof {
            assert(o.deep_view().choices.len() == o.choices@.len());
            assert(acc + Seq::<char>::empty() =~= acc);
        }
    }
    out.append(",\"required\":");
    proof {
        lemma_assoc(old(out)@, acc, ",\"required\":"@);
        acc = acc + ",\"required\":"@;
    }
    if o.required {
        out.append("true");
        proof {
            lemma_assoc(old(out)@, acc, "true"@);
            acc = acc + "true"@;
        }
    } else {
        out.append("false");
        proof {
            lemma_assoc(old(out)@, acc, "false"@);
            acc = acc + "false"@;
        }
    }
    match &o.min_value {
        None => {
            proof {
                assert(acc + Seq::<char>::empty() =~= acc);
            }
        },
        Some(v) => {
            out.append(",\"min_value\":");
            proof {
                lemma_assoc(old(out)@, acc, ",\"min_value\":"@);
            }
            append_range_value(out, v);
            proof {
                lemma_assoc(old(out)@, acc + ",\"min_value\":"@, spec_range_value_json(
                    v.deep_view(),
                ));
                lemma_assoc(acc, ",\"min_value\":"@, spec_range_value_json(v.deep_view()));
                acc = acc + (",\"min_value\":"@ + spec_range_value_json(v.deep_view()));
                assert(out@ =~= old(out)@ + acc);
            }
        },
    }
    match &o.max_value {
        None => {
            proof {
                assert(acc + Seq::<char>::empty() =~= acc);
            }
        },
        Some(v) => {
            out.append(",\"max_value\":");
            proof {
                lemma_assoc(old(out)@, acc, ",\"max_value\":"@);
            }
            append_range_value(out, v);
            proof {
                lemma_assoc(old(out)@, acc + ",\"max_value\":"@, spec_range_value_json(
                    v.deep_view(),
                ));
                lemma_assoc(acc, ",\"max_value\":"@, spec_range_value_json(v.deep_view()));
                acc = acc + (",\"max_value\":"@ + spec_range_value_json(v.deep_view()));
                assert(out@ =~= old(out)@ + acc);
            }
        },
    }
    match &o.channel_types {
        None => {
            proof {
                assert(acc + Seq::<char>::empty() =~= acc);
            }
        },
        Some(ts) => {
            out.append(",\"channel_types\":[");
            proof {
                lemma_assoc(old(out)@, acc, ",\"channel_types\":["@);
            }
            append_channel_types(out, ts);
            proof {
                lemma_assoc(old(out)@, acc + ",\"channel_types\":["@, spec_channel_types_json(
                    ts.deep_view(),
                ));
            }
            out.append("]");
            proof {
                lemma_assoc(
                    old(out)@,
                    acc + ",\"channel_types\":["@ + spec_channel_types_json(ts.deep_view()),
                    "]"@,
                );
                lemma_assoc(acc, ",\"channel_types\":["@, spec_channel_types_json(ts.deep_view()));
                lemma_assoc(
                    acc,
                    ",\"channel_types\":["@ + spec_channel_types_json(ts.deep_view()),
                    "]"@,
                );
                acc = acc + (",\"channel_types\":["@ + spec_channel_types_json(ts.deep_view())
                    + "]"@);
                assert(out@ =~= old(out)@ + acc);
            }
        },
    }
    out.append("}");
    proof {
        lemma_assoc(old(out)@, acc, "}"@);
        acc = acc + "}"@;
        assert(acc == spec_option_json(o.deep_view()));
    }
}

fn append_options(out: &mut String, os: &Vec<CommandOption>)
    ensures
        final(out)@ == old(out)@ + spec_options_json(os.deep_view()),
{
    let ghost dv = os.deep_view();
    proof {
        assert(spec_options_json(dv.take(0)) =~= Seq::<char>::empty());
        assert(out@ + spec_options_json(dv.take(0)) =~= out@);
    }
    let n = os.len();
    for i in 0..n
        invariant
            n == os@.len(),
            dv == os.deep_view(),
            dv.len() == n,
            out@ == old(out)@ + spec_options_json(dv.take(i as int)),
    {
        let ghost pre = spec_options_json(dv.take(i as int));
        if i > 0 {
            out.append(",");
            proof {
                lemma_assoc(old(out)@, pre, ","@);
            }
        }
        append_option(out, &os[i]);
        proof {
            assert(dv.take(i + 1).drop_last() =~= dv.take(i as int));
            assert(dv.take(i + 1).last() == dv[i as int]);
            let item = spec_option_json(dv[i as int]);
            if i == 0 {
                assert(spec_options_json(dv.take(1)) == item);
            } else {
                assert(spec_options_json(dv.take(i + 1)) == pre + ","@ + item);
                lemma_assoc(old(out)@, pre + ","@, item);
            }
        }
    }
    proof {
        assert(dv.take(n as int) =~= dv);
    }
}

/// Appends the name, description and localization fields shared by the
/// top-level and the subcommand renderings of a command. `start` and
/// `acc0` carry the caller's proof state: the output so far is
/// `start + acc0`.
fn append_command_fields_tail(out: &mut String, c: &Command, start: Ghost<Seq<char>>, acc0: Ghost<Seq<char>>)
    requires
        old(out)@ == start@ + acc0@,
    ensures
        final(out)@ == start@ + (acc0@ + (",\"name\":"@ + spec_json_str(c.name@)
            + ",\"description\":"@ + spec_json_str(c.description@) + spec_i18n_field_json(
            "name_localizations"@,
            c.i18n_names.deep_view(),
        ) + spec_i18n_field_json("description_localizations"@, c.i18n_descriptions.deep_view()))),
{
    let ghost mut acc: Seq<char> = acc0@;
    out.append(",\"name\":");
    proof {
        lemma_assoc(start@, acc, ",\"name\":"@);
        acc = acc + ",\"name\":"@;
    }
    append_json_str(out, c.name.as_str());
    proof {
        lemma_assoc(start@, acc, spec_json_str(c.name@));
        acc = acc + spec_json_str(c.name@);
    }
    out.append(",\"description\":");
    proof {
        lemma_assoc(start@, acc, ",\"description\":"@);
        acc = acc + ",\"description\":"@;
    }
    append_json_str(out, c.description.as_str());
    proof {
        lemma_assoc(start@, acc, spec_json_str(c.description@));
        acc = acc + spec_json_str(c.description@);
    }
    append_i18n_field(out, "name_localizations", &c.i18n_names);
    proof {
        lemma_assoc(start@, acc, spec_i18n_field_json(
            "name_localizations"@,
            c.i18n_names.deep_view(),
        ));
        acc = acc + spec_i18n_field_json("name_localizations"@, c.i18n_names.deep_view());
    }
    append_i18n_field(out, "description_localizations", &c.i18n_descriptions);
    proof {
        lemma_assoc(start@, acc, spec_i18n_field_json(
            "description_localizations"@,
            c.i18n_descriptions.deep_view(),
        ));
        acc = acc + spec_i18n_field_json(
            "description_localizations"@,
            c.i18n_descriptions.deep_view(),
        );
        assert(acc == acc0@ + (",\"name\":"@ + spec_json_str(c.name@) + ",\"description\":"@
            + spec_json_str(c.description@) + spec_i18n_field_json(
            "name_localizations"@,
            c.i18n_names.deep_view(),
        ) + spec_i18n_field_json("description_localizations"@, c.i18n_descriptions.deep_view())))
            by {
            let p1 = ",\"name\":"@ + spec_json_str(c.name@);
            let p2 = p1 + ",\"description\":"@ + spec_json_str(c.description@);
            let p3 = p2 + spec_i18n_field_json("name_localizations"@, c.i18n_names.deep_view());
            let p4 = p3 + spec_i18n_field_json(
                "description_localizations"@,
                c.i18n_descriptions.deep_view(),
            );
            assert(acc =~= acc0@ + p4);
        }
    }
}

fn append_command(out: &mut String, c: &Command)
    ensures
        final(out)@ == old(out)@ + spec_command_json(c.deep_view()),
{
    out.append("{\"type\":");
    let ghost mut acc: Seq<char> = "{\"type\":"@;
    append_u64(out, c.command_type.tag());
    proof {
        lemma_assoc(old(out)@, acc, spec_u64_dec(c.command_type.spec_tag() as nat));
        acc = acc + spec_u64_dec(c.command_type.spec_tag() as nat);
    }
    append_command_fields_tail(out, c, Ghost(old(out)@), Ghost(acc));
    proof {
        acc = acc + (",\"name\":"@ + spec_json_str(c.name@) + ",\"description\":"@ + spec_json_str(
            c.description@,
        ) + spec_i18n_field_json("name_localizations"@, c.i18n_names.deep_view())
            + spec_i18n_field_json(
            "description_localizations"@,
            c.i18n_descriptions.deep_view(),
        ));
        assert(acc == "{\"type\":"@ + spec_u64_dec(c.command_type.spec_tag() as nat) + ",\"name\":"@
            + spec_json_str(c.name@) + ",\"description\":"@ + spec_json_str(c.description@)
            + spec_i18n_field_json("name_localizations"@, c.i18n_names.deep_view())
            + spec_i18n_field_json("description_localizations"@, c.i18n_descriptions.deep_view()))
            by {
            assert(acc =~= "{\"type\":"@ + spec_u64_dec(c.command_type.spec_tag() as nat)
                + ",\"name\":"@ + spec_json_str(c.name@) + ",\"description\":"@ + spec_json_str(
                c.description@,
            ) + spec_i18n_field_json("name_localizations"@, c.i18n_names.deep_view())
                + spec_i18n_field_json(
                "description_localizations"@,
                c.i18n_descriptions.deep_view(),
            ));
        }
    }
    match c.default_permissions {
        None => {
            proof {
                assert(acc + Seq::<char>::empty() =~= acc);
            }
        },
        Some(p) => {
            out.append(",\"default_member_permissions\":");
            proof {
                lemma_assoc(old(out)@, acc, ",\"default_member_permissions\":"@);
            }
            append_u64(out, p);
            proof {
                lemma_assoc(old(out)@, acc + ",\"default_member_permissions\":"@, spec_u64_dec(
                    p as nat,
                ));
                lemma_assoc(acc, ",\"default_member_permissions\":"@, spec_u64_dec(p as nat));
                acc = acc + (",\"default_member_permissions\":"@ + spec_u64_dec(p as nat));
                assert(out@ =~= old(out)@ + acc);
            }
        },
    }
    out.append(",\"options\":[");
    proof {
        lemma_assoc(old(out)@, acc, ",\"options\":["@);
        acc = acc + ",\"options\":["@;
    }
    append_options(out, &c.options);
    proof {
        lemma_assoc(old(out)@, acc, spec_options_json(c.options.deep_view()));
        acc = acc + spec_options_json(c.options.deep_view());
    }
    out.append("]");
    proof {
        lemma_assoc(old(out)@, acc, "]"@);
        acc = acc + "]"@;
    }
    out.append("}");
    proof {
        lemma_assoc(old(out)@, acc, "}"@);
        acc = acc + "}"@;
        assert(acc == spec_command_json(c.deep_view()));
    }
}

fn append_command_as_subcommand(out: &mut String, c: &Command)
    ensures
        final(out)@ == old(out)@ + spec_command_as_subcommand_json(c.deep_view()),
{
    out.append("{\"type\":");
    let ghost mut acc: Seq<char> = "{\"type\":"@;
    append_u64(out, 1);
    proof {
        lemma_assoc(old(out)@, acc, spec_u64_dec(1));
        acc = acc + spec_u64_dec(1);
    }
    append_command_fields_tail(out, c, Ghost(old(out)@), Ghost(acc));
    proof {
        acc = acc + (",\"name\":"@ + spec_json_str(c.name@) + ",\"description\":"@ + spec_json_str(
            c.description@,
        ) + spec_i18n_field_json("name_localizations"@, c.i18n_names.deep_view())
            + spec_i18n_field_json(
            "description_localizations"@,
            c.i18n_descriptions.deep_view(),
        ));
        assert(acc == "{\"type\":"@ + spec_u64_dec(1) + ",\"name\":"@ + spec_json_str(c.name@)
            + ",\"description\":"@ + spec_json_str(c.description@) + spec_i18n_field_json(
            "name_localizations"@,
            c.i18n_names.deep_view(),
        ) + spec_i18n_field_json("description_localizations"@, c.i18n_descriptions.deep_view()))
            by {
            assert(acc =~= "{\"type\":"@ + spec_u64_dec(1) + ",\"name\":"@ + spec_json_str(c.name@)
                + ",\"description\":"@ + spec_json_str(c.description@) + spec_i18n_field_json(
                "name_localizations"@,
                c.i18n_names.deep_view(),
            ) + spec_i18n_field_json(
                "description_localizations"@,
                c.i18n_descriptions.deep_view(),
            ));
        }
    }
    out.append(",\"options\":[");
    proof {
        lemma_assoc(old(out)@, acc, ",\"options\":["@);
        acc = acc + ",\"options\":["@;
    }
    append_options(out, &c.options);
    proof {
        lemma_assoc(old(out)@, acc, spec_options_json(c.options.deep_view()));
        acc = acc + spec_options_json(c.options.deep_view());
    }
    out.append("]");
    proof {
        lemma_assoc(old(out)@, acc, "]"@);
        acc = acc + "]"@;
    }
    out.append("}");
    proof {
        lemma_assoc(old(out)@, acc, "}"@);
        acc = acc + "}"@;
        assert(acc == spec_command_as_subcommand_json(c.deep_view()));
    }
}

fn append_group_commands(out: &mut String, cs: &Vec<Command>)
    ensures
        final(out)@ == old(out)@ + spec_group_commands_json(cs.deep_view()),
{
    let ghost dv = cs.deep_view();
    proof {
        assert(spec_group_commands_json(dv.take(0)) =~= Seq::<char>::empty());
        assert(out@ + spec_group_commands_json(dv.take(0)) =~= out@);
    }
    let n = cs.len();
    for i in 0..n
        invariant
            n == cs@.len(),
            dv == cs.deep_view(),
            dv.len() == n,
            out@ == old(out)@ + spec_group_commands_json(dv.take(i as int)),
    {
        let ghost pre = spec_group_commands_json(dv.take(i as int));
        if i > 0 {
            out.append(",");
            proof {
                lemma_assoc(old(out)@, pre, ","@);
            }
        }
        append_command_as_subcommand(out, &cs[i]);
        proof {
            assert(dv.take(i + 1).drop_last() =~= dv.take(i as int));
            assert(dv.take(i + 1).last() == dv[i as int]);
            let item = spec_command_as_subcommand_json(dv[i as int]);
            if i == 0 {
                assert(spec_group_commands_json(dv.take(1)) == item);
            } else {
                assert(spec_group_commands_json(dv.take(i + 1)) == pre + ","@ + item);
                lemma_assoc(old(out)@, pre + ","@, item);
            }
        }
    }
    proof {
        assert(dv.take(n as int) =~= dv);
    }
}

fn append_subgroup(out: &mut String, g: &SubCommandGroup)
    ensures
        final(out)@ == old(out)@ + spec_subgroup_json(g.deep_view()),
{
    out.append("{\"type\":");
    let ghost mut acc: Seq<char> = "{\"type\":"@;
    append_u64(out, 2);
    proof {
        lemma_assoc(old(out)@, acc, spec_u64_dec(2));
        acc = acc + spec_u64_dec(2);
    }
    out.append(",\"name\":");
    proof {
        lemma_assoc(old(out)@, acc, ",\"name\":"@);
        acc = acc + ",\"name\":"@;
    }
    append_json_str(out, g.name.as_str());
    proof {
        lemma_assoc(old(out)@, acc, spec_json_str(g.name@));
        acc = acc + spec_json_str(g.name@);
    }
    out.append(",\"description\":");
    proof {
        lemma_assoc(old(out)@, acc, ",\"description\":"@);
        acc = acc + ",\"description\":"@;
    }
    append_json_str(out, g.description.as_str());
    proof {
        lemma_assoc(old(out)@, acc, spec_json_str(g.description@));
        acc = acc + spec_json_str(g.description@);
    }
    append_i18n_field(out, "name_localizations", &g.i18n_names);
    proof {
        lemma_assoc(old(out)@, acc, spec_i18n_field_json(
            "name_localizations"@,
            g.i18n_names.deep_view(),
        ));
        acc = acc + spec_i18n_field_json("name_localizations"@, g.i18n_names.deep_view());
    }
    append_i18n_field(out, "description_localizations", &g.i18n_descriptions);
    proof {
        lemma_assoc(old(out)@, acc, spec_i18n_field_json(
            "description_localizations"@,
            g.i18n_descriptions.deep_view(),
        ));
        acc = acc + spec_i18n_field_json(
            "description_localizations"@,
            g.i18n_descriptions.deep_view(),
        );
    }
    out.append(",\"options\":[");
    proof {
        lemma_assoc(old(out)@, acc, ",\"options\":["@);
        acc = acc + ",\"options\":["@;
    }
    append_group_commands(out, &g.commands);
    proof {
        lemma_assoc(old(out)@, acc, spec_group_commands_json(g.commands.deep_view()));
        acc = acc + spec_group_commands_json(g.commands.deep_view());
    }
    out.append("]");
    proof {
        lemma_assoc(old(out)@, acc, "]"@);
        acc = acc + "]"@;
    }
    out.append("}");
    proof {
        lemma_assoc(old(out)@, acc, "}"@);
        acc = acc + "}"@;
        assert(acc == spec_subgroup_json(g.deep_view()));
    }
}

fn append_subcommand(out: &mut String, s: &SubCommand)
    ensures
        final(out)@ == old(out)@ + spec_subcommand_json(s.deep_view()),
{
    match s {
        SubCommand::Command(c) => append_command_as_subcommand(out, c),
        SubCommand::Group(g) => append_subgroup(out, g),
    }
}

fn append_subcommands(out: &mut String, ss: &Vec<SubCommand>)
    ensures
        final(out)@ == old(out)@ + spec_subcommands_json(ss.deep_view()),
{
    let ghost dv = ss.deep_view();
    proof {
        assert(spec_subcommands_json(dv.take(0)) =~= Seq::<char>::empty());
        assert(out@ + spec_subcommands_json(dv.take(0)) =~= out@);
    }
    let n = ss.len();
    for i in 0..n
        invariant
            n == ss@.len(),
            dv == ss.deep_view(),
            dv.len() == n,
            out@ == old(out)@ + spec_subcommands_json(dv.take(i as int)),
    {
        let ghost pre = spec_subcommands_json(dv.take(i as int));
        if i > 0 {
            out.append(",");
            proof {
                lemma_assoc(old(out)@, pre, ","@);
            }
        }
        append_subcommand(out, &ss[i]);
        proof {
            assert(dv.take(i + 1).drop_last() =~= dv.take(i as int));
            assert(dv.take(i + 1).last() == dv[i as int]);
            let item = spec_subcommand_json(dv[i as int]);
            if i == 0 {
                assert(spec_subcommands_json(dv.take(1)) == item);
            } else {
                assert(spec_subcommands_json(dv.take(i + 1)) == pre + ","@ + item);
                lemma_assoc(old(out)@, pre + ","@, item);
            }
        }
    }
    proof {
        assert(dv.take(n as int) =~= dv);
    }
}

impl Command {
    /// Returns the command's wire JSON.
    pub fn to_json_string(&self) -> (r: String)
        ensures
            r@ == spec_command_json(self.deep_view()),
    {
        let mut out = String::new();
        append_command(&mut out, self);
        proof {
            assert(out@ =~= spec_command_json(self.deep_view()));
        }
        out
    }
}

impl CommandGroup {
    /// Returns the group's wire JSON: a chat-input command whose options
    /// are the group's subcommand and subcommand-group entries.
    pub fn to_json_string(&self) -> (r: String)
        ensures
            r@ == spec_group_json(self.deep_view()),
    {
        let mut out = String::new();
        out.append("{\"type\":");
        let ghost mut acc: Seq<char> = "{\"type\":"@;
        proof {
            assert(out@ =~= acc);
        }
        append_u64(&mut out, 1);
        proof {
            acc = acc + spec_u64_dec(1);
        }
        out.append(",\"name\":");
        proof {
            acc = acc + ",\"name\":"@;
        }
        append_json_str(&mut out, self.name.as_str());
        proof {
            acc = acc + spec_json_str(self.name@);
        }
        out.append(",\"description\":");
        proof {
            acc = acc + ",\"description\":"@;
        }
        append_json_str(&mut out, self.description.as_str());
        proof {
            acc = acc + spec_json_str(self.description@);
        }
        append_i18n_field(&mut out, "name_localizations", &self.i18n_names);
        proof {
            acc = acc + spec_i18n_field_json("name_localizations"@, self.i18n_names.deep_view());
        }
        append_i18n_field(&mut out, "description_localizations", &self.i18n_descriptions);
        proof {
            acc = acc + spec_i18n_field_json(
                "description_localizations"@,
                self.i18n_descriptions.deep_view(),
            );
        }
        match self.default_permissions {
            None => {
                proof {
                    assert(acc + Seq::<char>::empty() =~= acc);
                }
            },
            Some(p) => {
                out.append(",\"default_member_permissions\":");
                append_u64(&mut out, p);
                proof {
                    acc = acc + (",\"default_member_permissions\":"@ + spec_u64_dec(p as nat));
                }
            },
        }
        out.append(",\"options\":[");
        proof {
            acc = acc + ",\"options\":["@;
        }
        append_subcommands(&mut out, &self.commands);
        proof {
            acc = acc + spec_subcommands_json(self.commands.deep_view());
        }
        out.append("]");
        out.append("}");
        proof {
            acc = acc + "]"@ + "}"@;
            assert(out@ =~= acc);
            assert(acc =~= spec_group_json(self.deep_view()));
        }
        out
    }
}

impl Choice {
    /// Returns the choice's wire JSON.
    pub fn to_json_string(&self) -> (r: String)
        ensures
            r@ == spec_choice_json(self.deep_view()),
    {
        let mut out = String::new();
        append_choice(&mut out, self);
        proof {
            assert(out@ =~= spec_choice_json(self.deep_view()));
        }
        out
    }
}

impl CommandOption {
    /// Returns the option's wire JSON.
    pub fn to_json_string(&self) -> (r: String)
        ensures
            r@ == spec_option_json(self.deep_view()),
    {
        let mut out = String::new();
        append_option(&mut out, self);
        proof {
            assert(out@ =~= spec_option_json(self.deep_view()));
        }
        out
    }
}

/// Renders the JSON array of commands for a bulk upload.
pub fn commands_body_json(cs: &Vec<Command>) -> (r: String)
    ensures
        r@ == spec_commands_body_json(cs.deep_view()),
{
    let ghost dv = cs.deep_view();
    let mut out = String::new();
    out.append("[");
    proof {
        assert(spec_commands_items_json(dv.take(0)) =~= Seq::<char>::empty());
        assert(out@ =~= "["@ + spec_commands_items_json(dv.take(0)));
    }
    let n = cs.len();
    for i in 0..n
        invariant
            n == cs@.len(),
            dv == cs.deep_view(),
            dv.len() == n,
            out@ == "["@ + spec_commands_items_json(dv.take(i as int)),
    {
        let ghost pre = spec_commands_items_json(dv.take(i as int));
        if i > 0 {
            out.append(",");
            proof {
                lemma_assoc("["@, pre, ","@);
            }
        }
        append_command(&mut out, &cs[i]);
        proof {
            assert(dv.take(i + 1).drop_last() =~= dv.take(i as int));
            assert(dv.take(i + 1).last() == dv[i as int]);
            let item = spec_command_json(dv[i as int]);
            if i == 0 {
                assert(spec_commands_items_json(dv.take(1)) == item);
            } else {
                assert(spec_commands_items_json(dv.take(i + 1)) == pre + ","@ + item);
                lemma_assoc("["@, pre + ","@, item);
            }
        }
    }
    out.append("]");
    proof {
        assert(dv.take(n as int) =~= dv);
        assert(out@ =~= spec_commands_body_json(dv));
    }
    out
}

} // verus!
