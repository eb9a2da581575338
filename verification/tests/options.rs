use edgecord::coercion::{
    choice_index, get_option, get_optional_option, AttachmentId, ChannelId, FloatBits,
    FromCommandOptionValue, MentionableId, RoleId, UserId,
};
use edgecord::error::Error;
use edgecord::interaction::{InteractionOption, OptionValue};
use edgecord::model::{Choice, ChoiceValue};

#[test]
fn test_string() {
    assert_eq!(
        &String::from_option(OptionValue::Str("avc".to_string())).unwrap(),
        "avc"
    )
}

#[test]
fn option_test_string() {
    assert_eq!(
        &String::from_option(OptionValue::Str("avc".to_string())).unwrap(),
        "avc"
    )
}

#[test]
fn coercion_matching_tags() {
    assert_eq!(i64::from_option(OptionValue::Int(42)), Ok(42i64));
    assert_eq!(bool::from_option(OptionValue::Boolean(true)), Ok(true));
    let bits = 1.5f64.to_bits();
    assert_eq!(
        FloatBits::from_option(OptionValue::Number(bits)),
        Ok(FloatBits(bits))
    );
    assert_eq!(UserId::from_option(OptionValue::User(7)), Ok(UserId(7)));
    assert_eq!(
        ChannelId::from_option(OptionValue::Channel(8)),
        Ok(ChannelId(8))
    );
    assert_eq!(RoleId::from_option(OptionValue::Role(9)), Ok(RoleId(9)));
    assert_eq!(
        MentionableId::from_option(OptionValue::Mentionable(10)),
        Ok(MentionableId(10))
    );
    assert_eq!(
        AttachmentId::from_option(OptionValue::Attachment(11)),
        Ok(AttachmentId(11))
    );
}

#[test]
fn coercion_wrong_tags() {
    assert_eq!(
        String::from_option(OptionValue::Int(42)),
        Err(Error::WrongOptionType)
    );
    assert_eq!(
        i64::from_option(OptionValue::Str("42".to_string())),
        Err(Error::WrongOptionType)
    );
    assert_eq!(
        bool::from_option(OptionValue::Int(1)),
        Err(Error::WrongOptionType)
    );
    assert_eq!(
        FloatBits::from_option(OptionValue::Int(1)),
        Err(Error::WrongOptionType)
    );
    assert_eq!(
        UserId::from_option(OptionValue::Channel(7)),
        Err(Error::WrongOptionType)
    );
}

fn named(name: &str, value: OptionValue) -> InteractionOption {
    InteractionOption {
        name: name.to_string(),
        value,
    }
}

#[test]
fn get_option_binds_by_name() {
    let options = vec![
        named("count", OptionValue::Int(3)),
        named("text", OptionValue::Str("hi".to_string())),
    ];
    assert_eq!(get_option::<i64>(&options, "count"), Ok(3));
    assert_eq!(get_option::<String>(&options, "text"), Ok("hi".to_string()));
    assert_eq!(
        get_option::<i64>(&options, "text"),
        Err(Error::WrongOptionType)
    );
    assert_eq!(
        get_option::<i64>(&options, "missing"),
        Err(Error::MissingOption)
    );
}

#[test]
fn optional_option_absent_is_none() {
    let options = vec![named("count", OptionValue::Int(3))];
    assert_eq!(get_optional_option::<i64>(&options, "count"), Ok(Some(3)));
    assert_eq!(get_optional_option::<i64>(&options, "missing"), Ok(None));
    assert_eq!(
        get_optional_option::<String>(&options, "count"),
        Err(Error::WrongOptionType)
    );
}

fn int_choice(name: &str, value: i64) -> Choice {
    Choice {
        name: name.to_string(),
        i18n_names: None,
        value: ChoiceValue::Int(value),
    }
}

#[test]
fn choice_membership_accepts_exact_value() {
    let choices = vec![int_choice("Dog", 12), int_choice("Cat", 36)];
    assert_eq!(choice_index(&choices, &OptionValue::Int(12)), Ok(0));
    assert_eq!(choice_index(&choices, &OptionValue::Int(36)), Ok(1));
}

#[test]
fn choice_membership_rejects_unknown_value() {
    let choices = vec![int_choice("Dog", 12), int_choice("Cat", 36)];
    assert_eq!(
        choice_index(&choices, &OptionValue::Int(13)),
        Err(Error::WrongOptionType)
    );
    assert_eq!(
        choice_index(&choices, &OptionValue::Str("12".to_string())),
        Err(Error::WrongOptionType)
    );
}

#[test]
fn choice_membership_string_and_float() {
    let choices = vec![
        Choice {
            name: "First".to_string(),
            i18n_names: None,
            value: ChoiceValue::Str("one".to_string()),
        },
        Choice {
            name: "Half".to_string(),
            i18n_names: None,
            value: ChoiceValue::Float(edgecord::model::FloatLit {
                bits: 0.5f64.to_bits(),
                text: "0.5".to_string(),
            }),
        },
    ];
    assert_eq!(
        choice_index(&choices, &OptionValue::Str("one".to_string())),
        Ok(0)
    );
    assert_eq!(
        choice_index(&choices, &OptionValue::Number(0.5f64.to_bits())),
        Ok(1)
    );
    assert_eq!(
        choice_index(&choices, &OptionValue::Number(0.25f64.to_bits())),
        Err(Error::WrongOptionType)
    );
}

#[test]
fn option_type_tags() {
    assert_eq!(<String as FromCommandOptionValue>::get_option_type().tag(), 3);
    assert_eq!(<i64 as FromCommandOptionValue>::get_option_type().tag(), 4);
    assert_eq!(<bool as FromCommandOptionValue>::get_option_type().tag(), 5);
    assert_eq!(<UserId as FromCommandOptionValue>::get_option_type().tag(), 6);
    assert_eq!(
        <ChannelId as FromCommandOptionValue>::get_option_type().tag(),
        7
    );
    assert_eq!(<RoleId as FromCommandOptionValue>::get_option_type().tag(), 8);
    assert_eq!(
        <MentionableId as FromCommandOptionValue>::get_option_type().tag(),
        9
    );
    assert_eq!(
        <FloatBits as FromCommandOptionValue>::get_option_type().tag(),
        10
    );
    assert_eq!(
        <AttachmentId as FromCommandOptionValue>::get_option_type().tag(),
        11
    );
    assert!(!<String as FromCommandOptionValue>::has_choices());
    assert!(<String as FromCommandOptionValue>::choices().is_empty());
}
