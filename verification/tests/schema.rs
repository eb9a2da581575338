use edgecord::i18n::Locales;
use edgecord::error::Error;
use edgecord::http::{status_error, status_outcome, CommandUploader, StatusOutcome};
use edgecord::model::validate_option;
use edgecord::model::{
    Choice, ChoiceValue, Command, CommandGroup, CommandOption, CommandType, FloatLit, OptionType,
    RangeValue, SubCommand, SubCommandGroup,
};

fn bare_command(name: &str, description: &str) -> Command {
    Command {
        command_type: CommandType::ChatInput,
        name: name.to_string(),
        description: description.to_string(),
        i18n_names: None,
        i18n_descriptions: None,
        default_permissions: None,
        options: Vec::new(),
        action: 0,
    }
}

#[test]
fn command_json_omits_absent_fields() {
    let cmd = bare_command("help", "show help");
    assert_eq!(
        cmd.to_json_string(),
        "{\"type\":1,\"name\":\"help\",\"description\":\"show help\",\"options\":[]}"
    );
}

#[test]
fn command_json_emits_present_fields() {
    let mut cmd = bare_command("greet", "say hi");
    cmd.i18n_names = Some(vec![
        (Locales::Ja, "aisatsu".to_string()),
        (Locales::EnGB, "greet".to_string()),
    ]);
    cmd.default_permissions = Some(8);
    assert_eq!(
        cmd.to_json_string(),
        "{\"type\":1,\"name\":\"greet\",\"description\":\"say hi\",\
         \"name_localizations\":{\"ja\":\"aisatsu\",\"en-GB\":\"greet\"},\
         \"default_member_permissions\":8,\"options\":[]}"
    );
}

fn bare_option(name: &str, description: &str, option_type: OptionType, required: bool) -> CommandOption {
    CommandOption {
        option_type,
        name: name.to_string(),
        description: description.to_string(),
        i18n_names: None,
        i18n_descriptions: None,
        choices: Vec::new(),
        required,
        min_value: None,
        max_value: None,
        channel_types: None,
    }
}

#[test]
fn option_json_omits_empty_choices() {
    let opt = bare_option("count", "how many", OptionType::Int, true);
    assert_eq!(
        opt.to_json_string(),
        "{\"type\":4,\"name\":\"count\",\"description\":\"how many\",\"required\":true}"
    );
}

#[test]
fn option_json_with_choices_and_bounds() {
    let mut opt = bare_option("animal", "pick one", OptionType::Int, false);
    opt.choices = vec![
        Choice {
            name: "Dog".to_string(),
            i18n_names: None,
            value: ChoiceValue::Int(12),
        },
        Choice {
            name: "Cat".to_string(),
            i18n_names: None,
            value: ChoiceValue::Int(36),
        },
    ];
    opt.min_value = Some(RangeValue::Int(-5));
    opt.max_value = Some(RangeValue::Float(FloatLit {
        bits: 99.5f64.to_bits(),
        text: "99.5".to_string(),
    }));
    assert_eq!(
        opt.to_json_string(),
        "{\"type\":4,\"name\":\"animal\",\"description\":\"pick one\",\
         \"choices\":[\
         {\"name\":\"Dog\",\"name_localizations\":null,\"value\":12},\
         {\"name\":\"Cat\",\"name_localizations\":null,\"value\":36}\
         ],\"required\":false,\"min_value\":-5,\"max_value\":99.5}"
    );
}

#[test]
fn option_json_channel_types() {
    let mut opt = bare_option("where", "which channel", OptionType::Channel, true);
    opt.channel_types = Some(vec![0, 2]);
    assert_eq!(
        opt.to_json_string(),
        "{\"type\":7,\"name\":\"where\",\"description\":\"which channel\",\
         \"required\":true,\"channel_types\":[0,2]}"
    );
}

#[test]
fn string_choice_json_is_quoted() {
    let choice = Choice {
        name: "First".to_string(),
        i18n_names: Some(vec![(Locales::Fr, "premier".to_string())]),
        value: ChoiceValue::Str("one \"two\"".to_string()),
    };
    assert_eq!(
        choice.to_json_string(),
        "{\"name\":\"First\",\"name_localizations\":{\"fr\":\"premier\"},\
         \"value\":\"one \\\"two\\\"\"}"
    );
}

#[test]
fn json_escaping_of_control_characters() {
    let cmd = bare_command("x", "a\\b\"c\nd\re\tf\u{1}g");
    assert_eq!(
        cmd.to_json_string(),
        "{\"type\":1,\"name\":\"x\",\
         \"description\":\"a\\\\b\\\"c\\nd\\re\\tf\\u0001g\",\"options\":[]}"
    );
}

#[test]
fn group_json_nests_two_levels() {
    let leaf_x = bare_command("x", "run x");
    let leaf_y = bare_command("y", "run y");
    let group = CommandGroup {
        name: "tool".to_string(),
        i18n_names: None,
        description: "tools".to_string(),
        i18n_descriptions: None,
        default_permissions: None,
        commands: vec![
            SubCommand::Command(leaf_y),
            SubCommand::Group(SubCommandGroup {
                name: "sub".to_string(),
                i18n_names: None,
                description: "nested".to_string(),
                i18n_descriptions: None,
                commands: vec![leaf_x],
            }),
        ],
    };
    assert_eq!(
        group.to_json_string(),
        "{\"type\":1,\"name\":\"tool\",\"description\":\"tools\",\"options\":[\
         {\"type\":1,\"name\":\"y\",\"description\":\"run y\",\"options\":[]},\
         {\"type\":2,\"name\":\"sub\",\"description\":\"nested\",\"options\":[\
         {\"type\":1,\"name\":\"x\",\"description\":\"run x\",\"options\":[]}\
         ]}]}"
    );
}

#[test]
fn uploader_body_and_urls() {
    let uploader = CommandUploader::new("tok", "123")
        .register_command(bare_command("a", "first"))
        .register_command(bare_command("b", "second"));
    assert_eq!(
        uploader.make_body(),
        "[{\"type\":1,\"name\":\"a\",\"description\":\"first\",\"options\":[]},\
         {\"type\":1,\"name\":\"b\",\"description\":\"second\",\"options\":[]}]"
    );
    assert_eq!(
        uploader.upload_url(),
        "https://discord.com/api/v10/applications/123/commands"
    );
    let guild = CommandUploader::new("tok", "123").guild_id(456);
    assert_eq!(
        guild.upload_url(),
        "https://discord.com/api/v10/applications/123/guilds/456/commands"
    );
    assert_eq!(guild.make_body(), "[]");
}

#[test]
fn status_outcomes() {
    assert_eq!(status_outcome(204), StatusOutcome::NoContent);
    assert_eq!(status_outcome(200), StatusOutcome::Success);
    assert_eq!(status_outcome(398), StatusOutcome::Success);
    assert_eq!(status_outcome(403), StatusOutcome::Forbidden);
    assert_eq!(status_outcome(404), StatusOutcome::NotFound);
    assert_eq!(status_outcome(500), StatusOutcome::Failure);
    assert_eq!(status_outcome(399), StatusOutcome::Failure);
}

#[test]
fn status_errors() {
    assert_eq!(status_error(StatusOutcome::NoContent), None);
    assert_eq!(status_error(StatusOutcome::Success), None);
    assert_eq!(status_error(StatusOutcome::Forbidden), Some(Error::Forbidden));
    assert_eq!(status_error(StatusOutcome::NotFound), Some(Error::NotFound));
    assert_eq!(status_error(StatusOutcome::Failure), Some(Error::HttpError));
}

#[test]
fn option_description_limits() {
    let ok = bare_option("a", "fine", OptionType::Str, true);
    assert!(validate_option(&ok));
    let empty = bare_option("a", "", OptionType::Str, true);
    assert!(!validate_option(&empty));
    let long = bare_option("a", &"d".repeat(101), OptionType::Str, true);
    assert!(!validate_option(&long));
    let at_limit = bare_option("a", &"d".repeat(100), OptionType::Str, true);
    assert!(validate_option(&at_limit));
}

#[test]
fn client_rest_urls() {
    let client = edgecord::http::HttpClient::new("tok", "42");
    assert_eq!(
        client.guild_url(99),
        "https://discord.com/api/v10/guilds/99"
    );
    assert_eq!(
        client.followup_url("itoken"),
        "https://discord.com/api/v10/webhooks/42/itoken"
    );
}
