use ed25519_dalek::{ExpandedSecretKey, PublicKey, SecretKey};
use edgecord::builder::CommandHandlerBuilder;
use edgecord::error::Error;
use edgecord::handler::{DispatchAction, InteractionHandler};
use edgecord::interaction::{ApplicationCommand, Interaction, InteractionOption, OptionValue};
use edgecord::model::{Command, CommandGroup, CommandType, SubCommand, SubCommandGroup};
use edgecord::response::{InteractionResponse, InteractionResponseBuilder, InteractionResponseType};
use edgecord::context::ChatInputCommandContext;
use edgecord::http::HttpClient;
use edgecord::i18n::Locales;

fn command(name: &str, action: u64) -> Command {
    Command {
        command_type: CommandType::ChatInput,
        name: name.to_string(),
        description: format!("{} description", name),
        i18n_names: None,
        i18n_descriptions: None,
        default_permissions: None,
        options: Vec::new(),
        action,
    }
}

fn subgroup(name: &str, commands: Vec<Command>) -> SubCommandGroup {
    SubCommandGroup {
        name: name.to_string(),
        i18n_names: None,
        description: format!("{} description", name),
        i18n_descriptions: None,
        commands,
    }
}

fn invocation(name: &str, options: Vec<InteractionOption>) -> ApplicationCommand {
    ApplicationCommand {
        name: name.to_string(),
        locale: "en-US".to_string(),
        options,
    }
}

fn sub_option(name: &str, value: OptionValue) -> InteractionOption {
    InteractionOption {
        name: name.to_string(),
        value,
    }
}

fn test_handler(commands: Vec<Command>, groups: Vec<CommandGroup>) -> InteractionHandler {
    let secret = SecretKey::from_bytes(&[5u8; 32]).unwrap();
    let public = PublicKey::from(&secret);
    let mut builder = CommandHandlerBuilder::new().public_key(&hex::encode(public.as_bytes()));
    for c in commands {
        builder = builder.command(c);
    }
    for g in groups {
        builder = builder.group(g);
    }
    builder.build().unwrap()
}

#[test]
fn nested_resolution_picks_the_named_leaf() {
    let group = CommandGroup {
        name: "tool".to_string(),
        i18n_names: None,
        description: "tools".to_string(),
        i18n_descriptions: None,
        default_permissions: None,
        commands: vec![
            SubCommand::Group(subgroup("alpha", vec![command("x", 1)])),
            SubCommand::Group(subgroup("beta", vec![command("y", 2)])),
        ],
    };
    let handler = test_handler(vec![], vec![group]);

    let carried = vec![sub_option("arg", OptionValue::Int(5))];
    let data = invocation(
        "tool",
        vec![sub_option(
            "alpha",
            OptionValue::SubCommandGroup(vec![sub_option(
                "x",
                OptionValue::SubCommand(carried.clone()),
            )]),
        )],
    );
    let (resolved, options) = handler.get_command(&data).unwrap();
    assert_eq!(resolved.name, "x");
    assert_eq!(resolved.action, 1);
    assert_eq!(options, carried);

    // the other subgroup's leaf is reachable only under its own name
    let data_beta = invocation(
        "tool",
        vec![sub_option(
            "beta",
            OptionValue::SubCommandGroup(vec![sub_option(
                "y",
                OptionValue::SubCommand(vec![]),
            )]),
        )],
    );
    let (resolved, _) = handler.get_command(&data_beta).unwrap();
    assert_eq!(resolved.name, "y");
    assert_eq!(resolved.action, 2);

    // naming a leaf that the named subgroup does not contain resolves nothing
    let data_wrong = invocation(
        "tool",
        vec![sub_option(
            "alpha",
            OptionValue::SubCommandGroup(vec![sub_option(
                "y",
                OptionValue::SubCommand(vec![]),
            )]),
        )],
    );
    assert!(handler.get_command(&data_wrong).is_none());
}

#[test]
fn direct_subcommand_resolution() {
    let group = CommandGroup {
        name: "tool".to_string(),
        i18n_names: None,
        description: "tools".to_string(),
        i18n_descriptions: None,
        default_permissions: None,
        commands: vec![SubCommand::Command(command("run", 9))],
    };
    let handler = test_handler(vec![], vec![group]);
    let carried = vec![sub_option("speed", OptionValue::Int(3))];
    let data = invocation(
        "tool",
        vec![sub_option("run", OptionValue::SubCommand(carried.clone()))],
    );
    let (resolved, options) = handler.get_command(&data).unwrap();
    assert_eq!(resolved.action, 9);
    assert_eq!(options, carried);
}

#[test]
fn plain_command_resolution_and_miss() {
    let handler = test_handler(vec![command("help", 4), command("help", 5)], vec![]);
    let opts = vec![sub_option("topic", OptionValue::Str("all".to_string()))];
    let data = invocation("help", opts.clone());
    let (resolved, options) = handler.get_command(&data).unwrap();
    // first-match wins among duplicate names
    assert_eq!(resolved.action, 4);
    assert_eq!(options, opts);
    assert!(handler.get_command(&invocation("absent", vec![])).is_none());
}

#[test]
fn ping_dispatches_to_pong() {
    let handler = test_handler(vec![command("help", 4)], vec![]);
    let action = handler.handle_interaction(&Interaction::Ping);
    assert_eq!(action, DispatchAction::Pong);
    assert_eq!(InteractionResponse::pong().to_json_string(), "{\"type\":1}");
    assert_eq!(
        handler.handle_interaction(&Interaction::Other),
        DispatchAction::Ignore
    );
}

#[test]
fn signed_ping_round_trip() {
    // the full inbound pass: verify the signed request, then dispatch
    let secret = SecretKey::from_bytes(&[5u8; 32]).unwrap();
    let public = PublicKey::from(&secret);
    let handler = test_handler(vec![], vec![]);
    let body = b"{\"type\":1}";
    let timestamp = "1670000000";
    let expanded = ExpandedSecretKey::from(&secret);
    let mut message = timestamp.as_bytes().to_vec();
    message.extend_from_slice(body);
    let signature = hex::encode(expanded.sign(&message, &public).to_bytes());

    assert_eq!(handler.verify(Some(&signature), Some(timestamp), body), Ok(()));
    let action = handler.handle_interaction(&Interaction::Ping);
    assert_eq!(action, DispatchAction::Pong);
    assert_eq!(InteractionResponse::pong().to_json_string(), "{\"type\":1}");
}

#[test]
fn signed_command_invokes_help_handler() {
    let secret = SecretKey::from_bytes(&[5u8; 32]).unwrap();
    let public = PublicKey::from(&secret);
    let handler = test_handler(vec![command("help", 4)], vec![]);
    let body = b"{\"type\":2,\"data\":{\"name\":\"help\"}}";
    let timestamp = "1670000000";
    let expanded = ExpandedSecretKey::from(&secret);
    let mut message = timestamp.as_bytes().to_vec();
    message.extend_from_slice(body);
    let signature = hex::encode(expanded.sign(&message, &public).to_bytes());
    assert_eq!(handler.verify(Some(&signature), Some(timestamp), body), Ok(()));

    let interaction = Interaction::ApplicationCommand(invocation("help", vec![]));
    let mut invoked = 0u32;
    let response = match handler.handle_interaction(&interaction) {
        DispatchAction::Invoke(cmd, _options) => {
            assert_eq!(cmd.action, 4);
            invoked += 1;
            // what the registered handler would produce
            InteractionResponseBuilder::new()
                .content("this is help message!")
                .build(InteractionResponseType::ChannelMessageWithSource)
        }
        other => panic!("expected an invocation, got {:?}", other),
    };
    assert_eq!(invoked, 1);
    assert_eq!(
        response.to_json_string(),
        "{\"type\":4,\"data\":{\"content\":\"this is help message!\"}}"
    );
}

#[test]
fn tampered_request_never_reaches_a_handler() {
    let secret = SecretKey::from_bytes(&[5u8; 32]).unwrap();
    let public = PublicKey::from(&secret);
    let handler = test_handler(vec![command("help", 4)], vec![]);
    let body = b"{\"type\":2,\"data\":{\"name\":\"help\"}}";
    let timestamp = "1670000000";
    let expanded = ExpandedSecretKey::from(&secret);
    let mut message = timestamp.as_bytes().to_vec();
    message.extend_from_slice(body);
    let mut signature = hex::encode(expanded.sign(&message, &public).to_bytes()).into_bytes();
    signature[3] = if signature[3] == b'a' { b'b' } else { b'a' };
    let signature = String::from_utf8(signature).unwrap();

    let mut invoked = 0u32;
    match handler.verify(Some(&signature), Some(timestamp), body) {
        Ok(()) => {
            // only a verified request may be decoded and dispatched
            let interaction = Interaction::ApplicationCommand(invocation("help", vec![]));
            if let DispatchAction::Invoke(_, _) = handler.handle_interaction(&interaction) {
                invoked += 1;
            }
        }
        Err(e) => assert_eq!(e, Error::AuthenticationFailed),
    }
    assert_eq!(invoked, 0);
}

#[test]
fn unresolvable_command_is_not_found() {
    let handler = test_handler(vec![command("help", 4)], vec![]);
    let interaction = Interaction::ApplicationCommand(invocation("unknown", vec![]));
    assert_eq!(
        handler.handle_interaction(&interaction),
        DispatchAction::NotFound
    );
}

#[test]
fn context_locale_parsing() {
    let http = HttpClient::new("token", "123");
    assert_eq!(http.token, "Bot token");
    let ctx = ChatInputCommandContext::new(invocation("help", vec![]), http.clone());
    assert_eq!(ctx.locale, Locales::EnUS);
    let mut ja = invocation("help", vec![]);
    ja.locale = "ja".to_string();
    let ctx = ChatInputCommandContext::new(ja, http.clone());
    assert_eq!(ctx.locale, Locales::Ja);
    let mut odd = invocation("help", vec![]);
    odd.locale = "tlh".to_string();
    let ctx = ChatInputCommandContext::new(odd, http);
    assert_eq!(ctx.locale, Locales::EnUS);
}

#[test]
fn context_get_option() {
    let data = invocation(
        "greet",
        vec![sub_option("who", OptionValue::Str("world".to_string()))],
    );
    let who: String = ChatInputCommandContext::get_option(&data, "who").unwrap();
    assert_eq!(who, "world");
    let missing: Result<i64, Error> = ChatInputCommandContext::get_option(&data, "count");
    assert_eq!(missing, Err(Error::MissingOption));
}

#[test]
fn context_message_builds_channel_response() {
    let http = HttpClient::new("token", "1");
    let ctx = ChatInputCommandContext::new(invocation("help", vec![]), http);
    let response = ctx.message(|b| b.content("abc"));
    assert_eq!(
        response.to_json_string(),
        "{\"type\":4,\"data\":{\"content\":\"abc\"}}"
    );
}
