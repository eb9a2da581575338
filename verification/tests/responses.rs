use edgecord::response::{
    InteractionResponse, InteractionResponseBuilder, InteractionResponseData,
    InteractionResponseType,
};

#[test]
fn test_builder() {
    let response = InteractionResponseBuilder::new()
        .content("abc")
        .build(InteractionResponseType::ChannelMessageWithSource);
    assert_eq!(
        response,
        InteractionResponse {
            kind: InteractionResponseType::ChannelMessageWithSource,
            data: Some(InteractionResponseData {
                content: Some("abc".to_string()),
                flags: None,
            })
        }
    )
}

#[test]
fn builder_flags_accumulate() {
    let response = InteractionResponseBuilder::new()
        .flag(1 << 6)
        .flag(1 << 2)
        .content("quiet")
        .build(InteractionResponseType::ChannelMessageWithSource);
    assert_eq!(
        response,
        InteractionResponse {
            kind: InteractionResponseType::ChannelMessageWithSource,
            data: Some(InteractionResponseData {
                content: Some("quiet".to_string()),
                flags: Some((1 << 6) | (1 << 2)),
            })
        }
    )
}

#[test]
fn builder_empty_content_is_omitted() {
    let response =
        InteractionResponseBuilder::new().build(InteractionResponseType::DeferredChannelMessageWithSource);
    assert_eq!(
        response,
        InteractionResponse {
            kind: InteractionResponseType::DeferredChannelMessageWithSource,
            data: Some(InteractionResponseData {
                content: None,
                flags: None,
            })
        }
    );
    assert_eq!(response.to_json_string(), "{\"type\":5,\"data\":{}}");
}

#[test]
fn pong_response_json() {
    let pong = InteractionResponse::pong();
    assert_eq!(pong.to_json_string(), "{\"type\":1}");
}

#[test]
fn message_response_json() {
    let response = InteractionResponseBuilder::new()
        .content("this is help message!")
        .build(InteractionResponseType::ChannelMessageWithSource);
    assert_eq!(
        response.to_json_string(),
        "{\"type\":4,\"data\":{\"content\":\"this is help message!\"}}"
    );
}

#[test]
fn response_json_with_flags() {
    let response = InteractionResponseBuilder::new()
        .content("secret")
        .flag(64)
        .build(InteractionResponseType::ChannelMessageWithSource);
    assert_eq!(
        response.to_json_string(),
        "{\"type\":4,\"data\":{\"content\":\"secret\",\"flags\":64}}"
    );
    let flags_only = InteractionResponseBuilder::new()
        .flag(64)
        .build(InteractionResponseType::ChannelMessageWithSource);
    assert_eq!(
        flags_only.to_json_string(),
        "{\"type\":4,\"data\":{\"flags\":64}}"
    );
}
