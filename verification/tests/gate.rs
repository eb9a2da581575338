use ed25519_dalek::{ExpandedSecretKey, PublicKey, SecretKey};
use edgecord::builder::CommandHandlerBuilder;
use edgecord::error::Error;
use edgecord::handler::InteractionHandler;

fn keypair(seed: u8) -> (SecretKey, PublicKey) {
    let bytes = [seed; 32];
    let secret = SecretKey::from_bytes(&bytes).unwrap();
    let public = PublicKey::from(&secret);
    (secret, public)
}

fn sign(secret: &SecretKey, public: &PublicKey, timestamp: &str, body: &[u8]) -> String {
    let expanded = ExpandedSecretKey::from(secret);
    let mut message = timestamp.as_bytes().to_vec();
    message.extend_from_slice(body);
    let signature = expanded.sign(&message, public);
    hex::encode(signature.to_bytes())
}

fn handler_for(public: &PublicKey) -> InteractionHandler {
    CommandHandlerBuilder::new()
        .public_key(&hex::encode(public.as_bytes()))
        .token("token")
        .build()
        .unwrap()
}

#[test]
fn signed_request_verifies() {
    let (secret, public) = keypair(7);
    let handler = handler_for(&public);
    let body = b"{\"type\":1}";
    let timestamp = "1670000000";
    let signature = sign(&secret, &public, timestamp, body);
    assert_eq!(
        handler.verify(Some(&signature), Some(timestamp), body),
        Ok(())
    );
}

#[test]
fn tampered_body_fails() {
    let (secret, public) = keypair(7);
    let handler = handler_for(&public);
    let timestamp = "1670000000";
    let signature = sign(&secret, &public, timestamp, b"{\"type\":1}");
    assert_eq!(
        handler.verify(Some(&signature), Some(timestamp), b"{\"type\":2}"),
        Err(Error::AuthenticationFailed)
    );
}

#[test]
fn tampered_timestamp_fails() {
    let (secret, public) = keypair(7);
    let handler = handler_for(&public);
    let body = b"{\"type\":1}";
    let signature = sign(&secret, &public, "1670000000", body);
    assert_eq!(
        handler.verify(Some(&signature), Some("1670000001"), body),
        Err(Error::AuthenticationFailed)
    );
}

#[test]
fn tampered_signature_fails() {
    let (secret, public) = keypair(7);
    let handler = handler_for(&public);
    let body = b"{\"type\":1}";
    let timestamp = "1670000000";
    let mut signature = sign(&secret, &public, timestamp, body).into_bytes();
    // flip one hex digit
    signature[0] = if signature[0] == b'0' { b'1' } else { b'0' };
    let signature = String::from_utf8(signature).unwrap();
    assert_eq!(
        handler.verify(Some(&signature), Some(timestamp), body),
        Err(Error::AuthenticationFailed)
    );
}

#[test]
fn wrong_key_fails() {
    let (secret, public) = keypair(7);
    let (_, other_public) = keypair(9);
    let handler = handler_for(&other_public);
    let body = b"{\"type\":1}";
    let timestamp = "1670000000";
    let signature = sign(&secret, &public, timestamp, body);
    assert_eq!(
        handler.verify(Some(&signature), Some(timestamp), body),
        Err(Error::AuthenticationFailed)
    );
}

#[test]
fn missing_headers_fail() {
    let (secret, public) = keypair(7);
    let handler = handler_for(&public);
    let body = b"{\"type\":1}";
    let timestamp = "1670000000";
    let signature = sign(&secret, &public, timestamp, body);
    assert_eq!(
        handler.verify(None, Some(timestamp), body),
        Err(Error::AuthenticationFailed)
    );
    assert_eq!(
        handler.verify(Some(&signature), None, body),
        Err(Error::AuthenticationFailed)
    );
    assert_eq!(
        handler.verify(Some("zz not hex"), Some(timestamp), body),
        Err(Error::AuthenticationFailed)
    );
    assert_eq!(
        handler.verify(Some("abcd"), Some(timestamp), body),
        Err(Error::AuthenticationFailed)
    );
}

#[test]
fn build_rejects_bad_keys() {
    match CommandHandlerBuilder::new().build() {
        Err(Error::ConfigurationError) => (),
        other => panic!("expected a configuration error, got {:?}", other),
    }
    match CommandHandlerBuilder::new().public_key("abc").build() {
        Err(Error::ConfigurationError) => (),
        other => panic!("expected a configuration error, got {:?}", other),
    }
    match CommandHandlerBuilder::new().public_key("not hex at all!").build() {
        Err(Error::ConfigurationError) => (),
        other => panic!("expected a configuration error, got {:?}", other),
    }
    // valid hex, but only four bytes of it
    match CommandHandlerBuilder::new().public_key("deadbeef").build() {
        Err(Error::ConfigurationError) => (),
        other => panic!("expected a configuration error, got {:?}", other),
    }
}

#[test]
fn build_defaults_token_and_application_id() {
    let (_, public) = keypair(3);
    let handler = CommandHandlerBuilder::new()
        .public_key(&hex::encode(public.as_bytes()))
        .build()
        .unwrap();
    assert_eq!(handler.token, "");
    assert_eq!(handler.application_id, "");
    assert_eq!(handler.public_key, public.as_bytes().to_vec());
}

#[test]
fn error_messages() {
    assert_eq!(
        Error::AuthenticationFailed.message(),
        "interaction verification failed"
    );
    assert_eq!(Error::CommandNotFound.message(), "command not found");
    assert_eq!(
        Error::WrongOptionType.message(),
        "wrong option type was passed"
    );
    assert_eq!(Error::MissingOption.message(), "required option is missing");
    assert_eq!(
        Error::ConfigurationError.message(),
        "invalid handler configuration"
    );
    assert_eq!(
        Error::JsonValueError.message(),
        "parsing json value is out of i64 or u64"
    );
    assert_eq!(
        Error::Forbidden.message(),
        "Bot don't have permission for the operation"
    );
    assert_eq!(Error::NotFound.message(), "The Endpoint is not found");
    assert_eq!(Error::HttpError.message(), "An Http Exception is raised");
}
