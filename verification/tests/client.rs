use zugzug::{Client, ClientConfig, InvalidText, NativeCall, TextField};

fn config(auth: &str, publish: &str, subscribe: &str, uuid: &str) -> ClientConfig {
    ClientConfig {
        auth_key: auth.to_string(),
        publish_key: publish.to_string(),
        subscribe_key: subscribe.to_string(),
        client_uuid: uuid.to_string(),
    }
}

fn demo_client() -> Client {
    Client::new(config("auth", "pub-c-1", "sub-c-1", "uuid-7")).expect("valid credentials")
}

#[test]
fn new_accepts_credentials_without_terminator() {
    assert!(Client::new(config("auth", "pub", "sub", "uuid")).is_ok());
    assert!(Client::new(config("", "", "", "")).is_ok());
}

#[test]
fn new_refuses_each_credential_with_terminator() {
    assert_eq!(
        Client::new(config("au\0th", "pub", "sub", "uuid")).unwrap_err(),
        InvalidText { field: TextField::AuthKey, position: 2 }
    );
    assert_eq!(
        Client::new(config("auth", "\0pub", "sub", "uuid")).unwrap_err(),
        InvalidText { field: TextField::PublishKey, position: 0 }
    );
    assert_eq!(
        Client::new(config("auth", "pub", "sub\0", "uuid")).unwrap_err(),
        InvalidText { field: TextField::SubscribeKey, position: 3 }
    );
    assert_eq!(
        Client::new(config("auth", "pub", "sub", "u\0\0")).unwrap_err(),
        InvalidText { field: TextField::ClientUuid, position: 1 }
    );
}

#[test]
fn new_reports_first_bad_credential_in_field_order() {
    assert_eq!(
        Client::new(config("auth", "p\0", "\0", "\0")).unwrap_err(),
        InvalidText { field: TextField::PublishKey, position: 1 }
    );
}

#[test]
fn clients_compare_by_credentials() {
    let a = demo_client();
    let b = demo_client();
    assert_eq!(a, b);
    assert_eq!(a, a.clone());
    let c = Client::new(config("auth", "pub-c-1", "sub-c-1", "uuid-8")).expect("valid");
    assert_ne!(a, c);
    assert!(a < c);
}

#[test]
fn subscribe_binds_texts_and_starts_at_once() {
    let client = demo_client();
    let start = client.subscribe::<String>("demo", "group").expect("valid texts");
    assert_eq!(
        start.calls,
        vec![
            NativeCall::Allocate,
            NativeCall::Initialize,
            NativeCall::SetIdentity,
            NativeCall::SetAuth,
            NativeCall::RegisterSubscribeCallback,
            NativeCall::Subscribe,
        ]
    );
    let config = start.subscription.config();
    assert_eq!(config.auth_key(), "auth");
    assert_eq!(config.publish_key(), "pub-c-1");
    assert_eq!(config.subscribe_key(), "sub-c-1");
    assert_eq!(config.client_uuid(), "uuid-7");
    assert_eq!(config.channel(), "demo");
    assert_eq!(config.group(), "group");
    assert_eq!(start.callback_state.channel(), "demo");
    assert!(!start.subscription.is_released());
}

#[test]
fn subscribe_refuses_terminator_in_channel_or_group() {
    let client = demo_client();
    assert_eq!(
        client.subscribe::<String>("de\0mo", "gr\0oup").err(),
        Some(InvalidText { field: TextField::Channel, position: 2 })
    );
    assert_eq!(
        client.subscribe::<String>("demo", "group\0").err(),
        Some(InvalidText { field: TextField::Group, position: 5 })
    );
}

#[test]
fn publish_prepares_unstarted_future() {
    let client = demo_client();
    let startup = client.publish("demo", "group", "{\"message\":\"#0\"}").expect("valid texts");
    assert_eq!(
        startup.calls,
        vec![
            NativeCall::Allocate,
            NativeCall::Initialize,
            NativeCall::SetIdentity,
            NativeCall::SetAuth,
        ]
    );
    assert_eq!(startup.future.phase(), zugzug::publish::Phase::Unstarted);
    assert!(!startup.future.is_released());
    assert_eq!(startup.future.message(), "{\"message\":\"#0\"}");
    assert_eq!(startup.future.config().channel(), "demo");
    assert_eq!(startup.future.config().group(), "group");
    assert_eq!(startup.future.config().publish_key(), "pub-c-1");
}

#[test]
fn publish_refuses_terminator_in_channel_group_or_payload() {
    let client = demo_client();
    assert_eq!(
        client.publish("\0", "\0", "\0").err(),
        Some(InvalidText { field: TextField::Channel, position: 0 })
    );
    assert_eq!(
        client.publish("demo", "g\0", "\0").err(),
        Some(InvalidText { field: TextField::Group, position: 1 })
    );
    assert_eq!(
        client.publish("demo", "group", "{\"a\":\0}").err(),
        Some(InvalidText { field: TextField::Payload, position: 5 })
    );
}

#[test]
fn bind_checks_channel_then_group() {
    let client = demo_client();
    let config = client.bind("demo", "group").expect("valid texts");
    assert_eq!(config.channel(), "demo");
    assert_eq!(config.group(), "group");
    assert_eq!(config.auth_key(), "auth");
    assert_eq!(
        client.bind("d\0", "\0").err(),
        Some(InvalidText { field: TextField::Channel, position: 1 })
    );
    assert_eq!(
        client.bind("demo", "ab\0").err(),
        Some(InvalidText { field: TextField::Group, position: 2 })
    );
}
