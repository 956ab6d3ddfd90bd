use zugzug::{Client, ClientConfig, NativeCall};

fn demo_client() -> Client {
    Client::new(ClientConfig {
        auth_key: "auth".to_string(),
        publish_key: "pub-c-1".to_string(),
        subscribe_key: "sub-c-1".to_string(),
        client_uuid: "uuid-7".to_string(),
    })
    .expect("valid credentials")
}

const TEXTLESS: [NativeCall; 5] = [
    NativeCall::Allocate,
    NativeCall::RegisterSubscribeCallback,
    NativeCall::RegisterPublishCallback,
    NativeCall::Free,
    NativeCall::ReclaimCallbackState,
];

#[test]
fn subscription_operands_of_each_call() {
    let start = demo_client().subscribe::<u32>("demo", "group").expect("valid texts");
    let bridge = start.subscription;
    let texts = bridge.operands(NativeCall::Initialize);
    assert_eq!((texts.first, texts.second), (Some("pub-c-1"), Some("sub-c-1")));
    let texts = bridge.operands(NativeCall::SetIdentity);
    assert_eq!((texts.first, texts.second), (Some("uuid-7"), None));
    let texts = bridge.operands(NativeCall::SetAuth);
    assert_eq!((texts.first, texts.second), (Some("auth"), None));
    // The channel, and no group.
    let texts = bridge.operands(NativeCall::Subscribe);
    assert_eq!((texts.first, texts.second), (Some("demo"), None));
    // A subscription has no message to publish.
    let texts = bridge.operands(NativeCall::Publish);
    assert_eq!((texts.first, texts.second), (Some("demo"), None));
    for call in TEXTLESS {
        let texts = bridge.operands(call);
        assert_eq!((texts.first, texts.second), (None, None));
    }
}

#[test]
fn publish_operands_of_each_call() {
    let startup = demo_client().publish("demo", "group", "{\"n\":1}").expect("valid texts");
    let bridge = startup.future;
    let texts = bridge.operands(NativeCall::Initialize);
    assert_eq!((texts.first, texts.second), (Some("pub-c-1"), Some("sub-c-1")));
    let texts = bridge.operands(NativeCall::SetIdentity);
    assert_eq!((texts.first, texts.second), (Some("uuid-7"), None));
    let texts = bridge.operands(NativeCall::SetAuth);
    assert_eq!((texts.first, texts.second), (Some("auth"), None));
    let texts = bridge.operands(NativeCall::Publish);
    assert_eq!((texts.first, texts.second), (Some("demo"), Some("{\"n\":1}")));
    let texts = bridge.operands(NativeCall::Subscribe);
    assert_eq!((texts.first, texts.second), (Some("demo"), None));
    for call in TEXTLESS {
        let texts = bridge.operands(call);
        assert_eq!((texts.first, texts.second), (None, None));
    }
}

#[test]
fn callback_rearms_on_the_bridges_channel() {
    let start = demo_client().subscribe::<u32>("demo", "group").expect("valid texts");
    let texts = start.callback_state.operands(NativeCall::Subscribe);
    assert_eq!((texts.first, texts.second), (Some("demo"), None));
    let texts = start.callback_state.operands(NativeCall::Initialize);
    assert_eq!((texts.first, texts.second), (None, None));
    let texts = start.callback_state.operands(NativeCall::Publish);
    assert_eq!((texts.first, texts.second), (None, None));
}
