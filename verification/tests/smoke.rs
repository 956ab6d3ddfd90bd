use zugzug::{Client, ClientConfig, NativeCall};

fn demo_client() -> Client {
    Client::new(ClientConfig {
        auth_key: "auth".to_string(),
        publish_key: "pub".to_string(),
        subscribe_key: "sub".to_string(),
        client_uuid: "uuid".to_string(),
    })
    .expect("valid credentials")
}

// A context is allocated and freed again, with nothing in between.
#[test]
fn smoke() {
    let mut startup = demo_client().publish("demo", "group", "0").expect("valid texts");
    assert_eq!(startup.calls[0], NativeCall::Allocate);
    assert_eq!(startup.future.release(), vec![NativeCall::Free]);
}

// The same for a context with a registered callback.
#[test]
fn lib_smoke() {
    let mut start = demo_client().subscribe::<u32>("demo", "group").expect("valid texts");
    assert_eq!(start.calls[0], NativeCall::Allocate);
    assert_eq!(
        start.subscription.release(),
        vec![NativeCall::Free, NativeCall::ReclaimCallbackState]
    );
}
