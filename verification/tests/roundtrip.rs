use futures::executor::{spawn, Notify, NotifyHandle};
use futures::sync::mpsc::Receiver;
use futures::Async;
use serde_json::Value;
use std::sync::Arc;
use zugzug::subscription::Completion;
use zugzug::{subscribe_callback, ChannelPoll, Client, ClientConfig, Polled, Transaction};

struct Quiet;

impl Notify for Quiet {
    fn notify(&self, _id: usize) {}
}

fn poll_queue<I>(rx: &mut Receiver<I>) -> ChannelPoll<I> {
    let handle = NotifyHandle::from(Arc::new(Quiet));
    match spawn(rx).poll_stream_notify(&handle, 0) {
        Ok(Async::Ready(Some(item))) => ChannelPoll::Item(item),
        Ok(Async::Ready(None)) => ChannelPoll::Closed,
        Ok(Async::NotReady) => ChannelPoll::Empty,
        Err(()) => ChannelPoll::Failed,
    }
}

fn message(text: &str) -> Value {
    let mut fields = serde_json::Map::new();
    fields.insert("message".to_string(), Value::String(text.to_string()));
    Value::Object(fields)
}

#[test]
fn published_payload_decodes_to_an_equal_value() {
    let client = Client::new(ClientConfig {
        auth_key: "auth".to_string(),
        publish_key: "pub".to_string(),
        subscribe_key: "sub".to_string(),
        client_uuid: "uuid".to_string(),
    })
    .expect("valid credentials");

    // The publishing side serializes the payload and hands the text over.
    let payload = message("#3");
    let body = serde_json::to_string(&payload).expect("a value serializes");
    assert_eq!(body, "{\"message\":\"#3\"}");
    let future = client.publish("demo", "group", &body).expect("valid texts").future;
    let on_the_wire = future.message().to_string();

    // The subscribing side decodes the same text on its own.
    let mut start = client.subscribe::<Value>("demo", "group").expect("valid texts");
    let completion = Completion {
        transaction: Transaction::Subscribe,
        status: 0,
        result: Some(serde_json::from_str::<Value>(&on_the_wire)),
    };
    assert!(subscribe_callback(&mut start.callback_state, completion).refused.is_none());
    let polled = poll_queue(start.subscription.receiver());
    assert_eq!(start.subscription.poll(polled).ok(), Some(Polled::Ready(Some(payload))));
}
