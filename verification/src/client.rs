//! The client: a holder of credentials that mints bridges on demand.

use crate::engine::{NativeCall, OperandTexts, Operands};
use crate::publish::{publish_startup, Phase, PublishFuture, PublishStartup, PublishState};
use crate::subscription::{
    subscription_startup, Subscription, SubscriptionStart, SubscriptionState,
};
use crate::text::{check_text, defect, first_defect, nul_free, InvalidText, TextField};
use vstd::prelude::*;

verus! {

/// The credentials of a client, as its configuration gives them.
#[derive(Eq, PartialEq, Ord, PartialOrd, Clone, Debug, Hash)]
pub struct ClientConfig {
    pub auth_key: String,
    pub publish_key: String,
    pub subscribe_key: String,
    pub client_uuid: String,
}

/// The four credentials as texts.
pub struct Credentials {
    pub auth_key: Seq<char>,
    pub publish_key: Seq<char>,
    pub subscribe_key: Seq<char>,
    pub client_uuid: Seq<char>,
}

impl Credentials {
    /// True when every credential can be handed to the native engine.
    pub open spec fn valid(self) -> bool {
        &&& nul_free(self.auth_key)
        &&& nul_free(self.publish_key)
        &&& nul_free(self.subscribe_key)
        &&& nul_free(self.client_uuid)
    }

    /// The first credential that holds a NUL, in the order authentication
    /// key, publish key, subscribe key, client identifier; nothing when all
    /// four are valid.
    pub open spec fn defect(self) -> Option<InvalidText> {
        first_defect(
            defect(self.auth_key, TextField::AuthKey),
            first_defect(
                defect(self.publish_key, TextField::PublishKey),
                first_defect(
                    defect(self.subscribe_key, TextField::SubscribeKey),
                    defect(self.client_uuid, TextField::ClientUuid),
                ),
            ),
        )
    }
}

impl View for ClientConfig {
    type V = Credentials;

    open spec fn view(&self) -> Credentials {
        Credentials {
            auth_key: self.auth_key@,
            publish_key: self.publish_key@,
            subscribe_key: self.subscribe_key@,
            client_uuid: self.client_uuid@,
        }
    }
}

/// What one bridge is bound to: the credentials, a channel and a group.
pub struct Binding {
    pub credentials: Credentials,
    pub channel: Seq<char>,
    pub group: Seq<char>,
}

impl Binding {
    pub open spec fn valid(self) -> bool {
        &&& self.credentials.valid()
        &&& nul_free(self.channel)
        &&& nul_free(self.group)
    }

    /// The texts that `call` takes on a context with this binding, where
    /// `message` is the message of the bridge, if it has one:
    /// - initialising takes the publish key and the subscribe key;
    /// - the identity is the client identifier, the authentication the
    ///   authentication key;
    /// - subscribing takes the channel and no group;
    /// - publishing takes the channel and the message;
    /// - every other call takes no text.
    pub open spec fn operands(self, call: NativeCall, message: Option<Seq<char>>) -> OperandTexts {
        match call {
            NativeCall::Initialize => OperandTexts {
                first: Some(self.credentials.publish_key),
                second: Some(self.credentials.subscribe_key),
            },
            NativeCall::SetIdentity => OperandTexts {
                first: Some(self.credentials.client_uuid),
                second: None,
            },
            NativeCall::SetAuth => OperandTexts {
                first: Some(self.credentials.auth_key),
                second: None,
            },
            NativeCall::Subscribe => OperandTexts { first: Some(self.channel), second: None },
            NativeCall::Publish => OperandTexts { first: Some(self.channel), second: message },
            _ => OperandTexts { first: None, second: None },
        }
    }
}

/// A message as a text, where there is one.
pub open spec fn message_text(message: Option<&str>) -> Option<Seq<char>> {
    match message {
        Some(text) => Some(text@),
        None => None,
    }
}

/// The texts of one bridge, fixed when the bridge is made. Each of them is
/// free of NUL.
pub struct ChannelConfig {
    auth_key: String,
    publish_key: String,
    subscribe_key: String,
    client_uuid: String,
    channel: String,
    group: String,
}

impl View for ChannelConfig {
    type V = Binding;

    closed spec fn view(&self) -> Binding {
        Binding {
            credentials: Credentials {
                auth_key: self.auth_key@,
                publish_key: self.publish_key@,
                subscribe_key: self.subscribe_key@,
                client_uuid: self.client_uuid@,
            },
            channel: self.channel@,
            group: self.group@,
        }
    }
}

impl ChannelConfig {
    #[verifier::type_invariant]
    spec fn well_formed(self) -> bool {
        self@.valid()
    }

    /// The texts that `call` takes on a context of this configuration.
    pub fn operands<'a>(&'a self, call: NativeCall, message: Option<&'a str>) -> (texts: Operands<
        'a,
    >)
        ensures
            texts@ == self@.operands(call, message_text(message)),
            self@.valid(),
    {
        proof {
            use_type_invariant(self);
        }
        match call {
            NativeCall::Initialize => Operands {
                first: Some(self.publish_key.as_str()),
                second: Some(self.subscribe_key.as_str()),
            },
            NativeCall::SetIdentity => Operands {
                first: Some(self.client_uuid.as_str()),
                second: None,
            },
            NativeCall::SetAuth => Operands { first: Some(self.auth_key.as_str()), second: None },
            NativeCall::Subscribe => Operands { first: Some(self.channel.as_str()), second: None },
            NativeCall::Publish => Operands {
                first: Some(self.channel.as_str()),
                second: message,
            },
            _ => Operands { first: None, second: None },
        }
    }

    pub fn auth_key(&self) -> (text: &str)
        ensures
            text@ == self@.credentials.auth_key,
            nul_free(text@),
    {
        proof {
            use_type_invariant(self);
        }
        self.auth_key.as_str()
    }

    pub fn publish_key(&self) -> (text: &str)
        ensures
            text@ == self@.credentials.publish_key,
            nul_free(text@),
    {
        proof {
            use_type_invariant(self);
        }
        self.publish_key.as_str()
    }

    pub fn subscribe_key(&self) -> (text: &str)
        ensures
            text@ == self@.credentials.subscribe_key,
            nul_free(text@),
    {
        proof {
            use_type_invariant(self);
        }
        self.subscribe_key.as_str()
    }

    pub fn client_uuid(&self) -> (text: &str)
        ensures
            text@ == self@.credentials.client_uuid,
            nul_free(text@),
    {
        proof {
            use_type_invariant(self);
        }
        self.client_uuid.as_str()
    }

    pub fn channel(&self) -> (text: &str)
        ensures
            text@ == self@.channel,
            nul_free(text@),
    {
        proof {
            use_type_invariant(self);
        }
        self.channel.as_str()
    }

    pub fn group(&self) -> (text: &str)
        ensures
            text@ == self@.group,
            nul_free(text@),
    {
        proof {
            use_type_invariant(self);
        }
        self.group.as_str()
    }
}

/// A holder of validated credentials. It owns no native resource and is
/// never changed after it is made.
#[derive(Eq, PartialEq, Ord, PartialOrd, Debug, Hash)]
pub struct Client {
    auth_key: String,
    publish_key: String,
    subscribe_key: String,
    client_uuid: String,
}

impl View for Client {
    type V = Credentials;

    closed spec fn view(&self) -> Credentials {
        Credentials {
            auth_key: self.auth_key@,
            publish_key: self.publish_key@,
            subscribe_key: self.subscribe_key@,
            client_uuid: self.client_uuid@,
        }
    }
}

impl Clone for Client {
    fn clone(&self) -> (copy: Client)
        ensures
            copy@ == self@,
    {
        proof {
            use_type_invariant(self);
        }
        Client {
            auth_key: self.auth_key.clone(),
            publish_key: self.publish_key.clone(),
            subscribe_key: self.subscribe_key.clone(),
            client_uuid: self.client_uuid.clone(),
        }
    }
}

impl Client {
    #[verifier::type_invariant]
    spec fn well_formed(self) -> bool {
        self@.valid()
    }

    /// Makes a client from its configuration. A credential with an embedded
    /// NUL is refused, the first one in the order of the fields.
    pub fn new(config: ClientConfig) -> (made: Result<Client, InvalidText>)
        ensures
            made is Ok <==> config@.valid(),
            made matches Ok(client) ==> client@ == config@,
            made matches Err(e) ==> config@.defect() == Some(e),
    {
        let ClientConfig { auth_key, publish_key, subscribe_key, client_uuid } = config;
        match check_text(auth_key.as_str(), TextField::AuthKey) {
            Err(e) => {
                return Err(e);
            },
            Ok(()) => {},
        }
        match check_text(publish_key.as_str(), TextField::PublishKey) {
            Err(e) => {
                return Err(e);
            },
            Ok(()) => {},
        }
        match check_text(subscribe_key.as_str(), TextField::SubscribeKey) {
            Err(e) => {
                return Err(e);
            },
            Ok(()) => {},
        }
        match check_text(client_uuid.as_str(), TextField::ClientUuid) {
            Err(e) => {
                return Err(e);
            },
            Ok(()) => {},
        }
        Ok(Client { auth_key, publish_key, subscribe_key, client_uuid })
    }

    /// Binds the credentials to a channel and a group. A channel or group
    /// with an embedded NUL is refused, the channel first.
    pub fn bind(&self, channel: &str, group: &str) -> (bound: Result<ChannelConfig, InvalidText>)
        ensures
            bound is Ok <==> nul_free(channel@) && nul_free(group@),
            bound matches Ok(config) ==> config@ == (Binding {
                credentials: self@,
                channel: channel@,
                group: group@,
            }),
            bound matches Err(e) ==> Some(e) == first_defect(
                defect(channel@, TextField::Channel),
                defect(group@, TextField::Group),
            ),
    {
        proof {
            use_type_invariant(self);
        }
        match check_text(channel, TextField::Channel) {
            Err(e) => {
                return Err(e);
            },
            Ok(()) => {},
        }
        match check_text(group, TextField::Group) {
            Err(e) => {
                return Err(e);
            },
            Ok(()) => {},
        }
        Ok(
            ChannelConfig {
                auth_key: self.auth_key.clone(),
                publish_key: self.publish_key.clone(),
                subscribe_key: self.subscribe_key.clone(),
                client_uuid: self.client_uuid.clone(),
                channel: String::from_str(channel),
                group: String::from_str(group),
            },
        )
    }

    /// Opens a subscription to `channel`. The bridge is made and started at
    /// once: the calls that come back set its context up and issue the first
    /// native subscribe. A channel or group with an embedded NUL is refused,
    /// the channel first.
    pub fn subscribe<T>(&self, channel: &str, group: &str) -> (opened: Result<
        SubscriptionStart<T>,
        InvalidText,
    >)
        ensures
            opened is Ok <==> nul_free(channel@) && nul_free(group@),
            opened matches Err(e) ==> Some(e) == first_defect(
                defect(channel@, TextField::Channel),
                defect(group@, TextField::Group),
            ),
            opened matches Ok(start) ==> {
                &&& start.subscription@ == (SubscriptionState {
                    binding: Binding { credentials: self@, channel: channel@, group: group@ },
                    released: false,
                })
                &&& start.callback_state.channel_view() == channel@
                &&& start.calls@ == subscription_startup()
            },
    {
        match self.bind(channel, group) {
            Ok(config) => Ok(Subscription::new(config)),
            Err(e) => Err(e),
        }
    }

    /// Prepares the publication of the serialized payload `body` on
    /// `channel`. The future that comes back is unstarted: its context is set
    /// up, and nothing is published before the future is polled. A channel,
    /// group or payload with an embedded NUL is refused, in this order.
    pub fn publish(&self, channel: &str, group: &str, body: &str) -> (prepared: Result<
        PublishStartup,
        InvalidText,
    >)
        ensures
            prepared is Ok <==> nul_free(channel@) && nul_free(group@) && nul_free(body@),
            prepared matches Err(e) ==> Some(e) == first_defect(
                defect(channel@, TextField::Channel),
                first_defect(defect(group@, TextField::Group), defect(body@, TextField::Payload)),
            ),
            prepared matches Ok(startup) ==> {
                &&& startup.future@ == (PublishState {
                    binding: Binding { credentials: self@, channel: channel@, group: group@ },
                    message: body@,
                    phase: Phase::Unstarted,
                    released: false,
                })
                &&& startup.calls@ == publish_startup()
            },
    {
        match self.bind(channel, group) {
            Ok(config) => PublishFuture::new(config, body),
            Err(e) => Err(e),
        }
    }
}

} // verus!
