//! The subscription bridge: from the completions of a long-polling native
//! context to a lazy sequence of decoded payloads.
//!
//! A bridge has two sides. The callback state lives with the native engine
//! and is handed every completion; it queues what the completion amounts to
//! and, where the completion ends a subscribe, asks for the next one, so that
//! exactly one native subscribe is outstanding as long as the bridge lives. The subscription
//! lives with the consumer and turns what the queue gives into the items of
//! the sequence.

use crate::channel::{bounded_channel, offer};
use crate::client::{Binding, ChannelConfig};
use crate::engine::{
    occurrences, reclaims_follow_free, ChannelPoll, NativeCall, OperandTexts, Operands, Polled,
    Transaction,
};
use crate::error::{ClientError, JsonError, STATUS_OK};
use futures::sync::mpsc::{Receiver, Sender};
use vstd::prelude::*;

verus! {

/// Slots of a subscription's queue, beside the one that its sender always has.
pub const SUBSCRIPTION_BUFFER: usize = 10;

/// One completion, as the subscribe callback is told of it.
pub struct Completion<T> {
    /// The kind of transaction that finished.
    pub transaction: Transaction,
    /// The native status code.
    pub status: u32,
    /// The engine's last result: `None` where it had no text, else what
    /// decoding the text gave. It is read only where `wants_result` holds.
    pub result: Option<Result<T, serde_json::Error>>,
}

impl<T> Completion<T> {
    /// True when the callback has to fetch and decode the engine's last
    /// result: for a subscribe transaction that went well.
    pub open spec fn needs_result(transaction: Transaction, status: u32) -> bool {
        transaction == Transaction::Subscribe && status == STATUS_OK
    }

    /// The item that this completion puts into the queue: nothing for
    /// another kind of transaction, the status for a failed one, and for a
    /// successful one the decoded payload, the decoder's failure, or the
    /// lack of a result.
    pub open spec fn item(self) -> Option<Result<T, ClientError>> {
        if self.transaction != Transaction::Subscribe {
            None
        } else if self.status != STATUS_OK {
            Some(Err(ClientError::PubNub { code: self.status }))
        } else {
            match self.result {
                None => Some(Err(ClientError::NullPointerError)),
                Some(Ok(payload)) => Some(Ok(payload)),
                Some(Err(e)) => Some(Err(ClientError::ParseError(JsonError::wrap(e)))),
            }
        }
    }

    /// Tells whether the engine's last result is wanted for a completion
    /// with this tag and status. The result is valid only inside the
    /// callback, and only then may it be fetched.
    pub fn wants_result(transaction: Transaction, status: u32) -> (wanted: bool)
        ensures
            wanted == Self::needs_result(transaction, status),
    {
        match transaction {
            Transaction::Subscribe => status == STATUS_OK,
            _ => false,
        }
    }

    /// The call that the callback asks for once this completion is handled:
    /// the next subscribe where the completion ends one, whatever its
    /// status and result, and no call where it ends another transaction. A
    /// subscribe beside the one that is outstanding is more than the
    /// engine takes on one context.
    pub open spec fn rearm(self) -> Option<NativeCall> {
        if self.transaction == Transaction::Subscribe {
            Some(NativeCall::Subscribe)
        } else {
            None
        }
    }

    /// Turns the completion into the item to queue.
    pub fn into_item(self) -> (item: Option<Result<T, ClientError>>)
        ensures
            item == self.item(),
    {
        match self.transaction {
            Transaction::Subscribe => {
                if self.status != STATUS_OK {
                    Some(Err(ClientError::PubNub { code: self.status }))
                } else {
                    match self.result {
                        None => Some(Err(ClientError::NullPointerError)),
                        Some(Ok(payload)) => Some(Ok(payload)),
                        Some(Err(e)) => Some(Err(ClientError::ParseError(JsonError::new(e)))),
                    }
                }
            },
            _ => None,
        }
    }
}

/// The state that the subscribe callback works on. The native engine keeps
/// a back-reference to it for as long as the context lives.
#[verifier::reject_recursive_types(T)]
pub struct SubscribeUserData<T> {
    channel: String,
    tx: Sender<Result<T, ClientError>>,
}

/// What the subscribe callback asks of its caller before control returns to
/// the engine.
pub struct CallbackOutcome<T> {
    /// The call that re-arms the long poll, where one is due.
    pub rearm: Option<NativeCall>,
    /// The item that the queue did not take, because it was full or the
    /// consumer is gone. It is dropped; the caller may log it.
    pub refused: Option<Result<T, ClientError>>,
}

impl<T> SubscribeUserData<T> {
    /// The channel that the callback re-subscribes to.
    pub closed spec fn channel_view(self) -> Seq<char> {
        self.channel@
    }

    /// What the re-arming call takes: the channel and no group. No other
    /// call is made from the callback, and none takes a text there.
    pub open spec fn rearm_texts(self, call: NativeCall) -> OperandTexts {
        if call == NativeCall::Subscribe {
            OperandTexts { first: Some(self.channel_view()), second: None }
        } else {
            OperandTexts { first: None, second: None }
        }
    }

    pub fn channel(&self) -> (text: &str)
        ensures
            text@ == self.channel_view(),
    {
        self.channel.as_str()
    }

    /// The texts that `call` takes when it is made from the callback. The
    /// channel is the one that the bridge was made with.
    pub fn operands(&self, call: NativeCall) -> (texts: Operands<'_>)
        ensures
            texts@ == self.rearm_texts(call),
    {
        match call {
            NativeCall::Subscribe => Operands { first: Some(self.channel.as_str()), second: None },
            _ => Operands { first: None, second: None },
        }
    }
}

/// Handles one completion on the callback side of a subscription. For the
/// completion of a subscribe, the item that it amounts to is offered to the
/// queue without waiting, and whatever becomes of it, the subscribe call is
/// asked for again. The completion of another transaction asks for no call
/// and leaves the callback state as it was.
pub fn subscribe_callback<T>(
    user_data: &mut SubscribeUserData<T>,
    completion: Completion<T>,
) -> (outcome: CallbackOutcome<T>)
    ensures
        outcome.rearm == completion.rearm(),
        final(user_data).channel_view() == old(user_data).channel_view(),
        outcome.refused matches Some(item) ==> completion.item() == Some(item),
        completion.item() is None ==> *final(user_data) == *old(user_data),
{
    let rearm = match completion.transaction {
        Transaction::Subscribe => Some(NativeCall::Subscribe),
        _ => None,
    };
    let refused = match completion.into_item() {
        Some(item) => offer(&mut user_data.tx, item),
        None => None,
    };
    CallbackOutcome { rearm, refused }
}

/// A subscription as contracts see it.
pub struct SubscriptionState {
    /// The texts that the bridge is bound to.
    pub binding: Binding,
    /// True once the native context has been given up.
    pub released: bool,
}

impl SubscriptionState {
    /// The calls that giving the context up asks for: the context is freed
    /// first, and only then is the callback state reclaimed. A bridge that
    /// was given up before asks for nothing.
    pub open spec fn teardown(self) -> Seq<NativeCall> {
        if self.released {
            Seq::empty()
        } else {
            seq![NativeCall::Free, NativeCall::ReclaimCallbackState]
        }
    }

    /// The state after the context was given up.
    pub open spec fn freed(self) -> SubscriptionState {
        SubscriptionState { released: true, ..self }
    }
}

/// The consumer's side of a subscription bridge.
#[verifier::reject_recursive_types(T)]
pub struct Subscription<T> {
    rx: Receiver<Result<T, ClientError>>,
    config: ChannelConfig,
    released: bool,
}

/// A subscription that was just made, with what its owner has to do first.
#[verifier::reject_recursive_types(T)]
pub struct SubscriptionStart<T> {
    pub subscription: Subscription<T>,
    /// The state to register with the native context.
    pub callback_state: SubscribeUserData<T>,
    /// The calls that set the context up and issue the first subscribe.
    pub calls: Vec<NativeCall>,
}

/// The calls that bring a subscription's context up, the first subscribe
/// call last.
pub open spec fn subscription_startup() -> Seq<NativeCall> {
    seq![
        NativeCall::Allocate,
        NativeCall::Initialize,
        NativeCall::SetIdentity,
        NativeCall::SetAuth,
        NativeCall::RegisterSubscribeCallback,
        NativeCall::Subscribe,
    ]
}

/// What the consumer gets for what the queue gave: a decoded payload is
/// yielded, an error is reported, a closed queue ends the sequence, an empty
/// one means not yet, and a queue that failed is reported as a poll error.
pub open spec fn delivery<T>(polled: ChannelPoll<Result<T, ClientError>>) -> Result<
    Polled<Option<T>>,
    ClientError,
> {
    match polled {
        ChannelPoll::Item(Ok(payload)) => Ok(Polled::Ready(Some(payload))),
        ChannelPoll::Item(Err(e)) => Err(e),
        ChannelPoll::Closed => Ok(Polled::Ready(None)),
        ChannelPoll::Empty => Ok(Polled::NotReady),
        ChannelPoll::Failed => Err(ClientError::PollError),
    }
}

impl<T> View for Subscription<T> {
    type V = SubscriptionState;

    closed spec fn view(&self) -> SubscriptionState {
        SubscriptionState { binding: self.config@, released: self.released }
    }
}

impl<T> Subscription<T> {
    /// Makes the bridge for `config`: the queue, the callback state that
    /// feeds it, and the calls that start the long poll.
    pub fn new(config: ChannelConfig) -> (start: SubscriptionStart<T>)
        ensures
            start.subscription@ == (SubscriptionState { binding: config@, released: false }),
            start.callback_state.channel_view() == config@.channel,
            start.calls@ == subscription_startup(),
    {
        let (tx, rx) = bounded_channel::<Result<T, ClientError>>(SUBSCRIPTION_BUFFER);
        let callback_state = SubscribeUserData { channel: String::from_str(config.channel()), tx };
        let mut calls: Vec<NativeCall> = Vec::new();
        calls.push(NativeCall::Allocate);
        calls.push(NativeCall::Initialize);
        calls.push(NativeCall::SetIdentity);
        calls.push(NativeCall::SetAuth);
        calls.push(NativeCall::RegisterSubscribeCallback);
        calls.push(NativeCall::Subscribe);
        assert(calls@ == subscription_startup());
        SubscriptionStart {
            subscription: Subscription { rx, config, released: false },
            callback_state,
            calls,
        }
    }

    /// The texts that the calls of this bridge take as operands.
    pub fn config(&self) -> (config: &ChannelConfig)
        ensures
            config@ == self@.binding,
    {
        &self.config
    }

    pub fn is_released(&self) -> (released: bool)
        ensures
            released == self@.released,
    {
        self.released
    }

    /// The receiving end of the queue. The owner of the bridge polls it from
    /// inside a task and hands what it gave to `poll`.
    pub fn receiver(&mut self) -> (rx: &mut Receiver<Result<T, ClientError>>)
        ensures
            *rx == old(self).queue(),
            final(self).queue() == *final(rx),
            final(self)@ == old(self)@,
    {
        &mut self.rx
    }

    /// The texts that `call` takes on this bridge's context, each of them
    /// free of NUL. A subscription has no message.
    pub fn operands(&self, call: NativeCall) -> (texts: Operands<'_>)
        ensures
            texts@ == self@.binding.operands(call, None),
            texts@.valid(),
    {
        self.config.operands(call, None)
    }

    /// The receiving end of the bridge's queue, as contracts see it.
    /// `receiver` hands out this very receiver, and whatever the owner's
    /// polls make of it is the bridge's receiver afterwards.
    pub closed spec fn queue(self) -> Receiver<Result<T, ClientError>> {
        self.rx
    }

    /// Turns what the queue gave into the next step of the sequence. An
    /// error is one step like any other: the sequence goes on after it.
    pub fn poll(&self, polled: ChannelPoll<Result<T, ClientError>>) -> (step: Result<
        Polled<Option<T>>,
        ClientError,
    >)
        ensures
            step == delivery(polled),
    {
        match polled {
            ChannelPoll::Item(Ok(payload)) => Ok(Polled::Ready(Some(payload))),
            ChannelPoll::Item(Err(e)) => Err(e),
            ChannelPoll::Closed => Ok(Polled::Ready(None)),
            ChannelPoll::Empty => Ok(Polled::NotReady),
            ChannelPoll::Failed => Err(ClientError::PollError),
        }
    }

    /// Gives the native context up. The first call returns the teardown, in
    /// order; any later call returns nothing.
    pub fn release(&mut self) -> (calls: Vec<NativeCall>)
        ensures
            calls@ == old(self)@.teardown(),
            final(self)@ == old(self)@.freed(),
    {
        let mut calls: Vec<NativeCall> = Vec::new();
        if !self.released {
            self.released = true;
            calls.push(NativeCall::Free);
            calls.push(NativeCall::ReclaimCallbackState);
        }
        assert(calls@ == old(self)@.teardown());
        calls
    }
}

/// The items that the callback offers to the queue over a run of
/// completions, oldest first.
pub open spec fn offered<T>(completions: Seq<Completion<T>>) -> Seq<Result<T, ClientError>>
    decreases completions.len(),
{
    if completions.len() == 0 {
        Seq::empty()
    } else {
        let earlier = offered(completions.drop_last());
        match completions.last().item() {
            Some(item) => earlier.push(item),
            None => earlier,
        }
    }
}

/// The calls that the callback asks for over a run of completions, oldest
/// first: the re-arm of each completion that has one.
pub open spec fn rearms<T>(completions: Seq<Completion<T>>) -> Seq<NativeCall>
    decreases completions.len(),
{
    if completions.len() == 0 {
        Seq::empty()
    } else {
        let earlier = rearms(completions.drop_last());
        match completions.last().rearm() {
            Some(call) => earlier.push(call),
            None => earlier,
        }
    }
}

/// How many completions of a run end a subscribe transaction.
pub open spec fn subscribe_completions<T>(completions: Seq<Completion<T>>) -> nat
    decreases completions.len(),
{
    if completions.len() == 0 {
        0
    } else {
        subscribe_completions(completions.drop_last()) + if completions.last().transaction
            == Transaction::Subscribe {
            1nat
        } else {
            0nat
        }
    }
}

/// Every call that a subscription has asked for once a run of completions
/// has been handled: the startup, then the re-arms.
pub open spec fn calls_through<T>(completions: Seq<Completion<T>>) -> Seq<NativeCall> {
    subscription_startup() + rearms(completions)
}

/// The completion of a subscribe transaction that went well and whose
/// result text decoded to `payload`.
pub open spec fn success<T>(payload: T) -> Completion<T> {
    Completion { transaction: Transaction::Subscribe, status: STATUS_OK, result: Some(Ok(payload)) }
}

/// What is offered over two runs, one after the other, is what is offered
/// over the first followed by what is offered over the second: no completion
/// changes what a later one amounts to.
pub proof fn lemma_offered_concat<T>(first: Seq<Completion<T>>, rest: Seq<Completion<T>>)
    ensures
        offered(first + rest) == offered(first) + offered(rest),
    decreases rest.len(),
{
    if rest.len() == 0 {
        assert(first + rest == first);
    } else {
        assert((first + rest).drop_last() == first + rest.drop_last());
        lemma_offered_concat(first, rest.drop_last());
    }
}

/// The completions of a run of subscribe transactions that all went well,
/// with the payloads that their result texts decoded to.
pub open spec fn successes<T>(payloads: Seq<T>) -> Seq<Completion<T>> {
    payloads.map_values(|p: T| success(p))
}

/// A run of successful completions with decodable text offers exactly one
/// `Ok` item for each completion, in the order of the completions, and each
/// of them is yielded to the consumer as the decoded payload.
pub proof fn lemma_successes_yield_in_order<T>(payloads: Seq<T>)
    ensures
        offered(successes(payloads)).len() == payloads.len(),
        forall|i: int|
            0 <= i < payloads.len() ==> {
                &&& offered(successes(payloads))[i] == Ok::<T, ClientError>(#[trigger] payloads[i])
                &&& delivery(ChannelPoll::Item(offered(successes(payloads))[i])) == Ok::<
                    Polled<Option<T>>,
                    ClientError,
                >(Polled::Ready(Some(payloads[i])))
            },
    decreases payloads.len(),
{
    if payloads.len() > 0 {
        let earlier = payloads.drop_last();
        lemma_successes_yield_in_order(earlier);
        assert(successes(payloads).drop_last() == successes(earlier));
        assert(successes(payloads).last().item() == Some(Ok::<T, ClientError>(payloads.last())));
        assert(offered(successes(payloads)) == offered(successes(earlier)).push(
            Ok::<T, ClientError>(payloads.last()),
        ));
        assert forall|i: int| 0 <= i < payloads.len() implies offered(successes(payloads))[i]
            == Ok::<T, ClientError>(#[trigger] payloads[i]) by {
            if i < earlier.len() {
                assert(earlier[i] == payloads[i]);
            }
        }
    }
}

/// A successful completion without a result text puts exactly one
/// null-pointer error into the run of offered items, at its place, and the
/// consumer is handed that error. What was offered before it and what is
/// offered after it is as if the completion had not been there.
pub proof fn lemma_null_result_is_one_error<T>(
    before: Seq<Completion<T>>,
    after: Seq<Completion<T>>,
)
    ensures
        ({
            let null = Completion::<T> {
                transaction: Transaction::Subscribe,
                status: STATUS_OK,
                result: None,
            };
            &&& offered(before.push(null) + after) == offered(before).push(
                Err(ClientError::NullPointerError),
            ) + offered(after)
            &&& delivery(ChannelPoll::<Result<T, ClientError>>::Item(Err(ClientError::NullPointerError)))
                == Err::<Polled<Option<T>>, ClientError>(ClientError::NullPointerError)
        }),
{
    let null = Completion::<T> {
        transaction: Transaction::Subscribe,
        status: STATUS_OK,
        result: None,
    };
    lemma_offered_concat(before.push(null), after);
    assert(before.push(null).drop_last() == before);
}

/// A successful completion whose result text could not be decoded puts
/// exactly one parse error into the run of offered items, at its place, and
/// the consumer is handed that error, which wraps the decoder's failure.
/// What was offered before it and what is offered after it is as if the
/// completion had not been there.
pub proof fn lemma_undecodable_result_is_one_error<T>(
    before: Seq<Completion<T>>,
    failure: serde_json::Error,
    after: Seq<Completion<T>>,
)
    ensures
        ({
            let garbled = Completion::<T> {
                transaction: Transaction::Subscribe,
                status: STATUS_OK,
                result: Some(Err(failure)),
            };
            let error = ClientError::ParseError(JsonError::wrap(failure));
            &&& offered(before.push(garbled) + after) == offered(before).push(Err(error))
                + offered(after)
            &&& delivery(ChannelPoll::<Result<T, ClientError>>::Item(Err(error))) == Err::<
                Polled<Option<T>>,
                ClientError,
            >(error)
            &&& JsonError::wrap(failure).cause() == failure
        }),
{
    let garbled = Completion::<T> {
        transaction: Transaction::Subscribe,
        status: STATUS_OK,
        result: Some(Err(failure)),
    };
    lemma_offered_concat(before.push(garbled), after);
    assert(before.push(garbled).drop_last() == before);
    JsonError::wrap(failure).lemma_wrap_cause(failure);
}

/// Re-arm invariant: after any run of completions, the bridge has asked for
/// one subscribe call more than completions of a subscribe have come in:
/// the first one and one for each such completion, whatever its outcome.
/// None is asked for on the completion of another transaction, so that one
/// subscribe, and no more, is outstanding after each step. Where every
/// completion of the run ends a subscribe, that is one call more than
/// there were completions.
pub proof fn lemma_one_subscribe_per_completion<T>(completions: Seq<Completion<T>>)
    ensures
        occurrences(calls_through(completions), NativeCall::Subscribe) == subscribe_completions(
            completions,
        ) + 1,
        subscribe_completions(completions) <= completions.len(),
        (forall|i: int|
            0 <= i < completions.len() ==> (#[trigger] completions[i]).transaction
                == Transaction::Subscribe) ==> subscribe_completions(completions)
            == completions.len(),
    decreases completions.len(),
{
    if completions.len() == 0 {
        assert(calls_through(completions) == subscription_startup());
        lemma_startup_subscribes_once();
    } else {
        let earlier = completions.drop_last();
        lemma_one_subscribe_per_completion(earlier);
        if completions.last().transaction == Transaction::Subscribe {
            assert(calls_through(completions).drop_last() == calls_through(earlier));
            assert(calls_through(completions).last() == NativeCall::Subscribe);
        } else {
            assert(calls_through(completions) == calls_through(earlier));
        }
        if forall|i: int|
            0 <= i < completions.len() ==> (#[trigger] completions[i]).transaction
                == Transaction::Subscribe {
            assert forall|i: int| 0 <= i < earlier.len() implies (#[trigger] earlier[i]).transaction
                == Transaction::Subscribe by {
                assert(earlier[i] == completions[i]);
            }
            assert(completions.last() == completions[completions.len() - 1]);
        }
    }
}

/// The startup of a subscription asks for exactly one subscribe call.
proof fn lemma_startup_subscribes_once()
    ensures
        occurrences(subscription_startup(), NativeCall::Subscribe) == 1,
{
    reveal_with_fuel(occurrences, 7);
    let calls = subscription_startup();
    assert(calls.drop_last() == seq![
        NativeCall::Allocate,
        NativeCall::Initialize,
        NativeCall::SetIdentity,
        NativeCall::SetAuth,
        NativeCall::RegisterSubscribeCallback,
    ]);
    let c5 = calls.drop_last();
    assert(c5.drop_last() == seq![
        NativeCall::Allocate,
        NativeCall::Initialize,
        NativeCall::SetIdentity,
        NativeCall::SetAuth,
    ]);
    let c4 = c5.drop_last();
    assert(c4.drop_last() == seq![
        NativeCall::Allocate,
        NativeCall::Initialize,
        NativeCall::SetIdentity,
    ]);
    let c3 = c4.drop_last();
    assert(c3.drop_last() == seq![NativeCall::Allocate, NativeCall::Initialize]);
    let c2 = c3.drop_last();
    assert(c2.drop_last() == seq![NativeCall::Allocate]);
    let c1 = c2.drop_last();
    assert(c1.drop_last() == Seq::<NativeCall>::empty());
}

/// Giving a subscription up, at whatever point and however often, frees the
/// native context exactly once if it was not freed before, and the callback
/// state is reclaimed only after the context is freed.
pub proof fn lemma_subscription_freed_once(state: SubscriptionState)
    ensures
        occurrences(state.teardown() + state.freed().teardown(), NativeCall::Free) == if state.released {
            0nat
        } else {
            1nat
        },
        state.freed().teardown() == Seq::<NativeCall>::empty(),
        reclaims_follow_free(state.teardown()),
{
    reveal_with_fuel(occurrences, 3);
    let calls = state.teardown();
    assert(calls + state.freed().teardown() == calls);
    if !state.released {
        assert(calls.drop_last() == seq![NativeCall::Free]);
        assert(calls.drop_last().drop_last() == Seq::<NativeCall>::empty());
        assert(calls[0] == NativeCall::Free);
    }
}

} // verus!
