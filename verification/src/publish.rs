//! The publish bridge: one native publish call, resolved exactly once.
//!
//! A publish future does nothing until it is polled. The first poll starts
//! it: the callback state is made and registered, and the one native publish
//! call is asked for. From then on each poll is handed what the queue gave,
//! until the completion has arrived and the future is resolved.

use crate::channel::{bounded_channel, offer};
use crate::client::{Binding, ChannelConfig};
use crate::engine::{
    occurrences, reclaims_follow_free, ChannelPoll, NativeCall, Operands, Polled, Transaction,
};
use crate::error::{ClientError, STATUS_OK};
use crate::text::{check_text, defect, nul_free, InvalidText, TextField};
use futures::sync::mpsc::{Receiver, Sender};
use vstd::prelude::*;

verus! {

/// Slots of a publish queue beside the one that its sender always has: none,
/// for a single item is ever sent.
pub const PUBLISH_BUFFER: usize = 0;

/// Where a publish future stands.
#[derive(Clone, Copy, Debug, PartialEq, Eq, Structural)]
pub enum Phase {
    /// Not polled yet; no native publish call has been asked for.
    Unstarted,
    /// The native publish call is under way.
    Pending,
    /// The result has been handed out.
    Resolved,
}

/// The item that a completion puts into the publish queue: nothing for
/// another kind of transaction, else success or the failing status.
pub open spec fn publish_item(transaction: Transaction, status: u32) -> Option<
    Result<(), ClientError>,
> {
    if transaction != Transaction::Publish {
        None
    } else if status == STATUS_OK {
        Some(Ok(()))
    } else {
        Some(Err(ClientError::PubNub { code: status }))
    }
}

/// Computes the item that a completion puts into the publish queue.
pub fn publish_result(transaction: Transaction, status: u32) -> (item: Option<
    Result<(), ClientError>,
>)
    ensures
        item == publish_item(transaction, status),
{
    match transaction {
        Transaction::Publish => {
            if status == STATUS_OK {
                Some(Ok(()))
            } else {
                Some(Err(ClientError::PubNub { code: status }))
            }
        },
        _ => None,
    }
}

/// The state that the publish callback works on.
pub struct PublishFutureUserData {
    tx: Sender<Result<(), ClientError>>,
}

/// What the publish callback asks of its caller.
pub struct PublishOutcome {
    /// True when the task that polls the future has to be woken.
    pub notify: bool,
    /// The item that the queue did not take. It is dropped; the caller may
    /// log it.
    pub refused: Option<Result<(), ClientError>>,
}

/// Handles one completion on the callback side of a publish future. For a
/// publish transaction the result is offered to the queue without waiting
/// and the polling task is to be woken; any other completion is ignored
/// and leaves the callback state as it was.
pub fn publish_callback(
    user_data: &mut PublishFutureUserData,
    transaction: Transaction,
    status: u32,
) -> (outcome: PublishOutcome)
    ensures
        outcome.notify == (transaction == Transaction::Publish),
        outcome.refused matches Some(item) ==> publish_item(transaction, status) == Some(item),
        transaction != Transaction::Publish ==> *final(user_data) == *old(user_data),
{
    match publish_result(transaction, status) {
        Some(item) => PublishOutcome { notify: true, refused: offer(&mut user_data.tx, item) },
        None => PublishOutcome { notify: false, refused: None },
    }
}

/// A publish future as contracts see it.
pub struct PublishState {
    pub binding: Binding,
    pub message: Seq<char>,
    pub phase: Phase,
    pub released: bool,
}

/// The calls that bring a publish context up. No callback is registered and
/// nothing is published yet.
pub open spec fn publish_startup() -> Seq<NativeCall> {
    seq![
        NativeCall::Allocate,
        NativeCall::Initialize,
        NativeCall::SetIdentity,
        NativeCall::SetAuth,
    ]
}

/// The calls of the first poll: the callback is registered, then the one
/// publish call is made.
pub open spec fn publish_launch() -> Seq<NativeCall> {
    seq![NativeCall::RegisterPublishCallback, NativeCall::Publish]
}

impl PublishState {
    /// True when a poll in this state starts the native publish call.
    pub open spec fn starts(self) -> bool {
        self.phase == Phase::Unstarted && !self.released
    }

    /// The state after the future was asked to start.
    pub open spec fn started(self) -> PublishState {
        if self.starts() {
            PublishState { phase: Phase::Pending, ..self }
        } else {
            self
        }
    }

    /// The calls that a request to start asks for.
    pub open spec fn launch(self) -> Seq<NativeCall> {
        if self.starts() {
            publish_launch()
        } else {
            Seq::empty()
        }
    }

    /// The answer of a pending future to what its queue gave: the result
    /// that arrived, a poll error for a queue that closed or failed before
    /// it did, and not ready otherwise. A future that is not pending, be it
    /// unstarted or resolved, answers not ready whatever it is handed.
    pub open spec fn answer(self, polled: ChannelPoll<Result<(), ClientError>>) -> Result<
        Polled<()>,
        ClientError,
    > {
        if self.phase != Phase::Pending {
            Ok(Polled::NotReady)
        } else {
            match polled {
                ChannelPoll::Item(Ok(_)) => Ok(Polled::Ready(())),
                ChannelPoll::Item(Err(e)) => Err(e),
                ChannelPoll::Closed => Err(ClientError::PollError),
                ChannelPoll::Failed => Err(ClientError::PollError),
                ChannelPoll::Empty => Ok(Polled::NotReady),
            }
        }
    }

    /// The state after a future was handed what its queue gave: a pending
    /// future is resolved once it has answered with anything but not ready.
    pub open spec fn polled(self, polled: ChannelPoll<Result<(), ClientError>>) -> PublishState {
        if self.phase == Phase::Pending && !(polled is Empty) {
            PublishState { phase: Phase::Resolved, ..self }
        } else {
            self
        }
    }

    /// The calls that giving the context up asks for: the context is freed,
    /// and after that the callback state is reclaimed if one was registered.
    pub open spec fn teardown(self) -> Seq<NativeCall> {
        if self.released {
            Seq::empty()
        } else if self.phase == Phase::Unstarted {
            seq![NativeCall::Free]
        } else {
            seq![NativeCall::Free, NativeCall::ReclaimCallbackState]
        }
    }

    /// The state after the context was given up.
    pub open spec fn freed(self) -> PublishState {
        PublishState { released: true, ..self }
    }
}

/// One publish operation on a native context of its own.
pub struct PublishFuture {
    config: ChannelConfig,
    msg: String,
    phase: Phase,
    released: bool,
}

/// A publish future that was just made, with the calls that set its context
/// up.
pub struct PublishStartup {
    pub future: PublishFuture,
    pub calls: Vec<NativeCall>,
}

/// What the first poll of a publish future hands to its owner.
pub struct PublishStart {
    /// The state to register with the native context.
    pub callback_state: PublishFutureUserData,
    /// The receiving end of the queue. Its owner polls it from inside a task
    /// and hands what it gave to `poll`.
    pub rx: Receiver<Result<(), ClientError>>,
    /// The calls to make, in order.
    pub calls: Vec<NativeCall>,
}

impl View for PublishFuture {
    type V = PublishState;

    closed spec fn view(&self) -> PublishState {
        PublishState {
            binding: self.config@,
            message: self.msg@,
            phase: self.phase,
            released: self.released,
        }
    }
}

impl PublishFuture {
    #[verifier::type_invariant]
    spec fn well_formed(self) -> bool {
        nul_free(self.msg@)
    }

    /// Makes the future for one serialized message. A message with an
    /// embedded NUL is refused. The future is unstarted: only the context's
    /// setup is asked for.
    pub fn new(config: ChannelConfig, msg: &str) -> (made: Result<PublishStartup, InvalidText>)
        ensures
            made is Ok <==> nul_free(msg@),
            made matches Err(e) ==> defect(msg@, TextField::Payload) == Some(e),
            made matches Ok(startup) ==> {
                &&& startup.future@ == (PublishState {
                    binding: config@,
                    message: msg@,
                    phase: Phase::Unstarted,
                    released: false,
                })
                &&& startup.calls@ == publish_startup()
            },
    {
        match check_text(msg, TextField::Payload) {
            Err(e) => {
                return Err(e);
            },
            Ok(()) => {},
        }
        let mut calls: Vec<NativeCall> = Vec::new();
        calls.push(NativeCall::Allocate);
        calls.push(NativeCall::Initialize);
        calls.push(NativeCall::SetIdentity);
        calls.push(NativeCall::SetAuth);
        assert(calls@ == publish_startup());
        let future = PublishFuture {
            config,
            msg: String::from_str(msg),
            phase: Phase::Unstarted,
            released: false,
        };
        Ok(PublishStartup { future, calls })
    }

    /// The texts that the calls of this future take as operands.
    pub fn config(&self) -> (config: &ChannelConfig)
        ensures
            config@ == self@.binding,
    {
        &self.config
    }

    /// The serialized message, free of NUL.
    pub fn message(&self) -> (text: &str)
        ensures
            text@ == self@.message,
            nul_free(text@),
    {
        proof {
            use_type_invariant(self);
        }
        self.msg.as_str()
    }

    /// The texts that `call` takes on this future's context, each of them
    /// free of NUL.
    pub fn operands(&self, call: NativeCall) -> (texts: Operands<'_>)
        ensures
            texts@ == self@.binding.operands(call, Some(self@.message)),
            texts@.valid(),
    {
        proof {
            use_type_invariant(self);
        }
        self.config.operands(call, Some(self.msg.as_str()))
    }

    pub fn phase(&self) -> (phase: Phase)
        ensures
            phase == self@.phase,
    {
        self.phase
    }

    pub fn is_released(&self) -> (released: bool)
        ensures
            released == self@.released,
    {
        self.released
    }

    /// The first step of a poll. An unstarted future becomes pending and
    /// hands out its queue, its callback state and the calls that launch the
    /// publish; a future that was started or given up before hands out
    /// nothing and asks for no call.
    pub fn start(&mut self) -> (launched: Option<PublishStart>)
        ensures
            final(self)@ == old(self)@.started(),
            launched is Some <==> old(self)@.starts(),
            launched matches Some(start) ==> start.calls@ == old(self)@.launch(),
    {
        if self.released {
            return None;
        }
        match self.phase {
            Phase::Unstarted => {},
            _ => {
                return None;
            },
        }
        proof {
            use_type_invariant(&*self);
        }
        self.phase = Phase::Pending;
        let (tx, rx) = bounded_channel::<Result<(), ClientError>>(PUBLISH_BUFFER);
        let mut calls: Vec<NativeCall> = Vec::new();
        calls.push(NativeCall::RegisterPublishCallback);
        calls.push(NativeCall::Publish);
        assert(calls@ == publish_launch());
        Some(PublishStart { callback_state: PublishFutureUserData { tx }, rx, calls })
    }

    /// The second step of a poll, for a future that `start` found started:
    /// answers to what its queue gave.
    pub fn poll(&mut self, polled: ChannelPoll<Result<(), ClientError>>) -> (answer: Result<
        Polled<()>,
        ClientError,
    >)
        ensures
            answer == old(self)@.answer(polled),
            final(self)@ == old(self)@.polled(polled),
    {
        match self.phase {
            Phase::Pending => {},
            _ => {
                return Ok(Polled::NotReady);
            },
        }
        proof {
            use_type_invariant(&*self);
        }
        match polled {
            ChannelPoll::Item(Ok(_)) => {
                self.phase = Phase::Resolved;
                Ok(Polled::Ready(()))
            },
            ChannelPoll::Item(Err(e)) => {
                self.phase = Phase::Resolved;
                Err(e)
            },
            ChannelPoll::Closed => {
                self.phase = Phase::Resolved;
                Err(ClientError::PollError)
            },
            ChannelPoll::Failed => {
                self.phase = Phase::Resolved;
                Err(ClientError::PollError)
            },
            ChannelPoll::Empty => Ok(Polled::NotReady),
        }
    }

    /// Gives the native context up. The first call returns the teardown, in
    /// order; any later call returns nothing.
    pub fn release(&mut self) -> (calls: Vec<NativeCall>)
        ensures
            calls@ == old(self)@.teardown(),
            final(self)@ == old(self)@.freed(),
    {
        let mut calls: Vec<NativeCall> = Vec::new();
        if !self.released {
            proof {
                use_type_invariant(&*self);
            }
            self.released = true;
            calls.push(NativeCall::Free);
            match self.phase {
                Phase::Unstarted => {},
                _ => {
                    calls.push(NativeCall::ReclaimCallbackState);
                },
            }
        }
        assert(calls@ == old(self)@.teardown());
        calls
    }
}

/// Idempotent start: however often a future is asked to start, the native
/// publish call is asked for exactly once if the future was unstarted and
/// not given up, and never otherwise. A started future that is polled
/// before its completion has arrived answers not ready and stays as it is.
pub proof fn lemma_publish_launched_once(state: PublishState)
    ensures
        occurrences(state.launch() + state.started().launch(), NativeCall::Publish) == if state.starts() {
            1nat
        } else {
            0nat
        },
        state.started().launch() == Seq::<NativeCall>::empty(),
        state.started().started() == state.started(),
        state.started().answer(ChannelPoll::Empty) == Ok::<Polled<()>, ClientError>(
            Polled::NotReady,
        ),
        state.started().polled(ChannelPoll::Empty) == state.started(),
{
    reveal_with_fuel(occurrences, 3);
    let calls = state.launch();
    assert(calls + state.started().launch() == calls);
    if state.starts() {
        assert(calls.drop_last() == seq![NativeCall::RegisterPublishCallback]);
        assert(calls.drop_last().drop_last() == Seq::<NativeCall>::empty());
    }
}

/// A pending future that is handed the item of a publish completion
/// resolves to success for the success status and to the failing status
/// otherwise, and it does so once: from then on it answers not ready to
/// whatever it is handed, and does not change.
pub proof fn lemma_publish_resolves_once(
    state: PublishState,
    status: u32,
    later: ChannelPoll<Result<(), ClientError>>,
)
    requires
        state.phase == Phase::Pending,
    ensures
        publish_item(Transaction::Publish, status) is Some,
        ({
            let item = publish_item(Transaction::Publish, status)->0;
            let resolved = state.polled(ChannelPoll::Item(item));
            &&& state.answer(ChannelPoll::Item(item)) == if status == STATUS_OK {
                Ok::<Polled<()>, ClientError>(Polled::Ready(()))
            } else {
                Err::<Polled<()>, ClientError>(ClientError::PubNub { code: status })
            }
            &&& resolved.phase == Phase::Resolved
            &&& resolved.answer(later) == Ok::<Polled<()>, ClientError>(Polled::NotReady)
            &&& resolved.polled(later) == resolved
        }),
{
}

/// Giving a publish future up, at whatever point and however often, frees
/// the native context exactly once if it was not freed before. The callback
/// state is reclaimed exactly when one was registered, and only after the
/// context is freed. A future that was given up asks for no call any more.
pub proof fn lemma_publish_freed_once(state: PublishState)
    ensures
        occurrences(state.teardown() + state.freed().teardown(), NativeCall::Free) == if state.released {
            0nat
        } else {
            1nat
        },
        occurrences(state.teardown(), NativeCall::ReclaimCallbackState) == if !state.released
            && state.phase != Phase::Unstarted {
            1nat
        } else {
            0nat
        },
        reclaims_follow_free(state.teardown()),
        state.freed().teardown() == Seq::<NativeCall>::empty(),
        state.freed().launch() == Seq::<NativeCall>::empty(),
{
    reveal_with_fuel(occurrences, 3);
    let calls = state.teardown();
    assert(calls + state.freed().teardown() == calls);
    if !state.released {
        assert(calls[0] == NativeCall::Free);
        if state.phase == Phase::Unstarted {
            assert(calls.drop_last() == Seq::<NativeCall>::empty());
        } else {
            assert(calls.drop_last() == seq![NativeCall::Free]);
            assert(calls.drop_last().drop_last() == Seq::<NativeCall>::empty());
        }
    }
}

} // verus!
