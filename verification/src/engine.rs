//! The native engine as the bridges see it: the calls they ask for, and the
//! completions it reports back.
//!
//! The bridges never touch the engine themselves. Each step of a bridge
//! returns the calls that its owner has to make on the bridge's context, in
//! order; the operands of a call are the texts that the bridge holds.

use crate::text::nul_free;
use vstd::prelude::*;

verus! {

/// A call on the native context of one bridge.
#[derive(Clone, Copy, Debug, PartialEq, Eq, Structural)]
pub enum NativeCall {
    /// Allocate the context.
    Allocate,
    /// Initialise it with the publish key and the subscribe key.
    Initialize,
    /// Set the client identifier.
    SetIdentity,
    /// Set the authentication key.
    SetAuth,
    /// Register the subscribe callback with the bridge's callback state.
    RegisterSubscribeCallback,
    /// Register the publish callback with the bridge's callback state.
    RegisterPublishCallback,
    /// Subscribe to the bridge's channel, with no group.
    Subscribe,
    /// Publish the bridge's message on its channel.
    Publish,
    /// Free the context. The engine invokes no callback after this call.
    Free,
    /// Reclaim the callback state that was registered with the context.
    ReclaimCallbackState,
}

/// The texts that one native call takes, in the order of its arguments. A
/// call takes at most two; an argument that is left out is passed as null.
pub struct Operands<'a> {
    pub first: Option<&'a str>,
    pub second: Option<&'a str>,
}

/// The operands of a call as texts.
pub struct OperandTexts {
    pub first: Option<Seq<char>>,
    pub second: Option<Seq<char>>,
}

impl OperandTexts {
    /// True when each text can be handed to the native engine.
    pub open spec fn valid(self) -> bool {
        &&& self.first matches Some(text) ==> nul_free(text)
        &&& self.second matches Some(text) ==> nul_free(text)
    }
}

impl<'a> View for Operands<'a> {
    type V = OperandTexts;

    open spec fn view(&self) -> OperandTexts {
        OperandTexts {
            first: match self.first {
                Some(text) => Some(text@),
                None => None,
            },
            second: match self.second {
                Some(text) => Some(text@),
                None => None,
            },
        }
    }
}

/// The tag of a completion: which kind of transaction has finished.
#[derive(Clone, Copy, Debug, PartialEq, Eq, Structural)]
pub enum Transaction {
    Subscribe,
    Publish,
    Other,
}

/// What the receiving end of a bridge's queue reported when it was polled.
#[derive(Debug)]
pub enum ChannelPoll<I> {
    /// The oldest item of the queue.
    Item(I),
    /// The queue is empty and no sender is left.
    Closed,
    /// The queue is empty for now.
    Empty,
    /// The queue itself failed.
    Failed,
}

/// The answer of a bridge to being polled.
#[derive(Debug, PartialEq, Eq)]
pub enum Polled<V> {
    Ready(V),
    NotReady,
}

/// How often `call` occurs in `calls`.
pub open spec fn occurrences(calls: Seq<NativeCall>, call: NativeCall) -> nat
    decreases calls.len(),
{
    if calls.len() == 0 {
        0
    } else {
        occurrences(calls.drop_last(), call) + if calls.last() == call {
            1nat
        } else {
            0nat
        }
    }
}

/// True when the callback state is reclaimed in `calls` only after the
/// context was freed: from the free on the engine invokes no callback, so
/// that nothing can reach the state once it is gone.
pub open spec fn reclaims_follow_free(calls: Seq<NativeCall>) -> bool {
    forall|i: int|
        0 <= i < calls.len() && #[trigger] calls[i] == NativeCall::ReclaimCallbackState
            ==> exists|j: int| 0 <= j < i && #[trigger] calls[j] == NativeCall::Free
}

} // verus!
