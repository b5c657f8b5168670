//! The engine slot: the engine is built at most once, by one caller, and
//! the outcome of that one attempt, a handle or a message, stays for good.

use crate::message::{init_failure, init_failure_message};
use vstd::prelude::*;

verus! {

/// What an engine slot holds, as contracts see it.
pub enum EngineStatus<E> {
    /// Nobody has been told to build the engine.
    Uninitialized,
    /// One caller has been told to build the engine and has not reported yet.
    Initializing,
    /// The engine was built; this is its handle.
    Ready(E),
    /// The one attempt failed; this is the message kept of it.
    Failed(Seq<char>),
}

/// What a caller that asks for the engine is told, as contracts see it.
pub enum EngineAccessView {
    Build,
    Wait,
    Ready,
    Failed(Seq<char>),
}

impl<E> EngineStatus<E> {
    /// Whether the one attempt has ended, either way.
    pub open spec fn settled(self) -> bool {
        self is Ready || self is Failed
    }

    /// Whether a kept message, if there is one, is a message of a failed
    /// attempt.
    pub open spec fn wf(self) -> bool {
        self matches EngineStatus::Failed(message) ==> exists|detail: Seq<char>|
            message == init_failure(detail)
    }

    /// What a caller that asks for the engine is told.
    pub open spec fn access(self) -> EngineAccessView {
        match self {
            EngineStatus::Uninitialized => EngineAccessView::Build,
            EngineStatus::Initializing => EngineAccessView::Wait,
            EngineStatus::Ready(_) => EngineAccessView::Ready,
            EngineStatus::Failed(message) => EngineAccessView::Failed(message),
        }
    }

    /// The status after a caller has asked for the engine: the first one to
    /// ask is the one that builds it.
    pub open spec fn request(self) -> Self {
        match self {
            EngineStatus::Uninitialized => EngineStatus::Initializing,
            _ => self,
        }
    }

    /// The status after an attempt has ended with `built`: the first outcome
    /// stays, a later one is dropped.
    pub open spec fn settle(self, built: Result<E, Seq<char>>) -> Self {
        if self.settled() {
            self
        } else {
            match built {
                Ok(handle) => EngineStatus::Ready(handle),
                Err(detail) => EngineStatus::Failed(init_failure(detail)),
            }
        }
    }

    /// The status after the caller that was building the engine has given
    /// up without an outcome: the next caller to ask builds it.
    pub open spec fn abandon(self) -> Self {
        match self {
            EngineStatus::Initializing => EngineStatus::Uninitialized,
            _ => self,
        }
    }
}

/// What a caller that asks for the engine is told.
#[derive(Debug, PartialEq, Eq)]
pub enum EngineAccess {
    /// Build the engine, then settle the slot with the outcome.
    Build,
    /// Another caller is building the engine: wait until the slot is settled.
    Wait,
    /// The engine is there.
    Ready,
    /// The one attempt to build the engine failed; this is the message.
    Failed(String),
}

impl View for EngineAccess {
    type V = EngineAccessView;

    open spec fn view(&self) -> EngineAccessView {
        match *self {
            EngineAccess::Build => EngineAccessView::Build,
            EngineAccess::Wait => EngineAccessView::Wait,
            EngineAccess::Ready => EngineAccessView::Ready,
            EngineAccess::Failed(message) => EngineAccessView::Failed(message@),
        }
    }
}

enum Slot<E> {
    Uninitialized,
    Initializing,
    Ready(E),
    Failed(String),
}

/// The slot that holds the engine once it is built.
///
/// It starts uninitialized. The first caller that asks for the engine is
/// told to build it, and whoever asks while it does so is told to wait. The
/// slot is written once, with the first outcome that is reported, and never
/// changes after that.
pub struct EngineSlot<E> {
    slot: Slot<E>,
}

impl<E> View for EngineSlot<E> {
    type V = EngineStatus<E>;

    closed spec fn view(&self) -> EngineStatus<E> {
        match self.slot {
            Slot::Uninitialized => EngineStatus::Uninitialized,
            Slot::Initializing => EngineStatus::Initializing,
            Slot::Ready(handle) => EngineStatus::Ready(handle),
            Slot::Failed(message) => EngineStatus::Failed(message@),
        }
    }
}

impl<E> EngineSlot<E> {
    /// Every slot is well formed, whatever has happened to it.
    #[verifier::type_invariant]
    pub open spec fn valid(self) -> bool {
        self@.wf()
    }

    /// A slot for an engine that nobody has tried to build yet.
    pub fn new() -> (slot: Self)
        ensures
            slot@ is Uninitialized,
    {
        EngineSlot { slot: Slot::Uninitialized }
    }

    /// Asks for the engine on behalf of a caller.
    ///
    /// The first caller to ask is told to build the engine. Until the slot
    /// is settled every other caller is told to wait. After that all callers
    /// get the same answer for good.
    pub fn request(&mut self) -> (access: EngineAccess)
        ensures
            access@ == old(self)@.access(),
            final(self)@ == old(self)@.request(),
            final(self)@.wf(),
    {
        proof {
            use_type_invariant(&*self);
        }
        match &self.slot {
            Slot::Uninitialized => {
                self.slot = Slot::Initializing;
                EngineAccess::Build
            },
            Slot::Initializing => EngineAccess::Wait,
            Slot::Ready(_) => EngineAccess::Ready,
            Slot::Failed(message) => EngineAccess::Failed(message.clone()),
        }
    }

    /// Ends the attempt to build the engine with its outcome: the handle, or
    /// the builder's account of the failure.
    ///
    /// Only the first outcome is kept. On a slot that is settled already the
    /// call changes nothing and `built` is dropped.
    pub fn settle(&mut self, built: Result<E, String>)
        ensures
            final(self)@ == old(self)@.settle(
                match built {
                    Ok(handle) => Ok(handle),
                    Err(detail) => Err(detail@),
                },
            ),
            final(self)@.wf(),
    {
        proof {
            use_type_invariant(&*self);
        }
        match &self.slot {
            Slot::Ready(_) | Slot::Failed(_) => {},
            _ => {
                match built {
                    Ok(handle) => {
                        self.slot = Slot::Ready(handle);
                    },
                    Err(detail) => {
                        self.slot = Slot::Failed(init_failure_message(detail.as_str()));
                    },
                }
            },
        }
    }

    /// Ends the attempt to build the engine without an outcome, for a
    /// builder that has given up. The next caller to ask builds the engine.
    /// A slot on which nobody is building stays as it is.
    pub fn abandon(&mut self)
        ensures
            final(self)@ == old(self)@.abandon(),
            final(self)@.wf(),
    {
        proof {
            use_type_invariant(&*self);
        }
        if let Slot::Initializing = self.slot {
            self.slot = Slot::Uninitialized;
        }
    }
}

/// Looks up the engine.
///
/// `None` says that the slot is not settled yet. After that the answer is
/// the same on every call: the handle, or the message of the failure.
pub fn get_ocr<E>(slot: &EngineSlot<E>) -> (found: Option<Result<&E, String>>)
    ensures
        slot@.wf(),
        match slot@ {
            EngineStatus::Ready(handle) => found == Some(Ok::<&E, String>(&handle)),
            EngineStatus::Failed(message) => found matches Some(Err(copy)) && copy@ == message,
            _ => found is None,
        },
{
    proof {
        use_type_invariant(slot);
    }
    match &slot.slot {
        Slot::Ready(handle) => Some(Ok(handle)),
        Slot::Failed(message) => Some(Err(message.clone())),
        _ => None,
    }
}

} // verus!
