//! The classification call, as the boundary decides it.
//!
//! A call is a short exchange. The caller reports what happened as an
//! event; `solve_captcha` answers with what to do next, and on every failure
//! path it records the message before it answers with the null signal.

use crate::encoding::representable;
use crate::engine::{EngineAccess, EngineAccessView, EngineSlot, EngineStatus};
use crate::guarantees::lemma_null_signal_has_message;
use crate::last_error::{set_error, ErrorSlot};
use crate::message::{check_text, classification_failure, classification_failure_message,
    conversion_failure, internal_fault, internal_fault_message, null_pointer,
    null_pointer_message, zero_length, zero_length_message};
use vstd::prelude::*;

verus! {

/// What the caller reports to the boundary.
#[derive(Debug)]
pub enum CallEvent<E> {
    /// The host has called, with this buffer. A caller that was told to
    /// wait reports this again once the engine slot may be settled.
    Received { pointer_is_null: bool, length: usize },
    /// The engine was built; this is its handle.
    Constructed(E),
    /// The engine could not be built; this is the builder's account.
    ConstructionFailed(String),
    /// The engine has read the image; this is the text it found.
    Classified(String),
    /// The engine could not read the image; this is its account.
    ClassificationFailed(String),
    /// A fault was trapped, with these words if it came with any.
    /// `building` says whether it struck while this caller was building the
    /// engine: after it was told to, and before it reported the outcome.
    Faulted { words: Option<String>, building: bool },
}

/// A `CallEvent` as contracts see it.
pub enum CallEventView<E> {
    Received { pointer_is_null: bool, length: usize },
    Constructed(E),
    ConstructionFailed(Seq<char>),
    Classified(Seq<char>),
    ClassificationFailed(Seq<char>),
    Faulted { words: Option<Seq<char>>, building: bool },
}

impl<E> View for CallEvent<E> {
    type V = CallEventView<E>;

    open spec fn view(&self) -> CallEventView<E> {
        match *self {
            CallEvent::Received { pointer_is_null, length } => CallEventView::Received {
                pointer_is_null,
                length,
            },
            CallEvent::Constructed(handle) => CallEventView::Constructed(handle),
            CallEvent::ConstructionFailed(detail) => CallEventView::ConstructionFailed(detail@),
            CallEvent::Classified(text) => CallEventView::Classified(text@),
            CallEvent::ClassificationFailed(detail) => CallEventView::ClassificationFailed(
                detail@,
            ),
            CallEvent::Faulted { words, building } => CallEventView::Faulted {
                words: match words {
                    Some(words) => Some(words@),
                    None => None,
                },
                building,
            },
        }
    }
}

/// What the boundary tells the caller to do next.
#[derive(Debug, PartialEq, Eq)]
pub enum CallAction {
    /// Build the engine and report the outcome. This caller is the only
    /// one that is told so, unless it gives up with a fault.
    Construct,
    /// Another caller is building the engine. Wait until it has reported,
    /// then report `Received` again.
    Wait,
    /// Run the engine on the image and report the outcome.
    Classify,
    /// End the call and hand this text to the host, which owns it from then on.
    Return(String),
    /// End the call with the null signal. The message has been recorded.
    ReturnNull,
}

/// A `CallAction` as contracts see it.
pub enum CallActionView {
    Construct,
    Wait,
    Classify,
    Return(Seq<char>),
    ReturnNull,
}

impl View for CallAction {
    type V = CallActionView;

    open spec fn view(&self) -> CallActionView {
        match *self {
            CallAction::Construct => CallActionView::Construct,
            CallAction::Wait => CallActionView::Wait,
            CallAction::Classify => CallActionView::Classify,
            CallAction::Return(text) => CallActionView::Return(text@),
            CallAction::ReturnNull => CallActionView::ReturnNull,
        }
    }
}

/// The state of the boundary after an event, and the answer to it.
pub struct Response<E> {
    pub engine: EngineStatus<E>,
    pub last_error: Seq<char>,
    pub action: CallActionView,
}

/// The call fails: `message` is recorded and the answer is the null signal.
pub open spec fn reject<E>(engine: EngineStatus<E>, message: Seq<char>) -> Response<E> {
    Response { engine, last_error: message, action: CallActionView::ReturnNull }
}

/// The call asks for the engine and goes on as the engine slot allows: the
/// first caller to ask builds the engine, others wait until it has, and a
/// failed attempt ends the call with the message kept of it.
pub open spec fn proceed<E>(engine: EngineStatus<E>, last_error: Seq<char>) -> Response<E> {
    match engine.access() {
        EngineAccessView::Build => Response {
            engine: engine.request(),
            last_error,
            action: CallActionView::Construct,
        },
        EngineAccessView::Wait => Response { engine, last_error, action: CallActionView::Wait },
        EngineAccessView::Ready => Response { engine, last_error, action: CallActionView::Classify },
        EngineAccessView::Failed(message) => reject(engine, message),
    }
}

/// What the boundary does on `event`, in the state given by `engine` and
/// `last_error`.
pub open spec fn respond<E>(
    engine: EngineStatus<E>,
    last_error: Seq<char>,
    event: CallEventView<E>,
) -> Response<E> {
    match event {
        CallEventView::Received { pointer_is_null, length } => if pointer_is_null {
            reject(engine, null_pointer())
        } else if length == 0 {
            reject(engine, zero_length())
        } else {
            proceed(engine, last_error)
        },
        CallEventView::Constructed(handle) => proceed(engine.settle(Ok(handle)), last_error),
        CallEventView::ConstructionFailed(detail) => proceed(
            engine.settle(Err(detail)),
            last_error,
        ),
        CallEventView::Classified(text) => if representable(text) {
            Response { engine, last_error, action: CallActionView::Return(text) }
        } else {
            reject(engine, conversion_failure(text))
        },
        CallEventView::ClassificationFailed(detail) => reject(
            engine,
            classification_failure(detail),
        ),
        CallEventView::Faulted { words, building } => reject(
            if building {
                engine.abandon()
            } else {
                engine
            },
            internal_fault(words),
        ),
    }
}

fn fail(errors: &mut ErrorSlot, message: String) -> (action: CallAction)
    ensures
        final(errors)@ == message@,
        action@ == CallActionView::ReturnNull,
{
    set_error(errors, message);
    CallAction::ReturnNull
}

fn go_on<E>(engine: &mut EngineSlot<E>, errors: &mut ErrorSlot) -> (action: CallAction)
    ensures
        final(engine)@ == proceed(old(engine)@, old(errors)@).engine,
        final(errors)@ == proceed(old(engine)@, old(errors)@).last_error,
        action@ == proceed(old(engine)@, old(errors)@).action,
        final(engine)@.wf(),
{
    match engine.request() {
        EngineAccess::Build => CallAction::Construct,
        EngineAccess::Wait => CallAction::Wait,
        EngineAccess::Ready => CallAction::Classify,
        EngineAccess::Failed(message) => fail(errors, message),
    }
}

/// Takes one step of a classification call.
///
/// The caller starts with `Received`, then does what each answer says and
/// reports the outcome as the next event, until the answer is `Return` or
/// `ReturnNull`. A fault trapped at any point is reported as `Faulted`.
///
/// The null signal never comes without a message: when the answer is
/// `ReturnNull`, a message that is not empty has just been recorded in
/// `errors`. Any other answer leaves `errors` as it was.
pub fn solve_captcha<E>(
    engine: &mut EngineSlot<E>,
    errors: &mut ErrorSlot,
    event: CallEvent<E>,
) -> (action: CallAction)
    ensures
        final(engine)@ == respond(old(engine)@, old(errors)@, event@).engine,
        final(errors)@ == respond(old(engine)@, old(errors)@, event@).last_error,
        action@ == respond(old(engine)@, old(errors)@, event@).action,
        final(engine)@.wf(),
        action@ is ReturnNull ==> final(errors)@.len() > 0,
        !(action@ is ReturnNull) ==> final(errors)@ == old(errors)@,
{
    proof {
        use_type_invariant(&*engine);
        lemma_null_signal_has_message(engine@, errors@, event@);
    }
    match event {
        CallEvent::Received { pointer_is_null, length } => {
            if pointer_is_null {
                fail(errors, null_pointer_message())
            } else if length == 0 {
                fail(errors, zero_length_message())
            } else {
                go_on(engine, errors)
            }
        },
        CallEvent::Constructed(handle) => {
            engine.settle(Ok(handle));
            go_on(engine, errors)
        },
        CallEvent::ConstructionFailed(detail) => {
            engine.settle(Err(detail));
            go_on(engine, errors)
        },
        CallEvent::Classified(text) => match check_text(text) {
            Ok(text) => CallAction::Return(text),
            Err(message) => fail(errors, message),
        },
        CallEvent::ClassificationFailed(detail) => fail(
            errors,
            classification_failure_message(detail.as_str()),
        ),
        CallEvent::Faulted { words, building } => {
            if building {
                engine.abandon();
            }
            fail(errors, internal_fault_message(words))
        },
    }
}

} // verus!
