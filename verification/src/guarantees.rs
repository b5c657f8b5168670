//! What holds of every exchange with the boundary, whatever the caller
//! reports and in whatever order.
//!
//! The statements are about `respond`, which is what `solve_captcha` does to
//! the two slots and answers, so each of them holds of every call.

use crate::call::{reject, respond, CallActionView, CallEventView, Response};
use crate::encoding::representable;
use crate::engine::EngineStatus;
use crate::message::{conversion_failure, init_failure, internal_fault, lemma_messages_are_not_empty,
    lemma_messages_can_cross};
use vstd::prelude::*;

verus! {

/// The two slots after a run of events, reported one after the other.
pub open spec fn after<E>(
    engine: EngineStatus<E>,
    last_error: Seq<char>,
    events: Seq<CallEventView<E>>,
) -> (EngineStatus<E>, Seq<char>)
    decreases events.len(),
{
    if events.len() == 0 {
        (engine, last_error)
    } else {
        let before = after(engine, last_error, events.drop_last());
        let response = respond(before.0, before.1, events.last());
        (response.engine, response.last_error)
    }
}

/// The answer to the event at place `i` of a run of events.
pub open spec fn answer<E>(
    engine: EngineStatus<E>,
    last_error: Seq<char>,
    events: Seq<CallEventView<E>>,
    i: int,
) -> CallActionView {
    let before = after(engine, last_error, events.take(i));
    respond(before.0, before.1, events[i]).action
}

/// The outcome of an attempt to build the engine, if `event` reports one.
pub open spec fn outcome<E>(event: CallEventView<E>) -> Option<Result<E, Seq<char>>> {
    match event {
        CallEventView::Constructed(handle) => Some(Ok(handle)),
        CallEventView::ConstructionFailed(detail) => Some(Err(detail)),
        _ => None,
    }
}

/// The account from outside that `event` carries and that a message may
/// quote: the builder's or the engine's account of a failure, or the words
/// of a fault. Other events carry none.
pub open spec fn account<E>(event: CallEventView<E>) -> Seq<char> {
    match event {
        CallEventView::ConstructionFailed(detail) => detail,
        CallEventView::ClassificationFailed(detail) => detail,
        CallEventView::Faulted { words: Some(words), .. } => words,
        _ => Seq::empty(),
    }
}

/// Whether the message kept of a failed attempt, if there is one, can cross
/// the boundary.
pub open spec fn kept_message_can_cross<E>(engine: EngineStatus<E>) -> bool {
    match engine {
        EngineStatus::Failed(message) => representable(message),
        _ => true,
    }
}

/// Whether `event` reports that the caller that was building the engine
/// has given up with a fault.
pub open spec fn gives_up<E>(event: CallEventView<E>) -> bool {
    event matches CallEventView::Faulted { building, .. } && building
}

/// How many events of a run are answered with `Construct`.
pub open spec fn builds<E>(
    engine: EngineStatus<E>,
    last_error: Seq<char>,
    events: Seq<CallEventView<E>>,
) -> nat
    decreases events.len(),
{
    if events.len() == 0 {
        0
    } else {
        let before = builds(engine, last_error, events.drop_last());
        if answer(engine, last_error, events, events.len() - 1) is Construct {
            before + 1
        } else {
            before
        }
    }
}

/// How far a call has come when `event` is reported.
pub open spec fn stage<E>(event: CallEventView<E>) -> nat {
    match event {
        CallEventView::Received { .. } => 0,
        CallEventView::Constructed(_) => 1,
        CallEventView::ConstructionFailed(_) => 1,
        CallEventView::Classified(_) => 2,
        CallEventView::ClassificationFailed(_) => 2,
        CallEventView::Faulted { .. } => 2,
    }
}

/// Whether `next` is a report that a caller may give after it was told
/// `action`: the outcome of the work that the action names, or a fault.
pub open spec fn reports<E>(action: CallActionView, next: CallEventView<E>) -> bool {
    match action {
        CallActionView::Construct => outcome(next) is Some || next is Faulted,
        CallActionView::Classify => next is Classified || next is ClassificationFailed
            || next is Faulted,
        _ => false,
    }
}

/// A call that passes no buffer ends at once with the null signal, and the
/// last error says that the pointer is null. This holds whatever the length
/// and whatever the state of the engine, which the call does not touch.
pub proof fn lemma_null_pointer_is_rejected<E>(
    engine: EngineStatus<E>,
    last_error: Seq<char>,
    length: usize,
)
    ensures
        respond(engine, last_error, CallEventView::Received { pointer_is_null: true, length })
            == (Response {
            engine,
            last_error: "image pointer is null"@,
            action: CallActionView::ReturnNull,
        }),
{
}

/// A call that passes an empty buffer ends at once with the null signal,
/// and the last error says that the length is 0. The engine is not touched.
pub proof fn lemma_zero_length_is_rejected<E>(engine: EngineStatus<E>, last_error: Seq<char>)
    ensures
        respond(engine, last_error, CallEventView::Received { pointer_is_null: false, length: 0 })
            == (Response {
            engine,
            last_error: "image length is 0"@,
            action: CallActionView::ReturnNull,
        }),
{
}

/// A call that passes a buffer asks for the engine and records nothing,
/// unless the one attempt to build the engine has failed: then the call
/// ends with the null signal and the last error is the message kept of that
/// failure, letter for letter. The first call to ask is told to build the
/// engine, and calls that ask while it does so are told to wait.
pub proof fn lemma_buffer_reaches_the_engine<E>(
    engine: EngineStatus<E>,
    last_error: Seq<char>,
    length: usize,
)
    requires
        length > 0,
    ensures
        respond(engine, last_error, CallEventView::Received { pointer_is_null: false, length })
            == (match engine {
            EngineStatus::Uninitialized => Response {
                engine: EngineStatus::Initializing,
                last_error,
                action: CallActionView::Construct,
            },
            EngineStatus::Initializing => Response {
                engine,
                last_error,
                action: CallActionView::Wait,
            },
            EngineStatus::Ready(_) => Response {
                engine,
                last_error,
                action: CallActionView::Classify,
            },
            EngineStatus::Failed(message) => Response {
                engine,
                last_error: message,
                action: CallActionView::ReturnNull,
            },
        }),
{
}

/// A text that can cross the boundary is handed to the host as the engine
/// found it, and nothing is recorded. A text that cannot cross is never cut
/// short or altered: the call ends with the null signal and the last error
/// reports the refusal.
pub proof fn lemma_text_is_returned_whole<E>(
    engine: EngineStatus<E>,
    last_error: Seq<char>,
    text: Seq<char>,
)
    ensures
        representable(text) ==> respond(engine, last_error, CallEventView::Classified(text)) == (
        Response { engine, last_error, action: CallActionView::Return(text) }),
        !representable(text) ==> respond(engine, last_error, CallEventView::Classified(text))
            == reject(engine, conversion_failure(text)),
{
}

/// A trapped fault ends the call with the null signal, and the last error
/// starts with the words "internal fault". A settled engine slot is not
/// touched, and neither is one whose builder is another caller.
pub proof fn lemma_fault_is_contained<E>(
    engine: EngineStatus<E>,
    last_error: Seq<char>,
    words: Option<Seq<char>>,
    building: bool,
)
    ensures
        respond(engine, last_error, CallEventView::Faulted { words, building }).action
            is ReturnNull,
        respond(engine, last_error, CallEventView::Faulted { words, building }).last_error
            == internal_fault(words),
        internal_fault(words).len() >= 14,
        internal_fault(words).subrange(0, 14) == "internal fault"@,
        !building || engine.settled() ==> respond(
            engine,
            last_error,
            CallEventView::Faulted { words, building },
        ).engine == engine,
{
    reveal_strlit("internal fault");
    reveal_strlit("internal fault: ");
    reveal_strlit("internal fault: unknown");
}

/// The null signal never comes without a message: whenever the answer is
/// `ReturnNull`, the last error has just been written and is not empty. Any
/// other answer leaves the last error as it was.
pub proof fn lemma_null_signal_has_message<E>(
    engine: EngineStatus<E>,
    last_error: Seq<char>,
    event: CallEventView<E>,
)
    requires
        engine.wf(),
    ensures
        respond(engine, last_error, event).action is ReturnNull ==> respond(
            engine,
            last_error,
            event,
        ).last_error.len() > 0,
        !(respond(engine, last_error, event).action is ReturnNull) ==> respond(
            engine,
            last_error,
            event,
        ).last_error == last_error,
{
    if let EngineStatus::Failed(message) = engine {
        let kept = choose|kept: Seq<char>| message == init_failure(kept);
        lemma_messages_are_not_empty(kept, Seq::empty(), None);
    }
    match event {
        CallEventView::Classified(text) => {
            lemma_messages_are_not_empty(Seq::empty(), text, None);
        },
        CallEventView::Faulted { words, .. } => {
            lemma_messages_are_not_empty(Seq::empty(), Seq::empty(), words);
        },
        _ => {
            lemma_messages_are_not_empty(account(event), Seq::empty(), None);
        },
    }
}

/// The host can read back what a failed call recorded: as long as the
/// accounts from outside can cross the boundary, so can the last error after
/// every null signal, and so can the message kept in the engine slot.
pub proof fn lemma_recorded_message_can_cross<E>(
    engine: EngineStatus<E>,
    last_error: Seq<char>,
    event: CallEventView<E>,
)
    requires
        kept_message_can_cross(engine),
        representable(account(event)),
    ensures
        respond(engine, last_error, event).action is ReturnNull ==> representable(
            respond(engine, last_error, event).last_error,
        ),
        kept_message_can_cross(respond(engine, last_error, event).engine),
{
    match event {
        CallEventView::Classified(text) => {
            lemma_messages_can_cross(Seq::empty(), text, None);
        },
        CallEventView::Faulted { words, .. } => {
            lemma_messages_can_cross(Seq::empty(), Seq::empty(), words);
        },
        _ => {
            lemma_messages_can_cross(account(event), Seq::empty(), None);
        },
    }
}

/// The boundary keeps the engine slot well formed.
pub proof fn lemma_slot_stays_well_formed<E>(
    engine: EngineStatus<E>,
    last_error: Seq<char>,
    event: CallEventView<E>,
)
    requires
        engine.wf(),
    ensures
        respond(engine, last_error, event).engine.wf(),
{
}

/// A settled engine slot is never written again, and no call is told to
/// build the engine or to wait for it once the slot is settled.
pub proof fn lemma_settled_slot_is_final<E>(
    engine: EngineStatus<E>,
    last_error: Seq<char>,
    event: CallEventView<E>,
)
    requires
        engine.settled(),
    ensures
        respond(engine, last_error, event).engine == engine,
        !(respond(engine, last_error, event).action is Construct),
        !(respond(engine, last_error, event).action is Wait),
{
}

/// The report that an attempt to build the engine has ended settles the
/// slot: with the outcome reported if the slot was not settled, and as it
/// was settled before otherwise.
pub proof fn lemma_first_outcome_stays<E>(
    engine: EngineStatus<E>,
    last_error: Seq<char>,
    event: CallEventView<E>,
)
    requires
        outcome(event) is Some,
    ensures
        respond(engine, last_error, event).engine == engine.settle(outcome(event).unwrap()),
        respond(engine, last_error, event).engine.settled(),
        !engine.settled() ==> respond(engine, last_error, event).engine
            == EngineStatus::<E>::Uninitialized.settle(outcome(event).unwrap()),
        engine.settled() ==> respond(engine, last_error, event).engine == engine,
{
}

/// A call is told to wait only while another caller is building the engine,
/// and waiting changes nothing. The builder's report ends the wait: after
/// it has reported an outcome, or given up, nobody is building.
pub proof fn lemma_wait_ends_with_the_builder<E>(
    engine: EngineStatus<E>,
    last_error: Seq<char>,
    event: CallEventView<E>,
)
    ensures
        respond(engine, last_error, event).action is Wait ==> engine is Initializing
            && respond(engine, last_error, event).engine == engine && respond(
            engine,
            last_error,
            event,
        ).last_error == last_error,
        outcome(event) is Some || gives_up(event) ==> !(respond(engine, last_error, event).engine
            is Initializing),
{
}

/// Over any run of events a settled engine slot stays as it is, and none of
/// the events is answered with `Construct` or with `Wait`.
pub proof fn lemma_settled_slot_is_final_over_runs<E>(
    engine: EngineStatus<E>,
    last_error: Seq<char>,
    events: Seq<CallEventView<E>>,
)
    requires
        engine.settled(),
    ensures
        after(engine, last_error, events).0 == engine,
        forall|i: int|
            0 <= i < events.len() ==> !(#[trigger] answer(engine, last_error, events, i)
                is Construct) && !(answer(engine, last_error, events, i) is Wait),
    decreases events.len(),
{
    if events.len() > 0 {
        lemma_settled_slot_is_final_over_runs(engine, last_error, events.drop_last());
        assert forall|i: int| 0 <= i < events.len() implies !(#[trigger] answer(
            engine,
            last_error,
            events,
            i,
        ) is Construct) && !(answer(engine, last_error, events, i) is Wait) by {
            lemma_settled_slot_is_final_over_runs(engine, last_error, events.take(i));
        }
    }
}

/// All callers see the same outcome: over any run of events that starts
/// with a slot that is not settled, the first report that an attempt has
/// ended decides what the slot holds from then on, and no event from that
/// report on is answered with `Construct`.
pub proof fn lemma_first_outcome_stays_over_runs<E>(
    engine: EngineStatus<E>,
    last_error: Seq<char>,
    events: Seq<CallEventView<E>>,
    first: int,
)
    requires
        !engine.settled(),
        0 <= first < events.len(),
        outcome(events[first]) is Some,
        forall|i: int| 0 <= i < first ==> outcome(#[trigger] events[i]) is None,
    ensures
        after(engine, last_error, events).0 == EngineStatus::<E>::Uninitialized.settle(
            outcome(events[first]).unwrap(),
        ),
        forall|i: int|
            first <= i < events.len() ==> !(#[trigger] answer(engine, last_error, events, i)
                is Construct),
{
    let head = events.take(first);
    let upto = events.take(first + 1);
    let tail = events.skip(first + 1);
    let before = after(engine, last_error, head);
    let settled = after(engine, last_error, upto);
    lemma_unsettled_without_outcome(engine, last_error, head);
    assert(upto.drop_last() == head);
    assert(upto.last() == events[first]);
    lemma_first_outcome_stays(before.0, before.1, events[first]);
    assert(events == upto + tail);
    lemma_after_concat(engine, last_error, upto, tail);
    lemma_settled_slot_is_final_over_runs(settled.0, settled.1, tail);
    assert forall|i: int| first <= i < events.len() implies !(#[trigger] answer(
        engine,
        last_error,
        events,
        i,
    ) is Construct) by {
        if i == first {
            assert(events.take(i) == head);
        } else {
            let middle = events.subrange(first + 1, i);
            let now = after(engine, last_error, events.take(i));
            assert(events.take(i) == upto + middle);
            lemma_after_concat(engine, last_error, upto, middle);
            lemma_settled_slot_is_final_over_runs(settled.0, settled.1, middle);
            lemma_settled_slot_is_final(now.0, now.1, events[i]);
        }
    }
}

/// The engine is built once: over any run of events, from however many
/// callers and in whatever order, at most one event is answered with
/// `Construct`, as long as no builder gives up with a fault. None is if
/// somebody has been told to build the engine before the run.
pub proof fn lemma_engine_is_built_once<E>(
    engine: EngineStatus<E>,
    last_error: Seq<char>,
    events: Seq<CallEventView<E>>,
)
    requires
        forall|i: int| 0 <= i < events.len() ==> !gives_up(#[trigger] events[i]),
    ensures
        builds(engine, last_error, events) <= 1,
        !(engine is Uninitialized) ==> builds(engine, last_error, events) == 0,
        builds(engine, last_error, events) == 1 ==> !(after(engine, last_error, events).0
            is Uninitialized),
        !(engine is Uninitialized) ==> !(after(engine, last_error, events).0 is Uninitialized),
    decreases events.len(),
{
    if events.len() > 0 {
        let earlier = events.drop_last();
        lemma_engine_is_built_once(engine, last_error, earlier);
        assert(events.take(events.len() - 1) == earlier);
        assert(!gives_up(events[events.len() - 1]));
    }
}

/// After a failed attempt to build the engine every later call with a
/// buffer ends with the null signal and the same kept message, whatever was
/// reported in between, and no call is told to build the engine again or to
/// wait for it.
pub proof fn lemma_failure_is_permanent<E>(
    message: Seq<char>,
    last_error: Seq<char>,
    events: Seq<CallEventView<E>>,
    length: usize,
)
    requires
        length > 0,
    ensures
        ({
            let now = after(EngineStatus::<E>::Failed(message), last_error, events);
            respond(now.0, now.1, CallEventView::Received { pointer_is_null: false, length })
                == reject(EngineStatus::<E>::Failed(message), message)
        }),
        forall|i: int|
            0 <= i < events.len() ==> !(#[trigger] answer(
                EngineStatus::<E>::Failed(message),
                last_error,
                events,
                i,
            ) is Construct) && !(answer(EngineStatus::<E>::Failed(message), last_error, events, i)
                is Wait),
{
    lemma_settled_slot_is_final_over_runs(EngineStatus::<E>::Failed(message), last_error, events);
}

/// A call comes to its end: each report that follows an answer of
/// `Construct` or `Classify` stands at a later stage than the event that was
/// answered, and there are three stages.
pub proof fn lemma_call_advances<E>(
    engine: EngineStatus<E>,
    last_error: Seq<char>,
    event: CallEventView<E>,
    next: CallEventView<E>,
)
    requires
        reports(respond(engine, last_error, event).action, next),
    ensures
        stage(event) < stage(next) <= 2,
{
}

/// A run of events none of which ends an attempt leaves the engine slot
/// unsettled.
proof fn lemma_unsettled_without_outcome<E>(
    engine: EngineStatus<E>,
    last_error: Seq<char>,
    events: Seq<CallEventView<E>>,
)
    requires
        !engine.settled(),
        forall|i: int| 0 <= i < events.len() ==> outcome(#[trigger] events[i]) is None,
    ensures
        !after(engine, last_error, events).0.settled(),
    decreases events.len(),
{
    if events.len() > 0 {
        lemma_unsettled_without_outcome(engine, last_error, events.drop_last());
        assert(outcome(events[events.len() - 1]) is None);
    }
}

/// A run of events can be taken in two parts.
proof fn lemma_after_concat<E>(
    engine: EngineStatus<E>,
    last_error: Seq<char>,
    first: Seq<CallEventView<E>>,
    second: Seq<CallEventView<E>>,
)
    ensures
        ({
            let middle = after(engine, last_error, first);
            after(engine, last_error, first + second) == after(middle.0, middle.1, second)
        }),
    decreases second.len(),
{
    if second.len() == 0 {
        assert(first + second == first);
    } else {
        lemma_after_concat(engine, last_error, first, second.drop_last());
        assert((first + second).drop_last() == first + second.drop_last());
        assert((first + second).last() == second.last());
    }
}

} // verus!
