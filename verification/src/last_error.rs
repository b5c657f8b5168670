//! The last-error channel: one slot that keeps the most recent message.

use crate::encoding::{find_nul, lemma_representable_texts, representable};
use vstd::prelude::*;

verus! {

/// The slot behind the last-error channel.
///
/// It starts empty, is overwritten on every failure path and is never
/// cleared. No history is kept: its view is the latest message alone.
pub struct ErrorSlot {
    message: String,
}

impl View for ErrorSlot {
    type V = Seq<char>;

    closed spec fn view(&self) -> Seq<char> {
        self.message@
    }
}

impl ErrorSlot {
    /// A slot in which nothing has been recorded yet.
    pub fn new() -> (slot: Self)
        ensures
            slot@ == Seq::<char>::empty(),
    {
        ErrorSlot { message: String::new() }
    }
}

/// Records `msg` as the latest error, replacing what the slot held.
pub fn set_error(slot: &mut ErrorSlot, msg: String)
    ensures
        final(slot)@ == msg@,
{
    slot.message = msg;
}

/// A fresh copy of the latest message for the host, which owns it from
/// then on. The slot keeps its message.
///
/// The copy is empty while nothing has been recorded. A message that cannot
/// cross the boundary gives `None`, the null signal.
pub fn get_last_error(slot: &ErrorSlot) -> (copy: Option<String>)
    ensures
        match copy {
            Some(text) => representable(slot@) && text@ == slot@,
            None => !representable(slot@),
        },
{
    match find_nul(slot.message.as_str().as_bytes()) {
        None => Some(slot.message.clone()),
        Some(_) => None,
    }
}

/// While nothing has been recorded the host reads the empty text, not the
/// null signal.
pub proof fn lemma_empty_slot_can_be_read()
    ensures
        representable(Seq::<char>::empty()),
{
    lemma_representable_texts(Seq::empty());
}

} // verus!
