//! The messages that the boundary records, one per kind of failure.

use crate::encoding::{find_nul, lemma_representable_concat, lemma_representable_texts,
    nul_position, representable};
use crate::report::{lemma_nul_report_is_representable, nul_report, render_nul_report};
use vstd::prelude::*;
use vstd::utf8::encode_utf8;

verus! {

/// The message for a call that passed no buffer.
pub open spec fn null_pointer() -> Seq<char> {
    "image pointer is null"@
}

/// The message for a call whose buffer is empty.
pub open spec fn zero_length() -> Seq<char> {
    "image length is 0"@
}

/// The message for an engine that could not be built, from the builder's
/// own account of the failure.
pub open spec fn init_failure(detail: Seq<char>) -> Seq<char> {
    "OCR init failed: "@ + detail
}

/// The message for an image that the engine could not read, from the
/// engine's own account of the failure.
pub open spec fn classification_failure(detail: Seq<char>) -> Seq<char> {
    "classification error: "@ + detail
}

/// The message for a recognised text that cannot cross the boundary.
///
/// It names the place of the first terminator byte and lists the bytes of
/// the whole text, so that nothing of the payload is lost or altered.
pub open spec fn conversion_failure(text: Seq<char>) -> Seq<char>
    recommends
        !representable(text),
{
    let bytes = encode_utf8(text);
    "CString error: "@ + nul_report(nul_position(bytes).unwrap() as nat, bytes)
}

/// The message for a fault trapped at the boundary, with the fault's own
/// words where it came with any.
pub open spec fn internal_fault(payload: Option<Seq<char>>) -> Seq<char> {
    match payload {
        Some(words) => "internal fault: "@ + words,
        None => "internal fault: unknown"@,
    }
}

/// None of the messages is empty, whatever the account, the text or the
/// words that it is made from.
pub proof fn lemma_messages_are_not_empty(
    detail: Seq<char>,
    text: Seq<char>,
    payload: Option<Seq<char>>,
)
    ensures
        null_pointer().len() > 0,
        zero_length().len() > 0,
        init_failure(detail).len() > 0,
        classification_failure(detail).len() > 0,
        conversion_failure(text).len() > 0,
        internal_fault(payload).len() > 0,
{
    reveal_strlit("image pointer is null");
    reveal_strlit("image length is 0");
    reveal_strlit("OCR init failed: ");
    reveal_strlit("classification error: ");
    reveal_strlit("CString error: ");
    reveal_strlit("internal fault: ");
    reveal_strlit("internal fault: unknown");
}

/// Whether the host can read each message back.
///
/// A message that the boundary words alone can always cross the boundary.
/// One that quotes an account from outside can cross exactly when the
/// account can.
pub proof fn lemma_messages_can_cross(
    detail: Seq<char>,
    text: Seq<char>,
    payload: Option<Seq<char>>,
)
    ensures
        representable(null_pointer()),
        representable(zero_length()),
        representable(init_failure(detail)) <==> representable(detail),
        representable(classification_failure(detail)) <==> representable(detail),
        representable(conversion_failure(text)),
        representable(internal_fault(payload)) <==> match payload {
            Some(words) => representable(words),
            None => true,
        },
{
    reveal_strlit("image pointer is null");
    reveal_strlit("image length is 0");
    reveal_strlit("OCR init failed: ");
    reveal_strlit("classification error: ");
    reveal_strlit("CString error: ");
    reveal_strlit("internal fault: ");
    reveal_strlit("internal fault: unknown");
    lemma_representable_texts("image pointer is null"@);
    lemma_representable_texts("image length is 0"@);
    lemma_representable_texts("OCR init failed: "@);
    lemma_representable_texts("classification error: "@);
    lemma_representable_texts("CString error: "@);
    lemma_representable_texts("internal fault: "@);
    lemma_representable_texts("internal fault: unknown"@);
    lemma_representable_concat("OCR init failed: "@, detail);
    lemma_representable_concat("classification error: "@, detail);
    let bytes = encode_utf8(text);
    let position = nul_position(bytes).unwrap() as nat;
    lemma_nul_report_is_representable(position, bytes);
    lemma_representable_concat("CString error: "@, nul_report(position, bytes));
    if let Some(words) = payload {
        lemma_representable_concat("internal fault: "@, words);
    }
}

/// Builds the message for a call that passed no buffer.
pub fn null_pointer_message() -> (message: String)
    ensures
        message@ == null_pointer(),
{
    String::from_str("image pointer is null")
}

/// Builds the message for a call whose buffer is empty.
pub fn zero_length_message() -> (message: String)
    ensures
        message@ == zero_length(),
{
    String::from_str("image length is 0")
}

/// Builds the message for an engine that could not be built.
pub fn init_failure_message(detail: &str) -> (message: String)
    ensures
        message@ == init_failure(detail@),
{
    String::from_str("OCR init failed: ").concat(detail)
}

/// Builds the message for an image that the engine could not read.
pub fn classification_failure_message(detail: &str) -> (message: String)
    ensures
        message@ == classification_failure(detail@),
{
    String::from_str("classification error: ").concat(detail)
}

/// Builds the message for a fault trapped at the boundary.
pub fn internal_fault_message(payload: Option<String>) -> (message: String)
    ensures
        message@ == internal_fault(
            match payload {
                Some(words) => Some(words@),
                None => None,
            },
        ),
{
    match payload {
        Some(words) => String::from_str("internal fault: ").concat(words.as_str()),
        None => String::from_str("internal fault: unknown"),
    }
}

/// Decides whether `text` may cross the boundary.
///
/// A text without a terminator byte is handed back unchanged. For any other
/// text the result is the message that reports the refusal.
pub fn check_text(text: String) -> (checked: Result<String, String>)
    ensures
        match checked {
            Ok(same) => representable(text@) && same@ == text@,
            Err(message) => !representable(text@) && message@ == conversion_failure(text@),
        },
{
    let found = find_nul(text.as_str().as_bytes());
    match found {
        None => Ok(text),
        Some(position) => {
            let bytes = text.as_str().as_bytes();
            let mut message = String::from_str("CString error: ");
            let report = render_nul_report(position, bytes);
            message.append(report.as_str());
            Err(message)
        },
    }
}

} // verus!
