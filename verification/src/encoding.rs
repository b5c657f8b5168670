//! The text encoding of the boundary.
//!
//! Text crosses the boundary as its UTF-8 bytes followed by one terminator
//! byte of value zero, so a text with a zero byte inside cannot cross. This
//! module finds such a byte and renders the report of a refused text.

use vstd::prelude::*;
use vstd::utf8::{char_is_scalar, char_u32_cast, encode_scalar, encode_utf8, has_width_1_encoding,
    is_scalar};

verus! {

/// Whether `position` is the place of the first terminator byte in `bytes`.
pub open spec fn is_first_nul(bytes: Seq<u8>, position: int) -> bool {
    &&& 0 <= position < bytes.len()
    &&& bytes[position] == 0
    &&& forall|j: int| 0 <= j < position ==> bytes[j] != 0
}

/// The place of the first terminator byte in `bytes`, if there is one.
pub open spec fn nul_position(bytes: Seq<u8>) -> Option<int> {
    if exists|p: int| is_first_nul(bytes, p) {
        Some(choose|p: int| is_first_nul(bytes, p))
    } else {
        None
    }
}

/// Whether `text` can cross the boundary: its encoding holds no terminator.
pub open spec fn representable(text: Seq<char>) -> bool {
    nul_position(encode_utf8(text)) is None
}

/// At most one place is that of the first terminator byte.
pub proof fn lemma_first_nul_unique(bytes: Seq<u8>, p: int, q: int)
    requires
        is_first_nul(bytes, p),
        is_first_nul(bytes, q),
    ensures
        p == q,
{
    if p < q {
        assert(bytes[p] != 0);
    } else if q < p {
        assert(bytes[q] != 0);
    }
}

/// `nul_position` is `Some(p)` exactly when `p` is the place of the first
/// terminator byte, and `None` exactly when no byte is zero.
pub proof fn lemma_nul_position(bytes: Seq<u8>)
    ensures
        forall|p: int| nul_position(bytes) == Some(p) <==> is_first_nul(bytes, p),
        nul_position(bytes) is None <==> forall|j: int| 0 <= j < bytes.len() ==> bytes[j] != 0,
{
    assert forall|p: int| is_first_nul(bytes, p) implies nul_position(bytes) == Some(p) by {
        let q = choose|q: int| is_first_nul(bytes, q);
        lemma_first_nul_unique(bytes, p, q);
    }
    if forall|j: int| 0 <= j < bytes.len() ==> bytes[j] != 0 {
        assert(nul_position(bytes) is None);
    } else {
        lemma_some_nul_is_first(bytes, bytes.len() as int);
    }
}

/// If a zero byte stands before `end`, some place is that of the first one.
proof fn lemma_some_nul_is_first(bytes: Seq<u8>, end: int)
    requires
        0 <= end <= bytes.len(),
        exists|j: int| 0 <= j < end && bytes[j] == 0,
    ensures
        exists|p: int| is_first_nul(bytes, p),
    decreases end,
{
    if exists|j: int| 0 <= j < end - 1 && bytes[j] == 0 {
        lemma_some_nul_is_first(bytes, end - 1);
    } else {
        assert(bytes[end - 1] == 0);
        assert(is_first_nul(bytes, end - 1));
    }
}

/// The encoding of a character holds a zero byte only for the character of
/// value zero, whose encoding is that byte alone.
proof fn lemma_scalar_nul(v: u32)
    requires
        is_scalar(v),
    ensures
        encode_scalar(v).len() > 0,
        v == 0 ==> encode_scalar(v)[0] == 0,
        v != 0 ==> forall|i: int| 0 <= i < encode_scalar(v).len() ==> encode_scalar(v)[i] != 0,
{
    if has_width_1_encoding(v) {
        assert(v != 0 ==> (v & 0x7F) as u8 != 0) by (bit_vector)
            requires
                v <= 0x7F,
        ;
        assert(v == 0 ==> (v & 0x7F) as u8 == 0) by (bit_vector);
    } else {
        assert(0xC0 | ((v >> 6) & 0x1F) as u8 != 0) by (bit_vector);
        assert(0xE0 | ((v >> 12) & 0x0F) as u8 != 0) by (bit_vector);
        assert(0xF0 | ((v >> 18) & 0x7) as u8 != 0) by (bit_vector);
        assert(0x80 | (v & 0x3F) as u8 != 0) by (bit_vector);
        assert(0x80 | ((v >> 6) & 0x3F) as u8 != 0) by (bit_vector);
        assert(0x80 | ((v >> 12) & 0x3F) as u8 != 0) by (bit_vector);
    }
}

/// The encoding of a text holds a zero byte exactly when the text holds
/// the character of value zero.
proof fn lemma_encoding_nul(text: Seq<char>)
    ensures
        (forall|j: int| 0 <= j < encode_utf8(text).len() ==> encode_utf8(text)[j] != 0) <==> (
        forall|i: int| 0 <= i < text.len() ==> text[i] != '\0'),
    decreases text.len(),
{
    if text.len() > 0 {
        let head = encode_scalar(text[0] as u32);
        let rest = text.drop_first();
        let tail = encode_utf8(rest);
        let bytes = encode_utf8(text);
        char_is_scalar(text[0]);
        lemma_scalar_nul(text[0] as u32);
        lemma_encoding_nul(rest);
        assert(bytes == head + tail);
        assert(text[0] == '\0' <==> text[0] as u32 == 0) by {
            char_u32_cast(text[0], text[0] as u32);
            char_u32_cast('\0', 0u32);
        }
        if forall|i: int| 0 <= i < text.len() ==> text[i] != '\0' {
            assert forall|i: int| 0 <= i < rest.len() implies rest[i] != '\0' by {
                assert(rest[i] == text[i + 1]);
            }
            assert forall|j: int| 0 <= j < bytes.len() implies bytes[j] != 0 by {
                if j < head.len() {
                    assert(bytes[j] == head[j]);
                } else {
                    assert(bytes[j] == tail[j - head.len()]);
                }
            }
        }
        if forall|j: int| 0 <= j < bytes.len() ==> bytes[j] != 0 {
            assert(bytes[0] == head[0]);
            assert forall|j: int| 0 <= j < tail.len() implies tail[j] != 0 by {
                assert(tail[j] == bytes[j + head.len()]);
            }
            assert forall|i: int| 0 <= i < text.len() implies text[i] != '\0' by {
                if i > 0 {
                    assert(text[i] == rest[i - 1]);
                }
            }
        }
    }
}

/// A text can cross the boundary exactly when none of its characters is the
/// character of value zero.
pub proof fn lemma_representable_texts(text: Seq<char>)
    ensures
        representable(text) <==> forall|i: int| 0 <= i < text.len() ==> text[i] != '\0',
{
    lemma_nul_position(encode_utf8(text));
    lemma_encoding_nul(text);
}

/// Two texts joined can cross the boundary exactly when each of them can.
pub proof fn lemma_representable_concat(left: Seq<char>, right: Seq<char>)
    ensures
        representable(left + right) <==> representable(left) && representable(right),
{
    let joined = left + right;
    lemma_representable_texts(left);
    lemma_representable_texts(right);
    lemma_representable_texts(joined);
    if representable(joined) {
        assert forall|i: int| 0 <= i < left.len() implies left[i] != '\0' by {
            assert(left[i] == joined[i]);
        }
        assert forall|i: int| 0 <= i < right.len() implies right[i] != '\0' by {
            assert(right[i] == joined[i + left.len()]);
        }
    }
    if representable(left) && representable(right) {
        assert forall|i: int| 0 <= i < joined.len() implies joined[i] != '\0' by {
            if i < left.len() {
                assert(joined[i] == left[i]);
            } else {
                assert(joined[i] == right[i - left.len()]);
            }
        }
    }
}

/// Looks for the first terminator byte in `bytes`.
pub fn find_nul(bytes: &[u8]) -> (found: Option<usize>)
    ensures
        match found {
            Some(p) => nul_position(bytes@) == Some(p as int),
            None => nul_position(bytes@) is None,
        },
{
    let mut i: usize = 0;
    while i < bytes.len()
        invariant
            i <= bytes.len(),
            forall|j: int| 0 <= j < i ==> bytes@[j] != 0,
        decreases bytes.len() - i,
    {
        if bytes[i] == 0 {
            proof {
                assert(is_first_nul(bytes@, i as int));
                lemma_nul_position(bytes@);
            }
            return Some(i);
        }
        i += 1;
    }
    proof {
        lemma_nul_position(bytes@);
    }
    None
}

} // verus!
