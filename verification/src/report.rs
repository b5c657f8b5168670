//! The report of a text that was refused at the boundary.
//!
//! The report names the place of the first terminator byte and lists every
//! byte of the text in decimal, so that the host can see what the engine
//! found although the text itself cannot cross.

use crate::encoding::{lemma_representable_concat, lemma_representable_texts, representable};
use vstd::prelude::*;

verus! {

/// The character that stands for the digit `d`.
pub open spec fn digit(d: nat) -> char
    recommends
        d < 10,
{
    if d == 0 {
        '0'
    } else if d == 1 {
        '1'
    } else if d == 2 {
        '2'
    } else if d == 3 {
        '3'
    } else if d == 4 {
        '4'
    } else if d == 5 {
        '5'
    } else if d == 6 {
        '6'
    } else if d == 7 {
        '7'
    } else if d == 8 {
        '8'
    } else {
        '9'
    }
}

/// The decimal numeral of `n`, without leading zeros.
pub open spec fn decimal(n: nat) -> Seq<char>
    decreases n,
{
    if n < 10 {
        seq![digit(n)]
    } else {
        decimal(n / 10).push(digit(n % 10))
    }
}

/// The number that a decimal numeral stands for.
pub open spec fn value(numeral: Seq<char>) -> nat
    decreases numeral.len(),
{
    if numeral.len() == 0 {
        0
    } else {
        let last = choose|d: nat| d < 10 && digit(d) == numeral.last();
        value(numeral.drop_last()) * 10 + last
    }
}

/// The numerals of `bytes`, in order, with a comma and a space between
/// neighbours.
pub open spec fn listed(bytes: Seq<u8>) -> Seq<char>
    decreases bytes.len(),
{
    if bytes.len() == 0 {
        Seq::empty()
    } else if bytes.len() == 1 {
        decimal(bytes[0] as nat)
    } else {
        listed(bytes.drop_last()) + ", "@ + decimal(bytes.last() as nat)
    }
}

/// The report of a text refused at the boundary: the place of its first
/// terminator byte, then all of its bytes.
pub open spec fn nul_report(position: nat, bytes: Seq<u8>) -> Seq<char> {
    "NulError("@ + decimal(position) + ", ["@ + listed(bytes) + "])"@
}

fn digit_text(d: usize) -> (text: &'static str)
    requires
        d < 10,
    ensures
        text@ == seq![digit(d as nat)],
{
    proof {
        reveal_strlit("0");
        reveal_strlit("1");
        reveal_strlit("2");
        reveal_strlit("3");
        reveal_strlit("4");
        reveal_strlit("5");
        reveal_strlit("6");
        reveal_strlit("7");
        reveal_strlit("8");
        reveal_strlit("9");
    }
    let text = if d == 0 {
        "0"
    } else if d == 1 {
        "1"
    } else if d == 2 {
        "2"
    } else if d == 3 {
        "3"
    } else if d == 4 {
        "4"
    } else if d == 5 {
        "5"
    } else if d == 6 {
        "6"
    } else if d == 7 {
        "7"
    } else if d == 8 {
        "8"
    } else {
        "9"
    };
    assert(text@ =~= seq![digit(d as nat)]);
    text
}

/// Appends the decimal numeral of `n` to `out`.
pub fn append_decimal(out: &mut String, n: usize)
    ensures
        final(out)@ == old(out)@ + decimal(n as nat),
    decreases n,
{
    if n >= 10 {
        append_decimal(out, n / 10);
    }
    out.append(digit_text(n % 10));
}

/// Appends the numerals of `bytes` to `out`, separated by a comma and a space.
pub fn append_listed(out: &mut String, bytes: &[u8])
    ensures
        final(out)@ == old(out)@ + listed(bytes@),
{
    let mut i: usize = 0;
    while i < bytes.len()
        invariant
            i <= bytes.len(),
            out@ == old(out)@ + listed(bytes@.take(i as int)),
        decreases bytes.len() - i,
    {
        if i > 0 {
            out.append(", ");
        }
        append_decimal(out, bytes[i] as usize);
        proof {
            let before = bytes@.take(i as int);
            let after = bytes@.take(i + 1);
            assert(after.drop_last() == before);
            assert(after.last() == bytes@[i as int]);
        }
        i += 1;
    }
    assert(bytes@.take(i as int) == bytes@);
}

/// Renders the report of a text with the bytes `bytes`, whose first
/// terminator byte stands at `position`.
pub fn render_nul_report(position: usize, bytes: &[u8]) -> (report: String)
    ensures
        report@ == nul_report(position as nat, bytes@),
{
    let mut report = String::from_str("NulError(");
    append_decimal(&mut report, position);
    report.append(", [");
    append_listed(&mut report, bytes);
    report.append("])");
    report
}

/// A numeral stands for the number it was made from, and only the numeral
/// of zero starts with a zero.
pub proof fn lemma_decimal_reads_back(n: nat)
    ensures
        value(decimal(n)) == n,
        decimal(n).len() > 0,
        n > 0 ==> decimal(n)[0] != '0',
    decreases n,
{
    let last = n % 10;
    let numeral = decimal(n);
    let chosen = choose|d: nat| d < 10 && digit(d) == numeral.last();
    assert(numeral.last() == digit(last));
    assert(chosen == last);
    assert(value(numeral) == value(numeral.drop_last()) * 10 + chosen);
    if n >= 10 {
        lemma_decimal_reads_back(n / 10);
        assert(numeral.drop_last() == decimal(n / 10));
        assert(numeral[0] == decimal(n / 10)[0]);
    } else {
        assert(numeral.drop_last() == Seq::<char>::empty());
        assert(value(Seq::<char>::empty()) == 0);
    }
}

/// A numeral can cross the boundary.
pub proof fn lemma_decimal_is_representable(n: nat)
    ensures
        representable(decimal(n)),
    decreases n,
{
    lemma_representable_texts(seq![digit(n % 10)]);
    if n >= 10 {
        lemma_decimal_is_representable(n / 10);
        lemma_representable_concat(decimal(n / 10), seq![digit(n % 10)]);
        assert(decimal(n) == decimal(n / 10) + seq![digit(n % 10)]);
    }
}

/// A list of numerals can cross the boundary.
pub proof fn lemma_listed_is_representable(bytes: Seq<u8>)
    ensures
        representable(listed(bytes)),
    decreases bytes.len(),
{
    if bytes.len() == 0 {
        lemma_representable_texts(Seq::empty());
    } else if bytes.len() == 1 {
        lemma_decimal_is_representable(bytes[0] as nat);
    } else {
        reveal_strlit(", ");
        lemma_representable_texts(", "@);
        lemma_listed_is_representable(bytes.drop_last());
        lemma_decimal_is_representable(bytes.last() as nat);
        lemma_representable_concat(listed(bytes.drop_last()), ", "@);
        lemma_representable_concat(
            listed(bytes.drop_last()) + ", "@,
            decimal(bytes.last() as nat),
        );
    }
}

/// The report of a refused text can itself cross the boundary.
pub proof fn lemma_nul_report_is_representable(position: nat, bytes: Seq<u8>)
    ensures
        representable(nul_report(position, bytes)),
{
    reveal_strlit("NulError(");
    reveal_strlit(", [");
    reveal_strlit("])");
    lemma_representable_texts("NulError("@);
    lemma_representable_texts(", ["@);
    lemma_representable_texts("])"@);
    lemma_decimal_is_representable(position);
    lemma_listed_is_representable(bytes);
    let a = "NulError("@ + decimal(position);
    let b = a + ", ["@;
    let c = b + listed(bytes);
    lemma_representable_concat("NulError("@, decimal(position));
    lemma_representable_concat(a, ", ["@);
    lemma_representable_concat(b, listed(bytes));
    lemma_representable_concat(c, "])"@);
}

} // verus!
