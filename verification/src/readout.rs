//! The node's numbers as the status menu reads them: a height with its
//! thousands grouped, a hash cut short, the chain's founding day.

use vstd::prelude::*;

use crate::calendar::{civil, date_after_epoch, lemma_civil_is_the_calendar};
use crate::text::{char_from_ascii, decimal, digit, push_decimal, string_of};

verus! {

/// The digits of `d` up to the `k`-th, with a comma before each digit that
/// starts a group of three counted from the right.
pub open spec fn grouped_digits(d: Seq<char>, k: nat) -> Seq<char>
    decreases k,
{
    if k == 0 {
        seq![]
    } else {
        let i = (k - 1) as int;
        grouped_digits(d, (k - 1) as nat) + (if i > 0 && (d.len() - i) % 3 == 0 {
            seq![',']
        } else {
            seq![]
        }) + seq![d[i]]
    }
}

/// `n` in decimal, its thousands grouped: `6230` reads "6,230".
pub open spec fn grouped_text(n: nat) -> Seq<char> {
    grouped_digits(decimal(n), decimal(n).len())
}

/// `6230` → "6,230".
pub fn grouped(number: u64) -> (out: String)
    ensures
        out@ == grouped_text(number as nat),
{
    let mut digits: Vec<char> = Vec::new();
    push_decimal(&mut digits, number);
    assert(digits@ =~= decimal(number as nat));
    let len = digits.len();
    let mut out: Vec<char> = Vec::new();
    for nth in 0..len
        invariant
            len == digits@.len(),
            out@ == grouped_digits(digits@, nth as nat),
    {
        if nth > 0 && (len - nth) % 3 == 0 {
            out.push(',');
        }
        out.push(digits[nth]);
        proof {
            let next = grouped_digits(digits@, (nth + 1) as nat);
            if nth > 0 && (len - nth) % 3 == 0 {
                assert(next =~= grouped_digits(digits@, nth as nat) + seq![','] + seq![digits@[nth as int]]);
            } else {
                assert(next =~= grouped_digits(digits@, nth as nat) + Seq::<char>::empty() + seq![digits@[nth as int]]);
            }
        }
    }
    string_of(&out)
}

/// A hex digit, lower case.
pub open spec fn nibble(d: nat) -> char {
    if d < 10 {
        digit(d)
    } else {
        (87 + d) as char
    }
}

/// Every byte of `b` as two lower-case hex digits.
pub open spec fn hex_of(b: Seq<u8>) -> Seq<char>
    decreases b.len(),
{
    if b.len() == 0 {
        seq![]
    } else {
        hex_of(b.drop_last()) + seq![nibble((b.last() / 16) as nat), nibble((b.last() % 16) as nat)]
    }
}

/// The hex of `b`, or its first eight and last four digits around an
/// ellipsis once it runs past fourteen.
pub open spec fn short_hex_text(b: Seq<u8>) -> Seq<char> {
    let h = hex_of(b);
    if h.len() > 14 {
        h.take(8) + seq!['…'] + h.skip(h.len() - 4)
    } else {
        h
    }
}

proof fn lemma_hex_len(b: Seq<u8>)
    ensures
        hex_of(b).len() == 2 * b.len(),
    decreases b.len(),
{
    if b.len() > 0 {
        lemma_hex_len(b.drop_last());
    }
}

fn hex_digit(d: u8) -> (c: char)
    requires
        d < 16,
    ensures
        c == nibble(d as nat),
{
    if d < 10 {
        char_from_ascii(48 + d)
    } else {
        char_from_ascii(87 + d)
    }
}

/// The first and last few bytes of a hash, enough to tell two apart.
pub fn short_hex(bytes: &[u8]) -> (out: String)
    ensures
        out@ == short_hex_text(bytes@),
{
    let mut hex: Vec<char> = Vec::new();
    let n = bytes.len();
    for i in 0..n
        invariant
            n == bytes@.len(),
            hex@ == hex_of(bytes@.take(i as int)),
    {
        let byte = bytes[i];
        hex.push(hex_digit(byte / 16));
        hex.push(hex_digit(byte % 16));
        proof {
            let next = bytes@.take(i + 1);
            assert(next.drop_last() =~= bytes@.take(i as int));
            assert(next.last() == byte);
            assert(hex@ =~= hex_of(next));
        }
    }
    proof {
        assert(bytes@.take(n as int) =~= bytes@);
        lemma_hex_len(bytes@);
    }
    let len = hex.len();
    if len > 14 {
        let mut out: Vec<char> = Vec::new();
        for i in 0..8
            invariant
                len == hex@.len(),
                len > 14,
                out@ == hex@.take(i as int),
        {
            out.push(hex[i]);
            assert(hex@.take(i + 1) =~= hex@.take(i as int).push(hex@[i as int]));
        }
        out.push('…');
        for i in len - 4..len
            invariant
                len == hex@.len(),
                len > 14,
                len - 4 <= i <= len,
                out@ == hex@.take(8) + seq!['…'] + hex@.subrange(len - 4, i as int),
        {
            out.push(hex[i]);
            assert(hex@.subrange(len - 4, i + 1) =~= hex@.subrange(len - 4, i as int).push(hex@[i as int]));
        }
        assert(hex@.subrange(len - 4, len as int) =~= hex@.skip(len - 4));
        string_of(&out)
    } else {
        string_of(&hex)
    }
}

/// A month or a day, two digits wide.
pub open spec fn two_digits(n: nat) -> Seq<char> {
    if n < 10 {
        seq!['0', digit(n)]
    } else {
        decimal(n)
    }
}

/// The node's clock reads in milliseconds; a value that small is taken as
/// seconds.
pub open spec fn seconds_of(time: nat) -> nat {
    if time > 100_000_000_000 {
        time / 1000
    } else {
        time
    }
}

/// The founding day of a chain started at `time`, as `YYYY-MM-DD`.
pub open spec fn founded_text(time: nat) -> Seq<char> {
    let (year, month, day) = date_after_epoch((seconds_of(time) / 86_400) as nat);
    decimal(year as nat) + seq!['-'] + two_digits(month as nat) + seq!['-'] + two_digits(day as nat)
}

fn push_two_digits(out: &mut Vec<char>, n: i64)
    requires
        0 <= n < 100,
    ensures
        final(out)@ == old(out)@ + two_digits(n as nat),
{
    if n < 10 {
        out.push('0');
        out.push(char_from_ascii(48 + n as u8));
        assert(final(out)@ =~= old(out)@ + two_digits(n as nat));
    } else {
        push_decimal(out, n as u64);
    }
}

/// The chain's founding time as a date. The node's clock reads in
/// milliseconds; a value that small is taken as seconds.
pub fn founded(time: u64) -> (out: String)
    ensures
        out@ == founded_text(time as nat),
{
    let seconds = if time > 100_000_000_000 { time / 1000 } else { time };
    let days = seconds / 86_400;
    assert(days < 1_000_000_000_000_000);
    let z = days as i64 + 719_468;
    let era = z / 146_097;
    assert(0 <= z - era * 146_097 < 146_097) by (nonlinear_arith)
        requires
            z >= 0,
            era == z / 146_097,
    ;
    assert(0 <= era < 1_000_000_000_000) by (nonlinear_arith)
        requires
            0 <= z < 2_000_000_000_000_000,
            era == z / 146_097,
    ;
    let doe = z - era * 146_097;
    let yoe = (doe - doe / 1460 + doe / 36_524 - doe / 146_096) / 365;
    assert(0 <= yoe <= 400);
    let doy = doe - (365 * yoe + yoe / 4 - yoe / 100);
    assert(0 <= doy < 400) by (nonlinear_arith)
        requires
            0 <= doe < 146_097,
            yoe == (doe - doe / 1460 + doe / 36_524 - doe / 146_096) / 365,
            doy == doe - (365 * yoe + yoe / 4 - yoe / 100),
    ;
    let mp = (5 * doy + 2) / 153;
    let day = doy - (153 * mp + 2) / 5 + 1;
    let month = if mp < 10 { mp + 3 } else { mp - 9 };
    let year = yoe + era * 400 + if month <= 2 { 1i64 } else { 0i64 };
    proof {
        let (y, m, d) = civil((seconds / 86_400) as int);
        assert(y == year && m == month && d == day);
        lemma_civil_is_the_calendar((seconds / 86_400) as nat);
    }
    assert(1 <= month <= 12);
    assert(1 <= day < 100) by (nonlinear_arith)
        requires
            0 <= doy < 400,
            mp == (5 * doy + 2) / 153,
            day == doy - (153 * mp + 2) / 5 + 1,
    ;
    let mut out: Vec<char> = Vec::new();
    push_decimal(&mut out, year as u64);
    out.push('-');
    push_two_digits(&mut out, month);
    out.push('-');
    push_two_digits(&mut out, day);
    assert(out@ =~= founded_text(time as nat));
    string_of(&out)
}

} // verus!
