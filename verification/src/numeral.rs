//! Decimal numerals.

use vstd::prelude::*;
use crate::writer::SqlWriter;

verus! {

/// The character of the decimal digit `d`: `'0'` for 0, up to `'9'` for 9.
pub open spec fn digit_char(d: nat) -> char
    recommends
        d < 10,
{
    ('0' as nat + d) as char
}

/// The decimal numeral of `n`, without sign or leading zeros.
pub open spec fn decimal(n: nat) -> Seq<char>
    decreases n,
{
    if n < 10 {
        seq![digit_char(n)]
    } else {
        decimal(n / 10).push(digit_char(n % 10))
    }
}

/// The character of the decimal digit `d`.
fn digit(d: u8) -> (c: char)
    requires
        d < 10,
    ensures
        c == digit_char(d as nat),
{
    ('0' as u8 + d) as char
}

/// Writes `n` as a decimal numeral.
pub fn write_decimal<W: SqlWriter>(sql: &mut W, n: u64)
    ensures
        final(sql).text() == old(sql).text() + decimal(n as nat),
    decreases n,
{
    if n >= 10 {
        write_decimal(sql, n / 10);
    }
    sql.write_char(digit((n % 10) as u8));
}

/// The decimal numeral of `i`, with a minus sign where `i` is negative.
pub open spec fn signed_decimal(i: int) -> Seq<char> {
    if i < 0 {
        "-"@ + decimal((-i) as nat)
    } else {
        decimal(i as nat)
    }
}

/// Writes `i` as a decimal numeral, with a minus sign where it is negative.
pub fn write_signed_decimal<W: SqlWriter>(sql: &mut W, i: i64)
    ensures
        final(sql).text() == old(sql).text() + signed_decimal(i as int),
{
    if i < 0 {
        sql.write_str("-");
        let magnitude: u64 = if i == i64::MIN {
            0x8000_0000_0000_0000u64
        } else {
            (-i) as u64
        };
        write_decimal(sql, magnitude);
    } else {
        write_decimal(sql, i as u64);
    }
}

/// Whether `c` is one of the ten decimal digits.
pub open spec fn is_digit(c: char) -> bool {
    '0' <= c <= '9'
}

/// A decimal numeral is not empty and holds digits only.
pub proof fn lemma_decimal_digits(n: nat)
    ensures
        decimal(n).len() >= 1,
        forall|i: int| 0 <= i < decimal(n).len() ==> is_digit(#[trigger] decimal(n)[i]),
    decreases n,
{
    if n >= 10 {
        lemma_decimal_digits(n / 10);
    }
}

/// A decimal numeral begins with a zero only where the number is zero.
pub proof fn lemma_decimal_leading_digit(n: nat)
    ensures
        decimal(n)[0] == '0' <==> n == 0,
    decreases n,
{
    if n >= 10 {
        lemma_decimal_digits(n / 10);
        lemma_decimal_leading_digit(n / 10);
    }
}

} // verus!
