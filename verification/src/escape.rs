//! The shape of the escape sequences, as sequences of characters.
//!
//! A colour is selected with `ESC [ 38 ; 2 ; R ; G ; B m`, where the three
//! channels are written in decimal without padding, and `ESC [ 0 m` puts the
//! terminal back to its defaults.

use vstd::prelude::*;

verus! {

/// The control character that opens every sequence (0x1B).
pub open spec fn esc() -> char {
    '\u{1B}'
}

/// The character of one decimal digit.
pub open spec fn digit_char(d: nat) -> char
    recommends
        d < 10,
{
    ('0' as u8 + d) as char
}

/// The decimal numeral of `n`: most significant digit first, no leading zero,
/// and `0` for zero.
pub open spec fn decimal(n: nat) -> Seq<char>
    decreases n,
{
    if n < 10 {
        seq![digit_char(n)]
    } else {
        decimal(n / 10).push(digit_char(n % 10))
    }
}

/// The number a string of decimal digits stands for.
pub open spec fn decimal_value(digits: Seq<char>) -> nat
    decreases digits.len(),
{
    if digits.len() == 0 {
        0
    } else {
        decimal_value(digits.drop_last()) * 10 + (digits.last() as nat - '0' as nat) as nat
    }
}

/// Whether `c` is one of `0`-`9`.
pub open spec fn is_digit(c: char) -> bool {
    '0' <= c <= '9'
}

/// The sequence that selects the foreground colour with the given channels.
pub open spec fn foreground(r: u8, g: u8, b: u8) -> Seq<char> {
    seq![esc(), '[', '3', '8', ';', '2', ';'] + decimal(r as nat) + seq![';'] + decimal(g as nat)
        + seq![';'] + decimal(b as nat) + seq!['m']
}

/// The sequence that resets the terminal's attributes.
pub open spec fn reset() -> Seq<char> {
    seq![esc(), '[', '0', 'm']
}

/// The numeral of a channel is well formed: one to three digits, no leading
/// zero but for zero itself, and it reads back as the channel's value.
pub proof fn lemma_decimal_channel(n: u8)
    ensures
        1 <= decimal(n as nat).len() <= 3,
        forall|i: int| 0 <= i < decimal(n as nat).len() ==> is_digit(#[trigger] decimal(n as nat)[i]),
        decimal(n as nat).len() > 1 ==> decimal(n as nat)[0] != '0',
        decimal_value(decimal(n as nat)) == n,
{
    reveal_with_fuel(decimal, 3);
    reveal_with_fuel(decimal_value, 4);
    let d = decimal(n as nat);
    if n < 10 {
        assert(d.drop_last() =~= Seq::<char>::empty());
    } else if n < 100 {
        assert(d.drop_last() =~= seq![digit_char(n as nat / 10)]);
        assert(d.drop_last().drop_last() =~= Seq::<char>::empty());
    } else {
        assert(d.drop_last() =~= seq![digit_char(n as nat / 100), digit_char(n as nat / 10 % 10)]);
        assert(d.drop_last().drop_last() =~= seq![digit_char(n as nat / 100)]);
        assert(d.drop_last().drop_last().drop_last() =~= Seq::<char>::empty());
    }
}

} // verus!
