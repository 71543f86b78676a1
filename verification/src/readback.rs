//! Reading the decimal and hexadecimal renderings back: they are made of
//! ASCII digits and denote the number they render.

use vstd::arithmetic::div_mod::{lemma_fundamental_div_mod, lemma_mod_breakdown};
use vstd::arithmetic::power::pow;
use vstd::prelude::*;

use crate::text::{decimal, hex_fixed};

verus! {

/// Whether `c` is an ASCII decimal digit.
pub open spec fn is_decimal_char(c: char) -> bool {
    '0' <= c && c <= '9'
}

/// Whether `c` is an ASCII lowercase hexadecimal digit.
pub open spec fn is_lower_hex_char(c: char) -> bool {
    ('0' <= c && c <= '9') || ('a' <= c && c <= 'f')
}

/// The number that a run of decimal digits denotes.
pub open spec fn decimal_value(s: Seq<char>) -> int
    decreases s.len(),
{
    if s.len() == 0 {
        0
    } else {
        decimal_value(s.drop_last()) * 10 + (s.last() as int - '0' as int)
    }
}

/// The value of one lowercase hexadecimal digit.
pub open spec fn hex_char_value(c: char) -> int {
    if '0' <= c && c <= '9' {
        c as int - '0' as int
    } else {
        c as int - 'a' as int + 10
    }
}

/// The number that a run of hexadecimal digits denotes.
pub open spec fn hex_value(s: Seq<char>) -> int
    decreases s.len(),
{
    if s.len() == 0 {
        0
    } else {
        hex_value(s.drop_last()) * 16 + hex_char_value(s.last())
    }
}

/// The character of a digit below sixteen has code `'0' + d`, or `'a' + d - 10`
/// beyond nine.
proof fn lemma_digit_code(d: nat)
    requires
        d < 16,
    ensures
        crate::text::digit_char(d) as int == if d < 10 { d + 48 } else { d + 87 },
{
}

/// The decimal rendering of `n` is a non-empty run of ASCII digits, without
/// a leading zero unless `n` is zero, that reads back as `n`.
pub proof fn law_decimal_reads_back(n: nat)
    ensures
        decimal(n).len() >= 1,
        forall|i: int| 0 <= i < decimal(n).len() ==> is_decimal_char(#[trigger] decimal(n)[i]),
        decimal(n)[0] == '0' ==> n == 0,
        decimal_value(decimal(n)) == n,
    decreases n,
{
    lemma_digit_code(n % 10);
    if n >= 10 {
        law_decimal_reads_back(n / 10);
        let s = decimal(n);
        assert(s.drop_last() =~= decimal(n / 10));
        assert(s[0] == decimal(n / 10)[0]);
        assert(s.last() == crate::text::digit_char(n % 10));
        lemma_fundamental_div_mod(n as int, 10);
        assert(decimal_value(s) == decimal_value(decimal(n / 10)) * 10 + (n % 10));
        assert((n / 10) as int * 10 == 10 * (n / 10) as int) by (nonlinear_arith);
    } else {
        assert(decimal(n).drop_last() =~= Seq::<char>::empty());
        assert(decimal_value(decimal(n)) == decimal_value(Seq::<char>::empty()) * 10 + (n % 10));
    }
}

/// The fixed-width hexadecimal rendering of `n` is `width` lowercase ASCII
/// hexadecimal digits that read back as `n` modulo `16^width`.
pub proof fn law_hex_reads_back(n: nat, width: nat)
    ensures
        hex_fixed(n, width).len() == width,
        forall|i: int| 0 <= i < width ==> is_lower_hex_char(#[trigger] hex_fixed(n, width)[i]),
        hex_value(hex_fixed(n, width)) == (n as int) % pow(16, width),
    decreases width,
{
    reveal(pow);
    lemma_digit_code(n % 16);
    if width == 0 {
        assert(n % 1 == 0);
    } else {
        let w1 = (width - 1) as nat;
        law_hex_reads_back(n / 16, w1);
        let s = hex_fixed(n, width);
        assert(s.drop_last() =~= hex_fixed(n / 16, w1));
        assert(s.last() == crate::text::digit_char(n % 16));
        assert(hex_char_value(s.last()) == n % 16);
        assert forall|i: int| 0 <= i < width implies is_lower_hex_char(#[trigger] s[i]) by {
            if i < w1 {
                assert(s[i] == hex_fixed(n / 16, w1)[i]);
            }
        }
        vstd::arithmetic::power::lemma_pow_positive(16, w1);
        lemma_mod_breakdown(n as int, 16, pow(16, w1));
        assert(pow(16, width) == 16 * pow(16, w1));
    }
}

} // verus!
