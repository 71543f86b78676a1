//! Character classes and bounded-text checks shared by plugin validation.

use vstd::prelude::*;
use vstd::string::StringExecFns;

use crate::text::{decimal, render_decimal};

verus! {

/// Whether `c` has the Unicode `White_Space` property, which `str::trim` strips.
pub open spec fn is_whitespace(c: char) -> bool {
    let n = c as u32;
    ||| 0x09 <= n <= 0x0d
    ||| n == 0x20
    ||| n == 0x85
    ||| n == 0xa0
    ||| n == 0x1680
    ||| 0x2000 <= n <= 0x200a
    ||| n == 0x2028
    ||| n == 0x2029
    ||| n == 0x202f
    ||| n == 0x205f
    ||| n == 0x3000
}

/// Whether `c` is a control character (general category `Cc`).
pub open spec fn is_control(c: char) -> bool {
    let n = c as u32;
    n <= 0x1f || (0x7f <= n && n <= 0x9f)
}

/// Whether `s` starts or ends with whitespace, so that trimming changes it.
pub open spec fn has_surrounding_whitespace(s: Seq<char>) -> bool {
    s.len() > 0 && (is_whitespace(s[0]) || is_whitespace(s.last()))
}

/// Whether `s` holds a control character.
pub open spec fn has_control(s: Seq<char>) -> bool {
    exists|i: int| 0 <= i < s.len() && is_control(#[trigger] s[i])
}

/// The UTF-8 bytes of a string.
pub open spec fn utf8(s: Seq<char>) -> Seq<u8> {
    vstd::utf8::encode_utf8(s)
}

/// What checking that `value` holds `minimum..=maximum` UTF-8 bytes, without
/// surrounding whitespace or control characters, gives: `Ok`, or the message.
pub open spec fn bounded_check(field: Seq<char>, value: Seq<char>, minimum: nat, maximum: nat) -> Result<(), Seq<char>> {
    let len = utf8(value).len();
    if has_surrounding_whitespace(value) || !(minimum <= len && len <= maximum) {
        Err(field + " must contain "@ + decimal(minimum) + "..="@ + decimal(maximum)
            + " UTF-8 bytes without surrounding whitespace"@)
    } else if has_control(value) {
        Err(field + " must not contain control characters"@)
    } else {
        Ok(())
    }
}

fn whitespace(c: char) -> (b: bool)
    ensures
        b == is_whitespace(c),
{
    let n = c as u32;
    (0x09 <= n && n <= 0x0d) || n == 0x20 || n == 0x85 || n == 0xa0 || n == 0x1680 || (0x2000 <= n && n
        <= 0x200a) || n == 0x2028 || n == 0x2029 || n == 0x202f || n == 0x205f || n == 0x3000
}

/// Checks a bounded string, returning the message for a violation.
pub fn bounded(field: &str, value: &str, minimum: usize, maximum: usize) -> (r: Result<(), String>)
    ensures
        match r {
            Ok(()) => bounded_check(field@, value@, minimum as nat, maximum as nat) == Ok::<(), Seq<char>>(()),
            Err(m) => bounded_check(field@, value@, minimum as nat, maximum as nat) == Err::<(), Seq<char>>(m@),
        },
{
    let length = value.as_bytes().len();
    let mut first_ws = false;
    let mut last_ws = false;
    let mut control = false;
    let mut seen = false;
    for c in it: value.chars()
        invariant
            it.seq() == value@,
            seen == (it.index() > 0),
            it.index() > 0 ==> first_ws == is_whitespace(value@[0]),
            it.index() > 0 ==> last_ws == is_whitespace(value@[it.index() - 1]),
            control == exists|j: int| 0 <= j < it.index() && is_control(#[trigger] value@[j]),
    {
        let ws = whitespace(c);
        if !seen {
            first_ws = ws;
        }
        last_ws = ws;
        let n = c as u32;
        if n <= 0x1f || (0x7f <= n && n <= 0x9f) {
            control = true;
        }
        seen = true;
    }
    if (seen && (first_ws || last_ws)) || !(minimum <= length && length <= maximum) {
        let mut text = String::from_str(field);
        text.append(" must contain ");
        text.append(render_decimal(minimum as u64).as_str());
        text.append("..=");
        text.append(render_decimal(maximum as u64).as_str());
        text.append(" UTF-8 bytes without surrounding whitespace");
        return Err(text);
    }
    if control {
        let mut text = String::from_str(field);
        text.append(" must not contain control characters");
        return Err(text);
    }
    Ok(())
}

} // verus!
