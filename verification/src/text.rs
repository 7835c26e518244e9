//! Text helpers shared by the pipeline: comparison, decimal rendering and
//! the grammar of plain decimal numbers.

use vstd::prelude::*;
use vstd::string::*;
use vstd::utf8::*;

verus! {

/// Whether two string slices hold the same characters.
pub fn str_equal(a: &str, b: &str) -> (same: bool)
    ensures
        same == (a@ == b@),
{
    let x = a.as_bytes();
    let y = b.as_bytes();
    proof {
        encode_utf8_decode_utf8(a@);
        encode_utf8_decode_utf8(b@);
    }
    if x.len() != y.len() {
        return false;
    }
    let mut i: usize = 0;
    while i < x.len()
        invariant
            i <= x.len(),
            x.len() == y.len(),
            x@ == a.spec_bytes(),
            y@ == b.spec_bytes(),
            forall|k: int| 0 <= k < i ==> x@[k] == y@[k],
        decreases x.len() - i,
    {
        if x[i] != y[i] {
            return false;
        }
        i += 1;
    }
    assert(x@ =~= y@);
    true
}

/// The character that writes the digit `d`, for `d` below ten.
pub open spec fn digit_char(d: nat) -> char {
    if d == 0 {
        '0'
    } else if d == 1 {
        '1'
    } else if d == 2 {
        '2'
    } else if d == 3 {
        '3'
    } else if d == 4 {
        '4'
    } else if d == 5 {
        '5'
    } else if d == 6 {
        '6'
    } else if d == 7 {
        '7'
    } else if d == 8 {
        '8'
    } else {
        '9'
    }
}

/// The decimal notation of `n`: no sign, no leading zero except for zero
/// itself.
pub open spec fn decimal_text(n: nat) -> Seq<char>
    decreases n,
{
    if n < 10 {
        seq![digit_char(n)]
    } else {
        decimal_text(n / 10).push(digit_char(n % 10))
    }
}

fn digit_str(d: u32) -> (text: &'static str)
    requires
        d < 10,
    ensures
        text@ == seq![digit_char(d as nat)],
{
    proof {
        reveal_strlit("0");
        reveal_strlit("1");
        reveal_strlit("2");
        reveal_strlit("3");
        reveal_strlit("4");
        reveal_strlit("5");
        reveal_strlit("6");
        reveal_strlit("7");
        reveal_strlit("8");
        reveal_strlit("9");
    }
    let text = match d {
        0 => "0",
        1 => "1",
        2 => "2",
        3 => "3",
        4 => "4",
        5 => "5",
        6 => "6",
        7 => "7",
        8 => "8",
        _ => "9",
    };
    assert(text@ =~= seq![digit_char(d as nat)]);
    text
}

/// Renders `n` in decimal notation.
pub fn decimal_string(n: u32) -> (text: String)
    ensures
        text@ == decimal_text(n as nat),
    decreases n,
{
    if n < 10 {
        digit_str(n).to_owned()
    } else {
        let mut text = decimal_string(n / 10);
        text.append(digit_str(n % 10));
        text
    }
}

/// Whether `c` is one of the ten ASCII digits.
pub open spec fn is_digit(c: char) -> bool {
    '0' <= c && c <= '9'
}

/// Whether every character of `s` is an ASCII digit.
pub open spec fn all_digits(s: Seq<char>) -> bool {
    forall|i: int| 0 <= i < s.len() ==> is_digit(#[trigger] s[i])
}

/// Whether `s` has digits on both sides of a point at index `dot`.
pub open spec fn has_point_at(s: Seq<char>, dot: int) -> bool {
    &&& 0 < dot < s.len() - 1
    &&& s[dot] == '.'
    &&& all_digits(s.subrange(0, dot))
    &&& all_digits(s.subrange(dot + 1, s.len() as int))
}

/// The grammar of a plain non-negative decimal number: one or more digits,
/// optionally followed by a point and one or more digits. No sign, no
/// exponent, no name such as `inf` or `NaN`.
pub open spec fn is_decimal(s: Seq<char>) -> bool {
    ||| s.len() > 0 && all_digits(s)
    ||| exists|dot: int| has_point_at(s, dot)
}

/// Decides whether `text` is a plain non-negative decimal number.
pub fn is_decimal_text(text: &str) -> (ok: bool)
    ensures
        ok == is_decimal(text@),
{
    let ghost s = text@;
    if !text.is_ascii() {
        proof {
            let bad = choose|i: int| 0 <= i < s.len() && !('\0' <= #[trigger] s[i] <= '\u{7f}');
            assert(!is_digit(s[bad]) && s[bad] != '.');
            assert forall|dot: int| !has_point_at(s, dot) by {
                if has_point_at(s, dot) {
                    if bad < dot {
                        assert(s.subrange(0, dot)[bad] == s[bad]);
                    } else if bad > dot {
                        assert(s.subrange(dot + 1, s.len() as int)[bad - dot - 1] == s[bad]);
                    }
                }
            }
        }
        return false;
    }
    let bytes = text.as_bytes();
    proof {
        is_ascii_spec_bytes(text);
    }
    let n = bytes.len();
    let mut i: usize = 0;
    while i < n && 48 <= bytes[i] && bytes[i] <= 57
        invariant
            i <= n,
            n == s.len(),
            bytes@.len() == n,
            forall|k: int| 0 <= k < n ==> bytes@[k] == s[k] as u8,
            forall|k: int| 0 <= k < n ==> '\0' <= #[trigger] s[k] <= '\u{7f}',
            forall|k: int| 0 <= k < i ==> is_digit(#[trigger] s[k]),
        decreases n - i,
    {
        i += 1;
    }
    if i == n {
        return n > 0;
    }
    let dot = i;
    assert(!is_digit(s[dot as int]));
    if dot == 0 || bytes[dot] != 46 {
        proof {
            assert forall|d: int| !has_point_at(s, d) by {
                if has_point_at(s, d) {
                    if dot < d {
                        assert(s.subrange(0, d)[dot as int] == s[dot as int]);
                    } else if dot > d {
                        assert(is_digit(s[d]));
                    }
                }
            }
        }
        return false;
    }
    i += 1;
    while i < n
        invariant
            dot < i <= n,
            s == text@,
            n == s.len(),
            bytes@.len() == n,
            forall|k: int| 0 <= k < n ==> bytes@[k] == s[k] as u8,
            forall|k: int| 0 <= k < n ==> '\0' <= #[trigger] s[k] <= '\u{7f}',
            forall|k: int| 0 <= k < dot ==> is_digit(#[trigger] s[k]),
            forall|k: int| dot < k < i ==> is_digit(#[trigger] s[k]),
            s[dot as int] == '.',
            0 < dot,
        decreases n - i,
    {
        if !(48 <= bytes[i] && bytes[i] <= 57) {
            proof {
                assert(!is_digit(s[i as int]));
                assert forall|d: int| !has_point_at(s, d) by {
                    if has_point_at(s, d) {
                        if d < dot {
                            assert(is_digit(s[d]));
                        } else if d > dot {
                            assert(s.subrange(0, d)[dot as int] == s[dot as int]);
                        } else {
                            assert(s.subrange(d + 1, s.len() as int)[i - d - 1] == s[i as int]);
                        }
                    }
                }
            }
            return false;
        }
        i += 1;
    }
    if n == dot + 1 {
        proof {
            assert forall|d: int| !has_point_at(s, d) by {
                if has_point_at(s, d) {
                    if d < dot {
                        assert(is_digit(s[d]));
                    }
                }
            }
        }
        return false;
    }
    proof {
        assert(has_point_at(s, dot as int));
    }
    true
}

} // verus!
