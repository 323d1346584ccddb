//! Decimal text for integers of arbitrary magnitude: the canonical rendering
//! of a mathematical integer, the grammar of decimal integer literals, the
//! value a literal denotes, and the proof that rendering and reading back are
//! inverse. These specifications pin down the contracts of the
//! arbitrary-precision literal helpers in `numeric`.

use vstd::prelude::*;
use vstd::string::StringExecFns;

verus! {

/// A decimal digit character.
pub open spec fn is_digit_char(c: char) -> bool {
    '0' <= c && c <= '9'
}

/// The numeric value of a decimal digit character.
pub open spec fn digit_char_value(c: char) -> int {
    c as int - '0' as int
}

/// The digit character for a value below ten.
pub open spec fn char_of_digit(d: int) -> char {
    if d == 0 {
        '0'
    } else if d == 1 {
        '1'
    } else if d == 2 {
        '2'
    } else if d == 3 {
        '3'
    } else if d == 4 {
        '4'
    } else if d == 5 {
        '5'
    } else if d == 6 {
        '6'
    } else if d == 7 {
        '7'
    } else if d == 8 {
        '8'
    } else {
        '9'
    }
}

/// The canonical decimal digits of a natural number: no leading zeros,
/// a single `0` for zero.
pub open spec fn spec_digits(n: nat) -> Seq<char>
    decreases n,
{
    if n < 10 {
        seq![char_of_digit(n as int)]
    } else {
        spec_digits(n / 10).push(char_of_digit((n % 10) as int))
    }
}

/// The canonical decimal rendering of an integer: a minus sign for negative
/// values, no sign otherwise.
pub open spec fn spec_decimal(v: int) -> Seq<char> {
    if v < 0 {
        seq!['-'] + spec_digits((-v) as nat)
    } else {
        spec_digits(v as nat)
    }
}

/// A character allowed in the digit body of a decimal integer literal:
/// a digit, or an underscore that is skipped.
pub open spec fn dec_body_char_ok(c: char) -> bool {
    is_digit_char(c) || c == '_'
}

/// A well-formed digit body: nonempty, leading with a real digit, and made
/// of digits and skipped underscores only.
pub open spec fn is_dec_body(s: Seq<char>) -> bool {
    &&& s.len() > 0
    &&& s[0] != '_'
    &&& forall|i: int| 0 <= i < s.len() ==> dec_body_char_ok(#[trigger] s[i])
}

/// The value a digit body denotes, underscores skipped.
pub open spec fn dec_body_value(s: Seq<char>) -> int
    decreases s.len(),
{
    if s.len() == 0 {
        0
    } else {
        let rest = dec_body_value(s.drop_last());
        if s.last() == '_' {
            rest
        } else {
            rest * 10 + digit_char_value(s.last())
        }
    }
}

/// A decimal integer literal: an optional single leading sign, then a
/// well-formed digit body.
pub open spec fn is_decimal_int_literal(s: Seq<char>) -> bool {
    if s.len() > 0 && (s[0] == '+' || s[0] == '-') {
        is_dec_body(s.skip(1))
    } else {
        is_dec_body(s)
    }
}

/// The signed value a decimal integer literal denotes.
pub open spec fn decimal_int_literal_value(s: Seq<char>) -> int {
    if s.len() > 0 && s[0] == '-' {
        -dec_body_value(s.skip(1))
    } else if s.len() > 0 && s[0] == '+' {
        dec_body_value(s.skip(1))
    } else {
        dec_body_value(s)
    }
}

/// The digit character of a value below ten is a digit with that value, and
/// is neither an underscore nor a sign.
proof fn lemma_char_of_digit(d: int)
    requires
        0 <= d < 10,
    ensures
        is_digit_char(char_of_digit(d)),
        digit_char_value(char_of_digit(d)) == d,
        char_of_digit(d) != '_',
        char_of_digit(d) != '+',
        char_of_digit(d) != '-',
{
}

/// The canonical digits of a natural number form a well-formed digit body
/// that denotes the number itself.
proof fn lemma_digits_value(n: nat)
    ensures
        is_dec_body(spec_digits(n)),
        dec_body_value(spec_digits(n)) == n,
        is_digit_char(spec_digits(n)[0]),
    decreases n,
{
    reveal_with_fuel(dec_body_value, 3);
    if n < 10 {
        let s = spec_digits(n);
        lemma_char_of_digit(n as int);
        assert(s.drop_last() =~= Seq::<char>::empty());
        assert(s.last() == char_of_digit(n as int));
        assert(s[0] == char_of_digit(n as int));
    } else {
        let prefix = spec_digits(n / 10);
        let c = char_of_digit((n % 10) as int);
        let s = spec_digits(n);
        lemma_digits_value(n / 10);
        lemma_char_of_digit((n % 10) as int);
        assert(s == prefix.push(c));
        assert(s.drop_last() =~= prefix);
        assert(s.last() == c);
        assert(s[0] == prefix[0]);
        assert forall|i: int| 0 <= i < s.len() implies dec_body_char_ok(s[i]) by {
            if i < prefix.len() {
                assert(s[i] == prefix[i]);
            } else {
                assert(s[i] == c);
            }
        }
        assert(dec_body_value(s) == dec_body_value(prefix) * 10 + digit_char_value(c));
        assert(n == (n / 10) * 10 + n % 10);
    }
}

/// Rendering an integer to canonical decimal text and reading the text back
/// as a decimal integer literal yields the identical value, for integers of
/// any magnitude: arbitrary-precision literals are preserved exactly.
pub proof fn lemma_decimal_round_trip(v: int)
    ensures
        is_decimal_int_literal(spec_decimal(v)),
        decimal_int_literal_value(spec_decimal(v)) == v,
{
    if v < 0 {
        let digits = spec_digits((-v) as nat);
        lemma_digits_value((-v) as nat);
        let s = seq!['-'] + digits;
        assert(s[0] == '-');
        assert(s.skip(1) =~= digits);
    } else {
        let s = spec_digits(v as nat);
        lemma_digits_value(v as nat);
        assert(is_digit_char(s[0]));
        assert(s[0] != '+' && s[0] != '-');
    }
}

/// Maps a value below ten to its digit character as text.
fn digit_str(d: u64) -> (r: &'static str)
    requires
        d < 10,
    ensures
        r@ == seq![char_of_digit(d as int)],
{
    let r: &'static str = match d {
        0 => "0",
        1 => "1",
        2 => "2",
        3 => "3",
        4 => "4",
        5 => "5",
        6 => "6",
        7 => "7",
        8 => "8",
        _ => "9",
    };
    proof {
        reveal_strlit("0");
        reveal_strlit("1");
        reveal_strlit("2");
        reveal_strlit("3");
        reveal_strlit("4");
        reveal_strlit("5");
        reveal_strlit("6");
        reveal_strlit("7");
        reveal_strlit("8");
        reveal_strlit("9");
        assert(r@ =~= seq![char_of_digit(d as int)]);
    }
    r
}

/// Renders a machine integer in canonical decimal.
pub(crate) fn u64_to_decimal(n: u64) -> (r: String)
    ensures
        r@ == spec_digits(n as nat),
    decreases n,
{
    if n < 10 {
        digit_str(n).to_owned()
    } else {
        let mut s = u64_to_decimal(n / 10);
        s.append(digit_str(n % 10));
        proof {
            assert(spec_digits((n / 10) as nat).push(char_of_digit((n % 10) as int)) =~= spec_digits(
                (n / 10) as nat,
            ) + seq![char_of_digit((n % 10) as int)]);
        }
        s
    }
}

} // verus!
