//! The arbitrary-precision integer carried by `Literal::Integer`.
//!
//! The value lives in `num_bigint::BigInt`, which is opaque here; the spec
//! function `big_int_value` names the mathematical integer a `BigInt` holds,
//! and every trusted item below speaks of the contents through that name.
//! The verified constructors and accessors on `Literal` state, over the
//! decimal specifications of `crate::decimal`, exactly which texts are
//! accepted and what text is produced.

use crate::ast::Literal;
use crate::decimal::decimal_int_literal_value;
use crate::decimal::is_decimal_int_literal;
use crate::decimal::spec_decimal;
use num_bigint::BigInt;
use vstd::prelude::*;

verus! {

#[verifier::external_type_specification]
#[verifier::external_body]
pub struct ExBigInt(BigInt);

/// The mathematical integer a `BigInt` holds. A `BigInt` is a function of
/// this value alone: `num_bigint` keeps the representation canonical, and
/// every trusted item below describes its result through this name.
pub uninterp spec fn big_int_value(b: BigInt) -> int;

/// Relies on `<BigInt as From<i64>>::from`: the result holds exactly the
/// given machine integer.
#[verifier::external_body]
pub(crate) fn bigint_from_i64(v: i64) -> (r: BigInt)
    ensures
        big_int_value(r) == v as int,
{
    BigInt::from(v)
}

/// Relies on `<BigInt as FromStr>::from_str`, which parses in radix 10: it
/// accepts an optional single leading sign followed by a digit body that is
/// nonempty, leads with a digit, and contains only digits and skipped
/// underscores; it rejects every other text. The result holds the signed
/// value of the digits.
#[verifier::external_body]
pub(crate) fn bigint_from_decimal_str(s: &str) -> (r: Option<BigInt>)
    ensures
        r is Some <==> is_decimal_int_literal(s@),
        r matches Some(b) ==> big_int_value(b) == decimal_int_literal_value(s@),
{
    match <BigInt as core::str::FromStr>::from_str(s) {
        Ok(b) => Some(b),
        Err(_) => None,
    }
}

/// Relies on `BigInt::to_str_radix` with radix 10: the canonical decimal
/// rendering of the value, one minus sign for a negative value and no sign
/// otherwise, without leading zeros.
#[verifier::external_body]
pub(crate) fn bigint_to_decimal_string(b: &BigInt) -> (r: String)
    ensures
        r@ == spec_decimal(big_int_value(*b)),
{
    b.to_str_radix(10)
}

impl Literal {
    /// Builds an integer literal from decimal text of any magnitude.
    /// Succeeds exactly on decimal integer literals (an optional sign, then
    /// digits and skipped underscores, leading with a digit), and the stored
    /// value is exactly the value the text denotes: nothing is truncated to
    /// a machine word.
    pub fn integer_from_decimal(s: &str) -> (r: Option<Literal>)
        ensures
            r is Some <==> is_decimal_int_literal(s@),
            r matches Some(l) ==> (l matches Literal::Integer { value } && big_int_value(value)
                == decimal_int_literal_value(s@)),
    {
        match bigint_from_decimal_str(s) {
            Some(b) => Some(Literal::Integer { value: b }),
            None => None,
        }
    }

    /// Builds an integer literal holding exactly the given machine integer.
    pub fn integer_from_i64(v: i64) -> (r: Literal)
        ensures
            r matches Literal::Integer { value } && big_int_value(value) == v as int,
    {
        Literal::Integer { value: bigint_from_i64(v) }
    }

    /// Reads an integer literal back as canonical decimal text; `None` for
    /// every other literal kind. Together with `integer_from_decimal` and
    /// the round-trip proof in `crate::decimal`, the stored value is read
    /// back identically however large it is.
    pub fn integer_decimal(&self) -> (r: Option<String>)
        ensures
            r is Some <==> self is Integer,
            self matches Literal::Integer { value } ==> (r matches Some(s) && s@ == spec_decimal(
                big_int_value(*value),
            )),
    {
        match self {
            Literal::Integer { value } => Some(bigint_to_decimal_string(value)),
            _ => None,
        }
    }
}

} // verus!
