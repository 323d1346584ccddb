use ast_core::Literal;
use num_bigint::BigInt;

#[test]
fn huge_integer_literal_round_trips() {
    let text = "123456789012345678901234567890";
    let lit = Literal::integer_from_decimal(text).unwrap();
    assert_eq!(lit.integer_decimal().unwrap(), text);
}

#[test]
fn huge_negative_integer_literal_round_trips() {
    let text = "-987654321098765432109876543210123";
    let lit = Literal::integer_from_decimal(text).unwrap();
    assert_eq!(lit.integer_decimal().unwrap(), text);
}

#[test]
fn huge_integer_exceeds_machine_width_exactly() {
    let lit = Literal::integer_from_decimal("123456789012345678901234567890").unwrap();
    match &lit {
        Literal::Integer { value } => {
            let expected: BigInt =
                "123456789012345678901234567890".parse().unwrap();
            assert_eq!(value, &expected);
            let truncated = BigInt::from(u64::MAX);
            assert!(value > &truncated);
        }
        _ => panic!("expected an integer literal"),
    }
}

#[test]
fn machine_integers_render_in_decimal() {
    assert_eq!(Literal::integer_from_i64(-42).integer_decimal().unwrap(), "-42");
    assert_eq!(Literal::integer_from_i64(0).integer_decimal().unwrap(), "0");
    assert_eq!(Literal::integer_from_i64(i64::MAX).integer_decimal().unwrap(), "9223372036854775807");
    assert_eq!(Literal::integer_from_i64(i64::MIN).integer_decimal().unwrap(), "-9223372036854775808");
}

#[test]
fn plus_sign_and_leading_zeros_normalise() {
    let lit = Literal::integer_from_decimal("+007").unwrap();
    assert_eq!(lit.integer_decimal().unwrap(), "7");
}

#[test]
fn underscores_are_skipped() {
    let lit = Literal::integer_from_decimal("1_000_000").unwrap();
    assert_eq!(lit.integer_decimal().unwrap(), "1000000");
}

#[test]
fn malformed_decimal_texts_are_rejected() {
    assert!(Literal::integer_from_decimal("").is_none());
    assert!(Literal::integer_from_decimal("+").is_none());
    assert!(Literal::integer_from_decimal("-").is_none());
    assert!(Literal::integer_from_decimal("_5").is_none());
    assert!(Literal::integer_from_decimal("-_5").is_none());
    assert!(Literal::integer_from_decimal("abc").is_none());
    assert!(Literal::integer_from_decimal("12a").is_none());
    assert!(Literal::integer_from_decimal("-+5").is_none());
    assert!(Literal::integer_from_decimal("1 2").is_none());
}

#[test]
fn integer_accessor_rejects_other_literals() {
    assert!(Literal::Boolean(true).integer_decimal().is_none());
    assert!(Literal::String("12".to_string()).integer_decimal().is_none());
}

#[test]
fn stored_big_integer_reads_back_identically() {
    let value: BigInt = "314159265358979323846264338327950288419716939937510".parse().unwrap();
    let lit = Literal::Integer { value: value.clone() };
    match &lit {
        Literal::Integer { value: stored } => assert_eq!(stored, &value),
        _ => panic!("expected an integer literal"),
    }
    assert_eq!(
        lit.integer_decimal().unwrap(),
        "314159265358979323846264338327950288419716939937510"
    );
}

#[test]
fn float_literal_preserves_ieee_bits() {
    let x: f64 = 2.5;
    let lit = Literal::Float { bits: x.to_bits() };
    match lit {
        Literal::Float { bits } => assert_eq!(f64::from_bits(bits), 2.5),
        _ => panic!("expected a float literal"),
    }
}
