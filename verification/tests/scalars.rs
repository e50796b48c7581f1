use solder::zend::{Double, FromPhpZval, PhpTypeConversionError, TypeInfoUnion, Zval};

#[test]
fn integer_comes_back_unchanged() {
    for number in [0i64, 1, -1, 42, i64::MAX, i64::MIN] {
        let cell = Zval::new(number);
        assert!(cell.is_integer());
        assert_eq!(<i64 as FromPhpZval>::try_from(cell), Ok(number));
    }
}

#[test]
fn float_comes_back_unchanged() {
    for number in [0.0f64, -0.0, 1.5, -2.25e300, f64::INFINITY, f64::MIN_POSITIVE] {
        let cell = Zval::new(Double { bits: number.to_bits() });
        assert!(cell.is_float());
        let back = <Double as FromPhpZval>::try_from(cell).unwrap();
        assert_eq!(f64::from_bits(back.bits).to_bits(), number.to_bits());
    }
}

#[test]
fn text_comes_back_unchanged() {
    for text in ["", "hello", "100% sure", "na\u{ef}ve \u{2603}", "nul\0inside"] {
        let cell = Zval::new(text);
        assert!(cell.is_string());
        assert_eq!(<String as FromPhpZval>::try_from(cell), Ok(text.to_string()));
    }
}

#[test]
fn integer_read_as_text_is_refused_with_its_type_word() {
    let cell = Zval::new(7i64);
    assert_eq!(
        <String as FromPhpZval>::try_from(cell),
        Err(PhpTypeConversionError::NotString(TypeInfoUnion { type_info: 4 }))
    );
}
