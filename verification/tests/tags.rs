use solder::zend::{InternalPhpTypes, TypeInfoUnion};

#[test]
fn kinds_have_the_numbers_of_the_host() {
    assert_eq!(InternalPhpTypes::UNDEF.code(), 0);
    assert_eq!(InternalPhpTypes::NULL.code(), 1);
    assert_eq!(InternalPhpTypes::FALSE.code(), 2);
    assert_eq!(InternalPhpTypes::TRUE.code(), 3);
    assert_eq!(InternalPhpTypes::LONG.code(), 4);
    assert_eq!(InternalPhpTypes::DOUBLE.code(), 5);
    assert_eq!(InternalPhpTypes::STRING.code(), 6);
    assert_eq!(InternalPhpTypes::ARRAY.code(), 7);
    assert_eq!(InternalPhpTypes::OBJECT.code(), 8);
    assert_eq!(InternalPhpTypes::RESOURCE.code(), 9);
    assert_eq!(InternalPhpTypes::REFERENCE.code(), 10);
    assert_eq!(InternalPhpTypes::INDIRECT.code(), 13);
}

#[test]
fn numbers_name_their_kinds_and_no_others() {
    assert_eq!(InternalPhpTypes::from_code(0), Some(InternalPhpTypes::UNDEF));
    assert_eq!(InternalPhpTypes::from_code(7), Some(InternalPhpTypes::ARRAY));
    assert_eq!(InternalPhpTypes::from_code(10), Some(InternalPhpTypes::REFERENCE));
    assert_eq!(InternalPhpTypes::from_code(13), Some(InternalPhpTypes::INDIRECT));
    assert_eq!(InternalPhpTypes::from_code(11), None);
    assert_eq!(InternalPhpTypes::from_code(12), None);
    assert_eq!(InternalPhpTypes::from_code(14), None);
    assert_eq!(InternalPhpTypes::from_code(16), None);
    for code in 0u32..16 {
        if let Some(kind) = InternalPhpTypes::from_code(code) {
            assert_eq!(kind.code(), code);
        }
    }
}

#[test]
fn only_the_low_bits_decide_the_kind() {
    let bare = TypeInfoUnion { type_info: 6 };
    let flagged = TypeInfoUnion { type_info: 0x0000_1406 };
    assert!(bare.is_from_type(InternalPhpTypes::STRING));
    assert!(flagged.is_from_type(InternalPhpTypes::STRING));
    assert!(!flagged.is_from_type(InternalPhpTypes::LONG));
    assert_eq!(flagged.tag(), 6);
    assert_eq!(flagged.kind(), Some(InternalPhpTypes::STRING));
    assert_eq!(flagged.type_info, 0x0000_1406);
}

#[test]
fn a_word_with_an_unknown_number_has_no_kind() {
    let word = TypeInfoUnion { type_info: 0x2B };
    assert_eq!(word.tag(), 11);
    assert_eq!(word.kind(), None);
    assert!(!word.is_from_type(InternalPhpTypes::REFERENCE));
}

#[test]
fn the_bare_word_of_a_kind_is_its_number() {
    assert_eq!(TypeInfoUnion::of(InternalPhpTypes::LONG), TypeInfoUnion { type_info: 4 });
    assert_eq!(TypeInfoUnion::of(InternalPhpTypes::INDIRECT).type_info, 13);
}
