use solder::zend::{
    create_zend_string, FromPhpZval, PhpTypeConversionError, TypeInfoUnion, ZendRefCounted,
    ZendString, Zval,
};

#[test]
fn the_host_string_of_a_text_holds_its_bytes_once_referenced() {
    let string = ZendString::new_as_pointer("h\u{e9}llo");
    assert_eq!(string.gc(), ZendRefCounted { ref_count: 1, type_info: 6 });
    assert_eq!(string.hash(), 0);
    assert_eq!(string.len(), 6);
    assert_eq!(string.as_bytes(), "h\u{e9}llo".as_bytes());
    assert_eq!(string.buffer(), "h\u{e9}llo".as_bytes());
}

#[test]
fn the_host_makes_a_string_of_no_more_bytes_than_asked_for() {
    let string = create_zend_string(3, b"abcdef");
    assert_eq!(string.len(), 3);
    assert_eq!(string.as_bytes(), b"abc");
    let string = create_zend_string(10, b"abcdef");
    assert_eq!(string.len(), 6);
    assert_eq!(string.as_bytes(), b"abcdef");
    let string = create_zend_string(0, b"abcdef");
    assert_eq!(string.len(), 0);
    assert_eq!(string.as_bytes(), b"");
}

#[test]
fn a_string_is_cut_at_its_length_and_not_at_a_terminator() {
    let header = ZendRefCounted { ref_count: 1, type_info: 6 };
    let string = ZendString::from_parts(header, 77, 5, b"ab\0cdXYZ".to_vec()).unwrap();
    assert_eq!(string.hash(), 77);
    assert_eq!(string.as_bytes(), b"ab\0cd");
    assert_eq!(string.buffer(), b"ab\0cdXYZ");
    let cell = Zval::from_string(Box::new(string));
    assert_eq!(<String as FromPhpZval>::try_from(cell), Ok("ab\0cd".to_string()));
}

#[test]
fn a_buffer_shorter_than_the_length_makes_no_string() {
    let header = ZendRefCounted { ref_count: 1, type_info: 6 };
    assert!(ZendString::from_parts(header, 0, 4, b"abc".to_vec()).is_none());
    assert!(ZendString::from_parts(header, 0, 3, b"abc".to_vec()).is_some());
    assert!(ZendString::from_parts(header, 0, 0, Vec::new()).is_some());
}

#[test]
fn bytes_that_are_no_text_are_refused_under_their_own_type_word() {
    let header = ZendRefCounted { ref_count: 1, type_info: 6 };
    for bytes in [vec![0xFFu8], vec![b'a', 0xC3], vec![0xED, 0xA0, 0x80], vec![0xC0, 0x80]] {
        let len = bytes.len();
        let string = ZendString::from_parts(header, 0, len, bytes).unwrap();
        let cell = Zval::from_string(Box::new(string));
        assert_eq!(
            <String as FromPhpZval>::try_from(cell),
            Err(PhpTypeConversionError::NotString(TypeInfoUnion { type_info: 666 }))
        );
    }
}

#[test]
fn bytes_behind_the_length_do_not_spoil_the_text() {
    let header = ZendRefCounted { ref_count: 1, type_info: 6 };
    let string = ZendString::from_parts(header, 0, 2, vec![b'o', b'k', 0xFF, 0xFE]).unwrap();
    let cell = Zval::from_string(Box::new(string));
    assert_eq!(<String as FromPhpZval>::try_from(cell), Ok("ok".to_string()));
}

#[test]
fn a_copy_of_a_string_shows_it_as_it_stands() {
    let header = ZendRefCounted { ref_count: 5, type_info: 0xC6 };
    let string = ZendString::from_parts(header, 9, 2, b"hey".to_vec()).unwrap();
    let copy = string.clone();
    assert_eq!(copy.gc(), header);
    assert_eq!(copy.hash(), 9);
    assert_eq!(copy.len(), 2);
    assert_eq!(copy.buffer(), b"hey");
}
