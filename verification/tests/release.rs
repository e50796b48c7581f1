use solder::zend::{
    check_gc_flags, free_zend_string, release, should_free, Release, ZendRefCounted, ZendString,
    Zval, ZendValue, TypeInfoUnion,
};

const IMMUTABLE_BIT: u32 = 0x200;
const PERSISTENT_BIT: u32 = 0x100;

fn string_with(ref_count: u32, type_info: u32) -> ZendString {
    ZendString::from_parts(ZendRefCounted { ref_count, type_info }, 0, 3, b"abc".to_vec()).unwrap()
}

#[test]
fn a_flag_position_reads_the_bit_three_places_up() {
    let header = ZendRefCounted { ref_count: 1, type_info: 0x200 };
    assert!(check_gc_flags(&header, 6));
    assert!(!check_gc_flags(&header, 5));
    assert!(!check_gc_flags(&header, 7));
    let header = ZendRefCounted { ref_count: 1, type_info: 0x100 };
    assert!(check_gc_flags(&header, 5));
    assert!(!check_gc_flags(&header, 6));
    let header = ZendRefCounted { ref_count: 1, type_info: 0x10 };
    assert!(check_gc_flags(&header, 1));
    assert!(!check_gc_flags(&header, 4));
    let header = ZendRefCounted { ref_count: 1, type_info: 0x40 };
    assert!(check_gc_flags(&header, 3));
    assert!(!check_gc_flags(&header, 6));
}

#[test]
fn positions_that_the_flag_bits_do_not_fill_read_as_unset() {
    let header = ZendRefCounted { ref_count: 1, type_info: 0xFFFF_FFFF };
    assert!(!check_gc_flags(&header, 0));
    for position in 1..=6 {
        assert!(check_gc_flags(&header, position));
    }
    for position in 7..32 {
        assert!(!check_gc_flags(&header, position));
    }
    let header = ZendRefCounted { ref_count: 1, type_info: 0 };
    for position in 0..32 {
        assert!(!check_gc_flags(&header, position));
    }
}

#[test]
fn a_flag_is_read_by_cutting_shifting_and_looking_up() {
    for type_info in [0u32, 6, 0x10, 0x1F0, 0x200, 0x3F0, 0x400, 0x1234_5678, u32::MAX] {
        let header = ZendRefCounted { ref_count: 1, type_info };
        for position in 0..32 {
            let expected = ((type_info & 0x0000_03f0) >> 3) & (1u32 << position) != 0;
            assert_eq!(check_gc_flags(&header, position), expected);
        }
    }
}

#[test]
fn should_free_counts_down_and_reports_the_last_reference() {
    let mut header = ZendRefCounted { ref_count: 3, type_info: 6 };
    assert!(!should_free(&mut header));
    assert_eq!(header.ref_count, 2);
    assert!(!should_free(&mut header));
    assert_eq!(header.ref_count, 1);
    assert!(should_free(&mut header));
    assert_eq!(header.ref_count, 0);
    assert_eq!(header.type_info, 6);
}

#[test]
fn should_free_leaves_a_count_of_zero_at_zero() {
    let mut header = ZendRefCounted { ref_count: 0, type_info: 6 };
    assert!(should_free(&mut header));
    assert_eq!(header.ref_count, 0);
}

#[test]
fn two_references_are_given_up_one_by_one_and_the_string_is_freed_once() {
    let mut string = string_with(2, 6);
    assert_eq!(free_zend_string(&mut string), Release::Retain);
    assert_eq!(string.gc().ref_count, 1);
    assert_eq!(free_zend_string(&mut string), Release::FreePooled);
    assert_eq!(string.gc().ref_count, 0);
    assert_eq!(string.gc().type_info, 6);
    assert_eq!(string.as_bytes(), b"abc");
}

#[test]
fn an_immutable_string_is_never_freed_nor_counted() {
    let mut string = string_with(1, 6 | IMMUTABLE_BIT);
    assert_eq!(free_zend_string(&mut string), Release::Retain);
    assert_eq!(string.gc().ref_count, 1);
    assert_eq!(free_zend_string(&mut string), Release::Retain);
    assert_eq!(string.gc().ref_count, 1);
    let mut string = string_with(0, 6 | IMMUTABLE_BIT);
    assert_eq!(free_zend_string(&mut string), Release::Retain);
    assert_eq!(string.gc().ref_count, 0);
}

#[test]
fn the_last_reference_of_a_pooled_string_is_freed_by_the_pool() {
    let mut header = ZendRefCounted { ref_count: 1, type_info: 6 };
    assert_eq!(release(&mut header), Release::FreePooled);
    assert_eq!(header, ZendRefCounted { ref_count: 0, type_info: 6 });
}

#[test]
fn the_last_reference_of_a_persistent_string_goes_to_the_platform_allocator() {
    let mut header = ZendRefCounted { ref_count: 1, type_info: 6 | PERSISTENT_BIT };
    assert_eq!(release(&mut header), Release::FreePersistent);
    assert_eq!(header, ZendRefCounted { ref_count: 0, type_info: 6 | PERSISTENT_BIT });

    let mut string = string_with(2, 6 | PERSISTENT_BIT);
    assert_eq!(free_zend_string(&mut string), Release::Retain);
    assert_eq!(string.gc().ref_count, 1);
    assert_eq!(free_zend_string(&mut string), Release::FreePersistent);
    assert_eq!(string.gc().ref_count, 0);

    let mut header = ZendRefCounted { ref_count: 0, type_info: PERSISTENT_BIT };
    assert_eq!(release(&mut header), Release::FreePersistent);
    assert_eq!(header.ref_count, 0);
}

#[test]
fn only_the_persistent_bit_chooses_between_the_two_ways_of_freeing() {
    for bit in 0..32 {
        let word = 1u32 << bit;
        if word == IMMUTABLE_BIT {
            continue;
        }
        let mut header = ZendRefCounted { ref_count: 1, type_info: word };
        let expected =
            if word == PERSISTENT_BIT { Release::FreePersistent } else { Release::FreePooled };
        assert_eq!(release(&mut header), expected);
    }
}

#[test]
fn an_immutable_string_stays_though_it_is_persistent() {
    let mut string = string_with(1, 6 | IMMUTABLE_BIT | PERSISTENT_BIT);
    assert_eq!(free_zend_string(&mut string), Release::Retain);
    assert_eq!(string.gc().ref_count, 1);
}

#[test]
fn a_cell_gives_up_its_string_and_other_cells_give_up_nothing() {
    let mut cell = Zval::from_string(Box::new(string_with(2, 6)));
    assert_eq!(cell.release(), Release::Retain);
    match cell.value() {
        ZendValue::String(string) => assert_eq!(string.gc().ref_count, 1),
        _ => panic!("the cell no longer points to its string"),
    }
    assert_eq!(cell.release(), Release::FreePooled);
    assert!(cell.is_string());

    let mut cell = Zval::from_string(Box::new(string_with(1, 6 | PERSISTENT_BIT)));
    assert_eq!(cell.release(), Release::FreePersistent);

    let mut number = Zval::new(9i64);
    assert_eq!(number.release(), Release::Retain);
    assert_eq!(number.type_info(), TypeInfoUnion { type_info: 4 });
    assert!(matches!(number.value(), ZendValue::Long(9)));
}
