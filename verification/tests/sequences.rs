use solder::zend::{
    Bucket, Double, FromPhpZval, PhpTypeConversionError, ToPhpZval, TypeInfoUnion, ZendArray,
    ZendRefCounted, ZendValue, Zval,
};

fn table_of(buckets: Vec<Bucket>, elements: u32) -> Zval {
    let used = buckets.len() as u32;
    let header = ZendRefCounted { ref_count: 1, type_info: 7 };
    let table = ZendArray::from_parts(header, 0, buckets, used, elements, 8, 0, 0, 0).unwrap();
    Zval::from_parts(ZendValue::Array(Box::new(table)), TypeInfoUnion { type_info: 7 }, 0).unwrap()
}

fn undefined() -> Zval {
    Zval::new_as_undef()
}

#[test]
fn a_sequence_comes_back_unchanged() {
    let numbers = vec![10i64, -20, 30, 0, i64::MIN];
    let cell = Zval::new(numbers.clone());
    assert!(cell.is_array());
    assert_eq!(<Vec<i64> as FromPhpZval>::try_from(cell), Ok(numbers));
}

#[test]
fn an_empty_sequence_comes_back_empty() {
    let cell = Zval::new(Vec::<i64>::new());
    assert!(cell.is_array());
    assert_eq!(<Vec<i64> as FromPhpZval>::try_from(cell), Ok(Vec::new()));
}

#[test]
fn a_sequence_of_texts_comes_back_unchanged() {
    let texts = vec!["a".to_string(), String::new(), "\u{1F600} ok".to_string()];
    let cell = Zval::new(texts.clone());
    assert_eq!(<Vec<String> as FromPhpZval>::try_from(cell), Ok(texts));
}

#[test]
fn a_sequence_of_sequences_comes_back_unchanged() {
    let rows = vec![vec![1i64, 2], vec![], vec![3]];
    let cell = Zval::new(rows.clone());
    assert_eq!(<Vec<Vec<i64>> as FromPhpZval>::try_from(cell), Ok(rows));
}

#[test]
fn a_sequence_of_floats_comes_back_bit_for_bit() {
    let numbers: Vec<Double> =
        [1.5f64, -0.0, f64::NAN].iter().map(|x| Double { bits: x.to_bits() }).collect();
    let cell = Zval::new(numbers.clone());
    assert_eq!(<Vec<Double> as FromPhpZval>::try_from(cell), Ok(numbers));
}

#[test]
fn the_keys_of_a_sequence_are_its_positions() {
    let cell = Zval::new(vec![7i64, 8, 9]);
    let table = match cell.value() {
        ZendValue::Array(table) => table,
        _ => panic!("the cell points to no table"),
    };
    assert_eq!(table.gc(), ZendRefCounted { ref_count: 1, type_info: 7 });
    assert_eq!(table.n_num_used(), 3);
    assert_eq!(table.n_num_of_elements(), 3);
    for position in 0..3u32 {
        let bucket = table.bucket(position);
        assert_eq!(bucket.hash, position as u64);
        assert!(bucket.key.is_none());
        assert!(matches!(bucket.value.value(), ZendValue::Long(n) if *n == 7 + position as i64));
        assert!(bucket.value.is_integer());
    }
    assert_eq!(cell.u2(), 0);
    assert_eq!(cell.type_info(), TypeInfoUnion { type_info: 7 });
}

#[test]
fn vacated_slots_are_passed_over() {
    let buckets = vec![
        Bucket::numeric(0, Zval::new(1i64)),
        Bucket::numeric(1, undefined()),
        Bucket::numeric(2, Zval::new(3i64)),
        Bucket::numeric(3, undefined()),
        Bucket::numeric(4, Zval::new(5i64)),
    ];
    let cell = table_of(buckets, 3);
    assert_eq!(<Vec<i64> as FromPhpZval>::try_from(cell), Ok(vec![1, 3, 5]));
}

#[test]
fn every_used_slot_is_visited_though_fewer_elements_are_counted() {
    let buckets = vec![
        Bucket::numeric(0, undefined()),
        Bucket::numeric(1, undefined()),
        Bucket::numeric(2, Zval::new(30i64)),
        Bucket::numeric(3, Zval::new(40i64)),
    ];
    let cell = table_of(buckets, 2);
    assert_eq!(<Vec<i64> as FromPhpZval>::try_from(cell), Ok(vec![30, 40]));
}

#[test]
fn a_vacated_slot_counts_by_its_low_bits_alone() {
    let flagged = Zval::from_parts(ZendValue::Void(0), TypeInfoUnion { type_info: 0x100 }, 5)
        .unwrap();
    let cell = table_of(vec![Bucket::numeric(0, flagged), Bucket::numeric(1, Zval::new(2i64))], 1);
    assert_eq!(<Vec<i64> as FromPhpZval>::try_from(cell), Ok(vec![2]));
}

#[test]
fn the_first_element_that_cannot_be_read_fails_the_whole_reading() {
    let buckets = vec![
        Bucket::numeric(0, Zval::new(1i64)),
        Bucket::numeric(1, Zval::new("two")),
        Bucket::numeric(2, Zval::new(Double { bits: 0 })),
    ];
    let cell = table_of(buckets, 3);
    assert_eq!(
        <Vec<i64> as FromPhpZval>::try_from(cell),
        Err(PhpTypeConversionError::NotInteger(TypeInfoUnion { type_info: 6 }))
    );
}

#[test]
fn elements_are_read_through_references() {
    let target = Zval::new(11i64);
    let reference =
        Zval::from_parts(ZendValue::Zval(Box::new(target)), TypeInfoUnion { type_info: 10 }, 0)
            .unwrap();
    let cell = table_of(vec![Bucket::numeric(0, reference)], 1);
    assert_eq!(<Vec<i64> as FromPhpZval>::try_from(cell), Ok(vec![11]));
}

#[test]
fn what_is_no_table_is_no_sequence() {
    assert_eq!(
        <Vec<i64> as FromPhpZval>::try_from(Zval::new(5i64)),
        Err(PhpTypeConversionError::NotArray(TypeInfoUnion { type_info: 4 }))
    );
    assert_eq!(
        <Vec<String> as FromPhpZval>::try_from(Zval::new_as_null()),
        Err(PhpTypeConversionError::NotArray(TypeInfoUnion { type_info: 1 }))
    );
}

#[test]
fn a_table_is_walked_by_its_own_method() {
    let table = ZendArray::from_parts(
        ZendRefCounted { ref_count: 2, type_info: 7 },
        0xFFFF_FFFE,
        vec![Bucket::numeric(5, Zval::new("x")), Bucket::numeric(9, undefined())],
        2,
        1,
        8,
        0,
        10,
        0,
    )
    .unwrap();
    assert_eq!(table.elements::<String>(), Ok(vec!["x".to_string()]));
    assert_eq!(table.n_table_mask(), 0xFFFF_FFFE);
    assert_eq!(table.n_table_size(), 8);
    assert_eq!(table.n_internal_pointer(), 0);
    assert_eq!(table.n_next_free_element(), 10);
    assert_eq!(table.p_destructor(), 0);
}

#[test]
fn a_table_needs_as_many_slots_as_it_says_are_used() {
    let header = ZendRefCounted { ref_count: 1, type_info: 7 };
    let one_slot = || vec![Bucket::numeric(0, undefined())];
    assert!(ZendArray::from_parts(header, 0, Vec::new(), 1, 0, 8, 0, 0, 0).is_none());
    assert!(ZendArray::from_parts(header, 0, one_slot(), 0, 0, 8, 0, 0, 0).is_none());
    assert!(ZendArray::from_parts(header, 0, one_slot(), 1, 2, 8, 0, 0, 0).is_none());
    assert!(ZendArray::from_parts(header, 0, one_slot(), 1, 0, 8, 0, 0, 0).is_some());
}

#[test]
fn a_sequence_that_the_host_can_count_can_be_encoded() {
    assert!(vec![1i64, 2, 3].can_encode());
    assert!(Vec::<String>::new().can_encode());
    assert!(vec![vec!["a"], vec![]].can_encode());
    assert!(5i64.can_encode());
    assert!("text".can_encode());
}
