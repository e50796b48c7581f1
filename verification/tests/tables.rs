use solder::zend::table::same_bytes;
use solder::zend::{
    create_zend_array, Bucket, FromPhpZval, TypeInfoUnion, ZendArray, ZendRefCounted, ZendString,
    ZendValue, Zval,
};

fn table(cell: &Zval) -> &ZendArray {
    match cell.value() {
        ZendValue::Array(table) => table,
        _ => panic!("the cell points to no table"),
    }
}

#[test]
fn a_fresh_table_is_empty_and_once_referenced() {
    let table = ZendArray::new();
    assert_eq!(table.gc(), ZendRefCounted { ref_count: 1, type_info: 7 });
    assert_eq!(table.n_num_used(), 0);
    assert_eq!(table.n_num_of_elements(), 0);
    assert!(!table.is_full());
}

#[test]
fn a_cell_is_pointed_to_a_fresh_table_and_keeps_the_hosts_word() {
    let word = TypeInfoUnion { type_info: 4 };
    let mut cell = Zval::from_parts(ZendValue::Long(3), word, 99).unwrap();
    ZendArray::new_in_zval(&mut cell);
    assert!(cell.is_array());
    assert_eq!(cell.type_info(), TypeInfoUnion { type_info: 7 });
    assert_eq!(cell.u2(), 99);
    assert_eq!(table(&cell).n_num_used(), 0);

    let mut other = Zval::new_as_null();
    create_zend_array(&mut other);
    assert!(other.is_array());
    assert_eq!(other.u2(), 0);
}

#[test]
fn values_are_stored_in_the_order_in_which_they_come() {
    let mut cell = Zval::new_as_null();
    ZendArray::new_in_zval(&mut cell);
    for (key, text) in [(0i64, "a"), (1, "b"), (2, "c")] {
        let mut key = Zval::new(key);
        let mut value = Zval::new(text);
        ZendArray::add_value(&mut cell, &mut key, &mut value);
        assert!(key.is_integer());
        assert!(value.is_string());
    }
    assert_eq!(table(&cell).n_num_used(), 3);
    assert_eq!(table(&cell).n_num_of_elements(), 3);
    assert_eq!(
        <Vec<String> as FromPhpZval>::try_from(cell),
        Ok(vec!["a".to_string(), "b".to_string(), "c".to_string()])
    );
}

#[test]
fn a_value_under_a_key_that_is_there_takes_the_place_of_the_old_one() {
    let mut cell = Zval::new(vec![10i64, 20, 30]);
    let mut key = Zval::new(1i64);
    let mut value = Zval::new(21i64);
    ZendArray::add_value(&mut cell, &mut key, &mut value);
    assert_eq!(table(&cell).n_num_used(), 3);
    assert_eq!(table(&cell).n_num_of_elements(), 3);
    assert_eq!(table(&cell).bucket(1).hash, 1);
    assert_eq!(<Vec<i64> as FromPhpZval>::try_from(cell), Ok(vec![10, 21, 30]));
}

#[test]
fn a_new_key_takes_the_next_slot_whatever_its_size() {
    let mut cell = Zval::new(vec![10i64]);
    let mut key = Zval::new(-1i64);
    let mut value = Zval::new(99i64);
    ZendArray::add_value(&mut cell, &mut key, &mut value);
    assert_eq!(table(&cell).n_num_used(), 2);
    assert_eq!(table(&cell).bucket(1).hash, u64::MAX);
    assert!(table(&cell).bucket(1).key.is_none());
    assert_eq!(<Vec<i64> as FromPhpZval>::try_from(cell), Ok(vec![10, 99]));
}

#[test]
fn a_vacated_slot_is_not_taken_again() {
    let header = ZendRefCounted { ref_count: 1, type_info: 7 };
    let buckets =
        vec![Bucket::numeric(0, Zval::new_as_undef()), Bucket::numeric(1, Zval::new(5i64))];
    let held = ZendArray::from_parts(header, 0, buckets, 2, 1, 8, 0, 2, 0).unwrap();
    let held = held.index_update(0, Zval::new(4i64));
    assert_eq!(held.n_num_used(), 3);
    assert_eq!(held.n_num_of_elements(), 2);
    assert!(held.bucket(0).value.is_undef());
    assert_eq!(held.bucket(2).hash, 0);
    assert_eq!(held.elements::<i64>(), Ok(vec![5, 4]));
    assert_eq!(held.n_table_size(), 8);
    assert_eq!(held.n_next_free_element(), 2);
}

#[test]
fn nothing_is_stored_where_there_is_no_table_or_no_key() {
    let mut no_table = Zval::new(1i64);
    let mut key = Zval::new(0i64);
    let mut value = Zval::new(2i64);
    ZendArray::add_value(&mut no_table, &mut key, &mut value);
    assert!(no_table.is_integer());
    assert!(matches!(no_table.value(), ZendValue::Long(1)));

    let mut cell = Zval::new(vec![1i64]);
    let mut null_key = Zval::new_as_null();
    ZendArray::add_value(&mut cell, &mut null_key, &mut value);
    let mut table_key = Zval::new(vec![0i64]);
    ZendArray::add_value(&mut cell, &mut table_key, &mut value);
    assert_eq!(table(&cell).n_num_used(), 1);
    assert_eq!(<Vec<i64> as FromPhpZval>::try_from(cell), Ok(vec![1]));
}

#[test]
fn a_value_is_stored_under_a_string_key() {
    let mut cell = Zval::new_as_null();
    ZendArray::new_in_zval(&mut cell);
    let mut key = Zval::new("name");
    let mut value = Zval::new("Bruno");
    ZendArray::add_value(&mut cell, &mut key, &mut value);
    assert!(key.is_string());
    assert_eq!(table(&cell).n_num_used(), 1);
    assert_eq!(table(&cell).n_num_of_elements(), 1);
    let bucket = table(&cell).bucket(0);
    assert_eq!(bucket.key.as_ref().map(|name| name.as_bytes().to_vec()), Some(b"name".to_vec()));
    assert_eq!(bucket.hash, 0);
    assert_eq!(<String as FromPhpZval>::try_from_ref(&bucket.value), Ok("Bruno".to_string()));
}

#[test]
fn a_string_key_that_is_there_keeps_its_slot_and_its_key() {
    let header = ZendRefCounted { ref_count: 3, type_info: 6 };
    let held_key = ZendString::from_parts(header, 1234, 1, b"a!".to_vec()).unwrap();
    let buckets = vec![
        Bucket::numeric(0, Zval::new(10i64)),
        Bucket { value: Zval::new(20i64), hash: 1234, key: Some(Box::new(held_key)) },
    ];
    let table_header = ZendRefCounted { ref_count: 1, type_info: 7 };
    let held = ZendArray::from_parts(table_header, 0, buckets, 2, 2, 8, 0, 1, 0).unwrap();
    let name = ZendString::new_as_pointer("a");
    let held = held.name_update(&name, Zval::new(21i64));
    assert_eq!(held.n_num_used(), 2);
    assert_eq!(held.n_num_of_elements(), 2);
    assert_eq!(held.bucket(1).hash, 1234);
    assert_eq!(held.bucket(1).key.as_ref().map(|key| key.gc().ref_count), Some(3));
    assert_eq!(held.elements::<i64>(), Ok(vec![10, 21]));

    let other = ZendString::new_as_pointer("b");
    let held = held.name_update(&other, Zval::new(30i64));
    assert_eq!(held.n_num_used(), 3);
    assert_eq!(held.bucket(2).key.as_ref().map(|key| key.as_bytes().to_vec()), Some(b"b".to_vec()));
    assert_eq!(held.elements::<i64>(), Ok(vec![10, 21, 30]));
}

#[test]
fn a_string_key_and_a_numeric_key_are_two_keys() {
    let mut cell = Zval::new(vec![10i64]);
    let mut key = Zval::new("0");
    let mut value = Zval::new(11i64);
    ZendArray::add_value(&mut cell, &mut key, &mut value);
    assert_eq!(table(&cell).n_num_used(), 2);
    assert!(table(&cell).bucket(0).key.is_none());
    assert!(table(&cell).bucket(1).key.is_some());
    assert_eq!(<Vec<i64> as FromPhpZval>::try_from(cell), Ok(vec![10, 11]));
}

#[test]
fn runs_of_bytes_are_compared_byte_by_byte() {
    assert!(same_bytes(b"", b""));
    assert!(same_bytes(b"abc", b"abc"));
    assert!(!same_bytes(b"abc", b"abd"));
    assert!(!same_bytes(b"abc", b"ab"));
    assert!(!same_bytes(b"", b"a"));
}

#[test]
fn the_table_gets_the_value_as_it_stands_and_the_caller_keeps_it() {
    let mut cell = Zval::new_as_null();
    ZendArray::new_in_zval(&mut cell);
    let mut key = Zval::new(0i64);
    let mut value = Zval::new(vec!["in".to_string()]);
    ZendArray::add_value(&mut cell, &mut key, &mut value);
    assert_eq!(<Vec<String> as FromPhpZval>::try_from(value), Ok(vec!["in".to_string()]));
    assert_eq!(
        <Vec<Vec<String>> as FromPhpZval>::try_from(cell),
        Ok(vec![vec!["in".to_string()]])
    );
}

#[test]
fn the_entries_of_a_table_are_its_slots_without_the_vacated() {
    let header = ZendRefCounted { ref_count: 1, type_info: 7 };
    let buckets = vec![
        Bucket::numeric(0, Zval::new_as_undef()),
        Bucket::numeric(4, Zval::new(40i64)),
        Bucket::numeric(2, Zval::new_as_undef()),
        Bucket::numeric(9, Zval::new(90i64)),
    ];
    let held = ZendArray::from_parts(header, 0, buckets, 4, 2, 8, 0, 10, 0).unwrap();
    let keys: Vec<u64> = held.entries().iter().map(|bucket| bucket.hash).collect();
    assert_eq!(keys, vec![4, 9]);
    assert!(ZendArray::new().entries().is_empty());
}
