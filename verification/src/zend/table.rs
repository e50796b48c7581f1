//! Filling a host table, one entry at a time.

use super::tags::{InternalPhpTypes, TypeInfoUnion};
use super::types::{
    Bucket, BucketView, ZendArray, ZendArrayView, ZendString, ZendStringView, ZendValue,
    ZendValueView, Zval, ZvalView,
};
use vstd::prelude::*;

verus! {

impl BucketView {
    /// Whether the slot holds the entry under a numeric key: it is not
    /// vacated, has no string key, and its hash is the key.
    pub open spec fn holds_index(self, index: u64) -> bool {
        &&& !self.value.is_from_type(InternalPhpTypes::UNDEF)
        &&& self.key is None
        &&& self.hash == index
    }
}

/// The position of the first slot that holds the entry under a numeric key.
pub open spec fn position_of_index(buckets: Seq<BucketView>, index: u64) -> Option<int>
    decreases buckets.len(),
{
    if buckets.len() == 0 {
        None
    } else {
        match position_of_index(buckets.drop_last(), index) {
            Some(position) => Some(position),
            None => if buckets.last().holds_index(index) {
                Some(buckets.len() - 1)
            } else {
                None
            },
        }
    }
}

impl BucketView {
    /// Whether the slot holds the entry under a string key: it is not
    /// vacated, and its key has the bytes of the name.
    pub open spec fn holds_name(self, name: Seq<u8>) -> bool {
        &&& !self.value.is_from_type(InternalPhpTypes::UNDEF)
        &&& self.key is Some
        &&& self.key->Some_0.bytes() == name
    }
}

/// The position of the first slot that holds the entry under a string key.
pub open spec fn position_of_name(buckets: Seq<BucketView>, name: Seq<u8>) -> Option<int>
    decreases buckets.len(),
{
    if buckets.len() == 0 {
        None
    } else {
        match position_of_name(buckets.drop_last(), name) {
            Some(position) => Some(position),
            None => if buckets.last().holds_name(name) {
                Some(buckets.len() - 1)
            } else {
                None
            },
        }
    }
}

impl ZendArrayView {
    /// The table after a value was stored under a numeric key. An entry
    /// that is there under the key gets the value; else the next slot is
    /// taken, and used slots and elements each count one more.
    pub open spec fn with_index(self, index: u64, value: ZvalView) -> ZendArrayView {
        match position_of_index(self.array_data, index) {
            Some(position) => ZendArrayView {
                array_data: self.array_data.update(
                    position,
                    BucketView { value, hash: index, key: None },
                ),
                ..self
            },
            None => ZendArrayView {
                array_data: self.array_data.push(BucketView { value, hash: index, key: None }),
                n_num_used: self.n_num_used + 1,
                n_num_of_elements: self.n_num_of_elements + 1,
                ..self
            },
        }
    }

    /// The table after a value was stored under a string key. An entry
    /// that is there under a key of the same bytes gets the value and keeps
    /// its own key; else the next slot is taken, with the key as it was
    /// given and the hash that the key has cached.
    pub open spec fn with_name(self, name: ZendStringView, value: ZvalView) -> ZendArrayView {
        match position_of_name(self.array_data, name.bytes()) {
            Some(position) => ZendArrayView {
                array_data: self.array_data.update(
                    position,
                    BucketView { value, ..self.array_data[position] },
                ),
                ..self
            },
            None => ZendArrayView {
                array_data: self.array_data.push(
                    BucketView { value, hash: name.hash as u64, key: Some(name) },
                ),
                n_num_used: self.n_num_used + 1,
                n_num_of_elements: self.n_num_of_elements + 1,
                ..self
            },
        }
    }
}

/// The cell that points to a given table.
pub open spec fn table_cell(table: ZendArrayView, u2: u32) -> ZvalView {
    ZvalView {
        value: ZendValueView::Array(table),
        type_info: InternalPhpTypes::ARRAY.spec_code(),
        u2,
    }
}

/// Whether a value can be stored in the table a cell points to, under the
/// key a second cell holds: the first cell points to a table and the key
/// is an integer or a string.
pub open spec fn takes_entry(array: ZvalView, key: ZvalView) -> bool {
    array.is_from_type(InternalPhpTypes::ARRAY) && (key.is_from_type(InternalPhpTypes::LONG)
        || key.is_from_type(InternalPhpTypes::STRING))
}

/// The cell of a table after a value was stored under a key. An integer
/// key is read as the host reads it, as an unsigned word; a string key is
/// taken by its bytes. Where nothing can be stored the cell is as before.
pub open spec fn cell_with_entry(array: ZvalView, key: ZvalView, value: ZvalView) -> ZvalView {
    if array.is_from_type(InternalPhpTypes::ARRAY) && key.is_from_type(InternalPhpTypes::LONG) {
        ZvalView {
            value: ZendValueView::Array(
                array.value->Array_0.with_index(key.value->Long_0 as u64, value),
            ),
            ..array
        }
    } else if array.is_from_type(InternalPhpTypes::ARRAY) && key.is_from_type(
        InternalPhpTypes::STRING,
    ) {
        ZvalView {
            value: ZendValueView::Array(array.value->Array_0.with_name(key.value->String_0, value)),
            ..array
        }
    } else {
        array
    }
}

/// The first entry under a string key stays the first when slots are added
/// behind.
pub proof fn lemma_name_position_stays(buckets: Seq<BucketView>, name: Seq<u8>, front: int)
    requires
        0 <= front <= buckets.len(),
        position_of_name(buckets.take(front), name) is Some,
    ensures
        position_of_name(buckets, name) == position_of_name(buckets.take(front), name),
    decreases buckets.len() - front,
{
    if front < buckets.len() {
        assert(buckets.take(front + 1).drop_last() =~= buckets.take(front));
        lemma_name_position_stays(buckets, name, front + 1);
    } else {
        assert(buckets.take(front) =~= buckets);
    }
}

/// The first entry under a key stays the first when slots are added behind.
pub proof fn lemma_position_stays(buckets: Seq<BucketView>, index: u64, front: int)
    requires
        0 <= front <= buckets.len(),
        position_of_index(buckets.take(front), index) is Some,
    ensures
        position_of_index(buckets, index) == position_of_index(buckets.take(front), index),
    decreases buckets.len() - front,
{
    if front < buckets.len() {
        assert(buckets.take(front + 1).drop_last() =~= buckets.take(front));
        lemma_position_stays(buckets, index, front + 1);
    } else {
        assert(buckets.take(front) =~= buckets);
    }
}

/// A position that is found lies in the table, the slot there holds the
/// entry, and no slot in front of it does; where none is found, no slot
/// holds the entry.
pub proof fn lemma_position_found(buckets: Seq<BucketView>, index: u64)
    ensures
        match position_of_index(buckets, index) {
            Some(position) => {
                &&& 0 <= position < buckets.len()
                &&& buckets[position].holds_index(index)
                &&& forall|i: int| 0 <= i < position ==> !buckets[i].holds_index(index)
            },
            None => forall|i: int| 0 <= i < buckets.len() ==> !buckets[i].holds_index(index),
        },
    decreases buckets.len(),
{
    if buckets.len() > 0 {
        let front = buckets.drop_last();
        lemma_position_found(front, index);
        if position_of_index(front, index) is None {
            assert forall|i: int| 0 <= i < buckets.len() - 1 implies !buckets[i].holds_index(
                index,
            ) by {
                assert(front[i] == buckets[i]);
            }
        } else {
            let position = position_of_index(front, index)->Some_0;
            assert(front[position] == buckets[position]);
            assert forall|i: int| 0 <= i < position implies !buckets[i].holds_index(index) by {
                assert(front[i] == buckets[i]);
            }
        }
    }
}

impl ZendArray {
    /// Whether every slot the host can count is in use.
    pub fn is_full(&self) -> (full: bool)
        ensures
            full == (self@.n_num_used == u32::MAX),
    {
        self.n_num_used == u32::MAX
    }

    /// Stores a value under a numeric key, as the host does: over the
    /// entry that is there under the key, or else in the next slot.
    #[verifier::loop_isolation(false)]
    pub fn index_update(self, index: u64, value: Zval) -> (table: ZendArray)
        requires
            self@.n_num_used < u32::MAX,
        ensures
            table@ == self@.with_index(index, value@),
    {
        proof {
            use_type_invariant(&self);
        }
        let ghost before = self@;
        let ZendArray {
            gc,
            n_table_mask,
            mut array_data,
            n_num_used,
            n_num_of_elements,
            n_table_size,
            n_internal_pointer,
            n_next_free_element,
            p_destructor,
        } = self;
        assert(before.array_data =~= array_data@.map_values(|b: Bucket| b@));
        let mut i: usize = 0;
        while i < array_data.len()
            invariant
                i <= array_data.len(),
                before.array_data == array_data@.map_values(|b: Bucket| b@),
                position_of_index(before.array_data.take(i as int), index) is None,
            decreases array_data.len() - i,
        {
            let hit = !array_data[i].value.is_undef() && array_data[i].key.is_none()
                && array_data[i].hash == index;
            proof {
                assert(before.array_data.take(i + 1).drop_last() =~= before.array_data.take(
                    i as int,
                ));
                assert(before.array_data.take(i + 1).last() == array_data[i as int]@);
            }
            if hit {
                proof {
                    assert(position_of_index(before.array_data.take(i + 1), index) == Some(
                        i as int,
                    ));
                    lemma_position_stays(before.array_data, index, i + 1);
                }
                array_data.set(i, Bucket::numeric(index, value));
                let table = ZendArray {
                    gc,
                    n_table_mask,
                    array_data,
                    n_num_used,
                    n_num_of_elements,
                    n_table_size,
                    n_internal_pointer,
                    n_next_free_element,
                    p_destructor,
                };
                assert(table@.array_data =~= before.with_index(index, value@).array_data);
                return table;
            }
            i += 1;
        }
        assert(before.array_data.take(i as int) =~= before.array_data);
        array_data.push(Bucket::numeric(index, value));
        let table = ZendArray {
            gc,
            n_table_mask,
            array_data,
            n_num_used: n_num_used + 1,
            n_num_of_elements: n_num_of_elements + 1,
            n_table_size,
            n_internal_pointer,
            n_next_free_element,
            p_destructor,
        };
        assert(table@.array_data =~= before.with_index(index, value@).array_data);
        table
    }

    /// Stores a value under a string key, as the host does: over the
    /// entry that is there under a key of the same bytes, or else in the
    /// next slot, with a copy of the key.
    #[verifier::loop_isolation(false)]
    pub fn name_update(self, name: &ZendString, value: Zval) -> (table: ZendArray)
        requires
            self@.n_num_used < u32::MAX,
        ensures
            table@ == self@.with_name(name@, value@),
    {
        proof {
            use_type_invariant(&self);
        }
        let ghost before = self@;
        let ZendArray {
            gc,
            n_table_mask,
            mut array_data,
            n_num_used,
            n_num_of_elements,
            n_table_size,
            n_internal_pointer,
            n_next_free_element,
            p_destructor,
        } = self;
        assert(before.array_data =~= array_data@.map_values(|b: Bucket| b@));
        let mut i: usize = 0;
        while i < array_data.len()
            invariant
                i <= array_data.len(),
                before.array_data == array_data@.map_values(|b: Bucket| b@),
                position_of_name(before.array_data.take(i as int), name@.bytes()) is None,
            decreases array_data.len() - i,
        {
            let hit = !array_data[i].value.is_undef() && match &array_data[i].key {
                Some(key) => same_bytes(key.as_bytes(), name.as_bytes()),
                None => false,
            };
            proof {
                assert(before.array_data.take(i + 1).drop_last() =~= before.array_data.take(
                    i as int,
                ));
                assert(before.array_data.take(i + 1).last() == array_data[i as int]@);
            }
            if hit {
                proof {
                    assert(position_of_name(before.array_data.take(i + 1), name@.bytes())
                        == Some(i as int));
                    lemma_name_position_stays(before.array_data, name@.bytes(), i + 1);
                }
                let Bucket { value: _, hash, key } = array_data.remove(i);
                array_data.insert(i, Bucket { value, hash, key });
                let table = ZendArray {
                    gc,
                    n_table_mask,
                    array_data,
                    n_num_used,
                    n_num_of_elements,
                    n_table_size,
                    n_internal_pointer,
                    n_next_free_element,
                    p_destructor,
                };
                assert(table@.array_data =~= before.with_name(name@, value@).array_data);
                return table;
            }
            i += 1;
        }
        assert(before.array_data.take(i as int) =~= before.array_data);
        array_data.push(
            Bucket { value, hash: name.hash() as u64, key: Some(Box::new(name.clone())) },
        );
        let table = ZendArray {
            gc,
            n_table_mask,
            array_data,
            n_num_used: n_num_used + 1,
            n_num_of_elements: n_num_of_elements + 1,
            n_table_size,
            n_internal_pointer,
            n_next_free_element,
            p_destructor,
        };
        assert(table@.array_data =~= before.with_name(name@, value@).array_data);
        table
    }

    /// Points the cell to a fresh and empty table. The host's word in the
    /// cell is kept.
    pub fn new_in_zval(zval: &mut Zval)
        ensures
            final(zval)@ == table_cell(ZendArray::empty(), old(zval)@.u2),
    {
        create_zend_array(zval);
    }

    /// Stores a value in the table a cell points to, under the key a second
    /// cell holds: an integer or a string. The table gets the value as it
    /// stands; key and value are left with the caller. Where the first cell
    /// points to no table, or the key is of another kind, nothing is stored.
    /// A string key is taken by its bytes, digits or not.
    pub fn add_value(array: &mut Zval, key: &mut Zval, value: &mut Zval)
        requires
            takes_entry(old(array)@, old(key)@) ==> old(array)@.value->Array_0.n_num_used
                < u32::MAX,
        ensures
            final(array)@ == cell_with_entry(old(array)@, old(key)@, old(value)@),
            final(key)@ == old(key)@,
            final(value)@ == old(value)@,
    {
        proof {
            use_type_invariant(&*array);
            use_type_invariant(&*key);
        }
        if !array.is_array() || !(key.is_integer() || key.is_string()) {
            return;
        }
        let entry = value.clone();
        let mut taken = Zval::new_as_null();
        core::mem::swap(array, &mut taken);
        let Zval { value: payload, type_info, u2 } = taken;
        match payload {
            ZendValue::Array(table) => {
                let table = match key.value() {
                    ZendValue::Long(number) => (*table).index_update(
                        #[verifier::truncate]
                        (*number as u64),
                        entry,
                    ),
                    ZendValue::String(name) => (*table).name_update(&**name, entry),
                    _ => vstd::pervasive::unreached(),
                };
                *array = Zval { value: ZendValue::Array(Box::new(table)), type_info, u2 };
            },
            _ => vstd::pervasive::unreached(),
        }
    }
}

/// Whether two runs of bytes are the same.
pub fn same_bytes(left: &[u8], right: &[u8]) -> (same: bool)
    ensures
        same == (left@ == right@),
{
    if left.len() != right.len() {
        return false;
    }
    let mut i: usize = 0;
    while i < left.len()
        invariant
            i <= left.len(),
            left.len() == right.len(),
            forall|j: int| 0 <= j < i ==> left@[j] == right@[j],
        decreases left.len() - i,
    {
        if left[i] != right[i] {
            return false;
        }
        i += 1;
    }
    assert(left@ =~= right@);
    true
}

/// Points the cell to an empty table as the host makes one on request.
/// The host's word in the cell is kept.
pub fn create_zend_array(zval: &mut Zval)
    ensures
        final(zval)@ == table_cell(ZendArray::empty(), old(zval)@.u2),
{
    let u2 = zval.u2();
    *zval = Zval {
        value: ZendValue::Array(Box::new(ZendArray::new())),
        type_info: TypeInfoUnion::of(InternalPhpTypes::ARRAY),
        u2,
    };
}

} // verus!
