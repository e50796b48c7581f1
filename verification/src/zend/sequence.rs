//! Ordered sequences: laid into a host table under the keys 0, 1, 2, ...,
//! and read back from the slots of a table in storage order.

use super::convert::{ends_as, found, long_cell, FromPhpZval, PhpTypeConversionError, ToPhpZval};
use super::table::{lemma_position_found, position_of_index, table_cell};
use super::tags::{lemma_code_is_its_own_tag, InternalPhpTypes};
use super::types::{Bucket, BucketView, ZendArray, ZendArrayView, ZendValue, Zval, ZvalView};
use vstd::prelude::*;

verus! {

/// What reading the slots of a table as elements of one type gives. Slots
/// are taken in storage order; a vacated slot is passed over; the first
/// slot that cannot be read as the type ends the reading with its error.
pub open spec fn decoded_buckets<T: FromPhpZval>(buckets: Seq<BucketView>) -> Result<
    Seq<T::V>,
    PhpTypeConversionError,
>
    decreases buckets.len(),
{
    if buckets.len() == 0 {
        Ok(Seq::empty())
    } else {
        match decoded_buckets::<T>(buckets.drop_last()) {
            Err(error) => Err(error),
            Ok(front) => if buckets.last().value.is_from_type(InternalPhpTypes::UNDEF) {
                Ok(front)
            } else {
                match T::decoded(buckets.last().value) {
                    Ok(element) => Ok(front.push(element)),
                    Err(error) => Err(error),
                }
            },
        }
    }
}

/// What reading a cell as a sequence of elements of one type gives.
pub open spec fn decoded_sequence<T: FromPhpZval>(cell: ZvalView) -> Result<
    Seq<T::V>,
    PhpTypeConversionError,
> {
    if cell.resolved().is_from_type(InternalPhpTypes::ARRAY) {
        decoded_buckets::<T>(cell.resolved().value->Array_0.array_data)
    } else {
        Err(PhpTypeConversionError::NotArray(found(cell)))
    }
}

/// The table that holds the given cells under the keys 0, 1, 2, ... in
/// this order, and nothing else.
pub open spec fn sequence_table(cells: Seq<ZvalView>) -> ZendArrayView {
    ZendArrayView {
        array_data: Seq::new(
            cells.len(),
            |i: int| BucketView { value: cells[i], hash: i as u64, key: None },
        ),
        n_num_used: cells.len(),
        n_num_of_elements: cells.len(),
        ..ZendArray::empty()
    }
}

/// The cells that the elements of a sequence are laid into, in order.
pub open spec fn encoded_elements<T: ToPhpZval>(elements: Seq<T>) -> Seq<ZvalView> {
    Seq::new(elements.len(), |i: int| elements[i].encoded())
}

impl<T: FromPhpZval> FromPhpZval for Vec<T> {
    open spec fn decoded(cell: ZvalView) -> Result<Seq<T::V>, PhpTypeConversionError> {
        decoded_sequence::<T>(cell)
    }

    fn try_from_ref(zval: &Zval) -> (native: Result<Vec<T>, PhpTypeConversionError>) {
        let zval = zval.as_real();
        if !zval.is_array() {
            return Err(PhpTypeConversionError::NotArray(zval.type_info()));
        }
        match zval.value() {
            ZendValue::Array(table) => table.elements::<T>(),
            _ => vstd::pervasive::unreached(),
        }
    }
}

/// The slots that hold an entry, in storage order: all but the vacated.
pub open spec fn live_buckets(buckets: Seq<BucketView>) -> Seq<BucketView> {
    buckets.filter(|b: BucketView| !b.value.is_from_type(InternalPhpTypes::UNDEF))
}

impl ZendArray {
    /// The slots that hold an entry, in storage order. This is what there
    /// is to hand on when the table is written out.
    pub fn entries(&self) -> (live: Vec<&Bucket>)
        ensures
            live@.map_values(|b: &Bucket| b@) == live_buckets(self@.array_data),
    {
        let mut live: Vec<&Bucket> = Vec::new();
        let used = self.n_num_used();
        let ghost buckets = self@.array_data;
        let mut index: u32 = 0;
        proof {
            reveal(Seq::filter);
            assert(buckets.take(0) =~= Seq::<BucketView>::empty());
            assert(live@.map_values(|b: &Bucket| b@) =~= live_buckets(buckets.take(0)));
        }
        while index < used
            invariant
                index <= used,
                used == self@.n_num_used,
                buckets == self@.array_data,
                buckets.len() == used,
                live@.map_values(|b: &Bucket| b@) == live_buckets(buckets.take(index as int)),
            decreases used - index,
        {
            let ghost before = live@.map_values(|b: &Bucket| b@);
            let bucket = self.bucket(index);
            proof {
                reveal(Seq::filter);
                assert(buckets.take(index + 1).drop_last() =~= buckets.take(index as int));
                assert(buckets.take(index + 1).last() == buckets[index as int]);
            }
            if !bucket.value.is_undef() {
                live.push(bucket);
                assert(live@.map_values(|b: &Bucket| b@) =~= before.push(bucket@));
            }
            index += 1;
        }
        assert(buckets.take(index as int) =~= buckets);
        live
    }

    /// Reads the slots in use as elements of one type, in storage order.
    /// The walk covers every slot in use, not just as many as there are
    /// elements; a vacated slot is passed over, and the first slot that
    /// cannot be read ends the walk with its error and nothing else.
    pub fn elements<T: FromPhpZval>(&self) -> (native: Result<Vec<T>, PhpTypeConversionError>)
        ensures
            ends_as(native, decoded_buckets::<T>(self@.array_data)),
    {
        let mut returner: Vec<T> = Vec::new();
        let num_of_elements_used = self.n_num_used();
        let ghost buckets = self@.array_data;
        let mut index: u32 = 0;
        assert(returner.deep_view() =~= Seq::<T::V>::empty());
        assert(buckets.take(0) =~= Seq::<BucketView>::empty());
        while index < num_of_elements_used
            invariant
                index <= num_of_elements_used,
                num_of_elements_used == self@.n_num_used,
                buckets == self@.array_data,
                buckets.len() == num_of_elements_used,
                decoded_buckets::<T>(buckets.take(index as int)) == Ok::<
                    Seq<T::V>,
                    PhpTypeConversionError,
                >(returner.deep_view()),
            decreases num_of_elements_used - index,
        {
            let ghost before = returner.deep_view();
            proof {
                assert(buckets.take(index + 1).drop_last() =~= buckets.take(index as int));
                assert(buckets.take(index + 1).last() == buckets[index as int]);
            }
            let value = &self.bucket(index).value;
            if !value.is_undef() {
                match T::try_from_ref(value) {
                    Ok(element) => {
                        returner.push(element);
                        assert(returner.deep_view() =~= before.push(element.deep_view()));
                    },
                    Err(error) => {
                        proof {
                            assert(decoded_buckets::<T>(buckets.take(index + 1)) == Err::<
                                Seq<T::V>,
                                PhpTypeConversionError,
                            >(error));
                            lemma_failure_stays::<T>(buckets, index + 1);
                        }
                        return Err(error);
                    },
                }
            }
            index += 1;
        }
        assert(buckets.take(index as int) =~= buckets);
        Ok(returner)
    }
}

impl<T: ToPhpZval> ToPhpZval for Vec<T> {
    /// The host counts the slots of a table in 32 bits.
    open spec fn encodable(&self) -> bool {
        &&& self.len() <= u32::MAX
        &&& forall|i: int| 0 <= i < self.len() ==> (#[trigger] self[i]).encodable()
    }

    open spec fn encoded(&self) -> ZvalView {
        table_cell(sequence_table(encoded_elements(self@)), 0)
    }

    fn can_encode(&self) -> (can: bool) {
        if self.len() > 0xffff_ffff {
            return false;
        }
        let mut index: usize = 0;
        while index < self.len()
            invariant
                index <= self.len(),
                self.len() <= u32::MAX,
                forall|i: int| 0 <= i < index ==> (#[trigger] self[i]).encodable(),
            decreases self.len() - index,
        {
            if !self[index].can_encode() {
                return false;
            }
            index += 1;
        }
        true
    }

    fn to_zval(&self) -> (cell: Zval) {
        let mut returner = Zval::new_as_null();
        ZendArray::new_in_zval(&mut returner);
        let ghost cells = encoded_elements(self@);
        proof {
            lemma_code_is_its_own_tag(InternalPhpTypes::ARRAY, InternalPhpTypes::ARRAY);
            lemma_code_is_its_own_tag(InternalPhpTypes::LONG, InternalPhpTypes::LONG);
            assert(sequence_table(cells.take(0)).array_data =~= Seq::<BucketView>::empty());
        }
        let mut index: usize = 0;
        while index < self.len()
            invariant
                index <= self.len(),
                self.encodable(),
                cells == encoded_elements(self@),
                table_cell(ZendArray::empty(), 0).is_from_type(InternalPhpTypes::ARRAY),
                long_cell(0).is_from_type(InternalPhpTypes::LONG),
                returner@ == table_cell(sequence_table(cells.take(index as int)), 0),
            decreases self.len() - index,
        {
            let mut key = Zval::new::<usize>(index);
            let mut value = Zval::new(&self[index]);
            proof {
                let table = sequence_table(cells.take(index as int));
                lemma_position_found(table.array_data, index as u64);
                assert(position_of_index(table.array_data, index as u64) is None);
                assert(index as i64 as u64 == index as u64) by (bit_vector)
                    requires
                        index <= 0xffff_ffff,
                ;
            }
            ZendArray::add_value(&mut returner, &mut key, &mut value);
            proof {
                assert(cells.take(index + 1) =~= cells.take(index as int).push(
                    cells[index as int],
                ));
                assert(sequence_table(cells.take(index + 1)).array_data =~= sequence_table(
                    cells.take(index as int),
                ).array_data.push(
                    BucketView { value: cells[index as int], hash: index as u64, key: None },
                ));
            }
            index += 1;
        }
        assert(cells.take(index as int) =~= cells);
        returner
    }
}

/// A reading that has failed on the slots in front fails in the same way
/// on the whole table.
pub proof fn lemma_failure_stays<T: FromPhpZval>(buckets: Seq<BucketView>, front: int)
    requires
        0 <= front <= buckets.len(),
        decoded_buckets::<T>(buckets.take(front)) is Err,
    ensures
        decoded_buckets::<T>(buckets) == decoded_buckets::<T>(buckets.take(front)),
    decreases buckets.len() - front,
{
    if front < buckets.len() {
        assert(buckets.take(front + 1).drop_last() =~= buckets.take(front));
        lemma_failure_stays::<T>(buckets, front + 1);
    } else {
        assert(buckets.take(front) =~= buckets);
    }
}

} // verus!
