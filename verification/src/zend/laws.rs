//! What holds of the conversions whatever the values are.

use super::cells::text_string;
use super::convert::{
    decoded_bool, decoded_double, decoded_long, decoded_text, double_cell, found, long_cell,
    Double, FromPhpZval, PhpTypeConversionError, ToPhpZval,
};
use super::methods::parsed_slots;
use super::sequence::{
    decoded_buckets, decoded_sequence, encoded_elements, live_buckets, sequence_table,
};
use super::tags::{lemma_code_is_its_own_tag, InternalPhpTypes, TypeInfoUnion};
use super::types::{BucketView, ZendValueView, ZvalView};
use super::zval::{string_cell, undefined_cell};
use vstd::prelude::*;
use vstd::utf8::{encode_utf8, encode_utf8_decode_utf8, encode_utf8_valid_utf8};

verus! {

/// A cell whose type word is the bare number of a kind is of that kind and
/// of no other; in particular it stands for no other cell unless the kind
/// says so.
pub proof fn lemma_bare_cell_kind(cell: ZvalView, kind: InternalPhpTypes)
    requires
        cell.type_info == kind.spec_code(),
    ensures
        cell.is_from_type(kind),
        forall|other: InternalPhpTypes| cell.is_from_type(other) ==> other == kind,
        kind != InternalPhpTypes::REFERENCE && kind != InternalPhpTypes::INDIRECT
            ==> cell.resolved() == cell,
{
    assert forall|other: InternalPhpTypes| cell.is_from_type(other) implies other == kind by {
        lemma_code_is_its_own_tag(kind, other);
    }
    lemma_code_is_its_own_tag(kind, kind);
}

/// Native types that can be laid into a cell and read back from one.
pub trait PhpValue: ToPhpZval + FromPhpZval {
    /// Reading back the cell that a value was laid into gives the value
    /// unchanged. The cell is never that of a vacated slot, so that a table
    /// that holds it does not pass it over.
    proof fn round_trip(&self)
        ensures
            Self::decoded(self.encoded()) == Ok::<Self::V, PhpTypeConversionError>(
                self.deep_view(),
            ),
            !self.encoded().is_from_type(InternalPhpTypes::UNDEF),
    ;
}

impl PhpValue for i64 {
    proof fn round_trip(&self) {
        lemma_bare_cell_kind(long_cell(*self), InternalPhpTypes::LONG);
    }
}

impl PhpValue for Double {
    proof fn round_trip(&self) {
        lemma_bare_cell_kind(double_cell(self.bits), InternalPhpTypes::DOUBLE);
    }
}

impl PhpValue for String {
    proof fn round_trip(&self) {
        lemma_text_round_trip(self@);
    }
}

impl<T: PhpValue> PhpValue for Vec<T> {
    proof fn round_trip(&self) {
        let cell = self.encoded();
        lemma_bare_cell_kind(cell, InternalPhpTypes::ARRAY);
        lemma_sequence_round_trip::<T>(self@, self.len() as int);
        assert(sequence_table(encoded_elements(self@)).array_data.take(self.len() as int)
            =~= sequence_table(encoded_elements(self@)).array_data);
        assert(self.deep_view().take(self.len() as int) =~= self.deep_view());
    }
}

/// Reading back the cell that a text was laid into gives the text.
pub proof fn lemma_text_round_trip(text: Seq<char>)
    ensures
        decoded_text(string_cell(text_string(text))) == Ok::<Seq<char>, PhpTypeConversionError>(
            text,
        ),
        !string_cell(text_string(text)).is_from_type(InternalPhpTypes::UNDEF),
{
    let cell = string_cell(text_string(text));
    lemma_bare_cell_kind(cell, InternalPhpTypes::STRING);
    encode_utf8_valid_utf8(text);
    encode_utf8_decode_utf8(text);
    assert(text_string(text).bytes() =~= encode_utf8(text));
}

/// Reading the front slots of the table that a sequence was laid into
/// gives the front of the sequence.
pub proof fn lemma_sequence_round_trip<T: PhpValue>(elements: Seq<T>, front: int)
    requires
        0 <= front <= elements.len(),
    ensures
        decoded_buckets::<T>(sequence_table(encoded_elements(elements)).array_data.take(front))
            == Ok::<Seq<T::V>, PhpTypeConversionError>(
            Seq::new(front as nat, |i: int| elements[i].deep_view()),
        ),
    decreases front,
{
    let buckets = sequence_table(encoded_elements(elements)).array_data;
    if front == 0 {
        assert(Seq::new(front as nat, |i: int| elements[i].deep_view()) =~= Seq::<T::V>::empty());
    } else {
        lemma_sequence_round_trip::<T>(elements, front - 1);
        elements[front - 1].round_trip();
        assert(buckets.take(front).drop_last() =~= buckets.take(front - 1));
        assert(buckets.take(front).last().value == elements[front - 1].encoded());
        assert(Seq::new(front as nat, |i: int| elements[i].deep_view()) =~= Seq::new(
            (front - 1) as nat,
            |i: int| elements[i].deep_view(),
        ).push(elements[front - 1].deep_view()));
    }
}

/// The table that a sequence is laid into holds one slot for each element,
/// in the order of the sequence, under the keys 0, 1, 2, ... and under no
/// string key.
pub proof fn lemma_sequence_keys<T: ToPhpZval>(elements: Vec<T>, position: int)
    requires
        0 <= position < elements.len(),
    ensures
        elements.encoded().is_from_type(InternalPhpTypes::ARRAY),
        elements.encoded().value->Array_0.array_data.len() == elements.len(),
        elements.encoded().value->Array_0.array_data[position] == (BucketView {
            value: elements[position].encoded(),
            hash: position as u64,
            key: None,
        }),
{
    lemma_bare_cell_kind(elements.encoded(), InternalPhpTypes::ARRAY);
}

/// A cell of one kind, read as a native type that needs another kind, is
/// refused with the type word that was found. The payload has no say in
/// it: the error is made of the type word alone.
pub proof fn lemma_tag_guard<T: FromPhpZval>(cell: ZvalView)
    ensures
        !cell.resolved().is_from_type(InternalPhpTypes::TRUE) && !cell.resolved().is_from_type(
            InternalPhpTypes::FALSE,
        ) ==> decoded_bool(cell) == Err::<bool, PhpTypeConversionError>(
            PhpTypeConversionError::NotBool(found(cell)),
        ),
        !cell.resolved().is_from_type(InternalPhpTypes::LONG) ==> decoded_long(cell) == Err::<
            i64,
            PhpTypeConversionError,
        >(PhpTypeConversionError::NotInteger(found(cell))),
        !cell.resolved().is_from_type(InternalPhpTypes::DOUBLE) ==> decoded_double(cell) == Err::<
            u64,
            PhpTypeConversionError,
        >(PhpTypeConversionError::NotFloat(found(cell))),
        !cell.resolved().is_from_type(InternalPhpTypes::STRING) ==> decoded_text(cell) == Err::<
            Seq<char>,
            PhpTypeConversionError,
        >(PhpTypeConversionError::NotString(found(cell))),
        !cell.resolved().is_from_type(InternalPhpTypes::ARRAY) ==> decoded_sequence::<T>(cell)
            == Err::<Seq<T::V>, PhpTypeConversionError>(
            PhpTypeConversionError::NotArray(found(cell)),
        ),
{
}

/// A cell that stands for another is read as the cell it points to.
pub proof fn lemma_reference_is_transparent<T: FromPhpZval>(cell: ZvalView)
    requires
        cell.is_indirect(),
        !cell.resolved().is_indirect(),
    ensures
        decoded_bool(cell) == decoded_bool(cell.resolved()),
        decoded_long(cell) == decoded_long(cell.resolved()),
        decoded_double(cell) == decoded_double(cell.resolved()),
        decoded_text(cell) == decoded_text(cell.resolved()),
        decoded_sequence::<T>(cell) == decoded_sequence::<T>(cell.resolved()),
{
}

/// A cell that points to an integer cell reads as that integer, whatever
/// flags the host has set in either type word.
pub proof fn lemma_reference_to_long(cell: ZvalView, target: ZvalView, number: i64)
    requires
        cell.is_from_type(InternalPhpTypes::REFERENCE),
        cell.value == ZendValueView::Zval(Box::new(target)),
        target.is_from_type(InternalPhpTypes::LONG),
        target.value == ZendValueView::Long(number),
    ensures
        decoded_long(cell) == Ok::<i64, PhpTypeConversionError>(number),
{
}

/// Reading a table passes over every vacated slot: what is read is what
/// would be read if the vacated slots were not there.
pub proof fn lemma_vacated_slots_are_skipped<T: FromPhpZval>(buckets: Seq<BucketView>)
    ensures
        decoded_buckets::<T>(buckets) == decoded_buckets::<T>(live_buckets(buckets)),
    decreases buckets.len(),
{
    reveal(Seq::filter);
    let live = |b: BucketView| !b.value.is_from_type(InternalPhpTypes::UNDEF);
    if buckets.len() > 0 {
        lemma_vacated_slots_are_skipped::<T>(buckets.drop_last());
        if live(buckets.last()) {
            let kept = buckets.drop_last().filter(live).push(buckets.last());
            assert(kept.drop_last() =~= buckets.drop_last().filter(live));
            assert(kept.last() == buckets.last());
        }
    }
}

/// Where no slot is vacated and every slot can be read, reading a table
/// gives one element for each slot, in storage order.
pub proof fn lemma_slots_are_read_in_order<T: FromPhpZval>(buckets: Seq<BucketView>)
    requires
        forall|i: int|
            0 <= i < buckets.len() ==> !(#[trigger] buckets[i]).value.is_from_type(
                InternalPhpTypes::UNDEF,
            ) && T::decoded(buckets[i].value) is Ok,
    ensures
        decoded_buckets::<T>(buckets) == Ok::<Seq<T::V>, PhpTypeConversionError>(
            Seq::new(buckets.len(), |i: int| T::decoded(buckets[i].value)->Ok_0),
        ),
    decreases buckets.len(),
{
    let read = Seq::new(buckets.len(), |i: int| T::decoded(buckets[i].value)->Ok_0);
    if buckets.len() == 0 {
        assert(read =~= Seq::<T::V>::empty());
    } else {
        let front = buckets.drop_last();
        assert forall|i: int| 0 <= i < front.len() implies !(#[trigger] front[i])
            .value.is_from_type(InternalPhpTypes::UNDEF) && T::decoded(front[i].value) is Ok by {
            assert(front[i] == buckets[i]);
        }
        lemma_slots_are_read_in_order::<T>(front);
        assert(read =~= Seq::new(front.len(), |i: int| T::decoded(front[i].value)->Ok_0).push(
            T::decoded(buckets.last().value)->Ok_0,
        ));
    }
}

/// The number of elements read from a table is the number of slots that are
/// not vacated, where every such slot can be read.
pub proof fn lemma_count_of_elements<T: FromPhpZval>(buckets: Seq<BucketView>)
    requires
        decoded_buckets::<T>(buckets) is Ok,
    ensures
        decoded_buckets::<T>(buckets)->Ok_0.len() == live_buckets(buckets).len(),
    decreases buckets.len(),
{
    reveal(Seq::filter);
    if buckets.len() > 0 {
        lemma_count_of_elements::<T>(buckets.drop_last());
    }
}

/// An undefined cell, which is what a slot holds that the caller supplied
/// no argument for, is refused by every reading, with its type word.
pub proof fn lemma_undefined_is_refused<T: FromPhpZval>()
    ensures
        decoded_bool(undefined_cell()) == Err::<bool, PhpTypeConversionError>(
            PhpTypeConversionError::NotBool(TypeInfoUnion { type_info: 0 }),
        ),
        decoded_long(undefined_cell()) == Err::<i64, PhpTypeConversionError>(
            PhpTypeConversionError::NotInteger(TypeInfoUnion { type_info: 0 }),
        ),
        decoded_double(undefined_cell()) == Err::<u64, PhpTypeConversionError>(
            PhpTypeConversionError::NotFloat(TypeInfoUnion { type_info: 0 }),
        ),
        decoded_text(undefined_cell()) == Err::<Seq<char>, PhpTypeConversionError>(
            PhpTypeConversionError::NotString(TypeInfoUnion { type_info: 0 }),
        ),
        decoded_sequence::<T>(undefined_cell()) == Err::<Seq<T::V>, PhpTypeConversionError>(
            PhpTypeConversionError::NotArray(TypeInfoUnion { type_info: 0 }),
        ),
{
    lemma_bare_cell_kind(undefined_cell(), InternalPhpTypes::UNDEF);
}

/// Where more slots are asked for than the caller supplied arguments, the
/// slots in front hold the arguments and every slot behind them is
/// undefined.
pub proof fn lemma_arity_shortfall(args: Seq<ZvalView>, arity: nat, position: int)
    requires
        0 <= position < arity,
    ensures
        parsed_slots(args, arity).len() == arity,
        position < args.len() ==> parsed_slots(args, arity)[position] == args[position],
        position >= args.len() ==> parsed_slots(args, arity)[position] == undefined_cell()
            && parsed_slots(args, arity)[position].is_from_type(InternalPhpTypes::UNDEF),
{
    lemma_bare_cell_kind(undefined_cell(), InternalPhpTypes::UNDEF);
}

} // verus!
