//! Between native values and cells: how a native value is laid into a cell,
//! and how a cell is read back as a native value or refused.

use super::cells::text_string;
use super::tags::{InternalPhpTypes, TypeInfoUnion};
use super::text::text_of;
use super::types::{ZendString, ZendValue, ZendValueView, Zval, ZvalView};
use super::zval::string_cell;
use vstd::prelude::*;
use vstd::utf8::{decode_utf8, valid_utf8};

verus! {

/// Errors that are returned if you try to convert a zval to a different
/// type than that of its value. Each carries the type word that was found.
#[derive(Clone, Copy, Debug, PartialEq, Eq, Structural)]
pub enum PhpTypeConversionError {
    NotBool(TypeInfoUnion),
    NotInteger(TypeInfoUnion),
    NotFloat(TypeInfoUnion),
    NotString(TypeInfoUnion),
    NotArray(TypeInfoUnion),
}

/// The type word reported for a host string whose bytes are no text.
pub const INVALID_TEXT: u32 = 666;

/// A binary64 number, held by its bits.
#[derive(Clone, Copy, Debug, PartialEq, Eq, Structural)]
pub struct Double {
    pub bits: u64,
}

impl View for Double {
    type V = u64;

    open spec fn view(&self) -> u64 {
        self.bits
    }
}

impl DeepView for Double {
    type V = u64;

    open spec fn deep_view(&self) -> u64 {
        self.bits
    }
}

/// Whether a conversion ended as it had to: with the native value whose
/// model was expected, or with the expected error.
pub open spec fn ends_as<T: DeepView>(
    got: Result<T, PhpTypeConversionError>,
    expected: Result<T::V, PhpTypeConversionError>,
) -> bool {
    match got {
        Ok(native) => expected == Ok::<T::V, PhpTypeConversionError>(native.deep_view()),
        Err(error) => expected == Err::<T::V, PhpTypeConversionError>(error),
    }
}

/// The cell that holds an integer.
pub open spec fn long_cell(number: i64) -> ZvalView {
    ZvalView {
        value: ZendValueView::Long(number),
        type_info: InternalPhpTypes::LONG.spec_code(),
        u2: 0,
    }
}

/// The cell that holds a binary64 number, given by its bits.
pub open spec fn double_cell(bits: u64) -> ZvalView {
    ZvalView {
        value: ZendValueView::Double(bits),
        type_info: InternalPhpTypes::DOUBLE.spec_code(),
        u2: 0,
    }
}

/// The type word of the cell that holds the real value, as an error
/// carries it.
pub open spec fn found(cell: ZvalView) -> TypeInfoUnion {
    TypeInfoUnion { type_info: cell.resolved().type_info }
}

/// What reading a cell as a truth value gives.
pub open spec fn decoded_bool(cell: ZvalView) -> Result<bool, PhpTypeConversionError> {
    if cell.resolved().is_from_type(InternalPhpTypes::TRUE) {
        Ok(true)
    } else if cell.resolved().is_from_type(InternalPhpTypes::FALSE) {
        Ok(false)
    } else {
        Err(PhpTypeConversionError::NotBool(found(cell)))
    }
}

/// What reading a cell as an integer gives.
pub open spec fn decoded_long(cell: ZvalView) -> Result<i64, PhpTypeConversionError> {
    if cell.resolved().is_from_type(InternalPhpTypes::LONG) {
        Ok(cell.resolved().value->Long_0)
    } else {
        Err(PhpTypeConversionError::NotInteger(found(cell)))
    }
}

/// What reading a cell as a binary64 number gives, in bits.
pub open spec fn decoded_double(cell: ZvalView) -> Result<u64, PhpTypeConversionError> {
    if cell.resolved().is_from_type(InternalPhpTypes::DOUBLE) {
        Ok(cell.resolved().value->Double_0)
    } else {
        Err(PhpTypeConversionError::NotFloat(found(cell)))
    }
}

/// What reading a cell as text gives. The bytes are those up to the stored
/// length; bytes that are no text are refused under a type word of their own.
pub open spec fn decoded_text(cell: ZvalView) -> Result<Seq<char>, PhpTypeConversionError> {
    if cell.resolved().is_from_type(InternalPhpTypes::STRING) {
        let bytes = cell.resolved().value->String_0.bytes();
        if valid_utf8(bytes) {
            Ok(decode_utf8(bytes))
        } else {
            Err(PhpTypeConversionError::NotString(TypeInfoUnion { type_info: INVALID_TEXT }))
        }
    } else {
        Err(PhpTypeConversionError::NotString(found(cell)))
    }
}

/// Native types that a cell can be read as.
pub trait FromPhpZval: Sized + DeepView {
    /// What reading a cell as this type gives: the model of the native
    /// value, or the error.
    spec fn decoded(cell: ZvalView) -> Result<Self::V, PhpTypeConversionError>;

    /// Reads a cell as this type and leaves the cell with its owner. A
    /// cell that stands for another is followed first; then the type word
    /// decides, and only if it names the right kind is the payload touched.
    fn try_from_ref(value: &Zval) -> (native: Result<Self, PhpTypeConversionError>)
        ensures
            ends_as(native, Self::decoded(value@)),
    ;

    /// Reads a cell as this type and drops the cell.
    fn try_from(value: Zval) -> (native: Result<Self, PhpTypeConversionError>)
        ensures
            ends_as(native, Self::decoded(value@)),
    {
        Self::try_from_ref(&value)
    }
}

/// Native types that can be laid into a cell.
pub trait ToPhpZval {
    /// Whether the host's counters can hold the value.
    spec fn encodable(&self) -> bool;

    /// The cell that the value is laid into.
    spec fn encoded(&self) -> ZvalView;

    /// Finds out whether the host's counters can hold the value.
    fn can_encode(&self) -> (can: bool)
        ensures
            can == self.encodable(),
    ;

    /// Lays the value into a fresh cell.
    fn to_zval(&self) -> (cell: Zval)
        requires
            self.encodable(),
        ensures
            cell@ == self.encoded(),
    ;
}

impl FromPhpZval for bool {
    open spec fn decoded(cell: ZvalView) -> Result<bool, PhpTypeConversionError> {
        decoded_bool(cell)
    }

    fn try_from_ref(zval: &Zval) -> (native: Result<bool, PhpTypeConversionError>) {
        let zval = zval.as_real();
        if zval.type_info().is_from_type(InternalPhpTypes::TRUE) {
            return Ok(true);
        }
        if zval.type_info().is_from_type(InternalPhpTypes::FALSE) {
            return Ok(false);
        }
        Err(PhpTypeConversionError::NotBool(zval.type_info()))
    }
}

impl FromPhpZval for i64 {
    open spec fn decoded(cell: ZvalView) -> Result<i64, PhpTypeConversionError> {
        decoded_long(cell)
    }

    fn try_from_ref(zval: &Zval) -> (native: Result<i64, PhpTypeConversionError>) {
        let zval = zval.as_real();
        if zval.type_info().is_from_type(InternalPhpTypes::LONG) {
            return match zval.value() {
                ZendValue::Long(number) => Ok(*number),
                _ => vstd::pervasive::unreached(),
            };
        }
        Err(PhpTypeConversionError::NotInteger(zval.type_info()))
    }
}

impl FromPhpZval for Double {
    open spec fn decoded(cell: ZvalView) -> Result<u64, PhpTypeConversionError> {
        decoded_double(cell)
    }

    fn try_from_ref(zval: &Zval) -> (native: Result<Double, PhpTypeConversionError>) {
        let zval = zval.as_real();
        if zval.type_info().is_from_type(InternalPhpTypes::DOUBLE) {
            return match zval.value() {
                ZendValue::Double(bits) => Ok(Double { bits: *bits }),
                _ => vstd::pervasive::unreached(),
            };
        }
        Err(PhpTypeConversionError::NotFloat(zval.type_info()))
    }
}

impl FromPhpZval for String {
    open spec fn decoded(cell: ZvalView) -> Result<Seq<char>, PhpTypeConversionError> {
        decoded_text(cell)
    }

    fn try_from_ref(zval: &Zval) -> (native: Result<String, PhpTypeConversionError>) {
        let zval = zval.as_real();
        if !zval.is_string() {
            return Err(PhpTypeConversionError::NotString(zval.type_info()));
        }
        match zval.value() {
            ZendValue::String(string) => match text_of(string.as_bytes()) {
                Some(text) => Ok(text.to_owned()),
                None => Err(
                    PhpTypeConversionError::NotString(TypeInfoUnion { type_info: INVALID_TEXT }),
                ),
            },
            _ => vstd::pervasive::unreached(),
        }
    }
}

impl ToPhpZval for i64 {
    open spec fn encodable(&self) -> bool {
        true
    }

    open spec fn encoded(&self) -> ZvalView {
        long_cell(*self)
    }

    fn can_encode(&self) -> (can: bool) {
        true
    }

    fn to_zval(&self) -> (cell: Zval) {
        Zval::from_long(*self)
    }
}

impl ToPhpZval for i32 {
    open spec fn encodable(&self) -> bool {
        true
    }

    open spec fn encoded(&self) -> ZvalView {
        long_cell(*self as i64)
    }

    fn can_encode(&self) -> (can: bool) {
        true
    }

    fn to_zval(&self) -> (cell: Zval) {
        Zval::from_long(*self as i64)
    }
}

impl ToPhpZval for u32 {
    open spec fn encodable(&self) -> bool {
        true
    }

    open spec fn encoded(&self) -> ZvalView {
        long_cell(*self as i64)
    }

    fn can_encode(&self) -> (can: bool) {
        true
    }

    fn to_zval(&self) -> (cell: Zval) {
        Zval::from_long(*self as i64)
    }
}

impl ToPhpZval for usize {
    open spec fn encodable(&self) -> bool {
        true
    }

    /// A size beyond the largest integer of the host wraps round.
    open spec fn encoded(&self) -> ZvalView {
        long_cell(*self as i64)
    }

    fn can_encode(&self) -> (can: bool) {
        true
    }

    fn to_zval(&self) -> (cell: Zval) {
        Zval::from_long(#[verifier::truncate] (*self as i64))
    }
}

impl ToPhpZval for Double {
    open spec fn encodable(&self) -> bool {
        true
    }

    open spec fn encoded(&self) -> ZvalView {
        double_cell(self.bits)
    }

    fn can_encode(&self) -> (can: bool) {
        true
    }

    fn to_zval(&self) -> (cell: Zval) {
        Zval::from_double(*self)
    }
}

impl ToPhpZval for &str {
    open spec fn encodable(&self) -> bool {
        true
    }

    open spec fn encoded(&self) -> ZvalView {
        string_cell(text_string(self@))
    }

    fn can_encode(&self) -> (can: bool) {
        true
    }

    fn to_zval(&self) -> (cell: Zval) {
        Zval::from_string(ZendString::new_as_pointer(*self))
    }
}

impl ToPhpZval for String {
    open spec fn encodable(&self) -> bool {
        true
    }

    open spec fn encoded(&self) -> ZvalView {
        string_cell(text_string(self@))
    }

    fn can_encode(&self) -> (can: bool) {
        true
    }

    fn to_zval(&self) -> (cell: Zval) {
        Zval::from_string(ZendString::new_as_pointer(self.as_str()))
    }
}

/// What can be laid into a cell can be laid into one through a reference.
impl<T: ToPhpZval> ToPhpZval for &T {
    open spec fn encodable(&self) -> bool {
        (**self).encodable()
    }

    open spec fn encoded(&self) -> ZvalView {
        (**self).encoded()
    }

    fn can_encode(&self) -> (can: bool) {
        (**self).can_encode()
    }

    fn to_zval(&self) -> (cell: Zval) {
        (**self).to_zval()
    }
}

impl Zval {
    /// Creates a new zval and stores the value in it.
    pub fn new<T: ToPhpZval>(value: T) -> (cell: Zval)
        requires
            value.encodable(),
        ensures
            cell@ == value.encoded(),
    {
        value.to_zval()
    }

    /// The cell that holds an integer.
    pub fn from_long(number: i64) -> (cell: Zval)
        ensures
            cell@ == long_cell(number),
    {
        Zval {
            value: ZendValue::Long(number),
            type_info: TypeInfoUnion::of(InternalPhpTypes::LONG),
            u2: 0,
        }
    }

    /// The cell that holds a binary64 number.
    pub fn from_double(number: Double) -> (cell: Zval)
        ensures
            cell@ == double_cell(number.bits),
    {
        Zval {
            value: ZendValue::Double(number.bits),
            type_info: TypeInfoUnion::of(InternalPhpTypes::DOUBLE),
            u2: 0,
        }
    }
}

} // verus!
