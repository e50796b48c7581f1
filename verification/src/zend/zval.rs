//! Making cells, asking a cell for its kind, and following a cell that
//! stands for another.

use super::cells::free_zend_string;
use super::gc::{header_after_release, release_of, Release};
use super::tags::{InternalPhpTypes, TypeInfoUnion};
use super::types::{
    payload_fits, ZendString, ZendStringView, ZendValue, ZendValueView, Zval, ZvalView,
};
use vstd::prelude::*;

verus! {

/// The cell that holds the host's null: no payload to speak of.
pub open spec fn null_cell() -> ZvalView {
    ZvalView {
        value: ZendValueView::Void(0),
        type_info: InternalPhpTypes::NULL.spec_code(),
        u2: 0,
    }
}

/// The cell of a slot that holds no value.
pub open spec fn undefined_cell() -> ZvalView {
    ZvalView {
        value: ZendValueView::Void(0),
        type_info: InternalPhpTypes::UNDEF.spec_code(),
        u2: 0,
    }
}

/// The cell that points to a given host string.
pub open spec fn string_cell(string: ZendStringView) -> ZvalView {
    ZvalView {
        value: ZendValueView::String(string),
        type_info: InternalPhpTypes::STRING.spec_code(),
        u2: 0,
    }
}

/// A cell after one reference to the string it points to was given up.
/// A cell that points to no string is left as it is.
pub open spec fn cell_after_release(cell: ZvalView) -> ZvalView {
    if cell.is_from_type(InternalPhpTypes::STRING) {
        let string = cell.value->String_0;
        ZvalView {
            value: ZendValueView::String(
                ZendStringView { gc: header_after_release(string.gc), ..string },
            ),
            ..cell
        }
    } else {
        cell
    }
}

/// What has to become of the string a cell points to after one reference
/// to it was given up. A cell that points to no string asks for nothing.
pub open spec fn cell_release_of(cell: ZvalView) -> Release {
    if cell.is_from_type(InternalPhpTypes::STRING) {
        release_of(cell.value->String_0.gc)
    } else {
        Release::Retain
    }
}

/// Whether a payload is the member that a type word promises.
pub fn payload_matches(type_info: &TypeInfoUnion, value: &ZendValue) -> (fits: bool)
    ensures
        fits == payload_fits(type_info.type_info, value@),
{
    match type_info.kind() {
        Some(InternalPhpTypes::LONG) => matches!(value, ZendValue::Long(_)),
        Some(InternalPhpTypes::DOUBLE) => matches!(value, ZendValue::Double(_)),
        Some(InternalPhpTypes::STRING) => matches!(value, ZendValue::String(_)),
        Some(InternalPhpTypes::ARRAY) => matches!(value, ZendValue::Array(_)),
        Some(InternalPhpTypes::REFERENCE) => matches!(value, ZendValue::Zval(_)),
        Some(InternalPhpTypes::INDIRECT) => matches!(value, ZendValue::Zval(_)),
        _ => true,
    }
}

impl Zval {
    /// Create a zval as null.
    /// This null is the host's null and not a `None`.
    pub fn new_as_null() -> (cell: Zval)
        ensures
            cell@ == null_cell(),
    {
        let type_info = TypeInfoUnion::of(InternalPhpTypes::NULL);
        Zval { value: ZendValue::Void(0), type_info, u2: 0 }
    }

    /// Create a zval that holds no value, as the host leaves a slot it did
    /// not fill.
    pub fn new_as_undef() -> (cell: Zval)
        ensures
            cell@ == undefined_cell(),
    {
        let type_info = TypeInfoUnion::of(InternalPhpTypes::UNDEF);
        Zval { value: ZendValue::Void(0), type_info, u2: 0 }
    }

    /// Puts a cell together from a payload, a type word and the host's
    /// word. Where the type word promises another payload member than the
    /// one given, there is no such cell.
    pub fn from_parts(value: ZendValue, type_info: TypeInfoUnion, u2: u32) -> (cell: Option<Zval>)
        ensures
            cell is Some <==> payload_fits(type_info.type_info, value@),
            cell matches Some(z) ==> z@ == (ZvalView {
                value: value@,
                type_info: type_info.type_info,
                u2,
            }),
    {
        if payload_matches(&type_info, &value) {
            Some(Zval { value, type_info, u2 })
        } else {
            None
        }
    }

    /// The cell that points to a host string.
    pub fn from_string(string: Box<ZendString>) -> (cell: Zval)
        ensures
            cell@ == string_cell(string@),
    {
        let type_info = TypeInfoUnion::of(InternalPhpTypes::STRING);
        Zval { value: ZendValue::String(string), type_info, u2: 0 }
    }

    /// The type word.
    pub fn type_info(&self) -> (type_info: TypeInfoUnion)
        ensures
            type_info.type_info == self@.type_info,
    {
        self.type_info
    }

    /// The word the host keeps for itself.
    pub fn u2(&self) -> (u2: u32)
        ensures
            u2 == self@.u2,
    {
        self.u2
    }

    /// The payload. It is the member the type word promises.
    pub fn value(&self) -> (value: &ZendValue)
        ensures
            value@ == self@.value,
            self@.fits(),
    {
        proof {
            use_type_invariant(self);
        }
        &self.value
    }

    /// Returns if a zval is undefined.
    /// Undefined means that this zval holds no value.
    pub fn is_undef(&self) -> (is: bool)
        ensures
            is == self@.is_from_type(InternalPhpTypes::UNDEF),
    {
        self.type_info.is_from_type(InternalPhpTypes::UNDEF)
    }

    /// Returns if a zval is null.
    pub fn is_null(&self) -> (is: bool)
        ensures
            is == self@.is_from_type(InternalPhpTypes::NULL),
    {
        self.type_info.is_from_type(InternalPhpTypes::NULL)
    }

    /// Returns if a zval is an integer.
    pub fn is_integer(&self) -> (is: bool)
        ensures
            is == self@.is_from_type(InternalPhpTypes::LONG),
    {
        self.type_info.is_from_type(InternalPhpTypes::LONG)
    }

    /// Returns if a zval is a float.
    pub fn is_float(&self) -> (is: bool)
        ensures
            is == self@.is_from_type(InternalPhpTypes::DOUBLE),
    {
        self.type_info.is_from_type(InternalPhpTypes::DOUBLE)
    }

    /// Returns if a zval is a string.
    pub fn is_string(&self) -> (is: bool)
        ensures
            is == self@.is_from_type(InternalPhpTypes::STRING),
    {
        self.type_info.is_from_type(InternalPhpTypes::STRING)
    }

    /// Returns if a zval is an array.
    pub fn is_array(&self) -> (is: bool)
        ensures
            is == self@.is_from_type(InternalPhpTypes::ARRAY),
    {
        self.type_info.is_from_type(InternalPhpTypes::ARRAY)
    }

    /// Returns if a zval stands for another one, as the slot of a variable
    /// passed by reference does.
    pub fn is_indirect(&self) -> (is: bool)
        ensures
            is == self@.is_indirect(),
    {
        self.type_info.is_from_type(InternalPhpTypes::INDIRECT) || self.type_info.is_from_type(
            InternalPhpTypes::REFERENCE,
        )
    }

    /// The cell that holds the real value: the one pointed to where this
    /// cell stands for another, else the cell itself. One step is taken.
    pub fn handle_indirect(self) -> (target: Zval)
        ensures
            target@ == self@.resolved(),
    {
        proof {
            use_type_invariant(&self);
        }
        if self.is_indirect() {
            match self.value {
                ZendValue::Zval(pointee) => *pointee,
                _ => vstd::pervasive::unreached(),
            }
        } else {
            self
        }
    }

    /// The cell that holds the real value, lent for as long as this cell
    /// is: the cell pointed to where this cell stands for another, else
    /// the cell itself. Nothing is copied and no count changes.
    pub fn as_real(&self) -> (target: &Zval)
        ensures
            target@ == self@.resolved(),
    {
        proof {
            use_type_invariant(self);
        }
        if self.is_indirect() {
            match &self.value {
                ZendValue::Zval(pointee) => &**pointee,
                _ => vstd::pervasive::unreached(),
            }
        } else {
            self
        }
    }

    /// Gives up the reference that a cell holds to a host string, as has to
    /// happen when a cell the bridge owns goes out of use. The answer says
    /// what becomes of the string's memory. Cells of every other kind hold
    /// nothing that is counted here and are left alone.
    pub fn release(&mut self) -> (action: Release)
        ensures
            final(self)@ == cell_after_release(old(self)@),
            action == cell_release_of(old(self)@),
    {
        proof {
            use_type_invariant(&*self);
        }
        if self.is_string() {
            let mut taken = Zval::new_as_null();
            core::mem::swap(self, &mut taken);
            let Zval { value, type_info, u2 } = taken;
            match value {
                ZendValue::String(mut string) => {
                    let action = free_zend_string(&mut *string);
                    *self = Zval { value: ZendValue::String(string), type_info, u2 };
                    action
                },
                _ => vstd::pervasive::unreached(),
            }
        } else {
            Release::Retain
        }
    }
}

} // verus!
