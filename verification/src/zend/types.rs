//! The cell the host exchanges with an extension, and the host objects a
//! cell can point to.

use super::gc::ZendRefCounted;
use super::tags::{InternalPhpTypes, TypeInfoUnion};
use vstd::prelude::*;

verus! {

/// What a host string is, as mathematics.
pub struct ZendStringView {
    pub gc: ZendRefCounted,
    pub hash: u32,
    pub len: nat,
    pub value: Seq<u8>,
}

/// What a table slot is, as mathematics.
pub struct BucketView {
    pub value: ZvalView,
    pub hash: u64,
    pub key: Option<ZendStringView>,
}

/// What a host table is, as mathematics.
pub struct ZendArrayView {
    pub gc: ZendRefCounted,
    pub n_table_mask: u32,
    pub array_data: Seq<BucketView>,
    pub n_num_used: nat,
    pub n_num_of_elements: nat,
    pub n_table_size: u32,
    pub n_internal_pointer: u32,
    pub n_next_free_element: u64,
    pub p_destructor: usize,
}

/// What the payload of a cell is, as mathematics.
pub enum ZendValueView {
    Long(i64),
    Double(u64),
    String(ZendStringView),
    Array(ZendArrayView),
    Zval(Box<ZvalView>),
    Void(usize),
}

/// What a cell is, as mathematics.
pub struct ZvalView {
    pub value: ZendValueView,
    pub type_info: u32,
    pub u2: u32,
}

/// A string that lives on the host's heap: a counted header, a cached hash,
/// a length, and a buffer of at least that many bytes. Nothing is promised
/// of the buffer beyond the length, not even a terminator.
#[derive(Debug)]
pub struct ZendString {
    pub(crate) gc: ZendRefCounted,
    pub(crate) hash: u32,
    pub(crate) len: usize,
    pub(crate) value: Vec<u8>,
}

/// One slot of a table's storage.
#[derive(Debug)]
pub struct Bucket {
    pub value: Zval,
    pub hash: u64,
    pub key: Option<Box<ZendString>>,
}

/// A table that lives on the host's heap. The storage holds the
/// `n_num_used` slots in use, in the order in which they were taken; some of
/// them may have been vacated, and those hold an undefined cell and are
/// not counted among the `n_num_of_elements` elements. Mask,
/// capacity, cursor, next free key and destructor are the host's business:
/// the bridge carries them and never acts on them.
#[derive(Debug)]
pub struct ZendArray {
    pub(crate) gc: ZendRefCounted,
    pub(crate) n_table_mask: u32,
    pub(crate) array_data: Vec<Bucket>,
    pub(crate) n_num_used: u32,
    pub(crate) n_num_of_elements: u32,
    pub(crate) n_table_size: u32,
    pub(crate) n_internal_pointer: u32,
    pub(crate) n_next_free_element: u64,
    pub(crate) p_destructor: usize,
}

/// The payload of a cell. Which member is there is decided by the cell's
/// type word, never by looking at the payload.
#[derive(Debug)]
pub enum ZendValue {
    /// A signed integer.
    Long(i64),
    /// The bits of a binary64 number.
    Double(u64),
    /// A host string.
    String(Box<ZendString>),
    /// A host table.
    Array(Box<ZendArray>),
    /// Another cell, which holds the real value.
    Zval(Box<Zval>),
    /// An address the bridge carries along and never follows.
    Void(usize),
}

/// The cell in which the host stores a variable: a payload, the type word
/// that says how to read it, and a word the host keeps for itself.
#[derive(Debug)]
pub struct Zval {
    pub(crate) value: ZendValue,
    pub(crate) type_info: TypeInfoUnion,
    pub(crate) u2: u32,
}

/// Whether a payload is the member that a type word promises. Kinds that
/// carry no payload, and kinds the bridge never reads, accept any member.
pub open spec fn payload_fits(type_info: u32, value: ZendValueView) -> bool {
    let word = TypeInfoUnion { type_info };
    &&& word.spec_is_from_type(InternalPhpTypes::LONG) ==> value is Long
    &&& word.spec_is_from_type(InternalPhpTypes::DOUBLE) ==> value is Double
    &&& word.spec_is_from_type(InternalPhpTypes::STRING) ==> value is String
    &&& word.spec_is_from_type(InternalPhpTypes::ARRAY) ==> value is Array
    &&& word.spec_is_from_type(InternalPhpTypes::REFERENCE) ==> value is Zval
    &&& word.spec_is_from_type(InternalPhpTypes::INDIRECT) ==> value is Zval
}

impl ZendStringView {
    /// The bytes of the string: the buffer cut at the stored length.
    pub open spec fn bytes(self) -> Seq<u8> {
        self.value.subrange(0, self.len as int)
    }
}

impl ZvalView {
    /// Whether the cell's type word names the given kind.
    pub open spec fn is_from_type(self, php_type: InternalPhpTypes) -> bool {
        (TypeInfoUnion { type_info: self.type_info }).spec_is_from_type(php_type)
    }

    /// Whether the cell stands for another cell.
    pub open spec fn is_indirect(self) -> bool {
        self.is_from_type(InternalPhpTypes::INDIRECT) || self.is_from_type(
            InternalPhpTypes::REFERENCE,
        )
    }

    /// The cell that holds the real value: the cell pointed to where this
    /// one stands for another, else this one. One step is taken, not more.
    pub open spec fn resolved(self) -> ZvalView {
        if self.is_indirect() {
            *self.value->Zval_0
        } else {
            self
        }
    }

    /// Whether payload and type word agree.
    pub open spec fn fits(self) -> bool {
        payload_fits(self.type_info, self.value)
    }
}

impl ZendString {
    #[verifier::type_invariant]
    pub open(crate) spec fn well_formed(&self) -> bool {
        self.len <= self.value.len()
    }

    pub open(crate) spec fn view(&self) -> ZendStringView {
        ZendStringView {
            gc: self.gc,
            hash: self.hash,
            len: self.len as nat,
            value: self.value@,
        }
    }
}

impl Bucket {
    pub open spec fn view(&self) -> BucketView
        decreases self,
    {
        BucketView {
            value: self.value.view(),
            hash: self.hash,
            key: match self.key {
                Some(k) => Some(k.view()),
                None => None,
            },
        }
    }
}

impl ZendArray {
    /// The table the host hands out on request: one reference, no slot in use.
    pub open spec fn empty() -> ZendArrayView {
        ZendArrayView {
            gc: ZendRefCounted { ref_count: 1, type_info: InternalPhpTypes::ARRAY.spec_code() },
            n_table_mask: 0,
            array_data: Seq::empty(),
            n_num_used: 0,
            n_num_of_elements: 0,
            n_table_size: 0,
            n_internal_pointer: 0,
            n_next_free_element: 0,
            p_destructor: 0,
        }
    }

    #[verifier::type_invariant]
    pub open(crate) spec fn well_formed(&self) -> bool {
        &&& self.n_num_used == self.array_data.len()
        &&& self.n_num_of_elements <= self.n_num_used
    }

    pub open(crate) spec fn view(&self) -> ZendArrayView
        decreases self,
    {
        ZendArrayView {
            gc: self.gc,
            n_table_mask: self.n_table_mask,
            array_data: Seq::new(
                self.array_data.len() as nat,
                |i: int|
                    if 0 <= i < self.array_data.len() {
                        self.array_data[i].view()
                    } else {
                        arbitrary()
                    },
            ),
            n_num_used: self.n_num_used as nat,
            n_num_of_elements: self.n_num_of_elements as nat,
            n_table_size: self.n_table_size,
            n_internal_pointer: self.n_internal_pointer,
            n_next_free_element: self.n_next_free_element,
            p_destructor: self.p_destructor,
        }
    }
}

impl ZendValue {
    pub open spec fn view(&self) -> ZendValueView
        decreases self,
    {
        match self {
            ZendValue::Long(n) => ZendValueView::Long(*n),
            ZendValue::Double(bits) => ZendValueView::Double(*bits),
            ZendValue::String(s) => ZendValueView::String(s.view()),
            ZendValue::Array(a) => ZendValueView::Array(a.view()),
            ZendValue::Zval(z) => ZendValueView::Zval(Box::new(z.view())),
            ZendValue::Void(address) => ZendValueView::Void(*address),
        }
    }
}

impl Zval {
    #[verifier::type_invariant]
    pub open(crate) spec fn well_formed(&self) -> bool {
        payload_fits(self.type_info.type_info, self.value.view())
    }

    pub open(crate) spec fn view(&self) -> ZvalView
        decreases self,
    {
        ZvalView { value: self.value.view(), type_info: self.type_info.type_info, u2: self.u2 }
    }
}

} // verus!
