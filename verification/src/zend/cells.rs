//! Building, reading and copying the host objects a cell can point to.

use super::gc::{header_after_release, release, release_of, Release, ZendRefCounted};
use super::tags::InternalPhpTypes;
use super::types::{Bucket, ZendArray, ZendString, ZendStringView, ZendValue, Zval};
use vstd::prelude::*;
use vstd::slice::{slice_subrange, slice_to_vec};
use vstd::utf8::encode_utf8;

verus! {

impl ZendString {
    /// Puts a host string together from its parts. The buffer has to hold at
    /// least `len` bytes; where it does not, there is no such string.
    pub fn from_parts(gc: ZendRefCounted, hash: u32, len: usize, value: Vec<u8>) -> (cell: Option<
        ZendString,
    >)
        ensures
            cell is Some <==> len <= value@.len(),
            cell matches Some(s) ==> {
                &&& s@.gc == gc
                &&& s@.hash == hash
                &&& s@.len == len
                &&& s@.value == value@
            },
    {
        if len <= value.len() {
            Some(ZendString { gc, hash, len, value })
        } else {
            None
        }
    }

    /// Makes the host string of a text and hands it out. The bytes of the
    /// text go into the buffer as they are, whatever they hold.
    pub fn new_as_pointer(rust_str: &str) -> (cell: Box<ZendString>)
        ensures
            cell@ == text_string(rust_str@),
    {
        let bytes = rust_str.as_bytes();
        assert(bytes@.subrange(0, bytes@.len() as int) =~= bytes@);
        create_zend_string(bytes.len(), bytes)
    }

    /// The counted header.
    pub fn gc(&self) -> (gc: ZendRefCounted)
        ensures
            gc == self@.gc,
    {
        self.gc
    }

    /// The hash the host has cached, zero where it has none yet.
    pub fn hash(&self) -> (hash: u32)
        ensures
            hash == self@.hash,
    {
        self.hash
    }

    /// The stored length in bytes.
    pub fn len(&self) -> (len: usize)
        ensures
            len == self@.len,
            len <= self@.value.len(),
    {
        proof {
            use_type_invariant(self);
        }
        self.len
    }

    /// The whole buffer, which may run on past the stored length.
    pub fn buffer(&self) -> (buffer: &[u8])
        ensures
            buffer@ == self@.value,
    {
        self.value.as_slice()
    }

    /// The bytes of the string: the buffer cut at the stored length. No
    /// terminator is looked for.
    pub fn as_bytes(&self) -> (bytes: &[u8])
        ensures
            bytes@ == self@.bytes(),
    {
        proof {
            use_type_invariant(self);
        }
        slice_subrange(self.value.as_slice(), 0, self.len)
    }
}

/// The string the host makes on request: one reference, no flags, no hash
/// yet, and a buffer that holds the first `size` of the given bytes, or all
/// of them where there are fewer.
pub open spec fn fresh_string(size: usize, bytes: Seq<u8>) -> ZendStringView {
    let len = if size <= bytes.len() {
        size as nat
    } else {
        bytes.len()
    };
    ZendStringView {
        gc: ZendRefCounted { ref_count: 1, type_info: InternalPhpTypes::STRING.spec_code() },
        hash: 0,
        len,
        value: bytes.subrange(0, len as int),
    }
}

/// The host string that is made for a text: one reference, no flags, no
/// hash yet, and a buffer that holds the text's bytes and nothing else.
pub open spec fn text_string(text: Seq<char>) -> ZendStringView {
    ZendStringView {
        gc: ZendRefCounted { ref_count: 1, type_info: InternalPhpTypes::STRING.spec_code() },
        hash: 0,
        len: encode_utf8(text).len(),
        value: encode_utf8(text),
    }
}

/// Makes a string of at most `size` bytes out of the given ones, as the
/// host does on request.
pub fn create_zend_string(size: usize, string: &[u8]) -> (cell: Box<ZendString>)
    ensures
        cell@ == fresh_string(size, string@),
{
    let len = if size <= string.len() {
        size
    } else {
        string.len()
    };
    let value = slice_to_vec(slice_subrange(string, 0, len));
    Box::new(
        ZendString {
            gc: ZendRefCounted { ref_count: 1, type_info: InternalPhpTypes::STRING.code() },
            hash: 0,
            len,
            value,
        },
    )
}

/// Gives up one reference to a host string and decides what becomes of its
/// memory: nothing while the string is immutable or still referenced, and
/// else one of the two ways of freeing, which must not be mixed up. Only the
/// count in the header changes.
pub fn free_zend_string(zend_string: &mut ZendString) -> (action: Release)
    ensures
        final(zend_string)@ == (ZendStringView {
            gc: header_after_release(old(zend_string)@.gc),
            ..old(zend_string)@
        }),
        action == release_of(old(zend_string)@.gc),
{
    proof {
        use_type_invariant(&*zend_string);
    }
    let mut gc = zend_string.gc;
    let action = release(&mut gc);
    zend_string.gc = gc;
    action
}

impl Clone for ZendString {
    /// A copy of the object as it stands, count and flags included.
    fn clone(&self) -> (copy: Self)
        ensures
            copy@ == self@,
    {
        proof {
            use_type_invariant(self);
        }
        let value = self.value.clone();
        assert(value@ =~= self.value@);
        ZendString { gc: self.gc, hash: self.hash, len: self.len, value }
    }
}

impl Bucket {
    /// A slot filled under a numeric key.
    pub fn numeric(index: u64, value: Zval) -> (bucket: Bucket)
        ensures
            bucket@.value == value@,
            bucket@.hash == index,
            bucket@.key is None,
    {
        Bucket { value, hash: index, key: None }
    }
}

impl Clone for Bucket {
    fn clone(&self) -> (copy: Self)
        ensures
            copy@ == self@,
        decreases self,
    {
        Bucket {
            value: self.value.clone(),
            hash: self.hash,
            key: (match &self.key {
                Some(k) => Some(Box::new((&**k).clone())),
                None => None,
            }),
        }
    }
}

impl ZendArray {
    /// Puts a host table together from its parts. The storage has to hold
    /// exactly the slots in use, and no more elements can be counted than
    /// slots are in use; otherwise there is no such table.
    pub fn from_parts(
        gc: ZendRefCounted,
        n_table_mask: u32,
        array_data: Vec<Bucket>,
        n_num_used: u32,
        n_num_of_elements: u32,
        n_table_size: u32,
        n_internal_pointer: u32,
        n_next_free_element: u64,
        p_destructor: usize,
    ) -> (cell: Option<ZendArray>)
        ensures
            cell is Some <==> n_num_used == array_data@.len() && n_num_of_elements <= n_num_used,
            cell matches Some(a) ==> {
                &&& a@.gc == gc
                &&& a@.n_table_mask == n_table_mask
                &&& a@.array_data == array_data@.map_values(|b: Bucket| b@)
                &&& a@.n_num_used == n_num_used
                &&& a@.n_num_of_elements == n_num_of_elements
                &&& a@.n_table_size == n_table_size
                &&& a@.n_internal_pointer == n_internal_pointer
                &&& a@.n_next_free_element == n_next_free_element
                &&& a@.p_destructor == p_destructor
            },
    {
        if n_num_used as usize == array_data.len() && n_num_of_elements <= n_num_used {
            let cell = ZendArray {
                gc,
                n_table_mask,
                array_data,
                n_num_used,
                n_num_of_elements,
                n_table_size,
                n_internal_pointer,
                n_next_free_element,
                p_destructor,
            };
            assert(cell@.array_data =~= array_data@.map_values(|b: Bucket| b@));
            Some(cell)
        } else {
            None
        }
    }

    /// A table with nothing in it, as the host hands one out on request:
    /// one reference, no slot in use.
    pub fn new() -> (cell: ZendArray)
        ensures
            cell@ == ZendArray::empty(),
    {
        let cell = ZendArray {
            gc: ZendRefCounted { ref_count: 1, type_info: InternalPhpTypes::ARRAY.code() },
            n_table_mask: 0,
            array_data: Vec::new(),
            n_num_used: 0,
            n_num_of_elements: 0,
            n_table_size: 0,
            n_internal_pointer: 0,
            n_next_free_element: 0,
            p_destructor: 0,
        };
        assert(cell@.array_data =~= Seq::empty());
        cell
    }

    /// The counted header.
    pub fn gc(&self) -> (gc: ZendRefCounted)
        ensures
            gc == self@.gc,
    {
        self.gc
    }

    /// The number of slots in use, vacated ones included.
    pub fn n_num_used(&self) -> (used: u32)
        ensures
            used == self@.n_num_used,
            used == self@.array_data.len(),
    {
        proof {
            use_type_invariant(self);
        }
        self.n_num_used
    }

    /// The number of elements the host counts, which leaves vacated slots out.
    pub fn n_num_of_elements(&self) -> (count: u32)
        ensures
            count == self@.n_num_of_elements,
            count <= self@.n_num_used,
    {
        proof {
            use_type_invariant(self);
        }
        self.n_num_of_elements
    }

    /// The table mask, which is the host's.
    pub fn n_table_mask(&self) -> (mask: u32)
        ensures
            mask == self@.n_table_mask,
    {
        self.n_table_mask
    }

    /// The capacity the host has set aside, which is the host's to know.
    pub fn n_table_size(&self) -> (size: u32)
        ensures
            size == self@.n_table_size,
    {
        self.n_table_size
    }

    /// The host's iteration cursor.
    pub fn n_internal_pointer(&self) -> (cursor: u32)
        ensures
            cursor == self@.n_internal_pointer,
    {
        self.n_internal_pointer
    }

    /// The numeric key the host would hand out next.
    pub fn n_next_free_element(&self) -> (key: u64)
        ensures
            key == self@.n_next_free_element,
    {
        self.n_next_free_element
    }

    /// The address of the routine the host runs on a value that leaves
    /// the table.
    pub fn p_destructor(&self) -> (address: usize)
        ensures
            address == self@.p_destructor,
    {
        self.p_destructor
    }

    /// The slot at a position of the storage.
    pub fn bucket(&self, index: u32) -> (bucket: &Bucket)
        requires
            index < self@.n_num_used,
        ensures
            bucket@ == self@.array_data[index as int],
    {
        proof {
            use_type_invariant(self);
        }
        &self.array_data[index as usize]
    }
}

impl Clone for ZendArray {
    /// A copy of the table as it stands, slot for slot.
    fn clone(&self) -> (copy: Self)
        ensures
            copy@ == self@,
        decreases self,
    {
        proof {
            use_type_invariant(self);
        }
        let mut array_data: Vec<Bucket> = Vec::new();
        let mut i: usize = 0;
        while i < self.array_data.len()
            invariant
                i <= self.array_data.len(),
                array_data.len() == i,
                forall|j: int| 0 <= j < i ==> array_data[j]@ == self.array_data[j]@,
            decreases self.array_data.len() - i,
        {
            let bucket = self.array_data[i].clone();
            array_data.push(bucket);
            i += 1;
        }
        let copy = ZendArray {
            gc: self.gc,
            n_table_mask: self.n_table_mask,
            array_data,
            n_num_used: self.n_num_used,
            n_num_of_elements: self.n_num_of_elements,
            n_table_size: self.n_table_size,
            n_internal_pointer: self.n_internal_pointer,
            n_next_free_element: self.n_next_free_element,
            p_destructor: self.p_destructor,
        };
        assert(copy@.array_data =~= self@.array_data);
        copy
    }
}

impl Clone for ZendValue {
    fn clone(&self) -> (copy: Self)
        ensures
            copy@ == self@,
        decreases self,
    {
        match self {
            ZendValue::Long(n) => ZendValue::Long(*n),
            ZendValue::Double(bits) => ZendValue::Double(*bits),
            ZendValue::String(s) => ZendValue::String(Box::new((&**s).clone())),
            ZendValue::Array(a) => ZendValue::Array(Box::new((&**a).clone())),
            ZendValue::Zval(z) => ZendValue::Zval(Box::new((&**z).clone())),
            ZendValue::Void(address) => ZendValue::Void(*address),
        }
    }
}

impl Clone for Zval {
    /// A copy of the cell: payload, type word and the host's word. The copy
    /// shows what the cell points to exactly as it stands, so no reference
    /// count changes on the way; it is meant to be read and dropped while
    /// the cell it was taken from is still there.
    fn clone(&self) -> (copy: Self)
        ensures
            copy@ == self@,
        decreases self,
    {
        proof {
            use_type_invariant(self);
        }
        Zval { value: self.value.clone(), type_info: self.type_info, u2: self.u2 }
    }
}

} // verus!
