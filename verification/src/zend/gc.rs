//! The header the host puts in front of every counted object, and the
//! protocol by which one reference to such an object is given up.

use vstd::prelude::*;

verus! {

/// Header of a host object that is shared by counting its references.
#[derive(Clone, Copy, Debug, PartialEq, Eq, Structural)]
pub struct ZendRefCounted {
    pub ref_count: u32,
    pub type_info: u32,
}

/// Bits of the header's type word in which the host keeps its flags:
/// bits four to nine.
pub const GC_FLAGS_MASK: u32 = 0x0000_03f0;

/// By how many places the flag bits are moved down before a position is
/// looked up in them: position one is bit four of the type word, position
/// six is bit nine.
pub const GC_FLAGS_SHIFT: u32 = 3;

/// Position of the flag that marks an object the host never frees: bit
/// nine of the type word.
pub const GC_IMMUTABLE: u32 = 6;

/// Position of the flag that marks an object taken from the platform
/// allocator rather than from the host's per-request pool: bit eight of the
/// type word, the flag next below the immutable one.
pub const GC_PERSISTENT: u32 = 5;

/// What giving up one reference asks of whoever owns the memory.
#[derive(Clone, Copy, Debug, PartialEq, Eq, Structural)]
pub enum Release {
    /// The object stays: it is immutable or still referenced.
    Retain,
    /// The last reference is gone; the platform allocator takes the memory back.
    FreePersistent,
    /// The last reference is gone; the host's pool takes the memory back.
    FreePooled,
}

/// Whether the flag at `position` is set in a header's type word: the
/// position is one of the six that the flag bits fill, and the bit three
/// places up in the word is set.
pub open spec fn gc_flag(type_info: u32, position: u32) -> bool {
    1 <= position <= 6 && type_info & (8u32 << position) != 0
}

/// The reference count after one reference is given up: a count of zero
/// stays zero.
pub open spec fn count_after_release(ref_count: u32) -> u32 {
    if ref_count == 0 {
        0
    } else {
        (ref_count - 1) as u32
    }
}

/// The header after one reference is given up. An immutable object is not
/// counted.
pub open spec fn header_after_release(gc: ZendRefCounted) -> ZendRefCounted {
    if gc_flag(gc.type_info, GC_IMMUTABLE) {
        gc
    } else {
        ZendRefCounted { ref_count: count_after_release(gc.ref_count), type_info: gc.type_info }
    }
}

/// What the owner of the memory has to do after one reference is given up.
pub open spec fn release_of(gc: ZendRefCounted) -> Release {
    if gc_flag(gc.type_info, GC_IMMUTABLE) || gc.ref_count > 1 {
        Release::Retain
    } else if gc_flag(gc.type_info, GC_PERSISTENT) {
        Release::FreePersistent
    } else {
        Release::FreePooled
    }
}

/// Reads one flag of a counted object's header: the flag bits are cut out
/// of the type word and moved down, and the bit at the position is looked
/// up in what is left. A position that the flag bits do not fill reads as
/// unset.
pub fn check_gc_flags(ref_counted: &ZendRefCounted, position: u32) -> (set: bool)
    requires
        position < 32,
    ensures
        set == (((ref_counted.type_info & 0x0000_03f0) >> 3) & (1u32 << position) != 0),
        set == gc_flag(ref_counted.type_info, position),
{
    let word: u32 = ref_counted.type_info;
    assert((((word & 0x0000_03f0u32) >> 3u32) & (1u32 << position) != 0) == (1 <= position
        && position <= 6 && word & (8u32 << position) != 0)) by (bit_vector)
        requires
            position < 32,
    ;
    ((word & GC_FLAGS_MASK) >> GC_FLAGS_SHIFT) & (1u32 << position) != 0
}

/// Gives up one reference and says whether it was the last one.
pub fn should_free(ref_counted: &mut ZendRefCounted) -> (last: bool)
    ensures
        last == (old(ref_counted).ref_count <= 1),
        final(ref_counted).ref_count == count_after_release(old(ref_counted).ref_count),
        final(ref_counted).type_info == old(ref_counted).type_info,
{
    if ref_counted.ref_count == 0 {
        return true;
    }
    ref_counted.ref_count -= 1;
    ref_counted.ref_count == 0
}

/// Gives up one reference to a counted object and decides what becomes of
/// its memory. The immutable flag is looked at first and ends the matter;
/// otherwise the count goes down, and only when it reaches zero does the
/// persistent flag choose between the two ways of freeing.
pub fn release(ref_counted: &mut ZendRefCounted) -> (action: Release)
    ensures
        *final(ref_counted) == header_after_release(*old(ref_counted)),
        action == release_of(*old(ref_counted)),
{
    if !check_gc_flags(ref_counted, GC_IMMUTABLE) {
        if should_free(ref_counted) {
            if check_gc_flags(ref_counted, GC_PERSISTENT) {
                return Release::FreePersistent;
            } else {
                return Release::FreePooled;
            }
        }
    }
    Release::Retain
}

/// The memory goes to the platform allocator exactly when the object is
/// not immutable, the reference given up was the last, and the persistent
/// flag is set; it goes to the pool exactly when the first two hold and the
/// flag is not set; otherwise the object stays. The immutable flag is bit
/// nine of the type word and the persistent flag is bit eight, so each of
/// the two ways of freeing is taken for some header, and never both.
pub proof fn lemma_release_path(gc: ZendRefCounted)
    ensures
        release_of(gc) == Release::FreePersistent <==> gc.type_info & 0x200 == 0 && gc.ref_count
            <= 1 && gc.type_info & 0x100 != 0,
        release_of(gc) == Release::FreePooled <==> gc.type_info & 0x200 == 0 && gc.ref_count <= 1
            && gc.type_info & 0x100 == 0,
        release_of(gc) == Release::Retain <==> gc.type_info & 0x200 != 0 || gc.ref_count > 1,
{
    let word: u32 = gc.type_info;
    assert((word & (8u32 << 6u32) != 0) == (word & 0x200 != 0)) by (bit_vector);
    assert((word & (8u32 << 5u32) != 0) == (word & 0x100 != 0)) by (bit_vector);
}

/// An object with at least two references loses one and stays; giving up
/// the next to last and then the last reference frees it exactly once, at
/// the second step, and by the way its persistent flag chooses.
pub proof fn lemma_release_counts_down(gc: ZendRefCounted)
    requires
        !gc_flag(gc.type_info, GC_IMMUTABLE),
        gc.ref_count >= 2,
    ensures
        release_of(gc) == Release::Retain,
        header_after_release(gc).ref_count == gc.ref_count - 1,
        header_after_release(gc).type_info == gc.type_info,
        gc.ref_count == 2 ==> header_after_release(header_after_release(gc)).ref_count == 0
            && release_of(header_after_release(gc)) == (if gc_flag(gc.type_info, GC_PERSISTENT) {
            Release::FreePersistent
        } else {
            Release::FreePooled
        }),
{
}

/// An immutable object is never freed and never changed, whatever its count.
pub proof fn lemma_immutable_is_kept(gc: ZendRefCounted)
    requires
        gc_flag(gc.type_info, GC_IMMUTABLE),
    ensures
        release_of(gc) == Release::Retain,
        header_after_release(gc) == gc,
{
}

} // verus!
