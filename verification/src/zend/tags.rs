//! The kinds of value a cell can hold and the word that records the kind.

use vstd::prelude::*;

verus! {

/// The kinds of value the host distinguishes, under the host's own names.
#[derive(Clone, Copy, Debug, PartialEq, Eq, Structural)]
pub enum InternalPhpTypes {
    UNDEF,
    NULL,
    FALSE,
    TRUE,
    LONG,
    DOUBLE,
    STRING,
    ARRAY,
    OBJECT,
    RESOURCE,
    REFERENCE,
    INDIRECT,
}

/// Mask that cuts the kind out of a type word. The bits above it belong to
/// the host and are carried along untouched.
pub const TYPE_MASK: u32 = 0x000F;

impl InternalPhpTypes {
    /// The number by which the host knows this kind.
    pub open spec fn spec_code(self) -> u32 {
        match self {
            InternalPhpTypes::UNDEF => 0,
            InternalPhpTypes::NULL => 1,
            InternalPhpTypes::FALSE => 2,
            InternalPhpTypes::TRUE => 3,
            InternalPhpTypes::LONG => 4,
            InternalPhpTypes::DOUBLE => 5,
            InternalPhpTypes::STRING => 6,
            InternalPhpTypes::ARRAY => 7,
            InternalPhpTypes::OBJECT => 8,
            InternalPhpTypes::RESOURCE => 9,
            InternalPhpTypes::REFERENCE => 10,
            InternalPhpTypes::INDIRECT => 13,
        }
    }

    /// The number by which the host knows this kind.
    #[verifier::when_used_as_spec(spec_code)]
    pub fn code(self) -> (code: u32)
        ensures
            code == self.spec_code(),
    {
        match self {
            InternalPhpTypes::UNDEF => 0,
            InternalPhpTypes::NULL => 1,
            InternalPhpTypes::FALSE => 2,
            InternalPhpTypes::TRUE => 3,
            InternalPhpTypes::LONG => 4,
            InternalPhpTypes::DOUBLE => 5,
            InternalPhpTypes::STRING => 6,
            InternalPhpTypes::ARRAY => 7,
            InternalPhpTypes::OBJECT => 8,
            InternalPhpTypes::RESOURCE => 9,
            InternalPhpTypes::REFERENCE => 10,
            InternalPhpTypes::INDIRECT => 13,
        }
    }

    /// The kind that a number names, if it names one.
    pub fn from_code(code: u32) -> (kind: Option<InternalPhpTypes>)
        ensures
            match kind {
                Some(k) => k.spec_code() == code,
                None => forall|k: InternalPhpTypes| k.spec_code() != code,
            },
    {
        match code {
            0 => Some(InternalPhpTypes::UNDEF),
            1 => Some(InternalPhpTypes::NULL),
            2 => Some(InternalPhpTypes::FALSE),
            3 => Some(InternalPhpTypes::TRUE),
            4 => Some(InternalPhpTypes::LONG),
            5 => Some(InternalPhpTypes::DOUBLE),
            6 => Some(InternalPhpTypes::STRING),
            7 => Some(InternalPhpTypes::ARRAY),
            8 => Some(InternalPhpTypes::OBJECT),
            9 => Some(InternalPhpTypes::RESOURCE),
            10 => Some(InternalPhpTypes::REFERENCE),
            13 => Some(InternalPhpTypes::INDIRECT),
            _ => None,
        }
    }
}

/// The type word of a cell. Its low four bits name the kind of the value;
/// the rest is private to the host.
#[derive(Clone, Copy, Debug, PartialEq, Eq, Structural)]
pub struct TypeInfoUnion {
    pub type_info: u32,
}

impl TypeInfoUnion {
    /// The low bits of the word, which alone decide the kind.
    pub open spec fn spec_tag(&self) -> u32 {
        self.type_info & TYPE_MASK
    }

    /// Whether the word names the given kind.
    pub open spec fn spec_is_from_type(&self, php_type: InternalPhpTypes) -> bool {
        self.spec_tag() == php_type.spec_code()
    }

    /// The bare type word of a kind: its number, with no host flag set.
    pub fn of(kind: InternalPhpTypes) -> (word: TypeInfoUnion)
        ensures
            word.type_info == kind.spec_code(),
            forall|k: InternalPhpTypes| word.spec_is_from_type(k) <==> k == kind,
    {
        let code: u32 = kind.code();
        assert(code < 16 ==> code & 0x000F == code) by (bit_vector);
        TypeInfoUnion { type_info: code }
    }

    /// The low bits of the word, which alone decide the kind.
    #[verifier::when_used_as_spec(spec_tag)]
    pub fn tag(&self) -> (tag: u32)
        ensures
            tag == self.spec_tag(),
            tag < 16,
    {
        let word: u32 = self.type_info;
        assert(word & 0x000F < 16) by (bit_vector);
        self.type_info & TYPE_MASK
    }

    /// Whether the word names the given kind. Host flags in the upper bits
    /// play no part in the answer.
    #[verifier::when_used_as_spec(spec_is_from_type)]
    pub fn is_from_type(&self, php_type: InternalPhpTypes) -> (same: bool)
        ensures
            same == self.spec_is_from_type(php_type),
    {
        self.type_info & TYPE_MASK == php_type.code()
    }

    /// The kind the word names, or nothing where the host has no kind under
    /// that number.
    pub fn kind(&self) -> (kind: Option<InternalPhpTypes>)
        ensures
            match kind {
                Some(k) => self.spec_is_from_type(k),
                None => forall|k: InternalPhpTypes| !self.spec_is_from_type(k),
            },
    {
        InternalPhpTypes::from_code(self.tag())
    }
}

/// A type word keeps its kind whatever the host writes above the mask.
pub proof fn lemma_tag_ignores_flags(code: u32, flags: u32)
    requires
        code < 16,
    ensures
        (TypeInfoUnion { type_info: code | (flags & !TYPE_MASK) }).spec_tag() == code,
{
    assert((code | (flags & !0x000Fu32)) & 0x000Fu32 == code) by (bit_vector)
        requires
            code < 16,
    ;
}

/// A word that is nothing but the number of a kind names that kind, and no
/// word names two kinds.
pub proof fn lemma_code_is_its_own_tag(kind: InternalPhpTypes, other: InternalPhpTypes)
    ensures
        (TypeInfoUnion { type_info: kind.spec_code() }).spec_is_from_type(kind),
        (TypeInfoUnion { type_info: kind.spec_code() }).spec_is_from_type(other) ==> other == kind,
{
    let code: u32 = kind.spec_code();
    assert(code < 16 ==> code & 0x000Fu32 == code) by (bit_vector);
}

} // verus!
