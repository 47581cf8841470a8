use vstd::prelude::*;

verus! {

/// First subtype byte of the user-defined range.
pub const BINARY_SUBTYPE_USER_DEFINED: u8 = 0x80;

/// Identifier under which a reserved subtype is shown to the host.
pub const BINARY_SUBTYPE_RESERVED: u8 = 9;

/// The subtype of a binary value as the document format knows it.
#[derive(Clone, Copy, Debug, PartialEq, Eq, Structural)]
pub enum BinarySubtypeKind {
    Generic,
    Function,
    BinaryOld,
    UuidOld,
    Uuid,
    Md5,
    Encrypted,
    Column,
    Reserved(u8),
    UserDefined(u8),
}

/// The subtype of a binary value as the host sees it: an identifier that
/// classifies it and the raw byte of a reserved or user-defined subtype.
#[derive(Clone, Copy, Debug, PartialEq, Eq, Structural)]
pub struct BinarySubtype {
    pub id: u8,
    pub value: u8,
}

/// The subtype that an identifier and a raw byte stand for: identifiers 0 to 7
/// are the named subtypes, identifiers from 0x80 on are user-defined, and the
/// identifiers in between are reserved.
pub open spec fn subtype_of_pair(id: u8, value: u8) -> BinarySubtypeKind {
    if id == 0 {
        BinarySubtypeKind::Generic
    } else if id == 1 {
        BinarySubtypeKind::Function
    } else if id == 2 {
        BinarySubtypeKind::BinaryOld
    } else if id == 3 {
        BinarySubtypeKind::UuidOld
    } else if id == 4 {
        BinarySubtypeKind::Uuid
    } else if id == 5 {
        BinarySubtypeKind::Md5
    } else if id == 6 {
        BinarySubtypeKind::Encrypted
    } else if id == 7 {
        BinarySubtypeKind::Column
    } else if id < 0x80 {
        BinarySubtypeKind::Reserved(value)
    } else {
        BinarySubtypeKind::UserDefined(value)
    }
}

/// The identifier and raw byte under which the host sees a subtype.
pub open spec fn pair_of_subtype(kind: BinarySubtypeKind) -> BinarySubtype {
    match kind {
        BinarySubtypeKind::Generic => BinarySubtype { id: 0, value: 0 },
        BinarySubtypeKind::Function => BinarySubtype { id: 1, value: 0 },
        BinarySubtypeKind::BinaryOld => BinarySubtype { id: 2, value: 0 },
        BinarySubtypeKind::UuidOld => BinarySubtype { id: 3, value: 0 },
        BinarySubtypeKind::Uuid => BinarySubtype { id: 4, value: 0 },
        BinarySubtypeKind::Md5 => BinarySubtype { id: 5, value: 0 },
        BinarySubtypeKind::Encrypted => BinarySubtype { id: 6, value: 0 },
        BinarySubtypeKind::Column => BinarySubtype { id: 7, value: 0 },
        BinarySubtypeKind::Reserved(v) => BinarySubtype { id: 9, value: v },
        BinarySubtypeKind::UserDefined(v) => BinarySubtype { id: 0x80, value: v },
    }
}

/// The subtype that a byte of the document format denotes.
pub open spec fn subtype_of_byte(byte: u8) -> BinarySubtypeKind {
    subtype_of_pair(byte, byte)
}

/// The byte that the document format writes for a subtype.
pub open spec fn byte_of_subtype(kind: BinarySubtypeKind) -> u8 {
    match kind {
        BinarySubtypeKind::Generic => 0,
        BinarySubtypeKind::Function => 1,
        BinarySubtypeKind::BinaryOld => 2,
        BinarySubtypeKind::UuidOld => 3,
        BinarySubtypeKind::Uuid => 4,
        BinarySubtypeKind::Md5 => 5,
        BinarySubtypeKind::Encrypted => 6,
        BinarySubtypeKind::Column => 7,
        BinarySubtypeKind::Reserved(v) => v,
        BinarySubtypeKind::UserDefined(v) => v,
    }
}

/// Maps the host's identifier and raw byte to the subtype they stand for.
pub fn from_subtype(id: u8, value: u8) -> (kind: BinarySubtypeKind)
    ensures
        kind == subtype_of_pair(id, value),
{
    match id {
        0 => BinarySubtypeKind::Generic,
        1 => BinarySubtypeKind::Function,
        2 => BinarySubtypeKind::BinaryOld,
        3 => BinarySubtypeKind::UuidOld,
        4 => BinarySubtypeKind::Uuid,
        5 => BinarySubtypeKind::Md5,
        6 => BinarySubtypeKind::Encrypted,
        7 => BinarySubtypeKind::Column,
        _ => if id < BINARY_SUBTYPE_USER_DEFINED {
            BinarySubtypeKind::Reserved(value)
        } else {
            BinarySubtypeKind::UserDefined(value)
        },
    }
}

impl BinarySubtypeKind {
    /// Reads a subtype from its byte in the document format.
    pub fn from_byte(byte: u8) -> (kind: BinarySubtypeKind)
        ensures
            kind == subtype_of_byte(byte),
    {
        from_subtype(byte, byte)
    }

    /// The byte that the document format writes for this subtype.
    pub fn to_byte(self) -> (byte: u8)
        ensures
            byte == byte_of_subtype(self),
    {
        match self {
            BinarySubtypeKind::Generic => 0,
            BinarySubtypeKind::Function => 1,
            BinarySubtypeKind::BinaryOld => 2,
            BinarySubtypeKind::UuidOld => 3,
            BinarySubtypeKind::Uuid => 4,
            BinarySubtypeKind::Md5 => 5,
            BinarySubtypeKind::Encrypted => 6,
            BinarySubtypeKind::Column => 7,
            BinarySubtypeKind::Reserved(v) => v,
            BinarySubtypeKind::UserDefined(v) => v,
        }
    }
}

impl BinarySubtype {
    /// The host's form of a subtype.
    pub fn of_kind(kind: BinarySubtypeKind) -> (subtype: BinarySubtype)
        ensures
            subtype == pair_of_subtype(kind),
    {
        match kind {
            BinarySubtypeKind::Generic => BinarySubtype { id: 0, value: 0 },
            BinarySubtypeKind::Function => BinarySubtype { id: 1, value: 0 },
            BinarySubtypeKind::BinaryOld => BinarySubtype { id: 2, value: 0 },
            BinarySubtypeKind::UuidOld => BinarySubtype { id: 3, value: 0 },
            BinarySubtypeKind::Uuid => BinarySubtype { id: 4, value: 0 },
            BinarySubtypeKind::Md5 => BinarySubtype { id: 5, value: 0 },
            BinarySubtypeKind::Encrypted => BinarySubtype { id: 6, value: 0 },
            BinarySubtypeKind::Column => BinarySubtype { id: 7, value: 0 },
            BinarySubtypeKind::Reserved(v) => BinarySubtype { id: BINARY_SUBTYPE_RESERVED, value: v },
            BinarySubtypeKind::UserDefined(v) => BinarySubtype {
                id: BINARY_SUBTYPE_USER_DEFINED,
                value: v,
            },
        }
    }

    /// The subtype that this identifier and raw byte stand for.
    pub fn kind(&self) -> (kind: BinarySubtypeKind)
        ensures
            kind == subtype_of_pair(self.id, self.value),
    {
        from_subtype(self.id, self.value)
    }
}

/// Showing a subtype to the host and reading it back gives the same subtype,
/// whatever raw byte a reserved or user-defined subtype carries.
pub proof fn lemma_subtype_round_trip(kind: BinarySubtypeKind)
    ensures
        subtype_of_pair(pair_of_subtype(kind).id, pair_of_subtype(kind).value) == kind,
{
}

/// Every byte of the document format survives the way to the host and back:
/// the subtype read from the byte is shown to the host and read back as the
/// same subtype, and that subtype is written as the same byte.
pub proof fn lemma_subtype_byte_round_trip(byte: u8)
    ensures
        subtype_of_pair(
            pair_of_subtype(subtype_of_byte(byte)).id,
            pair_of_subtype(subtype_of_byte(byte)).value,
        ) == subtype_of_byte(byte),
        byte_of_subtype(subtype_of_byte(byte)) == byte,
        byte < 8 ==> pair_of_subtype(subtype_of_byte(byte)) == (BinarySubtype { id: byte, value: 0 }),
        8 <= byte < 0x80 ==> subtype_of_byte(byte) == BinarySubtypeKind::Reserved(byte),
        0x80 <= byte ==> subtype_of_byte(byte) == BinarySubtypeKind::UserDefined(byte),
{
}

} // verus!
