use crate::object::ObjectId;
use crate::text::{hex_char, hex_text};
use vstd::prelude::*;
use vstd::string::*;

verus! {

/// Why a text is not the hexadecimal form of an object id.
#[derive(Clone, Copy, Debug, PartialEq, Eq, Structural)]
pub enum ObjectIdError {
    /// The text is not 24 bytes long.
    InvalidLength,
    /// One of the twelve pairs of bytes is not a number in base 16.
    InvalidBytes,
}

/// The value of a byte that is a hexadecimal digit, in either case.
pub open spec fn hex_value(byte: u8) -> Option<u8> {
    if 0x30 <= byte <= 0x39 {
        Some((byte - 0x30) as u8)
    } else if 0x61 <= byte <= 0x66 {
        Some((byte - 0x61 + 10) as u8)
    } else if 0x41 <= byte <= 0x46 {
        Some((byte - 0x41 + 10) as u8)
    } else {
        None
    }
}

/// The number that two bytes denote in base 16: two digits, or a plus sign
/// and one digit.
pub open spec fn pair_value(high: u8, low: u8) -> Option<u8> {
    if high == 0x2b {
        hex_value(low)
    } else {
        match (hex_value(high), hex_value(low)) {
            (Some(h), Some(l)) => Some((16 * h + l) as u8),
            _ => None,
        }
    }
}

/// Whether a text of 24 bytes is made of twelve pairs that denote a number.
pub open spec fn pairs_valid(bytes: Seq<u8>) -> bool {
    forall|k: int| 0 <= k < 12 ==> pair_value(#[trigger] bytes[2 * k], bytes[2 * k + 1]) is Some
}

/// Whether a text is 24 hexadecimal digits.
pub open spec fn is_hex_24(bytes: Seq<u8>) -> bool {
    bytes.len() == 24 && forall|i: int| 0 <= i < 24 ==> hex_value(#[trigger] bytes[i]) is Some
}

/// The number that two bytes denote in base 16.
fn parse_pair(high: u8, low: u8) -> (value: Option<u8>)
    ensures
        value == pair_value(high, low),
{
    let low_value = match parse_digit(low) {
        Some(v) => v,
        None => {
            return None;
        },
    };
    if high == 0x2b {
        Some(low_value)
    } else {
        match parse_digit(high) {
            Some(high_value) => Some(16 * high_value + low_value),
            None => None,
        }
    }
}

/// The value of a hexadecimal digit.
fn parse_digit(byte: u8) -> (value: Option<u8>)
    ensures
        value == hex_value(byte),
        value is Some ==> value->0 < 16,
{
    if 0x30 <= byte && byte <= 0x39 {
        Some(byte - 0x30)
    } else if 0x61 <= byte && byte <= 0x66 {
        Some(byte - 0x61 + 10)
    } else if 0x41 <= byte && byte <= 0x46 {
        Some(byte - 0x41 + 10)
    } else {
        None
    }
}

/// A fresh identifier from `bson::oid::ObjectId::new`, as its twelve bytes.
/// It is made of the time, of a number drawn once for the process and of a
/// counter, so nothing is claimed of its value.
#[verifier::external_body]
fn fresh_object_id() -> (id: [u8; 12]) {
    mongodb::bson::oid::ObjectId::new().bytes()
}

/// Whether `bson::oid::ObjectId::parse_str` accepts a text. It decodes the
/// bytes of the text as hexadecimal, which fails on an odd length and on a
/// byte that is no digit in either case, and then asks for twelve bytes: so
/// it accepts exactly the texts of 24 hexadecimal digits.
#[verifier::external_body]
fn parses_as_object_id(value: &str) -> (valid: bool)
    ensures
        valid == is_hex_24(value.spec_bytes()),
{
    mongodb::bson::oid::ObjectId::parse_str(value).is_ok()
}

impl ObjectId {
    /// A fresh identifier.
    pub fn new() -> ObjectId {
        ObjectId { id: fresh_object_id() }
    }

    /// Reads an identifier from its text: 24 bytes, each pair a number in
    /// base 16 that gives one byte of the identifier, in order.
    pub fn from_str(value: &str) -> (result: Result<ObjectId, ObjectIdError>)
        ensures
            match result {
                Ok(id) => value.spec_bytes().len() == 24 && forall|k: int|
                    0 <= k < 12 ==> pair_value(
                        #[trigger] value.spec_bytes()[2 * k],
                        value.spec_bytes()[2 * k + 1],
                    ) == Some(id.id[k]),
                Err(ObjectIdError::InvalidLength) => value.spec_bytes().len() != 24,
                Err(ObjectIdError::InvalidBytes) => value.spec_bytes().len() == 24 && !pairs_valid(
                    value.spec_bytes(),
                ),
            },
    {
        let bytes = value.as_bytes();
        if bytes.len() != 24 {
            return Err(ObjectIdError::InvalidLength);
        }
        let mut id: [u8; 12] = [0u8; 12];
        let mut k: usize = 0;
        while k < 12
            invariant
                k <= 12,
                bytes@ == value.spec_bytes(),
                bytes@.len() == 24,
                forall|j: int|
                    0 <= j < k ==> pair_value(#[trigger] bytes@[2 * j], bytes@[2 * j + 1]) == Some(
                        id[j],
                    ),
            decreases 12 - k,
        {
            match parse_pair(bytes[2 * k], bytes[2 * k + 1]) {
                Some(byte) => {
                    id[k] = byte;
                },
                None => {
                    assert(pair_value(bytes@[2 * (k as int)], bytes@[2 * (k as int) + 1]) is None);
                    return Err(ObjectIdError::InvalidBytes);
                },
            }
            k += 1;
        }
        Ok(ObjectId { id })
    }

    /// Whether a text is the hexadecimal form of an identifier: 24
    /// hexadecimal digits.
    pub fn is_valid(value: &str) -> (valid: bool)
        ensures
            valid == is_hex_24(value.spec_bytes()),
    {
        parses_as_object_id(value)
    }
}

impl ObjectIdError {
    /// The text that the failure shows to the user.
    pub fn message(&self) -> (text: String)
        ensures
            text@ == match self {
                ObjectIdError::InvalidLength => "Value is not a valid ObjectId"@,
                ObjectIdError::InvalidBytes => "Value is not a valid ObjectId, invalid bytes found"@,
            },
    {
        match self {
            ObjectIdError::InvalidLength => "Value is not a valid ObjectId".to_owned(),
            ObjectIdError::InvalidBytes => "Value is not a valid ObjectId, invalid bytes found".to_owned(),
        }
    }
}

/// Every text that is valid as the form of an identifier can be read as one.
pub proof fn lemma_valid_text_is_read(bytes: Seq<u8>)
    requires
        is_hex_24(bytes),
    ensures
        pairs_valid(bytes),
{
    assert forall|k: int| 0 <= k < 12 implies pair_value(#[trigger] bytes[2 * k], bytes[2 * k + 1])
        is Some by {
        assert(hex_value(bytes[2 * k]) is Some);
        assert(hex_value(bytes[2 * k + 1]) is Some);
    }
}

/// Every hexadecimal digit that the library writes is an ASCII character
/// whose byte denotes the number that it was written for.
proof fn lemma_hex_char_value(n: int)
    requires
        0 <= n < 16,
    ensures
        '\0' <= hex_char(n) <= '\u{7f}',
        hex_value(hex_char(n) as u8) == Some(n as u8),
{
    reveal_strlit("0123456789abcdef");
    if n == 0 {
    } else if n == 1 {
    } else if n == 2 {
    } else if n == 3 {
    } else if n == 4 {
    } else if n == 5 {
    } else if n == 6 {
    } else if n == 7 {
    } else if n == 8 {
    } else if n == 9 {
    } else if n == 10 {
    } else if n == 11 {
    } else if n == 12 {
    } else if n == 13 {
    } else if n == 14 {
    } else {
    }
}

/// The hexadecimal text of some bytes holds, for each byte in order, the
/// digit of its high half and then the digit of its low half.
pub proof fn lemma_hex_text_digits(bytes: Seq<u8>)
    ensures
        hex_text(bytes).len() == 2 * bytes.len(),
        forall|k: int|
            0 <= k < bytes.len() ==> hex_text(bytes)[2 * k] == hex_char(#[trigger] bytes[k] as int / 16)
                && hex_text(bytes)[2 * k + 1] == hex_char(bytes[k] as int % 16),
    decreases bytes.len(),
{
    if bytes.len() > 0 {
        let front = bytes.drop_last();
        lemma_hex_text_digits(front);
        assert forall|k: int| 0 <= k < bytes.len() implies hex_text(bytes)[2 * k] == hex_char(
            #[trigger] bytes[k] as int / 16,
        ) && hex_text(bytes)[2 * k + 1] == hex_char(bytes[k] as int % 16) by {
            if k < front.len() {
                assert(front[k] == bytes[k]);
            }
        }
    }
}

/// The text that the library writes for an identifier is valid and is read
/// back as the same identifier: it is 24 hexadecimal digits, and its pairs
/// denote the twelve bytes in order.
pub proof fn lemma_written_text_is_read_back(id: [u8; 12])
    ensures
        is_hex_24(vstd::utf8::encode_utf8(hex_text(id@))),
        forall|k: int|
            0 <= k < 12 ==> pair_value(
                #[trigger] vstd::utf8::encode_utf8(hex_text(id@))[2 * k],
                vstd::utf8::encode_utf8(hex_text(id@))[2 * k + 1],
            ) == Some(id[k]),
{
    let text = hex_text(id@);
    let bytes = vstd::utf8::encode_utf8(text);
    lemma_hex_text_digits(id@);
    assert forall|i: int| 0 <= i < text.len() implies '\0' <= #[trigger] text[i] <= '\u{7f}' by {
        let k = i / 2;
        lemma_hex_char_value(id[k] as int / 16);
        lemma_hex_char_value(id[k] as int % 16);
        if i == 2 * k {
        } else {
            assert(i == 2 * k + 1);
        }
    }
    vstd::utf8::is_ascii_chars_encode_utf8(text);
    assert forall|k: int| 0 <= k < 12 implies pair_value(#[trigger] bytes[2 * k], bytes[2 * k + 1])
        == Some(id[k]) && hex_value(bytes[2 * k]) is Some && hex_value(bytes[2 * k + 1]) is Some by {
        lemma_hex_char_value(id[k] as int / 16);
        lemma_hex_char_value(id[k] as int % 16);
        assert(bytes[2 * k] == text[2 * k] as u8);
        assert(bytes[2 * k + 1] == text[2 * k + 1] as u8);
        assert(16 * (id[k] as int / 16) + id[k] as int % 16 == id[k]);
    }
    assert forall|i: int| 0 <= i < 24 implies hex_value(#[trigger] bytes[i]) is Some by {
        let k = i / 2;
        assert(0 <= k < 12);
        assert(hex_value(bytes[2 * k]) is Some && hex_value(bytes[2 * k + 1]) is Some);
        if i == 2 * k {
        } else {
            assert(i == 2 * k + 1);
        }
    }
}

} // verus!
