//! TIFF byte order detection and integer reading.
use vstd::prelude::*;

verus! {

/// Errors raised while detecting a byte order or reading integers with it.
#[derive(Debug, PartialEq, Eq, Clone, Copy)]
pub enum ByteOrderError {
    /// The two byte-order bytes were neither `II` nor `MM`.
    WrongEndian(u8, u8),
    /// Fewer than two bytes were available for the byte-order mark.
    NoEndian,
    /// Fewer bytes than the integer needs were available.
    NotEnoughBytes,
}

/// The byte order of a TIFF header: `MM` is big endian, `II` little endian.
#[derive(Debug, PartialEq, Eq, Clone, Copy)]
pub enum ByteOrder {
    BigEndian,
    LittleEndian,
}

/// ASCII `I`.
pub open spec fn byte_i() -> u8 {
    0x49
}

/// ASCII `M`.
pub open spec fn byte_m() -> u8 {
    0x4D
}

/// What the byte-order mark at the start of `bytes` denotes.
pub open spec fn spec_byte_order(bytes: Seq<u8>) -> Result<ByteOrder, ByteOrderError> {
    if bytes.len() < 2 {
        Err(ByteOrderError::NoEndian)
    } else if bytes[0] == byte_i() && bytes[1] == byte_i() {
        Ok(ByteOrder::LittleEndian)
    } else if bytes[0] == byte_m() && bytes[1] == byte_m() {
        Ok(ByteOrder::BigEndian)
    } else {
        Err(ByteOrderError::WrongEndian(bytes[0], bytes[1]))
    }
}

/// The unsigned integer that the first `n` bytes of `bytes` encode in big-endian order.
pub open spec fn be_value(bytes: Seq<u8>, n: nat) -> nat
    decreases n,
{
    if n == 0 {
        0
    } else {
        be_value(bytes, (n - 1) as nat) * 256 + bytes[n - 1] as nat
    }
}

/// The unsigned integer that the first `n` bytes of `bytes` encode in little-endian order.
pub open spec fn le_value(bytes: Seq<u8>, n: nat) -> nat
    decreases n,
{
    if n == 0 {
        0
    } else {
        le_value(bytes.drop_first(), (n - 1) as nat) * 256 + bytes[0] as nat
    }
}

/// The unsigned integer that the first `n` bytes of `bytes` encode in `order`.
pub open spec fn ordered_value(order: ByteOrder, bytes: Seq<u8>, n: nat) -> nat {
    match order {
        ByteOrder::BigEndian => be_value(bytes, n),
        ByteOrder::LittleEndian => le_value(bytes, n),
    }
}

impl ByteOrder {
    /// The name under which the byte order is shown: `Big` or `Little`.
    pub fn name(&self) -> (r: &'static str)
        ensures
            r@ == match self {
                ByteOrder::BigEndian => "Big"@,
                ByteOrder::LittleEndian => "Little"@,
            },
    {
        match self {
            ByteOrder::BigEndian => "Big",
            ByteOrder::LittleEndian => "Little",
        }
    }

    /// Detects the byte order from the first two bytes of `value`.
    pub fn try_from(value: &[u8]) -> (r: Result<ByteOrder, ByteOrderError>)
        ensures
            r == spec_byte_order(value@),
    {
        if value.len() < 2 {
            return Err(ByteOrderError::NoEndian);
        }
        let b0 = value[0];
        let b1 = value[1];
        if b0 == 0x49 && b1 == 0x49 {
            Ok(ByteOrder::LittleEndian)
        } else if b0 == 0x4D && b1 == 0x4D {
            Ok(ByteOrder::BigEndian)
        } else {
            Err(ByteOrderError::WrongEndian(b0, b1))
        }
    }

    /// Reads an unsigned 16-bit integer from the first two bytes of `bytes`.
    pub fn read_u16(&self, bytes: &[u8]) -> (r: Result<u16, ByteOrderError>)
        ensures
            bytes@.len() >= 2 ==> r == Ok::<u16, ByteOrderError>(
                ordered_value(*self, bytes@, 2) as u16,
            ),
            bytes@.len() >= 2 ==> ordered_value(*self, bytes@, 2) <= u16::MAX,
            bytes@.len() < 2 ==> r == Err::<u16, ByteOrderError>(ByteOrderError::NotEnoughBytes),
    {
        if bytes.len() < 2 {
            return Err(ByteOrderError::NotEnoughBytes);
        }
        let b0 = bytes[0] as u16;
        let b1 = bytes[1] as u16;
        proof {
            reveal_with_fuel(be_value, 3);
            reveal_with_fuel(le_value, 3);
            assert(bytes@.drop_first()[0] == bytes@[1]);
        }
        match self {
            ByteOrder::BigEndian => Ok(b0 * 256 + b1),
            ByteOrder::LittleEndian => Ok(b1 * 256 + b0),
        }
    }

    /// Reads an unsigned 32-bit integer from the first four bytes of `bytes`.
    pub fn read_u32(&self, bytes: &[u8]) -> (r: Result<u32, ByteOrderError>)
        ensures
            bytes@.len() >= 4 ==> r == Ok::<u32, ByteOrderError>(
                ordered_value(*self, bytes@, 4) as u32,
            ),
            bytes@.len() >= 4 ==> ordered_value(*self, bytes@, 4) <= u32::MAX,
            bytes@.len() < 4 ==> r == Err::<u32, ByteOrderError>(ByteOrderError::NotEnoughBytes),
    {
        if bytes.len() < 4 {
            return Err(ByteOrderError::NotEnoughBytes);
        }
        let b0 = bytes[0] as u32;
        let b1 = bytes[1] as u32;
        let b2 = bytes[2] as u32;
        let b3 = bytes[3] as u32;
        proof {
            let s = bytes@;
            reveal_with_fuel(be_value, 5);
            reveal_with_fuel(le_value, 5);
            assert(s.drop_first()[0] == s[1]);
            assert(s.drop_first().drop_first()[0] == s[2]);
            assert(s.drop_first().drop_first().drop_first()[0] == s[3]);
        }
        match self {
            ByteOrder::BigEndian => Ok(((b0 * 256 + b1) * 256 + b2) * 256 + b3),
            ByteOrder::LittleEndian => Ok(((b3 * 256 + b2) * 256 + b1) * 256 + b0),
        }
    }
}


/// `II` marks little-endian and `MM` big-endian data; any other first two
/// bytes are a wrong byte-order mark, and fewer than two bytes are none.
pub proof fn lemma_byte_order_marks(bytes: Seq<u8>)
    ensures
        spec_byte_order(bytes) == Ok::<ByteOrder, ByteOrderError>(ByteOrder::LittleEndian) <==> (
        bytes.len() >= 2 && bytes[0] == 0x49u8 && bytes[1] == 0x49u8),
        spec_byte_order(bytes) == Ok::<ByteOrder, ByteOrderError>(ByteOrder::BigEndian) <==> (
        bytes.len() >= 2 && bytes[0] == 0x4Du8 && bytes[1] == 0x4Du8),
        spec_byte_order(bytes) == Err::<ByteOrder, ByteOrderError>(ByteOrderError::NoEndian) <==> bytes.len() < 2,
        spec_byte_order(bytes) is Err && bytes.len() >= 2 ==> spec_byte_order(bytes) == Err::<
            ByteOrder,
            ByteOrderError,
        >(ByteOrderError::WrongEndian(bytes[0], bytes[1])),
{
}

/// The integers that two and four bytes encode: the first byte is the most
/// significant in big-endian order and the least significant in
/// little-endian order.
pub proof fn lemma_ordered_value_bytes(s: Seq<u8>)
    ensures
        s.len() >= 2 ==> ordered_value(ByteOrder::BigEndian, s, 2) == s[0] as nat * 256 + s[1] as nat,
        s.len() >= 2 ==> ordered_value(ByteOrder::LittleEndian, s, 2) == s[1] as nat * 256 + s[0] as nat,
        s.len() >= 4 ==> ordered_value(ByteOrder::BigEndian, s, 4) == s[0] as nat * 16777216 + s[1] as nat
            * 65536 + s[2] as nat * 256 + s[3] as nat,
        s.len() >= 4 ==> ordered_value(ByteOrder::LittleEndian, s, 4) == s[3] as nat * 16777216 + s[2] as nat
            * 65536 + s[1] as nat * 256 + s[0] as nat,
{
    reveal_with_fuel(be_value, 5);
    reveal_with_fuel(le_value, 5);
    if s.len() >= 2 {
        assert(s.drop_first()[0] == s[1]);
    }
    if s.len() >= 4 {
        assert(s.drop_first().drop_first()[0] == s[2]);
        assert(s.drop_first().drop_first().drop_first()[0] == s[3]);
    }
}

} // verus!
