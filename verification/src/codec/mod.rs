//! Extraction primitives shared by the decoder and the encoder: bit ranges of
//! a byte, fixed windows of a buffer, little-endian integers and
//! two's-complement reinterpretation.
use vstd::arithmetic::power2::pow2;
use vstd::prelude::*;
use vstd::std_specs::convert::FromSpecImpl;

pub mod decode;
pub mod encode;
pub mod fields;

verus! {

/// The message kinds that the high nibble of a message's first byte can name.
#[derive(Debug, Copy, Clone, PartialEq, Eq, Structural)]
pub enum MessageType {
    BasicId,
    Location,
    Auth,
    Selfid,
    System,
    OperatorId,
    MessagePack,
    /// Any nibble that the standard does not assign.
    Invalid,
}

impl MessageType {
    /// The variant that the wire value `value` stands for.
    pub open spec fn of_code(value: u8) -> Self {
        if value == 0 {
            MessageType::BasicId
        } else if value == 1 {
            MessageType::Location
        } else if value == 2 {
            MessageType::Auth
        } else if value == 3 {
            MessageType::Selfid
        } else if value == 4 {
            MessageType::System
        } else if value == 5 {
            MessageType::OperatorId
        } else if value == 15 {
            MessageType::MessagePack
        } else {
            MessageType::Invalid
        }
    }
}

impl From<u8> for MessageType {
    /// The variant that a wire value stands for. Every value stands for
    /// one: a value without a meaning of its own stands for `Invalid`.
    fn from(value: u8) -> (r: Self)
        ensures
            r == Self::of_code(value),
            value > 5 && value != 15 ==> r == MessageType::Invalid,
    {
        match value {
            0 => MessageType::BasicId,
            1 => MessageType::Location,
            2 => MessageType::Auth,
            3 => MessageType::Selfid,
            4 => MessageType::System,
            5 => MessageType::OperatorId,
            0xF => MessageType::MessagePack,
            _ => MessageType::Invalid,
        }
    }
}

impl FromSpecImpl<u8> for MessageType {
    open spec fn obeys_from_spec() -> bool {
        true
    }

    open spec fn from_spec(value: u8) -> Self {
        Self::of_code(value)
    }
}

/// Why a buffer did not decode.
#[derive(Debug, Copy, Clone, PartialEq, Eq)]
pub enum DecodeError {
    /// A field ends at byte `expected` of a buffer that holds only `actual` bytes.
    LengthMismatch { expected: usize, actual: usize },
    /// The message names a kind that this codec recognises but does not decode.
    Unsupported(MessageType),
}

/// The error of a buffer of `len` bytes in which a field would end at byte
/// `end`.
pub open spec fn too_short(end: int, len: int) -> DecodeError {
    DecodeError::LengthMismatch { expected: end as usize, actual: len as usize }
}

/// The byte whose ones are exactly the bit positions `lo..=hi`, bit 0 being
/// the least significant: `((1 << (hi - lo + 1)) - 1) << lo`.
pub open spec fn mask_of(lo: u8, hi: u8) -> u8
    recommends
        lo <= hi <= 7,
{
    ((((1u32 << ((hi - lo + 1) as u32)) - 1) as u32) << (lo as u32)) as u8
}

/// Bits `lo..=hi` of `num`, moved down to bit 0. Positions above bit 7 read as
/// zero.
pub open spec fn bits_of(num: u8, hi: u8, lo: u8) -> u8
    recommends
        lo <= hi,
{
    if lo > 7 {
        0
    } else if hi > 7 {
        (num & mask_of(lo, 7)) >> lo
    } else {
        (num & mask_of(lo, hi)) >> lo
    }
}

/// Computes the mask of the bit range `lo..=hi` of a byte.
pub fn bitmask(lo: u8, hi: u8) -> (r: u8)
    requires
        lo <= hi <= 7,
    ensures
        r == mask_of(lo, hi),
{
    let width: u32 = (hi - lo + 1) as u32;
    let low: u32 = lo as u32;
    assert(1 <= (1u32 << width) && ((((1u32 << width) - 1) as u32) << low) < 256)
        by (bit_vector)
        requires
            1 <= width <= 8,
            low + width <= 8,
    ;
    let ones: u32 = (1u32 << width) - 1;
    (ones << low) as u8
}

/// Extracts the bits `lo..=hi` of `num` by mask and shift.
pub fn get_bits(num: u8, hi: u8, lo: u8) -> (r: u8)
    requires
        lo <= hi,
    ensures
        r == bits_of(num, hi, lo),
{
    if lo > 7 {
        0
    } else if hi > 7 {
        (num & bitmask(lo, 7)) >> lo
    } else {
        (num & bitmask(lo, hi)) >> lo
    }
}

/// In arithmetic, the mask of the bits `lo..=hi` is `(2^(hi - lo + 1) - 1) *
/// 2^lo`, and the bits `lo..=hi` of a byte are the byte divided by `2^lo` and
/// taken modulo `2^(hi - lo + 1)`.
pub proof fn lemma_bits_of_div_mod(num: u8, hi: u8, lo: u8)
    requires
        lo <= hi <= 7,
    ensures
        mask_of(lo, hi) == (pow2((hi - lo + 1) as nat) - 1) * pow2(lo as nat),
        bits_of(num, hi, lo) == (num as int / pow2(lo as nat) as int) % (pow2(
            (hi - lo + 1) as nat,
        ) as int),
{
    let low: u32 = lo as u32;
    let width: u32 = (hi - lo + 1) as u32;
    assert(bits_of(num, hi, lo) == ((num as u32) / (1u32 << low)) % (1u32 << width) && mask_of(
        lo,
        hi,
    ) == ((1u32 << width) - 1) * (1u32 << low)) by (bit_vector)
        requires
            lo <= hi <= 7,
            low == lo as u32,
            width == (hi - lo + 1) as u32,
    ;
    vstd::arithmetic::power2::lemma2_to64();
    vstd::arithmetic::power2::lemma_pow2_strictly_increases(low as nat, 9);
    vstd::arithmetic::power2::lemma_pow2_strictly_increases(width as nat, 9);
    vstd::bits::lemma_u32_shl_is_mul(1, low);
    vstd::bits::lemma_u32_shl_is_mul(1, width);
}

/// What the bit ranges that the message layouts use amount to in arithmetic.
pub proof fn lemma_bit_ranges(b: u8)
    ensures
        bits_of(b, 7, 4) == b / 16,
        bits_of(b, 3, 0) == b % 16,
        bits_of(b, 4, 2) == (b / 4) % 8,
        bits_of(b, 1, 0) == b % 4,
        bits_of(b, 2, 2) == (b / 4) % 2,
        bits_of(b, 1, 1) == (b / 2) % 2,
        bits_of(b, 0, 0) == b % 2,
        bits_of(b, 6, 4) == (b / 16) % 8,
        bits_of(b, 2, 0) == b % 8,
{
    assert(bits_of(b, 7, 4) == b / 16) by (bit_vector);
    assert(bits_of(b, 3, 0) == b % 16) by (bit_vector);
    assert(bits_of(b, 4, 2) == (b / 4) % 8) by (bit_vector);
    assert(bits_of(b, 1, 0) == b % 4) by (bit_vector);
    assert(bits_of(b, 2, 2) == (b / 4) % 2) by (bit_vector);
    assert(bits_of(b, 1, 1) == (b / 2) % 2) by (bit_vector);
    assert(bits_of(b, 0, 0) == b % 2) by (bit_vector);
    assert(bits_of(b, 6, 4) == (b / 16) % 8) by (bit_vector);
    assert(bits_of(b, 2, 0) == b % 8) by (bit_vector);
}

/// Extracts the `N` bytes of `buf` that start at `off`, or reports the length
/// that `buf` would have needed.
pub fn get_bytes<const N: usize>(buf: &[u8], off: usize) -> (r: Result<[u8; N], DecodeError>)
    requires
        off + N <= usize::MAX,
    ensures
        off + N <= buf@.len() ==> r is Ok && r->Ok_0@ == buf@.subrange(off as int, off + N),
        off + N > buf@.len() ==> r == Err::<[u8; N], DecodeError>(
            too_short(off + N, buf@.len() as int),
        ),
{
    if buf.len() < off + N {
        return Err(DecodeError::LengthMismatch { expected: off + N, actual: buf.len() });
    }
    let mut out = [0u8; N];
    let mut i: usize = 0;
    while i < N
        invariant
            off + N <= buf.len(),
            i <= N,
            forall|j: int| 0 <= j < i ==> out@[j] == buf@[off + j],
        decreases N - i,
    {
        out[i] = buf[off + i];
        i += 1;
    }
    assert(out@ =~= buf@.subrange(off as int, off + N));
    Ok(out)
}

/// Extracts the byte of `buf` at `off`.
pub fn get_byte(buf: &[u8], off: usize) -> (r: Result<u8, DecodeError>)
    requires
        off + 1 <= usize::MAX,
    ensures
        off < buf@.len() ==> r == Ok::<u8, DecodeError>(buf@[off as int]),
        off >= buf@.len() ==> r == Err::<u8, DecodeError>(too_short(off + 1, buf@.len() as int)),
{
    if off < buf.len() {
        Ok(buf[off])
    } else {
        Err(DecodeError::LengthMismatch { expected: off + 1, actual: buf.len() })
    }
}

/// An identifier as a message carries it: the first 20 bytes of `s`, followed
/// by zeros where `s` is shorter.
pub open spec fn padded_id(s: Seq<u8>) -> Seq<u8> {
    Seq::new(
        20,
        |i: int|
            if i < s.len() {
                s[i]
            } else {
                0u8
            },
    )
}

/// Copies an identifier into its fixed 20-byte field, cutting what does not
/// fit and filling what is left with zeros.
pub fn copy_to_id(slice: &[u8]) -> (r: [u8; 20])
    ensures
        r@ == padded_id(slice@),
{
    let mut buffer = [0u8; 20];
    let max: usize = if slice.len() <= 20 {
        slice.len()
    } else {
        20
    };
    let mut i: usize = 0;
    while i < max
        invariant
            i <= max <= 20,
            max <= slice.len(),
            forall|j: int| 0 <= j < i ==> buffer@[j] == slice@[j],
            forall|j: int| i <= j < 20 ==> buffer@[j] == 0u8,
        decreases max - i,
    {
        buffer[i] = slice[i];
        i += 1;
    }
    assert(buffer@ =~= padded_id(slice@));
    buffer
}

/// The unsigned 16-bit integer whose little-endian bytes are `b0`, `b1`.
pub open spec fn le_u16(b0: u8, b1: u8) -> int {
    b0 + 256 * b1
}

/// The unsigned 32-bit integer whose little-endian bytes are `b0` to `b3`.
pub open spec fn le_u32(b0: u8, b1: u8, b2: u8, b3: u8) -> int {
    b0 + 256 * b1 + 65536 * b2 + 16777216 * b3
}

/// Byte `k` of the little-endian form of `x`, counted from the least
/// significant.
pub open spec fn le_byte(x: int, k: int) -> u8 {
    if k <= 0 {
        (x % 256) as u8
    } else if k == 1 {
        ((x / 256) % 256) as u8
    } else if k == 2 {
        ((x / 65536) % 256) as u8
    } else {
        ((x / 16777216) % 256) as u8
    }
}

/// Reads an unsigned 16-bit integer from its little-endian bytes.
pub fn u16_from_le(bytes: [u8; 2]) -> (r: u16)
    ensures
        r == le_u16(bytes@[0], bytes@[1]),
{
    bytes[0] as u16 + 256 * (bytes[1] as u16)
}

/// Reads an unsigned 32-bit integer from its little-endian bytes.
pub fn u32_from_le(bytes: [u8; 4]) -> (r: u32)
    ensures
        r == le_u32(bytes@[0], bytes@[1], bytes@[2], bytes@[3]),
{
    bytes[0] as u32 + 256 * (bytes[1] as u32) + 65536 * (bytes[2] as u32) + 16777216 * (
    bytes[3] as u32)
}

/// Writes an unsigned 16-bit integer as its little-endian bytes.
pub fn u16_to_le(x: u16) -> (r: [u8; 2])
    ensures
        r@[0] == le_byte(x as int, 0),
        r@[1] == le_byte(x as int, 1),
{
    [(x % 256) as u8, (x / 256) as u8]
}

/// Writes an unsigned 32-bit integer as its little-endian bytes.
pub fn u32_to_le(x: u32) -> (r: [u8; 4])
    ensures
        r@[0] == le_byte(x as int, 0),
        r@[1] == le_byte(x as int, 1),
        r@[2] == le_byte(x as int, 2),
        r@[3] == le_byte(x as int, 3),
{
    [
        (x % 256) as u8,
        ((x / 256) % 256) as u8,
        ((x / 65536) % 256) as u8,
        (x / 16777216) as u8,
    ]
}

/// The signed value of a 32-bit two's-complement bit pattern.
pub open spec fn signed32(raw: int) -> int {
    if raw < 0x8000_0000 {
        raw
    } else {
        raw - 0x1_0000_0000
    }
}

/// The 32-bit two's-complement bit pattern of a signed value.
pub open spec fn unsigned32(v: int) -> int {
    if v < 0 {
        v + 0x1_0000_0000
    } else {
        v
    }
}

/// The signed value of an 8-bit two's-complement bit pattern.
pub open spec fn signed8(raw: int) -> int {
    if raw < 0x80 {
        raw
    } else {
        raw - 0x100
    }
}

/// The 8-bit two's-complement bit pattern of a signed value.
pub open spec fn unsigned8(v: int) -> int {
    if v < 0 {
        v + 0x100
    } else {
        v
    }
}

/// Reads a 32-bit pattern as a two's-complement number.
pub fn i32_from_bits(raw: u32) -> (r: i32)
    ensures
        r == signed32(raw as int),
{
    let r = raw as i32;
    assert(r as int == if raw < 0x8000_0000u32 {
        raw as int
    } else {
        raw as int - 0x1_0000_0000
    }) by (bit_vector)
        requires
            r == raw as i32,
    ;
    r
}

/// The 32-bit pattern of a two's-complement number.
pub fn i32_to_bits(v: i32) -> (r: u32)
    ensures
        r == unsigned32(v as int),
{
    let r = v as u32;
    assert(r as int == if v < 0i32 {
        v as int + 0x1_0000_0000
    } else {
        v as int
    }) by (bit_vector)
        requires
            r == v as u32,
    ;
    r
}

/// Reads a byte as a two's-complement number.
pub fn i8_from_bits(raw: u8) -> (r: i8)
    ensures
        r == signed8(raw as int),
{
    let r = raw as i8;
    assert(r as int == if raw < 0x80u8 {
        raw as int
    } else {
        raw as int - 0x100
    }) by (bit_vector)
        requires
            r == raw as i8,
    ;
    r
}

/// The byte that holds a two's-complement number.
pub fn i8_to_bits(v: i8) -> (r: u8)
    ensures
        r == unsigned8(v as int),
{
    let r = v as u8;
    assert(r as int == if v < 0i8 {
        v as int + 0x100
    } else {
        v as int
    }) by (bit_vector)
        requires
            r == v as u8,
    ;
    r
}

/// `target` with the bytes from `off` on replaced by `bytes`.
pub open spec fn overwritten(target: Seq<u8>, off: int, bytes: Seq<u8>) -> Seq<u8> {
    Seq::new(
        target.len(),
        |i: int|
            if off <= i < off + bytes.len() {
                bytes[i - off]
            } else {
                target[i]
            },
    )
}

/// Copies `bytes` into `target`, from byte `off` of `target` on.
pub fn put_bytes<const N: usize, const M: usize>(target: &mut [u8; M], off: usize, bytes: &[u8; N])
    requires
        off + N <= M,
    ensures
        final(target)@ == overwritten(old(target)@, off as int, bytes@),
{
    let ghost before = target@;
    let mut i: usize = 0;
    while i < N
        invariant
            off + N <= M,
            i <= N,
            forall|j: int| 0 <= j < M ==> target@[j] == if off <= j < off + i {
                bytes@[j - off]
            } else {
                before[j]
            },
        decreases N - i,
    {
        target[off + i] = bytes[i];
        i += 1;
    }
    assert(target@ =~= overwritten(before, off as int, bytes@));
}

} // verus!
