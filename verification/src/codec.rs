//! The pointer encoding of unwind metadata: one descriptor byte says how
//! wide a stored value is, whether it is signed, and which base is added to
//! it to give an absolute address.

use vstd::arithmetic::power2::{lemma2_to64, lemma2_to64_rest, lemma_pow2_adds, pow2};
use crate::text::{hex, pad_left, push_hex_padded};
use vstd::prelude::*;
use vstd::string::*;

verus! {

/// A decoded value, tagged by its sign.
#[derive(Clone, Copy, Debug, PartialEq, Eq, Structural)]
pub enum Value {
    Signed(i64),
    Unsigned(u64),
}

/// Why a value could not be decoded or resolved.
#[derive(Clone, Copy, Debug, PartialEq, Eq, Structural)]
pub enum DecodeError {
    /// Fewer bytes are left than the width asks for.
    Truncated,
    /// The low nibble of the descriptor names no width.
    UnknownWidth,
    /// The high nibble of the descriptor names no base.
    UnknownBase,
    /// The descriptor names a LEB128 value, which is not decoded.
    Unsupported,
    /// Base and value together are not a 64-bit address.
    Overflow,
}

/// The descriptor byte that stands for "no value".
pub const NO_VALUE: u8 = 0xff;

impl Value {
    /// The number a value stands for.
    pub open spec fn number(self) -> int {
        match self {
            Value::Signed(n) => n as int,
            Value::Unsigned(n) => n as int,
        }
    }
}

/// The number that the first `n` bytes of `d` hold, least significant byte
/// first.
pub open spec fn le_unsigned(d: Seq<u8>, n: nat) -> nat
    decreases n,
{
    if n == 0 || d.len() == 0 {
        0
    } else {
        d[0] as nat + 256 * le_unsigned(d.skip(1), (n - 1) as nat)
    }
}

/// The signed reading of an unsigned number of `bits` bits (two's
/// complement).
pub open spec fn as_signed(u: nat, bits: nat) -> int {
    if u >= pow2((bits - 1) as nat) {
        u - pow2(bits)
    } else {
        u as int
    }
}

/// The low nibble of a descriptor: width and sign.
pub open spec fn format_of(enc: u8) -> int {
    enc as int % 16
}

/// The high nibble of a descriptor: the base.
pub open spec fn base_of(enc: u8) -> int {
    enc as int / 16
}

/// The number of bytes that a descriptor's value takes, where it has a fixed
/// width.
pub open spec fn width_of(enc: u8) -> Option<nat> {
    let f = format_of(enc);
    if f == 2 || f == 10 {
        Some(2)
    } else if f == 3 || f == 11 {
        Some(4)
    } else if f == 4 || f == 12 {
        Some(8)
    } else {
        None
    }
}

/// Whether a descriptor names a signed fixed-width value.
pub open spec fn is_signed(enc: u8) -> bool {
    format_of(enc) >= 8
}

/// What decoding the front of `d` under descriptor `enc` gives: the number of
/// bytes taken and the value, or the reason for failure.
pub open spec fn decoded(enc: u8, d: Seq<u8>) -> Result<(nat, Value), DecodeError> {
    let f = format_of(enc);
    if f == 1 || f == 9 {
        Err(DecodeError::Unsupported)
    } else {
        match width_of(enc) {
            None => Err(DecodeError::UnknownWidth),
            Some(w) => if d.len() < w {
                Err(DecodeError::Truncated)
            } else if is_signed(enc) {
                Ok((w, Value::Signed(as_signed(le_unsigned(d, w), 8 * w) as i64)))
            } else {
                Ok((w, Value::Unsigned(le_unsigned(d, w) as u64)))
            },
        }
    }
}

/// The base that a descriptor adds: nothing, the address of the value itself,
/// or the start of the table.
pub open spec fn base_address(enc: u8, pc: u64, start: u64) -> Option<u64> {
    let b = base_of(enc);
    if b == 0 {
        Some(0u64)
    } else if b == 1 {
        Some(pc)
    } else if b == 3 {
        Some(start)
    } else {
        None
    }
}

/// The absolute address of a value under descriptor `enc`.
pub open spec fn resolved(enc: u8, v: Value, pc: u64, start: u64) -> Result<u64, DecodeError> {
    match base_address(enc, pc, start) {
        None => Err(DecodeError::UnknownBase),
        Some(base) => {
            let sum = base as int + v.number();
            if 0 <= sum <= u64::MAX as int {
                Ok(sum as u64)
            } else {
                Err(DecodeError::Overflow)
            }
        },
    }
}

/// The `n` bytes that hold `x`, least significant byte first.
pub open spec fn le_bytes(x: nat, n: nat) -> Seq<u8>
    decreases n,
{
    if n == 0 {
        Seq::<u8>::empty()
    } else {
        seq![(x % 256) as u8] + le_bytes(x / 256, (n - 1) as nat)
    }
}

/// Whether descriptor `enc` can store `v`: the sign agrees and the number
/// fits the width.
pub open spec fn storable(enc: u8, v: Value) -> bool {
    match width_of(enc) {
        None => false,
        Some(w) => match v {
            Value::Signed(n) => is_signed(enc) && -pow2((8 * w - 1) as nat) <= n < pow2(
                (8 * w - 1) as nat,
            ),
            Value::Unsigned(n) => !is_signed(enc) && n < pow2(8 * w),
        },
    }
}

/// The bytes that store `v` under descriptor `enc`.
pub open spec fn stored(enc: u8, v: Value) -> Seq<u8> {
    let w = width_of(enc).unwrap();
    if v.number() < 0 {
        le_bytes((v.number() + pow2(8 * w)) as nat, w)
    } else {
        le_bytes(v.number() as nat, w)
    }
}

/// Reading back the bytes of a number gives the number, whatever follows
/// them.
pub proof fn lemma_le_round_trip(x: nat, n: nat, rest: Seq<u8>)
    requires
        x < pow2(8 * n),
    ensures
        le_bytes(x, n).len() == n,
        le_unsigned(le_bytes(x, n) + rest, n) == x,
    decreases n,
{
    if n == 0 {
        lemma2_to64();
    } else {
        let m = (n - 1) as nat;
        lemma2_to64();
        lemma_pow2_adds(8, 8 * m);
        assert(8 * n == 8 + 8 * m);
        assert(pow2(8 * n) == 256 * pow2(8 * m));
        assert(x / 256 < pow2(8 * m));
        lemma_le_round_trip(x / 256, m, rest);
        let all = le_bytes(x, n) + rest;
        assert(all.skip(1) =~= le_bytes(x / 256, m) + rest);
        assert(all[0] == (x % 256) as u8);
    }
}

/// Decoding the stored bytes of a value gives the value and its width, and
/// resolving it adds the base that the descriptor names.
pub proof fn lemma_decode_resolve_round_trip(enc: u8, v: Value, rest: Seq<u8>, pc: u64, start: u64)
    requires
        storable(enc, v),
        base_address(enc, pc, start) is Some,
    ensures
        decoded(enc, stored(enc, v) + rest) == Ok::<(nat, Value), DecodeError>(
            (width_of(enc).unwrap(), v),
        ),
        resolved(enc, v, pc, start) == (if 0 <= base_address(enc, pc, start).unwrap() + v.number()
            <= u64::MAX {
            Ok::<u64, DecodeError>((base_address(enc, pc, start).unwrap() + v.number()) as u64)
        } else {
            Err::<u64, DecodeError>(DecodeError::Overflow)
        }),
{
    let w = width_of(enc).unwrap();
    lemma2_to64();
    lemma2_to64_rest();
    assert(w == 2 || w == 4 || w == 8);
    let image: nat = if v.number() < 0 {
        (v.number() + pow2(8 * w)) as nat
    } else {
        v.number() as nat
    };
    assert(pow2(8 * w) == 2 * pow2((8 * w - 1) as nat)) by {
        lemma_pow2_adds(1, (8 * w - 1) as nat);
    }
    lemma_le_round_trip(image, w, rest);
}

/// `byteorder::LittleEndian::read_u16`: the first two bytes as an unsigned
/// number, least significant first. It panics on a shorter slice.
#[verifier::external_body]
fn read_u16(d: &[u8]) -> (r: u16)
    requires
        d@.len() >= 2,
    ensures
        r as nat == le_unsigned(d@, 2),
{
    <byteorder::LittleEndian as byteorder::ByteOrder>::read_u16(d)
}

/// `byteorder::LittleEndian::read_u32`: the first four bytes as an unsigned
/// number, least significant first. It panics on a shorter slice.
#[verifier::external_body]
fn read_u32(d: &[u8]) -> (r: u32)
    requires
        d@.len() >= 4,
    ensures
        r as nat == le_unsigned(d@, 4),
{
    <byteorder::LittleEndian as byteorder::ByteOrder>::read_u32(d)
}

/// `byteorder::LittleEndian::read_u64`: the first eight bytes as an unsigned
/// number, least significant first. It panics on a shorter slice.
#[verifier::external_body]
fn read_u64(d: &[u8]) -> (r: u64)
    requires
        d@.len() >= 8,
    ensures
        r as nat == le_unsigned(d@, 8),
{
    <byteorder::LittleEndian as byteorder::ByteOrder>::read_u64(d)
}

/// `byteorder::LittleEndian::read_i16`: the first two bytes as a two's
/// complement number, least significant first. It panics on a shorter slice.
#[verifier::external_body]
fn read_i16(d: &[u8]) -> (r: i16)
    requires
        d@.len() >= 2,
    ensures
        r as int == as_signed(le_unsigned(d@, 2), 16),
{
    <byteorder::LittleEndian as byteorder::ByteOrder>::read_i16(d)
}

/// `byteorder::LittleEndian::read_i32`: the first four bytes as a two's
/// complement number, least significant first. It panics on a shorter slice.
#[verifier::external_body]
fn read_i32(d: &[u8]) -> (r: i32)
    requires
        d@.len() >= 4,
    ensures
        r as int == as_signed(le_unsigned(d@, 4), 32),
{
    <byteorder::LittleEndian as byteorder::ByteOrder>::read_i32(d)
}

/// `byteorder::LittleEndian::read_i64`: the first eight bytes as a two's
/// complement number, least significant first. It panics on a shorter slice.
#[verifier::external_body]
fn read_i64(d: &[u8]) -> (r: i64)
    requires
        d@.len() >= 8,
    ensures
        r as int == as_signed(le_unsigned(d@, 8), 64),
{
    <byteorder::LittleEndian as byteorder::ByteOrder>::read_i64(d)
}

/// The low nibble of a byte is its remainder by sixteen, the rest its
/// quotient.
pub proof fn lemma_nibbles(enc: u8)
    ensures
        (enc & 0x0f) as int == format_of(enc),
        (enc & 0xf0) as int == 16 * base_of(enc),
{
    assert((enc & 0x0f) == enc % 16) by (bit_vector);
    assert((enc & 0xf0) == 16 * (enc / 16)) by (bit_vector);
}

/// Decodes one value from the front of `d` as descriptor `enc` says, and
/// tells how many bytes it took.
pub fn value(enc: u8, d: &[u8]) -> (res: Result<(usize, Value), DecodeError>)
    ensures
        match res {
            Ok((n, v)) => decoded(enc, d@) == Ok::<(nat, Value), DecodeError>((n as nat, v)),
            Err(e) => decoded(enc, d@) == Err::<(nat, Value), DecodeError>(e),
        },
{
    proof {
        lemma_nibbles(enc);
    }
    let format: u8 = enc & 0x0f;
    if format == 0x01 || format == 0x09 {
        Err(DecodeError::Unsupported)
    } else if format == 0x02 {
        if d.len() < 2 {
            Err(DecodeError::Truncated)
        } else {
            Ok((2, Value::Unsigned(read_u16(d) as u64)))
        }
    } else if format == 0x03 {
        if d.len() < 4 {
            Err(DecodeError::Truncated)
        } else {
            Ok((4, Value::Unsigned(read_u32(d) as u64)))
        }
    } else if format == 0x04 {
        if d.len() < 8 {
            Err(DecodeError::Truncated)
        } else {
            Ok((8, Value::Unsigned(read_u64(d))))
        }
    } else if format == 0x0a {
        if d.len() < 2 {
            Err(DecodeError::Truncated)
        } else {
            Ok((2, Value::Signed(read_i16(d) as i64)))
        }
    } else if format == 0x0b {
        if d.len() < 4 {
            Err(DecodeError::Truncated)
        } else {
            Ok((4, Value::Signed(read_i32(d) as i64)))
        }
    } else if format == 0x0c {
        if d.len() < 8 {
            Err(DecodeError::Truncated)
        } else {
            Ok((8, Value::Signed(read_i64(d))))
        }
    } else {
        Err(DecodeError::UnknownWidth)
    }
}

/// Resolves a decoded value to an absolute address: the base that `enc`
/// names (none, `pc`, or `ehhdr`, the start of the table) plus the value.
pub fn value_abs(enc: u8, v: Value, pc: u64, ehhdr: u64) -> (res: Result<u64, DecodeError>)
    ensures
        res == resolved(enc, v, pc, ehhdr),
{
    proof {
        lemma_nibbles(enc);
    }
    let kind: u8 = enc & 0xf0;
    let base: u64 = if kind == 0x00 {
        0
    } else if kind == 0x10 {
        pc
    } else if kind == 0x30 {
        ehhdr
    } else {
        return Err(DecodeError::UnknownBase);
    };
    match v {
        Value::Unsigned(n) => match base.checked_add(n) {
            Some(sum) => Ok(sum),
            None => Err(DecodeError::Overflow),
        },
        Value::Signed(n) => if n >= 0 {
            match base.checked_add(n as u64) {
                Some(sum) => Ok(sum),
                None => Err(DecodeError::Overflow),
            }
        } else {
            let back: u64 = if n == i64::MIN {
                0x8000_0000_0000_0000u64
            } else {
                (-n) as u64
            };
            if back <= base {
                Ok(base - back)
            } else {
                Err(DecodeError::Overflow)
            }
        },
    }
}

/// The name of the width and sign that a descriptor's low nibble selects.
pub open spec fn format_name(enc: u8) -> Seq<char> {
    let f = format_of(enc);
    if f == 1 {
        "unsigned LEB128"@
    } else if f == 2 {
        "u16"@
    } else if f == 3 {
        "u32"@
    } else if f == 4 {
        "u64"@
    } else if f == 9 {
        "signed LEB128"@
    } else if f == 10 {
        "i16"@
    } else if f == 11 {
        "i32"@
    } else if f == 12 {
        "i64"@
    } else {
        "???"@
    }
}

/// The name of the base that a descriptor's high nibble selects.
pub open spec fn base_name(enc: u8) -> Seq<char> {
    let b = base_of(enc);
    if b == 0 {
        "as is"@
    } else if b == 1 {
        "relative to program counter"@
    } else if b == 3 {
        "relative to .eh_frame_hdr start"@
    } else {
        "???"@
    }
}

/// The line that describes a descriptor: the byte in hexadecimal, then
/// either that it stands for no value, or its width and its base.
pub open spec fn encoding_text(enc: u8) -> Seq<char> {
    "0x"@ + pad_left(hex(enc as nat), 2, '0') + " "@ + (if enc == NO_VALUE {
        "(no value)\n"@
    } else {
        "("@ + format_name(enc) + ", "@ + base_name(enc) + ")\n"@
    })
}

/// Describes a descriptor byte in one line.
pub fn encoding(n: u8) -> (s: String)
    ensures
        s@ == encoding_text(n),
{
    proof {
        lemma_nibbles(n);
    }
    let mut s = String::new();
    s.append("0x");
    push_hex_padded(&mut s, n as u64, 2);
    s.append(" ");
    if n == 0xff {
        s.append("(no value)\n");
    } else {
        let format: u8 = n & 0x0f;
        let size = if format == 0x01 {
            "unsigned LEB128"
        } else if format == 0x02 {
            "u16"
        } else if format == 0x03 {
            "u32"
        } else if format == 0x04 {
            "u64"
        } else if format == 0x09 {
            "signed LEB128"
        } else if format == 0x0a {
            "i16"
        } else if format == 0x0b {
            "i32"
        } else if format == 0x0c {
            "i64"
        } else {
            "???"
        };
        let kind: u8 = n & 0xf0;
        let app = if kind == 0x00 {
            "as is"
        } else if kind == 0x10 {
            "relative to program counter"
        } else if kind == 0x30 {
            "relative to .eh_frame_hdr start"
        } else {
            "???"
        };
        s.append("(");
        s.append(size);
        s.append(", ");
        s.append(app);
        s.append(")\n");
    }
    assert(s@ =~= encoding_text(n));
    s
}

impl DecodeError {
    /// What went wrong, in words.
    pub open spec fn text(self) -> Seq<char> {
        match self {
            DecodeError::Truncated => "the value is cut short"@,
            DecodeError::UnknownWidth => "the encoding names no known width"@,
            DecodeError::UnknownBase => "the encoding names no known base"@,
            DecodeError::Unsupported => "LEB128 values are not supported"@,
            DecodeError::Overflow => "the address leaves the address space"@,
        }
    }

    /// Says in words what went wrong.
    pub fn message(&self) -> (s: &'static str)
        ensures
            s@ == self.text(),
    {
        match self {
            DecodeError::Truncated => "the value is cut short",
            DecodeError::UnknownWidth => "the encoding names no known width",
            DecodeError::UnknownBase => "the encoding names no known base",
            DecodeError::Unsupported => "LEB128 values are not supported",
            DecodeError::Overflow => "the address leaves the address space",
        }
    }
}

} // verus!
