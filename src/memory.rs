use vstd::prelude::*;

use crate::callable::CallArg;
use crate::error::FfiError;

verus! {

/// The two's-complement bit pattern of `v`.
pub open spec fn int_bits(v: i32) -> u32 {
    if v >= 0 {
        v as u32
    } else {
        (v + 0x1_0000_0000) as u32
    }
}

/// The `i32` whose two's-complement bit pattern is `u`.
pub open spec fn int_of_bits(u: u32) -> i32 {
    if u < 0x8000_0000 {
        u as i32
    } else {
        (u - 0x1_0000_0000) as i32
    }
}

/// The four little-endian bytes of `v`.
pub open spec fn int_bytes(v: i32) -> Seq<u8> {
    let u = int_bits(v);
    seq![u as u8, (u >> 8u32) as u8, (u >> 16u32) as u8, (u >> 24u32) as u8]
}

/// The `i32` whose little-endian bytes are `b0` to `b3`.
pub open spec fn int_from_bytes(b0: u8, b1: u8, b2: u8, b3: u8) -> i32 {
    int_of_bits((b0 as u32) | ((b1 as u32) << 8u32) | ((b2 as u32) << 16u32) | ((b3 as u32) << 24u32))
}

/// The `i32` stored at byte `offset` of `b`.
pub open spec fn int_at(b: Seq<u8>, offset: int) -> i32 {
    int_from_bytes(b[offset], b[offset + 1], b[offset + 2], b[offset + 3])
}

/// `b` with the four bytes at `offset` replaced by those of `v`.
pub open spec fn with_int(b: Seq<u8>, offset: int, v: i32) -> Seq<u8> {
    b.subrange(0, offset) + int_bytes(v) + b.subrange(offset + 4, b.len() as int)
}

/// Decoding the bytes of an integer gives the integer back.
pub proof fn lemma_int_bytes_round_trip(v: i32)
    ensures
        int_from_bytes(int_bytes(v)[0], int_bytes(v)[1], int_bytes(v)[2], int_bytes(v)[3]) == v,
{
    let u = int_bits(v);
    assert(((u as u8) as u32) | (((u >> 8u32) as u8 as u32) << 8u32) | (((u >> 16u32) as u8 as u32) << 16u32)
        | (((u >> 24u32) as u8 as u32) << 24u32) == u) by (bit_vector);
}

/// Writing an integer and reading it back at the same offset gives the integer.
pub proof fn lemma_write_then_read(b: Seq<u8>, offset: int, v: i32)
    requires
        0 <= offset,
        offset + 4 <= b.len(),
    ensures
        with_int(b, offset, v).len() == b.len(),
        int_at(with_int(b, offset, v), offset) == v,
{
    let w = with_int(b, offset, v);
    assert(w[offset] == int_bytes(v)[0]);
    assert(w[offset + 1] == int_bytes(v)[1]);
    assert(w[offset + 2] == int_bytes(v)[2]);
    assert(w[offset + 3] == int_bytes(v)[3]);
    lemma_int_bytes_round_trip(v);
}

/// A memory handle: a byte region that values are written into and read
/// from, and whose address a native call receives. Its valid window is the
/// whole region; integers are stored little-endian.
pub struct MemoryHandle {
    bytes: Vec<u8>,
}

fn encode_bits(v: i32) -> (u: u32)
    ensures
        u == int_bits(v),
{
    if v >= 0 {
        v as u32
    } else {
        (v as i64 + 0x1_0000_0000i64) as u32
    }
}

fn decode_bits(u: u32) -> (v: i32)
    ensures
        v == int_of_bits(u),
{
    if u < 0x8000_0000u32 {
        u as i32
    } else {
        (u as i64 - 0x1_0000_0000i64) as i32
    }
}

impl MemoryHandle {
    pub closed spec fn view(&self) -> Seq<u8> {
        self.bytes@
    }

    /// A handle over `len` zero bytes.
    pub fn new(len: usize) -> (r: MemoryHandle)
        ensures
            r@ == Seq::new(len as nat, |i: int| 0u8),
    {
        let mut bytes: Vec<u8> = Vec::new();
        let mut i: usize = 0;
        while i < len
            invariant
                i <= len,
                bytes@ == Seq::new(i as nat, |k: int| 0u8),
            decreases len - i,
        {
            bytes.push(0u8);
            i = i + 1;
            assert(bytes@ =~= Seq::new(i as nat, |k: int| 0u8));
        }
        MemoryHandle { bytes }
    }

    /// A handle over the given bytes.
    pub fn from_bytes(bytes: Vec<u8>) -> (r: MemoryHandle)
        ensures
            r@ == bytes@,
    {
        MemoryHandle { bytes }
    }

    /// The handle's bytes.
    pub fn into_bytes(self) -> (r: Vec<u8>)
        ensures
            r@ == self@,
    {
        self.bytes
    }

    /// The length of the valid window.
    pub fn len(&self) -> (r: usize)
        ensures
            r == self@.len(),
    {
        self.bytes.len()
    }

    /// Whether `[offset, offset + size)` lies within the valid window.
    pub fn check_boundary(&self, offset: usize, size: usize) -> (r: bool)
        ensures
            r == (offset + size <= self@.len()),
    {
        offset <= self.bytes.len() && size <= self.bytes.len() - offset
    }

    /// This handle as a call argument under the name `id`.
    pub fn as_call_arg(&self, id: u64) -> (r: CallArg)
        ensures
            r == (CallArg::Handle { id, len: self@.len() as usize }),
    {
        CallArg::Handle { id, len: self.bytes.len() }
    }

    /// Stores `v` at `offset`; `BoundaryError`, with nothing written, when the
    /// four bytes do not fit in the window.
    pub fn write_int(&mut self, offset: usize, v: i32) -> (r: Result<(), FfiError>)
        ensures
            r is Ok <==> offset + 4 <= old(self)@.len(),
            r is Ok ==> final(self)@ == with_int(old(self)@, offset as int, v),
            r matches Err(e) ==> e == FfiError::BoundaryError && final(self)@ == old(self)@,
    {
        let n = self.bytes.len();
        if offset > n || n - offset < 4 {
            return Err(FfiError::BoundaryError);
        }
        let u = encode_bits(v);
        self.bytes.set(offset, u as u8);
        self.bytes.set(offset + 1, (u >> 8u32) as u8);
        self.bytes.set(offset + 2, (u >> 16u32) as u8);
        self.bytes.set(offset + 3, (u >> 24u32) as u8);
        assert(self.bytes@ =~= with_int(old(self)@, offset as int, v));
        Ok(())
    }

    /// The integer stored at `offset`; `BoundaryError` when the four bytes do
    /// not fit in the window.
    pub fn read_int(&self, offset: usize) -> (r: Result<i32, FfiError>)
        ensures
            r == (if offset + 4 <= self@.len() {
                Ok::<i32, FfiError>(int_at(self@, offset as int))
            } else {
                Err(FfiError::BoundaryError)
            }),
    {
        let n = self.bytes.len();
        if offset > n || n - offset < 4 {
            return Err(FfiError::BoundaryError);
        }
        let x: u32 = (self.bytes[offset] as u32) | ((self.bytes[offset + 1] as u32) << 8u32)
            | ((self.bytes[offset + 2] as u32) << 16u32) | ((self.bytes[offset + 3] as u32) << 24u32);
        Ok(decode_bits(x))
    }
}

} // verus!
