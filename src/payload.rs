//! Length-bounded decoding of response payloads: byte runs, register words
//! and bit-packed coil states.
use vstd::prelude::*;

use crate::codec::{read_u16, u16_of};
use crate::result::ModbusError;

verus! {

/// The first `n` big-endian words of `s`.
pub open spec fn words_of(s: Seq<u8>, n: nat) -> Seq<u16> {
    Seq::new(n, |i: int| u16_of(s[2 * i], s[2 * i + 1]))
}

/// Bit `k` of `b`, counting from the least significant.
pub open spec fn bit_of(b: u8, k: int) -> bool {
    (b >> (k as u8)) & 1u8 == 1u8
}

/// Every bit of `s`, least significant first within a byte, bytes in order.
pub open spec fn bits_of(s: Seq<u8>) -> Seq<bool> {
    Seq::new(8 * s.len(), |i: int| bit_of(s[i / 8], i % 8))
}

/// What decoding `data` as register words yields.
pub open spec fn decode_words_spec(data: Seq<u8>) -> Result<Seq<u16>, ModbusError> {
    if data.len() % 2 != 0 {
        Err(ModbusError::OddByteLength)
    } else {
        Ok(words_of(data, data.len() / 2))
    }
}

/// What decoding `data` as the states of `quantity` bits yields: exactly the
/// first `quantity` bits, so the padding that fills the last byte is dropped;
/// a payload with fewer bits than requested is refused.
pub open spec fn decode_bits_spec(data: Seq<u8>, quantity: u16) -> Result<Seq<bool>, ModbusError> {
    let all = bits_of(data);
    if all.len() < quantity {
        Err(ModbusError::PayloadLengthMismatch)
    } else {
        Ok(all.subrange(0, quantity as int))
    }
}

/// Decoder for a run whose item count was transmitted in the payload.
pub struct VarLenVec {
    pub len: usize,
}

impl VarLenVec {
    pub fn new(len: usize) -> (r: VarLenVec)
        ensures
            r.len == len,
    {
        VarLenVec { len }
    }

    /// The first `len` bytes of `data`; fails when fewer are there.
    pub fn decode_bytes(&self, data: &[u8]) -> (r: Result<Vec<u8>, ModbusError>)
        ensures
            self.len > data@.len() ==> r == Err::<Vec<u8>, ModbusError>(
                ModbusError::PayloadLengthMismatch,
            ),
            self.len <= data@.len() ==> (r matches Ok(v) && v@ == data@.subrange(0, self.len as int)),
    {
        if self.len > data.len() {
            return Err(ModbusError::PayloadLengthMismatch);
        }
        Ok(prefix(data, self.len))
    }

    /// The first `len` big-endian words of `data`; fails when fewer are there.
    pub fn decode_words(&self, data: &[u8]) -> (r: Result<Vec<u16>, ModbusError>)
        ensures
            self.len > data@.len() / 2 ==> r == Err::<Vec<u16>, ModbusError>(
                ModbusError::PayloadLengthMismatch,
            ),
            self.len <= data@.len() / 2 ==> (r matches Ok(v) && v@ == words_of(data@, self.len as nat)),
    {
        if self.len > data.len() / 2 {
            return Err(ModbusError::PayloadLengthMismatch);
        }
        let n: usize = data.len();
        let mut out: Vec<u16> = Vec::new();
        let mut i: usize = 0;
        while i < self.len
            invariant
                n == data@.len(),
                i <= self.len,
                self.len <= data@.len() / 2,
                out@ == words_of(data@, i as nat),
            decreases self.len - i,
        {
            out.push(read_u16(data, 2 * i));
            assert(out@ =~= words_of(data@, (i + 1) as nat));
            i = i + 1;
        }
        Ok(out)
    }
}

/// Decoder for a structure of a fixed number of bytes.
pub struct FixedLenVec {
    pub len: usize,
}

impl FixedLenVec {
    pub fn new(len: usize) -> (r: FixedLenVec)
        ensures
            r.len == len,
    {
        FixedLenVec { len }
    }

    /// Exactly the first `len` bytes of `data`; fails when fewer are there.
    pub fn decode_bytes(&self, data: &[u8]) -> (r: Result<Vec<u8>, ModbusError>)
        ensures
            self.len > data@.len() ==> r == Err::<Vec<u8>, ModbusError>(
                ModbusError::TruncatedFrame,
            ),
            self.len <= data@.len() ==> (r matches Ok(v) && v@ == data@.subrange(0, self.len as int)),
    {
        if self.len > data.len() {
            return Err(ModbusError::TruncatedFrame);
        }
        Ok(prefix(data, self.len))
    }
}

/// A copy of the first `n` bytes of `data`.
fn prefix(data: &[u8], n: usize) -> (r: Vec<u8>)
    requires
        n <= data@.len(),
    ensures
        r@ == data@.subrange(0, n as int),
{
    let mut out: Vec<u8> = Vec::new();
    let mut i: usize = 0;
    while i < n
        invariant
            i <= n,
            n <= data@.len(),
            out@ == data@.subrange(0, i as int),
        decreases n - i,
    {
        out.push(data[i]);
        assert(data@.subrange(0, i + 1) =~= data@.subrange(0, i as int).push(data@[i as int]));
        i = i + 1;
    }
    out
}

/// Register values: the payload read as big-endian words.
pub fn decode_words(data: &[u8]) -> (r: Result<Vec<u16>, ModbusError>)
    ensures
        match r {
            Ok(v) => decode_words_spec(data@) == Ok::<Seq<u16>, ModbusError>(v@),
            Err(e) => decode_words_spec(data@) == Err::<Seq<u16>, ModbusError>(e),
        },
{
    if data.len() % 2 != 0 {
        return Err(ModbusError::OddByteLength);
    }
    VarLenVec::new(data.len() / 2).decode_words(data)
}

/// Every bit of the payload, least significant first within each byte.
pub fn unpack_bits(data: &[u8]) -> (r: Vec<bool>)
    ensures
        r@ == bits_of(data@),
{
    let mut out: Vec<bool> = Vec::new();
    let mut i: usize = 0;
    while i < data.len()
        invariant
            i <= data@.len(),
            out@.len() == 8 * i,
            forall|j: int| 0 <= j < out@.len() ==> #[trigger] out@[j] == bit_of(data@[j / 8], j % 8),
        decreases data@.len() - i,
    {
        let byte = data[i];
        let mut k: u8 = 0;
        while k < 8
            invariant
                i < data@.len(),
                byte == data@[i as int],
                k <= 8,
                out@.len() == 8 * i + k,
                forall|j: int|
                    0 <= j < out@.len() ==> #[trigger] out@[j] == bit_of(data@[j / 8], j % 8),
            decreases 8 - k,
        {
            let ghost pos = out@.len() as int;
            out.push((byte >> k) & 1 == 1);
            assert(pos / 8 == i as int && pos % 8 == k as int);
            k = k + 1;
        }
        i = i + 1;
    }
    assert(out@ =~= bits_of(data@));
    out
}

/// Coil or discrete-input states: the first `quantity` unpacked bits; the
/// padding of the last byte is dropped, and a payload too short is refused.
pub fn decode_bits(data: &[u8], quantity: u16) -> (r: Result<Vec<bool>, ModbusError>)
    ensures
        match r {
            Ok(v) => decode_bits_spec(data@, quantity) == Ok::<Seq<bool>, ModbusError>(v@),
            Err(e) => decode_bits_spec(data@, quantity) == Err::<Seq<bool>, ModbusError>(e),
        },
{
    let mut bits = unpack_bits(data);
    if bits.len() < quantity as usize {
        return Err(ModbusError::PayloadLengthMismatch);
    }
    bits.truncate(quantity as usize);
    Ok(bits)
}

/// On a payload of exactly as many bytes as the requested bits fill, the
/// decoder keeps every bit but the padding of the last byte: when the quantity
/// is not a multiple of eight, the last `8 - quantity % 8` bits are dropped.
pub proof fn lemma_bits_drop_padding(data: Seq<u8>, quantity: u16)
    requires
        data.len() == (quantity as int + 7) / 8,
    ensures
        quantity % 8 == 0 ==> decode_bits_spec(data, quantity) == Ok::<Seq<bool>, ModbusError>(
            bits_of(data),
        ),
        quantity % 8 != 0 ==> decode_bits_spec(data, quantity) == Ok::<Seq<bool>, ModbusError>(
            bits_of(data).subrange(0, bits_of(data).len() - (8 - quantity % 8)),
        ),
{
    if quantity % 8 == 0 {
        assert(bits_of(data).subrange(0, quantity as int) =~= bits_of(data));
    }
}

} // verus!
