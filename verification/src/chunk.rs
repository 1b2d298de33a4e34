//! The chunk record and its binary codec.
//!
//! A chunk is a type tag plus a payload. On the wire it is laid out as
//! `[length: 4 bytes][type: 4 bytes][data: length bytes][crc: 4 bytes]`,
//! with the length and CRC big-endian and the CRC-32 computed over the
//! type bytes followed by the data bytes — the length field is excluded.

use crate::be32::{
    lemma_u32_from_to_be_bytes, lemma_u32_to_from_be_bytes, spec_u32_from_be_bytes,
    spec_u32_to_be_bytes, u32_from_be, u32_to_be_vec,
};
use crate::chunk_type::{spec_is_valid, ChunkType};
use crate::text::utf8_to_string;
use vstd::prelude::*;
use vstd::slice::{slice_subrange, slice_to_vec};
use vstd::utf8::{decode_utf8, valid_utf8};

verus! {

/// A chunk: a type tag and a data payload. The length and CRC of the wire
/// format are derived, not stored.
#[derive(Debug)]
pub struct Chunk {
    pub chunk_type: ChunkType,
    pub data: Vec<u8>,
}

/// The mathematical content of a chunk: its tag bytes and data bytes.
pub struct ChunkView {
    pub type_bytes: Seq<u8>,
    pub data: Seq<u8>,
}

impl View for Chunk {
    type V = ChunkView;

    open spec fn view(&self) -> ChunkView {
        ChunkView { type_bytes: self.chunk_type@, data: self.data@ }
    }
}

/// Why a byte buffer was refused as a chunk, or chunk data refused as text.
#[derive(Debug, Clone, Copy, PartialEq, Eq, Structural)]
pub enum ChunkError {
    /// The buffer is shorter than the 4-byte length field.
    InputTooSmall,
    /// The buffer ends before the declared data and CRC fields do.
    TruncatedInput,
    /// The decoded type tag is not valid.
    InvalidChunkType,
    /// The embedded CRC does not match the recomputed one; carries the
    /// embedded value, then the recomputed one.
    InvalidCrc(u32, u32),
    /// The chunk data is not valid UTF-8, so it has no textual form.
    NotUtf8,
}

/// The CRC-32 checksum (the polynomial the PNG format uses) of a byte
/// sequence; a function of the bytes alone.
pub uninterp spec fn crc32_of(bytes: Seq<u8>) -> u32;

/// Relies on crc32fast::hash: the CRC-32 checksum of the bytes, a pure
/// function of the byte slice alone.
#[verifier::external_body]
fn crc32(bytes: &[u8]) -> (r: u32)
    ensures
        r == crc32_of(bytes@),
{
    crc32fast::hash(bytes)
}

/// The CRC of a chunk: the checksum of its tag bytes followed by its data.
pub open spec fn spec_crc(cv: ChunkView) -> u32 {
    crc32_of(cv.type_bytes + cv.data)
}

/// The wire encoding of a chunk: big-endian length, tag bytes, data bytes,
/// big-endian CRC.
pub open spec fn spec_encoded(cv: ChunkView) -> Seq<u8>
    recommends
        cv.data.len() <= u32::MAX,
{
    spec_u32_to_be_bytes(cv.data.len() as u32) + cv.type_bytes + cv.data + spec_u32_to_be_bytes(
        spec_crc(cv),
    )
}

/// The data length a buffer declares in its first four bytes.
pub open spec fn spec_declared_len(buf: Seq<u8>) -> u32
    recommends
        buf.len() >= 4,
{
    spec_u32_from_be_bytes(buf.subrange(0, 4))
}

/// The four tag bytes of a buffer.
pub open spec fn spec_tag_bytes(buf: Seq<u8>) -> Seq<u8>
    recommends
        buf.len() >= 8,
{
    buf.subrange(4, 8)
}

/// The data bytes of a buffer: as many as its length field declares.
pub open spec fn spec_data_bytes(buf: Seq<u8>) -> Seq<u8>
    recommends
        buf.len() >= 12 + spec_declared_len(buf),
{
    buf.subrange(8, 8 + spec_declared_len(buf))
}

/// The CRC field of a buffer: the four big-endian bytes after the data.
pub open spec fn spec_crc_field(buf: Seq<u8>) -> u32
    recommends
        buf.len() >= 12 + spec_declared_len(buf),
{
    spec_u32_from_be_bytes(
        buf.subrange(8 + spec_declared_len(buf), 12 + spec_declared_len(buf)),
    )
}

/// Does a buffer decode to a chunk? It must hold the length field, the tag
/// and the declared data and CRC fields; the tag must be valid; and the
/// embedded CRC must equal the one recomputed over tag and data.
pub open spec fn spec_decode_ok(buf: Seq<u8>) -> bool {
    &&& buf.len() >= 8
    &&& spec_is_valid(spec_tag_bytes(buf))
    &&& buf.len() >= 12 + spec_declared_len(buf)
    &&& spec_crc_field(buf) == crc32_of(spec_tag_bytes(buf) + spec_data_bytes(buf))
}

/// The error a buffer that does not decode is refused with, checked in
/// this order: the length field, the tag bytes, the tag's validity, the
/// declared size, the CRC.
pub open spec fn spec_decode_err(buf: Seq<u8>) -> ChunkError
    recommends
        !spec_decode_ok(buf),
{
    if buf.len() < 4 {
        ChunkError::InputTooSmall
    } else if buf.len() < 8 {
        ChunkError::TruncatedInput
    } else if !spec_is_valid(spec_tag_bytes(buf)) {
        ChunkError::InvalidChunkType
    } else if buf.len() < 12 + spec_declared_len(buf) {
        ChunkError::TruncatedInput
    } else {
        ChunkError::InvalidCrc(
            spec_crc_field(buf),
            crc32_of(spec_tag_bytes(buf) + spec_data_bytes(buf)),
        )
    }
}

/// Appends every byte of `src` to `dst`.
fn push_all(dst: &mut Vec<u8>, src: &[u8])
    ensures
        final(dst)@ == old(dst)@ + src@,
{
    let mut i: usize = 0;
    while i < src.len()
        invariant
            i <= src@.len(),
            dst@ == old(dst)@ + src@.subrange(0, i as int),
        decreases src@.len() - i,
    {
        dst.push(src[i]);
        i = i + 1;
        proof {
            assert(src@.subrange(0, i as int) == src@.subrange(0, i - 1) + seq![src@[i - 1]]);
        }
    }
    proof {
        assert(src@.subrange(0, src@.len() as int) == src@);
    }
}

impl PartialEq for Chunk {
    /// Two chunks are equal exactly when their tags and data agree.
    fn eq(&self, other: &Chunk) -> (r: bool) {
        if !(self.chunk_type == other.chunk_type) {
            return false;
        }
        if self.data.len() != other.data.len() {
            proof {
                assert(self@.data != other@.data);
            }
            return false;
        }
        let mut i: usize = 0;
        while i < self.data.len()
            invariant
                i <= self.data@.len(),
                self.data@.len() == other.data@.len(),
                self@.type_bytes == other@.type_bytes,
                forall|j: int| 0 <= j < i ==> self.data@[j] == other.data@[j],
            decreases self.data@.len() - i,
        {
            if self.data[i] != other.data[i] {
                return false;
            }
            i = i + 1;
        }
        proof {
            assert(self.data@ =~= other.data@);
        }
        true
    }
}

impl vstd::std_specs::cmp::PartialEqSpecImpl for Chunk {
    open spec fn obeys_eq_spec() -> bool {
        true
    }

    open spec fn eq_spec(&self, other: &Chunk) -> bool {
        self@.type_bytes == other@.type_bytes && self@.data == other@.data
    }
}

impl Chunk {
    /// Builds a chunk from a tag and data, stored as given; the tag's
    /// validity is the caller's business.
    pub fn new(chunk_type: ChunkType, data: Vec<u8>) -> (r: Chunk)
        ensures
            r@ == (ChunkView { type_bytes: chunk_type@, data: data@ }),
    {
        Chunk { chunk_type, data }
    }

    /// The byte length of the data, as the 32-bit wire length field.
    pub fn length(&self) -> (r: u32)
        requires
            self@.data.len() <= u32::MAX,
        ensures
            r == self@.data.len(),
    {
        self.data.len() as u32
    }

    /// The chunk's type tag.
    pub fn chunk_type(&self) -> (r: &ChunkType)
        ensures
            r@ == self@.type_bytes,
    {
        &self.chunk_type
    }

    /// The chunk's data bytes.
    pub fn data(&self) -> (r: &[u8])
        ensures
            r@ == self@.data,
    {
        self.data.as_slice()
    }

    /// The CRC-32 over the tag bytes followed by the data bytes, recomputed
    /// on demand.
    pub fn crc(&self) -> (r: u32)
        ensures
            r == spec_crc(self@),
    {
        let tag = self.chunk_type.bytes();
        let mut bytes: Vec<u8> = Vec::new();
        push_all(&mut bytes, tag.as_slice());
        push_all(&mut bytes, self.data.as_slice());
        crc32(bytes.as_slice())
    }

    /// The chunk data as text; fails when it is not valid UTF-8.
    pub fn data_as_string(&self) -> (r: Result<String, ChunkError>)
        ensures
            r is Ok <==> valid_utf8(self@.data),
            r matches Ok(s) ==> s@ == decode_utf8(self@.data),
            r matches Err(e) ==> e == ChunkError::NotUtf8,
    {
        match utf8_to_string(self.data.as_slice()) {
            Some(s) => Ok(s),
            None => Err(ChunkError::NotUtf8),
        }
    }

    /// Decodes a chunk from its wire layout, with explicit bounds checks:
    /// the buffer must hold the 4-byte length field, the 4 tag bytes, the
    /// declared number of data bytes and the 4 CRC bytes; the tag must be
    /// valid and the embedded CRC must match the recomputed one.
    pub fn try_from_bytes(value: &[u8]) -> (r: Result<Chunk, ChunkError>)
        ensures
            r is Ok <==> spec_decode_ok(value@),
            r matches Ok(c) ==> c@.type_bytes == spec_tag_bytes(value@) && c@.data
                == spec_data_bytes(value@),
            r matches Err(e) ==> e == spec_decode_err(value@),
    {
        if value.len() < 4 {
            return Err(ChunkError::InputTooSmall);
        }
        let n = u32_from_be(value[0], value[1], value[2], value[3]);
        proof {
            assert(seq![value@[0], value@[1], value@[2], value@[3]] =~= value@.subrange(0, 4));
        }
        if value.len() < 8 {
            return Err(ChunkError::TruncatedInput);
        }
        let tag = ChunkType::from_bytes([value[4], value[5], value[6], value[7]]);
        proof {
            assert(tag@ =~= spec_tag_bytes(value@));
        }
        if !tag.is_valid() {
            return Err(ChunkError::InvalidChunkType);
        }
        let n_us = n as usize;
        if value.len() < 12 || value.len() - 12 < n_us {
            return Err(ChunkError::TruncatedInput);
        }
        let data = slice_to_vec(slice_subrange(value, 8, 8 + n_us));
        let expected = u32_from_be(
            value[8 + n_us],
            value[9 + n_us],
            value[10 + n_us],
            value[11 + n_us],
        );
        proof {
            let m = n as int;
            assert(seq![value@[8 + m], value@[9 + m], value@[10 + m], value@[11 + m]]
                =~= value@.subrange(8 + m, 12 + m));
        }
        let chunk = Chunk { chunk_type: tag, data };
        let actual = chunk.crc();
        if expected != actual {
            return Err(ChunkError::InvalidCrc(expected, actual));
        }
        Ok(chunk)
    }

    /// Encodes the chunk in its wire layout: length, tag, data, CRC.
    pub fn as_bytes(&self) -> (r: Vec<u8>)
        requires
            self@.data.len() <= u32::MAX,
        ensures
            r@ == spec_encoded(self@),
    {
        let len = self.length();
        let len_bytes = u32_to_be_vec(len);
        let tag = self.chunk_type.bytes();
        let crc_bytes = u32_to_be_vec(self.crc());
        let mut out: Vec<u8> = Vec::new();
        push_all(&mut out, len_bytes.as_slice());
        push_all(&mut out, tag.as_slice());
        push_all(&mut out, self.data.as_slice());
        push_all(&mut out, crc_bytes.as_slice());
        out
    }
}

/// The four fields of an encoded chunk stand at their wire offsets.
proof fn lemma_encoded_parts(cv: ChunkView)
    requires
        cv.type_bytes.len() == 4,
        cv.data.len() <= u32::MAX,
    ensures
        spec_encoded(cv).len() == 12 + cv.data.len(),
        spec_encoded(cv).subrange(0, 4) == spec_u32_to_be_bytes(cv.data.len() as u32),
        spec_encoded(cv).subrange(4, 8) == cv.type_bytes,
        spec_encoded(cv).subrange(8, 8 + cv.data.len() as int) == cv.data,
        spec_encoded(cv).subrange(
            8 + cv.data.len() as int,
            12 + cv.data.len() as int,
        ) == spec_u32_to_be_bytes(spec_crc(cv)),
{
    let buf = spec_encoded(cv);
    let n = cv.data.len() as int;
    assert(buf.subrange(0, 4) =~= spec_u32_to_be_bytes(cv.data.len() as u32));
    assert(buf.subrange(4, 8) =~= cv.type_bytes);
    assert(buf.subrange(8, 8 + n) =~= cv.data);
    assert(buf.subrange(8 + n, 12 + n) =~= spec_u32_to_be_bytes(spec_crc(cv)));
}

/// Round trip: the wire encoding of any chunk with a valid tag and a data
/// length that fits the 32-bit length field decodes, and decodes to the
/// same tag bytes and data bytes. Together with the contracts of
/// `Chunk::as_bytes` and `Chunk::try_from_bytes` this says that
/// `Chunk::try_from_bytes(chunk.as_bytes())` returns the chunk itself.
pub proof fn lemma_round_trip(cv: ChunkView)
    requires
        cv.type_bytes.len() == 4,
        spec_is_valid(cv.type_bytes),
        cv.data.len() <= u32::MAX,
    ensures
        spec_decode_ok(spec_encoded(cv)),
        spec_tag_bytes(spec_encoded(cv)) == cv.type_bytes,
        spec_data_bytes(spec_encoded(cv)) == cv.data,
{
    let buf = spec_encoded(cv);
    let n = cv.data.len() as u32;
    lemma_encoded_parts(cv);
    lemma_u32_to_from_be_bytes(n);
    lemma_u32_to_from_be_bytes(spec_crc(cv));
    assert(spec_declared_len(buf) == n);
    assert(spec_crc_field(buf) == spec_crc(cv));
}

/// CRC determinism: the CRC of a chunk is a pure function of its tag bytes
/// and its data bytes, nothing else.
pub proof fn lemma_crc_deterministic(a: ChunkView, b: ChunkView)
    requires
        a.type_bytes == b.type_bytes,
        a.data == b.data,
    ensures
        spec_crc(a) == spec_crc(b),
{
}

/// Corruption is caught: change any single byte of the CRC field of an
/// encoded chunk and the buffer no longer decodes; it is refused with
/// `InvalidCrc`, carrying the corrupted field and the recomputed CRC.
/// The fields below the CRC of a buffer that agrees with an encoded chunk
/// everywhere but inside the CRC field.
proof fn lemma_corrupt_crc_prefix_fields(cv: ChunkView, buf: Seq<u8>, i: int)
    requires
        cv.type_bytes.len() == 4,
        cv.data.len() <= u32::MAX,
        buf.len() == spec_encoded(cv).len(),
        8 + cv.data.len() <= i < buf.len(),
        forall|j: int| 0 <= j < buf.len() && j != i ==> buf[j] == spec_encoded(cv)[j],
    ensures
        spec_declared_len(buf) == cv.data.len() as u32,
        spec_tag_bytes(buf) == cv.type_bytes,
        spec_data_bytes(buf) == cv.data,
{
    let enc = spec_encoded(cv);
    let n = cv.data.len() as int;
    lemma_encoded_parts(cv);
    lemma_u32_to_from_be_bytes(cv.data.len() as u32);
    assert(buf.subrange(0, 4) =~= enc.subrange(0, 4));
    assert(spec_declared_len(buf) == cv.data.len() as u32);
    assert(spec_tag_bytes(buf) =~= enc.subrange(4, 8));
    assert(spec_data_bytes(buf) =~= enc.subrange(8, 8 + n));
}

/// Corruption is caught: change any single byte of the CRC field of an
/// encoded chunk and the buffer no longer decodes; it is refused with
/// `InvalidCrc`, carrying the corrupted field and the recomputed CRC.
#[verifier::rlimit(50)]
pub proof fn lemma_crc_corruption(cv: ChunkView, buf: Seq<u8>, i: int)
    requires
        cv.type_bytes.len() == 4,
        spec_is_valid(cv.type_bytes),
        cv.data.len() <= u32::MAX,
        buf.len() == spec_encoded(cv).len(),
        8 + cv.data.len() <= i < buf.len(),
        buf[i] != spec_encoded(cv)[i],
        forall|j: int| 0 <= j < buf.len() && j != i ==> buf[j] == spec_encoded(cv)[j],
    ensures
        !spec_decode_ok(buf),
        spec_decode_err(buf) == ChunkError::InvalidCrc(spec_crc_field(buf), spec_crc(cv)),
        spec_crc_field(buf) != spec_crc(cv),
{
    let enc = spec_encoded(cv);
    let n = cv.data.len() as int;
    lemma_encoded_parts(cv);
    lemma_corrupt_crc_prefix_fields(cv, buf, i);
    let s = buf.subrange(8 + n, 12 + n);
    let t = enc.subrange(8 + n, 12 + n);
    lemma_u32_from_to_be_bytes(s);
    assert(s[i - (8 + n)] != t[i - (8 + n)]);
    if spec_crc_field(buf) == spec_crc(cv) {
        assert(spec_u32_to_be_bytes(spec_u32_from_be_bytes(s)) == s);
        assert(false);
    }
}

/// Truncation is refused: a buffer shorter than the 12 bytes of metadata
/// plus its declared data length never decodes, so `Chunk::try_from_bytes`
/// returns an error on it rather than reading out of bounds.
pub proof fn lemma_truncation_refused(buf: Seq<u8>)
    requires
        buf.len() < 12 + spec_declared_len(buf),
    ensures
        !spec_decode_ok(buf),
{
}

} // verus!
