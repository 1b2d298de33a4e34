//! The 4-byte chunk type tag and its bit-flag semantics.
//!
//! A tag stores four raw bytes verbatim. Bit 5 (mask `0x20`) of each byte
//! carries one flag: critical/ancillary, public/private, the reserved bit,
//! and safe-to-copy. A tag is *valid* when every byte is an ASCII letter
//! and the reserved bit is clear; tags that are merely well-formed bytes
//! can still be constructed and inspected.

use crate::text::utf8_to_string;
use vstd::prelude::*;
use vstd::string::StringSliceAdditionalSpecFns;
use vstd::utf8::{decode_utf8, valid_utf8};

verus! {

/// A 4-byte chunk type identifier, stored verbatim.
#[derive(Debug, Clone, Copy)]
pub struct ChunkType {
    pub data: [u8; 4],
}

impl PartialEq for ChunkType {
    /// Two tags are equal exactly when their four bytes are identical.
    fn eq(&self, other: &ChunkType) -> (r: bool) {
        let r = self.data[0] == other.data[0] && self.data[1] == other.data[1] && self.data[2]
            == other.data[2] && self.data[3] == other.data[3];
        proof {
            if r {
                assert(self.data@ =~= other.data@);
            }
        }
        r
    }
}

impl vstd::std_specs::cmp::PartialEqSpecImpl for ChunkType {
    open spec fn obeys_eq_spec() -> bool {
        true
    }

    open spec fn eq_spec(&self, other: &ChunkType) -> bool {
        self@ == other@
    }
}

/// Why a piece of text was refused as a chunk type tag, or a tag refused
/// as text.
#[derive(Debug, Clone, Copy, PartialEq, Eq, Structural)]
pub enum ChunkTypeError {
    /// The text is not exactly 4 bytes long; carries the actual length.
    WrongLength(usize),
    /// The text holds a byte that is not an ASCII letter.
    InvalidCharacter,
    /// The tag's bytes are not valid UTF-8, so it has no textual form.
    NotRenderable,
}

impl View for ChunkType {
    type V = Seq<u8>;

    open spec fn view(&self) -> Seq<u8> {
        self.data@
    }
}

/// Is `b` an ASCII letter, `A`-`Z` or `a`-`z`?
pub open spec fn is_ascii_letter(b: u8) -> bool {
    (65 <= b && b <= 90) || (97 <= b && b <= 122)
}

/// Bit 5 of the first byte clear: the chunk is critical, not ancillary.
pub open spec fn spec_is_critical(t: Seq<u8>) -> bool
    recommends
        t.len() == 4,
{
    t[0] & 0x20 != 0x20
}

/// Bit 5 of the second byte clear: the type is publicly defined.
pub open spec fn spec_is_public(t: Seq<u8>) -> bool
    recommends
        t.len() == 4,
{
    t[1] & 0x20 != 0x20
}

/// Bit 5 of the third byte clear, as the format's reserved-bit rule asks.
pub open spec fn spec_is_reserved_bit_valid(t: Seq<u8>) -> bool
    recommends
        t.len() == 4,
{
    t[2] & 0x20 != 0x20
}

/// Bit 5 of the fourth byte set: a naive editor may copy the chunk.
pub open spec fn spec_is_safe_to_copy(t: Seq<u8>) -> bool
    recommends
        t.len() == 4,
{
    t[3] & 0x20 == 0x20
}

/// A tag is valid when all four bytes are ASCII letters and the reserved
/// bit is clear.
pub open spec fn spec_is_valid(t: Seq<u8>) -> bool
    recommends
        t.len() == 4,
{
    (forall|i: int| 0 <= i < 4 ==> is_ascii_letter(#[trigger] t[i])) && spec_is_reserved_bit_valid(
        t,
    )
}

/// Is `t` exactly four bytes, all ASCII letters? This is what text must
/// satisfy to name a chunk type.
pub open spec fn spec_text_ok(t: Seq<u8>) -> bool {
    t.len() == 4 && (forall|i: int| 0 <= i < t.len() ==> is_ascii_letter(#[trigger] t[i]))
}

/// ASCII bytes always render: they are valid UTF-8 and decode to
/// themselves as characters. In particular `to_text` succeeds on every
/// tag that satisfies `spec_text_ok`, letter-valid tags included.
pub proof fn lemma_ascii_bytes_render(t: Seq<u8>)
    requires
        forall|i: int| 0 <= i < t.len() ==> #[trigger] t[i] < 0x80,
    ensures
        valid_utf8(t),
        decode_utf8(t) == t.map(|i: int, b: u8| b as char),
{
    let chars = t.map(|i: int, b: u8| b as char);
    assert(vstd::utf8::is_ascii_chars(chars)) by {
        assert forall|i: int| 0 <= i < chars.len() implies (#[trigger] chars[i]) as u32
            <= 0x7f by {
            assert(t[i] < 0x80);
        }
    }
    vstd::utf8::is_ascii_chars_encode_utf8(chars);
    assert(vstd::utf8::encode_utf8(chars) =~= t);
    vstd::utf8::encode_utf8_valid_utf8(chars);
    vstd::utf8::encode_utf8_decode_utf8(chars);
}

fn is_letter(b: u8) -> (r: bool)
    ensures
        r == is_ascii_letter(b),
{
    (65 <= b && b <= 90) || (97 <= b && b <= 122)
}

impl ChunkType {
    /// Builds a tag from four raw bytes, stored verbatim; never fails.
    pub fn from_bytes(bytes: [u8; 4]) -> (r: ChunkType)
        ensures
            r@ == bytes@,
    {
        ChunkType { data: bytes }
    }

    /// Builds a tag from text: exactly 4 bytes, each an ASCII letter.
    pub fn from_str(s: &str) -> (r: Result<ChunkType, ChunkTypeError>)
        ensures
            r is Ok <==> spec_text_ok(s.spec_bytes()),
            r matches Ok(t) ==> t@ == s.spec_bytes(),
            s.spec_bytes().len() != 4 ==> r == Err::<ChunkType, ChunkTypeError>(
                ChunkTypeError::WrongLength(s.spec_bytes().len() as usize),
            ),
            s.spec_bytes().len() == 4 && !spec_text_ok(s.spec_bytes()) ==> r == Err::<
                ChunkType,
                ChunkTypeError,
            >(ChunkTypeError::InvalidCharacter),
    {
        let bytes = s.as_bytes();
        if bytes.len() != 4 {
            return Err(ChunkTypeError::WrongLength(bytes.len()));
        }
        if !(is_letter(bytes[0]) && is_letter(bytes[1]) && is_letter(bytes[2]) && is_letter(
            bytes[3],
        )) {
            return Err(ChunkTypeError::InvalidCharacter);
        }
        Ok(ChunkType { data: [bytes[0], bytes[1], bytes[2], bytes[3]] })
    }

    /// The raw bytes of the tag, unvalidated.
    pub fn bytes(&self) -> (r: [u8; 4])
        ensures
            r@ == self@,
    {
        self.data
    }

    /// All four bytes are ASCII letters and the reserved bit is clear.
    pub fn is_valid(&self) -> (r: bool)
        ensures
            r == spec_is_valid(self@),
    {
        is_letter(self.data[0]) && is_letter(self.data[1]) && is_letter(self.data[2]) && is_letter(
            self.data[3],
        ) && self.is_reserved_bit_valid()
    }

    /// Critical chunks must be processed; ancillary ones may be skipped.
    pub fn is_critical(&self) -> (r: bool)
        ensures
            r == spec_is_critical(self@),
    {
        self.data[0] & 0x20 != 0x20
    }

    /// Publicly defined type, as opposed to a private one.
    pub fn is_public(&self) -> (r: bool)
        ensures
            r == spec_is_public(self@),
    {
        self.data[1] & 0x20 != 0x20
    }

    /// The reserved bit of the third byte must be clear for a valid tag.
    pub fn is_reserved_bit_valid(&self) -> (r: bool)
        ensures
            r == spec_is_reserved_bit_valid(self@),
    {
        self.data[2] & 0x20 != 0x20
    }

    /// Safe for a naive editor to copy the chunk unmodified.
    pub fn is_safe_to_copy(&self) -> (r: bool)
        ensures
            r == spec_is_safe_to_copy(self@),
    {
        self.data[3] & 0x20 == 0x20
    }

    /// Renders the tag as text; fails when its bytes are not valid UTF-8.
    pub fn to_text(&self) -> (r: Result<String, ChunkTypeError>)
        ensures
            r is Ok <==> valid_utf8(self@),
            r matches Ok(s) ==> s@ == decode_utf8(self@),
            r matches Err(e) ==> e == ChunkTypeError::NotRenderable,
    {
        match utf8_to_string(self.data.as_slice()) {
            Some(s) => Ok(s),
            None => Err(ChunkTypeError::NotRenderable),
        }
    }
}

} // verus!
