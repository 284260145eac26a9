//! A PNG chunk and its wire format:
//! `length (4 bytes, big-endian) | type (4 letters) | data | CRC-32 (4 bytes, big-endian)`,
//! the CRC-32 taken over type and data.

use std::convert::TryFrom;
use vstd::prelude::*;
use vstd::slice::{slice_subrange, slice_to_vec};
use vstd::std_specs::convert::TryFromSpecImpl;
use vstd::utf8::{decode_utf8, valid_utf8};
use crate::bytes::{append_bytes, be_bytes, be_u32, lemma_be_round_trip, push_be_u32, read_be_u32};
use crate::png::chunk_type::{is_type_code, ChunkType};
use crate::png::error::PngError;
use crate::png::utils::{crc32, crc_checksum, lemma_crc_detects_byte_change};
use crate::text::string_from_utf8;

verus! {

/// What a chunk holds: its type code and its data. Length and CRC follow
/// from these.
pub struct ChunkView {
    pub chunk_type: Seq<u8>,
    pub data: Seq<u8>,
}

/// The wire format of a chunk.
pub open spec fn chunk_wire(chunk: ChunkView) -> Seq<u8> {
    be_bytes(chunk.data.len() as u32) + chunk.chunk_type + chunk.data + be_bytes(
        crc32(chunk.chunk_type + chunk.data),
    )
}

/// What reading a chunk from the start of `bytes` gives. The checks come in
/// the order of the fields: eight bytes of length and type must be there, the
/// type must be four letters, data and CRC must be there, the CRC must be
/// that of type and data. What follows the chunk is not looked at.
pub open spec fn parse_chunk(bytes: Seq<u8>) -> Result<ChunkView, PngError> {
    if bytes.len() < 8 {
        Err(PngError::UnexpectedEof)
    } else if !is_type_code(bytes.subrange(4, 8)) {
        Err(PngError::InvalidTypeCode)
    } else {
        let length = be_u32(bytes.subrange(0, 4)) as int;
        if bytes.len() < 12 + length {
            Err(PngError::UnexpectedEof)
        } else if be_u32(bytes.subrange(8 + length, 12 + length)) != crc32(
            bytes.subrange(4, 8 + length),
        ) {
            Err(PngError::InvalidCrc)
        } else {
            Ok(
                ChunkView {
                    chunk_type: bytes.subrange(4, 8),
                    data: bytes.subrange(8, 8 + length),
                },
            )
        }
    }
}

/// A chunk written and read back is the same chunk.
pub proof fn lemma_chunk_round_trip(chunk: ChunkView)
    requires
        is_type_code(chunk.chunk_type),
        chunk.data.len() <= u32::MAX,
    ensures
        parse_chunk(chunk_wire(chunk)) == Ok::<ChunkView, PngError>(chunk),
{
    let wire = chunk_wire(chunk);
    let length = chunk.data.len() as int;
    let crc = crc32(chunk.chunk_type + chunk.data);
    lemma_be_round_trip(length as u32);
    lemma_be_round_trip(crc);
    assert(wire.len() == 12 + length);
    assert(wire.subrange(0, 4) =~= be_bytes(length as u32));
    assert(wire.subrange(4, 8) =~= chunk.chunk_type);
    assert(wire.subrange(8, 8 + length) =~= chunk.data);
    assert(wire.subrange(4, 8 + length) =~= chunk.chunk_type + chunk.data);
    assert(wire.subrange(8 + length, 12 + length) =~= be_bytes(crc));
}

/// A written chunk in which one byte of the data was changed is rejected for
/// its CRC.
pub proof fn lemma_chunk_corruption_detected(chunk: ChunkView, i: int, byte: u8)
    requires
        is_type_code(chunk.chunk_type),
        chunk.data.len() <= u32::MAX,
        0 <= i < chunk.data.len(),
        byte != chunk.data[i],
    ensures
        parse_chunk(chunk_wire(chunk).update(8 + i, byte)) == Err::<ChunkView, PngError>(
            PngError::InvalidCrc,
        ),
{
    let wire = chunk_wire(chunk);
    let bad = wire.update(8 + i, byte);
    let length = chunk.data.len() as int;
    let covered = chunk.chunk_type + chunk.data;
    let crc = crc32(covered);
    lemma_be_round_trip(length as u32);
    lemma_be_round_trip(crc);
    assert(wire.len() == 12 + length);
    assert(bad.subrange(0, 4) =~= be_bytes(length as u32));
    assert(bad.subrange(4, 8) =~= chunk.chunk_type);
    assert(bad.subrange(4, 8 + length) =~= covered.update(4 + i, byte));
    assert(bad.subrange(8 + length, 12 + length) =~= be_bytes(crc));
    lemma_crc_detects_byte_change(covered, 4 + i, byte);
}

/// One chunk of a PNG stream.
#[derive(Debug)]
pub struct Chunk {
    length: u32,
    chunk_type: ChunkType,
    message_bytes: Vec<u8>,
    crc: u32,
}

impl View for Chunk {
    type V = ChunkView;

    closed spec fn view(&self) -> ChunkView {
        ChunkView { chunk_type: self.chunk_type@, data: self.message_bytes@ }
    }
}

impl Chunk {
    #[verifier::type_invariant]
    spec fn consistent(self) -> bool {
        &&& is_type_code(self.chunk_type@)
        &&& self.length == self.message_bytes@.len()
        &&& self.crc == crc32(self.chunk_type@ + self.message_bytes@)
    }

    /// The chunk of type `chunk_type` that holds `message_bytes`. The length
    /// field of the wire format has four bytes, so the data must not be longer
    /// than that can say.
    pub fn new(chunk_type: ChunkType, message_bytes: Vec<u8>) -> (chunk: Chunk)
        requires
            message_bytes@.len() <= u32::MAX,
        ensures
            chunk@ == (ChunkView { chunk_type: chunk_type@, data: message_bytes@ }),
    {
        let mut covered: Vec<u8> = Vec::new();
        append_bytes(&mut covered, chunk_type.bytes());
        append_bytes(&mut covered, message_bytes.as_slice());
        assert(covered@ =~= chunk_type@ + message_bytes@);
        let crc = crc_checksum(covered.as_slice());
        Chunk { length: message_bytes.len() as u32, chunk_type, message_bytes, crc }
    }

    /// The length of the data in bytes.
    pub fn _length(&self) -> (length: u32)
        ensures
            length == self@.data.len(),
    {
        proof {
            use_type_invariant(self);
        }
        self.length
    }

    /// The type of the chunk.
    pub fn _chunk_type(&self) -> (chunk_type: &ChunkType)
        ensures
            chunk_type@ == self@.chunk_type,
            is_type_code(chunk_type@),
    {
        proof {
            use_type_invariant(self);
        }
        &self.chunk_type
    }

    /// The data as text: `InvalidUtf8` unless the data is UTF-8.
    pub fn _data_as_string(&self) -> (text: Result<String, PngError>)
        ensures
            match text {
                Ok(s) => valid_utf8(self@.data) && s@ == decode_utf8(self@.data),
                Err(e) => !valid_utf8(self@.data) && e == PngError::InvalidUtf8,
            },
    {
        match string_from_utf8(self.message_bytes.as_slice()) {
            Some(s) => Ok(s),
            None => Err(PngError::InvalidUtf8),
        }
    }

    /// The CRC-32 of type and data.
    pub fn _crc(&self) -> (crc: u32)
        ensures
            crc == crc32(self@.chunk_type + self@.data),
    {
        proof {
            use_type_invariant(self);
        }
        self.crc
    }

    /// The chunk in its wire format.
    pub fn as_bytes(&self) -> (bytes: Vec<u8>)
        ensures
            bytes@ == chunk_wire(self@),
            parse_chunk(bytes@) == Ok::<ChunkView, PngError>(self@),
    {
        proof {
            use_type_invariant(self);
            lemma_chunk_round_trip(self@);
        }
        let mut bytes: Vec<u8> = Vec::new();
        push_be_u32(&mut bytes, self.length);
        append_bytes(&mut bytes, self.chunk_type.bytes());
        append_bytes(&mut bytes, self.message_bytes.as_slice());
        push_be_u32(&mut bytes, self.crc);
        assert(bytes@ =~= chunk_wire(self@));
        bytes
    }
}

impl<'a> TryFrom<&'a [u8]> for Chunk {
    type Error = PngError;

    /// The chunk at the start of `array`, or why there is none.
    fn try_from(array: &'a [u8]) -> (r: Result<Self, Self::Error>)
        ensures
            match r {
                Ok(chunk) => parse_chunk(array@) == Ok::<ChunkView, PngError>(chunk@),
                Err(e) => parse_chunk(array@) == Err::<ChunkView, PngError>(e),
            },
    {
        let n = array.len();
        if n < 8 {
            return Err(PngError::UnexpectedEof);
        }
        let length = read_be_u32(array, 0);
        let code: [u8; 4] = [array[4], array[5], array[6], array[7]];
        assert(code@ =~= array@.subrange(4, 8));
        broadcast use ChunkType::lemma_of_array_view;
        let chunk_type = match ChunkType::try_from(code) {
            Ok(chunk_type) => chunk_type,
            Err(e) => {
                return Err(e);
            },
        };
        if n - 8 < length as usize || n - 8 - (length as usize) < 4 {
            return Err(PngError::UnexpectedEof);
        }
        let data_end: usize = 8 + length as usize;
        let message_bytes = slice_to_vec(slice_subrange(array, 8, data_end));
        let crc = read_be_u32(array, data_end);
        if crc == crc_checksum(slice_subrange(array, 4, data_end)) {
            assert(array@.subrange(4, data_end as int) =~= array@.subrange(4, 8) + array@.subrange(
                8,
                data_end as int,
            ));
            Ok(Chunk { length, chunk_type, message_bytes, crc })
        } else {
            Err(PngError::InvalidCrc)
        }
    }
}

/// A chunk holds a vector, which no spec function can build: what
/// `try_from` returns is stated on `try_from` itself, over the views.
impl<'a> TryFromSpecImpl<&'a [u8]> for Chunk {
    open spec fn obeys_try_from_spec() -> bool {
        false
    }

    open spec fn try_from_spec(v: &'a [u8]) -> Result<Self, Self::Error> {
        arbitrary()
    }
}

} // verus!
