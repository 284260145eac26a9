//! The four-letter type code of a PNG chunk.
//!
//! The case of each letter carries one property bit: critical or ancillary,
//! public or private, the reserved bit, and safe or unsafe to copy.

use std::convert::TryFrom;
use std::str::FromStr;
use vstd::prelude::*;
use vstd::std_specs::convert::TryFromSpecImpl;
use vstd::string::StringSliceAdditionalSpecFns;
use crate::png::error::PngError;
use crate::text::{ascii_chars, lemma_ascii_is_utf8, string_from_utf8_lossy};

verus! {

/// Whether `ch` is an upper-case ASCII letter.
pub open spec fn is_upper(ch: u8) -> bool {
    65 <= ch <= 90
}

/// Whether `ch` is a lower-case ASCII letter.
pub open spec fn is_lower(ch: u8) -> bool {
    97 <= ch <= 122
}

/// Whether `ch` is an ASCII letter.
pub open spec fn is_letter(ch: u8) -> bool {
    is_upper(ch) || is_lower(ch)
}

/// Whether `bytes` are four ASCII letters.
pub open spec fn is_type_code(bytes: Seq<u8>) -> bool {
    &&& bytes.len() == 4
    &&& forall|i: int| 0 <= i < 4 ==> is_letter(#[trigger] bytes[i])
}

/// What reading a type code from `bytes` gives: the bytes themselves if they
/// are four letters, else the reason why not. The length is looked at first.
pub open spec fn parse_type_code(bytes: Seq<u8>) -> Result<Seq<u8>, PngError> {
    if bytes.len() != 4 {
        Err(PngError::InvalidLength)
    } else if !is_type_code(bytes) {
        Err(PngError::InvalidTypeCode)
    } else {
        Ok(bytes)
    }
}

/// A chunk type code: four ASCII letters.
#[derive(Debug, PartialEq, Eq)]
pub struct ChunkType([u8; 4]);

impl View for ChunkType {
    type V = Seq<u8>;

    closed spec fn view(&self) -> Seq<u8> {
        self.0@
    }
}

fn is_uppercase(ch: u8) -> (upper: bool)
    ensures
        upper == is_upper(ch),
{
    65 <= ch && ch <= 90
}

fn is_lowercase(ch: u8) -> (lower: bool)
    ensures
        lower == is_lower(ch),
{
    97 <= ch && ch <= 122
}

/// Whether `ch` may stand in a type code.
pub fn is_valid_type_code(ch: u8) -> (valid: bool)
    ensures
        valid == is_letter(ch),
{
    is_lowercase(ch) || is_uppercase(ch)
}

impl ChunkType {
    #[verifier::type_invariant]
    spec fn letters(self) -> bool {
        is_type_code(self.0@)
    }

    /// The chunk type that holds `code`.
    pub closed spec fn of_array(code: [u8; 4]) -> ChunkType {
        ChunkType(code)
    }

    /// The view of a chunk type made of `code` is `code`.
    pub broadcast proof fn lemma_of_array_view(code: [u8; 4])
        ensures
            (#[trigger] ChunkType::of_array(code))@ == code@,
    {
    }

    /// The four bytes of the type code.
    pub fn bytes(&self) -> (code: &[u8])
        ensures
            code@ == self@,
            is_type_code(code@),
    {
        proof {
            use_type_invariant(self);
        }
        &self.0
    }

    /// Whether the chunk is critical: its first letter is upper case.
    pub fn _is_critical(&self) -> (critical: bool)
        ensures
            critical == is_upper(self@[0]),
    {
        is_uppercase(self.0[0])
    }

    /// Whether the chunk is public: its second letter is upper case.
    pub fn _is_public(&self) -> (public: bool)
        ensures
            public == is_upper(self@[1]),
    {
        is_uppercase(self.0[1])
    }

    /// Whether the reserved bit is as it must be: the third letter is upper
    /// case.
    pub fn _is_reserved_bit_valid(&self) -> (valid: bool)
        ensures
            valid == is_upper(self@[2]),
    {
        is_uppercase(self.0[2])
    }

    /// Whether the chunk is safe to copy: its fourth letter is lower case.
    pub fn _is_safe_to_copy(&self) -> (safe: bool)
        ensures
            safe == is_lower(self@[3]),
    {
        is_lowercase(self.0[3])
    }

    /// Whether the type code is valid: at present, that its reserved bit is.
    pub fn _is_valid(&self) -> (valid: bool)
        ensures
            valid == is_upper(self@[2]),
    {
        self._is_reserved_bit_valid()
    }

    /// The type code as text.
    pub fn to_string(&self) -> (text: String)
        ensures
            text@ == ascii_chars(self@),
    {
        proof {
            use_type_invariant(self);
            lemma_ascii_is_utf8(self.0@);
        }
        string_from_utf8_lossy(&self.0)
    }
}

impl TryFrom<[u8; 4]> for ChunkType {
    type Error = PngError;

    /// The chunk type of four letters; `InvalidTypeCode` if one of the bytes
    /// is no letter.
    fn try_from(array: [u8; 4]) -> (r: Result<Self, Self::Error>) {
        let mut i: usize = 0;
        while i < 4
            invariant
                i <= 4,
                forall|j: int| 0 <= j < i ==> is_letter(#[trigger] array@[j]),
            decreases 4 - i,
        {
            if !is_valid_type_code(array[i]) {
                return Err(PngError::InvalidTypeCode);
            }
            i = i + 1;
        }
        Ok(ChunkType(array))
    }
}

impl TryFromSpecImpl<[u8; 4]> for ChunkType {
    open spec fn obeys_try_from_spec() -> bool {
        true
    }

    open spec fn try_from_spec(v: [u8; 4]) -> Result<Self, Self::Error> {
        if is_type_code(v@) {
            Ok(ChunkType::of_array(v))
        } else {
            Err(PngError::InvalidTypeCode)
        }
    }
}

impl FromStr for ChunkType {
    type Err = PngError;

    /// The chunk type that `s` spells: `InvalidLength` unless `s` is four
    /// bytes long, then `InvalidTypeCode` unless all four are letters.
    fn from_str(s: &str) -> (r: Result<Self, Self::Err>)
        ensures
            match r {
                Ok(chunk_type) => parse_type_code(s.spec_bytes()) == Ok::<Seq<u8>, PngError>(
                    chunk_type@,
                ),
                Err(e) => parse_type_code(s.spec_bytes()) == Err::<Seq<u8>, PngError>(e),
            },
    {
        let bytes = s.as_bytes();
        if bytes.len() != 4 {
            return Err(PngError::InvalidLength);
        }
        let array: [u8; 4] = [bytes[0], bytes[1], bytes[2], bytes[3]];
        assert(array@ =~= bytes@);
        broadcast use ChunkType::lemma_of_array_view;
        ChunkType::try_from(array)
    }
}

} // verus!
