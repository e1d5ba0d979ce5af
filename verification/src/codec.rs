use vstd::prelude::*;
use vstd::string::StringSliceAdditionalSpecFns;
use crate::error::ScError;

verus! {

/// A value kind of the store: a type with a canonical byte encoding, a
/// partial decoding, and a zero value.
///
/// The underlying stores are byte-oriented, so every typed read and write
/// goes through this codec. Encoding is total; decoding rejects byte
/// sequences that are malformed for the kind, which the accessors surface as
/// [`ScError::DecodeError`]. The zero value is what the lenient accessor
/// hands out for an unset key.
pub trait ScValue: View + Sized {
    /// The canonical byte encoding of a value with this view.
    spec fn spec_encode(v: Self::V) -> Seq<u8>;

    /// Which byte sequences decode, and to what view.
    spec fn spec_decode(b: Seq<u8>) -> Option<Self::V>;

    /// The view of the kind's zero value.
    spec fn spec_zero() -> Self::V;

    /// Which views a value of the kind can take.
    spec fn wf_view(v: Self::V) -> bool;

    /// The zero value is a value of the kind.
    proof fn lemma_zero_wf()
        ensures
            Self::wf_view(Self::spec_zero()),
    ;

    /// Decoding inverts encoding on every value of the kind.
    proof fn lemma_codec_round_trip(v: Self::V)
        requires
            Self::wf_view(v),
        ensures
            Self::spec_decode(Self::spec_encode(v)) == Some(v),
    ;

    /// Whatever decodes is a value of the kind.
    proof fn lemma_decode_wf(b: Seq<u8>)
        ensures
            Self::spec_decode(b) matches Some(v) ==> Self::wf_view(v),
    ;

    /// The canonical byte encoding of this value.
    fn encode(&self) -> (r: Vec<u8>)
        ensures
            r@ == Self::spec_encode(self@),
    ;

    /// Decodes a stored byte sequence, rejecting malformed bytes.
    fn decode(b: &[u8]) -> (r: Result<Self, ScError>)
        ensures
            (match Self::spec_decode(b@) {
                Some(v) => r matches Ok(x) && x@ == v,
                None => r == Err::<Self, ScError>(ScError::DecodeError),
            }),
    ;

    /// The kind's zero value.
    fn zero() -> (r: Self)
        ensures
            r@ == Self::spec_zero(),
    ;
}

/// Byte-sequence equality, decided element by element.
pub fn bytes_eq(a: &[u8], b: &[u8]) -> (r: bool)
    ensures
        r == (a@ == b@),
{
    if a.len() != b.len() {
        return false;
    }
    let n = a.len();
    let mut i: usize = 0;
    while i < n
        invariant
            n == a@.len() == b@.len(),
            0 <= i <= n,
            forall|j: int| 0 <= j < i ==> a@[j] == b@[j],
        decreases n - i,
    {
        if a[i] != b[i] {
            return false;
        }
        i += 1;
    }
    proof {
        assert(a@ =~= b@);
    }
    true
}

// ------------------------- boolean -------------------------

/// The single-byte boolean encoding: the store has no native boolean, so
/// `false` is the byte 0 and `true` is the byte 1. Any other stored byte
/// sequence is malformed.
impl ScValue for bool {
    open spec fn spec_encode(v: bool) -> Seq<u8> {
        seq![if v { 1u8 } else { 0u8 }]
    }

    open spec fn spec_decode(b: Seq<u8>) -> Option<bool> {
        if b.len() == 1 && b[0] == 1u8 {
            Some(true)
        } else if b.len() == 1 && b[0] == 0u8 {
            Some(false)
        } else {
            None
        }
    }

    open spec fn spec_zero() -> bool {
        false
    }

    open spec fn wf_view(v: bool) -> bool {
        true
    }

    proof fn lemma_zero_wf() {
    }

    proof fn lemma_codec_round_trip(v: bool) {
    }

    proof fn lemma_decode_wf(b: Seq<u8>) {
    }

    fn encode(&self) -> (r: Vec<u8>) {
        let mut r: Vec<u8> = Vec::new();
        if *self {
            r.push(1u8);
        } else {
            r.push(0u8);
        }
        proof {
            assert(r@ =~= Self::spec_encode(self@));
        }
        r
    }

    fn decode(b: &[u8]) -> (r: Result<bool, ScError>) {
        if b.len() == 1 {
            if b[0] == 1u8 {
                Ok(true)
            } else if b[0] == 0u8 {
                Ok(false)
            } else {
                Err(ScError::DecodeError)
            }
        } else {
            Err(ScError::DecodeError)
        }
    }

    fn zero() -> (r: bool) {
        false
    }
}

// ------------------------- 64-bit signed integer -------------------------

/// Casting an `i64` through `u64` and back is the identity.
proof fn lemma_i64_cast_round(v: i64)
    ensures
        ((v as u64) as i64) == v,
{
    assert(((v as u64) as i64) == v) by (bit_vector);
}

/// The eight-byte little-endian two's-complement integer encoding.
impl ScValue for i64 {
    open spec fn spec_encode(v: i64) -> Seq<u8> {
        vstd::bytes::spec_u64_to_le_bytes(v as u64)
    }

    open spec fn spec_decode(b: Seq<u8>) -> Option<i64> {
        if b.len() == 8 {
            Some(vstd::bytes::spec_u64_from_le_bytes(b) as i64)
        } else {
            None
        }
    }

    open spec fn spec_zero() -> i64 {
        0
    }

    open spec fn wf_view(v: i64) -> bool {
        true
    }

    proof fn lemma_zero_wf() {
    }

    proof fn lemma_codec_round_trip(v: i64) {
        vstd::bytes::lemma_auto_spec_u64_to_from_le_bytes();
        lemma_i64_cast_round(v);
    }

    proof fn lemma_decode_wf(b: Seq<u8>) {
    }

    fn encode(&self) -> (r: Vec<u8>) {
        vstd::bytes::u64_to_le_bytes(*self as u64)
    }

    fn decode(b: &[u8]) -> (r: Result<i64, ScError>) {
        if b.len() == 8 {
            Ok(vstd::bytes::u64_from_le_bytes(b) as i64)
        } else {
            Err(ScError::DecodeError)
        }
    }

    fn zero() -> (r: i64) {
        0
    }
}

// ------------------------- text -------------------------

/// Relies on `core::str::from_utf8`: it succeeds exactly on valid UTF-8
/// input, and the characters of the result re-encode to the input bytes.
#[verifier::external_body]
fn bytes_to_str(b: &[u8]) -> (r: Option<&str>)
    ensures
        r is Some <==> vstd::utf8::valid_utf8(b@),
        (r matches Some(s) ==> s.spec_bytes() == b@),
{
    core::str::from_utf8(b).ok()
}

/// The UTF-8 text encoding.
impl ScValue for String {
    open spec fn spec_encode(v: Seq<char>) -> Seq<u8> {
        vstd::utf8::encode_utf8(v)
    }

    open spec fn spec_decode(b: Seq<u8>) -> Option<Seq<char>> {
        if vstd::utf8::valid_utf8(b) {
            Some(vstd::utf8::decode_utf8(b))
        } else {
            None
        }
    }

    open spec fn spec_zero() -> Seq<char> {
        Seq::empty()
    }

    open spec fn wf_view(v: Seq<char>) -> bool {
        true
    }

    proof fn lemma_zero_wf() {
    }

    proof fn lemma_codec_round_trip(v: Seq<char>) {
        vstd::utf8::encode_utf8_valid_utf8(v);
        vstd::utf8::encode_utf8_decode_utf8(v);
    }

    proof fn lemma_decode_wf(b: Seq<u8>) {
    }

    fn encode(&self) -> (r: Vec<u8>) {
        vstd::slice::slice_to_vec(self.as_str().as_bytes())
    }

    fn decode(b: &[u8]) -> (r: Result<String, ScError>) {
        match bytes_to_str(b) {
            Some(s) => {
                proof {
                    vstd::utf8::encode_utf8_decode_utf8(s@);
                }
                Ok(s.to_owned())
            },
            None => Err(ScError::DecodeError),
        }
    }

    fn zero() -> (r: String) {
        String::new()
    }
}

// ------------------------- raw bytes -------------------------

/// The identity encoding: a raw byte sequence is stored as itself, and every
/// stored byte sequence decodes.
impl ScValue for Vec<u8> {
    open spec fn spec_encode(v: Seq<u8>) -> Seq<u8> {
        v
    }

    open spec fn spec_decode(b: Seq<u8>) -> Option<Seq<u8>> {
        Some(b)
    }

    open spec fn spec_zero() -> Seq<u8> {
        Seq::empty()
    }

    open spec fn wf_view(v: Seq<u8>) -> bool {
        true
    }

    proof fn lemma_zero_wf() {
    }

    proof fn lemma_codec_round_trip(v: Seq<u8>) {
    }

    proof fn lemma_decode_wf(b: Seq<u8>) {
    }

    fn encode(&self) -> (r: Vec<u8>) {
        vstd::slice::slice_to_vec(self.as_slice())
    }

    fn decode(b: &[u8]) -> (r: Result<Vec<u8>, ScError>) {
        Ok(vstd::slice::slice_to_vec(b))
    }

    fn zero() -> (r: Vec<u8>) {
        let r: Vec<u8> = Vec::new();
        proof {
            assert(r@ =~= Seq::<u8>::empty());
        }
        r
    }
}

} // verus!
