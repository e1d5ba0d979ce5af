use vstd::prelude::*;
use crate::codec::{ScValue, bytes_eq};
use crate::error::ScError;

verus! {

/// Bytes in an agent identity's canonical encoding: an address followed by a
/// contract name-hash.
pub const AGENT_ID_SIZE: usize = 37;

/// Bytes in an address's canonical encoding.
pub const ADDRESS_SIZE: usize = 33;

/// Bytes in a request identifier's canonical encoding.
pub const REQUEST_ID_SIZE: usize = 34;

/// Bytes in a content hash's canonical encoding.
pub const HASH_SIZE: usize = 32;

/// Bytes in a token color's canonical encoding.
pub const COLOR_SIZE: usize = 32;

/// Bytes in a chain identifier's canonical encoding.
pub const CHAIN_ID_SIZE: usize = 33;

/// Bytes in a name-hash's canonical encoding.
pub const HNAME_SIZE: usize = 4;

/// A zeroed byte sequence: the zero value of every identifier kind.
fn zero_bytes(n: usize) -> (r: Vec<u8>)
    ensures
        r@ == Seq::new(n as nat, |i: int| 0u8),
{
    let mut r: Vec<u8> = Vec::new();
    let mut i: usize = 0;
    while i < n
        invariant
            0 <= i <= n,
            r@.len() == i,
            forall|j: int| 0 <= j < i ==> r@[j] == 0u8,
        decreases n - i,
    {
        r.push(0u8);
        i += 1;
    }
    proof {
        assert(r@ =~= Seq::new(n as nat, |i: int| 0u8));
    }
    r
}

/// Accepts exactly the byte sequences of length `n` as identifier bytes.
fn decode_fixed(b: &[u8], n: usize) -> (r: Result<Vec<u8>, ScError>)
    ensures
        b@.len() == n ==> (r matches Ok(v) && v@ == b@),
        b@.len() != n ==> r == Err::<Vec<u8>, ScError>(ScError::DecodeError),
{
    if b.len() == n {
        Ok(vstd::slice::slice_to_vec(b))
    } else {
        Err(ScError::DecodeError)
    }
}

/// An opaque, equality-only identity: the agent a call runs on behalf of,
/// a contract's creator, a chain's owner, or a contract's own account.
pub struct ScAgentID {
    bytes: Vec<u8>,
}

impl View for ScAgentID {
    type V = Seq<u8>;

    closed spec fn view(&self) -> Seq<u8> {
        self.bytes@
    }
}

impl ScAgentID {
    /// Builds an identity from its canonical bytes.
    pub fn from_bytes(b: &[u8]) -> (r: Result<ScAgentID, ScError>)
        ensures
            b@.len() == AGENT_ID_SIZE ==> (r matches Ok(x) && x@ == b@),
            b@.len() != AGENT_ID_SIZE ==> r == Err::<ScAgentID, ScError>(ScError::DecodeError),
    {
        match decode_fixed(b, AGENT_ID_SIZE) {
            Ok(bytes) => Ok(ScAgentID { bytes }),
            Err(e) => Err(e),
        }
    }

    /// Identity comparison: equality of the canonical bytes, no ordering.
    pub fn equals(&self, other: &ScAgentID) -> (r: bool)
        ensures
            r == (self@ == other@),
    {
        bytes_eq(self.bytes.as_slice(), other.bytes.as_slice())
    }
}

impl ScValue for ScAgentID {
    open spec fn spec_encode(v: Seq<u8>) -> Seq<u8> {
        v
    }

    open spec fn spec_decode(b: Seq<u8>) -> Option<Seq<u8>> {
        if b.len() == AGENT_ID_SIZE {
            Some(b)
        } else {
            None
        }
    }

    open spec fn spec_zero() -> Seq<u8> {
        Seq::new(AGENT_ID_SIZE as nat, |i: int| 0u8)
    }

    open spec fn wf_view(v: Seq<u8>) -> bool {
        v.len() == AGENT_ID_SIZE
    }

    proof fn lemma_zero_wf() {
    }

    proof fn lemma_codec_round_trip(v: Seq<u8>) {
    }

    proof fn lemma_decode_wf(b: Seq<u8>) {
    }

    fn encode(&self) -> (r: Vec<u8>) {
        vstd::slice::slice_to_vec(self.bytes.as_slice())
    }

    fn decode(b: &[u8]) -> (r: Result<ScAgentID, ScError>) {
        match decode_fixed(b, AGENT_ID_SIZE) {
            Ok(bytes) => Ok(ScAgentID { bytes }),
            Err(e) => Err(e),
        }
    }

    fn zero() -> (r: ScAgentID) {
        ScAgentID { bytes: zero_bytes(AGENT_ID_SIZE) }
    }
}


/// Copies keep the identity's bytes.
impl Clone for ScAgentID {
    fn clone(&self) -> (res: Self)
        ensures
            res@ == self@,
    {
        ScAgentID { bytes: vstd::slice::slice_to_vec(self.bytes.as_slice()) }
    }
}

/// An on-ledger address.
pub struct ScAddress {
    bytes: Vec<u8>,
}

impl View for ScAddress {
    type V = Seq<u8>;

    closed spec fn view(&self) -> Seq<u8> {
        self.bytes@
    }
}

impl ScAddress {
    /// Builds an address from its canonical bytes.
    pub fn from_bytes(b: &[u8]) -> (r: Result<ScAddress, ScError>)
        ensures
            b@.len() == ADDRESS_SIZE ==> (r matches Ok(x) && x@ == b@),
            b@.len() != ADDRESS_SIZE ==> r == Err::<ScAddress, ScError>(ScError::DecodeError),
    {
        match decode_fixed(b, ADDRESS_SIZE) {
            Ok(bytes) => Ok(ScAddress { bytes }),
            Err(e) => Err(e),
        }
    }

    /// Equality of the canonical bytes.
    pub fn equals(&self, other: &ScAddress) -> (r: bool)
        ensures
            r == (self@ == other@),
    {
        bytes_eq(self.bytes.as_slice(), other.bytes.as_slice())
    }
}

impl ScValue for ScAddress {
    open spec fn spec_encode(v: Seq<u8>) -> Seq<u8> {
        v
    }

    open spec fn spec_decode(b: Seq<u8>) -> Option<Seq<u8>> {
        if b.len() == ADDRESS_SIZE {
            Some(b)
        } else {
            None
        }
    }

    open spec fn spec_zero() -> Seq<u8> {
        Seq::new(ADDRESS_SIZE as nat, |i: int| 0u8)
    }

    open spec fn wf_view(v: Seq<u8>) -> bool {
        v.len() == ADDRESS_SIZE
    }

    proof fn lemma_zero_wf() {
    }

    proof fn lemma_codec_round_trip(v: Seq<u8>) {
    }

    proof fn lemma_decode_wf(b: Seq<u8>) {
    }

    fn encode(&self) -> (r: Vec<u8>) {
        vstd::slice::slice_to_vec(self.bytes.as_slice())
    }

    fn decode(b: &[u8]) -> (r: Result<ScAddress, ScError>) {
        match decode_fixed(b, ADDRESS_SIZE) {
            Ok(bytes) => Ok(ScAddress { bytes }),
            Err(e) => Err(e),
        }
    }

    fn zero() -> (r: ScAddress) {
        ScAddress { bytes: zero_bytes(ADDRESS_SIZE) }
    }
}

/// The identifier of one request handled by a chain.
pub struct ScRequestID {
    bytes: Vec<u8>,
}

impl View for ScRequestID {
    type V = Seq<u8>;

    closed spec fn view(&self) -> Seq<u8> {
        self.bytes@
    }
}

impl ScRequestID {
    /// Builds a request identifier from its canonical bytes.
    pub fn from_bytes(b: &[u8]) -> (r: Result<ScRequestID, ScError>)
        ensures
            b@.len() == REQUEST_ID_SIZE ==> (r matches Ok(x) && x@ == b@),
            b@.len() != REQUEST_ID_SIZE ==> r == Err::<ScRequestID, ScError>(ScError::DecodeError),
    {
        match decode_fixed(b, REQUEST_ID_SIZE) {
            Ok(bytes) => Ok(ScRequestID { bytes }),
            Err(e) => Err(e),
        }
    }

    /// Equality of the canonical bytes.
    pub fn equals(&self, other: &ScRequestID) -> (r: bool)
        ensures
            r == (self@ == other@),
    {
        bytes_eq(self.bytes.as_slice(), other.bytes.as_slice())
    }
}

impl ScValue for ScRequestID {
    open spec fn spec_encode(v: Seq<u8>) -> Seq<u8> {
        v
    }

    open spec fn spec_decode(b: Seq<u8>) -> Option<Seq<u8>> {
        if b.len() == REQUEST_ID_SIZE {
            Some(b)
        } else {
            None
        }
    }

    open spec fn spec_zero() -> Seq<u8> {
        Seq::new(REQUEST_ID_SIZE as nat, |i: int| 0u8)
    }

    open spec fn wf_view(v: Seq<u8>) -> bool {
        v.len() == REQUEST_ID_SIZE
    }

    proof fn lemma_zero_wf() {
    }

    proof fn lemma_codec_round_trip(v: Seq<u8>) {
    }

    proof fn lemma_decode_wf(b: Seq<u8>) {
    }

    fn encode(&self) -> (r: Vec<u8>) {
        vstd::slice::slice_to_vec(self.bytes.as_slice())
    }

    fn decode(b: &[u8]) -> (r: Result<ScRequestID, ScError>) {
        match decode_fixed(b, REQUEST_ID_SIZE) {
            Ok(bytes) => Ok(ScRequestID { bytes }),
            Err(e) => Err(e),
        }
    }

    fn zero() -> (r: ScRequestID) {
        ScRequestID { bytes: zero_bytes(REQUEST_ID_SIZE) }
    }
}

/// A content hash.
pub struct ScHash {
    bytes: Vec<u8>,
}

impl View for ScHash {
    type V = Seq<u8>;

    closed spec fn view(&self) -> Seq<u8> {
        self.bytes@
    }
}

impl ScHash {
    /// Builds a hash from its canonical bytes.
    pub fn from_bytes(b: &[u8]) -> (r: Result<ScHash, ScError>)
        ensures
            b@.len() == HASH_SIZE ==> (r matches Ok(x) && x@ == b@),
            b@.len() != HASH_SIZE ==> r == Err::<ScHash, ScError>(ScError::DecodeError),
    {
        match decode_fixed(b, HASH_SIZE) {
            Ok(bytes) => Ok(ScHash { bytes }),
            Err(e) => Err(e),
        }
    }

    /// Equality of the canonical bytes.
    pub fn equals(&self, other: &ScHash) -> (r: bool)
        ensures
            r == (self@ == other@),
    {
        bytes_eq(self.bytes.as_slice(), other.bytes.as_slice())
    }
}

impl ScValue for ScHash {
    open spec fn spec_encode(v: Seq<u8>) -> Seq<u8> {
        v
    }

    open spec fn spec_decode(b: Seq<u8>) -> Option<Seq<u8>> {
        if b.len() == HASH_SIZE {
            Some(b)
        } else {
            None
        }
    }

    open spec fn spec_zero() -> Seq<u8> {
        Seq::new(HASH_SIZE as nat, |i: int| 0u8)
    }

    open spec fn wf_view(v: Seq<u8>) -> bool {
        v.len() == HASH_SIZE
    }

    proof fn lemma_zero_wf() {
    }

    proof fn lemma_codec_round_trip(v: Seq<u8>) {
    }

    proof fn lemma_decode_wf(b: Seq<u8>) {
    }

    fn encode(&self) -> (r: Vec<u8>) {
        vstd::slice::slice_to_vec(self.bytes.as_slice())
    }

    fn decode(b: &[u8]) -> (r: Result<ScHash, ScError>) {
        match decode_fixed(b, HASH_SIZE) {
            Ok(bytes) => Ok(ScHash { bytes }),
            Err(e) => Err(e),
        }
    }

    fn zero() -> (r: ScHash) {
        ScHash { bytes: zero_bytes(HASH_SIZE) }
    }
}

/// A token color: which token kind a balance is counted in.
pub struct ScColor {
    bytes: Vec<u8>,
}

impl View for ScColor {
    type V = Seq<u8>;

    closed spec fn view(&self) -> Seq<u8> {
        self.bytes@
    }
}

impl ScColor {
    /// Builds a color from its canonical bytes.
    pub fn from_bytes(b: &[u8]) -> (r: Result<ScColor, ScError>)
        ensures
            b@.len() == COLOR_SIZE ==> (r matches Ok(x) && x@ == b@),
            b@.len() != COLOR_SIZE ==> r == Err::<ScColor, ScError>(ScError::DecodeError),
    {
        match decode_fixed(b, COLOR_SIZE) {
            Ok(bytes) => Ok(ScColor { bytes }),
            Err(e) => Err(e),
        }
    }

    /// Equality of the canonical bytes.
    pub fn equals(&self, other: &ScColor) -> (r: bool)
        ensures
            r == (self@ == other@),
    {
        bytes_eq(self.bytes.as_slice(), other.bytes.as_slice())
    }
}

impl ScValue for ScColor {
    open spec fn spec_encode(v: Seq<u8>) -> Seq<u8> {
        v
    }

    open spec fn spec_decode(b: Seq<u8>) -> Option<Seq<u8>> {
        if b.len() == COLOR_SIZE {
            Some(b)
        } else {
            None
        }
    }

    open spec fn spec_zero() -> Seq<u8> {
        Seq::new(COLOR_SIZE as nat, |i: int| 0u8)
    }

    open spec fn wf_view(v: Seq<u8>) -> bool {
        v.len() == COLOR_SIZE
    }

    proof fn lemma_zero_wf() {
    }

    proof fn lemma_codec_round_trip(v: Seq<u8>) {
    }

    proof fn lemma_decode_wf(b: Seq<u8>) {
    }

    fn encode(&self) -> (r: Vec<u8>) {
        vstd::slice::slice_to_vec(self.bytes.as_slice())
    }

    fn decode(b: &[u8]) -> (r: Result<ScColor, ScError>) {
        match decode_fixed(b, COLOR_SIZE) {
            Ok(bytes) => Ok(ScColor { bytes }),
            Err(e) => Err(e),
        }
    }

    fn zero() -> (r: ScColor) {
        ScColor { bytes: zero_bytes(COLOR_SIZE) }
    }
}


/// Copies keep the color's bytes.
impl Clone for ScColor {
    fn clone(&self) -> (res: Self)
        ensures
            res@ == self@,
    {
        ScColor { bytes: vstd::slice::slice_to_vec(self.bytes.as_slice()) }
    }
}

/// The identifier of a chain.
pub struct ScChainID {
    bytes: Vec<u8>,
}

impl View for ScChainID {
    type V = Seq<u8>;

    closed spec fn view(&self) -> Seq<u8> {
        self.bytes@
    }
}

impl ScChainID {
    /// Builds a chain identifier from its canonical bytes.
    pub fn from_bytes(b: &[u8]) -> (r: Result<ScChainID, ScError>)
        ensures
            b@.len() == CHAIN_ID_SIZE ==> (r matches Ok(x) && x@ == b@),
            b@.len() != CHAIN_ID_SIZE ==> r == Err::<ScChainID, ScError>(ScError::DecodeError),
    {
        match decode_fixed(b, CHAIN_ID_SIZE) {
            Ok(bytes) => Ok(ScChainID { bytes }),
            Err(e) => Err(e),
        }
    }

    /// Equality of the canonical bytes.
    pub fn equals(&self, other: &ScChainID) -> (r: bool)
        ensures
            r == (self@ == other@),
    {
        bytes_eq(self.bytes.as_slice(), other.bytes.as_slice())
    }
}

impl ScValue for ScChainID {
    open spec fn spec_encode(v: Seq<u8>) -> Seq<u8> {
        v
    }

    open spec fn spec_decode(b: Seq<u8>) -> Option<Seq<u8>> {
        if b.len() == CHAIN_ID_SIZE {
            Some(b)
        } else {
            None
        }
    }

    open spec fn spec_zero() -> Seq<u8> {
        Seq::new(CHAIN_ID_SIZE as nat, |i: int| 0u8)
    }

    open spec fn wf_view(v: Seq<u8>) -> bool {
        v.len() == CHAIN_ID_SIZE
    }

    proof fn lemma_zero_wf() {
    }

    proof fn lemma_codec_round_trip(v: Seq<u8>) {
    }

    proof fn lemma_decode_wf(b: Seq<u8>) {
    }

    fn encode(&self) -> (r: Vec<u8>) {
        vstd::slice::slice_to_vec(self.bytes.as_slice())
    }

    fn decode(b: &[u8]) -> (r: Result<ScChainID, ScError>) {
        match decode_fixed(b, CHAIN_ID_SIZE) {
            Ok(bytes) => Ok(ScChainID { bytes }),
            Err(e) => Err(e),
        }
    }

    fn zero() -> (r: ScChainID) {
        ScChainID { bytes: zero_bytes(CHAIN_ID_SIZE) }
    }
}

/// A name-hash: the fixed-width identifier a contract or entry-point name is
/// hashed to. Computing the hash of a name is the build tooling's business;
/// the core only carries and compares the resulting identifier.
#[derive(Clone, Copy)]
pub struct ScHname(pub u32);

impl View for ScHname {
    type V = u32;

    open spec fn view(&self) -> u32 {
        self.0
    }
}

impl ScHname {
    /// Equality of the underlying identifier.
    pub fn equals(&self, other: &ScHname) -> (r: bool)
        ensures
            r == (self@ == other@),
    {
        self.0 == other.0
    }
}

impl ScValue for ScHname {
    open spec fn spec_encode(v: u32) -> Seq<u8> {
        vstd::bytes::spec_u32_to_le_bytes(v)
    }

    open spec fn spec_decode(b: Seq<u8>) -> Option<u32> {
        if b.len() == HNAME_SIZE {
            Some(vstd::bytes::spec_u32_from_le_bytes(b))
        } else {
            None
        }
    }

    open spec fn spec_zero() -> u32 {
        0
    }

    open spec fn wf_view(v: u32) -> bool {
        true
    }

    proof fn lemma_zero_wf() {
    }

    proof fn lemma_codec_round_trip(v: u32) {
        vstd::bytes::lemma_auto_spec_u32_to_from_le_bytes();
    }

    proof fn lemma_decode_wf(b: Seq<u8>) {
    }

    fn encode(&self) -> (r: Vec<u8>) {
        vstd::bytes::u32_to_le_bytes(self.0)
    }

    fn decode(b: &[u8]) -> (r: Result<ScHname, ScError>) {
        if b.len() == HNAME_SIZE {
            Ok(ScHname(vstd::bytes::u32_from_le_bytes(b)))
        } else {
            Err(ScError::DecodeError)
        }
    }

    fn zero() -> (r: ScHname) {
        ScHname(0)
    }
}

} // verus!
