//! Commitments: opaque roots, prefixes and proof bytes, the canonical
//! commitment key of a store path, and the packet / acknowledgement
//! commitment hashes.

use vstd::prelude::*;

use sha2::{Digest, Sha256};

use crate::height::Height;
use crate::path::{key_string, path_key, Path};
use crate::timestamp::Timestamp;

verus! {

/// The Merkle root a chain publishes at a given height.
#[derive(Debug, PartialEq, Eq, Hash)]
pub struct CommitmentRoot {
    pub bytes: Vec<u8>,
}

impl Clone for CommitmentRoot {
    fn clone(&self) -> (r: Self)
        ensures
            r.bytes@ == self.bytes@,
    {
        CommitmentRoot { bytes: self.bytes.clone() }
    }
}

impl View for CommitmentRoot {
    type V = Seq<u8>;

    open spec fn view(&self) -> Seq<u8> {
        self.bytes@
    }
}

impl CommitmentRoot {
    pub fn from_bytes(bytes: &[u8]) -> (r: CommitmentRoot)
        ensures
            r@ == bytes@,
    {
        CommitmentRoot { bytes: vstd::slice::slice_to_vec(bytes) }
    }

    pub fn from_vec(bytes: Vec<u8>) -> (r: CommitmentRoot)
        ensures
            r@ == bytes@,
    {
        CommitmentRoot { bytes }
    }

    pub fn into_vec(self) -> (r: Vec<u8>)
        ensures
            r@ == self@,
    {
        self.bytes
    }

    pub fn as_bytes(&self) -> (r: &[u8])
        ensures
            r@ == self@,
    {
        self.bytes.as_slice()
    }
}

/// The key prefix under which a chain stores its protocol state,
/// conventionally `ibc`.
#[derive(Debug, PartialEq, Eq, Hash)]
pub struct CommitmentPrefix {
    pub bytes: Vec<u8>,
}

impl Clone for CommitmentPrefix {
    fn clone(&self) -> (r: Self)
        ensures
            r.bytes@ == self.bytes@,
    {
        CommitmentPrefix { bytes: self.bytes.clone() }
    }
}

impl View for CommitmentPrefix {
    type V = Seq<u8>;

    open spec fn view(&self) -> Seq<u8> {
        self.bytes@
    }
}

impl CommitmentPrefix {
    pub fn from_bytes(bytes: &[u8]) -> (r: CommitmentPrefix)
        ensures
            r@ == bytes@,
    {
        CommitmentPrefix { bytes: vstd::slice::slice_to_vec(bytes) }
    }

    pub fn is_empty(&self) -> (r: bool)
        ensures
            r == (self@.len() == 0),
    {
        self.bytes.len() == 0
    }
}

/// Serialized Merkle-proof bytes. The proof itself is opaque to the core;
/// only emptiness is checked, on construction.
#[derive(Debug, PartialEq, Eq, Hash)]
pub struct CommitmentProofBytes {
    pub bytes: Vec<u8>,
}

impl Clone for CommitmentProofBytes {
    fn clone(&self) -> (r: Self)
        ensures
            r.bytes@ == self.bytes@,
    {
        CommitmentProofBytes { bytes: self.bytes.clone() }
    }
}

impl View for CommitmentProofBytes {
    type V = Seq<u8>;

    open spec fn view(&self) -> Seq<u8> {
        self.bytes@
    }
}

impl CommitmentProofBytes {
    /// Proof bytes are never empty; an empty proof is rejected on arrival.
    pub open spec fn well_formed(&self) -> bool {
        self@.len() > 0
    }

    pub fn try_from_vec(bytes: Vec<u8>) -> (r: Option<CommitmentProofBytes>)
        ensures
            r is Some <==> bytes@.len() > 0,
            r matches Some(p) ==> p@ == bytes@ && p.well_formed(),
    {
        if bytes.len() == 0 {
            None
        } else {
            Some(CommitmentProofBytes { bytes })
        }
    }

    pub fn into_vec(self) -> (r: Vec<u8>)
        ensures
            r@ == self@,
    {
        self.bytes
    }
}

/// The key of an object in the commitment store.
#[derive(Debug, PartialEq, Eq, Hash)]
pub struct CommitmentPath {
    pub key: String,
}

impl Clone for CommitmentPath {
    fn clone(&self) -> (r: Self)
        ensures
            r.key@ == self.key@,
    {
        CommitmentPath { key: self.key.clone() }
    }
}

impl View for CommitmentPath {
    type V = Seq<char>;

    open spec fn view(&self) -> Seq<char> {
        self.key@
    }
}

impl CommitmentPath {
    /// The commitment-store key of a typed path: its canonical rendering.
    pub fn from_path(p: &Path) -> (r: CommitmentPath)
        ensures
            r@ == path_key(*p),
    {
        CommitmentPath { key: key_string(p) }
    }

    pub fn as_str(&self) -> (r: &str)
        ensures
            r@ == self@,
    {
        self.key.as_str()
    }
}

/// The SHA-256 digest of a byte string; 32 bytes, a function of the input
/// alone.
pub uninterp spec fn sha256_of(data: Seq<u8>) -> Seq<u8>;

/// Relies on sha2's SHA-256 implementation: the digest is 32 bytes and
/// depends on the input bytes alone.
#[verifier::external_body]
pub(crate) fn sha256(data: &[u8]) -> (r: Vec<u8>)
    ensures
        r@ == sha256_of(data@),
        r@.len() == 32,
{
    Sha256::digest(data).to_vec()
}

/// The 8 big-endian bytes of a `u64`.
pub open spec fn u64_be(n: u64) -> Seq<u8> {
    seq![
        (n >> 56) as u8,
        (n >> 48) as u8,
        (n >> 40) as u8,
        (n >> 32) as u8,
        (n >> 24) as u8,
        (n >> 16) as u8,
        (n >> 8) as u8,
        n as u8,
    ]
}

pub fn u64_be_bytes(n: u64) -> (r: Vec<u8>)
    ensures
        r@ == u64_be(n),
{
    let mut v: Vec<u8> = Vec::new();
    v.push((n >> 56) as u8);
    v.push((n >> 48) as u8);
    v.push((n >> 40) as u8);
    v.push((n >> 32) as u8);
    v.push((n >> 24) as u8);
    v.push((n >> 16) as u8);
    v.push((n >> 8) as u8);
    v.push(n as u8);
    proof {
        assert(v@ =~= u64_be(n));
    }
    v
}

/// The height encoded into a packet commitment: an unset timeout height
/// counts as zero.
pub open spec fn commitment_height(timeout_height: Option<Height>) -> (u64, u64) {
    match timeout_height {
        Some(h) => (h.revision_number, h.revision_height),
        None => (0, 0),
    }
}

/// What the sender stores to authenticate a packet later:
/// `sha256(timeout_timestamp_be || timeout_height_be || sha256(data))`.
pub open spec fn packet_commitment_spec(
    data: Seq<u8>,
    timeout_height: Option<Height>,
    timeout_timestamp: Timestamp,
) -> Seq<u8> {
    let (rev_n, rev_h) = commitment_height(timeout_height);
    sha256_of(u64_be(timeout_timestamp.nanos) + u64_be(rev_n) + u64_be(rev_h) + sha256_of(data))
}

/// Computes the packet commitment hash.
pub fn compute_packet_commitment(
    data: &[u8],
    timeout_height: &Option<Height>,
    timeout_timestamp: &Timestamp,
) -> (r: Vec<u8>)
    ensures
        r@ == packet_commitment_spec(data@, *timeout_height, *timeout_timestamp),
        r@.len() == 32,
{
    let (rev_n, rev_h): (u64, u64) = match timeout_height {
        Some(h) => (h.revision_number, h.revision_height),
        None => (0, 0),
    };
    let mut buf = u64_be_bytes(timeout_timestamp.nanoseconds());
    let mut rest = u64_be_bytes(rev_n);
    buf.append(&mut rest);
    let mut rest = u64_be_bytes(rev_h);
    buf.append(&mut rest);
    let mut data_hash = sha256(data);
    buf.append(&mut data_hash);
    proof {
        assert(buf@ =~= u64_be(timeout_timestamp.nanos) + u64_be(rev_n) + u64_be(rev_h)
            + sha256_of(data@));
    }
    sha256(buf.as_slice())
}

/// Compares two byte strings.
pub fn bytes_equal(a: &[u8], b: &[u8]) -> (r: bool)
    ensures
        r == (a@ == b@),
{
    if a.len() != b.len() {
        proof {
            assert(a@ != b@);
        }
        return false;
    }
    let n = a.len();
    let mut i: usize = 0;
    while i < n
        invariant
            i <= n,
            n == a@.len() == b@.len(),
            forall|j: int| 0 <= j < i ==> a@[j] == b@[j],
        decreases n - i,
    {
        if a[i] != b[i] {
            return false;
        }
        i += 1;
    }
    proof {
        assert(a@ =~= b@);
    }
    true
}

/// What the receiver stores for an acknowledgement: `sha256(ack_bytes)`.
pub open spec fn ack_commitment_spec(ack: Seq<u8>) -> Seq<u8> {
    sha256_of(ack)
}

/// Computes the acknowledgement commitment hash.
pub fn compute_ack_commitment(ack: &[u8]) -> (r: Vec<u8>)
    ensures
        r@ == ack_commitment_spec(ack@),
        r@.len() == 32,
{
    sha256(ack)
}

} // verus!
