//! The canonical header model: a raw commitment template, a detachable
//! proof-of-work seal, the immutable sealed header with its cached identity
//! hash, and the builder that is the only way to assemble one.

use crate::codec;
use crate::codec::{le_bytes_val, spec_u256_le, spec_u32_le, spec_u64_le};
use crate::digest::{zero_digest, H256};
use crate::error::Error;
use crate::hashes;
use crate::hashes::sha3_of;
use crate::u256::U256;
use vstd::prelude::*;

verus! {

broadcast use vstd::array::group_array_axioms;

/// Block height along a chain; the genesis block has number 0.
pub type BlockNumber = u64;

/// A detachable proof-of-work solution: a nonce plus opaque proof bytes.
#[derive(Clone, Debug, PartialEq, Eq)]
pub struct Seal {
    nonce: u64,
    proof_bytes: Vec<u8>,
}

#[verifier::ext_equal]
pub ghost struct SealView {
    pub nonce: u64,
    pub proof_bytes: Seq<u8>,
}

impl View for Seal {
    type V = SealView;

    closed spec fn view(&self) -> SealView {
        SealView { nonce: self.nonce, proof_bytes: self.proof_bytes@ }
    }
}

impl Seal {
    pub fn new(nonce: u64, proof_bytes: Vec<u8>) -> (r: Seal)
        ensures
            r@.nonce == nonce,
            r@.proof_bytes == proof_bytes@,
    {
        Seal { nonce, proof_bytes }
    }
}

/// The canonical, serializable commitment fields of a header, with no seal
/// attached.
#[derive(Clone, Debug, PartialEq, Eq)]
pub struct RawHeader {
    version: u32,
    parent_hash: H256,
    timestamp: u64,
    number: BlockNumber,
    txs_commit: H256,
    txs_proposal: H256,
    difficulty: U256,
    cellbase_id: H256,
    uncles_hash: H256,
    uncles_count: u32,
}

#[verifier::ext_equal]
pub ghost struct RawHeaderView {
    pub version: u32,
    pub parent_hash: Seq<u8>,
    pub timestamp: u64,
    pub number: BlockNumber,
    pub txs_commit: Seq<u8>,
    pub txs_proposal: Seq<u8>,
    pub difficulty: U256,
    pub cellbase_id: Seq<u8>,
    pub uncles_hash: Seq<u8>,
    pub uncles_count: u32,
}

impl View for RawHeader {
    type V = RawHeaderView;

    closed spec fn view(&self) -> RawHeaderView {
        RawHeaderView {
            version: self.version,
            parent_hash: self.parent_hash@,
            timestamp: self.timestamp,
            number: self.number,
            txs_commit: self.txs_commit@,
            txs_proposal: self.txs_proposal@,
            difficulty: self.difficulty,
            cellbase_id: self.cellbase_id@,
            uncles_hash: self.uncles_hash@,
            uncles_count: self.uncles_count,
        }
    }
}

impl RawHeaderView {
    /// Every digest field holds exactly 32 bytes.
    pub open spec fn wf(self) -> bool {
        self.parent_hash.len() == 32 && self.txs_commit.len() == 32 && self.txs_proposal.len()
            == 32 && self.cellbase_id.len() == 32 && self.uncles_hash.len() == 32
    }
}

/// The canonical bytes of the seal-independent commitment fields, in fixed
/// order and width; what the proof-of-work hash commits to.
pub open spec fn spec_encode_raw(r: RawHeaderView) -> Seq<u8> {
    spec_u32_le(r.version) + r.parent_hash + spec_u64_le(r.timestamp) + spec_u64_le(r.number)
        + r.txs_commit + r.txs_proposal + spec_u256_le(r.difficulty) + r.cellbase_id
        + r.uncles_hash + spec_u32_le(r.uncles_count)
}

/// The canonical bytes of a seal: nonce, proof length, proof bytes.
pub open spec fn spec_encode_seal(s: SealView) -> Seq<u8> {
    spec_u64_le(s.nonce) + spec_u64_le(s.proof_bytes.len() as u64) + s.proof_bytes
}

/// The canonical bytes of a full header: raw fields followed by the seal.
/// The cached identity hash is never encoded.
pub open spec fn spec_header_bytes(r: RawHeaderView, s: SealView) -> Seq<u8> {
    spec_encode_raw(r) + spec_encode_seal(s)
}

/// The proof-of-work hash: the digest of the raw commitment bytes alone,
/// reproducible from the raw header without any seal.
pub open spec fn spec_pow_hash(r: RawHeaderView) -> Seq<u8> {
    sha3_of(spec_encode_raw(r))
}

impl RawHeader {
    /// The canonical encoding of the seal-independent fields.
    pub fn canonical_bytes(&self) -> (v: Vec<u8>)
        ensures
            v@ == spec_encode_raw(self@),
    {
        let mut v: Vec<u8> = Vec::new();
        codec::push_u32_le(&mut v, self.version);
        codec::push_digest(&mut v, &self.parent_hash);
        codec::push_u64_le(&mut v, self.timestamp);
        codec::push_u64_le(&mut v, self.number);
        codec::push_digest(&mut v, &self.txs_commit);
        codec::push_digest(&mut v, &self.txs_proposal);
        codec::push_u64_le(&mut v, self.difficulty.l0);
        codec::push_u64_le(&mut v, self.difficulty.l1);
        codec::push_u64_le(&mut v, self.difficulty.l2);
        codec::push_u64_le(&mut v, self.difficulty.l3);
        codec::push_digest(&mut v, &self.cellbase_id);
        codec::push_digest(&mut v, &self.uncles_hash);
        codec::push_u32_le(&mut v, self.uncles_count);
        proof {
            assert(v@ =~= spec_encode_raw(self@));
        }
        v
    }

    /// The digest a miner must bring under the difficulty target; it depends
    /// on the raw commitment fields alone.
    pub fn pow_hash(&self) -> (r: H256)
        ensures
            r@ == spec_pow_hash(self@),
    {
        let bytes = self.canonical_bytes();
        hashes::sha3_digest(bytes.as_slice())
    }

    /// Binds a seal to this template and finalizes the header, computing the
    /// identity hash over the combined canonical bytes.
    pub fn with_seal(self, seal: Seal) -> (h: Header)
        ensures
            h@.raw == self@,
            h@.seal == seal@,
            h@.hash == sha3_of(spec_header_bytes(self@, seal@)),
            h@.wf(),
    {
        let builder = HeaderBuilder {
            inner: Header { raw: self, seal, hash: H256::zero() },
        };
        builder.build()
    }

    pub fn number(&self) -> (r: BlockNumber)
        ensures
            r == self@.number,
    {
        self.number
    }

    pub fn difficulty(&self) -> (r: U256)
        ensures
            r == self@.difficulty,
    {
        self.difficulty
    }

    pub fn uncles_count(&self) -> (r: u32)
        ensures
            r == self@.uncles_count,
    {
        self.uncles_count
    }

    /// Overwrites the uncle count on a still-unsealed template.
    pub fn set_uncles_count(&mut self, uncles_count: u32)
        ensures
            final(self)@ == (RawHeaderView { uncles_count, ..old(self)@ }),
    {
        self.uncles_count = uncles_count;
    }
}

/// An immutable, finalized header: raw fields, seal, and the cached identity
/// hash computed when it was built.
#[derive(Clone, Debug, PartialEq, Eq)]
pub struct Header {
    raw: RawHeader,
    seal: Seal,
    hash: H256,
}

#[verifier::ext_equal]
pub ghost struct HeaderView {
    pub raw: RawHeaderView,
    pub seal: SealView,
    pub hash: Seq<u8>,
}

impl View for Header {
    type V = HeaderView;

    closed spec fn view(&self) -> HeaderView {
        HeaderView { raw: self.raw@, seal: self.seal@, hash: self.hash@ }
    }
}

impl HeaderView {
    /// A header is well formed when its digest fields have their canonical
    /// width, its proof length is encodable, and its cached identity hash is
    /// the digest of its canonical bytes.
    pub open spec fn wf(self) -> bool {
        self.raw.wf() && self.seal.proof_bytes.len() < 0x10000000000000000
            && self.hash == sha3_of(spec_header_bytes(self.raw, self.seal))
    }
}

/// What finalizing a draft produces: the same raw fields and seal, and the
/// identity hash recomputed over their canonical bytes.
pub open spec fn spec_built(v: HeaderView) -> HeaderView {
    HeaderView { raw: v.raw, seal: v.seal, hash: sha3_of(spec_header_bytes(v.raw, v.seal)) }
}

impl Header {
    pub fn version(&self) -> (r: u32)
        ensures
            r == self@.raw.version,
    {
        self.raw.version
    }

    pub fn number(&self) -> (r: BlockNumber)
        ensures
            r == self@.raw.number,
    {
        self.raw.number
    }

    pub fn difficulty(&self) -> (r: U256)
        ensures
            r == self@.raw.difficulty,
    {
        self.raw.difficulty
    }

    pub fn timestamp(&self) -> (r: u64)
        ensures
            r == self@.raw.timestamp,
    {
        self.raw.timestamp
    }

    pub fn proof_bytes(&self) -> (r: &[u8])
        ensures
            r@ == self@.seal.proof_bytes,
    {
        self.seal.proof_bytes.as_slice()
    }

    pub fn nonce(&self) -> (r: u64)
        ensures
            r == self@.seal.nonce,
    {
        self.seal.nonce
    }

    /// The cached identity hash, exactly as it was set when the header was
    /// built or reconstructed.
    pub fn hash(&self) -> (r: H256)
        ensures
            r@ == self@.hash,
    {
        self.hash
    }

    /// The proof-of-work hash, recomputed from the raw fields; equal for any
    /// two headers that share a raw header, whatever their seals.
    pub fn pow_hash(&self) -> (r: H256)
        ensures
            r@ == spec_pow_hash(self@.raw),
    {
        self.raw.pow_hash()
    }

    /// A header is the genesis header exactly when its number is zero.
    pub fn is_genesis(&self) -> (r: bool)
        ensures
            r == (self@.raw.number == 0),
    {
        self.raw.number == 0
    }

    pub fn parent_hash(&self) -> (r: H256)
        ensures
            r@ == self@.raw.parent_hash,
    {
        self.raw.parent_hash
    }

    pub fn txs_commit(&self) -> (r: H256)
        ensures
            r@ == self@.raw.txs_commit,
    {
        self.raw.txs_commit
    }

    pub fn txs_proposal(&self) -> (r: H256)
        ensures
            r@ == self@.raw.txs_proposal,
    {
        self.raw.txs_proposal
    }

    pub fn cellbase_id(&self) -> (r: H256)
        ensures
            r@ == self@.raw.cellbase_id,
    {
        self.raw.cellbase_id
    }

    pub fn uncles_hash(&self) -> (r: H256)
        ensures
            r@ == self@.raw.uncles_hash,
    {
        self.raw.uncles_hash
    }

    pub fn into_raw(self) -> (r: RawHeader)
        ensures
            r@ == self@.raw,
    {
        self.raw
    }

    pub fn uncles_count(&self) -> (r: u32)
        ensures
            r == self@.raw.uncles_count,
    {
        self.raw.uncles_count
    }

    /// The canonical encoding of this header: raw fields, then the seal. The
    /// cached hash is not part of the encoding.
    pub fn canonical_bytes(&self) -> (v: Vec<u8>)
        ensures
            v@ == spec_header_bytes(self@.raw, self@.seal),
    {
        let mut v = self.raw.canonical_bytes();
        codec::push_u64_le(&mut v, self.seal.nonce);
        let plen: u64 = self.seal.proof_bytes.len() as u64;
        codec::push_u64_le(&mut v, plen);
        codec::push_bytes(&mut v, self.seal.proof_bytes.as_slice());
        proof {
            assert(v@ =~= spec_header_bytes(self@.raw, self@.seal));
        }
        v
    }
}

/// The mutable construction-time draft of a header, owned by the caller and
/// finalized exactly once.
pub struct HeaderBuilder {
    inner: Header,
}

impl View for HeaderBuilder {
    type V = HeaderView;

    closed spec fn view(&self) -> HeaderView {
        self.inner@
    }
}

/// Decodes canonical header bytes. `None` when the bytes do not match the
/// canonical layout: too short for the fixed fields, or a proof-length field
/// that disagrees with the bytes actually present.
pub open spec fn spec_decode_header(s: Seq<u8>) -> Option<HeaderView> {
    if s.len() >= 232 && le_bytes_val(s.subrange(224, 232)) == s.len() - 232 {
        Some(
            HeaderView {
                raw: RawHeaderView {
                    version: le_bytes_val(s.subrange(0, 4)) as u32,
                    parent_hash: s.subrange(4, 36),
                    timestamp: le_bytes_val(s.subrange(36, 44)) as u64,
                    number: le_bytes_val(s.subrange(44, 52)) as u64,
                    txs_commit: s.subrange(52, 84),
                    txs_proposal: s.subrange(84, 116),
                    difficulty: U256 {
                        l0: le_bytes_val(s.subrange(116, 124)) as u64,
                        l1: le_bytes_val(s.subrange(124, 132)) as u64,
                        l2: le_bytes_val(s.subrange(132, 140)) as u64,
                        l3: le_bytes_val(s.subrange(140, 148)) as u64,
                    },
                    cellbase_id: s.subrange(148, 180),
                    uncles_hash: s.subrange(180, 212),
                    uncles_count: le_bytes_val(s.subrange(212, 216)) as u32,
                },
                seal: SealView {
                    nonce: le_bytes_val(s.subrange(216, 224)) as u64,
                    proof_bytes: s.subrange(232, s.len() as int),
                },
                hash: zero_digest(),
            },
        )
    } else {
        None
    }
}

impl HeaderBuilder {
    /// Deserializes canonical header bytes into a draft; the cached hash of
    /// the draft is zero until `build` recomputes it.
    pub fn new(bytes: &[u8]) -> (r: Result<HeaderBuilder, Error>)
        ensures
            (r is Ok) == (spec_decode_header(bytes@) is Some),
            (r matches Ok(b) ==> spec_decode_header(bytes@) == Some(b@)),
            (r matches Err(e) ==> e == Error::DeserializationError),
    {
        let n: usize = bytes.len();
        if n < 232 {
            return Err(Error::DeserializationError);
        }
        let declared: u64 = codec::read_u64_le(bytes, 224);
        if declared != (n - 232) as u64 {
            return Err(Error::DeserializationError);
        }
        let version: u32 = codec::read_u32_le(bytes, 0);
        let parent_hash = H256::from_bytes_at(bytes, 4);
        let timestamp: u64 = codec::read_u64_le(bytes, 36);
        let number: u64 = codec::read_u64_le(bytes, 44);
        let txs_commit = H256::from_bytes_at(bytes, 52);
        let txs_proposal = H256::from_bytes_at(bytes, 84);
        let difficulty = U256 {
            l0: codec::read_u64_le(bytes, 116),
            l1: codec::read_u64_le(bytes, 124),
            l2: codec::read_u64_le(bytes, 132),
            l3: codec::read_u64_le(bytes, 140),
        };
        let cellbase_id = H256::from_bytes_at(bytes, 148);
        let uncles_hash = H256::from_bytes_at(bytes, 180);
        let uncles_count: u32 = codec::read_u32_le(bytes, 212);
        let nonce: u64 = codec::read_u64_le(bytes, 216);
        let mut proof_bytes: Vec<u8> = Vec::new();
        let mut i: usize = 232;
        while i < n
            invariant
                232 <= i <= n == bytes@.len(),
                proof_bytes@ == bytes@.subrange(232, i as int),
            decreases n - i,
        {
            proof_bytes.push(bytes[i]);
            proof {
                assert(proof_bytes@ =~= bytes@.subrange(232, i + 1));
            }
            i = i + 1;
        }
        let header = Header {
            raw: RawHeader {
                version,
                parent_hash,
                timestamp,
                number,
                txs_commit,
                txs_proposal,
                difficulty,
                cellbase_id,
                uncles_hash,
                uncles_count,
            },
            seal: Seal { nonce, proof_bytes },
            hash: H256::zero(),
        };
        proof {
            assert(spec_decode_header(bytes@) =~~= Some(header@));
        }
        Ok(HeaderBuilder { inner: header })
    }

    /// Replaces the whole draft with an existing header.
    pub fn header(self, header: Header) -> (r: HeaderBuilder)
        ensures
            r@ == header@,
    {
        HeaderBuilder { inner: header }
    }

    pub fn version(self, version: u32) -> (r: HeaderBuilder)
        ensures
            r@ == (HeaderView { raw: RawHeaderView { version, ..self@.raw }, ..self@ }),
    {
        let mut inner = self.inner;
        inner.raw.version = version;
        HeaderBuilder { inner }
    }

    pub fn number(self, number: BlockNumber) -> (r: HeaderBuilder)
        ensures
            r@ == (HeaderView { raw: RawHeaderView { number, ..self@.raw }, ..self@ }),
    {
        let mut inner = self.inner;
        inner.raw.number = number;
        HeaderBuilder { inner }
    }

    pub fn difficulty(self, difficulty: &U256) -> (r: HeaderBuilder)
        ensures
            r@ == (HeaderView {
                raw: RawHeaderView { difficulty: *difficulty, ..self@.raw },
                ..self@
            }),
    {
        let mut inner = self.inner;
        inner.raw.difficulty = *difficulty;
        HeaderBuilder { inner }
    }

    pub fn timestamp(self, timestamp: u64) -> (r: HeaderBuilder)
        ensures
            r@ == (HeaderView { raw: RawHeaderView { timestamp, ..self@.raw }, ..self@ }),
    {
        let mut inner = self.inner;
        inner.raw.timestamp = timestamp;
        HeaderBuilder { inner }
    }

    pub fn proof_bytes(self, proof_bytes: Vec<u8>) -> (r: HeaderBuilder)
        ensures
            r@ == (HeaderView {
                seal: SealView { proof_bytes: proof_bytes@, ..self@.seal },
                ..self@
            }),
    {
        let mut inner = self.inner;
        inner.seal.proof_bytes = proof_bytes;
        HeaderBuilder { inner }
    }

    pub fn nonce(self, nonce: u64) -> (r: HeaderBuilder)
        ensures
            r@ == (HeaderView { seal: SealView { nonce, ..self@.seal }, ..self@ }),
    {
        let mut inner = self.inner;
        inner.seal.nonce = nonce;
        HeaderBuilder { inner }
    }

    pub fn parent_hash(self, hash: &H256) -> (r: HeaderBuilder)
        ensures
            r@ == (HeaderView { raw: RawHeaderView { parent_hash: hash@, ..self@.raw }, ..self@ }),
    {
        let mut inner = self.inner;
        inner.raw.parent_hash = *hash;
        HeaderBuilder { inner }
    }

    pub fn txs_commit(self, hash: &H256) -> (r: HeaderBuilder)
        ensures
            r@ == (HeaderView { raw: RawHeaderView { txs_commit: hash@, ..self@.raw }, ..self@ }),
    {
        let mut inner = self.inner;
        inner.raw.txs_commit = *hash;
        HeaderBuilder { inner }
    }

    pub fn txs_proposal(self, hash: &H256) -> (r: HeaderBuilder)
        ensures
            r@ == (HeaderView { raw: RawHeaderView { txs_proposal: hash@, ..self@.raw }, ..self@ }),
    {
        let mut inner = self.inner;
        inner.raw.txs_proposal = *hash;
        HeaderBuilder { inner }
    }

    pub fn cellbase_id(self, hash: &H256) -> (r: HeaderBuilder)
        ensures
            r@ == (HeaderView { raw: RawHeaderView { cellbase_id: hash@, ..self@.raw }, ..self@ }),
    {
        let mut inner = self.inner;
        inner.raw.cellbase_id = *hash;
        HeaderBuilder { inner }
    }

    pub fn uncles_hash(self, hash: &H256) -> (r: HeaderBuilder)
        ensures
            r@ == (HeaderView { raw: RawHeaderView { uncles_hash: hash@, ..self@.raw }, ..self@ }),
    {
        let mut inner = self.inner;
        inner.raw.uncles_hash = *hash;
        HeaderBuilder { inner }
    }

    pub fn uncles_count(self, uncles_count: u32) -> (r: HeaderBuilder)
        ensures
            r@ == (HeaderView { raw: RawHeaderView { uncles_count, ..self@.raw }, ..self@ }),
    {
        let mut inner = self.inner;
        inner.raw.uncles_count = uncles_count;
        HeaderBuilder { inner }
    }

    /// Finalizes the draft: hashes its canonical bytes and returns the
    /// immutable header carrying that identity hash.
    #[verifier::rlimit(100)]
    pub fn build(self) -> (h: Header)
        ensures
            h@ == spec_built(self@),
            h@.wf(),
    {
        let bytes = self.inner.canonical_bytes();
        let hash = hashes::sha3_digest(bytes.as_slice());
        let ghost before = self@;
        let h = self.with_hash(&hash);
        proof {
            assert(h@.raw.parent_hash.len() == 32);
            assert(h@.raw.txs_commit.len() == 32);
            assert(h@.raw.txs_proposal.len() == 32);
            assert(h@.raw.cellbase_id.len() == 32);
            assert(h@.raw.uncles_hash.len() == 32);
            vstd::std_specs::vec::axiom_spec_len(&h.seal.proof_bytes);
            assert(h@.seal.proof_bytes.len() < 0x10000000000000000);
            assert(h@.hash == sha3_of(spec_header_bytes(before.raw, before.seal)));
            assert(h@ =~= spec_built(before));
        }
        h
    }

    /// Sets the cached hash directly, without recomputation: an escape for
    /// trusted reconstruction from a store that already validated the hash.
    /// Used on unverified bytes it breaks the tamper-evidence guarantee.
    pub fn with_hash(self, hash: &H256) -> (h: Header)
        ensures
            h@.raw == self@.raw,
            h@.seal == self@.seal,
            h@.hash == hash@,
    {
        let mut header = self.inner;
        header.hash = *hash;
        header
    }
}

impl Default for Seal {
    /// A seal with nonce zero and no proof bytes.
    fn default() -> (r: Seal)
        ensures
            r@.nonce == 0,
            r@.proof_bytes == Seq::<u8>::empty(),
    {
        Seal { nonce: 0, proof_bytes: Vec::new() }
    }
}

/// The all-zero raw header view: what a defaulted draft starts from.
pub open spec fn spec_zero_raw() -> RawHeaderView {
    RawHeaderView {
        version: 0,
        parent_hash: zero_digest(),
        timestamp: 0,
        number: 0,
        txs_commit: zero_digest(),
        txs_proposal: zero_digest(),
        difficulty: U256 { l0: 0, l1: 0, l2: 0, l3: 0 },
        cellbase_id: zero_digest(),
        uncles_hash: zero_digest(),
        uncles_count: 0,
    }
}

impl Default for RawHeader {
    /// A raw header with every field zero.
    fn default() -> (r: RawHeader)
        ensures
            r@ == spec_zero_raw(),
    {
        let r = RawHeader {
            version: 0,
            parent_hash: H256::zero(),
            timestamp: 0,
            number: 0,
            txs_commit: H256::zero(),
            txs_proposal: H256::zero(),
            difficulty: U256::zero(),
            cellbase_id: H256::zero(),
            uncles_hash: H256::zero(),
            uncles_count: 0,
        };
        proof {
            assert(r@ =~= spec_zero_raw());
        }
        r
    }
}

impl Default for Header {
    /// An unsealed all-zero header with a zero cached hash.
    fn default() -> (r: Header)
        ensures
            r@.raw == spec_zero_raw(),
            r@.seal.nonce == 0,
            r@.seal.proof_bytes == Seq::<u8>::empty(),
            r@.hash == zero_digest(),
    {
        Header { raw: RawHeader::default(), seal: Seal::default(), hash: H256::zero() }
    }
}

impl Default for HeaderBuilder {
    /// A draft holding the all-zero header.
    fn default() -> (r: HeaderBuilder)
        ensures
            r@.raw == spec_zero_raw(),
            r@.seal.nonce == 0,
            r@.seal.proof_bytes == Seq::<u8>::empty(),
            r@.hash == zero_digest(),
    {
        HeaderBuilder { inner: Header::default() }
    }
}

/// Law: the proof-of-work hash depends on the raw commitment fields alone.
/// Two headers sharing a raw header have the same `pow_hash`, whatever their
/// seals.
pub proof fn lemma_pow_hash_ignores_seal(h1: HeaderView, h2: HeaderView)
    requires
        h1.raw == h2.raw,
    ensures
        spec_pow_hash(h1.raw) == spec_pow_hash(h2.raw),
{
}

/// Law: finalizing is deterministic. Two drafts holding the same raw fields
/// and the same seal finalize to the same header, identity hash included.
pub proof fn lemma_build_deterministic(b1: HeaderView, b2: HeaderView)
    requires
        b1.raw == b2.raw,
        b1.seal == b2.seal,
    ensures
        spec_built(b1) == spec_built(b2),
{
}

/// Each fixed-width field of the canonical encoding sits at its fixed offset.
#[verifier::rlimit(100)]
proof fn lemma_header_bytes_fields(r: RawHeaderView, s: SealView)
    requires
        r.wf(),
        s.proof_bytes.len() < 0x10000000000000000,
    ensures
        spec_header_bytes(r, s).len() == 232 + s.proof_bytes.len(),
        spec_header_bytes(r, s).subrange(0, 4) == spec_u32_le(r.version),
        spec_header_bytes(r, s).subrange(4, 36) == r.parent_hash,
        spec_header_bytes(r, s).subrange(36, 44) == spec_u64_le(r.timestamp),
        spec_header_bytes(r, s).subrange(44, 52) == spec_u64_le(r.number),
        spec_header_bytes(r, s).subrange(52, 84) == r.txs_commit,
        spec_header_bytes(r, s).subrange(84, 116) == r.txs_proposal,
        spec_header_bytes(r, s).subrange(116, 124) == spec_u64_le(r.difficulty.l0),
        spec_header_bytes(r, s).subrange(124, 132) == spec_u64_le(r.difficulty.l1),
        spec_header_bytes(r, s).subrange(132, 140) == spec_u64_le(r.difficulty.l2),
        spec_header_bytes(r, s).subrange(140, 148) == spec_u64_le(r.difficulty.l3),
        spec_header_bytes(r, s).subrange(148, 180) == r.cellbase_id,
        spec_header_bytes(r, s).subrange(180, 212) == r.uncles_hash,
        spec_header_bytes(r, s).subrange(212, 216) == spec_u32_le(r.uncles_count),
        spec_header_bytes(r, s).subrange(216, 224) == spec_u64_le(s.nonce),
        spec_header_bytes(r, s).subrange(224, 232) == spec_u64_le(s.proof_bytes.len() as u64),
        spec_header_bytes(r, s).subrange(232, spec_header_bytes(r, s).len() as int)
            == s.proof_bytes,
{
    let e = spec_header_bytes(r, s);
    assert(e.subrange(0, 4) =~= spec_u32_le(r.version));
    assert(e.subrange(4, 36) =~= r.parent_hash);
    assert(e.subrange(36, 44) =~= spec_u64_le(r.timestamp));
    assert(e.subrange(44, 52) =~= spec_u64_le(r.number));
    assert(e.subrange(52, 84) =~= r.txs_commit);
    assert(e.subrange(84, 116) =~= r.txs_proposal);
    assert(e.subrange(116, 124) =~= spec_u64_le(r.difficulty.l0));
    assert(e.subrange(124, 132) =~= spec_u64_le(r.difficulty.l1));
    assert(e.subrange(132, 140) =~= spec_u64_le(r.difficulty.l2));
    assert(e.subrange(140, 148) =~= spec_u64_le(r.difficulty.l3));
    assert(e.subrange(148, 180) =~= r.cellbase_id);
    assert(e.subrange(180, 212) =~= r.uncles_hash);
    assert(e.subrange(212, 216) =~= spec_u32_le(r.uncles_count));
    assert(e.subrange(216, 224) =~= spec_u64_le(s.nonce));
    assert(e.subrange(224, 232) =~= spec_u64_le(s.proof_bytes.len() as u64));
    assert(e.subrange(232, e.len() as int) =~= s.proof_bytes);
}

/// Law: the canonical encoding round-trips. Decoding the canonical bytes of
/// a well-formed header recovers its raw fields and seal exactly (with the
/// cached hash left zero until rebuilt), and rebuilding restores the header
/// itself, identity hash included.
pub proof fn lemma_header_round_trip(hv: HeaderView)
    requires
        hv.wf(),
    ensures
        spec_decode_header(spec_header_bytes(hv.raw, hv.seal)) == Some(
            HeaderView { raw: hv.raw, seal: hv.seal, hash: zero_digest() },
        ),
        spec_built(HeaderView { raw: hv.raw, seal: hv.seal, hash: zero_digest() }) == hv,
{
    let r = hv.raw;
    let s = hv.seal;
    let e = spec_header_bytes(r, s);
    lemma_header_bytes_fields(r, s);
    codec::lemma_u64_le_val(s.proof_bytes.len() as u64);
    assert(le_bytes_val(e.subrange(224, 232)) == e.len() - 232);
    codec::lemma_u32_le_val(r.version);
    codec::lemma_u64_le_val(r.timestamp);
    codec::lemma_u64_le_val(r.number);
    codec::lemma_u64_le_val(r.difficulty.l0);
    codec::lemma_u64_le_val(r.difficulty.l1);
    codec::lemma_u64_le_val(r.difficulty.l2);
    codec::lemma_u64_le_val(r.difficulty.l3);
    codec::lemma_u32_le_val(r.uncles_count);
    codec::lemma_u64_le_val(s.nonce);
    assert(U256 {
        l0: le_bytes_val(e.subrange(116, 124)) as u64,
        l1: le_bytes_val(e.subrange(124, 132)) as u64,
        l2: le_bytes_val(e.subrange(132, 140)) as u64,
        l3: le_bytes_val(e.subrange(140, 148)) as u64,
    } == r.difficulty);
    assert(spec_decode_header(e) =~~= Some(
        HeaderView { raw: r, seal: s, hash: zero_digest() },
    ));
    assert(spec_built(HeaderView { raw: r, seal: s, hash: zero_digest() }) =~~= hv);
}

} // verus!
