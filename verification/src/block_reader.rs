//! Read-only view of the chain at one tip: the requested transcripts and
//! signatures, the references that must be retained, and the resolution of a
//! transcript reference to its realized transcript.
//!
//! Resolution failure is transient — it names what could not be reached and
//! callers retry next round; it never means the transcript does not exist.

use vstd::prelude::*;
use crate::ids::{Height, RequestId, TranscriptRef};
use crate::payload::EcdsaPayload;
use crate::sig_inputs::ThresholdEcdsaSigInputsRef;
use crate::transcript::{spec_has_transcript, IDkgTranscript, IDkgTranscriptParamsRef, IDkgTranscriptParamsRefView};

verus! {

/// Why a chain access failed.
#[derive(Clone, Copy, PartialEq, Eq, Structural, Debug)]
pub enum ConsensusBlockChainErr {
    BlockNotFound(Height),
}

/// Why a transcript reference could not be resolved: the block at the
/// recorded height was unreachable, or that block's payload does not carry
/// the transcript.  Both are transient; callers retry next round.
#[derive(Clone, Copy, PartialEq, Eq, Structural, Debug)]
pub enum TranscriptLookupError {
    ChainLookupFailed(TranscriptRef),
    TranscriptMissing(TranscriptRef),
}

/// The narrow read-only chain interface this layer consumes: a contiguous
/// range of blocks, each carrying an optional protocol payload.
#[derive(Clone, PartialEq, Eq, Debug)]
pub struct ConsensusBlockChain {
    pub start_height: Height,
    pub payloads: Vec<Option<EcdsaPayload>>,
}

impl ConsensusBlockChain {
    /// At least one block, and the tip height fits the height type.
    pub open spec fn well_formed(self) -> bool {
        &&& self.payloads@.len() >= 1
        &&& self.start_height + self.payloads@.len() - 1 <= u64::MAX
    }

    /// The height of the last block.
    pub open spec fn spec_tip_height(self) -> int {
        self.start_height + self.payloads@.len() - 1
    }

    /// The payload carried by the block at the given height, if the block is
    /// in this chain and carries one.
    pub open spec fn spec_payload_at(self, height: Height) -> Option<EcdsaPayload> {
        if self.start_height <= height <= self.spec_tip_height() {
            self.payloads@[height - self.start_height]
        } else {
            None
        }
    }

    /// Builds a chain from its first block's height and one optional payload
    /// per block.
    pub fn new(start_height: Height, payloads: Vec<Option<EcdsaPayload>>) -> (r: Self)
        requires
            payloads@.len() >= 1,
            start_height + payloads@.len() - 1 <= u64::MAX,
        ensures
            r == (ConsensusBlockChain { start_height, payloads }),
            r.well_formed(),
    {
        ConsensusBlockChain { start_height, payloads }
    }

    /// Appends one block at the new tip.
    pub fn push_block(&mut self, payload: Option<EcdsaPayload>)
        requires
            old(self).well_formed(),
            old(self).spec_tip_height() + 1 <= u64::MAX,
        ensures
            final(self).well_formed(),
            final(self).start_height == old(self).start_height,
            final(self).payloads@ == old(self).payloads@.push(payload),
            final(self).spec_tip_height() == old(self).spec_tip_height() + 1,
    {
        self.payloads.push(payload);
    }

    /// The tip's height.
    pub fn tip_height(&self) -> (h: Height)
        requires
            self.well_formed(),
        ensures
            h == self.spec_tip_height(),
    {
        self.start_height + (self.payloads.len() as u64 - 1)
    }

    /// The tip: its height and its payload, if it carries one.
    pub fn tip(&self) -> (r: (Height, &Option<EcdsaPayload>))
        requires
            self.well_formed(),
        ensures
            r.0 == self.spec_tip_height(),
            *r.1 == self.spec_payload_at(r.0),
    {
        let h = self.tip_height();
        (h, &self.payloads[self.payloads.len() - 1])
    }

    /// The payload of the block at the given height, or which block could
    /// not be found.
    pub fn ecdsa_payload(&self, height: Height) -> (r: Result<&EcdsaPayload, ConsensusBlockChainErr>)
        requires
            self.well_formed(),
        ensures
            match r {
                Ok(p) => self.spec_payload_at(height) == Some(*p),
                Err(e) => {
                    &&& self.spec_payload_at(height) is None
                    &&& e == ConsensusBlockChainErr::BlockNotFound(height)
                },
            },
    {
        if height < self.start_height || height - self.start_height >= self.payloads.len() as u64 {
            return Err(ConsensusBlockChainErr::BlockNotFound(height));
        }
        let idx = (height - self.start_height) as usize;
        match &self.payloads[idx] {
            Some(p) => Ok(p),
            None => Err(ConsensusBlockChainErr::BlockNotFound(height)),
        }
    }
}

/// One round's read-only view of the chain, anchored at the tip it was
/// constructed from.
pub struct EcdsaBlockReaderImpl {
    pub chain: ConsensusBlockChain,
    pub tip_height: Height,
}

impl EcdsaBlockReaderImpl {
    /// The view is anchored at its chain's tip.
    pub open spec fn well_formed(self) -> bool {
        &&& self.chain.well_formed()
        &&& self.tip_height == self.chain.spec_tip_height()
    }

    /// The payload at the tip this view is anchored to.
    pub open spec fn spec_tip_payload(self) -> Option<EcdsaPayload> {
        self.chain.spec_payload_at(self.chain.spec_tip_height() as Height)
    }

    /// Anchors a view at the given chain's tip.
    pub fn new(chain: ConsensusBlockChain) -> (r: Self)
        requires
            chain.well_formed(),
        ensures
            r.well_formed(),
            r.chain == chain,
    {
        let tip_height = chain.tip_height();
        EcdsaBlockReaderImpl { chain, tip_height }
    }

    /// The height this view is anchored to.
    pub fn tip_height(&self) -> (h: Height)
        ensures
            h == self.tip_height,
    {
        self.tip_height
    }

    /// The transcript construction requests not yet complete in the tip
    /// payload; empty if the tip carries no payload.
    pub open spec fn spec_requested_transcripts(self) -> Seq<IDkgTranscriptParamsRefView> {
        match self.spec_tip_payload() {
            Some(p) => p.spec_configs_in_creation(),
            None => Seq::empty(),
        }
    }

    /// Lists the transcript construction requests not yet complete at the
    /// tip; empty if the tip carries no protocol payload.
    pub fn requested_transcripts(&self) -> (r: Vec<IDkgTranscriptParamsRef>)
        requires
            self.well_formed(),
        ensures
            r@.len() == self.spec_requested_transcripts().len(),
            forall|j: int|
                0 <= j < r@.len() ==> (#[trigger] r@[j])@ == self.spec_requested_transcripts()[j],
    {
        let (_, tip_payload) = self.chain.tip();
        match tip_payload {
            Some(p) => p.iter_transcript_configs_in_creation(),
            None => Vec::new(),
        }
    }

    /// The signature requests awaiting shares in the tip payload.
    pub open spec fn spec_requested_signatures(self) -> Seq<(RequestId, ThresholdEcdsaSigInputsRef)> {
        match self.spec_tip_payload() {
            Some(p) => p.ongoing_signatures@,
            None => Seq::empty(),
        }
    }

    /// Lists the signature requests awaiting shares at the tip; empty if the
    /// tip carries no protocol payload.
    pub fn requested_signatures(&self) -> (r: Vec<(RequestId, ThresholdEcdsaSigInputsRef)>)
        requires
            self.well_formed(),
        ensures
            r@.len() == self.spec_requested_signatures().len(),
            forall|j: int| #![all_triggers]
                0 <= j < r@.len() ==> r@[j].0 == self.spec_requested_signatures()[j].0
                    && r@[j].1@ == self.spec_requested_signatures()[j].1@,
    {
        let (_, tip_payload) = self.chain.tip();
        match tip_payload {
            Some(p) => {
                let mut r: Vec<(RequestId, ThresholdEcdsaSigInputsRef)> = Vec::new();
                let mut i: usize = 0;
                while i < p.ongoing_signatures.len()
                    invariant
                        0 <= i <= p.ongoing_signatures@.len(),
                        r@.len() == i,
                        forall|j: int| #![all_triggers]
                            0 <= j < i ==> r@[j].0 == p.ongoing_signatures@[j].0 && r@[j].1@
                                == p.ongoing_signatures@[j].1@,
                    decreases p.ongoing_signatures@.len() - i,
                {
                    let pair = &p.ongoing_signatures[i];
                    r.push((pair.0, pair.1.duplicate()));
                    i = i + 1;
                }
                r
            },
            None => Vec::new(),
        }
    }

    /// The set of transcript references the tip payload retains.
    pub open spec fn spec_active_transcripts(self) -> Set<TranscriptRef> {
        match self.spec_tip_payload() {
            Some(p) => p.spec_active_refs(),
            None => Set::empty(),
        }
    }

    /// Lists, without duplicates, the transcript references that must be
    /// retained for the tip payload; the pool uses this to decide what is
    /// safe to purge.
    pub fn active_transcripts(&self) -> (r: Vec<TranscriptRef>)
        requires
            self.well_formed(),
        ensures
            r@.no_duplicates(),
            r@.to_set() == self.spec_active_transcripts(),
    {
        let (_, tip_payload) = self.chain.tip();
        match tip_payload {
            Some(p) => p.active_transcripts(),
            None => {
                let r: Vec<TranscriptRef> = Vec::new();
                proof {
                    assert(r@.to_set() =~= Set::<TranscriptRef>::empty());
                }
                r
            },
        }
    }

    /// The cross-subnet resharing requests this subnet is the source of.
    pub open spec fn spec_source_subnet_xnet_transcripts(self) -> Seq<IDkgTranscriptParamsRefView> {
        match self.spec_tip_payload() {
            Some(p) => p.ongoing_xnet_reshares@.map_values(
                |e: (crate::payload::EcdsaReshareRequest, IDkgTranscriptParamsRef)| e.1@,
            ),
            None => Seq::empty(),
        }
    }

    /// Lists the construction requests of resharings this subnet is the
    /// source of.
    pub fn source_subnet_xnet_transcripts(&self) -> (r: Vec<IDkgTranscriptParamsRef>)
        requires
            self.well_formed(),
        ensures
            r@.len() == self.spec_source_subnet_xnet_transcripts().len(),
            forall|j: int|
                0 <= j < r@.len() ==> (#[trigger] r@[j])@
                    == self.spec_source_subnet_xnet_transcripts()[j],
    {
        let (_, tip_payload) = self.chain.tip();
        match tip_payload {
            Some(p) => p.iter_xnet_transcripts_source_subnet(),
            None => Vec::new(),
        }
    }

    /// The cross-subnet resharing request this subnet is the target of.
    pub open spec fn spec_target_subnet_xnet_transcripts(self) -> Seq<IDkgTranscriptParamsRefView> {
        match self.spec_tip_payload() {
            Some(p) => p.spec_xnet_configs_target_subnet(),
            None => Seq::empty(),
        }
    }

    /// Lists the construction requests of resharings this subnet is the
    /// target of.
    pub fn target_subnet_xnet_transcripts(&self) -> (r: Vec<IDkgTranscriptParamsRef>)
        requires
            self.well_formed(),
        ensures
            r@.len() == self.spec_target_subnet_xnet_transcripts().len(),
            forall|j: int|
                0 <= j < r@.len() ==> (#[trigger] r@[j])@
                    == self.spec_target_subnet_xnet_transcripts()[j],
    {
        let (_, tip_payload) = self.chain.tip();
        match tip_payload {
            Some(p) => p.iter_xnet_transcripts_target_subnet(),
            None => Vec::new(),
        }
    }

    /// Resolves a transcript reference through the chain: the payload at the
    /// recorded height must be reachable and must carry the transcript.
    ///
    /// An error distinguishes an unreachable block from a payload that lacks
    /// the transcript; either way the caller retries next round and must not
    /// treat the failure as "transcript does not exist".
    pub fn transcript(&self, transcript_ref: &TranscriptRef) -> (r: Result<
        &IDkgTranscript,
        TranscriptLookupError,
    >)
        requires
            self.well_formed(),
        ensures
            match self.chain.spec_payload_at(transcript_ref.height) {
                None => r == Err::<&IDkgTranscript, _>(TranscriptLookupError::ChainLookupFailed(
                    *transcript_ref,
                )),
                Some(p) => {
                    if spec_has_transcript(p.idkg_transcripts@, transcript_ref.transcript_id) {
                        &&& r is Ok
                        &&& (r->Ok_0).transcript_id == transcript_ref.transcript_id
                        &&& exists|i: int|
                            0 <= i < p.idkg_transcripts@.len() && *(r->Ok_0)
                                == p.idkg_transcripts@[i]
                    } else {
                        r == Err::<&IDkgTranscript, _>(TranscriptLookupError::TranscriptMissing(
                            *transcript_ref,
                        ))
                    }
                },
            },
    {
        let payload = match self.chain.ecdsa_payload(transcript_ref.height) {
            Ok(p) => p,
            Err(_) => {
                return Err(TranscriptLookupError::ChainLookupFailed(*transcript_ref));
            },
        };
        match payload.idkg_transcript(transcript_ref.transcript_id) {
            Some(t) => Ok(t),
            None => Err(TranscriptLookupError::TranscriptMissing(*transcript_ref)),
        }
    }
}

/// The big-endian bytes of one integer.
pub open spec fn spec_u64_be_bytes(n: u64) -> Seq<u8> {
    seq![
        (n / 0x100000000000000) as u8,
        ((n / 0x1000000000000) % 256) as u8,
        ((n / 0x10000000000) % 256) as u8,
        ((n / 0x100000000) % 256) as u8,
        ((n / 0x1000000) % 256) as u8,
        ((n / 0x10000) % 256) as u8,
        ((n / 0x100) % 256) as u8,
        (n % 256) as u8,
    ]
}

/// The serialized form of a transcript reference: the height, then the
/// subnet, counter and height components of the transcript id, each as eight
/// big-endian bytes.
pub open spec fn spec_ref_bytes(r: TranscriptRef) -> Seq<u8> {
    spec_u64_be_bytes(r.height) + spec_u64_be_bytes(r.transcript_id.source_subnet)
        + spec_u64_be_bytes(r.transcript_id.id) + spec_u64_be_bytes(r.transcript_id.source_height)
}

/// Writes one integer as eight big-endian bytes.
pub fn u64_be_bytes(n: u64, out: &mut Vec<u8>)
    ensures
        final(out)@ == old(out)@ + spec_u64_be_bytes(n),
{
    out.push((n >> 56) as u8);
    out.push((n >> 48) as u8);
    out.push((n >> 40) as u8);
    out.push((n >> 32) as u8);
    out.push((n >> 24) as u8);
    out.push((n >> 16) as u8);
    out.push((n >> 8) as u8);
    out.push(n as u8);
    proof {
        assert((n >> 56) as u8 == (n / 0x100000000000000) as u8) by (bit_vector);
        assert((n >> 48) as u8 == ((n / 0x1000000000000) % 256) as u8) by (bit_vector);
        assert((n >> 40) as u8 == ((n / 0x10000000000) % 256) as u8) by (bit_vector);
        assert((n >> 32) as u8 == ((n / 0x100000000) % 256) as u8) by (bit_vector);
        assert((n >> 24) as u8 == ((n / 0x1000000) % 256) as u8) by (bit_vector);
        assert((n >> 16) as u8 == ((n / 0x10000) % 256) as u8) by (bit_vector);
        assert((n >> 8) as u8 == ((n / 0x100) % 256) as u8) by (bit_vector);
        assert(n as u8 == (n % 256) as u8) by (bit_vector);
        assert(final(out)@ =~= old(out)@ + spec_u64_be_bytes(n));
    }
}

/// Reads eight big-endian bytes back into the integer they encode.
pub fn u64_from_be_bytes(bytes: &Vec<u8>, at: usize) -> (n: u64)
    requires
        at + 8 <= bytes@.len(),
    ensures
        spec_u64_be_bytes(n) == bytes@.subrange(at as int, at as int + 8),
{
    let len = bytes.len();
    proof {
        assert(at + 8 <= len);
    }
    let n: u64 = ((bytes[at] as u64) << 56) | ((bytes[at + 1] as u64) << 48) | ((bytes[at + 2]
        as u64) << 40) | ((bytes[at + 3] as u64) << 32) | ((bytes[at + 4] as u64) << 24) | ((
    bytes[at + 5] as u64) << 16) | ((bytes[at + 6] as u64) << 8) | (bytes[at + 7] as u64);
    proof {
        let b0 = bytes@[at as int];
        let b1 = bytes@[at as int + 1];
        let b2 = bytes@[at as int + 2];
        let b3 = bytes@[at as int + 3];
        let b4 = bytes@[at as int + 4];
        let b5 = bytes@[at as int + 5];
        let b6 = bytes@[at as int + 6];
        let b7 = bytes@[at as int + 7];
        lemma_u64_be_bytes_of_combined(b0, b1, b2, b3, b4, b5, b6, b7);
        assert(n == ((b0 as u64) << 56) | ((b1 as u64) << 48) | ((b2 as u64) << 40) | ((b3
            as u64) << 32) | ((b4 as u64) << 24) | ((b5 as u64) << 16) | ((b6 as u64) << 8) | (
        b7 as u64));
        assert(spec_u64_be_bytes(n) =~= bytes@.subrange(at as int, at as int + 8));
    }
    n
}

/// Serializes a transcript reference to its 32-byte form.
pub fn serialize_transcript_ref(r: &TranscriptRef) -> (bytes: Vec<u8>)
    ensures
        bytes@ == spec_ref_bytes(*r),
{
    let mut bytes: Vec<u8> = Vec::new();
    u64_be_bytes(r.height, &mut bytes);
    u64_be_bytes(r.transcript_id.source_subnet, &mut bytes);
    u64_be_bytes(r.transcript_id.id, &mut bytes);
    u64_be_bytes(r.transcript_id.source_height, &mut bytes);
    proof {
        assert(bytes@ =~= spec_ref_bytes(*r));
    }
    bytes
}

/// Reads a transcript reference back from its serialized form; refuses input
/// of the wrong length.
pub fn deserialize_transcript_ref(bytes: &Vec<u8>) -> (r: Option<TranscriptRef>)
    ensures
        bytes@.len() == 32 ==> r is Some && spec_ref_bytes(r->Some_0) == bytes@,
        bytes@.len() != 32 ==> r is None,
{
    if bytes.len() != 32 {
        return None;
    }
    let height = u64_from_be_bytes(bytes, 0);
    let source_subnet = u64_from_be_bytes(bytes, 8);
    let id = u64_from_be_bytes(bytes, 16);
    let source_height = u64_from_be_bytes(bytes, 24);
    let r = TranscriptRef {
        height,
        transcript_id: crate::ids::IDkgTranscriptId { source_subnet, id, source_height },
    };
    proof {
        assert(spec_ref_bytes(r) =~= bytes@);
    }
    Some(r)
}

/// Serialization is lossless: reading back the bytes of a reference yields
/// the same reference.
#[verifier::rlimit(60)]
pub proof fn lemma_ref_serialization_round_trip(r1: TranscriptRef, r2: TranscriptRef)
    requires
        spec_ref_bytes(r1) == spec_ref_bytes(r2),
    ensures
        r1 == r2,
{
    let a = spec_ref_bytes(r1);
    let b = spec_ref_bytes(r2);
    assert(spec_u64_be_bytes(r1.height) =~= spec_u64_be_bytes(r2.height)) by {
        assert forall|i: int| 0 <= i < 8 implies spec_u64_be_bytes(r1.height)[i]
            == spec_u64_be_bytes(r2.height)[i] by {
            assert(a[i] == spec_u64_be_bytes(r1.height)[i]);
            assert(b[i] == spec_u64_be_bytes(r2.height)[i]);
        }
    }
    assert(spec_u64_be_bytes(r1.transcript_id.source_subnet) =~= spec_u64_be_bytes(
        r2.transcript_id.source_subnet,
    )) by {
        assert forall|i: int| 0 <= i < 8 implies spec_u64_be_bytes(
            r1.transcript_id.source_subnet,
        )[i] == spec_u64_be_bytes(r2.transcript_id.source_subnet)[i] by {
            assert(a[i + 8] == spec_u64_be_bytes(r1.transcript_id.source_subnet)[i]);
            assert(b[i + 8] == spec_u64_be_bytes(r2.transcript_id.source_subnet)[i]);
        }
    }
    assert(spec_u64_be_bytes(r1.transcript_id.id) =~= spec_u64_be_bytes(r2.transcript_id.id)) by {
        assert forall|i: int| 0 <= i < 8 implies spec_u64_be_bytes(r1.transcript_id.id)[i]
            == spec_u64_be_bytes(r2.transcript_id.id)[i] by {
            assert(a[i + 16] == spec_u64_be_bytes(r1.transcript_id.id)[i]);
            assert(b[i + 16] == spec_u64_be_bytes(r2.transcript_id.id)[i]);
        }
    }
    assert(spec_u64_be_bytes(r1.transcript_id.source_height) =~= spec_u64_be_bytes(
        r2.transcript_id.source_height,
    )) by {
        assert forall|i: int| 0 <= i < 8 implies spec_u64_be_bytes(
            r1.transcript_id.source_height,
        )[i] == spec_u64_be_bytes(r2.transcript_id.source_height)[i] by {
            assert(a[i + 24] == spec_u64_be_bytes(r1.transcript_id.source_height)[i]);
            assert(b[i + 24] == spec_u64_be_bytes(r2.transcript_id.source_height)[i]);
        }
    }
    lemma_u64_be_bytes_injective(r1.height, r2.height);
    lemma_u64_be_bytes_injective(r1.transcript_id.source_subnet, r2.transcript_id.source_subnet);
    lemma_u64_be_bytes_injective(r1.transcript_id.id, r2.transcript_id.id);
    lemma_u64_be_bytes_injective(r1.transcript_id.source_height, r2.transcript_id.source_height);
}

/// Combining eight bytes big-endian yields an integer whose big-endian bytes
/// are those eight bytes.
proof fn lemma_u64_be_bytes_of_combined(b0: u8, b1: u8, b2: u8, b3: u8, b4: u8, b5: u8, b6: u8, b7: u8)
    ensures
        ({
            let m: u64 = ((b0 as u64) << 56) | ((b1 as u64) << 48) | ((b2 as u64) << 40) | ((b3
                as u64) << 32) | ((b4 as u64) << 24) | ((b5 as u64) << 16) | ((b6 as u64) << 8)
                | (b7 as u64);
            &&& (m / 0x100000000000000) as u8 == b0
            &&& ((m / 0x1000000000000) % 256) as u8 == b1
            &&& ((m / 0x10000000000) % 256) as u8 == b2
            &&& ((m / 0x100000000) % 256) as u8 == b3
            &&& ((m / 0x1000000) % 256) as u8 == b4
            &&& ((m / 0x10000) % 256) as u8 == b5
            &&& ((m / 0x100) % 256) as u8 == b6
            &&& (m % 256) as u8 == b7
        }),
{
    let m: u64 = ((b0 as u64) << 56) | ((b1 as u64) << 48) | ((b2 as u64) << 40) | ((b3 as u64)
        << 32) | ((b4 as u64) << 24) | ((b5 as u64) << 16) | ((b6 as u64) << 8) | (b7 as u64);
    assert({
        let m: u64 = ((b0 as u64) << 56) | ((b1 as u64) << 48) | ((b2 as u64) << 40) | ((b3
            as u64) << 32) | ((b4 as u64) << 24) | ((b5 as u64) << 16) | ((b6 as u64) << 8) | (
        b7 as u64);
        &&& (m / 0x100000000000000) as u8 == b0
        &&& ((m / 0x1000000000000) % 256) as u8 == b1
        &&& ((m / 0x10000000000) % 256) as u8 == b2
        &&& ((m / 0x100000000) % 256) as u8 == b3
        &&& ((m / 0x1000000) % 256) as u8 == b4
        &&& ((m / 0x10000) % 256) as u8 == b5
        &&& ((m / 0x100) % 256) as u8 == b6
        &&& (m % 256) as u8 == b7
    }) by (bit_vector);
}

/// Two integers with the same big-endian bytes are the same integer.
proof fn lemma_u64_be_bytes_injective(a: u64, b: u64)
    requires
        spec_u64_be_bytes(a) == spec_u64_be_bytes(b),
    ensures
        a == b,
{
    assert(spec_u64_be_bytes(a)[0] == spec_u64_be_bytes(b)[0]);
    assert(spec_u64_be_bytes(a)[1] == spec_u64_be_bytes(b)[1]);
    assert(spec_u64_be_bytes(a)[2] == spec_u64_be_bytes(b)[2]);
    assert(spec_u64_be_bytes(a)[3] == spec_u64_be_bytes(b)[3]);
    assert(spec_u64_be_bytes(a)[4] == spec_u64_be_bytes(b)[4]);
    assert(spec_u64_be_bytes(a)[5] == spec_u64_be_bytes(b)[5]);
    assert(spec_u64_be_bytes(a)[6] == spec_u64_be_bytes(b)[6]);
    assert(spec_u64_be_bytes(a)[7] == spec_u64_be_bytes(b)[7]);
    assert((a / 0x100000000000000) as u8 == (b / 0x100000000000000) as u8 && ((a
        / 0x1000000000000) % 256) as u8 == ((b / 0x1000000000000) % 256) as u8 && ((a
        / 0x10000000000) % 256) as u8 == ((b / 0x10000000000) % 256) as u8 && ((a / 0x100000000)
        % 256) as u8 == ((b / 0x100000000) % 256) as u8 && ((a / 0x1000000) % 256) as u8 == ((b
        / 0x1000000) % 256) as u8 && ((a / 0x10000) % 256) as u8 == ((b / 0x10000) % 256) as u8
        && ((a / 0x100) % 256) as u8 == ((b / 0x100) % 256) as u8 && (a % 256) as u8 == (b % 256)
        as u8 ==> a == b) by (bit_vector);
}

} // verus!
