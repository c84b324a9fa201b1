//! Identifiers used throughout the protocol layer.
//!
//! Heights, node ids, subnet ids and registry versions are plain integers
//! here; a transcript id records the subnet and height it was generated for,
//! so that ids stay globally unique across the chain's lifetime.

use vstd::prelude::*;

verus! {

/// Position of a block in the chain.
pub type Height = u64;

/// A replica participating in the subnet.
pub type NodeId = u64;

/// The subnet a transcript id was generated on.
pub type SubnetId = u64;

/// Version of the registry a transcript or request is bound to.
pub type RegistryVersion = u64;

/// Identifier of one presignature quadruple.
pub type QuadrupleId = u64;

/// Globally unique identifier of one IDKG transcript.
///
/// The id is scoped to the subnet and the height at which it was handed out,
/// so two transcripts produced anywhere on the chain never share an id.
#[derive(Clone, Copy, PartialEq, Eq, Structural, Debug)]
pub struct IDkgTranscriptId {
    pub source_subnet: SubnetId,
    pub id: u64,
    pub source_height: Height,
}

impl IDkgTranscriptId {
    /// Builds the id from its three components.
    pub fn new(subnet: SubnetId, id: u64, height: Height) -> (r: Self)
        ensures
            r == (IDkgTranscriptId { source_subnet: subnet, id, source_height: height }),
    {
        IDkgTranscriptId { source_subnet: subnet, id, source_height: height }
    }

    /// The next id in this subnet/height scope.
    pub fn increment(&self) -> (r: Self)
        requires
            self.id < u64::MAX,
        ensures
            r == (IDkgTranscriptId { id: (self.id + 1) as u64, ..*self }),
    {
        IDkgTranscriptId { source_subnet: self.source_subnet, id: self.id + 1, source_height: self.source_height }
    }
}

/// Reference to a transcript: the height whose payload describes it, plus its id.
///
/// A reference is resolved to the realized transcript through the chain; the
/// resolution can fail transiently and callers must then retry next round.
#[derive(Clone, Copy, PartialEq, Eq, Structural, Debug)]
pub struct TranscriptRef {
    pub height: Height,
    pub transcript_id: IDkgTranscriptId,
}

impl TranscriptRef {
    /// Builds a reference from a height and a transcript id.
    pub fn new(height: Height, transcript_id: IDkgTranscriptId) -> (r: Self)
        ensures
            r == (TranscriptRef { height, transcript_id }),
    {
        TranscriptRef { height, transcript_id }
    }
}

/// The signature or key algorithm an artifact belongs to.
///
/// `Placeholder` stands for every registry code this layer does not use.
#[derive(Clone, Copy, PartialEq, Eq, Structural, Debug)]
pub enum AlgorithmId {
    Placeholder,
    MultiBls12_381,
    ThresBls12_381,
    Ed25519,
    EcdsaP256,
    EcdsaSecp256k1,
    RsaSha256,
    ThresholdEcdsaSecp256k1,
}

/// The registry wire code of an algorithm.
pub open spec fn spec_algorithm_code(a: AlgorithmId) -> i32 {
    match a {
        AlgorithmId::Placeholder => 0,
        AlgorithmId::MultiBls12_381 => 1,
        AlgorithmId::ThresBls12_381 => 2,
        AlgorithmId::Ed25519 => 7,
        AlgorithmId::EcdsaP256 => 11,
        AlgorithmId::EcdsaSecp256k1 => 12,
        AlgorithmId::RsaSha256 => 14,
        AlgorithmId::ThresholdEcdsaSecp256k1 => 15,
    }
}

/// The algorithm a registry wire code names; unknown codes map to `Placeholder`.
pub open spec fn spec_algorithm_from_code(code: i32) -> AlgorithmId {
    if code == 1 { AlgorithmId::MultiBls12_381 }
    else if code == 2 { AlgorithmId::ThresBls12_381 }
    else if code == 7 { AlgorithmId::Ed25519 }
    else if code == 11 { AlgorithmId::EcdsaP256 }
    else if code == 12 { AlgorithmId::EcdsaSecp256k1 }
    else if code == 14 { AlgorithmId::RsaSha256 }
    else if code == 15 { AlgorithmId::ThresholdEcdsaSecp256k1 }
    else { AlgorithmId::Placeholder }
}

impl AlgorithmId {
    /// The registry wire code of this algorithm.
    pub fn code(&self) -> (r: i32)
        ensures
            r == spec_algorithm_code(*self),
    {
        match self {
            AlgorithmId::Placeholder => 0,
            AlgorithmId::MultiBls12_381 => 1,
            AlgorithmId::ThresBls12_381 => 2,
            AlgorithmId::Ed25519 => 7,
            AlgorithmId::EcdsaP256 => 11,
            AlgorithmId::EcdsaSecp256k1 => 12,
            AlgorithmId::RsaSha256 => 14,
            AlgorithmId::ThresholdEcdsaSecp256k1 => 15,
        }
    }

    /// Reads an algorithm from its registry wire code.
    pub fn from_code(code: i32) -> (r: Self)
        ensures
            r == spec_algorithm_from_code(code),
    {
        if code == 1 { AlgorithmId::MultiBls12_381 }
        else if code == 2 { AlgorithmId::ThresBls12_381 }
        else if code == 7 { AlgorithmId::Ed25519 }
        else if code == 11 { AlgorithmId::EcdsaP256 }
        else if code == 12 { AlgorithmId::EcdsaSecp256k1 }
        else if code == 14 { AlgorithmId::RsaSha256 }
        else if code == 15 { AlgorithmId::ThresholdEcdsaSecp256k1 }
        else { AlgorithmId::Placeholder }
    }
}

/// Identifier of one signing request.
///
/// A request is pinned to the quadruple it will consume, a pseudo-random
/// discriminator drawn from the request's context, and the height at which
/// the request was paired with its inputs.
#[derive(Clone, Copy, PartialEq, Eq, Structural, Debug)]
pub struct RequestId {
    pub quadruple_id: QuadrupleId,
    pub pseudo_random_id: u64,
    pub height: Height,
}

/// Monotonic generator of transcript and quadruple ids, scoped to the subnet
/// and height it was (re)seeded at.
///
/// The counters only ever move forward, so an id handed out once is never
/// handed out again; seeding from the latest height on recovery keeps ids
/// unique across restarts.
#[derive(Clone, Copy, PartialEq, Eq, Structural, Debug)]
pub struct EcdsaUIDGenerator {
    pub subnet_id: SubnetId,
    pub height: Height,
    pub next_unused_transcript_id: u64,
    pub next_unused_quadruple_id: u64,
}

/// The transcript id this generator will hand out next.
pub open spec fn spec_next_transcript_id(g: EcdsaUIDGenerator) -> IDkgTranscriptId {
    IDkgTranscriptId {
        source_subnet: g.subnet_id,
        id: g.next_unused_transcript_id,
        source_height: g.height,
    }
}

impl EcdsaUIDGenerator {
    /// Seeds a generator for the given subnet and height, with both counters
    /// at zero.
    pub fn new(subnet_id: SubnetId, height: Height) -> (r: Self)
        ensures
            r == (EcdsaUIDGenerator {
                subnet_id,
                height,
                next_unused_transcript_id: 0u64,
                next_unused_quadruple_id: 0u64,
            }),
    {
        EcdsaUIDGenerator { subnet_id, height, next_unused_transcript_id: 0, next_unused_quadruple_id: 0 }
    }

    /// Hands out the next transcript id and advances the counter.
    pub fn next_transcript_id(&mut self) -> (id: IDkgTranscriptId)
        requires
            old(self).next_unused_transcript_id < u64::MAX,
        ensures
            id == spec_next_transcript_id(*old(self)),
            final(self).next_unused_transcript_id == old(self).next_unused_transcript_id + 1,
            final(self).subnet_id == old(self).subnet_id,
            final(self).height == old(self).height,
            final(self).next_unused_quadruple_id == old(self).next_unused_quadruple_id,
    {
        let id = self.next_unused_transcript_id;
        self.next_unused_transcript_id = id + 1;
        IDkgTranscriptId { source_subnet: self.subnet_id, id, source_height: self.height }
    }

    /// Hands out the next quadruple id and advances the counter.
    pub fn next_quadruple_id(&mut self) -> (id: QuadrupleId)
        requires
            old(self).next_unused_quadruple_id < u64::MAX,
        ensures
            id == old(self).next_unused_quadruple_id,
            final(self).next_unused_quadruple_id == old(self).next_unused_quadruple_id + 1,
            final(self).subnet_id == old(self).subnet_id,
            final(self).height == old(self).height,
            final(self).next_unused_transcript_id == old(self).next_unused_transcript_id,
    {
        let id = self.next_unused_quadruple_id;
        self.next_unused_quadruple_id = id + 1;
        id
    }
}

/// Ids are never reused: once the transcript counter has moved past a state,
/// the id that state would have handed out can never be handed out again.
pub proof fn lemma_transcript_ids_never_reused(g1: EcdsaUIDGenerator, g2: EcdsaUIDGenerator)
    requires
        g1.next_unused_transcript_id < g2.next_unused_transcript_id,
    ensures
        spec_next_transcript_id(g1) != spec_next_transcript_id(g2),
{
}

} // verus!
