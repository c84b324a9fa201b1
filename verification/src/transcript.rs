//! IDKG transcripts, references to them, and transcript construction
//! parameters.
//!
//! A transcript is immutable once complete.  Its type records how its secret
//! relates to earlier transcripts: freshly random, a reshare of a masked or
//! unmasked secret, or the product of an unmasked and a masked secret.

use vstd::prelude::*;
use crate::ids::{AlgorithmId, Height, IDkgTranscriptId, NodeId, RegistryVersion, TranscriptRef};
use crate::messages::SignedIDkgDealing;
use crate::text::{spec_decimal, u64_to_decimal};

verus! {

/// How a masked transcript's secret was produced.
#[derive(Clone, Copy, PartialEq, Eq, Structural, Debug)]
pub enum IDkgMaskedTranscriptOrigin {
    Random,
    UnmaskedTimesMasked(IDkgTranscriptId, IDkgTranscriptId),
}

/// How an unmasked transcript's secret was produced.
#[derive(Clone, Copy, PartialEq, Eq, Structural, Debug)]
pub enum IDkgUnmaskedTranscriptOrigin {
    ReshareMasked(IDkgTranscriptId),
    ReshareUnmasked(IDkgTranscriptId),
}

/// Whether a transcript's secret is masked, and where it came from.
#[derive(Clone, Copy, PartialEq, Eq, Structural, Debug)]
pub enum IDkgTranscriptType {
    Masked(IDkgMaskedTranscriptOrigin),
    Unmasked(IDkgUnmaskedTranscriptOrigin),
}

/// One completed run of IDKG: the verified dealings and public data that
/// realize a share of some secret value.
#[derive(Clone, PartialEq, Eq, Debug)]
pub struct IDkgTranscript {
    pub transcript_id: IDkgTranscriptId,
    pub receivers: Vec<NodeId>,
    pub registry_version: RegistryVersion,
    pub verified_dealings: Vec<SignedIDkgDealing>,
    pub transcript_type: IDkgTranscriptType,
    pub algorithm_id: AlgorithmId,
    pub internal_transcript_raw: Vec<u8>,
}

impl IDkgTranscript {
    /// Structural validity: at least one receiver, no receiver listed twice,
    /// and every verified dealing belongs to this transcript with at most one
    /// dealing per dealer.
    pub open spec fn well_formed(self) -> bool {
        &&& self.receivers@.len() > 0
        &&& self.receivers@.no_duplicates()
        &&& forall|i: int|
            0 <= i < self.verified_dealings@.len()
                ==> (#[trigger] self.verified_dealings@[i]).content.transcript_id
                == self.transcript_id
        &&& forall|i: int, j: int|
            0 <= i < j < self.verified_dealings@.len()
                ==> (#[trigger] self.verified_dealings@[i]).signature.signer
                != (#[trigger] self.verified_dealings@[j]).signature.signer
    }
}

/// Reference to a transcript known to carry a masked secret.
#[derive(Clone, Copy, PartialEq, Eq, Structural, Debug)]
pub struct MaskedTranscript(pub TranscriptRef);

/// Reference to a transcript known to carry an unmasked secret.
#[derive(Clone, Copy, PartialEq, Eq, Structural, Debug)]
pub struct UnmaskedTranscript(pub TranscriptRef);

impl MaskedTranscript {
    /// The underlying transcript reference.
    pub fn as_ref(&self) -> (r: &TranscriptRef)
        ensures
            *r == self.0,
    {
        &self.0
    }

    /// Takes a typed reference to a transcript at the given height; refuses a
    /// transcript whose secret is not masked.
    pub fn try_from(height: Height, transcript: &IDkgTranscript) -> (r: Option<Self>)
        ensures
            r is Some <==> transcript.transcript_type is Masked,
            r is Some ==> (r->0).0 == (TranscriptRef {
                height,
                transcript_id: transcript.transcript_id,
            }),
    {
        match transcript.transcript_type {
            IDkgTranscriptType::Masked(_) => Some(
                MaskedTranscript(TranscriptRef::new(height, transcript.transcript_id)),
            ),
            IDkgTranscriptType::Unmasked(_) => None,
        }
    }
}

impl UnmaskedTranscript {
    /// The underlying transcript reference.
    pub fn as_ref(&self) -> (r: &TranscriptRef)
        ensures
            *r == self.0,
    {
        &self.0
    }

    /// Takes a typed reference to a transcript at the given height; refuses a
    /// transcript whose secret is masked.
    pub fn try_from(height: Height, transcript: &IDkgTranscript) -> (r: Option<Self>)
        ensures
            r is Some <==> transcript.transcript_type is Unmasked,
            r is Some ==> (r->0).0 == (TranscriptRef {
                height,
                transcript_id: transcript.transcript_id,
            }),
    {
        match transcript.transcript_type {
            IDkgTranscriptType::Unmasked(_) => Some(
                UnmaskedTranscript(TranscriptRef::new(height, transcript.transcript_id)),
            ),
            IDkgTranscriptType::Masked(_) => None,
        }
    }
}

/// The operation a transcript under construction will perform, with its
/// source transcripts still as references.
#[derive(Clone, Copy, PartialEq, Eq, Structural, Debug)]
pub enum IDkgTranscriptOperationRef {
    Random,
    ReshareOfMasked(MaskedTranscript),
    ReshareOfUnmasked(UnmaskedTranscript),
    UnmaskedTimesMasked(UnmaskedTranscript, MaskedTranscript),
}

impl IDkgTranscriptOperationRef {
    /// The transcript references this operation draws on.
    pub open spec fn spec_source_refs(self) -> Seq<TranscriptRef> {
        match self {
            IDkgTranscriptOperationRef::Random => Seq::empty(),
            IDkgTranscriptOperationRef::ReshareOfMasked(m) => seq![m.0],
            IDkgTranscriptOperationRef::ReshareOfUnmasked(u) => seq![u.0],
            IDkgTranscriptOperationRef::UnmaskedTimesMasked(u, m) => seq![u.0, m.0],
        }
    }

    /// Lists the transcript references this operation draws on.
    pub fn source_refs(&self) -> (r: Vec<TranscriptRef>)
        ensures
            r@ == self.spec_source_refs(),
    {
        match self {
            IDkgTranscriptOperationRef::Random => {
                let r: Vec<TranscriptRef> = Vec::new();
                assert(r@ =~= self.spec_source_refs());
                r
            },
            IDkgTranscriptOperationRef::ReshareOfMasked(m) => {
                let mut r: Vec<TranscriptRef> = Vec::new();
                r.push(m.0);
                assert(r@ =~= self.spec_source_refs());
                r
            },
            IDkgTranscriptOperationRef::ReshareOfUnmasked(u) => {
                let mut r: Vec<TranscriptRef> = Vec::new();
                r.push(u.0);
                assert(r@ =~= self.spec_source_refs());
                r
            },
            IDkgTranscriptOperationRef::UnmaskedTimesMasked(u, m) => {
                let mut r: Vec<TranscriptRef> = Vec::new();
                r.push(u.0);
                r.push(m.0);
                assert(r@ =~= self.spec_source_refs());
                r
            },
        }
    }
}

/// Parameters of one requested transcript: who deals, who receives, and the
/// operation that defines the secret.
#[derive(Clone, PartialEq, Eq, Debug)]
pub struct IDkgTranscriptParamsRef {
    pub transcript_id: IDkgTranscriptId,
    pub dealers: Vec<NodeId>,
    pub receivers: Vec<NodeId>,
    pub registry_version: RegistryVersion,
    pub algorithm_id: AlgorithmId,
    pub operation_type_ref: IDkgTranscriptOperationRef,
}

/// Mathematical view of transcript construction parameters.
pub ghost struct IDkgTranscriptParamsRefView {
    pub transcript_id: IDkgTranscriptId,
    pub dealers: Seq<NodeId>,
    pub receivers: Seq<NodeId>,
    pub registry_version: RegistryVersion,
    pub algorithm_id: AlgorithmId,
    pub operation_type_ref: IDkgTranscriptOperationRef,
}

impl View for IDkgTranscriptParamsRef {
    type V = IDkgTranscriptParamsRefView;

    open spec fn view(&self) -> IDkgTranscriptParamsRefView {
        IDkgTranscriptParamsRefView {
            transcript_id: self.transcript_id,
            dealers: self.dealers@,
            receivers: self.receivers@,
            registry_version: self.registry_version,
            algorithm_id: self.algorithm_id,
            operation_type_ref: self.operation_type_ref,
        }
    }
}

impl IDkgTranscriptParamsRef {
    /// Builds fresh parameters carrying the same content.
    pub fn duplicate(&self) -> (r: Self)
        ensures
            r@ == self@,
    {
        IDkgTranscriptParamsRef {
            transcript_id: self.transcript_id,
            dealers: crate::support::copy_list(&self.dealers),
            receivers: crate::support::copy_list(&self.receivers),
            registry_version: self.registry_version,
            algorithm_id: self.algorithm_id,
            operation_type_ref: self.operation_type_ref,
        }
    }
}

/// The params and dealings a subnet hands to another subnet (or to its own
/// genesis) so that the receiver can bootstrap the resharing of a key.
#[derive(Clone, PartialEq, Eq, Debug)]
pub struct InitialIDkgDealings {
    pub params: IDkgTranscriptParamsRef,
    pub dealings: Vec<SignedIDkgDealing>,
}

/// A transcript construction operation with its sources resolved to full
/// transcripts.
#[derive(Clone, PartialEq, Eq, Debug)]
pub enum IDkgTranscriptOperation {
    Random,
    ReshareOfMasked(IDkgTranscript),
    ReshareOfUnmasked(IDkgTranscript),
    UnmaskedTimesMasked(IDkgTranscript, IDkgTranscript),
}

/// Whether a list of transcripts holds one with the given id.
pub open spec fn spec_has_transcript(s: Seq<IDkgTranscript>, id: IDkgTranscriptId) -> bool {
    exists|i: int| 0 <= i < s.len() && (#[trigger] s[i]).transcript_id == id
}

/// Whether a list of transcripts holds a completed masked transcript with the
/// given id.
pub open spec fn spec_has_completed_masked(s: Seq<IDkgTranscript>, id: IDkgTranscriptId) -> bool {
    exists|i: int|
        0 <= i < s.len() && (#[trigger] s[i]).transcript_id == id && s[i].transcript_type is Masked
}

/// Whether a list of transcripts holds a completed unmasked transcript with
/// the given id.
pub open spec fn spec_has_completed_unmasked(s: Seq<IDkgTranscript>, id: IDkgTranscriptId) -> bool {
    exists|i: int|
        0 <= i < s.len() && (#[trigger] s[i]).transcript_id == id && s[i].transcript_type is Unmasked
}

/// No two transcripts in the list share an id.
pub open spec fn spec_unique_transcript_ids(s: Seq<IDkgTranscript>) -> bool {
    forall|i: int, j: int|
        0 <= i < j < s.len() ==> (#[trigger] s[i]).transcript_id != (#[trigger] s[j]).transcript_id
}

/// Looks a transcript up by id.
pub fn find_transcript(v: &Vec<IDkgTranscript>, id: IDkgTranscriptId) -> (r: Option<&IDkgTranscript>)
    ensures
        match r {
            Some(t) => {
                &&& spec_has_transcript(v@, id)
                &&& t.transcript_id == id
                &&& exists|i: int| 0 <= i < v@.len() && *t == v@[i]
            },
            None => !spec_has_transcript(v@, id),
        },
{
    let mut i: usize = 0;
    while i < v.len()
        invariant
            0 <= i <= v.len(),
            forall|j: int| 0 <= j < i ==> (#[trigger] v@[j]).transcript_id != id,
        decreases v.len() - i,
    {
        if v[i].transcript_id == id {
            return Some(&v[i]);
        }
        i = i + 1;
    }
    None
}

/// Compact text for a transcript id: `Id(<subnet>, <id>, <height>)`.
pub open spec fn spec_transcript_id_text(tid: IDkgTranscriptId) -> Seq<char> {
    "Id("@ + spec_decimal(tid.source_subnet as nat) + ", "@ + spec_decimal(tid.id as nat) + ", "@
        + spec_decimal(tid.source_height as nat) + ")"@
}

/// Renders a transcript id as `Id(<subnet>, <id>, <height>)`.
pub fn transcript_id_text(tid: &IDkgTranscriptId) -> (s: String)
    ensures
        s@ == spec_transcript_id_text(*tid),
{
    let mut s = String::from_str("Id(");
    s.append(u64_to_decimal(tid.source_subnet).as_str());
    s.append(", ");
    s.append(u64_to_decimal(tid.id).as_str());
    s.append(", ");
    s.append(u64_to_decimal(tid.source_height).as_str());
    s.append(")");
    proof {
        assert(s@ =~= spec_transcript_id_text(*tid));
    }
    s
}

/// The brief text summary of a transcript operation.
pub open spec fn spec_transcript_op_summary(op: IDkgTranscriptOperation) -> Seq<char> {
    match op {
        IDkgTranscriptOperation::Random => "Random"@,
        IDkgTranscriptOperation::ReshareOfMasked(t) => "ReshareOfMasked("@
            + spec_transcript_id_text(t.transcript_id) + ")"@,
        IDkgTranscriptOperation::ReshareOfUnmasked(t) => "ReshareOfUnmasked("@
            + spec_transcript_id_text(t.transcript_id) + ")"@,
        IDkgTranscriptOperation::UnmaskedTimesMasked(t1, t2) => "UnmaskedTimesMasked("@
            + spec_transcript_id_text(t1.transcript_id) + ", "@
            + spec_transcript_id_text(t2.transcript_id) + ")"@,
    }
}

/// Brief summary of a transcript operation: the variant name, with the ids of
/// the source transcripts it draws on.
pub fn transcript_op_summary(op: &IDkgTranscriptOperation) -> (s: String)
    ensures
        s@ == spec_transcript_op_summary(*op),
{
    match op {
        IDkgTranscriptOperation::Random => String::from_str("Random"),
        IDkgTranscriptOperation::ReshareOfMasked(t) => {
            let mut s = String::from_str("ReshareOfMasked(");
            s.append(transcript_id_text(&t.transcript_id).as_str());
            s.append(")");
            proof {
                assert(s@ =~= spec_transcript_op_summary(*op));
            }
            s
        },
        IDkgTranscriptOperation::ReshareOfUnmasked(t) => {
            let mut s = String::from_str("ReshareOfUnmasked(");
            s.append(transcript_id_text(&t.transcript_id).as_str());
            s.append(")");
            proof {
                assert(s@ =~= spec_transcript_op_summary(*op));
            }
            s
        },
        IDkgTranscriptOperation::UnmaskedTimesMasked(t1, t2) => {
            let mut s = String::from_str("UnmaskedTimesMasked(");
            s.append(transcript_id_text(&t1.transcript_id).as_str());
            s.append(", ");
            s.append(transcript_id_text(&t2.transcript_id).as_str());
            s.append(")");
            proof {
                assert(s@ =~= spec_transcript_op_summary(*op));
            }
            s
        },
    }
}

} // verus!
