//! The per-block projection of protocol state: agreed and ongoing signatures,
//! available and in-creation quadruples, the key-transcript lifecycle, the id
//! generator, and the realized transcripts the rest of the payload refers to.

use vstd::prelude::*;
use crate::ids::{EcdsaUIDGenerator, QuadrupleId, RegistryVersion, RequestId, NodeId, TranscriptRef};
use crate::messages::ThresholdEcdsaCombinedSignature;
use crate::quadruple::{PreSignatureQuadrupleRef, QuadrupleInCreation};
use crate::sig_inputs::ThresholdEcdsaSigInputsRef;
use crate::transcript::{
    find_transcript, spec_has_transcript, spec_unique_transcript_ids, IDkgTranscript,
    IDkgTranscriptParamsRef, IDkgTranscriptParamsRefView, InitialIDkgDealings, UnmaskedTranscript,
};

verus! {

/// The elliptic curve a threshold key lives on.
#[derive(Clone, Copy, PartialEq, Eq, Structural, Debug)]
pub enum EcdsaCurve {
    Secp256k1,
}

/// Name of one threshold key: its curve and a human-chosen label.
#[derive(Clone, PartialEq, Eq, Debug)]
pub struct EcdsaKeyId {
    pub curve: EcdsaCurve,
    pub name: String,
}

/// Mathematical view of a key id.
pub ghost struct EcdsaKeyIdView {
    pub curve: EcdsaCurve,
    pub name: Seq<char>,
}

impl View for EcdsaKeyId {
    type V = EcdsaKeyIdView;

    open spec fn view(&self) -> EcdsaKeyIdView {
        EcdsaKeyIdView { curve: self.curve, name: self.name@ }
    }
}

/// A request from another subnet to reshare this subnet's key to its nodes.
#[derive(Clone, PartialEq, Eq, Debug)]
pub struct EcdsaReshareRequest {
    pub key_id: EcdsaKeyId,
    pub receiving_node_ids: Vec<NodeId>,
    pub registry_version: RegistryVersion,
}

/// A finished signature: either already reported to execution, or still to be
/// delivered.
#[derive(Clone, PartialEq, Eq, Debug)]
pub enum CompletedSignature {
    ReportedToExecution,
    Unreported(ThresholdEcdsaCombinedSignature),
}

/// A finished resharing request: either already reported, or its initial
/// dealings still to be delivered.
#[derive(Clone, PartialEq, Eq, Debug)]
pub enum CompletedReshareRequest {
    ReportedToExecution,
    Unreported(InitialIDkgDealings),
}

/// Lifecycle of the next key transcript, from nothing to a created transcript.
///
/// At most one key transcript is ever in creation, and it advances through
/// one resharing chain: random (or a cross-subnet bootstrap), then a reshare
/// of the masked secret, then a reshare of the unmasked secret.
#[derive(Clone, PartialEq, Eq, Debug)]
pub enum KeyTranscriptCreation {
    Begin,
    RandomTranscriptParams(IDkgTranscriptParamsRef),
    ReshareOfMaskedParams(IDkgTranscriptParamsRef),
    ReshareOfUnmaskedParams(IDkgTranscriptParamsRef),
    XnetReshareOfUnmaskedParams(IDkgTranscriptParamsRef),
    Created(UnmaskedTranscript),
}

/// The key-transcript slot of a payload: the current key, the next one in
/// creation, and the key id both belong to.
#[derive(Clone, PartialEq, Eq, Debug)]
pub struct EcdsaKeyTranscript {
    pub current: Option<UnmaskedTranscript>,
    pub next_in_creation: KeyTranscriptCreation,
    pub key_id: EcdsaKeyId,
}

impl EcdsaKeyTranscript {
    /// The transcript references the key slot retains.
    pub open spec fn spec_get_refs(self) -> Seq<TranscriptRef> {
        (match self.current {
            Some(u) => seq![u.0],
            None => Seq::empty(),
        }) + (match self.next_in_creation {
            KeyTranscriptCreation::Created(u) => seq![u.0],
            _ => Seq::empty(),
        })
    }

    /// Lists the transcript references the key slot retains.
    pub fn get_refs(&self) -> (r: Vec<TranscriptRef>)
        ensures
            r@ == self.spec_get_refs(),
    {
        let mut r: Vec<TranscriptRef> = Vec::new();
        if let Some(u) = &self.current {
            r.push(u.0);
        }
        if let KeyTranscriptCreation::Created(u) = &self.next_in_creation {
            r.push(u.0);
        }
        proof {
            assert(r@ =~= self.spec_get_refs());
        }
        r
    }

    /// The construction request of the key transcript now in creation, if the
    /// slot holds one.
    pub open spec fn spec_config_in_creation(self) -> Option<IDkgTranscriptParamsRefView> {
        match self.next_in_creation {
            KeyTranscriptCreation::Begin => None,
            KeyTranscriptCreation::RandomTranscriptParams(c) => Some(c@),
            KeyTranscriptCreation::ReshareOfMaskedParams(c) => Some(c@),
            KeyTranscriptCreation::ReshareOfUnmaskedParams(c) => Some(c@),
            KeyTranscriptCreation::XnetReshareOfUnmaskedParams(c) => Some(c@),
            KeyTranscriptCreation::Created(_) => None,
        }
    }

    /// The construction request of the key transcript now in creation.
    pub fn config_in_creation(&self) -> (r: Option<&IDkgTranscriptParamsRef>)
        ensures
            match r {
                Some(c) => self.spec_config_in_creation() == Some(c@),
                None => self.spec_config_in_creation() is None,
            },
    {
        match &self.next_in_creation {
            KeyTranscriptCreation::Begin => None,
            KeyTranscriptCreation::RandomTranscriptParams(c) => Some(c),
            KeyTranscriptCreation::ReshareOfMaskedParams(c) => Some(c),
            KeyTranscriptCreation::ReshareOfUnmaskedParams(c) => Some(c),
            KeyTranscriptCreation::XnetReshareOfUnmaskedParams(c) => Some(c),
            KeyTranscriptCreation::Created(_) => None,
        }
    }
}

/// The references retained by a list of ongoing signature requests.
pub open spec fn spec_sig_refs_seq(s: Seq<(RequestId, ThresholdEcdsaSigInputsRef)>) -> Seq<
    TranscriptRef,
>
    decreases s.len(),
{
    if s.len() == 0 {
        Seq::empty()
    } else {
        spec_sig_refs_seq(s.drop_last()) + s.last().1.spec_get_refs()
    }
}

/// The references retained by a list of available quadruples.
pub open spec fn spec_avail_refs_seq(s: Seq<(QuadrupleId, PreSignatureQuadrupleRef)>) -> Seq<
    TranscriptRef,
>
    decreases s.len(),
{
    if s.len() == 0 {
        Seq::empty()
    } else {
        spec_avail_refs_seq(s.drop_last()) + s.last().1.spec_get_refs()
    }
}

/// The references retained by a list of quadruples in creation.
pub open spec fn spec_in_creation_refs_seq(s: Seq<(QuadrupleId, QuadrupleInCreation)>) -> Seq<
    TranscriptRef,
>
    decreases s.len(),
{
    if s.len() == 0 {
        Seq::empty()
    } else {
        spec_in_creation_refs_seq(s.drop_last()) + s.last().1.spec_get_refs()
    }
}

/// The outstanding construction requests of a list of quadruples in creation.
pub open spec fn spec_quadruple_configs_seq(s: Seq<(QuadrupleId, QuadrupleInCreation)>) -> Seq<
    IDkgTranscriptParamsRefView,
>
    decreases s.len(),
{
    if s.len() == 0 {
        Seq::empty()
    } else {
        spec_quadruple_configs_seq(s.drop_last()) + s.last().1.spec_configs_in_creation()
    }
}

/// The per-block protocol state.
///
/// Every map is a key-unique association list; `idkg_transcripts` realizes
/// the transcript references used elsewhere in the payload.
#[derive(Clone, PartialEq, Eq, Debug)]
pub struct EcdsaPayload {
    pub signature_agreements: Vec<(RequestId, CompletedSignature)>,
    pub ongoing_signatures: Vec<(RequestId, ThresholdEcdsaSigInputsRef)>,
    pub available_quadruples: Vec<(QuadrupleId, PreSignatureQuadrupleRef)>,
    pub quadruples_in_creation: Vec<(QuadrupleId, QuadrupleInCreation)>,
    pub uid_generator: EcdsaUIDGenerator,
    pub idkg_transcripts: Vec<IDkgTranscript>,
    pub ongoing_xnet_reshares: Vec<(EcdsaReshareRequest, IDkgTranscriptParamsRef)>,
    pub xnet_reshare_agreements: Vec<(EcdsaReshareRequest, CompletedReshareRequest)>,
    pub key_transcript: EcdsaKeyTranscript,
}

impl EcdsaPayload {
    /// A payload with nothing in flight, seeded for the given subnet.
    pub fn empty(subnet_id: crate::ids::SubnetId, key_id: EcdsaKeyId) -> (r: Self)
        ensures
            r.signature_agreements@.len() == 0,
            r.ongoing_signatures@.len() == 0,
            r.available_quadruples@.len() == 0,
            r.quadruples_in_creation@.len() == 0,
            r.idkg_transcripts@.len() == 0,
            r.ongoing_xnet_reshares@.len() == 0,
            r.xnet_reshare_agreements@.len() == 0,
            r.uid_generator == (EcdsaUIDGenerator {
                subnet_id,
                height: 0u64,
                next_unused_transcript_id: 0u64,
                next_unused_quadruple_id: 0u64,
            }),
            r.key_transcript.current is None,
            r.key_transcript.next_in_creation is Begin,
            r.key_transcript.key_id@ == key_id@,
            r.well_formed(),
    {
        EcdsaPayload {
            signature_agreements: Vec::new(),
            ongoing_signatures: Vec::new(),
            available_quadruples: Vec::new(),
            quadruples_in_creation: Vec::new(),
            uid_generator: EcdsaUIDGenerator::new(subnet_id, 0),
            idkg_transcripts: Vec::new(),
            ongoing_xnet_reshares: Vec::new(),
            xnet_reshare_agreements: Vec::new(),
            key_transcript: EcdsaKeyTranscript {
                current: None,
                next_in_creation: KeyTranscriptCreation::Begin,
                key_id,
            },
        }
    }

    /// Structural validity: realized transcripts are keyed uniquely by id,
    /// and every quadruple in creation respects the staging order.
    pub open spec fn well_formed(self) -> bool {
        &&& spec_unique_transcript_ids(self.idkg_transcripts@)
        &&& forall|i: int|
            0 <= i < self.quadruples_in_creation@.len()
                ==> (#[trigger] self.quadruples_in_creation@[i]).1.well_formed()
    }

    /// Looks a realized transcript up by id.
    pub fn idkg_transcript(&self, id: crate::ids::IDkgTranscriptId) -> (r: Option<&IDkgTranscript>)
        ensures
            match r {
                Some(t) => {
                    &&& spec_has_transcript(self.idkg_transcripts@, id)
                    &&& t.transcript_id == id
                    &&& exists|i: int|
                        0 <= i < self.idkg_transcripts@.len() && *t == self.idkg_transcripts@[i]
                },
                None => !spec_has_transcript(self.idkg_transcripts@, id),
            },
    {
        find_transcript(&self.idkg_transcripts, id)
    }

    /// The outstanding transcript construction requests of this payload: the
    /// quadruples' pending stages, then the key transcript's request.
    pub open spec fn spec_configs_in_creation(self) -> Seq<IDkgTranscriptParamsRefView> {
        spec_quadruple_configs_seq(self.quadruples_in_creation@) + (
        match self.key_transcript.spec_config_in_creation() {
            Some(c) => seq![c],
            None => Seq::empty(),
        })
    }

    /// Lists the transcript construction requests not yet complete in this
    /// payload, quadruple stages first, then the key transcript's request.
    pub fn iter_transcript_configs_in_creation(&self) -> (r: Vec<IDkgTranscriptParamsRef>)
        ensures
            r@.len() == self.spec_configs_in_creation().len(),
            forall|j: int|
                0 <= j < r@.len() ==> (#[trigger] r@[j])@ == self.spec_configs_in_creation()[j],
    {
        let mut r: Vec<IDkgTranscriptParamsRef> = Vec::new();
        let mut i: usize = 0;
        while i < self.quadruples_in_creation.len()
            invariant
                0 <= i <= self.quadruples_in_creation@.len(),
                r@.len() == spec_quadruple_configs_seq(
                    self.quadruples_in_creation@.take(i as int),
                ).len(),
                forall|j: int|
                    0 <= j < r@.len() ==> (#[trigger] r@[j])@ == spec_quadruple_configs_seq(
                        self.quadruples_in_creation@.take(i as int),
                    )[j],
            decreases self.quadruples_in_creation@.len() - i,
        {
            let mut part = self.quadruples_in_creation[i].1.configs_in_creation();
            let ghost old_r = r@;
            let ghost old_part = part@;
            r.append(&mut part);
            proof {
                let taken = self.quadruples_in_creation@.take(i as int + 1);
                assert(taken.drop_last() =~= self.quadruples_in_creation@.take(i as int));
                assert(taken.last() == self.quadruples_in_creation@[i as int]);
                assert(r@ =~= old_r + old_part);
            }
            i = i + 1;
        }
        proof {
            assert(self.quadruples_in_creation@.take(self.quadruples_in_creation@.len() as int)
                =~= self.quadruples_in_creation@);
        }
        if let Some(c) = self.key_transcript.config_in_creation() {
            r.push(c.duplicate());
        }
        r
    }

    /// Lists the construction requests of resharings this subnet is the
    /// source of.
    pub fn iter_xnet_transcripts_source_subnet(&self) -> (r: Vec<IDkgTranscriptParamsRef>)
        ensures
            r@.len() == self.ongoing_xnet_reshares@.len(),
            forall|j: int|
                0 <= j < r@.len() ==> (#[trigger] r@[j])@ == self.ongoing_xnet_reshares@[j].1@,
    {
        let mut r: Vec<IDkgTranscriptParamsRef> = Vec::new();
        let mut i: usize = 0;
        while i < self.ongoing_xnet_reshares.len()
            invariant
                0 <= i <= self.ongoing_xnet_reshares@.len(),
                r@.len() == i,
                forall|j: int|
                    0 <= j < i ==> (#[trigger] r@[j])@ == self.ongoing_xnet_reshares@[j].1@,
            decreases self.ongoing_xnet_reshares@.len() - i,
        {
            r.push(self.ongoing_xnet_reshares[i].1.duplicate());
            i = i + 1;
        }
        r
    }

    /// The construction request this subnet works on as the target of a
    /// cross-subnet resharing (a key bootstrapped from another subnet).
    pub open spec fn spec_xnet_configs_target_subnet(self) -> Seq<IDkgTranscriptParamsRefView> {
        match self.key_transcript.next_in_creation {
            KeyTranscriptCreation::XnetReshareOfUnmaskedParams(c) => seq![c@],
            _ => Seq::empty(),
        }
    }

    /// Lists the construction requests of resharings this subnet is the
    /// target of.
    pub fn iter_xnet_transcripts_target_subnet(&self) -> (r: Vec<IDkgTranscriptParamsRef>)
        ensures
            r@.len() == self.spec_xnet_configs_target_subnet().len(),
            forall|j: int|
                0 <= j < r@.len() ==> (#[trigger] r@[j])@ == self.spec_xnet_configs_target_subnet()[j],
    {
        let mut r: Vec<IDkgTranscriptParamsRef> = Vec::new();
        if let KeyTranscriptCreation::XnetReshareOfUnmaskedParams(c) = &self.key_transcript.next_in_creation {
            r.push(c.duplicate());
        }
        r
    }

    /// Every transcript reference the payload retains, duplicates included:
    /// ongoing signatures, available quadruples, quadruples in creation, and
    /// the key slot.
    pub open spec fn spec_active_ref_seq(self) -> Seq<TranscriptRef> {
        spec_sig_refs_seq(self.ongoing_signatures@) + spec_avail_refs_seq(
            self.available_quadruples@,
        ) + spec_in_creation_refs_seq(self.quadruples_in_creation@)
            + self.key_transcript.spec_get_refs()
    }

    /// The set of transcript references that must be retained.
    pub open spec fn spec_active_refs(self) -> Set<TranscriptRef> {
        self.spec_active_ref_seq().to_set()
    }

    /// Lists, without duplicates, every transcript reference the payload
    /// still needs; the pool must not purge these.
    pub fn active_transcripts(&self) -> (r: Vec<TranscriptRef>)
        ensures
            r@.no_duplicates(),
            r@.to_set() == self.spec_active_refs(),
    {
        let mut all: Vec<TranscriptRef> = Vec::new();

        let mut i: usize = 0;
        while i < self.ongoing_signatures.len()
            invariant
                0 <= i <= self.ongoing_signatures@.len(),
                all@ =~= spec_sig_refs_seq(self.ongoing_signatures@.take(i as int)),
            decreases self.ongoing_signatures@.len() - i,
        {
            let mut part = self.ongoing_signatures[i].1.get_refs();
            all.append(&mut part);
            proof {
                let taken = self.ongoing_signatures@.take(i as int + 1);
                assert(taken.drop_last() =~= self.ongoing_signatures@.take(i as int));
                assert(taken.last() == self.ongoing_signatures@[i as int]);
            }
            i = i + 1;
        }
        proof {
            assert(self.ongoing_signatures@.take(self.ongoing_signatures@.len() as int)
                =~= self.ongoing_signatures@);
        }

        let ghost part1 = all@;
        let mut i: usize = 0;
        while i < self.available_quadruples.len()
            invariant
                0 <= i <= self.available_quadruples@.len(),
                all@ =~= part1 + spec_avail_refs_seq(self.available_quadruples@.take(i as int)),
            decreases self.available_quadruples@.len() - i,
        {
            let mut part = self.available_quadruples[i].1.get_refs();
            all.append(&mut part);
            proof {
                let taken = self.available_quadruples@.take(i as int + 1);
                assert(taken.drop_last() =~= self.available_quadruples@.take(i as int));
                assert(taken.last() == self.available_quadruples@[i as int]);
            }
            i = i + 1;
        }
        proof {
            assert(self.available_quadruples@.take(self.available_quadruples@.len() as int)
                =~= self.available_quadruples@);
        }

        let ghost part2 = all@;
        let mut i: usize = 0;
        while i < self.quadruples_in_creation.len()
            invariant
                0 <= i <= self.quadruples_in_creation@.len(),
                all@ =~= part2 + spec_in_creation_refs_seq(
                    self.quadruples_in_creation@.take(i as int),
                ),
            decreases self.quadruples_in_creation@.len() - i,
        {
            let mut part = self.quadruples_in_creation[i].1.get_refs();
            all.append(&mut part);
            proof {
                let taken = self.quadruples_in_creation@.take(i as int + 1);
                assert(taken.drop_last() =~= self.quadruples_in_creation@.take(i as int));
                assert(taken.last() == self.quadruples_in_creation@[i as int]);
            }
            i = i + 1;
        }
        proof {
            assert(self.quadruples_in_creation@.take(self.quadruples_in_creation@.len() as int)
                =~= self.quadruples_in_creation@);
        }

        let mut part = self.key_transcript.get_refs();
        all.append(&mut part);
        proof {
            assert(all@ =~= self.spec_active_ref_seq());
        }

        dedup_refs(&all)
    }
}

/// Whether a list of references holds the given one.
pub fn contains_ref(v: &Vec<TranscriptRef>, x: TranscriptRef) -> (b: bool)
    ensures
        b == v@.contains(x),
{
    let mut i: usize = 0;
    while i < v.len()
        invariant
            0 <= i <= v.len(),
            forall|j: int| 0 <= j < i ==> v@[j] != x,
        decreases v.len() - i,
    {
        if v[i] == x {
            return true;
        }
        i = i + 1;
    }
    false
}

/// Drops repeated references, keeping the first occurrence of each.
pub fn dedup_refs(v: &Vec<TranscriptRef>) -> (r: Vec<TranscriptRef>)
    ensures
        r@.no_duplicates(),
        r@.to_set() == v@.to_set(),
{
    let mut r: Vec<TranscriptRef> = Vec::new();
    let mut i: usize = 0;
    while i < v.len()
        invariant
            0 <= i <= v.len(),
            r@.no_duplicates(),
            r@.to_set() =~= v@.take(i as int).to_set(),
        decreases v.len() - i,
    {
        let x = v[i];
        let ghost old_r = r@;
        if !contains_ref(&r, x) {
            r.push(x);
            proof {
                assert forall|k: int, l: int| 0 <= k < l < r@.len() implies r@[k] != r@[l] by {
                    if l == r@.len() - 1 {
                        assert(r@[k] == old_r[k]);
                        assert(old_r.contains(r@[k]));
                    }
                }
            }
        }
        proof {
            let taken = v@.take(i as int + 1);
            assert(r@.contains(x)) by {
                if old_r.contains(x) {
                    let k = choose|k: int| 0 <= k < old_r.len() && old_r[k] == x;
                    assert(r@[k] == x);
                } else {
                    assert(r@[r@.len() - 1] == x);
                }
            }
            assert forall|y: TranscriptRef| taken.contains(y) implies r@.contains(y) by {
                let k = choose|k: int| 0 <= k < taken.len() && taken[k] == y;
                if k < i as int {
                    assert(v@.take(i as int)[k] == y);
                    assert(v@.take(i as int).contains(y));
                    assert(v@.take(i as int).to_set().contains(y));
                    assert(old_r.to_set().contains(y));
                    assert(old_r.contains(y));
                    let k2 = choose|k2: int| 0 <= k2 < old_r.len() && old_r[k2] == y;
                    assert(r@[k2] == y);
                } else {
                    assert(y == v@[i as int]);
                }
            }
            assert forall|y: TranscriptRef| r@.contains(y) implies taken.contains(y) by {
                let k = choose|k: int| 0 <= k < r@.len() && r@[k] == y;
                if k < old_r.len() {
                    assert(old_r[k] == y);
                    assert(old_r.contains(y));
                    assert(old_r.to_set().contains(y));
                    assert(v@.take(i as int).to_set().contains(y));
                    assert(v@.take(i as int).contains(y));
                    let k2 = choose|k2: int| 0 <= k2 < i as int && v@.take(i as int)[k2] == y;
                    assert(taken[k2] == y);
                } else {
                    assert(y == x);
                    assert(taken[i as int] == y);
                }
            }
            assert forall|y: TranscriptRef| #[trigger] r@.to_set().contains(y) implies
                taken.to_set().contains(y) by {
                assert(r@.contains(y));
                assert(taken.contains(y));
            }
            assert forall|y: TranscriptRef| #[trigger] taken.to_set().contains(y) implies
                r@.to_set().contains(y) by {
                assert(taken.contains(y));
                assert(r@.contains(y));
            }
            assert(r@.to_set() =~= taken.to_set());
        }
        i = i + 1;
    }
    proof {
        assert(v@.take(v@.len() as int) =~= v@);
    }
    r
}

} // verus!
