//! Artifacts exchanged through the pool, and the change-set vocabulary.
//!
//! Components never mutate the pool directly: each round they return a list
//! of change actions (the change set), and a single driver applies it.

use vstd::prelude::*;
use crate::ids::{IDkgTranscriptId, NodeId, RequestId};

verus! {

/// A dealer's contribution to one transcript, before signing.
#[derive(Clone, PartialEq, Eq, Debug)]
pub struct IDkgDealing {
    pub transcript_id: IDkgTranscriptId,
    pub internal_dealing_raw: Vec<u8>,
}

/// A signature together with the node that produced it.
#[derive(Clone, PartialEq, Eq, Debug)]
pub struct BasicSignature {
    pub signer: NodeId,
    pub signature_bytes: Vec<u8>,
}

/// Mathematical view of a signature envelope.
pub ghost struct BasicSignatureView {
    pub signer: NodeId,
    pub signature_bytes: Seq<u8>,
}

impl View for BasicSignature {
    type V = BasicSignatureView;

    open spec fn view(&self) -> BasicSignatureView {
        BasicSignatureView { signer: self.signer, signature_bytes: self.signature_bytes@ }
    }
}

/// A dealing signed by its dealer.
#[derive(Clone, PartialEq, Eq, Debug)]
pub struct SignedIDkgDealing {
    pub content: IDkgDealing,
    pub signature: BasicSignature,
}

/// Mathematical view of a dealing.
pub ghost struct IDkgDealingView {
    pub transcript_id: IDkgTranscriptId,
    pub internal_dealing_raw: Seq<u8>,
}

impl View for IDkgDealing {
    type V = IDkgDealingView;

    open spec fn view(&self) -> IDkgDealingView {
        IDkgDealingView {
            transcript_id: self.transcript_id,
            internal_dealing_raw: self.internal_dealing_raw@,
        }
    }
}

/// Mathematical view of a signed dealing.
pub ghost struct SignedIDkgDealingView {
    pub content: IDkgDealingView,
    pub signature: BasicSignatureView,
}

impl View for SignedIDkgDealing {
    type V = SignedIDkgDealingView;

    open spec fn view(&self) -> SignedIDkgDealingView {
        SignedIDkgDealingView { content: self.content@, signature: self.signature@ }
    }
}

impl SignedIDkgDealing {
    /// The node that dealt and signed this dealing.
    pub fn dealer_id(&self) -> (r: NodeId)
        ensures
            r == self.signature.signer,
    {
        self.signature.signer
    }

    /// The dealing carried inside the signature envelope.
    pub fn idkg_dealing(&self) -> (r: &IDkgDealing)
        ensures
            *r == self.content,
    {
        &self.content
    }

    /// Builds a fresh signed dealing carrying the same content.
    pub fn duplicate(&self) -> (r: Self)
        ensures
            r@ == self@,
    {
        SignedIDkgDealing {
            content: IDkgDealing {
                transcript_id: self.content.transcript_id,
                internal_dealing_raw: crate::support::copy_list(&self.content.internal_dealing_raw),
            },
            signature: BasicSignature {
                signer: self.signature.signer,
                signature_bytes: crate::support::copy_list(&self.signature.signature_bytes),
            },
        }
    }
}

/// A receiver's attestation that a dealing verified correctly.
#[derive(Clone, PartialEq, Eq, Debug)]
pub struct IDkgDealingSupport {
    pub transcript_id: IDkgTranscriptId,
    pub dealer_id: NodeId,
    pub dealing_hash: Vec<u8>,
    pub sig_share: BasicSignature,
}

/// The raw bytes of one replica's signature share.
#[derive(Clone, PartialEq, Eq, Debug)]
pub struct ThresholdEcdsaSigShare {
    pub sig_share_raw: Vec<u8>,
}

/// One replica's share for one signing request.
#[derive(Clone, PartialEq, Eq, Debug)]
pub struct EcdsaSigShare {
    pub signer_id: NodeId,
    pub request_id: RequestId,
    pub share: ThresholdEcdsaSigShare,
}

/// The combined final signature for one request.
#[derive(Clone, PartialEq, Eq, Debug)]
pub struct ThresholdEcdsaCombinedSignature {
    pub signature: Vec<u8>,
}

/// An accusation that a dealer misbehaved on one dealing.
#[derive(Clone, PartialEq, Eq, Debug)]
pub struct IDkgComplaint {
    pub transcript_id: IDkgTranscriptId,
    pub dealer_id: NodeId,
    pub internal_complaint_raw: Vec<u8>,
}

/// Mathematical view of a complaint's accusation.
pub ghost struct IDkgComplaintView {
    pub transcript_id: IDkgTranscriptId,
    pub dealer_id: NodeId,
    pub internal_complaint_raw: Seq<u8>,
}

impl View for IDkgComplaint {
    type V = IDkgComplaintView;

    open spec fn view(&self) -> IDkgComplaintView {
        IDkgComplaintView {
            transcript_id: self.transcript_id,
            dealer_id: self.dealer_id,
            internal_complaint_raw: self.internal_complaint_raw@,
        }
    }
}

/// Complaint content as stored in the pool.
#[derive(Clone, PartialEq, Eq, Debug)]
pub struct EcdsaComplaintContent {
    pub idkg_complaint: IDkgComplaint,
}

/// A complaint signed by the complainer.
#[derive(Clone, PartialEq, Eq, Debug)]
pub struct EcdsaComplaint {
    pub content: EcdsaComplaintContent,
    pub signature: BasicSignature,
}

/// Mathematical view of a signed complaint.
pub ghost struct EcdsaComplaintView {
    pub idkg_complaint: IDkgComplaintView,
    pub signature: BasicSignatureView,
}

impl View for EcdsaComplaint {
    type V = EcdsaComplaintView;

    open spec fn view(&self) -> EcdsaComplaintView {
        EcdsaComplaintView {
            idkg_complaint: self.content.idkg_complaint@,
            signature: self.signature@,
        }
    }
}

impl EcdsaComplaint {
    /// The signed content.
    pub fn get(&self) -> (r: &EcdsaComplaintContent)
        ensures
            *r == self.content,
    {
        &self.content
    }
}

/// Rebuttal data that lets a transcript be checked despite a complaint.
#[derive(Clone, PartialEq, Eq, Debug)]
pub struct IDkgOpening {
    pub transcript_id: IDkgTranscriptId,
    pub dealer_id: NodeId,
    pub internal_opening_raw: Vec<u8>,
}

/// Opening content: the rebuttal plus the complainer it answers.
#[derive(Clone, PartialEq, Eq, Debug)]
pub struct EcdsaOpeningContent {
    pub complainer_id: NodeId,
    pub idkg_opening: IDkgOpening,
}

/// An opening signed by the node that supplied it.
#[derive(Clone, PartialEq, Eq, Debug)]
pub struct EcdsaOpening {
    pub content: EcdsaOpeningContent,
    pub signature: BasicSignature,
}

impl EcdsaOpening {
    /// The signed content.
    pub fn get(&self) -> (r: &EcdsaOpeningContent)
        ensures
            *r == self.content,
    {
        &self.content
    }
}

/// Any artifact that can sit in the pool.
#[derive(Clone, PartialEq, Eq, Debug)]
pub enum EcdsaMessage {
    EcdsaSignedDealing(SignedIDkgDealing),
    EcdsaDealingSupport(IDkgDealingSupport),
    EcdsaSigShare(EcdsaSigShare),
    EcdsaComplaint(EcdsaComplaint),
    EcdsaOpening(EcdsaOpening),
}

/// Pool key of an artifact, derived from its identifying content.
///
/// Two artifacts of the same kind with the same identifying fields share a
/// key; the pool holds at most one validated artifact per key.
#[derive(Clone, Copy, PartialEq, Eq, Structural, Debug)]
pub enum EcdsaMessageId {
    Dealing { transcript_id: IDkgTranscriptId, dealer_id: NodeId },
    Support { transcript_id: IDkgTranscriptId, dealer_id: NodeId, signer: NodeId },
    SigShare { request_id: RequestId, signer: NodeId },
    Complaint { transcript_id: IDkgTranscriptId, dealer_id: NodeId, complainer: NodeId },
    Opening { transcript_id: IDkgTranscriptId, dealer_id: NodeId, opener: NodeId },
}

/// The pool key an artifact is stored under.
pub open spec fn spec_message_id(m: EcdsaMessage) -> EcdsaMessageId {
    match m {
        EcdsaMessage::EcdsaSignedDealing(d) => EcdsaMessageId::Dealing {
            transcript_id: d.content.transcript_id,
            dealer_id: d.signature.signer,
        },
        EcdsaMessage::EcdsaDealingSupport(s) => EcdsaMessageId::Support {
            transcript_id: s.transcript_id,
            dealer_id: s.dealer_id,
            signer: s.sig_share.signer,
        },
        EcdsaMessage::EcdsaSigShare(s) => EcdsaMessageId::SigShare {
            request_id: s.request_id,
            signer: s.signer_id,
        },
        EcdsaMessage::EcdsaComplaint(c) => EcdsaMessageId::Complaint {
            transcript_id: c.content.idkg_complaint.transcript_id,
            dealer_id: c.content.idkg_complaint.dealer_id,
            complainer: c.signature.signer,
        },
        EcdsaMessage::EcdsaOpening(o) => EcdsaMessageId::Opening {
            transcript_id: o.content.idkg_opening.transcript_id,
            dealer_id: o.content.idkg_opening.dealer_id,
            opener: o.signature.signer,
        },
    }
}

impl EcdsaMessage {
    /// Computes the pool key of this artifact.
    pub fn message_id(&self) -> (r: EcdsaMessageId)
        ensures
            r == spec_message_id(*self),
    {
        match self {
            EcdsaMessage::EcdsaSignedDealing(d) => EcdsaMessageId::Dealing {
                transcript_id: d.content.transcript_id,
                dealer_id: d.signature.signer,
            },
            EcdsaMessage::EcdsaDealingSupport(s) => EcdsaMessageId::Support {
                transcript_id: s.transcript_id,
                dealer_id: s.dealer_id,
                signer: s.sig_share.signer,
            },
            EcdsaMessage::EcdsaSigShare(s) => EcdsaMessageId::SigShare {
                request_id: s.request_id,
                signer: s.signer_id,
            },
            EcdsaMessage::EcdsaComplaint(c) => EcdsaMessageId::Complaint {
                transcript_id: c.content.idkg_complaint.transcript_id,
                dealer_id: c.content.idkg_complaint.dealer_id,
                complainer: c.signature.signer,
            },
            EcdsaMessage::EcdsaOpening(o) => EcdsaMessageId::Opening {
                transcript_id: o.content.idkg_opening.transcript_id,
                dealer_id: o.content.idkg_opening.dealer_id,
                opener: o.signature.signer,
            },
        }
    }
}

/// Why an artifact was handled as invalid.
#[derive(Clone, Copy, PartialEq, Eq, Structural, Debug)]
pub enum InvalidReason {
    DealerNotInDealerSet,
    DuplicateDealing,
    SignerNotInReceiverSet,
    DuplicateSupport,
    StaleShare,
    DuplicateShare,
}

impl InvalidReason {
    /// A short human-readable account of the reason.
    pub fn text(&self) -> (s: String)
        ensures
            s@ == spec_reason_text(*self),
    {
        match self {
            InvalidReason::DealerNotInDealerSet => String::from_str(
                "dealer not in the transcript's dealer set",
            ),
            InvalidReason::DuplicateDealing => String::from_str(
                "duplicate dealing for this transcript and dealer",
            ),
            InvalidReason::SignerNotInReceiverSet => String::from_str(
                "signer not in the transcript's receiver set",
            ),
            InvalidReason::DuplicateSupport => String::from_str(
                "duplicate support from this signer for this dealing",
            ),
            InvalidReason::StaleShare => String::from_str(
                "share for a request whose signature is already agreed",
            ),
            InvalidReason::DuplicateShare => String::from_str(
                "duplicate share from this signer for this request",
            ),
        }
    }
}

/// The text of each rejection reason.
pub open spec fn spec_reason_text(r: InvalidReason) -> Seq<char> {
    match r {
        InvalidReason::DealerNotInDealerSet => "dealer not in the transcript's dealer set"@,
        InvalidReason::DuplicateDealing => "duplicate dealing for this transcript and dealer"@,
        InvalidReason::SignerNotInReceiverSet => "signer not in the transcript's receiver set"@,
        InvalidReason::DuplicateSupport => "duplicate support from this signer for this dealing"@,
        InvalidReason::StaleShare => "share for a request whose signature is already agreed"@,
        InvalidReason::DuplicateShare => "duplicate share from this signer for this request"@,
    }
}

/// One pool mutation proposed by a component.
///
/// `HandleInvalid` carries the reason an artifact was rejected.
#[derive(Clone, PartialEq, Eq, Debug)]
pub enum EcdsaChangeAction {
    AddToValidated(EcdsaMessage),
    MoveToValidated(EcdsaMessageId),
    RemoveValidated(EcdsaMessageId),
    RemoveUnvalidated(EcdsaMessageId),
    HandleInvalid(EcdsaMessageId, InvalidReason),
}

/// The ordered list of pool mutations one component proposes for a round.
pub type EcdsaChangeSet = Vec<EcdsaChangeAction>;

} // verus!
