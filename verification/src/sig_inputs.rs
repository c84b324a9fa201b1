//! The inputs one signing request consumes: derivation path, message hash,
//! randomness, and the presignature quadruple plus key transcript reference.

use vstd::prelude::*;
use crate::ids::TranscriptRef;
use crate::quadruple::PreSignatureQuadrupleRef;
use crate::support::{copy_list, copy_nested_bytes};
use crate::transcript::UnmaskedTranscript;

verus! {

/// The caller and path a derived key is requested under.
#[derive(Clone, PartialEq, Eq, Debug)]
pub struct ExtendedDerivationPath {
    pub caller: u64,
    pub derivation_path: Vec<Vec<u8>>,
}

/// Mathematical view of an extended derivation path.
pub ghost struct ExtendedDerivationPathView {
    pub caller: u64,
    pub derivation_path: Seq<Seq<u8>>,
}

impl View for ExtendedDerivationPath {
    type V = ExtendedDerivationPathView;

    open spec fn view(&self) -> ExtendedDerivationPathView {
        ExtendedDerivationPathView {
            caller: self.caller,
            derivation_path: self.derivation_path@.map_values(|b: Vec<u8>| b@),
        }
    }
}

/// Everything a request needs to be signed once its transcripts are resolved.
#[derive(Clone, PartialEq, Eq, Debug)]
pub struct ThresholdEcdsaSigInputsRef {
    pub derivation_path: ExtendedDerivationPath,
    pub hashed_message: Vec<u8>,
    pub nonce: Vec<u8>,
    pub presig_quadruple_ref: PreSignatureQuadrupleRef,
    pub key_transcript_ref: UnmaskedTranscript,
}

/// Mathematical view of a request's signing inputs.
pub ghost struct ThresholdEcdsaSigInputsRefView {
    pub derivation_path: ExtendedDerivationPathView,
    pub hashed_message: Seq<u8>,
    pub nonce: Seq<u8>,
    pub presig_quadruple_ref: PreSignatureQuadrupleRef,
    pub key_transcript_ref: UnmaskedTranscript,
}

impl View for ThresholdEcdsaSigInputsRef {
    type V = ThresholdEcdsaSigInputsRefView;

    open spec fn view(&self) -> ThresholdEcdsaSigInputsRefView {
        ThresholdEcdsaSigInputsRefView {
            derivation_path: self.derivation_path@,
            hashed_message: self.hashed_message@,
            nonce: self.nonce@,
            presig_quadruple_ref: self.presig_quadruple_ref,
            key_transcript_ref: self.key_transcript_ref,
        }
    }
}

impl ThresholdEcdsaSigInputsRef {
    /// Bundles the inputs of one signing request.
    pub fn new(
        derivation_path: ExtendedDerivationPath,
        hashed_message: Vec<u8>,
        nonce: Vec<u8>,
        presig_quadruple_ref: PreSignatureQuadrupleRef,
        key_transcript_ref: UnmaskedTranscript,
    ) -> (r: Self)
        ensures
            r == (ThresholdEcdsaSigInputsRef {
                derivation_path,
                hashed_message,
                nonce,
                presig_quadruple_ref,
                key_transcript_ref,
            }),
    {
        ThresholdEcdsaSigInputsRef {
            derivation_path,
            hashed_message,
            nonce,
            presig_quadruple_ref,
            key_transcript_ref,
        }
    }

    /// The transcript references this request retains: the quadruple's four
    /// transcripts plus the key transcript.
    pub open spec fn spec_get_refs(self) -> Seq<TranscriptRef> {
        self.presig_quadruple_ref.spec_get_refs().push(self.key_transcript_ref.0)
    }

    /// Lists the transcript references this request retains.
    pub fn get_refs(&self) -> (r: Vec<TranscriptRef>)
        ensures
            r@ == self.spec_get_refs(),
    {
        let mut r = self.presig_quadruple_ref.get_refs();
        r.push(self.key_transcript_ref.0);
        r
    }

    /// Builds fresh inputs carrying the same content.
    pub fn duplicate(&self) -> (r: Self)
        ensures
            r@ == self@,
    {
        let r = ThresholdEcdsaSigInputsRef {
            derivation_path: ExtendedDerivationPath {
                caller: self.derivation_path.caller,
                derivation_path: copy_nested_bytes(&self.derivation_path.derivation_path),
            },
            hashed_message: copy_list(&self.hashed_message),
            nonce: copy_list(&self.nonce),
            presig_quadruple_ref: self.presig_quadruple_ref,
            key_transcript_ref: self.key_transcript_ref,
        };
        proof {
            assert(r.derivation_path@.derivation_path =~= self.derivation_path@.derivation_path);
        }
        r
    }
}

} // verus!
