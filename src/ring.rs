//! The decisions of ring verification. A ring signature holds a blinded VRF
//! signature and a ring-membership proof over the key commitment inside it.
//! Verification checks the VRF signature, takes the key commitment out of it,
//! and checks the ring proof against that commitment. The checks themselves
//! are made by the caller; this module decides what comes next from each
//! outcome, and collapses every rejection into one error so that a verifier
//! never tells which half of a signature failed.
use vstd::prelude::*;

verus! {

/// The one way a ring signature is rejected.
#[derive(Clone, Copy, Debug, PartialEq, Eq, Structural)]
pub enum Error {
    VerificationFailure,
}

/// Where a ring verification stands.
#[derive(Debug, PartialEq, Eq)]
pub enum VerifyState {
    /// The blinded VRF signature has not been checked yet.
    AwaitVrf,
    /// The VRF signature is valid; its key commitment has not been taken out.
    AwaitCommitment,
    /// The commitment is admissible; the ring proof has not been checked.
    AwaitRingProof,
    /// Verification is over, with this verdict.
    Done(Result<(), Error>),
}

/// An outcome that the caller reports.
#[derive(Debug, PartialEq, Eq)]
pub enum VerifyEvent {
    /// Whether the blinded VRF signature is valid for the input and the
    /// associated data.
    VrfChecked(bool),
    /// The affine coordinates of the key commitment, encoded; `None` where
    /// the commitment is the identity point, which has none.
    CommitmentExtracted(Option<Vec<u8>>),
    /// Whether the ring proof holds for the commitment.
    RingProofChecked(bool),
}

/// What the caller is to do next.
#[derive(Debug, PartialEq, Eq)]
pub enum VerifyAction {
    /// Check the blinded VRF signature.
    CheckVrfSignature,
    /// Take the key commitment out of the VRF signature.
    ExtractCommitment,
    /// Check the ring proof against the commitment with these coordinates,
    /// read in the full curve group.
    CheckRingProof(Vec<u8>),
    /// Stop with this verdict.
    Finish(Result<(), Error>),
}

/// The state and action that follow `event` in state `s`. An event that the
/// state does not await rejects the signature.
pub open spec fn verify_step_spec(s: VerifyState, event: VerifyEvent) -> (VerifyState, VerifyAction) {
    let reject = (
        VerifyState::Done(Err(Error::VerificationFailure)),
        VerifyAction::Finish(Err(Error::VerificationFailure)),
    );
    match s {
        VerifyState::AwaitVrf => match event {
            VerifyEvent::VrfChecked(true) => (
                VerifyState::AwaitCommitment,
                VerifyAction::ExtractCommitment,
            ),
            _ => reject,
        },
        VerifyState::AwaitCommitment => match event {
            VerifyEvent::CommitmentExtracted(Some(c)) => (
                VerifyState::AwaitRingProof,
                VerifyAction::CheckRingProof(c),
            ),
            _ => reject,
        },
        VerifyState::AwaitRingProof => match event {
            VerifyEvent::RingProofChecked(true) => (
                VerifyState::Done(Ok(())),
                VerifyAction::Finish(Ok(())),
            ),
            _ => reject,
        },
        VerifyState::Done(v) => (VerifyState::Done(v), VerifyAction::Finish(v)),
    }
}

impl VerifyState {
    /// The state in which every ring verification starts.
    pub fn start() -> (r: (VerifyState, VerifyAction))
        ensures
            r == (VerifyState::AwaitVrf, VerifyAction::CheckVrfSignature),
    {
        (VerifyState::AwaitVrf, VerifyAction::CheckVrfSignature)
    }

    /// The verdict, once verification is over.
    pub open spec fn verdict(self) -> Option<Result<(), Error>> {
        match self {
            VerifyState::Done(v) => Some(v),
            _ => None,
        }
    }
}

/// Moves a ring verification on by one reported outcome.
pub fn ring_verify_step(s: VerifyState, event: VerifyEvent) -> (r: (VerifyState, VerifyAction))
    ensures
        r == verify_step_spec(s, event),
{
    let reject = (
        VerifyState::Done(Err(Error::VerificationFailure)),
        VerifyAction::Finish(Err(Error::VerificationFailure)),
    );
    match s {
        VerifyState::AwaitVrf => match event {
            VerifyEvent::VrfChecked(true) => (
                VerifyState::AwaitCommitment,
                VerifyAction::ExtractCommitment,
            ),
            _ => reject,
        },
        VerifyState::AwaitCommitment => match event {
            VerifyEvent::CommitmentExtracted(Some(c)) => (
                VerifyState::AwaitRingProof,
                VerifyAction::CheckRingProof(c),
            ),
            _ => reject,
        },
        VerifyState::AwaitRingProof => match event {
            VerifyEvent::RingProofChecked(true) => (
                VerifyState::Done(Ok(())),
                VerifyAction::Finish(Ok(())),
            ),
            _ => reject,
        },
        VerifyState::Done(v) => (VerifyState::Done(v), VerifyAction::Finish(v)),
    }
}

/// The verdict of a verification in which the VRF check gave `vrf_valid`,
/// the commitment came out as `commitment`, and the ring-proof check gave
/// `ring_valid`, each step taken only while the previous ones passed.
pub open spec fn ring_verdict(
    vrf_valid: bool,
    commitment: Option<Vec<u8>>,
    ring_valid: bool,
) -> Result<(), Error> {
    let s1 = verify_step_spec(VerifyState::AwaitVrf, VerifyEvent::VrfChecked(vrf_valid)).0;
    let s2 = match s1 {
        VerifyState::Done(_) => s1,
        _ => verify_step_spec(s1, VerifyEvent::CommitmentExtracted(commitment)).0,
    };
    let s3 = match s2 {
        VerifyState::Done(_) => s2,
        _ => verify_step_spec(s2, VerifyEvent::RingProofChecked(ring_valid)).0,
    };
    match s3 {
        VerifyState::Done(v) => v,
        _ => Err(Error::VerificationFailure),
    }
}

/// Verification succeeds exactly when the VRF signature is valid, its key
/// commitment is not the identity, and the ring proof holds for it; every
/// other outcome is the one undistinguished `VerificationFailure`.
pub proof fn lemma_ring_verdict(vrf_valid: bool, commitment: Option<Vec<u8>>, ring_valid: bool)
    ensures
        ring_verdict(vrf_valid, commitment, ring_valid) == Ok::<(), Error>(()) <==> (vrf_valid
            && commitment.is_some() && ring_valid),
        ring_verdict(vrf_valid, commitment, ring_valid) != Ok::<(), Error>(()) ==> ring_verdict(
            vrf_valid,
            commitment,
            ring_valid,
        ) == Err::<(), Error>(Error::VerificationFailure),
{
}

/// Once a verification is over, no later event changes its verdict.
pub proof fn lemma_verdict_final(v: Result<(), Error>, event: VerifyEvent)
    ensures
        verify_step_spec(VerifyState::Done(v), event).0 == VerifyState::Done(v),
{
}

/// Why a ring cannot be used with a context.
#[derive(Clone, Copy, Debug, PartialEq, Eq, Structural)]
pub enum RingSetupError {
    /// The ring has more members than the context's domain holds.
    RingTooLarge,
    /// The signer's public key is not at the index the prover is bound to.
    SignerNotAtIndex,
}

/// The reusable setup of ring proofs, as far as ring membership is concerned:
/// the domain size bounds how many public keys a ring may hold.
#[derive(Clone, Copy, Debug, PartialEq, Eq, Structural)]
pub struct RingContext {
    pub domain_size: usize,
}

/// Whether the encoded public key `public` stands at `index` of `ring`.
pub open spec fn signer_at(ring: Seq<Vec<u8>>, index: int, public: Seq<u8>) -> bool {
    0 <= index < ring.len() && ring[index]@ == public
}

fn bytes_equal(a: &[u8], b: &[u8]) -> (r: bool)
    ensures
        r == (a@ == b@),
{
    if a.len() != b.len() {
        return false;
    }
    let mut i: usize = 0;
    while i < a.len()
        invariant
            a@.len() == b@.len(),
            i <= a@.len(),
            forall|j: int| 0 <= j < i ==> a@[j] == b@[j],
        decreases a@.len() - i,
    {
        if a[i] != b[i] {
            return false;
        }
        i = i + 1;
    }
    assert(a@ =~= b@);
    true
}

impl RingContext {
    /// Accepts a ring of encoded public keys only if the domain can hold it:
    /// keys are never derived for a larger ring.
    pub fn check_ring(&self, ring: &Vec<Vec<u8>>) -> (r: Result<(), RingSetupError>)
        ensures
            r == (if ring@.len() <= self.domain_size {
                Ok(())
            } else {
                Err(RingSetupError::RingTooLarge)
            }),
    {
        if ring.len() <= self.domain_size {
            Ok(())
        } else {
            Err(RingSetupError::RingTooLarge)
        }
    }

    /// Accepts binding a prover to `index` of `ring` only if the ring fits the
    /// domain and the signer's encoded public key stands at that index. A
    /// mismatch is refused here rather than surfacing as a signature that
    /// fails verification.
    pub fn check_signer(&self, ring: &Vec<Vec<u8>>, index: usize, public: &[u8]) -> (r: Result<
        (),
        RingSetupError,
    >)
        ensures
            r == (if ring@.len() > self.domain_size {
                Err(RingSetupError::RingTooLarge)
            } else if !signer_at(ring@, index as int, public@) {
                Err(RingSetupError::SignerNotAtIndex)
            } else {
                Ok(())
            }),
    {
        self.check_ring(ring)?;
        if index >= ring.len() {
            return Err(RingSetupError::SignerNotAtIndex);
        }
        if bytes_equal(ring[index].as_slice(), public) {
            Ok(())
        } else {
            Err(RingSetupError::SignerNotAtIndex)
        }
    }
}

} // verus!
