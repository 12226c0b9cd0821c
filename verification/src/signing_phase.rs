//! The stage that has the commit of an ordered block signed.
//!
//! The stage keeps no state of its own. It hands the request to the signer,
//! which alone knows the key and what was signed before, and reports the
//! signer's verdict, signature or rejection, together with the commit that the
//! verdict is about. It never asks twice and never hides a rejection.
//!
//! What the signer owes in return, that it never signs two commits for one
//! round and that it repeats a signature rather than make a new one, cannot
//! be proved of a signer that lives outside. It is written down here as two
//! predicates over a run, and the laws at the end of this file show that a
//! runtime's responses inherit both from a signer that keeps them.

use vstd::prelude::*;
use std::sync::Arc;
use crate::ledger_info::{LedgerInfo, LedgerInfoWithSignatures, Signature};
use crate::pipeline_phase::{PipelinePhase, StatelessPipeline};

verus! {

/// The commit to sign, with the ordered ledger info that justifies signing.
#[derive(Debug, PartialEq, Eq)]
pub struct SigningRequest {
    pub ordered_ledger_info: LedgerInfoWithSignatures,
    pub commit_ledger_info: LedgerInfo,
}

/// The signer's verdict, with the commit that it was asked about.
#[derive(Debug, PartialEq, Eq)]
pub struct SigningResponse {
    pub signature_result: Result<Signature, SafetyError>,
    pub commit_ledger_info: LedgerInfo,
}

/// Why the signer refused, or failed, to sign a commit.
#[derive(Clone, Copy, Debug, PartialEq, Eq, Hash)]
pub enum SafetyError {
    /// Another commit was signed for this epoch and round before.
    Equivocation,
    /// The round lies below one that was signed before.
    StaleRound,
    /// The signer could not store its state.
    Persistence,
}

/// The signer that the stage relies on: it holds the key and the voting
/// history, and decides whether a commit may be signed.
pub trait CommitSignerProvider: Send + Sync {
    /// Whether `outcome` is a verdict that this signer may give when asked
    /// to sign `new_ledger_info` on the strength of `ledger_info`.
    open spec fn may_sign(
        &self,
        ledger_info: LedgerInfoWithSignatures,
        new_ledger_info: LedgerInfo,
        outcome: Result<Signature, SafetyError>,
    ) -> bool {
        true
    }

    /// Signs `new_ledger_info`, the commit of the block that `ledger_info`
    /// shows to be ordered, or says why not.
    fn sign_commit_vote(
        &self,
        ledger_info: LedgerInfoWithSignatures,
        new_ledger_info: LedgerInfo,
    ) -> (outcome: Result<Signature, SafetyError>)
        ensures
            self.may_sign(ledger_info, new_ledger_info, outcome),
    ;
}

impl SigningRequest {
    /// The request as text: the ordered ledger info, then the commit.
    pub open spec fn text(self) -> Seq<char> {
        "SigningRequest("@ + self.ordered_ledger_info.text() + ", "@
            + self.commit_ledger_info.text() + ")"@
    }

    /// Renders the request for a log.
    pub fn to_text(&self) -> (text: String)
        ensures
            text@ == self.text(),
    {
        let mut text = String::from_str("SigningRequest(");
        let ordered = self.ordered_ledger_info.to_text();
        text.append(ordered.as_str());
        text.append(", ");
        let commit = self.commit_ledger_info.to_text();
        text.append(commit.as_str());
        text.append(")");
        text
    }
}

impl SigningResponse {
    /// The response to a request for `commit_ledger_info` once the signer
    /// has answered with `signature_result`.
    pub fn new(
        signature_result: Result<Signature, SafetyError>,
        commit_ledger_info: LedgerInfo,
    ) -> (resp: Self)
        ensures
            resp.signature_result == signature_result,
            resp.commit_ledger_info == commit_ledger_info,
    {
        SigningResponse { signature_result, commit_ledger_info }
    }
}

/// The signing stage. It shares the signer with whoever else holds it.
pub struct SigningPhase<S: CommitSignerProvider + ?Sized> {
    safety_rule_handle: Arc<S>,
}

impl<S: CommitSignerProvider + ?Sized> SigningPhase<S> {
    /// The signer that this stage asks.
    pub closed spec fn signer(&self) -> Arc<S> {
        self.safety_rule_handle
    }

    /// A stage that asks `safety_rule_handle` for its signatures.
    pub fn new(safety_rule_handle: Arc<S>) -> (phase: Self)
        ensures
            phase.signer() == safety_rule_handle,
    {
        Self { safety_rule_handle }
    }
}

impl<S: CommitSignerProvider + ?Sized> StatelessPipeline for SigningPhase<S> {
    type Request = SigningRequest;

    type Response = SigningResponse;

    const NAME: &'static str = "signing";

    /// A response answers a request when it names the request's commit and
    /// holds a verdict that the signer may give on that request.
    open spec fn responds(&self, req: SigningRequest, resp: SigningResponse) -> bool {
        &&& resp.commit_ledger_info == req.commit_ledger_info
        &&& self.signer().may_sign(
            req.ordered_ledger_info,
            req.commit_ledger_info,
            resp.signature_result,
        )
    }

    /// Asks the signer to sign the request's commit and reports the verdict
    /// under that commit.
    fn process(&self, req: SigningRequest) -> (resp: SigningResponse)
        ensures
            resp.commit_ledger_info == req.commit_ledger_info,
            self.signer().may_sign(
                req.ordered_ledger_info,
                req.commit_ledger_info,
                resp.signature_result,
            ),
    {
        let SigningRequest { ordered_ledger_info, commit_ledger_info } = req;
        let signature_result = self.safety_rule_handle.sign_commit_vote(
            ordered_ledger_info,
            commit_ledger_info.clone(),
        );
        SigningResponse::new(signature_result, commit_ledger_info)
    }
}

/// What the signer owes, first half: of two different commits for one epoch
/// and round it signs at most one. `requests` are the calls in the order in
/// which they were made, `responses` what came of them.
pub open spec fn signer_never_equivocates(
    requests: Seq<SigningRequest>,
    responses: Seq<SigningResponse>,
) -> bool {
    forall|i: int, j: int|
        #![trigger requests[i], requests[j]]
        0 <= i < responses.len() && 0 <= j < responses.len()
            && requests[i].commit_ledger_info.same_round(requests[j].commit_ledger_info)
            && requests[i].commit_ledger_info != requests[j].commit_ledger_info ==> !(
        responses[i].signature_result is Ok && responses[j].signature_result is Ok)
}

/// What the signer owes, second half: asked again to sign a commit that it
/// has signed, it gives the same signature.
pub open spec fn signer_repeats_signature(
    requests: Seq<SigningRequest>,
    responses: Seq<SigningResponse>,
) -> bool {
    forall|i: int, j: int|
        #![trigger requests[i], requests[j]]
        0 <= i < j < responses.len() && requests[i].commit_ledger_info
            == requests[j].commit_ledger_info && responses[i].signature_result is Ok
            ==> responses[j].signature_result == responses[i].signature_result
}

/// Whether no two of `responses` that name different commits of one epoch
/// and round both hold a signature.
pub open spec fn one_commit_signed_per_round(responses: Seq<SigningResponse>) -> bool {
    forall|i: int, j: int|
        #![trigger responses[i], responses[j]]
        0 <= i < responses.len() && 0 <= j < responses.len()
            && responses[i].commit_ledger_info.same_round(responses[j].commit_ledger_info)
            && responses[i].commit_ledger_info != responses[j].commit_ledger_info ==> (
        responses[i].signature_result is Err || responses[j].signature_result is Err)
}

/// Whether each of `responses` that names a commit for which an earlier one
/// holds a signature holds that same signature.
pub open spec fn signed_commit_keeps_signature(responses: Seq<SigningResponse>) -> bool {
    forall|i: int, j: int|
        #![trigger responses[i], responses[j]]
        0 <= i < j < responses.len() && responses[i].commit_ledger_info
            == responses[j].commit_ledger_info && responses[i].signature_result is Ok
            ==> responses[j].signature_result == responses[i].signature_result
}

/// Every response of a signing runtime carries the commit of the request
/// at its own position, whether the signer signed or refused.
pub proof fn lemma_response_carries_commit<S: CommitSignerProvider + ?Sized>(
    phase: &PipelinePhase<SigningPhase<S>>,
)
    requires
        phase.wf(),
    ensures
        phase@.produced.len() <= phase@.accepted.len(),
        forall|i: int|
            0 <= i < phase@.produced.len() ==> (#[trigger] phase@.produced[i]).commit_ledger_info
                == phase@.accepted[i].commit_ledger_info,
{
    phase.lemma_answers_in_order();
}

/// With a signer that never equivocates, no two responses of a signing
/// runtime that name different commits of one epoch and round both hold a
/// signature: one of them, at least, is a rejection.
pub proof fn lemma_no_double_signing<S: CommitSignerProvider + ?Sized>(
    phase: &PipelinePhase<SigningPhase<S>>,
)
    requires
        phase.wf(),
        signer_never_equivocates(phase@.accepted, phase@.produced),
    ensures
        one_commit_signed_per_round(phase@.produced),
{
    lemma_response_carries_commit(phase);
}

/// With a signer that repeats its signature, a response of a signing
/// runtime to a commit for which an earlier response holds a signature
/// holds that same signature.
pub proof fn lemma_retry_is_deterministic<S: CommitSignerProvider + ?Sized>(
    phase: &PipelinePhase<SigningPhase<S>>,
)
    requires
        phase.wf(),
        signer_repeats_signature(phase@.accepted, phase@.produced),
    ensures
        signed_commit_keeps_signature(phase@.produced),
{
    lemma_response_carries_commit(phase);
}

} // verus!
