//! Classes, errors, identity checks and fingerprints of improvement
//! scores; the weighted score itself is computed over floating-point
//! metrics outside the verified library.
use crate::digest::{fingerprint, fingerprint_of};
use crate::text::{is_sized_value, sized_value};
use vstd::prelude::*;

verus! {

/// Longest policy or evidence identity, in UTF-8 bytes.
pub const MAX_SCORE_TEXT: usize = 256;

#[derive(Debug, Clone, Copy, PartialEq, Eq, Structural)]
pub enum ScoreClass {
    Pass,
    Unknown,
    NoGo,
}

#[derive(Debug, Clone, Copy, PartialEq, Eq, Structural)]
pub enum ScoreError {
    InvalidPolicy,
}

impl ScoreError {
    /// The human-readable description of the error.
    pub fn message(&self) -> (r: &'static str)
        ensures
            r@ == "score policy or evidence identity is invalid"@,
    {
        "score policy or evidence identity is invalid"
    }
}

/// Checks the policy and evidence identities of a score request: each must
/// be non-empty and at most `MAX_SCORE_TEXT` bytes.
pub fn check_identity(policy: &str, evidence: &str) -> (r: Result<(), ScoreError>)
    ensures
        r is Ok <==> sized_value(policy@, MAX_SCORE_TEXT as nat) && sized_value(
            evidence@,
            MAX_SCORE_TEXT as nat,
        ),
        r matches Err(e) ==> e == ScoreError::InvalidPolicy,
{
    if !is_sized_value(policy, MAX_SCORE_TEXT) || !is_sized_value(evidence, MAX_SCORE_TEXT) {
        return Err(ScoreError::InvalidPolicy);
    }
    Ok(())
}

/// The text fingerprinted for a score that a blocker or a missing metric
/// decided: the policy, the evidence and the outcome's tag.
pub open spec fn tagged_text(policy: Seq<char>, evidence: Seq<char>, tag: Seq<char>) -> Seq<char> {
    policy + "|"@ + evidence + "|"@ + tag
}

/// The fingerprint of a score decided without its metrics.
pub fn tagged_fingerprint(policy: &str, evidence: &str, tag: &str) -> (r: String)
    ensures
        r@ == fingerprint_of(vstd::utf8::encode_utf8(tagged_text(policy@, evidence@, tag@))),
{
    let mut material = String::new();
    material.append(policy);
    material.append("|");
    material.append(evidence);
    material.append("|");
    material.append(tag);
    assert(material@ =~= tagged_text(policy@, evidence@, tag@));
    fingerprint(material.as_str())
}

} // verus!
