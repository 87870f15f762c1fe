use vstd::prelude::*;
use vstd::string::*;
use crate::text::{contains_text, lower_of, lowercase, text_contains};
use crate::error::SetupError;

verus! {

/// How the service answered a pairing approval.
#[derive(Debug, PartialEq)]
pub enum PairingOutcome {
    Approved,
    /// The code is unknown or has expired; carries the reason.
    Rejected(String),
    /// Any other failure; carries the service's raw output.
    Error(String),
}

pub open spec fn no_pending_marker() -> Seq<char> {
    "no pending pairing request found"@
}

/// The mathematical value of a pairing outcome.
pub enum PairingVerdict {
    Approved,
    Rejected(Seq<char>),
    Error(Seq<char>),
}

/// The outcome for a lower-cased reply, by its text alone: an unknown code is
/// rejected; else a reply that mentions an error is an error; else approved.
pub open spec fn pairing_verdict(lowered: Seq<char>, raw: Seq<char>) -> PairingVerdict {
    if text_contains(lowered, no_pending_marker()) {
        PairingVerdict::Rejected("invalid or expired code"@)
    } else if text_contains(lowered, "error"@) {
        PairingVerdict::Error(raw)
    } else {
        PairingVerdict::Approved
    }
}

impl PairingOutcome {
    pub open spec fn verdict(&self) -> PairingVerdict {
        match self {
            PairingOutcome::Approved => PairingVerdict::Approved,
            PairingOutcome::Rejected(s) => PairingVerdict::Rejected(s@),
            PairingOutcome::Error(s) => PairingVerdict::Error(s@),
        }
    }

    /// The caller-facing result: a confirmation, or the matching error.
    pub fn into_result(self) -> (r: Result<String, SetupError>)
        ensures
            self is Approved ==> r is Ok && r->Ok_0@ == "Pairing successful!"@,
            self is Rejected ==> r is Err && r->Err_0 == SetupError::PairingRejected(
                self->Rejected_0,
            ),
            self is Error ==> r is Err && r->Err_0 == SetupError::PairingError(self->Error_0),
    {
        match self {
            PairingOutcome::Approved => Ok(String::from_str("Pairing successful!")),
            PairingOutcome::Rejected(s) => Err(SetupError::PairingRejected(s)),
            PairingOutcome::Error(s) => Err(SetupError::PairingError(s)),
        }
    }
}

/// Classifies the service's reply to an approval from its lower-cased text
/// and the raw text.
pub fn classify_lowered_reply(lowered: &str, raw: &str) -> (r: PairingOutcome)
    ensures
        r.verdict() == pairing_verdict(lowered@, raw@),
{
    if contains_text(lowered, "no pending pairing request found") {
        PairingOutcome::Rejected(String::from_str("invalid or expired code"))
    } else if contains_text(lowered, "error") {
        PairingOutcome::Error(String::from_str(raw))
    } else {
        PairingOutcome::Approved
    }
}

/// Classifies the service's reply to an approval, ignoring letter case. The
/// reply is the command's output, or its failure text where it failed.
pub fn classify_pairing_reply(output: &str) -> (r: PairingOutcome)
    ensures
        r.verdict() == pairing_verdict(lower_of(output@), output@),
{
    let lowered = lowercase(output);
    classify_lowered_reply(lowered.as_str(), output)
}

/// The command line that approves `code` for the messaging-bot channel.
pub fn approve_command(code: &str) -> (r: String)
    ensures
        r@ == "openclaw pairing approve "@ + code@ + " --channel telegram"@,
{
    String::from_str("openclaw pairing approve ").concat(code).concat(" --channel telegram")
}

/// Whether a lower-cased command output reports an error or a failure.
pub open spec fn reports_failure(lowered: Seq<char>) -> bool {
    text_contains(lowered, "error"@) || text_contains(lowered, "failed"@)
}

/// Whether a lower-cased command output reports an error or a failure.
pub fn lowered_reports_failure(lowered: &str) -> (r: bool)
    ensures
        r == reports_failure(lowered@),
{
    contains_text(lowered, "error") || contains_text(lowered, "failed")
}

/// Whether a command output reports an error or a failure, ignoring letter case.
pub fn output_reports_failure(output: &str) -> (r: bool)
    ensures
        r == reports_failure(lower_of(output@)),
{
    let lowered = lowercase(output);
    lowered_reports_failure(lowered.as_str())
}

} // verus!
