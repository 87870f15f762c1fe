use vstd::prelude::*;

verus! {

/// The failures the library reports to its caller.
#[derive(Debug, PartialEq)]
pub enum SetupError {
    /// A persisted document is not a JSON object.
    MalformedDocument(String),
    /// The service's install command failed or reported an error.
    InstallFailed(String),
    /// The service's start command failed or reported an error.
    StartFailed(String),
    /// The configuration could not be reconciled after reinstalling.
    ConfigCorrupt(String),
    /// The service never accepted a connection within the attempt budget.
    ProbeExhausted(String),
    /// The pairing code was unknown or expired.
    PairingRejected(String),
    /// The pairing command failed for another reason.
    PairingError(String),
    /// A filesystem operation failed.
    IoFailure(String),
}

/// Which failure an error is.
pub enum ErrorKind {
    MalformedDocument,
    InstallFailed,
    StartFailed,
    ConfigCorrupt,
    ProbeExhausted,
    PairingRejected,
    PairingError,
    IoFailure,
}

impl SetupError {
    pub open spec fn kind(&self) -> ErrorKind {
        match self {
            SetupError::MalformedDocument(_) => ErrorKind::MalformedDocument,
            SetupError::InstallFailed(_) => ErrorKind::InstallFailed,
            SetupError::StartFailed(_) => ErrorKind::StartFailed,
            SetupError::ConfigCorrupt(_) => ErrorKind::ConfigCorrupt,
            SetupError::ProbeExhausted(_) => ErrorKind::ProbeExhausted,
            SetupError::PairingRejected(_) => ErrorKind::PairingRejected,
            SetupError::PairingError(_) => ErrorKind::PairingError,
            SetupError::IoFailure(_) => ErrorKind::IoFailure,
        }
    }

    /// The text carried by the error.
    pub fn detail(&self) -> (r: &String)
        ensures
            r@ == self.detail_view(),
    {
        match self {
            SetupError::MalformedDocument(s) => s,
            SetupError::InstallFailed(s) => s,
            SetupError::StartFailed(s) => s,
            SetupError::ConfigCorrupt(s) => s,
            SetupError::ProbeExhausted(s) => s,
            SetupError::PairingRejected(s) => s,
            SetupError::PairingError(s) => s,
            SetupError::IoFailure(s) => s,
        }
    }

    pub open spec fn detail_view(&self) -> Seq<char> {
        match self {
            SetupError::MalformedDocument(s) => s@,
            SetupError::InstallFailed(s) => s@,
            SetupError::StartFailed(s) => s@,
            SetupError::ConfigCorrupt(s) => s@,
            SetupError::ProbeExhausted(s) => s@,
            SetupError::PairingRejected(s) => s@,
            SetupError::PairingError(s) => s@,
            SetupError::IoFailure(s) => s@,
        }
    }

    /// The error as one line of text for a user.
    pub fn to_string(&self) -> (r: String)
        ensures
            r@ == self.detail_view(),
    {
        self.detail().clone()
    }
}

} // verus!
