//! Shapes shared between the logbook and its storage: the slim per-QSO
//! record used for awards, the upload and confirmation states of a remote
//! service, the dedup key of an import and the storage errors.
use vstd::prelude::*;

use crate::datetime::UtcDateTime;
use crate::ids::QsoId;
use crate::value::{string_of, Band, Callsign, Mode};

verus! {

/// One QSO as award computation needs it: who, when, where, and whether
/// LotW has confirmed it.
#[derive(Debug, Clone)]
pub struct AwardQso {
    pub id: QsoId,
    pub call: Callsign,
    pub qso_begin: UtcDateTime,
    pub band: Option<Band>,
    pub mode: Option<Mode>,
    pub dxcc_id: Option<u16>,
    pub dxcc_prefix: Option<String>,
    pub continent: Option<String>,
    pub state: Option<String>,
    pub iota: Option<String>,
    pub lotw_confirmed: bool,
}

/// A stored QSO that a service's confirmation record matched: its id,
/// when the service confirmed it, and the service's own id for the
/// record.
#[derive(Debug, Clone)]
pub struct ConfirmationMatch {
    pub qso_id: QsoId,
    pub confirmed_at: UtcDateTime,
    pub remote_id: Option<String>,
}

/// Upload lifecycle of a QSO at a remote service: never attempted,
/// posted, seen again in a later fetch, or refused.
#[derive(Debug, Clone, Copy, PartialEq, Eq, Structural)]
pub enum UploadState {
    Pending,
    Uploaded,
    Verified,
    Failed,
}

/// The text a service state row stores for an upload state.
pub open spec fn upload_state_text(s: UploadState) -> Seq<char> {
    match s {
        UploadState::Pending => "pending"@,
        UploadState::Uploaded => "uploaded"@,
        UploadState::Verified => "verified"@,
        UploadState::Failed => "failed"@,
    }
}

impl UploadState {
    pub fn as_storage_str(&self) -> (r: &'static str)
        ensures
            r@ == upload_state_text(*self),
    {
        match self {
            UploadState::Pending => "pending",
            UploadState::Uploaded => "uploaded",
            UploadState::Verified => "verified",
            UploadState::Failed => "failed",
        }
    }
}

/// Whether the other station's record matched ours at a service.
#[derive(Debug, Clone, Copy, PartialEq, Eq, Structural)]
pub enum ConfirmationState {
    Unknown,
    Pending,
    Confirmed,
    Mismatch,
}

/// The text a service state row stores for a confirmation state.
pub open spec fn confirmation_state_text(s: ConfirmationState) -> Seq<char> {
    match s {
        ConfirmationState::Unknown => "unknown"@,
        ConfirmationState::Pending => "pending"@,
        ConfirmationState::Confirmed => "confirmed"@,
        ConfirmationState::Mismatch => "mismatch"@,
    }
}

impl ConfirmationState {
    pub fn as_storage_str(&self) -> (r: &'static str)
        ensures
            r@ == confirmation_state_text(*self),
    {
        match self {
            ConfirmationState::Unknown => "unknown",
            ConfirmationState::Pending => "pending",
            ConfirmationState::Confirmed => "confirmed",
            ConfirmationState::Mismatch => "mismatch",
        }
    }
}

/// A QSO still waiting to go to a service.
#[derive(Debug, Clone, Copy)]
pub struct PendingUpload {
    pub qso_id: QsoId,
}

/// Why a storage operation failed.
#[derive(Debug, Clone)]
pub enum RepositoryError {
    NotFound,
    Constraint(String),
    Storage(String),
}

/// The message of a storage error.
pub open spec fn repository_error_text(e: RepositoryError) -> Seq<char> {
    match e {
        RepositoryError::NotFound => "not found"@,
        RepositoryError::Constraint(s) => "constraint violation: "@ + s@,
        RepositoryError::Storage(s) => "storage error: "@ + s@,
    }
}

impl RepositoryError {
    /// The error's message, as its `Display` would write it.
    pub fn message(&self) -> (r: String)
        ensures
            r@ == repository_error_text(*self),
    {
        match self {
            RepositoryError::NotFound => string_of("not found"),
            RepositoryError::Constraint(s) => {
                let mut r = string_of("constraint violation: ");
                r.append(s.as_str());
                r
            },
            RepositoryError::Storage(s) => {
                let mut r = string_of("storage error: ");
                r.append(s.as_str());
                r
            },
        }
    }
}

/// The key by which an import recognises a QSO already in the log:
/// station callsign, worked callsign, `yyyy-mm-dd` date, ADIF band and
/// ADIF mode.
pub type DedupKey = (String, String, String, Option<String>, Option<String>);

} // verus!
