//! A QSO's standing at one QSL service, and what each event does to it:
//! an upload, a refused upload, an upload seen again in the service's
//! report, a confirmation. The first event for a QSO creates the standing;
//! later ones update it.
use vstd::prelude::*;

use crate::datetime::UtcDateTime;
use crate::import::opt_view;
use crate::repository::{ConfirmationState, UploadState};
use crate::value::string_of;

verus! {

/// The standing of a QSO at a service: its upload and confirmation
/// states, when it was uploaded, confirmed and last seen in a report, the
/// service's id for it, and the last refusal.
#[derive(Debug, Clone)]
pub struct ServiceRecord {
    pub upload_state: UploadState,
    pub confirmation_state: ConfirmationState,
    pub uploaded_at: Option<UtcDateTime>,
    pub confirmed_at: Option<UtcDateTime>,
    pub last_sync_at: Option<UtcDateTime>,
    pub remote_id: Option<String>,
    pub last_error: Option<String>,
}

/// A standing with its texts as character sequences.
pub struct ServiceRecordV {
    pub upload_state: UploadState,
    pub confirmation_state: ConfirmationState,
    pub uploaded_at: Option<UtcDateTime>,
    pub confirmed_at: Option<UtcDateTime>,
    pub last_sync_at: Option<UtcDateTime>,
    pub remote_id: Option<Seq<char>>,
    pub last_error: Option<Seq<char>>,
}

impl View for ServiceRecord {
    type V = ServiceRecordV;

    open spec fn view(&self) -> ServiceRecordV {
        ServiceRecordV {
            upload_state: self.upload_state,
            confirmation_state: self.confirmation_state,
            uploaded_at: self.uploaded_at,
            confirmed_at: self.confirmed_at,
            last_sync_at: self.last_sync_at,
            remote_id: opt_view(self.remote_id),
            last_error: opt_view(self.last_error),
        }
    }
}

pub open spec fn opt_record_view(o: Option<ServiceRecord>) -> Option<ServiceRecordV> {
    match o {
        Some(r) => Some(r@),
        None => None,
    }
}

/// The new id when there is one, else the one kept.
pub open spec fn or_kept(new: Option<Seq<char>>, old: Option<Seq<char>>) -> Option<Seq<char>> {
    match new {
        Some(x) => Some(x),
        None => old,
    }
}

/// After an upload at `at`: uploaded then, with the new id (or the one
/// kept), and no refusal on record.
pub open spec fn after_upload(
    cur: Option<ServiceRecordV>,
    at: UtcDateTime,
    remote_id: Option<Seq<char>>,
) -> ServiceRecordV {
    match cur {
        None => ServiceRecordV {
            upload_state: UploadState::Uploaded,
            confirmation_state: ConfirmationState::Pending,
            uploaded_at: Some(at),
            confirmed_at: None,
            last_sync_at: None,
            remote_id,
            last_error: None,
        },
        Some(c) => ServiceRecordV {
            upload_state: UploadState::Uploaded,
            uploaded_at: Some(at),
            remote_id: or_kept(remote_id, c.remote_id),
            last_error: None,
            ..c
        },
    }
}

/// After a refused upload: failed, with the service's message.
pub open spec fn after_failure(cur: Option<ServiceRecordV>, error: Seq<char>) -> ServiceRecordV {
    match cur {
        None => ServiceRecordV {
            upload_state: UploadState::Failed,
            confirmation_state: ConfirmationState::Pending,
            uploaded_at: None,
            confirmed_at: None,
            last_sync_at: None,
            remote_id: None,
            last_error: Some(error),
        },
        Some(c) => ServiceRecordV { upload_state: UploadState::Failed, last_error: Some(error), ..c },
    }
}

/// After the service's report showed the upload at `at`: verified, last
/// seen then, uploaded at the time already known (or then), with the new
/// id (or the one kept), and no refusal on record.
pub open spec fn after_verified(
    cur: Option<ServiceRecordV>,
    at: UtcDateTime,
    remote_id: Option<Seq<char>>,
) -> ServiceRecordV {
    match cur {
        None => ServiceRecordV {
            upload_state: UploadState::Verified,
            confirmation_state: ConfirmationState::Pending,
            uploaded_at: Some(at),
            confirmed_at: None,
            last_sync_at: Some(at),
            remote_id,
            last_error: None,
        },
        Some(c) => ServiceRecordV {
            upload_state: UploadState::Verified,
            uploaded_at: match c.uploaded_at {
                Some(u) => Some(u),
                None => Some(at),
            },
            last_sync_at: Some(at),
            remote_id: or_kept(remote_id, c.remote_id),
            last_error: None,
            ..c
        },
    }
}

/// After a confirmation at `at`: confirmed then, with the new id (or the
/// one kept); the upload side is left as it was.
pub open spec fn after_confirmed(
    cur: Option<ServiceRecordV>,
    at: UtcDateTime,
    remote_id: Option<Seq<char>>,
) -> ServiceRecordV {
    match cur {
        None => ServiceRecordV {
            upload_state: UploadState::Pending,
            confirmation_state: ConfirmationState::Confirmed,
            uploaded_at: None,
            confirmed_at: Some(at),
            last_sync_at: None,
            remote_id,
            last_error: None,
        },
        Some(c) => ServiceRecordV {
            confirmation_state: ConfirmationState::Confirmed,
            confirmed_at: Some(at),
            remote_id: or_kept(remote_id, c.remote_id),
            ..c
        },
    }
}

fn copy_text(o: &Option<String>) -> (r: Option<String>)
    ensures
        opt_view(r) == opt_view(*o),
{
    match o {
        Some(s) => Some(string_of(s.as_str())),
        None => None,
    }
}

fn keep_or_new(new: &Option<String>, old: &Option<String>) -> (r: Option<String>)
    ensures
        opt_view(r) == or_kept(opt_view(*new), opt_view(*old)),
{
    match new {
        Some(x) => Some(string_of(x.as_str())),
        None => copy_text(old),
    }
}

/// The standing after an upload at `at`.
pub fn record_upload(cur: &Option<ServiceRecord>, at: UtcDateTime, remote_id: &Option<String>) -> (r: ServiceRecord)
    ensures
        r@ == after_upload(opt_record_view(*cur), at, opt_view(*remote_id)),
{
    match cur {
        None => ServiceRecord {
            upload_state: UploadState::Uploaded,
            confirmation_state: ConfirmationState::Pending,
            uploaded_at: Some(at),
            confirmed_at: None,
            last_sync_at: None,
            remote_id: copy_text(remote_id),
            last_error: None,
        },
        Some(c) => ServiceRecord {
            upload_state: UploadState::Uploaded,
            confirmation_state: c.confirmation_state,
            uploaded_at: Some(at),
            confirmed_at: c.confirmed_at,
            last_sync_at: c.last_sync_at,
            remote_id: keep_or_new(remote_id, &c.remote_id),
            last_error: None,
        },
    }
}

/// The standing after a refused upload.
pub fn record_failure(cur: &Option<ServiceRecord>, error: &str) -> (r: ServiceRecord)
    ensures
        r@ == after_failure(opt_record_view(*cur), error@),
{
    match cur {
        None => ServiceRecord {
            upload_state: UploadState::Failed,
            confirmation_state: ConfirmationState::Pending,
            uploaded_at: None,
            confirmed_at: None,
            last_sync_at: None,
            remote_id: None,
            last_error: Some(string_of(error)),
        },
        Some(c) => ServiceRecord {
            upload_state: UploadState::Failed,
            confirmation_state: c.confirmation_state,
            uploaded_at: c.uploaded_at,
            confirmed_at: c.confirmed_at,
            last_sync_at: c.last_sync_at,
            remote_id: copy_text(&c.remote_id),
            last_error: Some(string_of(error)),
        },
    }
}

/// The standing after the service's report showed the upload at `at`.
pub fn record_verified(cur: &Option<ServiceRecord>, at: UtcDateTime, remote_id: &Option<String>) -> (r: ServiceRecord)
    ensures
        r@ == after_verified(opt_record_view(*cur), at, opt_view(*remote_id)),
{
    match cur {
        None => ServiceRecord {
            upload_state: UploadState::Verified,
            confirmation_state: ConfirmationState::Pending,
            uploaded_at: Some(at),
            confirmed_at: None,
            last_sync_at: Some(at),
            remote_id: copy_text(remote_id),
            last_error: None,
        },
        Some(c) => ServiceRecord {
            upload_state: UploadState::Verified,
            confirmation_state: c.confirmation_state,
            uploaded_at: match c.uploaded_at {
                Some(u) => Some(u),
                None => Some(at),
            },
            confirmed_at: c.confirmed_at,
            last_sync_at: Some(at),
            remote_id: keep_or_new(remote_id, &c.remote_id),
            last_error: None,
        },
    }
}

/// The standing after a confirmation at `at`.
pub fn record_confirmed(cur: &Option<ServiceRecord>, at: UtcDateTime, remote_id: &Option<String>) -> (r: ServiceRecord)
    ensures
        r@ == after_confirmed(opt_record_view(*cur), at, opt_view(*remote_id)),
{
    match cur {
        None => ServiceRecord {
            upload_state: UploadState::Pending,
            confirmation_state: ConfirmationState::Confirmed,
            uploaded_at: None,
            confirmed_at: Some(at),
            last_sync_at: None,
            remote_id: copy_text(remote_id),
            last_error: None,
        },
        Some(c) => ServiceRecord {
            upload_state: c.upload_state,
            confirmation_state: ConfirmationState::Confirmed,
            uploaded_at: c.uploaded_at,
            confirmed_at: Some(at),
            last_sync_at: c.last_sync_at,
            remote_id: keep_or_new(remote_id, &c.remote_id),
            last_error: copy_text(&c.last_error),
        },
    }
}

/// Seeing the same upload again in a report changes nothing: a second
/// verification, at the same time and with the same id, gives the
/// standing the first gave.
pub proof fn law_verify_again_changes_nothing(
    cur: Option<ServiceRecordV>,
    at: UtcDateTime,
    remote_id: Option<Seq<char>>,
)
    ensures
        after_verified(Some(after_verified(cur, at, remote_id)), at, remote_id) == after_verified(
            cur,
            at,
            remote_id,
        ),
{
}

/// A confirmation leaves the upload side of a standing as it was: its
/// state, time and refusal.
pub proof fn law_confirmation_keeps_upload(
    c: ServiceRecordV,
    at: UtcDateTime,
    remote_id: Option<Seq<char>>,
)
    ensures
        after_confirmed(Some(c), at, remote_id).upload_state == c.upload_state,
        after_confirmed(Some(c), at, remote_id).uploaded_at == c.uploaded_at,
        after_confirmed(Some(c), at, remote_id).last_error == c.last_error,
{
}

/// The upload events leave the confirmation side of a standing as it was.
pub proof fn law_upload_events_keep_confirmation(
    c: ServiceRecordV,
    at: UtcDateTime,
    remote_id: Option<Seq<char>>,
    error: Seq<char>,
)
    ensures
        after_upload(Some(c), at, remote_id).confirmation_state == c.confirmation_state,
        after_upload(Some(c), at, remote_id).confirmed_at == c.confirmed_at,
        after_failure(Some(c), error).confirmation_state == c.confirmation_state,
        after_failure(Some(c), error).confirmed_at == c.confirmed_at,
        after_verified(Some(c), at, remote_id).confirmation_state == c.confirmation_state,
        after_verified(Some(c), at, remote_id).confirmed_at == c.confirmed_at,
{
}

/// A refused upload followed by a successful one leaves no refusal on
/// record, and an id once known is never lost.
pub proof fn law_upload_after_failure_clears_error(
    cur: Option<ServiceRecordV>,
    error: Seq<char>,
    at: UtcDateTime,
    remote_id: Option<Seq<char>>,
)
    ensures
        after_upload(Some(after_failure(cur, error)), at, remote_id).last_error is None,
        after_upload(Some(after_failure(cur, error)), at, remote_id).upload_state
            == UploadState::Uploaded,
        (cur matches Some(c) && c.remote_id is Some) ==> after_upload(
            Some(after_failure(cur, error)),
            at,
            remote_id,
        ).remote_id is Some,
{
}

} // verus!
