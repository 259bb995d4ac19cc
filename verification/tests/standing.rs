use slogger::datetime::UtcDateTime;
use slogger::repository::{ConfirmationState, RepositoryError, UploadState};
use slogger::service_record::{
    record_confirmed, record_failure, record_upload, record_verified, ServiceRecord,
};
use slogger::storage::{service_record_from_row, service_record_to_row};

fn at(day: u8) -> UtcDateTime {
    UtcDateTime { year: 2026, month: 5, day, hour: 12, minute: 0, second: 0 }
}

fn same(a: &ServiceRecord, b: &ServiceRecord) -> bool {
    a.upload_state == b.upload_state
        && a.confirmation_state == b.confirmation_state
        && a.uploaded_at == b.uploaded_at
        && a.confirmed_at == b.confirmed_at
        && a.last_sync_at == b.last_sync_at
        && a.remote_id == b.remote_id
        && a.last_error == b.last_error
}

#[test]
fn first_events_create_the_standing() {
    let up = record_upload(&None, at(1), &Some("r1".into()));
    assert_eq!(up.upload_state, UploadState::Uploaded);
    assert_eq!(up.confirmation_state, ConfirmationState::Pending);
    assert_eq!(up.uploaded_at, Some(at(1)));
    assert_eq!(up.remote_id.as_deref(), Some("r1"));
    let failed = record_failure(&None, "bad call");
    assert_eq!(failed.upload_state, UploadState::Failed);
    assert_eq!(failed.last_error.as_deref(), Some("bad call"));
    assert_eq!(failed.uploaded_at, None);
    let seen = record_verified(&None, at(2), &None);
    assert_eq!(seen.upload_state, UploadState::Verified);
    assert_eq!(seen.uploaded_at, Some(at(2)));
    assert_eq!(seen.last_sync_at, Some(at(2)));
    let conf = record_confirmed(&None, at(3), &None);
    assert_eq!(conf.upload_state, UploadState::Pending);
    assert_eq!(conf.confirmation_state, ConfirmationState::Confirmed);
    assert_eq!(conf.confirmed_at, Some(at(3)));
}

#[test]
fn later_events_update_the_standing() {
    let failed = record_failure(&None, "busy");
    let up = record_upload(&Some(failed), at(4), &None);
    assert_eq!(up.upload_state, UploadState::Uploaded);
    assert_eq!(up.last_error, None);
    let conf = record_confirmed(&Some(up.clone()), at(6), &Some("q9".into()));
    assert_eq!(conf.upload_state, UploadState::Uploaded);
    assert_eq!(conf.uploaded_at, Some(at(4)));
    assert_eq!(conf.remote_id.as_deref(), Some("q9"));
    let seen = record_verified(&Some(conf), at(7), &None);
    assert_eq!(seen.upload_state, UploadState::Verified);
    assert_eq!(seen.uploaded_at, Some(at(4)));
    assert_eq!(seen.last_sync_at, Some(at(7)));
    assert_eq!(seen.confirmation_state, ConfirmationState::Confirmed);
    assert_eq!(seen.remote_id.as_deref(), Some("q9"));
    let again = record_verified(&Some(seen.clone()), at(7), &None);
    assert!(same(&again, &seen));
    let refused = record_failure(&Some(seen), "gone");
    assert_eq!(refused.uploaded_at, Some(at(4)));
    assert_eq!(refused.confirmation_state, ConfirmationState::Confirmed);
}

#[test]
fn stored_standing_reads_back() {
    let s = record_confirmed(&Some(record_verified(&None, at(2), &Some("id-7".into()))), at(9), &None);
    let row = service_record_to_row(&s);
    assert_eq!(row.upload_state, "verified");
    assert_eq!(row.confirmation_state, "confirmed");
    assert_eq!(row.confirmed_at.as_deref(), Some("2026-05-09T12:00:00+00:00"));
    let back = service_record_from_row(&row).unwrap();
    assert!(same(&back, &s));
    let mut bad = row.clone();
    bad.upload_state = "sent".into();
    match service_record_from_row(&bad) {
        Err(RepositoryError::Storage(m)) => assert_eq!(m, "bad upload state: sent"),
        other => panic!("unexpected {other:?}"),
    }
    let mut bad = row;
    bad.confirmation_state = "yes".into();
    match service_record_from_row(&bad) {
        Err(RepositoryError::Storage(m)) => assert_eq!(m, "bad confirmation state: yes"),
        other => panic!("unexpected {other:?}"),
    }
}
