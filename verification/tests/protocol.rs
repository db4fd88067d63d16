use windows_service_detector::detect::EnumAction;
use windows_service_detector::detect::ParentQueryReply;
use windows_service_detector::detect::SystemQueryReply;
use windows_service_detector::detect::SystemQueryStatus;
use windows_service_detector::detect::detect_with_replies;
use windows_service_detector::detect::enumeration_step;
use windows_service_detector::error::QueryError;
use windows_service_detector::error::STATUS_ACCESS_DENIED;
use windows_service_detector::error::STATUS_BUFFER_TOO_SMALL;
use windows_service_detector::error::STATUS_NOT_IMPLEMENTED;
use windows_service_detector::error::STATUS_NOT_SUPPORTED;
use windows_service_detector::error::query_error_of_status;

fn put_u16(buf: &mut [u8], pos: usize, v: u16) {
    buf[pos..pos + 2].copy_from_slice(&v.to_le_bytes());
}

fn put_u32(buf: &mut [u8], pos: usize, v: u32) {
    buf[pos..pos + 4].copy_from_slice(&v.to_le_bytes());
}

fn put_u64(buf: &mut [u8], pos: usize, v: u64) {
    buf[pos..pos + 8].copy_from_slice(&v.to_le_bytes());
}

// A snapshot of `total_len` bytes holding one record: the given process
// identifier and session, named "services.exe", built against base address 0.
fn one_record_snapshot(pid: u64, session_id: u32, total_len: usize) -> Vec<u8> {
    let name: Vec<u16> = "services.exe".encode_utf16().collect();
    let mut buf = vec![0u8; total_len];
    put_u32(&mut buf, 0, 0);
    put_u64(&mut buf, 80, pid);
    put_u32(&mut buf, 100, session_id);
    put_u16(&mut buf, 56, (2 * name.len()) as u16);
    put_u64(&mut buf, 64, 104);
    for (i, u) in name.iter().enumerate() {
        put_u16(&mut buf, 104 + 2 * i, *u);
    }
    buf
}

fn filled(data: Vec<u8>) -> SystemQueryReply {
    let return_len = data.len() as u32;
    SystemQueryReply { status: SystemQueryStatus::Filled { return_len }, data, base: 0 }
}

fn unused_reply() -> SystemQueryReply {
    SystemQueryReply {
        status: SystemQueryStatus::Failed { status: 0xDEAD_BEEF },
        data: Vec::new(),
        base: 0,
    }
}

#[test]
fn status_codes_map_to_error_kinds() {
    assert_eq!(query_error_of_status(STATUS_ACCESS_DENIED), QueryError::AccessDenied);
    assert_eq!(query_error_of_status(STATUS_NOT_IMPLEMENTED), QueryError::Unsupported);
    assert_eq!(query_error_of_status(STATUS_NOT_SUPPORTED), QueryError::Unsupported);
    assert_eq!(query_error_of_status(STATUS_BUFFER_TOO_SMALL), QueryError::BufferTooSmall);
    assert_eq!(query_error_of_status(0xC0000005), QueryError::Other(0xC0000005));
}

#[test]
fn first_attempt_too_small_retries_with_required_capacity() {
    let action = enumeration_step(0, SystemQueryStatus::LengthMismatch { required: 4096 });
    match action {
        EnumAction::Retry { capacity } => assert!(capacity >= 4096),
        other => panic!("expected a retry, got {:?}", other),
    }
}

#[test]
fn immediate_success_is_not_retried() {
    let action = enumeration_step(0, SystemQueryStatus::Filled { return_len: 512 });
    assert_eq!(action, EnumAction::Accept);
}

#[test]
fn second_attempt_too_small_gives_up() {
    let action = enumeration_step(1, SystemQueryStatus::LengthMismatch { required: 8192 });
    assert_eq!(action, EnumAction::Reject(QueryError::BufferTooSmall));
}

#[test]
fn zero_required_length_gives_up() {
    let action = enumeration_step(0, SystemQueryStatus::LengthMismatch { required: 0 });
    assert_eq!(action, EnumAction::Reject(QueryError::BufferTooSmall));
}

#[test]
fn query_failure_maps_status() {
    let action = enumeration_step(0, SystemQueryStatus::Failed { status: STATUS_ACCESS_DENIED });
    assert_eq!(action, EnumAction::Reject(QueryError::AccessDenied));
}

#[test]
fn scenario_parent_absent_from_snapshot() {
    let snapshot = one_record_snapshot(500, 0, 4096);
    let r = detect_with_replies(ParentQueryReply::Resolved(600), &filled(snapshot), &unused_reply());
    assert_eq!(r, Ok(false));
}

#[test]
fn scenario_parent_in_user_session() {
    let snapshot = one_record_snapshot(500, 1, 4096);
    let r = detect_with_replies(ParentQueryReply::Resolved(500), &filled(snapshot), &unused_reply());
    assert_eq!(r, Ok(false));
}

#[test]
fn scenario_parent_is_service_manager() {
    let snapshot = one_record_snapshot(500, 0, 4096);
    let r = detect_with_replies(ParentQueryReply::Resolved(500), &filled(snapshot), &unused_reply());
    assert_eq!(r, Ok(true));
}

#[test]
fn scenario_retry_then_success() {
    let first = SystemQueryReply {
        status: SystemQueryStatus::LengthMismatch { required: 4096 },
        data: Vec::new(),
        base: 0,
    };
    let second = filled(one_record_snapshot(500, 0, 4096));
    let r = detect_with_replies(ParentQueryReply::Resolved(500), &first, &second);
    assert_eq!(r, Ok(true));
}

#[test]
fn scenario_parent_resolution_denied() {
    // Even replies that would read as a service launch cannot matter once the
    // parent resolution has failed.
    let first = filled(one_record_snapshot(500, 0, 4096));
    let r = detect_with_replies(
        ParentQueryReply::Failed(STATUS_ACCESS_DENIED),
        &first,
        &unused_reply(),
    );
    assert_eq!(r, Err(QueryError::AccessDenied));
}

#[test]
fn two_mismatches_give_buffer_too_small() {
    let first = SystemQueryReply {
        status: SystemQueryStatus::LengthMismatch { required: 4096 },
        data: Vec::new(),
        base: 0,
    };
    let second = SystemQueryReply {
        status: SystemQueryStatus::LengthMismatch { required: 8192 },
        data: Vec::new(),
        base: 0,
    };
    let r = detect_with_replies(ParentQueryReply::Resolved(500), &first, &second);
    assert_eq!(r, Err(QueryError::BufferTooSmall));
}

#[test]
fn success_with_zero_length_gives_buffer_too_small() {
    let first = SystemQueryReply {
        status: SystemQueryStatus::Filled { return_len: 0 },
        data: Vec::new(),
        base: 0,
    };
    let r = detect_with_replies(ParentQueryReply::Resolved(500), &first, &unused_reply());
    assert_eq!(r, Err(QueryError::BufferTooSmall));
}

#[test]
fn repeated_detection_agrees() {
    let parent = ParentQueryReply::Resolved(500);
    let first = filled(one_record_snapshot(500, 0, 4096));
    let second = unused_reply();
    let once = detect_with_replies(parent, &first, &second);
    let again = detect_with_replies(parent, &first, &second);
    assert_eq!(once, again);
    assert_eq!(once, Ok(true));
}
