use flash_algorithm::{status_code, ErrorCode, STATUS_NOT_INITIALIZED, STATUS_OK};

#[test]
fn status_constants() {
    assert_eq!(STATUS_OK, 0);
    assert_eq!(STATUS_NOT_INITIALIZED, 1);
}

#[test]
fn zero_is_no_error_code() {
    assert!(ErrorCode::new(0).is_none());
}

#[test]
fn error_code_keeps_its_number() {
    assert_eq!(ErrorCode::new(1).unwrap().get(), 1);
    assert_eq!(ErrorCode::new(5).unwrap().get(), 5);
    assert_eq!(ErrorCode::new(u32::MAX).unwrap().get(), u32::MAX);
}

#[test]
fn error_codes_compare_by_number() {
    assert_eq!(ErrorCode::new(9), ErrorCode::new(9));
    assert_ne!(ErrorCode::new(9), ErrorCode::new(10));
}

#[test]
fn success_maps_to_zero() {
    assert_eq!(status_code(Ok(())), 0);
}

#[test]
fn failure_maps_to_its_code() {
    assert_eq!(status_code(Err(ErrorCode::new(5).unwrap())), 5);
    assert_eq!(status_code(Err(ErrorCode::new(1).unwrap())), 1);
    assert_eq!(status_code(Err(ErrorCode::new(0xdead_beef).unwrap())), 0xdead_beef);
}

#[test]
fn no_failure_is_reported_as_success() {
    for code in [1u32, 2, 3, 0x80, 0xffff, 0x8000_0000, u32::MAX] {
        assert_ne!(status_code(Err(ErrorCode::new(code).unwrap())), STATUS_OK);
    }
}
