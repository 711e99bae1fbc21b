//! Kinds of driver failures.

use oxideav_nvidia::CudaErrorKind;

#[test]
fn cuda_error_kind_round_trips() {
    let cases: &[(i32, CudaErrorKind)] = &[
        (0, CudaErrorKind::Success),
        (-1, CudaErrorKind::FrameworkLoad),
        (1, CudaErrorKind::InvalidValue),
        (2, CudaErrorKind::OutOfMemory),
        (3, CudaErrorKind::NotInitialized),
        (4, CudaErrorKind::Deinitialized),
        (100, CudaErrorKind::NoDevice),
        (101, CudaErrorKind::InvalidDevice),
        (201, CudaErrorKind::InvalidContext),
        (800, CudaErrorKind::NotPermitted),
        (801, CudaErrorKind::NotSupported),
        (999, CudaErrorKind::Unknown),
    ];
    for &(code, expected) in cases {
        let kind = CudaErrorKind::from_cu(code);
        assert_eq!(
            kind, expected,
            "from_cu({code}) -> {kind:?}, expected {expected:?}"
        );
        assert_eq!(
            kind.as_code(),
            code,
            "as_code(round-trip) -> {} != {}",
            kind.as_code(),
            code
        );
    }
}

#[test]
fn cuda_error_kind_other_preserves_raw_code() {
    for code in [200, 400, 500, 12345] {
        let kind = CudaErrorKind::from_cu(code);
        assert_eq!(kind, CudaErrorKind::Other(code));
        assert_eq!(kind.as_code(), code);
    }
}

#[test]
fn cuda_error_kind_is_unavailable_matches_documented_set() {
    let unavailable = &[
        CudaErrorKind::FrameworkLoad,
        CudaErrorKind::NoDevice,
        CudaErrorKind::NotInitialized,
    ];
    for k in unavailable {
        assert!(
            k.is_unavailable(),
            "{k:?} should be is_unavailable() but wasn't"
        );
    }
    let not_unavailable = &[
        CudaErrorKind::Success,
        CudaErrorKind::InvalidValue,
        CudaErrorKind::OutOfMemory,
        CudaErrorKind::Deinitialized,
        CudaErrorKind::InvalidDevice,
        CudaErrorKind::InvalidContext,
        CudaErrorKind::NotPermitted,
        CudaErrorKind::NotSupported,
        CudaErrorKind::Unknown,
        CudaErrorKind::Other(42),
    ];
    for k in not_unavailable {
        assert!(
            !k.is_unavailable(),
            "{k:?} should NOT be is_unavailable() but was"
        );
    }
}
