use speech_sdk::common::CancellationReason;

#[test]
fn from_u32_decodes_the_defined_codes() {
    assert_eq!(CancellationReason::from_u32(1), CancellationReason::Error);
    assert_eq!(CancellationReason::from_u32(2), CancellationReason::EndOfStream);
    assert_eq!(CancellationReason::from_u32(3), CancellationReason::CancelledByUser);
}

#[test]
fn from_u32_falls_back_to_cancelled_by_user() {
    assert_eq!(CancellationReason::from_u32(99), CancellationReason::CancelledByUser);
    assert_eq!(CancellationReason::from_u32(0), CancellationReason::CancelledByUser);
    assert_eq!(CancellationReason::from_u32(u32::MAX), CancellationReason::CancelledByUser);
}

#[test]
fn to_u32_gives_the_engine_codes() {
    assert_eq!(CancellationReason::Error.to_u32(), 1);
    assert_eq!(CancellationReason::EndOfStream.to_u32(), 2);
    assert_eq!(CancellationReason::CancelledByUser.to_u32(), 3);
}

#[test]
fn from_u32_inverts_to_u32() {
    for reason in [
        CancellationReason::Error,
        CancellationReason::EndOfStream,
        CancellationReason::CancelledByUser,
    ] {
        assert_eq!(CancellationReason::from_u32(reason.to_u32()), reason);
    }
}
