use c0dl3_privacy::error::PrivacyError;

#[test]
fn error_messages_describe_the_error() {
    assert_eq!(PrivacyError::ZeroAmount.message(), "Amount cannot be zero");
    assert_eq!(PrivacyError::ClockError.message(), "System clock is before the Unix epoch");
    assert_eq!(PrivacyError::MixingPoolFull.message(), "Mixing pool is full");
    assert_eq!(
        PrivacyError::InvalidPoint.message(),
        "Invalid commitment: cannot decompress to RistrettoPoint"
    );
}
