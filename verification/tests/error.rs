use tinyaudio::FatalError;

#[test]
fn every_fatal_error_says_what_happened() {
    assert_eq!(FatalError::ProducerFailed.message(), "The data callback did not return normally.");
    assert_eq!(FatalError::WrongBufferLength.message(), "The sample buffer has a wrong length.");
    assert_eq!(
        FatalError::RetriesExhausted { code: -32 }.message(),
        "The device could not be recovered."
    );
    assert_eq!(FatalError::NativeCall { code: -1 }.message(), "A native call failed.");
    assert_eq!(FatalError::UnknownSignal { signal: 258 }.message(), "Unknown buffer point!");
    assert_eq!(
        FatalError::StillReferenced { count: 1 }.message(),
        "The device was released while it was referenced."
    );
    assert_eq!(
        FatalError::ConnectionFailed.message(),
        "The connection failed or was disconnected."
    );
    assert_eq!(FatalError::InvalidSampleSpec.message(), "The sample format is not valid.");
    assert_eq!(FatalError::OutOfOrder.message(), "The session was driven out of order.");
}

#[test]
fn fatal_error_hands_out_the_number_that_it_carries() {
    assert_eq!(FatalError::RetriesExhausted { code: -32 }.detail(), Some(-32));
    assert_eq!(FatalError::NativeCall { code: i32::MIN }.detail(), Some(i32::MIN as i64));
    assert_eq!(FatalError::UnknownSignal { signal: u32::MAX }.detail(), Some(u32::MAX as i64));
    assert_eq!(FatalError::StillReferenced { count: 3 }.detail(), Some(3));
    assert_eq!(FatalError::ProducerFailed.detail(), None);
    assert_eq!(FatalError::WrongBufferLength.detail(), None);
    assert_eq!(FatalError::ConnectionFailed.detail(), None);
    assert_eq!(FatalError::InvalidSampleSpec.detail(), None);
    assert_eq!(FatalError::OutOfOrder.detail(), None);
}
