use cloubil::errors::SigningError;
use cloubil::payload::PayloadError;

#[test]
fn signing_errors_name_the_stage_that_failed() {
    assert_eq!(
        SigningError::UnsupportedService.describe(),
        "only the `ce` service can be signed for"
    );
    assert_eq!(
        SigningError::SigningPrimitive.describe(),
        "the keyed hash refused its key"
    );
    assert_eq!(
        SigningError::Clock.describe(),
        "the instant handed in is not on the calendar"
    );
}

#[test]
fn payload_errors_name_the_step_that_failed() {
    assert_eq!(
        PayloadError::Unreadable.describe(),
        "the query for this period is no JSON document"
    );
    assert_eq!(
        PayloadError::Unwritable.describe(),
        "the query that was read could not be written"
    );
}

#[test]
fn errors_are_told_apart() {
    assert_ne!(SigningError::UnsupportedService, SigningError::Clock);
    assert_ne!(SigningError::SigningPrimitive, SigningError::Clock);
    assert_ne!(PayloadError::Unreadable, PayloadError::Unwritable);
}
