use opcua_client::status::{
    Error, StatusCode, BAD_COMMUNICATION_ERROR, BAD_CONNECTION_CLOSED, BAD_DECODING_ERROR,
    BAD_ENCODING_LIMITS_EXCEEDED, BAD_INVALID_ARGUMENT, BAD_NO_SUBSCRIPTION,
    BAD_SECURE_CHANNEL_ID_INVALID, BAD_SEQUENCE_NUMBER_INVALID, BAD_SESSION_CLOSED,
    BAD_SESSION_ID_INVALID, BAD_TCP_ENDPOINT_URL_INVALID, BAD_TIMEOUT,
    BAD_TOO_MANY_PUBLISH_REQUESTS, BAD_UNEXPECTED_ERROR, FIRST_NOT_GOOD, GOOD,
};
use opcua_types::StatusCode as UaStatusCode;

#[test]
fn codes_are_those_of_the_stack() {
    let codes = [
        (GOOD, UaStatusCode::Good),
        (BAD_UNEXPECTED_ERROR, UaStatusCode::BadUnexpectedError),
        (BAD_COMMUNICATION_ERROR, UaStatusCode::BadCommunicationError),
        (BAD_DECODING_ERROR, UaStatusCode::BadDecodingError),
        (BAD_ENCODING_LIMITS_EXCEEDED, UaStatusCode::BadEncodingLimitsExceeded),
        (BAD_TIMEOUT, UaStatusCode::BadTimeout),
        (BAD_SECURE_CHANNEL_ID_INVALID, UaStatusCode::BadSecureChannelIdInvalid),
        (BAD_SESSION_ID_INVALID, UaStatusCode::BadSessionIdInvalid),
        (BAD_SESSION_CLOSED, UaStatusCode::BadSessionClosed),
        (BAD_TOO_MANY_PUBLISH_REQUESTS, UaStatusCode::BadTooManyPublishRequests),
        (BAD_NO_SUBSCRIPTION, UaStatusCode::BadNoSubscription),
        (BAD_TCP_ENDPOINT_URL_INVALID, UaStatusCode::BadTcpEndpointUrlInvalid),
        (BAD_SEQUENCE_NUMBER_INVALID, UaStatusCode::BadSequenceNumberInvalid),
        (BAD_INVALID_ARGUMENT, UaStatusCode::BadInvalidArgument),
        (BAD_CONNECTION_CLOSED, UaStatusCode::BadConnectionClosed),
    ];
    for (code, expected) in codes {
        assert_eq!(code, expected.bits());
        assert_eq!(StatusCode(code).is_good(), expected.is_good());
    }
}

#[test]
fn severity_is_in_the_highest_bits() {
    assert!(StatusCode(0).is_good());
    assert!(StatusCode(FIRST_NOT_GOOD - 1).is_good());
    assert!(!StatusCode(FIRST_NOT_GOOD).is_good());
    assert!(!StatusCode(u32::MAX).is_good());
    assert!(UaStatusCode::GoodCallAgain.is_good());
    assert!(StatusCode(UaStatusCode::GoodCallAgain.bits()).is_good());
    assert!(!UaStatusCode::UncertainInitialValue.is_good());
    assert!(!StatusCode(UaStatusCode::UncertainInitialValue.bits()).is_good());
}

#[test]
fn full_context_needs_both_parts() {
    let mut error = Error {
        status: StatusCode(BAD_TIMEOUT),
        request_id: Some(3),
        request_handle: Some(4),
    };
    assert_eq!(error.full_context(), Some((3, 4)));
    error.request_handle = None;
    assert_eq!(error.full_context(), None);
    error.request_handle = Some(4);
    error.request_id = None;
    assert_eq!(error.full_context(), None);
}
