use surreal_s3::aws_sdk::http::HttpCLientErrorWrapper;
use surreal_s3::result::{ConnectorCause, Error, ErrorKind, ErrorSource, SdkFailure, WrapError};

fn err(text: &str, kind: ErrorKind) -> Error {
    Error { source: text.to_string(), kind }
}

#[test]
fn kind_labels() {
    assert_eq!(ErrorKind::Main.label(), "Main");
    assert_eq!(ErrorKind::HttpClient.label(), "HttpClient");
    assert_eq!(ErrorKind::AwsSdk.label(), "AwsSdk");
    assert!(ErrorKind::Main < ErrorKind::HttpClient);
    assert!(ErrorKind::HttpClient < ErrorKind::AwsSdk);
}

#[test]
fn main_error_text_has_no_prefix() {
    assert_eq!(err("boom", ErrorKind::Main).to_text(), "boom");
}

#[test]
fn other_error_texts_carry_their_kind() {
    assert_eq!(err("boom", ErrorKind::AwsSdk).to_text(), "[AwsSdk] boom");
    assert_eq!(err("boom", ErrorKind::HttpClient).to_text(), "[HttpClient] boom");
}

#[test]
fn plain_failure_becomes_main_error() {
    let e = Error::from_source(ErrorSource::Message("disk full".to_string()));
    assert_eq!(e.source, "disk full");
    assert_eq!(e.kind, ErrorKind::Main);
}

#[test]
fn wrapped_error_comes_back_with_its_kind() {
    let w = err("no route", ErrorKind::Main).wrap(ErrorKind::HttpClient);
    assert_eq!(w.to_text(), "[HttpClient] no route");
    let e = Error::from_source(ErrorSource::Wrapped(w));
    assert_eq!(e.source, "no route");
    assert_eq!(e.kind, ErrorKind::HttpClient);
}

#[test]
fn wrapping_a_plain_failure_sets_its_kind() {
    let w = ErrorSource::Message("bad".to_string()).wrap(ErrorKind::AwsSdk);
    let e = w.into_inner();
    assert_eq!(e.source, "bad");
    assert_eq!(e.kind, ErrorKind::AwsSdk);
}

#[test]
fn wrapping_an_sdk_failure_keeps_its_text() {
    let w = SdkFailure::Other("throttled".to_string()).wrap(ErrorKind::Main);
    assert_eq!(w.to_text(), "throttled");
}

#[test]
fn dispatch_failure_with_wrapped_cause_unwraps() {
    let w = err("dns failed", ErrorKind::Main).wrap(ErrorKind::HttpClient);
    let e = Error::from_sdk(SdkFailure::DispatchIo(ConnectorCause::Wrapped(w)));
    assert_eq!(e.source, "dns failed");
    assert_eq!(e.kind, ErrorKind::HttpClient);
}

#[test]
fn other_sdk_failures_are_aws_sdk_errors() {
    let e = Error::from_sdk(SdkFailure::DispatchIo(ConnectorCause::Other("reset".to_string())));
    assert_eq!(e.to_text(), "[AwsSdk] reset");
    let e = Error::from_sdk(SdkFailure::Other("ServiceError".to_string()));
    assert_eq!(e.kind, ErrorKind::AwsSdk);
    assert_eq!(e.source, "ServiceError");
}

#[test]
fn http_client_failure_surfaces_as_aws_sdk_error() {
    let cause = HttpCLientErrorWrapper(err("`https://x` is unreachable", ErrorKind::Main)).into_connector_cause();
    let e = Error::from_sdk(SdkFailure::DispatchIo(cause));
    assert_eq!(e.to_text(), "[AwsSdk] `https://x` is unreachable");
}

#[test]
fn error_messages_are_composed() {
    assert_eq!(Error::msg("a").to_text(), "a");
    assert_eq!(Error::msg2("a", "b").with_suffix("c").to_text(), "abc");
}
