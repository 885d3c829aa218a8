use surreal_s3::multipart::{SignedPart, collect_parts, multipart_exists, order_parts, part_numbers, upload_id_or_error};
use surreal_s3::result::{Error, ErrorKind, SdkFailure};
use surreal_s3::root::{delete_outcome, object_exists};
use surreal_s3::sign::{SignMethod, presign_setup, presigned_response};
use surreal_s3::util::{ExpiresIn, GetTimestamp, PresignWindow, PresignedConfig};

#[test]
fn object_errors() {
    let e = object_exists(Some("NoSuchBucket".to_string()), SdkFailure::Other("x".to_string()));
    assert_eq!(e.to_text(), "The specified bucket does not exist");
    let e = object_exists(Some("NoSuchKey".to_string()), SdkFailure::Other("x".to_string()));
    assert_eq!(e.to_text(), "The specified key does not exist");
    let e = object_exists(Some("AccessDenied".to_string()), SdkFailure::Other("denied".to_string()));
    assert_eq!(e.to_text(), "[AwsSdk] denied");
    let e = object_exists(None, SdkFailure::Other("timeout".to_string()));
    assert_eq!(e.kind, ErrorKind::AwsSdk);
}

#[test]
fn upload_errors() {
    let e = multipart_exists(Some("NoSuchUpload".to_string()), SdkFailure::Other("x".to_string()));
    assert_eq!(e.to_text(), "The specified multipart upload does not exist");
    let e = multipart_exists(Some("NoSuchBucket".to_string()), SdkFailure::Other("x".to_string()));
    assert_eq!(e.to_text(), "The specified bucket does not exist");
    let e = multipart_exists(Some("NoSuchKey".to_string()), SdkFailure::Other("missing".to_string()));
    assert_eq!(e.to_text(), "[AwsSdk] missing");
}

#[test]
fn upload_ids() {
    assert_eq!(upload_id_or_error(Some("3857b672471".to_string())).ok().unwrap(), "3857b672471");
    let e = upload_id_or_error(None).err().unwrap();
    assert_eq!(e.to_text(), "Failed to get multipart upload id");
}

#[test]
fn part_number_ranges() {
    assert_eq!(part_numbers(0, 2), vec![0, 1]);
    assert_eq!(part_numbers(5, 3), vec![5, 6, 7]);
    assert!(part_numbers(5, 0).is_empty());
    assert!(part_numbers(5, -4).is_empty());
    assert_eq!(part_numbers(i32::MAX, 1), vec![i32::MAX]);
}

fn part(n: i32) -> Result<SignedPart, Error> {
    Ok(SignedPart { part_number: n, uri: format!("https://main.s3.amazonaws.com/movie.mp4?partNumber={n}") })
}

#[test]
fn collecting_signed_parts() {
    let parts = collect_parts(vec![part(1), part(0), part(2)]).ok().unwrap();
    let numbers: Vec<i32> = parts.iter().map(|p| p.part_number).collect();
    assert_eq!(numbers, vec![0, 1, 2]);
    assert!(parts[0].uri.ends_with("partNumber=0"));
    let e = collect_parts(vec![part(0), Err(Error::msg("first")), Err(Error::msg("second"))])
        .err()
        .unwrap();
    assert_eq!(e.to_text(), "first");
    assert!(collect_parts(vec![]).ok().unwrap().is_empty());
}

#[test]
fn expiry_timestamps() {
    let w = PresignWindow { start_unix_secs: Some(1789473600), expires_secs: 300 };
    assert_eq!(w.get_timestamp().ok().unwrap(), "2026-09-15T12:05:00Z");
    let w = PresignWindow { start_unix_secs: Some(0), expires_secs: 0 };
    assert_eq!(w.get_timestamp().ok().unwrap(), "1970-01-01T00:00:00Z");
    let w = PresignWindow { start_unix_secs: None, expires_secs: 0 };
    assert_eq!(w.get_timestamp().err().unwrap().to_text(), "start time must be after 1970-01-01 00:00:00 UTC");
    let w = PresignWindow { start_unix_secs: Some(u64::MAX), expires_secs: 1 };
    assert_eq!(w.get_timestamp().err().unwrap().to_text(), "expires_in is too small");
    let w = PresignWindow { start_unix_secs: Some(8210266876799), expires_secs: 0 };
    assert_eq!(w.get_timestamp().ok().unwrap(), "+262142-12-31T23:59:59Z");
}

#[test]
fn presigned_config_validity() {
    let c = PresignedConfig::new(ExpiresIn { secs: 300, nanos: 0 }).ok().unwrap();
    assert_eq!(c.presigning.validity_secs(), 300);
    assert_eq!(c.presigning.config().expires(), std::time::Duration::from_secs(300));
    let start = c.presigning.start_unix_secs().unwrap();
    let expected = PresignWindow { start_unix_secs: Some(start), expires_secs: 300 }.get_timestamp().ok().unwrap();
    assert_eq!(c.expires_at, expected);
    assert_eq!(c.expires_at.len(), 20);
    assert!(c.expires_at.ends_with('Z'));
    assert!(PresignedConfig::new(ExpiresIn { secs: 604800, nanos: 0 }).is_ok());
    let e = PresignedConfig::new(ExpiresIn { secs: 604800, nanos: 1 }).err().unwrap();
    assert_eq!(e.to_text(), "`expires_in` must be no longer than one week");
}

#[test]
fn signing_setup_errors() {
    let e = presign_setup(ExpiresIn { secs: 8 * 86400, nanos: 0 }).err().unwrap();
    assert_eq!(e.to_text(), "Failed to create presigned uri: `expires_in` must be no longer than one week");
    assert!(presign_setup(ExpiresIn { secs: 300, nanos: 5 }).is_ok());
}

#[test]
fn signed_responses() {
    let r = presigned_response(SignMethod::Get, "https://main.s3.amazonaws.com/hello.txt?x-id=GetObject".to_string(), "2026-09-15T12:05:00Z".to_string());
    assert_eq!(r.method, "GET");
    assert_eq!(r.expires_at, "2026-09-15T12:05:00Z");
    assert_eq!(presigned_response(SignMethod::Put, String::new(), String::new()).method, "PUT");
    assert_eq!(presigned_response(SignMethod::Head, String::new(), String::new()).method, "HEAD");
    assert_eq!(presigned_response(SignMethod::Delete, String::new(), String::new()).method, "DELETE");
}

#[test]
fn ordering_parts() {
    let ordered = order_parts(vec![
        part(7).ok().unwrap(),
        part(3).ok().unwrap(),
        part(5).ok().unwrap(),
        part(3).ok().unwrap(),
    ]);
    let numbers: Vec<i32> = ordered.iter().map(|p| p.part_number).collect();
    assert_eq!(numbers, vec![3, 3, 5, 7]);
    assert!(order_parts(vec![]).is_empty());
}

#[test]
fn deleting_missing_keys_succeeds() {
    assert!(delete_outcome(Some("NoSuchKey".to_string()), SdkFailure::Other("x".to_string())).is_ok());
    let e = delete_outcome(Some("NoSuchBucket".to_string()), SdkFailure::Other("x".to_string())).err().unwrap();
    assert_eq!(e.to_text(), "The specified bucket does not exist");
    let e = delete_outcome(None, SdkFailure::Other("denied".to_string())).err().unwrap();
    assert_eq!(e.to_text(), "[AwsSdk] denied");
}

#[test]
fn presigning_read_back() {
    let c = PresignedConfig::new(ExpiresIn { secs: 60, nanos: 0 }).ok().unwrap();
    let start = c.presigning.start_unix_secs();
    let again = PresignedConfig::from_presigning(c.presigning, ExpiresIn { secs: 60, nanos: 0 }).ok().unwrap();
    let expected = PresignWindow { start_unix_secs: start, expires_secs: 60 }.get_timestamp().ok().unwrap();
    assert_eq!(again.expires_at, expected);
}
