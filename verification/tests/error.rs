use download::{DlErr, DlResult, DlStatus};
use std::path::PathBuf;

#[test]
fn transport_failure_is_a_curl_err() {
    let cause = curl::Error::new(7);
    match DlErr::from(cause.clone()) {
        DlErr::CurlErr(err) => assert_eq!(err, cause),
        other => panic!("wrong class: {:?}", other),
    }
}

#[test]
fn file_failure_is_an_io_err() {
    let cause = std::io::Error::new(std::io::ErrorKind::PermissionDenied, "read-only");
    match DlErr::from(cause) {
        DlErr::IoErr(err) => {
            assert_eq!(err.kind(), std::io::ErrorKind::PermissionDenied);
            assert_eq!(format!("{}", err), "read-only");
        }
        other => panic!("wrong class: {:?}", other),
    }
}

#[test]
fn payload_failure_is_a_json_err() {
    let cause = serde_json::from_str::<serde_json::Value>("{").unwrap_err();
    let line = cause.line();
    let column = cause.column();
    match DlErr::from(cause) {
        DlErr::JsonErr(err) => {
            assert!(err.is_eof());
            assert_eq!((err.line(), err.column()), (line, column));
        }
        other => panic!("wrong class: {:?}", other),
    }
}

#[test]
fn malformed_url_is_a_url_err() {
    match DlErr::from(url::ParseError::EmptyHost) {
        DlErr::UrlErr(err) => assert_eq!(err, url::ParseError::EmptyHost),
        other => panic!("wrong class: {:?}", other),
    }
}

#[test]
fn downcast_failure_keeps_its_message() {
    let err = DlErr::DowncastFailure { msg: String::from("id is no number") };
    match err {
        DlErr::DowncastFailure { msg } => assert_eq!(msg, "id is no number"),
        other => panic!("wrong class: {:?}", other),
    }
}

#[test]
fn question_mark_classifies() {
    fn fails() -> DlResult<DlStatus> {
        Err(curl::Error::new(6))?;
        Ok(DlStatus::FileExists(PathBuf::from("x")))
    }
    assert!(matches!(fails(), Err(DlErr::CurlErr(_))));
}

#[test]
fn outcomes_differ_by_variant_and_fields() {
    let a = PathBuf::from("a");
    assert_eq!(DlStatus::FileExists(a.clone()), DlStatus::FileExists(a.clone()));
    assert_ne!(
        DlStatus::Downloaded { location: a.clone(), num_bytes: 1 },
        DlStatus::Replaced { location: a.clone(), num_bytes: 1 }
    );
    assert_ne!(
        DlStatus::Downloaded { location: a.clone(), num_bytes: 1 },
        DlStatus::Downloaded { location: a.clone(), num_bytes: 2 }
    );
    assert_ne!(DlStatus::FileExists(a), DlStatus::FileExists(PathBuf::from("b")));
}
