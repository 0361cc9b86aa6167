use etcd_error::error::Result;
use etcd_error::Error;
use std::str::FromStr;

fn parse_endpoint(address: &str) -> Result<http::Uri> {
    let uri = http::Uri::from_str(address)?;
    Ok(uri)
}

fn connect(address: &str) -> Result<tonic::transport::Endpoint> {
    let endpoint = tonic::transport::Endpoint::from_shared(address.to_string())?;
    Ok(endpoint)
}

fn read_failed() -> Result<u8> {
    let outcome: std::result::Result<u8, std::io::Error> = Err(std::io::Error::new(
        std::io::ErrorKind::UnexpectedEof,
        "short read",
    ));
    let byte = outcome?;
    Ok(byte)
}

fn sendable<T: Send + Sync + 'static>(_: &T) {}

fn call_failed() -> Result<u8> {
    let outcome: std::result::Result<u8, tonic::Status> =
        Err(tonic::Status::new(tonic::Code::NotFound, "key absent"));
    let byte = outcome?;
    Ok(byte)
}

#[test]
fn from_invalid_uri_keeps_the_failure() {
    let failure = match http::Uri::from_str("") {
        Ok(_) => panic!("an empty string is no uri"),
        Err(e) => e,
    };
    let native = failure.to_string();
    let shown = format!("{:?}", failure);
    match Error::from(failure) {
        Error::InvalidUri(kept) => {
            assert_eq!(kept.to_string(), native);
            assert_eq!(format!("{:?}", kept), shown);
        }
        other => panic!("wrong variant: {:?}", other),
    }
}

#[test]
fn from_io_error_keeps_the_failure() {
    let failure = std::io::Error::new(std::io::ErrorKind::TimedOut, "no answer");
    match Error::from(failure) {
        Error::IOError(kept) => {
            assert_eq!(kept.kind(), std::io::ErrorKind::TimedOut);
            assert_eq!(kept.to_string(), "no answer");
        }
        other => panic!("wrong variant: {:?}", other),
    }
}

#[test]
fn from_io_error_keeps_a_system_code() {
    match Error::from(std::io::Error::from_raw_os_error(13)) {
        Error::IOError(kept) => assert_eq!(kept.raw_os_error(), Some(13)),
        other => panic!("wrong variant: {:?}", other),
    }
}

#[test]
fn from_transport_error_keeps_the_failure() {
    let failure = match tonic::transport::Endpoint::from_shared(String::new()) {
        Ok(_) => panic!("an empty string is no endpoint"),
        Err(e) => e,
    };
    let native = failure.to_string();
    let shown = format!("{:?}", failure);
    match Error::from(failure) {
        Error::TransportError(kept) => {
            assert_eq!(kept.to_string(), native);
            assert_eq!(format!("{:?}", kept), shown);
            assert!(std::error::Error::source(&kept).is_some());
        }
        other => panic!("wrong variant: {:?}", other),
    }
}

#[test]
fn from_status_keeps_the_failure() {
    let status = tonic::Status::new(tonic::Code::NotFound, "key absent");
    match Error::from(status) {
        Error::GRPCStatus(kept) => {
            assert_eq!(kept.code(), tonic::Code::NotFound);
            assert_eq!(kept.message(), "key absent");
        }
        other => panic!("wrong variant: {:?}", other),
    }
}

#[test]
fn from_status_keeps_details() {
    let status = tonic::Status::with_details(
        tonic::Code::Aborted,
        "conflict",
        vec![1u8, 2, 3].into(),
    );
    match Error::from(status) {
        Error::GRPCStatus(kept) => {
            assert_eq!(kept.code(), tonic::Code::Aborted);
            assert_eq!(kept.details(), &[1u8, 2, 3][..]);
        }
        other => panic!("wrong variant: {:?}", other),
    }
}

#[test]
fn question_mark_converts_a_uri_failure() {
    assert!(matches!(parse_endpoint(""), Err(Error::InvalidUri(_))));
    assert!(parse_endpoint("http://localhost:2379").is_ok());
}

#[test]
fn question_mark_converts_a_transport_failure() {
    assert!(matches!(connect(""), Err(Error::TransportError(_))));
    assert!(connect("http://localhost:2379").is_ok());
}

#[test]
fn question_mark_converts_an_io_failure() {
    match read_failed() {
        Err(Error::IOError(kept)) => {
            assert_eq!(kept.kind(), std::io::ErrorKind::UnexpectedEof)
        }
        other => panic!("wrong outcome: {:?}", other),
    }
}

#[test]
fn question_mark_converts_a_status() {
    match call_failed() {
        Err(Error::GRPCStatus(kept)) => assert_eq!(kept.code(), tonic::Code::NotFound),
        other => panic!("wrong outcome: {:?}", other),
    }
}

#[test]
fn error_is_send_and_sync() {
    sendable(&Error::InvalidArgs(String::from("x")));
}
