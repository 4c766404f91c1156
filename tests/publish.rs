use zenoh_node::error::NodeError;
use zenoh_node::publish::{encoded_payload, send_outcome};

#[test]
fn encoded_bytes_pass_through() {
    let r = encoded_payload::<()>(Ok(vec![10, 3, 65, 66, 67]));
    assert_eq!(r.unwrap(), vec![10, 3, 65, 66, 67]);
}

#[test]
fn encode_failure_is_encode_error() {
    let r = encoded_payload(Err("buffer too small"));
    assert!(matches!(r, Err(NodeError::EncodeError)));
}

#[test]
fn send_success_is_ok() {
    assert!(send_outcome(Ok(())).is_ok());
}

#[test]
fn send_failure_is_declare_publisher_error() {
    match send_outcome(Err(String::from("session closed"))) {
        Err(NodeError::DeclarePublisherError { detail }) => assert_eq!(detail, "session closed"),
        _ => panic!("expected a declare-publisher error"),
    }
}
