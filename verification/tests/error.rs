use a2s_query::error::{QueryError, TransportOp};

#[test]
fn every_error_has_its_message() {
    assert_eq!(QueryError::AddressResolution.message(), "Invalid address");
    assert_eq!(QueryError::Transport(TransportOp::Open).message(), "transport failure: open");
    assert_eq!(QueryError::Transport(TransportOp::Send).message(), "transport failure: send");
    assert_eq!(QueryError::Transport(TransportOp::Receive).message(), "transport failure: receive");
}

#[test]
fn errors_compare_by_kind_and_operation() {
    assert_eq!(QueryError::AddressResolution, QueryError::AddressResolution);
    assert_ne!(QueryError::AddressResolution, QueryError::Transport(TransportOp::Open));
    assert_ne!(QueryError::Transport(TransportOp::Send), QueryError::Transport(TransportOp::Receive));
}
