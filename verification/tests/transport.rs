use devoter::error::VoteError;
use devoter::stats::Outcome;
use devoter::stats::Stats;
use devoter::transport::outcome_of_transport;
use devoter::transport::socket_plan;
use devoter::transport::Endpoint;
use devoter::transport::Family;
use devoter::transport::SocketPlan;
use devoter::transport::ACK_PEEK_LEN;

#[test]
fn socket_for_an_ipv4_address() {
    let addr = Endpoint::V4 { octets: [127, 0, 0, 1], port: 8192 };
    assert!(addr.is_ipv4());
    assert_eq!(
        socket_plan(&addr),
        SocketPlan {
            family: Family::Ipv4,
            linger_secs: 0,
            nodelay: true,
            keepalive: false,
            reuseaddr: true
        }
    );
}

#[test]
fn socket_for_an_ipv6_address() {
    let addr = Endpoint::V6 { segments: [0, 0, 0, 0, 0, 0, 0, 1], port: 8192 };
    assert!(!addr.is_ipv4());
    assert_eq!(
        socket_plan(&addr),
        SocketPlan {
            family: Family::Ipv6,
            linger_secs: 0,
            nodelay: true,
            keepalive: false,
            reuseaddr: true
        }
    );
}

#[test]
fn acknowledgment_looks_at_one_byte() {
    assert_eq!(ACK_PEEK_LEN, 1);
}

#[test]
fn answered_connection_is_acknowledged() {
    assert_eq!(outcome_of_transport(&Ok(())), Outcome::Acknowledged);
}

#[test]
fn any_transport_error_is_a_transport_failure() {
    let refused = Err(VoteError::Io("connection refused".to_string()));
    assert_eq!(outcome_of_transport(&refused), Outcome::TransportFailed);
    let reset = Err(VoteError::Io("connection reset by peer".to_string()));
    assert_eq!(outcome_of_transport(&reset), Outcome::TransportFailed);
}

#[test]
fn refused_connection_counts_one_failure_and_no_vote() {
    let mut stats = Stats { votes: 5, errors: 2 };
    let refused = Err(VoteError::Io("connection refused".to_string()));
    stats.record(outcome_of_transport(&refused));
    assert_eq!(stats, Stats { votes: 5, errors: 3 });
}
