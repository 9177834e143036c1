use pallas_dotnet_rs::failure::ClientError;
use pallas_dotnet_rs::point::ChainPoint;
use pallas_dotnet_rs::session::NodeToClientWrapper;
use pallas_dotnet_rs::statequery::{
    AcquireAction, AcquireMessage, LocalStateQueryClient, QueryKind, QueryResult, StateQueryPhase,
};

const ADDRESS: &str = "addr1vx2fxv2umyhttkxyxp8x0dlpdt3k6cwng5pxj3jhsydzers66hrl8";

fn address_bytes() -> Vec<u8> {
    let mut raw = vec![0x61u8];
    raw.extend([
        0x94, 0x93, 0x31, 0x5c, 0xd9, 0x2e, 0xb5, 0xd8, 0xc4, 0x30, 0x4e, 0x67, 0xb7, 0xe1, 0x6a,
        0xe3, 0x6d, 0x61, 0xd3, 0x45, 0x02, 0x69, 0x46, 0x57, 0x81, 0x1a, 0x2c, 0x8e,
    ]);
    raw
}

#[test]
fn acquire_era_then_outputs_pass_through_unchanged() {
    let fixture: Vec<Vec<u8>> = vec![vec![0x82, 0x01, 0x02], vec![], vec![0xff; 70]];
    let mut c = LocalStateQueryClient::new();
    assert_eq!(c.begin_acquire(None), Ok(AcquireAction::SendAcquire));
    assert_eq!(c.phase(), StateQueryPhase::Acquiring);
    let handle = c.complete_acquire(AcquireMessage::Acquired).unwrap();
    assert_eq!(handle.chain_point(), None);
    assert_eq!(c.phase(), StateQueryPhase::Acquired);

    assert_eq!(c.begin_query(QueryKind::CurrentEra), Ok(None));
    assert_eq!(c.complete_query(QueryResult::Era(6)), Ok(QueryResult::Era(6)));
    assert_eq!(c.era(), Some(6));

    assert_eq!(c.begin_query(QueryKind::UtxoByAddress), Ok(Some(6)));
    assert_eq!(c.phase(), StateQueryPhase::Querying);
    let out = c.complete_query(QueryResult::Utxos(fixture.clone()));
    assert_eq!(out, Ok(QueryResult::Utxos(fixture.clone())));
    assert_eq!(c.phase(), StateQueryPhase::Acquired);
    assert_eq!(
        NodeToClientWrapper::get_utxo_by_address_cbor_reply(out.unwrap()),
        Ok(fixture)
    );
}

#[test]
fn outputs_before_the_era_is_known_are_refused() {
    let mut c = LocalStateQueryClient::new();
    assert!(c.begin_acquire(None).is_ok());
    assert!(c.complete_acquire(AcquireMessage::Acquired).is_ok());
    assert_eq!(c.begin_query(QueryKind::UtxoByAddress), Err(ClientError::QueryFailed));
    assert!(!ClientError::QueryFailed.is_fatal());
    assert_eq!(c.phase(), StateQueryPhase::Acquired);
    assert_eq!(c.begin_query(QueryKind::CurrentEra), Ok(None));
}

#[test]
fn query_before_acquisition_completes_is_a_violation() {
    let mut c = LocalStateQueryClient::new();
    assert_eq!(c.begin_query(QueryKind::CurrentEra), Err(ClientError::ProtocolViolation));
    assert_eq!(c.phase(), StateQueryPhase::Failed);

    let mut d = LocalStateQueryClient::new();
    assert!(d.begin_acquire(None).is_ok());
    assert_eq!(d.begin_query(QueryKind::ChainPoint), Err(ClientError::ProtocolViolation));
    assert_eq!(d.phase(), StateQueryPhase::Failed);
}

#[test]
fn second_query_while_one_is_outstanding_is_a_violation() {
    let mut c = LocalStateQueryClient::new();
    assert!(c.begin_acquire(None).is_ok());
    assert!(c.complete_acquire(AcquireMessage::Acquired).is_ok());
    assert_eq!(c.begin_query(QueryKind::CurrentEra), Ok(None));
    assert_eq!(c.begin_query(QueryKind::ChainPoint), Err(ClientError::ProtocolViolation));
    assert_eq!(c.phase(), StateQueryPhase::Failed);
}

#[test]
fn acquire_failure_leaves_the_client_idle() {
    let p = ChainPoint::Specific(5, vec![5; 32]);
    let mut c = LocalStateQueryClient::new();
    assert_eq!(c.begin_acquire(Some(p.clone())), Ok(AcquireAction::SendAcquire));
    assert_eq!(
        c.complete_acquire(AcquireMessage::PointNotOnChain).err(),
        Some(ClientError::AcquireFailed)
    );
    assert_eq!(c.phase(), StateQueryPhase::Idle);
    assert_eq!(c.begin_acquire(Some(p.clone())), Ok(AcquireAction::SendAcquire));
    assert_eq!(c.complete_acquire(AcquireMessage::PointTooOld).err(), Some(ClientError::AcquireFailed));
    assert_eq!(c.begin_acquire(Some(p.clone())), Ok(AcquireAction::SendAcquire));
    let h = c.complete_acquire(AcquireMessage::Acquired).unwrap();
    assert_eq!(h.chain_point(), Some(p));
}

#[test]
fn reacquire_is_valid_from_idle_and_from_acquired() {
    let mut c = LocalStateQueryClient::new();
    assert_eq!(c.begin_reacquire(None), Ok(AcquireAction::SendAcquire));
    assert!(c.complete_acquire(AcquireMessage::Acquired).is_ok());
    assert_eq!(c.begin_query(QueryKind::CurrentEra), Ok(None));
    assert!(c.complete_query(QueryResult::Era(5)).is_ok());
    assert_eq!(c.era(), Some(5));
    let p = ChainPoint::Specific(8, vec![8; 32]);
    assert_eq!(c.begin_reacquire(Some(p.clone())), Ok(AcquireAction::SendReAcquire));
    // the era of the earlier state is forgotten
    assert_eq!(c.era(), None);
    let h = c.complete_acquire(AcquireMessage::Acquired).unwrap();
    assert_eq!(h.chain_point(), Some(p));
}

#[test]
fn acquire_over_an_acquired_state_is_a_violation() {
    let mut c = LocalStateQueryClient::new();
    assert!(c.begin_acquire(None).is_ok());
    assert!(c.complete_acquire(AcquireMessage::Acquired).is_ok());
    assert_eq!(c.begin_acquire(None), Err(ClientError::ProtocolViolation));
    assert_eq!(c.phase(), StateQueryPhase::Failed);
}

#[test]
fn result_of_another_kind_is_a_failed_query() {
    let mut c = LocalStateQueryClient::new();
    assert!(c.begin_acquire(None).is_ok());
    assert!(c.complete_acquire(AcquireMessage::Acquired).is_ok());
    assert_eq!(c.begin_query(QueryKind::CurrentEra), Ok(None));
    assert_eq!(c.complete_query(QueryResult::Utxos(vec![])), Err(ClientError::QueryFailed));
    assert_eq!(c.phase(), StateQueryPhase::Acquired);
    assert_eq!(c.era(), None);
    assert_eq!(c.complete_query(QueryResult::Era(1)), Err(ClientError::ProtocolViolation));
    assert_eq!(c.phase(), StateQueryPhase::Failed);
}

#[test]
fn release_returns_to_idle() {
    let mut c = LocalStateQueryClient::new();
    assert_eq!(c.release(), Err(ClientError::ProtocolViolation));
    let mut d = LocalStateQueryClient::new();
    assert!(d.begin_acquire(None).is_ok());
    assert!(d.complete_acquire(AcquireMessage::Acquired).is_ok());
    assert_eq!(d.release(), Ok(()));
    assert_eq!(d.phase(), StateQueryPhase::Idle);
    assert_eq!(d.begin_acquire(None), Ok(AcquireAction::SendAcquire));
}

#[test]
fn tip_is_the_point_of_the_acquired_state() {
    let mut s = NodeToClientWrapper::connect("/tmp/node.socket".to_string());
    assert_eq!(s.socket_path, "/tmp/node.socket");
    assert_eq!(s.get_tip(), Ok(AcquireAction::SendAcquire));
    assert!(s.statequery.complete_acquire(AcquireMessage::Acquired).is_ok());
    assert_eq!(s.statequery.begin_query(QueryKind::ChainPoint), Ok(None));
    let result = s
        .statequery
        .complete_query(QueryResult::Point(ChainPoint::Specific(31, vec![1; 32])))
        .unwrap();
    assert_eq!(result.kind(), QueryKind::ChainPoint);
    assert_eq!(
        NodeToClientWrapper::get_tip_reply(result),
        Ok(ChainPoint::Specific(31, vec![1; 32]))
    );
    // the origin is reported as the origin, unlike every specific point
    assert_eq!(
        NodeToClientWrapper::get_tip_reply(QueryResult::Point(ChainPoint::Origin)),
        Ok(ChainPoint::Origin)
    );
    assert_eq!(
        NodeToClientWrapper::get_tip_reply(QueryResult::Point(ChainPoint::Specific(0, vec![]))),
        Ok(ChainPoint::Specific(0, vec![]))
    );
    assert_eq!(NodeToClientWrapper::get_tip_reply(QueryResult::Era(3)), Err(ClientError::QueryFailed));
    assert_eq!(
        NodeToClientWrapper::get_utxo_by_address_cbor_reply(QueryResult::Era(3)),
        Err(ClientError::QueryFailed)
    );
}

#[test]
fn closed_query_client_reports_closed_handle() {
    let mut c = LocalStateQueryClient::new();
    c.close();
    assert_eq!(c.begin_acquire(None), Err(ClientError::ClosedHandle));
    assert_eq!(c.begin_reacquire(None), Err(ClientError::ClosedHandle));
    assert_eq!(c.complete_acquire(AcquireMessage::Acquired).err(), Some(ClientError::ClosedHandle));
    assert_eq!(c.begin_query(QueryKind::CurrentEra), Err(ClientError::ClosedHandle));
    assert_eq!(c.complete_query(QueryResult::Era(1)), Err(ClientError::ClosedHandle));
    assert_eq!(c.release(), Err(ClientError::ClosedHandle));
    assert_eq!(c.phase(), StateQueryPhase::Closed);
}

#[test]
fn combined_session_queries_like_the_node_session() {
    let mut s = pallas_dotnet_rs::session::NodeClientWrapper::connect("s".to_string());
    assert_eq!(s.get_utxo_by_address_cbor(ADDRESS), Ok((AcquireAction::SendAcquire, address_bytes())));
    assert_eq!(s.node.statequery.phase(), StateQueryPhase::Acquiring);
    assert!(s.node.statequery.complete_acquire(AcquireMessage::Acquired).is_ok());
    assert_eq!(s.get_utxo_by_address_cbor("addr1"), Err(ClientError::Decode));
    assert_eq!(s.node.statequery.phase(), StateQueryPhase::Acquired);
    assert_eq!(s.get_utxo_by_address_cbor(ADDRESS), Ok((AcquireAction::SendReAcquire, address_bytes())));
    assert!(s.node.statequery.complete_acquire(AcquireMessage::Acquired).is_ok());
    assert_eq!(s.get_tip(), Err(ClientError::ProtocolViolation));
    assert_eq!(s.node.statequery.phase(), StateQueryPhase::Failed);
}
