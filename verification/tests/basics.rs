use pallas_dotnet_rs::blockfetch::BlockFetchPhase;
use pallas_dotnet_rs::chainsync::{
    ChainSyncMessage, ChainSyncPhase, NextAction, NextOutcome, NextResponse,
};
use pallas_dotnet_rs::era::EraTag;
use pallas_dotnet_rs::failure::ClientError;
use pallas_dotnet_rs::magic::{Network, NetworkMagic};
use pallas_dotnet_rs::point::{same_bytes, ChainPoint, Point, Tip};
use pallas_dotnet_rs::session::{NodeClientWrapper, NodeToClientWrapper, NodeToNodeWrapper};
use pallas_dotnet_rs::statequery::StateQueryPhase;

const ADDRESS: &str = "addr1vx2fxv2umyhttkxyxp8x0dlpdt3k6cwng5pxj3jhsydzers66hrl8";

#[test]
fn magic_numbers_of_the_known_networks() {
    assert_eq!(NetworkMagic::mainnet_magic(), 764824073);
    assert_eq!(NetworkMagic::testnet_magic(), 1097911063);
    assert_eq!(NetworkMagic::preview_magic(), 2);
    assert_eq!(NetworkMagic::pre_production_magic(), 1);
}

#[test]
fn magic_is_read_as_a_preset_by_equality() {
    assert_eq!(NetworkMagic::network(764824073), Network::Mainnet);
    assert_eq!(NetworkMagic::network(1097911063), Network::Testnet);
    assert_eq!(NetworkMagic::network(2), Network::Preview);
    assert_eq!(NetworkMagic::network(1), Network::PreProduction);
    assert_eq!(NetworkMagic::network(0), Network::Custom(0));
    assert_eq!(NetworkMagic::network(4), Network::Custom(4));
    assert_eq!(NetworkMagic::network(u64::MAX), Network::Custom(u64::MAX));
    for m in [0u64, 1, 2, 3, 42, 764824073, 1097911063, u64::MAX] {
        assert_eq!(NetworkMagic::network(m).magic(), m);
    }
    assert_eq!(Network::Mainnet.magic(), 764824073);
    assert_eq!(Network::Custom(77).magic(), 77);
}

#[test]
fn era_codes_count_from_zero() {
    let eras = [
        EraTag::Byron,
        EraTag::Shelley,
        EraTag::Allegra,
        EraTag::Mary,
        EraTag::Alonzo,
        EraTag::Babbage,
        EraTag::Conway,
    ];
    for (i, era) in eras.iter().enumerate() {
        assert_eq!(era.code(), i as u16);
        assert_eq!(EraTag::from_code(i as u16), Some(*era));
    }
    assert_eq!(EraTag::from_code(7), None);
    assert_eq!(EraTag::from_code(u16::MAX), None);
}

#[test]
fn points_in_flat_form() {
    // the origin has no flat form, so no flat form stands for two points
    assert_eq!(Point::from_chain_point(ChainPoint::Origin), None);
    assert_eq!(
        Point::from_chain_point(ChainPoint::Specific(0, vec![])),
        Some(Point { slot: 0, hash: vec![] })
    );
    assert_eq!(
        Point::from_chain_point(ChainPoint::Specific(12, vec![1, 2])),
        Some(Point { slot: 12, hash: vec![1, 2] })
    );
    assert_eq!(
        Point { slot: 12, hash: vec![1, 2] }.to_chain_point(),
        ChainPoint::Specific(12, vec![1, 2])
    );
    assert_eq!(Point { slot: 0, hash: vec![] }.to_chain_point(), ChainPoint::Specific(0, vec![]));
    let p = Point { slot: 5, hash: vec![5; 32] };
    assert_eq!(Point::from_chain_point(p.duplicate().to_chain_point()), Some(p));
}

#[test]
fn points_are_compared_by_value() {
    let a = ChainPoint::Specific(1, vec![1, 2, 3]);
    assert!(a.same_as(&a.duplicate()));
    assert!(!a.same_as(&ChainPoint::Specific(2, vec![1, 2, 3])));
    assert!(!a.same_as(&ChainPoint::Specific(1, vec![1, 2, 4])));
    assert!(!a.same_as(&ChainPoint::Specific(1, vec![1, 2])));
    assert!(!a.same_as(&ChainPoint::Origin));
    assert!(ChainPoint::Origin.same_as(&ChainPoint::Origin));
    assert!(!ChainPoint::Origin.same_as(&ChainPoint::Specific(0, vec![])));
    assert_eq!(a.slot_or_default(), 1);
    assert_eq!(ChainPoint::Origin.slot_or_default(), 0);
    assert!(same_bytes(&vec![], &vec![]));
    assert!(!same_bytes(&vec![0], &vec![]));
    let t = Tip { point: a, height: 9 };
    assert_eq!(t.duplicate(), t);
}

#[test]
fn fatal_and_expected_failures_are_told_apart() {
    assert!(ClientError::Connection.is_fatal());
    assert!(ClientError::ProtocolViolation.is_fatal());
    assert!(ClientError::ClosedHandle.is_fatal());
    assert!(!ClientError::NotFound.is_fatal());
    assert!(!ClientError::NoIntersection.is_fatal());
    assert!(!ClientError::AcquireFailed.is_fatal());
    assert!(!ClientError::QueryFailed.is_fatal());
    assert!(!ClientError::Decode.is_fatal());
}

#[test]
fn peer_session_follows_the_chain_and_closes() {
    let mut s = NodeToNodeWrapper::connect();
    assert!(s.chain_sync_has_agency());
    let known = Point { slot: 20, hash: vec![2; 32] };
    let sent = s.find_intersect(known.duplicate()).unwrap();
    assert_eq!(sent, vec![ChainPoint::Specific(20, vec![2; 32])]);
    let tip = Tip { point: ChainPoint::Specific(30, vec![3; 32]), height: 15 };
    assert_eq!(
        s.find_intersect_reply(ChainSyncMessage::IntersectFound(sent[0].clone(), tip.clone())),
        Ok(Some(known.to_chain_point()))
    );
    assert_eq!(s.chain_sync_next(), Ok(NextAction::SendRequest));
    let outcome = s.chain_sync_reply(ChainSyncMessage::RollForward(vec![1], tip.clone()));
    assert_eq!(outcome, Ok(NextOutcome::RollForward(vec![1], tip)));
    let flat: NextResponse = NodeToNodeWrapper::chain_sync_response(outcome, None);
    assert_eq!(flat.action, 1);
    assert_eq!(flat.tip, Some(Point { slot: 30, hash: vec![3; 32] }));
    assert_eq!(flat.block_cbor, Some(vec![1]));

    let range = s.fetch_block(Point { slot: 0, hash: vec![] }).unwrap();
    assert_eq!(range.0, ChainPoint::Specific(0, vec![]));
    assert_eq!(range.1, ChainPoint::Specific(0, vec![]));

    s.disconnect();
    assert!(!s.chain_sync_has_agency());
    assert_eq!(s.chainsync.phase(), ChainSyncPhase::Closed);
    assert_eq!(s.blockfetch.phase(), BlockFetchPhase::Closed);
    assert_eq!(s.chain_sync_next(), Err(ClientError::ClosedHandle));
    assert_eq!(s.find_intersect(Point { slot: 1, hash: vec![] }).err(), Some(ClientError::ClosedHandle));
    assert_eq!(s.fetch_block(Point { slot: 1, hash: vec![] }).err(), Some(ClientError::ClosedHandle));
}

#[test]
fn tip_of_a_peer_is_the_point_it_confirmed() {
    let tip = Tip { point: ChainPoint::Specific(8, vec![8; 32]), height: 4 };
    let mut s = NodeToNodeWrapper::connect();
    assert_eq!(s.get_tip(), Ok(vec![ChainPoint::Origin]));
    assert!(!s.chain_sync_has_agency());
    let next = s.get_tip_probe_reply(ChainSyncMessage::IntersectFound(ChainPoint::Origin, tip.clone()));
    assert_eq!(next, Ok(vec![ChainPoint::Specific(8, vec![8; 32])]));
    assert!(!s.chain_sync_has_agency());
    let found = s.get_tip_reply(ChainSyncMessage::IntersectFound(tip.point.clone(), tip.clone()));
    assert_eq!(found, Ok(ChainPoint::Specific(8, vec![8; 32])));
    assert!(s.chain_sync_has_agency());
}

#[test]
fn tip_that_the_peer_does_not_confirm_is_no_intersection() {
    let tip = Tip { point: ChainPoint::Specific(8, vec![8; 32]), height: 4 };
    let mut s = NodeToNodeWrapper::connect();
    assert_eq!(s.get_tip(), Ok(vec![ChainPoint::Origin]));
    // the origin itself need not be found: the answer still carries the tip
    let next = s.get_tip_probe_reply(ChainSyncMessage::IntersectNotFound(tip.clone()));
    assert_eq!(next, Ok(vec![ChainPoint::Specific(8, vec![8; 32])]));
    let found = s.get_tip_reply(ChainSyncMessage::IntersectNotFound(tip));
    assert_eq!(found, Err(ClientError::NoIntersection));
    assert!(!ClientError::NoIntersection.is_fatal());
    assert!(s.chain_sync_has_agency());

    let mut t = NodeToNodeWrapper::connect();
    assert!(t.get_tip().is_ok());
    assert_eq!(t.get_tip_probe_reply(ChainSyncMessage::AwaitReply), Err(ClientError::ProtocolViolation));
    assert_eq!(t.get_tip_reply(ChainSyncMessage::AwaitReply), Err(ClientError::ProtocolViolation));
}

#[test]
fn peer_session_prepares_a_submission() {
    assert_eq!(NodeToNodeWrapper::submit_tx(vec![1, 2, 3]).err(), Some(ClientError::Decode));
}

#[test]
fn node_session_answers_in_flat_form_and_closes() {
    let mut s = NodeToClientWrapper::connect("node.socket".to_string());
    assert!(s.chain_sync_has_agency());
    assert_eq!(s.find_intersect(Point { slot: 4, hash: vec![4; 32] }).map(|c| c.len()), Ok(1));
    let tip = Tip { point: ChainPoint::Specific(6, vec![6; 32]), height: 3 };
    assert_eq!(s.find_intersect_reply(ChainSyncMessage::IntersectNotFound(tip.clone())), Ok(None));
    assert_eq!(s.chain_sync_next(), Ok(NextAction::SendRequest));
    let wait = s.chain_sync_reply(ChainSyncMessage::AwaitReply);
    assert_eq!(wait.action, 3);
    assert!(!s.chain_sync_has_agency());
    assert_eq!(s.chain_sync_next(), Ok(NextAction::AwaitPush));
    let back = s.chain_sync_reply(ChainSyncMessage::RollBackward(ChainPoint::Origin, tip));
    assert_eq!(back.action, 2);
    assert_eq!(back.tip, Some(Point { slot: 6, hash: vec![6; 32] }));
    assert_eq!(back.block_cbor, None);
    let bad = s.chain_sync_reply(ChainSyncMessage::AwaitReply);
    assert_eq!(bad.action, 0);
    assert_eq!(bad.tip, None);

    s.disconnect();
    assert_eq!(s.statequery.phase(), StateQueryPhase::Closed);
    assert_eq!(s.get_tip(), Err(ClientError::ClosedHandle));
    assert_eq!(s.get_utxo_by_address_cbor(ADDRESS), Err(ClientError::ClosedHandle));
    // a closed session reports the closed handle, whatever the text
    assert_eq!(s.get_utxo_by_address_cbor("nothing"), Err(ClientError::ClosedHandle));
    assert_eq!(s.statequery.phase(), StateQueryPhase::Closed);
    assert_eq!(s.chain_sync_next(), Err(ClientError::ClosedHandle));
    assert_eq!(s.socket_path, "node.socket");
}

#[test]
fn combined_session_opens_and_closes() {
    let mut s = NodeClientWrapper::connect("n.sock".to_string());
    assert!(s.chain_sync_has_agency());
    assert_eq!(s.node.socket_path, "n.sock");
    s.disconnect();
    assert!(!s.chain_sync_has_agency());
    assert_eq!(s.node.chain_sync_next(), Err(ClientError::ClosedHandle));
}

#[test]
fn transport_failure_surfaces_on_the_next_operation() {
    let mut s = NodeToNodeWrapper::connect();
    assert_eq!(s.chain_sync_next(), Ok(NextAction::SendRequest));
    s.transport_failed();
    assert_eq!(s.chainsync.phase(), ChainSyncPhase::Broken);
    assert_eq!(s.blockfetch.phase(), BlockFetchPhase::Broken);
    assert!(!s.chain_sync_has_agency());
    assert_eq!(s.chain_sync_next(), Err(ClientError::Connection));
    assert_eq!(s.chain_sync_reply(ChainSyncMessage::AwaitReply), Err(ClientError::Connection));
    assert_eq!(s.find_intersect(Point { slot: 1, hash: vec![] }).err(), Some(ClientError::Connection));
    assert_eq!(s.fetch_block(Point { slot: 1, hash: vec![] }).err(), Some(ClientError::Connection));
    assert_eq!(s.chainsync.phase(), ChainSyncPhase::Broken);
    // closing wins over the failure, and a closed session stays closed
    s.disconnect();
    assert_eq!(s.chain_sync_next(), Err(ClientError::ClosedHandle));
    s.transport_failed();
    assert_eq!(s.chain_sync_next(), Err(ClientError::ClosedHandle));
    assert_eq!(s.blockfetch.phase(), BlockFetchPhase::Closed);

    let mut n = NodeToClientWrapper::connect("x".to_string());
    n.transport_failed();
    assert_eq!(n.statequery.phase(), StateQueryPhase::Broken);
    assert_eq!(n.get_tip(), Err(ClientError::Connection));
    assert_eq!(n.get_utxo_by_address_cbor(ADDRESS), Err(ClientError::Connection));
    assert_eq!(n.get_utxo_by_address_cbor("nothing"), Err(ClientError::Connection));
    assert_eq!(n.statequery.release(), Err(ClientError::Connection));
    assert_eq!(n.chain_sync_reply(ChainSyncMessage::AwaitReply).action, 0);
}

#[test]
fn tip_at_the_origin_is_told_from_every_specific_point() {
    let tip = Tip { point: ChainPoint::Origin, height: 0 };
    let mut s = NodeToNodeWrapper::connect();
    assert_eq!(s.get_tip(), Ok(vec![ChainPoint::Origin]));
    let next = s.get_tip_probe_reply(ChainSyncMessage::IntersectFound(ChainPoint::Origin, tip.clone()));
    assert_eq!(next, Ok(vec![ChainPoint::Origin]));
    let found = s.get_tip_reply(ChainSyncMessage::IntersectFound(ChainPoint::Origin, tip));
    assert_eq!(found, Ok(ChainPoint::Origin));
    assert_ne!(found, Ok(ChainPoint::Specific(0, vec![])));
}

#[test]
fn failed_fetch_after_a_rollback_reaches_the_answer() {
    let tip = Tip { point: ChainPoint::Specific(30, vec![3; 32]), height: 15 };
    let back = || -> Result<NextOutcome, ClientError> {
        Ok(NextOutcome::RollBackward(ChainPoint::Specific(7, vec![7; 32]), tip.clone()))
    };
    let fetched = NodeToNodeWrapper::chain_sync_response(back(), Some(Ok(vec![9, 9])));
    assert_eq!(fetched.action, 2);
    assert_eq!(fetched.tip, Some(Point { slot: 30, hash: vec![3; 32] }));
    assert_eq!(fetched.block_cbor, Some(vec![9, 9]));

    let declined = NodeToNodeWrapper::chain_sync_response(back(), Some(Err(ClientError::NotFound)));
    assert_eq!(declined.action, 0);
    assert_eq!(declined.tip, None);
    assert_eq!(declined.block_cbor, None);

    let nothing = NodeToNodeWrapper::chain_sync_response(back(), None);
    assert_eq!(nothing.action, 2);
    assert_eq!(nothing.block_cbor, None);
}

#[test]
fn query_in_a_state_that_allows_none_fails_before_the_text_is_read() {
    let mut s = NodeToClientWrapper::connect("x".to_string());
    assert_eq!(s.get_utxo_by_address_cbor("nothing"), Err(ClientError::Decode));
    assert_eq!(s.statequery.phase(), StateQueryPhase::Idle);
    assert!(s.get_utxo_by_address_cbor(ADDRESS).is_ok());
    assert_eq!(s.statequery.phase(), StateQueryPhase::Acquiring);
    // an acquisition is on its way: a second one is a violation
    assert_eq!(s.get_utxo_by_address_cbor("nothing"), Err(ClientError::ProtocolViolation));
    assert_eq!(s.statequery.phase(), StateQueryPhase::Failed);
    assert_eq!(s.get_utxo_by_address_cbor(ADDRESS), Err(ClientError::ProtocolViolation));
}
