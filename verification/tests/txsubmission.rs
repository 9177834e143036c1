use pallas_dotnet_rs::era::EraTag;
use pallas_dotnet_rs::failure::ClientError;
use pallas_dotnet_rs::txsubmission::{
    MempoolEntry, TxBody, TxIdentity, TxReply, TxRequest, TxSubmissionClient, TxSubmissionState,
};

fn entry(tag: u8, era: EraTag, len: usize) -> MempoolEntry {
    MempoolEntry::new(vec![tag; 32], era, vec![tag; len]).unwrap()
}

fn three() -> Vec<MempoolEntry> {
    vec![entry(1, EraTag::Babbage, 10), entry(2, EraTag::Conway, 0), entry(3, EraTag::Alonzo, 300)]
}

fn block() -> TxRequest {
    TxRequest::Ids { blocking: true, ack: 0, count: 10 }
}

fn poll() -> TxRequest {
    TxRequest::Ids { blocking: false, ack: 3, count: 10 }
}

#[test]
fn three_entries_end_to_end() {
    let mut c = TxSubmissionClient::new(three());
    assert_eq!(c.state(), TxSubmissionState::Init);
    assert_eq!(c.send_init(), Ok(()));
    assert_eq!(c.state(), TxSubmissionState::TxIdsBlocking);

    let ids = c.on_request(&block());
    assert_eq!(
        ids,
        Ok(TxReply::Ids(vec![
            TxIdentity { era: EraTag::Babbage, id: vec![1; 32], size: 10 },
            TxIdentity { era: EraTag::Conway, id: vec![2; 32], size: 0 },
            TxIdentity { era: EraTag::Alonzo, id: vec![3; 32], size: 300 },
        ]))
    );
    assert_eq!(c.state(), TxSubmissionState::TxIdsBlocking);

    let bodies = c.on_request(&TxRequest::Bodies(vec![vec![1; 32], vec![2; 32], vec![3; 32]]));
    assert_eq!(
        bodies,
        Ok(TxReply::Bodies(vec![
            TxBody { era: EraTag::Babbage, body: vec![1; 10] },
            TxBody { era: EraTag::Conway, body: vec![] },
            TxBody { era: EraTag::Alonzo, body: vec![3; 300] },
        ]))
    );
    assert_eq!(c.state(), TxSubmissionState::TxIdsBlocking);

    assert_eq!(c.on_request(&poll()), Ok(TxReply::Ids(vec![])));
    assert_eq!(c.state(), TxSubmissionState::TxIdsNonBlocking);

    assert_eq!(c.on_request(&block()), Ok(TxReply::Done));
    assert_eq!(c.state(), TxSubmissionState::Done);
    assert!(c.is_done());

    assert_eq!(c.accepted_ids(), vec![vec![1u8; 32], vec![2u8; 32], vec![3u8; 32]]);
    let mut flat = vec![1u8; 32];
    flat.extend(vec![2u8; 32]);
    flat.extend(vec![3u8; 32]);
    assert_eq!(c.accepted_id_bytes(), flat);
}

#[test]
fn zero_entries_complete_the_handshake() {
    let mut c = TxSubmissionClient::new(vec![]);
    assert_eq!(c.send_init(), Ok(()));
    assert_eq!(c.on_request(&block()), Ok(TxReply::Done));
    assert_eq!(c.state(), TxSubmissionState::Done);
    assert_eq!(c.accepted_ids(), Vec::<Vec<u8>>::new());
    assert_eq!(c.accepted_id_bytes(), Vec::<u8>::new());
}

#[test]
fn poll_before_any_blocking_request_is_a_violation() {
    let mut c = TxSubmissionClient::new(vec![]);
    assert_eq!(c.send_init(), Ok(()));
    assert_eq!(c.state(), TxSubmissionState::TxIdsBlocking);
    assert_eq!(c.on_request(&poll()), Err(ClientError::ProtocolViolation));
    assert!(c.is_failed());
    // the violation is final
    assert_eq!(c.on_request(&block()), Err(ClientError::ProtocolViolation));
    assert_eq!(c.on_request(&TxRequest::Bodies(vec![])), Err(ClientError::ProtocolViolation));
    assert!(!c.is_done());

    let mut d = TxSubmissionClient::new(three());
    assert_eq!(d.send_init(), Ok(()));
    assert_eq!(d.on_request(&TxRequest::Bodies(vec![vec![1; 32]])).map(|_| ()), Ok(()));
    assert_eq!(d.on_request(&poll()), Err(ClientError::ProtocolViolation));
    assert_eq!(d.accepted_ids(), vec![vec![1u8; 32]]);
}

#[test]
fn polls_after_the_announcement_are_answered_with_nothing() {
    let mut c = TxSubmissionClient::new(three());
    assert_eq!(c.send_init(), Ok(()));
    assert!(c.on_request(&block()).is_ok());
    assert_eq!(c.on_request(&poll()), Ok(TxReply::Ids(vec![])));
    assert_eq!(c.state(), TxSubmissionState::TxIdsNonBlocking);
    assert_eq!(c.on_request(&poll()), Ok(TxReply::Ids(vec![])));
    assert_eq!(c.on_request(&TxRequest::Bodies(vec![vec![9; 32]])), Ok(TxReply::Bodies(vec![])));
    assert_eq!(c.state(), TxSubmissionState::TxIdsNonBlocking);
    assert_eq!(c.on_request(&block()), Ok(TxReply::Done));
    assert!(c.is_done());
    assert!(!c.is_failed());
    assert_eq!(c.accepted_id_bytes(), Vec::<u8>::new());
}

#[test]
fn request_before_init_is_a_violation() {
    let mut c = TxSubmissionClient::new(three());
    assert!(!c.is_failed());
    assert_eq!(c.on_request(&block()), Err(ClientError::ProtocolViolation));
    assert!(c.is_failed());
    assert_eq!(c.on_request(&poll()), Err(ClientError::ProtocolViolation));
    assert_eq!(c.on_request(&TxRequest::Bodies(vec![])), Err(ClientError::ProtocolViolation));
    assert_eq!(c.state(), TxSubmissionState::Init);
    assert_eq!(c.accepted_ids(), Vec::<Vec<u8>>::new());
    // the client is of no more use
    assert_eq!(c.send_init(), Err(ClientError::ProtocolViolation));
    assert_eq!(c.state(), TxSubmissionState::Init);
}

#[test]
fn request_after_done_is_a_violation() {
    let mut c = TxSubmissionClient::new(vec![]);
    assert_eq!(c.send_init(), Ok(()));
    assert_eq!(c.on_request(&block()), Ok(TxReply::Done));
    assert_eq!(c.on_request(&block()), Err(ClientError::ProtocolViolation));
    assert_eq!(c.on_request(&poll()), Err(ClientError::ProtocolViolation));
    assert_eq!(c.on_request(&TxRequest::Bodies(vec![])), Err(ClientError::ProtocolViolation));
    assert_eq!(c.state(), TxSubmissionState::Done);
    assert_eq!(c.send_init(), Err(ClientError::ProtocolViolation));
}

#[test]
fn init_twice_is_a_violation() {
    let mut c = TxSubmissionClient::new(three());
    assert_eq!(c.send_init(), Ok(()));
    assert_eq!(c.send_init(), Err(ClientError::ProtocolViolation));
    assert_eq!(c.state(), TxSubmissionState::TxIdsBlocking);
    assert!(c.is_failed());
    assert_eq!(c.on_request(&block()), Err(ClientError::ProtocolViolation));
}

#[test]
fn ids_are_announced_once() {
    let mut c = TxSubmissionClient::new(three());
    assert_eq!(c.send_init(), Ok(()));
    match c.on_request(&block()) {
        Ok(TxReply::Ids(ids)) => assert_eq!(ids.len(), 3),
        other => panic!("unexpected reply {:?}", other),
    }
    assert_eq!(c.state(), TxSubmissionState::TxIdsBlocking);
    assert_eq!(c.on_request(&poll()), Ok(TxReply::Ids(vec![])));
    assert_eq!(c.on_request(&poll()), Ok(TxReply::Ids(vec![])));
    assert_eq!(c.state(), TxSubmissionState::TxIdsNonBlocking);
}

#[test]
fn second_blocking_request_ends_the_session() {
    let mut c = TxSubmissionClient::new(three());
    assert_eq!(c.send_init(), Ok(()));
    assert!(c.on_request(&block()).is_ok());
    assert_eq!(c.on_request(&block()), Ok(TxReply::Done));
    assert!(c.is_done());
    assert_eq!(c.accepted_ids(), Vec::<Vec<u8>>::new());
}

#[test]
fn only_matching_bodies_are_served_in_the_order_asked() {
    let mut c = TxSubmissionClient::new(three());
    assert_eq!(c.send_init(), Ok(()));
    assert!(c.on_request(&block()).is_ok());
    let reply = c.on_request(&TxRequest::Bodies(vec![
        vec![3; 32],
        vec![9; 32],
        vec![1; 32],
        vec![1; 31],
    ]));
    assert_eq!(
        reply,
        Ok(TxReply::Bodies(vec![
            TxBody { era: EraTag::Alonzo, body: vec![3; 300] },
            TxBody { era: EraTag::Babbage, body: vec![1; 10] },
        ]))
    );
    assert_eq!(c.accepted_ids(), vec![vec![3u8; 32], vec![1u8; 32]]);
    assert_eq!(c.state(), TxSubmissionState::TxIdsBlocking);

    // a later request adds to what was accepted
    assert!(c.on_request(&TxRequest::Bodies(vec![vec![2; 32]])).is_ok());
    assert_eq!(c.accepted_ids(), vec![vec![3u8; 32], vec![1u8; 32], vec![2u8; 32]]);
    let bytes = c.accepted_id_bytes();
    assert_eq!(bytes.len(), 96);
    assert_eq!(&bytes[0..32], &[3u8; 32][..]);
    assert_eq!(&bytes[32..64], &[1u8; 32][..]);
    assert_eq!(&bytes[64..96], &[2u8; 32][..]);
}

#[test]
fn first_of_two_entries_with_one_id_is_served() {
    let a = MempoolEntry::new(vec![4; 32], EraTag::Mary, vec![1]).unwrap();
    let b = MempoolEntry::new(vec![4; 32], EraTag::Shelley, vec![2]).unwrap();
    let mut c = TxSubmissionClient::new(vec![a, b]);
    assert_eq!(c.send_init(), Ok(()));
    assert_eq!(
        c.on_request(&TxRequest::Bodies(vec![vec![4; 32]])),
        Ok(TxReply::Bodies(vec![TxBody { era: EraTag::Mary, body: vec![1] }]))
    );
}

#[test]
fn entry_needs_an_id_of_32_bytes() {
    assert_eq!(MempoolEntry::new(vec![0; 31], EraTag::Byron, vec![1]).err(), Some(ClientError::Decode));
    assert_eq!(MempoolEntry::new(vec![0; 33], EraTag::Byron, vec![1]).err(), Some(ClientError::Decode));
    assert_eq!(MempoolEntry::new(vec![], EraTag::Byron, vec![1]).err(), Some(ClientError::Decode));
    let e = MempoolEntry::new(vec![7; 32], EraTag::Byron, vec![1, 2]).unwrap();
    assert_eq!(e.id(), &vec![7u8; 32]);
    assert_eq!(e.era(), EraTag::Byron);
    assert_eq!(e.body(), &vec![1u8, 2]);
    assert_eq!(e.identity(), TxIdentity { era: EraTag::Byron, id: vec![7; 32], size: 2 });
    assert_eq!(e.served_body(), TxBody { era: EraTag::Byron, body: vec![1, 2] });
}

#[test]
fn id_requested_twice_is_accepted_once() {
    let mut c = TxSubmissionClient::new(vec![entry(1, EraTag::Babbage, 3)]);
    assert_eq!(c.send_init(), Ok(()));
    assert!(c.on_request(&block()).is_ok());
    // the body is served as often as it is asked for
    assert_eq!(
        c.on_request(&TxRequest::Bodies(vec![vec![1; 32], vec![1; 32]])),
        Ok(TxReply::Bodies(vec![
            TxBody { era: EraTag::Babbage, body: vec![1; 3] },
            TxBody { era: EraTag::Babbage, body: vec![1; 3] },
        ]))
    );
    assert_eq!(c.accepted_ids(), vec![vec![1u8; 32]]);
    assert!(c.on_request(&TxRequest::Bodies(vec![vec![1; 32]])).is_ok());
    assert_eq!(c.accepted_ids(), vec![vec![1u8; 32]]);
    assert_eq!(c.accepted_id_bytes(), vec![1u8; 32]);
}

#[test]
fn accepted_ids_are_never_more_than_the_candidates() {
    let mut c = TxSubmissionClient::new(three());
    assert_eq!(c.send_init(), Ok(()));
    assert!(c.on_request(&block()).is_ok());
    for _ in 0..3 {
        let asked = vec![vec![2; 32], vec![9; 32], vec![3; 32], vec![2; 32], vec![1; 32], vec![3; 32]];
        assert!(c.on_request(&TxRequest::Bodies(asked)).is_ok());
        assert_eq!(c.accepted_ids(), vec![vec![2u8; 32], vec![3u8; 32], vec![1u8; 32]]);
    }
    assert_eq!(c.accepted_id_bytes().len(), 96);
}

#[test]
fn candidates_of_one_id_are_accepted_as_one() {
    let a = MempoolEntry::new(vec![4; 32], EraTag::Mary, vec![1]).unwrap();
    let b = MempoolEntry::new(vec![4; 32], EraTag::Shelley, vec![2]).unwrap();
    let mut c = TxSubmissionClient::new(vec![a, b]);
    assert_eq!(c.send_init(), Ok(()));
    assert!(c.on_request(&block()).is_ok());
    assert!(c.on_request(&TxRequest::Bodies(vec![vec![4; 32], vec![4; 32]])).is_ok());
    assert_eq!(c.accepted_ids(), vec![vec![4u8; 32]]);
}
