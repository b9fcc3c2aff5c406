use musig2::BinaryEncoding;
use strata_bridge_core::musig::{
    new_session_request, read_new_session, read_pubkey, ClientError, ClientMessage,
    ContributionFaultReason, Musig2FirstRound, Musig2SecondRound, RoundContributionError,
    RoundFinalizeError, ServerMessage, SessionError, SignerIdxOutOfBounds, SigningSession,
};

fn xonly(b: u8) -> [u8; 32] {
    let sk = secp256k1::SecretKey::from_slice(&[b; 32]).unwrap();
    sk.x_only_public_key(secp256k1::SECP256K1).0.serialize()
}

fn pub_nonce() -> Vec<u8> {
    musig2::SecNonce::build([1u8; 32]).build().public_nonce().to_bytes().to_vec()
}

fn agg_nonce() -> Vec<u8> {
    let n = musig2::SecNonce::build([1u8; 32]).build().public_nonce();
    musig2::AggNonce::sum([n]).to_bytes().to_vec()
}

fn lifted_sig() -> [u8; 64] {
    let kp = secp256k1::Keypair::from_seckey_slice(secp256k1::SECP256K1, &[3; 32]).unwrap();
    let msg = secp256k1::Message::from_digest([9; 32]);
    secp256k1::SECP256K1.sign_schnorr_no_aux_rand(&msg, &kp).serialize()
}

#[test]
fn new_session_gives_first_round() {
    let r = read_new_session(ServerMessage::Musig2NewSession(Ok(17))).unwrap().unwrap();
    assert_eq!(r, Musig2FirstRound { session_id: 17 });
    let e = SignerIdxOutOfBounds { index: 5, n_signers: 3 };
    assert_eq!(read_new_session(ServerMessage::Musig2NewSession(Err(e))).unwrap(), Err(e));
    assert_eq!(
        read_new_session(ServerMessage::Musig2Pubkey { pubkey: [0; 32] }).unwrap_err(),
        ClientError::WrongMessage
    );
    match new_session_request(vec![[1; 32]], vec![0], [2; 32], 3) {
        ClientMessage::Musig2NewSession { pubkeys, input_txid, input_vout, .. } => {
            assert_eq!(pubkeys, vec![[1; 32]]);
            assert_eq!(input_txid, [2; 32]);
            assert_eq!(input_vout, 3);
        }
        _ => panic!("wrong request"),
    }
}

#[test]
fn pubkey_response() {
    assert_eq!(read_pubkey(ServerMessage::Musig2Pubkey { pubkey: xonly(4) }).unwrap(), xonly(4));
    assert_eq!(read_pubkey(ServerMessage::Musig2Pubkey { pubkey: [0xff; 32] }).unwrap_err(), ClientError::WrongMessage);
    assert_eq!(
        read_pubkey(ServerMessage::Musig2FirstRoundIsComplete { complete: true }).unwrap_err(),
        ClientError::WrongMessage
    );
}

#[test]
fn first_round_reads_its_own_responses_only() {
    let f = Musig2FirstRound { session_id: 9 };
    match f.our_nonce_request() {
        ClientMessage::Musig2FirstRoundOurNonce { session_id } => assert_eq!(session_id, 9),
        _ => panic!("wrong request"),
    }
    assert_eq!(f.our_nonce(ServerMessage::Musig2FirstRoundOurNonce { our_nonce: pub_nonce() }).unwrap(), pub_nonce());
    assert_eq!(
        f.our_nonce(ServerMessage::Musig2FirstRoundOurNonce { our_nonce: vec![5; 66] }).unwrap_err(),
        ClientError::BadData
    );
    assert_eq!(
        f.holdouts(ServerMessage::Musig2FirstRoundHoldouts { pubkeys: vec![xonly(1), xonly(2)] }).unwrap(),
        vec![xonly(1), xonly(2)]
    );
    assert_eq!(
        f.holdouts(ServerMessage::Musig2FirstRoundHoldouts { pubkeys: vec![xonly(1), [0xff; 32]] }).unwrap_err(),
        ClientError::BadData
    );
    assert_eq!(
        f.holdouts(ServerMessage::Musig2SecondRoundHoldouts { pubkeys: vec![] }).unwrap_err(),
        ClientError::WrongMessage
    );
    assert_eq!(f.is_complete(ServerMessage::Musig2FirstRoundIsComplete { complete: false }).unwrap(), false);
    assert_eq!(
        f.is_complete(ServerMessage::Musig2SecondRoundIsComplete { complete: true }).unwrap_err(),
        ClientError::WrongMessage
    );
}

#[test]
fn rejected_nonce_is_reported() {
    let f = Musig2FirstRound { session_id: 1 };
    let e = RoundContributionError { index: 2, reason: ContributionFaultReason::InconsistentContribution };
    assert_eq!(f.receive_pub_nonce(ServerMessage::Musig2FirstRoundReceivePubNonce(Some(e))).unwrap(), Err(e));
    assert_eq!(f.receive_pub_nonce(ServerMessage::Musig2FirstRoundReceivePubNonce(None)).unwrap(), Ok(()));
    assert_eq!(
        f.receive_pub_nonce(ServerMessage::Musig2SecondRoundReceiveSignature(None)).unwrap_err(),
        ClientError::WrongMessage
    );
}

#[test]
fn first_round_finalize() {
    let f = Musig2FirstRound { session_id: 4 };
    assert_eq!(
        f.finalize(ServerMessage::Musig2FirstRoundFinalize(None)).unwrap().unwrap(),
        Musig2SecondRound { session_id: 4 }
    );
    assert_eq!(
        f.finalize(ServerMessage::Musig2FirstRoundFinalize(Some(RoundFinalizeError::Incomplete))).unwrap(),
        Err(RoundFinalizeError::Incomplete)
    );
    assert_eq!(
        f.finalize(ServerMessage::Musig2SecondRoundFinalize(Ok([0; 64]))).unwrap_err(),
        ClientError::WrongMessage
    );
}

#[test]
fn tampered_partial_signature_is_not_accepted() {
    let s = Musig2SecondRound { session_id: 2 };
    let e = RoundContributionError { index: 1, reason: ContributionFaultReason::InvalidSignature };
    assert_eq!(s.receive_signature(ServerMessage::Musig2SecondRoundReceiveSignature(Some(e))).unwrap(), Err(e));
    assert_eq!(
        s.finalize(ServerMessage::Musig2SecondRoundFinalize(Err(RoundFinalizeError::InvalidAggregatedSignature)))
            .unwrap(),
        Err(RoundFinalizeError::InvalidAggregatedSignature)
    );
}

#[test]
fn second_round_reads() {
    let s = Musig2SecondRound { session_id: 3 };
    assert_eq!(s.agg_nonce(ServerMessage::Musig2SecondRoundAggNonce { nonce: agg_nonce() }).unwrap(), agg_nonce());
    assert_eq!(s.agg_nonce(ServerMessage::Musig2SecondRoundAggNonce { nonce: vec![5; 66] }).unwrap_err(), ClientError::BadData);
    assert_eq!(s.our_signature(ServerMessage::Musig2SecondRoundOurSignature { sig: [6; 32] }).unwrap(), [6; 32]);
    assert_eq!(
        s.our_signature(ServerMessage::Musig2SecondRoundOurSignature { sig: [0xff; 32] }).unwrap_err(),
        ClientError::BadData
    );
    assert_eq!(
        s.holdouts(ServerMessage::Musig2SecondRoundHoldouts { pubkeys: vec![[0xff; 32]] }).unwrap_err(),
        ClientError::BadData
    );
    assert_eq!(s.is_complete(ServerMessage::Musig2SecondRoundIsComplete { complete: true }).unwrap(), true);
    assert_eq!(s.finalize(ServerMessage::Musig2SecondRoundFinalize(Ok(lifted_sig()))).unwrap().unwrap(), lifted_sig());
    assert_eq!(s.finalize(ServerMessage::Musig2SecondRoundFinalize(Ok([0xff; 64]))).unwrap_err(), ClientError::BadData);
    match s.receive_signature_request([1; 32], [2; 32]) {
        ClientMessage::Musig2SecondRoundReceiveSignature { session_id, pubkey, signature } => {
            assert_eq!((session_id, pubkey, signature), (3, [1; 32], [2; 32]));
        }
        _ => panic!("wrong request"),
    }
}

#[test]
fn session_moves_forward_only() {
    let s = SigningSession::Uninitialized.advance(ServerMessage::Musig2NewSession(Ok(8))).unwrap();
    assert!(matches!(s, SigningSession::FirstRound(Musig2FirstRound { session_id: 8 })));
    let s = s.advance(ServerMessage::Musig2FirstRoundFinalize(None)).unwrap();
    assert!(matches!(s, SigningSession::SecondRound(Musig2SecondRound { session_id: 8 })));
    let bad = s.advance(ServerMessage::Musig2SecondRoundFinalize(Ok([0xff; 64]))).unwrap_err();
    assert_eq!(bad, SessionError::Client(ClientError::BadData));
    let s = s.advance(ServerMessage::Musig2SecondRoundFinalize(Ok(lifted_sig()))).unwrap();
    assert!(matches!(s, SigningSession::Complete(sig) if sig == lifted_sig()));
    assert_eq!(s.advance(ServerMessage::Musig2NewSession(Ok(9))).unwrap_err(), SessionError::Finished);
    let f = SigningSession::FirstRound(Musig2FirstRound { session_id: 1 });
    assert_eq!(
        f.advance(ServerMessage::Musig2FirstRoundFinalize(Some(RoundFinalizeError::Incomplete))).unwrap_err(),
        SessionError::Finalize(RoundFinalizeError::Incomplete)
    );
    assert_eq!(
        SigningSession::Uninitialized.advance(ServerMessage::Musig2FirstRoundFinalize(None)).unwrap_err(),
        SessionError::Client(ClientError::WrongMessage)
    );
}
