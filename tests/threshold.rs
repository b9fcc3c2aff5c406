use musig2::secp::{MaybeScalar, Scalar};
use musig2::{
    BinaryEncoding, FirstRound, KeyAggContext, LiftedSignature, PartialSignature, PubNonce,
    SecNonceSpices, SecondRound,
};
use strata_bridge_core::musig::{
    ContributionFaultReason, Musig2FirstRound, RoundContributionError, ServerMessage,
};

const MESSAGE: [u8; 32] = [0x5a; 32];

fn contribution_response(r: Result<(), musig2::errors::RoundContributionError>) -> Option<RoundContributionError> {
    r.err().map(|e| RoundContributionError {
        index: e.index,
        reason: match e.reason {
            musig2::errors::ContributionFaultReason::OutOfRange(n) => ContributionFaultReason::OutOfRange(n),
            musig2::errors::ContributionFaultReason::InconsistentContribution => {
                ContributionFaultReason::InconsistentContribution
            }
            musig2::errors::ContributionFaultReason::InvalidSignature => ContributionFaultReason::InvalidSignature,
        },
    })
}

struct Group {
    ctx: KeyAggContext,
    seckeys: Vec<Scalar>,
}

fn group(n: u8) -> Group {
    let seckeys: Vec<Scalar> = (1..=n).map(|i| Scalar::from_slice(&[i; 32]).unwrap()).collect();
    let ctx = KeyAggContext::new(seckeys.iter().map(|k| k.base_point_mul())).unwrap();
    Group { ctx, seckeys }
}

/// Runs the first round; the remote signer holds signer 0 and every answer
/// it gives goes through the library's readers.
fn first_rounds(g: &Group) -> (SecondRound<[u8; 32]>, Vec<SecondRound<[u8; 32]>>) {
    let mut rounds: Vec<FirstRound> = (0..g.seckeys.len())
        .map(|i| {
            FirstRound::new(g.ctx.clone(), [i as u8 + 40; 32], i, SecNonceSpices::new().with_seckey(g.seckeys[i]))
                .unwrap()
        })
        .collect();
    let client = Musig2FirstRound { session_id: 1 };

    let remote_nonce = client
        .our_nonce(ServerMessage::Musig2FirstRoundOurNonce { our_nonce: rounds[0].our_public_nonce().to_bytes().to_vec() })
        .unwrap();
    let nonce0 = PubNonce::from_bytes(&remote_nonce).unwrap();
    assert_eq!(nonce0, rounds[0].our_public_nonce());

    let nonces: Vec<PubNonce> = rounds.iter().map(|r| r.our_public_nonce()).collect();
    for (i, r) in rounds.iter_mut().enumerate() {
        for (j, n) in nonces.iter().enumerate() {
            if i != j {
                let res = contribution_response(r.receive_nonce(j, n.clone()));
                if i == 0 {
                    assert_eq!(client.receive_pub_nonce(ServerMessage::Musig2FirstRoundReceivePubNonce(res)).unwrap(), Ok(()));
                } else {
                    assert!(res.is_none());
                }
            }
        }
    }
    let mut seconds: Vec<SecondRound<[u8; 32]>> =
        rounds.into_iter().enumerate().map(|(i, r)| r.finalize(g.seckeys[i], MESSAGE).unwrap()).collect();
    let remote = seconds.remove(0);
    client.finalize(ServerMessage::Musig2FirstRoundFinalize(None)).unwrap().unwrap();
    (remote, seconds)
}

#[test]
fn honest_group_signature_verifies() {
    let g = group(3);
    let (mut remote, others) = first_rounds(&g);
    let second = Musig2FirstRound { session_id: 1 }.finalize(ServerMessage::Musig2FirstRoundFinalize(None)).unwrap().unwrap();

    let ours: PartialSignature = remote.our_signature();
    let read = second.our_signature(ServerMessage::Musig2SecondRoundOurSignature { sig: ours.serialize() }).unwrap();
    assert_eq!(PartialSignature::from_slice(&read).unwrap(), ours);

    for (k, other) in others.iter().enumerate() {
        let sig: PartialSignature = other.our_signature();
        let res = contribution_response(remote.receive_signature(k + 1, sig));
        assert_eq!(second.receive_signature(ServerMessage::Musig2SecondRoundReceiveSignature(res)).unwrap(), Ok(()));
    }
    let lifted: LiftedSignature = remote.finalize().unwrap();
    let bytes = second.finalize(ServerMessage::Musig2SecondRoundFinalize(Ok(lifted.to_bytes()))).unwrap().unwrap();
    let sig = LiftedSignature::from_bytes(&bytes).unwrap();
    let agg: musig2::secp::Point = g.ctx.aggregated_pubkey();
    assert!(musig2::verify_single(agg, sig, MESSAGE).is_ok());
    assert!(musig2::verify_single(agg, sig, [0u8; 32]).is_err());
}

#[test]
fn tampered_partial_signature_fails() {
    let g = group(3);
    let (mut remote, others) = first_rounds(&g);
    let second = Musig2FirstRound { session_id: 1 }.finalize(ServerMessage::Musig2FirstRoundFinalize(None)).unwrap().unwrap();

    let honest: PartialSignature = others[0].our_signature();
    let tampered: PartialSignature = honest + MaybeScalar::one();
    let res = contribution_response(remote.receive_signature(1, tampered));
    let r = second.receive_signature(ServerMessage::Musig2SecondRoundReceiveSignature(res)).unwrap();
    assert_eq!(r, Err(RoundContributionError { index: 1, reason: ContributionFaultReason::InvalidSignature }));
}
