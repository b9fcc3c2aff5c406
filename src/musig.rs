//! The client side of the two-round MuSig2 signing protocol against a remote
//! signer: the request that each step sends, how each response is read, and
//! the session state that the steps move through.
use vstd::prelude::*;

verus! {

pub type SessionId = u64;

/// Why a nonce or partial signature from one participant was rejected.
#[derive(Clone, Copy, Debug, PartialEq, Eq, Structural)]
pub enum ContributionFaultReason {
    /// The signer index is out of range for the group of this many signers.
    OutOfRange(usize),
    /// The participant already sent a different value in this round.
    InconsistentContribution,
    /// The partial signature does not verify.
    InvalidSignature,
}

#[derive(Clone, Copy, Debug, PartialEq, Eq, Structural)]
pub struct RoundContributionError {
    pub index: usize,
    pub reason: ContributionFaultReason,
}

/// Why a round could not be finalized. Such a round cannot be resumed.
#[derive(Clone, Copy, Debug, PartialEq, Eq, Structural)]
pub enum RoundFinalizeError {
    /// Contributions are still missing.
    Incomplete,
    /// Our own partial signature could not be made.
    SigningError,
    /// The aggregated signature does not verify.
    InvalidAggregatedSignature,
}

/// The remote rejected the session because our signer index is out of bounds.
#[derive(Clone, Copy, Debug, PartialEq, Eq, Structural)]
pub struct SignerIdxOutOfBounds {
    pub index: usize,
    pub n_signers: usize,
}

/// A failure to talk to the remote, as opposed to the remote saying no.
#[derive(Clone, Copy, Debug, PartialEq, Eq, Structural)]
pub enum ClientError {
    /// The remote answered with a response of another kind than the request's.
    WrongMessage,
    /// The response's payload could not be read.
    BadData,
    /// No response came within the configured time.
    Timeout,
}

/// The requests of the protocol.
#[derive(Debug)]
pub enum ClientMessage {
    Musig2NewSession { pubkeys: Vec<[u8; 32]>, witness: Vec<u8>, input_txid: [u8; 32], input_vout: u32 },
    Musig2Pubkey,
    Musig2FirstRoundOurNonce { session_id: SessionId },
    Musig2FirstRoundHoldouts { session_id: SessionId },
    Musig2FirstRoundIsComplete { session_id: SessionId },
    Musig2FirstRoundReceivePubNonce { session_id: SessionId, pubkey: [u8; 32], pubnonce: Vec<u8> },
    Musig2FirstRoundFinalize { session_id: SessionId, digest: [u8; 32] },
    Musig2SecondRoundAggNonce { session_id: SessionId },
    Musig2SecondRoundHoldouts { session_id: SessionId },
    Musig2SecondRoundOurSignature { session_id: SessionId },
    Musig2SecondRoundIsComplete { session_id: SessionId },
    Musig2SecondRoundReceiveSignature { session_id: SessionId, pubkey: [u8; 32], signature: [u8; 32] },
    Musig2SecondRoundFinalize { session_id: SessionId },
}

/// The responses of the protocol.
#[derive(Debug)]
pub enum ServerMessage {
    Musig2NewSession(Result<SessionId, SignerIdxOutOfBounds>),
    Musig2Pubkey { pubkey: [u8; 32] },
    Musig2FirstRoundOurNonce { our_nonce: Vec<u8> },
    Musig2FirstRoundHoldouts { pubkeys: Vec<[u8; 32]> },
    Musig2FirstRoundIsComplete { complete: bool },
    Musig2FirstRoundReceivePubNonce(Option<RoundContributionError>),
    Musig2FirstRoundFinalize(Option<RoundFinalizeError>),
    Musig2SecondRoundAggNonce { nonce: Vec<u8> },
    Musig2SecondRoundHoldouts { pubkeys: Vec<[u8; 32]> },
    Musig2SecondRoundOurSignature { sig: [u8; 32] },
    Musig2SecondRoundIsComplete { complete: bool },
    Musig2SecondRoundReceiveSignature(Option<RoundContributionError>),
    Musig2SecondRoundFinalize(Result<[u8; 64], RoundFinalizeError>),
}

/// Whether 32 bytes are an x-only public key.
pub uninterp spec fn xonly_valid(b: Seq<u8>) -> bool;

/// Whether bytes are a MuSig2 public nonce.
pub uninterp spec fn pub_nonce_valid(b: Seq<u8>) -> bool;

/// Whether bytes are a MuSig2 aggregated nonce.
pub uninterp spec fn agg_nonce_valid(b: Seq<u8>) -> bool;

/// Whether 32 bytes are a MuSig2 partial signature.
pub uninterp spec fn partial_sig_valid(b: Seq<u8>) -> bool;

/// Whether 64 bytes are a lifted Schnorr signature.
pub uninterp spec fn lifted_sig_valid(b: Seq<u8>) -> bool;

/// Relies on `secp256k1::XOnlyPublicKey::from_slice`, a check of the bytes alone.
#[verifier::external_body]
fn is_xonly_key(b: &[u8; 32]) -> (r: bool)
    ensures
        r == xonly_valid(b@),
{
    secp256k1::XOnlyPublicKey::from_slice(b).is_ok()
}

/// Relies on musig2's `PubNonce::from_bytes`, a check of the bytes alone.
#[verifier::external_body]
fn is_pub_nonce(b: &Vec<u8>) -> (r: bool)
    ensures
        r == pub_nonce_valid(b@),
{
    <musig2::PubNonce as musig2::BinaryEncoding>::from_bytes(b).is_ok()
}

/// Relies on musig2's `AggNonce::from_bytes`, a check of the bytes alone.
#[verifier::external_body]
fn is_agg_nonce(b: &Vec<u8>) -> (r: bool)
    ensures
        r == agg_nonce_valid(b@),
{
    <musig2::AggNonce as musig2::BinaryEncoding>::from_bytes(b).is_ok()
}

/// Relies on musig2's `PartialSignature::from_slice`, a check of the bytes alone.
#[verifier::external_body]
fn is_partial_signature(b: &[u8; 32]) -> (r: bool)
    ensures
        r == partial_sig_valid(b@),
{
    musig2::PartialSignature::from_slice(b).is_ok()
}

/// Relies on musig2's `LiftedSignature::from_bytes`, a check of the bytes alone.
#[verifier::external_body]
fn is_lifted_signature(b: &[u8; 64]) -> (r: bool)
    ensures
        r == lifted_sig_valid(b@),
{
    <musig2::LiftedSignature as musig2::BinaryEncoding>::from_bytes(b).is_ok()
}

/// Every key of a list is an x-only public key.
pub open spec fn all_xonly(keys: Seq<[u8; 32]>) -> bool {
    forall|i: int| 0 <= i < keys.len() ==> xonly_valid(#[trigger] keys[i]@)
}

fn check_all_xonly(keys: &Vec<[u8; 32]>) -> (r: bool)
    ensures
        r == all_xonly(keys@),
{
    let mut i: usize = 0;
    while i < keys.len()
        invariant
            i <= keys@.len(),
            forall|j: int| 0 <= j < i ==> xonly_valid(#[trigger] keys@[j]@),
        decreases keys@.len() - i,
    {
        if !is_xonly_key(&keys[i]) {
            return false;
        }
        i = i + 1;
    }
    true
}

/// The first round of a session: nonces are exchanged.
#[derive(Clone, Copy, Debug, PartialEq, Eq, Structural)]
pub struct Musig2FirstRound {
    pub session_id: SessionId,
}

/// The second round of a session: partial signatures are exchanged.
#[derive(Clone, Copy, Debug, PartialEq, Eq, Structural)]
pub struct Musig2SecondRound {
    pub session_id: SessionId,
}

/// Reads the answer to a new-session request.
pub fn read_new_session(res: ServerMessage) -> (r: Result<Result<Musig2FirstRound, SignerIdxOutOfBounds>, ClientError>)
    ensures
        match res {
            ServerMessage::Musig2NewSession(Ok(id)) => r == Ok::<Result<Musig2FirstRound, SignerIdxOutOfBounds>, ClientError>(
                Ok(Musig2FirstRound { session_id: id }),
            ),
            ServerMessage::Musig2NewSession(Err(e)) => r == Ok::<Result<Musig2FirstRound, SignerIdxOutOfBounds>, ClientError>(Err(e)),
            _ => r == Err::<Result<Musig2FirstRound, SignerIdxOutOfBounds>, ClientError>(ClientError::WrongMessage),
        },
{
    match res {
        ServerMessage::Musig2NewSession(Ok(id)) => Ok(Ok(Musig2FirstRound { session_id: id })),
        ServerMessage::Musig2NewSession(Err(e)) => Ok(Err(e)),
        _ => Err(ClientError::WrongMessage),
    }
}

/// Reads the answer to a request for the remote's public key; bytes that
/// are no x-only key count as a wrong answer.
pub fn read_pubkey(res: ServerMessage) -> (r: Result<[u8; 32], ClientError>)
    ensures
        match res {
            ServerMessage::Musig2Pubkey { pubkey } => if xonly_valid(pubkey@) {
                r == Ok::<[u8; 32], ClientError>(pubkey)
            } else {
                r == Err::<[u8; 32], ClientError>(ClientError::WrongMessage)
            },
            _ => r == Err::<[u8; 32], ClientError>(ClientError::WrongMessage),
        },
{
    match res {
        ServerMessage::Musig2Pubkey { pubkey } => if is_xonly_key(&pubkey) {
            Ok(pubkey)
        } else {
            Err(ClientError::WrongMessage)
        },
        _ => Err(ClientError::WrongMessage),
    }
}

/// Reads the answer to a contribution: the remote's rejection, if any, is passed on.
fn read_contribution(res: ServerMessage, second: bool) -> (r: Result<Result<(), RoundContributionError>, ClientError>)
    ensures
        match res {
            ServerMessage::Musig2FirstRoundReceivePubNonce(m) if !second => r == Ok::<Result<(), RoundContributionError>, ClientError>(
                contribution_result(m),
            ),
            ServerMessage::Musig2SecondRoundReceiveSignature(m) if second => r == Ok::<Result<(), RoundContributionError>, ClientError>(
                contribution_result(m),
            ),
            _ => r == Err::<Result<(), RoundContributionError>, ClientError>(ClientError::WrongMessage),
        },
{
    match res {
        ServerMessage::Musig2FirstRoundReceivePubNonce(m) if !second => Ok(match m {
            Some(e) => Err(e),
            None => Ok(()),
        }),
        ServerMessage::Musig2SecondRoundReceiveSignature(m) if second => Ok(match m {
            Some(e) => Err(e),
            None => Ok(()),
        }),
        _ => Err(ClientError::WrongMessage),
    }
}

pub open spec fn contribution_result(m: Option<RoundContributionError>) -> Result<(), RoundContributionError> {
    match m {
        Some(e) => Err(e),
        None => Ok(()),
    }
}

/// The holdouts that a response lists, if every one is an x-only key.
pub open spec fn holdouts_result(pubkeys: Vec<[u8; 32]>, r: Result<Vec<[u8; 32]>, ClientError>) -> bool {
    if all_xonly(pubkeys@) {
        r matches Ok(v) && v@ == pubkeys@
    } else {
        r == Err::<Vec<[u8; 32]>, ClientError>(ClientError::BadData)
    }
}

fn checked_holdouts(pubkeys: Vec<[u8; 32]>) -> (r: Result<Vec<[u8; 32]>, ClientError>)
    ensures
        holdouts_result(pubkeys, r),
{
    if check_all_xonly(&pubkeys) {
        Ok(pubkeys)
    } else {
        Err(ClientError::BadData)
    }
}

fn read_holdouts(res: ServerMessage, second: bool) -> (r: Result<Vec<[u8; 32]>, ClientError>)
    ensures
        match res {
            ServerMessage::Musig2FirstRoundHoldouts { pubkeys } if !second => holdouts_result(pubkeys, r),
            ServerMessage::Musig2SecondRoundHoldouts { pubkeys } if second => holdouts_result(pubkeys, r),
            _ => r == Err::<Vec<[u8; 32]>, ClientError>(ClientError::WrongMessage),
        },
{
    match res {
        ServerMessage::Musig2FirstRoundHoldouts { pubkeys } if !second => checked_holdouts(pubkeys),
        ServerMessage::Musig2SecondRoundHoldouts { pubkeys } if second => checked_holdouts(pubkeys),
        _ => Err(ClientError::WrongMessage),
    }
}

fn read_is_complete(res: ServerMessage, second: bool) -> (r: Result<bool, ClientError>)
    ensures
        match res {
            ServerMessage::Musig2FirstRoundIsComplete { complete } if !second => r == Ok::<bool, ClientError>(complete),
            ServerMessage::Musig2SecondRoundIsComplete { complete } if second => r == Ok::<bool, ClientError>(complete),
            _ => r == Err::<bool, ClientError>(ClientError::WrongMessage),
        },
{
    match res {
        ServerMessage::Musig2FirstRoundIsComplete { complete } if !second => Ok(complete),
        ServerMessage::Musig2SecondRoundIsComplete { complete } if second => Ok(complete),
        _ => Err(ClientError::WrongMessage),
    }
}


/// The request that opens a session for the input `input_txid:input_vout`.
pub fn new_session_request(pubkeys: Vec<[u8; 32]>, witness: Vec<u8>, input_txid: [u8; 32], input_vout: u32) -> (r: ClientMessage)
    ensures
        r == (ClientMessage::Musig2NewSession { pubkeys, witness, input_txid, input_vout }),
{
    ClientMessage::Musig2NewSession { pubkeys, witness, input_txid, input_vout }
}

impl Musig2FirstRound {
    pub fn our_nonce_request(&self) -> (r: ClientMessage)
        ensures
            r == (ClientMessage::Musig2FirstRoundOurNonce { session_id: self.session_id }),
    {
        ClientMessage::Musig2FirstRoundOurNonce { session_id: self.session_id }
    }

    /// Our public nonce, as the remote encoded it.
    pub fn our_nonce(&self, res: ServerMessage) -> (r: Result<Vec<u8>, ClientError>)
        ensures
            match res {
                ServerMessage::Musig2FirstRoundOurNonce { our_nonce } => if pub_nonce_valid(our_nonce@) {
                    r matches Ok(v) && v@ == our_nonce@
                } else {
                    r == Err::<Vec<u8>, ClientError>(ClientError::BadData)
                },
                _ => r == Err::<Vec<u8>, ClientError>(ClientError::WrongMessage),
            },
    {
        match res {
            ServerMessage::Musig2FirstRoundOurNonce { our_nonce } => if is_pub_nonce(&our_nonce) {
                Ok(our_nonce)
            } else {
                Err(ClientError::BadData)
            },
            _ => Err(ClientError::WrongMessage),
        }
    }

    pub fn holdouts_request(&self) -> (r: ClientMessage)
        ensures
            r == (ClientMessage::Musig2FirstRoundHoldouts { session_id: self.session_id }),
    {
        ClientMessage::Musig2FirstRoundHoldouts { session_id: self.session_id }
    }

    /// The keys of the participants whose nonce has not come yet; a listed
    /// key that is no x-only key makes the answer unreadable.
    pub fn holdouts(&self, res: ServerMessage) -> (r: Result<Vec<[u8; 32]>, ClientError>)
        ensures
            match res {
                ServerMessage::Musig2FirstRoundHoldouts { pubkeys } => holdouts_result(pubkeys, r),
                _ => r == Err::<Vec<[u8; 32]>, ClientError>(ClientError::WrongMessage),
            },
    {
        read_holdouts(res, false)
    }

    pub fn is_complete_request(&self) -> (r: ClientMessage)
        ensures
            r == (ClientMessage::Musig2FirstRoundIsComplete { session_id: self.session_id }),
    {
        ClientMessage::Musig2FirstRoundIsComplete { session_id: self.session_id }
    }

    pub fn is_complete(&self, res: ServerMessage) -> (r: Result<bool, ClientError>)
        ensures
            match res {
                ServerMessage::Musig2FirstRoundIsComplete { complete } => r == Ok::<bool, ClientError>(complete),
                _ => r == Err::<bool, ClientError>(ClientError::WrongMessage),
            },
    {
        read_is_complete(res, false)
    }

    pub fn receive_pub_nonce_request(&self, pubkey: [u8; 32], pubnonce: Vec<u8>) -> (r: ClientMessage)
        ensures
            r == (ClientMessage::Musig2FirstRoundReceivePubNonce { session_id: self.session_id, pubkey, pubnonce }),
    {
        ClientMessage::Musig2FirstRoundReceivePubNonce { session_id: self.session_id, pubkey, pubnonce }
    }

    /// Whether the remote took the nonce; its rejection is passed on as it came.
    pub fn receive_pub_nonce(&self, res: ServerMessage) -> (r: Result<Result<(), RoundContributionError>, ClientError>)
        ensures
            match res {
                ServerMessage::Musig2FirstRoundReceivePubNonce(m) => r == Ok::<Result<(), RoundContributionError>, ClientError>(
                    contribution_result(m),
                ),
                _ => r == Err::<Result<(), RoundContributionError>, ClientError>(ClientError::WrongMessage),
            },
    {
        read_contribution(res, false)
    }

    pub fn finalize_request(&self, digest: [u8; 32]) -> (r: ClientMessage)
        ensures
            r == (ClientMessage::Musig2FirstRoundFinalize { session_id: self.session_id, digest }),
    {
        ClientMessage::Musig2FirstRoundFinalize { session_id: self.session_id, digest }
    }

    /// Ends the first round: the second round of the same session, or the
    /// remote's reason why the round cannot end.
    pub fn finalize(self, res: ServerMessage) -> (r: Result<Result<Musig2SecondRound, RoundFinalizeError>, ClientError>)
        ensures
            match res {
                ServerMessage::Musig2FirstRoundFinalize(None) => r == Ok::<Result<Musig2SecondRound, RoundFinalizeError>, ClientError>(
                    Ok(Musig2SecondRound { session_id: self.session_id }),
                ),
                ServerMessage::Musig2FirstRoundFinalize(Some(e)) => r == Ok::<Result<Musig2SecondRound, RoundFinalizeError>, ClientError>(Err(e)),
                _ => r == Err::<Result<Musig2SecondRound, RoundFinalizeError>, ClientError>(ClientError::WrongMessage),
            },
    {
        match res {
            ServerMessage::Musig2FirstRoundFinalize(None) => Ok(Ok(Musig2SecondRound { session_id: self.session_id })),
            ServerMessage::Musig2FirstRoundFinalize(Some(e)) => Ok(Err(e)),
            _ => Err(ClientError::WrongMessage),
        }
    }
}

impl Musig2SecondRound {
    pub fn agg_nonce_request(&self) -> (r: ClientMessage)
        ensures
            r == (ClientMessage::Musig2SecondRoundAggNonce { session_id: self.session_id }),
    {
        ClientMessage::Musig2SecondRoundAggNonce { session_id: self.session_id }
    }

    /// The aggregated nonce, as the remote encoded it.
    pub fn agg_nonce(&self, res: ServerMessage) -> (r: Result<Vec<u8>, ClientError>)
        ensures
            match res {
                ServerMessage::Musig2SecondRoundAggNonce { nonce } => if agg_nonce_valid(nonce@) {
                    r matches Ok(v) && v@ == nonce@
                } else {
                    r == Err::<Vec<u8>, ClientError>(ClientError::BadData)
                },
                _ => r == Err::<Vec<u8>, ClientError>(ClientError::WrongMessage),
            },
    {
        match res {
            ServerMessage::Musig2SecondRoundAggNonce { nonce } => if is_agg_nonce(&nonce) {
                Ok(nonce)
            } else {
                Err(ClientError::BadData)
            },
            _ => Err(ClientError::WrongMessage),
        }
    }

    pub fn holdouts_request(&self) -> (r: ClientMessage)
        ensures
            r == (ClientMessage::Musig2SecondRoundHoldouts { session_id: self.session_id }),
    {
        ClientMessage::Musig2SecondRoundHoldouts { session_id: self.session_id }
    }

    /// The keys of the participants whose partial signature has not come
    /// yet; a listed key that is no x-only key makes the answer unreadable.
    pub fn holdouts(&self, res: ServerMessage) -> (r: Result<Vec<[u8; 32]>, ClientError>)
        ensures
            match res {
                ServerMessage::Musig2SecondRoundHoldouts { pubkeys } => holdouts_result(pubkeys, r),
                _ => r == Err::<Vec<[u8; 32]>, ClientError>(ClientError::WrongMessage),
            },
    {
        read_holdouts(res, true)
    }

    pub fn our_signature_request(&self) -> (r: ClientMessage)
        ensures
            r == (ClientMessage::Musig2SecondRoundOurSignature { session_id: self.session_id }),
    {
        ClientMessage::Musig2SecondRoundOurSignature { session_id: self.session_id }
    }

    /// Our partial signature.
    pub fn our_signature(&self, res: ServerMessage) -> (r: Result<[u8; 32], ClientError>)
        ensures
            match res {
                ServerMessage::Musig2SecondRoundOurSignature { sig } => if partial_sig_valid(sig@) {
                    r == Ok::<[u8; 32], ClientError>(sig)
                } else {
                    r == Err::<[u8; 32], ClientError>(ClientError::BadData)
                },
                _ => r == Err::<[u8; 32], ClientError>(ClientError::WrongMessage),
            },
    {
        match res {
            ServerMessage::Musig2SecondRoundOurSignature { sig } => if is_partial_signature(&sig) {
                Ok(sig)
            } else {
                Err(ClientError::BadData)
            },
            _ => Err(ClientError::WrongMessage),
        }
    }

    pub fn is_complete_request(&self) -> (r: ClientMessage)
        ensures
            r == (ClientMessage::Musig2SecondRoundIsComplete { session_id: self.session_id }),
    {
        ClientMessage::Musig2SecondRoundIsComplete { session_id: self.session_id }
    }

    pub fn is_complete(&self, res: ServerMessage) -> (r: Result<bool, ClientError>)
        ensures
            match res {
                ServerMessage::Musig2SecondRoundIsComplete { complete } => r == Ok::<bool, ClientError>(complete),
                _ => r == Err::<bool, ClientError>(ClientError::WrongMessage),
            },
    {
        read_is_complete(res, true)
    }

    pub fn receive_signature_request(&self, pubkey: [u8; 32], signature: [u8; 32]) -> (r: ClientMessage)
        ensures
            r == (ClientMessage::Musig2SecondRoundReceiveSignature { session_id: self.session_id, pubkey, signature }),
    {
        ClientMessage::Musig2SecondRoundReceiveSignature { session_id: self.session_id, pubkey, signature }
    }

    /// Whether the remote took the partial signature; its rejection is passed on as it came.
    pub fn receive_signature(&self, res: ServerMessage) -> (r: Result<Result<(), RoundContributionError>, ClientError>)
        ensures
            match res {
                ServerMessage::Musig2SecondRoundReceiveSignature(m) => r == Ok::<Result<(), RoundContributionError>, ClientError>(
                    contribution_result(m),
                ),
                _ => r == Err::<Result<(), RoundContributionError>, ClientError>(ClientError::WrongMessage),
            },
    {
        read_contribution(res, true)
    }

    pub fn finalize_request(&self) -> (r: ClientMessage)
        ensures
            r == (ClientMessage::Musig2SecondRoundFinalize { session_id: self.session_id }),
    {
        ClientMessage::Musig2SecondRoundFinalize { session_id: self.session_id }
    }

    /// Ends the session: the aggregated signature, or the remote's reason why
    /// the round cannot end.
    pub fn finalize(self, res: ServerMessage) -> (r: Result<Result<[u8; 64], RoundFinalizeError>, ClientError>)
        ensures
            match res {
                ServerMessage::Musig2SecondRoundFinalize(Ok(sig)) => if lifted_sig_valid(sig@) {
                    r == Ok::<Result<[u8; 64], RoundFinalizeError>, ClientError>(Ok(sig))
                } else {
                    r == Err::<Result<[u8; 64], RoundFinalizeError>, ClientError>(ClientError::BadData)
                },
                ServerMessage::Musig2SecondRoundFinalize(Err(e)) => r == Ok::<Result<[u8; 64], RoundFinalizeError>, ClientError>(Err(e)),
                _ => r == Err::<Result<[u8; 64], RoundFinalizeError>, ClientError>(ClientError::WrongMessage),
            },
    {
        match res {
            ServerMessage::Musig2SecondRoundFinalize(Ok(sig)) => if is_lifted_signature(&sig) {
                Ok(Ok(sig))
            } else {
                Err(ClientError::BadData)
            },
            ServerMessage::Musig2SecondRoundFinalize(Err(e)) => Ok(Err(e)),
            _ => Err(ClientError::WrongMessage),
        }
    }
}


/// Where a signing session stands. A round, once finalized, is gone: the
/// session can only move forward.
#[derive(Clone, Copy, Debug)]
pub enum SigningSession {
    Uninitialized,
    FirstRound(Musig2FirstRound),
    SecondRound(Musig2SecondRound),
    Complete([u8; 64]),
}

/// Why a session could not move on.
#[derive(Clone, Copy, Debug, PartialEq, Eq, Structural)]
pub enum SessionError {
    Client(ClientError),
    OutOfBounds(SignerIdxOutOfBounds),
    Finalize(RoundFinalizeError),
    /// The session is already complete.
    Finished,
}

/// The state after `s` receives the answer `res` to its closing request.
pub open spec fn next_session(s: SigningSession, res: ServerMessage) -> Result<SigningSession, SessionError> {
    match s {
        SigningSession::Uninitialized => match res {
            ServerMessage::Musig2NewSession(Ok(id)) => Ok(SigningSession::FirstRound(Musig2FirstRound { session_id: id })),
            ServerMessage::Musig2NewSession(Err(e)) => Err(SessionError::OutOfBounds(e)),
            _ => Err(SessionError::Client(ClientError::WrongMessage)),
        },
        SigningSession::FirstRound(f) => match res {
            ServerMessage::Musig2FirstRoundFinalize(None) => Ok(SigningSession::SecondRound(Musig2SecondRound { session_id: f.session_id })),
            ServerMessage::Musig2FirstRoundFinalize(Some(e)) => Err(SessionError::Finalize(e)),
            _ => Err(SessionError::Client(ClientError::WrongMessage)),
        },
        SigningSession::SecondRound(_) => match res {
            ServerMessage::Musig2SecondRoundFinalize(Ok(sig)) => if lifted_sig_valid(sig@) {
                Ok(SigningSession::Complete(sig))
            } else {
                Err(SessionError::Client(ClientError::BadData))
            },
            ServerMessage::Musig2SecondRoundFinalize(Err(e)) => Err(SessionError::Finalize(e)),
            _ => Err(SessionError::Client(ClientError::WrongMessage)),
        },
        SigningSession::Complete(_) => Err(SessionError::Finished),
    }
}

impl SigningSession {
    /// Moves the session on by the answer to its closing request: the
    /// new-session request, then each round's finalize request.
    pub fn advance(self, res: ServerMessage) -> (r: Result<SigningSession, SessionError>)
        ensures
            r == next_session(self, res),
    {
        match self {
            SigningSession::Uninitialized => match read_new_session(res) {
                Ok(Ok(f)) => Ok(SigningSession::FirstRound(f)),
                Ok(Err(e)) => Err(SessionError::OutOfBounds(e)),
                Err(e) => Err(SessionError::Client(e)),
            },
            SigningSession::FirstRound(f) => match f.finalize(res) {
                Ok(Ok(s)) => Ok(SigningSession::SecondRound(s)),
                Ok(Err(e)) => Err(SessionError::Finalize(e)),
                Err(e) => Err(SessionError::Client(e)),
            },
            SigningSession::SecondRound(s) => match s.finalize(res) {
                Ok(Ok(sig)) => Ok(SigningSession::Complete(sig)),
                Ok(Err(e)) => Err(SessionError::Finalize(e)),
                Err(e) => Err(SessionError::Client(e)),
            },
            SigningSession::Complete(_) => Err(SessionError::Finished),
        }
    }
}

} // verus!
