//! The binary record form of a transaction: a 4-byte little-endian length
//! followed by the transaction's consensus serialization.
use vstd::prelude::*;

use crate::tx::{OutPoint, Tx, TxId, TxInput, TxView, TxOutput, tx_wf};

verus! {

/// An encoding of at most this many bytes holds no witness larger than the
/// consensus decoder's bound for one witness (`MAX_VEC_SIZE`), so the decoder
/// reads every such encoding back.
pub const MAX_ENCODED_LEN: usize = 4_000_000;

/// The consensus serialization of a transaction.
pub uninterp spec fn consensus_encoding(t: TxView) -> Seq<u8>;

/// What the consensus decoder makes of a byte string: a transaction, or
/// nothing where the bytes are not exactly one encoded transaction.
pub uninterp spec fn consensus_decoding(b: Seq<u8>) -> Option<TxView>;

/// The identifier of a transaction: the double SHA-256 of its serialization
/// without witness data.
pub uninterp spec fn txid_of(t: TxView) -> Seq<u8>;

#[verifier::external_type_specification]
#[verifier::external_body]
pub struct ExBitcoinTransaction(bitcoin::Transaction);

#[verifier::external_type_specification]
#[verifier::external_body]
pub struct ExBitcoinTxIn(bitcoin::TxIn);

#[verifier::external_type_specification]
#[verifier::external_body]
pub struct ExBitcoinTxOut(bitcoin::TxOut);

/// Relies on bitcoin's field constructors (`Txid::from_byte_array`,
/// `ScriptBuf::from_bytes`, `Sequence`, `Witness::from_slice`) to build its input.
#[verifier::external_body]
fn to_bitcoin_input(i: &TxInput) -> bitcoin::TxIn {
    bitcoin::TxIn {
        previous_output: bitcoin::OutPoint {
            txid: bitcoin::hashes::Hash::from_byte_array(i.previous_output.txid.bytes),
            vout: i.previous_output.vout,
        },
        script_sig: bitcoin::ScriptBuf::from_bytes(i.script_sig.clone()),
        sequence: bitcoin::Sequence(i.sequence),
        witness: bitcoin::Witness::from_slice(&i.witness),
    }
}

/// Relies on `Amount::from_sat` and `ScriptBuf::from_bytes` to build an output.
#[verifier::external_body]
pub(crate) fn to_bitcoin_output(o: &TxOutput) -> bitcoin::TxOut {
    bitcoin::TxOut {
        value: bitcoin::Amount::from_sat(o.value),
        script_pubkey: bitcoin::ScriptBuf::from_bytes(o.script_pubkey.clone()),
    }
}

/// Relies on `transaction::Version` and `LockTime::from_consensus` to build a transaction.
#[verifier::external_body]
pub(crate) fn to_bitcoin_tx(t: &Tx) -> bitcoin::Transaction {
    bitcoin::Transaction {
        version: bitcoin::transaction::Version(t.version),
        lock_time: bitcoin::absolute::LockTime::from_consensus(t.lock_time),
        input: t.input.iter().map(to_bitcoin_input).collect(),
        output: t.output.iter().map(to_bitcoin_output).collect(),
    }
}

/// Relies on the byte accessors of bitcoin's input fields (`to_byte_array`,
/// `to_bytes`, `Witness::to_vec`).
#[verifier::external_body]
fn from_bitcoin_input(i: &bitcoin::TxIn) -> TxInput {
    TxInput {
        previous_output: OutPoint {
            txid: TxId { bytes: bitcoin::hashes::Hash::to_byte_array(i.previous_output.txid) },
            vout: i.previous_output.vout,
        },
        script_sig: i.script_sig.to_bytes(),
        sequence: i.sequence.0,
        witness: i.witness.to_vec(),
    }
}

/// Relies on `Amount::to_sat` and `ScriptBuf::to_bytes`.
#[verifier::external_body]
fn from_bitcoin_output(o: &bitcoin::TxOut) -> TxOutput {
    TxOutput { value: o.value.to_sat(), script_pubkey: o.script_pubkey.to_bytes() }
}

/// Relies on `LockTime::to_consensus_u32` and the version's field.
#[verifier::external_body]
fn from_bitcoin_tx(t: &bitcoin::Transaction) -> Tx {
    Tx {
        version: t.version.0,
        lock_time: t.lock_time.to_consensus_u32(),
        input: t.input.iter().map(from_bitcoin_input).collect(),
        output: t.output.iter().map(from_bitcoin_output).collect(),
    }
}

/// Relies on `bitcoin::consensus::serialize`: the consensus encoding of the transaction.
#[verifier::external_body]
pub fn consensus_encode(t: &Tx) -> (r: Vec<u8>)
    ensures
        r@ == consensus_encoding(t@),
{
    bitcoin::consensus::serialize(&to_bitcoin_tx(t))
}

/// Relies on `bitcoin::consensus::deserialize`, whose result depends on the
/// bytes alone, and which reads back what `serialize` wrote (the decoder
/// mirrors the encoder field by field, legacy and segwit forms alike) as long
/// as no witness exceeds its size bound.
#[verifier::external_body]
fn consensus_decode(b: &[u8]) -> (r: Option<Tx>)
    ensures
        r is Some <==> consensus_decoding(b@) is Some,
        r matches Some(t) ==> consensus_decoding(b@) == Some(t@),
        forall|t: TxView|
            tx_wf(t) && b@ == consensus_encoding(t) && b@.len() <= MAX_ENCODED_LEN
                ==> #[trigger] decodes_to(r, t),
{
    bitcoin::consensus::deserialize::<bitcoin::Transaction>(b).ok().map(|t| from_bitcoin_tx(&t))
}

pub open spec fn decodes_to(r: Option<Tx>, t: TxView) -> bool {
    r is Some && r->0@ == t
}

/// Relies on `bitcoin::Transaction::compute_txid`.
#[verifier::external_body]
pub fn compute_txid(t: &Tx) -> (r: TxId)
    ensures
        r@ == txid_of(t@),
{
    TxId { bytes: bitcoin::hashes::Hash::to_byte_array(to_bitcoin_tx(t).compute_txid()) }
}


/// The four little-endian bytes of `n`.
pub open spec fn le_bytes(n: u32) -> Seq<u8> {
    seq![(n & 0xff) as u8, ((n >> 8u32) & 0xff) as u8, ((n >> 16u32) & 0xff) as u8, ((n >> 24u32) & 0xff) as u8]
}

/// The number that four little-endian bytes spell.
pub open spec fn le_value(b0: u8, b1: u8, b2: u8, b3: u8) -> u32 {
    (b0 as u32) | ((b1 as u32) << 8u32) | ((b2 as u32) << 16u32) | ((b3 as u32) << 24u32)
}

/// The length that a record declares in its first four bytes.
pub open spec fn declared_len(b: Seq<u8>) -> int
    recommends
        b.len() >= 4,
{
    le_value(b[0], b[1], b[2], b[3]) as int
}

/// A payload behind its 4-byte length.
pub open spec fn framed(payload: Seq<u8>) -> Seq<u8> {
    le_bytes(payload.len() as u32) + payload
}

/// The payload at the front of `b`, if `b` holds all of it.
pub open spec fn frame_payload(b: Seq<u8>) -> Option<Seq<u8>> {
    if b.len() >= 4 && declared_len(b) <= b.len() - 4 {
        Some(b.subrange(4, 4 + declared_len(b)))
    } else {
        None
    }
}

proof fn lemma_le_round_trip(n: u32)
    ensures
        le_value(le_bytes(n)[0], le_bytes(n)[1], le_bytes(n)[2], le_bytes(n)[3]) == n,
{
    let b0 = (n & 0xff) as u8;
    let b1 = ((n >> 8u32) & 0xff) as u8;
    let b2 = ((n >> 16u32) & 0xff) as u8;
    let b3 = ((n >> 24u32) & 0xff) as u8;
    assert(((b0 as u32) | ((b1 as u32) << 8u32) | ((b2 as u32) << 16u32) | ((b3 as u32) << 24u32)) == n)
        by (bit_vector)
        requires
            b0 == (n & 0xff) as u8,
            b1 == ((n >> 8u32) & 0xff) as u8,
            b2 == ((n >> 16u32) & 0xff) as u8,
            b3 == ((n >> 24u32) & 0xff) as u8,
    ;
}

/// Framing a payload and reading the frame back gives the payload, whatever
/// bytes follow the frame.
pub proof fn lemma_frame_round_trip(p: Seq<u8>, rest: Seq<u8>)
    requires
        p.len() <= u32::MAX,
    ensures
        frame_payload(framed(p)) == Some(p),
        frame_payload(framed(p) + rest) == Some(p),
{
    lemma_le_round_trip(p.len() as u32);
    let f = framed(p);
    assert(declared_len(f) == p.len());
    assert(declared_len(f + rest) == p.len());
    assert(f.subrange(4, 4 + p.len() as int) =~= p);
    assert((f + rest).subrange(4, 4 + p.len() as int) =~= p);
}

/// Puts the 4-byte little-endian length of `payload` in front of it.
pub fn frame(payload: &Vec<u8>) -> (r: Vec<u8>)
    requires
        payload@.len() <= u32::MAX,
    ensures
        r@ == framed(payload@),
{
    let n = payload.len() as u32;
    let mut r: Vec<u8> = Vec::new();
    r.push((n & 0xff) as u8);
    r.push(((n >> 8u32) & 0xff) as u8);
    r.push(((n >> 16u32) & 0xff) as u8);
    r.push(((n >> 24u32) & 0xff) as u8);
    let mut i: usize = 0;
    while i < payload.len()
        invariant
            i <= payload@.len(),
            r@ == le_bytes(n) + payload@.subrange(0, i as int),
        decreases payload@.len() - i,
    {
        r.push(payload[i]);
        i = i + 1;
        assert(r@ =~= le_bytes(n) + payload@.subrange(0, i as int));
    }
    assert(payload@.subrange(0, i as int) =~= payload@);
    r
}

/// Why a record could not be read.
#[derive(Clone, Copy, Debug, PartialEq, Eq, Structural)]
pub enum CodecError {
    /// The input ends before the length or the payload that it declares.
    UnexpectedEof,
    /// The payload is not a consensus-encoded transaction.
    InvalidData,
    /// The consensus encoding is longer than a 4-byte length can declare.
    TooLong,
}

/// Reads the framed payload at the front of `b`.
pub fn read_frame(b: &[u8]) -> (r: Option<Vec<u8>>)
    ensures
        match r {
            Some(p) => frame_payload(b@) == Some(p@),
            None => frame_payload(b@) is None,
        },
{
    if b.len() < 4 {
        return None;
    }
    let n = (b[0] as u32) | ((b[1] as u32) << 8u32) | ((b[2] as u32) << 16u32) | ((b[3] as u32) << 24u32);
    let n = n as usize;
    if n > b.len() - 4 {
        return None;
    }
    let mut p: Vec<u8> = Vec::with_capacity(n);
    let mut i: usize = 0;
    while i < n
        invariant
            i <= n,
            4 + n <= b.len(),
            p@ == b@.subrange(4, 4 + i),
        decreases n - i,
    {
        p.push(b[4 + i]);
        i = i + 1;
        assert(p@ =~= b@.subrange(4, 4 + i));
    }
    Some(p)
}

/// A transaction in the binary record form: its consensus serialization
/// behind a 4-byte little-endian length.
#[derive(Clone, Debug, PartialEq, Eq)]
pub struct BitcoinTx(pub Tx);

impl View for BitcoinTx {
    type V = TxView;

    open spec fn view(&self) -> TxView {
        self.0@
    }
}

/// `b` begins with a record whose payload is the encoding of `t`.
pub open spec fn holds_record_of(b: Seq<u8>, t: TxView) -> bool {
    &&& frame_payload(b) == Some(consensus_encoding(t))
    &&& consensus_encoding(t).len() <= MAX_ENCODED_LEN
    &&& tx_wf(t)
}

impl BitcoinTx {
    pub fn from(tx: Tx) -> (r: BitcoinTx)
        ensures
            r@ == tx@,
    {
        BitcoinTx(tx)
    }

    pub fn into_inner(self) -> (r: Tx)
        ensures
            r@ == self@,
    {
        self.0
    }

    pub fn as_ref(&self) -> (r: &Tx)
        ensures
            r@ == self@,
    {
        &self.0
    }

    /// The record: the 4-byte length, then the consensus encoding.
    pub fn serialize(&self) -> (r: Result<Vec<u8>, CodecError>)
        ensures
            consensus_encoding(self@).len() <= u32::MAX ==> r == Ok::<Vec<u8>, CodecError>(r->Ok_0)
                && r->Ok_0@ == framed(consensus_encoding(self@)),
            consensus_encoding(self@).len() > u32::MAX ==> r == Err::<Vec<u8>, CodecError>(CodecError::TooLong),
    {
        let bytes = consensus_encode(&self.0);
        if bytes.len() > 0xffff_ffff {
            return Err(CodecError::TooLong);
        }
        Ok(frame(&bytes))
    }

    /// Reads one record from the front of `b`; also returns how many bytes it took.
    pub fn deserialize_reader(b: &[u8]) -> (r: Result<(BitcoinTx, usize), CodecError>)
        ensures
            frame_payload(b@) is None <==> r == Err::<(BitcoinTx, usize), CodecError>(CodecError::UnexpectedEof),
            frame_payload(b@) matches Some(p) ==> match consensus_decoding(p) {
                Some(t) => r matches Ok((tx, used)) && tx@ == t && used == 4 + declared_len(b@),
                None => r == Err::<(BitcoinTx, usize), CodecError>(CodecError::InvalidData),
            },
            forall|t: TxView| #[trigger] holds_record_of(b@, t) ==> (r is Ok && r->Ok_0.0@ == t),
    {
        let payload = match read_frame(b) {
            Some(p) => p,
            None => return Err(CodecError::UnexpectedEof),
        };
        assert(payload@.len() <= b.len() - 4);
        let used = payload.len() + 4;
        let decoded = consensus_decode(payload.as_slice());
        assert forall|t: TxView| #[trigger] holds_record_of(b@, t) implies decodes_to(decoded, t) by {
            assert(payload@ == consensus_encoding(t));
        }
        match decoded {
            Some(t) => Ok((BitcoinTx(t), used)),
            None => Err(CodecError::InvalidData),
        }
    }
}

/// Reading back the record of a transaction gives the same transaction, for
/// encodings of at most `MAX_ENCODED_LEN` bytes (a longer one may hold a
/// witness that the decoder refuses).
pub proof fn lemma_record_round_trip(t: TxView)
    requires
        tx_wf(t),
        consensus_encoding(t).len() <= MAX_ENCODED_LEN,
    ensures
        holds_record_of(framed(consensus_encoding(t)), t),
{
    lemma_frame_round_trip(consensus_encoding(t), Seq::empty());
}

} // verus!
