//! The operator agent's own logic: its key, the signatures and nonces it
//! makes with it, and its choice of a funding output.
use vstd::prelude::*;

use crate::codec::{to_bitcoin_output, to_bitcoin_tx};
use crate::graph::p2tr_script;
use crate::tx::{copy_bytes, OutPoint, OutPointView, Tx, TxId, TxOutput, TxOutputView, TxView};

verus! {

/// The least fee that a relayed transaction pays, in satoshis.
pub const MIN_RELAY_FEE: u64 = 1_000;

/// An unspent output that the node reports.
#[derive(Debug)]
pub struct UnspentUtxo {
    pub txid: TxId,
    pub vout: u32,
    pub amount: u64,
    pub script_pubkey: Vec<u8>,
}

impl UnspentUtxo {
    pub open spec fn outpoint(&self) -> OutPointView {
        OutPointView { txid: self.txid@, vout: self.vout }
    }
}

/// The output chosen to fund a transaction.
#[derive(Debug)]
pub struct SelectedUtxo {
    pub outpoint: OutPoint,
    pub amount: u64,
    pub prevout: TxOutput,
}

pub open spec fn is_reserved(reserved: Seq<OutPoint>, op: OutPointView) -> bool {
    exists|j: int| 0 <= j < reserved.len() && (#[trigger] reserved[j])@ == op
}

/// An output may fund a transaction of `target` satoshis: nobody has
/// reserved it and it exceeds the target plus the relay fee.
pub open spec fn eligible(u: UnspentUtxo, target: u64, reserved: Seq<OutPoint>) -> bool {
    &&& !is_reserved(reserved, u.outpoint())
    &&& u.amount > target + MIN_RELAY_FEE
}

fn reserved_contains(reserved: &Vec<OutPoint>, op: &OutPoint) -> (r: bool)
    ensures
        r == is_reserved(reserved@, op@),
{
    let mut j: usize = 0;
    while j < reserved.len()
        invariant
            j <= reserved@.len(),
            forall|k: int| 0 <= k < j ==> (#[trigger] reserved@[k])@ != op@,
        decreases reserved@.len() - j,
    {
        if reserved[j].same_as(op) {
            return true;
        }
        j = j + 1;
    }
    false
}

/// The first unspent output, in the node's order, that is not reserved and
/// exceeds `target_amount` plus the relay fee; none if there is no such output.
pub fn select_utxo(unspent: &Vec<UnspentUtxo>, target_amount: u64, reserved_utxos: &Vec<OutPoint>) -> (r: Option<SelectedUtxo>)
    ensures
        r is None <==> forall|i: int| 0 <= i < unspent@.len() ==> !eligible(#[trigger] unspent@[i], target_amount, reserved_utxos@),
        r matches Some(s) ==> exists|i: int| {
            &&& 0 <= i < unspent@.len()
            &&& eligible(#[trigger] unspent@[i], target_amount, reserved_utxos@)
            &&& forall|k: int| 0 <= k < i ==> !eligible(#[trigger] unspent@[k], target_amount, reserved_utxos@)
            &&& s.outpoint@ == unspent@[i].outpoint()
            &&& s.amount == unspent@[i].amount
            &&& s.prevout@ == (TxOutputView { value: unspent@[i].amount, script_pubkey: unspent@[i].script_pubkey@ })
        },
{
    let mut i: usize = 0;
    while i < unspent.len()
        invariant
            i <= unspent@.len(),
            forall|k: int| 0 <= k < i ==> !eligible(#[trigger] unspent@[k], target_amount, reserved_utxos@),
        decreases unspent@.len() - i,
    {
        let entry = &unspent[i];
        let outpoint = OutPoint { txid: entry.txid, vout: entry.vout };
        if !reserved_contains(reserved_utxos, &outpoint) && (entry.amount as u128) > (target_amount as u128) + (MIN_RELAY_FEE as u128) {
            let prevout = TxOutput { value: entry.amount, script_pubkey: copy_bytes(&entry.script_pubkey) };
            let r = SelectedUtxo { outpoint, amount: entry.amount, prevout };
            assert(eligible(unspent@[i as int], target_amount, reserved_utxos@));
            return Some(r);
        }
        i = i + 1;
    }
    None
}


/// The order of the secp256k1 group, big-endian.
pub open spec fn curve_order() -> Seq<u8> {
    seq![
        0xffu8, 0xff, 0xff, 0xff, 0xff, 0xff, 0xff, 0xff, 0xff, 0xff, 0xff, 0xff, 0xff, 0xff, 0xff, 0xfe,
        0xba, 0xae, 0xdc, 0xe6, 0xaf, 0x48, 0xa0, 0x3b, 0xbf, 0xd2, 0x5e, 0x8c, 0xd0, 0x36, 0x41, 0x41,
    ]
}

fn curve_order_bytes() -> (r: [u8; 32])
    ensures
        r@ == curve_order(),
{
    let r: [u8; 32] = [
        0xff, 0xff, 0xff, 0xff, 0xff, 0xff, 0xff, 0xff, 0xff, 0xff, 0xff, 0xff, 0xff, 0xff, 0xff, 0xfe,
        0xba, 0xae, 0xdc, 0xe6, 0xaf, 0x48, 0xa0, 0x3b, 0xbf, 0xd2, 0x5e, 0x8c, 0xd0, 0x36, 0x41, 0x41,
    ];
    assert(r@ =~= curve_order());
    r
}

/// `a` is below `b` as a big-endian number of the same length.
pub open spec fn be_less(a: Seq<u8>, b: Seq<u8>) -> bool {
    exists|i: int| 0 <= i < a.len() && a.subrange(0, i) == b.subrange(0, i) && #[trigger] a[i] < b[i]
}

/// A secp256k1 secret key: 32 bytes, not zero, below the group order.
pub open spec fn is_secret_key(sk: Seq<u8>) -> bool {
    &&& sk.len() == 32
    &&& exists|i: int| 0 <= i < 32 && #[trigger] sk[i] != 0
    &&& be_less(sk, curve_order())
}

/// Whether `sk` is a secp256k1 secret key.
pub fn check_secret_key(sk: &[u8; 32]) -> (r: bool)
    ensures
        r == is_secret_key(sk@),
{
    let order = curve_order_bytes();
    let mut nonzero = false;
    let mut i: usize = 0;
    while i < 32
        invariant
            i <= 32,
            sk@.len() == 32,
            order@ == curve_order(),
            nonzero == exists|j: int| 0 <= j < i && #[trigger] sk@[j] != 0,
            forall|j: int| 0 <= j < i ==> sk@[j] == order@[j],
        decreases 32 - i,
    {
        if sk[i] != 0 {
            nonzero = true;
        }
        if sk[i] != order[i] {
            let less = sk[i] < order[i];
            assert(sk@.subrange(0, i as int) =~= order@.subrange(0, i as int));
            if !less {
                assert forall|k: int| 0 <= k < 32 && sk@.subrange(0, k) == order@.subrange(0, k) implies !(#[trigger] sk@[k] < order@[k]) by {
                    if k > i {
                        assert(sk@.subrange(0, k)[i as int] == order@.subrange(0, k)[i as int]);
                    }
                }
            }
            let mut rest_nonzero = nonzero || sk[i] != 0;
            let mut j: usize = i + 1;
            while j < 32
                invariant
                    i < j <= 32,
                    sk@.len() == 32,
                    rest_nonzero == exists|m: int| 0 <= m < j && #[trigger] sk@[m] != 0,
                decreases 32 - j,
            {
                if sk[j] != 0 {
                    rest_nonzero = true;
                }
                j = j + 1;
            }
            return rest_nonzero && less;
        }
        i = i + 1;
    }
    assert forall|k: int| 0 <= k < 32 implies !(#[trigger] sk@[k] < order@[k]) by {}
    false
}

/// The compressed public key of a secret key.
pub uninterp spec fn secp_public_key(sk: Seq<u8>) -> Seq<u8>;

/// The BIP-341 key-spend signature hash of an input, with sighash type ALL.
pub uninterp spec fn tap_sighash_of(tx: TxView, prevouts: Seq<TxOutputView>, index: int) -> Seq<u8>;

/// The BIP-340 signature of a digest under a secret key, with the given
/// auxiliary randomness.
pub uninterp spec fn schnorr_sig_of(sk: Seq<u8>, digest: Seq<u8>, aux: Seq<u8>) -> Seq<u8>;

/// Whether bytes are the compressed or uncompressed encoding of a curve point.
pub uninterp spec fn secp_point_valid(b: Seq<u8>) -> bool;

/// The MuSig2 secret nonce built from a seed, a secret key, a message and an
/// aggregated public key.
pub uninterp spec fn sec_nonce_of(seed: Seq<u8>, sk: Seq<u8>, message: Seq<u8>, aggregated_pubkey: Seq<u8>) -> Seq<u8>;

/// Relies on `secp256k1::PublicKey::from_secret_key`, which panics on no valid
/// key, and `serialize`, which gives the 33-byte compressed form.
#[verifier::external_body]
fn derive_public_key(sk: &[u8; 32]) -> (r: [u8; 33])
    requires
        is_secret_key(sk@),
    ensures
        r@ == secp_public_key(sk@),
{
    let sk = secp256k1::SecretKey::from_slice(sk).expect("checked by the caller");
    secp256k1::PublicKey::from_secret_key(secp256k1::SECP256K1, &sk).serialize()
}

/// Relies on `SighashCache::taproot_key_spend_signature_hash`, which fails when
/// the index is out of range or the prevouts do not match the inputs.
#[verifier::external_body]
fn taproot_sighash(tx: &Tx, prevouts: &Vec<TxOutput>, input_index: usize) -> (r: [u8; 32])
    requires
        input_index < tx.input@.len(),
        prevouts@.len() == tx.input@.len(),
    ensures
        r@ == tap_sighash_of(tx@, prevouts@.map_values(|o: TxOutput| o@), input_index as int),
{
    let tx = to_bitcoin_tx(tx);
    let prevouts: Vec<bitcoin::TxOut> = prevouts.iter().map(to_bitcoin_output).collect();
    let mut cache = bitcoin::sighash::SighashCache::new(&tx);
    let prevouts = bitcoin::sighash::Prevouts::All(&prevouts);
    let hash = cache.taproot_key_spend_signature_hash(input_index, &prevouts, bitcoin::TapSighashType::All);
    bitcoin::hashes::Hash::to_byte_array(hash.expect("index and prevouts checked by the caller"))
}

/// Relies on `Secp256k1::sign_schnorr_with_aux_rand`, a function of the
/// key, the digest and the auxiliary bytes.
#[verifier::external_body]
fn sign_schnorr(sk: &[u8; 32], digest: &[u8; 32], aux_rand: &[u8; 32]) -> (r: [u8; 64])
    requires
        is_secret_key(sk@),
    ensures
        r@ == schnorr_sig_of(sk@, digest@, aux_rand@),
{
    let keypair = secp256k1::Keypair::from_seckey_slice(secp256k1::SECP256K1, sk).expect("checked by the caller");
    let msg = secp256k1::Message::from_digest(*digest);
    secp256k1::SECP256K1.sign_schnorr_with_aux_rand(&msg, &keypair, aux_rand).serialize()
}

/// Relies on musig2's `SecNonce::build(seed).with_seckey(..).with_message(..)
/// .with_aggregated_pubkey(..).build()`, which hashes its inputs, and on
/// `to_bytes`, which gives the two 32-byte scalars. Returns none exactly
/// where `secp::Point::from_slice` refuses the aggregated key.
#[verifier::external_body]
fn build_sec_nonce(seed: [u8; 32], sk: &[u8; 32], message: &[u8; 32], aggregated_pubkey: &[u8; 33]) -> (r: Option<[u8; 64]>)
    requires
        is_secret_key(sk@),
    ensures
        r is Some <==> secp_point_valid(aggregated_pubkey@),
        r matches Some(n) ==> n@ == sec_nonce_of(seed@, sk@, message@, aggregated_pubkey@),
{
    let point = musig2::secp::Point::from_slice(aggregated_pubkey).ok()?;
    let seckey = musig2::secp::Scalar::from_slice(sk).expect("checked by the caller");
    let nonce = musig2::SecNonce::build(seed).with_seckey(seckey).with_message(message).with_aggregated_pubkey(point).build();
    Some(musig2::BinaryEncoding::to_bytes(&nonce))
}

/// The BIP-143 signature hash of input `index` spending `value` under the
/// witness script `script`, with sighash type ALL.
pub uninterp spec fn segwit_v0_sighash_of(tx: TxView, index: int, script: Seq<u8>, value: u64) -> Seq<u8>;

/// The DER encoding of the RFC 6979 ECDSA signature of a digest.
pub uninterp spec fn ecdsa_der_of(sk: Seq<u8>, digest: Seq<u8>) -> Seq<u8>;

/// Relies on `SighashCache::p2wsh_signature_hash`, which fails only when the
/// index is out of range.
#[verifier::external_body]
fn p2wsh_sighash(tx: &Tx, input_index: usize, script: &Vec<u8>, value: u64) -> (r: [u8; 32])
    requires
        input_index < tx.input@.len(),
    ensures
        r@ == segwit_v0_sighash_of(tx@, input_index as int, script@, value),
{
    let tx = to_bitcoin_tx(tx);
    let script = bitcoin::ScriptBuf::from_bytes(script.clone());
    let mut cache = bitcoin::sighash::SighashCache::new(&tx);
    let amount = bitcoin::Amount::from_sat(value);
    let hash = cache.p2wsh_signature_hash(input_index, &script, amount, bitcoin::EcdsaSighashType::All);
    bitcoin::hashes::Hash::to_byte_array(hash.expect("index checked by the caller"))
}

/// Relies on `Secp256k1::sign_ecdsa`, whose nonce is derived by RFC 6979 from
/// the key and the digest, and on `serialize_der`.
#[verifier::external_body]
fn sign_ecdsa(sk: &[u8; 32], digest: &[u8; 32]) -> (r: Vec<u8>)
    requires
        is_secret_key(sk@),
    ensures
        r@ == ecdsa_der_of(sk@, digest@),
{
    let sk = secp256k1::SecretKey::from_slice(sk).expect("checked by the caller");
    let msg = secp256k1::Message::from_digest(*digest);
    secp256k1::SECP256K1.sign_ecdsa(&msg, &sk).serialize_der().to_vec()
}

/// The sighash-type byte of SIGHASH_ALL.
pub const SIGHASH_ALL: u8 = 0x01;

/// The operator's signing key. The node connection that the agent also
/// uses lives with the caller.
#[derive(Clone, Copy, Debug)]
pub struct Agent {
    secret: [u8; 32],
}

impl Agent {
    pub closed spec fn key(&self) -> Seq<u8> {
        self.secret@
    }

    pub closed spec fn wf(&self) -> bool {
        is_secret_key(self.secret@)
    }

    /// An agent with the secret key `sk`, if it is one.
    pub fn new(sk: [u8; 32]) -> (r: Option<Agent>)
        ensures
            r is Some <==> is_secret_key(sk@),
            r matches Some(a) ==> a.wf() && a.key() == sk@,
    {
        if check_secret_key(&sk) {
            Some(Agent { secret: sk })
        } else {
            None
        }
    }

    /// The Schnorr signature, by the agent's key, of the key-spend signature
    /// hash of input `input_index`; `aux_rand` is the caller's fresh
    /// auxiliary randomness.
    pub fn sign(&self, tx: &Tx, prevouts: &Vec<TxOutput>, input_index: usize, aux_rand: [u8; 32]) -> (r: [u8; 64])
        requires
            self.wf(),
            input_index < tx.input@.len(),
            prevouts@.len() == tx.input@.len(),
        ensures
            r@ == schnorr_sig_of(
                self.key(),
                tap_sighash_of(tx@, prevouts@.map_values(|o: TxOutput| o@), input_index as int),
                aux_rand@,
            ),
    {
        let digest = taproot_sighash(tx, prevouts, input_index);
        sign_schnorr(&self.secret, &digest, &aux_rand)
    }

    /// The witness signature of input `input_index`, which spends `value`
    /// under the witness script `script`: the DER signature, then SIGHASH_ALL.
    pub fn sign_p2wsh(&self, tx: &Tx, input_index: usize, script: &Vec<u8>, value: u64) -> (r: Vec<u8>)
        requires
            self.wf(),
            input_index < tx.input@.len(),
        ensures
            r@ == ecdsa_der_of(self.key(), segwit_v0_sighash_of(tx@, input_index as int, script@, value)).push(SIGHASH_ALL),
    {
        let digest = p2wsh_sighash(tx, input_index, script, value);
        let mut sig = sign_ecdsa(&self.secret, &digest);
        sig.push(SIGHASH_ALL);
        sig
    }

    /// The compressed public key.
    pub fn public_key(&self) -> (r: [u8; 33])
        requires
            self.wf(),
        ensures
            r@ == secp_public_key(self.key()),
    {
        derive_public_key(&self.secret)
    }

    pub fn secret_key(&self) -> (r: [u8; 32])
        ensures
            r@ == self.key(),
    {
        self.secret
    }

    /// The output script of the agent's key taken as an already tweaked
    /// Taproot output key: its x coordinate behind `OP_1` and a 32-byte push.
    pub fn taproot_address(&self) -> (r: Vec<u8>)
        requires
            self.wf(),
        ensures
            r@ == p2tr_script(secp_public_key(self.key()).subrange(1, 33)),
    {
        let pk = self.public_key();
        let mut r: Vec<u8> = Vec::new();
        r.push(0x51u8);
        r.push(0x20u8);
        let mut i: usize = 1;
        while i < 33
            invariant
                1 <= i <= 33,
                pk@.len() == 33,
                r@ == seq![0x51u8, 0x20u8] + pk@.subrange(1, i as int),
            decreases 33 - i,
        {
            r.push(pk[i]);
            i = i + 1;
            assert(r@ =~= seq![0x51u8, 0x20u8] + pk@.subrange(1, i as int));
        }
        r
    }

    /// A MuSig2 secret nonce for signing `txid` under the aggregated key,
    /// from the caller's fresh random `nonce_seed`; none exactly where the
    /// aggregated key is not a curve point.
    pub fn generate_sec_nonce(&self, nonce_seed: [u8; 32], txid: &TxId, aggregated_pubkey: &[u8; 33]) -> (r: Option<[u8; 64]>)
        requires
            self.wf(),
        ensures
            r is Some <==> secp_point_valid(aggregated_pubkey@),
            r matches Some(n) ==> n@ == sec_nonce_of(nonce_seed@, self.key(), txid@, aggregated_pubkey@),
    {
        build_sec_nonce(nonce_seed, &self.secret, &txid.bytes, aggregated_pubkey)
    }
}

} // verus!
