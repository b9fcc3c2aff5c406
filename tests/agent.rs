use strata_bridge_core::agent::{check_secret_key, select_utxo, Agent, UnspentUtxo, MIN_RELAY_FEE};
use strata_bridge_core::tx::{OutPoint, Tx, TxId, TxInput, TxOutput};

fn utxo(b: u8, vout: u32, amount: u64) -> UnspentUtxo {
    UnspentUtxo { txid: TxId { bytes: [b; 32] }, vout, amount, script_pubkey: vec![0x51, 0x20, b] }
}

#[test]
fn selects_the_large_enough_utxo() {
    assert_eq!(MIN_RELAY_FEE, 1_000);
    let unspent = vec![utxo(1, 0, 1_000_000)];
    let s = select_utxo(&unspent, 500_000, &vec![]).unwrap();
    assert_eq!(s.outpoint, OutPoint { txid: TxId { bytes: [1; 32] }, vout: 0 });
    assert_eq!(s.amount, 1_000_000);
    assert_eq!(s.prevout.value, 1_000_000);
    assert_eq!(s.prevout.script_pubkey, vec![0x51, 0x20, 1]);
}

#[test]
fn reserved_utxo_is_skipped() {
    let unspent = vec![utxo(1, 0, 1_000_000)];
    let reserved = vec![OutPoint { txid: TxId { bytes: [1; 32] }, vout: 0 }];
    assert!(select_utxo(&unspent, 500_000, &reserved).is_none());
}

#[test]
fn first_fit_in_node_order() {
    let unspent = vec![utxo(1, 0, 400_000), utxo(2, 1, 900_000), utxo(3, 2, 2_000_000)];
    let s = select_utxo(&unspent, 500_000, &vec![]).unwrap();
    assert_eq!(s.outpoint.txid.bytes, [2; 32]);
    let reserved = vec![OutPoint { txid: TxId { bytes: [2; 32] }, vout: 1 }];
    let s = select_utxo(&unspent, 500_000, &reserved).unwrap();
    assert_eq!(s.outpoint.txid.bytes, [3; 32]);
}

#[test]
fn amount_must_exceed_target_plus_relay_fee() {
    let unspent = vec![utxo(1, 0, 501_000)];
    assert!(select_utxo(&unspent, 500_000, &vec![]).is_none());
    let unspent = vec![utxo(1, 0, 501_001)];
    assert!(select_utxo(&unspent, 500_000, &vec![]).is_some());
    assert!(select_utxo(&vec![], 0, &vec![]).is_none());
}

#[test]
fn reservation_matches_vout_too() {
    let unspent = vec![utxo(1, 0, 1_000_000)];
    let reserved = vec![OutPoint { txid: TxId { bytes: [1; 32] }, vout: 1 }];
    assert!(select_utxo(&unspent, 500_000, &reserved).is_some());
}

#[test]
fn secret_key_range() {
    assert!(!check_secret_key(&[0; 32]));
    assert!(check_secret_key(&[1; 32]));
    let mut order = [0xffu8; 32];
    order[15] = 0xfe;
    order[16..].copy_from_slice(&[0xba, 0xae, 0xdc, 0xe6, 0xaf, 0x48, 0xa0, 0x3b, 0xbf, 0xd2, 0x5e, 0x8c, 0xd0, 0x36, 0x41, 0x41]);
    assert!(!check_secret_key(&order));
    let mut below = order;
    below[31] = 0x40;
    assert!(check_secret_key(&below));
    assert!(!check_secret_key(&[0xff; 32]));
    assert!(Agent::new([0; 32]).is_none());
    assert!(Agent::new([7; 32]).is_some());
}

#[test]
fn agent_keys_match_secp256k1() {
    let agent = Agent::new([7; 32]).unwrap();
    let sk = secp256k1::SecretKey::from_slice(&[7; 32]).unwrap();
    let pk = secp256k1::PublicKey::from_secret_key(secp256k1::SECP256K1, &sk);
    assert_eq!(agent.public_key(), pk.serialize());
    assert_eq!(agent.secret_key(), [7; 32]);
    let script = agent.taproot_address();
    assert_eq!(script.len(), 34);
    assert_eq!(script[..2], [0x51, 0x20]);
    assert_eq!(script[2..], pk.x_only_public_key().0.serialize());
}

#[test]
fn agent_signature_verifies() {
    let agent = Agent::new([9; 32]).unwrap();
    let tx = Tx {
        version: 2,
        lock_time: 0,
        input: vec![TxInput {
            previous_output: OutPoint { txid: TxId { bytes: [4; 32] }, vout: 0 },
            script_sig: vec![],
            sequence: 0xffff_ffff,
            witness: vec![],
        }],
        output: vec![TxOutput { value: 90_000, script_pubkey: vec![0x6a] }],
    };
    let prevouts = vec![TxOutput { value: 100_000, script_pubkey: agent.taproot_address() }];
    let sig = agent.sign(&tx, &prevouts, 0, [8; 32]);
    assert_eq!(agent.sign(&tx, &prevouts, 0, [8; 32]), sig);
    assert_ne!(agent.sign(&tx, &prevouts, 0, [6; 32]), sig);

    let btc_prevouts: Vec<bitcoin::TxOut> = prevouts
        .iter()
        .map(|o| bitcoin::TxOut { value: bitcoin::Amount::from_sat(o.value), script_pubkey: bitcoin::ScriptBuf::from_bytes(o.script_pubkey.clone()) })
        .collect();
    let btc_tx = bitcoin::Transaction {
        version: bitcoin::transaction::Version(2),
        lock_time: bitcoin::absolute::LockTime::ZERO,
        input: vec![bitcoin::TxIn {
            previous_output: bitcoin::OutPoint { txid: <bitcoin::Txid as bitcoin::hashes::Hash>::from_byte_array([4; 32]), vout: 0 },
            script_sig: bitcoin::ScriptBuf::new(),
            sequence: bitcoin::Sequence::MAX,
            witness: bitcoin::Witness::default(),
        }],
        output: vec![bitcoin::TxOut { value: bitcoin::Amount::from_sat(90_000), script_pubkey: bitcoin::ScriptBuf::from_bytes(vec![0x6a]) }],
    };
    let sighash = bitcoin::sighash::SighashCache::new(&btc_tx)
        .taproot_key_spend_signature_hash(0, &bitcoin::sighash::Prevouts::All(&btc_prevouts), bitcoin::TapSighashType::All)
        .unwrap();
    let msg = secp256k1::Message::from_digest(<bitcoin::TapSighash as bitcoin::hashes::Hash>::to_byte_array(sighash));
    let sk = secp256k1::SecretKey::from_slice(&[9; 32]).unwrap();
    let xonly = secp256k1::PublicKey::from_secret_key(secp256k1::SECP256K1, &sk).x_only_public_key().0;
    let sig = secp256k1::schnorr::Signature::from_slice(&sig).unwrap();
    assert!(secp256k1::SECP256K1.verify_schnorr(&sig, &msg, &xonly).is_ok());
}

#[test]
fn sec_nonce_depends_on_its_inputs() {
    let agent = Agent::new([5; 32]).unwrap();
    let agg = agent.public_key();
    let txid = TxId { bytes: [1; 32] };
    let a = agent.generate_sec_nonce([2; 32], &txid, &agg).unwrap();
    let b = agent.generate_sec_nonce([2; 32], &txid, &agg).unwrap();
    let c = agent.generate_sec_nonce([3; 32], &txid, &agg).unwrap();
    assert_eq!(a, b);
    assert_ne!(a, c);
    assert!(agent.generate_sec_nonce([2; 32], &txid, &[0; 33]).is_none());
}
