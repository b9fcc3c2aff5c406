use strata_bridge_core::connectors::ProofElementKey;
use strata_bridge_core::db::{ConnectorDb, MusigPubkeyEntry, PublicDb, Signature, TableError, WotsPublicKeys, WotsSignatures};
use strata_bridge_core::registry::StoreError;
use strata_bridge_core::tx::TxId;

fn key(element: u32, b: u8) -> ProofElementKey {
    ProofElementKey { element, key: vec![b; 3] }
}

fn wots_keys(b: u8) -> WotsPublicKeys {
    WotsPublicKeys {
        public_inputs: vec![key(0, b), key(1, b), key(2, b)],
        keys_256: vec![key(3, b), key(4, b)],
        keys_160: vec![key(5, b)],
    }
}

#[test]
fn installing_public_keys_twice_fails() {
    let mut db = PublicDb::new();
    let deposit = TxId { bytes: [7; 32] };
    assert_eq!(db.set_wots_public_keys(1, deposit, &wots_keys(10)), Ok(()));
    assert_eq!(db.set_wots_public_keys(1, deposit, &wots_keys(20)), Err(StoreError::AlreadyExists));
    let stored = db.get_wots_public_keys(1, deposit).unwrap();
    assert_eq!(stored.keys_256[0].key, vec![10; 3]);
}

#[test]
fn same_deposit_other_operator_is_separate() {
    let mut db = PublicDb::new();
    let deposit = TxId { bytes: [7; 32] };
    db.set_wots_public_keys(1, deposit, &wots_keys(10)).unwrap();
    db.set_wots_public_keys(2, deposit, &wots_keys(20)).unwrap();
    db.set_wots_public_keys(1, TxId { bytes: [8; 32] }, &wots_keys(30)).unwrap();
    assert_eq!(db.get_wots_public_keys(2, deposit).unwrap().keys_160[0].key, vec![20; 3]);
    assert_eq!(db.get_wots_public_keys(1, TxId { bytes: [8; 32] }).unwrap().keys_160[0].key, vec![30; 3]);
}

#[test]
fn missing_public_keys_are_not_found() {
    let db = PublicDb::new();
    assert_eq!(db.get_wots_public_keys(0, TxId { bytes: [0; 32] }).unwrap_err(), StoreError::NotFound);
}

#[test]
fn wots_signatures_are_write_once() {
    let mut db = PublicDb::new();
    let deposit = TxId { bytes: [3; 32] };
    let sigs = WotsSignatures { public_inputs: vec![vec![1]], sigs_256: vec![vec![2], vec![3]], sigs_160: vec![] };
    assert!(db.get_wots_signatures(4, deposit).is_err());
    db.set_wots_signatures(4, deposit, &sigs).unwrap();
    assert_eq!(db.set_wots_signatures(4, deposit, &sigs), Err(StoreError::AlreadyExists));
    assert_eq!(db.get_wots_signatures(4, deposit).unwrap().sigs_256, vec![vec![2], vec![3]]);
}

#[test]
fn signatures_by_operator_txid_and_input() {
    let mut db = PublicDb::new();
    let txid = TxId { bytes: [5; 32] };
    db.put_signature(0, txid, 0, Signature { bytes: [1; 64] }).unwrap();
    db.put_signature(0, txid, 1, Signature { bytes: [2; 64] }).unwrap();
    db.put_signature(1, txid, 0, Signature { bytes: [3; 64] }).unwrap();
    assert_eq!(db.get_signature(0, txid, 1).unwrap().bytes, [2; 64]);
    assert_eq!(db.get_signature(1, txid, 0).unwrap().bytes, [3; 64]);
    assert_eq!(db.get_signature(1, txid, 1).unwrap_err(), StoreError::NotFound);
    assert_eq!(db.get_signature(2, txid, 0).unwrap_err(), StoreError::NotFound);
    assert_eq!(db.put_signature(0, txid, 1, Signature { bytes: [4; 64] }), Err(StoreError::AlreadyExists));
    assert_eq!(db.get_signature(0, txid, 1).unwrap().bytes, [2; 64]);
}

#[test]
fn pubkey_table_is_replaced_whole() {
    let mut db = PublicDb::new();
    assert!(db.get_musig_pubkey_table().is_empty());
    db.set_musig_pubkey_table(&vec![
        MusigPubkeyEntry { operator: 0, pubkey: vec![2; 33] },
        MusigPubkeyEntry { operator: 1, pubkey: vec![3; 33] },
    ])
    .unwrap();
    db.set_musig_pubkey_table(&vec![MusigPubkeyEntry { operator: 5, pubkey: vec![9; 33] }]).unwrap();
    let table = db.get_musig_pubkey_table();
    assert_eq!(table.len(), 1);
    assert_eq!(table[0].operator, 5);
    assert_eq!(table[0].pubkey, vec![9; 33]);
}

#[test]
fn verifier_scripts_are_stored() {
    let mut db = PublicDb::new();
    assert!(db.get_partial_disprove_scripts().is_empty());
    db.add_verifier_scripts(&vec![vec![0x51], vec![0x52, 0x53]]);
    assert_eq!(db.get_partial_disprove_scripts(), vec![vec![0x51], vec![0x52, 0x53]]);
}

#[test]
fn verifier_scripts_through_the_store_interface() {
    let mut db = PublicDb::new();
    db.add_verifier_scripts(&vec![vec![0x01, 0x02]]);
    assert_eq!(db.get_verifier_scripts(), vec![vec![0x01, 0x02]]);
}

#[test]
fn unordered_pubkey_table_is_refused() {
    let mut db = PublicDb::new();
    db.set_musig_pubkey_table(&vec![MusigPubkeyEntry { operator: 2, pubkey: vec![2; 33] }]).unwrap();
    let unordered = vec![
        MusigPubkeyEntry { operator: 3, pubkey: vec![3; 33] },
        MusigPubkeyEntry { operator: 1, pubkey: vec![1; 33] },
    ];
    assert_eq!(db.set_musig_pubkey_table(&unordered), Err(TableError::Unordered));
    let repeated = vec![
        MusigPubkeyEntry { operator: 1, pubkey: vec![3; 33] },
        MusigPubkeyEntry { operator: 1, pubkey: vec![1; 33] },
    ];
    assert_eq!(db.set_musig_pubkey_table(&repeated), Err(TableError::Unordered));
    let table = db.get_musig_pubkey_table();
    assert_eq!(table.len(), 1);
    assert_eq!(table[0].operator, 2);
}
