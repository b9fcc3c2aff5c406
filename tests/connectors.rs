use strata_bridge_core::connectors::{
    ConnectorA160Factory, ConnectorA256Factory, ConnectorError, Network, ProofElementKey,
};

fn keys(n: u32) -> Vec<ProofElementKey> {
    (0..n).map(|i| ProofElementKey { element: i, key: vec![i as u8; 4] }).collect()
}

#[test]
fn thirty_seven_keys_in_batches_of_eight() {
    let factory = ConnectorA256Factory {
        network: Network::Regtest,
        n_public_keys_per_connector: 8,
        n_public_keys: 37,
        public_keys: keys(37),
    };
    let (full, rest) = factory.create_connectors().unwrap();
    assert_eq!(full.len(), 4);
    for (j, c) in full.iter().enumerate() {
        assert_eq!(c.public_keys.len(), 8);
        assert_eq!(c.network, Network::Regtest);
        for (k, key) in c.public_keys.iter().enumerate() {
            assert_eq!(key.element as usize, j * 8 + k);
        }
    }
    assert_eq!(rest.public_keys.len(), 5);
    let elements: Vec<u32> = rest.public_keys.iter().map(|k| k.element).collect();
    assert_eq!(elements, vec![32, 33, 34, 35, 36]);
}

#[test]
fn divisible_count_leaves_empty_remainder() {
    let factory = ConnectorA160Factory {
        network: Network::Bitcoin,
        n_public_keys_per_connector: 8,
        n_public_keys: 32,
        public_keys: keys(32),
    };
    let (full, rest) = factory.create_connectors().unwrap();
    assert_eq!(full.len(), 4);
    assert_eq!(rest.public_keys.len(), 0);
}

#[test]
fn short_key_list_is_refused() {
    let factory = ConnectorA256Factory {
        network: Network::Signet,
        n_public_keys_per_connector: 8,
        n_public_keys: 37,
        public_keys: keys(36),
    };
    assert_eq!(factory.create_connectors().unwrap_err(), ConnectorError::KeyCountMismatch);
}

#[test]
fn zero_batch_size_is_refused() {
    let factory = ConnectorA160Factory {
        network: Network::Testnet,
        n_public_keys_per_connector: 0,
        n_public_keys: 3,
        public_keys: keys(3),
    };
    assert_eq!(factory.create_connectors().unwrap_err(), ConnectorError::ZeroBatchSize);
}

#[test]
fn fewer_keys_than_a_batch_go_to_the_remainder() {
    let factory = ConnectorA160Factory {
        network: Network::Regtest,
        n_public_keys_per_connector: 8,
        n_public_keys: 3,
        public_keys: keys(3),
    };
    let (full, rest) = factory.create_connectors().unwrap();
    assert!(full.is_empty());
    assert_eq!(rest.public_keys.len(), 3);
}
