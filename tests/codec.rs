use strata_bridge_core::codec::{compute_txid, consensus_encode, frame, read_frame, BitcoinTx, CodecError};
use strata_bridge_core::tx::{OutPoint, Tx, TxId, TxInput, TxOutput};

fn sample_tx(n_inputs: usize, n_outputs: usize, with_witness: bool) -> Tx {
    let mut input = Vec::new();
    for i in 0..n_inputs {
        input.push(TxInput {
            previous_output: OutPoint { txid: TxId { bytes: [i as u8 + 1; 32] }, vout: i as u32 * 3 },
            script_sig: vec![0x51, i as u8],
            sequence: 0xffff_ffff,
            witness: if with_witness { vec![vec![1, 2, 3], vec![]] } else { vec![] },
        });
    }
    let mut output = Vec::new();
    for i in 0..n_outputs {
        output.push(TxOutput { value: 1_000 * (i as u64 + 1), script_pubkey: vec![0x6a, i as u8, 7] });
    }
    Tx { version: 1, lock_time: 0, input, output }
}

fn to_bitcoin(tx: &Tx) -> bitcoin::Transaction {
    bitcoin::Transaction {
        version: bitcoin::transaction::Version(tx.version),
        lock_time: bitcoin::absolute::LockTime::from_consensus(tx.lock_time),
        input: tx
            .input
            .iter()
            .map(|i| bitcoin::TxIn {
                previous_output: bitcoin::OutPoint {
                    txid: <bitcoin::Txid as bitcoin::hashes::Hash>::from_byte_array(i.previous_output.txid.bytes),
                    vout: i.previous_output.vout,
                },
                script_sig: bitcoin::ScriptBuf::from_bytes(i.script_sig.clone()),
                sequence: bitcoin::Sequence(i.sequence),
                witness: bitcoin::Witness::from_slice(&i.witness),
            })
            .collect(),
        output: tx
            .output
            .iter()
            .map(|o| bitcoin::TxOut {
                value: bitcoin::Amount::from_sat(o.value),
                script_pubkey: bitcoin::ScriptBuf::from_bytes(o.script_pubkey.clone()),
            })
            .collect(),
    }
}

#[test]
fn test_bitcoin_tx_serialize_deserialize() {
    let tx = BitcoinTx::from(sample_tx(3, 2, false));

    let serialized_tx = tx.serialize().expect("should be able to serialize BitcoinTx");
    let (deserialized_tx, used) =
        BitcoinTx::deserialize_reader(&serialized_tx).expect("should be able to deserialize BitcoinTx");

    assert_eq!(tx, deserialized_tx, "original and deserialized tx must be the same");
    assert_eq!(used, serialized_tx.len());
}

#[test]
fn round_trip_for_every_input_and_output_count() {
    for n_in in 0..=4 {
        for n_out in 0..=4 {
            for with_witness in [false, true] {
                let tx = BitcoinTx::from(sample_tx(n_in, n_out, with_witness));
                let bytes = tx.serialize().unwrap();
                let (back, _) = BitcoinTx::deserialize_reader(&bytes).unwrap();
                assert_eq!(tx, back, "inputs {n_in}, outputs {n_out}, witness {with_witness}");
            }
        }
    }
}

#[test]
fn record_is_length_then_consensus_bytes() {
    let tx = sample_tx(1, 1, false);
    let consensus = bitcoin::consensus::serialize(&to_bitcoin(&tx));
    assert_eq!(consensus_encode(&tx), consensus);
    let record = BitcoinTx::from(tx).serialize().unwrap();
    assert_eq!(&record[0..4], &(consensus.len() as u32).to_le_bytes());
    assert_eq!(&record[4..], &consensus[..]);
}

#[test]
fn txid_matches_bitcoin() {
    let tx = sample_tx(2, 3, true);
    let expected = <bitcoin::Txid as bitcoin::hashes::Hash>::to_byte_array(to_bitcoin(&tx).compute_txid());
    assert_eq!(compute_txid(&tx).bytes, expected);
    assert_ne!(compute_txid(&tx).bytes, [0u8; 32]);
}

#[test]
fn truncated_record_is_unexpected_eof() {
    let bytes = BitcoinTx::from(sample_tx(1, 1, false)).serialize().unwrap();
    assert_eq!(BitcoinTx::deserialize_reader(&bytes[..2]).unwrap_err(), CodecError::UnexpectedEof);
    assert_eq!(BitcoinTx::deserialize_reader(&bytes[..bytes.len() - 1]).unwrap_err(), CodecError::UnexpectedEof);
}

#[test]
fn garbage_payload_is_invalid_data() {
    let record = frame(&vec![0xde, 0xad, 0xbe, 0xef, 0x00]);
    assert_eq!(BitcoinTx::deserialize_reader(&record).unwrap_err(), CodecError::InvalidData);
}

#[test]
fn reader_leaves_trailing_bytes() {
    let bytes = BitcoinTx::from(sample_tx(1, 2, false)).serialize().unwrap();
    let mut longer = bytes.clone();
    longer.extend_from_slice(&[9, 9, 9]);
    let (_, used) = BitcoinTx::deserialize_reader(&longer).unwrap();
    assert_eq!(used, bytes.len());
}

#[test]
fn frame_and_read_back() {
    let payload = vec![1u8, 2, 3, 4, 5, 6, 7];
    let framed = frame(&payload);
    assert_eq!(framed, vec![7, 0, 0, 0, 1, 2, 3, 4, 5, 6, 7]);
    assert_eq!(read_frame(&framed), Some(payload));
    assert_eq!(read_frame(&framed[..3]), None);
    assert_eq!(read_frame(&[]), None);
    assert_eq!(read_frame(&[0, 0, 0, 0]), Some(vec![]));
}
