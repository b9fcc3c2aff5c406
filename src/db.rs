//! The keyed material store: one-time public keys and signatures per
//! (operator, deposit), Schnorr signatures per (operator, txid, input), the
//! N-of-N public-key table and the verifier scripts.
use vstd::prelude::*;

use crate::connectors::{copy_keys, keys_view, ProofElementKey};
use crate::registry::{Duplicate, RecordKey, Registry, StoreError};
use crate::tx::{copy_bytes, TxId};

verus! {

pub type OperatorIdx = u32;

/// A copy of a list of byte strings.
pub fn copy_byte_strings(v: &Vec<Vec<u8>>) -> (r: Vec<Vec<u8>>)
    ensures
        r@.map_values(|b: Vec<u8>| b@) == v@.map_values(|b: Vec<u8>| b@),
{
    let mut r: Vec<Vec<u8>> = Vec::new();
    let mut i: usize = 0;
    while i < v.len()
        invariant
            i <= v@.len(),
            r@.map_values(|b: Vec<u8>| b@) == v@.subrange(0, i as int).map_values(|b: Vec<u8>| b@),
        decreases v@.len() - i,
    {
        let b = copy_bytes(&v[i]);
        let ghost prev = r@;
        r.push(b);
        proof {
            assert(r@.map_values(|b: Vec<u8>| b@) =~= prev.map_values(|b: Vec<u8>| b@).push(v@[i as int]@));
        }
        i = i + 1;
        assert(r@.map_values(|b: Vec<u8>| b@) =~= v@.subrange(0, i as int).map_values(|b: Vec<u8>| b@));
    }
    assert(v@.subrange(0, i as int) =~= v@);
    r
}

/// The one-time public keys of one operator for one deposit: the public-input
/// group (whose last key commits to the superblock hash), the 256-bit group
/// and the 160-bit group.
#[derive(Debug)]
pub struct WotsPublicKeys {
    pub public_inputs: Vec<ProofElementKey>,
    pub keys_256: Vec<ProofElementKey>,
    pub keys_160: Vec<ProofElementKey>,
}

impl View for WotsPublicKeys {
    type V = (Seq<(u32, Seq<u8>)>, Seq<(u32, Seq<u8>)>, Seq<(u32, Seq<u8>)>);

    open spec fn view(&self) -> Self::V {
        (keys_view(self.public_inputs@), keys_view(self.keys_256@), keys_view(self.keys_160@))
    }
}

impl Duplicate for WotsPublicKeys {
    fn duplicate(&self) -> (r: Self) {
        assert(keys_view(self.public_inputs@).subrange(0, self.public_inputs@.len() as int) =~= keys_view(self.public_inputs@));
        assert(keys_view(self.keys_256@).subrange(0, self.keys_256@.len() as int) =~= keys_view(self.keys_256@));
        assert(keys_view(self.keys_160@).subrange(0, self.keys_160@.len() as int) =~= keys_view(self.keys_160@));
        WotsPublicKeys {
            public_inputs: copy_keys(&self.public_inputs, 0, self.public_inputs.len()),
            keys_256: copy_keys(&self.keys_256, 0, self.keys_256.len()),
            keys_160: copy_keys(&self.keys_160, 0, self.keys_160.len()),
        }
    }
}

/// The one-time signatures of one operator for one deposit, grouped as the keys are.
#[derive(Debug)]
pub struct WotsSignatures {
    pub public_inputs: Vec<Vec<u8>>,
    pub sigs_256: Vec<Vec<u8>>,
    pub sigs_160: Vec<Vec<u8>>,
}

impl View for WotsSignatures {
    type V = (Seq<Seq<u8>>, Seq<Seq<u8>>, Seq<Seq<u8>>);

    open spec fn view(&self) -> Self::V {
        (
            self.public_inputs@.map_values(|b: Vec<u8>| b@),
            self.sigs_256@.map_values(|b: Vec<u8>| b@),
            self.sigs_160@.map_values(|b: Vec<u8>| b@),
        )
    }
}

impl Duplicate for WotsSignatures {
    fn duplicate(&self) -> (r: Self) {
        WotsSignatures {
            public_inputs: copy_byte_strings(&self.public_inputs),
            sigs_256: copy_byte_strings(&self.sigs_256),
            sigs_160: copy_byte_strings(&self.sigs_160),
        }
    }
}

/// A 64-byte Schnorr signature.
#[derive(Clone, Copy, Debug)]
pub struct Signature {
    pub bytes: [u8; 64],
}

impl View for Signature {
    type V = Seq<u8>;

    open spec fn view(&self) -> Seq<u8> {
        self.bytes@
    }
}

impl Duplicate for Signature {
    fn duplicate(&self) -> (r: Self) {
        *self
    }
}

/// One row of the N-of-N public-key table.
#[derive(Debug)]
pub struct MusigPubkeyEntry {
    pub operator: OperatorIdx,
    pub pubkey: Vec<u8>,
}

pub open spec fn table_view(t: Seq<MusigPubkeyEntry>) -> Seq<(u32, Seq<u8>)> {
    t.map_values(|e: MusigPubkeyEntry| (e.operator, e.pubkey@))
}

fn copy_table(t: &Vec<MusigPubkeyEntry>) -> (r: Vec<MusigPubkeyEntry>)
    ensures
        table_view(r@) == table_view(t@),
{
    let mut r: Vec<MusigPubkeyEntry> = Vec::new();
    let mut i: usize = 0;
    while i < t.len()
        invariant
            i <= t@.len(),
            table_view(r@) == table_view(t@.subrange(0, i as int)),
        decreases t@.len() - i,
    {
        let e = MusigPubkeyEntry { operator: t[i].operator, pubkey: copy_bytes(&t[i].pubkey) };
        let ghost prev = r@;
        r.push(e);
        proof {
            assert(table_view(r@) =~= table_view(prev).push((t@[i as int].operator, t@[i as int].pubkey@)));
        }
        i = i + 1;
        assert(table_view(r@) =~= table_view(t@.subrange(0, i as int)));
    }
    assert(t@.subrange(0, i as int) =~= t@);
    r
}

/// Rows ordered by strictly increasing operator index, so each operator has one key.
pub open spec fn table_ordered(t: Seq<(u32, Seq<u8>)>) -> bool {
    forall|i: int, j: int| 0 <= i < j < t.len() ==> (#[trigger] t[i]).0 < (#[trigger] t[j]).0
}

/// Why a public-key table was not taken.
#[derive(Clone, Copy, Debug, PartialEq, Eq, Structural)]
pub enum TableError {
    /// The rows are not in strictly increasing operator order.
    Unordered,
}

fn check_table_ordered(t: &Vec<MusigPubkeyEntry>) -> (r: bool)
    ensures
        r == table_ordered(table_view(t@)),
{
    let ghost tv = table_view(t@);
    let mut i: usize = 1;
    while i < t.len()
        invariant
            1 <= i,
            tv == table_view(t@),
            i <= t@.len() || t@.len() == 0,
            forall|a: int, b: int| 0 <= a < b < i && b < t@.len() ==> (#[trigger] tv[a]).0 < (#[trigger] tv[b]).0,
        decreases t@.len() - i,
    {
        if t[i - 1].operator >= t[i].operator {
            assert(tv[i - 1].0 >= tv[i as int].0);
            return false;
        }
        proof {
            assert forall|a: int, b: int| 0 <= a < b < i + 1 && b < t@.len() implies (#[trigger] tv[a]).0 < (#[trigger] tv[b]).0 by {
                if b == i && a < i - 1 {
                    assert(tv[a].0 < tv[i - 1].0);
                }
            }
        }
        i = i + 1;
    }
    true
}

/// The per-deposit record key of one-time material.
pub open spec fn deposit_key(operator: u32, deposit_txid: Seq<u8>) -> (u32, Seq<u8>, u32) {
    (operator, deposit_txid, 0)
}

/// A store of one-time keys and signatures per (operator, deposit) and of
/// Schnorr signatures per (operator, txid, input). One-time material is
/// written once: a second write under the same key fails and changes nothing.
pub trait ConnectorDb: Sized {
    spec fn wf(&self) -> bool;

    /// The verifier scripts.
    spec fn scripts(&self) -> Seq<Seq<u8>>;

    /// The N-of-N public-key table.
    spec fn pubkey_table(&self) -> Seq<(u32, Seq<u8>)>;

    /// One-time public keys by (operator, deposit txid, 0).
    spec fn public_keys(&self) -> Map<(u32, Seq<u8>, u32), <WotsPublicKeys as View>::V>;

    /// One-time signatures by (operator, deposit txid, 0).
    spec fn wots_sigs(&self) -> Map<(u32, Seq<u8>, u32), <WotsSignatures as View>::V>;

    /// Schnorr signatures by (operator, txid, input index).
    spec fn sigs(&self) -> Map<(u32, Seq<u8>, u32), Seq<u8>>;

    /// A copy of the verifier scripts.
    fn get_verifier_scripts(&self) -> (r: Vec<Vec<u8>>)
        ensures
            r@.map_values(|b: Vec<u8>| b@) == self.scripts();

    /// The one-time public keys of `operator_id` for the deposit `deposit_txid`.
    fn get_wots_public_keys(&self, operator_id: u32, deposit_txid: TxId) -> (r: Result<WotsPublicKeys, StoreError>)
        requires
            self.wf(),
        ensures
            self.public_keys().contains_key(deposit_key(operator_id, deposit_txid@))
                ==> (r matches Ok(k) && k@ == self.public_keys()[deposit_key(operator_id, deposit_txid@)]),
            !self.public_keys().contains_key(deposit_key(operator_id, deposit_txid@))
                ==> r matches Err(StoreError::NotFound);

    /// Installs the one-time public keys of `operator_id` for the deposit
    /// `deposit_txid`; keys once installed are never replaced.
    fn set_wots_public_keys(&mut self, operator_id: u32, deposit_txid: TxId, public_keys: &WotsPublicKeys) -> (r: Result<(), StoreError>)
        requires
            old(self).wf(),
        ensures
            final(self).wf(),
            old(self).public_keys().contains_key(deposit_key(operator_id, deposit_txid@))
                ==> (r == Err::<(), StoreError>(StoreError::AlreadyExists) && final(self).public_keys() == old(self).public_keys()),
            !old(self).public_keys().contains_key(deposit_key(operator_id, deposit_txid@))
                ==> (r is Ok && final(self).public_keys() == old(self).public_keys().insert(deposit_key(operator_id, deposit_txid@), public_keys@)),
            final(self).scripts() == old(self).scripts(),
            final(self).pubkey_table() == old(self).pubkey_table(),
            final(self).wots_sigs() == old(self).wots_sigs(),
            final(self).sigs() == old(self).sigs();

    /// The one-time signatures of `operator_id` for the deposit `deposit_txid`.
    fn get_wots_signatures(&self, operator_id: u32, deposit_txid: TxId) -> (r: Result<WotsSignatures, StoreError>)
        requires
            self.wf(),
        ensures
            self.wots_sigs().contains_key(deposit_key(operator_id, deposit_txid@))
                ==> (r matches Ok(s) && s@ == self.wots_sigs()[deposit_key(operator_id, deposit_txid@)]),
            !self.wots_sigs().contains_key(deposit_key(operator_id, deposit_txid@))
                ==> r matches Err(StoreError::NotFound);

    /// Installs the one-time signatures of `operator_id` for the deposit
    /// `deposit_txid`; signatures once installed are never replaced.
    fn set_wots_signatures(&mut self, operator_id: u32, deposit_txid: TxId, signatures: &WotsSignatures) -> (r: Result<(), StoreError>)
        requires
            old(self).wf(),
        ensures
            final(self).wf(),
            old(self).wots_sigs().contains_key(deposit_key(operator_id, deposit_txid@))
                ==> (r == Err::<(), StoreError>(StoreError::AlreadyExists) && final(self).wots_sigs() == old(self).wots_sigs()),
            !old(self).wots_sigs().contains_key(deposit_key(operator_id, deposit_txid@))
                ==> (r is Ok && final(self).wots_sigs() == old(self).wots_sigs().insert(deposit_key(operator_id, deposit_txid@), signatures@)),
            final(self).scripts() == old(self).scripts(),
            final(self).pubkey_table() == old(self).pubkey_table(),
            final(self).public_keys() == old(self).public_keys(),
            final(self).sigs() == old(self).sigs();

    /// The signature of `operator_idx` for input `input_index` of `txid`.
    fn get_signature(&self, operator_idx: OperatorIdx, txid: TxId, input_index: u32) -> (r: Result<Signature, StoreError>)
        requires
            self.wf(),
        ensures
            self.sigs().contains_key((operator_idx, txid@, input_index))
                ==> (r matches Ok(s) && s@ == self.sigs()[(operator_idx, txid@, input_index)]),
            !self.sigs().contains_key((operator_idx, txid@, input_index)) ==> r == Err::<Signature, StoreError>(StoreError::NotFound);
}

/// The shared store of the material that the graph and the signer depend on.
#[derive(Debug)]
pub struct PublicDb {
    musig_pubkey_table: Vec<MusigPubkeyEntry>,
    verifier_scripts: Vec<Vec<u8>>,
    wots_public_keys: Registry<WotsPublicKeys>,
    wots_signatures: Registry<WotsSignatures>,
    signatures: Registry<Signature>,
}

impl PublicDb {
    /// An empty store, with no verifier scripts yet.
    pub fn new() -> (r: PublicDb)
        ensures
            r.wf(),
            r.pubkey_table().len() == 0,
            r.scripts().len() == 0,
            r.public_keys() == Map::<(u32, Seq<u8>, u32), <WotsPublicKeys as View>::V>::empty(),
            r.wots_sigs() == Map::<(u32, Seq<u8>, u32), <WotsSignatures as View>::V>::empty(),
            r.sigs() == Map::<(u32, Seq<u8>, u32), Seq<u8>>::empty(),
    {
        PublicDb {
            musig_pubkey_table: Vec::new(),
            verifier_scripts: Vec::new(),
            wots_public_keys: Registry::new(),
            wots_signatures: Registry::new(),
            signatures: Registry::new(),
        }
    }

    /// Replaces the verifier scripts.
    pub fn add_verifier_scripts(&mut self, verifier_scripts: &Vec<Vec<u8>>)
        requires
            old(self).wf(),
        ensures
            final(self).wf(),
            final(self).scripts() == verifier_scripts@.map_values(|b: Vec<u8>| b@),
            final(self).pubkey_table() == old(self).pubkey_table(),
            final(self).public_keys() == old(self).public_keys(),
            final(self).wots_sigs() == old(self).wots_sigs(),
            final(self).sigs() == old(self).sigs(),
    {
        self.verifier_scripts = copy_byte_strings(verifier_scripts);
    }

    /// A copy of the verifier scripts.
    pub fn get_partial_disprove_scripts(&self) -> (r: Vec<Vec<u8>>)
        ensures
            r@.map_values(|b: Vec<u8>| b@) == self.scripts(),
    {
        copy_byte_strings(&self.verifier_scripts)
    }

    /// Stores the signature of `operator_idx` for input `input_index` of
    /// `txid`. Each is stored once: a second signature under the same key is
    /// refused and the first one kept.
    pub fn put_signature(&mut self, operator_idx: OperatorIdx, txid: TxId, input_index: u32, signature: Signature) -> (r: Result<(), StoreError>)
        requires
            old(self).wf(),
        ensures
            final(self).wf(),
            old(self).sigs().contains_key((operator_idx, txid@, input_index))
                ==> (r == Err::<(), StoreError>(StoreError::AlreadyExists) && final(self).sigs() == old(self).sigs()),
            !old(self).sigs().contains_key((operator_idx, txid@, input_index))
                ==> (r is Ok && final(self).sigs() == old(self).sigs().insert((operator_idx, txid@, input_index), signature@)),
            final(self).pubkey_table() == old(self).pubkey_table(),
            final(self).scripts() == old(self).scripts(),
            final(self).public_keys() == old(self).public_keys(),
            final(self).wots_sigs() == old(self).wots_sigs(),
    {
        self.signatures.insert_new(RecordKey { operator: operator_idx, txid, index: input_index }, signature)
    }

    /// Replaces the N-of-N public-key table, whose rows must be in strictly
    /// increasing operator order; an unordered table is refused and the old
    /// one kept.
    pub fn set_musig_pubkey_table(&mut self, pubkey_table: &Vec<MusigPubkeyEntry>) -> (r: Result<(), TableError>)
        requires
            old(self).wf(),
        ensures
            final(self).wf(),
            r is Ok <==> table_ordered(table_view(pubkey_table@)),
            r is Ok ==> final(self).pubkey_table() == table_view(pubkey_table@),
            r is Err ==> final(self).pubkey_table() == old(self).pubkey_table(),
            final(self).scripts() == old(self).scripts(),
            final(self).public_keys() == old(self).public_keys(),
            final(self).wots_sigs() == old(self).wots_sigs(),
            final(self).sigs() == old(self).sigs(),
    {
        if !check_table_ordered(pubkey_table) {
            return Err(TableError::Unordered);
        }
        self.musig_pubkey_table = copy_table(pubkey_table);
        Ok(())
    }

    /// A copy of the N-of-N public-key table.
    pub fn get_musig_pubkey_table(&self) -> (r: Vec<MusigPubkeyEntry>)
        requires
            self.wf(),
        ensures
            table_view(r@) == self.pubkey_table(),
            table_ordered(self.pubkey_table()),
    {
        copy_table(&self.musig_pubkey_table)
    }
}

impl ConnectorDb for PublicDb {
    closed spec fn wf(&self) -> bool {
        &&& table_ordered(table_view(self.musig_pubkey_table@))
        &&& self.wots_public_keys.wf()
        &&& self.wots_signatures.wf()
        &&& self.signatures.wf()
    }

    closed spec fn scripts(&self) -> Seq<Seq<u8>> {
        self.verifier_scripts@.map_values(|b: Vec<u8>| b@)
    }

    closed spec fn pubkey_table(&self) -> Seq<(u32, Seq<u8>)> {
        table_view(self.musig_pubkey_table@)
    }

    closed spec fn public_keys(&self) -> Map<(u32, Seq<u8>, u32), <WotsPublicKeys as View>::V> {
        self.wots_public_keys@
    }

    closed spec fn wots_sigs(&self) -> Map<(u32, Seq<u8>, u32), <WotsSignatures as View>::V> {
        self.wots_signatures@
    }

    closed spec fn sigs(&self) -> Map<(u32, Seq<u8>, u32), Seq<u8>> {
        self.signatures@
    }

    fn get_verifier_scripts(&self) -> (r: Vec<Vec<u8>>) {
        copy_byte_strings(&self.verifier_scripts)
    }

    fn get_signature(&self, operator_idx: OperatorIdx, txid: TxId, input_index: u32) -> (r: Result<Signature, StoreError>) {
        self.signatures.get(&RecordKey { operator: operator_idx, txid, index: input_index })
    }

    fn get_wots_public_keys(&self, operator_id: u32, deposit_txid: TxId) -> (r: Result<WotsPublicKeys, StoreError>) {
        self.wots_public_keys.get(&RecordKey { operator: operator_id, txid: deposit_txid, index: 0 })
    }

    fn set_wots_public_keys(&mut self, operator_id: u32, deposit_txid: TxId, public_keys: &WotsPublicKeys) -> (r: Result<(), StoreError>) {
        self.wots_public_keys.insert_new(RecordKey { operator: operator_id, txid: deposit_txid, index: 0 }, public_keys.duplicate())
    }

    fn get_wots_signatures(&self, operator_id: u32, deposit_txid: TxId) -> (r: Result<WotsSignatures, StoreError>) {
        self.wots_signatures.get(&RecordKey { operator: operator_id, txid: deposit_txid, index: 0 })
    }

    fn set_wots_signatures(&mut self, operator_id: u32, deposit_txid: TxId, signatures: &WotsSignatures) -> (r: Result<(), StoreError>) {
        self.wots_signatures.insert_new(RecordKey { operator: operator_id, txid: deposit_txid, index: 0 }, signatures.duplicate())
    }
}

} // verus!
