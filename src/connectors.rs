//! Connectors: the spending conditions that the graph's outputs carry, and the
//! factories that split a flat list of one-time public keys into connectors of
//! a fixed batch size plus one remainder connector.
use vstd::prelude::*;

verus! {

/// The Bitcoin network that addresses are made for.
#[derive(Clone, Copy, Debug, PartialEq, Eq, Structural)]
pub enum Network {
    Bitcoin,
    Testnet,
    Signet,
    Regtest,
}

/// A one-time public key together with the index of the proof element that it
/// commits to.
#[derive(Debug)]
pub struct ProofElementKey {
    pub element: u32,
    pub key: Vec<u8>,
}

impl View for ProofElementKey {
    type V = (u32, Seq<u8>);

    open spec fn view(&self) -> (u32, Seq<u8>) {
        (self.element, self.key@)
    }
}

pub open spec fn keys_view(keys: Seq<ProofElementKey>) -> Seq<(u32, Seq<u8>)> {
    keys.map_values(|k: ProofElementKey| k@)
}

impl ProofElementKey {
    pub fn copy(&self) -> (r: ProofElementKey)
        ensures
            r@ == self@,
    {
        ProofElementKey { element: self.element, key: crate::tx::copy_bytes(&self.key) }
    }
}

/// A copy of `keys[from..to]`.
pub fn copy_keys(keys: &Vec<ProofElementKey>, from: usize, to: usize) -> (r: Vec<ProofElementKey>)
    requires
        from <= to <= keys@.len(),
    ensures
        keys_view(r@) == keys_view(keys@).subrange(from as int, to as int),
{
    let mut r: Vec<ProofElementKey> = Vec::new();
    let mut i: usize = from;
    while i < to
        invariant
            from <= i <= to <= keys@.len(),
            keys_view(r@) == keys_view(keys@).subrange(from as int, i as int),
        decreases to - i,
    {
        let k = keys[i].copy();
        let ghost prev = r@;
        r.push(k);
        proof {
            assert(r@ == prev.push(k));
            assert(keys_view(r@) =~= keys_view(prev).push(keys@[i as int]@));
        }
        i = i + 1;
        assert(keys_view(r@) =~= keys_view(keys@).subrange(from as int, i as int));
    }
    r
}

/// Why a factory could not partition its keys.
#[derive(Clone, Copy, Debug, PartialEq, Eq, Structural)]
pub enum ConnectorError {
    /// The batch size is zero.
    ZeroBatchSize,
    /// The factory holds a different number of keys than it was made for.
    KeyCountMismatch,
}

/// The keys of batch `j` of size `size`.
pub open spec fn batch(keys: Seq<(u32, Seq<u8>)>, size: nat, j: int) -> Seq<(u32, Seq<u8>)> {
    keys.subrange(j * size, (j + 1) * size)
}

/// The keys left after the full batches of size `size`.
pub open spec fn remainder(keys: Seq<(u32, Seq<u8>)>, size: nat) -> Seq<(u32, Seq<u8>)> {
    keys.subrange(((keys.len() / size) * size) as int, keys.len() as int)
}

/// What a factory returns for given keys, batch size and expected count.
pub open spec fn partition_error(n_keys: nat, size: nat, expected: nat) -> Option<ConnectorError> {
    if size == 0 {
        Some(ConnectorError::ZeroBatchSize)
    } else if n_keys != expected {
        Some(ConnectorError::KeyCountMismatch)
    } else {
        None
    }
}

proof fn lemma_batch_bounds(len: nat, size: nat, j: int)
    requires
        size > 0,
        0 <= j < len / size,
    ensures
        0 <= j * size,
        (j + 1) * size <= (len / size) * size <= len,
{
    vstd::arithmetic::div_mod::lemma_fundamental_div_mod(len as int, size as int);
    vstd::arithmetic::mul::lemma_mul_inequality(j + 1, (len / size) as int, size as int);
    vstd::arithmetic::mul::lemma_mul_nonnegative(j, size as int);
}

proof fn lemma_count_is_quotient(len: nat, size: nat, i: nat)
    requires
        size > 0,
        i * size <= len,
        len - i * size < size,
    ensures
        i == len / size,
{
    vstd::arithmetic::div_mod::lemma_fundamental_div_mod_converse(
        len as int,
        size as int,
        i as int,
        len - i * size,
    );
}

/// Splits `keys` into full batches of `size` keys and the remainder, each copied.
fn partition(keys: &Vec<ProofElementKey>, size: usize) -> (r: (Vec<Vec<ProofElementKey>>, Vec<ProofElementKey>))
    requires
        size > 0,
    ensures
        r.0@.len() == keys@.len() / (size as nat),
        forall|j: int| 0 <= j < r.0@.len() ==> keys_view(#[trigger] r.0@[j]@) == batch(keys_view(keys@), size as nat, j),
        keys_view(r.1@) == remainder(keys_view(keys@), size as nat),
{
    let ghost kv = keys_view(keys@);
    let mut full: Vec<Vec<ProofElementKey>> = Vec::new();
    let mut start: usize = 0;
    assert(full@.len() * size == 0) by (nonlinear_arith)
        requires
            full@.len() == 0,
    ;
    while keys.len() - start >= size
        invariant
            size > 0,
            start <= keys@.len(),
            start == full@.len() * size,
            kv == keys_view(keys@),
            forall|j: int| 0 <= j < full@.len() ==> keys_view(#[trigger] full@[j]@) == batch(kv, size as nat, j),
        decreases keys@.len() - start,
    {
        let chunk = copy_keys(keys, start, start + size);
        proof {
            assert((full@.len() + 1) * size == full@.len() * size + size) by (nonlinear_arith);
        }
        full.push(chunk);
        start = start + size;
    }
    proof {
        lemma_count_is_quotient(keys@.len(), size as nat, full@.len());
    }
    let rest = copy_keys(keys, start, keys.len());
    (full, rest)
}


/// A connector whose script checks one-time signatures over 256-bit proof elements.
#[derive(Debug)]
pub struct ConnectorA256 {
    pub network: Network,
    pub public_keys: Vec<ProofElementKey>,
}

/// Splits a flat list of 256-bit one-time keys into connectors.
#[derive(Debug)]
pub struct ConnectorA256Factory {
    pub network: Network,
    /// How many keys each full connector holds.
    pub n_public_keys_per_connector: usize,
    /// How many keys the factory must hold.
    pub n_public_keys: usize,
    pub public_keys: Vec<ProofElementKey>,
}

impl ConnectorA256Factory {
    /// The full connectors, `n_public_keys / n_public_keys_per_connector` of
    /// them in key order, and the remainder connector with the
    /// `n_public_keys % n_public_keys_per_connector` keys that are left (none
    /// when the batch size divides the count).
    pub fn create_connectors(&self) -> (r: Result<(Vec<ConnectorA256>, ConnectorA256), ConnectorError>)
        ensures
            partition_error(self.public_keys@.len(), self.n_public_keys_per_connector as nat, self.n_public_keys as nat) matches Some(e)
                ==> r == Err::<(Vec<ConnectorA256>, ConnectorA256), ConnectorError>(e),
            partition_error(self.public_keys@.len(), self.n_public_keys_per_connector as nat, self.n_public_keys as nat) is None
                ==> r is Ok,
            r matches Ok((full, rest)) ==> {
                let size = self.n_public_keys_per_connector as nat;
                let kv = keys_view(self.public_keys@);
                &&& full@.len() == kv.len() / size
                &&& forall|j: int| 0 <= j < full@.len() ==> {
                    &&& (#[trigger] full@[j]).network == self.network
                    &&& keys_view(full@[j].public_keys@) == batch(kv, size, j)
                }
                &&& rest.network == self.network
                &&& keys_view(rest.public_keys@) == remainder(kv, size)
                &&& rest.public_keys@.len() == kv.len() % size
            },
    {
        if self.n_public_keys_per_connector == 0 {
            return Err(ConnectorError::ZeroBatchSize);
        }
        if self.public_keys.len() != self.n_public_keys {
            return Err(ConnectorError::KeyCountMismatch);
        }
        let (batches, rest) = partition(&self.public_keys, self.n_public_keys_per_connector);
        let ghost kv = keys_view(self.public_keys@);
        let ghost size = self.n_public_keys_per_connector as nat;
        let mut full: Vec<ConnectorA256> = Vec::new();
        let mut i: usize = 0;
        while i < batches.len()
            invariant
                i <= batches@.len(),
                full@.len() == i,
                forall|j: int| 0 <= j < batches@.len() ==> keys_view(#[trigger] batches@[j]@) == batch(kv, size, j),
                forall|j: int| 0 <= j < i ==> {
                    &&& (#[trigger] full@[j]).network == self.network
                    &&& keys_view(full@[j].public_keys@) == batch(kv, size, j)
                },
            decreases batches@.len() - i,
        {
            let keys = copy_keys(&batches[i], 0, batches[i].len());
            proof {
                assert(keys_view(batches@[i as int]@).subrange(0, batches@[i as int]@.len() as int) =~= keys_view(batches@[i as int]@));
            }
            full.push(ConnectorA256 { network: self.network, public_keys: keys });
            i = i + 1;
        }
        proof {
            vstd::arithmetic::div_mod::lemma_fundamental_div_mod(kv.len() as int, size as int);
        }
        Ok((full, ConnectorA256 { network: self.network, public_keys: rest }))
    }
}

/// A connector whose script checks one-time signatures over 160-bit proof elements.
#[derive(Debug)]
pub struct ConnectorA160 {
    pub network: Network,
    pub public_keys: Vec<ProofElementKey>,
}

/// Splits a flat list of 160-bit one-time keys into connectors.
#[derive(Debug)]
pub struct ConnectorA160Factory {
    pub network: Network,
    /// How many keys each full connector holds.
    pub n_public_keys_per_connector: usize,
    /// How many keys the factory must hold.
    pub n_public_keys: usize,
    pub public_keys: Vec<ProofElementKey>,
}

impl ConnectorA160Factory {
    /// The full connectors, `n_public_keys / n_public_keys_per_connector` of
    /// them in key order, and the remainder connector with the
    /// `n_public_keys % n_public_keys_per_connector` keys that are left (none
    /// when the batch size divides the count).
    pub fn create_connectors(&self) -> (r: Result<(Vec<ConnectorA160>, ConnectorA160), ConnectorError>)
        ensures
            partition_error(self.public_keys@.len(), self.n_public_keys_per_connector as nat, self.n_public_keys as nat) matches Some(e)
                ==> r == Err::<(Vec<ConnectorA160>, ConnectorA160), ConnectorError>(e),
            partition_error(self.public_keys@.len(), self.n_public_keys_per_connector as nat, self.n_public_keys as nat) is None
                ==> r is Ok,
            r matches Ok((full, rest)) ==> {
                let size = self.n_public_keys_per_connector as nat;
                let kv = keys_view(self.public_keys@);
                &&& full@.len() == kv.len() / size
                &&& forall|j: int| 0 <= j < full@.len() ==> {
                    &&& (#[trigger] full@[j]).network == self.network
                    &&& keys_view(full@[j].public_keys@) == batch(kv, size, j)
                }
                &&& rest.network == self.network
                &&& keys_view(rest.public_keys@) == remainder(kv, size)
                &&& rest.public_keys@.len() == kv.len() % size
            },
    {
        if self.n_public_keys_per_connector == 0 {
            return Err(ConnectorError::ZeroBatchSize);
        }
        if self.public_keys.len() != self.n_public_keys {
            return Err(ConnectorError::KeyCountMismatch);
        }
        let (batches, rest) = partition(&self.public_keys, self.n_public_keys_per_connector);
        let ghost kv = keys_view(self.public_keys@);
        let ghost size = self.n_public_keys_per_connector as nat;
        let mut full: Vec<ConnectorA160> = Vec::new();
        let mut i: usize = 0;
        while i < batches.len()
            invariant
                i <= batches@.len(),
                full@.len() == i,
                forall|j: int| 0 <= j < batches@.len() ==> keys_view(#[trigger] batches@[j]@) == batch(kv, size, j),
                forall|j: int| 0 <= j < i ==> {
                    &&& (#[trigger] full@[j]).network == self.network
                    &&& keys_view(full@[j].public_keys@) == batch(kv, size, j)
                },
            decreases batches@.len() - i,
        {
            let keys = copy_keys(&batches[i], 0, batches[i].len());
            proof {
                assert(keys_view(batches@[i as int]@).subrange(0, batches@[i as int]@.len() as int) =~= keys_view(batches@[i as int]@));
            }
            full.push(ConnectorA160 { network: self.network, public_keys: keys });
            i = i + 1;
        }
        proof {
            vstd::arithmetic::div_mod::lemma_fundamental_div_mod(kv.len() as int, size as int);
        }
        Ok((full, ConnectorA160 { network: self.network, public_keys: rest }))
    }
}

} // verus!
