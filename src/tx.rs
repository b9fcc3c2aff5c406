//! A plain-value model of a Bitcoin transaction.
use vstd::prelude::*;

verus! {

/// A 32-byte transaction identifier.
#[derive(Clone, Copy, Debug, PartialEq, Eq)]
pub struct TxId {
    pub bytes: [u8; 32],
}

impl View for TxId {
    type V = Seq<u8>;

    open spec fn view(&self) -> Seq<u8> {
        self.bytes@
    }
}

impl TxId {
    /// Byte-wise comparison of two identifiers.
    pub fn same_as(&self, other: &TxId) -> (r: bool)
        ensures
            r == (self@ == other@),
    {
        let mut i: usize = 0;
        while i < 32
            invariant
                i <= 32,
                self@.len() == 32,
                other@.len() == 32,
                forall|j: int| 0 <= j < i ==> self@[j] == other@[j],
            decreases 32 - i,
        {
            if self.bytes[i] != other.bytes[i] {
                return false;
            }
            i = i + 1;
        }
        assert(self@ =~= other@);
        true
    }
}


/// A reference to one output of an earlier transaction.
#[derive(Clone, Copy, Debug, PartialEq, Eq)]
pub struct OutPoint {
    pub txid: TxId,
    pub vout: u32,
}

pub struct OutPointView {
    pub txid: Seq<u8>,
    pub vout: u32,
}

impl View for OutPoint {
    type V = OutPointView;

    open spec fn view(&self) -> OutPointView {
        OutPointView { txid: self.txid@, vout: self.vout }
    }
}

impl OutPoint {
    pub fn same_as(&self, other: &OutPoint) -> (r: bool)
        ensures
            r == (self@ == other@),
    {
        self.vout == other.vout && self.txid.same_as(&other.txid)
    }
}

/// A transaction input.
#[derive(Clone, Debug, PartialEq, Eq)]
pub struct TxInput {
    pub previous_output: OutPoint,
    pub script_sig: Vec<u8>,
    pub sequence: u32,
    pub witness: Vec<Vec<u8>>,
}

pub struct TxInputView {
    pub previous_output: OutPointView,
    pub script_sig: Seq<u8>,
    pub sequence: u32,
    pub witness: Seq<Seq<u8>>,
}

impl View for TxInput {
    type V = TxInputView;

    open spec fn view(&self) -> TxInputView {
        TxInputView {
            previous_output: self.previous_output@,
            script_sig: self.script_sig@,
            sequence: self.sequence,
            witness: self.witness@.map_values(|w: Vec<u8>| w@),
        }
    }
}

/// A transaction output: an amount in satoshis and its locking script.
#[derive(Clone, Debug, PartialEq, Eq)]
pub struct TxOutput {
    pub value: u64,
    pub script_pubkey: Vec<u8>,
}

pub struct TxOutputView {
    pub value: u64,
    pub script_pubkey: Seq<u8>,
}

impl View for TxOutput {
    type V = TxOutputView;

    open spec fn view(&self) -> TxOutputView {
        TxOutputView { value: self.value, script_pubkey: self.script_pubkey@ }
    }
}

impl TxOutput {
    pub fn copy(&self) -> (r: TxOutput)
        ensures
            r@ == self@,
    {
        TxOutput { value: self.value, script_pubkey: copy_bytes(&self.script_pubkey) }
    }
}

/// A transaction.
#[derive(Clone, Debug, PartialEq, Eq)]
pub struct Tx {
    pub version: i32,
    pub lock_time: u32,
    pub input: Vec<TxInput>,
    pub output: Vec<TxOutput>,
}

pub struct TxView {
    pub version: i32,
    pub lock_time: u32,
    pub input: Seq<TxInputView>,
    pub output: Seq<TxOutputView>,
}

impl View for Tx {
    type V = TxView;

    open spec fn view(&self) -> TxView {
        TxView {
            version: self.version,
            lock_time: self.lock_time,
            input: self.input@.map_values(|i: TxInput| i@),
            output: self.output@.map_values(|o: TxOutput| o@),
        }
    }
}

impl TxInput {
    pub fn copy(&self) -> (r: TxInput)
        ensures
            r@ == self@,
    {
        let mut witness: Vec<Vec<u8>> = Vec::new();
        let mut i: usize = 0;
        while i < self.witness.len()
            invariant
                i <= self.witness@.len(),
                witness@.map_values(|w: Vec<u8>| w@) == self.witness@.subrange(0, i as int).map_values(|w: Vec<u8>| w@),
            decreases self.witness@.len() - i,
        {
            let w = copy_bytes(&self.witness[i]);
            let ghost before = witness@;
            witness.push(w);
            proof {
                assert(witness@.map_values(|w: Vec<u8>| w@) =~= before.map_values(|w: Vec<u8>| w@).push(self.witness@[i as int]@));
            }
            i = i + 1;
            assert(witness@.map_values(|w: Vec<u8>| w@) =~= self.witness@.subrange(0, i as int).map_values(|w: Vec<u8>| w@));
        }
        assert(self.witness@.subrange(0, i as int) =~= self.witness@);
        TxInput {
            previous_output: self.previous_output,
            script_sig: copy_bytes(&self.script_sig),
            sequence: self.sequence,
            witness,
        }
    }
}

/// A copy of a list of outputs.
pub fn copy_outputs(v: &Vec<TxOutput>) -> (r: Vec<TxOutput>)
    ensures
        r@.map_values(|o: TxOutput| o@) == v@.map_values(|o: TxOutput| o@),
{
    let mut r: Vec<TxOutput> = Vec::new();
    let mut i: usize = 0;
    while i < v.len()
        invariant
            i <= v@.len(),
            r@.map_values(|o: TxOutput| o@) == v@.subrange(0, i as int).map_values(|o: TxOutput| o@),
        decreases v@.len() - i,
    {
        let o = v[i].copy();
        let ghost before = r@;
        r.push(o);
        proof {
            assert(r@.map_values(|o: TxOutput| o@) =~= before.map_values(|o: TxOutput| o@).push(v@[i as int]@));
        }
        i = i + 1;
        assert(r@.map_values(|o: TxOutput| o@) =~= v@.subrange(0, i as int).map_values(|o: TxOutput| o@));
    }
    assert(v@.subrange(0, i as int) =~= v@);
    r
}

impl Tx {
    pub fn copy(&self) -> (r: Tx)
        ensures
            r@ == self@,
    {
        let mut input: Vec<TxInput> = Vec::new();
        let mut i: usize = 0;
        while i < self.input.len()
            invariant
                i <= self.input@.len(),
                input@.map_values(|x: TxInput| x@) == self.input@.subrange(0, i as int).map_values(|x: TxInput| x@),
            decreases self.input@.len() - i,
        {
            let x = self.input[i].copy();
            let ghost before = input@;
            input.push(x);
            proof {
                assert(input@.map_values(|x: TxInput| x@) =~= before.map_values(|x: TxInput| x@).push(self.input@[i as int]@));
            }
            i = i + 1;
            assert(input@.map_values(|x: TxInput| x@) =~= self.input@.subrange(0, i as int).map_values(|x: TxInput| x@));
        }
        assert(self.input@.subrange(0, i as int) =~= self.input@);
        Tx { version: self.version, lock_time: self.lock_time, input, output: copy_outputs(&self.output) }
    }
}

/// Every identifier in the model is 32 bytes long, as in any real transaction.
pub open spec fn tx_wf(t: TxView) -> bool {
    forall|i: int| 0 <= i < t.input.len() ==> #[trigger] t.input[i].previous_output.txid.len() == 32
}

/// The sum of the values of a sequence of outputs.
pub open spec fn total_value(outs: Seq<TxOutputView>) -> int
    decreases outs.len(),
{
    if outs.len() == 0 {
        0
    } else {
        total_value(outs.drop_last()) + outs.last().value
    }
}

pub fn copy_bytes(b: &Vec<u8>) -> (r: Vec<u8>)
    ensures
        r@ == b@,
{
    let mut r: Vec<u8> = Vec::with_capacity(b.len());
    let mut i: usize = 0;
    while i < b.len()
        invariant
            i <= b@.len(),
            r@ == b@.subrange(0, i as int),
        decreases b@.len() - i,
    {
        r.push(b[i]);
        i = i + 1;
        assert(r@ =~= b@.subrange(0, i as int));
    }
    assert(r@ =~= b@);
    r
}

} // verus!
