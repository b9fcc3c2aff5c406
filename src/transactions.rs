//! Single-input transactions that move a deposit in and a withdrawal out:
//! each spends one output and pays its amount less the fee to one script.
use vstd::prelude::*;

use crate::agent::{ecdsa_der_of, segwit_v0_sighash_of, Agent, SIGHASH_ALL};
use crate::graph::{FEE_AMOUNT, SEQUENCE_MAX, PreSignedView, balanced, input_view};
use crate::tx::{copy_bytes, OutPoint, Tx, TxInput, TxInputView, TxOutput, TxOutputView, TxView};

verus! {

/// An output to spend and its amount.
#[derive(Clone, Copy, Debug)]
pub struct Input {
    pub outpoint: OutPoint,
    pub amount: u64,
}

/// The single-input, single-output spend of `input` that pays `output_script`.
pub open spec fn single_spend_view(input: Input, prev_script_pubkey: Seq<u8>, output_script: Seq<u8>) -> PreSignedView {
    PreSignedView {
        tx: crate::tx::TxView {
            version: 2,
            lock_time: 0,
            input: seq![input_view(input.outpoint.txid@, input.outpoint.vout)],
            output: seq![TxOutputView { value: (input.amount - FEE_AMOUNT) as u64, script_pubkey: output_script }],
        },
        prev_outs: seq![TxOutputView { value: input.amount, script_pubkey: prev_script_pubkey }],
    }
}

/// The spend with the witness of its one input set to `witness`.
pub open spec fn with_witness(t: TxView, witness: Seq<Seq<u8>>) -> TxView {
    TxView { input: t.input.update(0, TxInputView { witness, ..t.input[0] }), ..t }
}

/// The witness that spends a P2WSH output of `value` under `script`: the
/// signature of `signer`, then the script.
pub open spec fn p2wsh_witness(unsigned: TxView, sk: Seq<u8>, script: Seq<u8>, value: u64) -> Seq<Seq<u8>> {
    seq![ecdsa_der_of(sk, segwit_v0_sighash_of(unsigned, 0, script, value)).push(SIGHASH_ALL), script]
}

fn single_spend(input: Input, prev_script_pubkey: &Vec<u8>, output_script: &Vec<u8>) -> (r: (Tx, Vec<TxOutput>))
    requires
        input.amount >= FEE_AMOUNT,
    ensures
        (PreSignedView { tx: r.0@, prev_outs: r.1@.map_values(|o: TxOutput| o@) })
            == single_spend_view(input, prev_script_pubkey@, output_script@),
        balanced(PreSignedView { tx: r.0@, prev_outs: r.1@.map_values(|o: TxOutput| o@) }),
{
    let txin = TxInput { previous_output: input.outpoint, script_sig: Vec::new(), sequence: SEQUENCE_MAX, witness: Vec::new() };
    let mut ins: Vec<TxInput> = Vec::new();
    ins.push(txin);
    let mut outs: Vec<TxOutput> = Vec::new();
    outs.push(TxOutput { value: input.amount - FEE_AMOUNT, script_pubkey: copy_bytes(output_script) });
    let mut prevs: Vec<TxOutput> = Vec::new();
    prevs.push(TxOutput { value: input.amount, script_pubkey: copy_bytes(prev_script_pubkey) });
    let tx = Tx { version: 2, lock_time: 0, input: ins, output: outs };
    proof {
        let w = single_spend_view(input, prev_script_pubkey@, output_script@);
        assert(tx@.input[0].script_sig =~= Seq::<u8>::empty());
        assert(tx@.input[0].witness =~= Seq::<Seq<u8>>::empty());
        assert(tx@.input =~= w.tx.input);
        assert(tx@.output =~= w.tx.output);
        assert(prevs@.map_values(|o: TxOutput| o@) =~= w.prev_outs);
        assert(w.tx.output.drop_last() =~= Seq::<TxOutputView>::empty());
        assert(w.prev_outs.drop_last() =~= Seq::<TxOutputView>::empty());
        assert(crate::tx::total_value(Seq::<TxOutputView>::empty()) == 0);
    }
    (tx, prevs)
}

/// Moves a deposit into the bridge: pays the N-of-N deposit script.
#[derive(Debug)]
pub struct PegInDepositTransaction {
    tx: Tx,
    prev_outs: Vec<TxOutput>,
    prev_scripts: Vec<Vec<u8>>,
}

impl PegInDepositTransaction {
    pub closed spec fn spec_tx(&self) -> crate::tx::TxView {
        self.tx@
    }

    pub closed spec fn spec_prev_outs(&self) -> Seq<TxOutputView> {
        self.prev_outs@.map_values(|o: TxOutput| o@)
    }

    pub closed spec fn spec_prev_scripts(&self) -> Seq<Seq<u8>> {
        self.prev_scripts@.map_values(|b: Vec<u8>| b@)
    }

    /// The transaction of `new_for_validation`, with its input signed by `signer`.
    pub fn new(
        signer: &Agent,
        prev_script_pubkey: &Vec<u8>,
        prev_script: &Vec<u8>,
        output_script: &Vec<u8>,
        input_0: Input,
    ) -> (r: PegInDepositTransaction)
        requires
            signer.wf(),
            input_0.amount >= FEE_AMOUNT,
        ensures
            r.spec_tx() == with_witness(
                single_spend_view(input_0, prev_script_pubkey@, output_script@).tx,
                p2wsh_witness(single_spend_view(input_0, prev_script_pubkey@, output_script@).tx, signer.key(), prev_script@, input_0.amount),
            ),
            r.spec_prev_outs() == single_spend_view(input_0, prev_script_pubkey@, output_script@).prev_outs,
            r.spec_prev_scripts() == seq![prev_script@],
    {
        let mut this = PegInDepositTransaction::new_for_validation(prev_script_pubkey, prev_script, output_script, input_0);
        assert(this.spec_prev_scripts().len() == this.prev_scripts@.len());
        assert(this.spec_prev_scripts()[0] == this.prev_scripts@[0]@);
        assert(this.spec_prev_outs().len() == this.prev_outs@.len());
        assert(this.spec_prev_outs()[0] == this.prev_outs@[0]@);
        this.sign_input_0(signer);
        this
    }

    fn sign_input_0(&mut self, signer: &Agent)
        requires
            signer.wf(),
            old(self).tx@.input.len() == 1,
            old(self).prev_outs@.len() == 1,
            old(self).prev_scripts@.len() == 1,
        ensures
            final(self).tx@ == with_witness(
                old(self).tx@,
                p2wsh_witness(old(self).tx@, signer.key(), old(self).prev_scripts@[0]@, old(self).prev_outs@[0].value),
            ),
            final(self).prev_outs@ == old(self).prev_outs@,
            final(self).prev_scripts@ == old(self).prev_scripts@,
    {
        let sig = signer.sign_p2wsh(&self.tx, 0, &self.prev_scripts[0], self.prev_outs[0].value);
        let mut witness: Vec<Vec<u8>> = Vec::new();
        witness.push(sig);
        witness.push(copy_bytes(&self.prev_scripts[0]));
        let old_input = self.tx.input[0].copy();
        let signed = TxInput {
            previous_output: old_input.previous_output,
            script_sig: old_input.script_sig,
            sequence: old_input.sequence,
            witness,
        };
        let ghost before = self.tx@;
        self.tx.input.set(0, signed);
        proof {
            let w = p2wsh_witness(before, signer.key(), self.prev_scripts@[0]@, self.prev_outs@[0].value);
            assert(self.tx@.input[0].witness =~= w);
            assert(self.tx@.input =~= before.input.update(0, TxInputView { witness: w, ..before.input[0] }));
        }
    }

    /// The unsigned transaction: it spends `input_0`, whose output is locked
    /// by `prev_script_pubkey` (the witness-script hash of `prev_script`),
    /// and pays its amount less the fee to `output_script`.
    pub fn new_for_validation(
        prev_script_pubkey: &Vec<u8>,
        prev_script: &Vec<u8>,
        output_script: &Vec<u8>,
        input_0: Input,
    ) -> (r: PegInDepositTransaction)
        requires
            input_0.amount >= FEE_AMOUNT,
        ensures
            (PreSignedView { tx: r.spec_tx(), prev_outs: r.spec_prev_outs() })
                == single_spend_view(input_0, prev_script_pubkey@, output_script@),
            balanced(PreSignedView { tx: r.spec_tx(), prev_outs: r.spec_prev_outs() }),
            r.spec_prev_scripts() == seq![prev_script@],
    {
        let (tx, prev_outs) = single_spend(input_0, prev_script_pubkey, output_script);
        let mut prev_scripts: Vec<Vec<u8>> = Vec::new();
        prev_scripts.push(copy_bytes(prev_script));
        assert(prev_scripts@.map_values(|b: Vec<u8>| b@) =~= seq![prev_script@]);
        PegInDepositTransaction { tx, prev_outs, prev_scripts }
    }

    pub fn tx(&self) -> (r: &Tx)
        ensures
            r@ == self.spec_tx(),
    {
        &self.tx
    }

    /// The transaction, for the caller to change.
    pub fn tx_mut(&mut self) -> (r: &mut Tx)
        ensures
            (*r)@ == old(self).spec_tx(),
            final(self).spec_tx() == (*final(r))@,
            final(self).spec_prev_outs() == old(self).spec_prev_outs(),
            final(self).spec_prev_scripts() == old(self).spec_prev_scripts(),
    {
        &mut self.tx
    }

    pub fn prev_outs(&self) -> (r: &Vec<TxOutput>)
        ensures
            r@.map_values(|o: TxOutput| o@) == self.spec_prev_outs(),
    {
        &self.prev_outs
    }

    pub fn prev_scripts(&self) -> (r: &Vec<Vec<u8>>)
        ensures
            r@.map_values(|b: Vec<u8>| b@) == self.spec_prev_scripts(),
    {
        &self.prev_scripts
    }

    /// A copy of the transaction, ready to broadcast once signed.
    pub fn finalize(&self) -> (r: Tx)
        ensures
            r@ == self.spec_tx(),
    {
        self.tx.copy()
    }
}

/// Pays a withdrawal out of the bridge to the withdrawer's script.
#[derive(Debug)]
pub struct PegOutTransaction {
    tx: Tx,
    prev_outs: Vec<TxOutput>,
    prev_scripts: Vec<Vec<u8>>,
}

impl PegOutTransaction {
    pub closed spec fn spec_tx(&self) -> crate::tx::TxView {
        self.tx@
    }

    pub closed spec fn spec_prev_outs(&self) -> Seq<TxOutputView> {
        self.prev_outs@.map_values(|o: TxOutput| o@)
    }

    pub closed spec fn spec_prev_scripts(&self) -> Seq<Seq<u8>> {
        self.prev_scripts@.map_values(|b: Vec<u8>| b@)
    }

    /// The transaction of `new_for_validation`, with its input signed by `signer`.
    pub fn new(
        signer: &Agent,
        prev_script_pubkey: &Vec<u8>,
        prev_script: &Vec<u8>,
        output_script: &Vec<u8>,
        input_0: Input,
    ) -> (r: PegOutTransaction)
        requires
            signer.wf(),
            input_0.amount >= FEE_AMOUNT,
        ensures
            r.spec_tx() == with_witness(
                single_spend_view(input_0, prev_script_pubkey@, output_script@).tx,
                p2wsh_witness(single_spend_view(input_0, prev_script_pubkey@, output_script@).tx, signer.key(), prev_script@, input_0.amount),
            ),
            r.spec_prev_outs() == single_spend_view(input_0, prev_script_pubkey@, output_script@).prev_outs,
            r.spec_prev_scripts() == seq![prev_script@],
    {
        let mut this = PegOutTransaction::new_for_validation(prev_script_pubkey, prev_script, output_script, input_0);
        assert(this.spec_prev_scripts().len() == this.prev_scripts@.len());
        assert(this.spec_prev_scripts()[0] == this.prev_scripts@[0]@);
        assert(this.spec_prev_outs().len() == this.prev_outs@.len());
        assert(this.spec_prev_outs()[0] == this.prev_outs@[0]@);
        this.sign_input_0(signer);
        this
    }

    fn sign_input_0(&mut self, signer: &Agent)
        requires
            signer.wf(),
            old(self).tx@.input.len() == 1,
            old(self).prev_outs@.len() == 1,
            old(self).prev_scripts@.len() == 1,
        ensures
            final(self).tx@ == with_witness(
                old(self).tx@,
                p2wsh_witness(old(self).tx@, signer.key(), old(self).prev_scripts@[0]@, old(self).prev_outs@[0].value),
            ),
            final(self).prev_outs@ == old(self).prev_outs@,
            final(self).prev_scripts@ == old(self).prev_scripts@,
    {
        let sig = signer.sign_p2wsh(&self.tx, 0, &self.prev_scripts[0], self.prev_outs[0].value);
        let mut witness: Vec<Vec<u8>> = Vec::new();
        witness.push(sig);
        witness.push(copy_bytes(&self.prev_scripts[0]));
        let old_input = self.tx.input[0].copy();
        let signed = TxInput {
            previous_output: old_input.previous_output,
            script_sig: old_input.script_sig,
            sequence: old_input.sequence,
            witness,
        };
        let ghost before = self.tx@;
        self.tx.input.set(0, signed);
        proof {
            let w = p2wsh_witness(before, signer.key(), self.prev_scripts@[0]@, self.prev_outs@[0].value);
            assert(self.tx@.input[0].witness =~= w);
            assert(self.tx@.input =~= before.input.update(0, TxInputView { witness: w, ..before.input[0] }));
        }
    }

    /// The unsigned transaction: it spends `input_0`, whose output is locked
    /// by `prev_script_pubkey` (the witness-script hash of `prev_script`),
    /// and pays its amount less the fee to `output_script`.
    pub fn new_for_validation(
        prev_script_pubkey: &Vec<u8>,
        prev_script: &Vec<u8>,
        output_script: &Vec<u8>,
        input_0: Input,
    ) -> (r: PegOutTransaction)
        requires
            input_0.amount >= FEE_AMOUNT,
        ensures
            (PreSignedView { tx: r.spec_tx(), prev_outs: r.spec_prev_outs() })
                == single_spend_view(input_0, prev_script_pubkey@, output_script@),
            balanced(PreSignedView { tx: r.spec_tx(), prev_outs: r.spec_prev_outs() }),
            r.spec_prev_scripts() == seq![prev_script@],
    {
        let (tx, prev_outs) = single_spend(input_0, prev_script_pubkey, output_script);
        let mut prev_scripts: Vec<Vec<u8>> = Vec::new();
        prev_scripts.push(copy_bytes(prev_script));
        assert(prev_scripts@.map_values(|b: Vec<u8>| b@) =~= seq![prev_script@]);
        PegOutTransaction { tx, prev_outs, prev_scripts }
    }

    pub fn tx(&self) -> (r: &Tx)
        ensures
            r@ == self.spec_tx(),
    {
        &self.tx
    }

    /// The transaction, for the caller to change.
    pub fn tx_mut(&mut self) -> (r: &mut Tx)
        ensures
            (*r)@ == old(self).spec_tx(),
            final(self).spec_tx() == (*final(r))@,
            final(self).spec_prev_outs() == old(self).spec_prev_outs(),
            final(self).spec_prev_scripts() == old(self).spec_prev_scripts(),
    {
        &mut self.tx
    }

    pub fn prev_outs(&self) -> (r: &Vec<TxOutput>)
        ensures
            r@.map_values(|o: TxOutput| o@) == self.spec_prev_outs(),
    {
        &self.prev_outs
    }

    pub fn prev_scripts(&self) -> (r: &Vec<Vec<u8>>)
        ensures
            r@.map_values(|b: Vec<u8>| b@) == self.spec_prev_scripts(),
    {
        &self.prev_scripts
    }

    /// A copy of the transaction, ready to broadcast once signed.
    pub fn finalize(&self) -> (r: Tx)
        ensures
            r@ == self.spec_tx(),
    {
        self.tx.copy()
    }
}

} // verus!
