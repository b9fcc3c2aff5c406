//! The peg-out graph: kickoff, claim, the assert chain, payout and disprove,
//! each spending the output of the stage before it, each paying a fixed fee
//! out of the stake that it carries forward.
use vstd::prelude::*;

use crate::codec::{compute_txid, txid_of};
use crate::connectors::{
    ConnectorA160Factory, ConnectorA256Factory, ConnectorError, Network, partition_error,
};
use crate::connectors::{copy_keys, keys_view, ProofElementKey};
use crate::db::{deposit_key, ConnectorDb};
use crate::registry::StoreError;
use crate::tx::{
    OutPoint, OutPointView, Tx, TxId, TxInput, TxInputView, TxOutput, TxOutputView, TxView,
    total_value,
};

verus! {

/// The fee that each stage pays, in satoshis.
pub const FEE_AMOUNT: u64 = 10_000;

/// The value of an output that only gates a branch of the graph, in satoshis.
pub const CONNECTOR_DUST: u64 = 330;

/// The sequence number of every input that the graph builds.
pub const SEQUENCE_MAX: u32 = 0xffff_ffff;

/// A key-path connector: its output is locked to a tweaked Taproot output key.
#[derive(Clone, Copy, Debug)]
pub struct TaprootConnector {
    pub network: Network,
    pub output_key: [u8; 32],
}

/// The segwit v1 script of an output key: `OP_1`, a 32-byte push, the key.
pub open spec fn p2tr_script(key: Seq<u8>) -> Seq<u8> {
    seq![0x51u8, 0x20u8] + key
}

/// A script that makes an output unspendable (`OP_RETURN`).
pub open spec fn burn_script() -> Seq<u8> {
    seq![0x6au8]
}

impl TaprootConnector {
    pub open spec fn script(&self) -> Seq<u8> {
        p2tr_script(self.output_key@)
    }

    pub fn script_pubkey(&self) -> (r: Vec<u8>)
        ensures
            r@ == self.script(),
    {
        let mut r: Vec<u8> = Vec::new();
        r.push(0x51u8);
        r.push(0x20u8);
        let mut i: usize = 0;
        while i < 32
            invariant
                i <= 32,
                self.output_key@.len() == 32,
                r@ == seq![0x51u8, 0x20u8] + self.output_key@.subrange(0, i as int),
            decreases 32 - i,
        {
            r.push(self.output_key[i]);
            i = i + 1;
            assert(r@ =~= seq![0x51u8, 0x20u8] + self.output_key@.subrange(0, i as int));
        }
        assert(self.output_key@.subrange(0, 32) =~= self.output_key@);
        r
    }
}

/// A transaction of the graph with the outputs that it spends, kept for signing.
#[derive(Debug)]
pub struct PreSignedTx {
    pub tx: Tx,
    pub prev_outs: Vec<TxOutput>,
}

pub struct PreSignedView {
    pub tx: TxView,
    pub prev_outs: Seq<TxOutputView>,
}

impl View for PreSignedTx {
    type V = PreSignedView;

    open spec fn view(&self) -> PreSignedView {
        PreSignedView { tx: self.tx@, prev_outs: self.prev_outs@.map_values(|o: TxOutput| o@) }
    }
}

/// The outputs of a stage plus its fee add up to what its inputs spend.
pub open spec fn balanced(s: PreSignedView) -> bool {
    &&& s.tx.input.len() == s.prev_outs.len()
    &&& total_value(s.tx.output) + FEE_AMOUNT == total_value(s.prev_outs)
}

pub open spec fn input_view(txid: Seq<u8>, vout: u32) -> TxInputView {
    TxInputView {
        previous_output: OutPointView { txid, vout },
        script_sig: Seq::empty(),
        sequence: SEQUENCE_MAX,
        witness: Seq::empty(),
    }
}

pub open spec fn output_view(value: int, script: Seq<u8>) -> TxOutputView {
    TxOutputView { value: value as u64, script_pubkey: script }
}

pub open spec fn stage_view(ins: Seq<TxInputView>, prevs: Seq<TxOutputView>, outs: Seq<TxOutputView>) -> PreSignedView {
    PreSignedView { tx: TxView { version: 2, lock_time: 0, input: ins, output: outs }, prev_outs: prevs }
}

/// The kickoff: spends the funding output, pays its value less the fee to the kickoff connector.
pub open spec fn kickoff_view(funding: OutPointView, funding_out: TxOutputView, k: Seq<u8>) -> PreSignedView {
    stage_view(
        seq![input_view(funding.txid, funding.vout)],
        seq![funding_out],
        seq![output_view(funding_out.value - FEE_AMOUNT, k)],
    )
}

/// The claim: spends the kickoff output; the continue branch gets the stake
/// less the fee and the dust that the payout branch gets.
pub open spec fn claim_view(kickoff_txid: Seq<u8>, stake: int, k: Seq<u8>, c0: Seq<u8>, c1: Seq<u8>) -> PreSignedView {
    stage_view(
        seq![input_view(kickoff_txid, 0)],
        seq![output_view(stake, k)],
        seq![output_view(stake - FEE_AMOUNT - CONNECTOR_DUST, c0), output_view(CONNECTOR_DUST as int, c1)],
    )
}

/// A one-input, one-output link of the assert chain.
pub open spec fn link_view(prev_txid: Seq<u8>, stake: int, from: Seq<u8>, to: Seq<u8>) -> PreSignedView {
    stage_view(
        seq![input_view(prev_txid, 0)],
        seq![output_view(stake, from)],
        seq![output_view(stake - FEE_AMOUNT, to)],
    )
}

/// The assert-data transactions after the pre-assert, `n` of them, each
/// spending output 0 of the one before.
pub open spec fn data_chain(start: Seq<u8>, stake: int, s: Seq<u8>, n: nat) -> Seq<PreSignedView>
    decreases n,
{
    if n == 0 {
        Seq::empty()
    } else {
        let prev = data_chain(start, stake, s, (n - 1) as nat);
        let from = if n == 1 { start } else { txid_of(prev.last().tx) };
        prev.push(link_view(from, stake - (n - 1) * FEE_AMOUNT, s, s))
    }
}

/// The post-assert: the payout-gating output gets the stake less the fee and
/// the dust that the disprove-gating output gets.
pub open spec fn post_assert_view(prev_txid: Seq<u8>, stake: int, s: Seq<u8>, a30: Seq<u8>, a31: Seq<u8>) -> PreSignedView {
    stage_view(
        seq![input_view(prev_txid, 0)],
        seq![output_view(stake, s)],
        seq![output_view(stake - FEE_AMOUNT - CONNECTOR_DUST, a30), output_view(CONNECTOR_DUST as int, a31)],
    )
}

/// The payout: spends the payout-gating output and the deposit, pays both less the fee to the operator.
pub open spec fn payout_view(
    post_txid: Seq<u8>,
    stake: int,
    deposit_txid: Seq<u8>,
    deposit_amount: int,
    a30: Seq<u8>,
    n_of_n: Seq<u8>,
    operator: Seq<u8>,
) -> PreSignedView {
    stage_view(
        seq![input_view(post_txid, 0), input_view(deposit_txid, 0)],
        seq![output_view(stake, a30), output_view(deposit_amount, n_of_n)],
        seq![output_view(stake + deposit_amount - FEE_AMOUNT, operator)],
    )
}

/// The disprove: spends both post-assert outputs and burns them less the fee.
/// The graph is signed before any challenge, when no challenger is known, so
/// this transaction cannot pay one: it slashes the operator's stake by
/// burning it in an `OP_RETURN` output. The challenger's reward is not part
/// of the pre-signed graph.
pub open spec fn disprove_view(post_txid: Seq<u8>, stake: int, a30: Seq<u8>, a31: Seq<u8>) -> PreSignedView {
    stage_view(
        seq![input_view(post_txid, 0), input_view(post_txid, 1)],
        seq![output_view(stake, a30), output_view(CONNECTOR_DUST as int, a31)],
        seq![output_view(stake + CONNECTOR_DUST - FEE_AMOUNT, burn_script())],
    )
}

proof fn lemma_total_one(a: TxOutputView)
    ensures
        total_value(seq![a]) == a.value,
{
    assert(seq![a].drop_last() =~= Seq::<TxOutputView>::empty());
    assert(total_value(Seq::<TxOutputView>::empty()) == 0);
    assert(seq![a].last() == a);
}

proof fn lemma_total_two(a: TxOutputView, b: TxOutputView)
    ensures
        total_value(seq![a, b]) == a.value + b.value,
{
    assert(seq![a, b].drop_last() =~= seq![a]);
    lemma_total_one(a);
}

fn new_input(txid: TxId, vout: u32) -> (r: TxInput)
    ensures
        r@ == input_view(txid@, vout),
{
    let r = TxInput {
        previous_output: OutPoint { txid, vout },
        script_sig: Vec::new(),
        sequence: SEQUENCE_MAX,
        witness: Vec::new(),
    };
    assert(r@.witness =~= Seq::<Seq<u8>>::empty());
    assert(r@.script_sig =~= Seq::<u8>::empty());
    r
}

fn one<T>(a: T) -> (r: Vec<T>)
    ensures
        r@ == seq![a],
{
    let mut r: Vec<T> = Vec::new();
    r.push(a);
    assert(r@ =~= seq![a]);
    r
}

fn two<T>(a: T, b: T) -> (r: Vec<T>)
    ensures
        r@ == seq![a, b],
{
    let mut r: Vec<T> = Vec::new();
    r.push(a);
    r.push(b);
    assert(r@ =~= seq![a, b]);
    r
}

fn stage(ins: Vec<TxInput>, prevs: Vec<TxOutput>, outs: Vec<TxOutput>) -> (r: PreSignedTx)
    ensures
        r@ == stage_view(
            ins@.map_values(|i: TxInput| i@),
            prevs@.map_values(|o: TxOutput| o@),
            outs@.map_values(|o: TxOutput| o@),
        ),
{
    PreSignedTx { tx: Tx { version: 2, lock_time: 0, input: ins, output: outs }, prev_outs: prevs }
}


/// What the kickoff spends: the operator's funding output.
#[derive(Debug)]
pub struct KickoffTxData {
    pub funding_outpoint: OutPoint,
    pub funding_prevout: TxOutput,
}

/// Builds the kickoff transaction.
pub fn build_kickoff(data: &KickoffTxData, k: &TaprootConnector) -> (r: PreSignedTx)
    requires
        data.funding_prevout.value >= FEE_AMOUNT,
    ensures
        r@ == kickoff_view(data.funding_outpoint@, data.funding_prevout@, k.script()),
        balanced(r@),
{
    let v = data.funding_prevout.value - FEE_AMOUNT;
    let out = TxOutput { value: v, script_pubkey: k.script_pubkey() };
    let r = stage(
        one(new_input(data.funding_outpoint.txid, data.funding_outpoint.vout)),
        one(data.funding_prevout.copy()),
        one(out),
    );
    proof {
        let w = kickoff_view(data.funding_outpoint@, data.funding_prevout@, k.script());
        assert(r@.tx.input =~= w.tx.input);
        assert(r@.tx.output =~= w.tx.output);
        assert(r@.prev_outs =~= w.prev_outs);
        lemma_total_one(w.tx.output[0]);
        lemma_total_one(w.prev_outs[0]);
    }
    r
}

/// Builds the claim transaction on output 0 of the kickoff.
pub fn build_claim(kickoff_txid: TxId, stake: u64, k: &TaprootConnector, c0: &TaprootConnector, c1: &TaprootConnector) -> (r: PreSignedTx)
    requires
        stake >= FEE_AMOUNT + CONNECTOR_DUST,
    ensures
        r@ == claim_view(kickoff_txid@, stake as int, k.script(), c0.script(), c1.script()),
        balanced(r@),
{
    let o0 = TxOutput { value: stake - FEE_AMOUNT - CONNECTOR_DUST, script_pubkey: c0.script_pubkey() };
    let o1 = TxOutput { value: CONNECTOR_DUST, script_pubkey: c1.script_pubkey() };
    let r = stage(
        one(new_input(kickoff_txid, 0)),
        one(TxOutput { value: stake, script_pubkey: k.script_pubkey() }),
        two(o0, o1),
    );
    proof {
        let w = claim_view(kickoff_txid@, stake as int, k.script(), c0.script(), c1.script());
        assert(r@.tx.input =~= w.tx.input);
        assert(r@.tx.output =~= w.tx.output);
        assert(r@.prev_outs =~= w.prev_outs);
        lemma_total_two(w.tx.output[0], w.tx.output[1]);
        lemma_total_one(w.prev_outs[0]);
    }
    r
}

/// Builds a one-input, one-output link of the assert chain on output 0 of `prev_txid`.
pub fn build_link(prev_txid: TxId, stake: u64, from: &TaprootConnector, to: &TaprootConnector) -> (r: PreSignedTx)
    requires
        stake >= FEE_AMOUNT,
    ensures
        r@ == link_view(prev_txid@, stake as int, from.script(), to.script()),
        balanced(r@),
{
    let r = stage(
        one(new_input(prev_txid, 0)),
        one(TxOutput { value: stake, script_pubkey: from.script_pubkey() }),
        one(TxOutput { value: stake - FEE_AMOUNT, script_pubkey: to.script_pubkey() }),
    );
    proof {
        let w = link_view(prev_txid@, stake as int, from.script(), to.script());
        assert(r@.tx.input =~= w.tx.input);
        assert(r@.tx.output =~= w.tx.output);
        assert(r@.prev_outs =~= w.prev_outs);
        lemma_total_one(w.tx.output[0]);
        lemma_total_one(w.prev_outs[0]);
    }
    r
}

/// Builds the post-assert transaction on output 0 of the last assert-data transaction.
pub fn build_post_assert(
    prev_txid: TxId,
    stake: u64,
    s: &TaprootConnector,
    a30: &TaprootConnector,
    a31: &TaprootConnector,
) -> (r: PreSignedTx)
    requires
        stake >= FEE_AMOUNT + CONNECTOR_DUST,
    ensures
        r@ == post_assert_view(prev_txid@, stake as int, s.script(), a30.script(), a31.script()),
        balanced(r@),
{
    let o0 = TxOutput { value: stake - FEE_AMOUNT - CONNECTOR_DUST, script_pubkey: a30.script_pubkey() };
    let o1 = TxOutput { value: CONNECTOR_DUST, script_pubkey: a31.script_pubkey() };
    let r = stage(
        one(new_input(prev_txid, 0)),
        one(TxOutput { value: stake, script_pubkey: s.script_pubkey() }),
        two(o0, o1),
    );
    proof {
        let w = post_assert_view(prev_txid@, stake as int, s.script(), a30.script(), a31.script());
        assert(r@.tx.input =~= w.tx.input);
        assert(r@.tx.output =~= w.tx.output);
        assert(r@.prev_outs =~= w.prev_outs);
        lemma_total_two(w.tx.output[0], w.tx.output[1]);
        lemma_total_one(w.prev_outs[0]);
    }
    r
}

/// Builds the payout transaction.
pub fn build_payout(
    post_txid: TxId,
    stake: u64,
    deposit_txid: TxId,
    deposit_amount: u64,
    a30: &TaprootConnector,
    n_of_n: &TaprootConnector,
    operator: &TaprootConnector,
) -> (r: PreSignedTx)
    requires
        stake + deposit_amount <= u64::MAX,
        stake + deposit_amount >= FEE_AMOUNT,
    ensures
        r@ == payout_view(post_txid@, stake as int, deposit_txid@, deposit_amount as int, a30.script(), n_of_n.script(), operator.script()),
        balanced(r@),
{
    let r = stage(
        two(new_input(post_txid, 0), new_input(deposit_txid, 0)),
        two(
            TxOutput { value: stake, script_pubkey: a30.script_pubkey() },
            TxOutput { value: deposit_amount, script_pubkey: n_of_n.script_pubkey() },
        ),
        one(TxOutput { value: stake + deposit_amount - FEE_AMOUNT, script_pubkey: operator.script_pubkey() }),
    );
    proof {
        let w = payout_view(post_txid@, stake as int, deposit_txid@, deposit_amount as int, a30.script(), n_of_n.script(), operator.script());
        assert(r@.tx.input =~= w.tx.input);
        assert(r@.tx.output =~= w.tx.output);
        assert(r@.prev_outs =~= w.prev_outs);
        lemma_total_one(w.tx.output[0]);
        lemma_total_two(w.prev_outs[0], w.prev_outs[1]);
    }
    r
}

/// Builds the disprove transaction, which burns the operator's stake (see
/// `disprove_view`).
pub fn build_disprove(post_txid: TxId, stake: u64, a30: &TaprootConnector, a31: &TaprootConnector) -> (r: PreSignedTx)
    requires
        stake + CONNECTOR_DUST <= u64::MAX,
        stake + CONNECTOR_DUST >= FEE_AMOUNT,
    ensures
        r@ == disprove_view(post_txid@, stake as int, a30.script(), a31.script()),
        balanced(r@),
{
    let mut burn: Vec<u8> = Vec::new();
    burn.push(0x6au8);
    assert(burn@ =~= burn_script());
    let r = stage(
        two(new_input(post_txid, 0), new_input(post_txid, 1)),
        two(
            TxOutput { value: stake, script_pubkey: a30.script_pubkey() },
            TxOutput { value: CONNECTOR_DUST, script_pubkey: a31.script_pubkey() },
        ),
        one(TxOutput { value: stake + CONNECTOR_DUST - FEE_AMOUNT, script_pubkey: burn }),
    );
    proof {
        let w = disprove_view(post_txid@, stake as int, a30.script(), a31.script());
        assert(r@.tx.input =~= w.tx.input);
        assert(r@.tx.output =~= w.tx.output);
        assert(r@.prev_outs =~= w.prev_outs);
        lemma_total_one(w.tx.output[0]);
        lemma_total_two(w.prev_outs[0], w.prev_outs[1]);
    }
    r
}


/// What the graph is built for.
#[derive(Debug)]
pub struct PegOutGraphInput {
    pub network: Network,
    /// The deposited amount that the payout reimburses, in satoshis.
    pub deposit_amount: u64,
    /// The operator's tweaked Taproot output key, where the payout goes.
    pub operator_pubkey: [u8; 32],
    pub kickoff_data: KickoffTxData,
}

/// The connectors that the graph's outputs are locked with.
#[derive(Debug)]
pub struct PegOutGraphConnectors {
    pub kickoff: TaprootConnector,
    pub claim_out_0: TaprootConnector,
    pub claim_out_1: TaprootConnector,
    /// The N-of-N stake connector; the deposit output is locked the same way.
    pub stake: TaprootConnector,
    pub post_assert_out_0: TaprootConnector,
    pub post_assert_out_1: TaprootConnector,
    pub assert_data160_factory: ConnectorA160Factory,
    pub assert_data256_factory: ConnectorA256Factory,
}

/// The pre-assert, one assert-data transaction per non-empty data connector,
/// and the post-assert.
#[derive(Debug)]
pub struct AssertChain {
    pub pre_assert: PreSignedTx,
    pub assert_data: Vec<PreSignedTx>,
    pub post_assert: PreSignedTx,
}

/// The graph of one deposit.
#[derive(Debug)]
pub struct PegOutGraph {
    pub kickoff_tx: PreSignedTx,
    pub claim_tx: PreSignedTx,
    pub assert_chain: AssertChain,
    pub payout_tx: PreSignedTx,
    pub disprove_tx: PreSignedTx,
}

pub struct GraphView {
    pub kickoff: PreSignedView,
    pub claim: PreSignedView,
    pub pre_assert: PreSignedView,
    pub assert_data: Seq<PreSignedView>,
    pub post_assert: PreSignedView,
    pub payout: PreSignedView,
    pub disprove: PreSignedView,
}

impl View for PegOutGraph {
    type V = GraphView;

    open spec fn view(&self) -> GraphView {
        GraphView {
            kickoff: self.kickoff_tx@,
            claim: self.claim_tx@,
            pre_assert: self.assert_chain.pre_assert@,
            assert_data: self.assert_chain.assert_data@.map_values(|t: PreSignedTx| t@),
            post_assert: self.assert_chain.post_assert@,
            payout: self.payout_tx@,
            disprove: self.disprove_tx@,
        }
    }
}

/// Every transaction of the graph balances.
pub open spec fn graph_balanced(g: GraphView) -> bool {
    &&& balanced(g.kickoff)
    &&& balanced(g.claim)
    &&& balanced(g.pre_assert)
    &&& forall|i: int| 0 <= i < g.assert_data.len() ==> balanced(#[trigger] g.assert_data[i])
    &&& balanced(g.post_assert)
    &&& balanced(g.payout)
    &&& balanced(g.disprove)
}

/// Connectors for `len` keys in batches of `size`: the full ones and a
/// remainder one if any key is left.
pub open spec fn connector_count(len: nat, size: nat) -> nat {
    len / size + if len % size > 0 { 1nat } else { 0nat }
}

/// How many assert-data transactions the chain holds.
pub open spec fn data_count(c: PegOutGraphConnectors) -> nat {
    connector_count(c.assert_data256_factory.public_keys@.len(), c.assert_data256_factory.n_public_keys_per_connector as nat)
        + connector_count(c.assert_data160_factory.public_keys@.len(), c.assert_data160_factory.n_public_keys_per_connector as nat)
}

/// The factory error that stops the graph, the 256-bit factory checked first.
pub open spec fn factory_error(c: PegOutGraphConnectors) -> Option<ConnectorError> {
    let f256 = c.assert_data256_factory;
    let f160 = c.assert_data160_factory;
    let e256 = partition_error(f256.public_keys@.len(), f256.n_public_keys_per_connector as nat, f256.n_public_keys as nat);
    let e160 = partition_error(f160.public_keys@.len(), f160.n_public_keys_per_connector as nat, f160.n_public_keys as nat);
    if e256 is Some { e256 } else { e160 }
}

/// The funding that a graph with `n` assert-data transactions needs: every
/// stage's fee, both dust outputs, and one more fee left as stake at the end.
pub open spec fn required_funding(n: nat) -> int {
    (5 + n) * FEE_AMOUNT + 2 * CONNECTOR_DUST
}

/// The stake that reaches the payout and disprove transactions.
pub open spec fn final_stake(funding: int, n: nat) -> int {
    funding - (4 + n) * FEE_AMOUNT - 2 * CONNECTOR_DUST
}

/// The graph that the assembler builds.
pub open spec fn graph_view(input: PegOutGraphInput, deposit_txid: Seq<u8>, c: PegOutGraphConnectors) -> GraphView {
    let n = data_count(c);
    let funding = input.kickoff_data.funding_prevout.value as int;
    let kickoff = kickoff_view(input.kickoff_data.funding_outpoint@, input.kickoff_data.funding_prevout@, c.kickoff.script());
    let claim = claim_view(txid_of(kickoff.tx), funding - FEE_AMOUNT, c.kickoff.script(), c.claim_out_0.script(), c.claim_out_1.script());
    let pre_stake = funding - 2 * FEE_AMOUNT - CONNECTOR_DUST;
    let pre_assert = link_view(txid_of(claim.tx), pre_stake, c.claim_out_0.script(), c.stake.script());
    let data = data_chain(txid_of(pre_assert.tx), pre_stake - FEE_AMOUNT, c.stake.script(), n);
    let last = if n == 0 { txid_of(pre_assert.tx) } else { txid_of(data.last().tx) };
    let post_assert = post_assert_view(last, pre_stake - (1 + n) * FEE_AMOUNT, c.stake.script(), c.post_assert_out_0.script(), c.post_assert_out_1.script());
    let stake = final_stake(funding, n);
    GraphView {
        kickoff,
        claim,
        pre_assert,
        assert_data: data,
        post_assert,
        payout: payout_view(
            txid_of(post_assert.tx),
            stake,
            deposit_txid,
            input.deposit_amount as int,
            c.post_assert_out_0.script(),
            c.stake.script(),
            p2tr_script(input.operator_pubkey@),
        ),
        disprove: disprove_view(txid_of(post_assert.tx), stake, c.post_assert_out_0.script(), c.post_assert_out_1.script()),
    }
}

/// Why a graph could not be built.
#[derive(Clone, Copy, Debug, PartialEq, Eq, Structural)]
pub enum GraphError {
    /// A data-connector factory could not partition its keys.
    Connector(ConnectorError),
    /// The funding output cannot pay every stage's fee.
    InsufficientFunding,
    /// The payout's total does not fit in 64 bits.
    AmountOverflow,
}

/// The outcome of assembling a graph, when it fails.
pub open spec fn generate_error(input: PegOutGraphInput, c: PegOutGraphConnectors) -> Option<GraphError> {
    let n = data_count(c);
    let funding = input.kickoff_data.funding_prevout.value as int;
    if factory_error(c) is Some {
        Some(GraphError::Connector(factory_error(c)->0))
    } else if funding < required_funding(n) {
        Some(GraphError::InsufficientFunding)
    } else if final_stake(funding, n) + input.deposit_amount > u64::MAX {
        Some(GraphError::AmountOverflow)
    } else {
        None
    }
}

fn count_connectors(len: usize, size: usize) -> (r: u128)
    requires
        size > 0,
    ensures
        r == connector_count(len as nat, size as nat),
{
    if len % size > 0 { (len / size) as u128 + 1 } else { (len / size) as u128 }
}

impl PegOutGraph {
    /// Builds the graph: kickoff, claim on the kickoff's id, the assert chain
    /// on the claim's id and remaining stake, then payout and disprove on the
    /// post-assert's id and remaining stake.
    pub fn generate(input: PegOutGraphInput, deposit_txid: TxId, connectors: PegOutGraphConnectors) -> (r: Result<PegOutGraph, GraphError>)
        ensures
            generate_error(input, connectors) matches Some(e) ==> r == Err::<PegOutGraph, GraphError>(e),
            generate_error(input, connectors) is None ==> (r matches Ok(g) && g@ == graph_view(input, deposit_txid@, connectors)),
            r matches Ok(g) ==> graph_balanced(g@),
    {
        let c = &connectors;
        match c.assert_data256_factory.create_connectors() {
            Err(e) => return Err(GraphError::Connector(e)),
            Ok(_) => {},
        }
        match c.assert_data160_factory.create_connectors() {
            Err(e) => return Err(GraphError::Connector(e)),
            Ok(_) => {},
        }
        let n = count_connectors(c.assert_data256_factory.public_keys.len(), c.assert_data256_factory.n_public_keys_per_connector)
            + count_connectors(c.assert_data160_factory.public_keys.len(), c.assert_data160_factory.n_public_keys_per_connector);
        let funding = input.kickoff_data.funding_prevout.value;
        if (funding as u128) < (5 + n) * (FEE_AMOUNT as u128) + 2 * (CONNECTOR_DUST as u128) {
            return Err(GraphError::InsufficientFunding);
        }
        let stake = funding - ((4 + n) * (FEE_AMOUNT as u128) + 2 * (CONNECTOR_DUST as u128)) as u64;
        if stake > u64::MAX - input.deposit_amount {
            return Err(GraphError::AmountOverflow);
        }
        let ghost g = graph_view(input, deposit_txid@, connectors);

        let kickoff_tx = build_kickoff(&input.kickoff_data, &c.kickoff);
        let kickoff_txid = compute_txid(&kickoff_tx.tx);
        let claim_tx = build_claim(kickoff_txid, funding - FEE_AMOUNT, &c.kickoff, &c.claim_out_0, &c.claim_out_1);
        let claim_txid = compute_txid(&claim_tx.tx);
        let pre_stake = funding - 2 * FEE_AMOUNT - CONNECTOR_DUST;
        let pre_assert = build_link(claim_txid, pre_stake, &c.claim_out_0, &c.stake);
        let pre_txid = compute_txid(&pre_assert.tx);

        let mut data: Vec<PreSignedTx> = Vec::new();
        let mut prev = pre_txid;
        let mut link_stake = pre_stake - FEE_AMOUNT;
        let mut i: u128 = 0;
        while i < n
            invariant
                i <= n,
                n == data_count(connectors),
                pre_stake - FEE_AMOUNT - n * FEE_AMOUNT >= FEE_AMOUNT + CONNECTOR_DUST,
                link_stake == pre_stake - FEE_AMOUNT - i * FEE_AMOUNT,
                data@.map_values(|t: PreSignedTx| t@) == data_chain(pre_txid@, pre_stake - FEE_AMOUNT, c.stake.script(), i as nat),
                forall|j: int| 0 <= j < data@.len() ==> balanced(#[trigger] data@[j]@),
                i == 0 ==> prev@ == pre_txid@,
                i > 0 ==> prev@ == txid_of(data_chain(pre_txid@, pre_stake - FEE_AMOUNT, c.stake.script(), i as nat).last().tx),
            decreases n - i,
        {
            let link = build_link(prev, link_stake, &c.stake, &c.stake);
            prev = compute_txid(&link.tx);
            let ghost before = data@;
            data.push(link);
            proof {
                assert(data@.map_values(|t: PreSignedTx| t@) =~= before.map_values(|t: PreSignedTx| t@).push(link@));
            }
            link_stake = link_stake - FEE_AMOUNT;
            i = i + 1;
        }
        let post_assert = build_post_assert(prev, link_stake, &c.stake, &c.post_assert_out_0, &c.post_assert_out_1);
        let post_txid = compute_txid(&post_assert.tx);
        let final_stake_value = link_stake - FEE_AMOUNT - CONNECTOR_DUST;
        let operator = TaprootConnector { network: input.network, output_key: input.operator_pubkey };
        let payout_tx = build_payout(post_txid, final_stake_value, deposit_txid, input.deposit_amount, &c.post_assert_out_0, &c.stake, &operator);
        let disprove_tx = build_disprove(post_txid, final_stake_value, &c.post_assert_out_0, &c.post_assert_out_1);
        let r = PegOutGraph {
            kickoff_tx,
            claim_tx,
            assert_chain: AssertChain { pre_assert, assert_data: data, post_assert },
            payout_tx,
            disprove_tx,
        };
        Ok(r)
    }
}


/// Assembling a graph twice from the same input, deposit and connectors gives
/// the same transactions, and so the same transaction ids.
pub proof fn lemma_generate_deterministic(
    input: PegOutGraphInput,
    deposit_txid: Seq<u8>,
    c: PegOutGraphConnectors,
    g1: GraphView,
    g2: GraphView,
)
    requires
        g1 == graph_view(input, deposit_txid, c),
        g2 == graph_view(input, deposit_txid, c),
    ensures
        g1 == g2,
        txid_of(g1.kickoff.tx) == txid_of(g2.kickoff.tx),
        txid_of(g1.claim.tx) == txid_of(g2.claim.tx),
        txid_of(g1.post_assert.tx) == txid_of(g2.post_assert.tx),
        txid_of(g1.payout.tx) == txid_of(g2.payout.tx),
        txid_of(g1.disprove.tx) == txid_of(g2.disprove.tx),
{
}

/// The tweaked output keys of the key-path connectors.
#[derive(Clone, Copy, Debug)]
pub struct ConnectorKeys {
    pub kickoff: [u8; 32],
    pub claim_out_0: [u8; 32],
    pub claim_out_1: [u8; 32],
    pub stake: [u8; 32],
    pub post_assert_out_0: [u8; 32],
    pub post_assert_out_1: [u8; 32],
}

/// How many one-time keys the data connectors hold in all and per connector.
#[derive(Clone, Copy, Debug)]
pub struct ConnectorParams {
    pub n_pks_a256: usize,
    pub n_pks_a256_per_connector: usize,
    pub n_pks_a160: usize,
    pub n_pks_a160_per_connector: usize,
}

/// Why the connectors of a graph could not be assembled.
#[derive(Clone, Copy, Debug, PartialEq, Eq, Structural)]
pub enum ConnectorSetupError {
    /// The store holds no one-time keys for the operator and deposit.
    Store(StoreError),
    /// The public-input key group is empty, so it has no superblock-hash key.
    MissingSuperblockKey,
}

impl PegOutGraphConnectors {
    /// The connectors of the graph of `deposit_txid` for `operator_idx`, with
    /// the one-time keys read from `db`. The superblock-hash key, the last of
    /// the public-input group, goes in front of the 256-bit keys.
    pub fn new<Db: ConnectorDb>(
        db: &Db,
        network: Network,
        keys: &ConnectorKeys,
        params: &ConnectorParams,
        deposit_txid: TxId,
        operator_idx: u32,
    ) -> (r: Result<PegOutGraphConnectors, ConnectorSetupError>)
        requires
            db.wf(),
        ensures
            !db.public_keys().contains_key(deposit_key(operator_idx, deposit_txid@))
                ==> r == Err::<PegOutGraphConnectors, ConnectorSetupError>(ConnectorSetupError::Store(StoreError::NotFound)),
            db.public_keys().contains_key(deposit_key(operator_idx, deposit_txid@)) ==> {
                let stored = db.public_keys()[deposit_key(operator_idx, deposit_txid@)];
                &&& stored.0.len() == 0 ==> r == Err::<PegOutGraphConnectors, ConnectorSetupError>(ConnectorSetupError::MissingSuperblockKey)
                &&& stored.0.len() > 0 ==> (r matches Ok(c) && {
                    &&& keys_view(c.assert_data256_factory.public_keys@) == seq![stored.0.last()] + stored.1
                    &&& keys_view(c.assert_data160_factory.public_keys@) == stored.2
                    &&& c.assert_data256_factory.network == network
                    &&& c.assert_data160_factory.network == network
                    &&& c.assert_data256_factory.n_public_keys == params.n_pks_a256
                    &&& c.assert_data256_factory.n_public_keys_per_connector == params.n_pks_a256_per_connector
                    &&& c.assert_data160_factory.n_public_keys == params.n_pks_a160
                    &&& c.assert_data160_factory.n_public_keys_per_connector == params.n_pks_a160_per_connector
                    &&& c.kickoff == (TaprootConnector { network, output_key: keys.kickoff })
                    &&& c.claim_out_0 == (TaprootConnector { network, output_key: keys.claim_out_0 })
                    &&& c.claim_out_1 == (TaprootConnector { network, output_key: keys.claim_out_1 })
                    &&& c.stake == (TaprootConnector { network, output_key: keys.stake })
                    &&& c.post_assert_out_0 == (TaprootConnector { network, output_key: keys.post_assert_out_0 })
                    &&& c.post_assert_out_1 == (TaprootConnector { network, output_key: keys.post_assert_out_1 })
                })
            },
    {
        let stored = match db.get_wots_public_keys(operator_idx, deposit_txid) {
            Ok(k) => k,
            Err(e) => return Err(ConnectorSetupError::Store(e)),
        };
        let n_inputs = stored.public_inputs.len();
        if n_inputs == 0 {
            return Err(ConnectorSetupError::MissingSuperblockKey);
        }
        let mut keys_256: Vec<ProofElementKey> = Vec::new();
        keys_256.push(stored.public_inputs[n_inputs - 1].copy());
        let mut i: usize = 0;
        while i < stored.keys_256.len()
            invariant
                i <= stored.keys_256@.len(),
                keys_view(keys_256@) == seq![stored.public_inputs@[n_inputs - 1]@] + keys_view(stored.keys_256@).subrange(0, i as int),
            decreases stored.keys_256@.len() - i,
        {
            let k = stored.keys_256[i].copy();
            let ghost before = keys_256@;
            keys_256.push(k);
            proof {
                assert(keys_view(keys_256@) =~= keys_view(before).push(stored.keys_256@[i as int]@));
            }
            i = i + 1;
            assert(keys_view(keys_256@) =~= seq![stored.public_inputs@[n_inputs - 1]@] + keys_view(stored.keys_256@).subrange(0, i as int));
        }
        assert(keys_view(stored.keys_256@).subrange(0, i as int) =~= keys_view(stored.keys_256@));
        let keys_160 = copy_keys(&stored.keys_160, 0, stored.keys_160.len());
        assert(keys_view(stored.keys_160@).subrange(0, stored.keys_160@.len() as int) =~= keys_view(stored.keys_160@));
        Ok(PegOutGraphConnectors {
            kickoff: TaprootConnector { network, output_key: keys.kickoff },
            claim_out_0: TaprootConnector { network, output_key: keys.claim_out_0 },
            claim_out_1: TaprootConnector { network, output_key: keys.claim_out_1 },
            stake: TaprootConnector { network, output_key: keys.stake },
            post_assert_out_0: TaprootConnector { network, output_key: keys.post_assert_out_0 },
            post_assert_out_1: TaprootConnector { network, output_key: keys.post_assert_out_1 },
            assert_data160_factory: ConnectorA160Factory {
                network,
                n_public_keys_per_connector: params.n_pks_a160_per_connector,
                n_public_keys: params.n_pks_a160,
                public_keys: keys_160,
            },
            assert_data256_factory: ConnectorA256Factory {
                network,
                n_public_keys_per_connector: params.n_pks_a256_per_connector,
                n_public_keys: params.n_pks_a256,
                public_keys: keys_256,
            },
        })
    }
}

} // verus!
