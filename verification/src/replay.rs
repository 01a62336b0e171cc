//! The sequencing of a block replay: what is done with the provider's answer,
//! which transaction the engine is handed next, and what becomes of one that
//! fails.

use vstd::prelude::*;
use vstd::string::StringExecFns;
use crate::environment::{
    block_context, block_context_spec, tx_env, tx_env_spec, BlockContext, BlockHeader,
    Transaction, TransactionView, TxEnv, TxEnvView,
};
use crate::error::ReplayError;
use crate::primitives::B256;
use crate::trace_inspector::{
    call_record, create_record, CallInfo, CallInfoView, CallInputs, CreateInputs,
    InspectorHelper, TraceInspector, TraceInspectorView,
};

verus! {

/// The transactions of a block, in the shapes in which a provider sends them.
#[derive(Clone, Debug, PartialEq, Eq)]
pub enum BlockTransactions {
    Full(Vec<Transaction>),
    Hashes(Vec<B256>),
    Uncle,
}

/// A block as the provider sends it.
#[derive(Clone, Debug, PartialEq, Eq)]
pub struct Block {
    pub header: BlockHeader,
    pub transactions: BlockTransactions,
}

/// The provider's answer to the request for one block.
#[derive(Clone, Debug, PartialEq, Eq)]
pub enum FetchOutcome {
    Found(Block),
    NotFound,
    /// The request failed; the text is the provider's detail.
    Failed(String),
}

/// What the engine of one block is built from: the height at which the
/// provider's state is read, the block context and the chain.
#[derive(Clone, Debug, PartialEq, Eq)]
pub struct EngineSetup {
    pub state_height: u64,
    pub block: BlockContext,
    pub chain_id: u64,
}

/// A transaction that failed while it executed.
#[derive(Clone, Debug, PartialEq, Eq)]
pub struct TxFailure {
    pub tx_hash: B256,
    pub detail: String,
}

/// What the caller of the replay does next.
#[derive(Clone, Debug, PartialEq, Eq)]
pub enum Step {
    /// Run the engine on these parameters, then report how it ended.
    Execute(TxEnv),
    /// Every transaction has been run.
    Done,
}

/// The replay of one block: its transactions in block order, and how far the
/// replay has come.
#[derive(Debug)]
pub struct Replay {
    chain_id: u64,
    txs: Vec<Transaction>,
    next: usize,
    running: bool,
    failures: Vec<TxFailure>,
}

/// What is sent back for a request.
#[derive(Clone, Debug, PartialEq, Eq)]
pub enum Reply {
    /// The records of the block, to be sent as a list.
    Traces(Vec<CallInfo>),
    /// A fatal error, to be sent as plain text.
    InternalError(String),
}

pub struct TxFailureView {
    pub tx_hash: Seq<u8>,
    pub detail: Seq<char>,
}

pub enum StepView {
    Execute(TxEnvView),
    Done,
}

/// A replay as plain values.
pub struct ReplayView {
    pub chain_id: u64,
    pub txs: Seq<TransactionView>,
    /// How many transactions have been run to their end.
    pub next: nat,
    /// Whether the transaction at `next` has been handed out and not yet
    /// reported.
    pub running: bool,
    pub failures: Seq<TxFailureView>,
}

impl View for TxFailure {
    type V = TxFailureView;

    open spec fn view(&self) -> TxFailureView {
        TxFailureView { tx_hash: self.tx_hash@, detail: self.detail@ }
    }
}

impl View for Step {
    type V = StepView;

    open spec fn view(&self) -> StepView {
        match self {
            Step::Execute(env) => StepView::Execute(env@),
            Step::Done => StepView::Done,
        }
    }
}

/// The transactions of a list, each as plain values.
pub open spec fn transactions_view(txs: Seq<Transaction>) -> Seq<TransactionView> {
    txs.map_values(|tx: Transaction| tx@)
}

/// The failures of a list, each as plain values.
pub open spec fn failures_view(failures: Seq<TxFailure>) -> Seq<TxFailureView> {
    failures.map_values(|failure: TxFailure| failure@)
}

/// How an execution ended, as plain values.
pub open spec fn outcome_view(outcome: Result<(), String>) -> Result<(), Seq<char>> {
    match outcome {
        Ok(_) => Ok(()),
        Err(detail) => Err(detail@),
    }
}

impl ReplayView {
    /// The replay of `txs` before any of them has been run.
    pub open spec fn start(chain_id: u64, txs: Seq<TransactionView>) -> ReplayView {
        ReplayView { chain_id, txs, next: 0, running: false, failures: Seq::empty() }
    }

    pub open spec fn has_next(self) -> bool {
        self.next < self.txs.len()
    }

    /// The step that is handed out next.
    pub open spec fn step(self) -> StepView {
        if self.has_next() {
            StepView::Execute(tx_env_spec(self.txs[self.next as int], self.chain_id))
        } else {
            StepView::Done
        }
    }

    /// The replay once that step has been handed out.
    pub open spec fn begin(self) -> ReplayView {
        if self.has_next() {
            ReplayView { running: true, ..self }
        } else {
            self
        }
    }

    /// The observer once that step has been handed out: it tags what follows
    /// with the transaction of the step.
    pub open spec fn tag(self, inspector: TraceInspectorView) -> TraceInspectorView {
        if self.has_next() {
            inspector.after_set_tx(self.txs[self.next as int].hash)
        } else {
            inspector
        }
    }

    /// The replay once the engine has reported how the transaction that was
    /// handed out ended. A failure is noted, and the replay moves on all the
    /// same. With no transaction handed out, nothing changes.
    pub open spec fn finish(self, outcome: Result<(), Seq<char>>) -> ReplayView {
        if self.running && self.has_next() {
            ReplayView {
                next: self.next + 1,
                running: false,
                failures: match outcome {
                    Ok(_) => self.failures,
                    Err(detail) => self.failures.push(
                        TxFailureView { tx_hash: self.txs[self.next as int].hash, detail },
                    ),
                },
                ..self
            }
        } else {
            self
        }
    }
}

impl View for Replay {
    type V = ReplayView;

    closed spec fn view(&self) -> ReplayView {
        ReplayView {
            chain_id: self.chain_id,
            txs: transactions_view(self.txs@),
            next: self.next as nat,
            running: self.running,
            failures: failures_view(self.failures@),
        }
    }
}

/// Decides what to do with the provider's answer for the block at
/// `block_number`. A block that came with its transactions in full gives the
/// engine's setup, with the state read one block earlier, and a replay that
/// has run nothing yet; so a block that was found is not the one at height
/// zero, before which there is no state. Any other answer is an error at
/// every height.
pub fn plan_replay(block_number: u64, chain_id: u64, fetched: FetchOutcome) -> (plan: Result<
    (EngineSetup, Replay),
    ReplayError,
>)
    requires
        fetched is Found ==> block_number >= 1,
    ensures
        match fetched {
            FetchOutcome::NotFound => plan matches Err(e) && e == ReplayError::BlockNotFound,
            FetchOutcome::Failed(detail) => plan matches Err(e) && e == ReplayError::Provider(
                detail,
            ),
            FetchOutcome::Found(block) => match block.transactions {
                BlockTransactions::Full(txs) => {
                    &&& plan matches Ok((setup, replay))
                    &&& setup.state_height == block_number - 1
                    &&& setup.block == block_context_spec(block.header)
                    &&& setup.chain_id == chain_id
                    &&& replay@ == ReplayView::start(chain_id, transactions_view(txs@))
                },
                _ => plan matches Err(e) && e == ReplayError::MalformedBlockPayload,
            },
        },
{
    let block = match fetched {
        FetchOutcome::Found(block) => block,
        FetchOutcome::NotFound => {
            return Err(ReplayError::BlockNotFound);
        },
        FetchOutcome::Failed(detail) => {
            return Err(ReplayError::Provider(detail));
        },
    };
    let setup = EngineSetup {
        state_height: block_number - 1,
        block: block_context(&block.header),
        chain_id,
    };
    let txs = match block.transactions {
        BlockTransactions::Full(txs) => txs,
        _ => {
            return Err(ReplayError::MalformedBlockPayload);
        },
    };
    let replay = Replay { chain_id, txs, next: 0, running: false, failures: Vec::new() };
    assert(replay@.failures =~= Seq::empty());
    Ok((setup, replay))
}

impl Replay {
    /// Hands out the next transaction of the block, and tells the observer
    /// which one it is. Asked again before the outcome is reported, it hands
    /// out the same one.
    pub fn begin_next(&mut self, inspector: &mut TraceInspector) -> (step: Step)
        ensures
            final(self)@ == old(self)@.begin(),
            final(inspector)@ == old(self)@.tag(old(inspector)@),
            step@ == old(self)@.step(),
    {
        if self.next < self.txs.len() {
            let env = tx_env(&self.txs[self.next], self.chain_id);
            inspector.set_tx(self.txs[self.next].hash);
            self.running = true;
            Step::Execute(env)
        } else {
            Step::Done
        }
    }

    /// Takes the engine's report on the transaction that was handed out.
    pub fn finish(&mut self, outcome: Result<(), String>)
        ensures
            final(self)@ == old(self)@.finish(outcome_view(outcome)),
    {
        if self.running && self.next < self.txs.len() {
            match outcome {
                Ok(_) => {},
                Err(detail) => {
                    let failure = TxFailure { tx_hash: self.txs[self.next].hash, detail };
                    self.failures.push(failure);
                    assert(failures_view(self.failures@) =~= failures_view(
                        old(self).failures@,
                    ).push(failure@));
                },
            }
            self.running = false;
            self.next = self.next + 1;
        }
    }

    /// Whether every transaction has been run to its end.
    pub fn is_done(&self) -> (done: bool)
        ensures
            done == !self@.has_next(),
    {
        self.next >= self.txs.len()
    }

    /// The transactions that failed so far, in block order.
    pub fn failures(&self) -> (list: &Vec<TxFailure>)
        ensures
            failures_view(list@) == self@.failures,
    {
        &self.failures
    }
}

impl Reply {
    /// The status code that the reply is sent with.
    pub open spec fn status_spec(&self) -> u16 {
        match self {
            Reply::Traces(_) => 200,
            Reply::InternalError(_) => 500,
        }
    }

    pub fn status(&self) -> (code: u16)
        ensures
            code == self.status_spec(),
    {
        match self {
            Reply::Traces(_) => 200,
            Reply::InternalError(_) => 500,
        }
    }
}

/// The reply to a request that could not be served: the detail behind a
/// fixed opening.
pub fn internal_error(detail: &str) -> (reply: Reply)
    ensures
        reply matches Reply::InternalError(body) && body@ == "Something went wrong: "@ + detail@,
{
    Reply::InternalError(String::from_str("Something went wrong: ").concat(detail))
}

/// The reply to a request: the records where the replay came to its end, and
/// the error's text behind the fixed opening where it did not.
pub fn respond(result: Result<Vec<CallInfo>, ReplayError>) -> (reply: Reply)
    ensures
        match result {
            Ok(traces) => reply matches Reply::Traces(list) && list == traces,
            Err(error) => reply matches Reply::InternalError(body) && body@
                == "Something went wrong: "@ + error.message_spec(),
        },
{
    match result {
        Ok(traces) => Reply::Traces(traces),
        Err(error) => {
            let detail = error.message();
            internal_error(detail.as_str())
        },
    }
}

/// One observation that the engine hands to the observer: a call, or a
/// creation together with the creator's nonce at that moment.
pub enum Hook {
    Call(CallInputs),
    Create(CreateInputs, u64),
}

/// What the engine did with one transaction: the observations it made, in
/// order, up to the end or to the failure, and how the execution ended.
pub struct TxRun {
    pub hooks: Seq<Hook>,
    pub outcome: Result<(), Seq<char>>,
}

/// A replay together with its observer.
pub struct ReplayState {
    pub replay: ReplayView,
    pub inspector: TraceInspectorView,
}

/// The record of one observation made while `tx_hash` runs.
pub open spec fn hook_record(tx_hash: Seq<u8>, hook: Hook) -> CallInfoView {
    match hook {
        Hook::Call(inputs) => call_record(tx_hash, &inputs),
        Hook::Create(inputs, nonce) => create_record(tx_hash, &inputs, nonce),
    }
}

/// The trace list of one transaction by itself.
pub open spec fn tx_records(tx_hash: Seq<u8>, hooks: Seq<Hook>) -> Seq<CallInfoView> {
    hooks.map_values(|hook: Hook| hook_record(tx_hash, hook))
}

/// The trace lists of the first transactions of `txs`, one for each run, one
/// after the other.
pub open spec fn block_records(txs: Seq<TransactionView>, runs: Seq<TxRun>) -> Seq<CallInfoView> {
    Seq::new(runs.len(), |k: int| tx_records(txs[k].hash, runs[k].hooks)).flatten()
}

/// The failures among the first transactions of `txs`, one run for each.
pub open spec fn block_failures(txs: Seq<TransactionView>, runs: Seq<TxRun>) -> Seq<TxFailureView>
    decreases runs.len(),
{
    if runs.len() == 0 {
        Seq::empty()
    } else {
        let earlier = block_failures(txs, runs.drop_last());
        match runs.last().outcome {
            Ok(_) => earlier,
            Err(detail) => earlier.push(
                TxFailureView { tx_hash: txs[runs.len() - 1].hash, detail },
            ),
        }
    }
}

/// The observer after one observation.
pub open spec fn after_hook(inspector: TraceInspectorView, hook: Hook) -> TraceInspectorView {
    match hook {
        Hook::Call(inputs) => inspector.after_call(&inputs),
        Hook::Create(inputs, nonce) => inspector.after_create(&inputs, nonce),
    }
}

/// The observer after a sequence of observations.
pub open spec fn after_hooks(inspector: TraceInspectorView, hooks: Seq<Hook>) -> TraceInspectorView
    decreases hooks.len(),
{
    if hooks.len() == 0 {
        inspector
    } else {
        after_hook(after_hooks(inspector, hooks.drop_last()), hooks.last())
    }
}

/// Replay and observer after one turn: the next transaction is handed out,
/// the engine makes its observations, and its outcome is reported.
pub open spec fn after_tx(state: ReplayState, run: TxRun) -> ReplayState {
    ReplayState {
        replay: state.replay.begin().finish(run.outcome),
        inspector: after_hooks(state.replay.tag(state.inspector), run.hooks),
    }
}

/// Replay and observer after one turn for each of `runs`.
pub open spec fn after_block(state: ReplayState, runs: Seq<TxRun>) -> ReplayState
    decreases runs.len(),
{
    if runs.len() == 0 {
        state
    } else {
        after_tx(after_block(state, runs.drop_last()), runs.last())
    }
}

proof fn lemma_after_hooks(inspector: TraceInspectorView, hooks: Seq<Hook>)
    ensures
        after_hooks(inspector, hooks).cur_tx_hash == inspector.cur_tx_hash,
        after_hooks(inspector, hooks).traces == inspector.traces + tx_records(
            inspector.cur_tx_hash,
            hooks,
        ),
    decreases hooks.len(),
{
    if hooks.len() > 0 {
        lemma_after_hooks(inspector, hooks.drop_last());
        assert(tx_records(inspector.cur_tx_hash, hooks) =~= tx_records(
            inspector.cur_tx_hash,
            hooks.drop_last(),
        ).push(hook_record(inspector.cur_tx_hash, hooks.last())));
    }
    assert(after_hooks(inspector, hooks).traces =~= inspector.traces + tx_records(
        inspector.cur_tx_hash,
        hooks,
    ));
}

proof fn lemma_block_records_step(txs: Seq<TransactionView>, runs: Seq<TxRun>)
    requires
        runs.len() > 0,
    ensures
        block_records(txs, runs) == block_records(txs, runs.drop_last()) + tx_records(
            txs[runs.len() - 1].hash,
            runs.last().hooks,
        ),
{
    let earlier = runs.drop_last();
    let all = Seq::new(runs.len(), |k: int| tx_records(txs[k].hash, runs[k].hooks));
    let most = Seq::new(earlier.len(), |k: int| tx_records(txs[k].hash, earlier[k].hooks));
    let last = tx_records(txs[runs.len() - 1].hash, runs.last().hooks);
    assert(all =~= most.push(last));
    most.lemma_flatten_push(last);
}

proof fn lemma_after_block(replay: ReplayView, inspector: TraceInspectorView, runs: Seq<TxRun>)
    requires
        replay.next == 0,
        !replay.running,
        runs.len() <= replay.txs.len(),
    ensures
        after_block(ReplayState { replay, inspector }, runs).replay == (ReplayView {
            next: runs.len(),
            failures: replay.failures + block_failures(replay.txs, runs),
            ..replay
        }),
        after_block(ReplayState { replay, inspector }, runs).inspector.traces == inspector.traces
            + block_records(replay.txs, runs),
    decreases runs.len(),
{
    let start = ReplayState { replay, inspector };
    if runs.len() == 0 {
        assert(replay.failures + block_failures(replay.txs, runs) =~= replay.failures);
        assert(Seq::new(runs.len(), |k: int| tx_records(replay.txs[k].hash, runs[k].hooks))
            =~= Seq::<Seq<CallInfoView>>::empty());
        assert(inspector.traces + block_records(replay.txs, runs) =~= inspector.traces);
    } else {
        let earlier = runs.drop_last();
        lemma_after_block(replay, inspector, earlier);
        let mid = after_block(start, earlier);
        let tagged = mid.replay.tag(mid.inspector);
        lemma_after_hooks(tagged, runs.last().hooks);
        lemma_block_records_step(replay.txs, runs);
        let end = after_block(start, runs);
        assert(end.replay.failures =~= replay.failures + block_failures(replay.txs, runs));
        assert(end.inspector.traces =~= inspector.traces + block_records(replay.txs, runs));
    }
}

/// Where no transaction of a block fails, the trace list of the block is the
/// trace lists of its transactions, one after the other in block order, each
/// record tagged with its own transaction.
pub proof fn law_traces_concatenate(chain_id: u64, txs: Seq<TransactionView>, runs: Seq<TxRun>)
    requires
        runs.len() == txs.len(),
        forall|k: int| 0 <= k < runs.len() ==> (#[trigger] runs[k]).outcome is Ok,
    ensures
        after_block(
            ReplayState {
                replay: ReplayView::start(chain_id, txs),
                inspector: TraceInspectorView::initial(),
            },
            runs,
        ).inspector.traces == block_records(txs, runs),
        !after_block(
            ReplayState {
                replay: ReplayView::start(chain_id, txs),
                inspector: TraceInspectorView::initial(),
            },
            runs,
        ).replay.has_next(),
{
    let replay = ReplayView::start(chain_id, txs);
    let inspector = TraceInspectorView::initial();
    lemma_after_block(replay, inspector, runs);
    assert(inspector.traces + block_records(txs, runs) =~= block_records(txs, runs));
}

/// A transaction that fails stops nothing: every transaction of the block is
/// still run in its turn, the records made before a failure stay, those of
/// the later transactions follow them, and each failure is noted.
pub proof fn law_failures_are_isolated(chain_id: u64, txs: Seq<TransactionView>, runs: Seq<TxRun>)
    requires
        runs.len() == txs.len(),
    ensures
        after_block(
            ReplayState {
                replay: ReplayView::start(chain_id, txs),
                inspector: TraceInspectorView::initial(),
            },
            runs,
        ).inspector.traces == block_records(txs, runs),
        after_block(
            ReplayState {
                replay: ReplayView::start(chain_id, txs),
                inspector: TraceInspectorView::initial(),
            },
            runs,
        ).replay == (ReplayView {
            next: txs.len(),
            failures: block_failures(txs, runs),
            ..ReplayView::start(chain_id, txs)
        }),
{
    let replay = ReplayView::start(chain_id, txs);
    let inspector = TraceInspectorView::initial();
    lemma_after_block(replay, inspector, runs);
    assert(inspector.traces + block_records(txs, runs) =~= block_records(txs, runs));
    assert(replay.failures + block_failures(txs, runs) =~= block_failures(txs, runs));
}

/// Two replays of one block in which the engine makes the same observations
/// end with the same trace list, however the executions are reported to
/// have ended.
pub proof fn law_replay_repeats(
    chain_id: u64,
    txs: Seq<TransactionView>,
    first: Seq<TxRun>,
    second: Seq<TxRun>,
)
    requires
        first.len() == txs.len(),
        second.len() == txs.len(),
        forall|k: int| 0 <= k < txs.len() ==> first[k].hooks == second[k].hooks,
    ensures
        after_block(
            ReplayState {
                replay: ReplayView::start(chain_id, txs),
                inspector: TraceInspectorView::initial(),
            },
            first,
        ).inspector.traces == after_block(
            ReplayState {
                replay: ReplayView::start(chain_id, txs),
                inspector: TraceInspectorView::initial(),
            },
            second,
        ).inspector.traces,
{
    law_failures_are_isolated(chain_id, txs, first);
    law_failures_are_isolated(chain_id, txs, second);
    assert(Seq::new(first.len(), |k: int| tx_records(txs[k].hash, first[k].hooks)) =~= Seq::new(
        second.len(),
        |k: int| tx_records(txs[k].hash, second[k].hooks),
    ));
}

} // verus!
