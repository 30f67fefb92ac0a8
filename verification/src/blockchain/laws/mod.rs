//! What holds of the chain engine whatever the chain and the input: laws
//! proved of the step functions that the operations are specified by.
pub mod history;
pub mod nonce;
pub mod supply;
pub mod supply_block;
pub mod supply_tx;

use crate::blockchain::block::{
    block_body, block_entry, block_store, fees_sum, is_block_result, is_reward, is_undo_log,
    ordinary_txs, txs_fold, BlockState,
};
use crate::blockchain::fork_choice::{extended_power, will_extend_of};
use crate::blockchain::mempool::{draft_of, is_draft_result};
use crate::blockchain::model::{
    account_of, contract_account_of, height_of, next_reward_of, outdated_of, power_of, Config,
    Outcome,
};
use crate::blockchain::rollback::{rollback_step, undo_changes, undo_log_of, RollbackState};
use crate::blockchain::tx::{
    manager_writes, tx_step, zero_tx_receiver, zero_tx_sender, zero_tx_step,
};
use crate::blockchain::{BlockAndPatch, BlockchainError, Primitives, TransactionStats, TxSideEffect};
use crate::db::{last_write, lemma_apply_ops_get, Key, StoreView, ValueView, WriteOpView};
use crate::types::{
    Address, BlockView, ContractId, TransactionAndDeltaView, TransactionDataView, TransactionView,
};
use crate::zk::primitives::zk_ops;
use crate::zk::ZeroTransaction;
use vstd::prelude::*;

verus! {

/// Fork choice is by cumulative power: the answer is yes exactly when the
/// chain that the headers would make has strictly more cumulative power than
/// the current one.
pub proof fn lemma_fork_choice_by_power<P: Primitives>(
    cfg: Config,
    s: StoreView,
    from: u64,
    headers: Seq<crate::types::Header>,
    check_pow: bool,
)
    requires
        will_extend_of::<P>(cfg, s, from, headers, check_pow) is Ok,
    ensures
        extended_power::<P>(cfg, s, from, headers, check_pow) is Ok,
        power_of(s) is Ok,
        will_extend_of::<P>(cfg, s, from, headers, check_pow).unwrap() <==> extended_power::<P>(
            cfg,
            s,
            from,
            headers,
            check_pow,
        ).unwrap() > power_of(s).unwrap(),
{
}

/// A payment to oneself is never executed. If nothing else is wrong with
/// the transaction, the error says so.
pub proof fn lemma_self_payment_rejected<P: Primitives>(
    cfg: Config,
    s: StoreView,
    tx: TransactionView,
    allow_treasury: bool,
)
    requires
        tx.data matches TransactionDataView::RegularSend { dst, .. } && dst == tx.src,
    ensures
        tx_step::<P>(cfg, s, tx, allow_treasury) is Err,
        account_of(cfg, s, tx.src) matches Ok(sender) && (tx.src != Address::Treasury
            || allow_treasury) && tx.nonce == sender.nonce + 1 && sender.balance >= tx.fee
            ==> tx_step::<P>(cfg, s, tx, allow_treasury) == Err::<(StoreView, TxSideEffect), _>(
            BlockchainError::SelfPaymentNotAllowed,
        ),
{
}

/// The first transaction of an accepted block after the genesis block is
/// the reward: it pays exactly the next reward of the chain before the block
/// plus the fees of the other transactions of the block.
pub proof fn lemma_reward_correct<P: Primitives>(
    cfg: Config,
    s: StoreView,
    block: BlockView,
    check_pow: bool,
)
    requires
        block_body::<P>(cfg, s, block, check_pow) is Ok,
        block.header.number != 0,
    ensures
        block.body.len() > 0,
        next_reward_of(cfg, s) is Ok,
        is_reward(
            block.body[0],
            next_reward_of(cfg, s).unwrap() + fees_sum(
                block.body.subrange(1, block.body.len() as int),
                (block.body.len() - 1) as nat,
            ),
        ),
{
}

/// A transfer inside the payment network is only executed with the nonce of
/// the sending account. The account written for the sender has the next
/// nonce; the account written at the destination keeps its nonce.
pub proof fn lemma_zero_tx_nonce<P: Primitives>(cfg: Config, s: StoreView, tx: ZeroTransaction)
    requires
        zero_tx_step::<P>(cfg, s, tx) is Ok,
    ensures
        P::spec_get_mpn_account(s, cfg.mpn_contract_id, tx.src_index) matches Ok(src) && P::spec_get_mpn_account(
            s,
            cfg.mpn_contract_id,
            tx.dst_index,
        ) matches Ok(dst) && tx.nonce == src.nonce && zero_tx_sender(src, tx).nonce == src.nonce
            + 1 && zero_tx_receiver::<P>(dst, tx).nonce == dst.nonce,
{
}

/// A transfer inside the payment network with another nonce than that of
/// the sending account is refused.
pub proof fn lemma_zero_tx_wrong_nonce<P: Primitives>(cfg: Config, s: StoreView, tx: ZeroTransaction)
    requires
        P::spec_get_mpn_account(s, cfg.mpn_contract_id, tx.src_index) matches Ok(src) && tx.nonce
            != src.nonce,
        P::spec_get_mpn_account(s, cfg.mpn_contract_id, tx.dst_index) is Ok,
    ensures
        zero_tx_step::<P>(cfg, s, tx) == Err::<StoreView, _>(
            BlockchainError::InvalidZeroTransaction,
        ),
{
}

/// After a transaction that changes the state of a contract, the state
/// summary recorded for the contract's height is the contract's state
/// summary.
pub proof fn lemma_state_history<P: Primitives>(
    cfg: Config,
    s: StoreView,
    tx: TransactionView,
    allow_treasury: bool,
)
    requires
        tx_step::<P>(cfg, s, tx, allow_treasury) matches Ok((_, effect)) && effect is StateChange,
    ensures
        ({
            let (after, effect) = tx_step::<P>(cfg, s, tx, allow_treasury).unwrap();
            let contract_id = effect->contract_id;
            &&& contract_account_of(after, contract_id) matches Ok(account)
            &&& after.get(Key::CompressedStateAt(contract_id, account.height)) == Some(
                ValueView::CompressedState(account.compressed_state),
            )
            &&& account.compressed_state == effect->state_change.state
        }),
{
}


/// What the transactions of a block add up to, once the block is entered.
pub open spec fn block_progress<P: Primitives>(
    cfg: Config,
    s: StoreView,
    block: BlockView,
    check_pow: bool,
) -> Outcome<BlockState> {
    match block_entry::<P>(cfg, s, block, check_pow) {
        Err(e) => Err(e),
        Ok(entered) => match outdated_of(s) {
            Err(e) => Err(e),
            Ok(outdated) => txs_fold::<P>(
                cfg,
                block.header.number == 0,
                BlockState {
                    store: entered,
                    body_size: 0,
                    delta: 0,
                    updates: Seq::empty(),
                    outdated,
                    calls: 0,
                    payments: 0,
                },
                ordinary_txs(block),
                ordinary_txs(block).len(),
            ),
        },
    }
}

/// An accepted block respects the limits: the size of its transactions is
/// at most the largest block size, and the growth of the contract states is
/// at most the largest growth.
pub proof fn lemma_block_budget<P: Primitives>(
    cfg: Config,
    s: StoreView,
    block: BlockView,
    check_pow: bool,
)
    requires
        block_body::<P>(cfg, s, block, check_pow) is Ok,
    ensures
        block_progress::<P>(cfg, s, block, check_pow) matches Ok(done) && done.body_size
            <= cfg.max_block_size && done.delta <= cfg.max_delta_count,
{
}

/// A drafted block respects the limits on the size of its transactions and
/// on the growth of the contract states.
pub proof fn lemma_draft_budget<P: Primitives>(
    cfg: Config,
    s: StoreView,
    timestamp: u32,
    pool: Seq<(TransactionAndDeltaView, TransactionStats)>,
    address: Address,
    check: bool,
    r: Result<Option<BlockAndPatch>, BlockchainError>,
)
    requires
        is_draft_result::<P>(cfg, s, timestamp, pool, address, check, r),
        r matches Ok(Some(_)),
    ensures
        block_progress::<P>(cfg, s, r.unwrap().unwrap().block.deep_view(), false) matches Ok(done)
            && done.body_size <= cfg.max_block_size && done.delta <= cfg.max_delta_count,
{
    let draft = draft_of::<P>(cfg, s, timestamp, pool, address, check).unwrap();
    assert(r.unwrap().unwrap().deep_view() == draft);
    lemma_block_budget::<P>(cfg, s, draft.block, false);
}

/// Writes of the state manager do not reach the engine's keys.
pub proof fn lemma_manager_frame(s: StoreView, ops: Seq<WriteOpView>, k: Key)
    requires
        !k.is_zk(),
    ensures
        manager_writes(s, ops).get(k) == s.get(k),
{
    lemma_zk_ops_miss(ops, k);
    lemma_apply_ops_get(s, zk_ops(ops), k);
}

proof fn lemma_zk_ops_miss(ops: Seq<WriteOpView>, k: Key)
    requires
        !k.is_zk(),
    ensures
        last_write(zk_ops(ops), k) is None,
    decreases ops.len(),
{
    if ops.len() > 0 {
        lemma_zk_ops_miss(ops.drop_last(), k);
        if ops.last().key().is_zk() {
            assert(zk_ops(ops).drop_last() =~= zk_ops(ops.drop_last()));
        }
    }
}

/// Taking back the state changes of a block changes none of the engine's
/// keys.
pub proof fn lemma_undo_changes_frame<P: Primitives>(
    start: RollbackState,
    changes: Seq<(ContractId, crate::blockchain::ZkCompressedStateChange)>,
    n: nat,
    k: Key,
)
    requires
        !k.is_zk(),
        undo_changes::<P>(start, changes, n) is Ok,
    ensures
        undo_changes::<P>(start, changes, n).unwrap().store.get(k) == start.store.get(k),
    decreases n,
{
    if n != 0 && n <= changes.len() {
        lemma_undo_changes_frame::<P>(start, changes, (n - 1) as nat, k);
        let st = undo_changes::<P>(start, changes, (n - 1) as nat).unwrap();
        let contract_id = changes[n - 1].0;
        let change = changes[n - 1].1;
        if change.prev_height == 0 {
            lemma_manager_frame(st.store, P::spec_delete_contract(st.store, contract_id).unwrap(), k);
        } else if !st.outdated.contains(contract_id) {
            lemma_manager_frame(
                st.store,
                P::spec_rollback_contract(st.store, contract_id).unwrap().1,
                k,
            );
        }
    }
}

/// Rollback is the inverse of applying a block: after a block is applied on
/// top of the chain and taken back, every key of the engine holds what it
/// held before, and the undo log of the block is gone. (The list of outdated
/// contracts is the one exception: it follows the state trees.)
pub proof fn lemma_rollback_inverse<P: Primitives>(
    cfg: Config,
    s: StoreView,
    block: BlockView,
    check_pow: bool,
    after: StoreView,
    k: Key,
)
    requires
        is_block_result::<P>(cfg, s, block, check_pow, after),
        height_of(s) == Ok::<_, BlockchainError>(block.header.number),
        rollback_step::<P>(after) is Ok,
        !k.is_zk(),
        k != Key::Outdated,
    ensures
        k != Key::Rollback(block.header.number) ==> rollback_step::<P>(after).unwrap().get(k)
            == s.get(k),
        rollback_step::<P>(after).unwrap().get(Key::Rollback(block.header.number)) is None,
{
    let number = block.header.number;
    let (recorded, outdated) = block_body::<P>(cfg, s, block, check_pow).unwrap();
    let undo = choose|undo: Seq<WriteOpView>|
        #[trigger] is_undo_log(undo, s, recorded) && after == block_store(
            recorded,
            outdated,
            number,
            undo,
        );
    assert(height_of(after) == Ok::<_, BlockchainError>((number + 1) as u64));
    assert(undo_log_of(after, number) == Ok::<_, BlockchainError>(undo));
    let listed = outdated_of(after).unwrap();
    let changes = crate::blockchain::model::changed_states_of(after).unwrap();
    let done = undo_changes::<P>(
        RollbackState { store: after, outdated: listed },
        changes,
        changes.len(),
    ).unwrap();
    lemma_undo_changes_frame::<P>(
        RollbackState { store: after, outdated: listed },
        changes,
        changes.len(),
        k,
    );
    lemma_apply_ops_get(done.store, undo, k);
    lemma_apply_ops_get(recorded, undo, k);
}


proof fn lemma_record_nonempty(
    changes: Seq<(ContractId, crate::blockchain::ZkCompressedStateChange)>,
    contract_id: ContractId,
    change: crate::blockchain::ZkCompressedStateChange,
)
    ensures
        crate::blockchain::block::record_change(changes, contract_id, change).len() > 0,
{
    if crate::blockchain::block::change_index(changes, contract_id) is Some {
        let any = choose|any: int| 0 <= any < changes.len() && changes[any].0 == contract_id;
        crate::blockchain::laws::history::lemma_first_index(changes, contract_id, any);
    }
}

/// Transactions that change the state of no contract leave the outdated
/// contracts as they are.
pub proof fn lemma_txs_untouched<P: Primitives>(
    cfg: Config,
    is_genesis: bool,
    start: BlockState,
    txs: Seq<TransactionView>,
    n: nat,
)
    requires
        n <= txs.len(),
        txs_fold::<P>(cfg, is_genesis, start, txs, n) is Ok,
        txs_fold::<P>(cfg, is_genesis, start, txs, n).unwrap().updates.len() == 0,
    ensures
        txs_fold::<P>(cfg, is_genesis, start, txs, n).unwrap().outdated == start.outdated,
        start.updates.len() == 0,
    decreases n,
{
    if n > 0 {
        let st = txs_fold::<P>(cfg, is_genesis, start, txs, (n - 1) as nat).unwrap();
        let (_, effect) = tx_step::<P>(cfg, st.store, txs[n - 1], is_genesis).unwrap();
        match effect {
            TxSideEffect::StateChange { contract_id, state_change } => {
                lemma_record_nonempty(st.updates, contract_id, state_change);
            },
            TxSideEffect::Nothing => {
                lemma_txs_untouched::<P>(cfg, is_genesis, start, txs, (n - 1) as nat);
            },
        }
    }
}

/// Rollback is the exact inverse of applying a block that changes the state
/// of no contract: after such a block is applied on top of the chain and
/// taken back, every key of the engine holds what it held before, the list
/// of outdated contracts included, and the undo log of the block is gone.
pub proof fn lemma_rollback_inverse_plain<P: Primitives>(
    cfg: Config,
    s: StoreView,
    block: BlockView,
    check_pow: bool,
    after: StoreView,
    k: Key,
)
    requires
        is_block_result::<P>(cfg, s, block, check_pow, after),
        height_of(s) == Ok::<_, BlockchainError>(block.header.number),
        rollback_step::<P>(after) is Ok,
        crate::blockchain::model::changed_states_of(after) matches Ok(changes) && changes.len()
            == 0,
        !k.is_zk(),
        k != Key::Rollback(block.header.number),
    ensures
        rollback_step::<P>(after).unwrap().get(k) == s.get(k),
{
    if k != Key::Outdated {
        lemma_rollback_inverse::<P>(cfg, s, block, check_pow, after, k);
    } else {
        let number = block.header.number;
        let (recorded, outdated) = block_body::<P>(cfg, s, block, check_pow).unwrap();
        let undo = choose|undo: Seq<WriteOpView>|
            #[trigger] is_undo_log(undo, s, recorded) && after == block_store(
                recorded,
                outdated,
                number,
                undo,
            );
        let entered = block_entry::<P>(cfg, s, block, check_pow).unwrap();
        let txs = ordinary_txs(block);
        let start = BlockState {
            store: entered,
            body_size: 0,
            delta: 0,
            updates: Seq::empty(),
            outdated: outdated_of(s).unwrap(),
            calls: 0,
            payments: 0,
        };
        lemma_txs_untouched::<P>(cfg, number == 0, start, txs, txs.len());
        assert(outdated == outdated_of(s).unwrap());
        assert(height_of(after) == Ok::<_, BlockchainError>((number + 1) as u64));
        assert(undo_log_of(after, number) == Ok::<_, BlockchainError>(undo));
        assert(outdated_of(after) == Ok::<_, BlockchainError>(outdated));
    }
}


/// An executed transaction carries the next nonce of its sender: one more
/// than the sender's nonce before it, which is the sender's nonce after it.
pub proof fn lemma_tx_nonce_exact<P: Primitives>(
    cfg: Config,
    s: StoreView,
    tx: TransactionView,
    allow_treasury: bool,
)
    requires
        tx_step::<P>(cfg, s, tx, allow_treasury) is Ok,
    ensures
        account_of(cfg, s, tx.src) matches Ok(before) && tx.nonce == before.nonce + 1,
        account_of(cfg, tx_step::<P>(cfg, s, tx, allow_treasury).unwrap().0, tx.src) matches Ok(
            after,
        ) && after.nonce == tx.nonce,
{
}

/// A block that is accepted on top of a chain is linked to the chain: its
/// header commits to its transactions, names the hash of the header before
/// it, and has the next number.
pub proof fn lemma_block_linked<P: Primitives>(
    cfg: Config,
    s: StoreView,
    block: BlockView,
    check_pow: bool,
)
    requires
        block_body::<P>(cfg, s, block, check_pow) is Ok,
        height_of(s) matches Ok(height) && height > 0,
    ensures
        block.header.block_root == crate::types::merkle::merkle_root::<P>(
            crate::types::merkle::body_leaves::<P>(block.body),
        ),
        crate::blockchain::model::header_of(s, (height_of(s).unwrap() - 1) as u64) matches Ok(
            last,
        ) && block.header.parent_hash == P::spec_header_digest(last) && block.header.number
            == last.number + 1,
{
    let height = height_of(s).unwrap();
    let headers = seq![block.header];
    assert(will_extend_of::<P>(cfg, s, height, headers, check_pow) is Ok);
    let start = crate::blockchain::fork_choice::extend_start(cfg, s, height).unwrap();
    reveal_with_fuel(crate::blockchain::fork_choice::headers_fold, 2);
    assert(headers[0] == block.header);
}

} // verus!
