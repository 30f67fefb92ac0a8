//! The money supply: what all accounts and contracts hold together, and how
//! the operations of the engine change it.
use crate::blockchain::model::{contract_account_of, Config};
use crate::blockchain::tx::{manager_writes, payment_step};
use crate::blockchain::Primitives;
use crate::db::{apply_op, apply_ops, Key, StoreView, ValueView, WriteOpView};
use crate::types::{Address, ContractPayment};
use crate::zk::primitives::zk_ops;
use vstd::prelude::*;

verus! {

/// The sum of `weight` over the keys `keys`.
pub open spec fn sum_keys(keys: Set<Key>, weight: spec_fn(Key) -> int) -> int
    decreases keys.len(),
    when keys.finite()
{
    if keys.len() == 0 {
        0
    } else {
        let k = keys.choose();
        weight(k) + sum_keys(keys.remove(k), weight)
    }
}

/// A sum can be taken apart at any of its keys.
pub proof fn lemma_sum_remove(keys: Set<Key>, weight: spec_fn(Key) -> int, k: Key)
    requires
        keys.finite(),
        keys.contains(k),
    ensures
        sum_keys(keys, weight) == weight(k) + sum_keys(keys.remove(k), weight),
    decreases keys.len(),
{
    let c = keys.choose();
    if c != k {
        lemma_sum_remove(keys.remove(c), weight, k);
        lemma_sum_remove(keys.remove(k), weight, c);
        assert(keys.remove(c).remove(k) =~= keys.remove(k).remove(c));
    }
}

/// Sums of weights that agree on the keys agree.
pub proof fn lemma_sum_congruent(
    keys: Set<Key>,
    first: spec_fn(Key) -> int,
    second: spec_fn(Key) -> int,
)
    requires
        keys.finite(),
        forall|k: Key| keys.contains(k) ==> first(k) == second(k),
    ensures
        sum_keys(keys, first) == sum_keys(keys, second),
    decreases keys.len(),
{
    if keys.len() != 0 {
        let c = keys.choose();
        lemma_sum_congruent(keys.remove(c), first, second);
    }
}

/// What a key holds of the money supply: the balance of an account or of a
/// contract. The treasury holds the whole supply until its account is
/// written.
pub open spec fn holding(cfg: Config, s: StoreView, k: Key) -> int {
    match (k, s.get(k)) {
        (Key::Account(_), Some(ValueView::Account(account))) => account.balance as int,
        (Key::Account(Address::Treasury), None) => cfg.total_supply as int,
        (Key::ContractAccount(_), Some(ValueView::ContractAccount(account))) => account.balance as int,
        _ => 0,
    }
}

/// The keys that can hold money in a store: its account and contract
/// account keys, and the treasury's.
pub open spec fn money_keys(s: StoreView) -> Set<Key> {
    s.dom().insert(Key::Account(Address::Treasury)).filter(
        |k: Key| k is Account || k is ContractAccount,
    )
}

/// The money in a store: what all accounts and contracts hold together.
pub open spec fn total_money(cfg: Config, s: StoreView) -> int {
    sum_keys(money_keys(s), |k: Key| holding(cfg, s, k))
}

/// The keys that can hold money in a finite store are finitely many.
pub proof fn lemma_money_keys_finite(s: StoreView)
    requires
        s.dom().finite(),
    ensures
        money_keys(s).finite(),
{
    s.dom().insert(Key::Account(Address::Treasury)).lemma_len_filter(
        |k: Key| k is Account || k is ContractAccount,
    );
}

/// Stores that hold the same under every account and contract account key
/// hold the same money.
pub proof fn lemma_total_same(cfg: Config, first: StoreView, second: StoreView)
    requires
        first.dom().finite(),
        second.dom().finite(),
        forall|k: Key| (k is Account || k is ContractAccount) ==> first.get(k) == second.get(k),
    ensures
        total_money(cfg, first) == total_money(cfg, second),
{
    lemma_money_keys_finite(first);
    assert forall|k: Key| money_keys(first).contains(k) == money_keys(second).contains(k) by {
        if k is Account || k is ContractAccount {
            assert(first.get(k) == second.get(k));
            assert(first.contains_key(k) == second.contains_key(k));
        }
    }
    assert(money_keys(first) =~= money_keys(second));
    lemma_sum_congruent(
        money_keys(first),
        |k: Key| holding(cfg, first, k),
        |k: Key| holding(cfg, second, k),
    );
}

/// Writing one key changes the money in a store by what the key holds more
/// than before.
pub proof fn lemma_total_insert(cfg: Config, s: StoreView, k: Key, v: ValueView)
    requires
        s.dom().finite(),
    ensures
        s.insert(k, v).dom().finite(),
        total_money(cfg, s.insert(k, v)) == total_money(cfg, s) - holding(cfg, s, k) + holding(
            cfg,
            s.insert(k, v),
            k,
        ),
{
    let t = s.insert(k, v);
    lemma_money_keys_finite(s);
    lemma_money_keys_finite(t);
    let before = |x: Key| holding(cfg, s, x);
    let after = |x: Key| holding(cfg, t, x);
    if k is Account || k is ContractAccount {
        assert(money_keys(t) =~= money_keys(s).insert(k));
        lemma_sum_remove(money_keys(t), after, k);
        assert(money_keys(t).remove(k) =~= money_keys(s).remove(k));
        lemma_sum_congruent(money_keys(s).remove(k), before, after);
        if money_keys(s).contains(k) {
            lemma_sum_remove(money_keys(s), before, k);
        } else {
            assert(money_keys(s).remove(k) =~= money_keys(s));
            assert(holding(cfg, s, k) == 0);
        }
    } else {
        assert(money_keys(t) =~= money_keys(s));
        lemma_sum_congruent(money_keys(s), before, after);
    }
}

/// Writes that touch no account and no contract account leave the money in
/// a store as it is.
pub proof fn lemma_total_other_writes(cfg: Config, s: StoreView, ops: Seq<WriteOpView>)
    requires
        s.dom().finite(),
        forall|i: int|
            0 <= i < ops.len() ==> !((#[trigger] ops[i]).key() is Account) && !(ops[i].key()
                is ContractAccount),
    ensures
        apply_ops(s, ops).dom().finite(),
        total_money(cfg, apply_ops(s, ops)) == total_money(cfg, s),
        forall|k: Key|
            (k is Account || k is ContractAccount) ==> apply_ops(s, ops).get(k) == s.get(k),
    decreases ops.len(),
{
    if ops.len() > 0 {
        lemma_total_other_writes(cfg, s, ops.drop_last());
        let mid = apply_ops(s, ops.drop_last());
        assert(ops.last() == ops[ops.len() - 1]);
        lemma_total_same(cfg, mid, apply_op(mid, ops.last()));
    }
}

/// Writes of the state manager leave the money in a store as it is.
pub proof fn lemma_total_manager(cfg: Config, s: StoreView, ops: Seq<WriteOpView>)
    requires
        s.dom().finite(),
    ensures
        manager_writes(s, ops).dom().finite(),
        total_money(cfg, manager_writes(s, ops)) == total_money(cfg, s),
        forall|k: Key| !k.is_zk() ==> manager_writes(s, ops).get(k) == s.get(k),
{
    lemma_zk_ops_keys(ops);
    lemma_total_other_writes(cfg, s, zk_ops(ops));
    assert forall|k: Key| !k.is_zk() implies manager_writes(s, ops).get(k) == s.get(k) by {
        crate::blockchain::laws::lemma_manager_frame(s, ops, k);
    }
}

proof fn lemma_zk_ops_keys(ops: Seq<WriteOpView>)
    ensures
        forall|i: int| 0 <= i < zk_ops(ops).len() ==> (#[trigger] zk_ops(ops)[i]).key().is_zk(),
    decreases ops.len(),
{
    if ops.len() > 0 {
        lemma_zk_ops_keys(ops.drop_last());
    }
}


/// A contract payment takes its fee out of the stores' money: the fee is
/// owed to whoever executes the payment. No account but the payer's is
/// touched.
pub proof fn lemma_payment_supply<P: Primitives>(cfg: Config, s: StoreView, p: ContractPayment)
    requires
        s.dom().finite(),
        payment_step::<P>(cfg, s, p) is Ok,
    ensures
        payment_step::<P>(cfg, s, p).unwrap().dom().finite(),
        total_money(cfg, payment_step::<P>(cfg, s, p).unwrap()) == total_money(cfg, s) - p.fee,
        forall|a: Address|
            a != Address::PublicKey(p.address) ==> payment_step::<P>(cfg, s, p).unwrap().get(
                Key::Account(a),
            ) == s.get(Key::Account(a)),
{
    let pool = contract_account_of(s, p.contract_id).unwrap();
    let pool_key = Key::ContractAccount(p.contract_id);
    let outer_key = Key::Account(Address::PublicKey(p.address));
    let after = payment_step::<P>(cfg, s, p).unwrap();
    let mid = s.insert(pool_key, after[pool_key]);
    assert(after == mid.insert(outer_key, after[outer_key]));
    lemma_total_insert(cfg, s, pool_key, after[pool_key]);
    lemma_total_insert(cfg, mid, outer_key, after[outer_key]);
}

} // verus!
