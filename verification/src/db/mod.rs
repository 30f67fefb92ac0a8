//! The key-value store under the chain engine.
//!
//! A store maps keys to values. Writes come in batches of [`WriteOp`]s. A
//! [`RamMirrorKvStore`] is an overlay over a store that buffers writes in
//! memory: the engine runs every operation on an overlay and commits the
//! buffered writes only if the whole operation succeeds.
pub mod keys;

use crate::blockchain::ZkCompressedStateChange;
use crate::types::{
    Account, Address, Block, BlockView, ContractAccount, ContractId, Header, MerkleTree,
    MerkleTreeView,
};
use crate::zk::{ZkCompressedState, ZkContract, ZkContractView};
use vstd::prelude::*;

verus! {

/// A key of the store. The keys of the state manager's own data are the
/// `Zk` keys; all others belong to the chain engine.
#[derive(Clone, Copy, Debug, PartialEq, Eq, Hash)]
pub enum Key {
    Account(Address),
    Contract(ContractId),
    ContractAccount(ContractId),
    CompressedStateAt(ContractId, u64),
    Height,
    Header(u64),
    Block(u64),
    Merkle(u64),
    Power(u64),
    Rollback(u64),
    Outdated,
    ContractUpdates,
    Zk(ContractId, u64, u64),
}

/// A value of the store.
#[derive(Debug, PartialEq, Eq)]
pub enum Value {
    Account(Account),
    Contract(ZkContract),
    ContractAccount(ContractAccount),
    CompressedState(ZkCompressedState),
    Height(u64),
    Header(Header),
    Block(Block),
    Merkle(MerkleTree),
    Power(u128),
    Rollback(Vec<WriteOp>),
    Outdated(Vec<ContractId>),
    ContractUpdates(Vec<(ContractId, ZkCompressedStateChange)>),
    Blob(Vec<u8>),
}

/// One write: store a value under a key, or delete a key.
#[derive(Debug, PartialEq, Eq)]
pub enum WriteOp {
    Put(Key, Value),
    Remove(Key),
}

/// The model of [`Value`]: what it holds, with a `Seq` for every `Vec`.
pub enum ValueView {
    Account(Account),
    Contract(ZkContractView),
    ContractAccount(ContractAccount),
    CompressedState(ZkCompressedState),
    Height(u64),
    Header(Header),
    Block(BlockView),
    Merkle(MerkleTreeView),
    Power(u128),
    Rollback(Seq<WriteOpView>),
    Outdated(Seq<ContractId>),
    ContractUpdates(Seq<(ContractId, ZkCompressedStateChange)>),
    Blob(Seq<u8>),
}

/// The model of [`WriteOp`]: what it holds, with a `Seq` for every `Vec`.
pub enum WriteOpView {
    Put(Key, ValueView),
    Remove(Key),
}

/// The mathematical model of a store.
pub type StoreView = Map<Key, ValueView>;

impl DeepView for Key {
    type V = Key;

    open spec fn deep_view(&self) -> Key {
        *self
    }
}

/// The model of a value: every `Vec` in it becomes a `Seq`.
pub open spec fn value_view(value: Value) -> ValueView
    decreases value,
{
    match value {
        Value::Account(a) => ValueView::Account(a),
        Value::Contract(c) => ValueView::Contract(c.deep_view()),
        Value::ContractAccount(a) => ValueView::ContractAccount(a),
        Value::CompressedState(s) => ValueView::CompressedState(s),
        Value::Height(h) => ValueView::Height(h),
        Value::Header(h) => ValueView::Header(h),
        Value::Block(b) => ValueView::Block(b.deep_view()),
        Value::Merkle(m) => ValueView::Merkle(m.deep_view()),
        Value::Power(p) => ValueView::Power(p),
        Value::Rollback(ops) => ValueView::Rollback(ops_view(ops@, ops@.len())),
        Value::Outdated(ids) => ValueView::Outdated(ids@),
        Value::ContractUpdates(changes) => ValueView::ContractUpdates(changes@),
        Value::Blob(bytes) => ValueView::Blob(bytes@),
    }
}

/// The model of a write.
pub open spec fn write_op_view(op: WriteOp) -> WriteOpView
    decreases op,
{
    match op {
        WriteOp::Put(k, v) => WriteOpView::Put(k, value_view(v)),
        WriteOp::Remove(k) => WriteOpView::Remove(k),
    }
}

/// The models of the first `n` writes of `ops`.
pub open spec fn ops_view(ops: Seq<WriteOp>, n: nat) -> Seq<WriteOpView>
    decreases ops, n,
{
    if n == 0 || n > ops.len() {
        Seq::empty()
    } else {
        ops_view(ops, (n - 1) as nat).push(write_op_view(ops[n - 1]))
    }
}

impl DeepView for Value {
    type V = ValueView;

    open spec fn deep_view(&self) -> ValueView {
        value_view(*self)
    }
}

impl DeepView for WriteOp {
    type V = WriteOpView;

    open spec fn deep_view(&self) -> WriteOpView {
        write_op_view(*self)
    }
}

proof fn lemma_ops_view(ops: Seq<WriteOp>, n: nat)
    requires
        n <= ops.len(),
    ensures
        ops_view(ops, n).len() == n,
        forall|i: int| 0 <= i < n ==> ops_view(ops, n)[i] == write_op_view(#[trigger] ops[i]),
    decreases n,
{
    if n > 0 {
        lemma_ops_view(ops, (n - 1) as nat);
    }
}

/// The view of an undo log is the element-wise view of its operations.
pub proof fn lemma_rollback_view(ops: Vec<WriteOp>)
    ensures
        Value::Rollback(ops).deep_view() == ValueView::Rollback(ops.deep_view()),
{
    lemma_ops_view(ops@, ops@.len());
    assert(ops_view(ops@, ops@.len()) =~= ops.deep_view());
}

impl WriteOpView {
    /// The key that the operation writes.
    pub open spec fn key(self) -> Key {
        match self {
            WriteOpView::Put(k, _) => k,
            WriteOpView::Remove(k) => k,
        }
    }
}

/// The store after one write.
pub open spec fn apply_op(s: StoreView, op: WriteOpView) -> StoreView {
    match op {
        WriteOpView::Put(k, v) => s.insert(k, v),
        WriteOpView::Remove(k) => s.remove(k),
    }
}

/// The store after a batch of writes, applied in order.
pub open spec fn apply_ops(s: StoreView, ops: Seq<WriteOpView>) -> StoreView
    decreases ops.len(),
{
    if ops.len() == 0 {
        s
    } else {
        apply_op(apply_ops(s, ops.drop_last()), ops.last())
    }
}

/// The write that gives `k` the value it has in `s`.
pub open spec fn restore_op(s: StoreView, k: Key) -> WriteOpView {
    match s.get(k) {
        Some(v) => WriteOpView::Put(k, v),
        None => WriteOpView::Remove(k),
    }
}

/// The writes that undo `log` on a store that was `s` before it: for each
/// write of the log, in order, the write that restores its key.
pub open spec fn undo_ops(s: StoreView, log: Seq<WriteOpView>) -> Seq<WriteOpView> {
    Seq::new(log.len(), |i: int| restore_op(s, log[i].key()))
}

/// What the last write to `k` in `ops` leaves there: `None` if no write
/// touches `k`, else the value written, or `Some(None)` for a deletion.
pub open spec fn last_write(ops: Seq<WriteOpView>, k: Key) -> Option<Option<ValueView>>
    decreases ops.len(),
{
    if ops.len() == 0 {
        None
    } else {
        match ops.last() {
            WriteOpView::Put(key, v) if key == k => Some(Some(v)),
            WriteOpView::Remove(key) if key == k => Some(None),
            _ => last_write(ops.drop_last(), k),
        }
    }
}

/// Reading a key after a batch of writes gives the last write to it, or
/// what was there before.
pub proof fn lemma_apply_ops_get(s: StoreView, ops: Seq<WriteOpView>, k: Key)
    ensures
        apply_ops(s, ops).get(k) == match last_write(ops, k) {
            Some(v) => v,
            None => s.get(k),
        },
    decreases ops.len(),
{
    if ops.len() > 0 {
        lemma_apply_ops_get(s, ops.drop_last(), k);
    }
}

/// Applying two batches one after the other is applying their concatenation.
pub proof fn lemma_apply_ops_concat(s: StoreView, a: Seq<WriteOpView>, b: Seq<WriteOpView>)
    ensures
        apply_ops(s, a + b) == apply_ops(apply_ops(s, a), b),
    decreases b.len(),
{
    if b.len() == 0 {
        assert(a + b =~= a);
    } else {
        lemma_apply_ops_concat(s, a, b.drop_last());
        assert((a + b).drop_last() =~= a + b.drop_last());
    }
}

/// A batch of one write.
pub proof fn lemma_apply_ops_one(s: StoreView, op: WriteOpView)
    ensures
        apply_ops(s, seq![op]) == apply_op(s, op),
{
    reveal_with_fuel(apply_ops, 2);
    assert(seq![op].drop_last() =~= Seq::<WriteOpView>::empty());
}

/// Undoing a log restores the store that was there before it.
pub proof fn lemma_undo_restores(s: StoreView, log: Seq<WriteOpView>)
    ensures
        apply_ops(apply_ops(s, log), undo_ops(s, log)) == s,
{
    let after = apply_ops(s, log);
    let undo = undo_ops(s, log);
    let back = apply_ops(after, undo);
    assert forall|k: Key| back.get(k) == s.get(k) by {
        lemma_apply_ops_get(after, undo, k);
        lemma_apply_ops_get(s, log, k);
        lemma_undo_last_write(s, log, log.len() as int, k);
        assert(undo.subrange(0, log.len() as int) =~= undo);
        assert(log.subrange(0, log.len() as int) =~= log);
    }
    assert forall|k: Key| back.contains_key(k) == s.contains_key(k) by {
        assert(back.get(k) == s.get(k));
    }
    assert forall|k: Key| back.contains_key(k) implies back[k] == s[k] by {
        assert(back.get(k) == s.get(k));
    }
    assert(back =~= s);
}

proof fn lemma_undo_last_write(s: StoreView, log: Seq<WriteOpView>, n: int, k: Key)
    requires
        0 <= n <= log.len(),
    ensures
        last_write(undo_ops(s, log).subrange(0, n), k) == if last_write(log.subrange(0, n), k)
            is Some {
            Some(s.get(k))
        } else {
            None
        },
    decreases n,
{
    let undo = undo_ops(s, log);
    if n > 0 {
        lemma_undo_last_write(s, log, n - 1, k);
        assert(undo.subrange(0, n).drop_last() =~= undo.subrange(0, n - 1));
        assert(log.subrange(0, n).drop_last() =~= log.subrange(0, n - 1));
        assert(undo.subrange(0, n).last() == restore_op(s, log[n - 1].key()));
        assert(log.subrange(0, n).last() == log[n - 1]);
    }
}

/// A key-value store.
///
/// `view` is the mathematical model of an implementation: the map that the
/// store currently holds. The methods are specified against it.
pub trait KvStore {
    /// The map that the store holds.
    open spec fn view(&self) -> StoreView {
        arbitrary()
    }

    /// The value stored under `k`, if any.
    fn get(&self, k: &Key) -> (value: Option<Value>)
        ensures
            value.deep_view() == self.view().get(*k),
    ;

    /// Applies a batch of writes, in order.
    fn update(&mut self, ops: &Vec<WriteOp>)
        ensures
            final(self).view() == apply_ops(old(self).view(), ops.deep_view()),
    ;
}


/// A copy of a value.
pub fn clone_value(value: &Value) -> (copy: Value)
    ensures
        copy.deep_view() == value.deep_view(),
    decreases value,
{
    match value {
        Value::Account(a) => Value::Account(*a),
        Value::Contract(c) => Value::Contract(c.clone()),
        Value::ContractAccount(a) => Value::ContractAccount(*a),
        Value::CompressedState(s) => Value::CompressedState(*s),
        Value::Height(h) => Value::Height(*h),
        Value::Header(h) => Value::Header(*h),
        Value::Block(b) => Value::Block(b.clone()),
        Value::Merkle(m) => Value::Merkle(m.clone()),
        Value::Power(p) => Value::Power(*p),
        Value::Rollback(ops) => {
            let copies = clone_ops(ops);
            proof {
                lemma_rollback_view(*ops);
                lemma_rollback_view(copies);
            }
            Value::Rollback(copies)
        },
        Value::Outdated(ids) => Value::Outdated(ids.clone()),
        Value::ContractUpdates(changes) => {
            let mut copies: Vec<(ContractId, ZkCompressedStateChange)> = Vec::new();
            let mut i: usize = 0;
            while i < changes.len()
                invariant
                    i <= changes.len(),
                    copies@ == changes@.subrange(0, i as int),
                decreases changes.len() - i,
            {
                copies.push((changes[i].0, changes[i].1));
                i += 1;
            }
            assert(copies@ =~= changes@);
            Value::ContractUpdates(copies)
        },
        Value::Blob(bytes) => Value::Blob(bytes.clone()),
    }
}

/// A copy of a write.
pub fn clone_op(op: &WriteOp) -> (copy: WriteOp)
    ensures
        copy.deep_view() == op.deep_view(),
    decreases op,
{
    match op {
        WriteOp::Put(k, v) => WriteOp::Put(*k, clone_value(v)),
        WriteOp::Remove(k) => WriteOp::Remove(*k),
    }
}

/// A copy of a batch of writes.
pub fn clone_ops(ops: &Vec<WriteOp>) -> (copies: Vec<WriteOp>)
    ensures
        copies.deep_view() == ops.deep_view(),
    decreases ops,
{
    let mut copies: Vec<WriteOp> = Vec::new();
    let mut i: usize = 0;
    while i < ops.len()
        invariant
            i <= ops.len(),
            copies.len() == i,
            forall|j: int| 0 <= j < i ==> copies@[j].deep_view() == ops@[j].deep_view(),
        decreases ops.len() - i,
    {
        copies.push(clone_op(&ops[i]));
        i += 1;
    }
    assert(copies.deep_view() =~= ops.deep_view());
    copies
}

impl Clone for Value {
    fn clone(&self) -> (copy: Self)
        ensures
            copy.deep_view() == self.deep_view(),
    {
        clone_value(self)
    }
}

impl Clone for WriteOp {
    fn clone(&self) -> (copy: Self)
        ensures
            copy.deep_view() == self.deep_view(),
    {
        clone_op(self)
    }
}

impl Key {
    /// Whether two keys are the same.
    pub fn same(&self, other: &Key) -> (r: bool)
        ensures
            r == (*self == *other),
    {
        match (self, other) {
            (Key::Account(a), Key::Account(b)) => a.same(b),
            (Key::Contract(a), Key::Contract(b)) => a.same(b),
            (Key::ContractAccount(a), Key::ContractAccount(b)) => a.same(b),
            (Key::CompressedStateAt(a, i), Key::CompressedStateAt(b, j)) => a.same(b) && *i == *j,
            (Key::Height, Key::Height) => true,
            (Key::Header(i), Key::Header(j)) => *i == *j,
            (Key::Block(i), Key::Block(j)) => *i == *j,
            (Key::Merkle(i), Key::Merkle(j)) => *i == *j,
            (Key::Power(i), Key::Power(j)) => *i == *j,
            (Key::Rollback(i), Key::Rollback(j)) => *i == *j,
            (Key::Outdated, Key::Outdated) => true,
            (Key::ContractUpdates, Key::ContractUpdates) => true,
            (Key::Zk(a, s, i), Key::Zk(b, t, j)) => a.same(b) && *s == *t && *i == *j,
            _ => false,
        }
    }

    /// Whether the key belongs to the state manager.
    pub open spec fn is_zk(self) -> bool {
        self is Zk
    }
}

impl WriteOp {
    /// The key that the operation writes.
    pub fn key(&self) -> (k: Key)
        ensures
            k == self.deep_view().key(),
    {
        match self {
            WriteOp::Put(k, _) => *k,
            WriteOp::Remove(k) => *k,
        }
    }
}

/// What the last write to `k` in `log` leaves there, searching from the end.
fn find_last_write(log: &Vec<WriteOp>, k: &Key) -> (found: Option<Option<Value>>)
    ensures
        found.deep_view() == last_write(log.deep_view(), *k),
{
    let mut i: usize = log.len();
    assert(log.deep_view().subrange(0, i as int) =~= log.deep_view());
    while i > 0
        invariant
            i <= log.len(),
            last_write(log.deep_view(), *k) == last_write(log.deep_view().subrange(0, i as int), *k),
        decreases i,
    {
        let ghost prefix = log.deep_view().subrange(0, i as int);
        assert(prefix.last() == log@[i - 1].deep_view());
        assert(prefix.drop_last() =~= log.deep_view().subrange(0, i - 1));
        match &log[i - 1] {
            WriteOp::Put(key, v) => {
                if key.same(k) {
                    return Some(Some(clone_value(v)));
                }
            },
            WriteOp::Remove(key) => {
                if key.same(k) {
                    return Some(None);
                }
            },
        }
        i -= 1;
    }
    assert(log.deep_view().subrange(0, 0) =~= Seq::<WriteOpView>::empty());
    None
}

/// Appends copies of `ops` to `log`.
fn append_ops(log: &mut Vec<WriteOp>, ops: &Vec<WriteOp>)
    ensures
        final(log).deep_view() == old(log).deep_view() + ops.deep_view(),
{
    let mut i: usize = 0;
    while i < ops.len()
        invariant
            i <= ops.len(),
            log.deep_view() == old(log).deep_view() + ops.deep_view().subrange(0, i as int),
        decreases ops.len() - i,
    {
        let ghost before = log.deep_view();
        log.push(clone_op(&ops[i]));
        assert(log.deep_view() =~= before.push(ops@[i as int].deep_view()));
        assert(ops.deep_view().subrange(0, i + 1) =~= ops.deep_view().subrange(0, i as int).push(
            ops@[i as int].deep_view(),
        ));
        i += 1;
    }
    assert(ops.deep_view().subrange(0, ops.len() as int) =~= ops.deep_view());
}

/// A store in memory.
pub struct RamKvStore {
    pub log: Vec<WriteOp>,
}

impl RamKvStore {
    /// An empty store.
    pub fn new() -> (store: RamKvStore)
        ensures
            store.view() == Map::<Key, ValueView>::empty(),
    {
        RamKvStore { log: Vec::new() }
    }
}

impl KvStore for RamKvStore {
    open spec fn view(&self) -> StoreView {
        apply_ops(Map::empty(), self.log.deep_view())
    }

    fn get(&self, k: &Key) -> (value: Option<Value>) {
        proof {
            lemma_apply_ops_get(Map::empty(), self.log.deep_view(), *k);
        }
        match find_last_write(&self.log, k) {
            Some(found) => found,
            None => None,
        }
    }

    fn update(&mut self, ops: &Vec<WriteOp>) {
        proof {
            lemma_apply_ops_concat(Map::empty(), self.log.deep_view(), ops.deep_view());
        }
        append_ops(&mut self.log, ops);
    }
}

/// An overlay over a store: writes are buffered in memory, and reads fall
/// through to the store underneath for keys that were not written.
pub struct RamMirrorKvStore<'a, K: KvStore> {
    pub store: &'a K,
    pub overwrite: Vec<WriteOp>,
}

impl<'a, K: KvStore> RamMirrorKvStore<'a, K> {
    /// An overlay over `store` with no writes yet.
    pub fn new(store: &'a K) -> (mirror: RamMirrorKvStore<'a, K>)
        ensures
            mirror.store == store,
            mirror.overwrite.deep_view() == Seq::<WriteOpView>::empty(),
            mirror.view() == store.view(),
    {
        let mirror = RamMirrorKvStore { store, overwrite: Vec::new() };
        assert(mirror.overwrite.deep_view() =~= Seq::<WriteOpView>::empty());
        mirror
    }

    /// The buffered writes: applied to the store underneath, they give the
    /// overlay's contents.
    pub fn to_ops(self) -> (ops: Vec<WriteOp>)
        ensures
            ops.deep_view() == self.overwrite.deep_view(),
    {
        self.overwrite
    }

    /// The writes that undo the buffered writes: applied to the overlay's
    /// contents, they give back the contents of the store underneath.
    pub fn rollback(&self) -> (ops: Vec<WriteOp>)
        ensures
            ops.deep_view() == undo_ops(self.store.view(), self.overwrite.deep_view()),
    {
        let mut ops: Vec<WriteOp> = Vec::new();
        let mut i: usize = 0;
        while i < self.overwrite.len()
            invariant
                i <= self.overwrite.len(),
                ops.len() == i,
                forall|j: int|
                    0 <= j < i ==> ops@[j].deep_view() == restore_op(
                        self.store.view(),
                        self.overwrite@[j].deep_view().key(),
                    ),
            decreases self.overwrite.len() - i,
        {
            let key = self.overwrite[i].key();
            let op = match self.store.get(&key) {
                Some(v) => WriteOp::Put(key, v),
                None => WriteOp::Remove(key),
            };
            ops.push(op);
            i += 1;
        }
        assert(ops.deep_view() =~= undo_ops(self.store.view(), self.overwrite.deep_view()));
        ops
    }
}

impl<'a, K: KvStore> KvStore for RamMirrorKvStore<'a, K> {
    open spec fn view(&self) -> StoreView {
        apply_ops(self.store.view(), self.overwrite.deep_view())
    }

    fn get(&self, k: &Key) -> (value: Option<Value>) {
        proof {
            lemma_apply_ops_get(self.store.view(), self.overwrite.deep_view(), *k);
        }
        match find_last_write(&self.overwrite, k) {
            Some(found) => found,
            None => self.store.get(k),
        }
    }

    fn update(&mut self, ops: &Vec<WriteOp>) {
        proof {
            lemma_apply_ops_concat(
                self.store.view(),
                self.overwrite.deep_view(),
                ops.deep_view(),
            );
        }
        append_ops(&mut self.overwrite, ops);
    }
}


/// A batch extended by one write.
pub proof fn lemma_apply_ops_push(s: StoreView, ops: Seq<WriteOpView>, op: WriteOpView)
    ensures
        apply_ops(s, ops.push(op)) == apply_op(apply_ops(s, ops), op),
{
    assert(ops.push(op).drop_last() =~= ops);
}

/// The empty batch.
pub proof fn lemma_apply_ops_none(s: StoreView)
    ensures
        apply_ops(s, Seq::empty()) == s,
{
}

impl<'a, K: KvStore> RamMirrorKvStore<'a, K> {
    /// Buffers the write of `value` under `key`.
    pub fn put(&mut self, key: Key, value: Value)
        ensures
            final(self).store == old(self).store,
            final(self).view() == old(self).view().insert(key, value.deep_view()),
    {
        proof {
            lemma_apply_ops_push(
                self.store.view(),
                self.overwrite.deep_view(),
                WriteOpView::Put(key, value.deep_view()),
            );
        }
        let ghost before = self.overwrite.deep_view();
        self.overwrite.push(WriteOp::Put(key, value));
        assert(self.overwrite.deep_view() =~= before.push(
            WriteOpView::Put(key, value.deep_view()),
        ));
    }

    /// Buffers the deletion of `key`.
    pub fn remove(&mut self, key: Key)
        ensures
            final(self).store == old(self).store,
            final(self).view() == old(self).view().remove(key),
    {
        proof {
            lemma_apply_ops_push(
                self.store.view(),
                self.overwrite.deep_view(),
                WriteOpView::Remove(key),
            );
        }
        let ghost before = self.overwrite.deep_view();
        self.overwrite.push(WriteOp::Remove(key));
        assert(self.overwrite.deep_view() =~= before.push(WriteOpView::Remove(key)));
    }

    /// Buffers a batch of writes.
    pub fn apply(&mut self, ops: &Vec<WriteOp>)
        ensures
            final(self).store == old(self).store,
            final(self).view() == apply_ops(old(self).view(), ops.deep_view()),
    {
        proof {
            lemma_apply_ops_concat(
                self.store.view(),
                self.overwrite.deep_view(),
                ops.deep_view(),
            );
        }
        append_ops(&mut self.overwrite, ops);
    }
}

} // verus!
