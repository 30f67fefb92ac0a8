use bazuka::db::{keys, Key, KvStore, RamKvStore, RamMirrorKvStore, Value, WriteOp};
use bazuka::types::{Account, Address, ContractId};

fn account(balance: u64) -> Value {
    Value::Account(Account { balance, nonce: 0 })
}

#[test]
fn an_empty_store_holds_nothing() {
    let db = RamKvStore::new();
    assert_eq!(db.get(&Key::Height), None);
    assert_eq!(db.get(&Key::Account(Address::Treasury)), None);
}

#[test]
fn writes_are_applied_in_order() {
    let mut db = RamKvStore::new();
    db.update(&vec![
        WriteOp::Put(Key::Height, Value::Height(1)),
        WriteOp::Put(Key::Header(0), Value::Power(9)),
        WriteOp::Put(Key::Height, Value::Height(2)),
        WriteOp::Remove(Key::Header(0)),
    ]);
    assert_eq!(db.get(&Key::Height), Some(Value::Height(2)));
    assert_eq!(db.get(&Key::Header(0)), None);
    db.update(&vec![WriteOp::Remove(Key::Height), WriteOp::Put(Key::Height, Value::Height(3))]);
    assert_eq!(db.get(&Key::Height), Some(Value::Height(3)));
    db.update(&vec![WriteOp::Remove(Key::Height)]);
    assert_eq!(db.get(&Key::Height), None);
}

#[test]
fn keys_are_told_apart_by_kind_and_content() {
    let mut db = RamKvStore::new();
    let one = ContractId([1u8; 32]);
    let mut two = one;
    two.0[31] = 2;
    db.update(&vec![
        WriteOp::Put(Key::Contract(one), Value::Height(1)),
        WriteOp::Put(Key::ContractAccount(one), Value::Height(2)),
        WriteOp::Put(Key::CompressedStateAt(one, 1), Value::Height(3)),
        WriteOp::Put(Key::CompressedStateAt(one, 2), Value::Height(4)),
        WriteOp::Put(Key::Zk(one, 1, 2), Value::Height(5)),
        WriteOp::Put(Key::Zk(one, 2, 1), Value::Height(6)),
        WriteOp::Put(Key::Contract(two), Value::Height(7)),
        WriteOp::Put(Key::Block(4), Value::Height(8)),
        WriteOp::Put(Key::Merkle(4), Value::Height(9)),
        WriteOp::Put(Key::Power(4), Value::Height(10)),
        WriteOp::Put(Key::Rollback(4), Value::Height(11)),
        WriteOp::Put(Key::Outdated, Value::Height(12)),
        WriteOp::Put(Key::ContractUpdates, Value::Height(13)),
    ]);
    assert_eq!(db.get(&keys::contract(&one)), Some(Value::Height(1)));
    assert_eq!(db.get(&keys::contract_account(&one)), Some(Value::Height(2)));
    assert_eq!(db.get(&keys::compressed_state_at(&one, 1)), Some(Value::Height(3)));
    assert_eq!(db.get(&keys::compressed_state_at(&one, 2)), Some(Value::Height(4)));
    assert_eq!(db.get(&Key::Zk(one, 1, 2)), Some(Value::Height(5)));
    assert_eq!(db.get(&Key::Zk(one, 2, 1)), Some(Value::Height(6)));
    assert_eq!(db.get(&keys::contract(&two)), Some(Value::Height(7)));
    assert_eq!(db.get(&keys::block(4)), Some(Value::Height(8)));
    assert_eq!(db.get(&keys::merkle(4)), Some(Value::Height(9)));
    assert_eq!(db.get(&keys::power(4)), Some(Value::Height(10)));
    assert_eq!(db.get(&keys::rollback(4)), Some(Value::Height(11)));
    assert_eq!(db.get(&keys::outdated()), Some(Value::Height(12)));
    assert_eq!(db.get(&keys::contract_updates()), Some(Value::Height(13)));
    assert_eq!(db.get(&keys::header(4)), None);
    assert_eq!(db.get(&keys::height()), None);
    assert_eq!(db.get(&keys::account(&Address::Treasury)), None);
}

#[test]
fn an_overlay_reads_through_and_buffers_writes() {
    let mut db = RamKvStore::new();
    db.update(&vec![
        WriteOp::Put(Key::Height, Value::Height(1)),
        WriteOp::Put(Key::Account(Address::Treasury), account(10)),
    ]);
    let mut mirror = RamMirrorKvStore::new(&db);
    assert_eq!(mirror.get(&Key::Height), Some(Value::Height(1)));
    mirror.update(&vec![WriteOp::Put(Key::Height, Value::Height(2))]);
    mirror.remove(Key::Account(Address::Treasury));
    mirror.put(Key::Header(0), Value::Power(5));
    assert_eq!(mirror.get(&Key::Height), Some(Value::Height(2)));
    assert_eq!(mirror.get(&Key::Account(Address::Treasury)), None);
    assert_eq!(mirror.get(&Key::Header(0)), Some(Value::Power(5)));
    // The store underneath is untouched until the writes are committed.
    assert_eq!(db.get(&Key::Height), Some(Value::Height(1)));
    let ops = mirror.to_ops();
    db.update(&ops);
    assert_eq!(db.get(&Key::Height), Some(Value::Height(2)));
    assert_eq!(db.get(&Key::Account(Address::Treasury)), None);
    assert_eq!(db.get(&Key::Header(0)), Some(Value::Power(5)));
}

#[test]
fn the_undo_writes_of_an_overlay_restore_the_store() {
    let mut db = RamKvStore::new();
    db.update(&vec![
        WriteOp::Put(Key::Height, Value::Height(1)),
        WriteOp::Put(Key::Account(Address::Treasury), account(10)),
    ]);
    let mut mirror = RamMirrorKvStore::new(&db);
    mirror.put(Key::Height, Value::Height(2));
    mirror.put(Key::Header(1), Value::Power(5));
    mirror.remove(Key::Account(Address::Treasury));
    mirror.put(Key::Height, Value::Height(3));
    let undo = mirror.rollback();
    assert_eq!(
        undo,
        vec![
            WriteOp::Put(Key::Height, Value::Height(1)),
            WriteOp::Remove(Key::Header(1)),
            WriteOp::Put(Key::Account(Address::Treasury), account(10)),
            WriteOp::Put(Key::Height, Value::Height(1)),
        ]
    );
    let ops = mirror.to_ops();
    db.update(&ops);
    assert_eq!(db.get(&Key::Height), Some(Value::Height(3)));
    db.update(&undo);
    assert_eq!(db.get(&Key::Height), Some(Value::Height(1)));
    assert_eq!(db.get(&Key::Header(1)), None);
    assert_eq!(db.get(&Key::Account(Address::Treasury)), Some(account(10)));
}

#[test]
fn overlays_stack() {
    let mut db = RamKvStore::new();
    db.update(&vec![WriteOp::Put(Key::Height, Value::Height(1))]);
    let mut outer = RamMirrorKvStore::new(&db);
    outer.put(Key::Header(0), Value::Power(1));
    let mut inner = RamMirrorKvStore::new(&outer);
    inner.put(Key::Height, Value::Height(2));
    assert_eq!(inner.get(&Key::Header(0)), Some(Value::Power(1)));
    assert_eq!(inner.get(&Key::Height), Some(Value::Height(2)));
    assert_eq!(
        inner.rollback(),
        vec![WriteOp::Put(Key::Height, Value::Height(1))]
    );
    let ops = inner.to_ops();
    assert_eq!(outer.get(&Key::Height), Some(Value::Height(1)));
    outer.apply(&ops);
    assert_eq!(outer.get(&Key::Height), Some(Value::Height(2)));
}

#[test]
fn values_copy_deeply() {
    let value = Value::Rollback(vec![
        WriteOp::Put(Key::Outdated, Value::Outdated(vec![ContractId([4u8; 32])])),
        WriteOp::Remove(Key::Height),
        WriteOp::Put(Key::Rollback(1), Value::Rollback(vec![WriteOp::Remove(Key::Outdated)])),
        WriteOp::Put(Key::Zk(ContractId([1u8; 32]), 0, 0), Value::Blob(vec![1, 2, 3])),
    ]);
    assert_eq!(value.clone(), value);
}
