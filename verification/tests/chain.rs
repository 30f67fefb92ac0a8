use bazuka::blockchain::{
    BlockAndPatch, BlockchainConfig, BlockchainError, KvStoreChain, Primitives, TransactionStats,
    TxSideEffect, ZkBlockchainPatch,
};
use bazuka::consensus::pow::{Difficulty, PowRules};
use bazuka::crypto::ed25519::{Ed25519, PrivateKey, PublicKey};
use bazuka::db::{Key, KvStore, RamKvStore, Value, WriteOp};
use bazuka::types::hash::Digests;
use bazuka::types::{
    Account, Address, Block, ContractId, ContractPayment, ContractUpdate, Header,
    PaymentDirection, ProofOfWork, Signature, Transaction, TransactionAndDelta, TransactionData,
};
use bazuka::wallet::Wallet;
use bazuka::zk::primitives::{ZkStateManager, ZkVerifier};
use bazuka::zk::{
    MpnAccount, PaymentSlot, StateManagerError, ZeroTransaction, ZkCompressedState, ZkContract,
    ZkDataLocator, ZkDataPair, ZkDataPairs, ZkDeltaPair, ZkDeltaPairs, ZkPaymentVerifierKey,
    ZkPoint, ZkProof, ZkPublicKey, ZkScalar, ZkSignature, ZkStateModel, ZkStatePatch,
    ZkVerifierKey,
};

/// Stand-ins for the hash, the proof-of-work rules, the proof system and the
/// state manager: simple, deterministic, and easy to steer from a test.
struct Toy;

fn mix(data: &[u8]) -> [u8; 32] {
    let mut out = [0u8; 32];
    let mut state: u64 = 0xcbf2_9ce4_8422_2325;
    for (i, byte) in data.iter().enumerate() {
        state = (state ^ (*byte as u64)).wrapping_mul(0x0000_0100_0000_01b3);
        out[i % 32] ^= (state >> 24) as u8;
    }
    for i in 0..32 {
        state = (state ^ (i as u64)).wrapping_mul(0x0000_0100_0000_01b3);
        out[i] ^= (state >> 32) as u8;
    }
    out
}

impl bazuka::types::hash::Hash for Toy {
    fn hash(data: &[u8]) -> [u8; 32] {
        mix(data)
    }
}

impl Digests for Toy {
    fn transaction_digest(tx: &Transaction) -> [u8; 32] {
        mix(format!("{:?}", tx).as_bytes())
    }

    fn header_digest(header: &Header) -> [u8; 32] {
        mix(format!("{:?}", header).as_bytes())
    }

    fn payment_digest(payment: &ContractPayment) -> [u8; 32] {
        mix(format!("{:?}", payment).as_bytes())
    }
}

impl PowRules for Toy {
    /// The power of a target is its number.
    fn power(target: &Difficulty) -> u128 {
        target.0 as u128
    }

    /// A header meets its target unless its nonce is odd.
    fn meets_target(header: &Header, _key: &Vec<u8>) -> bool {
        header.proof_of_work.nonce % 2 == 0
    }

    /// The next target is whatever the nonce of the last header says, but at
    /// least the minimum.
    fn calc_pow_difficulty(
        _interval: u64,
        _block_time: usize,
        minimum: Difficulty,
        last: &ProofOfWork,
        _first: &ProofOfWork,
    ) -> Difficulty {
        Difficulty(std::cmp::max(minimum.0, (last.nonce / 2) as u32))
    }
}

fn scalar(n: u64) -> ZkScalar {
    let mut bytes = [0u8; 32];
    bytes[..8].copy_from_slice(&n.to_le_bytes());
    ZkScalar(bytes)
}

fn state(n: u64, size: u32) -> ZkCompressedState {
    ZkCompressedState { state_hash: scalar(n), state_size: size }
}

impl ZkVerifier for Toy {
    fn is_valid_model(model: &ZkStateModel) -> bool {
        !model.0.is_empty()
    }

    fn empty_state(model: &ZkStateModel) -> ZkCompressedState {
        state(model.0.len() as u64, 0)
    }

    /// A proof is good if it names the state it leads to.
    fn check_proof(
        _key: &ZkVerifierKey,
        _prev_state: &ZkCompressedState,
        _aux_data: &ZkCompressedState,
        next_state: &ZkCompressedState,
        proof: &ZkProof,
    ) -> bool {
        proof.0 == next_state.state_hash.0[..8].to_vec()
    }

    fn payment_state(
        log4_capacity: u8,
        slots: &Vec<PaymentSlot>,
    ) -> Result<ZkCompressedState, StateManagerError> {
        if slots.len() > 4usize.pow(log4_capacity as u32) {
            return Err(StateManagerError { code: 1 });
        }
        Ok(state(slots.iter().map(|slot| slot.amount).sum(), slots.len() as u32))
    }

    fn fee_state(fee: u64) -> Result<ZkCompressedState, StateManagerError> {
        Ok(state(fee, 1))
    }

    fn decompress(key: &ZkPublicKey) -> ZkPoint {
        ZkPoint { x: ZkScalar(key.0), y: scalar(0) }
    }

    fn compress(point: &ZkPoint) -> ZkPublicKey {
        ZkPublicKey(point.x.0)
    }

    /// A transfer is signed if its signature names the key.
    fn verify_zero_transaction(tx: &ZeroTransaction, key: &ZkPublicKey) -> bool {
        tx.sig.s.0 == key.0
    }
}

const ROOT: u64 = 0;
const HEIGHT: u64 = 1;
const ACCOUNTS: u64 = 2;
const HISTORY: u64 = 3;

fn read_blob<K: KvStore>(db: &K, key: Key) -> Option<Vec<u8>> {
    match db.get(&key) {
        Some(Value::Blob(bytes)) => Some(bytes),
        _ => None,
    }
}

fn encode_state(s: &ZkCompressedState) -> Vec<u8> {
    let mut bytes = s.state_hash.0.to_vec();
    bytes.extend_from_slice(&s.state_size.to_le_bytes());
    bytes
}

fn decode_state(bytes: &[u8]) -> ZkCompressedState {
    let mut hash = [0u8; 32];
    hash.copy_from_slice(&bytes[..32]);
    let mut size = [0u8; 4];
    size.copy_from_slice(&bytes[32..36]);
    ZkCompressedState { state_hash: ZkScalar(hash), state_size: u32::from_le_bytes(size) }
}

fn tree_height<K: KvStore>(db: &K, cid: &ContractId) -> u64 {
    match read_blob(db, Key::Zk(*cid, HEIGHT, 0)) {
        Some(bytes) => {
            let mut raw = [0u8; 8];
            raw.copy_from_slice(&bytes[..8]);
            u64::from_le_bytes(raw)
        }
        None => 0,
    }
}

fn tree_root<K: KvStore>(db: &K, cid: &ContractId) -> ZkCompressedState {
    match read_blob(db, Key::Zk(*cid, ROOT, 0)) {
        Some(bytes) => decode_state(&bytes),
        None => state(0, 0),
    }
}

/// The toy tree of a contract is a single summary; a delta or a full state
/// sets it to the value of its first cell, with the number of cells as size.
fn summary_of_cells(first: Option<ZkScalar>, cells: usize) -> ZkCompressedState {
    ZkCompressedState { state_hash: first.unwrap_or(scalar(0)), state_size: cells as u32 }
}

impl ZkStateManager for Toy {
    fn get_mpn_account<K: KvStore>(
        db: &K,
        contract_id: &ContractId,
        index: u32,
    ) -> Result<MpnAccount, StateManagerError> {
        if index == u32::MAX {
            return Err(StateManagerError { code: 7 });
        }
        Ok(match read_blob(db, Key::Zk(*contract_id, ACCOUNTS, index as u64)) {
            Some(bytes) => {
                let mut x = [0u8; 32];
                x.copy_from_slice(&bytes[..32]);
                let mut balance = [0u8; 8];
                balance.copy_from_slice(&bytes[32..40]);
                let mut nonce = [0u8; 8];
                nonce.copy_from_slice(&bytes[40..48]);
                MpnAccount {
                    address: ZkPoint { x: ZkScalar(x), y: scalar(0) },
                    balance: u64::from_le_bytes(balance),
                    nonce: u64::from_le_bytes(nonce),
                }
            }
            None => MpnAccount {
                address: ZkPoint { x: scalar(0), y: scalar(0) },
                balance: 0,
                nonce: 0,
            },
        })
    }

    fn set_mpn_account<K: KvStore>(
        _db: &K,
        contract_id: &ContractId,
        index: u32,
        account: MpnAccount,
    ) -> Result<Vec<WriteOp>, StateManagerError> {
        let mut bytes = account.address.x.0.to_vec();
        bytes.extend_from_slice(&account.balance.to_le_bytes());
        bytes.extend_from_slice(&account.nonce.to_le_bytes());
        Ok(vec![
            WriteOp::Put(Key::Zk(*contract_id, ACCOUNTS, index as u64), Value::Blob(bytes)),
            // A write outside the manager's keys, which the engine must drop.
            WriteOp::Put(Key::Height, Value::Height(77)),
        ])
    }

    fn get_mpn_accounts<K: KvStore>(
        db: &K,
        contract_id: &ContractId,
        page: usize,
        page_size: usize,
    ) -> Result<Vec<(u32, MpnAccount)>, StateManagerError> {
        let mut accounts = Vec::new();
        for index in (page * page_size)..((page + 1) * page_size) {
            if read_blob(db, Key::Zk(*contract_id, ACCOUNTS, index as u64)).is_some() {
                accounts.push((index as u32, Self::get_mpn_account(db, contract_id, index as u32)?));
            }
        }
        Ok(accounts)
    }

    fn root<K: KvStore>(db: &K, cid: &ContractId) -> Result<ZkCompressedState, StateManagerError> {
        Ok(tree_root(db, cid))
    }

    fn height_of<K: KvStore>(db: &K, cid: &ContractId) -> Result<u64, StateManagerError> {
        Ok(tree_height(db, cid))
    }

    fn delta_of<K: KvStore>(
        db: &K,
        cid: &ContractId,
        away: u64,
    ) -> Result<Option<ZkDeltaPairs>, StateManagerError> {
        if away == 1 {
            let root = tree_root(db, cid);
            let mut pairs = Vec::new();
            for _ in 0..root.state_size {
                pairs.push(ZkDeltaPair {
                    locator: ZkDataLocator(vec![0]),
                    value: Some(root.state_hash),
                });
            }
            Ok(Some(ZkDeltaPairs(pairs)))
        } else {
            Ok(None)
        }
    }

    fn get_full_state<K: KvStore>(
        db: &K,
        cid: &ContractId,
    ) -> Result<ZkDataPairs, StateManagerError> {
        let root = tree_root(db, cid);
        let mut pairs = Vec::new();
        for _ in 0..root.state_size {
            pairs.push(ZkDataPair { locator: ZkDataLocator(vec![0]), value: root.state_hash });
        }
        Ok(ZkDataPairs(pairs))
    }

    fn reset_contract<K: KvStore>(
        _db: &K,
        cid: &ContractId,
        height: u64,
        full: &ZkDataPairs,
    ) -> Result<(Vec<ZkCompressedState>, Vec<WriteOp>), StateManagerError> {
        let root = summary_of_cells(full.0.first().map(|pair| pair.value), full.0.len());
        // In the toy tree, the cells under the locator 9 tell the summaries
        // of the states before, the latest first.
        let earlier = full
            .0
            .iter()
            .filter(|pair| pair.locator.0 == vec![9])
            .map(|pair| ZkCompressedState { state_hash: pair.value, state_size: 2 })
            .collect();
        Ok((
            earlier,
            vec![
                WriteOp::Put(Key::Zk(*cid, ROOT, 0), Value::Blob(encode_state(&root))),
                WriteOp::Put(Key::Zk(*cid, HEIGHT, 0), Value::Blob(height.to_le_bytes().to_vec())),
            ],
        ))
    }

    fn update_contract<K: KvStore>(
        db: &K,
        cid: &ContractId,
        delta: &ZkDeltaPairs,
    ) -> Result<Vec<WriteOp>, StateManagerError> {
        let height = tree_height(db, cid);
        let root = summary_of_cells(delta.0.first().and_then(|pair| pair.value), delta.0.len());
        Ok(vec![
            WriteOp::Put(
                Key::Zk(*cid, HISTORY, height),
                Value::Blob(encode_state(&tree_root(db, cid))),
            ),
            WriteOp::Put(Key::Zk(*cid, ROOT, 0), Value::Blob(encode_state(&root))),
            WriteOp::Put(
                Key::Zk(*cid, HEIGHT, 0),
                Value::Blob((height + 1).to_le_bytes().to_vec()),
            ),
        ])
    }

    fn rollback_contract<K: KvStore>(
        db: &K,
        cid: &ContractId,
    ) -> Result<(Option<ZkCompressedState>, Vec<WriteOp>), StateManagerError> {
        let height = tree_height(db, cid);
        if height == 0 {
            return Ok((None, Vec::new()));
        }
        match read_blob(db, Key::Zk(*cid, HISTORY, height - 1)) {
            Some(bytes) => Ok((
                Some(decode_state(&bytes)),
                vec![
                    WriteOp::Put(Key::Zk(*cid, ROOT, 0), Value::Blob(bytes)),
                    WriteOp::Put(
                        Key::Zk(*cid, HEIGHT, 0),
                        Value::Blob((height - 1).to_le_bytes().to_vec()),
                    ),
                    WriteOp::Remove(Key::Zk(*cid, HISTORY, height - 1)),
                ],
            )),
            None => Ok((None, Vec::new())),
        }
    }

    fn delete_contract<K: KvStore>(
        _db: &K,
        cid: &ContractId,
    ) -> Result<Vec<WriteOp>, StateManagerError> {
        Ok(vec![
            WriteOp::Remove(Key::Zk(*cid, ROOT, 0)),
            WriteOp::Remove(Key::Zk(*cid, HEIGHT, 0)),
        ])
    }

    fn get_data<K: KvStore>(
        db: &K,
        cid: &ContractId,
        locator: &ZkDataLocator,
    ) -> Result<ZkScalar, StateManagerError> {
        if locator.0.is_empty() {
            Ok(tree_root(db, cid).state_hash)
        } else {
            Err(StateManagerError { code: 2 })
        }
    }
}

impl Primitives for Toy {}

type Chain = KvStoreChain<RamKvStore, Toy>;

const MPN: ContractId = ContractId([9u8; 32]);

fn keys(seed: &[u8]) -> (PublicKey, PrivateKey) {
    Ed25519::<Toy>::generate_keys(seed)
}

fn sign(tx: &mut Transaction, sk: &PrivateKey) {
    tx.sig = Signature::Unsigned;
    let digest = Toy::transaction_digest(tx);
    tx.sig = Signature::Signed(Ed25519::<Toy>::sign(sk, &digest));
}

fn send(from: &(PublicKey, PrivateKey), to: Address, amount: u64, fee: u64, nonce: u32) -> Transaction {
    let mut tx = Transaction {
        src: Address::PublicKey(from.0),
        nonce,
        data: TransactionData::RegularSend { dst: to, amount },
        fee,
        sig: Signature::Unsigned,
    };
    sign(&mut tx, &from.1);
    tx
}

fn treasury_send(to: Address, amount: u64, nonce: u32) -> Transaction {
    Transaction {
        src: Address::Treasury,
        nonce,
        data: TransactionData::RegularSend { dst: to, amount },
        fee: 0,
        sig: Signature::Unsigned,
    }
}

fn genesis_block(body: Vec<Transaction>) -> Block {
    let mut block = Block {
        header: Header {
            parent_hash: [0u8; 32],
            number: 0,
            block_root: [0u8; 32],
            proof_of_work: ProofOfWork { timestamp: 0, target: Difficulty(100), nonce: 200 },
        },
        body,
    };
    block.header.block_root = block.merkle_tree::<Toy>().root();
    block
}

fn config(genesis_body: Vec<Transaction>) -> BlockchainConfig {
    BlockchainConfig {
        genesis: BlockAndPatch {
            block: genesis_block(genesis_body),
            patch: ZkBlockchainPatch { patches: Vec::new() },
        },
        total_supply: 1_000_000,
        reward_ratio: 100_000,
        max_block_size: 100_000,
        max_delta_count: 1_000,
        block_time: 60,
        difficulty_calc_interval: 1,
        pow_base_key: b"BASE KEY",
        pow_key_change_delay: 4,
        pow_key_change_interval: 2,
        median_timestamp_count: 3,
        mpn_contract_id: MPN,
        mpn_num_function_calls: 0,
        mpn_num_contract_payments: 0,
        minimum_pow_difficulty: Difficulty(1),
    }
}

fn chain(genesis_body: Vec<Transaction>) -> Chain {
    Chain::new(RamKvStore::new(), config(genesis_body)).unwrap()
}

fn wallet() -> Wallet {
    Wallet::new(Address::PublicKey(keys(b"MINER").0))
}

fn pool(txs: Vec<Transaction>) -> Vec<(TransactionAndDelta, TransactionStats)> {
    txs.into_iter()
        .map(|tx| (TransactionAndDelta { tx, state_delta: None }, TransactionStats { first_seen: 0 }))
        .collect()
}

/// Drafts a block with the given transactions and applies it.
fn mine(chain: &mut Chain, txs: Vec<Transaction>) -> Block {
    let draft = chain.draft_block(10, &pool(txs), &wallet(), true).unwrap().unwrap();
    chain.apply_block(&draft.block, true).unwrap();
    chain.update_states(&draft.patch).unwrap();
    draft.block
}

fn balance(chain: &Chain, address: Address) -> u64 {
    chain.get_account(address).unwrap().balance
}

#[test]
fn genesis_only_boot() {
    let chain = chain(Vec::new());
    assert_eq!(chain.get_height(), Ok(1));
    assert_eq!(chain.get_account(Address::Treasury).unwrap().balance, 1_000_000);
    assert_eq!(chain.get_account(Address::Treasury).unwrap().nonce, 0);
    assert_eq!(chain.get_power(), Ok(100));
    assert_eq!(chain.get_outdated_contracts(), Ok(Vec::new()));
}

#[test]
fn simple_transfer() {
    let a = keys(b"A");
    let b = Address::PublicKey(keys(b"B").0);
    let mut chain = chain(vec![treasury_send(Address::PublicKey(a.0), 100, 1)]);
    assert_eq!(balance(&chain, Address::PublicKey(a.0)), 100);
    let treasury = balance(&chain, Address::Treasury);
    let reward = chain.next_reward().unwrap();
    mine(&mut chain, vec![send(&a, b, 30, 5, 1)]);
    assert_eq!(chain.get_height(), Ok(2));
    assert_eq!(chain.get_account(Address::PublicKey(a.0)), Ok(Account { balance: 65, nonce: 1 }));
    assert_eq!(chain.get_account(b), Ok(Account { balance: 30, nonce: 0 }));
    // The treasury pays the reward and the fee to the miner, and gets the fee.
    assert_eq!(balance(&chain, Address::Treasury), treasury - (reward + 5) + 5);
    assert_eq!(balance(&chain, wallet().get_address()), reward + 5);
}

#[test]
fn self_payment_rejection() {
    let a = keys(b"A");
    let mut chain = chain(vec![treasury_send(Address::PublicKey(a.0), 100, 1)]);
    let tx = send(&a, Address::PublicKey(a.0), 30, 5, 1);
    assert_eq!(
        chain.apply_tx(&tx, false).err(),
        Some(BlockchainError::SelfPaymentNotAllowed)
    );
    assert_eq!(chain.get_account(Address::PublicKey(a.0)), Ok(Account { balance: 100, nonce: 0 }));
    assert_eq!(balance(&chain, Address::Treasury), 1_000_000 - 100);
    assert_eq!(chain.get_height(), Ok(1));
}

#[test]
fn rollback_inverse() {
    let a = keys(b"A");
    let b = Address::PublicKey(keys(b"B").0);
    let mut chain = chain(vec![treasury_send(Address::PublicKey(a.0), 100, 1)]);
    let treasury = chain.get_account(Address::Treasury).unwrap();
    mine(&mut chain, vec![send(&a, b, 30, 5, 1)]);
    assert!(chain.database().get(&Key::Rollback(1)).is_some());
    chain.rollback().unwrap();
    assert_eq!(chain.get_height(), Ok(1));
    assert_eq!(chain.get_account(Address::PublicKey(a.0)), Ok(Account { balance: 100, nonce: 0 }));
    assert_eq!(chain.get_account(b), Ok(Account { balance: 0, nonce: 0 }));
    assert_eq!(chain.get_account(Address::Treasury), Ok(treasury));
    assert_eq!(chain.get_account(wallet().get_address()), Ok(Account { balance: 0, nonce: 0 }));
    assert!(chain.database().get(&Key::Rollback(1)).is_none());
    assert!(chain.database().get(&Key::Header(1)).is_none());
    assert!(chain.database().get(&Key::Block(1)).is_none());
    assert!(chain.database().get(&Key::Power(1)).is_none());
    assert_eq!(chain.get_power(), Ok(100));
}

/// Drafts a block, gives its header the nonce, and applies it. In the toy
/// rules the nonce of a header sets the target of the next one (half of it),
/// and an odd nonce fails the proof of work.
fn mine_with_nonce(chain: &mut Chain, nonce: u64) -> Block {
    let mut block = chain.draft_block(10, &Vec::new(), &wallet(), true).unwrap().unwrap().block;
    block.header.proof_of_work.nonce = nonce;
    chain.apply_block(&block, true).unwrap();
    block
}

fn next_header(parent: &Header, target: u32, nonce: u64) -> Header {
    Header {
        parent_hash: Toy::header_digest(parent),
        number: parent.number + 1,
        block_root: [0u8; 32],
        proof_of_work: ProofOfWork { timestamp: 20, target: Difficulty(target), nonce },
    }
}

/// A chain of height 5 and power 500, whose next block must have target 200.
fn chain_of_five() -> Chain {
    let mut chain = chain(Vec::new());
    mine_with_nonce(&mut chain, 200);
    mine_with_nonce(&mut chain, 200);
    mine_with_nonce(&mut chain, 200);
    mine_with_nonce(&mut chain, 400);
    assert_eq!(chain.get_height(), Ok(5));
    assert_eq!(chain.get_power(), Ok(500));
    chain
}

fn three_headers(chain: &Chain) -> Vec<Header> {
    let h5 = next_header(&chain.get_header(4).unwrap(), 200, 400);
    let h6 = next_header(&h5, 200, 400);
    let h7 = next_header(&h6, 200, 400);
    vec![h5, h6, h7]
}

#[test]
fn fork_choice() {
    let mut chain = chain_of_five();
    let headers = three_headers(&chain);
    assert_eq!(chain.will_extend(5, &headers, true), Ok(true));
    // With blocks of power 200 and 500 on top, the chain has power 1200.
    mine_with_nonce(&mut chain, 1000);
    mine_with_nonce(&mut chain, 0);
    assert_eq!(chain.get_power(), Ok(1200));
    assert_eq!(chain.will_extend(5, &headers, true), Ok(false));
}

#[test]
fn fork_choice_needs_strictly_more_power() {
    let mut chain = chain_of_five();
    let headers = three_headers(&chain);
    mine_with_nonce(&mut chain, 400);
    mine_with_nonce(&mut chain, 400);
    mine_with_nonce(&mut chain, 400);
    assert_eq!(chain.get_power(), Ok(1100));
    assert_eq!(chain.will_extend(5, &headers, true), Ok(false));
    assert_eq!(chain.will_extend(8, &Vec::new(), true), Ok(false));
}

#[test]
fn fork_choice_errors() {
    let chain = chain_of_five();
    let headers = three_headers(&chain);
    assert_eq!(chain.will_extend(0, &headers, true), Err(BlockchainError::ExtendFromGenesis));
    assert_eq!(chain.will_extend(6, &headers, true), Err(BlockchainError::ExtendFromFuture));

    let mut wrong_target = headers.clone();
    wrong_target[0].proof_of_work.target = Difficulty(201);
    assert_eq!(
        chain.will_extend(5, &wrong_target, true),
        Err(BlockchainError::DifficultyTargetWrong)
    );

    let mut unmet = headers.clone();
    unmet[2].proof_of_work.nonce = 401;
    assert_eq!(chain.will_extend(5, &unmet, true), Err(BlockchainError::DifficultyTargetUnmet));
    assert_eq!(chain.will_extend(5, &unmet, false), Ok(true));

    let mut wrong_number = headers.clone();
    wrong_number[0].number = 6;
    assert_eq!(
        chain.will_extend(5, &wrong_number, true),
        Err(BlockchainError::InvalidBlockNumber)
    );

    let mut wrong_parent = headers.clone();
    wrong_parent[1].parent_hash = [1u8; 32];
    assert_eq!(
        chain.will_extend(5, &wrong_parent, true),
        Err(BlockchainError::InvalidParentHash)
    );

    let mut early = headers.clone();
    early[0].proof_of_work.timestamp = 9;
    assert_eq!(chain.will_extend(5, &early, true), Err(BlockchainError::InvalidTimestamp));
    // A timestamp equal to the median is accepted.
    let mut at_median = headers.clone();
    at_median[0].proof_of_work.timestamp = 10;
    at_median[1].parent_hash = Toy::header_digest(&at_median[0]);
    at_median[2].parent_hash = Toy::header_digest(&at_median[1]);
    assert_eq!(chain.median_timestamp(4), Ok(10));
    assert_eq!(chain.will_extend(5, &at_median, true), Ok(true));
}

#[test]
fn mpn_update_floor() {
    let mut cfg = config(Vec::new());
    cfg.mpn_num_function_calls = 1;
    let chain = Chain::new(RamKvStore::new(), cfg).unwrap();
    assert_eq!(chain.draft_block(10, &Vec::new(), &wallet(), true), Ok(None));
}

#[test]
fn mpn_payment_floor() {
    let mut cfg = config(Vec::new());
    cfg.mpn_num_contract_payments = 1;
    let mut chain = Chain::new(RamKvStore::new(), cfg).unwrap();
    assert_eq!(chain.draft_block(10, &Vec::new(), &wallet(), true), Ok(None));
    let block = genesis_only_successor(&chain);
    assert_eq!(chain.apply_block(&block, true), Err(BlockchainError::InsufficientMpnUpdates));
}

/// The block that a chain without any floor would draft on the same state.
fn genesis_only_successor(chain: &Chain) -> Block {
    let reward = chain.next_reward().unwrap();
    let mut block = Block {
        header: next_header(&chain.get_tip().unwrap(), 100, 0),
        body: vec![treasury_send(
            wallet().get_address(),
            reward,
            chain.get_account(Address::Treasury).unwrap().nonce + 1,
        )],
    };
    block.header.block_root = block.merkle_tree::<Toy>().root();
    block
}

#[test]
fn drafted_block_follows_the_tip() {
    let a = keys(b"A");
    let b = Address::PublicKey(keys(b"B").0);
    let chain = chain(vec![treasury_send(Address::PublicKey(a.0), 100, 1)]);
    let tx = send(&a, b, 30, 5, 1);
    let draft = chain.draft_block(33, &pool(vec![tx.clone()]), &wallet(), true).unwrap().unwrap();
    let tip = chain.get_tip().unwrap();
    assert_eq!(draft.block.header.number, 1);
    assert_eq!(draft.block.header.parent_hash, Toy::header_digest(&tip));
    assert_eq!(draft.block.header.proof_of_work.timestamp, 33);
    assert_eq!(draft.block.header.proof_of_work.target, Difficulty(100));
    assert_eq!(draft.block.header.proof_of_work.nonce, 0);
    assert_eq!(draft.block.header.block_root, draft.block.merkle_tree::<Toy>().root());
    assert_eq!(draft.block.body.len(), 2);
    assert_eq!(
        draft.block.body[0],
        treasury_send(wallet().get_address(), chain.next_reward().unwrap() + 5, 2)
    );
    assert_eq!(draft.block.body[1], tx);
    assert_eq!(draft.patch.patches.len(), 0);
    // Drafting changes nothing.
    assert_eq!(chain.get_height(), Ok(1));
    assert_eq!(balance(&chain, Address::PublicKey(a.0)), 100);
}

#[test]
fn next_reward_is_a_share_of_the_treasury() {
    let a = Address::PublicKey(keys(b"A").0);
    let chain = chain(vec![treasury_send(a, 100, 1)]);
    assert_eq!(chain.next_reward(), Ok((1_000_000 - 100) / 100_000));
}

#[test]
fn transaction_errors() {
    let a = keys(b"A");
    let b = Address::PublicKey(keys(b"B").0);
    let mut chain = chain(vec![treasury_send(Address::PublicKey(a.0), 100, 1)]);
    assert_eq!(
        chain.apply_tx(&treasury_send(b, 1, 2), false).err(),
        Some(BlockchainError::IllegalTreasuryAccess)
    );
    assert_eq!(
        chain.apply_tx(&send(&a, b, 30, 5, 2), false).err(),
        Some(BlockchainError::InvalidTransactionNonce)
    );
    assert_eq!(
        chain.apply_tx(&send(&a, b, 30, 5, 0), false).err(),
        Some(BlockchainError::InvalidTransactionNonce)
    );
    assert_eq!(
        chain.apply_tx(&send(&a, b, 0, 101, 1), false).err(),
        Some(BlockchainError::BalanceInsufficient)
    );
    assert_eq!(
        chain.apply_tx(&send(&a, b, 96, 5, 1), false).err(),
        Some(BlockchainError::BalanceInsufficient)
    );
    assert_eq!(
        chain.validate_transaction(&TransactionAndDelta {
            tx: send(&a, b, 96, 5, 1),
            state_delta: None
        }),
        Err(BlockchainError::BalanceInsufficient)
    );
    // Nothing of this left a trace.
    assert_eq!(chain.get_account(Address::PublicKey(a.0)), Ok(Account { balance: 100, nonce: 0 }));
    assert_eq!(chain.apply_tx(&send(&a, b, 95, 5, 1), false).ok(), Some(TxSideEffect::Nothing));
    assert_eq!(chain.get_account(Address::PublicKey(a.0)), Ok(Account { balance: 0, nonce: 1 }));
    assert_eq!(chain.get_account(b), Ok(Account { balance: 95, nonce: 0 }));
    assert_eq!(balance(&chain, Address::Treasury), 1_000_000 - 100 + 5);
}

#[test]
fn treasury_transaction_with_leave() {
    let b = Address::PublicKey(keys(b"B").0);
    let mut chain = chain(Vec::new());
    assert_eq!(chain.apply_tx(&treasury_send(b, 7, 1), true).ok(), Some(TxSideEffect::Nothing));
    assert_eq!(chain.get_account(Address::Treasury), Ok(Account { balance: 999_993, nonce: 1 }));
    assert_eq!(chain.get_account(b), Ok(Account { balance: 7, nonce: 0 }));
}

fn contract() -> ZkContract {
    ZkContract {
        initial_state: state(5, 2),
        state_model: ZkStateModel(vec![1, 2, 3]),
        payment_functions: vec![ZkPaymentVerifierKey {
            verifier_key: ZkVerifierKey(vec![1]),
            log4_payment_capacity: 1,
        }],
        functions: vec![ZkVerifierKey(vec![2])],
    }
}

fn create(from: &(PublicKey, PrivateKey), nonce: u32, fee: u64) -> Transaction {
    let mut tx = Transaction {
        src: Address::PublicKey(from.0),
        nonce,
        data: TransactionData::CreateContract { contract: contract() },
        fee,
        sig: Signature::Unsigned,
    };
    sign(&mut tx, &from.1);
    tx
}

fn proof_of(next: &ZkCompressedState) -> ZkProof {
    ZkProof(next.state_hash.0[..8].to_vec())
}

fn call(next: ZkCompressedState, fee: u64) -> ContractUpdate {
    ContractUpdate::FunctionCall { function_id: 0, next_state: next, proof: proof_of(&next), fee }
}

fn payment(
    from: &(PublicKey, PrivateKey),
    cid: ContractId,
    nonce: u32,
    amount: u64,
    fee: u64,
    direction: PaymentDirection,
) -> ContractPayment {
    let mut p = ContractPayment {
        address: from.0,
        zk_address: ZkPublicKey([3u8; 32]),
        contract_id: cid,
        nonce,
        amount,
        fee,
        direction,
        sig: Signature::Unsigned,
    };
    let digest = Toy::payment_digest(&p);
    p.sig = Signature::Signed(Ed25519::<Toy>::sign(&from.1, &digest));
    p
}

fn update(
    from: &(PublicKey, PrivateKey),
    cid: ContractId,
    nonce: u32,
    fee: u64,
    updates: Vec<ContractUpdate>,
) -> Transaction {
    let mut tx = Transaction {
        src: Address::PublicKey(from.0),
        nonce,
        data: TransactionData::UpdateContract { contract_id: cid, updates },
        fee,
        sig: Signature::Unsigned,
    };
    sign(&mut tx, &from.1);
    tx
}

fn delta_to(next: &ZkCompressedState) -> ZkDeltaPairs {
    ZkDeltaPairs(
        (0..next.state_size)
            .map(|_| ZkDeltaPair { locator: ZkDataLocator(vec![0]), value: Some(next.state_hash) })
            .collect(),
    )
}

/// A chain on which `a` and `b` hold 100 each and `a` has created a
/// contract.
fn chain_with_contract() -> (Chain, (PublicKey, PrivateKey), (PublicKey, PrivateKey), ContractId) {
    let a = keys(b"A");
    let b = keys(b"B");
    let mut chain = chain(vec![
        treasury_send(Address::PublicKey(a.0), 100, 1),
        treasury_send(Address::PublicKey(b.0), 100, 2),
    ]);
    let tx = create(&a, 1, 1);
    let cid = ContractId(Toy::transaction_digest(&tx));
    let effect = chain.apply_tx(&tx, false).unwrap();
    assert_eq!(
        effect,
        TxSideEffect::StateChange {
            contract_id: cid,
            state_change: bazuka::blockchain::ZkCompressedStateChange {
                prev_state: state(3, 0),
                state: state(5, 2),
                prev_height: 0,
            },
        }
    );
    (chain, a, b, cid)
}

#[test]
fn contract_creation() {
    let (chain, a, _, cid) = chain_with_contract();
    assert_eq!(chain.get_contract(cid), Ok(contract()));
    let account = chain.get_contract_account(cid).unwrap();
    assert_eq!(account.compressed_state, state(5, 2));
    assert_eq!(account.balance, 0);
    assert_eq!(account.height, 1);
    assert_eq!(
        chain.database().get(&Key::CompressedStateAt(cid, 1)),
        Some(Value::CompressedState(state(5, 2)))
    );
    assert_eq!(chain.get_compressed_state_at(cid, 0), Ok(state(3, 0)));
    assert_eq!(
        chain.get_compressed_state_at(cid, 1),
        Err(BlockchainError::CompressedStateNotFound)
    );
    assert_eq!(chain.get_account(Address::PublicKey(a.0)), Ok(Account { balance: 99, nonce: 1 }));
    assert_eq!(
        chain.get_contract(ContractId([1u8; 32])).err(),
        Some(BlockchainError::ContractNotFound)
    );
    assert_eq!(
        chain.get_contract_account(ContractId([1u8; 32])),
        Err(BlockchainError::ContractNotFound)
    );
}

#[test]
fn contract_creation_needs_a_valid_model() {
    let a = keys(b"A");
    let mut chain = chain(vec![treasury_send(Address::PublicKey(a.0), 100, 1)]);
    let mut bad = contract();
    bad.state_model = ZkStateModel(Vec::new());
    let mut tx = Transaction {
        src: Address::PublicKey(a.0),
        nonce: 1,
        data: TransactionData::CreateContract { contract: bad },
        fee: 0,
        sig: Signature::Unsigned,
    };
    sign(&mut tx, &a.1);
    assert_eq!(chain.apply_tx(&tx, false).err(), Some(BlockchainError::InvalidStateModel));
}

#[test]
fn deposit_and_function_call() {
    let (mut chain, a, b, cid) = chain_with_contract();
    let deposit = payment(&b, cid, 1, 10, 2, PaymentDirection::Deposit);
    let tx = update(
        &a,
        cid,
        2,
        1,
        vec![ContractUpdate::Payment {
            circuit_id: 0,
            payments: vec![deposit],
            next_state: state(6, 3),
            proof: proof_of(&state(6, 3)),
        }],
    );
    let effect = chain.apply_tx(&tx, false).unwrap();
    assert_eq!(
        effect,
        TxSideEffect::StateChange {
            contract_id: cid,
            state_change: bazuka::blockchain::ZkCompressedStateChange {
                prev_state: state(5, 2),
                state: state(6, 3),
                prev_height: 1,
            },
        }
    );
    // The payer pays the amount and the fee; the executor earns the fee and
    // pays the fee of the transaction.
    assert_eq!(chain.get_account(Address::PublicKey(b.0)), Ok(Account { balance: 88, nonce: 1 }));
    assert_eq!(chain.get_account(Address::PublicKey(a.0)), Ok(Account { balance: 100, nonce: 2 }));
    let account = chain.get_contract_account(cid).unwrap();
    assert_eq!((account.balance, account.height, account.compressed_state), (10, 2, state(6, 3)));
    assert_eq!(chain.get_compressed_state_at(cid, 1), Ok(state(5, 2)));
    assert_eq!(
        chain.database().get(&Key::CompressedStateAt(cid, 2)),
        Some(Value::CompressedState(state(6, 3)))
    );

    let tx = update(&a, cid, 3, 0, vec![call(state(7, 1), 4)]);
    chain.apply_tx(&tx, false).unwrap();
    let account = chain.get_contract_account(cid).unwrap();
    assert_eq!((account.balance, account.height, account.compressed_state), (6, 3, state(7, 1)));
    assert_eq!(chain.get_account(Address::PublicKey(a.0)), Ok(Account { balance: 104, nonce: 3 }));
}

#[test]
fn withdrawal() {
    let (mut chain, a, b, cid) = chain_with_contract();
    chain.apply_contract_payment(&payment(&b, cid, 1, 50, 0, PaymentDirection::Deposit)).unwrap();
    assert_eq!(chain.get_contract_account(cid).unwrap().balance, 50);
    assert_eq!(chain.get_account(Address::PublicKey(b.0)), Ok(Account { balance: 50, nonce: 1 }));
    chain.apply_contract_payment(&payment(&a, cid, 2, 20, 3, PaymentDirection::Withdraw)).unwrap();
    assert_eq!(chain.get_contract_account(cid).unwrap().balance, 27);
    assert_eq!(chain.get_account(Address::PublicKey(a.0)), Ok(Account { balance: 119, nonce: 2 }));
}

#[test]
fn contract_payment_errors() {
    let (mut chain, a, b, cid) = chain_with_contract();
    let mut unsigned = payment(&b, cid, 1, 10, 2, PaymentDirection::Deposit);
    unsigned.sig = Signature::Unsigned;
    assert_eq!(
        chain.apply_contract_payment(&unsigned),
        Err(BlockchainError::InvalidContractPaymentSignature)
    );
    let mut forged = payment(&b, cid, 1, 10, 2, PaymentDirection::Deposit);
    forged.amount = 11;
    assert_eq!(
        chain.validate_contract_payment(&forged),
        Err(BlockchainError::InvalidContractPaymentSignature)
    );
    assert_eq!(
        chain.apply_contract_payment(&payment(
            &b,
            ContractId([1u8; 32]),
            1,
            10,
            2,
            PaymentDirection::Deposit
        )),
        Err(BlockchainError::ContractNotFound)
    );
    assert_eq!(
        chain.apply_contract_payment(&payment(&b, cid, 2, 10, 2, PaymentDirection::Deposit)),
        Err(BlockchainError::InvalidTransactionNonce)
    );
    assert_eq!(
        chain.apply_contract_payment(&payment(&b, cid, 1, 99, 2, PaymentDirection::Deposit)),
        Err(BlockchainError::BalanceInsufficient)
    );
    assert_eq!(
        chain.apply_contract_payment(&payment(&b, cid, 1, u64::MAX, 2, PaymentDirection::Deposit)),
        Err(BlockchainError::BalanceInsufficient)
    );
    assert_eq!(
        chain.apply_contract_payment(&payment(&a, cid, 2, 1, 0, PaymentDirection::Withdraw)),
        Err(BlockchainError::ContractBalanceInsufficient)
    );
    assert_eq!(chain.get_account(Address::PublicKey(b.0)), Ok(Account { balance: 100, nonce: 0 }));
}

#[test]
fn contract_update_errors() {
    let (mut chain, a, b, cid) = chain_with_contract();
    let own = payment(&a, cid, 2, 10, 2, PaymentDirection::Deposit);
    let batch = |payments: Vec<ContractPayment>, circuit_id: u32| ContractUpdate::Payment {
        circuit_id,
        payments,
        next_state: state(6, 3),
        proof: proof_of(&state(6, 3)),
    };
    assert_eq!(
        chain.apply_tx(&update(&a, cid, 2, 0, vec![batch(vec![own], 0)]), false).err(),
        Some(BlockchainError::CannotExecuteOwnPayments)
    );
    assert_eq!(
        chain.apply_tx(&update(&a, cid, 2, 0, vec![batch(Vec::new(), 1)]), false).err(),
        Some(BlockchainError::ContractFunctionNotFound)
    );
    assert_eq!(
        chain
            .apply_tx(
                &update(
                    &a,
                    cid,
                    2,
                    0,
                    vec![ContractUpdate::FunctionCall {
                        function_id: 1,
                        next_state: state(6, 3),
                        proof: proof_of(&state(6, 3)),
                        fee: 0,
                    }]
                ),
                false
            )
            .err(),
        Some(BlockchainError::ContractFunctionNotFound)
    );
    assert_eq!(
        chain.apply_tx(&update(&a, cid, 2, 0, vec![call(state(6, 3), 1)]), false).err(),
        Some(BlockchainError::ContractBalanceInsufficient)
    );
    assert_eq!(
        chain
            .apply_tx(
                &update(
                    &a,
                    cid,
                    2,
                    0,
                    vec![ContractUpdate::FunctionCall {
                        function_id: 0,
                        next_state: state(6, 3),
                        proof: ZkProof(vec![0]),
                        fee: 0,
                    }]
                ),
                false
            )
            .err(),
        Some(BlockchainError::IncorrectZkProof)
    );
    assert_eq!(
        chain
            .apply_tx(&update(&a, ContractId([1u8; 32]), 2, 0, vec![call(state(6, 3), 0)]), false)
            .err(),
        Some(BlockchainError::ContractNotFound)
    );
    // Five payments do not fit in a batch of four slots.
    let many: Vec<ContractPayment> = (1..=5)
        .map(|nonce| payment(&b, cid, nonce, 1, 0, PaymentDirection::Deposit))
        .collect();
    assert_eq!(
        chain.apply_tx(&update(&a, cid, 2, 0, vec![batch(many, 0)]), false).err(),
        Some(BlockchainError::StateManagerError(StateManagerError { code: 1 }))
    );
    // A failed update leaves no trace, not even of the payments that went
    // through before the failure.
    assert_eq!(chain.get_account(Address::PublicKey(b.0)), Ok(Account { balance: 100, nonce: 0 }));
    assert_eq!(chain.get_contract_account(cid).unwrap().height, 1);
}

#[test]
fn executor_is_credited_the_fees_so_far_after_each_update() {
    let (mut chain, a, b, cid) = chain_with_contract();
    chain.apply_contract_payment(&payment(&b, cid, 1, 50, 0, PaymentDirection::Deposit)).unwrap();
    let tx = update(&a, cid, 2, 0, vec![call(state(6, 3), 4), call(state(7, 3), 6)]);
    chain.apply_tx(&tx, false).unwrap();
    // 4 after the first update, 4 + 6 after the second.
    assert_eq!(balance(&chain, Address::PublicKey(a.0)), 99 + 4 + 10);
    assert_eq!(chain.get_contract_account(cid).unwrap().balance, 40);
    // One step of height for the transaction, not one for each update.
    assert_eq!(chain.get_contract_account(cid).unwrap().height, 2);
}

fn total(chain: &Chain, addresses: &[Address], contracts: &[ContractId]) -> u64 {
    addresses.iter().map(|a| balance(chain, *a)).sum::<u64>()
        + contracts.iter().map(|c| chain.get_contract_account(*c).unwrap().balance).sum::<u64>()
}

#[test]
fn conservation() {
    let (mut chain, a, b, cid) = chain_with_contract();
    let everyone = [
        Address::Treasury,
        Address::PublicKey(a.0),
        Address::PublicKey(b.0),
        wallet().get_address(),
    ];
    assert_eq!(total(&chain, &everyone, &[cid]), 1_000_000);
    chain.apply_tx(&send(&a, Address::PublicKey(b.0), 10, 3, 2), false).unwrap();
    assert_eq!(total(&chain, &everyone, &[cid]), 1_000_000);
    let deposit = payment(&b, cid, 1, 10, 2, PaymentDirection::Deposit);
    let batch = ContractUpdate::Payment {
        circuit_id: 0,
        payments: vec![deposit],
        next_state: state(6, 3),
        proof: proof_of(&state(6, 3)),
    };
    chain.apply_tx(&update(&a, cid, 3, 1, vec![batch]), false).unwrap();
    assert_eq!(total(&chain, &everyone, &[cid]), 1_000_000);
    chain.apply_tx(&update(&a, cid, 4, 1, vec![call(state(7, 3), 5)]), false).unwrap();
    assert_eq!(total(&chain, &everyone, &[cid]), 1_000_000);
    // A payment alone leaves its fee for the executor.
    chain.apply_contract_payment(&payment(&b, cid, 2, 10, 2, PaymentDirection::Deposit)).unwrap();
    assert_eq!(total(&chain, &everyone, &[cid]), 1_000_000 - 2);
}

#[test]
fn conservation_across_blocks_and_rollback() {
    let a = keys(b"A");
    let b = Address::PublicKey(keys(b"B").0);
    let mut chain = chain(vec![treasury_send(Address::PublicKey(a.0), 100, 1)]);
    let everyone = [Address::Treasury, Address::PublicKey(a.0), b, wallet().get_address()];
    assert_eq!(total(&chain, &everyone, &[]), 1_000_000);
    mine(&mut chain, vec![send(&a, b, 30, 5, 1)]);
    assert_eq!(total(&chain, &everyone, &[]), 1_000_000);
    mine(&mut chain, vec![send(&a, b, 1, 1, 2)]);
    assert_eq!(total(&chain, &everyone, &[]), 1_000_000);
    chain.rollback().unwrap();
    assert_eq!(total(&chain, &everyone, &[]), 1_000_000);
    chain.rollback().unwrap();
    assert_eq!(total(&chain, &everyone, &[]), 1_000_000);
    assert_eq!(chain.get_height(), Ok(1));
}

#[test]
fn nonces_only_grow() {
    let a = keys(b"A");
    let b = keys(b"B");
    let mut chain = chain(vec![
        treasury_send(Address::PublicKey(a.0), 100, 1),
        treasury_send(Address::PublicKey(b.0), 100, 2),
    ]);
    assert_eq!(chain.get_account(Address::Treasury).unwrap().nonce, 2);
    mine(
        &mut chain,
        vec![
            send(&a, Address::PublicKey(b.0), 1, 0, 1),
            send(&a, Address::PublicKey(b.0), 1, 0, 2),
            send(&b, Address::PublicKey(a.0), 1, 0, 1),
        ],
    );
    assert_eq!(chain.get_account(Address::PublicKey(a.0)).unwrap().nonce, 2);
    assert_eq!(chain.get_account(Address::PublicKey(b.0)).unwrap().nonce, 1);
    assert_eq!(chain.get_account(Address::Treasury).unwrap().nonce, 3);
}

#[test]
fn block_errors() {
    let a = keys(b"A");
    let b = Address::PublicKey(keys(b"B").0);
    let mut chain = chain(vec![treasury_send(Address::PublicKey(a.0), 100, 1)]);
    let good = chain
        .draft_block(10, &pool(vec![send(&a, b, 30, 5, 1)]), &wallet(), true)
        .unwrap()
        .unwrap()
        .block;
    let reseal = |mut block: Block| {
        block.header.block_root = block.merkle_tree::<Toy>().root();
        block
    };

    let mut block = good.clone();
    block.header.block_root = [1u8; 32];
    assert_eq!(chain.apply_block(&block, true), Err(BlockchainError::InvalidMerkleRoot));

    let mut block = good.clone();
    block.body.clear();
    assert_eq!(chain.apply_block(&reseal(block), true), Err(BlockchainError::MinerRewardNotFound));

    let mut block = good.clone();
    block.body.remove(1);
    assert_eq!(chain.apply_block(&reseal(block), true), Err(BlockchainError::InvalidMinerReward));

    let mut block = good.clone();
    block.body[0].fee = 1;
    assert_eq!(chain.apply_block(&reseal(block), true), Err(BlockchainError::InvalidMinerReward));

    let mut block = good.clone();
    block.body[0] = send(&a, b, 14, 0, 1);
    assert_eq!(chain.apply_block(&reseal(block), true), Err(BlockchainError::InvalidMinerReward));

    let mut block = good.clone();
    block.body[0].data = TransactionData::CreateContract { contract: contract() };
    assert_eq!(chain.apply_block(&reseal(block), true), Err(BlockchainError::InvalidMinerReward));

    let mut block = good.clone();
    block.body[1].sig = Signature::Unsigned;
    assert_eq!(chain.apply_block(&reseal(block), true), Err(BlockchainError::SignatureError));

    let mut block = good.clone();
    block.header.proof_of_work.nonce = 1;
    assert_eq!(chain.apply_block(&block, true), Err(BlockchainError::DifficultyTargetUnmet));
    assert_eq!(chain.get_height(), Ok(1));
    assert_eq!(chain.apply_block(&block, false), Ok(()));
    assert_eq!(chain.get_height(), Ok(2));
    assert_eq!(chain.get_block(1), Ok(block));
    assert_eq!(chain.get_block(2).err(), Some(BlockchainError::BlockNotFound));
    assert_eq!(chain.get_header(2), Err(BlockchainError::BlockNotFound));
}

#[test]
fn block_budgets() {
    let a = keys(b"A");
    let b = Address::PublicKey(keys(b"B").0);
    let first = send(&a, b, 30, 5, 1);
    let second = send(&a, b, 30, 5, 2);
    assert_eq!(treasury_send(b, 0, 0).size(), 152);
    assert_eq!(first.size(), 152);

    let mut cfg = config(vec![treasury_send(Address::PublicKey(a.0), 100, 1)]);
    cfg.max_block_size = 152;
    let mut small = Chain::new(RamKvStore::new(), cfg).unwrap();
    // Only one of the two fits. The reward transaction does not count.
    let txs = pool(vec![second.clone(), first.clone()]);
    let draft = small.draft_block(10, &txs, &wallet(), true).unwrap().unwrap();
    assert_eq!(draft.block.body.len(), 2);
    assert_eq!(draft.block.body[1], first);
    let both = chain(vec![treasury_send(Address::PublicKey(a.0), 100, 1)])
        .draft_block(10, &txs, &wallet(), true)
        .unwrap()
        .unwrap()
        .block;
    assert_eq!(both.body.len(), 3);
    assert_eq!(small.apply_block(&both, true), Err(BlockchainError::BlockTooBig));
    assert_eq!(small.apply_block(&draft.block, true), Ok(()));
}

#[test]
fn state_growth_budget() {
    let a = keys(b"A");
    let mut cfg = config(vec![treasury_send(Address::PublicKey(a.0), 100, 1)]);
    cfg.max_delta_count = 1;
    let mut chain = Chain::new(RamKvStore::new(), cfg).unwrap();
    // Creating the contract makes the states grow by 2.
    let tx = create(&a, 1, 1);
    let entry = (
        TransactionAndDelta { tx: tx.clone(), state_delta: Some(delta_to(&state(5, 2))) },
        TransactionStats { first_seen: 0 },
    );
    let draft = chain.draft_block(10, &vec![entry], &wallet(), true).unwrap().unwrap();
    assert_eq!(draft.block.body.len(), 1);
    let mut block = draft.block;
    block.body.push(tx);
    block.body[0] = treasury_send(wallet().get_address(), chain.next_reward().unwrap() + 1, 2);
    block.header.block_root = block.merkle_tree::<Toy>().root();
    assert_eq!(chain.apply_block(&block, true), Err(BlockchainError::StateDeltaTooBig));
}

#[test]
fn contract_in_a_block_and_state_sync() {
    let a = keys(b"A");
    let mut chain = chain(vec![treasury_send(Address::PublicKey(a.0), 100, 1)]);
    let tx = create(&a, 1, 1);
    let cid = ContractId(Toy::transaction_digest(&tx));
    let entry = (
        TransactionAndDelta { tx, state_delta: Some(delta_to(&state(5, 2))) },
        TransactionStats { first_seen: 0 },
    );
    let draft = chain.draft_block(10, &vec![entry], &wallet(), true).unwrap().unwrap();
    assert_eq!(
        draft.patch.patches,
        vec![(cid, ZkStatePatch::Delta(delta_to(&state(5, 2))))]
    );
    chain.apply_block(&draft.block, true).unwrap();
    assert_eq!(chain.get_outdated_contracts(), Ok(vec![cid]));
    assert_eq!(chain.get_outdated_heights(), Ok(vec![(cid, 0)]));
    assert_eq!(
        chain.get_changed_states().unwrap(),
        vec![(
            cid,
            bazuka::blockchain::ZkCompressedStateChange {
                prev_state: state(3, 0),
                state: state(5, 2),
                prev_height: 0
            }
        )]
    );
    assert_eq!(
        chain.draft_block(11, &Vec::new(), &wallet(), true),
        Err(BlockchainError::StatesOutdated)
    );

    assert_eq!(
        chain.update_states(&ZkBlockchainPatch { patches: Vec::new() }),
        Err(BlockchainError::FullStateNotFound)
    );
    let wrong = ZkBlockchainPatch {
        patches: vec![(cid, ZkStatePatch::Delta(delta_to(&state(4, 2))))],
    };
    assert_eq!(chain.update_states(&wrong), Err(BlockchainError::FullStateNotValid));
    assert_eq!(chain.get_outdated_contracts(), Ok(vec![cid]));
    let full = ZkBlockchainPatch {
        patches: vec![(
            cid,
            ZkStatePatch::Full(ZkDataPairs(vec![
                ZkDataPair { locator: ZkDataLocator(vec![0]), value: scalar(5) },
                ZkDataPair { locator: ZkDataLocator(vec![1]), value: scalar(5) },
            ])),
        )],
    };
    assert_eq!(chain.update_states(&full), Ok(()));
    assert_eq!(chain.get_outdated_contracts(), Ok(Vec::new()));
    assert!(chain.database().get(&Key::Outdated).is_none());
    assert_eq!(chain.read_state(cid, ZkDataLocator(Vec::new())), Ok(scalar(5)));
    assert_eq!(
        chain.read_state(cid, ZkDataLocator(vec![1])),
        Err(BlockchainError::StateManagerError(StateManagerError { code: 2 }))
    );

    // A peer that is one state behind gets the changes; one that is further
    // behind gets the full state; one that is ahead gets nothing.
    let tip = Toy::header_digest(&chain.get_tip().unwrap());
    assert_eq!(
        chain.generate_state_patch(vec![(cid, 0)], tip).unwrap().patches,
        vec![(cid, ZkStatePatch::Delta(delta_to(&state(5, 2))))]
    );
    assert_eq!(
        chain.generate_state_patch(vec![(cid, 1)], tip).unwrap().patches.len(),
        1
    );
    assert!(matches!(
        chain.generate_state_patch(vec![(cid, 1)], tip).unwrap().patches[0].1,
        ZkStatePatch::Full(_)
    ));
    assert_eq!(
        chain.generate_state_patch(vec![(cid, 2)], tip).err(),
        Some(BlockchainError::StatesUnavailable)
    );
    assert_eq!(
        chain.generate_state_patch(vec![(cid, 0)], [0u8; 32]).err(),
        Some(BlockchainError::StatesUnavailable)
    );

    // Taking the block back takes the contract away.
    chain.rollback().unwrap();
    assert_eq!(chain.get_contract_account(cid), Err(BlockchainError::ContractNotFound));
    assert_eq!(chain.get_outdated_contracts(), Ok(Vec::new()));
    assert_eq!(chain.get_height(), Ok(1));
}

#[test]
fn rollback_of_nothing() {
    let mut chain = chain(Vec::new());
    chain.rollback().unwrap();
    assert_eq!(chain.get_height(), Ok(0));
    assert_eq!(chain.rollback(), Err(BlockchainError::NoBlocksToRollback));
    assert_eq!(chain.get_tip(), Err(BlockchainError::BlockNotFound));
    assert_eq!(chain.get_power(), Ok(0));
}

#[test]
fn extend_replaces_the_end_of_the_chain() {
    let a = keys(b"A");
    let b = Address::PublicKey(keys(b"B").0);
    let mut chain = chain(vec![treasury_send(Address::PublicKey(a.0), 100, 1)]);
    let mut other = chain.fork_on_ram();
    let first = other.draft_block(10, &pool(vec![send(&a, b, 30, 5, 1)]), &wallet(), true);
    let first = first.unwrap().unwrap().block;
    other.apply_block(&first, true).unwrap();
    let second = other.draft_block(11, &pool(vec![send(&a, b, 1, 1, 2)]), &wallet(), true);
    let second = second.unwrap().unwrap().block;
    assert_eq!(other.get_height(), Ok(2));
    drop(other);
    // What happened on the fork did not reach the chain.
    assert_eq!(chain.get_height(), Ok(1));

    mine(&mut chain, vec![send(&a, b, 50, 0, 1)]);
    assert_eq!(balance(&chain, b), 50);
    chain.extend(1, &vec![first.clone(), second.clone()]).unwrap();
    assert_eq!(chain.get_height(), Ok(3));
    assert_eq!(balance(&chain, b), 31);
    assert_eq!(chain.get_blocks(0, 10).unwrap().len(), 3);
    assert_eq!(chain.get_blocks(1, 1), Ok(vec![first.clone()]));
    assert_eq!(chain.get_headers(1, 5), Ok(vec![first.header, second.header]));
    assert_eq!(chain.get_headers(3, 5), Ok(Vec::new()));
}

#[test]
fn extend_is_atomic() {
    let a = keys(b"A");
    let b = Address::PublicKey(keys(b"B").0);
    let mut chain = chain(vec![treasury_send(Address::PublicKey(a.0), 100, 1)]);
    let good = mine(&mut chain, vec![send(&a, b, 30, 5, 1)]);
    let next = chain.draft_block(10, &Vec::new(), &wallet(), true).unwrap().unwrap().block;
    let mut bad = next.clone();
    bad.header.proof_of_work.nonce = 1;
    let before = chain.get_account(Address::Treasury);
    assert_eq!(chain.extend(0, &vec![good.clone()]), Err(BlockchainError::ExtendFromGenesis));
    assert_eq!(chain.extend(3, &vec![good.clone()]), Err(BlockchainError::ExtendFromFuture));
    assert_eq!(
        chain.extend(1, &vec![good.clone(), bad]),
        Err(BlockchainError::DifficultyTargetUnmet)
    );
    assert_eq!(chain.get_height(), Ok(2));
    assert_eq!(chain.get_tip(), Ok(good.header));
    assert_eq!(chain.get_account(Address::Treasury), before);
    assert_eq!(balance(&chain, b), 30);
    assert_eq!(chain.extend(1, &vec![good, next]), Ok(()));
    assert_eq!(chain.get_height(), Ok(3));
}

#[test]
fn reopening_a_chain_checks_the_genesis_block() {
    let a = Address::PublicKey(keys(b"A").0);
    let mut db = RamKvStore::new();
    let first = Chain::new(RamKvStore::new(), config(vec![treasury_send(a, 100, 1)])).unwrap();
    let mut ops = Vec::new();
    for key in [Key::Height, Key::Block(0), Key::Header(0), Key::Account(a)] {
        ops.push(WriteOp::Put(key, first.database().get(&key).unwrap()));
    }
    db.update(&ops);
    let again = Chain::new(db, config(vec![treasury_send(a, 100, 1)])).unwrap();
    assert_eq!(again.get_height(), Ok(1));
    assert_eq!(balance(&again, a), 100);

    let mut db = RamKvStore::new();
    db.update(&ops);
    assert_eq!(
        Chain::new(db, config(vec![treasury_send(a, 101, 1)])).err(),
        Some(BlockchainError::DifferentGenesis)
    );
}

#[test]
fn broken_stores_are_inconsistent() {
    let mut db = RamKvStore::new();
    db.update(&vec![WriteOp::Put(Key::Height, Value::Power(3))]);
    assert_eq!(Chain::new(db, config(Vec::new())).err(), Some(BlockchainError::Inconsistency));

    let mut db = RamKvStore::new();
    db.update(&vec![WriteOp::Put(Key::Outdated, Value::Outdated(Vec::new()))]);
    assert_eq!(Chain::new(db, config(Vec::new())).err(), Some(BlockchainError::Inconsistency));

    let mut db = RamKvStore::new();
    db.update(&vec![WriteOp::Put(Key::Height, Value::Height(2))]);
    assert_eq!(Chain::new(db, config(Vec::new())).err(), Some(BlockchainError::Inconsistency));
}

#[test]
fn selection_prefers_fee_density_then_low_nonces() {
    let a = keys(b"A");
    let b = keys(b"B");
    let to = Address::PublicKey(keys(b"C").0);
    let chain = chain(vec![
        treasury_send(Address::PublicKey(a.0), 1000, 1),
        treasury_send(Address::PublicKey(b.0), 1000, 2),
    ]);
    let a1 = send(&a, to, 1, 200, 1);
    let a2 = send(&a, to, 1, 200, 2);
    let b1 = send(&b, to, 1, 400, 1);
    let cheap = send(&b, to, 1, 100, 2);
    let txs = pool(vec![a2.clone(), cheap.clone(), a1.clone(), b1.clone()]);
    let sorted: Vec<Transaction> =
        chain.select_transactions(&txs, false).unwrap().into_iter().map(|t| t.tx).collect();
    assert_eq!(sorted, vec![cheap.clone(), a2.clone(), a1.clone(), b1.clone()]);
    let chosen: Vec<Transaction> =
        chain.select_transactions(&txs, true).unwrap().into_iter().map(|t| t.tx).collect();
    assert_eq!(chosen, vec![b1, a1, a2, cheap]);
}

#[test]
fn selection_skips_what_cannot_be_executed() {
    let a = keys(b"A");
    let to = Address::PublicKey(keys(b"C").0);
    let chain = chain(vec![treasury_send(Address::PublicKey(a.0), 1000, 1)]);
    let good = send(&a, to, 1, 200, 1);
    let gap = send(&a, to, 1, 900, 3);
    let mut unsigned = send(&a, to, 1, 300, 2);
    unsigned.sig = Signature::Unsigned;
    let txs = pool(vec![gap, unsigned, good.clone()]);
    let chosen: Vec<Transaction> =
        chain.select_transactions(&txs, true).unwrap().into_iter().map(|t| t.tx).collect();
    assert_eq!(chosen, vec![good]);
}

#[test]
fn selection_takes_updates_of_the_payment_network_first() {
    let (mut chain, a, b, cid) = chain_with_contract();
    assert_ne!(cid, MPN);
    // Make the contract the payment network's by configuration.
    let mut cfg = config(vec![
        treasury_send(Address::PublicKey(a.0), 100, 1),
        treasury_send(Address::PublicKey(b.0), 100, 2),
    ]);
    cfg.mpn_contract_id = cid;
    let mut mpn_chain = Chain::new(RamKvStore::new(), cfg).unwrap();
    mpn_chain.apply_tx(&create(&a, 1, 1), false).unwrap();
    let rich = send(&b, Address::PublicKey(a.0), 1, 90, 1);
    let poor_update = update(&a, cid, 2, 0, vec![call(state(6, 3), 0)]);
    let entries = vec![
        (
            TransactionAndDelta {
                tx: poor_update.clone(),
                state_delta: Some(delta_to(&state(6, 3))),
            },
            TransactionStats { first_seen: 0 },
        ),
        (
            TransactionAndDelta { tx: rich.clone(), state_delta: None },
            TransactionStats { first_seen: 0 },
        ),
    ];
    let chosen: Vec<Transaction> =
        mpn_chain.select_transactions(&entries, true).unwrap().into_iter().map(|t| t.tx).collect();
    assert_eq!(chosen, vec![poor_update.clone(), rich.clone()]);
    let chosen: Vec<Transaction> =
        chain.select_transactions(&entries, true).unwrap().into_iter().map(|t| t.tx).collect();
    assert_eq!(chosen, vec![rich, poor_update]);
    chain.apply_tx(&chosen[0], false).unwrap();
}

#[test]
fn cleanup_keeps_what_can_be_executed_in_turn() {
    let a = keys(b"A");
    let to = Address::PublicKey(keys(b"C").0);
    let chain = chain(vec![treasury_send(Address::PublicKey(a.0), 100, 1)]);
    let first = send(&a, to, 60, 0, 1);
    let second = send(&a, to, 30, 0, 2);
    let too_much = send(&a, to, 30, 0, 3);
    let gap = send(&a, to, 1, 0, 5);
    let mut mempool = pool(vec![gap, first.clone(), second.clone(), too_much]);
    assert_eq!(chain.cleanup_mempool(&mut mempool), Ok(()));
    let kept: Vec<Transaction> = mempool.into_iter().map(|entry| entry.0.tx).collect();
    assert_eq!(kept, vec![first, second]);
    assert_eq!(balance(&chain, Address::PublicKey(a.0)), 100);
}

#[test]
fn cleanup_of_contract_payments() {
    let (chain, a, b, cid) = chain_with_contract();
    let stats = TransactionStats { first_seen: 1 };
    let good = payment(&b, cid, 1, 10, 2, PaymentDirection::Deposit);
    let next = payment(&b, cid, 2, 10, 2, PaymentDirection::Deposit);
    let broke = payment(&a, cid, 2, 500, 2, PaymentDirection::Deposit);
    let mut mempool = vec![(broke, stats), (good, stats), (next, stats)];
    assert_eq!(chain.cleanup_contract_payment_mempool(&mut mempool), Ok(()));
    assert_eq!(mempool.iter().map(|entry| entry.0).collect::<Vec<_>>(), vec![good, next]);
    assert_eq!(chain.get_contract_account(cid).unwrap().balance, 0);
}

fn zero_tx(src: u32, dst: u32, nonce: u64, amount: u64, fee: u64, key: [u8; 32]) -> ZeroTransaction {
    ZeroTransaction {
        nonce,
        src_index: src,
        dst_index: dst,
        dst_pub_key: ZkPublicKey([8u8; 32]),
        amount,
        fee,
        sig: ZkSignature { r: ZkPoint { x: scalar(0), y: scalar(0) }, s: ZkScalar(key) },
    }
}

/// A chain whose payment network holds 100 at index 1, under the key of
/// sevens.
fn chain_with_mpn_account() -> Chain {
    let mut db = RamKvStore::new();
    let ops = Toy::set_mpn_account(
        &db,
        &MPN,
        1,
        MpnAccount { address: ZkPoint { x: ZkScalar([7u8; 32]), y: scalar(0) }, balance: 100, nonce: 4 },
    )
    .unwrap();
    db.update(&ops[..1].to_vec());
    Chain::new(db, config(Vec::new())).unwrap()
}

#[test]
fn zero_transaction() {
    let mut chain = chain_with_mpn_account();
    assert_eq!(chain.get_mpn_account(1).unwrap().balance, 100);
    assert_eq!(chain.apply_zero_tx(&zero_tx(1, 2, 4, 30, 5, [7u8; 32])), Ok(()));
    assert_eq!(
        chain.get_mpn_account(1),
        Ok(MpnAccount {
            address: ZkPoint { x: ZkScalar([7u8; 32]), y: scalar(0) },
            balance: 65,
            nonce: 5
        })
    );
    assert_eq!(
        chain.get_mpn_account(2),
        Ok(MpnAccount {
            address: ZkPoint { x: ZkScalar([8u8; 32]), y: scalar(0) },
            balance: 30,
            nonce: 0
        })
    );
    assert_eq!(chain.get_mpn_accounts(0, 10).unwrap().len(), 2);
    // The manager's write to the engine's keys was dropped.
    assert_eq!(chain.get_height(), Ok(1));
}

#[test]
fn zero_transaction_errors() {
    let mut chain = chain_with_mpn_account();
    let invalid = Err(BlockchainError::InvalidZeroTransaction);
    assert_eq!(chain.apply_zero_tx(&zero_tx(1, 2, 3, 30, 5, [7u8; 32])), invalid);
    assert_eq!(chain.apply_zero_tx(&zero_tx(1, 2, 5, 30, 5, [7u8; 32])), invalid);
    assert_eq!(chain.apply_zero_tx(&zero_tx(1, 2, 4, 30, 5, [6u8; 32])), invalid);
    assert_eq!(chain.apply_zero_tx(&zero_tx(1, 2, 4, 96, 5, [7u8; 32])), invalid);
    assert_eq!(chain.validate_zero_transaction(&zero_tx(1, 2, 4, u64::MAX, 5, [7u8; 32])), invalid);
    assert_eq!(
        chain.apply_zero_tx(&zero_tx(u32::MAX, 2, 0, 0, 0, [0u8; 32])),
        Err(BlockchainError::StateManagerError(StateManagerError { code: 7 }))
    );
    assert_eq!(chain.validate_zero_transaction(&zero_tx(1, 2, 4, 95, 5, [7u8; 32])), Ok(()));
    assert_eq!(chain.get_mpn_account(1).unwrap().balance, 100);
    assert_eq!(chain.get_mpn_account(1).unwrap().nonce, 4);

    let stats = TransactionStats { first_seen: 0 };
    let mut mempool = vec![
        (zero_tx(1, 2, 5, 10, 0, [7u8; 32]), stats),
        (zero_tx(1, 2, 4, 10, 0, [7u8; 32]), stats),
        (zero_tx(1, 2, 4, 10, 0, [7u8; 32]), stats),
        (zero_tx(1, 2, 5, 10, 0, [7u8; 32]), stats),
    ];
    assert_eq!(chain.cleanup_zero_mempool(&mut mempool), Ok(()));
    assert_eq!(
        mempool.iter().map(|entry| entry.0.nonce).collect::<Vec<_>>(),
        vec![4, 5]
    );
}

#[test]
fn pow_key_changes_with_the_chain() {
    let chain = chain_of_five();
    assert_eq!(chain.pow_key(0), Ok(b"BASE KEY".to_vec()));
    assert_eq!(chain.pow_key(3), Ok(b"BASE KEY".to_vec()));
    let zero = Toy::header_digest(&chain.get_header(0).unwrap()).to_vec();
    let two = Toy::header_digest(&chain.get_header(2).unwrap()).to_vec();
    assert_eq!(chain.pow_key(4), Ok(zero.clone()));
    assert_eq!(chain.pow_key(5), Ok(zero));
    assert_eq!(chain.pow_key(6), Ok(two.clone()));
    assert_eq!(chain.pow_key(7), Ok(two));
    assert_eq!(chain.pow_key(14), Err(BlockchainError::BlockNotFound));
}

#[test]
fn next_difficulty_follows_the_rules() {
    let mut chain = chain_of_five();
    assert_eq!(chain.next_difficulty(), Ok(Difficulty(200)));
    mine_with_nonce(&mut chain, 0);
    assert_eq!(chain.next_difficulty(), Ok(Difficulty(1)));
    assert_eq!(chain.config().minimum_pow_difficulty, Difficulty(1));
}

#[test]
fn a_full_state_must_agree_with_the_recorded_history() {
    let (mut chain, a, _, cid) = chain_with_contract();
    // A second state, so that the contract has a history: 5 then 6.
    chain.apply_tx(&update(&a, cid, 2, 0, vec![call(state(6, 2), 0)]), false).unwrap();
    assert_eq!(chain.get_contract_account(cid).unwrap().height, 2);
    assert_eq!(chain.get_compressed_state_at(cid, 1), Ok(state(5, 2)));
    // Mark the contract outdated, as a block would.
    let mut db = RamKvStore::new();
    let mut ops = vec![WriteOp::Put(Key::Outdated, Value::Outdated(vec![cid]))];
    for key in [Key::Height, Key::Contract(cid), Key::ContractAccount(cid), Key::CompressedStateAt(cid, 1)] {
        ops.push(WriteOp::Put(key, chain.database().get(&key).unwrap()));
    }
    ops.push(WriteOp::Put(Key::Block(0), Value::Block(genesis_block(Vec::new()))));
    db.update(&ops);
    let mut chain = Chain::new(db, config(Vec::new())).unwrap();
    assert_eq!(chain.get_outdated_contracts(), Ok(vec![cid]));

    let full = |earlier: u64| ZkBlockchainPatch {
        patches: vec![(
            cid,
            ZkStatePatch::Full(ZkDataPairs(vec![
                ZkDataPair { locator: ZkDataLocator(vec![0]), value: scalar(6) },
                ZkDataPair { locator: ZkDataLocator(vec![9]), value: scalar(earlier) },
            ])),
        )],
    };
    assert_eq!(chain.update_states(&full(4)), Err(BlockchainError::DeltasInvalid));
    assert_eq!(chain.get_outdated_contracts(), Ok(vec![cid]));
    assert_eq!(chain.update_states(&full(5)), Ok(()));
    assert_eq!(chain.get_outdated_contracts(), Ok(Vec::new()));
}

#[test]
fn the_reward_is_the_next_reward_plus_the_fees() {
    let a = keys(b"A");
    let b = Address::PublicKey(keys(b"B").0);
    let mut chain = chain(vec![treasury_send(Address::PublicKey(a.0), 100, 1)]);
    let reward = chain.next_reward().unwrap();
    assert_eq!(reward, 9);
    let block = mine(&mut chain, vec![send(&a, b, 30, 5, 1), send(&a, b, 1, 2, 2)]);
    assert_eq!(
        block.body[0].data,
        TransactionData::RegularSend { dst: wallet().get_address(), amount: 9 + 5 + 2 }
    );
    // One coin more or less is refused.
    for amount in [15, 17] {
        let mut wrong = chain.draft_block(10, &Vec::new(), &wallet(), true).unwrap().unwrap().block;
        wrong.body[0].data =
            TransactionData::RegularSend { dst: wallet().get_address(), amount };
        wrong.header.block_root = wrong.merkle_tree::<Toy>().root();
        assert_eq!(chain.next_reward(), Ok(9));
        assert_ne!(amount, 9);
        assert_eq!(chain.apply_block(&wrong, true), Err(BlockchainError::InvalidMinerReward));
    }
}

#[test]
fn a_node_can_use_the_chain_through_its_interface() {
    fn height_of<B: bazuka::blockchain::Blockchain>(chain: &B) -> u64 {
        chain.get_height().unwrap()
    }
    fn take_back<B: bazuka::blockchain::Blockchain>(chain: &mut B) -> Result<(), BlockchainError> {
        chain.rollback()
    }
    let mut chain = chain(Vec::new());
    assert_eq!(height_of(&chain), 1);
    assert_eq!(take_back(&mut chain), Ok(()));
    assert_eq!(height_of(&chain), 0);
    assert_eq!(take_back(&mut chain), Err(BlockchainError::NoBlocksToRollback));
}

#[test]
fn the_heartbeat_log_lists_the_state_of_the_node() {
    let a = Address::PublicKey(keys(b"A").0);
    let chain = chain(vec![treasury_send(a, 100, 1)]);
    let log = bazuka::node::heartbeat::log_info::log_info;
    assert_eq!(
        log(&chain, None, 1234, 5, 6, 7, 8),
        Ok(vec![
            ("Height", 1),
            ("Outdated states", 0),
            ("Timestamp", 1234),
            ("Active nodes", 5),
            ("Tx Pool", 6),
            ("Tx/Zk Pool", 7),
            ("Zk Pool", 8),
        ])
    );
    let with_wallet = log(&chain, Some(Wallet::new(a)), 1234, 5, 6, 7, 8).unwrap();
    assert_eq!(with_wallet.len(), 8);
    assert_eq!(with_wallet[7], ("Balance", 100));
}
