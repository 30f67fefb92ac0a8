//! The requests and responses of the node's interface.
use crate::blockchain::ZkBlockchainPatch;
use crate::client::explorer::{ExplorerBlock, ExplorerMpnAccount};
use crate::client::{Peer, PeerAddress};
use crate::consensus::pow::Difficulty;
use crate::types::{
    Account, Address, Block, ContractId, Header, Money, MpnPayment, TransactionAndDelta,
};
use crate::zk::{MpnAccount, MpnTransaction};
use std::collections::HashMap;
use vstd::prelude::*;

verus! {

#[derive(Debug, Clone, Default)]
pub struct SocialProfiles {
    pub discord: Option<String>,
}

#[derive(Debug, Clone)]
pub struct GetStatsRequest {}

#[derive(Debug, Clone)]
pub struct GetStatsResponse {
    pub social_profiles: SocialProfiles,
    pub height: u64,
    pub power: u128,
    pub next_reward: Money,
    pub timestamp: u32,
    pub version: String,
}

#[derive(Debug, Clone)]
pub struct GetAccountRequest {
    pub address: String,
}

#[derive(Debug, Clone)]
pub struct GetAccountResponse {
    pub account: Account,
}

#[derive(Debug, Clone)]
pub struct GetMpnAccountRequest {
    pub index: u32,
}

#[derive(Debug, Clone)]
pub struct GetMpnAccountResponse {
    pub account: MpnAccount,
}

#[derive(Debug, Clone)]
pub struct GetExplorerMpnAccountsRequest {
    pub page: usize,
    pub page_size: usize,
}

#[derive(Debug, Clone)]
pub struct GetExplorerMpnAccountsResponse {
    pub accounts: HashMap<u32, ExplorerMpnAccount>,
}

#[derive(Debug, Clone)]
pub struct PostMinerSolutionRequest {
    pub nonce: String,
}

#[derive(Debug, Clone)]
pub struct PostMinerSolutionResponse {}

#[derive(Debug, Clone)]
pub struct GetMinerPuzzleRequest {}

#[derive(Debug, Clone)]
pub struct GetMinerPuzzleResponse {
    pub puzzle: Option<Puzzle>,
}

/// What a miner works on.
#[derive(Debug, Clone)]
pub struct Puzzle {
    /// The key of the puzzle, in hexadecimal.
    pub key: String,
    /// The bytes to hash, in hexadecimal.
    pub blob: String,
    /// The byte at which the nonce starts.
    pub offset: usize,
    /// The number of bytes of the nonce.
    pub size: usize,
    /// The target to meet.
    pub target: Difficulty,
}

#[derive(Debug, Clone)]
pub enum HandshakeRequest {
    Node(Peer),
    Client,
}

#[derive(Debug, Clone)]
pub struct HandshakeResponse {
    pub peer: Peer,
    pub timestamp: u32,
}

#[derive(Debug, Clone)]
pub struct GetPeersRequest {}

#[derive(Debug, Clone)]
pub struct GetPeersResponse {
    pub peers: Vec<PeerAddress>,
}

#[derive(Debug, Clone)]
pub struct PostBlockRequest {
    pub block: Block,
    pub patch: ZkBlockchainPatch,
}

#[derive(Debug, Clone)]
pub struct PostBlockResponse {}

#[derive(Debug, Clone)]
pub struct GetBlocksRequest {
    pub since: u64,
    pub count: u64,
}

#[derive(Debug, Clone)]
pub struct GetBlocksResponse {
    pub blocks: Vec<Block>,
}

#[derive(Debug, Clone)]
pub struct GetExplorerBlocksRequest {
    pub since: u64,
    pub count: u64,
}

#[derive(Debug, Clone)]
pub struct GetExplorerBlocksResponse {
    pub pow_hashes: Vec<String>,
    pub blocks: Vec<ExplorerBlock>,
}

#[derive(Debug, Clone)]
pub struct GetOutdatedHeightsRequest {}

#[derive(Debug, Clone)]
pub struct GetOutdatedHeightsResponse {
    pub outdated_heights: Vec<(ContractId, u64)>,
}

#[derive(Debug, Clone)]
pub struct GetStatesRequest {
    pub outdated_heights: Vec<(ContractId, u64)>,
    pub to: String,
}

#[derive(Debug, Clone)]
pub struct GetStatesResponse {
    pub patch: ZkBlockchainPatch,
}

#[derive(Debug, Clone)]
pub struct GetHeadersRequest {
    pub since: u64,
    pub count: u64,
}

#[derive(Debug, Clone)]
pub struct GetHeadersResponse {
    pub headers: Vec<Header>,
    pub pow_keys: Vec<Vec<u8>>,
}

#[derive(Debug, Clone)]
pub struct GetBalanceRequest {
    pub addr: Address,
}

#[derive(Debug, Clone)]
pub struct GetBalanceResponse {
    pub amount: Money,
}

#[derive(Debug, Clone)]
pub struct TransactRequest {
    pub tx_delta: TransactionAndDelta,
}

#[derive(Debug)]
pub struct TransactResponse {}

#[derive(Debug, Clone)]
pub struct TransactZeroRequest {
    pub tx: MpnTransaction,
}

#[derive(Debug)]
pub struct TransactZeroResponse {}

#[derive(Debug, Clone)]
pub struct ShutdownRequest {}

#[derive(Debug)]
pub struct ShutdownResponse {}

#[derive(Debug, Clone)]
pub struct GetZeroMempoolRequest {}

#[derive(Debug, Clone)]
pub struct GetZeroMempoolResponse {
    pub updates: Vec<MpnTransaction>,
    pub payments: Vec<MpnPayment>,
}

#[derive(Debug, Clone)]
pub struct TransactMpnPaymentRequest {
    pub tx: MpnPayment,
}

#[derive(Debug)]
pub struct TransactMpnPaymentResponse {}

#[derive(Debug, Clone)]
pub struct GetMempoolRequest {}

#[derive(Debug, Clone)]
pub struct GetMempoolResponse {
    pub tx: Vec<TransactionAndDelta>,
    pub tx_zk: Vec<MpnPayment>,
    pub zk: Vec<MpnTransaction>,
}

} // verus!
