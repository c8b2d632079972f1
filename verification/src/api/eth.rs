//! The `eth` namespace: one request for each method.

use vstd::prelude::*;
use crate::api::Namespace;
use crate::types::{Address, BlockId, BlockNumber, CallRequest, Filter, Param, Reply, Request, TransactionId, TransactionRequest, H256, H64, U256};

verus! {

/// The `eth` namespace.
#[derive(Debug, Clone)]
pub struct Eth<T> {
    transport: T,
}

impl<T: Clone> Namespace<T> for Eth<T> {
    closed spec fn over(&self) -> T {
        self.transport
    }

    fn new(transport: T) -> (out: Self) {
        Eth { transport }
    }

    fn transport(&self) -> (out: &T) {
        &self.transport
    }
}

/// The block that is meant where none is named: the latest.
pub open spec fn block_or_latest(block: Option<BlockNumber>) -> BlockNumber {
    match block {
        Some(number) => number,
        None => BlockNumber::Latest,
    }
}

/// The block that is meant where none is named: the latest.
pub fn latest_unless(block: Option<BlockNumber>) -> (out: BlockNumber)
    ensures
        out == block_or_latest(block),
{
    match block {
        Some(number) => number,
        None => BlockNumber::Latest,
    }
}

/// Whether `request` asks for the uncle at `index` of `block`, by the
/// block's hash or by its number, and is answered with `reply`.
pub open spec fn is_uncle_call(request: Request, block: BlockId, index: u64, reply: Reply) -> bool {
    match block {
        BlockId::Hash(hash) => request.is_call(
            "eth_getUncleByBlockHashAndIndex"@,
            seq![Param::Hash(hash), Param::Index(index)],
            reply,
        ),
        BlockId::Number(number) => request.is_call(
            "eth_getUncleByBlockNumberAndIndex"@,
            seq![Param::BlockNumber(number), Param::Index(index)],
            reply,
        ),
    }
}

impl<T> Eth<T> {
    /// Get list of available accounts.
    pub fn accounts(&self) -> (out: Request)
        ensures
            out.is_call("eth_accounts"@, seq![], Reply::Addresses),
    {
        Request::new("eth_accounts", vec![], Reply::Addresses)
    }

    /// Get current block number.
    pub fn block_number(&self) -> (out: Request)
        ensures
            out.is_call("eth_blockNumber"@, seq![], Reply::Number),
    {
        Request::new("eth_blockNumber", vec![], Reply::Number)
    }

    /// Get coinbase address.
    pub fn coinbase(&self) -> (out: Request)
        ensures
            out.is_call("eth_coinbase"@, seq![], Reply::Address),
    {
        Request::new("eth_coinbase", vec![], Reply::Address)
    }

    /// Compile LLL.
    pub fn compile_lll(&self, code: String) -> (out: Request)
        ensures
            out.is_call("eth_compileLLL"@, seq![Param::Text(code)], Reply::Bytes),
    {
        Request::new("eth_compileLLL", vec![Param::Text(code)], Reply::Bytes)
    }

    /// Compile Solidity.
    pub fn compile_solidity(&self, code: String) -> (out: Request)
        ensures
            out.is_call("eth_compileSolidity"@, seq![Param::Text(code)], Reply::Bytes),
    {
        Request::new("eth_compileSolidity", vec![Param::Text(code)], Reply::Bytes)
    }

    /// Compile Serpent.
    pub fn compile_serpent(&self, code: String) -> (out: Request)
        ensures
            out.is_call("eth_compileSerpent"@, seq![Param::Text(code)], Reply::Bytes),
    {
        Request::new("eth_compileSerpent", vec![Param::Text(code)], Reply::Bytes)
    }

    /// Get current recommended gas price.
    pub fn gas_price(&self) -> (out: Request)
        ensures
            out.is_call("eth_gasPrice"@, seq![], Reply::Quantity),
    {
        Request::new("eth_gasPrice", vec![], Reply::Quantity)
    }

    /// Get all logs matching a given filter object.
    pub fn logs(&self, filter: Filter) -> (out: Request)
        ensures
            out.is_call("eth_getLogs"@, seq![Param::Filter(filter)], Reply::Logs),
    {
        Request::new("eth_getLogs", vec![Param::Filter(filter)], Reply::Logs)
    }

    /// Get supported compilers.
    pub fn compilers(&self) -> (out: Request)
        ensures
            out.is_call("eth_getCompilers"@, seq![], Reply::Texts),
    {
        Request::new("eth_getCompilers", vec![], Reply::Texts)
    }

    /// Get chain id.
    pub fn chain_id(&self) -> (out: Request)
        ensures
            out.is_call("eth_chainId"@, seq![], Reply::Quantity),
    {
        Request::new("eth_chainId", vec![], Reply::Quantity)
    }

    /// Get available user accounts. A wallet in a browser asks its user before
    /// it answers.
    pub fn request_accounts(&self) -> (out: Request)
        ensures
            out.is_call("eth_requestAccounts"@, seq![], Reply::Addresses),
    {
        Request::new("eth_requestAccounts", vec![], Reply::Addresses)
    }

    /// Get transaction receipt.
    pub fn transaction_receipt(&self, hash: H256) -> (out: Request)
        ensures
            out.is_call("eth_getTransactionReceipt"@, seq![Param::Hash(hash)], Reply::MaybeReceipt),
    {
        Request::new("eth_getTransactionReceipt", vec![Param::Hash(hash)], Reply::MaybeReceipt)
    }

    /// Get work package.
    pub fn work(&self) -> (out: Request)
        ensures
            out.is_call("eth_getWork"@, seq![], Reply::Work),
    {
        Request::new("eth_getWork", vec![], Reply::Work)
    }

    /// Get hash rate.
    pub fn hashrate(&self) -> (out: Request)
        ensures
            out.is_call("eth_hashrate"@, seq![], Reply::Quantity),
    {
        Request::new("eth_hashrate", vec![], Reply::Quantity)
    }

    /// Get mining status.
    pub fn mining(&self) -> (out: Request)
        ensures
            out.is_call("eth_mining"@, seq![], Reply::Bool),
    {
        Request::new("eth_mining", vec![], Reply::Bool)
    }

    /// Start new block filter.
    pub fn new_block_filter(&self) -> (out: Request)
        ensures
            out.is_call("eth_newBlockFilter"@, seq![], Reply::Quantity),
    {
        Request::new("eth_newBlockFilter", vec![], Reply::Quantity)
    }

    /// Start new pending transaction filter.
    pub fn new_pending_transaction_filter(&self) -> (out: Request)
        ensures
            out.is_call("eth_newPendingTransactionFilter"@, seq![], Reply::Quantity),
    {
        Request::new("eth_newPendingTransactionFilter", vec![], Reply::Quantity)
    }

    /// Get the protocol version.
    pub fn protocol_version(&self) -> (out: Request)
        ensures
            out.is_call("eth_protocolVersion"@, seq![], Reply::Text),
    {
        Request::new("eth_protocolVersion", vec![], Reply::Text)
    }

    /// Sends an encoded signed transaction.
    pub fn send_raw_transaction(&self, rlp: Vec<u8>) -> (out: Request)
        ensures
            out.is_call("eth_sendRawTransaction"@, seq![Param::Bytes(rlp)], Reply::Hash),
    {
        Request::new("eth_sendRawTransaction", vec![Param::Bytes(rlp)], Reply::Hash)
    }

    /// Sends a transaction for the node to sign.
    pub fn send_transaction(&self, tx: TransactionRequest) -> (out: Request)
        ensures
            out.is_call("eth_sendTransaction"@, seq![Param::Transaction(tx)], Reply::Hash),
    {
        Request::new("eth_sendTransaction", vec![Param::Transaction(tx)], Reply::Hash)
    }

    /// Signs a hash of given data.
    pub fn sign(&self, address: Address, data: Vec<u8>) -> (out: Request)
        ensures
            out.is_call("eth_sign"@, seq![Param::Address(address), Param::Bytes(data)], Reply::Signature),
    {
        Request::new("eth_sign", vec![Param::Address(address), Param::Bytes(data)], Reply::Signature)
    }

    /// Submit hashrate of external miner.
    pub fn submit_hashrate(&self, rate: U256, id: H256) -> (out: Request)
        ensures
            out.is_call("eth_submitHashrate"@, seq![Param::Quantity(rate), Param::Hash(id)], Reply::Bool),
    {
        Request::new("eth_submitHashrate", vec![Param::Quantity(rate), Param::Hash(id)], Reply::Bool)
    }

    /// Submit work of external miner.
    pub fn submit_work(&self, nonce: H64, pow_hash: H256, mix_hash: H256) -> (out: Request)
        ensures
            out.is_call("eth_submitWork"@, seq![Param::Nonce(nonce), Param::Hash(pow_hash), Param::Hash(mix_hash)], Reply::Bool),
    {
        Request::new("eth_submitWork", vec![Param::Nonce(nonce), Param::Hash(pow_hash), Param::Hash(mix_hash)], Reply::Bool)
    }

    /// Get balance of given address.
    pub fn balance(&self, address: Address, block: Option<BlockNumber>) -> (out: Request)
        ensures
            out.is_call(
                "eth_getBalance"@,
                seq![Param::Address(address), Param::BlockNumber(block_or_latest(block))],
                Reply::Quantity,
            ),
    {
        Request::new(
            "eth_getBalance",
            vec![Param::Address(address), Param::BlockNumber(latest_unless(block))],
            Reply::Quantity,
        )
    }

    /// Get code under given address.
    pub fn code(&self, address: Address, block: Option<BlockNumber>) -> (out: Request)
        ensures
            out.is_call(
                "eth_getCode"@,
                seq![Param::Address(address), Param::BlockNumber(block_or_latest(block))],
                Reply::Bytes,
            ),
    {
        Request::new(
            "eth_getCode",
            vec![Param::Address(address), Param::BlockNumber(latest_unless(block))],
            Reply::Bytes,
        )
    }

    /// Get storage entry.
    pub fn storage(&self, address: Address, idx: U256, block: Option<BlockNumber>) -> (out: Request)
        ensures
            out.is_call(
                "eth_getStorageAt"@,
                seq![Param::Address(address), Param::Quantity(idx), Param::BlockNumber(block_or_latest(block))],
                Reply::Hash,
            ),
    {
        Request::new(
            "eth_getStorageAt",
            vec![Param::Address(address), Param::Quantity(idx), Param::BlockNumber(latest_unless(block))],
            Reply::Hash,
        )
    }

    /// Get nonce.
    pub fn transaction_count(&self, address: Address, block: Option<BlockNumber>) -> (out: Request)
        ensures
            out.is_call(
                "eth_getTransactionCount"@,
                seq![Param::Address(address), Param::BlockNumber(block_or_latest(block))],
                Reply::Quantity,
            ),
    {
        Request::new(
            "eth_getTransactionCount",
            vec![Param::Address(address), Param::BlockNumber(latest_unless(block))],
            Reply::Quantity,
        )
    }

    /// Returns the account and storage values of the given account with their
    /// Merkle proof.
    pub fn get_proof(&self, address: Address, keys: Vec<U256>, block: Option<BlockNumber>) -> (out: Request)
        ensures
            out.is_call(
                "eth_getProof"@,
                seq![Param::Address(address), Param::Quantities(keys), Param::BlockNumber(block_or_latest(block))],
                Reply::MaybeProof,
            ),
    {
        Request::new(
            "eth_getProof",
            vec![Param::Address(address), Param::Quantities(keys), Param::BlockNumber(latest_unless(block))],
            Reply::MaybeProof,
        )
    }

    /// Get block details with transaction hashes.
    pub fn block(&self, block: BlockId) -> (out: Request)
        ensures
            match block {
                BlockId::Hash(hash) => out.is_call("eth_getBlockByHash"@, seq![Param::Hash(hash), Param::Bool(false)], Reply::MaybeBlock),
                BlockId::Number(number) => out.is_call(
                    "eth_getBlockByNumber"@,
                    seq![Param::BlockNumber(number), Param::Bool(false)],
                    Reply::MaybeBlock,
                ),
            },
    {
        match block {
            BlockId::Hash(hash) => Request::new("eth_getBlockByHash", vec![Param::Hash(hash), Param::Bool(false)], Reply::MaybeBlock),
            BlockId::Number(number) => Request::new(
                "eth_getBlockByNumber",
                vec![Param::BlockNumber(number), Param::Bool(false)],
                Reply::MaybeBlock,
            ),
        }
    }

    /// Get block details with full transaction objects.
    pub fn block_with_txs(&self, block: BlockId) -> (out: Request)
        ensures
            match block {
                BlockId::Hash(hash) => out.is_call("eth_getBlockByHash"@, seq![Param::Hash(hash), Param::Bool(true)], Reply::MaybeBlockWithTransactions),
                BlockId::Number(number) => out.is_call(
                    "eth_getBlockByNumber"@,
                    seq![Param::BlockNumber(number), Param::Bool(true)],
                    Reply::MaybeBlockWithTransactions,
                ),
            },
    {
        match block {
            BlockId::Hash(hash) => Request::new("eth_getBlockByHash", vec![Param::Hash(hash), Param::Bool(true)], Reply::MaybeBlockWithTransactions),
            BlockId::Number(number) => Request::new(
                "eth_getBlockByNumber",
                vec![Param::BlockNumber(number), Param::Bool(true)],
                Reply::MaybeBlockWithTransactions,
            ),
        }
    }

    /// Get number of transactions in block.
    pub fn block_transaction_count(&self, block: BlockId) -> (out: Request)
        ensures
            match block {
                BlockId::Hash(hash) => out.is_call("eth_getBlockTransactionCountByHash"@, seq![Param::Hash(hash)], Reply::MaybeQuantity),
                BlockId::Number(number) => out.is_call(
                    "eth_getBlockTransactionCountByNumber"@,
                    seq![Param::BlockNumber(number)],
                    Reply::MaybeQuantity,
                ),
            },
    {
        match block {
            BlockId::Hash(hash) => Request::new("eth_getBlockTransactionCountByHash", vec![Param::Hash(hash)], Reply::MaybeQuantity),
            BlockId::Number(number) => Request::new(
                "eth_getBlockTransactionCountByNumber",
                vec![Param::BlockNumber(number)],
                Reply::MaybeQuantity,
            ),
        }
    }

    /// Get uncle count in block.
    pub fn uncle_count(&self, block: BlockId) -> (out: Request)
        ensures
            match block {
                BlockId::Hash(hash) => out.is_call("eth_getUncleCountByBlockHash"@, seq![Param::Hash(hash)], Reply::MaybeQuantity),
                BlockId::Number(number) => out.is_call(
                    "eth_getUncleCountByBlockNumber"@,
                    seq![Param::BlockNumber(number)],
                    Reply::MaybeQuantity,
                ),
            },
    {
        match block {
            BlockId::Hash(hash) => Request::new("eth_getUncleCountByBlockHash", vec![Param::Hash(hash)], Reply::MaybeQuantity),
            BlockId::Number(number) => Request::new(
                "eth_getUncleCountByBlockNumber",
                vec![Param::BlockNumber(number)],
                Reply::MaybeQuantity,
            ),
        }
    }

    /// Call a constant method of contract without changing the state of the
    /// blockchain; at the latest block where none is named.
    pub fn call(&self, req: CallRequest, block: Option<BlockId>) -> (out: Request)
        ensures
            out.is_call(
                "eth_call"@,
                seq![
                    Param::Call(req),
                    Param::BlockId(
                        match block {
                            Some(id) => id,
                            None => BlockId::Number(BlockNumber::Latest),
                        },
                    ),
                ],
                Reply::Bytes,
            ),
    {
        let block = match block {
            Some(id) => id,
            None => BlockId::Number(BlockNumber::Latest),
        };
        Request::new("eth_call", vec![Param::Call(req), Param::BlockId(block)], Reply::Bytes)
    }

    /// Call a contract without changing the state of the blockchain to
    /// estimate gas usage. The block is a parameter only where one is named.
    pub fn estimate_gas(&self, req: CallRequest, block: Option<BlockNumber>) -> (out: Request)
        ensures
            match block {
                Some(number) => out.is_call(
                    "eth_estimateGas"@,
                    seq![Param::Call(req), Param::BlockNumber(number)],
                    Reply::Quantity,
                ),
                None => out.is_call("eth_estimateGas"@, seq![Param::Call(req)], Reply::Quantity),
            },
    {
        let args = match block {
            Some(number) => vec![Param::Call(req), Param::BlockNumber(number)],
            None => vec![Param::Call(req)],
        };
        Request::new("eth_estimateGas", args, Reply::Quantity)
    }

    /// Get transaction, by its hash or by its place in a block.
    pub fn transaction(&self, id: TransactionId) -> (out: Request)
        ensures
            match id {
                TransactionId::Hash(hash) => out.is_call(
                    "eth_getTransactionByHash"@,
                    seq![Param::Hash(hash)],
                    Reply::MaybeTransaction,
                ),
                TransactionId::Block(BlockId::Hash(hash), index) => out.is_call(
                    "eth_getTransactionByBlockHashAndIndex"@,
                    seq![Param::Hash(hash), Param::Index(index)],
                    Reply::MaybeTransaction,
                ),
                TransactionId::Block(BlockId::Number(number), index) => out.is_call(
                    "eth_getTransactionByBlockNumberAndIndex"@,
                    seq![Param::BlockNumber(number), Param::Index(index)],
                    Reply::MaybeTransaction,
                ),
            },
    {
        match id {
            TransactionId::Hash(hash) => Request::new(
                "eth_getTransactionByHash",
                vec![Param::Hash(hash)],
                Reply::MaybeTransaction,
            ),
            TransactionId::Block(BlockId::Hash(hash), index) => Request::new(
                "eth_getTransactionByBlockHashAndIndex",
                vec![Param::Hash(hash), Param::Index(index)],
                Reply::MaybeTransaction,
            ),
            TransactionId::Block(BlockId::Number(number), index) => Request::new(
                "eth_getTransactionByBlockNumberAndIndex",
                vec![Param::BlockNumber(number), Param::Index(index)],
                Reply::MaybeTransaction,
            ),
        }
    }

    /// Get uncle header by block ID and uncle index: the uncle without its
    /// transaction hashes, for nodes that leave them out.
    pub fn uncle_header(&self, block: BlockId, index: u64) -> (out: Request)
        ensures
            is_uncle_call(out, block, index, Reply::MaybeBlockHeader),
    {
        self.fetch_uncle(block, index, Reply::MaybeBlockHeader)
    }

    /// Get uncle by block ID and uncle index, with the hashes of its
    /// transactions.
    pub fn uncle(&self, block: BlockId, index: u64) -> (out: Request)
        ensures
            is_uncle_call(out, block, index, Reply::MaybeBlock),
    {
        self.fetch_uncle(block, index, Reply::MaybeBlock)
    }

    /// The request for an uncle, answered with `reply`.
    pub fn fetch_uncle(&self, block: BlockId, index: u64, reply: Reply) -> (out: Request)
        ensures
            is_uncle_call(out, block, index, reply),
    {
        match block {
            BlockId::Hash(hash) => Request::new(
                "eth_getUncleByBlockHashAndIndex",
                vec![Param::Hash(hash), Param::Index(index)],
                reply,
            ),
            BlockId::Number(number) => Request::new(
                "eth_getUncleByBlockNumberAndIndex",
                vec![Param::BlockNumber(number), Param::Index(index)],
                reply,
            ),
        }
    }
}

} // verus!
