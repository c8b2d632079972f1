//! Calling a contract: what goes into the request.

use vstd::prelude::*;
use crate::api::eth::Eth;
use crate::types::{AccessListItem, Address, CallRequest, Filter, Param, Reply, Request, TransactionCondition, TransactionParameters, TransactionRequest, BlockId, BlockNumber, H256, U256};

verus! {

/// The ABI of a contract, as `ethabi` holds it.
#[verifier::external_type_specification]
#[verifier::external_body]
pub struct ExAbi(ethabi::Contract);

/// How a request is to be made.
#[derive(Clone, Copy, Debug, PartialEq, Eq)]
pub struct CallOptions {
    /// The most bytes that the response may have.
    pub max_resp: Option<u64>,
    /// What is paid for the request.
    pub cycles: Option<u64>,
}

/// Contract call and query options.
#[derive(Clone, Debug, PartialEq, Eq)]
pub struct Options {
    /// Fixed gas limit.
    pub gas: Option<U256>,
    /// Fixed gas price.
    pub gas_price: Option<U256>,
    /// Value to transfer.
    pub value: Option<U256>,
    /// Fixed transaction nonce.
    pub nonce: Option<U256>,
    /// A condition to satisfy before including transaction.
    pub condition: Option<TransactionCondition>,
    /// Transaction type: one for an access-list transaction, absent for a
    /// legacy one.
    pub transaction_type: Option<u64>,
    /// Access list.
    pub access_list: Option<Vec<AccessListItem>>,
    /// Max fee per gas.
    pub max_fee_per_gas: Option<U256>,
    /// Priority fee per gas.
    pub max_priority_fee_per_gas: Option<U256>,
    pub call_options: Option<CallOptions>,
}

impl Options {
    /// Whether nothing is set.
    pub open spec fn is_default(&self) -> bool {
        &&& self.gas is None
        &&& self.gas_price is None
        &&& self.value is None
        &&& self.nonce is None
        &&& self.condition is None
        &&& self.transaction_type is None
        &&& self.access_list is None
        &&& self.max_fee_per_gas is None
        &&& self.max_priority_fee_per_gas is None
        &&& self.call_options is None
    }

    /// Create new default `Options` object with some modifications: what
    /// `func` makes of the options in which nothing is set.
    pub fn with<F>(func: F) -> (out: Options) where F: FnOnce(Options) -> Options
        requires
            forall|options: Options| options.is_default() ==> call_requires(func, (options,)),
        ensures
            exists|options: Options| options.is_default() && call_ensures(func, (options,), out),
    {
        let options = Options::default();
        func(options)
    }
}

impl Default for Options {
    fn default() -> (out: Self)
        ensures
            out.is_default(),
    {
        Options {
            gas: None,
            gas_price: None,
            value: None,
            nonce: None,
            condition: None,
            transaction_type: None,
            access_list: None,
            max_fee_per_gas: None,
            max_priority_fee_per_gas: None,
            call_options: None,
        }
    }
}

/// Whether `request` is the transaction that calls the contract at `to`
/// with `data`, from `from`, under `options`.
pub open spec fn sends(
    request: TransactionRequest,
    to: Address,
    data: Seq<u8>,
    from: Address,
    options: Options,
) -> bool {
    &&& request.from == from
    &&& request.to == Some(to)
    &&& request.gas == options.gas
    &&& request.gas_price == options.gas_price
    &&& request.value == options.value
    &&& request.nonce == options.nonce
    &&& request.data is Some
    &&& request.data->Some_0@ == data
    &&& request.condition == options.condition
    &&& request.transaction_type == options.transaction_type
    &&& request.access_list == options.access_list
    &&& request.max_fee_per_gas == options.max_fee_per_gas
    &&& request.max_priority_fee_per_gas == options.max_priority_fee_per_gas
}

/// Whether `request` is the call of the contract at `to` with `data`, from
/// `from` if there is one, under `options`.
pub open spec fn calls(
    request: CallRequest,
    to: Address,
    data: Seq<u8>,
    from: Option<Address>,
    options: Options,
) -> bool {
    &&& request.from == from
    &&& request.to == Some(to)
    &&& request.gas == options.gas
    &&& request.gas_price == options.gas_price
    &&& request.value == options.value
    &&& request.data is Some
    &&& request.data->Some_0@ == data
    &&& request.transaction_type == options.transaction_type
    &&& request.access_list == options.access_list
    &&& request.max_fee_per_gas == options.max_fee_per_gas
    &&& request.max_priority_fee_per_gas == options.max_priority_fee_per_gas
}

/// Whether `request` is the call that stands for the transaction `tx` from
/// `from`: without a gas limit, with the value set.
pub open spec fn estimates(request: CallRequest, from: Address, tx: TransactionParameters) -> bool {
    &&& request.from == Some(from)
    &&& request.to == tx.to
    &&& request.gas is None
    &&& request.gas_price == tx.gas_price
    &&& request.value == Some(tx.value)
    &&& request.data == Some(tx.data)
    &&& request.transaction_type == tx.transaction_type
    &&& request.access_list == tx.access_list
    &&& request.max_fee_per_gas == tx.max_fee_per_gas
    &&& request.max_priority_fee_per_gas == tx.max_priority_fee_per_gas
}

/// Ethereum contract interface: the contract's address and its ABI. The
/// call data goes in as bytes, already encoded by the ABI.
#[derive(Debug)]
pub struct ContractInterface<T> {
    address: Address,
    eth: Eth<T>,
    abi: ethabi::Contract,
}

impl<T> ContractInterface<T> {
    /// The contract's address.
    pub closed spec fn address_of(&self) -> Address {
        self.address
    }

    /// The contract's ABI.
    pub closed spec fn abi_of(&self) -> ethabi::Contract {
        self.abi
    }

    /// Creates new Contract Interface given blockchain address and ABI.
    pub fn new(eth: Eth<T>, address: Address, abi: ethabi::Contract) -> (out: Self)
        ensures
            out.address_of() == address,
            out.abi_of() == abi,
    {
        ContractInterface { address, eth, abi }
    }

    /// Get the underlying contract ABI.
    pub fn abi(&self) -> (out: &ethabi::Contract)
        ensures
            *out == self.abi_of(),
    {
        &self.abi
    }

    /// Returns contract address.
    pub fn address(&self) -> (out: Address)
        ensures
            out == self.address_of(),
    {
        self.address
    }

    /// Execute a contract function: the request that sends the call data
    /// `data` to the contract in a transaction from `from`.
    pub fn call(&self, data: Vec<u8>, from: Address, options: Options) -> (out: Request)
        ensures
            out.method@ == "eth_sendTransaction"@,
            out.reply == Reply::Hash,
            out.params@.len() == 1,
            out.params@[0] is Transaction,
            sends(out.params@[0]->Transaction_0, self.address_of(), data@, from, options),
    {
        self.eth.send_transaction(
            TransactionRequest {
                from,
                to: Some(self.address),
                gas: options.gas,
                gas_price: options.gas_price,
                value: options.value,
                nonce: options.nonce,
                data: Some(data),
                condition: options.condition,
                transaction_type: options.transaction_type,
                access_list: options.access_list,
                max_fee_per_gas: options.max_fee_per_gas,
                max_priority_fee_per_gas: options.max_priority_fee_per_gas,
            },
        )
    }

    /// Estimate gas required for this function call: the request that
    /// estimates the gas of a call with the call data `data` from `from`,
    /// at no named block.
    pub fn estimate_gas(&self, data: Vec<u8>, from: Address, options: Options) -> (out: Request)
        ensures
            out.method@ == "eth_estimateGas"@,
            out.reply == Reply::Quantity,
            out.params@.len() == 1,
            out.params@[0] is Call,
            calls(out.params@[0]->Call_0, self.address_of(), data@, Some(from), options),
    {
        self.eth.estimate_gas(
            CallRequest {
                from: Some(from),
                to: Some(self.address),
                gas: options.gas,
                gas_price: options.gas_price,
                value: options.value,
                data: Some(data),
                transaction_type: options.transaction_type,
                access_list: options.access_list,
                max_fee_per_gas: options.max_fee_per_gas,
                max_priority_fee_per_gas: options.max_priority_fee_per_gas,
            },
            None,
        )
    }

    /// The request that estimates the gas of the transaction `tx` from
    /// `from`.
    pub fn _estimate_gas(&self, from: Address, tx: TransactionParameters) -> (out: Request)
        ensures
            out.method@ == "eth_estimateGas"@,
            out.reply == Reply::Quantity,
            out.params@.len() == 1,
            out.params@[0] is Call,
            estimates(out.params@[0]->Call_0, from, tx),
    {
        self.eth.estimate_gas(
            CallRequest {
                from: Some(from),
                to: tx.to,
                gas: None,
                gas_price: tx.gas_price,
                value: Some(tx.value),
                data: Some(tx.data),
                transaction_type: tx.transaction_type,
                access_list: tx.access_list,
                max_fee_per_gas: tx.max_fee_per_gas,
                max_priority_fee_per_gas: tx.max_priority_fee_per_gas,
            },
            None,
        )
    }

    /// Call constant function: the request that calls the contract with the
    /// call data `data` and changes nothing, at `block` or at the latest
    /// block.
    pub fn query(
        &self,
        data: Vec<u8>,
        from: Option<Address>,
        options: Options,
        block: Option<BlockId>,
    ) -> (out: Request)
        ensures
            out.method@ == "eth_call"@,
            out.reply == Reply::Bytes,
            out.params@.len() == 2,
            out.params@[0] is Call,
            calls(out.params@[0]->Call_0, self.address_of(), data@, from, options),
            out.params@[1] == Param::BlockId(
                match block {
                    Some(id) => id,
                    None => BlockId::Number(BlockNumber::Latest),
                },
            ),
    {
        self.eth.call(
            CallRequest {
                from,
                to: Some(self.address),
                gas: options.gas,
                gas_price: options.gas_price,
                value: options.value,
                data: Some(data),
                transaction_type: options.transaction_type,
                access_list: options.access_list,
                max_fee_per_gas: options.max_fee_per_gas,
                max_priority_fee_per_gas: options.max_priority_fee_per_gas,
            },
            block,
        )
    }

    /// Find events matching the topics: the request for the logs whose
    /// topics match, from any address and any block.
    pub fn events(&self, topics: Vec<Option<Vec<H256>>>) -> (out: Request)
        ensures
            out.method@ == "eth_getLogs"@,
            out.reply == Reply::Logs,
            out.params@.len() == 1,
            out.params@[0] is Filter,
            out.params@[0]->Filter_0.topics == Some(topics),
            out.params@[0]->Filter_0.from_block is None,
            out.params@[0]->Filter_0.to_block is None,
            out.params@[0]->Filter_0.block_hash is None,
            out.params@[0]->Filter_0.address is None,
            out.params@[0]->Filter_0.limit is None,
    {
        self.eth.logs(
            Filter {
                from_block: None,
                to_block: None,
                block_hash: None,
                address: None,
                topics: Some(topics),
                limit: None,
            },
        )
    }
}

} // verus!
