//! What the engine is told of a block and of each of its transactions.

use vstd::prelude::*;
use crate::primitives::{Address, B256, U256};

verus! {

/// The fields of a block header that the engine is configured from.
#[derive(Clone, Debug, PartialEq, Eq)]
pub struct BlockHeader {
    pub number: u64,
    pub beneficiary: Address,
    pub timestamp: u64,
    pub difficulty: U256,
    pub gas_limit: u64,
    pub base_fee_per_gas: Option<u64>,
}

/// The block as the engine sees it during the whole replay.
#[derive(Clone, Debug, PartialEq, Eq)]
pub struct BlockContext {
    pub number: u64,
    pub beneficiary: Address,
    pub timestamp: u64,
    pub difficulty: U256,
    pub gas_limit: u64,
    pub basefee: u64,
}

/// One entry of an access list.
#[derive(Clone, Debug, PartialEq, Eq)]
pub struct AccessListItem {
    pub address: Address,
    pub storage_keys: Vec<B256>,
}

/// A transaction as the block holds it.
#[derive(Clone, Debug, PartialEq, Eq)]
pub struct Transaction {
    pub hash: B256,
    pub signer: Address,
    pub gas_limit: u64,
    /// The gas price, where the transaction names one.
    pub gas_price: Option<u128>,
    pub max_fee_per_gas: u128,
    pub value: U256,
    pub input: Vec<u8>,
    pub max_priority_fee_per_gas: Option<u128>,
    pub nonce: u64,
    pub access_list: Option<Vec<AccessListItem>>,
    /// The recipient; a transaction without one creates a contract.
    pub to: Option<Address>,
}

/// Where a transaction goes.
#[derive(Clone, Copy, Debug, PartialEq, Eq)]
pub enum TxKind {
    Call(Address),
    Create,
}

/// The engine's parameters for one transaction.
#[derive(Clone, Debug, PartialEq, Eq)]
pub struct TxEnv {
    pub caller: Address,
    pub gas_limit: u64,
    pub gas_price: u128,
    pub value: U256,
    pub data: Vec<u8>,
    pub gas_priority_fee: Option<u128>,
    pub chain_id: Option<u64>,
    pub nonce: u64,
    pub access_list: Vec<AccessListItem>,
    pub kind: TxKind,
}

pub struct AccessListItemView {
    pub address: Seq<u8>,
    pub storage_keys: Seq<Seq<u8>>,
}

pub struct TransactionView {
    pub hash: Seq<u8>,
    pub signer: Seq<u8>,
    pub gas_limit: u64,
    pub gas_price: Option<u128>,
    pub max_fee_per_gas: u128,
    pub value: Seq<u8>,
    pub input: Seq<u8>,
    pub max_priority_fee_per_gas: Option<u128>,
    pub nonce: u64,
    pub access_list: Option<Seq<AccessListItemView>>,
    pub to: Option<Seq<u8>>,
}

pub enum TxKindView {
    Call(Seq<u8>),
    Create,
}

pub struct TxEnvView {
    pub caller: Seq<u8>,
    pub gas_limit: u64,
    pub gas_price: u128,
    pub value: Seq<u8>,
    pub data: Seq<u8>,
    pub gas_priority_fee: Option<u128>,
    pub chain_id: Option<u64>,
    pub nonce: u64,
    pub access_list: Seq<AccessListItemView>,
    pub kind: TxKindView,
}

impl View for AccessListItem {
    type V = AccessListItemView;

    open spec fn view(&self) -> AccessListItemView {
        AccessListItemView {
            address: self.address@,
            storage_keys: self.storage_keys@.map_values(|key: B256| key@),
        }
    }
}

/// The entries of an access list, each as plain values.
pub open spec fn access_list_view(items: Seq<AccessListItem>) -> Seq<AccessListItemView> {
    items.map_values(|item: AccessListItem| item@)
}

impl View for Transaction {
    type V = TransactionView;

    open spec fn view(&self) -> TransactionView {
        TransactionView {
            hash: self.hash@,
            signer: self.signer@,
            gas_limit: self.gas_limit,
            gas_price: self.gas_price,
            max_fee_per_gas: self.max_fee_per_gas,
            value: self.value@,
            input: self.input@,
            max_priority_fee_per_gas: self.max_priority_fee_per_gas,
            nonce: self.nonce,
            access_list: match self.access_list {
                Some(items) => Some(access_list_view(items@)),
                None => None,
            },
            to: match self.to {
                Some(address) => Some(address@),
                None => None,
            },
        }
    }
}

impl View for TxKind {
    type V = TxKindView;

    open spec fn view(&self) -> TxKindView {
        match self {
            TxKind::Call(address) => TxKindView::Call(address@),
            TxKind::Create => TxKindView::Create,
        }
    }
}

impl View for TxEnv {
    type V = TxEnvView;

    open spec fn view(&self) -> TxEnvView {
        TxEnvView {
            caller: self.caller@,
            gas_limit: self.gas_limit,
            gas_price: self.gas_price,
            value: self.value@,
            data: self.data@,
            gas_priority_fee: self.gas_priority_fee,
            chain_id: self.chain_id,
            nonce: self.nonce,
            access_list: access_list_view(self.access_list@),
            kind: self.kind@,
        }
    }
}

/// The block context of a header: its fields, and a base fee of zero where
/// the header names none.
pub open spec fn block_context_spec(header: BlockHeader) -> BlockContext {
    BlockContext {
        number: header.number,
        beneficiary: header.beneficiary,
        timestamp: header.timestamp,
        difficulty: header.difficulty,
        gas_limit: header.gas_limit,
        basefee: match header.base_fee_per_gas {
            Some(fee) => fee,
            None => 0,
        },
    }
}

pub fn block_context(header: &BlockHeader) -> (context: BlockContext)
    ensures
        context == block_context_spec(*header),
{
    BlockContext {
        number: header.number,
        beneficiary: header.beneficiary,
        timestamp: header.timestamp,
        difficulty: header.difficulty,
        gas_limit: header.gas_limit,
        basefee: match header.base_fee_per_gas {
            Some(fee) => fee,
            None => 0,
        },
    }
}

/// The engine's parameters for `tx` on the chain `chain_id`. The gas price is
/// the transaction's own where it names one, else its fee cap; the access
/// list is empty where it has none; the chain is the configured one.
pub open spec fn tx_env_spec(tx: TransactionView, chain_id: u64) -> TxEnvView {
    TxEnvView {
        caller: tx.signer,
        gas_limit: tx.gas_limit,
        gas_price: match tx.gas_price {
            Some(price) => price,
            None => tx.max_fee_per_gas,
        },
        value: tx.value,
        data: tx.input,
        gas_priority_fee: tx.max_priority_fee_per_gas,
        chain_id: Some(chain_id),
        nonce: tx.nonce,
        access_list: match tx.access_list {
            Some(items) => items,
            None => Seq::empty(),
        },
        kind: match tx.to {
            Some(address) => TxKindView::Call(address),
            None => TxKindView::Create,
        },
    }
}

fn copy_bytes(bytes: &Vec<u8>) -> (copy: Vec<u8>)
    ensures
        copy@ == bytes@,
{
    let mut copy: Vec<u8> = Vec::new();
    let mut i: usize = 0;
    while i < bytes.len()
        invariant
            i <= bytes.len(),
            copy@ == bytes@.take(i as int),
        decreases bytes.len() - i,
    {
        copy.push(bytes[i]);
        i += 1;
    }
    copy
}

fn copy_access_list(items: &Vec<AccessListItem>) -> (copy: Vec<AccessListItem>)
    ensures
        access_list_view(copy@) == access_list_view(items@),
{
    let mut copy: Vec<AccessListItem> = Vec::new();
    let mut i: usize = 0;
    while i < items.len()
        invariant
            i <= items.len(),
            access_list_view(copy@) == access_list_view(items@).take(i as int),
        decreases items.len() - i,
    {
        let item = &items[i];
        let mut keys: Vec<B256> = Vec::new();
        let mut j: usize = 0;
        while j < item.storage_keys.len()
            invariant
                j <= item.storage_keys.len(),
                keys@ == item.storage_keys@.take(j as int),
            decreases item.storage_keys.len() - j,
        {
            keys.push(item.storage_keys[j]);
            j += 1;
        }
        assert(keys@ == item.storage_keys@);
        let entry = AccessListItem { address: item.address, storage_keys: keys };
        assert(entry@ == item@);
        let ghost before = copy@;
        copy.push(entry);
        i += 1;
        assert(access_list_view(copy@) =~= access_list_view(before).push(entry@));
        assert(access_list_view(items@).take(i as int) =~= access_list_view(items@).take(i - 1).push(
            item@,
        ));
    }
    copy
}

/// Builds the engine's parameters for one transaction, from that transaction
/// and the configured chain alone.
pub fn tx_env(tx: &Transaction, chain_id: u64) -> (env: TxEnv)
    ensures
        env@ == tx_env_spec(tx@, chain_id),
{
    let access_list = match &tx.access_list {
        Some(items) => copy_access_list(items),
        None => Vec::new(),
    };
    let env = TxEnv {
        caller: tx.signer,
        gas_limit: tx.gas_limit,
        gas_price: match tx.gas_price {
            Some(price) => price,
            None => tx.max_fee_per_gas,
        },
        value: tx.value,
        data: copy_bytes(&tx.input),
        gas_priority_fee: tx.max_priority_fee_per_gas,
        chain_id: Some(chain_id),
        nonce: tx.nonce,
        access_list,
        kind: match tx.to {
            Some(address) => TxKind::Call(address),
            None => TxKind::Create,
        },
    };
    assert(env@.access_list =~= tx_env_spec(tx@, chain_id).access_list);
    env
}

} // verus!
