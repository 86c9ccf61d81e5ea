//! The cache of one endpoint and block: what was resolved once is kept, and
//! is never replaced by another value.

use vstd::prelude::*;
use crate::class::ExecutableClass;
use crate::felt::Felt;
use crate::table::{CellKey, FeltTable, StorageTable};

verus! {

/// The gas price schedule of a block.
#[derive(Clone, Copy, Debug, PartialEq, Eq, Structural)]
pub struct GasPrices {
    pub eth_l1_gas_price: u128,
    pub strk_l1_gas_price: u128,
    pub eth_l1_data_gas_price: u128,
    pub strk_l1_data_gas_price: u128,
}

/// The metadata of a block.
#[derive(Clone, Copy, Debug, PartialEq, Eq, Structural)]
pub struct BlockInfo {
    pub block_number: u64,
    pub sequencer_address: Felt,
    pub block_timestamp: u64,
    pub gas_prices: GasPrices,
    pub use_kzg_da: bool,
}

/// `m` with `value` for `key`, unless `m` has a value for `key` already.
pub open spec fn put_absent<K, V>(m: Map<K, V>, key: K, value: V) -> Map<K, V> {
    if m.contains_key(key) {
        m
    } else {
        m.insert(key, value)
    }
}

/// Everything that was resolved for one endpoint and block.
#[derive(Clone, Debug, PartialEq, Eq)]
pub struct ForkCache {
    pub block_info: Option<BlockInfo>,
    pub storage_at: StorageTable,
    pub nonce_at: FeltTable<Felt>,
    pub class_hash_at: FeltTable<Felt>,
    pub compiled_contract_class: FeltTable<ExecutableClass>,
}

impl ForkCache {
    /// A cache that holds nothing.
    pub fn new() -> (cache: Self)
        ensures
            cache.block_info is None,
            cache.storage_at@ == Map::<CellKey, Felt>::empty(),
            cache.nonce_at@ == Map::<Felt, Felt>::empty(),
            cache.class_hash_at@ == Map::<Felt, Felt>::empty(),
            cache.compiled_contract_class@ == Map::<Felt, ExecutableClass>::empty(),
    {
        ForkCache {
            block_info: None,
            storage_at: StorageTable::new(),
            nonce_at: FeltTable::new(),
            class_hash_at: FeltTable::new(),
            compiled_contract_class: FeltTable::new(),
        }
    }

    /// The block's metadata, once it was resolved.
    pub fn get_block_info(&self) -> (info: Option<BlockInfo>)
        ensures
            info == self.block_info,
    {
        self.block_info
    }

    /// Keeps the block's metadata, unless some is kept already.
    pub fn cache_get_block_info(&mut self, block_info: BlockInfo)
        ensures
            final(self).block_info == (if old(self).block_info is Some {
                old(self).block_info
            } else {
                Some(block_info)
            }),
            final(self).storage_at == old(self).storage_at,
            final(self).nonce_at == old(self).nonce_at,
            final(self).class_hash_at == old(self).class_hash_at,
            final(self).compiled_contract_class == old(self).compiled_contract_class,
    {
        if self.block_info.is_none() {
            self.block_info = Some(block_info);
        }
    }

    /// The value kept for a storage cell.
    pub fn get_storage_at(&self, contract_address: &Felt, key: &Felt) -> (value: Option<Felt>)
        ensures
            value == (if self.storage_at@.contains_key(
                CellKey { address: *contract_address, key: *key },
            ) {
                Some(self.storage_at@[CellKey { address: *contract_address, key: *key }])
            } else {
                None
            }),
    {
        self.storage_at.get(contract_address, key)
    }

    /// Keeps `value` for a storage cell, unless a value is kept for it already.
    pub fn cache_get_storage_at(&mut self, contract_address: Felt, key: Felt, value: Felt)
        ensures
            final(self).storage_at@ == put_absent(
                old(self).storage_at@,
                CellKey { address: contract_address, key },
                value,
            ),
            final(self).block_info == old(self).block_info,
            final(self).nonce_at == old(self).nonce_at,
            final(self).class_hash_at == old(self).class_hash_at,
            final(self).compiled_contract_class == old(self).compiled_contract_class,
    {
        if self.storage_at.get(&contract_address, &key).is_none() {
            self.storage_at.set(contract_address, key, value);
        }
    }

    /// The nonce kept for a contract.
    pub fn get_nonce_at(&self, contract_address: &Felt) -> (nonce: Option<Felt>)
        ensures
            nonce == (if self.nonce_at@.contains_key(*contract_address) {
                Some(self.nonce_at@[*contract_address])
            } else {
                None
            }),
    {
        match self.nonce_at.get(contract_address) {
            Some(nonce) => Some(*nonce),
            None => None,
        }
    }

    /// Keeps `nonce` for a contract, unless a nonce is kept for it already.
    pub fn cache_get_nonce_at(&mut self, contract_address: Felt, nonce: Felt)
        ensures
            final(self).nonce_at@ == put_absent(old(self).nonce_at@, contract_address, nonce),
            final(self).block_info == old(self).block_info,
            final(self).storage_at == old(self).storage_at,
            final(self).class_hash_at == old(self).class_hash_at,
            final(self).compiled_contract_class == old(self).compiled_contract_class,
    {
        if self.nonce_at.get(&contract_address).is_none() {
            self.nonce_at.set(contract_address, nonce);
        }
    }

    /// The class hash kept for a contract.
    pub fn get_class_hash_at(&self, contract_address: &Felt) -> (class_hash: Option<Felt>)
        ensures
            class_hash == (if self.class_hash_at@.contains_key(*contract_address) {
                Some(self.class_hash_at@[*contract_address])
            } else {
                None
            }),
    {
        match self.class_hash_at.get(contract_address) {
            Some(class_hash) => Some(*class_hash),
            None => None,
        }
    }

    /// Keeps `class_hash` for a contract, unless one is kept for it already.
    pub fn cache_get_class_hash_at(&mut self, contract_address: Felt, class_hash: Felt)
        ensures
            final(self).class_hash_at@ == put_absent(
                old(self).class_hash_at@,
                contract_address,
                class_hash,
            ),
            final(self).block_info == old(self).block_info,
            final(self).storage_at == old(self).storage_at,
            final(self).nonce_at == old(self).nonce_at,
            final(self).compiled_contract_class == old(self).compiled_contract_class,
    {
        if self.class_hash_at.get(&contract_address).is_none() {
            self.class_hash_at.set(contract_address, class_hash);
        }
    }

    /// The executable class kept for a class hash.
    pub fn get_compiled_contract_class(&self, class_hash: &Felt) -> (class: Option<
        &ExecutableClass,
    >)
        ensures
            class is Some <==> self.compiled_contract_class@.contains_key(*class_hash),
            class is Some ==> *class->Some_0 == self.compiled_contract_class@[*class_hash],
    {
        self.compiled_contract_class.get(class_hash)
    }

    /// Keeps `class` for a class hash, unless one is kept for it already.
    pub fn insert_compiled_contract_class(&mut self, class_hash: Felt, class: ExecutableClass)
        ensures
            final(self).compiled_contract_class@ == put_absent(
                old(self).compiled_contract_class@,
                class_hash,
                class,
            ),
            final(self).block_info == old(self).block_info,
            final(self).storage_at == old(self).storage_at,
            final(self).nonce_at == old(self).nonce_at,
            final(self).class_hash_at == old(self).class_hash_at,
    {
        if self.compiled_contract_class.get(&class_hash).is_none() {
            self.compiled_contract_class.set(class_hash, class);
        }
    }
}

} // verus!
