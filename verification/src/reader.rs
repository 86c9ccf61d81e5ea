//! The forked state reader: every query is answered from the cache, then
//! from the overlay, and only then by a call to the remote ledger, whose
//! answer is kept in the cache.
//!
//! The reader makes no call itself. A query either resolves or names the
//! call to make; the caller makes it and hands the answer to the matching
//! `*_fetched` method.

use vstd::prelude::*;
use vstd::string::StringExecFns;
use crate::cache::{put_absent, BlockInfo, ForkCache, GasPrices};
use crate::class::{materialization_of, materialize, ExecutableClass, Materialization, MaterializationView, RawClass};
use crate::diff::{
    apply_items, apply_traces, collect_entries, scanned_prefix, ContractStorageDiffItem,
    TransactionTrace,
};
use crate::error::{
    failure_error, has_substring, lemma_middle_is_substring, result_view, translate_failure, FailureKind, RemoteFailure, StateError,
    StateErrorView,
};
use crate::felt::Felt;
use crate::table::{CellKey, StorageTable};

verus! {

/// A call to the remote ledger, with the block that it asks about.
#[derive(Clone, Copy, Debug, PartialEq, Eq, Structural)]
pub enum RemoteCall {
    TraceBlockTransactions { block: u64 },
    BlockWithTxHashes { block: u64 },
    StorageAt { address: Felt, key: Felt, block: u64 },
    Nonce { address: Felt, block: u64 },
    ClassHashAt { address: Felt, block: u64 },
    Class { class_hash: Felt, block: u64 },
}

/// The outcome of a query: the value, or the call that will tell it.
#[derive(Clone, Copy, Debug, PartialEq, Eq)]
pub enum Lookup<T> {
    Resolved(T),
    Remote(RemoteCall),
}

/// What the ledger answers when asked for a block.
#[derive(Clone, Copy, Debug, PartialEq, Eq, Structural)]
pub enum BlockResponse {
    Block { block_number: u64, sequencer_address: Felt, timestamp: u64 },
    Pending,
}

/// The reader of one block of one endpoint.
#[derive(Clone, Debug, PartialEq, Eq)]
pub struct ForkStateReader {
    pub block_number: u64,
    pub cache: ForkCache,
    pub storage_diff: StorageTable,
}

/// A reader as maps: what the cache keeps and what the overlay holds.
pub struct ReaderView {
    pub block_number: u64,
    pub block_info: Option<BlockInfo>,
    pub storage: Map<CellKey, Felt>,
    pub nonces: Map<Felt, Felt>,
    pub class_hashes: Map<Felt, Felt>,
    pub classes: Map<Felt, ExecutableClass>,
    pub overlay: Map<CellKey, Felt>,
}

impl View for ForkStateReader {
    type V = ReaderView;

    open spec fn view(&self) -> ReaderView {
        ReaderView {
            block_number: self.block_number,
            block_info: self.cache.block_info,
            storage: self.cache.storage_at@,
            nonces: self.cache.nonce_at@,
            class_hashes: self.cache.class_hash_at@,
            classes: self.cache.compiled_contract_class@,
            overlay: self.storage_diff@,
        }
    }
}

/// What a query about `subject` with the answer `response` returns, where
/// an unknown contract stands for the zero value.
pub open spec fn felt_answer(subject: Seq<char>, response: Result<Felt, RemoteFailure>) -> Result<
    Felt,
    StateErrorView,
> {
    match response {
        Ok(value) => Ok(value),
        Err(failure) => if failure.kind == FailureKind::ContractNotFound {
            Ok(Felt { w3: 0, w2: 0, w1: 0, w0: 0 })
        } else {
            Err(failure_error(subject, failure.kind, failure.text@))
        },
    }
}

/// `table` after the answer `response` for `key` was handled: a value, the
/// zero value for an unknown contract too, is kept unless one is kept already.
pub open spec fn kept_answer<K>(table: Map<K, Felt>, key: K, response: Result<Felt, RemoteFailure>) -> Map<
    K,
    Felt,
> {
    match felt_answer(Seq::empty(), response) {
        Ok(value) => put_absent(table, key, value),
        Err(_) => table,
    }
}

/// The words that name a storage cell in a message.
pub open spec fn storage_subject(cell: CellKey) -> Seq<char> {
    "storage at address: "@ + cell.address.hex()
        + " and key: "@ + cell.key.hex()
}

/// The words that name a contract's nonce in a message.
pub open spec fn nonce_subject(address: Felt) -> Seq<char> {
    "nonce at "@ + address.hex()
}

/// The words that name a contract's class hash in a message.
pub open spec fn class_hash_subject(address: Felt) -> Seq<char> {
    "class hash at "@ + address.hex()
}

/// The words that name a class in a message.
pub open spec fn class_subject(class_hash: Felt) -> Seq<char> {
    "compiled class at "@ + class_hash.hex()
}

/// The words that name the block's metadata in a message.
pub open spec fn block_subject() -> Seq<char> {
    "block with tx hashes"@
}

/// The error for a block whose traces could not be had: it quotes the text
/// of the client's error.
pub open spec fn trace_failure(cause: Seq<char>) -> StateErrorView {
    StateErrorView::ProtocolError("Failed to trace block transactions: "@ + cause)
}

/// The error for a query that a forked state cannot answer.
pub open spec fn unsupported_error() -> StateErrorView {
    StateErrorView::Unsupported("Unable to get compiled class hash from the fork"@)
}

impl ReaderView {
    /// What the cache or, failing that, the overlay says about a cell.
    pub open spec fn local_storage(self, cell: CellKey) -> Option<Felt> {
        if self.storage.contains_key(cell) {
            Some(self.storage[cell])
        } else if self.overlay.contains_key(cell) {
            Some(self.overlay[cell])
        } else {
            None
        }
    }

    /// The outcome of a storage query.
    pub open spec fn storage_lookup(self, cell: CellKey) -> Lookup<Felt> {
        match self.local_storage(cell) {
            Some(value) => Lookup::Resolved(value),
            None => Lookup::Remote(
                RemoteCall::StorageAt { address: cell.address, key: cell.key, block: self.block_number },
            ),
        }
    }

    /// The reader after a storage query: a value found in the overlay is
    /// kept in the cache.
    pub open spec fn after_storage_lookup(self, cell: CellKey) -> ReaderView {
        match self.local_storage(cell) {
            Some(value) => ReaderView { storage: put_absent(self.storage, cell, value), ..self },
            None => self,
        }
    }

    /// The reader after the ledger's answer to a storage call.
    pub open spec fn after_storage_answer(self, cell: CellKey, response: Result<Felt, RemoteFailure>) -> ReaderView {
        ReaderView { storage: kept_answer(self.storage, cell, response), ..self }
    }

    /// The outcome of a nonce query.
    pub open spec fn nonce_lookup(self, address: Felt) -> Lookup<Felt> {
        if self.nonces.contains_key(address) {
            Lookup::Resolved(self.nonces[address])
        } else {
            Lookup::Remote(RemoteCall::Nonce { address, block: self.block_number })
        }
    }

    /// The reader after the ledger's answer to a nonce call.
    pub open spec fn after_nonce_answer(self, address: Felt, response: Result<Felt, RemoteFailure>) -> ReaderView {
        ReaderView { nonces: kept_answer(self.nonces, address, response), ..self }
    }

    /// The outcome of a class hash query.
    pub open spec fn class_hash_lookup(self, address: Felt) -> Lookup<Felt> {
        if self.class_hashes.contains_key(address) {
            Lookup::Resolved(self.class_hashes[address])
        } else {
            Lookup::Remote(RemoteCall::ClassHashAt { address, block: self.block_number })
        }
    }

    /// The reader after the ledger's answer to a class hash call.
    pub open spec fn after_class_hash_answer(self, address: Felt, response: Result<Felt, RemoteFailure>) -> ReaderView {
        ReaderView { class_hashes: kept_answer(self.class_hashes, address, response), ..self }
    }

    /// The outcome of a query for the block's metadata.
    pub open spec fn block_info_lookup(self) -> Lookup<BlockInfo> {
        match self.block_info {
            Some(info) => Lookup::Resolved(info),
            None => Lookup::Remote(RemoteCall::BlockWithTxHashes { block: self.block_number }),
        }
    }
}

/// The metadata that a served block and a gas price schedule make.
pub open spec fn block_info_of(response: BlockResponse, gas_prices: GasPrices) -> BlockInfo {
    BlockInfo {
        block_number: response->block_number,
        sequencer_address: response->sequencer_address,
        block_timestamp: response->timestamp,
        gas_prices,
        use_kzg_da: true,
    }
}

/// What a query for the block's metadata returns for the answer `response`.
pub open spec fn block_answer(response: Result<BlockResponse, RemoteFailure>, gas_prices: GasPrices) -> Result<
    BlockInfo,
    StateErrorView,
> {
    match response {
        Ok(block) => Ok(block_info_of(block, gas_prices)),
        Err(failure) => Err(failure_error(block_subject(), failure.kind, failure.text@)),
    }
}

/// What a class query does with the answer `response`: the class goes on to
/// be materialized; a class hash that the ledger does not know is an error
/// of its own.
pub open spec fn class_answer(class_hash: Felt, response: Result<RawClass, RemoteFailure>) -> Result<
    MaterializationView,
    StateErrorView,
> {
    match response {
        Ok(raw) => Ok(materialization_of(raw)),
        Err(failure) => if failure.kind == FailureKind::ClassHashNotFound {
            Err(StateErrorView::UndeclaredClassHash(class_hash))
        } else {
            Err(failure_error(class_subject(class_hash), failure.kind, failure.text@))
        },
    }
}

impl ForkStateReader {
    /// The call for the traces of the block that follows `block_number`.
    pub fn trace_call(block_number: u64) -> (call: RemoteCall)
        requires
            block_number < u64::MAX,
        ensures
            call == (RemoteCall::TraceBlockTransactions { block: (block_number + 1) as u64 }),
    {
        RemoteCall::TraceBlockTransactions { block: block_number + 1 }
    }

    /// A reader for `block_number` with the given cache, whose overlay holds
    /// the storage writes of the transactions before `transaction_index` in
    /// `traces`, the traces of the following block. Without the traces there
    /// is no reader.
    pub fn new(
        block_number: u64,
        transaction_index: usize,
        cache: ForkCache,
        traces: Result<Vec<TransactionTrace>, RemoteFailure>,
    ) -> (reader: Result<Self, StateError>)
        ensures
            reader is Ok <==> traces is Ok,
            reader is Ok ==> reader->Ok_0.block_number == block_number && reader->Ok_0.cache
                == cache && reader->Ok_0.storage_diff@ == apply_traces(
                Map::empty(),
                scanned_prefix(traces->Ok_0@, transaction_index),
            ),
            reader is Err ==> reader->Err_0@ == trace_failure(traces->Err_0.text@),
    {
        let mut fork_state_reader = ForkStateReader {
            block_number,
            cache,
            storage_diff: StorageTable::new(),
        };
        match fork_state_reader.get_transactions_storage_diff(traces, transaction_index) {
            Ok(_) => Ok(fork_state_reader),
            Err(e) => Err(e),
        }
    }

    /// The block that the reader reads.
    pub fn block_id(&self) -> (block: u64)
        ensures
            block == self.block_number,
    {
        self.block_number
    }

    /// The executable class that the cache keeps for `class_hash`.
    pub fn get_compiled_contract_class_from_cache(&self, class_hash: Felt) -> (class: Option<
        &ExecutableClass,
    >)
        ensures
            class is Some <==> self@.classes.contains_key(class_hash),
            class is Some ==> *class->Some_0 == self@.classes[class_hash],
    {
        self.cache.get_compiled_contract_class(&class_hash)
    }

    /// Replays into the overlay the transactions of `traces` that come
    /// before `transaction_index`, whatever their kind; the one at that index
    /// and those behind it are not looked at. Where the traces could not be
    /// had, the reader stays as it is and the scan fails with a
    /// `ProtocolError` that quotes the cause.
    pub fn get_transactions_storage_diff(
        &mut self,
        traces: Result<Vec<TransactionTrace>, RemoteFailure>,
        transaction_index: usize,
    ) -> (done: Result<(), StateError>)
        ensures
            done is Ok <==> traces is Ok,
            done is Ok ==> final(self)@ == (ReaderView {
                overlay: apply_traces(
                    old(self)@.overlay,
                    scanned_prefix(traces->Ok_0@, transaction_index),
                ),
                ..old(self)@
            }),
            done is Err ==> done->Err_0@ == trace_failure(traces->Err_0.text@) && *final(self) == *old(
                self,
            ),
            final(self).cache == old(self).cache,
    {
        let results = match traces {
            Ok(results) => results,
            Err(failure) => {
                return Err(
                    StateError::ProtocolError(
                        String::from_str("Failed to trace block transactions: ").concat(
                            failure.text.as_str(),
                        ),
                    ),
                );
            },
        };
        let mut index: usize = 0;
        while index < results.len() && index != transaction_index
            invariant
                index <= results.len(),
                index <= transaction_index,
                self.block_number == old(self).block_number,
                self.cache == old(self).cache,
                self.storage_diff@ == apply_traces(
                    old(self).storage_diff@,
                    results@.take(index as int),
                ),
            decreases results.len() - index,
        {
            match &results[index].storage_diffs {
                Some(contract_storage_diff) => {
                    self.collect_storage_diffs(contract_storage_diff);
                },
                None => {},
            }
            proof {
                assert(results@.take(index + 1).drop_last() =~= results@.take(index as int));
            }
            index = index + 1;
        }
        proof {
            if index == results.len() {
                assert(results@.take(index as int) =~= results@);
            }
        }
        Ok(())
    }

    /// Writes the storage diffs of one transaction into the overlay, in
    /// order: a later write to a cell overrides an earlier one.
    pub fn collect_storage_diffs(&mut self, storage_diffs: &Vec<ContractStorageDiffItem>)
        ensures
            final(self)@ == (ReaderView {
                overlay: apply_items(old(self)@.overlay, storage_diffs@),
                ..old(self)@
            }),
            final(self).cache == old(self).cache,
    {
        let mut i: usize = 0;
        while i < storage_diffs.len()
            invariant
                i <= storage_diffs.len(),
                self.block_number == old(self).block_number,
                self.cache == old(self).cache,
                self.storage_diff@ == apply_items(
                    old(self).storage_diff@,
                    storage_diffs@.take(i as int),
                ),
            decreases storage_diffs.len() - i,
        {
            let storage_diff = &storage_diffs[i];
            collect_entries(
                &mut self.storage_diff,
                storage_diff.address,
                &storage_diff.storage_entries,
            );
            proof {
                assert(storage_diffs@.take(i + 1).drop_last() =~= storage_diffs@.take(i as int));
            }
            i = i + 1;
        }
        proof {
            assert(storage_diffs@.take(storage_diffs.len() as int) =~= storage_diffs@);
        }
    }

    /// The block's metadata from the cache, or the call that fetches it.
    pub fn get_block_info(&self) -> (found: Lookup<BlockInfo>)
        ensures
            found == self@.block_info_lookup(),
    {
        match self.cache.get_block_info() {
            Some(cache_hit) => Lookup::Resolved(cache_hit),
            None => Lookup::Remote(RemoteCall::BlockWithTxHashes { block: self.block_number }),
        }
    }

    /// Handles the ledger's answer to the call for the block: a served block
    /// becomes the metadata, with the given gas prices, and is kept in the
    /// cache unless metadata is kept already; a failure is translated. A
    /// pending block is not among the answers that may be handed in.
    pub fn block_info_fetched(
        &mut self,
        response: Result<BlockResponse, RemoteFailure>,
        gas_prices: GasPrices,
    ) -> (info: Result<BlockInfo, StateError>)
        requires
            !(response matches Ok(BlockResponse::Pending)),
        ensures
            result_view(info) == block_answer(response, gas_prices),
            final(self)@ == (ReaderView {
                block_info: if response is Ok && old(self)@.block_info is None {
                    Some(block_info_of(response->Ok_0, gas_prices))
                } else {
                    old(self)@.block_info
                },
                ..old(self)@
            }),
    {
        match response {
            Ok(BlockResponse::Block { block_number, sequencer_address, timestamp }) => {
                let block_info = BlockInfo {
                    block_number,
                    sequencer_address,
                    block_timestamp: timestamp,
                    gas_prices,
                    use_kzg_da: true,
                };
                self.cache.cache_get_block_info(block_info);
                Ok(block_info)
            },
            Ok(BlockResponse::Pending) => {
                proof {
                    assert(false);
                }
                Err(StateError::ProtocolError(String::new()))
            },
            Err(failure) => Err(translate_failure("block with tx hashes", &failure)),
        }
    }

    /// Resolves a storage cell: from the cache; else from the overlay, and
    /// the value is then kept in the cache; else by a call to the ledger.
    pub fn get_storage_at(&mut self, contract_address: Felt, key: Felt) -> (found: Lookup<Felt>)
        ensures
            found == old(self)@.storage_lookup(CellKey { address: contract_address, key }),
            final(self)@ == old(self)@.after_storage_lookup(
                CellKey { address: contract_address, key },
            ),
    {
        if let Some(cache_hit) = self.cache.get_storage_at(&contract_address, &key) {
            return Lookup::Resolved(cache_hit);
        }
        if let Some(value) = self.storage_diff.get(&contract_address, &key) {
            self.cache.cache_get_storage_at(contract_address, key, value);
            return Lookup::Resolved(value);
        }
        Lookup::Remote(
            RemoteCall::StorageAt { address: contract_address, key, block: self.block_number },
        )
    }

    /// Handles the ledger's answer to a storage call: the value, or zero
    /// where the ledger knows no such contract, is returned and kept in the
    /// cache; any other failure is translated and nothing is kept.
    pub fn storage_fetched(
        &mut self,
        contract_address: Felt,
        key: Felt,
        response: Result<Felt, RemoteFailure>,
    ) -> (value: Result<Felt, StateError>)
        ensures
            result_view(value) == felt_answer(
                storage_subject(CellKey { address: contract_address, key }),
                response,
            ),
            final(self)@ == old(self)@.after_storage_answer(
                CellKey { address: contract_address, key },
                response,
            ),
    {
        match response {
            Ok(value) => {
                self.cache.cache_get_storage_at(contract_address, key, value);
                Ok(value)
            },
            Err(failure) => match failure.kind {
                FailureKind::ContractNotFound => {
                    let zero = Felt::zero();
                    self.cache.cache_get_storage_at(contract_address, key, zero);
                    Ok(zero)
                },
                _ => {
                    let subject = String::from_str("storage at address: ").concat(
                        contract_address.to_hex().as_str(),
                    ).concat(" and key: ").concat(key.to_hex().as_str());
                    Err(translate_failure(subject.as_str(), &failure))
                },
            },
        }
    }

    /// Resolves a contract's nonce: from the cache, else by a call to the
    /// ledger.
    pub fn get_nonce_at(&self, contract_address: Felt) -> (found: Lookup<Felt>)
        ensures
            found == self@.nonce_lookup(contract_address),
    {
        match self.cache.get_nonce_at(&contract_address) {
            Some(cache_hit) => Lookup::Resolved(cache_hit),
            None => Lookup::Remote(
                RemoteCall::Nonce { address: contract_address, block: self.block_number },
            ),
        }
    }

    /// Handles the ledger's answer to a nonce call: the nonce, or zero where
    /// the ledger knows no such contract, is returned and kept in the cache;
    /// any other failure is translated and nothing is kept.
    pub fn nonce_fetched(&mut self, contract_address: Felt, response: Result<Felt, RemoteFailure>) -> (nonce:
        Result<Felt, StateError>)
        ensures
            result_view(nonce) == felt_answer(nonce_subject(contract_address), response),
            final(self)@ == old(self)@.after_nonce_answer(contract_address, response),
    {
        match response {
            Ok(nonce) => {
                self.cache.cache_get_nonce_at(contract_address, nonce);
                Ok(nonce)
            },
            Err(failure) => match failure.kind {
                FailureKind::ContractNotFound => {
                    let zero = Felt::zero();
                    self.cache.cache_get_nonce_at(contract_address, zero);
                    Ok(zero)
                },
                _ => {
                    let subject = String::from_str("nonce at ").concat(
                        contract_address.to_hex().as_str(),
                    );
                    Err(translate_failure(subject.as_str(), &failure))
                },
            },
        }
    }

    /// Resolves a contract's class hash: from the cache, else by a call to
    /// the ledger. The overlay is not asked.
    pub fn get_class_hash_at(&self, contract_address: Felt) -> (found: Lookup<Felt>)
        ensures
            found == self@.class_hash_lookup(contract_address),
    {
        match self.cache.get_class_hash_at(&contract_address) {
            Some(cache_hit) => Lookup::Resolved(cache_hit),
            None => Lookup::Remote(
                RemoteCall::ClassHashAt { address: contract_address, block: self.block_number },
            ),
        }
    }

    /// Handles the ledger's answer to a class hash call: the class hash, or
    /// zero where the ledger knows no such contract, is returned and kept in
    /// the cache; any other failure is translated and nothing is kept.
    pub fn class_hash_fetched(
        &mut self,
        contract_address: Felt,
        response: Result<Felt, RemoteFailure>,
    ) -> (class_hash: Result<Felt, StateError>)
        ensures
            result_view(class_hash) == felt_answer(class_hash_subject(contract_address), response),
            final(self)@ == old(self)@.after_class_hash_answer(contract_address, response),
    {
        match response {
            Ok(class_hash) => {
                self.cache.cache_get_class_hash_at(contract_address, class_hash);
                Ok(class_hash)
            },
            Err(failure) => match failure.kind {
                FailureKind::ContractNotFound => {
                    let zero = Felt::zero();
                    self.cache.cache_get_class_hash_at(contract_address, zero);
                    Ok(zero)
                },
                _ => {
                    let subject = String::from_str("class hash at ").concat(
                        contract_address.to_hex().as_str(),
                    );
                    Err(translate_failure(subject.as_str(), &failure))
                },
            },
        }
    }

    /// Resolves an executable class: from the cache, where it is kept in its
    /// executable form, else by a call to the ledger for the raw class.
    pub fn get_compiled_contract_class(&self, class_hash: Felt) -> (found: Lookup<&ExecutableClass>)
        ensures
            found is Resolved <==> self@.classes.contains_key(class_hash),
            found is Resolved ==> *found->Resolved_0 == self@.classes[class_hash],
            found is Remote ==> found->Remote_0 == (RemoteCall::Class {
                class_hash,
                block: self.block_number,
            }),
    {
        match self.cache.get_compiled_contract_class(&class_hash) {
            Some(cache_hit) => Lookup::Resolved(cache_hit),
            None => Lookup::Remote(RemoteCall::Class { class_hash, block: self.block_number }),
        }
    }

    /// Handles the ledger's answer to a class call. A served class is taken
    /// as far as it goes without the compiler. A class hash that the ledger
    /// does not know gives `UndeclaredClassHash`, never a class; any other
    /// failure is translated.
    pub fn class_fetched(class_hash: Felt, response: Result<RawClass, RemoteFailure>) -> (step: Result<
        Materialization,
        StateError,
    >)
        ensures
            step is Ok <==> response is Ok,
            step is Ok ==> Ok::<MaterializationView, StateErrorView>(step->Ok_0@) == class_answer(
                class_hash,
                response,
            ),
            step is Err ==> Err::<MaterializationView, StateErrorView>(step->Err_0@)
                == class_answer(class_hash, response),
    {
        match response {
            Ok(contract_class) => Ok(materialize(contract_class)),
            Err(failure) => match failure.kind {
                FailureKind::ClassHashNotFound => Err(StateError::UndeclaredClassHash(class_hash)),
                _ => {
                    let subject = String::from_str("compiled class at ").concat(
                        class_hash.to_hex().as_str(),
                    );
                    Err(translate_failure(subject.as_str(), &failure))
                },
            },
        }
    }

    /// Keeps a materialized class in the cache, unless one is kept for the
    /// class hash already.
    pub fn class_materialized(&mut self, class_hash: Felt, class: ExecutableClass)
        ensures
            final(self)@ == (ReaderView {
                classes: put_absent(old(self)@.classes, class_hash, class),
                ..old(self)@
            }),
    {
        self.cache.insert_compiled_contract_class(class_hash, class);
    }

    /// A forked state cannot tell a compiled class hash: the query fails,
    /// whatever the reader holds.
    pub fn get_compiled_class_hash(&self, _class_hash: Felt) -> (r: Result<Felt, StateError>)
        ensures
            r is Err,
            r->Err_0@ == unsupported_error(),
    {
        Err(StateError::Unsupported(String::from_str("Unable to get compiled class hash from the fork")))
    }
}

/// A cell that both the cache and the overlay hold resolves to the value in
/// the cache, whatever the overlay says.
pub proof fn lemma_cache_precedes_overlay(reader: ReaderView, cell: CellKey)
    requires
        reader.storage.contains_key(cell),
        reader.overlay.contains_key(cell),
    ensures
        reader.storage_lookup(cell) == Lookup::Resolved(reader.storage[cell]),
        reader.after_storage_lookup(cell) == reader,
{
    assert(put_absent(reader.storage, cell, reader.storage[cell]) == reader.storage);
}

/// A cell resolved from the overlay is served from the cache afterwards,
/// with the same value.
pub proof fn lemma_overlay_hit_is_kept(reader: ReaderView, cell: CellKey)
    requires
        reader.local_storage(cell) is Some,
    ensures
        reader.after_storage_lookup(cell).storage.contains_key(cell),
        reader.after_storage_lookup(cell).storage_lookup(cell) == reader.storage_lookup(cell),
{
}

/// What the cache keeps for a key stays as it is, whatever answer is handed
/// in for that key later.
pub proof fn lemma_kept_value_stays<K>(table: Map<K, Felt>, key: K, response: Result<Felt, RemoteFailure>)
    requires
        table.contains_key(key),
    ensures
        kept_answer(table, key, response) == table,
{
}

/// Once an answer with a value, or the answer that the contract is unknown,
/// was handed in for a nonce, the nonce resolves without a call: to the
/// value that was returned, where none was kept before.
pub proof fn lemma_nonce_fetched_once(
    reader: ReaderView,
    address: Felt,
    response: Result<Felt, RemoteFailure>,
)
    requires
        felt_answer(nonce_subject(address), response) is Ok,
    ensures
        reader.after_nonce_answer(address, response).nonce_lookup(address) is Resolved,
        !reader.nonces.contains_key(address) ==> reader.after_nonce_answer(
            address,
            response,
        ).nonce_lookup(address) == Lookup::Resolved(
            felt_answer(nonce_subject(address), response)->Ok_0,
        ),
{
}

/// The same for a storage cell.
pub proof fn lemma_storage_fetched_once(
    reader: ReaderView,
    cell: CellKey,
    response: Result<Felt, RemoteFailure>,
)
    requires
        felt_answer(storage_subject(cell), response) is Ok,
    ensures
        reader.after_storage_answer(cell, response).storage_lookup(cell) is Resolved,
        reader.local_storage(cell) is None ==> reader.after_storage_answer(
            cell,
            response,
        ).storage_lookup(cell) == Lookup::Resolved(
            felt_answer(storage_subject(cell), response)->Ok_0,
        ),
{
}

/// The same for a class hash.
pub proof fn lemma_class_hash_fetched_once(
    reader: ReaderView,
    address: Felt,
    response: Result<Felt, RemoteFailure>,
)
    requires
        felt_answer(class_hash_subject(address), response) is Ok,
    ensures
        reader.after_class_hash_answer(address, response).class_hash_lookup(address) is Resolved,
        !reader.class_hashes.contains_key(address) ==> reader.after_class_hash_answer(
            address,
            response,
        ).class_hash_lookup(address) == Lookup::Resolved(
            felt_answer(class_hash_subject(address), response)->Ok_0,
        ),
{
}

/// An unknown contract is no error: the answer is zero for any subject, and
/// where nothing was known of the key before, zero is what the next query
/// for its storage, nonce or class hash resolves to.
pub proof fn lemma_unknown_contract_is_zero(
    reader: ReaderView,
    cell: CellKey,
    subject: Seq<char>,
    failure: RemoteFailure,
)
    requires
        failure.kind == FailureKind::ContractNotFound,
    ensures
        felt_answer(subject, Err(failure)) == Ok::<Felt, StateErrorView>(
            Felt { w3: 0, w2: 0, w1: 0, w0: 0 },
        ),
        reader.local_storage(cell) is None ==> reader.after_storage_answer(
            cell,
            Err(failure),
        ).storage_lookup(cell) == Lookup::Resolved(Felt { w3: 0, w2: 0, w1: 0, w0: 0 }),
        !reader.nonces.contains_key(cell.address) ==> reader.after_nonce_answer(
            cell.address,
            Err(failure),
        ).nonce_lookup(cell.address) == Lookup::Resolved(Felt { w3: 0, w2: 0, w1: 0, w0: 0 }),
        !reader.class_hashes.contains_key(cell.address) ==> reader.after_class_hash_answer(
            cell.address,
            Err(failure),
        ).class_hash_lookup(cell.address) == Lookup::Resolved(
            Felt { w3: 0, w2: 0, w1: 0, w0: 0 },
        ),
{
}

/// A class hash that the ledger does not know never yields a class.
pub proof fn lemma_unknown_class_is_error(class_hash: Felt, failure: RemoteFailure)
    requires
        failure.kind == FailureKind::ClassHashNotFound,
    ensures
        class_answer(class_hash, Err(failure)) == Err::<MaterializationView, StateErrorView>(
            StateErrorView::UndeclaredClassHash(class_hash),
        ),
{
}

/// The error of a failed scan quotes the text of the client's error.
pub proof fn lemma_trace_failure_quotes_cause(cause: Seq<char>)
    ensures
        trace_failure(cause) matches StateErrorView::ProtocolError(message) && has_substring(
            message,
            cause,
        ),
{
    lemma_middle_is_substring("Failed to trace block transactions: "@, cause, Seq::empty());
    assert("Failed to trace block transactions: "@ + cause + Seq::<char>::empty()
        =~= "Failed to trace block transactions: "@ + cause);
}

} // verus!
