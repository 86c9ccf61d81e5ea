use fork_state::cache::{BlockInfo, ForkCache, GasPrices};
use fork_state::class::{ExecutableClass, Materialization, RawClass};
use fork_state::diff::{ContractStorageDiffItem, StorageEntry, TraceKind, TransactionTrace};
use fork_state::error::{FailureKind, RemoteFailure, StateError};
use fork_state::felt::Felt;
use fork_state::reader::{BlockResponse, ForkStateReader, Lookup, RemoteCall};

fn felt(v: u64) -> Felt {
    Felt::from_u64(v)
}

fn write_trace(kind: TraceKind, address: u64, key: u64, value: u64) -> TransactionTrace {
    TransactionTrace {
        kind,
        storage_diffs: Some(vec![ContractStorageDiffItem {
            address: felt(address),
            storage_entries: vec![StorageEntry { key: felt(key), value: felt(value) }],
        }]),
    }
}

fn three_invokes() -> Vec<TransactionTrace> {
    vec![
        write_trace(TraceKind::Invoke, 10, 20, 1),
        write_trace(TraceKind::Invoke, 10, 20, 2),
        write_trace(TraceKind::Invoke, 10, 20, 3),
    ]
}

fn reader_at(offset: usize, traces: Vec<TransactionTrace>) -> ForkStateReader {
    ForkStateReader::new(100, offset, ForkCache::new(), Ok(traces)).unwrap()
}

fn failure(kind: FailureKind, text: &str) -> RemoteFailure {
    RemoteFailure { kind, text: text.to_string() }
}

/// A ledger that answers every nonce call with 7 and counts the calls.
struct CountingLedger {
    calls: usize,
}

impl CountingLedger {
    fn nonce(&mut self, _address: Felt, _block: u64) -> Result<Felt, RemoteFailure> {
        self.calls += 1;
        Ok(felt(7))
    }
}

fn nonce_through(reader: &mut ForkStateReader, ledger: &mut CountingLedger, address: Felt) -> Felt {
    match reader.get_nonce_at(address) {
        Lookup::Resolved(nonce) => nonce,
        Lookup::Remote(RemoteCall::Nonce { address: a, block }) => {
            let response = ledger.nonce(a, block);
            reader.nonce_fetched(address, response).unwrap()
        }
        Lookup::Remote(other) => panic!("unexpected call {other:?}"),
    }
}

#[test]
fn offset_two_applies_the_first_two_writes() {
    let mut reader = reader_at(2, three_invokes());
    assert_eq!(reader.get_storage_at(felt(10), felt(20)), Lookup::Resolved(felt(2)));
}

#[test]
fn offset_zero_scans_nothing() {
    let mut reader = reader_at(0, three_invokes());
    assert_eq!(
        reader.get_storage_at(felt(10), felt(20)),
        Lookup::Remote(RemoteCall::StorageAt { address: felt(10), key: felt(20), block: 100 })
    );
}

#[test]
fn offset_at_or_past_the_end_scans_everything() {
    let mut at_end = reader_at(3, three_invokes());
    assert_eq!(at_end.get_storage_at(felt(10), felt(20)), Lookup::Resolved(felt(3)));
    let mut past_end = reader_at(50, three_invokes());
    assert_eq!(past_end.get_storage_at(felt(10), felt(20)), Lookup::Resolved(felt(3)));
}

#[test]
fn write_at_the_offset_does_not_show() {
    let traces = vec![
        write_trace(TraceKind::Invoke, 10, 20, 1),
        write_trace(TraceKind::Invoke, 11, 21, 5),
    ];
    let mut reader = reader_at(1, traces);
    assert_eq!(reader.get_storage_at(felt(10), felt(20)), Lookup::Resolved(felt(1)));
    assert_eq!(
        reader.get_storage_at(felt(11), felt(21)),
        Lookup::Remote(RemoteCall::StorageAt { address: felt(11), key: felt(21), block: 100 })
    );
}

#[test]
fn every_kind_of_transaction_contributes() {
    let traces = vec![
        write_trace(TraceKind::Invoke, 1, 1, 11),
        write_trace(TraceKind::Declare, 2, 2, 22),
        write_trace(TraceKind::DeployAccount, 3, 3, 33),
        write_trace(TraceKind::L1Handler, 4, 4, 44),
        TransactionTrace { kind: TraceKind::Invoke, storage_diffs: None },
    ];
    let mut reader = reader_at(5, traces);
    assert_eq!(reader.get_storage_at(felt(1), felt(1)), Lookup::Resolved(felt(11)));
    assert_eq!(reader.get_storage_at(felt(2), felt(2)), Lookup::Resolved(felt(22)));
    assert_eq!(reader.get_storage_at(felt(3), felt(3)), Lookup::Resolved(felt(33)));
    assert_eq!(reader.get_storage_at(felt(4), felt(4)), Lookup::Resolved(felt(44)));
}

#[test]
fn last_write_in_one_transaction_wins() {
    let trace = TransactionTrace {
        kind: TraceKind::Invoke,
        storage_diffs: Some(vec![
            ContractStorageDiffItem {
                address: felt(1),
                storage_entries: vec![
                    StorageEntry { key: felt(2), value: felt(5) },
                    StorageEntry { key: felt(2), value: felt(6) },
                ],
            },
            ContractStorageDiffItem {
                address: felt(1),
                storage_entries: vec![StorageEntry { key: felt(2), value: felt(7) }],
            },
        ]),
    };
    let mut reader = reader_at(1, vec![trace]);
    assert_eq!(reader.get_storage_at(felt(1), felt(2)), Lookup::Resolved(felt(7)));
}

#[test]
fn failed_traces_fail_construction() {
    let reader = ForkStateReader::new(
        100,
        2,
        ForkCache::new(),
        Err(failure(FailureKind::Other, "boom")),
    );
    assert_eq!(
        reader,
        Err(StateError::ProtocolError("Failed to trace block transactions: boom".to_string()))
    );
}

#[test]
fn failed_scan_quotes_the_cause_and_leaves_the_reader() {
    let mut reader = reader_at(1, three_invokes());
    let before = reader.clone();
    let done = reader.get_transactions_storage_diff(
        Err(failure(FailureKind::Transport, "error sending request for url (http://x)")),
        3,
    );
    assert_eq!(
        done,
        Err(StateError::ProtocolError(
            "Failed to trace block transactions: error sending request for url (http://x)"
                .to_string()
        ))
    );
    assert_eq!(reader, before);
    assert_eq!(reader.get_transactions_storage_diff(Ok(three_invokes()), 3), Ok(()));
    assert_eq!(reader.get_storage_at(felt(10), felt(20)), Lookup::Resolved(felt(3)));
}

#[test]
fn traces_are_asked_of_the_following_block() {
    assert_eq!(
        ForkStateReader::trace_call(100),
        RemoteCall::TraceBlockTransactions { block: 101 }
    );
}

#[test]
fn cache_wins_over_overlay() {
    let mut cache = ForkCache::new();
    cache.cache_get_storage_at(felt(10), felt(20), felt(99));
    let mut reader = ForkStateReader::new(100, 2, cache, Ok(three_invokes())).unwrap();
    assert_eq!(reader.get_storage_at(felt(10), felt(20)), Lookup::Resolved(felt(99)));
}

#[test]
fn overlay_hit_is_written_to_the_cache() {
    let mut reader = reader_at(2, three_invokes());
    assert_eq!(reader.cache.get_storage_at(&felt(10), &felt(20)), None);
    assert_eq!(reader.get_storage_at(felt(10), felt(20)), Lookup::Resolved(felt(2)));
    assert_eq!(reader.cache.get_storage_at(&felt(10), &felt(20)), Some(felt(2)));
}

#[test]
fn nonce_is_fetched_once() {
    let mut reader = reader_at(0, vec![]);
    let mut ledger = CountingLedger { calls: 0 };
    assert_eq!(nonce_through(&mut reader, &mut ledger, felt(5)), felt(7));
    assert_eq!(nonce_through(&mut reader, &mut ledger, felt(5)), felt(7));
    assert_eq!(ledger.calls, 1);
}

#[test]
fn storage_answer_is_cached() {
    let mut reader = reader_at(0, vec![]);
    assert_eq!(reader.storage_fetched(felt(1), felt(2), Ok(felt(42))), Ok(felt(42)));
    assert_eq!(reader.get_storage_at(felt(1), felt(2)), Lookup::Resolved(felt(42)));
}

#[test]
fn unknown_contract_resolves_to_zero_and_is_cached() {
    let mut reader = reader_at(0, vec![]);
    let not_found = || Err(failure(FailureKind::ContractNotFound, "ContractNotFound"));

    assert_eq!(reader.storage_fetched(felt(1), felt(2), not_found()), Ok(Felt::zero()));
    assert_eq!(reader.get_storage_at(felt(1), felt(2)), Lookup::Resolved(Felt::zero()));

    assert_eq!(reader.nonce_fetched(felt(1), not_found()), Ok(Felt::zero()));
    assert_eq!(reader.get_nonce_at(felt(1)), Lookup::Resolved(Felt::zero()));

    assert_eq!(reader.class_hash_fetched(felt(1), not_found()), Ok(Felt::zero()));
    assert_eq!(reader.get_class_hash_at(felt(1)), Lookup::Resolved(Felt::zero()));
}

#[test]
fn class_hash_does_not_ask_the_overlay() {
    let reader = reader_at(3, three_invokes());
    assert_eq!(
        reader.get_class_hash_at(felt(10)),
        Lookup::Remote(RemoteCall::ClassHashAt { address: felt(10), block: 100 })
    );
    assert_eq!(
        reader.get_nonce_at(felt(10)),
        Lookup::Remote(RemoteCall::Nonce { address: felt(10), block: 100 })
    );
}

#[test]
fn cached_value_is_never_replaced() {
    let mut reader = reader_at(0, vec![]);
    assert_eq!(reader.nonce_fetched(felt(1), Ok(felt(3))), Ok(felt(3)));
    assert_eq!(reader.nonce_fetched(felt(1), Ok(felt(4))), Ok(felt(4)));
    assert_eq!(reader.get_nonce_at(felt(1)), Lookup::Resolved(felt(3)));

    let mut cache = ForkCache::new();
    cache.cache_get_class_hash_at(felt(1), felt(8));
    cache.cache_get_class_hash_at(felt(1), felt(9));
    assert_eq!(cache.get_class_hash_at(&felt(1)), Some(felt(8)));
    assert_eq!(cache.get_class_hash_at(&felt(2)), None);
}

#[test]
fn failures_are_translated_and_not_cached() {
    let mut reader = reader_at(0, vec![]);
    assert_eq!(
        reader.storage_fetched(felt(1), felt(2), Err(failure(FailureKind::Other, "boom"))),
        Err(StateError::ProtocolError(
            "Unable to get storage at address: 0x1 and key: 0x2 from fork (boom)".to_string()
        ))
    );
    assert_eq!(
        reader.nonce_fetched(felt(255), Err(failure(FailureKind::Other, "boom"))),
        Err(StateError::ProtocolError("Unable to get nonce at 0xff from fork (boom)".to_string()))
    );
    assert_eq!(
        reader.class_hash_fetched(felt(16), Err(failure(FailureKind::ClassHashNotFound, "nope"))),
        Err(StateError::ProtocolError(
            "Unable to get class hash at 0x10 from fork (nope)".to_string()
        ))
    );
    assert_eq!(
        reader.nonce_fetched(
            felt(1),
            Err(failure(FailureKind::Transport, "error sending request for url (http://x)"))
        ),
        Err(StateError::Unreachable(
            "Unable to reach the node. Check your internet connection and node url".to_string()
        ))
    );
    assert_eq!(
        reader.nonce_fetched(felt(1), Err(failure(FailureKind::Transport, "bad json"))),
        Err(StateError::ProtocolError("JsonRpc provider error: bad json".to_string()))
    );
    assert_eq!(
        reader.get_nonce_at(felt(1)),
        Lookup::Remote(RemoteCall::Nonce { address: felt(1), block: 100 })
    );
    assert_eq!(
        reader.get_storage_at(felt(1), felt(2)),
        Lookup::Remote(RemoteCall::StorageAt { address: felt(1), key: felt(2), block: 100 })
    );
}

#[test]
fn unknown_class_hash_is_an_error() {
    let step = ForkStateReader::class_fetched(
        felt(9),
        Err(failure(FailureKind::ClassHashNotFound, "ClassHashNotFound")),
    );
    assert_eq!(step, Err(StateError::UndeclaredClassHash(felt(9))));
}

#[test]
fn class_failures_are_translated() {
    assert_eq!(
        ForkStateReader::class_fetched(felt(9), Err(failure(FailureKind::ContractNotFound, "gone"))),
        Err(StateError::ProtocolError(
            "Unable to get compiled class at 0x9 from fork (gone)".to_string()
        ))
    );
    assert_eq!(
        ForkStateReader::class_fetched(felt(9), Err(failure(FailureKind::Transport, "tls"))),
        Err(StateError::ProtocolError("JsonRpc provider error: tls".to_string()))
    );
}

#[test]
fn fetched_modern_class_asks_for_the_compiler() {
    let raw = RawClass::Modern { sierra_program: vec![felt(1), felt(255)], entry_points: vec![] };
    match ForkStateReader::class_fetched(felt(9), Ok(raw)) {
        Ok(Materialization::Compile(request)) => {
            assert_eq!(request.sierra_program, vec!["0x1".to_string(), "0xff".to_string()]);
        }
        other => panic!("unexpected step {other:?}"),
    }
}

#[test]
fn materialized_class_is_served_from_the_cache() {
    let mut reader = reader_at(0, vec![]);
    assert_eq!(
        reader.get_compiled_contract_class(felt(9)),
        Lookup::Remote(RemoteCall::Class { class_hash: felt(9), block: 100 })
    );
    assert_eq!(reader.get_compiled_contract_class_from_cache(felt(9)), None);
    let class = ExecutableClass::V1 { casm: "{}".to_string() };
    reader.class_materialized(felt(9), class.clone());
    reader.class_materialized(felt(9), ExecutableClass::V1 { casm: "other".to_string() });
    assert_eq!(reader.get_compiled_contract_class(felt(9)), Lookup::Resolved(&class));
    assert_eq!(reader.get_compiled_contract_class_from_cache(felt(9)), Some(&class));
}

#[test]
fn compiled_class_hash_is_unsupported() {
    let empty = reader_at(0, vec![]);
    let expected =
        Err(StateError::Unsupported("Unable to get compiled class hash from the fork".to_string()));
    assert_eq!(empty.get_compiled_class_hash(felt(1)), expected);
    let mut filled = reader_at(3, three_invokes());
    filled.class_materialized(felt(1), ExecutableClass::V1 { casm: "{}".to_string() });
    assert_eq!(filled.get_compiled_class_hash(felt(1)), expected);
}

#[test]
fn block_info_is_fetched_and_cached() {
    let prices = GasPrices {
        eth_l1_gas_price: 1,
        strk_l1_gas_price: 2,
        eth_l1_data_gas_price: 3,
        strk_l1_data_gas_price: 4,
    };
    let mut reader = reader_at(0, vec![]);
    assert_eq!(reader.block_id(), 100);
    assert_eq!(
        reader.get_block_info(),
        Lookup::Remote(RemoteCall::BlockWithTxHashes { block: 100 })
    );
    let expected = BlockInfo {
        block_number: 100,
        sequencer_address: felt(77),
        block_timestamp: 1234,
        gas_prices: prices,
        use_kzg_da: true,
    };
    let response =
        BlockResponse::Block { block_number: 100, sequencer_address: felt(77), timestamp: 1234 };
    assert_eq!(reader.block_info_fetched(Ok(response), prices), Ok(expected));
    assert_eq!(reader.get_block_info(), Lookup::Resolved(expected));
}

#[test]
fn block_failures_are_translated() {
    let prices = GasPrices {
        eth_l1_gas_price: 1,
        strk_l1_gas_price: 1,
        eth_l1_data_gas_price: 1,
        strk_l1_data_gas_price: 1,
    };
    let mut reader = reader_at(0, vec![]);
    assert_eq!(
        reader.block_info_fetched(Err(failure(FailureKind::Other, "BlockNotFound")), prices),
        Err(StateError::ProtocolError(
            "Unable to get block with tx hashes from fork (BlockNotFound)".to_string()
        ))
    );
    assert_eq!(
        reader.get_block_info(),
        Lookup::Remote(RemoteCall::BlockWithTxHashes { block: 100 })
    );
}
