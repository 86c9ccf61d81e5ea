use std::io::Write;

use flate2::write::GzEncoder;
use flate2::Compression;
use fork_state::class::{
    compile_request, finish_compiled, legacy_from_text, materialize, materialize_legacy,
    request_from_words, EntryPoint, EntryPointKind, ExecutableClass, Materialization, RawClass,
};
use fork_state::error::StateError;
use fork_state::felt::Felt;

fn gzip(text: &str) -> Vec<u8> {
    let mut encoder = GzEncoder::new(Vec::new(), Compression::default());
    encoder.write_all(text.as_bytes()).unwrap();
    encoder.finish().unwrap()
}

fn entry_points() -> Vec<EntryPoint> {
    vec![
        EntryPoint { kind: EntryPointKind::Constructor, selector: Felt::from_u64(1), index: 0 },
        EntryPoint { kind: EntryPointKind::External, selector: Felt::from_u64(2), index: 12 },
        EntryPoint { kind: EntryPointKind::L1Handler, selector: Felt::from_u64(3), index: 40 },
    ]
}

#[test]
fn legacy_program_is_decompressed() {
    let program = "{\"data\":[\"0x1\"],\"builtins\":[]}";
    let class = materialize_legacy(gzip(program), entry_points());
    assert_eq!(
        class,
        Some(ExecutableClass::V0 { program: program.to_string(), entry_points: entry_points() })
    );
}

#[test]
fn legacy_materialization_is_repeatable() {
    let payload = gzip("{\"data\":[\"0x1\",\"0x2\"]}");
    let raw = RawClass::Legacy { program: payload, entry_points: entry_points() };
    let first = materialize(raw.clone());
    let second = materialize(raw);
    assert_eq!(first, second);
    assert_eq!(
        first,
        Materialization::Ready(ExecutableClass::V0 {
            program: "{\"data\":[\"0x1\",\"0x2\"]}".to_string(),
            entry_points: entry_points(),
        })
    );
}

#[test]
fn malformed_legacy_program_is_reported() {
    assert_eq!(materialize_legacy(vec![1, 2, 3, 4], entry_points()), None);
    assert_eq!(materialize_legacy(vec![], entry_points()), None);
    let raw = RawClass::Legacy { program: b"not gzip".to_vec(), entry_points: vec![] };
    assert_eq!(materialize(raw), Materialization::Malformed);
}

#[test]
fn legacy_text_is_paired_with_entry_points() {
    assert_eq!(legacy_from_text(None, entry_points()), None);
    assert_eq!(
        legacy_from_text(Some("p".to_string()), entry_points()),
        Some(ExecutableClass::V0 { program: "p".to_string(), entry_points: entry_points() })
    );
}

#[test]
fn modern_program_becomes_hex_words() {
    let program = vec![
        Felt::zero(),
        Felt::from_u64(1),
        Felt::from_u64(255),
        Felt { w3: 0, w2: 0, w1: 1, w0: 0 },
        Felt { w3: 0x0800_0000_0000_0011, w2: 0, w1: 0, w0: 0 },
    ];
    let request = compile_request(program, entry_points());
    assert_eq!(
        request.sierra_program,
        vec![
            "0x0".to_string(),
            "0x1".to_string(),
            "0xff".to_string(),
            "0x10000000000000000".to_string(),
            "0x800000000000011000000000000000000000000000000000000000000000000".to_string(),
        ]
    );
    assert_eq!(request.contract_class_version, "");
    assert_eq!(request.entry_points, entry_points());
}

#[test]
fn modern_materialization_is_repeatable() {
    let raw = RawClass::Modern {
        sierra_program: vec![Felt::from_u64(17), Felt::from_u64(4096)],
        entry_points: entry_points(),
    };
    let first = materialize(raw.clone());
    let second = materialize(raw);
    assert_eq!(first, second);
    assert_eq!(
        first,
        Materialization::Compile(request_from_words(
            vec!["0x11".to_string(), "0x1000".to_string()],
            entry_points()
        ))
    );
}

#[test]
fn compiler_outcome_is_finished() {
    assert_eq!(
        finish_compiled(Ok("{\"bytecode\":[]}".to_string())),
        Ok(ExecutableClass::V1 { casm: "{\"bytecode\":[]}".to_string() })
    );
    assert_eq!(
        finish_compiled(Err("compiler crashed".to_string())),
        Err(StateError::ProtocolError("compiler crashed".to_string()))
    );
}
