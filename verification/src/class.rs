//! Contract classes: the two payloads that the ledger serves and the one
//! executable form that they are turned into.

use vstd::prelude::*;
use std::io::Read;
use flate2::read::GzDecoder;
use crate::error::{StateError, StateErrorView};
use crate::felt::Felt;

verus! {

/// The role of an entry point.
#[derive(Clone, Copy, Debug, PartialEq, Eq, Structural, Hash)]
pub enum EntryPointKind {
    Constructor,
    External,
    L1Handler,
}

/// One line of an entry-point table. `index` is the offset into the program
/// for a legacy class, the function's index for a modern one.
#[derive(Clone, Copy, Debug, PartialEq, Eq, Structural, Hash)]
pub struct EntryPoint {
    pub kind: EntryPointKind,
    pub selector: Felt,
    pub index: u64,
}

/// A class as the ledger serves it.
#[derive(Clone, Debug, PartialEq, Eq)]
pub enum RawClass {
    /// A gzip-compressed serialized program with its entry points.
    Legacy { program: Vec<u8>, entry_points: Vec<EntryPoint> },
    /// A program in the intermediate representation with its entry points.
    Modern { sierra_program: Vec<Felt>, entry_points: Vec<EntryPoint> },
}

/// What the compiler is asked to turn into bytecode.
#[derive(Clone, Debug, PartialEq, Eq)]
pub struct CompileRequest {
    /// The program's words, each as hexadecimal text.
    pub sierra_program: Vec<String>,
    /// The version tag, which is left empty.
    pub contract_class_version: String,
    pub entry_points: Vec<EntryPoint>,
}

/// A class in the form that the engine runs.
#[derive(Clone, Debug, PartialEq, Eq)]
pub enum ExecutableClass {
    /// A legacy class: the serialized program, decompressed, and its entry points.
    V0 { program: String, entry_points: Vec<EntryPoint> },
    /// A modern class: the serialized bytecode that the compiler gave.
    V1 { casm: String },
}

/// An executable class with its texts as sequences of characters.
pub enum ExecutableClassView {
    V0 { program: Seq<char>, entry_points: Seq<EntryPoint> },
    V1 { casm: Seq<char> },
}

impl View for ExecutableClass {
    type V = ExecutableClassView;

    open spec fn view(&self) -> ExecutableClassView {
        match self {
            ExecutableClass::V0 { program, entry_points } => ExecutableClassView::V0 {
                program: program@,
                entry_points: entry_points@,
            },
            ExecutableClass::V1 { casm } => ExecutableClassView::V1 { casm: casm@ },
        }
    }
}

/// What has to happen next to a raw class.
#[derive(Clone, Debug, PartialEq, Eq)]
pub enum Materialization {
    /// The class is executable as it stands.
    Ready(ExecutableClass),
    /// The compiler has to be run on the request.
    Compile(CompileRequest),
    /// The payload is malformed: its program does not decompress to text.
    Malformed,
}

/// The text that a gzip member decompresses to; `None` where the bytes are no
/// gzip member or the content is not UTF-8.
pub uninterp spec fn gz_text(bytes: Seq<u8>) -> Option<Seq<char>>;

/// Reads `bytes` to the end through `flate2::read::GzDecoder` with
/// `read_to_string`. The contract names the outcome: the text on success,
/// nothing where the decoder or the UTF-8 check reports an error.
#[verifier::external_body]
pub(crate) fn gunzip_text(bytes: &[u8]) -> (text: Option<String>)
    ensures
        text is Some <==> gz_text(bytes@) is Some,
        text is Some ==> gz_text(bytes@) == Some(text->Some_0@),
{
    let mut decoder = GzDecoder::new(bytes);
    let mut text = String::new();
    match decoder.read_to_string(&mut text) {
        Ok(_) => Some(text),
        Err(_) => None,
    }
}

/// The words of a program as hexadecimal texts.
pub open spec fn hex_words(program: Seq<Felt>) -> Seq<Seq<char>> {
    Seq::new(program.len(), |i: int| program[i].hex())
}

/// The texts of a list of strings.
pub open spec fn texts(words: Seq<String>) -> Seq<Seq<char>> {
    Seq::new(words.len(), |i: int| words[i]@)
}

/// The executable form of a legacy class, where its program decompresses.
pub open spec fn legacy_class(program: Seq<u8>, entry_points: Seq<EntryPoint>) -> Option<
    ExecutableClassView,
> {
    legacy_with_text(gz_text(program), entry_points)
}

/// The executable form of a legacy class whose program decompressed to
/// `text`; nothing where it did not decompress.
pub open spec fn legacy_with_text(text: Option<Seq<char>>, entry_points: Seq<EntryPoint>) -> Option<
    ExecutableClassView,
> {
    match text {
        Some(text) => Some(ExecutableClassView::V0 { program: text, entry_points }),
        None => None,
    }
}

/// Pairs the decompressed program of a legacy class with its entry points
/// into a V0 class; no class where the program did not decompress.
pub fn legacy_from_text(text: Option<String>, entry_points: Vec<EntryPoint>) -> (class: Option<
    ExecutableClass,
>)
    ensures
        class is Some <==> text is Some,
        class is Some ==> class->Some_0@ == (ExecutableClassView::V0 {
            program: text->Some_0@,
            entry_points: entry_points@,
        }),
{
    match text {
        Some(text) => Some(ExecutableClass::V0 { program: text, entry_points }),
        None => None,
    }
}

/// Turns a legacy payload into a V0 class: the program is decompressed and
/// paired with the entry points. `None` for a program that does not
/// decompress to text.
pub fn materialize_legacy(program: Vec<u8>, entry_points: Vec<EntryPoint>) -> (class: Option<
    ExecutableClass,
>)
    ensures
        class is Some <==> legacy_class(program@, entry_points@) is Some,
        class is Some ==> Some(class->Some_0@) == legacy_class(program@, entry_points@),
{
    let text = gunzip_text(program.as_slice());
    legacy_from_text(text, entry_points)
}

/// The request that carries `words` as its program: the version tag is
/// empty, the entry points are handed on.
pub fn request_from_words(words: Vec<String>, entry_points: Vec<EntryPoint>) -> (request:
    CompileRequest)
    ensures
        request.sierra_program == words,
        request.contract_class_version@ == Seq::<char>::empty(),
        request.entry_points == entry_points,
{
    CompileRequest { sierra_program: words, contract_class_version: String::new(), entry_points }
}

/// Builds the request for the compiler from a modern payload: every word of
/// the program as hexadecimal text, an empty version tag, and the entry
/// points as they came.
pub fn compile_request(sierra_program: Vec<Felt>, entry_points: Vec<EntryPoint>) -> (request:
    CompileRequest)
    ensures
        texts(request.sierra_program@) == hex_words(sierra_program@),
        request.contract_class_version@ == Seq::<char>::empty(),
        request.entry_points@ == entry_points@,
{
    let mut words: Vec<String> = Vec::new();
    let mut i: usize = 0;
    while i < sierra_program.len()
        invariant
            i <= sierra_program.len(),
            words.len() == i,
            forall|j: int|
                0 <= j < i ==> words@[j]@ == sierra_program@[j].hex(),
        decreases sierra_program.len() - i,
    {
        let word = sierra_program[i].to_hex();
        words.push(word);
        i = i + 1;
    }
    proof {
        assert(texts(words@) =~= hex_words(sierra_program@));
    }
    request_from_words(words, entry_points)
}

/// The next step for a raw class, as a function of the payload.
pub open spec fn materialization_of(raw: RawClass) -> MaterializationView {
    match raw {
        RawClass::Legacy { program, entry_points } => match legacy_class(program@, entry_points@) {
            Some(class) => MaterializationView::Ready(class),
            None => MaterializationView::Malformed,
        },
        RawClass::Modern { sierra_program, entry_points } => MaterializationView::Compile {
            sierra_program: hex_words(sierra_program@),
            contract_class_version: Seq::<char>::empty(),
            entry_points: entry_points@,
        },
    }
}

/// A materialization step with its texts as sequences of characters.
pub enum MaterializationView {
    Ready(ExecutableClassView),
    Compile {
        sierra_program: Seq<Seq<char>>,
        contract_class_version: Seq<char>,
        entry_points: Seq<EntryPoint>,
    },
    Malformed,
}

impl View for Materialization {
    type V = MaterializationView;

    open spec fn view(&self) -> MaterializationView {
        match self {
            Materialization::Ready(class) => MaterializationView::Ready(class@),
            Materialization::Compile(request) => MaterializationView::Compile {
                sierra_program: texts(request.sierra_program@),
                contract_class_version: request.contract_class_version@,
                entry_points: request.entry_points@,
            },
            Materialization::Malformed => MaterializationView::Malformed,
        }
    }
}

/// Takes a raw class as far as it goes without the compiler: a legacy class
/// becomes executable, a modern one becomes a request for the compiler.
pub fn materialize(raw: RawClass) -> (step: Materialization)
    ensures
        step@ == materialization_of(raw),
{
    match raw {
        RawClass::Legacy { program, entry_points } => {
            match materialize_legacy(program, entry_points) {
                Some(class) => Materialization::Ready(class),
                None => Materialization::Malformed,
            }
        },
        RawClass::Modern { sierra_program, entry_points } => {
            Materialization::Compile(compile_request(sierra_program, entry_points))
        },
    }
}

/// The class or the error that the compiler's outcome stands for.
pub open spec fn compiled_class(outcome: Result<String, String>) -> Result<
    ExecutableClassView,
    StateErrorView,
> {
    match outcome {
        Ok(casm) => Ok(ExecutableClassView::V1 { casm: casm@ }),
        Err(message) => Err(StateErrorView::ProtocolError(message@)),
    }
}

/// Finishes a modern class with what the compiler returned: its bytecode
/// makes a V1 class, its failure a `ProtocolError` with the compiler's message.
pub fn finish_compiled(outcome: Result<String, String>) -> (class: Result<ExecutableClass, StateError>)
    ensures
        class is Ok <==> outcome is Ok,
        class is Ok ==> Ok::<ExecutableClassView, StateErrorView>(class->Ok_0@) == compiled_class(
            outcome,
        ),
        class is Err ==> Err::<ExecutableClassView, StateErrorView>(class->Err_0@)
            == compiled_class(outcome),
{
    match outcome {
        Ok(casm) => Ok(ExecutableClass::V1 { casm }),
        Err(message) => Err(StateError::ProtocolError(message)),
    }
}

/// Two payloads with the same content have the same materialization: the
/// step is a function of the bytes, the words and the entry points alone.
pub proof fn lemma_materialization_deterministic(a: RawClass, b: RawClass)
    requires
        match (a, b) {
            (
                RawClass::Legacy { program: p, entry_points: e },
                RawClass::Legacy { program: q, entry_points: f },
            ) => p@ == q@ && e@ == f@,
            (
                RawClass::Modern { sierra_program: p, entry_points: e },
                RawClass::Modern { sierra_program: q, entry_points: f },
            ) => p@ == q@ && e@ == f@,
            _ => false,
        },
    ensures
        materialization_of(a) == materialization_of(b),
{
}

} // verus!
