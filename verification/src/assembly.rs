//! The programs that are handed to the ledger: the contract library, the scripts that
//! call it, and the request that carries a script.
//!
//! Compiling is the assembler's work, and what it makes of its arguments is known here
//! by name only. What is decided here is the order of the steps, what each step is
//! given, which sources are handed on at all, and how a failed step reads.

use crate::error::{AppError, ErrorView};
use crate::service::{ledger_error, ledger_failure, FailureView, LedgerFailure, LedgerStep};
use miden_assembly::ast::{Module, ModuleKind};
use miden_assembly::{Assembler, DefaultSourceManager, Library, LibraryPath};
use miden_client::transaction::{TransactionRequest, TransactionRequestBuilder, TransactionScript};
use miden_client::Felt;
use std::sync::Arc;
use vstd::prelude::*;
use vstd::string::{StringExecFns, StringSliceAdditionalSpecFns};
use vstd::utf8::*;

verus! {

/// The assembler of the ledger's programs. Nothing is known of its inside.
#[verifier::external_type_specification]
#[verifier::external_body]
pub struct ExAssembler(Assembler);

/// A compiled library. Nothing is known of its inside.
#[verifier::external_type_specification]
#[verifier::external_body]
pub struct ExLibrary(Library);

/// The path under which a library module is known. Nothing is known of its inside.
#[verifier::external_type_specification]
#[verifier::external_body]
pub struct ExLibraryPath(LibraryPath);

/// A parsed module. Nothing is known of its inside.
#[verifier::external_type_specification]
#[verifier::external_body]
pub struct ExModule(Module);

/// A compiled script with its inputs. Nothing is known of its inside.
#[verifier::external_type_specification]
#[verifier::external_body]
pub struct ExTransactionScript(TransactionScript);

/// A request to run a transaction. Nothing is known of its inside.
#[verifier::external_type_specification]
#[verifier::external_body]
pub struct ExTransactionRequest(TransactionRequest);

/// The number of bytes that a source handed to the assembler must stay below.
pub const SOURCE_LIMIT: usize = 0xffff_ffff;

/// What reading `path` as a library path gives: the path, or the text of the error.
pub uninterp spec fn read_path(path: Seq<char>) -> Result<LibraryPath, Seq<char>>;

/// What parsing `source` as the library module at `path` gives: the module, or the
/// text of the error.
pub uninterp spec fn parsed(path: LibraryPath, source: Seq<char>) -> Result<Module, Seq<char>>;

/// What assembling `module` into a library gives: the library, or the text of the
/// error.
pub uninterp spec fn assembled(assembler: Assembler, module: Module) -> Result<
    Library,
    Seq<char>,
>;

/// What attaching `library` to `assembler` gives: the assembler that knows the library,
/// or the text of the error.
pub uninterp spec fn linked(assembler: Assembler, library: Library) -> Result<
    Assembler,
    Seq<char>,
>;

/// What compiling the script `source` with `inputs`, each a key word with its values,
/// gives: the script, or the text of the error.
pub uninterp spec fn compiled(
    source: Seq<char>,
    inputs: Seq<(Seq<u64>, Seq<u64>)>,
    assembler: Assembler,
) -> Result<TransactionScript, Seq<char>>;

/// The request that runs `script` and nothing else.
pub uninterp spec fn request_of(script: TransactionScript) -> TransactionRequest;

/// The content of what a step of the assembler gave.
pub open spec fn outcome_view<T>(r: Result<T, String>) -> Result<T, Seq<char>> {
    match r {
        Ok(value) => Ok(value),
        Err(cause) => Err(cause@),
    }
}

/// The content of script inputs.
pub open spec fn script_inputs_view(entries: Vec<([u64; 4], Vec<u64>)>) -> Seq<
    (Seq<u64>, Seq<u64>),
> {
    Seq::new(entries@.len(), |i: int| (entries@[i].0@, entries@[i].1@))
}

/// Whether the assembler takes a source of this text: its UTF-8 form must stay below
/// the limit.
pub open spec fn within_limit(source: Seq<char>) -> bool {
    encode_utf8(source).len() < SOURCE_LIMIT
}

/// A second assembler like `assembler`.
///
/// Trusted: the derived `Assembler::clone` gives an assembler equal to the one it was
/// given.
#[verifier::external_body]
fn clone_assembler(assembler: &Assembler) -> (r: Assembler)
    ensures
        r == *assembler,
{
    assembler.clone()
}

/// Reads a library path.
///
/// Trusted: what `LibraryPath::new` gives depends on the path alone; the contract
/// gives it the name [`read_path`]. Of the name it claims one thing, which the
/// function's first lines show: the empty path is refused, with the text of its error
/// for an empty path.
#[verifier::external_body]
fn library_path(path: &str) -> (r: Result<LibraryPath, String>)
    ensures
        outcome_view(r) == read_path(path@),
        path@.len() == 0 ==> r is Err && r->Err_0@ == "invalid library path: cannot be empty"@,
{
    match LibraryPath::new(path) {
        Ok(path) => Ok(path),
        Err(e) => Err(e.to_string()),
    }
}

/// Parses the source of a library module.
///
/// Trusted: what `ModuleParser::parse_str` of a library module parser with a source
/// manager of its own gives depends on the path and the source alone; the contract
/// gives it the name [`parsed`]. The parser does not take a source at or above the
/// limit, which the contract leaves out.
#[verifier::external_body]
fn parse_library(path: LibraryPath, source: &str) -> (r: Result<Box<Module>, String>)
    requires
        within_limit(source@),
    ensures
        match r {
            Ok(module) => parsed(path, source@) == Ok::<Module, Seq<char>>(*module),
            Err(cause) => parsed(path, source@) == Err::<Module, Seq<char>>(cause@),
        },
{
    let source_manager = Arc::new(DefaultSourceManager::default());
    match Module::parser(ModuleKind::Library).parse_str(path, source, &source_manager) {
        Ok(module) => Ok(module),
        Err(e) => Err(e.to_string()),
    }
}

/// Assembles a parsed module into a library.
///
/// Trusted: what `Assembler::assemble_library` gives depends on the assembler and the
/// module alone; the contract gives it the name [`assembled`].
#[verifier::external_body]
fn assemble_library(assembler: Assembler, module: Box<Module>) -> (r: Result<Library, String>)
    ensures
        outcome_view(r) == assembled(assembler, *module),
{
    match assembler.assemble_library([module]) {
        Ok(library) => Ok(library),
        Err(e) => Err(e.to_string()),
    }
}

/// Attaches a library to an assembler.
///
/// Trusted: what `Assembler::with_library` gives depends on the assembler and the
/// library alone; the contract gives it the name [`linked`].
#[verifier::external_body]
fn with_library(assembler: Assembler, library: &Library) -> (r: Result<Assembler, String>)
    ensures
        outcome_view(r) == linked(assembler, *library),
{
    match assembler.with_library(library) {
        Ok(assembler) => Ok(assembler),
        Err(e) => Err(e.to_string()),
    }
}

/// Compiles a script and gives it its inputs, each a key word with its values.
///
/// Trusted: what `TransactionScript::compile` gives, with keys and values made field
/// elements, depends on the source, the inputs and the assembler alone; the contract
/// gives it the name [`compiled`]. The assembler does not take a source at or above
/// the limit, which the contract leaves out.
#[verifier::external_body]
fn compile_script(source: &str, inputs: Vec<([u64; 4], Vec<u64>)>, assembler: Assembler) -> (r:
    Result<TransactionScript, String>)
    requires
        within_limit(source@),
    ensures
        outcome_view(r) == compiled(source@, script_inputs_view(inputs), assembler),
{
    let entries: Vec<([Felt; 4], Vec<Felt>)> = inputs
        .into_iter()
        .map(|(key, values)| (key.map(Felt::new), values.into_iter().map(Felt::new).collect()))
        .collect();
    match TransactionScript::compile(source, entries, assembler) {
        Ok(script) => Ok(script),
        Err(e) => Err(e.to_string()),
    }
}

/// Builds the request that runs `script` and nothing else.
///
/// Trusted: `TransactionRequestBuilder::build` on a new builder that was given the
/// script, and nothing but the script, succeeds, and what it builds depends on the
/// script alone; the contract gives it the name [`request_of`].
#[verifier::external_body]
fn build_request(script: TransactionScript) -> (r: Result<TransactionRequest, String>)
    ensures
        r is Ok,
        r->Ok_0 == request_of(script),
{
    match TransactionRequestBuilder::new().with_custom_script(script).build() {
        Ok(request) => Ok(request),
        Err(e) => Err(e.to_string()),
    }
}

/// The content of a result with an error of the gateway.
pub open spec fn result_view<T>(r: Result<T, AppError>) -> Result<T, ErrorView> {
    match r {
        Ok(value) => Ok(value),
        Err(e) => Err(e@),
    }
}

/// The content of optional values.
pub open spec fn values_view(values: Option<Vec<u64>>) -> Option<Seq<u64>> {
    match values {
        Some(values) => Some(values@),
        None => None,
    }
}

/// Whether `e` is the internal error that reports a failure of `step`, whatever the
/// cause.
pub open spec fn reports_step(e: ErrorView, step: LedgerStep) -> bool {
    exists|cause: Seq<char>| e == #[trigger] ledger_error(FailureView { step, cause })
}

/// The inputs that a script is given: none, or `values` under the all-zero key.
pub open spec fn script_inputs(values: Option<Seq<u64>>) -> Seq<(Seq<u64>, Seq<u64>)> {
    match values {
        Some(values) => seq![(seq![0u64, 0u64, 0u64, 0u64], values)],
        None => seq![],
    }
}

/// The path under which the name service contract is compiled.
pub open spec fn contract_path() -> Seq<char> {
    "mns::mns_contract"@
}

/// The cause with which a source at or above the limit is refused.
pub open spec fn over_limit() -> Seq<char> {
    "unsupported source file: current maximum supported length in bytes is 2^32"@
}

/// What a step gave, as a result of the gateway: a failure of the step is the internal
/// error that names `step` and carries the cause.
pub open spec fn step_result<T>(step: LedgerStep, outcome: Result<T, Seq<char>>) -> Result<
    T,
    ErrorView,
> {
    match outcome {
        Ok(value) => Ok(value),
        Err(cause) => Err(ledger_error(FailureView { step, cause })),
    }
}

/// What a library path that cannot be read is reported as: a failed assembly with the
/// text of the path's error as the cause.
pub open spec fn unreadable_path(cause: Seq<char>) -> ErrorView {
    ledger_error(FailureView { step: LedgerStep::Assembly, cause })
}

/// What parsing `source` at `path` and assembling the module gives. A source at or
/// above the limit is a failed compilation of the contract and is not handed to the
/// parser; a failure to parse is a failed compilation of the contract; a failure to
/// assemble is a failed assembly.
pub open spec fn library_at(assembler: Assembler, path: LibraryPath, source: Seq<char>) -> Result<
    Library,
    ErrorView,
> {
    if !within_limit(source) {
        Err(ledger_error(FailureView { step: LedgerStep::Library, cause: over_limit() }))
    } else {
        match parsed(path, source) {
            Err(cause) => Err(ledger_error(FailureView { step: LedgerStep::Library, cause })),
            Ok(module) => step_result(LedgerStep::Assembly, assembled(assembler, module)),
        }
    }
}

/// What compiling the source of a contract into a library under `path` gives. A path
/// that cannot be read is a failed assembly, whatever the source; for a path that
/// reads, see [`library_at`].
pub open spec fn library_result(assembler: Assembler, path: Seq<char>, source: Seq<char>) -> Result<
    Library,
    ErrorView,
> {
    match read_path(path) {
        Err(cause) => Err(unreadable_path(cause)),
        Ok(read) => library_at(assembler, read, source),
    }
}

/// What compiling `script` on an assembler gives. A source at or above the limit is a
/// failed script and is not handed to the assembler.
pub open spec fn script_on(assembler: Assembler, script: Seq<char>, values: Option<Seq<u64>>) -> Result<
    TransactionScript,
    ErrorView,
> {
    if !within_limit(script) {
        Err(ledger_error(FailureView { step: LedgerStep::Script, cause: over_limit() }))
    } else {
        step_result(LedgerStep::Script, compiled(script, script_inputs(values), assembler))
    }
}

/// What compiling a script that calls the name service contract gives. The steps come
/// in this order, and the first that fails ends the compilation: the contract is
/// compiled into a library under the contract's path, where a failure is reported as a
/// failed compilation of the contract whose cause is the description of the library's
/// error; the library is attached to the assembler; the script is compiled with its
/// inputs under the all-zero key.
pub open spec fn script_result(
    assembler: Assembler,
    contract: Seq<char>,
    script: Seq<char>,
    values: Option<Seq<u64>>,
) -> Result<TransactionScript, ErrorView> {
    match library_result(assembler, contract_path(), contract) {
        Err(e) => Err(
            ledger_error(FailureView { step: LedgerStep::Library, cause: e.description() }),
        ),
        Ok(library) => match linked(assembler, library) {
            Err(cause) => Err(ledger_error(FailureView { step: LedgerStep::Linking, cause })),
            Ok(ready) => script_on(ready, script, values),
        },
    }
}

/// What compiling a script and building its request gives: the failure of the
/// compilation, or the request that runs the compiled script.
pub open spec fn request_result(
    assembler: Assembler,
    contract: Seq<char>,
    script: Seq<char>,
    values: Option<Seq<u64>>,
) -> Result<TransactionRequest, ErrorView> {
    match script_result(assembler, contract, script, values) {
        Err(e) => Err(e),
        Ok(compiled) => Ok(request_of(compiled)),
    }
}

/// The error for a failed step with its cause.
fn failed(step: LedgerStep, cause: String) -> (e: AppError)
    ensures
        e@ == ledger_error(FailureView { step, cause: cause@ }),
{
    ledger_failure(LedgerFailure { step, cause })
}

/// The error for a source at or above the limit, as a failure of `step`.
fn refused(step: LedgerStep) -> (e: AppError)
    ensures
        e@ == ledger_error(FailureView { step, cause: over_limit() }),
{
    failed(
        step,
        String::from_str(
            "unsupported source file: current maximum supported length in bytes is 2^32",
        ),
    )
}

/// Lays out the inputs of a script: the values, where there are any, under the
/// all-zero key.
pub fn advice_entries(values: Option<Vec<u64>>) -> (entries: Vec<([u64; 4], Vec<u64>)>)
    ensures
        script_inputs_view(entries) == script_inputs(values_view(values)),
{
    let mut entries: Vec<([u64; 4], Vec<u64>)> = Vec::new();
    match values {
        Some(values) => {
            let key: [u64; 4] = [0, 0, 0, 0];
            assert(key@ =~= seq![0u64, 0u64, 0u64, 0u64]);
            entries.push((key, values));
            assert(script_inputs_view(entries) =~= script_inputs(Some(values@)));
        },
        None => {
            assert(script_inputs_view(entries) =~= script_inputs(None));
        },
    }
    entries
}

/// Compiles the source of a contract into a library under `library_path`: reads the
/// path, parses the source as a library module, and assembles the module.
///
/// The result is what [`library_result`] says: the library where every step succeeds,
/// and else the failure of the first step that fails, with that step's cause. A path
/// that cannot be read ends the compilation before the source is looked at; for the
/// empty path the cause is that it cannot be empty. A source at or above the limit is
/// refused here and never reaches the parser.
pub fn create_library(assembler: Assembler, library_path: &str, source_code: &str) -> (r: Result<
    Library,
    AppError,
>)
    ensures
        result_view(r) == library_result(assembler, library_path@, source_code@),
        library_path@.len() == 0 ==> result_view(r) == Err::<Library, ErrorView>(
            unreadable_path("invalid library path: cannot be empty"@),
        ),
        r matches Err(e) ==> reports_step(e@, LedgerStep::Assembly) || reports_step(
            e@,
            LedgerStep::Library,
        ),
{
    let path = match self::library_path(library_path) {
        Ok(path) => path,
        Err(cause) => {
            return Err(failed(LedgerStep::Assembly, cause));
        },
    };
    if source_code.as_bytes().len() >= SOURCE_LIMIT {
        return Err(refused(LedgerStep::Library));
    }
    let module = match parse_library(path, source_code) {
        Ok(module) => module,
        Err(cause) => {
            return Err(failed(LedgerStep::Library, cause));
        },
    };
    match assemble_library(assembler, module) {
        Ok(library) => Ok(library),
        Err(cause) => Err(failed(LedgerStep::Assembly, cause)),
    }
}

/// Compiles a script that calls the name service contract: compiles the contract into
/// a library under the contract's path, attaches the library to the assembler, and
/// compiles the script with its inputs laid out as [`advice_entries`] says.
///
/// The result is what [`script_result`] says: the compiled script where every step
/// succeeds, and else the failure of the first step that fails, with that step's
/// cause. A script at or above the limit is refused here and never reaches the
/// assembler.
pub fn compile(assembler: Assembler, contract: &str, script: &str, values: Option<Vec<u64>>) -> (r:
    Result<TransactionScript, AppError>)
    ensures
        result_view(r) == script_result(assembler, contract@, script@, values_view(values)),
        r matches Err(e) ==> reports_step(e@, LedgerStep::Library) || reports_step(
            e@,
            LedgerStep::Linking,
        ) || reports_step(e@, LedgerStep::Script),
{
    let library = match create_library(clone_assembler(&assembler), "mns::mns_contract", contract) {
        Ok(library) => library,
        Err(e) => {
            return Err(failed(LedgerStep::Library, e.to_string()));
        },
    };
    let linked = match with_library(assembler, &library) {
        Ok(linked) => linked,
        Err(cause) => {
            return Err(failed(LedgerStep::Linking, cause));
        },
    };
    if script.as_bytes().len() >= SOURCE_LIMIT {
        return Err(refused(LedgerStep::Script));
    }
    match compile_script(script, advice_entries(values), linked) {
        Ok(compiled) => Ok(compiled),
        Err(cause) => Err(failed(LedgerStep::Script, cause)),
    }
}

/// Compiles a script as [`compile`] does and builds the request that runs it.
///
/// The result is what [`request_result`] says: the request that runs the compiled
/// script, or the failure of the compilation. Building the request does not fail.
pub fn request(assembler: Assembler, contract: &str, script: &str, values: Option<Vec<u64>>) -> (r:
    Result<TransactionRequest, AppError>)
    ensures
        result_view(r) == request_result(assembler, contract@, script@, values_view(values)),
        r matches Err(e) ==> reports_step(e@, LedgerStep::Library) || reports_step(
            e@,
            LedgerStep::Linking,
        ) || reports_step(e@, LedgerStep::Script),
{
    let compiled = match compile(assembler, contract, script, values) {
        Ok(compiled) => compiled,
        Err(e) => {
            return Err(e);
        },
    };
    match build_request(compiled) {
        Ok(built) => Ok(built),
        Err(cause) => Err(failed(LedgerStep::Request, cause)),
    }
}

} // verus!
