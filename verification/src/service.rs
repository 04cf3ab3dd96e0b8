//! The ledger side of resolution and registration: what is handed to the ledger
//! program and how its outcome is read.
//!
//! The ledger worker serves a job in two halves around the remote call. The first half
//! validates the job and encodes its texts as the program's inputs; the second half
//! reads what came back: the step that failed and why, or the program's result.

use crate::codec::{
    decode_fields, encode_text, str_to_word, word_to_str, Word, MAX_TEXT_BYTES,
};
use crate::error::{AppError, ErrorView};
use crate::felt::MODULUS;
use crate::handler::{
    lookup_result_view, register_result_view, LookupResponse, LookupView, RegisterResponse,
    RegisterView,
};
use crate::text::{blank, trim};
use vstd::prelude::*;
use vstd::string::{StringExecFns, StringSliceAdditionalSpecFns};
use vstd::utf8::*;

verus! {

/// The steps of a ledger interaction that can fail.
#[derive(Clone, Copy, Debug, PartialEq, Eq)]
pub enum LedgerStep {
    /// Bringing the local view of the chain up to date.
    Sync,
    /// Compiling the source of the name service contract.
    Library,
    /// Attaching the contract library to the assembler.
    Linking,
    /// Compiling the script of the job.
    Script,
    /// Building the transaction request.
    Request,
    /// Executing the registration transaction.
    Transaction,
    /// Submitting the executed transaction.
    Submission,
    /// Executing the read-only lookup program.
    Program,
    /// Resolving the contract's library path or assembling its parsed module.
    Assembly,
}

/// A failed ledger step with the cause that the ledger client gave.
#[derive(Clone, Debug, PartialEq, Eq)]
pub struct LedgerFailure {
    pub step: LedgerStep,
    pub cause: String,
}

/// The mathematical content of a [`LedgerFailure`].
pub struct FailureView {
    pub step: LedgerStep,
    pub cause: Seq<char>,
}

impl View for LedgerFailure {
    type V = FailureView;

    open spec fn view(&self) -> FailureView {
        FailureView { step: self.step, cause: self.cause@ }
    }
}

/// The content of the ledger's outcome for a lookup: the failure, or the result stack.
pub open spec fn stack_outcome_view(r: Result<Vec<u64>, LedgerFailure>) -> Result<
    Seq<u64>,
    FailureView,
> {
    match r {
        Ok(stack) => Ok(stack@),
        Err(f) => Err(f@),
    }
}

/// The content of the ledger's outcome for a registration: the failure, or the
/// transaction identifier.
pub open spec fn submission_outcome_view(r: Result<String, LedgerFailure>) -> Result<
    Seq<char>,
    FailureView,
> {
    match r {
        Ok(id) => Ok(id@),
        Err(f) => Err(f@),
    }
}

/// The content of prepared program inputs.
pub open spec fn inputs_view(r: Result<Vec<u64>, AppError>) -> Result<Seq<u64>, ErrorView> {
    match r {
        Ok(inputs) => Ok(inputs@),
        Err(e) => Err(e@),
    }
}

/// The words with which the report of a failed step begins.
pub open spec fn step_label(step: LedgerStep) -> Seq<char> {
    match step {
        LedgerStep::Sync => "Failed to sync blockchain state: "@,
        LedgerStep::Library => "Contract compilation error: "@,
        LedgerStep::Linking => "Script compilation error: "@,
        LedgerStep::Script => "Transaction script error: "@,
        LedgerStep::Request => "Transaction request error: "@,
        LedgerStep::Transaction => "Transaction execution failed: "@,
        LedgerStep::Submission => "Transaction submission failed: "@,
        LedgerStep::Program => "Program execution failed: "@,
        LedgerStep::Assembly => "Failed to create library: "@,
    }
}

/// A failed ledger step is an internal error that names the step and carries the cause.
pub open spec fn ledger_error(failure: FailureView) -> ErrorView {
    ErrorView::Internal(step_label(failure.step) + failure.cause)
}

/// The message for a text that has no word.
pub open spec fn too_large(text: Seq<char>) -> Seq<char> {
    "string `"@ + text + "` is too large"@
}

/// Whether `text` has a word: its UTF-8 form has at most 24 bytes.
pub open spec fn fits_word(text: Seq<char>) -> bool {
    encode_utf8(text).len() <= MAX_TEXT_BYTES
}

/// The inputs of the lookup program for `name`: the fields of its word. An empty name,
/// and a name that has no word, are bad requests.
pub open spec fn lookup_inputs(name: Seq<char>) -> Result<Seq<u64>, ErrorView> {
    if name.len() == 0 {
        Err(ErrorView::BadRequest("Name cannot be empty"@))
    } else if !fits_word(name) {
        Err(ErrorView::BadRequest(too_large(name)))
    } else {
        Ok(encode_text(name))
    }
}

/// The inputs of the registration program: the fields of the address word, then those
/// of the name word. Name and address must each be present and have a word; the name is
/// checked first in both respects.
pub open spec fn register_inputs(name: Seq<char>, address: Seq<char>) -> Result<
    Seq<u64>,
    ErrorView,
> {
    if name.len() == 0 {
        Err(ErrorView::BadRequest("Name cannot be empty"@))
    } else if address.len() == 0 {
        Err(ErrorView::BadRequest("Address cannot be empty"@))
    } else if !fits_word(name) {
        Err(ErrorView::BadRequest(too_large(name)))
    } else if !fits_word(address) {
        Err(ErrorView::BadRequest(too_large(address)))
    } else {
        Ok(encode_text(address) + encode_text(name))
    }
}

/// The fields of the word on top of a result stack: its first four elements in
/// reverse order, each as a field element.
pub open spec fn stack_word(stack: Seq<u64>) -> Seq<u64> {
    seq![
        (stack[3] % MODULUS) as u64,
        (stack[2] % MODULUS) as u64,
        (stack[1] % MODULUS) as u64,
        (stack[0] % MODULUS) as u64,
    ]
}

/// The text that stands for "no address": sixteen zeros.
pub open spec fn zero_address() -> Seq<char> {
    "0000000000000000"@
}

/// Whether a decoded address, with `stripped` being the address without its leading
/// and trailing white space, says that the name is not registered: it is empty, blank
/// or the zero address.
pub open spec fn says_unregistered(address: Seq<char>, stripped: Seq<char>) -> bool {
    address.len() == 0 || stripped.len() == 0 || address == zero_address()
}

/// The reply for a decoded address, with `stripped` as in [`says_unregistered`]:
/// not found, or the address under the ledger's version.
pub open spec fn address_reply(name: Seq<char>, address: Seq<char>, stripped: Seq<char>) -> Result<
    LookupView,
    ErrorView,
> {
    if says_unregistered(address, stripped) {
        Err(ErrorView::NotFound("Name '"@ + name + "' not registered"@))
    } else {
        Ok(LookupView { address, version: "2.5"@ })
    }
}

/// Whether a decoded address says that the name is not registered: it is blank, which
/// the empty address is too, or the zero address.
pub open spec fn unregistered(address: Seq<char>) -> bool {
    blank(address) || address == zero_address()
}

/// The reply of a ledger lookup of `name`. A failed step is an internal error. A
/// stack of fewer than four elements means not found. Otherwise the word on top of the
/// stack is decoded: an address that says "not registered" means not found, any other
/// is returned under the ledger's version.
pub open spec fn lookup_outcome(name: Seq<char>, outcome: Result<Seq<u64>, FailureView>) -> Result<
    LookupView,
    ErrorView,
> {
    match outcome {
        Err(failure) => Err(ledger_error(failure)),
        Ok(stack) => if stack.len() < 4 {
            Err(ErrorView::NotFound("Name '"@ + name + "' not found or returned invalid data"@))
        } else {
            let address = decode_fields(stack_word(stack));
            if unregistered(address) {
                Err(ErrorView::NotFound("Name '"@ + name + "' not registered"@))
            } else {
                Ok(LookupView { address, version: "2.5"@ })
            }
        },
    }
}

/// The reply of a ledger registration. A failed step is an internal error. Otherwise
/// the inputs come back under the ledger's version with the transaction identifier.
pub open spec fn register_outcome(
    name: Seq<char>,
    address: Seq<char>,
    outcome: Result<Seq<char>, FailureView>,
) -> Result<RegisterView, ErrorView> {
    match outcome {
        Err(failure) => Err(ledger_error(failure)),
        Ok(id) => Ok(RegisterView { name, address, version: "2.5"@, transaction_id: Some(id) }),
    }
}

/// A ledger lookup that succeeds returns the decoded word on top of the stack under
/// the ledger's version, whatever the name and the stack.
pub proof fn lemma_ledger_lookup_version(name: Seq<char>, outcome: Result<Seq<u64>, FailureView>)
    requires
        lookup_outcome(name, outcome) is Ok,
    ensures
        outcome is Ok,
        outcome->Ok_0.len() >= 4,
        lookup_outcome(name, outcome)->Ok_0.version == "2.5"@,
        lookup_outcome(name, outcome)->Ok_0.address == decode_fields(stack_word(outcome->Ok_0)),
        lookup_outcome(name, outcome)->Ok_0.address.len() > 0,
{
}

/// The internal error that reports a failed ledger step.
pub fn ledger_failure(failure: LedgerFailure) -> (e: AppError)
    ensures
        e@ == ledger_error(failure@),
{
    let label = match failure.step {
        LedgerStep::Sync => "Failed to sync blockchain state: ",
        LedgerStep::Library => "Contract compilation error: ",
        LedgerStep::Linking => "Script compilation error: ",
        LedgerStep::Script => "Transaction script error: ",
        LedgerStep::Request => "Transaction request error: ",
        LedgerStep::Transaction => "Transaction execution failed: ",
        LedgerStep::Submission => "Transaction submission failed: ",
        LedgerStep::Program => "Program execution failed: ",
        LedgerStep::Assembly => "Failed to create library: ",
    };
    AppError::Internal(String::from_str(label).concat(failure.cause.as_str()))
}

/// The bad request that reports a text without a word.
fn no_word(text: &str) -> (e: AppError)
    ensures
        e@ == ErrorView::BadRequest(too_large(text@)),
{
    AppError::BadRequest(String::from_str("string `").concat(text).concat("` is too large"))
}

/// Appends the four fields of `word` to `out`.
fn push_fields(out: &mut Vec<u64>, word: &Word)
    ensures
        final(out)@ == old(out)@ + word@,
{
    let fields = word.fields();
    out.push(fields[0]);
    out.push(fields[1]);
    out.push(fields[2]);
    out.push(fields[3]);
    assert(out@ =~= old(out)@ + word@);
}

/// First half of a ledger lookup: validates `name` and encodes it as the inputs of
/// the lookup program.
pub fn lookup(name: &str) -> (r: Result<Vec<u64>, AppError>)
    ensures
        inputs_view(r) == lookup_inputs(name@),
{
    if name.is_empty() {
        return Err(AppError::BadRequest(String::from_str("Name cannot be empty")));
    }
    match str_to_word(name) {
        Ok(word) => {
            let mut inputs: Vec<u64> = Vec::new();
            push_fields(&mut inputs, &word);
            assert(inputs@ =~= encode_text(name@));
            Ok(inputs)
        },
        Err(_) => Err(no_word(name)),
    }
}

/// Judges a decoded address. `stripped` is the address without its leading and
/// trailing white space.
pub fn judge_address(name: &str, address: String, stripped: &str) -> (r: Result<
    LookupResponse,
    AppError,
>)
    ensures
        lookup_result_view(r) == address_reply(name@, address@, stripped@),
{
    if address.as_str().is_empty() || stripped.is_empty() || address == String::from_str(
        "0000000000000000",
    ) {
        return Err(
            AppError::NotFound(String::from_str("Name '").concat(name).concat("' not registered")),
        );
    }
    Ok(LookupResponse { address, version: String::from_str("2.5") })
}

/// Second half of a ledger lookup: reads the outcome of the lookup program for `name`.
pub fn lookup_reply(name: &str, outcome: Result<Vec<u64>, LedgerFailure>) -> (r: Result<
    LookupResponse,
    AppError,
>)
    ensures
        lookup_result_view(r) == lookup_outcome(name@, stack_outcome_view(outcome)),
{
    match outcome {
        Err(failure) => Err(ledger_failure(failure)),
        Ok(stack) => {
            if stack.len() < 4 {
                return Err(
                    AppError::NotFound(
                        String::from_str("Name '").concat(name).concat(
                            "' not found or returned invalid data",
                        ),
                    ),
                );
            }
            let word = Word::new([stack[3], stack[2], stack[1], stack[0]]);
            assert(word@ =~= stack_word(stack@));
            let address = word_to_str(word);
            let stripped = trim(address.as_str());
            judge_address(name, address.clone(), stripped)
        },
    }
}

/// First half of a ledger registration: validates `name` and `address` and encodes
/// them as the inputs of the registration program.
pub fn register(name: &str, address: &str) -> (r: Result<Vec<u64>, AppError>)
    ensures
        inputs_view(r) == register_inputs(name@, address@),
{
    if name.is_empty() {
        return Err(AppError::BadRequest(String::from_str("Name cannot be empty")));
    }
    if address.is_empty() {
        return Err(AppError::BadRequest(String::from_str("Address cannot be empty")));
    }
    let name_word = match str_to_word(name) {
        Ok(word) => word,
        Err(_) => {
            return Err(no_word(name));
        },
    };
    let address_word = match str_to_word(address) {
        Ok(word) => word,
        Err(_) => {
            return Err(no_word(address));
        },
    };
    let mut inputs: Vec<u64> = Vec::new();
    push_fields(&mut inputs, &address_word);
    push_fields(&mut inputs, &name_word);
    assert(inputs@ =~= encode_text(address@) + encode_text(name@));
    Ok(inputs)
}

/// Second half of a ledger registration: reads the outcome of the registration of
/// `name` with `address`.
pub fn register_reply(name: String, address: String, outcome: Result<String, LedgerFailure>) -> (r:
    Result<RegisterResponse, AppError>)
    ensures
        register_result_view(r) == register_outcome(
            name@,
            address@,
            submission_outcome_view(outcome),
        ),
{
    match outcome {
        Err(failure) => Err(ledger_failure(failure)),
        Ok(id) => Ok(
            RegisterResponse {
                name,
                address,
                version: String::from_str("2.5"),
                transaction_id: Some(id),
            },
        ),
    }
}

} // verus!
