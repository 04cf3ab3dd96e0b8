//! The request router: what an inbound lookup or registration does next.
//!
//! A request is served in stages. Each stage is a function from what is known so far
//! and the answer that just arrived to the next step: a question to the cache store, a
//! job for the ledger worker, a write to the cache store, or the reply to the caller.
//! The surrounding service performs the step and comes back with the answer.

use crate::error::{AppError, ErrorView};
use vstd::prelude::*;
use vstd::string::StringExecFns;

verus! {

/// A cached binding of a name to an address, with the scheme it was registered under.
#[derive(Clone, Debug, PartialEq, Eq)]
pub struct User {
    pub name: String,
    pub address: String,
    pub version: String,
}

/// The mathematical content of a [`User`].
pub struct UserView {
    pub name: Seq<char>,
    pub address: Seq<char>,
    pub version: Seq<char>,
}

impl View for User {
    type V = UserView;

    open spec fn view(&self) -> UserView {
        UserView { name: self.name@, address: self.address@, version: self.version@ }
    }
}

/// What a successful lookup returns.
#[derive(Clone, Debug, PartialEq, Eq)]
pub struct LookupResponse {
    pub address: String,
    pub version: String,
}

/// The mathematical content of a [`LookupResponse`].
pub struct LookupView {
    pub address: Seq<char>,
    pub version: Seq<char>,
}

impl View for LookupResponse {
    type V = LookupView;

    open spec fn view(&self) -> LookupView {
        LookupView { address: self.address@, version: self.version@ }
    }
}

/// What a successful registration returns. The transaction identifier is present
/// exactly when the ledger recorded the binding.
#[derive(Clone, Debug, PartialEq, Eq)]
pub struct RegisterResponse {
    pub name: String,
    pub address: String,
    pub version: String,
    pub transaction_id: Option<String>,
}

/// The mathematical content of a [`RegisterResponse`].
pub struct RegisterView {
    pub name: Seq<char>,
    pub address: Seq<char>,
    pub version: Seq<char>,
    pub transaction_id: Option<Seq<char>>,
}

impl View for RegisterResponse {
    type V = RegisterView;

    open spec fn view(&self) -> RegisterView {
        RegisterView {
            name: self.name@,
            address: self.address@,
            version: self.version@,
            transaction_id: match self.transaction_id {
                Some(id) => Some(id@),
                None => None,
            },
        }
    }
}

/// A unit of work for the ledger worker.
#[derive(Clone, Debug, PartialEq, Eq)]
pub enum ClientRequest {
    /// Resolve `name` on the ledger.
    Lookup { name: String },
    /// Bind `name` to `address` on the ledger.
    Register { name: String, address: String },
}

/// The mathematical content of a [`ClientRequest`].
pub enum RequestView {
    Lookup { name: Seq<char> },
    Register { name: Seq<char>, address: Seq<char> },
}

impl RequestView {
    /// The name that the job is about.
    pub open spec fn name(self) -> Seq<char> {
        match self {
            RequestView::Lookup { name } => name,
            RequestView::Register { name, .. } => name,
        }
    }
}

impl View for ClientRequest {
    type V = RequestView;

    open spec fn view(&self) -> RequestView {
        match self {
            ClientRequest::Lookup { name } => RequestView::Lookup { name: name@ },
            ClientRequest::Register { name, address } => RequestView::Register {
                name: name@,
                address: address@,
            },
        }
    }
}

/// How a job handed to the ledger worker ended, as seen by the router.
#[derive(Debug)]
pub enum Delivery<T> {
    /// The job could not be queued: the worker is gone.
    Unsent,
    /// The job was queued and the worker dropped it without a reply.
    Dropped,
    /// The worker's reply.
    Answered(Result<T, AppError>),
}

/// The mathematical content of a [`Delivery`].
pub enum DeliveryView<V> {
    Unsent,
    Dropped,
    Answered(Result<V, ErrorView>),
}

/// The next step of a lookup.
#[derive(Debug)]
pub enum LookupStep {
    /// Ask the cache store for the record of `name`.
    QueryCache { name: String },
    /// Hand `request` to the ledger worker and await its single reply.
    AskLedger { request: ClientRequest },
    /// The lookup is over: send `reply` to the caller.
    Respond { reply: Result<LookupResponse, AppError> },
}

/// The mathematical content of a [`LookupStep`].
pub enum LookupStepView {
    QueryCache { name: Seq<char> },
    AskLedger { request: RequestView },
    Respond { reply: Result<LookupView, ErrorView> },
}

/// The next step of a registration.
#[derive(Debug)]
pub enum RegisterStep {
    /// Ask the cache store whether it holds a record for the candidate's name.
    QueryCache { candidate: User },
    /// Hand the lookup `request` to the ledger worker, to learn whether the ledger
    /// already binds the candidate's name.
    CheckLedger { candidate: User, request: ClientRequest },
    /// Write `user` to the cache store.
    Store { user: User },
    /// Hand the registration `request` to the ledger worker.
    Submit { request: ClientRequest },
    /// The registration is over: send `reply` to the caller.
    Respond { reply: Result<RegisterResponse, AppError> },
}

/// The mathematical content of a [`RegisterStep`].
pub enum RegisterStepView {
    QueryCache { candidate: UserView },
    CheckLedger { candidate: UserView, request: RequestView },
    Store { user: UserView },
    Submit { request: RequestView },
    Respond { reply: Result<RegisterView, ErrorView> },
}

/// The content of a lookup's outcome.
pub open spec fn lookup_result_view(r: Result<LookupResponse, AppError>) -> Result<
    LookupView,
    ErrorView,
> {
    match r {
        Ok(response) => Ok(response@),
        Err(e) => Err(e@),
    }
}

/// The content of a registration's outcome.
pub open spec fn register_result_view(r: Result<RegisterResponse, AppError>) -> Result<
    RegisterView,
    ErrorView,
> {
    match r {
        Ok(response) => Ok(response@),
        Err(e) => Err(e@),
    }
}

/// The content of the cache store's answer to a point lookup.
pub open spec fn cache_answer_view(r: Result<Option<User>, AppError>) -> Result<
    Option<UserView>,
    ErrorView,
> {
    match r {
        Ok(Some(user)) => Ok(Some(user@)),
        Ok(None) => Ok(None),
        Err(e) => Err(e@),
    }
}

/// The content of the cache store's answer to a write.
pub open spec fn store_answer_view(r: Result<(), AppError>) -> Result<(), ErrorView> {
    match r {
        Ok(_) => Ok(()),
        Err(e) => Err(e@),
    }
}

/// The content of the worker's answer to a lookup job.
pub open spec fn lookup_delivery_view(d: Delivery<LookupResponse>) -> DeliveryView<LookupView> {
    match d {
        Delivery::Unsent => DeliveryView::Unsent,
        Delivery::Dropped => DeliveryView::Dropped,
        Delivery::Answered(r) => DeliveryView::Answered(lookup_result_view(r)),
    }
}

/// The content of the worker's answer to a registration job.
pub open spec fn register_delivery_view(d: Delivery<RegisterResponse>) -> DeliveryView<
    RegisterView,
> {
    match d {
        Delivery::Unsent => DeliveryView::Unsent,
        Delivery::Dropped => DeliveryView::Dropped,
        Delivery::Answered(r) => DeliveryView::Answered(register_result_view(r)),
    }
}

impl View for LookupStep {
    type V = LookupStepView;

    open spec fn view(&self) -> LookupStepView {
        match self {
            LookupStep::QueryCache { name } => LookupStepView::QueryCache { name: name@ },
            LookupStep::AskLedger { request } => LookupStepView::AskLedger { request: request@ },
            LookupStep::Respond { reply } => LookupStepView::Respond {
                reply: lookup_result_view(*reply),
            },
        }
    }
}

impl View for RegisterStep {
    type V = RegisterStepView;

    open spec fn view(&self) -> RegisterStepView {
        match self {
            RegisterStep::QueryCache { candidate } => RegisterStepView::QueryCache {
                candidate: candidate@,
            },
            RegisterStep::CheckLedger { candidate, request } => RegisterStepView::CheckLedger {
                candidate: candidate@,
                request: request@,
            },
            RegisterStep::Store { user } => RegisterStepView::Store { user: user@ },
            RegisterStep::Submit { request } => RegisterStepView::Submit { request: request@ },
            RegisterStep::Respond { reply } => RegisterStepView::Respond {
                reply: register_result_view(*reply),
            },
        }
    }
}

/// The scheme under which a registration is kept in the cache store alone.
pub open spec fn cache_version() -> Seq<char> {
    "2"@
}

/// The scheme under which a registration is recorded on the ledger alone.
pub open spec fn ledger_version() -> Seq<char> {
    "2.5"@
}

/// The conflict with which a registration of a bound name ends, whichever tier binds it.
pub open spec fn already_registered() -> ErrorView {
    ErrorView::Conflict("User has already been registered."@)
}

/// What the router reports when a job did not come back with the worker's reply.
pub open spec fn undelivered<V>(d: DeliveryView<V>) -> ErrorView {
    match d {
        DeliveryView::Unsent => ErrorView::Internal("Failed to process request"@),
        _ => ErrorView::Internal("Failed to receive response"@),
    }
}

/// The content of a request parameter that may be missing.
pub open spec fn parameter_view(field: Option<String>) -> Option<Seq<char>> {
    match field {
        Some(text) => Some(text@),
        None => None,
    }
}

/// The text of a request parameter: a missing parameter counts as an empty one.
pub open spec fn given(field: Option<Seq<char>>) -> Seq<char> {
    match field {
        Some(text) => text,
        None => Seq::empty(),
    }
}

/// First stage of a lookup: a missing or empty name is refused, any other name is
/// looked up in the cache store first.
pub open spec fn lookup_begin(name: Option<Seq<char>>) -> LookupStepView {
    let name = given(name);
    if name.len() == 0 {
        LookupStepView::Respond {
            reply: Err(ErrorView::BadRequest("Name parameter is required"@)),
        }
    } else {
        LookupStepView::QueryCache { name }
    }
}

/// Second stage of a lookup: a record in the cache store is the answer; without one,
/// and also when the store fails, the ledger is asked.
pub open spec fn lookup_on_cache(
    name: Seq<char>,
    cached: Result<Option<UserView>, ErrorView>,
) -> LookupStepView {
    match cached {
        Ok(Some(user)) => LookupStepView::Respond {
            reply: Ok(LookupView { address: user.address, version: user.version }),
        },
        _ => LookupStepView::AskLedger { request: RequestView::Lookup { name } },
    }
}

/// Last stage of a lookup: the worker's reply is passed on as it is; a job that did
/// not come back is an internal error.
pub open spec fn lookup_on_reply(reply: DeliveryView<LookupView>) -> Result<LookupView, ErrorView> {
    match reply {
        DeliveryView::Answered(r) => r,
        _ => Err(undelivered(reply)),
    }
}

/// First stage of a registration: name, address and version must each be present and
/// not empty, and are checked in this order; then the cache store is asked for the
/// name.
pub open spec fn register_begin(
    name: Option<Seq<char>>,
    address: Option<Seq<char>>,
    version: Option<Seq<char>>,
) -> RegisterStepView {
    let name = given(name);
    let address = given(address);
    let version = given(version);
    if name.len() == 0 {
        RegisterStepView::Respond {
            reply: Err(ErrorView::BadRequest("Name parameter is required"@)),
        }
    } else if address.len() == 0 {
        RegisterStepView::Respond {
            reply: Err(ErrorView::BadRequest("Address parameter is required"@)),
        }
    } else if version.len() == 0 {
        RegisterStepView::Respond {
            reply: Err(ErrorView::BadRequest("Version parameter is required"@)),
        }
    } else {
        RegisterStepView::QueryCache { candidate: UserView { name, address, version } }
    }
}

/// Second stage of a registration, the duplicate check in the cache tier: a record for
/// the name is a conflict; without one, and also when the store fails, the ledger is
/// asked for the name.
pub open spec fn register_on_cache(
    candidate: UserView,
    cached: Result<Option<UserView>, ErrorView>,
) -> RegisterStepView {
    match cached {
        Ok(Some(_)) => RegisterStepView::Respond { reply: Err(already_registered()) },
        _ => RegisterStepView::CheckLedger {
            candidate,
            request: RequestView::Lookup { name: candidate.name },
        },
    }
}

/// Third stage of a registration, the duplicate check in the ledger tier and the
/// dispatch: a ledger lookup that succeeds is a conflict; after any other outcome the
/// version decides where the binding goes.
pub open spec fn register_on_check(
    candidate: UserView,
    reply: DeliveryView<LookupView>,
) -> RegisterStepView {
    if reply matches DeliveryView::Answered(Ok(_)) {
        RegisterStepView::Respond { reply: Err(already_registered()) }
    } else if candidate.version == cache_version() {
        RegisterStepView::Store { user: candidate }
    } else if candidate.version == ledger_version() {
        RegisterStepView::Submit {
            request: RequestView::Register { name: candidate.name, address: candidate.address },
        }
    } else {
        RegisterStepView::Respond {
            reply: Err(
                ErrorView::BadRequest("The server can only process Web2 or Web2.5 requests"@),
            ),
        }
    }
}

/// Last stage of a registration kept in the cache store: the stored fields come back
/// without a transaction identifier; a failed write is reported as such.
pub open spec fn register_on_store(user: UserView, stored: Result<(), ErrorView>) -> Result<
    RegisterView,
    ErrorView,
> {
    match stored {
        Ok(_) => Ok(
            RegisterView {
                name: user.name,
                address: user.address,
                version: user.version,
                transaction_id: None,
            },
        ),
        Err(_) => Err(ErrorView::Database("Failed to save user to database"@)),
    }
}

/// Last stage of a registration recorded on the ledger: the worker's reply is passed
/// on as it is; a job that did not come back is an internal error.
pub open spec fn register_on_reply(reply: DeliveryView<RegisterView>) -> Result<
    RegisterView,
    ErrorView,
> {
    match reply {
        DeliveryView::Answered(r) => r,
        _ => Err(undelivered(reply)),
    }
}

/// Fallback: whenever the cache store does not answer a lookup with a record, be it
/// that it holds none or that it failed, the next step is one job for the ledger
/// worker, a lookup of the same name, and the worker's reply to it ends the lookup.
pub proof fn lemma_miss_falls_back(
    name: Seq<char>,
    cached: Result<Option<UserView>, ErrorView>,
    reply: Result<LookupView, ErrorView>,
)
    requires
        !(cached matches Ok(Some(_))),
    ensures
        lookup_on_cache(name, cached) == (LookupStepView::AskLedger {
            request: RequestView::Lookup { name },
        }),
        lookup_on_reply(DeliveryView::Answered(reply)) == reply,
{
}

/// Duplicate check: a registration that finds the name bound, in the cache store or
/// on the ledger, ends in the conflict "already registered" whatever its version, and
/// the cache tier's finding ends it before the ledger is asked.
pub proof fn lemma_bound_name_conflicts(candidate: UserView, record: UserView, found: LookupView)
    ensures
        register_on_cache(candidate, Ok(Some(record))) == (RegisterStepView::Respond {
            reply: Err(already_registered()),
        }),
        register_on_check(candidate, DeliveryView::Answered(Ok(found))) == (
        RegisterStepView::Respond { reply: Err(already_registered()) }),
{
}

/// The text of a request parameter, empty where the parameter is missing.
fn parameter(field: Option<String>) -> (text: String)
    ensures
        text@ == given(parameter_view(field)),
{
    match field {
        Some(text) => text,
        None => String::new(),
    }
}

/// Starts a lookup with the request's `name` parameter.
pub fn lookup_handler(name: Option<String>) -> (step: LookupStep)
    ensures
        step@ == lookup_begin(parameter_view(name)),
{
    let name = parameter(name);
    if name.as_str().is_empty() {
        return LookupStep::Respond {
            reply: Err(AppError::BadRequest(String::from_str("Name parameter is required"))),
        };
    }
    LookupStep::QueryCache { name }
}

/// Continues a lookup of `name` with the cache store's answer.
pub fn lookup_cached(name: String, cached: Result<Option<User>, AppError>) -> (step: LookupStep)
    ensures
        step@ == lookup_on_cache(name@, cache_answer_view(cached)),
{
    match cached {
        Ok(Some(user)) => LookupStep::Respond {
            reply: Ok(LookupResponse { address: user.address, version: user.version }),
        },
        _ => LookupStep::AskLedger { request: ClientRequest::Lookup { name } },
    }
}

/// Ends a lookup with what came back from the ledger worker.
pub fn lookup_answered(reply: Delivery<LookupResponse>) -> (r: Result<LookupResponse, AppError>)
    ensures
        lookup_result_view(r) == lookup_on_reply(lookup_delivery_view(reply)),
{
    match reply {
        Delivery::Unsent => Err(AppError::Internal(String::from_str("Failed to process request"))),
        Delivery::Dropped => Err(
            AppError::Internal(String::from_str("Failed to receive response")),
        ),
        Delivery::Answered(r) => r,
    }
}

/// Starts a registration with the request's `name`, `address` and `version` parameters.
pub fn register_handler(
    name: Option<String>,
    address: Option<String>,
    version: Option<String>,
) -> (step: RegisterStep)
    ensures
        step@ == register_begin(
            parameter_view(name),
            parameter_view(address),
            parameter_view(version),
        ),
{
    let name = parameter(name);
    let address = parameter(address);
    let version = parameter(version);
    if name.as_str().is_empty() {
        return RegisterStep::Respond {
            reply: Err(AppError::BadRequest(String::from_str("Name parameter is required"))),
        };
    }
    if address.as_str().is_empty() {
        return RegisterStep::Respond {
            reply: Err(AppError::BadRequest(String::from_str("Address parameter is required"))),
        };
    }
    if version.as_str().is_empty() {
        return RegisterStep::Respond {
            reply: Err(AppError::BadRequest(String::from_str("Version parameter is required"))),
        };
    }
    RegisterStep::QueryCache { candidate: User { name, address, version } }
}

/// Continues a registration with the cache store's answer to the lookup of the
/// candidate's name.
pub fn register_cached(candidate: User, cached: Result<Option<User>, AppError>) -> (step:
    RegisterStep)
    ensures
        step@ == register_on_cache(candidate@, cache_answer_view(cached)),
{
    match cached {
        Ok(Some(_)) => RegisterStep::Respond {
            reply: Err(AppError::Conflict(String::from_str("User has already been registered."))),
        },
        _ => {
            let name = candidate.name.clone();
            RegisterStep::CheckLedger { candidate, request: ClientRequest::Lookup { name } }
        },
    }
}

/// Continues a registration with what came back from the ledger worker's lookup of the
/// candidate's name.
pub fn register_checked(candidate: User, reply: Delivery<LookupResponse>) -> (step: RegisterStep)
    ensures
        step@ == register_on_check(candidate@, lookup_delivery_view(reply)),
{
    if let Delivery::Answered(Ok(_)) = reply {
        return RegisterStep::Respond {
            reply: Err(AppError::Conflict(String::from_str("User has already been registered."))),
        };
    }
    if candidate.version == String::from_str("2") {
        RegisterStep::Store { user: candidate }
    } else if candidate.version == String::from_str("2.5") {
        RegisterStep::Submit {
            request: ClientRequest::Register { name: candidate.name, address: candidate.address },
        }
    } else {
        RegisterStep::Respond {
            reply: Err(
                AppError::BadRequest(
                    String::from_str("The server can only process Web2 or Web2.5 requests"),
                ),
            ),
        }
    }
}

/// Ends a registration kept in the cache store with the store's answer to the write.
pub fn register_stored(user: User, stored: Result<(), AppError>) -> (r: Result<
    RegisterResponse,
    AppError,
>)
    ensures
        register_result_view(r) == register_on_store(user@, store_answer_view(stored)),
{
    match stored {
        Ok(_) => Ok(
            RegisterResponse {
                name: user.name,
                address: user.address,
                version: user.version,
                transaction_id: None,
            },
        ),
        Err(_) => Err(AppError::Database(String::from_str("Failed to save user to database"))),
    }
}

/// Ends a registration recorded on the ledger with what came back from the worker.
pub fn register_answered(reply: Delivery<RegisterResponse>) -> (r: Result<
    RegisterResponse,
    AppError,
>)
    ensures
        register_result_view(r) == register_on_reply(register_delivery_view(reply)),
{
    match reply {
        Delivery::Unsent => Err(AppError::Internal(String::from_str("Failed to process request"))),
        Delivery::Dropped => Err(
            AppError::Internal(String::from_str("Failed to receive response")),
        ),
        Delivery::Answered(r) => r,
    }
}

} // verus!
