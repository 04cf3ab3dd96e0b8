use mns::db::{store_failure, StoreFailure, StoreStep};
use mns::error::AppError;
use mns::gateway::{Gateway, PendingRequest};
use mns::handler::{
    lookup_answered, lookup_cached, lookup_handler, register_answered, register_cached,
    register_checked, register_handler, register_stored, ClientRequest, Delivery, LookupResponse,
    LookupStep, RegisterResponse, RegisterStep, User,
};
use mns::service::{lookup, lookup_reply, register, register_reply, LedgerFailure, LedgerStep};
use std::collections::HashMap;

/// Both tiers in memory: a cache store and a ledger that keeps what it is given.
struct Tiers {
    cache: HashMap<String, User>,
    ledger: HashMap<Vec<u64>, Vec<u64>>,
    /// Every job that reached the ledger worker, in order.
    jobs: Vec<ClientRequest>,
    store_down: bool,
    sync_down: bool,
    transactions: u32,
}

enum Reply {
    Lookup(Result<LookupResponse, AppError>),
    Register(Result<RegisterResponse, AppError>),
}

impl Tiers {
    fn new() -> Tiers {
        Tiers {
            cache: HashMap::new(),
            ledger: HashMap::new(),
            jobs: Vec::new(),
            store_down: false,
            sync_down: false,
            transactions: 0,
        }
    }

    fn get(&self, name: &str) -> Result<Option<User>, AppError> {
        if self.store_down {
            return Err(store_failure(StoreFailure {
                step: StoreStep::Lock,
                cause: String::new(),
            }));
        }
        Ok(self.cache.get(name).cloned())
    }

    fn put(&mut self, user: &User) -> Result<(), AppError> {
        if self.store_down {
            return Err(store_failure(StoreFailure {
                step: StoreStep::Save,
                cause: "unreachable".to_string(),
            }));
        }
        self.cache.insert(user.name.clone(), user.clone());
        Ok(())
    }

    fn sync(&self) -> Result<(), LedgerFailure> {
        if self.sync_down {
            return Err(LedgerFailure { step: LedgerStep::Sync, cause: "offline".to_string() });
        }
        Ok(())
    }

    /// The ledger worker: serves one job through the gateway queue.
    fn serve(&mut self, request: ClientRequest) -> Reply {
        let mut gateway: Gateway<()> = Gateway::new();
        gateway.submit(PendingRequest { request, respond: () });
        let job = gateway.start().unwrap();
        self.jobs.push(job.request.clone());
        let reply = match job.request {
            ClientRequest::Lookup { name } => Reply::Lookup(match lookup(&name) {
                Err(e) => Err(e),
                Ok(inputs) => {
                    let outcome = self.sync().map(|_| match self.ledger.get(&inputs) {
                        Some(word) => vec![word[3], word[2], word[1], word[0]],
                        None => vec![0, 0, 0, 0],
                    });
                    lookup_reply(&name, outcome)
                }
            }),
            ClientRequest::Register { name, address } => {
                Reply::Register(match register(&name, &address) {
                    Err(e) => Err(e),
                    Ok(inputs) => {
                        let outcome = self.sync().map(|_| {
                            self.ledger.insert(inputs[4..8].to_vec(), inputs[0..4].to_vec());
                            self.transactions += 1;
                            format!("0x{:04x}", self.transactions)
                        });
                        register_reply(name, address, outcome)
                    }
                })
            }
        };
        gateway.finish();
        reply
    }

    fn ask(&mut self, request: ClientRequest) -> Delivery<LookupResponse> {
        match self.serve(request) {
            Reply::Lookup(r) => Delivery::Answered(r),
            Reply::Register(_) => Delivery::Dropped,
        }
    }

    fn submit(&mut self, request: ClientRequest) -> Delivery<RegisterResponse> {
        match self.serve(request) {
            Reply::Register(r) => Delivery::Answered(r),
            Reply::Lookup(_) => Delivery::Dropped,
        }
    }

    fn lookup(&mut self, name: &str) -> Result<LookupResponse, AppError> {
        let mut step = lookup_handler(Some(name.to_string()));
        loop {
            step = match step {
                LookupStep::QueryCache { name } => {
                    let cached = self.get(&name);
                    lookup_cached(name, cached)
                }
                LookupStep::AskLedger { request } => {
                    let reply = self.ask(request);
                    return lookup_answered(reply);
                }
                LookupStep::Respond { reply } => return reply,
            };
        }
    }

    fn register(
        &mut self,
        name: &str,
        address: &str,
        version: &str,
    ) -> Result<RegisterResponse, AppError> {
        let mut step = register_handler(
            Some(name.to_string()),
            Some(address.to_string()),
            Some(version.to_string()),
        );
        loop {
            step = match step {
                RegisterStep::QueryCache { candidate } => {
                    let cached = self.get(&candidate.name);
                    register_cached(candidate, cached)
                }
                RegisterStep::CheckLedger { candidate, request } => {
                    let reply = self.ask(request);
                    register_checked(candidate, reply)
                }
                RegisterStep::Store { user } => {
                    let stored = self.put(&user);
                    return register_stored(user, stored);
                }
                RegisterStep::Submit { request } => {
                    let reply = self.submit(request);
                    return register_answered(reply);
                }
                RegisterStep::Respond { reply } => return reply,
            };
        }
    }
}

fn is_conflict(r: Result<RegisterResponse, AppError>) -> bool {
    match r {
        Err(AppError::Conflict(m)) => m == "User has already been registered.",
        _ => false,
    }
}

fn lookup_job(name: &str) -> ClientRequest {
    ClientRequest::Lookup { name: name.to_string() }
}

#[test]
fn cached_registration_then_lookup_without_ledger() {
    let mut tiers = Tiers::new();
    let registered = tiers.register("alice", "0xABC", "2").unwrap();
    assert_eq!(
        registered,
        RegisterResponse {
            name: "alice".to_string(),
            address: "0xABC".to_string(),
            version: "2".to_string(),
            transaction_id: None,
        }
    );
    tiers.jobs.clear();
    let found = tiers.lookup("alice").unwrap();
    assert_eq!(found, LookupResponse { address: "0xABC".to_string(), version: "2".to_string() });
    assert!(tiers.jobs.is_empty());
}

#[test]
fn ledger_registration_then_lookup_through_ledger() {
    let mut tiers = Tiers::new();
    let registered = tiers.register("bob", "0xDEF", "2.5").unwrap();
    assert_eq!(registered.name, "bob");
    assert_eq!(registered.address, "0xDEF");
    assert_eq!(registered.version, "2.5");
    assert!(!registered.transaction_id.unwrap().is_empty());
    assert!(tiers.cache.is_empty());
    tiers.jobs.clear();
    let found = tiers.lookup("bob").unwrap();
    assert_eq!(found, LookupResponse { address: "0xDEF".to_string(), version: "2.5".to_string() });
    assert_eq!(tiers.jobs, vec![lookup_job("bob")]);
}

#[test]
fn second_registration_conflicts_in_the_cache_tier() {
    for second in ["2", "2.5", "3"] {
        let mut tiers = Tiers::new();
        tiers.register("alice", "0xABC", "2").unwrap();
        tiers.jobs.clear();
        assert!(is_conflict(tiers.register("alice", "0xNEW", second)));
        // The conflict is found in the cache: the ledger is not touched.
        assert!(tiers.jobs.is_empty());
        assert_eq!(tiers.cache["alice"].address, "0xABC");
    }
}

#[test]
fn second_registration_conflicts_in_the_ledger_tier() {
    for second in ["2", "2.5", "3"] {
        let mut tiers = Tiers::new();
        tiers.register("bob", "0xDEF", "2.5").unwrap();
        tiers.jobs.clear();
        assert!(is_conflict(tiers.register("bob", "0xNEW", second)));
        assert_eq!(tiers.jobs, vec![lookup_job("bob")]);
        assert!(tiers.cache.is_empty());
        assert_eq!(tiers.lookup("bob").unwrap().address, "0xDEF");
    }
}

#[test]
fn blank_ledger_address_does_not_block_a_second_registration() {
    let mut tiers = Tiers::new();
    tiers.register("bob", " ", "2.5").unwrap();
    assert!(matches!(tiers.lookup("bob"), Err(AppError::NotFound(_))));
    assert!(tiers.register("bob", "0xDEF", "2.5").is_ok());
    assert_eq!(tiers.lookup("bob").unwrap().address, "0xDEF");
}

#[test]
fn zero_ledger_address_does_not_block_a_second_registration() {
    let mut tiers = Tiers::new();
    tiers.register("bob", "0000000000000000", "2.5").unwrap();
    assert!(matches!(tiers.lookup("bob"), Err(AppError::NotFound(_))));
    assert!(tiers.register("bob", "0xDEF", "2").is_ok());
}

#[test]
fn cache_hit_never_reaches_the_ledger() {
    let mut tiers = Tiers::new();
    tiers.cache.insert(
        "carol".to_string(),
        User { name: "carol".to_string(), address: "0x1".to_string(), version: "1".to_string() },
    );
    // Even a broken ledger does not matter.
    tiers.sync_down = true;
    for _ in 0..3 {
        let found = tiers.lookup("carol").unwrap();
        assert_eq!(found, LookupResponse { address: "0x1".to_string(), version: "1".to_string() });
    }
    assert!(tiers.jobs.is_empty());
}

#[test]
fn cache_miss_asks_the_ledger_exactly_once() {
    let mut tiers = Tiers::new();
    match tiers.lookup("dave") {
        Err(AppError::NotFound(m)) => assert_eq!(m, "Name 'dave' not registered"),
        other => panic!("unexpected reply: {:?}", other),
    }
    assert_eq!(tiers.jobs, vec![lookup_job("dave")]);
}

#[test]
fn store_failure_on_lookup_falls_through_to_the_ledger() {
    let mut tiers = Tiers::new();
    tiers.register("bob", "0xDEF", "2.5").unwrap();
    tiers.jobs.clear();
    tiers.store_down = true;
    let found = tiers.lookup("bob").unwrap();
    assert_eq!(found.address, "0xDEF");
    assert_eq!(found.version, "2.5");
    assert_eq!(tiers.jobs, vec![lookup_job("bob")]);
}

#[test]
fn store_failure_on_write_is_reported() {
    let mut tiers = Tiers::new();
    tiers.store_down = true;
    match tiers.register("alice", "0xABC", "2") {
        Err(AppError::Database(m)) => assert_eq!(m, "Failed to save user to database"),
        other => panic!("unexpected reply: {:?}", other),
    }
    assert!(tiers.cache.is_empty());
}

#[test]
fn ledger_failure_on_lookup_is_passed_on_without_retry() {
    let mut tiers = Tiers::new();
    tiers.sync_down = true;
    match tiers.lookup("bob") {
        Err(AppError::Internal(m)) => assert_eq!(m, "Failed to sync blockchain state: offline"),
        other => panic!("unexpected reply: {:?}", other),
    }
    assert_eq!(tiers.jobs.len(), 1);
}

#[test]
fn ledger_failure_on_registration_is_passed_on() {
    let mut tiers = Tiers::new();
    tiers.sync_down = true;
    match tiers.register("bob", "0xDEF", "2.5") {
        Err(AppError::Internal(m)) => assert_eq!(m, "Failed to sync blockchain state: offline"),
        other => panic!("unexpected reply: {:?}", other),
    }
    // The duplicate check and the registration itself: two jobs, no retry.
    assert_eq!(tiers.jobs.len(), 2);
    assert!(tiers.ledger.is_empty());
}

#[test]
fn unsupported_version_is_refused_after_both_checks() {
    let mut tiers = Tiers::new();
    match tiers.register("erin", "0x5", "3") {
        Err(AppError::BadRequest(m)) => {
            assert_eq!(m, "The server can only process Web2 or Web2.5 requests")
        }
        other => panic!("unexpected reply: {:?}", other),
    }
    assert_eq!(tiers.jobs, vec![lookup_job("erin")]);
    assert!(tiers.cache.is_empty());
    assert!(tiers.ledger.is_empty());
}

#[test]
fn missing_fields_are_refused_before_any_tier_is_touched() {
    let mut tiers = Tiers::new();
    tiers.store_down = true;
    tiers.sync_down = true;
    assert!(matches!(tiers.lookup(""), Err(AppError::BadRequest(_))));
    assert!(matches!(tiers.register("", "0x1", "2"), Err(AppError::BadRequest(_))));
    assert!(matches!(tiers.register("a", "", "2"), Err(AppError::BadRequest(_))));
    assert!(matches!(tiers.register("a", "0x1", ""), Err(AppError::BadRequest(_))));
    assert!(tiers.jobs.is_empty());
}

#[test]
fn name_without_word_cannot_be_registered_on_the_ledger() {
    let mut tiers = Tiers::new();
    let long = "0123456789012345678901234";
    match tiers.register(long, "0xDEF", "2.5") {
        Err(AppError::BadRequest(m)) => {
            assert_eq!(m, "string `0123456789012345678901234` is too large")
        }
        other => panic!("unexpected reply: {:?}", other),
    }
    assert!(tiers.ledger.is_empty());
}

#[test]
fn racing_cache_registrations_both_succeed_and_the_last_write_wins() {
    let mut tiers = Tiers::new();
    // Both requests pass both duplicate checks before either writes.
    let first = register_handler(
        Some("alice".to_string()),
        Some("0xAAA".to_string()),
        Some("2".to_string()),
    );
    let second = register_handler(
        Some("alice".to_string()),
        Some("0xBBB".to_string()),
        Some("2".to_string()),
    );
    let first = match first {
        RegisterStep::QueryCache { candidate } => {
            let cached = tiers.get(&candidate.name);
            register_cached(candidate, cached)
        }
        other => panic!("unexpected step: {:?}", other),
    };
    let second = match second {
        RegisterStep::QueryCache { candidate } => {
            let cached = tiers.get(&candidate.name);
            register_cached(candidate, cached)
        }
        other => panic!("unexpected step: {:?}", other),
    };
    let first = match first {
        RegisterStep::CheckLedger { candidate, request } => {
            let reply = tiers.ask(request);
            register_checked(candidate, reply)
        }
        other => panic!("unexpected step: {:?}", other),
    };
    let second = match second {
        RegisterStep::CheckLedger { candidate, request } => {
            let reply = tiers.ask(request);
            register_checked(candidate, reply)
        }
        other => panic!("unexpected step: {:?}", other),
    };
    let first = match first {
        RegisterStep::Store { user } => {
            let stored = tiers.put(&user);
            register_stored(user, stored)
        }
        other => panic!("unexpected step: {:?}", other),
    };
    let second = match second {
        RegisterStep::Store { user } => {
            let stored = tiers.put(&user);
            register_stored(user, stored)
        }
        other => panic!("unexpected step: {:?}", other),
    };
    assert_eq!(first.unwrap().address, "0xAAA");
    assert_eq!(second.unwrap().address, "0xBBB");
    assert_eq!(tiers.cache.len(), 1);
    assert_eq!(tiers.lookup("alice").unwrap().address, "0xBBB");
}

#[test]
fn later_write_replaces_the_record_of_a_name() {
    let mut tiers = Tiers::new();
    let old = User { name: "a".to_string(), address: "1".to_string(), version: "2".to_string() };
    let new = User { name: "a".to_string(), address: "2".to_string(), version: "2".to_string() };
    tiers.put(&old).unwrap();
    tiers.put(&new).unwrap();
    assert_eq!(tiers.cache.len(), 1);
    assert_eq!(tiers.get("a").unwrap(), Some(new));
}
