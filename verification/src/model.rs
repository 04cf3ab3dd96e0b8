//! The two tiers as mathematics, and what the gateway guarantees over them.
//!
//! The cache store is taken as a map from names to records with insert-or-replace
//! writes. The ledger is taken as a map from name words to address words: its lookup
//! program leaves the word bound to its input on top of the stack, in reverse field
//! order, or the all-zero word where nothing is bound, and its registration program
//! binds the name word among its inputs to the address word. Both tiers are taken to
//! answer every call. A request is then run by following the router's steps and
//! answering each from the tiers.

use crate::codec::{
    canonical_fields, decode_fields, encode_text, lemma_encoded_word, lemma_round_trip,
    stored_len, text_bytes,
};
use crate::error::ErrorView;
use crate::felt::MODULUS;
use crate::handler::{
    already_registered, cache_version, ledger_version, lookup_begin, lookup_on_cache,
    lookup_on_reply, register_begin, register_on_cache, register_on_check, register_on_reply,
    register_on_store, DeliveryView, LookupStepView, LookupView, RegisterStepView, RegisterView,
    RequestView, UserView,
};
use crate::service::{
    fits_word, lookup_inputs, lookup_outcome, register_inputs, register_outcome, stack_word,
    unregistered,
};
use vstd::prelude::*;
use vstd::utf8::*;

verus! {

/// The state of the two tiers.
pub struct Tiers {
    /// The cache store: at most one record per name.
    pub cache: Map<Seq<char>, UserView>,
    /// The ledger: the address word bound to each name word.
    pub ledger: Map<Seq<u64>, Seq<u64>>,
}

/// A lookup that was run: its reply and the jobs it gave to the ledger worker.
pub struct LookupRun {
    pub reply: Result<LookupView, ErrorView>,
    pub jobs: Seq<RequestView>,
}

/// A registration that was run: the tiers it left, its reply, and the jobs it gave to
/// the ledger worker.
pub struct RegisterRun {
    pub tiers: Tiers,
    pub reply: Result<RegisterView, ErrorView>,
    pub jobs: Seq<RequestView>,
}

impl Tiers {
    /// The cache store's answer to a point lookup of `name`.
    pub open spec fn cached(self, name: Seq<char>) -> Result<Option<UserView>, ErrorView> {
        if self.cache.contains_key(name) {
            Ok(Some(self.cache[name]))
        } else {
            Ok(None)
        }
    }

    /// The tiers after `user` was written to the cache store: the record stands for its
    /// name, in place of any earlier one.
    pub open spec fn stored(self, user: UserView) -> Tiers {
        Tiers { cache: self.cache.insert(user.name, user), ledger: self.ledger }
    }

    /// The stack that the lookup program leaves for the name word `inputs`.
    pub open spec fn stack(self, inputs: Seq<u64>) -> Seq<u64> {
        if self.ledger.contains_key(inputs) {
            let word = self.ledger[inputs];
            seq![word[3], word[2], word[1], word[0]]
        } else {
            seq![0u64, 0u64, 0u64, 0u64]
        }
    }

    /// The tiers after the registration program ran on `inputs`, an address word
    /// followed by a name word.
    pub open spec fn bound(self, inputs: Seq<u64>) -> Tiers {
        Tiers {
            cache: self.cache,
            ledger: self.ledger.insert(inputs.subrange(4, 8), inputs.subrange(0, 4)),
        }
    }

    /// The ledger worker's reply to a lookup job for `name`.
    pub open spec fn resolve(self, name: Seq<char>) -> Result<LookupView, ErrorView> {
        match lookup_inputs(name) {
            Ok(inputs) => lookup_outcome(name, Ok(self.stack(inputs))),
            Err(e) => Err(e),
        }
    }

    /// The ledger worker's reply to a registration job, where the ledger assigns the
    /// transaction identifier `id`.
    pub open spec fn record(self, name: Seq<char>, address: Seq<char>, id: Seq<char>) -> Result<
        RegisterView,
        ErrorView,
    > {
        match register_inputs(name, address) {
            Ok(_) => register_outcome(name, address, Ok(id)),
            Err(e) => Err(e),
        }
    }

    /// The tiers after the ledger worker served a registration job.
    pub open spec fn recorded(self, name: Seq<char>, address: Seq<char>) -> Tiers {
        match register_inputs(name, address) {
            Ok(inputs) => self.bound(inputs),
            Err(_) => self,
        }
    }

    /// Runs a lookup of `name`.
    pub open spec fn lookup(self, name: Seq<char>) -> LookupRun {
        match lookup_begin(Some(name)) {
            LookupStepView::QueryCache { name } => match lookup_on_cache(name, self.cached(name)) {
                LookupStepView::AskLedger { request } => LookupRun {
                    reply: lookup_on_reply(DeliveryView::Answered(self.resolve(request.name()))),
                    jobs: seq![request],
                },
                LookupStepView::Respond { reply } => LookupRun { reply, jobs: seq![] },
                LookupStepView::QueryCache { .. } => arbitrary(),
            },
            LookupStepView::Respond { reply } => LookupRun { reply, jobs: seq![] },
            LookupStepView::AskLedger { .. } => arbitrary(),
        }
    }

    /// Runs the part of a registration that follows the duplicate check in the ledger
    /// tier, for which the job `check` was given to the ledger worker.
    pub open spec fn register_dispatch(
        self,
        candidate: UserView,
        check: RequestView,
        id: Seq<char>,
    ) -> RegisterRun {
        let found = DeliveryView::Answered(self.resolve(check.name()));
        match register_on_check(candidate, found) {
            RegisterStepView::Store { user } => RegisterRun {
                tiers: self.stored(user),
                reply: register_on_store(user, Ok(())),
                jobs: seq![check],
            },
            RegisterStepView::Submit { request } => match request {
                RequestView::Register { name, address } => RegisterRun {
                    tiers: self.recorded(name, address),
                    reply: register_on_reply(
                        DeliveryView::Answered(self.record(name, address, id)),
                    ),
                    jobs: seq![check, request],
                },
                RequestView::Lookup { .. } => arbitrary(),
            },
            RegisterStepView::Respond { reply } => RegisterRun {
                tiers: self,
                reply,
                jobs: seq![check],
            },
            _ => arbitrary(),
        }
    }

    /// Runs a registration of `name` with `address` under `version`, where the ledger
    /// would assign the transaction identifier `id`.
    pub open spec fn register(
        self,
        name: Seq<char>,
        address: Seq<char>,
        version: Seq<char>,
        id: Seq<char>,
    ) -> RegisterRun {
        match register_begin(Some(name), Some(address), Some(version)) {
            RegisterStepView::QueryCache { candidate } => match register_on_cache(
                candidate,
                self.cached(candidate.name),
            ) {
                RegisterStepView::CheckLedger { candidate, request } => self.register_dispatch(
                    candidate,
                    request,
                    id,
                ),
                RegisterStepView::Respond { reply } => RegisterRun {
                    tiers: self,
                    reply,
                    jobs: seq![],
                },
                _ => arbitrary(),
            },
            RegisterStepView::Respond { reply } => RegisterRun { tiers: self, reply, jobs: seq![] },
            _ => arbitrary(),
        }
    }
}

/// The all-zero word decodes to the empty text.
pub proof fn lemma_zero_word_is_empty()
    ensures
        decode_fields(stack_word(seq![0u64, 0u64, 0u64, 0u64])) == Seq::<char>::empty(),
{
    let word = stack_word(seq![0u64, 0u64, 0u64, 0u64]);
    assert(stored_len(word) == 0);
    assert(text_bytes(word) =~= Seq::<u8>::empty());
    assert(decode_utf8(Seq::<u8>::empty()) =~= Seq::<char>::empty());
}

/// Cache hit: once the cache store holds a record for a name, a lookup of the name
/// gives no job to the ledger worker and returns the record's address and version.
pub proof fn lemma_cache_hit(tiers: Tiers, name: Seq<char>)
    requires
        name.len() > 0,
        tiers.cache.contains_key(name),
    ensures
        tiers.lookup(name).jobs.len() == 0,
        tiers.lookup(name).reply == Ok::<LookupView, ErrorView>(
            LookupView { address: tiers.cache[name].address, version: tiers.cache[name].version },
        ),
{
}

/// Cache miss: without a record in the cache store, a lookup of a name gives exactly
/// one job to the ledger worker, a lookup of that name, and returns the worker's
/// reply. A reply that succeeds carries the ledger's version. Where the ledger binds
/// nothing to the name, the reply is that the name is not found.
pub proof fn lemma_cache_miss(tiers: Tiers, name: Seq<char>)
    requires
        name.len() > 0,
        !tiers.cache.contains_key(name),
    ensures
        tiers.lookup(name).jobs == seq![RequestView::Lookup { name }],
        tiers.lookup(name).reply == tiers.resolve(name),
        tiers.lookup(name).reply matches Ok(found) ==> found.version == ledger_version(),
        fits_word(name) && !tiers.ledger.contains_key(encode_text(name)) ==> tiers.lookup(
            name,
        ).reply == Err::<LookupView, ErrorView>(
            ErrorView::NotFound("Name '"@ + name + "' not registered"@),
        ),
{
    lemma_zero_word_is_empty();
}

/// What a registration that succeeded leaves behind: under the cache's version a
/// record for the name in the cache store, under the ledger's version the address word
/// bound to the name word on the ledger. No other version succeeds.
pub proof fn lemma_registered(
    tiers: Tiers,
    name: Seq<char>,
    address: Seq<char>,
    version: Seq<char>,
    id: Seq<char>,
)
    requires
        tiers.register(name, address, version, id).reply is Ok,
    ensures
        name.len() > 0,
        version == cache_version() || version == ledger_version(),
        version == cache_version() ==> tiers.register(name, address, version, id).tiers
            == tiers.stored(UserView { name, address, version }) && tiers.register(
            name,
            address,
            version,
            id,
        ).reply == Ok::<RegisterView, ErrorView>(
            RegisterView { name, address, version, transaction_id: None },
        ),
        version == ledger_version() ==> fits_word(name) && fits_word(address) && tiers.register(
            name,
            address,
            version,
            id,
        ).tiers == (Tiers {
            cache: tiers.cache,
            ledger: tiers.ledger.insert(encode_text(name), encode_text(address)),
        }) && tiers.register(name, address, version, id).reply == Ok::<RegisterView, ErrorView>(
            RegisterView { name, address, version, transaction_id: Some(id) },
        ),
{
    reveal_strlit("2");
    reveal_strlit("2.5");
    if version == ledger_version() {
        let inputs = encode_text(address) + encode_text(name);
        assert(inputs.subrange(4, 8) =~= encode_text(name));
        assert(inputs.subrange(0, 4) =~= encode_text(address));
    }
}

/// The stack that holds a word of field elements in reverse order has that word on
/// top.
pub proof fn lemma_stack_of_word(word: Seq<u64>)
    requires
        canonical_fields(word),
    ensures
        stack_word(seq![word[3], word[2], word[1], word[0]]) == word,
{
    let stack = seq![word[3], word[2], word[1], word[0]];
    assert(word[0] < MODULUS && word[1] < MODULUS && word[2] < MODULUS && word[3] < MODULUS);
    assert(stack_word(stack) =~= word);
}

/// A name whose word the ledger binds to the word of `address` resolves to `address`,
/// unless `address` is blank or the zero address.
pub proof fn lemma_bound_name_resolves(tiers: Tiers, name: Seq<char>, address: Seq<char>)
    requires
        name.len() > 0,
        fits_word(name),
        fits_word(address),
        tiers.ledger.contains_key(encode_text(name)),
        tiers.ledger[encode_text(name)] == encode_text(address),
        !unregistered(address),
    ensures
        tiers.resolve(name) == Ok::<LookupView, ErrorView>(
            LookupView { address, version: ledger_version() },
        ),
{
    let word = encode_text(address);
    let stack = tiers.stack(encode_text(name));
    assert(stack == seq![word[3], word[2], word[1], word[0]]);
    assert(stack.len() == 4);
    assert(stack_word(stack) == word) by {
        lemma_encoded_word(address);
        lemma_stack_of_word(word);
    }
    assert(decode_fields(word) == address) by {
        lemma_round_trip(address);
    }
    assert(lookup_inputs(name) == Ok::<Seq<u64>, ErrorView>(encode_text(name)));
}

/// Registration, then lookup: after a registration of a name succeeded, a lookup of
/// the name returns the registered address under the registered version. Under the
/// cache's version it does so without a job for the ledger worker, under the ledger's
/// version with exactly one, and there for an address that a lookup reports, that is,
/// one that is neither blank nor the zero address.
pub proof fn lemma_registered_name_is_found(
    tiers: Tiers,
    name: Seq<char>,
    address: Seq<char>,
    version: Seq<char>,
    id: Seq<char>,
)
    requires
        tiers.register(name, address, version, id).reply is Ok,
        version == ledger_version() ==> !unregistered(address),
    ensures
        tiers.register(name, address, version, id).tiers.lookup(name).reply == Ok::<
            LookupView,
            ErrorView,
        >(LookupView { address, version }),
        version == cache_version() ==> tiers.register(name, address, version, id).tiers.lookup(
            name,
        ).jobs.len() == 0,
        version == ledger_version() ==> tiers.register(name, address, version, id).tiers.lookup(
            name,
        ).jobs == seq![RequestView::Lookup { name }],
{
    let after = tiers.register(name, address, version, id).tiers;
    lemma_registered(tiers, name, address, version, id);
    reveal_strlit("2");
    reveal_strlit("2.5");
    if version == ledger_version() {
        lemma_bound_name_resolves(after, name, address);
    }
}

/// Second registration: after a registration of a name succeeded, every further
/// registration of that name with an address and a version ends in the conflict
/// "already registered", whichever version either attempt names. Under the ledger's
/// version this holds for a first address that a lookup reports, that is, one that is
/// neither blank nor the zero address.
pub proof fn lemma_second_registration_conflicts(
    tiers: Tiers,
    name: Seq<char>,
    address: Seq<char>,
    version: Seq<char>,
    id: Seq<char>,
    next_address: Seq<char>,
    next_version: Seq<char>,
    next_id: Seq<char>,
)
    requires
        tiers.register(name, address, version, id).reply is Ok,
        version == ledger_version() ==> !unregistered(address),
        next_address.len() > 0,
        next_version.len() > 0,
    ensures
        tiers.register(name, address, version, id).tiers.register(
            name,
            next_address,
            next_version,
            next_id,
        ).reply == Err::<RegisterView, ErrorView>(already_registered()),
{
    let after = tiers.register(name, address, version, id).tiers;
    lemma_registered(tiers, name, address, version, id);
    reveal_strlit("2");
    reveal_strlit("2.5");
    if version == ledger_version() {
        lemma_bound_name_resolves(after, name, address);
    }
}

} // verus!
