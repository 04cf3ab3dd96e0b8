use mns::codec::str_to_word;
use mns::error::AppError;
use mns::felt::MODULUS;
use mns::handler::{LookupResponse, RegisterResponse};
use mns::service::{
    judge_address, ledger_failure, lookup, lookup_reply, register, register_reply, LedgerFailure,
    LedgerStep,
};

fn failure(step: LedgerStep, cause: &str) -> LedgerFailure {
    LedgerFailure { step, cause: cause.to_string() }
}

fn internal(e: AppError) -> String {
    match e {
        AppError::Internal(m) => m,
        other => panic!("not an internal error: {:?}", other),
    }
}

fn not_found(r: Result<LookupResponse, AppError>) -> String {
    match r {
        Err(AppError::NotFound(m)) => m,
        other => panic!("not a not-found error: {:?}", other),
    }
}

fn bad_request<T: std::fmt::Debug>(r: Result<T, AppError>) -> String {
    match r {
        Err(AppError::BadRequest(m)) => m,
        other => panic!("not a bad request: {:?}", other),
    }
}

/// The stack that holds the word of `text` on top, as the lookup program leaves it.
fn stack_of(text: &str) -> Vec<u64> {
    let fields = str_to_word(text).unwrap().fields();
    vec![fields[3], fields[2], fields[1], fields[0]]
}

#[test]
fn lookup_inputs_are_the_name_word() {
    assert_eq!(lookup("a").unwrap(), vec![0x6100_0000_0000_0000, 0, 0, 1]);
    assert_eq!(
        lookup("mirko.miden").unwrap(),
        vec![0x6d69_726b_6f2e_6d69, 0x6465_6e00_0000_0000, 0, 11]
    );
}

#[test]
fn ledger_lookup_of_empty_name_is_refused() {
    assert_eq!(bad_request(lookup("")), "Name cannot be empty");
}

#[test]
fn lookup_of_a_name_without_word_is_refused() {
    assert_eq!(
        bad_request(lookup("0123456789012345678901234")),
        "string `0123456789012345678901234` is too large"
    );
}

#[test]
fn register_inputs_are_address_then_name() {
    assert_eq!(
        register("a", "b").unwrap(),
        vec![0x6200_0000_0000_0000, 0, 0, 1, 0x6100_0000_0000_0000, 0, 0, 1]
    );
}

#[test]
fn register_validates_name_before_address() {
    assert_eq!(bad_request(register("", "")), "Name cannot be empty");
    assert_eq!(bad_request(register("alice", "")), "Address cannot be empty");
    let long = "0123456789012345678901234";
    assert_eq!(
        bad_request(register(long, "0123456789012345678901234x")),
        "string `0123456789012345678901234` is too large"
    );
    assert_eq!(
        bad_request(register("alice", long)),
        "string `0123456789012345678901234` is too large"
    );
    assert_eq!(bad_request(register(long, "")), "Address cannot be empty");
}

#[test]
fn failed_steps_read_by_step() {
    let cases = [
        (LedgerStep::Sync, "Failed to sync blockchain state: timeout"),
        (LedgerStep::Library, "Contract compilation error: timeout"),
        (LedgerStep::Linking, "Script compilation error: timeout"),
        (LedgerStep::Script, "Transaction script error: timeout"),
        (LedgerStep::Request, "Transaction request error: timeout"),
        (LedgerStep::Transaction, "Transaction execution failed: timeout"),
        (LedgerStep::Submission, "Transaction submission failed: timeout"),
        (LedgerStep::Program, "Program execution failed: timeout"),
        (LedgerStep::Assembly, "Failed to create library: timeout"),
    ];
    for (step, expected) in cases {
        assert_eq!(internal(ledger_failure(failure(step, "timeout"))), expected);
    }
}

#[test]
fn lookup_reply_reports_a_failed_step() {
    let r = lookup_reply("bob", Err(failure(LedgerStep::Program, "reverted")));
    assert_eq!(internal(r.unwrap_err()), "Program execution failed: reverted");
    let r = lookup_reply("bob", Err(failure(LedgerStep::Sync, "offline")));
    assert_eq!(internal(r.unwrap_err()), "Failed to sync blockchain state: offline");
}

#[test]
fn short_stack_means_not_found() {
    for n in 0..4 {
        let stack = vec![1u64; n];
        assert_eq!(
            not_found(lookup_reply("bob", Ok(stack))),
            "Name 'bob' not found or returned invalid data"
        );
    }
}

#[test]
fn zero_word_means_not_registered() {
    assert_eq!(not_found(lookup_reply("bob", Ok(vec![0, 0, 0, 0]))), "Name 'bob' not registered");
}

#[test]
fn blank_address_means_not_registered() {
    assert_eq!(not_found(lookup_reply("bob", Ok(stack_of("   ")))), "Name 'bob' not registered");
    assert_eq!(not_found(lookup_reply("bob", Ok(stack_of(" \t\n")))), "Name 'bob' not registered");
}

#[test]
fn every_kind_of_white_space_counts_as_blank() {
    let spaces = [
        '\u{9}', '\u{a}', '\u{b}', '\u{c}', '\u{d}', ' ', '\u{85}', '\u{a0}', '\u{1680}',
        '\u{2000}', '\u{2001}', '\u{2002}', '\u{2003}', '\u{2004}', '\u{2005}', '\u{2006}',
        '\u{2007}', '\u{2008}', '\u{2009}', '\u{200a}', '\u{2028}', '\u{2029}', '\u{202f}',
        '\u{205f}', '\u{3000}',
    ];
    for space in spaces {
        let address: String = [space, ' ', space].iter().collect();
        assert_eq!(
            not_found(lookup_reply("bob", Ok(stack_of(&address)))),
            "Name 'bob' not registered",
            "U+{:04X}",
            space as u32
        );
    }
}

#[test]
fn characters_next_to_white_space_are_not_blank() {
    let others = [
        '\u{8}', '\u{e}', '\u{1f}', '!', '\u{84}', '\u{86}', '\u{9f}', '\u{a1}', '\u{167f}',
        '\u{1681}', '\u{180e}', '\u{1fff}', '\u{200b}', '\u{200c}', '\u{2027}', '\u{202a}',
        '\u{202e}', '\u{2030}', '\u{205e}', '\u{2060}', '\u{2fff}', '\u{3001}', '\u{feff}',
    ];
    for other in others {
        let address: String = [other].iter().collect();
        let found = lookup_reply("bob", Ok(stack_of(&address))).unwrap();
        assert_eq!(found.address, address, "U+{:04X}", other as u32);
        let padded: String = [' ', other, ' '].iter().collect();
        let found = lookup_reply("bob", Ok(stack_of(&padded))).unwrap();
        assert_eq!(found.address, padded, "U+{:04X}", other as u32);
    }
}

#[test]
fn zero_address_means_not_registered() {
    assert_eq!(
        not_found(lookup_reply("bob", Ok(stack_of("0000000000000000")))),
        "Name 'bob' not registered"
    );
}

#[test]
fn other_zero_runs_are_addresses() {
    let r = lookup_reply("bob", Ok(stack_of("000000000000000"))).unwrap();
    assert_eq!(r.address, "000000000000000");
    let r = lookup_reply("bob", Ok(stack_of("00000000000000000"))).unwrap();
    assert_eq!(r.address, "00000000000000000");
}

#[test]
fn stack_word_is_read_in_reverse_order() {
    let r = lookup_reply("bob", Ok(stack_of("0xDEF"))).unwrap();
    assert_eq!(r, LookupResponse { address: "0xDEF".to_string(), version: "2.5".to_string() });
    // The same elements in field order spell another word.
    let fields = str_to_word("0xDEF").unwrap().fields();
    let r = lookup_reply("bob", Ok(fields.to_vec()));
    assert!(r.is_err() || r.unwrap().address != "0xDEF");
}

#[test]
fn stack_below_the_word_is_ignored() {
    let mut stack = stack_of("0xDEF");
    stack.extend_from_slice(&[7, 8, 9]);
    assert_eq!(lookup_reply("bob", Ok(stack)).unwrap().address, "0xDEF");
}

#[test]
fn stack_elements_are_taken_as_field_elements() {
    let mut stack = stack_of("0xDEF");
    for element in stack.iter_mut() {
        if *element < u64::MAX - MODULUS {
            *element += MODULUS;
        }
    }
    assert_eq!(lookup_reply("bob", Ok(stack)).unwrap().address, "0xDEF");
}

#[test]
fn surrounding_space_is_kept_in_a_found_address() {
    let r = lookup_reply("bob", Ok(stack_of(" 0xDEF "))).unwrap();
    assert_eq!(r.address, " 0xDEF ");
    assert_eq!(r.version, "2.5");
}

#[test]
fn judging_goes_by_the_stripped_text_handed_in() {
    let r = judge_address("bob", "0xDEF".to_string(), "0xDEF").unwrap();
    assert_eq!(r, LookupResponse { address: "0xDEF".to_string(), version: "2.5".to_string() });
    assert_eq!(not_found(judge_address("bob", "  ".to_string(), "")), "Name 'bob' not registered");
    assert_eq!(not_found(judge_address("bob", String::new(), "")), "Name 'bob' not registered");
    assert_eq!(
        not_found(judge_address("bob", "0000000000000000".to_string(), "0000000000000000")),
        "Name 'bob' not registered"
    );
}

#[test]
fn registration_reply_carries_inputs_and_transaction() {
    let r = register_reply("bob".to_string(), "0xDEF".to_string(), Ok("0x1234".to_string()));
    assert_eq!(
        r.unwrap(),
        RegisterResponse {
            name: "bob".to_string(),
            address: "0xDEF".to_string(),
            version: "2.5".to_string(),
            transaction_id: Some("0x1234".to_string()),
        }
    );
}

#[test]
fn registration_reply_reports_a_failed_step() {
    let r = register_reply(
        "bob".to_string(),
        "0xDEF".to_string(),
        Err(failure(LedgerStep::Submission, "rejected")),
    );
    assert_eq!(internal(r.unwrap_err()), "Transaction submission failed: rejected");
    let r = register_reply(
        "bob".to_string(),
        "0xDEF".to_string(),
        Err(failure(LedgerStep::Transaction, "out of gas")),
    );
    assert_eq!(internal(r.unwrap_err()), "Transaction execution failed: out of gas");
}
