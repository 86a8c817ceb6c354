use counter_program::processor::process;
use counter_program::processor::increment_native_counter;
use counter_program::process_instruction;
use counter_program::state::increment_counter;
use counter_program::state::initialize_counter;
use counter_program::AccountHandle;
use counter_program::Counter;
use counter_program::CounterAccount;
use counter_program::CounterError;
use counter_program::CounterInstruction;
use counter_program::Identity;

fn id(n: u64) -> Identity {
    Identity { w0: n, w1: n + 1, w2: n + 2, w3: n + 3 }
}

fn handle(key: Identity, owner: Identity, is_signer: bool, data: Vec<u8>) -> AccountHandle {
    AccountHandle { key, owner, is_signer, data }
}

fn read_count(account: &AccountHandle) -> u64 {
    CounterAccount::from_bytes(&account.data)
        .expect("account should hold a counter record")
        .count
}

// The three accounts an initialization expects: the future counter (not
// yet owned by the program), the payer, and the host's allocation program.
fn init_accounts(counter_key: Identity) -> Vec<AccountHandle> {
    vec![
        handle(counter_key, id(900), true, Vec::new()),
        handle(id(800), id(900), true, Vec::new()),
        handle(id(700), id(900), false, Vec::new()),
    ]
}

#[test]
fn test_counter_program() {
    let program_id = id(1);
    let counter_key = id(10);

    // Initialize the counter to 100.
    let initial_value = 100u64;
    let mut accounts = init_accounts(counter_key);
    let init_data = CounterInstruction::InitializeCounter { initial_value }.encode();
    let result = process_instruction(&program_id, &mut accounts, &init_data);
    assert_eq!(result, Ok(None), "Initialize transaction should succeed");

    let counter = accounts.remove(0);
    assert_eq!(counter.owner, program_id);
    assert_eq!(
        read_count(&counter),
        initial_value,
        "Counter should be initialized to 100"
    );

    // Increment the counter.
    let mut accounts = vec![counter];
    let increment_data = CounterInstruction::IncrementCounter.encode();
    let result = process_instruction(&program_id, &mut accounts, &increment_data);
    assert_eq!(result, Ok(None), "Increment transaction should succeed");
    assert_eq!(
        read_count(&accounts[0]),
        initial_value + 1,
        "Counter should be incremented to 101"
    );
}

#[test]
fn test_cpi_to_anchor_counter() {
    let native_program_id = id(1);
    let companion_program_id = id(2);
    let authority_key = id(20);

    // A counter of the companion program, initialized to 50 and owned by it.
    let initial_value = 50u64;
    let companion_record = Counter { count: initial_value, authority: authority_key };
    let mut accounts = vec![
        handle(id(10), companion_program_id, false, companion_record.to_bytes()),
        handle(authority_key, id(900), true, Vec::new()),
        handle(companion_program_id, id(900), false, Vec::new()),
    ];

    // Ask the native program for the cross-program increment; it hands back
    // the nested instruction instead of performing it.
    let data = CounterInstruction::IncrementAnchorCounter.encode();
    let result = process_instruction(&native_program_id, &mut accounts, &data);
    let nested = result
        .expect("CPI to companion counter should succeed")
        .expect("a nested instruction should be issued");

    assert_eq!(nested.program_id, companion_program_id);
    assert_eq!(nested.data, vec![16u8, 125, 2, 171, 73, 24, 207, 229]);
    assert_eq!(nested.accounts.len(), 2);
    assert_eq!(nested.accounts[0].key, accounts[0].key);
    assert!(nested.accounts[0].is_writable);
    assert!(!nested.accounts[0].is_signer);
    assert_eq!(nested.accounts[1].key, authority_key);
    assert!(!nested.accounts[1].is_writable);
    assert!(nested.accounts[1].is_signer);

    // The issuing call wrote nothing itself.
    let mut record = Counter::from_bytes(&accounts[0].data).unwrap();
    assert_eq!(record.count, initial_value);

    // The host now runs the sub-call inside the companion program, whose
    // increment this library also models at the record level.
    assert_eq!(increment_counter(&mut record), Ok(()));
    accounts[0].data = record.to_bytes();

    let after = Counter::from_bytes(&accounts[0].data).unwrap();
    assert_eq!(
        after.count,
        initial_value + 1,
        "Anchor counter should be incremented via CPI"
    );
    assert_eq!(after.authority, authority_key);
}

#[test]
fn test_cpi_raw_and_self() {
    let native_program_id = id(1);
    let companion_program_id = id(2);

    // Manual-constant variant against a companion counter at 200.
    let initial_value = 200u64;
    let record = Counter { count: initial_value, authority: id(20) };
    let mut accounts = vec![
        handle(id(10), companion_program_id, false, record.to_bytes()),
        handle(id(20), id(900), true, Vec::new()),
        handle(companion_program_id, id(900), false, Vec::new()),
    ];
    let data = CounterInstruction::IncrementAnchorCounterRaw.encode();
    let nested = process_instruction(&native_program_id, &mut accounts, &data)
        .expect("raw CPI should succeed")
        .expect("a nested instruction should be issued");
    assert_eq!(nested.program_id, companion_program_id);
    assert_eq!(nested.data, vec![16u8, 125, 2, 171, 73, 24, 207, 229]);
    let mut companion = Counter::from_bytes(&accounts[0].data).unwrap();
    assert_eq!(increment_counter(&mut companion), Ok(()));
    assert_eq!(companion.count, initial_value + 1);

    // Self-referential variant: initialize a native counter to 99, ask for
    // the self-call, then run the returned instruction through the same
    // dispatcher.
    let native_initial = 99u64;
    let mut accounts = init_accounts(id(30));
    let init = CounterInstruction::InitializeCounter { initial_value: native_initial }.encode();
    process_instruction(&native_program_id, &mut accounts, &init).unwrap();
    let counter = accounts.remove(0);

    let mut accounts = vec![
        counter,
        handle(native_program_id, id(900), false, Vec::new()),
    ];
    let data = CounterInstruction::IncrementCounterSelfCpi.encode();
    let nested = process_instruction(&native_program_id, &mut accounts, &data)
        .expect("self-CPI should succeed")
        .expect("a nested instruction should be issued");
    assert_eq!(nested.program_id, native_program_id);
    assert_eq!(nested.data, vec![1u8]);

    let mut sub_accounts = vec![accounts.remove(0)];
    let result = process(&native_program_id, &mut sub_accounts, &nested.data);
    assert_eq!(result, Ok(None));
    assert_eq!(read_count(&sub_accounts[0]), native_initial + 1);

    // Generated-client variant of the same self-call, on its own counter.
    let codama_initial = 99u64;
    let mut accounts = init_accounts(id(40));
    let init = CounterInstruction::InitializeCounter { initial_value: codama_initial }.encode();
    process_instruction(&native_program_id, &mut accounts, &init).unwrap();
    let counter = accounts.remove(0);

    let mut accounts = vec![
        counter,
        handle(native_program_id, id(900), false, Vec::new()),
    ];
    let data = CounterInstruction::IncrementCounterCodamaClient.encode();
    assert_eq!(data[0], 5, "IncrementCounterCodamaClient should be variant 5");
    let nested = process_instruction(&native_program_id, &mut accounts, &data)
        .expect("client self-CPI should succeed")
        .expect("a nested instruction should be issued");
    let mut sub_accounts = vec![accounts.remove(0)];
    process(&native_program_id, &mut sub_accounts, &nested.data).unwrap();
    assert_eq!(read_count(&sub_accounts[0]), codama_initial + 1);
}

#[test]
fn test_nested_call_scenario() {
    // Initialize counter A to 50.
    let program_id = id(1);
    let mut accounts = init_accounts(id(10));
    let init = CounterInstruction::InitializeCounter { initial_value: 50 }.encode();
    process_instruction(&program_id, &mut accounts, &init).unwrap();
    let counter = accounts.remove(0);

    // The external-increment operation, with the target program identity
    // equal to A's owning program, increments A to 51 once the host runs
    // the returned sub-call.
    let mut accounts = vec![counter, handle(program_id, id(900), false, Vec::new())];
    let data = CounterInstruction::IncrementCounterSelfCpi.encode();
    let nested = process_instruction(&program_id, &mut accounts, &data)
        .unwrap()
        .unwrap();
    let mut sub_accounts = vec![accounts.remove(0)];
    process(&nested.program_id, &mut sub_accounts, &nested.data).unwrap();
    assert_eq!(read_count(&sub_accounts[0]), 51);

    // The same operation with a forged target identity fails with
    // IncorrectProgramId and leaves A's count unchanged.
    let forged = id(666);
    let mut accounts = vec![
        sub_accounts.remove(0),
        handle(forged, id(900), false, Vec::new()),
    ];
    let result = process_instruction(&program_id, &mut accounts, &data);
    assert_eq!(result, Err(CounterError::IncorrectProgramId));
    assert_eq!(read_count(&accounts[0]), 51);
}

#[test]
fn test_initialize_missing_account() {
    let program_id = id(1);
    let mut accounts = vec![
        handle(id(10), id(900), true, Vec::new()),
        handle(id(800), id(900), true, Vec::new()),
    ];
    let data = CounterInstruction::InitializeCounter { initial_value: 3 }.encode();
    let result = process_instruction(&program_id, &mut accounts, &data);
    assert_eq!(result, Err(CounterError::MissingAccount));
    assert!(accounts[0].data.is_empty());
}

#[test]
fn test_increment_missing_account() {
    let program_id = id(1);
    let mut accounts = Vec::new();
    let data = CounterInstruction::IncrementCounter.encode();
    let result = process_instruction(&program_id, &mut accounts, &data);
    assert_eq!(result, Err(CounterError::MissingAccount));
}

#[test]
fn test_increment_wrong_owner() {
    let program_id = id(1);
    let stranger = id(2);
    let record = CounterAccount { count: 5 };
    let mut accounts = vec![handle(id(10), stranger, false, record.to_bytes())];
    let data = CounterInstruction::IncrementCounter.encode();
    let result = process_instruction(&program_id, &mut accounts, &data);
    assert_eq!(result, Err(CounterError::IncorrectOwner));
    assert_eq!(read_count(&accounts[0]), 5, "no storage write may survive");
}

#[test]
fn test_increment_overflow() {
    let program_id = id(1);
    let record = CounterAccount { count: u64::MAX };
    let mut accounts = vec![handle(id(10), program_id, false, record.to_bytes())];
    let data = CounterInstruction::IncrementCounter.encode();
    let result = process_instruction(&program_id, &mut accounts, &data);
    assert_eq!(result, Err(CounterError::CounterOverflow));
    // Re-read: the stored count is unchanged.
    assert_eq!(read_count(&accounts[0]), u64::MAX);
}

#[test]
fn test_increment_malformed_record() {
    let program_id = id(1);
    let mut accounts = vec![handle(id(10), program_id, false, vec![1, 2, 3])];
    let data = CounterInstruction::IncrementCounter.encode();
    let result = process_instruction(&program_id, &mut accounts, &data);
    assert_eq!(result, Err(CounterError::InvalidInstructionData));
    assert_eq!(accounts[0].data, vec![1, 2, 3]);
}

#[test]
fn test_increment_keeps_trailing_storage() {
    // A write goes back to the same storage region, same size: bytes past
    // the record survive an increment untouched.
    let program_id = id(1);
    let mut data_bytes = CounterAccount { count: 41 }.to_bytes();
    data_bytes.extend_from_slice(&[9, 8, 7]);
    let mut accounts = vec![handle(id(10), program_id, false, data_bytes)];
    let data = CounterInstruction::IncrementCounter.encode();
    let result = process_instruction(&program_id, &mut accounts, &data);
    assert_eq!(result, Ok(None));
    assert_eq!(read_count(&accounts[0]), 42);
    assert_eq!(accounts[0].data.len(), 11);
    assert_eq!(&accounts[0].data[8..], &[9, 8, 7]);
}

#[test]
fn test_process_rejects_undecodable_bytes() {
    let program_id = id(1);
    let record = CounterAccount { count: 5 };
    let mut accounts = vec![handle(id(10), program_id, false, record.to_bytes())];
    let result = process_instruction(&program_id, &mut accounts, &Vec::new());
    assert_eq!(result, Err(CounterError::InvalidInstructionData));
    let result = process_instruction(&program_id, &mut accounts, &vec![9u8]);
    assert_eq!(result, Err(CounterError::InvalidInstructionData));
    assert_eq!(read_count(&accounts[0]), 5);
}

#[test]
fn test_authority_record_operations() {
    let authority = id(20);
    let mut record = initialize_counter(7, authority);
    assert_eq!(record.count, 7);
    assert_eq!(record.authority, authority);

    // Increment changes the count and nothing else.
    assert_eq!(increment_counter(&mut record), Ok(()));
    assert_eq!(record.count, 8);
    assert_eq!(record.authority, authority);

    // At the maximum the record is left exactly as it was.
    let mut full = initialize_counter(u64::MAX, authority);
    assert_eq!(
        increment_counter(&mut full),
        Err(CounterError::CounterOverflow)
    );
    assert_eq!(full.count, u64::MAX);
    assert_eq!(full.authority, authority);
}

#[test]
fn test_increment_native_counter_builder() {
    let counter = handle(id(10), id(1), false, Vec::new());
    let program = handle(id(1), id(900), false, Vec::new());
    let nested = increment_native_counter(&counter, &program);
    assert_eq!(nested.program_id, program.key);
    assert_eq!(nested.data, vec![1u8]);
    assert_eq!(nested.accounts.len(), 1);
    assert_eq!(nested.accounts[0].key, counter.key);
    assert!(nested.accounts[0].is_writable);
    assert!(!nested.accounts[0].is_signer);
}
