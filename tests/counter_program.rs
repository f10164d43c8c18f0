use pda_counter::address::{derive_address, same_address, Address};
use pda_counter::counter::Count;
use pda_counter::processor::{
    create_pda_account, creation_result, decode_instruction, increment_counter,
    process_instruction, validate_accounts, Account, Action, CounterError, CounterInstruction,
    COUNTER_SPACE,
};
use solana_program::pubkey::Pubkey;

fn addr(fill: u8) -> Address {
    Address { bytes: [fill; 32] }
}

fn program() -> Address {
    addr(7)
}

fn owner() -> Address {
    addr(42)
}

fn derived_of(owner: &Address, program: &Address) -> Address {
    derive_address(owner, program).expect("derivation").address
}

fn accounts_for(signer: bool, derived_key: Address, derived_owner: Address, data: Vec<u8>) -> Vec<Account> {
    vec![
        Account { key: owner(), is_signer: signer, owner: addr(0), data: Vec::new() },
        Account { key: derived_key, is_signer: false, owner: derived_owner, data },
    ]
}

fn valid_accounts(data: Vec<u8>) -> Vec<Account> {
    accounts_for(true, derived_of(&owner(), &program()), program(), data)
}

/// What the host does with a create request: a fresh account of the
/// requested size, owned by the requested program, or a refusal when the
/// account holds data already.
fn host_create(accounts: &mut Vec<Account>, action: Action) -> Result<(), CounterError> {
    match action {
        Action::CreateAccount(req) => {
            let target = &mut accounts[1];
            assert!(same_address(&target.key, &req.new_account));
            let created = target.data.is_empty();
            if created {
                target.data = vec![0u8; req.space as usize];
                target.owner = req.owner;
            }
            creation_result(created)
        }
        Action::Done => panic!("expected a create request"),
    }
}

#[test]
fn decode_recognises_opcodes() {
    assert_eq!(decode_instruction(&[0]), Ok(CounterInstruction::Create));
    assert_eq!(decode_instruction(&[1, 9, 9]), Ok(CounterInstruction::Increment));
    assert_eq!(decode_instruction(&[]), Err(CounterError::InvalidInstruction));
    assert_eq!(decode_instruction(&[2]), Err(CounterError::InvalidInstruction));
    assert_eq!(decode_instruction(&[255]), Err(CounterError::InvalidInstruction));
}

#[test]
fn count_reads_eight_little_endian_bytes() {
    assert_eq!(Count::from_data(&[5, 0, 0, 0, 0, 0, 0, 0]), Count(5));
    assert_eq!(Count::from_data(&[1, 2, 3, 4, 5, 6, 7, 8]), Count(0x0807060504030201));
    assert_eq!(Count::from_data(&[]), Count(0));
    assert_eq!(Count::from_data(&[5, 0, 0]), Count(0));
    assert_eq!(Count::from_data(&[5, 0, 0, 0, 0, 0, 0, 0, 0]), Count(0));
}

#[test]
fn count_writes_eight_little_endian_bytes() {
    assert_eq!(Count(0).to_bytes(), vec![0u8; 8]);
    assert_eq!(Count(0x0807060504030201).to_bytes(), vec![1, 2, 3, 4, 5, 6, 7, 8]);
    assert_eq!(Count(u64::MAX).to_bytes(), vec![255u8; 8]);
    for v in [0u64, 1, 255, 256, 1 << 40, u64::MAX] {
        assert_eq!(Count::from_data(&Count(v).to_bytes()), Count(v));
    }
}

#[test]
fn count_increment_stops_at_max() {
    assert_eq!(Count(41).incremented(), Some(Count(42)));
    assert_eq!(Count(u64::MAX).incremented(), None);
}

#[test]
fn derivation_is_deterministic_and_off_curve() {
    let first = derive_address(&owner(), &program()).expect("derivation");
    let second = derive_address(&owner(), &program()).expect("derivation");
    assert_eq!(first, second);
    let key = Pubkey::new_from_array(first.address.bytes);
    assert!(!key.is_on_curve());
    let (expected, bump) =
        Pubkey::find_program_address(&[&owner().bytes[..]], &Pubkey::new_from_array(program().bytes));
    assert_eq!(first.address.bytes, expected.to_bytes());
    assert_eq!(first.bump, bump);
    assert_ne!(first.address, owner());
    assert_ne!(first.address, program());
}

#[test]
fn derivation_depends_on_owner_and_program() {
    let a = derive_address(&owner(), &program()).expect("derivation");
    let b = derive_address(&addr(43), &program()).expect("derivation");
    let c = derive_address(&owner(), &addr(8)).expect("derivation");
    assert_ne!(a.address, b.address);
    assert_ne!(a.address, c.address);
}

#[test]
fn same_address_compares_bytes() {
    let mut other = owner();
    assert!(same_address(&owner(), &other));
    other.bytes[31] = 0;
    assert!(!same_address(&owner(), &other));
}

#[test]
fn too_few_accounts_is_missing_account() {
    let mut accounts = valid_accounts(Vec::new());
    accounts.truncate(1);
    assert_eq!(process_instruction(&program(), &mut accounts, &[0]), Err(CounterError::MissingAccount));
    assert_eq!(process_instruction(&program(), &mut accounts, &[1]), Err(CounterError::MissingAccount));
    let mut none: Vec<Account> = Vec::new();
    assert_eq!(process_instruction(&program(), &mut none, &[1]), Err(CounterError::MissingAccount));
}

#[test]
fn bad_opcode_is_invalid_instruction() {
    let mut accounts = valid_accounts(vec![3, 0, 0, 0, 0, 0, 0, 0]);
    let before = accounts.clone();
    assert_eq!(process_instruction(&program(), &mut accounts, &[]), Err(CounterError::InvalidInstruction));
    assert_eq!(process_instruction(&program(), &mut accounts, &[9]), Err(CounterError::InvalidInstruction));
    assert_eq!(accounts, before);
}

#[test]
fn unsigned_owner_is_rejected() {
    let derived = derived_of(&owner(), &program());
    for key in [derived, addr(3)] {
        for opcode in [0u8, 1] {
            let mut accounts = accounts_for(false, key, program(), vec![4, 0, 0, 0, 0, 0, 0, 0]);
            let before = accounts.clone();
            assert_eq!(
                process_instruction(&program(), &mut accounts, &[opcode]),
                Err(CounterError::MissingRequiredSignature)
            );
            assert_eq!(accounts, before);
        }
    }
}

#[test]
fn foreign_derived_address_is_rejected() {
    let wrong = [addr(3), derived_of(&addr(43), &program()), derived_of(&owner(), &addr(8))];
    for key in wrong {
        for opcode in [0u8, 1] {
            let mut accounts = accounts_for(true, key, program(), vec![4, 0, 0, 0, 0, 0, 0, 0]);
            let before = accounts.clone();
            assert_eq!(
                process_instruction(&program(), &mut accounts, &[opcode]),
                Err(CounterError::InvalidDerivedAddress)
            );
            assert_eq!(accounts, before);
        }
    }
}

#[test]
fn validation_returns_the_derivation() {
    let accounts = valid_accounts(Vec::new());
    let d = validate_accounts(&program(), &accounts).expect("valid");
    assert_eq!(d, derive_address(&owner(), &program()).expect("derivation"));
}

#[test]
fn create_requests_an_eight_byte_program_account() {
    let accounts = valid_accounts(Vec::new());
    let d = derive_address(&owner(), &program()).expect("derivation");
    let req = create_pda_account(&program(), &accounts).expect("request");
    assert_eq!(req.funder, owner());
    assert_eq!(req.new_account, d.address);
    assert_eq!(req.space, 8);
    assert_eq!(req.space, COUNTER_SPACE);
    assert_eq!(req.owner, program());
    assert_eq!(req.seed, owner());
    assert_eq!(req.bump, d.bump);
}

#[test]
fn creation_result_reports_failure() {
    assert_eq!(creation_result(true), Ok(()));
    assert_eq!(creation_result(false), Err(CounterError::AccountCreationFailed));
}

#[test]
fn second_create_fails_and_keeps_data() {
    let mut accounts = valid_accounts(Vec::new());
    let action = process_instruction(&program(), &mut accounts, &[0]).expect("first create");
    assert_eq!(host_create(&mut accounts, action), Ok(()));
    assert_eq!(accounts[1].data, vec![0u8; 8]);
    let after_first = accounts.clone();
    let action = process_instruction(&program(), &mut accounts, &[0]).expect("second request");
    assert_eq!(accounts, after_first);
    assert_eq!(host_create(&mut accounts, action), Err(CounterError::AccountCreationFailed));
    assert_eq!(accounts, after_first);
}

#[test]
fn first_increment_from_empty_stores_one() {
    let mut accounts = valid_accounts(Vec::new());
    assert_eq!(process_instruction(&program(), &mut accounts, &[1]), Ok(Action::Done));
    assert_eq!(accounts[1].data, vec![1, 0, 0, 0, 0, 0, 0, 0]);
    assert_eq!(Count::from_data(&accounts[1].data), Count(1));
}

#[test]
fn first_increment_from_unparseable_stores_one() {
    let mut accounts = valid_accounts(vec![9, 9, 9]);
    assert_eq!(increment_counter(&program(), &mut accounts), Ok(()));
    assert_eq!(accounts[1].data, vec![1, 0, 0, 0, 0, 0, 0, 0]);
}

#[test]
fn n_increments_store_n() {
    let mut accounts = valid_accounts(Vec::new());
    for n in 1u64..=20 {
        assert_eq!(process_instruction(&program(), &mut accounts, &[1]), Ok(Action::Done));
        assert_eq!(accounts[1].data, Count(n).to_bytes());
        assert_eq!(Count::from_data(&accounts[1].data), Count(n));
    }
    assert_eq!(accounts[0], valid_accounts(Vec::new())[0]);
}

#[test]
fn increment_at_max_overflows_and_keeps_buffer() {
    let mut accounts = valid_accounts(vec![255u8; 8]);
    let before = accounts.clone();
    assert_eq!(process_instruction(&program(), &mut accounts, &[1]), Err(CounterError::CounterOverflow));
    assert_eq!(accounts, before);
    assert_eq!(Count::from_data(&accounts[1].data), Count(u64::MAX));
}

#[test]
fn increment_below_max_reaches_max() {
    let mut accounts = valid_accounts(Count(u64::MAX - 1).to_bytes());
    assert_eq!(process_instruction(&program(), &mut accounts, &[1]), Ok(Action::Done));
    assert_eq!(accounts[1].data, vec![255u8; 8]);
}

#[test]
fn foreign_owned_data_counts_as_zero() {
    let derived = derived_of(&owner(), &program());
    let mut accounts = accounts_for(true, derived, addr(9), vec![4, 0, 0, 0, 0, 0, 0, 0]);
    assert_eq!(process_instruction(&program(), &mut accounts, &[1]), Ok(Action::Done));
    assert_eq!(accounts[1].data, vec![1, 0, 0, 0, 0, 0, 0, 0]);
}

#[test]
fn extra_accounts_are_left_alone() {
    let mut accounts = valid_accounts(Vec::new());
    accounts.push(Account { key: addr(5), is_signer: true, owner: program(), data: vec![1, 2] });
    assert_eq!(process_instruction(&program(), &mut accounts, &[1]), Ok(Action::Done));
    assert_eq!(accounts[2].data, vec![1, 2]);
    assert_eq!(accounts[1].data, vec![1, 0, 0, 0, 0, 0, 0, 0]);
}

#[test]
fn create_then_three_increments() {
    let u = owner();
    let p = program();
    let derived = derived_of(&u, &p);
    let mut accounts = vec![
        Account { key: u, is_signer: true, owner: addr(0), data: Vec::new() },
        Account { key: derived, is_signer: false, owner: addr(0), data: Vec::new() },
    ];
    let action = process_instruction(&p, &mut accounts, &[0]).expect("create");
    assert_eq!(host_create(&mut accounts, action), Ok(()));
    assert_eq!(accounts[1].data, vec![0u8; 8]);
    for _ in 0..3 {
        assert_eq!(process_instruction(&p, &mut accounts, &[1]), Ok(Action::Done));
    }
    assert_eq!(Count::from_data(&accounts[1].data), Count(3));
    assert_eq!(accounts[1].data, vec![3, 0, 0, 0, 0, 0, 0, 0]);
}
