use vstd::prelude::*;

use crate::address::{derive_address, program_address_of, same_address, Address, Derived};
use crate::counter::{counter_value, le_bytes, Count};

verus! {

/// First instruction byte that asks for the derived account to be created.
pub const CREATE_OPCODE: u8 = 0;

/// First instruction byte that asks for the counter to be incremented.
pub const INCREMENT_OPCODE: u8 = 1;

/// Size in bytes of a derived account's data: one little-endian `u64`.
pub const COUNTER_SPACE: u64 = 8;

/// Why an instruction was refused.
#[derive(Clone, Copy, Debug, PartialEq, Eq, Structural)]
pub enum CounterError {
    /// The instruction is empty or its first byte is no known opcode.
    InvalidInstruction,
    /// Fewer than two accounts were supplied.
    MissingAccount,
    /// The owner account is not flagged as a signer.
    MissingRequiredSignature,
    /// The second account is not the one derived from the owner.
    InvalidDerivedAddress,
    /// The host could not create the derived account.
    AccountCreationFailed,
    /// The counter is already at `u64::MAX`.
    CounterOverflow,
}

/// The transitions that an instruction can ask for.
#[derive(Clone, Copy, Debug, PartialEq, Eq, Structural)]
pub enum CounterInstruction {
    Create,
    Increment,
}

/// The transition that instruction bytes select, by their first byte.
pub open spec fn instruction_of(data: Seq<u8>) -> Result<CounterInstruction, CounterError> {
    if data.len() == 0 {
        Err(CounterError::InvalidInstruction)
    } else if data[0] == CREATE_OPCODE {
        Ok(CounterInstruction::Create)
    } else if data[0] == INCREMENT_OPCODE {
        Ok(CounterInstruction::Increment)
    } else {
        Err(CounterError::InvalidInstruction)
    }
}

/// Reads the opcode that leads the instruction bytes.
pub fn decode_instruction(data: &[u8]) -> (r: Result<CounterInstruction, CounterError>)
    ensures
        r == instruction_of(data@),
{
    if data.len() == 0 {
        Err(CounterError::InvalidInstruction)
    } else if data[0] == CREATE_OPCODE {
        Ok(CounterInstruction::Create)
    } else if data[0] == INCREMENT_OPCODE {
        Ok(CounterInstruction::Increment)
    } else {
        Err(CounterError::InvalidInstruction)
    }
}

/// An account as the host hands it over for one call.
#[derive(Clone, Debug, PartialEq, Eq)]
pub struct Account {
    pub key: Address,
    pub is_signer: bool,
    pub owner: Address,
    pub data: Vec<u8>,
}

/// The checks common to both transitions, on `[owner, derived, ..]`: with
/// enough accounts and a signing owner, the derived address and bump seed
/// when the second account sits at the owner's derived address.
pub open spec fn validation(program: Seq<u8>, accounts: Seq<Account>) -> Result<
    (Seq<u8>, u8),
    CounterError,
> {
    if accounts.len() < 2 {
        Err(CounterError::MissingAccount)
    } else if !accounts[0].is_signer {
        Err(CounterError::MissingRequiredSignature)
    } else {
        match program_address_of(accounts[0].key@, program) {
            Some((a, b)) => if accounts[1].key@ == a {
                Ok((a, b))
            } else {
                Err(CounterError::InvalidDerivedAddress)
            },
            None => Err(CounterError::InvalidDerivedAddress),
        }
    }
}

/// Runs the checks common to both transitions and returns the derivation
/// that the second account matched.
pub fn validate_accounts(program_id: &Address, accounts: &Vec<Account>) -> (r: Result<
    Derived,
    CounterError,
>)
    ensures
        match validation(program_id@, accounts@) {
            Ok((a, b)) => r matches Ok(d) && d.address@ == a && d.bump == b,
            Err(e) => r == Err::<Derived, CounterError>(e),
        },
{
    if accounts.len() < 2 {
        return Err(CounterError::MissingAccount);
    }
    let owner = &accounts[0];
    let derived = &accounts[1];
    if !owner.is_signer {
        return Err(CounterError::MissingRequiredSignature);
    }
    match derive_address(&owner.key, program_id) {
        Some(d) => {
            if same_address(&derived.key, &d.address) {
                Ok(d)
            } else {
                Err(CounterError::InvalidDerivedAddress)
            }
        },
        None => Err(CounterError::InvalidDerivedAddress),
    }
}

/// What the host must do to create the derived account: a system
/// create-account instruction funded by `funder` for `new_account`, with
/// `space` bytes owned by `owner`, signed for with the seed and bump seed.
#[derive(Clone, Copy, Debug, PartialEq, Eq)]
pub struct CreateRequest {
    pub funder: Address,
    pub new_account: Address,
    pub space: u64,
    pub owner: Address,
    pub seed: Address,
    pub bump: u8,
}

/// `req` creates the account that `validation` accepted, funded by the
/// owner, owned by the program, and signed for with the owner's identity.
pub open spec fn create_request_for(program: Seq<u8>, accounts: Seq<Account>, req: CreateRequest) -> bool {
    match validation(program, accounts) {
        Ok((a, b)) => {
            &&& req.funder@ == accounts[0].key@
            &&& req.new_account@ == a
            &&& req.space == COUNTER_SPACE
            &&& req.owner@ == program
            &&& req.seed@ == accounts[0].key@
            &&& req.bump == b
        },
        Err(_) => false,
    }
}

/// Validates the accounts and builds the request that creates the derived
/// account; no account is changed.
pub fn create_pda_account(program_id: &Address, accounts: &Vec<Account>) -> (r: Result<
    CreateRequest,
    CounterError,
>)
    ensures
        match r {
            Ok(req) => create_request_for(program_id@, accounts@, req),
            Err(e) => validation(program_id@, accounts@) == Err::<(Seq<u8>, u8), CounterError>(e),
        },
{
    match validate_accounts(program_id, accounts) {
        Ok(d) => Ok(
            CreateRequest {
                funder: accounts[0].key,
                new_account: d.address,
                space: COUNTER_SPACE,
                owner: *program_id,
                seed: accounts[0].key,
                bump: d.bump,
            },
        ),
        Err(e) => Err(e),
    }
}

/// The outcome of a create call once the host has run the create-account
/// invocation: success exactly when the account was created.
pub open spec fn creation_outcome(created: bool) -> Result<(), CounterError> {
    if created {
        Ok(())
    } else {
        Err(CounterError::AccountCreationFailed)
    }
}

/// Maps what the host reports of the create-account invocation to the
/// outcome of the call.
pub fn creation_result(created: bool) -> (r: Result<(), CounterError>)
    ensures
        r == creation_outcome(created),
{
    if created {
        Ok(())
    } else {
        Err(CounterError::AccountCreationFailed)
    }
}

/// The counter that the program trusts in an account: its data read as a
/// counter when the program owns it, and zero otherwise.
pub open spec fn stored_count(program: Seq<u8>, account: Account) -> u64 {
    if account.owner@ == program {
        counter_value(account.data@)
    } else {
        0
    }
}

/// `after` is `before` with the data of account `i` replaced by `data`.
pub open spec fn data_replaced(before: Seq<Account>, after: Seq<Account>, i: int, data: Seq<u8>) -> bool {
    &&& 0 <= i < before.len()
    &&& after.len() == before.len()
    &&& forall|j: int| 0 <= j < before.len() && j != i ==> after[j] == before[j]
    &&& after[i].key == before[i].key
    &&& after[i].is_signer == before[i].is_signer
    &&& after[i].owner == before[i].owner
    &&& after[i].data@ == data
}

/// The increment transition from accounts `before` to `after` with result `r`.
pub open spec fn increment_spec(
    program: Seq<u8>,
    before: Seq<Account>,
    r: Result<(), CounterError>,
    after: Seq<Account>,
) -> bool {
    match validation(program, before) {
        Err(e) => r == Err::<(), CounterError>(e) && after == before,
        Ok(_) => {
            let current = stored_count(program, before[1]);
            if current == u64::MAX {
                r == Err::<(), CounterError>(CounterError::CounterOverflow) && after == before
            } else {
                r is Ok && data_replaced(before, after, 1, le_bytes((current + 1) as u64))
            }
        },
    }
}

/// Validates the accounts, then writes the derived account's counter plus
/// one over its whole data.
pub fn increment_counter(program_id: &Address, accounts: &mut Vec<Account>) -> (r: Result<
    (),
    CounterError,
>)
    ensures
        increment_spec(program_id@, old(accounts)@, r, final(accounts)@),
{
    match validate_accounts(program_id, accounts) {
        Ok(_) => {},
        Err(e) => return Err(e),
    }
    let current = if same_address(&accounts[1].owner, program_id) {
        Count::from_data(accounts[1].data.as_slice())
    } else {
        Count(0)
    };
    match current.incremented() {
        Some(next) => {
            accounts[1].data = next.to_bytes();
            Ok(())
        },
        None => Err(CounterError::CounterOverflow),
    }
}

/// What the host does after a successful call.
#[derive(Clone, Copy, Debug, PartialEq, Eq)]
pub enum Action {
    /// Nothing more: the accounts passed in hold the new state.
    Done,
    /// Invoke the create-account instruction that the request describes.
    CreateAccount(CreateRequest),
}

/// One call of the handler, from accounts `before` and instruction bytes
/// `data` to result `r` and accounts `after`.
pub open spec fn process_spec(
    program: Seq<u8>,
    before: Seq<Account>,
    data: Seq<u8>,
    r: Result<Action, CounterError>,
    after: Seq<Account>,
) -> bool {
    match instruction_of(data) {
        Err(e) => r == Err::<Action, CounterError>(e) && after == before,
        Ok(CounterInstruction::Create) => after == before && match r {
            Ok(Action::CreateAccount(req)) => create_request_for(program, before, req),
            Ok(Action::Done) => false,
            Err(e) => validation(program, before) == Err::<(Seq<u8>, u8), CounterError>(e),
        },
        Ok(CounterInstruction::Increment) => match r {
            Ok(Action::Done) => increment_spec(program, before, Ok(()), after),
            Ok(Action::CreateAccount(_)) => false,
            Err(e) => increment_spec(program, before, Err(e), after),
        },
    }
}

/// Dispatches on the opcode and applies the selected transition.
pub fn process_instruction(
    program_id: &Address,
    accounts: &mut Vec<Account>,
    instruction_data: &[u8],
) -> (r: Result<Action, CounterError>)
    ensures
        process_spec(program_id@, old(accounts)@, instruction_data@, r, final(accounts)@),
{
    match decode_instruction(instruction_data) {
        Ok(CounterInstruction::Create) => match create_pda_account(program_id, accounts) {
            Ok(req) => Ok(Action::CreateAccount(req)),
            Err(e) => Err(e),
        },
        Ok(CounterInstruction::Increment) => match increment_counter(program_id, accounts) {
            Ok(()) => Ok(Action::Done),
            Err(e) => Err(e),
        },
        Err(e) => Err(e),
    }
}

} // verus!
