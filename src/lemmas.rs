use vstd::prelude::*;

use crate::address::program_address_of;
use crate::counter::{counter_value, le_bytes, lemma_counter_round_trip};
use crate::processor::{
    creation_outcome, instruction_of, process_spec, stored_count, validation, Account, Action,
    CounterError, CounterInstruction,
};

verus! {

/// A call whose owner account is not flagged as a signer fails with
/// `MissingRequiredSignature` and changes no account, whichever transition it
/// asks for and whatever the second account is.
pub proof fn lemma_unsigned_owner_rejected(
    program: Seq<u8>,
    before: Seq<Account>,
    data: Seq<u8>,
    r: Result<Action, CounterError>,
    after: Seq<Account>,
)
    requires
        process_spec(program, before, data, r, after),
        instruction_of(data) is Ok,
        before.len() >= 2,
        !before[0].is_signer,
    ensures
        r == Err::<Action, CounterError>(CounterError::MissingRequiredSignature),
        after == before,
{
}

/// A call from a signing owner whose second account is not at the address
/// derived from the owner fails with `InvalidDerivedAddress`, creates nothing
/// and changes no account.
pub proof fn lemma_foreign_address_rejected(
    program: Seq<u8>,
    before: Seq<Account>,
    data: Seq<u8>,
    r: Result<Action, CounterError>,
    after: Seq<Account>,
)
    requires
        process_spec(program, before, data, r, after),
        instruction_of(data) is Ok,
        before.len() >= 2,
        before[0].is_signer,
        !(program_address_of(before[0].key@, program) matches Some((a, _)) && a
            == before[1].key@),
    ensures
        r == Err::<Action, CounterError>(CounterError::InvalidDerivedAddress),
        after == before,
{
}

/// A create call changes no account: whatever the derived account held
/// stays, and when the host cannot create the account (it exists already)
/// the call fails with `AccountCreationFailed`.
pub proof fn lemma_create_leaves_accounts(
    program: Seq<u8>,
    before: Seq<Account>,
    data: Seq<u8>,
    r: Result<Action, CounterError>,
    after: Seq<Account>,
)
    requires
        process_spec(program, before, data, r, after),
        instruction_of(data) == Ok::<CounterInstruction, CounterError>(CounterInstruction::Create),
    ensures
        after == before,
        r is Ok ==> r->Ok_0 is CreateAccount,
        creation_outcome(false) == Err::<(), CounterError>(CounterError::AccountCreationFailed),
{
}

/// One accepted increment on an account that the program owns adds exactly
/// one to its counter, writes its eight-byte encoding, and keeps the accounts
/// valid for the next call.
pub proof fn lemma_increment_adds_one(
    program: Seq<u8>,
    before: Seq<Account>,
    data: Seq<u8>,
    r: Result<Action, CounterError>,
    after: Seq<Account>,
)
    requires
        process_spec(program, before, data, r, after),
        instruction_of(data) == Ok::<CounterInstruction, CounterError>(
            CounterInstruction::Increment,
        ),
        validation(program, before) is Ok,
        before[1].owner@ == program,
        stored_count(program, before[1]) < u64::MAX,
    ensures
        r == Ok::<Action, CounterError>(Action::Done),
        stored_count(program, after[1]) == stored_count(program, before[1]) + 1,
        after[1].data@ == le_bytes(stored_count(program, after[1])),
        after[1].owner == before[1].owner,
        validation(program, after) == validation(program, before),
{
    let next = (stored_count(program, before[1]) + 1) as u64;
    lemma_counter_round_trip(next);
    assert(after[0] == before[0]);
}

/// From an uninitialized derived account (empty, or data that does not read
/// as a counter), one increment stores the value one.
pub proof fn lemma_first_increment_stores_one(
    program: Seq<u8>,
    before: Seq<Account>,
    data: Seq<u8>,
    r: Result<Action, CounterError>,
    after: Seq<Account>,
)
    requires
        process_spec(program, before, data, r, after),
        instruction_of(data) == Ok::<CounterInstruction, CounterError>(
            CounterInstruction::Increment,
        ),
        validation(program, before) is Ok,
        before[1].owner@ == program,
        before[1].data@.len() != 8,
    ensures
        r == Ok::<Action, CounterError>(Action::Done),
        counter_value(after[1].data@) == 1,
        after[1].data@ == le_bytes(1),
{
    lemma_increment_adds_one(program, before, data, r, after);
}

/// `n` increments in a row, from a derived account that the program owns and
/// whose counter reads as zero, all succeed and leave the counter at `n`; after
/// the `i`-th the data is the encoding of `i`, which reads back as `i`.
pub proof fn lemma_increments_count(
    program: Seq<u8>,
    states: Seq<Seq<Account>>,
    results: Seq<Result<Action, CounterError>>,
    data: Seq<u8>,
    n: nat,
)
    requires
        states.len() == n + 1,
        results.len() == n,
        n <= u64::MAX,
        instruction_of(data) == Ok::<CounterInstruction, CounterError>(
            CounterInstruction::Increment,
        ),
        validation(program, states[0]) is Ok,
        states[0][1].owner@ == program,
        counter_value(states[0][1].data@) == 0,
        forall|i: int|
            0 <= i < n ==> #[trigger] process_spec(
                program,
                states[i],
                data,
                results[i],
                states[i + 1],
            ),
    ensures
        forall|i: int| 0 <= i < n ==> #[trigger] results[i] == Ok::<Action, CounterError>(Action::Done),
        forall|i: int|
            0 <= i <= n ==> counter_value(#[trigger] states[i][1].data@) == i && stored_count(
                program,
                states[i][1],
            ) == i,
        forall|i: int| 1 <= i <= n ==> #[trigger] states[i][1].data@ == le_bytes(i as u64),
        validation(program, states[n as int]) == validation(program, states[0]),
        states[n as int][1].owner@ == program,
    decreases n,
{
    if n > 0 {
        let m = (n - 1) as nat;
        lemma_increments_count(program, states.take(n as int), results.take(m as int), data, m);
        assert(process_spec(program, states[m as int], data, results[m as int], states[n as int]));
        lemma_increment_adds_one(program, states[m as int], data, results[m as int], states[n as int]);
        assert forall|i: int| 0 <= i < n implies #[trigger] results[i] == Ok::<Action, CounterError>(
            Action::Done,
        ) by {
            if i < m {
                assert(states.take(n as int)[i] == states[i]);
                assert(results.take(m as int)[i] == results[i]);
            }
        }
        assert forall|i: int| 0 <= i <= n implies counter_value(#[trigger] states[i][1].data@)
            == i && stored_count(program, states[i][1]) == i by {
            if i <= m {
                assert(states.take(n as int)[i] == states[i]);
            }
        }
        assert forall|i: int| 1 <= i <= n implies #[trigger] states[i][1].data@ == le_bytes(
            i as u64,
        ) by {
            if i <= m {
                assert(states.take(n as int)[i] == states[i]);
            }
        }
    }
}

/// An increment when the counter is at `u64::MAX` fails with
/// `CounterOverflow` and leaves every account, the counter's buffer included,
/// as it was.
pub proof fn lemma_overflow_leaves_buffer(
    program: Seq<u8>,
    before: Seq<Account>,
    data: Seq<u8>,
    r: Result<Action, CounterError>,
    after: Seq<Account>,
)
    requires
        process_spec(program, before, data, r, after),
        instruction_of(data) == Ok::<CounterInstruction, CounterError>(
            CounterInstruction::Increment,
        ),
        validation(program, before) is Ok,
        stored_count(program, before[1]) == u64::MAX,
    ensures
        r == Err::<Action, CounterError>(CounterError::CounterOverflow),
        after == before,
        after[1].data@ == before[1].data@,
{
}

} // verus!
