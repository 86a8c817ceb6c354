use vstd::prelude::*;

use vstd::bytes::lemma_auto_spec_u64_to_from_le_bytes;
use vstd::bytes::spec_u64_to_le_bytes;

use crate::errors::CounterError;
use crate::instructions::lemma_encode_decode_round_trip;
use crate::instructions::CounterInstruction;
use crate::instructions::InstructionAccount;
use crate::instructions::NestedInstruction;
use crate::state::lemma_counter_account_round_trip;
use crate::state::AccountHandle;
use crate::state::CounterAccount;
use crate::state::Identity;

verus! {

/// Two account handles agree in every observable part: identity, owner,
/// signer flag, and stored bytes.
pub open spec fn account_eq(x: AccountHandle, y: AccountHandle) -> bool {
    &&& x.key == y.key
    &&& x.owner == y.owner
    &&& x.is_signer == y.is_signer
    &&& x.data@ == y.data@
}

/// A call left every supplied account exactly as it found it: no storage
/// write and no metadata change survives.
pub open spec fn accounts_unchanged(pre: Seq<AccountHandle>, post: Seq<AccountHandle>) -> bool {
    &&& post.len() == pre.len()
    &&& forall|i: int| 0 <= i < pre.len() ==> account_eq(pre[i], post[i])
}

/// A call rewrote exactly the account at position `i`: that account keeps
/// its identity and signer flag but carries the given owner and stored
/// bytes, and every other account is exactly as it was.
pub open spec fn accounts_updated_at(
    pre: Seq<AccountHandle>,
    post: Seq<AccountHandle>,
    i: int,
    owner: Identity,
    data: Seq<u8>,
) -> bool {
    &&& post.len() == pre.len()
    &&& post[i].key == pre[i].key
    &&& post[i].is_signer == pre[i].is_signer
    &&& post[i].owner == owner
    &&& post[i].data@ == data
    &&& forall|j: int| 0 <= j < pre.len() && j != i ==> account_eq(pre[j], post[j])
}

/// Initializes the primary account's counter record.
///
/// The handler receives, in fixed positional order, the account to become
/// the counter, the payer, and the host's allocation program. With fewer
/// than those three accounts it fails with
/// [`CounterError::MissingAccount`] and touches nothing. Otherwise the host
/// is asked to allocate exactly 8 bytes of backing storage for the primary
/// account, owned by this program and rent-funded by the payer — that the
/// account was not already owned, and that the payer signed, is enforced by
/// the host inside that allocation — and the encoded record with the given
/// starting count is written into the fresh storage.
pub fn process_initialize_counter(
    program_id: &Identity,
    accounts: &mut Vec<AccountHandle>,
    initial_value: u64,
) -> (r: Result<(), CounterError>)
    ensures
        old(accounts)@.len() < 3 ==> {
            &&& r == Err::<(), CounterError>(CounterError::MissingAccount)
            &&& accounts_unchanged(old(accounts)@, final(accounts)@)
        },
        old(accounts)@.len() >= 3 ==> {
            &&& r == Ok::<(), CounterError>(())
            &&& accounts_updated_at(
                old(accounts)@,
                final(accounts)@,
                0,
                *program_id,
                spec_u64_to_le_bytes(initial_value),
            )
        },
{
    if accounts.len() < 3 {
        return Err(CounterError::MissingAccount);
    }
    let mut counter_account = accounts.remove(0);
    counter_account.owner = *program_id;
    let record = CounterAccount { count: initial_value };
    counter_account.data = record.to_bytes();
    accounts.insert(0, counter_account);
    Ok(())
}

/// What incrementing the primary account comes to, before any write: either
/// the error the handler must return, or the bytes its storage must hold
/// afterwards — the incremented record over the first 8 bytes, every byte
/// beyond the record untouched, so the write keeps the region and its size.
pub open spec fn spec_increment_outcome(program_id: Identity, pre: Seq<AccountHandle>) -> Result<
    Seq<u8>,
    CounterError,
> {
    if pre.len() < 1 {
        Err(CounterError::MissingAccount)
    } else if pre[0].owner != program_id {
        Err(CounterError::IncorrectOwner)
    } else {
        match CounterAccount::spec_from_bytes(pre[0].data@) {
            Err(e) => Err(e),
            Ok(record) => if record.count == u64::MAX {
                Err(CounterError::CounterOverflow)
            } else {
                Ok(
                    spec_u64_to_le_bytes((record.count + 1) as u64) + pre[0].data@.skip(8),
                )
            },
        }
    }
}

/// Adds one to the counter record in the primary account.
///
/// The primary account must be owned by this program; a violation fails
/// with [`CounterError::IncorrectOwner`]. The stored record is read, the
/// count incremented with checked arithmetic — on overflow the call fails
/// with [`CounterError::CounterOverflow`] and performs no write — and the
/// updated record is written back to the same storage region, same size.
/// Every error path leaves every account exactly as it was.
pub fn process_increment_counter(program_id: &Identity, accounts: &mut Vec<AccountHandle>) -> (r:
    Result<(), CounterError>)
    ensures
        match spec_increment_outcome(*program_id, old(accounts)@) {
            Err(e) => {
                &&& r == Err::<(), CounterError>(e)
                &&& accounts_unchanged(old(accounts)@, final(accounts)@)
            },
            Ok(data) => {
                &&& r == Ok::<(), CounterError>(())
                &&& accounts_updated_at(
                    old(accounts)@,
                    final(accounts)@,
                    0,
                    old(accounts)@[0].owner,
                    data,
                )
            },
        },
{
    if accounts.len() < 1 {
        return Err(CounterError::MissingAccount);
    }
    let mut counter_account = accounts.remove(0);
    if !(counter_account.owner == *program_id) {
        accounts.insert(0, counter_account);
        return Err(CounterError::IncorrectOwner);
    }
    let record = match CounterAccount::from_bytes(&counter_account.data) {
        Ok(record) => record,
        Err(e) => {
            accounts.insert(0, counter_account);
            return Err(e);
        },
    };
    if record.count == u64::MAX {
        accounts.insert(0, counter_account);
        return Err(CounterError::CounterOverflow);
    }
    let updated = CounterAccount { count: record.count + 1 };
    let mut new_data = updated.to_bytes();
    let mut i: usize = 8;
    while i < counter_account.data.len()
        invariant
            8 <= i <= counter_account.data.len(),
            new_data@ == updated.spec_to_bytes() + counter_account.data@.subrange(8, i as int),
        decreases counter_account.data.len() - i,
    {
        let b = counter_account.data[i];
        new_data.push(b);
        proof {
            assert(new_data@ =~= updated.spec_to_bytes() + counter_account.data@.subrange(
                8,
                i + 1,
            ));
        }
        i = i + 1;
    }
    proof {
        assert(counter_account.data@.subrange(8, counter_account.data@.len() as int)
            =~= counter_account.data@.skip(8));
    }
    counter_account.data = new_data;
    accounts.insert(0, counter_account);
    Ok(())
}

/// The instruction bytes that ask the companion program to increment its
/// counter: the 8-byte constant its published interface assigns to that
/// operation, with no further payload.
pub open spec fn spec_companion_increment_data() -> Seq<u8> {
    seq![16u8, 125u8, 2u8, 171u8, 73u8, 24u8, 207u8, 229u8]
}

/// The nested instruction that increments a counter of the companion
/// program: addressed to the target program, carrying the companion's
/// 8-byte operation constant, and referencing the counter writable and the
/// authority as a read-only signer — in that order, which the callee
/// depends on.
pub open spec fn is_companion_increment_call(
    ni: NestedInstruction,
    counter_key: Identity,
    authority_key: Identity,
    target_program: Identity,
) -> bool {
    &&& ni.program_id == target_program
    &&& ni.data@ == spec_companion_increment_data()
    &&& ni.accounts@.len() == 2
    &&& ni.accounts@[0] == (InstructionAccount {
        key: counter_key,
        is_writable: true,
        is_signer: false,
    })
    &&& ni.accounts@[1] == (InstructionAccount {
        key: authority_key,
        is_writable: false,
        is_signer: true,
    })
}

/// The nested instruction that runs this program's own increment on a
/// counter: addressed to the given program, carrying the encoding of
/// [`CounterInstruction::IncrementCounter`], and referencing the counter as
/// its only account, writable and unsigned.
pub open spec fn is_self_increment_call(
    ni: NestedInstruction,
    counter_key: Identity,
    target_program: Identity,
) -> bool {
    &&& ni.program_id == target_program
    &&& ni.data@ == CounterInstruction::IncrementCounter.spec_encode()
    &&& ni.accounts@.len() == 1
    &&& ni.accounts@[0] == (InstructionAccount {
        key: counter_key,
        is_writable: true,
        is_signer: false,
    })
}

/// Builds the nested instruction that increments a counter of the companion
/// program, exactly as that program's generated client would assemble it.
///
/// The handler receives, in fixed positional order, the companion's counter
/// account, the authority that must co-sign, and the account naming the
/// companion program; with fewer accounts it fails with
/// [`CounterError::MissingAccount`]. It writes nothing itself: the host
/// executes the returned instruction inside the current transaction, and a
/// failure of that sub-call fails this call with it.
pub fn process_increment_anchor_counter(accounts: &Vec<AccountHandle>) -> (r: Result<
    NestedInstruction,
    CounterError,
>)
    ensures
        accounts@.len() < 3 ==> r == Err::<NestedInstruction, CounterError>(
            CounterError::MissingAccount,
        ),
        accounts@.len() >= 3 ==> (r matches Ok(ni) && is_companion_increment_call(
            ni,
            accounts@[0].key,
            accounts@[1].key,
            accounts@[2].key,
        )),
{
    if accounts.len() < 3 {
        return Err(CounterError::MissingAccount);
    }
    build_companion_increment_call(&accounts[0], &accounts[1], &accounts[2])
}

/// Builds the same nested instruction as
/// [`process_increment_anchor_counter`], spelling the companion's operation
/// constant out by hand instead of leaning on a generated client. The two
/// handlers are interchangeable to every caller.
pub fn process_increment_anchor_counter_raw(accounts: &Vec<AccountHandle>) -> (r: Result<
    NestedInstruction,
    CounterError,
>)
    ensures
        accounts@.len() < 3 ==> r == Err::<NestedInstruction, CounterError>(
            CounterError::MissingAccount,
        ),
        accounts@.len() >= 3 ==> (r matches Ok(ni) && is_companion_increment_call(
            ni,
            accounts@[0].key,
            accounts@[1].key,
            accounts@[2].key,
        )),
{
    if accounts.len() < 3 {
        return Err(CounterError::MissingAccount);
    }
    build_companion_increment_call(&accounts[0], &accounts[1], &accounts[2])
}

/// Assembles the companion-program increment call from the three accounts a
/// handler was given.
fn build_companion_increment_call(
    counter_account: &AccountHandle,
    authority_account: &AccountHandle,
    target_program: &AccountHandle,
) -> (r: Result<NestedInstruction, CounterError>)
    ensures
        r matches Ok(ni) && is_companion_increment_call(
            ni,
            counter_account.key,
            authority_account.key,
            target_program.key,
        ),
{
    let data = vec![16u8, 125u8, 2u8, 171u8, 73u8, 24u8, 207u8, 229u8];
    let accounts = vec![
        InstructionAccount { key: counter_account.key, is_writable: true, is_signer: false },
        InstructionAccount { key: authority_account.key, is_writable: false, is_signer: true },
    ];
    proof {
        assert(data@ =~= spec_companion_increment_data());
    }
    Ok(NestedInstruction { program_id: target_program.key, accounts, data })
}

/// Builds the nested instruction that runs this program's own increment.
///
/// The handler receives the counter account and then the account naming the
/// target program; with fewer accounts it fails with
/// [`CounterError::MissingAccount`]. Before issuing the call it checks that
/// the named target is the program now running, and fails with
/// [`CounterError::IncorrectProgramId`] otherwise — this guards against a
/// caller redirecting the self-call to an unrelated program.
pub fn process_increment_counter_self_cpi(
    program_id: &Identity,
    accounts: &Vec<AccountHandle>,
) -> (r: Result<NestedInstruction, CounterError>)
    ensures
        accounts@.len() < 2 ==> r == Err::<NestedInstruction, CounterError>(
            CounterError::MissingAccount,
        ),
        accounts@.len() >= 2 && accounts@[1].key != *program_id ==> r == Err::<
            NestedInstruction,
            CounterError,
        >(CounterError::IncorrectProgramId),
        accounts@.len() >= 2 && accounts@[1].key == *program_id ==> (r matches Ok(ni)
            && is_self_increment_call(ni, accounts@[0].key, *program_id)),
{
    if accounts.len() < 2 {
        return Err(CounterError::MissingAccount);
    }
    build_self_increment_call(program_id, &accounts[0], &accounts[1])
}

/// Builds the same nested instruction as
/// [`process_increment_counter_self_cpi`], assembled the way this program's
/// generated client assembles it. The two handlers are interchangeable to
/// every caller, the program-identity guard included.
pub fn process_increment_counter_codama_client(
    program_id: &Identity,
    accounts: &Vec<AccountHandle>,
) -> (r: Result<NestedInstruction, CounterError>)
    ensures
        accounts@.len() < 2 ==> r == Err::<NestedInstruction, CounterError>(
            CounterError::MissingAccount,
        ),
        accounts@.len() >= 2 && accounts@[1].key != *program_id ==> r == Err::<
            NestedInstruction,
            CounterError,
        >(CounterError::IncorrectProgramId),
        accounts@.len() >= 2 && accounts@[1].key == *program_id ==> (r matches Ok(ni)
            && is_self_increment_call(ni, accounts@[0].key, *program_id)),
{
    if accounts.len() < 2 {
        return Err(CounterError::MissingAccount);
    }
    build_self_increment_call(program_id, &accounts[0], &accounts[1])
}

/// Assembles the self-referential increment call, after checking that the
/// named target program is the one now running.
fn build_self_increment_call(
    program_id: &Identity,
    counter_account: &AccountHandle,
    target_program: &AccountHandle,
) -> (r: Result<NestedInstruction, CounterError>)
    ensures
        target_program.key != *program_id ==> r == Err::<NestedInstruction, CounterError>(
            CounterError::IncorrectProgramId,
        ),
        target_program.key == *program_id ==> (r matches Ok(ni) && is_self_increment_call(
            ni,
            counter_account.key,
            *program_id,
        )),
{
    if !(target_program.key == *program_id) {
        return Err(CounterError::IncorrectProgramId);
    }
    let data = CounterInstruction::IncrementCounter.encode();
    let accounts = vec![
        InstructionAccount { key: counter_account.key, is_writable: true, is_signer: false },
    ];
    Ok(NestedInstruction { program_id: *program_id, accounts, data })
}

/// Builds the nested instruction with which the companion program asks the
/// host to increment one of this program's counters: the counter account and
/// the account naming this program, and the encoding of
/// [`CounterInstruction::IncrementCounter`] as payload.
pub fn increment_native_counter(
    native_counter: &AccountHandle,
    native_program: &AccountHandle,
) -> (ni: NestedInstruction)
    ensures
        is_self_increment_call(ni, native_counter.key, native_program.key),
{
    let data = CounterInstruction::IncrementCounter.encode();
    let accounts = vec![
        InstructionAccount { key: native_counter.key, is_writable: true, is_signer: false },
    ];
    NestedInstruction { program_id: native_program.key, accounts, data }
}

/// Everything one call of the dispatcher does, as a relation between the
/// account list before the call (`pre`), the list after it (`post`), the raw
/// instruction bytes, and the call's result.
///
/// Whatever bytes could not be decoded make the whole call fail with
/// [`CounterError::InvalidInstructionData`]; otherwise exactly one handler
/// runs, chosen by the decoded operation's discriminant, and its clause
/// below both pins the result — including on which inputs each error is
/// returned — and says which accounts changed: only a successful
/// initialization or increment writes, and only to the primary account.
/// A successful nested-call operation returns the instruction the host is
/// to execute as a sub-call; this call itself leaves every account as it
/// was, and the host then fails the whole call if the sub-call fails.
pub open spec fn spec_process_post(
    program_id: Identity,
    pre: Seq<AccountHandle>,
    post: Seq<AccountHandle>,
    instruction_data: Seq<u8>,
    r: Result<Option<NestedInstruction>, CounterError>,
) -> bool {
    match CounterInstruction::spec_decode(instruction_data) {
        Err(_) => {
            &&& r == Err::<Option<NestedInstruction>, CounterError>(
                CounterError::InvalidInstructionData,
            )
            &&& accounts_unchanged(pre, post)
        },
        Ok(op) => match op {
            CounterInstruction::InitializeCounter { initial_value } => {
                if pre.len() < 3 {
                    &&& r == Err::<Option<NestedInstruction>, CounterError>(
                        CounterError::MissingAccount,
                    )
                    &&& accounts_unchanged(pre, post)
                } else {
                    &&& r == Ok::<Option<NestedInstruction>, CounterError>(None)
                    &&& accounts_updated_at(
                        pre,
                        post,
                        0,
                        program_id,
                        spec_u64_to_le_bytes(initial_value),
                    )
                }
            },
            CounterInstruction::IncrementCounter => {
                match spec_increment_outcome(program_id, pre) {
                    Err(e) => {
                        &&& r == Err::<Option<NestedInstruction>, CounterError>(e)
                        &&& accounts_unchanged(pre, post)
                    },
                    Ok(data) => {
                        &&& r == Ok::<Option<NestedInstruction>, CounterError>(None)
                        &&& accounts_updated_at(pre, post, 0, pre[0].owner, data)
                    },
                }
            },
            CounterInstruction::IncrementAnchorCounter => {
                &&& accounts_unchanged(pre, post)
                &&& if pre.len() < 3 {
                    r == Err::<Option<NestedInstruction>, CounterError>(
                        CounterError::MissingAccount,
                    )
                } else {
                    r matches Ok(Some(ni)) && is_companion_increment_call(
                        ni,
                        pre[0].key,
                        pre[1].key,
                        pre[2].key,
                    )
                }
            },
            CounterInstruction::IncrementAnchorCounterRaw => {
                &&& accounts_unchanged(pre, post)
                &&& if pre.len() < 3 {
                    r == Err::<Option<NestedInstruction>, CounterError>(
                        CounterError::MissingAccount,
                    )
                } else {
                    r matches Ok(Some(ni)) && is_companion_increment_call(
                        ni,
                        pre[0].key,
                        pre[1].key,
                        pre[2].key,
                    )
                }
            },
            CounterInstruction::IncrementCounterSelfCpi => {
                &&& accounts_unchanged(pre, post)
                &&& if pre.len() < 2 {
                    r == Err::<Option<NestedInstruction>, CounterError>(
                        CounterError::MissingAccount,
                    )
                } else if pre[1].key != program_id {
                    r == Err::<Option<NestedInstruction>, CounterError>(
                        CounterError::IncorrectProgramId,
                    )
                } else {
                    r matches Ok(Some(ni)) && is_self_increment_call(ni, pre[0].key, program_id)
                }
            },
            CounterInstruction::IncrementCounterCodamaClient => {
                &&& accounts_unchanged(pre, post)
                &&& if pre.len() < 2 {
                    r == Err::<Option<NestedInstruction>, CounterError>(
                        CounterError::MissingAccount,
                    )
                } else if pre[1].key != program_id {
                    r == Err::<Option<NestedInstruction>, CounterError>(
                        CounterError::IncorrectProgramId,
                    )
                } else {
                    r matches Ok(Some(ni)) && is_self_increment_call(ni, pre[0].key, program_id)
                }
            },
        },
    }
}

/// Decodes the instruction bytes and routes the operation to exactly one
/// handler. On a decode failure the call fails with
/// [`CounterError::InvalidInstructionData`] and nothing is touched; the
/// per-operation behaviour, error cases included, is pinned down by
/// [`spec_process_post`].
pub fn process(
    program_id: &Identity,
    accounts: &mut Vec<AccountHandle>,
    instruction_data: &Vec<u8>,
) -> (r: Result<Option<NestedInstruction>, CounterError>)
    ensures
        spec_process_post(*program_id, old(accounts)@, final(accounts)@, instruction_data@, r),
{
    let instruction = match CounterInstruction::decode(instruction_data) {
        Ok(instruction) => instruction,
        Err(_) => {
            return Err(CounterError::InvalidInstructionData);
        },
    };
    match instruction {
        CounterInstruction::InitializeCounter { initial_value } => {
            match process_initialize_counter(program_id, accounts, initial_value) {
                Ok(()) => Ok(None),
                Err(e) => Err(e),
            }
        },
        CounterInstruction::IncrementCounter => {
            match process_increment_counter(program_id, accounts) {
                Ok(()) => Ok(None),
                Err(e) => Err(e),
            }
        },
        CounterInstruction::IncrementAnchorCounter => {
            match process_increment_anchor_counter(accounts) {
                Ok(ni) => Ok(Some(ni)),
                Err(e) => Err(e),
            }
        },
        CounterInstruction::IncrementAnchorCounterRaw => {
            match process_increment_anchor_counter_raw(accounts) {
                Ok(ni) => Ok(Some(ni)),
                Err(e) => Err(e),
            }
        },
        CounterInstruction::IncrementCounterSelfCpi => {
            match process_increment_counter_self_cpi(program_id, accounts) {
                Ok(ni) => Ok(Some(ni)),
                Err(e) => Err(e),
            }
        },
        CounterInstruction::IncrementCounterCodamaClient => {
            match process_increment_counter_codama_client(program_id, accounts) {
                Ok(ni) => Ok(Some(ni)),
                Err(e) => Err(e),
            }
        },
    }
}

/// Initialize then read: a call that initializes the primary account with a
/// starting value succeeds when three accounts were supplied, and reading
/// that account's record afterwards yields exactly that count, in an
/// account now owned by this program.
pub proof fn lemma_initialize_then_read(
    program_id: Identity,
    pre: Seq<AccountHandle>,
    post: Seq<AccountHandle>,
    instruction_data: Seq<u8>,
    r: Result<Option<NestedInstruction>, CounterError>,
    initial_value: u64,
)
    requires
        CounterInstruction::spec_decode(instruction_data) == Ok::<CounterInstruction, CounterError>(
            CounterInstruction::InitializeCounter { initial_value },
        ),
        pre.len() >= 3,
        spec_process_post(program_id, pre, post, instruction_data, r),
    ensures
        r == Ok::<Option<NestedInstruction>, CounterError>(None),
        post[0].owner == program_id,
        CounterAccount::spec_from_bytes(post[0].data@) == Ok::<CounterAccount, CounterError>(
            CounterAccount { count: initial_value },
        ),
{
    let record = CounterAccount { count: initial_value };
    lemma_counter_account_round_trip(record);
    assert(post[0].data@ == record.spec_to_bytes());
}

/// Increment monotonicity: a call that increments a record holding a count
/// below the maximum succeeds, afterwards the record reads as exactly one
/// more, and nothing else changes — not the account's identity, owner,
/// signer flag, storage size, or bytes beyond the record, and no other
/// account at all.
pub proof fn lemma_increment_monotonic(
    program_id: Identity,
    pre: Seq<AccountHandle>,
    post: Seq<AccountHandle>,
    instruction_data: Seq<u8>,
    r: Result<Option<NestedInstruction>, CounterError>,
    record: CounterAccount,
)
    requires
        CounterInstruction::spec_decode(instruction_data) == Ok::<CounterInstruction, CounterError>(
            CounterInstruction::IncrementCounter,
        ),
        pre.len() >= 1,
        pre[0].owner == program_id,
        CounterAccount::spec_from_bytes(pre[0].data@) == Ok::<CounterAccount, CounterError>(record),
        record.count < u64::MAX,
        spec_process_post(program_id, pre, post, instruction_data, r),
    ensures
        r == Ok::<Option<NestedInstruction>, CounterError>(None),
        CounterAccount::spec_from_bytes(post[0].data@) == Ok::<CounterAccount, CounterError>(
            CounterAccount { count: (record.count + 1) as u64 },
        ),
        post[0].key == pre[0].key,
        post[0].owner == pre[0].owner,
        post[0].is_signer == pre[0].is_signer,
        post[0].data@.len() == pre[0].data@.len(),
        post[0].data@.skip(8) == pre[0].data@.skip(8),
        forall|j: int| 1 <= j < pre.len() ==> account_eq(pre[j], post[j]),
{
    lemma_auto_spec_u64_to_from_le_bytes();
    let updated = CounterAccount { count: (record.count + 1) as u64 };
    lemma_counter_account_round_trip(updated);
    assert(pre[0].data@.len() >= 8);
    assert(post[0].data@ == updated.spec_to_bytes() + pre[0].data@.skip(8));
    assert(post[0].data@.subrange(0, 8) =~= updated.spec_to_bytes().subrange(0, 8));
    assert(post[0].data@.skip(8) =~= pre[0].data@.skip(8));
}

/// Overflow: a call that increments a record already at the largest
/// representable count fails with [`CounterError::CounterOverflow`], every
/// account is left exactly as it was, and re-reading the primary account
/// still yields the old record.
pub proof fn lemma_increment_overflow_leaves_record(
    program_id: Identity,
    pre: Seq<AccountHandle>,
    post: Seq<AccountHandle>,
    instruction_data: Seq<u8>,
    r: Result<Option<NestedInstruction>, CounterError>,
    record: CounterAccount,
)
    requires
        CounterInstruction::spec_decode(instruction_data) == Ok::<CounterInstruction, CounterError>(
            CounterInstruction::IncrementCounter,
        ),
        pre.len() >= 1,
        pre[0].owner == program_id,
        CounterAccount::spec_from_bytes(pre[0].data@) == Ok::<CounterAccount, CounterError>(record),
        record.count == u64::MAX,
        spec_process_post(program_id, pre, post, instruction_data, r),
    ensures
        r == Err::<Option<NestedInstruction>, CounterError>(CounterError::CounterOverflow),
        accounts_unchanged(pre, post),
        CounterAccount::spec_from_bytes(post[0].data@) == Ok::<CounterAccount, CounterError>(
            record,
        ),
{
    assert(account_eq(pre[0], post[0]));
}

/// Ownership guard: a call that increments through a primary account whose
/// owner differs from the running program's identity fails with
/// [`CounterError::IncorrectOwner`] and makes no storage write at all.
pub proof fn lemma_increment_ownership_guard(
    program_id: Identity,
    pre: Seq<AccountHandle>,
    post: Seq<AccountHandle>,
    instruction_data: Seq<u8>,
    r: Result<Option<NestedInstruction>, CounterError>,
)
    requires
        CounterInstruction::spec_decode(instruction_data) == Ok::<CounterInstruction, CounterError>(
            CounterInstruction::IncrementCounter,
        ),
        pre.len() >= 1,
        pre[0].owner != program_id,
        spec_process_post(program_id, pre, post, instruction_data, r),
    ensures
        r == Err::<Option<NestedInstruction>, CounterError>(CounterError::IncorrectOwner),
        accounts_unchanged(pre, post),
{
}

/// A self-referential increment call is addressed back to the running
/// program and its payload decodes to
/// [`CounterInstruction::IncrementCounter`]: handed to this same
/// dispatcher, the sub-call runs the plain increment on the referenced
/// counter.
pub proof fn lemma_self_call_runs_increment(
    ni: NestedInstruction,
    counter_key: Identity,
    target_program: Identity,
)
    requires
        is_self_increment_call(ni, counter_key, target_program),
    ensures
        ni.program_id == target_program,
        CounterInstruction::spec_decode(ni.data@) == Ok::<CounterInstruction, CounterError>(
            CounterInstruction::IncrementCounter,
        ),
{
    lemma_encode_decode_round_trip(CounterInstruction::IncrementCounter, Seq::empty());
}

} // verus!
