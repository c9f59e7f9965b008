use vstd::prelude::*;
use crate::account::{Account, Identity};
use crate::codec::{bytes_of, counter_of, decode, encode_into, lemma_round_trip, COUNTER_WIDTH};
use crate::error::HandlerError;
use crate::guard::check;
use crate::state::apply;

verus! {

/// Whether a single invocation succeeds: the account belongs to the
/// invoking program, its buffer holds a full encoded counter, and the
/// counter is not yet at the largest representable value.
pub open spec fn step_ok(owner: Seq<u8>, program_id: Seq<u8>, data: Seq<u8>) -> bool {
    &&& owner == program_id
    &&& data.len() >= COUNTER_WIDTH
    &&& counter_of(data) < u32::MAX
}

/// The buffer after one successful invocation: the leading bytes encode
/// the incremented counter, every trailing byte is as it was.
pub open spec fn step_data(data: Seq<u8>) -> Seq<u8>
    recommends
        data.len() >= COUNTER_WIDTH,
        counter_of(data) < u32::MAX,
{
    bytes_of((counter_of(data) + 1) as u32) + data.skip(COUNTER_WIDTH as int)
}

/// The buffer after `k` consecutive successful invocations.
pub open spec fn data_after(data: Seq<u8>, k: nat) -> Seq<u8>
    decreases k,
{
    if k == 0 {
        data
    } else {
        step_data(data_after(data, (k - 1) as nat))
    }
}

/// One successful invocation increments the decoded counter by exactly
/// one and never changes the buffer's length.
pub proof fn lemma_step_increments(data: Seq<u8>)
    requires
        data.len() >= COUNTER_WIDTH,
        counter_of(data) < u32::MAX,
    ensures
        step_data(data).len() == data.len(),
        counter_of(step_data(data)) == counter_of(data) + 1,
{
    let next = (counter_of(data) + 1) as u32;
    lemma_round_trip(next);
    assert(step_data(data).subrange(0, COUNTER_WIDTH as int) =~= bytes_of(next));
    assert(counter_of(step_data(data)) == counter_of(bytes_of(next)));
}

/// For every account buffer that encodes `counter = c`, after `k`
/// consecutive successful invocations the buffer decodes to `c + k`.
/// As long as the counter never has to pass the largest representable
/// value, every one of those `k` invocations is indeed successful:
/// each intermediate buffer keeps its length, still holds a full
/// encoded counter, and that counter is below the maximum.
pub proof fn lemma_counter_after_k_invocations(data: Seq<u8>, k: nat)
    requires
        data.len() >= COUNTER_WIDTH,
        counter_of(data) + k <= u32::MAX,
    ensures
        data_after(data, k).len() == data.len(),
        counter_of(data_after(data, k)) == counter_of(data) + k,
        forall|j: nat| j < k ==> #[trigger] counter_of(data_after(data, j)) < u32::MAX,
    decreases k,
{
    if k > 0 {
        lemma_counter_after_k_invocations(data, (k - 1) as nat);
        lemma_step_increments(data_after(data, (k - 1) as nat));
    }
}

/// Handle one invocation: take the first account, require that the
/// invoking program owns it, decode the stored counter, increment it,
/// and write it back in place. Every failure leaves every account,
/// buffer included, exactly as it was; on success only the first
/// account's leading `COUNTER_WIDTH` buffer bytes change, to the
/// encoding of the incremented counter. The instruction payload is
/// accepted but never interpreted.
pub fn process_instruction(
    program_id: &Identity,
    accounts: &mut Vec<Account>,
    _instruction_data: &[u8],
) -> (r: Result<(), HandlerError>)
    ensures
        old(accounts)@.len() == 0 ==> r == Err::<(), HandlerError>(HandlerError::MissingAccount)
            && final(accounts)@ == old(accounts)@,
        old(accounts)@.len() > 0 && old(accounts)@[0].owner.bytes@ != program_id.bytes@ ==> r
            == Err::<(), HandlerError>(HandlerError::IncorrectOwner) && final(accounts)@ == old(
            accounts,
        )@,
        old(accounts)@.len() > 0 && old(accounts)@[0].owner.bytes@ == program_id.bytes@ && old(
            accounts,
        )@[0].data@.len() < COUNTER_WIDTH ==> r == Err::<(), HandlerError>(
            HandlerError::InvalidEncoding,
        ) && final(accounts)@ == old(accounts)@,
        old(accounts)@.len() > 0 && old(accounts)@[0].owner.bytes@ == program_id.bytes@ && old(
            accounts,
        )@[0].data@.len() >= COUNTER_WIDTH && counter_of(old(accounts)@[0].data@) == u32::MAX ==> r
            == Err::<(), HandlerError>(HandlerError::Overflow) && final(accounts)@ == old(
            accounts,
        )@,
        old(accounts)@.len() > 0 && step_ok(
            old(accounts)@[0].owner.bytes@,
            program_id.bytes@,
            old(accounts)@[0].data@,
        ) ==> r == Ok::<(), HandlerError>(()) && final(accounts)@.len() == old(accounts)@.len()
            && final(accounts)@[0].owner == old(accounts)@[0].owner && final(accounts)@[0].data@
            == step_data(old(accounts)@[0].data@) && (forall|i: int|
            1 <= i < old(accounts)@.len() ==> final(accounts)@[i] == old(accounts)@[i]),
{
    if accounts.len() == 0 {
        return Err(HandlerError::MissingAccount);
    }
    if let Err(e) = check(&accounts[0].owner, program_id) {
        return Err(e);
    }
    let state = match decode(accounts[0].data.as_slice()) {
        Ok(s) => s,
        Err(e) => {
            return Err(e);
        },
    };
    let next = match apply(&state) {
        Ok(s) => s,
        Err(e) => {
            return Err(e);
        },
    };
    let account = &mut accounts[0];
    encode_into(&next, &mut account.data);
    Ok(())
}

} // verus!
