//! The laws of the record lifecycle. A record is absent, then created, then
//! updated any number of times, then deleted and absent again. The laws are
//! stated over the records of a ledger and the transitions that the
//! operations make, and hold for every ledger, caller, payload and time.

use vstd::prelude::*;
use crate::error::ErrorCode;
use crate::instructions::delete_data::{delete_data_check, delete_data_next, DeleteData};
use crate::instructions::store_data::{store_data_check, store_data_next, StoreData};
use crate::instructions::update_data::{update_data_check, update_data_next, UpdateData};
use crate::state::data_account::{Record, ACCOUNT_SPACE};
use crate::state::ledger::valid_records;
use crate::utils::{
    data_account_pda, is_data_account_address, lemma_payload_len_zero, payload_len,
    MAX_DATA_LENGTH,
};

verus! {

/// A creation succeeds exactly where the address is the caller's own, no
/// record lies there, the payload has between 1 and `MAX_DATA_LENGTH` bytes
/// and the time is positive.
pub proof fn lemma_create_succeeds_iff(
    records: Map<Seq<u8>, Record>,
    program_id: Seq<u8>,
    ctx: StoreData,
    data: Seq<char>,
    now: i64,
)
    ensures
        store_data_check(records, program_id, ctx, data, now) is Ok <==> {
            &&& is_data_account_address(ctx.data_account@, ctx.user@, program_id)
            &&& !records.contains_key(ctx.data_account@)
            &&& 1 <= payload_len(data) <= MAX_DATA_LENGTH
            &&& now > 0
        },
{
    lemma_payload_len_zero(data);
}

/// A record that was just created reads back with the payload it was given,
/// the caller as owner, the time of submission as time of creation, and no
/// update.
pub proof fn lemma_create_then_read(
    records: Map<Seq<u8>, Record>,
    program_id: Seq<u8>,
    ctx: StoreData,
    data: Seq<char>,
    now: i64,
)
    requires
        is_data_account_address(ctx.data_account@, ctx.user@, program_id),
        !records.contains_key(ctx.data_account@),
        1 <= payload_len(data) <= MAX_DATA_LENGTH,
        now > 0,
    ensures
        store_data_check(records, program_id, ctx, data, now) is Ok,
        store_data_next(records, program_id, ctx, data, now).contains_key(ctx.data_account@),
        store_data_next(records, program_id, ctx, data, now)[ctx.data_account@] == (Record {
            owner: ctx.user@,
            data,
            created_at: now as int,
            updated_at: 0,
        }),
{
    lemma_create_succeeds_iff(records, program_id, ctx, data, now);
}

/// A creation with an empty payload at the caller's own free address fails
/// with `DataEmpty` and creates nothing: a creation with a valid payload that
/// follows it succeeds.
pub proof fn lemma_create_empty_rejected(
    records: Map<Seq<u8>, Record>,
    program_id: Seq<u8>,
    ctx: StoreData,
    now: i64,
    later_data: Seq<char>,
    later: i64,
)
    requires
        is_data_account_address(ctx.data_account@, ctx.user@, program_id),
        !records.contains_key(ctx.data_account@),
        1 <= payload_len(later_data) <= MAX_DATA_LENGTH,
        later > 0,
    ensures
        store_data_check(records, program_id, ctx, Seq::<char>::empty(), now) == Err::<(), ErrorCode>(
            ErrorCode::DataEmpty,
        ),
        store_data_next(records, program_id, ctx, Seq::<char>::empty(), now) == records,
        store_data_check(
            store_data_next(records, program_id, ctx, Seq::<char>::empty(), now),
            program_id,
            ctx,
            later_data,
            later,
        ) is Ok,
{
    lemma_create_succeeds_iff(records, program_id, ctx, later_data, later);
}

/// At the caller's own free address a payload of more than `MAX_DATA_LENGTH`
/// bytes is refused as `DataTooLong`, whatever the time, and one of exactly
/// `MAX_DATA_LENGTH` bytes is accepted at a positive time.
pub proof fn lemma_create_length_limit(
    records: Map<Seq<u8>, Record>,
    program_id: Seq<u8>,
    ctx: StoreData,
    data: Seq<char>,
    now: i64,
)
    requires
        is_data_account_address(ctx.data_account@, ctx.user@, program_id),
        !records.contains_key(ctx.data_account@),
    ensures
        payload_len(data) > MAX_DATA_LENGTH ==> store_data_check(records, program_id, ctx, data, now) == Err::<
            (),
            ErrorCode,
        >(ErrorCode::DataTooLong),
        payload_len(data) == MAX_DATA_LENGTH && now > 0 ==> store_data_check(
            records,
            program_id,
            ctx,
            data,
            now,
        ) is Ok,
{
    lemma_payload_len_zero(data);
}

/// After a creation has succeeded, every further creation for the same
/// owner fails with `AccountAlreadyExists`, whatever its payload and time,
/// and leaves the first record as it is.
pub proof fn lemma_create_twice_rejected(
    records: Map<Seq<u8>, Record>,
    program_id: Seq<u8>,
    ctx: StoreData,
    data: Seq<char>,
    now: i64,
    second: StoreData,
    second_data: Seq<char>,
    later: i64,
)
    requires
        store_data_check(records, program_id, ctx, data, now) is Ok,
        second.user@ == ctx.user@,
        second.data_account@ == ctx.data_account@,
    ensures
        store_data_check(
            store_data_next(records, program_id, ctx, data, now),
            program_id,
            second,
            second_data,
            later,
        ) == Err::<(), ErrorCode>(ErrorCode::AccountAlreadyExists),
        store_data_next(
            store_data_next(records, program_id, ctx, data, now),
            program_id,
            second,
            second_data,
            later,
        ) == store_data_next(records, program_id, ctx, data, now),
{
}

/// An update by anybody but the owner fails with `Unauthorized`, whatever
/// its payload and time, and leaves the record as it is.
pub proof fn lemma_update_by_stranger_rejected(
    records: Map<Seq<u8>, Record>,
    ctx: UpdateData,
    new_data: Seq<char>,
    now: i64,
)
    requires
        records.contains_key(ctx.data_account@),
        records[ctx.data_account@].owner != ctx.user@,
    ensures
        update_data_check(records, ctx, new_data, now) == Err::<(), ErrorCode>(ErrorCode::Unauthorized),
        update_data_next(records, ctx, new_data, now) == records,
{
}

/// An update succeeds exactly where a record lies at the address, the
/// caller is its owner, the payload has between 1 and `MAX_DATA_LENGTH`
/// bytes and the time is positive.
pub proof fn lemma_update_succeeds_iff(
    records: Map<Seq<u8>, Record>,
    ctx: UpdateData,
    new_data: Seq<char>,
    now: i64,
)
    ensures
        update_data_check(records, ctx, new_data, now) is Ok <==> {
            &&& records.contains_key(ctx.data_account@)
            &&& records[ctx.data_account@].owner == ctx.user@
            &&& 1 <= payload_len(new_data) <= MAX_DATA_LENGTH
            &&& now > 0
        },
{
    lemma_payload_len_zero(new_data);
}

/// An update by the owner with a valid payload puts the new payload and the
/// time of the update into the record and leaves owner and time of creation
/// alone; no other record changes. Where the ledger time has advanced since
/// the last update, the time of update grows.
pub proof fn lemma_update_by_owner(
    records: Map<Seq<u8>, Record>,
    ctx: UpdateData,
    new_data: Seq<char>,
    now: i64,
)
    requires
        records.contains_key(ctx.data_account@),
        records[ctx.data_account@].owner == ctx.user@,
        1 <= payload_len(new_data) <= MAX_DATA_LENGTH,
        now > 0,
    ensures
        update_data_check(records, ctx, new_data, now) is Ok,
        update_data_next(records, ctx, new_data, now).dom() == records.dom(),
        update_data_next(records, ctx, new_data, now)[ctx.data_account@].data == new_data,
        update_data_next(records, ctx, new_data, now)[ctx.data_account@].updated_at == now,
        update_data_next(records, ctx, new_data, now)[ctx.data_account@].owner
            == records[ctx.data_account@].owner,
        update_data_next(records, ctx, new_data, now)[ctx.data_account@].created_at
            == records[ctx.data_account@].created_at,
        forall|other: Seq<u8>|
            other != ctx.data_account@ && records.contains_key(other) ==> #[trigger] update_data_next(
                records,
                ctx,
                new_data,
                now,
            )[other] == records[other],
        now > records[ctx.data_account@].updated_at ==> update_data_next(
            records,
            ctx,
            new_data,
            now,
        )[ctx.data_account@].updated_at > records[ctx.data_account@].updated_at,
{
    lemma_update_succeeds_iff(records, ctx, new_data, now);
    assert(update_data_next(records, ctx, new_data, now).dom() =~= records.dom());
}

/// The first update of a record makes its time of update positive, and so
/// larger than the 0 it was created with.
pub proof fn lemma_first_update_advances(
    records: Map<Seq<u8>, Record>,
    ctx: UpdateData,
    new_data: Seq<char>,
    now: i64,
)
    requires
        update_data_check(records, ctx, new_data, now) is Ok,
        records[ctx.data_account@].updated_at == 0,
    ensures
        update_data_next(records, ctx, new_data, now)[ctx.data_account@].updated_at
            > records[ctx.data_account@].updated_at,
{
    lemma_update_succeeds_iff(records, ctx, new_data, now);
}

/// A deletion by the owner removes the record and nothing else. After it,
/// every update and every deletion at that address fails with
/// `AccountNotFound`.
pub proof fn lemma_delete_by_owner(
    records: Map<Seq<u8>, Record>,
    ctx: DeleteData,
    update: UpdateData,
    new_data: Seq<char>,
    now: i64,
    again: DeleteData,
)
    requires
        records.contains_key(ctx.data_account@),
        records[ctx.data_account@].owner == ctx.user@,
        update.data_account@ == ctx.data_account@,
        again.data_account@ == ctx.data_account@,
    ensures
        delete_data_check(records, ctx) is Ok,
        delete_data_next(records, ctx) == records.remove(ctx.data_account@),
        !delete_data_next(records, ctx).contains_key(ctx.data_account@),
        update_data_check(delete_data_next(records, ctx), update, new_data, now) == Err::<(), ErrorCode>(
            ErrorCode::AccountNotFound,
        ),
        delete_data_check(delete_data_next(records, ctx), again) == Err::<(), ErrorCode>(
            ErrorCode::AccountNotFound,
        ),
{
}

/// A deletion by anybody but the owner fails with `Unauthorized` and leaves
/// the record as it is.
pub proof fn lemma_delete_by_stranger_rejected(records: Map<Seq<u8>, Record>, ctx: DeleteData)
    requires
        records.contains_key(ctx.data_account@),
        records[ctx.data_account@].owner != ctx.user@,
    ensures
        delete_data_check(records, ctx) == Err::<(), ErrorCode>(ErrorCode::Unauthorized),
        delete_data_next(records, ctx) == records,
{
}

/// After a deletion the owner can create a record again: the address is
/// free, and a creation with a valid payload at a positive time succeeds.
pub proof fn lemma_create_after_delete(
    records: Map<Seq<u8>, Record>,
    program_id: Seq<u8>,
    ctx: DeleteData,
    create: StoreData,
    data: Seq<char>,
    now: i64,
)
    requires
        valid_records(records, program_id),
        delete_data_check(records, ctx) is Ok,
        create.user@ == ctx.user@,
        create.data_account@ == ctx.data_account@,
        1 <= payload_len(data) <= MAX_DATA_LENGTH,
        now > 0,
    ensures
        store_data_check(delete_data_next(records, ctx), program_id, create, data, now) is Ok,
{
    assert(records.contains_key(ctx.data_account@));
    lemma_create_succeeds_iff(delete_data_next(records, ctx), program_id, create, data, now);
}

/// Every operation keeps the records valid: payloads fit, times of
/// creation are positive, and each record lies at the address derived from
/// its owner's key.
pub proof fn lemma_operations_keep_records_valid(
    records: Map<Seq<u8>, Record>,
    program_id: Seq<u8>,
    create: StoreData,
    update: UpdateData,
    delete: DeleteData,
    data: Seq<char>,
    now: i64,
)
    requires
        valid_records(records, program_id),
    ensures
        valid_records(store_data_next(records, program_id, create, data, now), program_id),
        valid_records(update_data_next(records, update, data, now), program_id),
        valid_records(delete_data_next(records, delete), program_id),
{
    lemma_payload_len_zero(data);
    let stored = store_data_next(records, program_id, create, data, now);
    assert forall|address: Seq<u8>| #[trigger] stored.contains_key(address) implies stored[address].valid()
        && is_data_account_address(address, stored[address].owner, program_id) by {
        if address != create.data_account@ {
            assert(records.contains_key(address));
        } else if !records.contains_key(address) {
            create.user.lemma_len();
        }
    }
    let updated = update_data_next(records, update, data, now);
    assert forall|address: Seq<u8>| #[trigger] updated.contains_key(address) implies updated[address].valid()
        && is_data_account_address(address, updated[address].owner, program_id) by {
        assert(records.contains_key(address));
    }
    let deleted = delete_data_next(records, delete);
    assert forall|address: Seq<u8>| #[trigger] deleted.contains_key(address) implies deleted[address].valid()
        && is_data_account_address(address, deleted[address].owner, program_id) by {
        assert(records.contains_key(address));
    }
}

/// An owner has at most one record: two records of the same owner lie at the
/// same address, so they are one record.
pub proof fn lemma_one_record_per_owner(
    records: Map<Seq<u8>, Record>,
    program_id: Seq<u8>,
    first: Seq<u8>,
    second: Seq<u8>,
)
    requires
        valid_records(records, program_id),
        records.contains_key(first),
        records.contains_key(second),
        records[first].owner == records[second].owner,
    ensures
        first == second,
{
}

/// The address of an owner's record depends on the owner's key and the
/// program alone: whoever derives it, and whenever, gets the same address,
/// and at most one address is the record's place.
pub proof fn lemma_address_deterministic(
    first: Seq<u8>,
    second: Seq<u8>,
    user_key: Seq<u8>,
    program_id: Seq<u8>,
)
    requires
        is_data_account_address(first, user_key, program_id),
        is_data_account_address(second, user_key, program_id),
    ensures
        first == second,
        data_account_pda(user_key, program_id) is Some,
        data_account_pda(user_key, program_id)->Some_0.0 == first,
{
}

/// The storage of a record is sized once: a valid record fits into the
/// space allocated at its creation, and so does the record that an update
/// makes of it, whatever the new payload. No update needs more storage.
pub proof fn lemma_record_fits_allocation(record: Record, new_data: Seq<char>, now: i64)
    requires
        record.valid(),
    ensures
        record.stored_len() <= ACCOUNT_SPACE,
        payload_len(new_data) <= MAX_DATA_LENGTH ==> record.updated(new_data, now as int).stored_len()
            <= ACCOUNT_SPACE,
{
}

/// Whoever is let through to delete a record is its owner, the one who paid
/// for its storage when the record was created: the cost of the freed
/// storage goes back to the payer.
pub proof fn lemma_delete_refunds_payer(
    records: Map<Seq<u8>, Record>,
    program_id: Seq<u8>,
    create: StoreData,
    data: Seq<char>,
    now: i64,
    ctx: DeleteData,
)
    requires
        store_data_check(records, program_id, create, data, now) is Ok,
        ctx.data_account@ == create.data_account@,
        delete_data_check(store_data_next(records, program_id, create, data, now), ctx) is Ok,
    ensures
        ctx.user@ == create.user@,
{
}

/// An operation takes full effect or none: one that is refused leaves
/// every record as it was.
pub proof fn lemma_refused_changes_nothing(
    records: Map<Seq<u8>, Record>,
    program_id: Seq<u8>,
    create: StoreData,
    update: UpdateData,
    delete: DeleteData,
    data: Seq<char>,
    now: i64,
)
    ensures
        store_data_check(records, program_id, create, data, now) is Err ==> store_data_next(
            records,
            program_id,
            create,
            data,
            now,
        ) == records,
        update_data_check(records, update, data, now) is Err ==> update_data_next(
            records,
            update,
            data,
            now,
        ) == records,
        delete_data_check(records, delete) is Err ==> delete_data_next(records, delete) == records,
{
}

/// An operation touches the record at its own address and no other: what
/// lies at any other address, or that nothing lies there, stays as it was.
pub proof fn lemma_other_addresses_untouched(
    records: Map<Seq<u8>, Record>,
    program_id: Seq<u8>,
    create: StoreData,
    update: UpdateData,
    delete: DeleteData,
    data: Seq<char>,
    now: i64,
    other: Seq<u8>,
)
    ensures
        other != create.data_account@ ==> {
            let next = store_data_next(records, program_id, create, data, now);
            &&& next.contains_key(other) == records.contains_key(other)
            &&& next.contains_key(other) ==> next[other] == records[other]
        },
        other != update.data_account@ ==> {
            let next = update_data_next(records, update, data, now);
            &&& next.contains_key(other) == records.contains_key(other)
            &&& next.contains_key(other) ==> next[other] == records[other]
        },
        other != delete.data_account@ ==> {
            let next = delete_data_next(records, delete);
            &&& next.contains_key(other) == records.contains_key(other)
            &&& next.contains_key(other) ==> next[other] == records[other]
        },
{
}

} // verus!
