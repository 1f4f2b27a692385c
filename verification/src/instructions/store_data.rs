//! Creation of a record.

use vstd::prelude::*;
use crate::error::ErrorCode;
use crate::pubkey::Pubkey;
use crate::state::data_account::{DataAccount, Record};
use crate::state::ledger::{valid_records, Ledger};
use crate::utils::{is_data_account_address, validate_pda};

verus! {

/// Who takes part in `store_data`.
#[derive(Clone, Copy, Debug)]
pub struct StoreData {
    /// The caller. They pay for the storage and become the owner.
    pub user: Pubkey,
    /// The address at which the record is to be created.
    pub data_account: Pubkey,
}

/// Why a creation is refused, if it is. The checks, in their order: the
/// address is the one derived from the caller's key, no record lies there
/// yet, the payload is neither empty nor too long, the time is positive.
pub open spec fn store_data_check(
    records: Map<Seq<u8>, Record>,
    program_id: Seq<u8>,
    ctx: StoreData,
    data: Seq<char>,
    now: i64,
) -> Result<(), ErrorCode> {
    if !is_data_account_address(ctx.data_account@, ctx.user@, program_id) {
        Err(ErrorCode::Unauthorized)
    } else if records.contains_key(ctx.data_account@) {
        Err(ErrorCode::AccountAlreadyExists)
    } else {
        Record::create_check(data, now)
    }
}

/// The records after an attempt to create one: with the new record where
/// nothing is in the way, unchanged otherwise.
pub open spec fn store_data_next(
    records: Map<Seq<u8>, Record>,
    program_id: Seq<u8>,
    ctx: StoreData,
    data: Seq<char>,
    now: i64,
) -> Map<Seq<u8>, Record> {
    if store_data_check(records, program_id, ctx, data, now) is Ok {
        records.insert(ctx.data_account@, Record::created(ctx.user@, data, now as int))
    } else {
        records
    }
}

/// Creates the record of the caller with the payload `data` at the ledger
/// time `now`. The record starts with the caller as owner, `now` as time of
/// creation and no update. A refused creation leaves the ledger as it was.
pub fn store_data(ledger: &mut Ledger, ctx: &StoreData, data: String, now: i64) -> (done: Result<(), ErrorCode>)
    ensures
        done == store_data_check(old(ledger)@, old(ledger).program_id()@, *ctx, data@, now),
        final(ledger)@ == store_data_next(old(ledger)@, old(ledger).program_id()@, *ctx, data@, now),
        final(ledger).program_id() == old(ledger).program_id(),
        valid_records(final(ledger)@, final(ledger).program_id()@),
{
    let program_id = ledger.program_id();
    match validate_pda(&ctx.data_account, &ctx.user, &program_id) {
        Err(kind) => { return Err(kind); },
        Ok(()) => {},
    }
    if ledger.contains(&ctx.data_account) {
        return Err(ErrorCode::AccountAlreadyExists);
    }
    let account = match DataAccount::create(ctx.user, data, now) {
        Err(kind) => { return Err(kind); },
        Ok(account) => account,
    };
    ledger.insert(ctx.data_account, account);
    Ok(())
}

} // verus!
