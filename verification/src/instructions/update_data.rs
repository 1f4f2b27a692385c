//! Update of a record.

use vstd::prelude::*;
use crate::error::ErrorCode;
use crate::pubkey::Pubkey;
use crate::state::data_account::Record;
use crate::state::ledger::{valid_records, Ledger};

verus! {

/// Who takes part in `update_data`.
#[derive(Clone, Copy, Debug)]
pub struct UpdateData {
    /// The caller. Only the owner of the record may update it.
    pub user: Pubkey,
    /// The address of the record to update.
    pub data_account: Pubkey,
}

/// Why an update is refused, if it is. The checks, in their order: a record
/// lies at the address, the caller is its owner, the payload is neither
/// empty nor too long, the time is positive.
pub open spec fn update_data_check(
    records: Map<Seq<u8>, Record>,
    ctx: UpdateData,
    new_data: Seq<char>,
    now: i64,
) -> Result<(), ErrorCode> {
    if !records.contains_key(ctx.data_account@) {
        Err(ErrorCode::AccountNotFound)
    } else {
        records[ctx.data_account@].update_check(ctx.user@, new_data, now)
    }
}

/// The records after an attempt to update one: with the new payload and time
/// of update where nothing is in the way, unchanged otherwise.
pub open spec fn update_data_next(
    records: Map<Seq<u8>, Record>,
    ctx: UpdateData,
    new_data: Seq<char>,
    now: i64,
) -> Map<Seq<u8>, Record> {
    if update_data_check(records, ctx, new_data, now) is Ok {
        records.insert(ctx.data_account@, records[ctx.data_account@].updated(new_data, now as int))
    } else {
        records
    }
}

/// Replaces the payload of the record at the given address by `new_data` and
/// sets its time of update to the ledger time `now`. Owner and time of
/// creation stay; the storage is not resized. A refused update leaves the
/// ledger as it was.
pub fn update_data(ledger: &mut Ledger, ctx: &UpdateData, new_data: String, now: i64) -> (done: Result<(), ErrorCode>)
    ensures
        done == update_data_check(old(ledger)@, *ctx, new_data@, now),
        final(ledger)@ == update_data_next(old(ledger)@, *ctx, new_data@, now),
        final(ledger).program_id() == old(ledger).program_id(),
        valid_records(final(ledger)@, final(ledger).program_id()@),
{
    let mut account = match ledger.remove(&ctx.data_account) {
        None => { return Err(ErrorCode::AccountNotFound); },
        Some(account) => account,
    };
    let done = account.update(&ctx.user, new_data, now);
    ledger.insert(ctx.data_account, account);
    done
}

} // verus!
