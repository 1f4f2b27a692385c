//! Deletion of a record.

use vstd::prelude::*;
use crate::error::ErrorCode;
use crate::pubkey::Pubkey;
use crate::state::data_account::Record;
use crate::state::ledger::{valid_records, Ledger};

verus! {

/// Who takes part in `delete_data`.
#[derive(Clone, Copy, Debug)]
pub struct DeleteData {
    /// The caller. Only the owner of the record may delete it; the cost of
    /// the freed storage goes back to them.
    pub user: Pubkey,
    /// The address of the record to delete.
    pub data_account: Pubkey,
}

/// Why a deletion is refused, if it is. The checks, in their order: a
/// record lies at the address, the caller is its owner.
pub open spec fn delete_data_check(records: Map<Seq<u8>, Record>, ctx: DeleteData) -> Result<(), ErrorCode> {
    if !records.contains_key(ctx.data_account@) {
        Err(ErrorCode::AccountNotFound)
    } else {
        records[ctx.data_account@].authorize(ctx.user@)
    }
}

/// The records after an attempt to delete one: without it where nothing is
/// in the way, unchanged otherwise.
pub open spec fn delete_data_next(records: Map<Seq<u8>, Record>, ctx: DeleteData) -> Map<Seq<u8>, Record> {
    if delete_data_check(records, ctx) is Ok {
        records.remove(ctx.data_account@)
    } else {
        records
    }
}

/// Removes the record at the given address for good: nothing of it stays
/// behind, and its address is free for a new record. A refused deletion
/// leaves the ledger as it was.
pub fn delete_data(ledger: &mut Ledger, ctx: &DeleteData) -> (done: Result<(), ErrorCode>)
    ensures
        done == delete_data_check(old(ledger)@, *ctx),
        final(ledger)@ == delete_data_next(old(ledger)@, *ctx),
        final(ledger).program_id() == old(ledger).program_id(),
        valid_records(final(ledger)@, final(ledger).program_id()@),
{
    let allowed = match ledger.get(&ctx.data_account) {
        None => { return Err(ErrorCode::AccountNotFound); },
        Some(account) => account.authorize(&ctx.user),
    };
    match allowed {
        Err(kind) => Err(kind),
        Ok(()) => {
            ledger.remove(&ctx.data_account);
            Ok(())
        },
    }
}

} // verus!
