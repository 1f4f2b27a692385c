//! What the record store takes from the host ledger's library: the
//! derivation of program addresses and the ledger clock. Nothing here is
//! proved; each item says what it relies on.

use vstd::prelude::*;
use crate::pubkey::Pubkey;

verus! {

/// The address and bump seed that the host ledger derives for a program from
/// two seeds, or `None` where it finds no bump seed. It stands for the result
/// of `Pubkey::try_find_program_address` of `anchor_lang`, which depends on
/// the seeds and the program's key alone.
pub uninterp spec fn program_address(seed: Seq<u8>, key_seed: Seq<u8>, program_id: Seq<u8>) -> Option<(Seq<u8>, u8)>;

/// Calls `Pubkey::try_find_program_address` of `anchor_lang` with the seeds
/// `[seed, key_seed]`. Relied on: the call returns what `program_address`
/// names for these arguments, and `None` exactly where that is `None`.
#[verifier::external_body]
pub(crate) fn try_find_program_address(seed: &[u8], key_seed: &Pubkey, program_id: &Pubkey) -> (found: Option<(Pubkey, u8)>)
    ensures
        match found {
            Some((address, bump)) => program_address(seed@, key_seed@, program_id@) == Some((address@, bump)),
            None => program_address(seed@, key_seed@, program_id@) is None,
        },
{
    let key_bytes = key_seed.to_bytes();
    let program = anchor_lang::prelude::Pubkey::new_from_array(program_id.to_bytes());
    match anchor_lang::prelude::Pubkey::try_find_program_address(&[seed, &key_bytes], &program) {
        Some((address, bump)) => Some((Pubkey::new_from_array(address.to_bytes()), bump)),
        None => None,
    }
}

/// Reads the ledger clock with `Clock::get` of `anchor_lang` and hands out
/// its Unix time, or `None` where the host has no clock to offer. Nothing is
/// relied on about the value: it is whatever the host says.
#[verifier::external_body]
pub(crate) fn clock_unix_timestamp() -> (now: Option<i64>)
{
    match <anchor_lang::prelude::Clock as anchor_lang::prelude::SolanaSysvar>::get() {
        Ok(clock) => Some(clock.unix_timestamp),
        Err(_) => None,
    }
}

/// Whether a character is whitespace: it stands for the result of
/// `char::is_whitespace` of the standard library, which goes by the
/// `White_Space` property of Unicode and depends on the character alone.
pub uninterp spec fn is_whitespace(c: char) -> bool;

/// Calls `char::is_whitespace` of the standard library. Relied on: the call
/// returns what `is_whitespace` names for this character.
#[verifier::external_body]
pub(crate) fn char_is_whitespace(c: char) -> (space: bool)
    ensures
        space == is_whitespace(c),
{
    c.is_whitespace()
}

} // verus!
