//! The record of one owner.

use vstd::prelude::*;
use crate::error::ErrorCode;
use crate::pubkey::Pubkey;
use crate::utils::{
    payload_check, payload_len, timestamp_check, validate_data_length, validate_timestamp,
    MAX_DATA_LENGTH,
};

verus! {

/// Bytes that a stored record takes before its fields: the tag of its kind.
pub const DISCRIMINATOR_LENGTH: usize = 8;

/// Bytes that precede a stored payload and give its length.
pub const LENGTH_PREFIX: usize = 4;

/// Bytes reserved for the fields of a record: the owner's key, the length
/// prefix with a payload of the largest size, and the two times.
pub const INIT_SPACE: usize = 32 + LENGTH_PREFIX + MAX_DATA_LENGTH + 8 + 8;

/// Bytes allocated for a record when it is created. The size does not depend
/// on the payload, so no later update needs more.
pub const ACCOUNT_SPACE: usize = DISCRIMINATOR_LENGTH + INIT_SPACE;

/// The record that an owner keeps on the ledger.
#[derive(Clone, Debug, PartialEq, Eq)]
pub struct DataAccount {
    /// Key of the owner. It never changes.
    pub owner: Pubkey,
    /// The payload.
    pub data: String,
    /// Ledger time of the creation. It never changes.
    pub created_at: i64,
    /// Ledger time of the last update; 0 while the record was never updated.
    pub updated_at: i64,
}

/// A record as a mathematical value.
pub struct Record {
    pub owner: Seq<u8>,
    pub data: Seq<char>,
    pub created_at: int,
    pub updated_at: int,
}

impl Record {
    /// What every stored record satisfies: the payload fits, the record was
    /// created at a positive time, and it was updated never or at a positive
    /// time.
    pub open spec fn valid(self) -> bool {
        &&& self.owner.len() == 32
        &&& payload_len(self.data) <= MAX_DATA_LENGTH
        &&& self.created_at > 0
        &&& self.updated_at >= 0
    }

    /// The record that a creation at time `now` makes.
    pub open spec fn created(owner: Seq<u8>, data: Seq<char>, now: int) -> Record {
        Record { owner, data, created_at: now, updated_at: 0 }
    }

    /// The record after an update at time `now`: a new payload and a new time
    /// of update, the same owner and time of creation.
    pub open spec fn updated(self, data: Seq<char>, now: int) -> Record {
        Record { owner: self.owner, data, created_at: self.created_at, updated_at: now }
    }

    /// Bytes that the record takes when it is stored.
    pub open spec fn stored_len(self) -> nat {
        DISCRIMINATOR_LENGTH as nat + 32 + LENGTH_PREFIX as nat + payload_len(self.data) + 8 + 8
    }

    /// Whether `caller` may change or delete the record: only its owner may.
    pub open spec fn authorize(self, caller: Seq<u8>) -> Result<(), ErrorCode> {
        if self.owner == caller {
            Ok(())
        } else {
            Err(ErrorCode::Unauthorized)
        }
    }

    /// Why a creation with this payload at this time is refused, if it is:
    /// first for the payload, then for the time.
    pub open spec fn create_check(data: Seq<char>, now: i64) -> Result<(), ErrorCode> {
        if payload_check(data) is Err {
            payload_check(data)
        } else if timestamp_check(now) is Err {
            Err(ErrorCode::InvalidTimestamp)
        } else {
            Ok(())
        }
    }

    /// Why an update by `caller` is refused, if it is: first for a caller who
    /// is not the owner, then for the payload, then for the time.
    pub open spec fn update_check(self, caller: Seq<u8>, data: Seq<char>, now: i64) -> Result<(), ErrorCode> {
        if self.authorize(caller) is Err {
            Err(ErrorCode::Unauthorized)
        } else {
            Record::create_check(data, now)
        }
    }
}

impl View for DataAccount {
    type V = Record;

    open spec fn view(&self) -> Record {
        Record {
            owner: self.owner@,
            data: self.data@,
            created_at: self.created_at as int,
            updated_at: self.updated_at as int,
        }
    }
}

impl DataAccount {
    /// True where `user_key` is the owner of the record.
    pub fn is_owner(&self, user_key: &Pubkey) -> (owns: bool)
        ensures
            owns == (self@.owner == user_key@),
    {
        self.owner == *user_key
    }

    /// Length of the payload in bytes.
    pub fn data_length(&self) -> (length: usize)
        ensures
            length == payload_len(self@.data),
    {
        self.data.as_str().as_bytes().len()
    }

    /// True where the payload has no content.
    pub fn is_empty(&self) -> (empty: bool)
        ensures
            empty == (self@.data.len() == 0),
    {
        self.data.as_str().is_empty()
    }

    /// Lets the owner through and refuses every other caller.
    pub fn authorize(&self, caller: &Pubkey) -> (checked: Result<(), ErrorCode>)
        ensures
            checked == self@.authorize(caller@),
    {
        if self.is_owner(caller) {
            Ok(())
        } else {
            Err(ErrorCode::Unauthorized)
        }
    }

    /// Makes the record of `owner` with the payload `data` at the ledger time
    /// `now`. A payload that is empty or too long is refused, then a time
    /// that is not positive.
    pub fn create(owner: Pubkey, data: String, now: i64) -> (made: Result<DataAccount, ErrorCode>)
        ensures
            match Record::create_check(data@, now) {
                Ok(()) => made is Ok && made->Ok_0@ == Record::created(owner@, data@, now as int)
                    && made->Ok_0@.valid(),
                Err(kind) => made == Err::<DataAccount, ErrorCode>(kind),
            },
    {
        match validate_data_length(data.as_str()) {
            Err(kind) => { return Err(kind); },
            Ok(()) => {},
        }
        let created_at = match validate_timestamp(now) {
            Err(kind) => { return Err(kind); },
            Ok(timestamp) => timestamp,
        };
        proof {
            owner.lemma_len();
        }
        Ok(DataAccount { owner, data, created_at, updated_at: 0 })
    }

    /// Replaces the payload on behalf of `caller` at the ledger time `now`.
    /// A caller who is not the owner is refused, then a payload that is empty
    /// or too long, then a time that is not positive; a refused update
    /// leaves the record as it was.
    pub fn update(&mut self, caller: &Pubkey, new_data: String, now: i64) -> (done: Result<(), ErrorCode>)
        ensures
            done == old(self)@.update_check(caller@, new_data@, now),
            done is Ok ==> final(self)@ == old(self)@.updated(new_data@, now as int),
            done is Err ==> *final(self) == *old(self),
            old(self)@.valid() ==> final(self)@.valid(),
    {
        match self.authorize(caller) {
            Err(kind) => { return Err(kind); },
            Ok(()) => {},
        }
        match validate_data_length(new_data.as_str()) {
            Err(kind) => { return Err(kind); },
            Ok(()) => {},
        }
        let updated_at = match validate_timestamp(now) {
            Err(kind) => { return Err(kind); },
            Ok(timestamp) => timestamp,
        };
        self.data = new_data;
        self.updated_at = updated_at;
        Ok(())
    }

    /// Bytes that the record takes when it is stored. A valid record fits
    /// into the space that was allocated at its creation.
    pub fn stored_len(&self) -> (length: usize)
        requires
            self@.valid(),
        ensures
            length == self@.stored_len(),
            length <= ACCOUNT_SPACE,
    {
        DISCRIMINATOR_LENGTH + 32 + LENGTH_PREFIX + self.data_length() + 8 + 8
    }
}

} // verus!
