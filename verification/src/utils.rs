//! Checks and helpers shared by the operations: payload and time checks,
//! and the address at which an owner's record lives.

use vstd::prelude::*;
use vstd::string::StringExecFns;
use vstd::utf8::{decode_utf8, encode_utf8, is_char_boundary, valid_utf8};
use crate::error::ErrorCode;
use crate::host::{
    char_is_whitespace, clock_unix_timestamp, is_whitespace, program_address,
    try_find_program_address,
};
use crate::pubkey::Pubkey;

verus! {

/// The largest payload a record holds, in bytes.
pub const MAX_DATA_LENGTH: usize = 1000;

/// The seed that marks the addresses of records: the bytes of `data`.
pub const DATA_SEED: [u8; 4] = [0x64, 0x61, 0x74, 0x61];

/// Length of a payload in the unit of the limit: the bytes of its UTF-8 form.
pub open spec fn payload_len(data: Seq<char>) -> nat {
    encode_utf8(data).len()
}

/// What the payload check answers: an empty payload is refused as
/// `DataEmpty`, one of more than `MAX_DATA_LENGTH` bytes as `DataTooLong`.
pub open spec fn payload_check(data: Seq<char>) -> Result<(), ErrorCode> {
    if data.len() == 0 {
        Err(ErrorCode::DataEmpty)
    } else if payload_len(data) > MAX_DATA_LENGTH {
        Err(ErrorCode::DataTooLong)
    } else {
        Ok(())
    }
}

/// A payload with no characters has no bytes, and the other way round.
pub proof fn lemma_payload_len_zero(data: Seq<char>)
    ensures
        payload_len(data) == 0 <==> data.len() == 0,
{
    reveal_with_fuel(encode_utf8, 2);
    if data.len() > 0 {
        vstd::utf8::char_is_scalar(data[0]);
        assert(vstd::utf8::encode_scalar(data[0] as u32).len() > 0);
    }
}

/// Checks that a payload is neither empty nor longer than a record holds.
pub fn validate_data_length(data: &str) -> (checked: Result<(), ErrorCode>)
    ensures
        checked == payload_check(data@),
{
    if data.is_empty() {
        return Err(ErrorCode::DataEmpty);
    }
    if data.as_bytes().len() > MAX_DATA_LENGTH {
        return Err(ErrorCode::DataTooLong);
    }
    Ok(())
}

/// What the time check answers: a time that is not positive is refused.
pub open spec fn timestamp_check(timestamp: i64) -> Result<i64, ErrorCode> {
    if timestamp > 0 {
        Ok(timestamp)
    } else {
        Err(ErrorCode::InvalidTimestamp)
    }
}

/// Checks a reading of the ledger clock and hands it back where it is
/// positive.
pub fn validate_timestamp(timestamp: i64) -> (checked: Result<i64, ErrorCode>)
    ensures
        checked == timestamp_check(timestamp),
{
    if timestamp > 0 {
        Ok(timestamp)
    } else {
        Err(ErrorCode::InvalidTimestamp)
    }
}

/// Reads the ledger clock and checks the reading. Whatever the clock says,
/// a time that comes back is positive, and the only error is
/// `InvalidTimestamp`: for a reading that is not positive, and for a host
/// without a clock.
pub fn get_current_timestamp() -> (now: Result<i64, ErrorCode>)
    ensures
        match now {
            Ok(timestamp) => timestamp > 0,
            Err(kind) => kind == ErrorCode::InvalidTimestamp,
        },
{
    check_clock_reading(clock_unix_timestamp())
}

/// What is made of a reading of the ledger clock: a positive time is handed
/// on, and a time that is not positive, or no reading at all, is refused as
/// `InvalidTimestamp`.
pub open spec fn clock_reading_check(reading: Option<i64>) -> Result<i64, ErrorCode> {
    match reading {
        Some(timestamp) => timestamp_check(timestamp),
        None => Err(ErrorCode::InvalidTimestamp),
    }
}

/// Checks what came of reading the ledger clock: `None` stands for a host
/// that has no clock to offer.
pub fn check_clock_reading(reading: Option<i64>) -> (checked: Result<i64, ErrorCode>)
    ensures
        checked == clock_reading_check(reading),
{
    match reading {
        Some(timestamp) => validate_timestamp(timestamp),
        None => Err(ErrorCode::InvalidTimestamp),
    }
}

/// The address of an owner's record under a program, with its bump seed:
/// what the host derives from the seed `DATA_SEED` and the owner's key.
pub open spec fn data_account_pda(user_key: Seq<u8>, program_id: Seq<u8>) -> Option<(Seq<u8>, u8)> {
    program_address(DATA_SEED@, user_key, program_id)
}

/// The bytes of a derived address and its bump seed.
pub open spec fn pda_bytes(derived: Option<(Pubkey, u8)>) -> Option<(Seq<u8>, u8)> {
    match derived {
        Some((address, bump)) => Some((address@, bump)),
        None => None,
    }
}

/// True where `address` is the place of the record of `user_key`.
pub open spec fn is_data_account_address(address: Seq<u8>, user_key: Seq<u8>, program_id: Seq<u8>) -> bool {
    match data_account_pda(user_key, program_id) {
        Some((derived, _)) => derived == address,
        None => false,
    }
}

/// Derives the address of an owner's record and its bump seed. `None` where
/// the host finds no bump seed for this owner.
pub fn find_data_account_pda(user_key: &Pubkey, program_id: &Pubkey) -> (derived: Option<(Pubkey, u8)>)
    ensures
        pda_bytes(derived) == data_account_pda(user_key@, program_id@),
{
    try_find_program_address(DATA_SEED.as_slice(), user_key, program_id)
}

/// What the address check answers for a derivation that was already made.
pub open spec fn pda_check(expected_pda: Seq<u8>, derived: Option<(Seq<u8>, u8)>) -> Result<(), ErrorCode> {
    match derived {
        Some((address, _)) => if address == expected_pda {
            Ok(())
        } else {
            Err(ErrorCode::Unauthorized)
        },
        None => Err(ErrorCode::Unauthorized),
    }
}

/// Compares an address that a caller supplied with a derivation: any other
/// address than the derived one, and a derivation that failed, is refused
/// as `Unauthorized`.
pub fn check_pda(expected_pda: &Pubkey, derived: Option<(Pubkey, u8)>) -> (checked: Result<(), ErrorCode>)
    ensures
        checked == pda_check(expected_pda@, pda_bytes(derived)),
{
    match derived {
        Some((address, _)) => {
            if address == *expected_pda {
                Ok(())
            } else {
                Err(ErrorCode::Unauthorized)
            }
        },
        None => Err(ErrorCode::Unauthorized),
    }
}

/// Checks that `expected_pda` is the address of the record of `user_key`.
pub fn validate_pda(expected_pda: &Pubkey, user_key: &Pubkey, program_id: &Pubkey) -> (checked: Result<(), ErrorCode>)
    ensures
        checked == pda_check(expected_pda@, data_account_pda(user_key@, program_id@)),
        checked is Ok <==> is_data_account_address(expected_pda@, user_key@, program_id@),
{
    let derived = find_data_account_pda(user_key, program_id);
    check_pda(expected_pda, derived)
}

/// The last place at or before `index` at which the UTF-8 text `bytes` can
/// be cut without splitting a character.
pub open spec fn floor_char_boundary(bytes: Seq<u8>, index: int) -> int
    decreases index,
{
    if index <= 0 {
        0
    } else if is_char_boundary(bytes, index) {
        index
    } else {
        floor_char_boundary(bytes, index - 1)
    }
}

/// The text that `safe_truncate` makes of `data` for the limit
/// `max_length`: `data` itself where its bytes fit, else what fits of its
/// characters into three bytes less than the limit, followed by three dots.
pub open spec fn truncated(data: Seq<char>, max_length: int) -> Seq<char> {
    let bytes = encode_utf8(data);
    if bytes.len() <= max_length {
        data
    } else {
        let keep = if max_length >= 3 {
            max_length - 3
        } else {
            0
        };
        decode_utf8(bytes.subrange(0, floor_char_boundary(bytes, keep))) + "..."@
    }
}

/// Shortens a text for display. A text of at most `max_length` bytes comes
/// back as it is. A longer one is cut `max_length - 3` bytes from its start
/// (at 0 where the limit is under 3), or at the last end of a character
/// before that place, and three dots are added.
pub fn safe_truncate(data: &str, max_length: usize) -> (short: String)
    ensures
        short@ == truncated(data@, max_length as int),
{
    let ghost bytes = encode_utf8(data@);
    let length = data.as_bytes().len();
    if length <= max_length {
        return data.to_owned();
    }
    let keep = if max_length >= 3 {
        max_length - 3
    } else {
        0
    };
    proof {
        vstd::utf8::encode_utf8_valid_utf8(data@);
        vstd::utf8::is_char_boundary_start_end_of_seq(bytes);
    }
    let mut cut = keep;
    while !data.is_char_boundary(cut)
        invariant
            bytes == encode_utf8(data@),
            valid_utf8(bytes),
            is_char_boundary(bytes, 0),
            cut <= keep < bytes.len(),
            floor_char_boundary(bytes, cut as int) == floor_char_boundary(bytes, keep as int),
        decreases cut,
    {
        cut -= 1;
    }
    let (head, _) = data.split_at(cut);
    proof {
        vstd::utf8::encode_utf8_decode_utf8(head@);
        assert(encode_utf8(head@) == bytes.subrange(0, cut as int));
    }
    let mut short = head.to_owned();
    short.append("...");
    short
}

/// Counts of a text.
#[derive(Clone, Copy, Debug, PartialEq, Eq)]
pub struct DataStats {
    /// Length in bytes.
    pub length: usize,
    /// Number of words: runs of characters that are not whitespace.
    pub word_count: usize,
    /// Number of lines: every line feed ends one, and so does the end of the
    /// text after anything else.
    pub line_count: usize,
}

/// True where a word starts at position `i` of `text`: the character there
/// is not whitespace, and it is the first or follows whitespace.
pub open spec fn is_word_start(text: Seq<char>, i: int) -> bool {
    !is_whitespace(text[i]) && (i == 0 || is_whitespace(text[i - 1]))
}

/// Number of words in `text`.
pub open spec fn count_words(text: Seq<char>) -> nat
    decreases text.len(),
{
    if text.len() == 0 {
        0
    } else {
        count_words(text.drop_last()) + if is_word_start(text, text.len() - 1) {
            1nat
        } else {
            0nat
        }
    }
}

/// Number of line feeds in `text`.
pub open spec fn count_line_feeds(text: Seq<char>) -> nat
    decreases text.len(),
{
    if text.len() == 0 {
        0
    } else {
        count_line_feeds(text.drop_last()) + if text.last() == '\n' {
            1nat
        } else {
            0nat
        }
    }
}

/// Number of lines in `text`: one for each line feed, and one more where
/// something follows the last line feed.
pub open spec fn count_lines(text: Seq<char>) -> nat {
    count_line_feeds(text) + if text.len() > 0 && text.last() != '\n' {
        1nat
    } else {
        0nat
    }
}

/// A text has at most as many characters as bytes.
pub proof fn lemma_chars_le_bytes(text: Seq<char>)
    ensures
        text.len() <= payload_len(text),
    decreases text.len(),
{
    if text.len() > 0 {
        vstd::utf8::char_is_scalar(text[0]);
        assert(vstd::utf8::encode_scalar(text[0] as u32).len() >= 1);
        lemma_chars_le_bytes(text.drop_first());
    }
}

/// A text has at most as many words, and as many line feeds, as characters.
pub proof fn lemma_counts_le_len(text: Seq<char>)
    ensures
        count_words(text) <= text.len(),
        count_line_feeds(text) <= text.len(),
    decreases text.len(),
{
    if text.len() > 0 {
        lemma_counts_le_len(text.drop_last());
    }
}

/// Counts the bytes, the words and the lines of a text.
pub fn calculate_data_stats(data: &str) -> (stats: DataStats)
    ensures
        stats.length == payload_len(data@),
        stats.word_count == count_words(data@),
        stats.line_count == count_lines(data@),
{
    let length = data.as_bytes().len();
    proof {
        lemma_chars_le_bytes(data@);
    }
    let mut word_count: usize = 0;
    let mut line_feeds: usize = 0;
    let mut in_word = false;
    let mut open_line = false;
    let ghost text = data@;
    for c in it: data.chars()
        invariant
            it.seq() == text,
            text.len() <= usize::MAX,
            word_count == count_words(text.take(it.index() as int)),
            line_feeds == count_line_feeds(text.take(it.index() as int)),
            in_word == (it.index() > 0 && !is_whitespace(text[it.index() - 1])),
            open_line == (it.index() > 0 && text[it.index() - 1] != '\n'),
    {
        let ghost seen = text.take(it.index() as int);
        let ghost next = text.take(it.index() + 1);
        proof {
            assert(next.drop_last() == seen);
            assert(next.last() == c);
            lemma_counts_le_len(next);
        }
        let space = char_is_whitespace(c);
        if !space && !in_word {
            word_count += 1;
        }
        in_word = !space;
        if c == '\n' {
            line_feeds += 1;
        }
        open_line = c != '\n';
    }
    proof {
        assert(text.take(text.len() as int) == text);
        if open_line {
            lemma_counts_le_len(text.drop_last());
        }
    }
    let line_count = if open_line {
        line_feeds + 1
    } else {
        line_feeds
    };
    DataStats { length, word_count, line_count }
}

} // verus!
