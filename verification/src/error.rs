//! The error kinds of the record store.

use vstd::prelude::*;

verus! {

/// Number of the first error kind; the kinds are numbered from here in the
/// order of their declaration.
pub const ERROR_CODE_OFFSET: u32 = 6000;

/// Why an operation was aborted. Every kind ends the operation; nothing is
/// retried and nothing is applied in part.
#[derive(Clone, Copy, Debug, PartialEq, Eq, Structural)]
pub enum ErrorCode {
    /// The caller is not the owner of the record.
    Unauthorized,
    /// The payload has no content.
    DataEmpty,
    /// The payload is longer than the record can hold.
    DataTooLong,
    /// A record already occupies the owner's address.
    AccountAlreadyExists,
    /// No record occupies the address.
    AccountNotFound,
    /// An arithmetic result does not fit.
    MathOverflow,
    /// The ledger clock gave a time that is not positive.
    InvalidTimestamp,
}

impl ErrorCode {
    /// Position of the kind in the declaration, from zero.
    pub open spec fn ordinal(self) -> nat {
        match self {
            ErrorCode::Unauthorized => 0,
            ErrorCode::DataEmpty => 1,
            ErrorCode::DataTooLong => 2,
            ErrorCode::AccountAlreadyExists => 3,
            ErrorCode::AccountNotFound => 4,
            ErrorCode::MathOverflow => 5,
            ErrorCode::InvalidTimestamp => 6,
        }
    }

    /// The message that belongs to the kind.
    pub open spec fn message(self) -> Seq<char> {
        match self {
            ErrorCode::Unauthorized => "无权访问此数据"@,
            ErrorCode::DataEmpty => "数据不能为空"@,
            ErrorCode::DataTooLong => "数据长度超过1000字符限制"@,
            ErrorCode::AccountAlreadyExists => "数据账户已存在"@,
            ErrorCode::AccountNotFound => "数据账户不存在"@,
            ErrorCode::MathOverflow => "数学运算溢出"@,
            ErrorCode::InvalidTimestamp => "无效的时间戳"@,
        }
    }

    /// The number of the kind: the offset plus its position.
    pub open spec fn code(self) -> int {
        ERROR_CODE_OFFSET + self.ordinal()
    }

    /// The number under which the kind is reported.
    pub fn error_code(&self) -> (code: u32)
        ensures
            code == self.code(),
            ERROR_CODE_OFFSET <= code < ERROR_CODE_OFFSET + 7,
    {
        match self {
            ErrorCode::Unauthorized => ERROR_CODE_OFFSET,
            ErrorCode::DataEmpty => ERROR_CODE_OFFSET + 1,
            ErrorCode::DataTooLong => ERROR_CODE_OFFSET + 2,
            ErrorCode::AccountAlreadyExists => ERROR_CODE_OFFSET + 3,
            ErrorCode::AccountNotFound => ERROR_CODE_OFFSET + 4,
            ErrorCode::MathOverflow => ERROR_CODE_OFFSET + 5,
            ErrorCode::InvalidTimestamp => ERROR_CODE_OFFSET + 6,
        }
    }

    /// The message shown to the user for the kind.
    pub fn error_msg(&self) -> (msg: &'static str)
        ensures
            msg@ == self.message(),
    {
        match self {
            ErrorCode::Unauthorized => "无权访问此数据",
            ErrorCode::DataEmpty => "数据不能为空",
            ErrorCode::DataTooLong => "数据长度超过1000字符限制",
            ErrorCode::AccountAlreadyExists => "数据账户已存在",
            ErrorCode::AccountNotFound => "数据账户不存在",
            ErrorCode::MathOverflow => "数学运算溢出",
            ErrorCode::InvalidTimestamp => "无效的时间戳",
        }
    }

    /// Two different kinds are never reported under the same number.
    pub proof fn lemma_codes_distinct(a: ErrorCode, b: ErrorCode)
        requires
            a != b,
        ensures
            a.code() != b.code(),
    {
    }

    /// Two different kinds never share a message.
    pub proof fn lemma_messages_distinct(a: ErrorCode, b: ErrorCode)
        requires
            a != b,
        ensures
            a.message() != b.message(),
    {
        reveal_strlit("无权访问此数据");
        reveal_strlit("数据不能为空");
        reveal_strlit("数据长度超过1000字符限制");
        reveal_strlit("数据账户已存在");
        reveal_strlit("数据账户不存在");
        reveal_strlit("数学运算溢出");
        reveal_strlit("无效的时间戳");
        let ma = a.message();
        let mb = b.message();
        if ma.len() == mb.len() {
            assert(ma[0] != mb[0] || ma[2] != mb[2] || ma[4] != mb[4]);
        }
    }
}

} // verus!
