//! Identities on the chat platform, and reading one from configuration text.

use vstd::prelude::*;
use crate::decimal::{
    decimal_text, lemma_parse_accepts_numerals, lemma_parse_of_decimal_text, parse_decimal,
    parse_u64, NumeralError,
};

verus! {

/// The identity of a user: the platform's number for the account. The
/// platform hands out no identity 0, and `string_to_user_id` reads none.
#[derive(Clone, Copy, Debug, PartialEq, Eq, Structural, Hash)]
pub struct UserId(pub u64);

/// The identity of a channel or of a thread.
#[derive(Clone, Copy, Debug, PartialEq, Eq, Structural, Hash)]
pub struct ChannelId(pub u64);

/// The identity of a message. The platform hands these out in the order in
/// which messages are sent, so a later message has a larger one.
#[derive(Clone, Copy, Debug, PartialEq, Eq, Structural, Hash)]
pub struct MessageId(pub u64);

/// Why a text is not the identity of a user.
#[derive(Clone, Copy, Debug, PartialEq, Eq, Structural)]
pub enum ParseUserIdError {
    /// The text is empty.
    Empty,
    /// A character is not one of `0` to `9`, or a sign stands alone.
    InvalidDigit,
    /// The digits denote a number above `u64::MAX`.
    PosOverflow,
    /// The digits denote 0, which is nobody's identity.
    Zero,
}

/// The error of an identity for the error of its numeral.
pub open spec fn numeral_failure(kind: NumeralError) -> ParseUserIdError {
    match kind {
        NumeralError::Empty => ParseUserIdError::Empty,
        NumeralError::InvalidDigit => ParseUserIdError::InvalidDigit,
        NumeralError::PosOverflow => ParseUserIdError::PosOverflow,
    }
}

/// What `string_to_user_id` owes for `text`: the identity that the text
/// writes as a decimal numeral, where it writes a number from 1 to
/// `u64::MAX`, and otherwise the reason why it writes none.
pub open spec fn user_id_of(text: Seq<char>) -> Result<UserId, ParseUserIdError> {
    match parse_decimal(text) {
        Ok(n) => if n == 0 {
            Err(ParseUserIdError::Zero)
        } else {
            Ok(UserId(n as u64))
        },
        Err(kind) => Err(numeral_failure(kind)),
    }
}

/// Reads the identity of a user from its decimal text, as configuration
/// holds it.
pub fn string_to_user_id(user_id_str: &str) -> (id: Result<UserId, ParseUserIdError>)
    ensures
        id == user_id_of(user_id_str@),
        id matches Ok(user) ==> user.0 != 0,
{
    match parse_u64(user_id_str) {
        Ok(n) => if n == 0 {
            Err(ParseUserIdError::Zero)
        } else {
            Ok(UserId(n))
        },
        Err(NumeralError::Empty) => Err(ParseUserIdError::Empty),
        Err(NumeralError::InvalidDigit) => Err(ParseUserIdError::InvalidDigit),
        Err(NumeralError::PosOverflow) => Err(ParseUserIdError::PosOverflow),
    }
}

impl ParseUserIdError {
    /// The words for this error.
    pub open spec fn text(self) -> Seq<char> {
        "Failed to parse user ID: "@ + match self {
            ParseUserIdError::Empty => "cannot parse integer from empty string"@,
            ParseUserIdError::InvalidDigit => "invalid digit found in string"@,
            ParseUserIdError::PosOverflow => "number too large to fit in target type"@,
            ParseUserIdError::Zero => "number would be zero for non-zero type"@,
        }
    }

    /// The words for this error, for a log or a caller's own error.
    pub fn describe(&self) -> (words: String)
        ensures
            words@ == self.text(),
    {
        let mut words = String::from_str("Failed to parse user ID: ");
        match self {
            ParseUserIdError::Empty => words.append("cannot parse integer from empty string"),
            ParseUserIdError::InvalidDigit => words.append("invalid digit found in string"),
            ParseUserIdError::PosOverflow => words.append(
                "number too large to fit in target type",
            ),
            ParseUserIdError::Zero => words.append("number would be zero for non-zero type"),
        }
        words
    }
}

/// Reading the decimal text of an identity gives the identity back.
pub proof fn lemma_user_id_round_trip(id: UserId)
    requires
        id.0 != 0,
    ensures
        user_id_of(decimal_text(id.0 as nat)) == Ok::<UserId, ParseUserIdError>(id),
{
    lemma_parse_of_decimal_text(id.0 as nat);
}

/// A text is read as an identity exactly when `parse_decimal` reads it as a
/// number from 1 to `u64::MAX`; the text of 0, in any spelling, is refused.
pub proof fn lemma_user_id_is_never_zero(text: Seq<char>)
    ensures
        user_id_of(text) is Ok <==> parse_decimal(text) is Ok && parse_decimal(text)->Ok_0 != 0,
        user_id_of(text) matches Ok(user) ==> user.0 != 0 && parse_decimal(text)
            == Ok::<int, NumeralError>(user.0 as int),
        user_id_of(text) == Err::<UserId, ParseUserIdError>(ParseUserIdError::Zero)
            <==> parse_decimal(text) == Ok::<int, NumeralError>(0),
{
    lemma_parse_accepts_numerals(text);
}

} // verus!
