//! Validation of a message before it is played.

use vstd::prelude::*;

use crate::table::{allowed, is_allowed};

verus! {

/// The most characters that a message may have.
pub const MAX_MESSAGE_LEN: usize = 100;

/// Why a message was refused.
#[derive(Clone, Copy, Debug, PartialEq, Eq, Structural)]
pub enum MessageError {
    /// The message has no characters.
    EmptyInput,
    /// The message has more than `MAX_MESSAGE_LEN` characters.
    TooLong,
    /// A character of the message is neither a space nor in the table.
    UnsupportedCharacter,
}

/// The text that reports an error to a person.
pub open spec fn description_of(e: MessageError) -> Seq<char> {
    match e {
        MessageError::EmptyInput => "Message cannot be empty"@,
        MessageError::TooLong => "Message cannot be longer than 100 characters"@,
        MessageError::UnsupportedCharacter => "Message can only contain letters and numbers"@,
    }
}

impl MessageError {
    pub fn description(&self) -> (r: String)
        ensures
            r@ == description_of(*self),
    {
        match self {
            MessageError::EmptyInput => String::from_str("Message cannot be empty"),
            MessageError::TooLong => String::from_str(
                "Message cannot be longer than 100 characters",
            ),
            MessageError::UnsupportedCharacter => String::from_str(
                "Message can only contain letters and numbers",
            ),
        }
    }
}

/// The outcome of validating a message, given as its characters. Length is
/// counted in characters.
pub open spec fn validation(s: Seq<char>) -> Result<(), MessageError> {
    if s.len() == 0 {
        Err(MessageError::EmptyInput)
    } else if s.len() > MAX_MESSAGE_LEN {
        Err(MessageError::TooLong)
    } else if exists|i: int| 0 <= i < s.len() && !allowed(#[trigger] s[i]) {
        Err(MessageError::UnsupportedCharacter)
    } else {
        Ok(())
    }
}

/// Whether every character of a message may stand in it.
pub open spec fn all_allowed(s: Seq<char>) -> bool {
    forall|i: int| 0 <= i < s.len() ==> allowed(#[trigger] s[i])
}

/// Checks that a message is neither empty nor too long and that each of its
/// characters is a space or has a code in either case. The message
/// itself is not changed.
pub fn validate(msg: &str) -> (r: Result<(), MessageError>)
    ensures
        r == validation(msg@),
{
    let n = msg.unicode_len();
    if n == 0 {
        return Err(MessageError::EmptyInput);
    }
    if n > MAX_MESSAGE_LEN {
        return Err(MessageError::TooLong);
    }
    let mut i: usize = 0;
    while i < n
        invariant
            n == msg@.len(),
            0 < n <= MAX_MESSAGE_LEN,
            i <= n,
            forall|j: int| 0 <= j < i ==> allowed(#[trigger] msg@[j]),
        decreases n - i,
    {
        let c = msg.get_char(i);
        if !is_allowed(c) {
            assert(!allowed(msg@[i as int]));
            return Err(MessageError::UnsupportedCharacter);
        }
        i = i + 1;
    }
    Ok(())
}

/// The command-line arguments: the message to play.
pub struct Args {
    pub msg: String,
}

impl Args {
    /// Validates the message.
    pub fn check(&self) -> (r: Result<(), MessageError>)
        ensures
            r == validation(self.msg@),
    {
        validate(self.msg.as_str())
    }
}

/// A message with no characters is refused as empty.
pub proof fn lemma_empty_refused(s: Seq<char>)
    requires
        s.len() == 0,
    ensures
        validation(s) == Err::<(), MessageError>(MessageError::EmptyInput),
{
}

/// A message with more than `MAX_MESSAGE_LEN` characters is refused as too
/// long, whatever its characters.
pub proof fn lemma_too_long_refused(s: Seq<char>)
    requires
        s.len() > MAX_MESSAGE_LEN,
    ensures
        validation(s) == Err::<(), MessageError>(MessageError::TooLong),
{
}

/// A message of an allowed length is refused for its characters exactly
/// when one of them is neither a space nor in the table, and is accepted
/// otherwise.
pub proof fn lemma_characters_decide(s: Seq<char>)
    requires
        0 < s.len() <= MAX_MESSAGE_LEN,
    ensures
        (exists|i: int| 0 <= i < s.len() && !allowed(#[trigger] s[i])) ==> validation(s)
            == Err::<(), MessageError>(MessageError::UnsupportedCharacter),
        all_allowed(s) ==> validation(s) == Ok::<(), MessageError>(()),
{
}

} // verus!
