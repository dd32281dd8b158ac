//! The rules a new user must meet before anything is stored.

use vstd::prelude::*;
use crate::date::{is_iso_date, is_valid_date};
use crate::model::{text_view, NewUser, NewUserView};

verus! {

/// The fewest characters a handle may have.
pub const MIN_HANDLE_LEN: usize = 3;

/// Why a new user was turned down.
#[derive(Clone, Copy, Debug, PartialEq, Eq, Structural)]
pub enum ValidationError {
    /// The handle has fewer than three characters.
    HandleTooShort,
    /// The birthday is not a date written as `YYYY-MM-DD`.
    BirthdayMalformed,
}

/// The text sent back for a handle that is too short.
pub open spec fn handle_too_short_text() -> Seq<char> {
    "at_id should be at least 3 characters long"@
}

/// The text sent back for a birthday that is no date.
pub open spec fn birthday_malformed_text() -> Seq<char> {
    "birthday should be in format YYYY-MM-DD"@
}

impl ValidationError {
    /// The text sent back for this error.
    pub open spec fn text(self) -> Seq<char> {
        match self {
            ValidationError::HandleTooShort => handle_too_short_text(),
            ValidationError::BirthdayMalformed => birthday_malformed_text(),
        }
    }

    /// The fixed message that the caller is shown.
    pub fn message(&self) -> (message: &'static str)
        ensures
            message@ == self.text(),
    {
        match self {
            ValidationError::HandleTooShort => "at_id should be at least 3 characters long",
            ValidationError::BirthdayMalformed => "birthday should be in format YYYY-MM-DD",
        }
    }
}

/// A handle is accepted when it has at least three characters.
pub open spec fn handle_ok(handle: Seq<char>) -> bool {
    handle.len() >= MIN_HANDLE_LEN
}

/// A birthday is accepted when it is absent, or a date in the exact form
/// `YYYY-MM-DD` that names an existing day.
pub open spec fn birthday_ok(birthday: Option<Seq<char>>) -> bool {
    match birthday {
        None => true,
        Some(text) => is_iso_date(text),
    }
}

/// The verdict on a new user: the handle is judged first, the birthday only
/// when the handle passed.
pub open spec fn check_new_user(new_user: NewUserView) -> Result<(), ValidationError> {
    if !handle_ok(new_user.at_id) {
        Err(ValidationError::HandleTooShort)
    } else if !birthday_ok(new_user.birthday) {
        Err(ValidationError::BirthdayMalformed)
    } else {
        Ok(())
    }
}

/// Accepts a handle of at least three characters.
pub fn validate_handle(handle: &str) -> (verdict: Result<(), ValidationError>)
    ensures
        handle_ok(handle@) ==> verdict == Ok::<(), ValidationError>(()),
        !handle_ok(handle@) ==> verdict == Err::<(), ValidationError>(
            ValidationError::HandleTooShort,
        ),
{
    if handle.unicode_len() < MIN_HANDLE_LEN {
        Err(ValidationError::HandleTooShort)
    } else {
        Ok(())
    }
}

/// Accepts an absent birthday, and a present one that is a date in the exact
/// form `YYYY-MM-DD` naming an existing day.
pub fn validate_birthday(birthday: &Option<String>) -> (verdict: Result<(), ValidationError>)
    ensures
        birthday_ok(text_view(*birthday)) ==> verdict == Ok::<(), ValidationError>(()),
        !birthday_ok(text_view(*birthday)) ==> verdict == Err::<(), ValidationError>(
            ValidationError::BirthdayMalformed,
        ),
{
    match birthday {
        None => Ok(()),
        Some(text) => {
            if is_valid_date(text.as_str()) {
                Ok(())
            } else {
                Err(ValidationError::BirthdayMalformed)
            }
        },
    }
}

/// Judges a new user: the handle first, then the birthday. The first rule
/// that fails decides.
pub fn validate_new_user(new_user: &NewUser) -> (verdict: Result<(), ValidationError>)
    ensures
        verdict == check_new_user(new_user@),
{
    match validate_handle(new_user.at_id.as_str()) {
        Err(e) => Err(e),
        Ok(()) => validate_birthday(&new_user.birthday),
    }
}

} // verus!
