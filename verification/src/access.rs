//! Who may do what: the checks that stand before every request.

use crate::text;
use vstd::prelude::*;

verus! {

/// Why a request was refused or failed.
#[derive(Clone, Debug, PartialEq)]
pub enum AppError {
    /// There is no valid API key.
    Unauthorized { message: String },
    /// The key belongs to someone else.
    Forbidden { message: String },
    /// Something behind the request failed.
    Failed { message: String },
}

/// How far the checks of a request have come.
#[derive(Debug, PartialEq)]
pub enum Authorization {
    /// The API key has to be read from the request.
    Key,
    /// It has to be asked whether the key is valid.
    Validity { api_key: String },
    /// The key is valid; it has to be asked whether it gives access to the user concerned.
    Access { api_key: String },
    /// The request may go on.
    Granted,
    /// The request is answered with an error.
    Refused { error: AppError },
}

/// The outcome of the check that was due.
#[derive(Debug, PartialEq)]
pub enum Checked {
    Key(Result<String, AppError>),
    Validity(Result<bool, AppError>),
    Access(Result<bool, AppError>),
}

/// What is answered to an invalid key.
pub open spec fn invalid_key(error: AppError) -> bool {
    error matches AppError::Unauthorized { message } && message@ == "Invalid API key"@
}

/// What is answered to a key of another user.
pub open spec fn not_yours(error: AppError, refusal: Seq<char>) -> bool {
    error matches AppError::Forbidden { message } && message@ == refusal
}

/// How one check moves a request: an error is passed on, a negative answer refuses, and an
/// answer that was not asked for changes nothing.
pub open spec fn moves(
    from: Authorization,
    checked: Checked,
    refusal: Seq<char>,
    to: Authorization,
) -> bool {
    match (from, checked) {
        (Authorization::Key, Checked::Key(Ok(api_key))) => to == Authorization::Validity {
            api_key,
        },
        (Authorization::Key, Checked::Key(Err(error))) => to == Authorization::Refused { error },
        (Authorization::Validity { api_key }, Checked::Validity(Ok(valid))) => if valid {
            to == Authorization::Access { api_key }
        } else {
            to matches Authorization::Refused { error } && invalid_key(error)
        },
        (Authorization::Validity { .. }, Checked::Validity(Err(error))) => to
            == Authorization::Refused { error },
        (Authorization::Access { .. }, Checked::Access(Ok(allowed))) => if allowed {
            to == Authorization::Granted
        } else {
            to matches Authorization::Refused { error } && not_yours(error, refusal)
        },
        (Authorization::Access { .. }, Checked::Access(Err(error))) => to
            == Authorization::Refused { error },
        _ => to == from,
    }
}

/// Takes the outcome of one check.
pub fn proceed(from: Authorization, checked: Checked, refusal: &str) -> (r: Authorization)
    ensures
        moves(from, checked, refusal@, r),
{
    match (from, checked) {
        (Authorization::Key, Checked::Key(found)) => match found {
            Ok(api_key) => Authorization::Validity { api_key },
            Err(error) => Authorization::Refused { error },
        },
        (Authorization::Validity { api_key }, Checked::Validity(answer)) => match answer {
            Ok(valid) => if valid {
                Authorization::Access { api_key }
            } else {
                Authorization::Refused {
                    error: AppError::Unauthorized { message: "Invalid API key".to_string() },
                }
            },
            Err(error) => Authorization::Refused { error },
        },
        (Authorization::Access { api_key }, Checked::Access(answer)) => match answer {
            Ok(allowed) => if allowed {
                Authorization::Granted
            } else {
                Authorization::Refused {
                    error: AppError::Forbidden { message: refusal.to_string() },
                }
            },
            Err(error) => Authorization::Refused { error },
        },
        (from, _) => from,
    }
}

/// A request that was refused stays refused, one that was granted stays granted.
pub proof fn law_verdicts_are_final(
    from: Authorization,
    checked: Checked,
    refusal: Seq<char>,
    to: Authorization,
)
    requires
        moves(from, checked, refusal, to),
        from is Granted || from is Refused,
    ensures
        to == from,
{
}

/// A request is granted only after three positive answers in turn: a key was found, it is
/// valid, and it gives access.
pub proof fn law_granted_only_if_all_agree(
    first: Checked,
    second: Checked,
    third: Checked,
    refusal: Seq<char>,
    a: Authorization,
    b: Authorization,
    c: Authorization,
)
    requires
        moves(Authorization::Key, first, refusal, a),
        moves(a, second, refusal, b),
        moves(b, third, refusal, c),
    ensures
        c is Granted <==> (first matches Checked::Key(Ok(_))) && second == Checked::Validity(
            Ok(true),
        ) && third == Checked::Access(Ok(true)),
{
}

} // verus!
