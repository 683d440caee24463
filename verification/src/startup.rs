//! Startup validation: the bot needs one credential, read from the
//! environment by the caller. When the credential is absent the process
//! must stop before any connection attempt.

use vstd::prelude::*;

verus! {

/// A startup failure: the only way startup can fail inside the library
/// is a missing credential.
#[derive(PartialEq, Eq, Structural, Debug)]
pub enum StartupError {
    MissingToken,
}

/// Decides whether startup may proceed. The caller hands in the result of
/// looking up the credential variable; a present credential is passed
/// through unchanged, an absent one is rejected.
pub fn validate_token(token: Option<String>) -> (r: Result<String, StartupError>)
    ensures
        r is Ok <==> token is Some,
        token matches Some(t) ==> (r matches Ok(u) && u@ == t@),
        token is None ==> r == Err::<String, StartupError>(StartupError::MissingToken),
{
    match token {
        Some(t) => Ok(t),
        None => Err(StartupError::MissingToken),
    }
}

} // verus!
