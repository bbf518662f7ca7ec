//! Credential resolution: an explicit flag wins, the environment (with
//! any local config file already merged into it) comes second, and a
//! run without either fails before any network call.

use vstd::prelude::*;
use crate::errors::AppError;

verus! {

/// Resolve the access token. `flag` is the value of the command-line
/// flag; `env_token` is the environment variable, after any `.env`-style
/// file was loaded into the environment. Fails with `MissingCredential`
/// exactly when neither supplies a token.
pub fn resolve_token(flag: Option<String>, env_token: Option<String>) -> (res: Result<
    String,
    AppError,
>)
    ensures
        match res {
            Ok(token) => match flag {
                Some(f) => token == f,
                None => env_token matches Some(e) && token == e,
            },
            Err(e) => e == AppError::MissingCredential,
        },
        res is Err <==> (flag is None && env_token is None),
{
    match flag {
        Some(f) => Ok(f),
        None => match env_token {
            Some(e) => Ok(e),
            None => Err(AppError::MissingCredential),
        },
    }
}

} // verus!
