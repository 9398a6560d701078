use vstd::prelude::*;

use crate::error::PsqlError;
use crate::models::{LoginPayload, UserPassword};
use crate::text::same_text;

verus! {

/// Checks a login attempt against the row that the backend returned for its
/// user name.
pub fn validate_user(fetched: Result<UserPassword, PsqlError>, user: &LoginPayload) -> (r: Result<
    (),
    PsqlError,
>)
    ensures
        match fetched {
            Err(e) => r == Err::<(), PsqlError>(e),
            Ok(row) => if row.pwd@.len() == 0 {
                r is Err && r->Err_0 is RowNotFound
            } else if row.pwd@ == user.pwd@ {
                r is Ok
            } else {
                r is Err && r->Err_0 is PasswordMismatch
            },
        },
{
    match fetched {
        Err(e) => Err(e),
        Ok(row) => {
            if row.pwd.as_str().is_empty() {
                Err(PsqlError::RowNotFound)
            } else if same_text(row.pwd.as_str(), user.pwd) {
                Ok(())
            } else {
                Err(PsqlError::PasswordMismatch)
            }
        },
    }
}

} // verus!
