//! The one guard of the operations that are reserved for the administrator.

use vstd::prelude::*;
use crate::errors::ContractError;

verus! {

/// What the guard answers: `Ok` for the administrator, `Unauthorized` for
/// everybody else.
pub open spec fn admitted(caller: Seq<char>, admin: Seq<char>) -> Result<(), ContractError> {
    if caller == admin {
        Ok(())
    } else {
        Err(ContractError::Unauthorized)
    }
}

/// Admits the administrator and nobody else.
pub fn require_admin(caller: &String, admin: &String) -> (r: Result<(), ContractError>)
    ensures
        r == admitted(caller@, admin@),
{
    if *caller == *admin {
        Ok(())
    } else {
        Err(ContractError::Unauthorized)
    }
}

} // verus!
