//! The credential check: a user acts by presenting the secret token that was
//! handed out when the user was created.

use crate::ident::Id;
use vstd::prelude::*;

verus! {

/// Why a presented pair of user identifier and secret token was turned
/// down.
#[derive(Debug, PartialEq)]
pub enum CredentialValidationError<E> {
    /// No user has the identifier presented.
    NonexistentUser,
    /// The user exists, and the token presented is not the user's.
    InvalidSecretToken,
    /// The store failed to look the user up.
    DatabaseError(E),
}

/// The verdict on a presented token, given what the store answered to the
/// lookup of the user's stored token: the store's failure, else that there
/// is no such user, else that the tokens differ, else approval.
pub open spec fn verdict<E>(stored: Result<Option<Id>, E>, presented: Id) -> Result<
    (),
    CredentialValidationError<E>,
> {
    match stored {
        Err(failure) => Err(CredentialValidationError::DatabaseError(failure)),
        Ok(None) => Err(CredentialValidationError::NonexistentUser),
        Ok(Some(token)) => if token == presented {
            Ok(())
        } else {
            Err(CredentialValidationError::InvalidSecretToken)
        },
    }
}

/// Decides whether `user_secret_token` is the token stored for the user,
/// `stored` being the store's answer to the lookup of that user's token.
/// Nothing is changed, so the check can be made again.
pub fn validate_user_credentials<E>(
    stored: Result<Option<Id>, E>,
    user_secret_token: Id,
) -> (checked: Result<(), CredentialValidationError<E>>)
    ensures
        checked == verdict(stored, user_secret_token),
{
    match stored {
        Err(failure) => Err(CredentialValidationError::DatabaseError(failure)),
        Ok(None) => Err(CredentialValidationError::NonexistentUser),
        Ok(Some(token)) => {
            if user_secret_token == token {
                Ok(())
            } else {
                Err(CredentialValidationError::InvalidSecretToken)
            }
        },
    }
}

/// Approval is owed to the stored token and to no other: the check approves
/// exactly where the store knows the user and the token presented is the
/// one stored.
pub proof fn law_only_the_stored_token_is_approved<E>(stored: Result<Option<Id>, E>, presented: Id)
    ensures
        verdict(stored, presented) is Ok <==> stored == Ok::<Option<Id>, E>(Some(presented)),
{
}

} // verus!
