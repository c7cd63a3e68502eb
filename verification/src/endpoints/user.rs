//! Registration, and the caller's own record.

use crate::model::store::StoreError;
use crate::model::user::NewUser;
use crate::model::user::User;
use crate::model::user::UserRecord;
use crate::util::meets_password_policy;
use crate::util::password_matches_requirements;
use crate::util::verifies;
use vstd::prelude::*;

verus! {

/// An answer of the user routes that is not the body of a success.
#[derive(Debug, Clone, Copy, PartialEq, Eq, Structural)]
pub enum Reply {
    /// The user was registered under this identity.
    Created { user_id: i64 },
    /// The user name is taken, in whatever case.
    Conflict,
    /// The password does not meet the password policy.
    BadRequest,
    /// The store or the hashing failed.
    InternalServerError,
}

impl Reply {
    /// The HTTP status that stands for the answer.
    pub open spec fn status(self) -> int {
        match self {
            Reply::Created { .. } => 201,
            Reply::Conflict => 409,
            Reply::BadRequest => 400,
            Reply::InternalServerError => 500,
        }
    }

    /// The HTTP status to answer with.
    pub fn status_code(&self) -> (code: u16)
        ensures
            code == self.status(),
    {
        match self {
            Reply::Created { .. } => 201,
            Reply::Conflict => 409,
            Reply::BadRequest => 400,
            Reply::InternalServerError => 500,
        }
    }

    /// The words that go out with a refusal; a success and a conflict
    /// carry none.
    pub open spec fn text(self) -> Seq<char> {
        match self {
            Reply::BadRequest => "Password does not meet the requirements"@,
            Reply::InternalServerError => "Internal Server Error"@,
            _ => Seq::empty(),
        }
    }

    /// The words of the answer.
    pub fn message(&self) -> (text: String)
        ensures
            text@ == self.text(),
    {
        match self {
            Reply::BadRequest => "Password does not meet the requirements".to_owned(),
            Reply::InternalServerError => "Internal Server Error".to_owned(),
            _ => String::new(),
        }
    }
}

/// Why a registration is refused before anything is written, if it is: a
/// failure of the store first, then a user name that is taken, then a
/// password that does not meet the policy.
pub open spec fn refusal(password: Seq<char>, existing: Result<bool, StoreError>) -> Option<Reply> {
    match existing {
        Err(_) => Some(Reply::InternalServerError),
        Ok(true) => Some(Reply::Conflict),
        Ok(false) => if meets_password_policy(password) {
            None
        } else {
            Some(Reply::BadRequest)
        },
    }
}

/// Decides whether the registration of `new_user` is refused, given whether
/// the store holds the user name already.
pub fn check_registration(new_user: &NewUser, existing: Result<bool, StoreError>) -> (refused:
    Option<Reply>)
    ensures
        refused == refusal(new_user.password@, existing),
{
    match existing {
        Err(_) => Some(Reply::InternalServerError),
        Ok(true) => Some(Reply::Conflict),
        Ok(false) => {
            if password_matches_requirements(new_user.password.as_str()) {
                None
            } else {
                Some(Reply::BadRequest)
            }
        },
    }
}

/// Takes a registration as far as the row to write: the refusal where
/// there is one, and else the row with the password hashed, or an internal
/// error where the hashing failed.
pub fn create_user(new_user: &NewUser, existing: Result<bool, StoreError>) -> (row: Result<
    UserRecord,
    Reply,
>)
    ensures
        match refusal(new_user.password@, existing) {
            Some(reply) => row == Err::<UserRecord, Reply>(reply),
            None => match row {
                Ok(record) => verifies(new_user.password@, record.password@) && exists|now: int|
                    0 <= now <= i64::MAX && #[trigger] User::registered(
                        *new_user,
                        record.password@,
                        now,
                        record,
                    ),
                Err(reply) => reply == Reply::InternalServerError,
            },
        },
{
    match check_registration(new_user, existing) {
        Some(reply) => Err(reply),
        None => match User::prepare(new_user) {
            Ok(record) => Ok(record),
            Err(_) => Err(Reply::InternalServerError),
        },
    }
}

/// The answer to a registration once the row was written: the new
/// identity, or an internal error where the store failed.
pub fn created(user: &Result<User, StoreError>) -> (reply: Reply)
    ensures
        reply == match *user {
            Ok(u) => Reply::Created { user_id: u.user_id },
            Err(_) => Reply::InternalServerError,
        },
{
    match user {
        Ok(u) => Reply::Created { user_id: u.user_id },
        Err(_) => Reply::InternalServerError,
    }
}

/// The caller's own record as the store gave it, or an internal error.
pub fn get_user(found: Result<User, StoreError>) -> (user: Result<User, Reply>)
    ensures
        user == match found {
            Ok(u) => Ok::<User, Reply>(u),
            Err(_) => Err(Reply::InternalServerError),
        },
{
    match found {
        Ok(u) => Ok(u),
        Err(_) => Err(Reply::InternalServerError),
    }
}

} // verus!
