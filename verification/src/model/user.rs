//! Users: how one is registered, and how a login is decided.

use crate::argon::argon2_accepts;
use crate::argon::parallelism_in_range;
use crate::argon::parse_stored_hash;
use crate::argon::params_view;
use crate::argon::parallelism_name;
use crate::argon::phc_params;
use crate::argon::phc_well_formed;
use crate::argon::stored_params;
use crate::argon::verify_against;
use crate::clock::instant;
use crate::model::token::issued;
use crate::model::token::text_view;
use crate::model::store::StoreError;
use crate::model::store::StoredCredentials;
use crate::model::token::Token;
use crate::model::token::TokenError;
use crate::model::token::TokenView;
use crate::text::lowercased;
use crate::text::to_lowercase;
use crate::util::generate_token;
use crate::util::get_password_hash;
use crate::util::is_token_string;
use crate::util::time_now;
use crate::util::verifies;
use vstd::prelude::*;

verus! {

/// What a registration asks for.
pub struct NewUser {
    pub username: String,
    pub password: String,
    pub email_address: Option<String>,
}

/// What a login presents.
pub struct LoginUser {
    pub username: String,
    pub password: String,
}

/// A user as shown outward: without the password hash.
pub struct User {
    pub user_id: i64,
    pub username: String,
    pub email_address: Option<String>,
    pub creation_time: i64,
    pub last_login_time: i64,
    pub is_admin: bool,
}

/// The row that a registration writes to the store.
pub struct UserRecord {
    /// The user name in lower case.
    pub username: String,
    /// The password hash, never the password.
    pub password: String,
    pub email_address: Option<String>,
    pub creation_time: i64,
    pub last_login_time: i64,
    pub is_admin: bool,
}

/// Why a login was turned down.
#[derive(Debug, Clone, Copy, PartialEq, Eq, Structural)]
pub enum LoginError {
    /// No such user, or not the user's password. The caller cannot tell
    /// which.
    WrongCredentials,
    /// The store or the hashing failed.
    InternalServerError,
}

impl LoginError {
    /// The HTTP status that stands for the error.
    pub open spec fn status(self) -> int {
        match self {
            LoginError::WrongCredentials => 401,
            LoginError::InternalServerError => 500,
        }
    }

    /// The HTTP status to answer with.
    pub fn status_code(&self) -> (code: u16)
        ensures
            code == self.status(),
    {
        match self {
            LoginError::WrongCredentials => 401,
            LoginError::InternalServerError => 500,
        }
    }

    /// The words that go out with the error.
    pub open spec fn text(self) -> Seq<char> {
        match self {
            LoginError::WrongCredentials => "Incorrect Credentials Provided"@,
            LoginError::InternalServerError => "Internal Server Error"@,
        }
    }

    /// The error in words.
    pub fn to_string(&self) -> (text: String)
        ensures
            text@ == self.text(),
    {
        match self {
            LoginError::WrongCredentials => "Incorrect Credentials Provided".to_owned(),
            LoginError::InternalServerError => "Internal Server Error".to_owned(),
        }
    }

    /// The answer that goes out for the error: the status, and the error in
    /// words as the body.
    pub fn error_response(&self) -> (response: (u16, String))
        ensures
            response.0 == self.status(),
            response.1@ == self.text(),
    {
        (self.status_code(), self.to_string())
    }
}

impl From<StoreError> for LoginError {
    /// A failure of the store leaves the system as an internal error.
    fn from(error: StoreError) -> (e: LoginError) {
        LoginError::InternalServerError
    }
}

impl vstd::std_specs::convert::FromSpecImpl<StoreError> for LoginError {
    open spec fn obeys_from_spec() -> bool {
        true
    }

    open spec fn from_spec(error: StoreError) -> LoginError {
        LoginError::InternalServerError
    }
}

impl From<argon2::password_hash::Error> for LoginError {
    /// A failure of the hashing leaves the system as an internal error.
    fn from(error: argon2::password_hash::Error) -> (e: LoginError) {
        LoginError::InternalServerError
    }
}

impl vstd::std_specs::convert::FromSpecImpl<argon2::password_hash::Error> for LoginError {
    open spec fn obeys_from_spec() -> bool {
        true
    }

    open spec fn from_spec(error: argon2::password_hash::Error) -> LoginError {
        LoginError::InternalServerError
    }
}

impl From<TokenError> for LoginError {
    /// A token that could not be issued leaves the login as an internal
    /// error.
    fn from(error: TokenError) -> (e: LoginError) {
        LoginError::InternalServerError
    }
}

impl vstd::std_specs::convert::FromSpecImpl<TokenError> for LoginError {
    open spec fn obeys_from_spec() -> bool {
        true
    }

    open spec fn from_spec(error: TokenError) -> LoginError {
        LoginError::InternalServerError
    }
}

/// What the check of a password against a stored hash gives: an internal
/// error where the stored hash is malformed, no match where one of its
/// parameters gives a degree of parallelism that Argon2 does not take, and
/// otherwise whether Argon2 accepts the password.
pub open spec fn password_check(
    well_formed: bool,
    params: Seq<(Seq<char>, Option<u32>)>,
    accepted: bool,
) -> Result<bool, LoginError> {
    if !well_formed {
        Err(LoginError::InternalServerError)
    } else if !parallelism_in_range(params) {
        Ok(false)
    } else {
        Ok(accepted)
    }
}

/// Tells whether none of the parameters gives a degree of parallelism
/// beyond the largest, wherever in the list and however often the name
/// stands.
pub fn parallelism_ok(params: &Vec<(String, Option<u32>)>) -> (ok: bool)
    ensures
        ok == parallelism_in_range(params_view(params@)),
{
    let name = "p".to_owned();
    let mut i: usize = 0;
    while i < params.len()
        invariant
            i <= params.len(),
            name@ == parallelism_name(),
            forall|k: int|
                0 <= k < i && (#[trigger] params_view(params@)[k]).0 == parallelism_name() ==> (
                params_view(params@)[k].1 matches Some(p) ==> p <= crate::argon::MAX_PARALLELISM),
        decreases params.len() - i,
    {
        let named = params[i].0 == name;
        assert(named == (params_view(params@)[i as int].0 == parallelism_name()));
        if named {
            match params[i].1 {
                Some(parallelism) => {
                    if parallelism > crate::argon::MAX_PARALLELISM {
                        assert(params_view(params@)[i as int].1 == Some(parallelism));
                        return false;
                    }
                },
                None => {},
            }
        }
        i += 1;
    }
    true
}

/// Checks `password` against the hash `stored`. A malformed hash is an
/// internal error, never a match.
pub fn verify_password(password: &str, stored: &str) -> (matches: Result<bool, LoginError>)
    ensures
        matches == password_check(
            phc_well_formed(stored@),
            phc_params(stored@),
            argon2_accepts(password@, stored@),
        ),
{
    match parse_stored_hash(stored) {
        Err(error) => Err(LoginError::from(error)),
        Ok(()) => {
            let params = stored_params(stored);
            if parallelism_ok(&params) {
                Ok(verify_against(password, stored))
            } else {
                Ok(false)
            }
        },
    }
}

/// How a login ends once the account's record was asked for: an internal
/// error where the store failed or the stored hash is malformed, wrong
/// credentials where the password does not match, and else what the
/// issuing of the token gave.
pub open spec fn login_outcome(
    user: Result<User, StoreError>,
    check: Result<bool, LoginError>,
    minted: Result<TokenView, TokenError>,
) -> Result<TokenView, LoginError> {
    match user {
        Err(_) => Err(LoginError::InternalServerError),
        Ok(_) => match check {
            Err(e) => Err(e),
            Ok(false) => Err(LoginError::WrongCredentials),
            Ok(true) => match minted {
                Ok(token) => Ok(token),
                Err(_) => Err(LoginError::InternalServerError),
            },
        },
    }
}

impl LoginUser {
    /// The outcome of looking the user name up: the credentials to check
    /// against, wrong credentials where there is no such user, an internal
    /// error where the store failed.
    pub fn find_credentials(found: Result<Option<StoredCredentials>, StoreError>) -> (credentials:
        Result<StoredCredentials, LoginError>)
        ensures
            credentials == match found {
                Err(_) => Err::<StoredCredentials, LoginError>(LoginError::InternalServerError),
                Ok(None) => Err(LoginError::WrongCredentials),
                Ok(Some(row)) => Ok(row),
            },
    {
        match found {
            Err(error) => Err(LoginError::from(error)),
            Ok(None) => Err(LoginError::WrongCredentials),
            Ok(Some(row)) => Ok(row),
        }
    }

    /// `token` is how the login ends for the record `user` of the account
    /// and the credentials kept for it, where a token would be issued with
    /// `token_string` and `now`.
    pub open spec fn decided(
        &self,
        credentials: StoredCredentials,
        user: Result<User, StoreError>,
        token_string: Option<Seq<char>>,
        now: Option<int>,
        token: Result<Token, LoginError>,
    ) -> bool {
        match user {
            Err(_) => token == Err::<Token, LoginError>(LoginError::InternalServerError),
            Ok(u) => {
                let expected = login_outcome(
                    user,
                    password_check(
                        phc_well_formed(credentials.password@),
                        phc_params(credentials.password@),
                        argon2_accepts(self.password@, credentials.password@),
                    ),
                    issued(u, token_string, now),
                );
                match token {
                    Ok(t) => expected == Ok::<TokenView, LoginError>(t@),
                    Err(e) => expected == Err::<TokenView, LoginError>(e),
                }
            },
        }
    }

    /// Decides the login from the record `user` of the account, the
    /// credentials kept for it, and the token string and time to issue a
    /// token with.
    pub fn login_with(
        &self,
        credentials: &StoredCredentials,
        user: Result<User, StoreError>,
        token_string: Option<String>,
        now: Option<i64>,
    ) -> (token: Result<Token, LoginError>)
        ensures
            self.decided(*credentials, user, text_view(token_string), instant(now), token),
    {
        let user = match user {
            Err(error) => { return Err(LoginError::from(error)); },
            Ok(user) => user,
        };
        match verify_password(self.password.as_str(), credentials.password.as_str()) {
            Err(e) => Err(e),
            Ok(false) => Err(LoginError::WrongCredentials),
            Ok(true) => match Token::assemble(&user, token_string, now) {
                Ok(token) => Ok(token),
                Err(error) => Err(LoginError::from(error)),
            },
        }
    }

    /// Verifies the given credentials and creates a new token, which the
    /// caller writes to the store: it is `login_with` on a token string
    /// minted for this call and on the time now.
    pub fn login(&self, credentials: &StoredCredentials, user: Result<User, StoreError>) -> (token:
        Result<Token, LoginError>)
        ensures
            exists|token_string: Option<Seq<char>>, now: Option<int>|
                {
                    &&& token_string matches Some(text) ==> is_token_string(text)
                    &&& now matches Some(millis) ==> 0 <= millis <= i64::MAX
                    &&& #[trigger] self.decided(*credentials, user, token_string, now, token)
                },
            user is Err ==> token == Err::<Token, LoginError>(LoginError::InternalServerError),
            user is Ok && !phc_well_formed(credentials.password@) ==> token == Err::<
                Token,
                LoginError,
            >(LoginError::InternalServerError),
            user is Ok && phc_well_formed(credentials.password@) && !verifies(
                self.password@,
                credentials.password@,
            ) ==> token == Err::<Token, LoginError>(LoginError::WrongCredentials),
            user matches Ok(u) ==> (verifies(self.password@, credentials.password@) ==> match token {
                Ok(t) => {
                    &&& t.user_id == u.user_id
                    &&& t.is_admin == u.is_admin
                    &&& t.creation_time >= 0
                    &&& is_token_string(t.token_string@)
                },
                Err(e) => e == LoginError::InternalServerError,
            }),
    {
        let token_string = generate_token();
        let now = time_now();
        let ghost minted = text_view(token_string);
        let token = self.login_with(credentials, user, token_string, now);
        assert(self.decided(*credentials, user, minted, instant(now), token));
        token
    }
}

/// Registering and then logging in with the same password succeeds as far
/// as the password goes: against a stored hash that verifies the password,
/// the login ends as the issuing of the token does, and never as wrong
/// credentials.
pub proof fn lemma_registered_password_logs_in(
    login: LoginUser,
    credentials: StoredCredentials,
    user: User,
    token_string: Seq<char>,
    now: int,
    token: Result<Token, LoginError>,
)
    requires
        verifies(login.password@, credentials.password@),
        login.decided(credentials, Ok(user), Some(token_string), Some(now), token),
    ensures
        token matches Ok(t) && t@ == (TokenView {
            user_id: user.user_id as int,
            token_string,
            is_admin: user.is_admin,
            creation_time: now,
        }),
{
}

/// A copy of an optional string.
fn clone_optional(text: &Option<String>) -> (copy: Option<String>)
    ensures
        copy == *text,
{
    match text {
        Some(s) => Some(s.clone()),
        None => None,
    }
}

impl User {
    /// The row that registers `new_user` with the password hash
    /// `password_hash` at `now`: the user name in lower case, both
    /// timestamps at `now`, and no administrator's privilege.
    pub open spec fn registered(new_user: NewUser, password_hash: Seq<char>, now: int, record:
        UserRecord) -> bool {
        &&& record.username@ == lowercased(new_user.username@)
        &&& record.password@ == password_hash
        &&& record.email_address == new_user.email_address
        &&& record.creation_time == now
        &&& record.last_login_time == now
        &&& !record.is_admin
    }

    /// Puts the row together that registers `new_user`.
    pub fn record(new_user: &NewUser, password_hash: String, now: i64) -> (record: UserRecord)
        ensures
            User::registered(*new_user, password_hash@, now as int, record),
    {
        UserRecord {
            username: to_lowercase(new_user.username.as_str()),
            password: password_hash,
            email_address: clone_optional(&new_user.email_address),
            creation_time: now,
            last_login_time: now,
            is_admin: false,
        }
    }

    /// Hashes the password of `new_user` and stamps the row to write with
    /// the time now. Whatever the salt and the clock, a row that comes back
    /// holds a hash for which Argon2 accepts the password, the user name in
    /// lower case, and no administrator's privilege.
    pub fn prepare(new_user: &NewUser) -> (record: Result<UserRecord, LoginError>)
        ensures
            match record {
                Ok(row) => verifies(new_user.password@, row.password@) && exists|now: int|
                    0 <= now <= i64::MAX && #[trigger] User::registered(
                        *new_user,
                        row.password@,
                        now,
                        row,
                    ),
                Err(e) => e == LoginError::InternalServerError,
            },
    {
        let password_hash = match get_password_hash(new_user.password.as_str()) {
            Ok(hash) => hash,
            Err(e) => { return Err(e); },
        };
        let now = match time_now() {
            Some(now) => now,
            None => { return Err(LoginError::InternalServerError); },
        };
        let row = User::record(new_user, password_hash, now);
        assert(User::registered(*new_user, row.password@, now as int, row));
        Ok(row)
    }

    /// The user that the store registered under `inserted` from the row
    /// `record`, or the store's failure.
    pub fn new(record: UserRecord, inserted: Result<i64, StoreError>) -> (user: Result<
        User,
        StoreError,
    >)
        ensures
            match inserted {
                Ok(user_id) => user matches Ok(u) && {
                    &&& u.user_id == user_id
                    &&& u.username == record.username
                    &&& u.email_address == record.email_address
                    &&& u.creation_time == record.creation_time
                    &&& u.last_login_time == record.last_login_time
                    &&& u.is_admin == record.is_admin
                },
                Err(e) => user == Err::<User, StoreError>(e),
            },
    {
        match inserted {
            Ok(user_id) => Ok(
                User {
                    user_id,
                    username: record.username,
                    email_address: record.email_address,
                    creation_time: record.creation_time,
                    last_login_time: record.last_login_time,
                    is_admin: record.is_admin,
                },
            ),
            Err(e) => Err(e),
        }
    }

    /// The user that the store holds under an identity, or its failure.
    pub fn from_id(found: Result<User, StoreError>) -> (user: Result<User, LoginError>)
        ensures
            user == match found {
                Ok(u) => Ok::<User, LoginError>(u),
                Err(_) => Err(LoginError::InternalServerError),
            },
    {
        match found {
            Ok(u) => Ok(u),
            Err(error) => Err(LoginError::from(error)),
        }
    }

    /// Whether a user with the identity exists: whether the store gave any
    /// row for it.
    pub fn id_exists(rows: usize) -> (exists: bool)
        ensures
            exists == (rows > 0),
    {
        rows != 0
    }

    /// Whether a user with the user name exists, in whatever case: whether
    /// the store gave any row for it.
    pub fn username_exists(rows: usize) -> (exists: bool)
        ensures
            exists == (rows > 0),
    {
        rows != 0
    }

    /// Whether the store deleted the user without a failure.
    pub fn delete(deleted: Result<(), StoreError>) -> (ok: bool)
        ensures
            ok == deleted is Ok,
    {
        deleted.is_ok()
    }
}

} // verus!
