//! Tokens: how one is issued, and how a token string that a request carries
//! is resolved to the principal it stands for.

use crate::clock::instant;
use crate::config::Config;
use crate::model::store::StoreError;
use crate::model::user::User;
use crate::util::generate_token;
use crate::util::get_token_from_header;
use crate::util::header_bytes;
use crate::util::header_token;
use crate::util::time_now;
use crate::util::is_token_string;
use vstd::prelude::*;

verus! {

/// The name of the one header that carries the token.
pub const TOKEN_HEADER: &'static str = "Token";

/// Why a request was kept from its handler.
#[derive(Debug, Clone, Copy, PartialEq, Eq, Structural)]
pub enum TokenError {
    /// The token header is there, but is not text.
    BadTokenFormat,
    /// No token, an unknown token, an expired token, or too little
    /// privilege. The caller cannot tell which.
    TokenUnauthorized,
    /// The store failed.
    InternalServerError,
}

/// A token as the store holds it, joined with the privilege its owner has
/// at the time of the lookup.
pub struct Token {
    pub user_id: i64,
    pub token_string: String,
    pub is_admin: bool,
    /// When the token was issued, in milliseconds since the Unix epoch.
    pub creation_time: i64,
}

/// What a token is, with its string as a sequence of characters.
pub struct TokenView {
    pub user_id: int,
    pub token_string: Seq<char>,
    pub is_admin: bool,
    pub creation_time: int,
}

impl View for Token {
    type V = TokenView;

    open spec fn view(&self) -> TokenView {
        TokenView {
            user_id: self.user_id as int,
            token_string: self.token_string@,
            is_admin: self.is_admin,
            creation_time: self.creation_time as int,
        }
    }
}

/// The identity that a request acts under once its token was accepted.
#[derive(Debug, Clone, Copy, PartialEq, Eq, Structural)]
pub struct Principal {
    pub user_id: i64,
    pub is_admin: bool,
}

/// A token issued at `creation_time` is expired at `now` where more than
/// `ttl` milliseconds lie between the two. At exactly `ttl` it is still
/// valid.
pub open spec fn token_expired(creation_time: int, now: int, ttl: int) -> bool {
    now - creation_time > ttl
}

/// What the validator answers to the outcome `found` of the lookup of a
/// token string, with the timestamp `now`: an internal error where the store
/// failed, unauthorized where it holds no such token, an internal error
/// where a token was found but there is no timestamp to judge it by,
/// unauthorized where the token is expired, and the token otherwise.
pub open spec fn validation(found: Result<Option<Token>, StoreError>, now: Option<int>, ttl: int)
    -> Result<Token, TokenError> {
    match found {
        Err(_) => Err(TokenError::InternalServerError),
        Ok(None) => Err(TokenError::TokenUnauthorized),
        Ok(Some(token)) => match now {
            None => Err(TokenError::InternalServerError),
            Some(millis) => if token_expired(token.creation_time as int, millis, ttl) {
                Err(TokenError::TokenUnauthorized)
            } else {
                Ok(token)
            },
        },
    }
}

/// The token that is issued to `user` with the token string `token_string`
/// and the timestamp `now`, or an internal error where either is missing.
pub open spec fn issued(user: User, token_string: Option<Seq<char>>, now: Option<int>) -> Result<
    TokenView,
    TokenError,
> {
    match (token_string, now) {
        (Some(token_string), Some(creation_time)) => Ok(
            TokenView {
                user_id: user.user_id as int,
                token_string,
                is_admin: user.is_admin,
                creation_time,
            },
        ),
        _ => Err(TokenError::InternalServerError),
    }
}

/// `token` is the outcome of issuing a token to `user` with `token_string`
/// and `now`.
pub open spec fn issued_as(
    user: User,
    token_string: Option<Seq<char>>,
    now: Option<int>,
    token: Result<Token, TokenError>,
) -> bool {
    match token {
        Ok(t) => issued(user, token_string, now) == Ok::<TokenView, TokenError>(t@),
        Err(e) => issued(user, token_string, now) == Err::<TokenView, TokenError>(e),
    }
}

/// The text of a string, where there is one.
pub open spec fn text_view(text: Option<String>) -> Option<Seq<char>> {
    match text {
        Some(s) => Some(s@),
        None => None,
    }
}

/// The row that a lookup of `token`'s string gives while the store holds
/// the token and its owner's privilege is `owner_is_admin`.
pub open spec fn joined_row(token: Token, owner_is_admin: bool) -> Token {
    Token {
        user_id: token.user_id,
        token_string: token.token_string,
        is_admin: owner_is_admin,
        creation_time: token.creation_time,
    }
}

impl TokenError {
    /// The HTTP status that stands for the error.
    pub open spec fn status(self) -> int {
        match self {
            TokenError::BadTokenFormat => 400,
            TokenError::TokenUnauthorized => 401,
            TokenError::InternalServerError => 500,
        }
    }

    /// The HTTP status to answer with.
    pub fn status_code(&self) -> (code: u16)
        ensures
            code == self.status(),
    {
        match self {
            TokenError::BadTokenFormat => 400,
            TokenError::TokenUnauthorized => 401,
            TokenError::InternalServerError => 500,
        }
    }

    /// The words that go out with the error.
    pub open spec fn text(self) -> Seq<char> {
        match self {
            TokenError::BadTokenFormat => "Bad Token"@,
            TokenError::TokenUnauthorized => "Unauthorized"@,
            TokenError::InternalServerError => "Internal Server Error"@,
        }
    }

    /// The error in words. They name the kind of the error and nothing of
    /// its cause.
    pub fn to_string(&self) -> (text: String)
        ensures
            text@ == self.text(),
    {
        match self {
            TokenError::BadTokenFormat => "Bad Token".to_owned(),
            TokenError::TokenUnauthorized => "Unauthorized".to_owned(),
            TokenError::InternalServerError => "Internal Server Error".to_owned(),
        }
    }

    /// The answer that goes out in place of the handler's: the status, and
    /// the error in words as the body.
    pub fn error_response(&self) -> (response: (u16, String))
        ensures
            response.0 == self.status(),
            response.1@ == self.text(),
    {
        (self.status_code(), self.to_string())
    }
}

impl From<StoreError> for TokenError {
    /// A failure of the store leaves the system as an internal error.
    fn from(error: StoreError) -> (e: TokenError) {
        TokenError::InternalServerError
    }
}

impl vstd::std_specs::convert::FromSpecImpl<StoreError> for TokenError {
    open spec fn obeys_from_spec() -> bool {
        true
    }

    open spec fn from_spec(error: StoreError) -> TokenError {
        TokenError::InternalServerError
    }
}

impl Token {
    /// The principal the token stands for.
    pub open spec fn spec_principal(&self) -> Principal {
        Principal { user_id: self.user_id, is_admin: self.is_admin }
    }

    /// The principal the token stands for: its user, with the privilege
    /// that the lookup found.
    pub fn principal(&self) -> (principal: Principal)
        ensures
            principal == self.spec_principal(),
    {
        Principal { user_id: self.user_id, is_admin: self.is_admin }
    }

    /// Puts a token together for `user` from a token string and the time of
    /// issuance. Where either is missing, no token is issued.
    pub fn assemble(user: &User, token_string: Option<String>, now: Option<i64>) -> (token: Result<
        Token,
        TokenError,
    >)
        ensures
            issued_as(*user, text_view(token_string), instant(now), token),
    {
        match (token_string, now) {
            (Some(token_string), Some(creation_time)) => Ok(
                Token { user_id: user.user_id, token_string, is_admin: user.is_admin, creation_time },
            ),
            _ => Err(TokenError::InternalServerError),
        }
    }

    /// Creates a new token for `user`, which the caller writes to the
    /// store: it is `assemble` on a token string minted for this call and on
    /// the time now. Whatever the random bytes and the clock, a token that
    /// comes back belongs to `user`, carries the user's privilege, and has
    /// one of the token strings; an error is an internal error.
    pub fn new(user: &User) -> (token: Result<Token, TokenError>)
        ensures
            exists|token_string: Option<Seq<char>>, now: Option<int>|
                {
                    &&& token_string matches Some(text) ==> is_token_string(text)
                    &&& now matches Some(millis) ==> 0 <= millis <= i64::MAX
                    &&& #[trigger] issued_as(*user, token_string, now, token)
                },
            match token {
                Ok(t) => {
                    &&& t.user_id == user.user_id
                    &&& t.is_admin == user.is_admin
                    &&& t.creation_time >= 0
                    &&& is_token_string(t.token_string@)
                },
                Err(e) => e == TokenError::InternalServerError,
            },
    {
        let token_string = generate_token();
        let now = time_now();
        let ghost minted = text_view(token_string);
        let token = Token::assemble(user, token_string, now);
        assert(issued_as(*user, minted, instant(now), token));
        token
    }

    /// What is left of a token once it was handed to the store: the token
    /// where the store wrote it, and an internal error where the write
    /// failed. The write is not tried again.
    pub fn stored(self, inserted: Result<(), StoreError>) -> (token: Result<Token, TokenError>)
        ensures
            token == match inserted {
                Ok(_) => Ok::<Token, TokenError>(self),
                Err(_) => Err(TokenError::InternalServerError),
            },
    {
        match inserted {
            Ok(()) => Ok(self),
            Err(error) => Err(TokenError::from(error)),
        }
    }

    /// The first phase of the guard, before the store is asked: the token
    /// string to look up, read from the value of the token header, or the
    /// error that ends the request without any lookup.
    pub fn from_request(token_header: Option<&[u8]>) -> (token_string: Result<String, TokenError>)
        ensures
            match token_string {
                Ok(text) => header_token(header_bytes(token_header)) == Ok::<
                    Seq<char>,
                    TokenError,
                >(text@),
                Err(e) => header_token(header_bytes(token_header)) == Err::<Seq<char>, TokenError>(
                    e,
                ),
            },
    {
        get_token_from_header(token_header)
    }

    /// The identity of the user to load for this token.
    pub fn into_user(self) -> (user_id: i64)
        ensures
            user_id == self.user_id,
    {
        self.user_id
    }

    /// Tells whether the token is expired at `now`.
    pub fn is_invalid_at(&self, now: i64, config: &Config) -> (invalid: bool)
        ensures
            invalid == token_expired(self.creation_time as int, now as int, config.ttl()),
    {
        let elapsed: i128 = now as i128 - self.creation_time as i128;
        elapsed > config.general.token_valid_duration as i128
    }

    /// Checks whether the token is expired by the system clock: it is
    /// judged at the time now, and where there is no timestamp, the answer is
    /// an internal error.
    pub fn is_invalid(&self, config: &Config) -> (invalid: Result<bool, TokenError>)
        ensures
            match invalid {
                Ok(expired) => exists|now: i64|
                    now >= 0 && expired == #[trigger] token_expired(
                        self.creation_time as int,
                        now as int,
                        config.ttl(),
                    ),
                Err(e) => e == TokenError::InternalServerError,
            },
    {
        match time_now() {
            Some(now) => {
                let expired = self.is_invalid_at(now, config);
                assert(expired == token_expired(
                    self.creation_time as int,
                    now as int,
                    config.ttl(),
                ));
                Ok(expired)
            },
            None => Err(TokenError::InternalServerError),
        }
    }

    /// Resolves the outcome `found` of the lookup of a token string, as
    /// the validator does with the timestamp `now`.
    pub fn validate(found: Result<Option<Token>, StoreError>, now: Option<i64>, config: &Config)
        -> (token: Result<Token, TokenError>)
        ensures
            token == validation(found, instant(now), config.ttl()),
    {
        match found {
            Err(error) => Err(TokenError::from(error)),
            Ok(None) => Err(TokenError::TokenUnauthorized),
            Ok(Some(token)) => match now {
                None => Err(TokenError::InternalServerError),
                Some(millis) => {
                    if token.is_invalid_at(millis, config) {
                        Err(TokenError::TokenUnauthorized)
                    } else {
                        Ok(token)
                    }
                },
            },
        }
    }

    /// Resolves the outcome `found` of the lookup of a token string by the
    /// system clock: it is `validate` on the time now. A failure of the
    /// store is an internal error and a missing row is unauthorized,
    /// whatever the clock reads.
    pub fn from_str(found: Result<Option<Token>, StoreError>, config: &Config) -> (token: Result<
        Token,
        TokenError,
    >)
        ensures
            exists|now: Option<int>|
                (now matches Some(millis) ==> 0 <= millis <= i64::MAX) && token
                    == #[trigger] validation(found, now, config.ttl()),
            found is Err ==> token == Err::<Token, TokenError>(TokenError::InternalServerError),
            found == Ok::<Option<Token>, StoreError>(None) ==> token == Err::<Token, TokenError>(
                TokenError::TokenUnauthorized,
            ),
    {
        let now = time_now();
        let token = Token::validate(found, now, config);
        assert(token == validation(found, instant(now), config.ttl()));
        token
    }
}

/// Round trip of issuing and validating: a token that was just issued to
/// `user` is found valid at the time of its issuance, under any
/// time-to-live that is not negative, and resolves to the user's identity
/// and the user's privilege.
pub proof fn lemma_issue_validate_round_trip(
    user: User,
    token_string: Seq<char>,
    now: i64,
    ttl: int,
    token: Token,
)
    requires
        issued(user, Some(token_string), Some(now as int)) == Ok::<TokenView, TokenError>(token@),
        ttl >= 0,
    ensures
        validation(Ok(Some(joined_row(token, user.is_admin))), Some(now as int), ttl) == Ok::<
            Token,
            TokenError,
        >(joined_row(token, user.is_admin)),
        joined_row(token, user.is_admin).spec_principal() == (Principal {
            user_id: user.user_id,
            is_admin: user.is_admin,
        }),
        joined_row(token, user.is_admin)@ == token@,
{
}

/// The expiry boundary is inclusive: a token of age exactly `ttl` is valid,
/// and one millisecond later it is unauthorized.
pub proof fn lemma_expiry_boundary(token: Token, ttl: int)
    ensures
        validation(Ok(Some(token)), Some(token.creation_time + ttl), ttl) == Ok::<
            Token,
            TokenError,
        >(token),
        validation(Ok(Some(token)), Some(token.creation_time + ttl + 1), ttl) == Err::<
            Token,
            TokenError,
        >(TokenError::TokenUnauthorized),
{
}

/// A token is valid exactly while its age is at most the time-to-live.
pub proof fn lemma_valid_iff_young(token: Token, now: int, ttl: int)
    ensures
        validation(Ok(Some(token)), Some(now), ttl) is Ok <==> now - token.creation_time <= ttl,
{
}

/// An unknown token and an expired one get the same answer: the validator
/// does not tell whether a token ever existed.
pub proof fn lemma_unknown_and_expired_alike(expired: Token, now: int, ttl: int)
    requires
        token_expired(expired.creation_time as int, now, ttl),
    ensures
        validation(Ok(Some(expired)), Some(now), ttl) == validation(Ok(None), Some(now), ttl),
        validation(Ok(None), Some(now), ttl) == Err::<Token, TokenError>(
            TokenError::TokenUnauthorized,
        ),
{
}

/// The privilege is read anew at each validation: whatever privilege the
/// token was issued under, a validation that succeeds answers with the
/// privilege that its owner has when the token is looked up.
pub proof fn lemma_privilege_rechecked(token: Token, current_is_admin: bool, now: int, ttl: int)
    requires
        !token_expired(token.creation_time as int, now, ttl),
    ensures
        validation(Ok(Some(joined_row(token, current_is_admin))), Some(now), ttl) matches Ok(valid)
            && valid.spec_principal() == (Principal {
            user_id: token.user_id,
            is_admin: current_is_admin,
        }),
{
}

/// A failure of the store is answered as an internal error, and as nothing
/// else: it is never taken for an unknown token.
pub proof fn lemma_store_failure_is_internal(error: StoreError, now: Option<int>, ttl: int)
    ensures
        validation(Err(error), now, ttl) == Err::<Token, TokenError>(
            TokenError::InternalServerError,
        ),
        TokenError::InternalServerError.status() == 500,
        TokenError::TokenUnauthorized.status() == 401,
{
}

/// Without a timestamp no token is found valid: a token that the store
/// holds is answered with an internal error, whatever its age, and none is
/// issued.
pub proof fn lemma_no_timestamp_is_internal(
    token: Token,
    user: User,
    token_string: Option<Seq<char>>,
    ttl: int,
)
    ensures
        validation(Ok(Some(token)), None, ttl) == Err::<Token, TokenError>(
            TokenError::InternalServerError,
        ),
        issued(user, token_string, None) == Err::<TokenView, TokenError>(
            TokenError::InternalServerError,
        ),
{
}

/// Two tokens that were issued with the same token string were issued from
/// the same random bytes, to whomever and whenever.
pub proof fn lemma_issued_strings_tell_entropy(
    first: User,
    second: User,
    a: Seq<u8>,
    b: Seq<u8>,
    now: int,
    later: int,
)
    requires
        issued(first, crate::util::token_text(Some(a)), Some(now)) matches Ok(one) && issued(
            second,
            crate::util::token_text(Some(b)),
            Some(later),
        ) matches Ok(other) && one.token_string == other.token_string,
    ensures
        a == b,
{
    crate::text::lemma_hex_text_injective(a, b);
}

} // verus!
