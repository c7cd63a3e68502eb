//! Password policy and hashing, the clock, and the token a request carries.

use crate::argon::argon2_accepts;
use crate::argon::argon2_hash;
use crate::argon::encode_salt;
use crate::argon::hash_with_salt;
use crate::argon::os_random_bytes;
use crate::argon::phc_params;
use crate::argon::phc_well_formed;
use crate::argon::salt_text;
use crate::clock::read_clock;
use crate::clock::timestamp;
use crate::model::token::TokenError;
use crate::model::user::password_check;
use crate::model::user::LoginError;
use crate::text::all_visible_ascii;
use crate::text::ascii_text;
use crate::text::decode_visible_ascii;
use crate::text::encode_hex;
use crate::text::hex_text;
use vstd::prelude::*;
use vstd::string::StrSliceExecFns;

verus! {

/// The number of random bytes in a token: 256 bits.
pub const TOKEN_ENTROPY_BYTES: usize = 32;

/// The number of random bytes in a salt.
pub const SALT_BYTES: usize = 16;

/// The fewest characters a password may have.
pub const PASSWORD_MIN_CHARS: usize = 10;

/// What leaves the system for an outcome of the hashing: the hash as it
/// is, and an internal error in place of whatever the hashing reported.
pub fn hashed(outcome: Result<String, argon2::password_hash::Error>) -> (hash: Result<
    String,
    LoginError,
>)
    ensures
        match outcome {
            Ok(text) => hash == Ok::<String, LoginError>(text),
            Err(_) => hash == Err::<String, LoginError>(LoginError::InternalServerError),
        },
{
    match outcome {
        Ok(text) => Ok(text),
        Err(error) => Err(LoginError::from(error)),
    }
}

/// Argon2 accepts `password` for the hash `stored`: a check of the password
/// against the hash answers that it matches.
pub open spec fn verifies(password: Seq<char>, stored: Seq<char>) -> bool {
    password_check(
        phc_well_formed(stored),
        phc_params(stored),
        argon2_accepts(password, stored),
    ) == Ok::<bool, LoginError>(true)
}

/// The random bytes, where there are any.
pub open spec fn entropy_view(entropy: Option<Vec<u8>>) -> Option<Seq<u8>> {
    match entropy {
        Some(bytes) => Some(bytes@),
        None => None,
    }
}

/// The hash of `password` under the salt that the random bytes `entropy`
/// spell. Without random bytes, with bytes that spell no salt, or where the
/// hashing reports an error, there is no hash but an internal error.
pub open spec fn password_hash(password: Seq<char>, entropy: Option<Seq<u8>>) -> Result<
    Seq<char>,
    LoginError,
> {
    match entropy {
        None => Err(LoginError::InternalServerError),
        Some(bytes) => match salt_text(bytes) {
            None => Err(LoginError::InternalServerError),
            Some(salt) => match argon2_hash(password, salt) {
                Some(hash) => Ok(hash),
                None => Err(LoginError::InternalServerError),
            },
        },
    }
}

/// `hash` is the outcome of hashing `password` under the salt that
/// `entropy` spells.
pub open spec fn hashed_from(
    password: Seq<char>,
    entropy: Option<Seq<u8>>,
    hash: Result<String, LoginError>,
) -> bool {
    match hash {
        Ok(text) => password_hash(password, entropy) == Ok::<Seq<char>, LoginError>(text@),
        Err(e) => password_hash(password, entropy) == Err::<Seq<char>, LoginError>(e),
    }
}

/// Hashes `password` with Argon2 under the salt that the random bytes
/// `entropy` spell. A hash that comes back holds the salt, and Argon2
/// accepts `password` for it.
pub fn hash_password_with(password: &str, entropy: Option<Vec<u8>>) -> (hash: Result<
    String,
    LoginError,
>)
    ensures
        hashed_from(password@, entropy_view(entropy), hash),
        hash matches Ok(text) ==> verifies(password@, text@),
{
    let bytes = match entropy {
        Some(bytes) => bytes,
        None => { return Err(LoginError::InternalServerError); },
    };
    match encode_salt(bytes.as_slice()) {
        Some(salt) => {
            proof {
                lemma_default_params_in_range();
            }
            hashed(hash_with_salt(password, salt.as_str()))
        },
        None => Err(LoginError::InternalServerError),
    }
}

/// Argon2's default parameters give a degree of parallelism that it takes.
pub proof fn lemma_default_params_in_range()
    ensures
        crate::argon::parallelism_in_range(crate::argon::default_params()),
{
    let params = crate::argon::default_params();
    assert(params.len() == 3);
    assert(params[0].1 == Some(19_456u32));
    assert(params[1].1 == Some(2u32));
    assert(params[2].1 == Some(1u32));
}

/// Hashes `password` with Argon2 under a salt drawn for this call: it is
/// `hash_password_with` on sixteen random bytes of the operating system, or
/// on none where the operating system gave none. The result is a PHC string
/// that holds the salt, so that the password can be verified against it
/// later: Argon2 accepts `password` for it. A failure of the drawing or of
/// the hashing is an internal error.
pub fn get_password_hash(password: &str) -> (hash: Result<String, LoginError>)
    ensures
        exists|entropy: Option<Seq<u8>>|
            (entropy matches Some(bytes) ==> bytes.len() == SALT_BYTES) && #[trigger] hashed_from(
                password@,
                entropy,
                hash,
            ),
        match hash {
            Ok(text) => verifies(password@, text@),
            Err(e) => e == LoginError::InternalServerError,
        },
{
    let entropy = os_random_bytes(SALT_BYTES);
    let ghost drawn = entropy_view(entropy);
    let hash = hash_password_with(password, entropy);
    assert(hashed_from(password@, drawn, hash));
    hash
}

/// The password policy: at least ten characters, and nothing else.
pub open spec fn meets_password_policy(password: Seq<char>) -> bool {
    password.len() >= 10
}

/// Tells whether `password` meets the password policy.
pub fn password_matches_requirements(password: &str) -> (ok: bool)
    ensures
        ok == meets_password_policy(password@),
{
    password.unicode_len() >= PASSWORD_MIN_CHARS
}

/// The time now, in milliseconds since the Unix epoch: the timestamp of
/// what the system clock reads. There is none where the clock reads a time
/// before the epoch, or one that no `i64` holds.
pub fn time_now() -> (now: Option<i64>)
    ensures
        now matches Some(millis) ==> millis >= 0,
{
    timestamp(read_clock())
}

/// The outcome of reading the token header. A request without the header
/// is unauthorized; a header that is not visible ASCII is a bad token; any
/// other header is the token, character for byte.
pub open spec fn header_token(token_header: Option<Seq<u8>>) -> Result<Seq<char>, TokenError> {
    match token_header {
        None => Err(TokenError::TokenUnauthorized),
        Some(bytes) => if all_visible_ascii(bytes) {
            Ok(ascii_text(bytes))
        } else {
            Err(TokenError::BadTokenFormat)
        },
    }
}

/// Reads the token from the value of the token header, where the request
/// has one.
pub fn get_token_from_header(token_header: Option<&[u8]>) -> (token: Result<String, TokenError>)
    ensures
        match token {
            Ok(text) => header_token(header_bytes(token_header)) == Ok::<Seq<char>, TokenError>(
                text@,
            ),
            Err(e) => header_token(header_bytes(token_header)) == Err::<Seq<char>, TokenError>(e),
        },
{
    match token_header {
        None => Err(TokenError::TokenUnauthorized),
        Some(bytes) => match decode_visible_ascii(bytes) {
            Some(text) => Ok(text),
            None => Err(TokenError::BadTokenFormat),
        },
    }
}

/// The bytes of a header value, where there is one.
pub open spec fn header_bytes(token_header: Option<&[u8]>) -> Option<Seq<u8>> {
    match token_header {
        Some(bytes) => Some(bytes@),
        None => None,
    }
}

/// The token string for the random bytes `entropy`: their hexadecimal
/// spelling. Without random bytes there is no token.
pub open spec fn token_text(entropy: Option<Seq<u8>>) -> Option<Seq<char>> {
    match entropy {
        Some(bytes) => Some(hex_text(bytes)),
        None => None,
    }
}

/// Writes random bytes out as a token string.
pub fn token_from_entropy(entropy: Option<Vec<u8>>) -> (token: Option<String>)
    ensures
        match token {
            Some(text) => entropy matches Some(bytes) && text@ == hex_text(bytes@),
            None => entropy is None,
        },
{
    match entropy {
        Some(bytes) => Some(encode_hex(bytes.as_slice())),
        None => None,
    }
}

/// A string is a token string where it spells 32 bytes in hexadecimal.
pub open spec fn is_token_string(text: Seq<char>) -> bool {
    exists|bytes: Seq<u8>| bytes.len() == 32 && #[trigger] hex_text(bytes) == text
}

/// Mints a token string from 256 random bits of the operating system.
/// `None` where the operating system gave none.
pub fn generate_token() -> (token: Option<String>)
    ensures
        token matches Some(text) ==> is_token_string(text@) && text@.len() == 64,
{
    let entropy = os_random_bytes(TOKEN_ENTROPY_BYTES);
    let ghost drawn = entropy;
    let token = token_from_entropy(entropy);
    proof {
        if let Some(bytes) = drawn {
            assert(hex_text(bytes@) == token.unwrap()@);
            assert(hex_text(bytes@).len() == 64);
        }
    }
    token
}

/// Token strings tell their random bytes apart: two draws that differ give
/// token strings that differ. That two draws do differ rests on the
/// operating system's random numbers, of which nothing is proved here.
pub proof fn lemma_distinct_entropy_distinct_tokens(a: Seq<u8>, b: Seq<u8>)
    requires
        a != b,
    ensures
        token_text(Some(a)) != token_text(Some(b)),
{
    if hex_text(a) == hex_text(b) {
        crate::text::lemma_hex_text_injective(a, b);
    }
}

} // verus!
