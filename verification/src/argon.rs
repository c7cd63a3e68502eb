//! Argon2 password hashing and the operating system's random numbers, as
//! the `argon2` crate offers them. Nothing in this file is proved: each
//! contract states what the crate's source shows of the call it makes.

use argon2::password_hash::rand_core::OsRng;
use argon2::password_hash::rand_core::RngCore;
use argon2::password_hash::Error;
use argon2::password_hash::PasswordHash;
use argon2::password_hash::PasswordHasher;
use argon2::password_hash::PasswordVerifier;
use argon2::password_hash::SaltString;
use argon2::Argon2;
use vstd::prelude::*;

verus! {

/// What `argon2::password_hash::Error` reports. Its content is never read.
#[verifier::external_type_specification]
#[verifier::external_body]
pub struct ExPasswordHashError(Error);

/// The text that `SaltString::encode_b64` makes of `bytes`: their spelling
/// in the crate's base-64 alphabet, or nothing where the bytes are too many
/// for a salt.
pub uninterp spec fn salt_text(bytes: Seq<u8>) -> Option<Seq<char>>;

/// The PHC string that `Argon2::default()` hashes `password` to under the
/// salt that `salt` spells, or nothing where the crate reports an error.
pub uninterp spec fn argon2_hash(password: Seq<char>, salt: Seq<char>) -> Option<Seq<char>>;

/// Whether `PasswordHash::new` takes `stored` as a hash in the PHC string
/// format.
pub uninterp spec fn phc_well_formed(stored: Seq<char>) -> bool;

/// The parameters that the well-formed hash `stored` names, in the order in
/// which it names them, as `ParamsString::iter` walks them: each with its
/// name, and with its value where `Value::decimal` reads one. A name may
/// stand more than once.
pub uninterp spec fn phc_params(stored: Seq<char>) -> Seq<(Seq<char>, Option<u32>)>;

/// Whether Argon2 with its default settings, run on `password` with the
/// algorithm, parameters and salt that the well-formed hash `stored` names,
/// arrives at the output that `stored` holds.
pub uninterp spec fn argon2_accepts(password: Seq<char>, stored: Seq<char>) -> bool;

/// The largest degree of parallelism that Argon2 takes.
pub const MAX_PARALLELISM: u32 = 16_777_215;

/// The name under which a hash gives its degree of parallelism.
pub open spec fn parallelism_name() -> Seq<char> {
    "p"@
}

/// None of the parameters gives a degree of parallelism beyond the largest:
/// each decimal that stands under the name `p` is at most
/// `MAX_PARALLELISM`.
pub open spec fn parallelism_in_range(params: Seq<(Seq<char>, Option<u32>)>) -> bool {
    forall|i: int|
        0 <= i < params.len() && (#[trigger] params[i]).0 == parallelism_name() ==> (
        params[i].1 matches Some(p) ==> p <= MAX_PARALLELISM)
}

/// The parameters that a hash with Argon2's default settings names: 19 MiB
/// of memory, two passes, and a degree of parallelism of 1.
pub open spec fn default_params() -> Seq<(Seq<char>, Option<u32>)> {
    seq![("m"@, Some(19_456u32)), ("t"@, Some(2u32)), ("p"@, Some(1u32))]
}

/// What a list of parameters is, with each name as a sequence of
/// characters.
pub open spec fn params_view(params: Seq<(String, Option<u32>)>) -> Seq<(Seq<char>, Option<u32>)> {
    Seq::new(params.len(), |i: int| (params[i].0@, params[i].1))
}

/// `RngCore::try_fill_bytes` of `OsRng`, on a buffer of `len` bytes: the
/// filled buffer, or `None` where the operating system gave no random
/// bytes. Of the bytes only their number is claimed.
#[verifier::external_body]
pub(crate) fn os_random_bytes(len: usize) -> (bytes: Option<Vec<u8>>)
    ensures
        bytes matches Some(filled) ==> filled@.len() == len,
{
    let mut buffer = vec![0u8; len];
    match OsRng.try_fill_bytes(&mut buffer) {
        Ok(()) => Some(buffer),
        Err(_) => None,
    }
}

/// `SaltString::encode_b64`: `bytes` spelled as a salt, or `None` where the
/// crate reports an error. The text is the one that `salt_text` names. The
/// crate reports an error exactly where the text would not fit the 64
/// characters of a salt, which is where there are more than 48 bytes.
#[verifier::external_body]
pub(crate) fn encode_salt(bytes: &[u8]) -> (salt: Option<String>)
    ensures
        match salt {
            Some(text) => salt_text(bytes@) == Some(text@),
            None => salt_text(bytes@) is None,
        },
        salt is Some <==> bytes@.len() <= 48,
{
    match SaltString::encode_b64(bytes) {
        Ok(salt) => Some(salt.as_str().to_owned()),
        Err(_) => None,
    }
}

/// `PasswordHasher::hash_password` of `Argon2::default()`, on `password` and
/// the salt that `SaltString::from_b64` reads from `salt`: the hash written
/// as a PHC string, or the error that the crate reports, be it for the salt
/// or for the hashing. The string is the one that `argon2_hash` names. Of a
/// hash that comes back, the contract claims what the crate's documentation
/// shows as its use: written as a string, the hash is one that
/// `PasswordHash::new` parses, since the string names the algorithm, the
/// version, the parameters and the salt next to the output; its
/// parameters are the default ones, each named once; and `verify_password`
/// of `Argon2::default()` accepts `password` for it, since it computes the
/// same function from those again.
#[verifier::external_body]
pub(crate) fn hash_with_salt(password: &str, salt: &str) -> (hash: Result<String, Error>)
    ensures
        match hash {
            Ok(text) => argon2_hash(password@, salt@) == Some(text@),
            Err(_) => argon2_hash(password@, salt@) is None,
        },
        hash matches Ok(text) ==> phc_well_formed(text@) && phc_params(text@) == default_params()
            && argon2_accepts(password@, text@),
{
    let salt = match SaltString::from_b64(salt) {
        Ok(salt) => salt,
        Err(error) => return Err(error),
    };
    match Argon2::default().hash_password(password.as_bytes(), &salt) {
        Ok(hash) => Ok(hash.to_string()),
        Err(error) => Err(error),
    }
}

/// `PasswordHash::new`: parses `stored` as a PHC string. It succeeds exactly
/// on the strings that `phc_well_formed` names; the parsed value is dropped.
#[verifier::external_body]
pub(crate) fn parse_stored_hash(stored: &str) -> (parsed: Result<(), Error>)
    ensures
        parsed is Ok == phc_well_formed(stored@),
{
    match PasswordHash::new(stored) {
        Ok(_) => Ok(()),
        Err(error) => Err(error),
    }
}

/// `ParamsString::iter`, on the parameters of the parsed form of `stored`:
/// every parameter that the hash names, in its order, each as its name and
/// what `Value::decimal` reads of its value. Nothing is left out and nothing
/// is chosen; a string that is no hash has no parameters.
#[verifier::external_body]
pub(crate) fn stored_params(stored: &str) -> (params: Vec<(String, Option<u32>)>)
    ensures
        params_view(params@) == phc_params(stored@),
{
    let mut params = Vec::new();
    if let Ok(parsed) = PasswordHash::new(stored) {
        for (name, value) in parsed.params.iter() {
            params.push((name.as_str().to_owned(), value.decimal().ok()));
        }
    }
    params
}

/// `PasswordVerifier::verify_password` of `Argon2::default()`, on `password`
/// and the parsed form of `stored`: `true` exactly where it returns `Ok`.
/// A hash that gives a degree of parallelism beyond the largest, be it
/// under the first `p` or under a later one, is left out, since the crate
/// keeps the last and multiplies it before it tests it. The call takes the
/// memory and the passes that the parameters in `stored` ask for.
#[verifier::external_body]
pub(crate) fn verify_against(password: &str, stored: &str) -> (accepted: bool)
    requires
        phc_well_formed(stored@),
        parallelism_in_range(phc_params(stored@)),
    ensures
        accepted == argon2_accepts(password@, stored@),
{
    match PasswordHash::new(stored) {
        Ok(parsed) => Argon2::default().verify_password(password.as_bytes(), &parsed).is_ok(),
        Err(_) => false,
    }
}

} // verus!
