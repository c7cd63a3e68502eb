use tiersortierer::config::{token_valid_duration_default, Config};
use tiersortierer::model::store::StoreError;
use tiersortierer::model::token::{Principal, Token, TokenError, TOKEN_HEADER};
use tiersortierer::model::user::User;
use tiersortierer::util::{generate_token, time_now, token_from_entropy};

const TWO_WEEKS: i64 = 1_209_600_000;

fn config(ttl: i64) -> Config {
    Config::new(Some(ttl), String::from("postgres://localhost/auth"))
}

fn user(user_id: i64, is_admin: bool) -> User {
    User {
        user_id,
        username: String::from("alice"),
        email_address: None,
        creation_time: 1,
        last_login_time: 2,
        is_admin,
    }
}

fn token(creation_time: i64, is_admin: bool) -> Token {
    Token {
        user_id: 42,
        token_string: String::from("00ff"),
        is_admin,
        creation_time,
    }
}

#[test]
fn default_duration_is_two_weeks_in_millis() {
    assert_eq!(token_valid_duration_default(), 1000 * 60 * 60 * 24 * 7 * 2);
    assert_eq!(token_valid_duration_default(), TWO_WEEKS);
}

#[test]
fn config_without_duration_takes_the_default() {
    let c = Config::new(None, String::from("postgres://db"));
    assert_eq!(c.general.token_valid_duration, TWO_WEEKS);
    assert_eq!(c.database.database_url, "postgres://db");
}

#[test]
fn config_keeps_a_given_duration() {
    let c = Config::new(Some(5_000), String::from("postgres://db"));
    assert_eq!(c.general.token_valid_duration, 5_000);
}

#[test]
fn token_header_name() {
    assert_eq!(TOKEN_HEADER, "Token");
}

#[test]
fn expiry_boundary_is_inclusive() {
    let c = config(1_000);
    let t = token(50_000, false);
    assert!(!t.is_invalid_at(50_000, &c));
    assert!(!t.is_invalid_at(50_999, &c));
    assert!(!t.is_invalid_at(51_000, &c));
    assert!(t.is_invalid_at(51_001, &c));
}

#[test]
fn expiry_boundary_with_the_default_duration() {
    let c = Config::new(None, String::new());
    let t = token(1_700_000_000_000, false);
    assert!(!t.is_invalid_at(1_700_000_000_000 + TWO_WEEKS, &c));
    assert!(t.is_invalid_at(1_700_000_000_000 + TWO_WEEKS + 1, &c));
}

#[test]
fn expiry_does_not_overflow_at_the_ends_of_the_range() {
    let c = config(i64::MAX);
    assert!(token(i64::MIN, false).is_invalid_at(i64::MAX, &c));
    assert!(!token(i64::MAX, false).is_invalid_at(i64::MIN, &c));
    assert!(!token(0, false).is_invalid_at(i64::MAX, &c));
    assert!(token(-1, false).is_invalid_at(i64::MAX, &c));
}

#[test]
fn a_token_from_the_future_is_valid() {
    let c = config(1_000);
    assert!(!token(10_000, false).is_invalid_at(5_000, &c));
}

#[test]
fn negative_duration_expires_a_token_at_once() {
    let c = config(-1);
    assert!(token(10_000, false).is_invalid_at(10_000, &c));
    assert!(!token(10_000, false).is_invalid_at(9_999, &c));
}

#[test]
fn is_invalid_by_the_clock() {
    let c = Config::new(None, String::new());
    assert_eq!(token(0, false).is_invalid(&c), Ok(true));
    assert_eq!(token(time_now().unwrap(), false).is_invalid(&c), Ok(false));
    assert_eq!(token(i64::MAX, false).is_invalid(&c), Ok(false));
}

#[test]
fn validate_unknown_token_is_unauthorized() {
    let c = config(1_000);
    let r = Token::validate(Ok(None), Some(5), &c);
    assert_eq!(r.err(), Some(TokenError::TokenUnauthorized));
}

#[test]
fn validate_expired_token_is_unauthorized() {
    let c = config(1_000);
    let r = Token::validate(Ok(Some(token(0, true))), Some(1_001), &c);
    assert_eq!(r.err(), Some(TokenError::TokenUnauthorized));
}

#[test]
fn unknown_and_expired_are_answered_alike() {
    let c = config(1_000);
    let unknown = Token::validate(Ok(None), Some(9_999), &c).err().unwrap();
    let expired = Token::validate(Ok(Some(token(0, false))), Some(9_999), &c).err().unwrap();
    assert_eq!(unknown, expired);
    assert_eq!(unknown.status_code(), expired.status_code());
    assert_eq!(unknown.to_string(), expired.to_string());
    assert_eq!(unknown.error_response(), expired.error_response());
}

#[test]
fn validate_store_failure_is_internal_error() {
    let c = config(1_000);
    let r = Token::validate(Err(StoreError), Some(5), &c);
    assert_eq!(r.err(), Some(TokenError::InternalServerError));
}

#[test]
fn validate_valid_token_gives_it_back() {
    let c = config(1_000);
    let r = Token::validate(Ok(Some(token(100, true))), Some(1_100), &c).unwrap();
    assert_eq!(r.user_id, 42);
    assert_eq!(r.token_string, "00ff");
    assert!(r.is_admin);
    assert_eq!(r.creation_time, 100);
    assert_eq!(r.principal(), Principal { user_id: 42, is_admin: true });
}

#[test]
fn from_str_by_the_clock() {
    let c = Config::new(None, String::new());
    assert_eq!(
        Token::from_str(Ok(None), &c).err(),
        Some(TokenError::TokenUnauthorized)
    );
    assert_eq!(
        Token::from_str(Err(StoreError), &c).err(),
        Some(TokenError::InternalServerError)
    );
    assert_eq!(
        Token::from_str(Ok(Some(token(0, false))), &c).err(),
        Some(TokenError::TokenUnauthorized)
    );
    let fresh = Token::from_str(Ok(Some(token(time_now().unwrap(), false))), &c).unwrap();
    assert_eq!(fresh.user_id, 42);
}

#[test]
fn assemble_spells_the_entropy_in_hex() {
    let t = Token::assemble(
        &user(7, true),
        token_from_entropy(Some(vec![0xde, 0xad, 0x00, 0x0f])),
        Some(123),
    ).unwrap();
    assert_eq!(t.user_id, 7);
    assert!(t.is_admin);
    assert_eq!(t.creation_time, 123);
    assert_eq!(t.token_string, "dead000f");
}

#[test]
fn assemble_without_a_token_string_is_internal_error() {
    let r = Token::assemble(&user(7, false), None, Some(123));
    assert_eq!(r.err(), Some(TokenError::InternalServerError));
}

#[test]
fn assemble_without_a_timestamp_is_internal_error() {
    let r = Token::assemble(&user(7, false), Some(String::from("00ff")), None);
    assert_eq!(r.err(), Some(TokenError::InternalServerError));
    let r = Token::assemble(&user(7, false), None, None);
    assert_eq!(r.err(), Some(TokenError::InternalServerError));
}

#[test]
fn validate_without_a_timestamp() {
    let c = config(1_000);
    assert_eq!(
        Token::validate(Ok(Some(token(0, true))), None, &c).err(),
        Some(TokenError::InternalServerError)
    );
    assert_eq!(
        Token::validate(Ok(Some(token(0, true))), None, &c).err().unwrap().status_code(),
        500
    );
    assert_eq!(
        Token::validate(Ok(None), None, &c).err(),
        Some(TokenError::TokenUnauthorized)
    );
    assert_eq!(
        Token::validate(Err(StoreError), None, &c).err(),
        Some(TokenError::InternalServerError)
    );
}

#[test]
fn token_from_entropy_exact() {
    assert_eq!(token_from_entropy(Some(vec![])), Some(String::new()));
    assert_eq!(
        token_from_entropy(Some(vec![0x01, 0x23, 0x45, 0x67, 0x89, 0xab, 0xcd, 0xef])),
        Some(String::from("0123456789abcdef"))
    );
    assert_eq!(token_from_entropy(None), None);
}

#[test]
fn generated_token_is_64_hex_digits() {
    let t = generate_token().unwrap();
    assert_eq!(t.len(), 64);
    assert!(t.chars().all(|c| c.is_ascii_digit() || ('a'..='f').contains(&c)));
}

#[test]
fn sequential_tokens_are_distinct() {
    let mut seen = std::collections::HashSet::new();
    for i in 0..200 {
        let t = Token::new(&user(i % 3, false)).unwrap();
        assert!(seen.insert(t.token_string));
    }
    assert_eq!(seen.len(), 200);
}

#[test]
fn new_token_belongs_to_the_user() {
    let before = time_now().unwrap();
    let t = Token::new(&user(9, true)).unwrap();
    let after = time_now().unwrap();
    assert_eq!(t.user_id, 9);
    assert!(t.is_admin);
    assert_eq!(t.token_string.len(), 64);
    assert!(before <= t.creation_time && t.creation_time <= after);
}

#[test]
fn issue_validate_round_trip() {
    let c = Config::new(None, String::new());
    for (id, admin) in [(1, false), (2, true), (-5, false)] {
        let u = user(id, admin);
        let issued = Token::new(&u).unwrap();
        let at = issued.creation_time;
        let valid = Token::validate(Ok(Some(issued)), Some(at), &c).unwrap();
        assert_eq!(valid.principal(), Principal { user_id: id, is_admin: admin });
    }
}

#[test]
fn privilege_is_rechecked_at_validation() {
    let c = config(1_000);
    let issued = Token::assemble(&user(3, false), token_from_entropy(Some(vec![1, 2, 3])), Some(10)).unwrap();
    assert!(!issued.is_admin);
    let row = Token {
        user_id: issued.user_id,
        token_string: issued.token_string.clone(),
        is_admin: true,
        creation_time: issued.creation_time,
    };
    let valid = Token::validate(Ok(Some(row)), Some(20), &c).unwrap();
    assert_eq!(valid.principal(), Principal { user_id: 3, is_admin: true });

    let issued = Token::assemble(&user(4, true), token_from_entropy(Some(vec![9])), Some(10)).unwrap();
    let row = Token {
        user_id: issued.user_id,
        token_string: issued.token_string.clone(),
        is_admin: false,
        creation_time: issued.creation_time,
    };
    let valid = Token::validate(Ok(Some(row)), Some(20), &c).unwrap();
    assert_eq!(valid.principal(), Principal { user_id: 4, is_admin: false });
}

#[test]
fn into_user_names_the_owner() {
    assert_eq!(token(0, false).into_user(), 42);
}

#[test]
fn token_error_statuses_and_words() {
    assert_eq!(TokenError::BadTokenFormat.status_code(), 400);
    assert_eq!(TokenError::TokenUnauthorized.status_code(), 401);
    assert_eq!(TokenError::InternalServerError.status_code(), 500);
    assert_eq!(TokenError::BadTokenFormat.to_string(), "Bad Token");
    assert_eq!(TokenError::TokenUnauthorized.to_string(), "Unauthorized");
    assert_eq!(TokenError::InternalServerError.to_string(), "Internal Server Error");
    assert_eq!(
        TokenError::TokenUnauthorized.error_response(),
        (401, String::from("Unauthorized"))
    );
}

#[test]
fn store_failure_becomes_internal_server_error() {
    assert_eq!(TokenError::from(StoreError), TokenError::InternalServerError);
}
