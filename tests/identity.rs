use iso_server::data::Data;
use iso_server::error::StoreError;
use iso_server::user::{code_char_of, code_from_bytes, User, CODE_LEN, TOKEN_LEN};
use iso_server::verification::{check_status, normalize_phone_number, pending_reference};

const ALPHABET: &str = "234679QWERTYUPADFGHX";

#[test]
fn code_characters_from_bytes() {
    assert_eq!(code_char_of(0), '2');
    assert_eq!(code_char_of(19), 'X');
    assert_eq!(code_char_of(255), 'D');
    assert_eq!(code_from_bytes(&vec![0, 1, 20, 19]), "232X");
    assert_eq!(code_from_bytes(&vec![]), "");
}

#[test]
fn generated_tokens_use_alphabet() {
    let t = User::generate_token().unwrap();
    assert_eq!(t.chars().count(), TOKEN_LEN);
    assert!(t.chars().all(|c| ALPHABET.contains(c)));
    let c = User::generate_code().unwrap();
    assert_eq!(c.chars().count(), CODE_LEN);
    let u = User::new("id".to_string(), "+1".to_string()).unwrap();
    assert_eq!(u.get_token().chars().count(), TOKEN_LEN);
    assert_eq!(u.get_phone_number(), "+1");
    assert!(u.posts.is_empty());
}

#[test]
fn status_decisions() {
    assert_eq!(check_status(&Some("approved".to_string())), Ok(()));
    assert_eq!(check_status(&Some("pending".to_string())), Err(StoreError::VerificationFailed));
    assert_eq!(check_status(&None), Err(StoreError::ProviderError));
}

#[test]
fn pending_reference_from_reply() {
    assert_eq!(pending_reference("{\"url\": \"https://x/v/1\", \"status\": \"pending\"}"), Ok("https://x/v/1".to_string()));
    assert_eq!(pending_reference("{\"status\": \"pending\"}"), Err(StoreError::ProviderError));
    assert_eq!(pending_reference("not json"), Err(StoreError::ProviderError));
    assert_eq!(pending_reference("{\"url\": 5}"), Err(StoreError::ProviderError));
}

#[test]
fn phone_numbers_normalize() {
    assert_eq!(normalize_phone_number("044 668 18 00", "CH"), Ok("+41446681800".to_string()));
    assert_eq!(normalize_phone_number("+41 44 668 18 00", ""), Ok("+41446681800".to_string()));
    assert_eq!(normalize_phone_number("hello", "US"), Err(StoreError::InvalidPhoneNumber));
}

#[test]
fn check_verification_outcomes() {
    let mut d = Data::new();
    d.add_user(User::with_token("a".to_string(), "t".to_string(), "+1".to_string())).unwrap();
    assert_eq!(
        d.check_verification("a", "{\"status\": \"pending\"}").err(),
        Some(StoreError::VerificationFailed)
    );
    assert_eq!(d.check_verification("a", "garbage").err(), Some(StoreError::ProviderError));
    assert_eq!(d.check_verification("zz", "{\"status\": \"approved\"}").err(), Some(StoreError::NotFound));
    assert_eq!(d.users[0].verified, "");
    let u = d.check_verification("a", "{\"status\": \"approved\"}").unwrap();
    assert_eq!(u.verified, "true");
    assert_eq!(d.users[0].verified, "true");
}

#[test]
fn start_verification_records_reference() {
    let mut d = Data::new();
    d.add_user(User::with_token("a".to_string(), "t".to_string(), "+41446681800".to_string())).unwrap();
    let id = User::start_verification(&mut d, "+41446681800".to_string(), "{\"url\": \"ref-1\"}").unwrap();
    assert_eq!(id, "a");
    assert_eq!(d.users[0].verified, "ref-1");
    assert_eq!(d.users.len(), 1);

    let fresh = User::start_verification(&mut d, "+15551234567".to_string(), "{\"url\": \"ref-2\"}").unwrap();
    assert_eq!(d.users.len(), 2);
    let u = d.get_user_by_number("+15551234567").unwrap();
    assert_eq!(u.uuid, fresh);
    assert_eq!(u.verified, "ref-2");
    assert_eq!(u.get_token().chars().count(), TOKEN_LEN);

    assert_eq!(
        User::start_verification(&mut d, "+1999".to_string(), "{}"),
        Err(StoreError::ProviderError)
    );
    assert_eq!(d.users.len(), 2);
}

#[test]
fn user_copy_and_mutators() {
    let mut u = User::with_token("a".to_string(), "t".to_string(), "+1".to_string());
    u.add_post("p".to_string());
    u.add_claimed_post("q".to_string());
    u.set_verification_code("ref".to_string());
    let c = u.copied();
    assert_eq!(c.posts, vec!["p".to_string(), "q".to_string()]);
    assert_eq!(c.verified, "ref");
    assert_eq!(c.karma, 0);
}

#[test]
fn user_check_verification_marks_confirmed() {
    let mut u = User::with_token("a".to_string(), "t".to_string(), "+1".to_string());
    assert_eq!(u.check_verification("{\"status\": \"canceled\"}").err(), Some(StoreError::VerificationFailed));
    assert_eq!(u.verified, "");
    let c = u.check_verification("{\"status\": \"approved\", \"to\": \"+1\"}").unwrap();
    assert_eq!(c.verified, "true");
    assert_eq!(u.verified, "true");
}

#[test]
fn fresh_ids_are_hyphenated_v4() {
    let a = iso_server::user::fresh_uuid().unwrap();
    let b = iso_server::user::fresh_uuid().unwrap();
    assert_eq!(a.len(), 36);
    assert_eq!(a.chars().nth(14), Some('4'));
    assert_eq!(a.matches('-').count(), 4);
    assert_ne!(a, b);
}

#[test]
fn invalid_numbers_are_rejected() {
    assert_eq!(normalize_phone_number("123", "CH"), Err(StoreError::InvalidPhoneNumber));
    assert_eq!(normalize_phone_number("044 668 18 00", "not-a-region"), Err(StoreError::InvalidPhoneNumber));
}
