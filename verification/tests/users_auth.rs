use wepo::auth::{add_token_prefix, token_after_bearer, Claims};
use wepo::errors::{ErrorResponse, MyError};
use wepo::idgen::IdGenerator;
use wepo::paging::Paging;
use wepo::resp::ResultResponse;
use wepo::user::{create_salt, get_random_string, pwd_encrypt, validate_user, LoginUserDTO, User,
    UserData};

#[test]
fn salt() {
    println!("{}", create_salt());
}

#[test]
fn salts_are_thirty_alphanumerics() {
    let s = create_salt();
    assert_eq!(s.len(), 30);
    assert!(s.chars().all(|c| c.is_ascii_alphanumeric()));
    let r = get_random_string(8);
    assert_eq!(r.len(), 8);
    assert!(r.chars().all(|c| c.is_ascii_alphanumeric()));
}

#[test]
fn pwd_encrypt_is_salted_double_digest() {
    let salt = "abc".to_string();
    let expected = sha256::digest(format!("{}{}", sha256::digest("hello"), salt));
    assert_eq!(pwd_encrypt("hello", &salt), expected);
    // The digest is not the identity and the salt matters.
    assert_ne!(pwd_encrypt("hello", &salt), "hello");
    assert_ne!(pwd_encrypt("hello", &salt), pwd_encrypt("hello", &"xyz".to_string()));
}

fn user_row(pwd: Option<String>, salt: &str) -> User {
    User {
        id: 5,
        nick: "bob".to_string(),
        pwd,
        _salt: salt.to_string(),
        avatar_url: None,
        create_time: 19_700,
    }
}

#[test]
fn login_decision_covers_every_case() {
    let salt = "s4lt";
    let stored = pwd_encrypt("secret", &salt.to_string());
    let with_pwd = user_row(Some(stored), salt);
    let without_pwd = user_row(None, salt);

    let login = |pwd: Option<&str>| LoginUserDTO {
        nick: "bob".to_string(),
        pwd: pwd.map(|p| p.to_string()),
    };

    // Token logins are already authenticated.
    assert!(validate_user(&with_pwd, &login(None), true).is_ok());
    // No stored password: anyone may log in.
    assert!(validate_user(&without_pwd, &login(None), false).is_ok());
    // Stored password but none given: code 201.
    assert_eq!(
        validate_user(&with_pwd, &login(None), false).unwrap_err(),
        MyError::OkError(201)
    );
    // Wrong password: code 202.
    assert_eq!(
        validate_user(&with_pwd, &login(Some("nope")), false).unwrap_err(),
        MyError::OkError(202)
    );
    // Right password: the public view comes back.
    let data = validate_user(&with_pwd, &login(Some("secret")), false).unwrap();
    assert_eq!(data.id, 5);
    assert_eq!(data.nick, "bob");
}

#[test]
fn avatar_defaults_from_nick() {
    let d = UserData::new(&1, &"bob".to_string(), None);
    assert_eq!(d.avatar_url, "https://avatars.dicebear.com/api/pixel-art-neutral/bob.svg");
    let e = UserData::new(&1, &"bob".to_string(), Some("http://x/y.png".to_string()));
    assert_eq!(e.avatar_url, "http://x/y.png");
    assert!(UserData::optional(&None, &Some("bob".to_string()), None).is_none());
    assert!(UserData::optional(&Some(1), &None, None).is_none());
    assert!(UserData::optional(&Some(1), &Some("bob".to_string()), None).is_some());
}

#[test]
fn claims_round_trip_to_user_info() {
    let c = Claims::new(&9, &"ann".to_string(), 12345);
    assert_eq!(c.iss, "wepo");
    assert_eq!(c.exp, 12345);
    let info = c.into_user_info();
    assert_eq!(info.id, 9);
    assert_eq!(info.nick, "ann");
}

#[test]
fn bearer_prefix_and_extraction() {
    assert_eq!(add_token_prefix("abc".to_string()), "Bearer abc");
    assert_eq!(token_after_bearer("Bearer abc"), "abc");
    assert_eq!(token_after_bearer("abc"), "abc");
    assert_eq!(token_after_bearer(""), "");
    // The last occurrence wins, as splitting on the prefix and popping did.
    assert_eq!(token_after_bearer("Bearer Bearer q"), "q");
}

#[test]
fn paging_resolves_offsets() {
    let p = Paging::default(&1).unwrap();
    assert_eq!(p.limit(), 20);
    assert_eq!(p.offset(), 0);
    let p3 = Paging::default(&3).unwrap();
    assert_eq!(p3.offset(), 40);
    assert_eq!(p3.page(), 3);
    let custom = Paging::new(10, &5).unwrap();
    assert_eq!(custom.offset(), 40);
    assert!(Paging::default(&0).is_err());
    assert!(Paging::default(&-2).is_err());
    assert!(custom.has_next(10));
    assert!(!custom.has_next(9));
}

#[test]
fn responses_carry_their_outcome() {
    assert!(ResultResponse::succ().is_succ());
    assert!(!ResultResponse::fail().is_succ());
    assert!(ResultResponse::new(true).is_succ());
    assert_eq!(ErrorResponse::new(&201).code, 201);
    assert_eq!(MyError::code(404), MyError::OkError(404));
}

#[test]
fn id_generator_yields_fresh_ids() {
    let mut ids = IdGenerator::new(1, 1);
    let a = ids.get_next_id().unwrap();
    let b = ids.get_next_id().unwrap();
    assert_ne!(a, b);
}
