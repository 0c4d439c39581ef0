use lightr_server::domain::user::{Email, EmailValidationErr, Password, User};
use lightr_server::handlers::user::UserSignupFormData;
use lightr_server::time::Timestamp;
use uuid::Uuid;

const TEST_USER_PASSWORD: &str = "Testp@ssw0rd!";

fn at(secs: i64) -> Timestamp {
    Timestamp { secs, nanos: 0 }
}

fn sample_user() -> User {
    User::new(
        Uuid::from_u128(7),
        Email::parse("alex.pitsikoulis@youwish.com").unwrap(),
        Password::from_text(TEST_USER_PASSWORD).unwrap(),
        "alex.pitsikoulis".to_string(),
        None,
        0,
        false,
        at(1_700_000_000),
        at(1_700_000_000),
        None,
    )
}

#[test]
fn new_user_reads_back_what_it_was_given() {
    let user = sample_user();
    assert_eq!(user.id(), Uuid::from_u128(7));
    assert_eq!(user.email().as_ref(), "alex.pitsikoulis@youwish.com");
    assert_eq!(user.name(), "alex.pitsikoulis");
    assert!(user.password().compare(TEST_USER_PASSWORD));
    assert_eq!(user.profile_photo(), None);
    assert_eq!(user.failed_attempts(), 0);
    assert!(!user.email_confirmed());
    assert_eq!(user.created_at(), at(1_700_000_000));
    assert_eq!(user.updated_at(), at(1_700_000_000));
    assert_eq!(user.deleted_at(), None);
}

#[test]
fn setters_change_one_field() {
    let mut user = sample_user();
    user.set_id(Uuid::from_u128(9));
    assert_eq!(user.id(), Uuid::from_u128(9));
    user.set_email(Email::parse("other@youwish.com").unwrap());
    assert_eq!(user.email().as_ref(), "other@youwish.com");
    user.set_name("alex".to_string());
    assert_eq!(user.name(), "alex");
    user.set_password(Password::from_text("N0neofyourbus!ness").unwrap());
    assert!(user.password().compare("N0neofyourbus!ness"));
    assert!(!user.password().compare(TEST_USER_PASSWORD));
    user.set_profile_photo(Some("photo.png".to_string()));
    assert_eq!(user.profile_photo(), Some("photo.png".to_string()));
    user.set_email_confirmed(true);
    assert!(user.email_confirmed());
    user.set_updated_at(at(1_800_000_000));
    assert_eq!(user.updated_at(), at(1_800_000_000));
    assert_eq!(user.created_at(), at(1_700_000_000));
    user.set_deleted_at(Some(at(1_900_000_000)));
    assert_eq!(user.deleted_at(), Some(at(1_900_000_000)));
    assert_eq!(user.name(), "alex");
}

#[test]
fn email_string_is_checked_before_it_is_set() {
    let mut user = sample_user();
    assert_eq!(user.set_email_string("new@mail.com".to_string()), Ok(()));
    assert_eq!(user.email().as_ref(), "new@mail.com");
    assert_eq!(
        user.set_email_string("not an email".to_string()),
        Err(EmailValidationErr::NoSingleAtSign)
    );
    assert_eq!(user.email().as_ref(), "new@mail.com");
}

#[test]
fn failed_attempts_count_up_and_reset() {
    let mut user = sample_user();
    user.increment_failed_attempts();
    user.increment_failed_attempts();
    user.increment_failed_attempts();
    assert_eq!(user.failed_attempts(), 3);
    user.reset_failed_attempts();
    assert_eq!(user.failed_attempts(), 0);
}

#[test]
fn equality_ignores_password_and_times() {
    let a = sample_user();
    let mut b = a.clone();
    assert!(a == b);
    b.set_password(Password::from_text("N0neofyourbus!ness").unwrap());
    b.set_updated_at(at(42));
    assert!(a == b);
    b.set_name("someone else".to_string());
    assert!(a != b);
    let mut c = a.clone();
    c.set_id(Uuid::from_u128(8));
    assert!(a != c);
    let mut d = a.clone();
    d.set_deleted_at(Some(at(1)));
    assert!(a != d);
}

fn sample_form() -> UserSignupFormData {
    UserSignupFormData {
        id: Uuid::from_u128(11),
        email: Email::parse("alex.pitsikoulis@youwish.com").unwrap(),
        password: Password::from_text("N0neofyourbus!ness").unwrap(),
        name: "alex.pitsikoulis".to_string(),
    }
}

#[test]
fn signup_form_makes_a_fresh_user() {
    let user = User::from_signup_form_at(sample_form(), at(1_234));
    assert_eq!(user.id(), Uuid::from_u128(11));
    assert_eq!(user.name(), "alex.pitsikoulis");
    assert_eq!(user.email().as_ref(), "alex.pitsikoulis@youwish.com");
    assert!(user.password().compare("N0neofyourbus!ness"));
    assert_eq!(user.profile_photo(), None);
    assert_eq!(user.failed_attempts(), 0);
    assert!(!user.email_confirmed());
    assert_eq!(user.created_at(), at(1_234));
    assert_eq!(user.updated_at(), at(1_234));
    assert_eq!(user.deleted_at(), None);
}

#[test]
fn signup_form_now_stamps_both_times_alike() {
    let user = User::from_signup_form(sample_form());
    assert_eq!(user.created_at(), user.updated_at());
    assert!(user.created_at().secs > 1_600_000_000);
    assert_eq!(user.deleted_at(), None);
}
