use lightr_server::domain::user::{check_policy, check_rules, Email, EmailValidationErr, Password, PasswordValidationErr};
use secrecy::{ExposeSecret, Secret};

#[test]
fn invalid_email_rejected() {
    let emails = &[
        "alex",
        "alex.pitsikoulis@test",
        "alex@test.",
        "alex@test.qwertyuiop",
        "_alex@test.com",
        "alex_@test.com",
        "alex@test.com_",
        "alex@_test.com",
    ];
    for email in emails {
        assert!(Email::parse(&email.to_string()).is_err());
    }
}

#[test]
fn valid_emails_parsed_successfully() {
    for email in [
        "alex.pitsikoulis@youwish.com",
        "jaleel_bins@example.net",
        "first-last+tag@mail.example.org",
        "a1@b2.io",
        "X@y-z.museum",
    ] {
        let parsed = Email::parse(email).expect(email);
        assert_eq!(parsed.as_ref(), email);
    }
}

#[test]
fn email_errors_name_the_failing_rule() {
    let cases = [
        ("alex", EmailValidationErr::NoSingleAtSign),
        ("a@b@c.com", EmailValidationErr::NoSingleAtSign),
        ("@test.com", EmailValidationErr::InvalidLocalPart),
        ("_alex@test.com", EmailValidationErr::InvalidLocalPart),
        ("al..ex@test.com", EmailValidationErr::InvalidLocalPart),
        ("alex.pitsikoulis@test", EmailValidationErr::InvalidDomain),
        ("alex@_test.com", EmailValidationErr::InvalidDomain),
        ("alex@.com", EmailValidationErr::InvalidDomain),
        ("alex@test.", EmailValidationErr::InvalidTopLevelDomain),
        ("alex@test.c", EmailValidationErr::InvalidTopLevelDomain),
        ("alex@test.qwertyuiop", EmailValidationErr::InvalidTopLevelDomain),
        ("alex@test.com_", EmailValidationErr::InvalidTopLevelDomain),
        ("alex@test.c0m", EmailValidationErr::InvalidTopLevelDomain),
    ];
    for (text, err) in cases {
        assert_eq!(Email::parse(text).unwrap_err(), err, "{}", text);
    }
}

#[test]
fn email_equality_is_by_text() {
    let a = Email::parse("alex@test.com").unwrap();
    let b = Email::parse(&"alex@test.com".to_string()).unwrap();
    let c = Email::parse("alex@test.org").unwrap();
    assert!(a == b);
    assert!(a != c);
    assert!(a.clone() == a);
}

#[test]
fn fails_when_less_than_8_grapheme() {
    let password = Secret::new("P@ssw0r".to_string());
    assert!(Password::from_text(password.expose_secret()).is_err());
}

#[test]
fn fails_when_more_than_64_grapheme() {
    let filler = "A".repeat(60);
    let password = Secret::new(format!("P@ss1{}", filler).to_string());
    assert!(Password::from_text(password.expose_secret()).is_err());
}

#[test]
fn fails_when_no_uppercase() {
    let password = Secret::new("n0neofyourbus!ness".to_string());
    assert!(Password::from_text(password.expose_secret()).is_err());
}

#[test]
fn fails_when_no_lowercase() {
    let password = Secret::new("N0NEOFYOURBUS!NESS".to_string());
    assert!(Password::from_text(password.expose_secret()).is_err());
}

#[test]
fn fails_when_no_number() {
    let password = Secret::new("Noneofyourbus!ness".to_string());
    assert!(Password::from_text(password.expose_secret()).is_err());
}

#[test]
fn fails_when_no_special_char() {
    let password = Secret::new("N0neofyourbusiness".to_string());
    assert!(Password::from_text(password.expose_secret()).is_err());
}

fn password_error(text: &str) -> PasswordValidationErr {
    Password::from_text(text).unwrap_err()
}

#[test]
fn password_errors_name_the_failing_rule() {
    assert!(matches!(password_error("c0!"), PasswordValidationErr::PwdTooShort));
    assert!(matches!(password_error("P@ssw0r"), PasswordValidationErr::PwdTooShort));
    assert!(matches!(password_error(&"c0!".repeat(24)), PasswordValidationErr::PwdTooLong));
    assert!(matches!(
        password_error(&format!("P@ss1{}", "A".repeat(60))),
        PasswordValidationErr::PwdTooLong
    ));
    assert!(matches!(password_error("PASSW0RD!"), PasswordValidationErr::PwdMissingLowercase));
    assert!(matches!(password_error("passw0rd!"), PasswordValidationErr::PwdMissingUppercase));
    assert!(matches!(password_error("Password!"), PasswordValidationErr::PwdMissingNumber));
    assert!(matches!(password_error("Passw0rd"), PasswordValidationErr::PwdMissingChar));
}

#[test]
fn password_length_counts_graphemes_not_chars() {
    // Eight characters, but the accent joins the `r`: seven graphemes.
    assert!(matches!(password_error("P@ssw0r\u{301}"), PasswordValidationErr::PwdTooShort));
    // Exactly eight graphemes is enough.
    assert!(Password::from_text("P@ssw0rd").is_ok());
    // Sixty-four is the most.
    let longest = format!("P@ss1{}", "a".repeat(59));
    assert_eq!(longest.chars().count(), 64);
    assert!(Password::from_text(&longest).is_ok());
}

#[test]
fn every_special_character_counts() {
    for c in lightr_server::domain::user::ALLOWED_PASSWORD_CHARS.chars() {
        let text = format!("Passw0rd{}", c);
        assert!(check_policy(&text).is_ok(), "{}", text);
    }
    assert_eq!(lightr_server::domain::user::ALLOWED_PASSWORD_CHARS.chars().count(), 32);
    assert!(matches!(
        check_policy("Passw0rd\u{e9}"),
        Err(PasswordValidationErr::PwdMissingChar)
    ));
    assert!(matches!(password_error("Passw0rd\u{e9}"), PasswordValidationErr::PwdMissingChar));
}

#[test]
fn accepted_password_compares_with_its_text_only() {
    let password = Password::from_text("N0neofyourbus!ness").unwrap();
    assert_ne!(password.as_ref(), "N0neofyourbus!ness");
    assert!(password.as_ref().starts_with("$argon2id$"));
    assert!(password.compare("N0neofyourbus!ness"));
    assert!(!password.compare("N0neofyourbus!nesS"));
    let copy = password.clone();
    assert_eq!(copy.as_ref(), password.as_ref());
}

#[test]
fn raw_hash_is_kept_as_is() {
    let stored = Password::from_text("Testp@ssw0rd!").unwrap();
    let read_back = Password::from_raw(stored.as_ref().to_string());
    assert_eq!(read_back.as_ref(), stored.as_ref());
    assert!(read_back.compare("Testp@ssw0rd!"));
    let garbage = Password::from_raw("not a hash".to_string());
    assert!(!garbage.compare("not a hash"));
}

#[test]
fn rules_take_the_grapheme_count_as_given() {
    assert!(matches!(check_rules("P@ssw0r", 7), Err(PasswordValidationErr::PwdTooShort)));
    assert!(check_rules("P@ssw0rd", 8).is_ok());
    assert!(check_rules("P@ssw0rd", 64).is_ok());
    assert!(matches!(check_rules("P@ssw0rd", 65), Err(PasswordValidationErr::PwdTooLong)));
    assert!(matches!(check_rules("password", 8), Err(PasswordValidationErr::PwdMissingUppercase)));
}

#[test]
fn ascii_text_counts_one_grapheme_per_character() {
    // Seven ASCII characters: too short, eight: long enough.
    assert!(matches!(check_policy("P@ssw0r"), Err(PasswordValidationErr::PwdTooShort)));
    assert!(check_policy("P@ssw0rd").is_ok());
    // A carriage return and a line feed make one grapheme.
    assert!(matches!(check_policy("P@ssw0\r\n"), Err(PasswordValidationErr::PwdTooShort)));
}
