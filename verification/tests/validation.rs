use actix_web::body::MessageBody;
use actix_web::HttpResponse;
use lightr_server::domain::user::{EmailValidationErr, PasswordValidationErr, UserValidationError};

fn status_and_body(resp: HttpResponse) -> (u16, Vec<u8>) {
    let status = resp.status().as_u16();
    let body = match resp.into_body().try_into_bytes() {
        Ok(bytes) => bytes.to_vec(),
        Err(_) => panic!("the body is not in memory"),
    };
    (status, body)
}

#[test]
fn email_errors_answer_bad_request_with_their_name() {
    let err = UserValidationError::EmailValidationErr(EmailValidationErr::InvalidDomain);
    assert_eq!(err.status_code(), 400);
    assert_eq!(err.message().unwrap(), "Email is not valid: InvalidDomain");
    let (status, body) = status_and_body(err.handle_http());
    assert_eq!(status, 400);
    assert_eq!(body, b"Email is not valid: InvalidDomain".to_vec());
    for e in [
        EmailValidationErr::NoSingleAtSign,
        EmailValidationErr::InvalidLocalPart,
        EmailValidationErr::InvalidTopLevelDomain,
    ] {
        let err = UserValidationError::EmailValidationErr(e);
        assert_eq!(err.message().unwrap(), format!("Email is not valid: {:?}", e));
    }
}

#[test]
fn password_errors_answer_bad_request_with_their_message() {
    let cases = [
        (PasswordValidationErr::PwdTooShort, "Password is too short, must be no shorter than 8 characters"),
        (PasswordValidationErr::PwdTooLong, "Password is too long, must be no more than 64 characters"),
        (PasswordValidationErr::PwdMissingLowercase, "Password must contain at least one lowercase letter"),
        (PasswordValidationErr::PwdMissingUppercase, "Password must contain at least one uppsercase letter"),
        (PasswordValidationErr::PwdMissingNumber, "Password must contain at least one number"),
        (
            PasswordValidationErr::PwdMissingChar,
            "Password must contain at least one special character (\" # $ % & ' ( ) * + , - . / : ; < = > ? @ [ \\ ] ^ _ ` { | } ~ )",
        ),
    ];
    for (e, text) in cases {
        let err = UserValidationError::PasswordValidationErr(e);
        assert_eq!(err.message().unwrap(), text);
        let (status, body) = status_and_body(err.handle_http());
        assert_eq!(status, 400);
        assert_eq!(body, text.as_bytes().to_vec());
    }
}

#[test]
fn hashing_failure_answers_internal_server_error() {
    let err = UserValidationError::PasswordValidationErr(PasswordValidationErr::ArgonErr(
        argon2::password_hash::Error::Password,
    ));
    assert_eq!(err.status_code(), 500);
    assert!(err.message().is_none());
    let (status, body) = status_and_body(err.handle_http());
    assert_eq!(status, 500);
    assert!(body.is_empty());
}
