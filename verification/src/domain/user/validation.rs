//! Refused sign-up data and the HTTP answer to it.

use vstd::prelude::*;
use vstd::string::StringExecFns;

use actix_web::HttpResponse;

use crate::domain::user::credentials::{EmailValidationErr, PasswordValidationErr};
use crate::http::{respond_with_body, respond_without_body};

verus! {

/// Why the data of a new user was refused.
#[derive(Debug)]
pub enum UserValidationError {
    EmailValidationErr(EmailValidationErr),
    PasswordValidationErr(PasswordValidationErr),
}

/// The name under which `{:?}` prints an e-mail error.
pub open spec fn email_err_name(e: EmailValidationErr) -> Seq<char> {
    match e {
        EmailValidationErr::NoSingleAtSign => "NoSingleAtSign"@,
        EmailValidationErr::InvalidLocalPart => "InvalidLocalPart"@,
        EmailValidationErr::InvalidDomain => "InvalidDomain"@,
        EmailValidationErr::InvalidTopLevelDomain => "InvalidTopLevelDomain"@,
    }
}

fn email_err_name_text(e: EmailValidationErr) -> (r: &'static str)
    ensures
        r@ == email_err_name(e),
{
    match e {
        EmailValidationErr::NoSingleAtSign => "NoSingleAtSign",
        EmailValidationErr::InvalidLocalPart => "InvalidLocalPart",
        EmailValidationErr::InvalidDomain => "InvalidDomain",
        EmailValidationErr::InvalidTopLevelDomain => "InvalidTopLevelDomain",
    }
}

pub open spec fn too_short_message() -> Seq<char> {
    "Password is too short, must be no shorter than 8 characters"@
}

pub open spec fn too_long_message() -> Seq<char> {
    "Password is too long, must be no more than 64 characters"@
}

pub open spec fn missing_lowercase_message() -> Seq<char> {
    "Password must contain at least one lowercase letter"@
}

pub open spec fn missing_uppercase_message() -> Seq<char> {
    "Password must contain at least one uppsercase letter"@
}

pub open spec fn missing_number_message() -> Seq<char> {
    "Password must contain at least one number"@
}

pub open spec fn missing_char_message() -> Seq<char> {
    "Password must contain at least one special character (\" # $ % & ' ( ) * + , - . / : ; < = > ? @ [ \\ ] ^ _ ` { | } ~ )"@
}

/// Only a failed hash is answered `500 Internal Server Error`, without a body;
/// every refused e-mail address or password is answered `400 Bad Request`
/// with a message.
pub proof fn law_answer_status(err: UserValidationError)
    ensures
        err.spec_status() == 500 <==> (err matches UserValidationError::PasswordValidationErr(
            PasswordValidationErr::ArgonErr(_),
        )),
        !(err matches UserValidationError::PasswordValidationErr(PasswordValidationErr::ArgonErr(_)))
            ==> err.spec_status() == 400 && err.spec_message() is Some,
        (err matches UserValidationError::PasswordValidationErr(PasswordValidationErr::ArgonErr(_)))
            ==> err.spec_message() is None && err.spec_body().len() == 0,
        err matches UserValidationError::EmailValidationErr(_) ==> err.spec_status() == 400,
{
}

/// The answer to a refused address names the rule it broke after
/// `Email is not valid: `.
pub proof fn law_email_answer(e: EmailValidationErr)
    ensures
        UserValidationError::EmailValidationErr(e).spec_body() == "Email is not valid: "@ + email_err_name(e),
        UserValidationError::EmailValidationErr(e).spec_status() == 400,
{
}

/// The answer to a refused address ends with the rule's name as `{:?}`
/// prints it.
pub proof fn law_email_error_names()
    ensures
        email_err_name(EmailValidationErr::NoSingleAtSign) == "NoSingleAtSign"@,
        email_err_name(EmailValidationErr::InvalidLocalPart) == "InvalidLocalPart"@,
        email_err_name(EmailValidationErr::InvalidDomain) == "InvalidDomain"@,
        email_err_name(EmailValidationErr::InvalidTopLevelDomain) == "InvalidTopLevelDomain"@,
{
}

/// The body of the answer to each refused password.
pub proof fn law_password_answers()
    ensures
        UserValidationError::PasswordValidationErr(PasswordValidationErr::PwdTooShort).spec_body()
            == "Password is too short, must be no shorter than 8 characters"@,
        UserValidationError::PasswordValidationErr(PasswordValidationErr::PwdTooLong).spec_body()
            == "Password is too long, must be no more than 64 characters"@,
        UserValidationError::PasswordValidationErr(
            PasswordValidationErr::PwdMissingLowercase,
        ).spec_body() == "Password must contain at least one lowercase letter"@,
        UserValidationError::PasswordValidationErr(
            PasswordValidationErr::PwdMissingUppercase,
        ).spec_body() == "Password must contain at least one uppsercase letter"@,
        UserValidationError::PasswordValidationErr(PasswordValidationErr::PwdMissingNumber).spec_body()
            == "Password must contain at least one number"@,
        UserValidationError::PasswordValidationErr(PasswordValidationErr::PwdMissingChar).spec_body()
            == "Password must contain at least one special character (\" # $ % & ' ( ) * + , - . / : ; < = > ? @ [ \\ ] ^ _ ` { | } ~ )"@,
{
}

impl UserValidationError {
    /// The status code of the answer.
    pub open spec fn spec_status(&self) -> u16 {
        match self {
            UserValidationError::PasswordValidationErr(PasswordValidationErr::ArgonErr(_)) => 500,
            _ => 400,
        }
    }

    /// The body of the answer; none when hashing failed.
    pub open spec fn spec_message(&self) -> Option<Seq<char>> {
        match self {
            UserValidationError::EmailValidationErr(e) => Some(
                "Email is not valid: "@ + email_err_name(*e),
            ),
            UserValidationError::PasswordValidationErr(e) => match e {
                PasswordValidationErr::PwdTooShort => Some(too_short_message()),
                PasswordValidationErr::PwdTooLong => Some(too_long_message()),
                PasswordValidationErr::PwdMissingLowercase => Some(missing_lowercase_message()),
                PasswordValidationErr::PwdMissingUppercase => Some(missing_uppercase_message()),
                PasswordValidationErr::PwdMissingNumber => Some(missing_number_message()),
                PasswordValidationErr::PwdMissingChar => Some(missing_char_message()),
                PasswordValidationErr::ArgonErr(_) => None,
            },
        }
    }

    /// The body of the answer: the message, or nothing.
    pub open spec fn spec_body(&self) -> Seq<char> {
        match self.spec_message() {
            Some(body) => body,
            None => Seq::empty(),
        }
    }

    /// The status code of the answer: 500 when hashing failed, else 400.
    pub fn status_code(&self) -> (r: u16)
        ensures
            r == self.spec_status(),
    {
        match self {
            UserValidationError::PasswordValidationErr(PasswordValidationErr::ArgonErr(_)) => 500,
            _ => 400,
        }
    }

    /// The text of the answer, telling the user what to mend.
    pub fn message(&self) -> (r: Option<String>)
        ensures
            match r {
                Some(s) => self.spec_message() == Some(s@),
                None => self.spec_message() is None,
            },
    {
        match self {
            UserValidationError::EmailValidationErr(e) => {
                let mut s = String::from_str("Email is not valid: ");
                s.append(email_err_name_text(*e));
                Some(s)
            },
            UserValidationError::PasswordValidationErr(e) => match e {
                PasswordValidationErr::PwdTooShort => Some(
                    String::from_str("Password is too short, must be no shorter than 8 characters"),
                ),
                PasswordValidationErr::PwdTooLong => Some(
                    String::from_str("Password is too long, must be no more than 64 characters"),
                ),
                PasswordValidationErr::PwdMissingLowercase => Some(
                    String::from_str("Password must contain at least one lowercase letter"),
                ),
                PasswordValidationErr::PwdMissingUppercase => Some(
                    String::from_str("Password must contain at least one uppsercase letter"),
                ),
                PasswordValidationErr::PwdMissingNumber => Some(
                    String::from_str("Password must contain at least one number"),
                ),
                PasswordValidationErr::PwdMissingChar => Some(
                    String::from_str(
                        "Password must contain at least one special character (\" # $ % & ' ( ) * + , - . / : ; < = > ? @ [ \\ ] ^ _ ` { | } ~ )",
                    ),
                ),
                PasswordValidationErr::ArgonErr(_) => None,
            },
        }
    }

    /// The response to a refused sign-up: `400 Bad Request` with the message,
    /// or `500 Internal Server Error` without a body when hashing failed.
    pub fn handle_http(&self) -> (r: HttpResponse)
        ensures
            crate::http::response_status(r) == self.spec_status(),
            crate::http::response_body(r) == self.spec_body(),
    {
        let status = self.status_code();
        match self.message() {
            Some(body) => respond_with_body(status, body),
            None => respond_without_body(status),
        }
    }
}

} // verus!
