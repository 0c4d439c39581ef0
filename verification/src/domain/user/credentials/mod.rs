pub mod email;
pub mod password;

pub use email::{Email, EmailValidationErr};
pub use password::{check_policy, check_rules, Password, PasswordValidationErr, ALLOWED_PASSWORD_CHARS};
