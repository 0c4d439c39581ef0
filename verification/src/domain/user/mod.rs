pub mod credentials;
mod model;
mod validation;

pub use credentials::{
    check_policy, check_rules, Email, EmailValidationErr, Password, PasswordValidationErr, ALLOWED_PASSWORD_CHARS,
};
pub use model::{User, UserView};
pub use validation::UserValidationError;
