//! What the user routes share with the domain.

use vstd::prelude::*;

use uuid::Uuid;

use crate::domain::user::{Email, Password};

verus! {

/// The path under which the user routes are mounted.
pub const USER_BASE_PATH: &'static str = "/users";

/// A checked sign-up form.
pub struct UserSignupFormData {
    pub id: Uuid,
    pub email: Email,
    pub password: Password,
    pub name: String,
}

} // verus!
