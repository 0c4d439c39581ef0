//! The user record.

use vstd::prelude::*;

use uuid::Uuid;

use crate::domain::user::credentials::{Email, EmailValidationErr, Password};
use crate::handlers::user::UserSignupFormData;
use crate::time::{utc_now, Timestamp};

verus! {

#[verifier::external_type_specification]
#[verifier::external_body]
pub struct ExUuid(Uuid);

/// Calls `<Uuid as PartialEq>::eq`, which `derive` wrote over the sixteen
/// bytes of the two ids: equal ids are the same value.
#[verifier::external_body]
fn same_uuid(a: &Uuid, b: &Uuid) -> (r: bool)
    ensures
        r == (*a == *b),
{
    *a == *b
}

/// What a user record holds, its texts as character sequences.
pub struct UserView {
    pub id: Uuid,
    pub email: Seq<char>,
    pub password: Seq<char>,
    pub name: Seq<char>,
    pub profile_photo: Option<Seq<char>>,
    pub failed_attempts: i16,
    pub email_confirmed: bool,
    pub created_at: Timestamp,
    pub updated_at: Timestamp,
    pub deleted_at: Option<Timestamp>,
}

pub open spec fn text_option_view(o: Option<String>) -> Option<Seq<char>> {
    match o {
        Some(s) => Some(s@),
        None => None,
    }
}

fn clone_text_option(o: &Option<String>) -> (r: Option<String>)
    ensures
        text_option_view(r) == text_option_view(*o),
{
    match o {
        Some(s) => Some(s.clone()),
        None => None,
    }
}

fn same_text_option(a: &Option<String>, b: &Option<String>) -> (r: bool)
    ensures
        r == (text_option_view(*a) == text_option_view(*b)),
{
    match (a, b) {
        (Some(x), Some(y)) => *x == *y,
        (None, None) => true,
        _ => false,
    }
}

fn same_time_option(a: &Option<Timestamp>, b: &Option<Timestamp>) -> (r: bool)
    ensures
        r == (*a == *b),
{
    match (a, b) {
        (Some(x), Some(y)) => x.secs == y.secs && x.nanos == y.nanos,
        (None, None) => true,
        _ => false,
    }
}

/// A registered user.
#[derive(Debug)]
pub struct User {
    id: Uuid,
    email: Email,
    password: Password,
    name: String,
    profile_photo: Option<String>,
    failed_attempts: i16,
    email_confirmed: bool,
    created_at: Timestamp,
    updated_at: Timestamp,
    deleted_at: Option<Timestamp>,
}

impl View for User {
    type V = UserView;

    closed spec fn view(&self) -> UserView {
        UserView {
            id: self.id,
            email: self.email@,
            password: self.password@,
            name: self.name@,
            profile_photo: text_option_view(self.profile_photo),
            failed_attempts: self.failed_attempts,
            email_confirmed: self.email_confirmed,
            created_at: self.created_at,
            updated_at: self.updated_at,
            deleted_at: self.deleted_at,
        }
    }
}

/// Two users are the same user when all but their password and their
/// creation and update times agree.
pub open spec fn same_user(a: UserView, b: UserView) -> bool {
    &&& a.id == b.id
    &&& a.email == b.email
    &&& a.name == b.name
    &&& a.profile_photo == b.profile_photo
    &&& a.failed_attempts == b.failed_attempts
    &&& a.email_confirmed == b.email_confirmed
    &&& a.deleted_at == b.deleted_at
}

/// Two users are equal exactly when their ids, e-mail addresses, names,
/// photos, failed-attempt counts, confirmation flags and deletion times agree;
/// a difference in any of these makes them unequal.
pub proof fn law_user_equality(a: User, b: User)
    ensures
        vstd::std_specs::cmp::PartialEqSpec::eq_spec(&a, &b) <==> {
            &&& a@.id == b@.id
            &&& a@.email == b@.email
            &&& a@.name == b@.name
            &&& a@.profile_photo == b@.profile_photo
            &&& a@.failed_attempts == b@.failed_attempts
            &&& a@.email_confirmed == b@.email_confirmed
            &&& a@.deleted_at == b@.deleted_at
        },
        a@.email != b@.email ==> !vstd::std_specs::cmp::PartialEqSpec::eq_spec(&a, &b),
        a@.id != b@.id ==> !vstd::std_specs::cmp::PartialEqSpec::eq_spec(&a, &b),
        a@.name != b@.name ==> !vstd::std_specs::cmp::PartialEqSpec::eq_spec(&a, &b),
{
}

/// Sameness of users is an equivalence.
pub proof fn law_same_user_is_equivalence(a: UserView, b: UserView, c: UserView)
    ensures
        same_user(a, a),
        same_user(a, b) ==> same_user(b, a),
        same_user(a, b) && same_user(b, c) ==> same_user(a, c),
{
}

/// Changing a user's password or its creation and update times leaves it the
/// same user.
pub proof fn law_same_user_ignores_password_and_times(
    a: UserView,
    password: Seq<char>,
    created_at: Timestamp,
    updated_at: Timestamp,
)
    ensures
        same_user(a, UserView { password, created_at, updated_at, ..a }),
{
}

/// The record that a sign-up form gives, created at `now`.
pub open spec fn signed_up(form_id: Uuid, email: Seq<char>, password: Seq<char>, name: Seq<char>, now: Timestamp) -> UserView {
    UserView {
        id: form_id,
        email,
        password,
        name,
        profile_photo: None,
        failed_attempts: 0,
        email_confirmed: false,
        created_at: now,
        updated_at: now,
        deleted_at: None,
    }
}

/// A user made from a sign-up form keeps the form's id, address, password and
/// name, has no photo, no failed attempt, an unconfirmed address and no
/// deletion, and was created and last updated at the given time.
pub proof fn law_signed_up(id: Uuid, email: Seq<char>, password: Seq<char>, name: Seq<char>, now: Timestamp)
    ensures
        signed_up(id, email, password, name, now).id == id,
        signed_up(id, email, password, name, now).email == email,
        signed_up(id, email, password, name, now).password == password,
        signed_up(id, email, password, name, now).name == name,
        signed_up(id, email, password, name, now).profile_photo is None,
        signed_up(id, email, password, name, now).failed_attempts == 0,
        !signed_up(id, email, password, name, now).email_confirmed,
        signed_up(id, email, password, name, now).created_at == now,
        signed_up(id, email, password, name, now).updated_at == now,
        signed_up(id, email, password, name, now).deleted_at is None,
{
}

/// An optional text is seen as the optional sequence of its characters.
pub proof fn law_text_option_view(s: String)
    ensures
        text_option_view(Some(s)) == Some(s@),
        text_option_view(None) == None::<Seq<char>>,
{
}

impl User {
    #[allow(clippy::too_many_arguments)]
    pub fn new(
        id: Uuid,
        email: Email,
        password: Password,
        name: String,
        profile_photo: Option<String>,
        failed_attempts: i16,
        email_confirmed: bool,
        created_at: Timestamp,
        updated_at: Timestamp,
        deleted_at: Option<Timestamp>,
    ) -> (u: User)
        ensures
            u@ == (UserView {
                id,
                email: email@,
                password: password@,
                name: name@,
                profile_photo: text_option_view(profile_photo),
                failed_attempts,
                email_confirmed,
                created_at,
                updated_at,
                deleted_at,
            }),
    {
        User {
            id,
            email,
            password,
            name,
            profile_photo,
            failed_attempts,
            email_confirmed,
            created_at,
            updated_at,
            deleted_at,
        }
    }

    /// The user that a sign-up form gives, created and updated at `now`,
    /// with no photo, no failed attempt, an unconfirmed e-mail and no deletion.
    pub fn from_signup_form_at(form: UserSignupFormData, now: Timestamp) -> (u: User)
        ensures
            u@ == signed_up(form.id, form.email@, form.password@, form.name@, now),
    {
        User {
            id: form.id,
            email: form.email,
            password: form.password,
            name: form.name,
            profile_photo: None,
            failed_attempts: 0,
            email_confirmed: false,
            created_at: now,
            updated_at: now,
            deleted_at: None,
        }
    }

    /// The user that a sign-up form gives, created and updated now.
    pub fn from_signup_form(form: UserSignupFormData) -> (u: User)
        ensures
            u@ == signed_up(form.id, form.email@, form.password@, form.name@, u@.created_at),
    {
        let now = utc_now();
        User::from_signup_form_at(form, now)
    }

    pub fn id(&self) -> (r: Uuid)
        ensures
            r == self@.id,
    {
        self.id
    }

    pub fn email(&self) -> (r: Email)
        ensures
            r@ == self@.email,
    {
        self.email.clone()
    }

    pub fn name(&self) -> (r: String)
        ensures
            r@ == self@.name,
    {
        self.name.clone()
    }

    pub fn password(&self) -> (r: Password)
        ensures
            r@ == self@.password,
    {
        self.password.clone()
    }

    pub fn profile_photo(&self) -> (r: Option<String>)
        ensures
            text_option_view(r) == self@.profile_photo,
    {
        clone_text_option(&self.profile_photo)
    }

    pub fn failed_attempts(&self) -> (r: i16)
        ensures
            r == self@.failed_attempts,
    {
        self.failed_attempts
    }

    pub fn email_confirmed(&self) -> (r: bool)
        ensures
            r == self@.email_confirmed,
    {
        self.email_confirmed
    }

    pub fn created_at(&self) -> (r: Timestamp)
        ensures
            r == self@.created_at,
    {
        self.created_at
    }

    pub fn updated_at(&self) -> (r: Timestamp)
        ensures
            r == self@.updated_at,
    {
        self.updated_at
    }

    pub fn deleted_at(&self) -> (r: Option<Timestamp>)
        ensures
            r == self@.deleted_at,
    {
        self.deleted_at
    }

    pub fn set_id(&mut self, id: Uuid)
        ensures
            final(self)@ == (UserView { id, ..old(self)@ }),
    {
        self.id = id;
    }

    pub fn set_email(&mut self, email: Email)
        ensures
            final(self)@ == (UserView { email: email@, ..old(self)@ }),
    {
        self.email = email;
    }

    /// Checks `email` and, when it is an address, makes it the user's;
    /// otherwise the user is left as it was.
    pub fn set_email_string(&mut self, email: String) -> (r: Result<(), EmailValidationErr>)
        ensures
            match r {
                Ok(()) => crate::domain::user::credentials::email::email_check(email@) is Ok && final(self)@ == (UserView {
                    email: email@,
                    ..old(self)@
                }),
                Err(e) => crate::domain::user::credentials::email::email_check(email@) == Err::<(), EmailValidationErr>(e)
                    && final(self)@ == old(self)@,
            },
    {
        match Email::parse(email.as_str()) {
            Ok(email) => {
                self.email = email;
                Ok(())
            },
            Err(e) => Err(e),
        }
    }

    pub fn set_name(&mut self, name: String)
        ensures
            final(self)@ == (UserView { name: name@, ..old(self)@ }),
    {
        self.name = name;
    }

    pub fn set_password(&mut self, password: Password)
        ensures
            final(self)@ == (UserView { password: password@, ..old(self)@ }),
    {
        self.password = password;
    }

    pub fn set_profile_photo(&mut self, profile_photo: Option<String>)
        ensures
            final(self)@ == (UserView {
                profile_photo: text_option_view(profile_photo),
                ..old(self)@
            }),
    {
        self.profile_photo = profile_photo;
    }

    /// Counts one more failed login attempt.
    pub fn increment_failed_attempts(&mut self)
        requires
            old(self)@.failed_attempts < i16::MAX,
        ensures
            final(self)@ == (UserView {
                failed_attempts: (old(self)@.failed_attempts + 1) as i16,
                ..old(self)@
            }),
    {
        self.failed_attempts += 1;
    }

    pub fn reset_failed_attempts(&mut self)
        ensures
            final(self)@ == (UserView { failed_attempts: 0, ..old(self)@ }),
    {
        self.failed_attempts = 0;
    }

    pub fn set_email_confirmed(&mut self, email_confirmed: bool)
        ensures
            final(self)@ == (UserView { email_confirmed, ..old(self)@ }),
    {
        self.email_confirmed = email_confirmed;
    }

    pub fn set_updated_at(&mut self, updated_at: Timestamp)
        ensures
            final(self)@ == (UserView { updated_at, ..old(self)@ }),
    {
        self.updated_at = updated_at;
    }

    pub fn set_deleted_at(&mut self, deleted_at: Option<Timestamp>)
        ensures
            final(self)@ == (UserView { deleted_at, ..old(self)@ }),
    {
        self.deleted_at = deleted_at;
    }
}

impl Clone for User {
    fn clone(&self) -> (r: User)
        ensures
            r@ == self@,
    {
        User {
            id: self.id,
            email: self.email.clone(),
            password: self.password.clone(),
            name: self.name.clone(),
            profile_photo: clone_text_option(&self.profile_photo),
            failed_attempts: self.failed_attempts,
            email_confirmed: self.email_confirmed,
            created_at: self.created_at,
            updated_at: self.updated_at,
            deleted_at: self.deleted_at,
        }
    }
}

impl PartialEq for User {
    fn eq(&self, other: &User) -> (r: bool) {
        same_uuid(&self.id, &other.id) && self.email == other.email && self.name == other.name
            && same_text_option(&self.profile_photo, &other.profile_photo)
            && self.failed_attempts == other.failed_attempts && self.email_confirmed
            == other.email_confirmed && same_time_option(&self.deleted_at, &other.deleted_at)
    }
}

impl vstd::std_specs::cmp::PartialEqSpecImpl for User {
    open spec fn obeys_eq_spec() -> bool {
        true
    }

    open spec fn eq_spec(&self, other: &User) -> bool {
        same_user(self@, other@)
    }
}

} // verus!
