//! Login, logout and "who am I" on top of a cookie-backed session store.

use actix_session::{Session, SessionGetError, SessionInsertError};
use vstd::prelude::*;

use crate::validations::{email_errors, is_email_shaped, min_length_errors, trimmed, Field, FieldError};

verus! {

/// actix-session's handle on one client's session. Its contents live behind
/// shared interior state, which the contracts here do not model: calls on it
/// promise nothing about what a later read returns.
#[verifier::external_type_specification]
#[verifier::external_body]
pub struct ExSession(Session);

/// The error of `Session::get`, carried through opaquely.

#[verifier::external_type_specification]
#[verifier::external_body]
pub struct ExSessionGetError(SessionGetError);

/// The error of `Session::insert`, carried through opaquely.
#[verifier::external_type_specification]
#[verifier::external_body]
pub struct ExSessionInsertError(SessionInsertError);

/// The fewest characters that an email address or a password may have.
pub const MIN_CREDENTIAL_LENGTH: usize = 10;

/// The session key under which the signed-in email address is kept.
pub const SESSION_EMAIL_KEY: &'static str = "user_email";

/// Relies on `Session::get`: reads the JSON value stored under `key` as a string.
/// What comes back depends on the session's state, so nothing is promised of it.
#[verifier::external_body]
fn session_get(session: &Session, key: &str) -> Result<Option<String>, SessionGetError> {
    session.get::<String>(key)
}

/// Relies on `Session::insert`: stores `value`, encoded as JSON, under `key`.
#[verifier::external_body]
fn session_insert(session: &Session, key: &str, value: &String) -> Result<(), SessionInsertError> {
    session.insert(key, value)
}

/// Relies on `Session::clear`: removes every key from the session.
#[verifier::external_body]
fn session_clear(session: &Session) {
    session.clear()
}

/// The errors that login validation records for a raw email address.
pub open spec fn login_email_errors(raw: Seq<char>) -> Seq<FieldError> {
    min_length_errors(Some(trimmed(raw)), MIN_CREDENTIAL_LENGTH) + email_errors(Some(trimmed(raw)))
}

/// The errors that login validation records for a raw password.
pub open spec fn login_password_errors(raw: Seq<char>) -> Seq<FieldError> {
    min_length_errors(Some(trimmed(raw)), MIN_CREDENTIAL_LENGTH)
}

/// A submitted login: the email address and the password, each with its errors.
#[derive(Debug, Clone, PartialEq, Eq)]
pub struct LoginForm {
    pub email: Field<String>,
    pub password: Field<String>,
}

impl LoginForm {
    /// Neither field has an error.
    pub open spec fn valid(&self) -> bool {
        self.email.errors@.len() == 0 && self.password.errors@.len() == 0
    }

    /// `self` is what validating `email` and `password` gives: both trimmed, the
    /// email checked for length and shape, the password for length.
    pub open spec fn validates(&self, email: Seq<char>, password: Seq<char>) -> bool {
        &&& self.email.text() == Some(trimmed(email))
        &&& self.email.errors@ == login_email_errors(email)
        &&& self.password.text() == Some(trimmed(password))
        &&& self.password.errors@ == login_password_errors(password)
    }

    /// Whether both fields are free of errors.
    pub fn is_valid(&self) -> (r: bool)
        ensures
            r == self.valid(),
    {
        self.email.errors.len() == 0 && self.password.errors.len() == 0
    }

    /// Validates a raw email address and password.
    pub fn validate(email: String, password: String) -> (r: LoginForm)
        ensures
            r.validates(email@, password@),
    {
        let email = Field::required(Some(email)).trim().min_length(MIN_CREDENTIAL_LENGTH).email();
        let password = Field::required(Some(password)).trim().min_length(MIN_CREDENTIAL_LENGTH);
        LoginForm { email, password }
    }

    /// The email address that a login with this form writes into the session:
    /// present exactly when the form is valid and its email is present.
    pub fn email_to_store(&self) -> (r: Option<String>)
        ensures
            r is Some <==> self.valid() && self.email.input is Some,
            r matches Some(e) ==> self.email.text() == Some(e@),
    {
        if self.is_valid() {
            match &self.email.input {
                Some(e) => Some(e.clone()),
                None => None,
            }
        } else {
            None
        }
    }
}

/// A validated login is valid exactly when the trimmed email address is long
/// enough and email-shaped and the trimmed password is long enough.
pub proof fn lemma_login_valid_iff(form: LoginForm, email: Seq<char>, password: Seq<char>)
    requires
        form.validates(email, password),
    ensures
        form.valid() <==> trimmed(email).len() >= MIN_CREDENTIAL_LENGTH && is_email_shaped(
            trimmed(email),
        ) && trimmed(password).len() >= MIN_CREDENTIAL_LENGTH,
{
}

/// Validates a login and, when it is valid, keeps its trimmed email address in
/// the session under `SESSION_EMAIL_KEY`. An invalid login leaves the session
/// untouched. The form comes back either way, so the caller can show its errors.
pub fn attempt_login(session: &Session, email: String, password: String) -> (r: LoginForm)
    ensures
        r.validates(email@, password@),
{
    let form = LoginForm::validate(email, password);
    match form.email_to_store() {
        Some(e) => {
            let _ = session_insert(session, SESSION_EMAIL_KEY, &e);
        },
        None => {},
    }
    form
}

/// Signs out: removes every key from the session, whoever was signed in.
pub fn logout(session: &Session) {
    session_clear(session);
}

/// The failure of a lookup that must find a signed-in user.
#[derive(Debug, Clone, Copy, PartialEq, Eq, Structural)]
pub enum AuthError {
    Unauthorized,
}

/// What a request's session says about who is signed in.
#[derive(Debug, Clone, PartialEq, Eq)]
pub enum SessionLookup {
    /// The request carries no usable session.
    NoSession,
    /// The session could not be read.
    Failed,
    /// The session holds no email address.
    Missing,
    /// The session holds this email address.
    Found(String),
}

/// The identity that a session holds.
#[derive(Debug, Clone)]
pub struct CurrentUser {
    pub email: String,
}

impl Default for CurrentUser {
    /// The placeholder used before the real identity is known: an empty email.
    fn default() -> (r: Self)
        ensures
            r.email@ == Seq::<char>::empty(),
    {
        CurrentUser { email: String::new() }
    }
}

/// Reads the signed-in email address from `session`, if there is a session.
pub fn read_session(session: Option<&Session>) -> (r: SessionLookup)
    ensures
        session is None <==> r is NoSession,
{
    match session {
        Some(s) => match session_get(s, SESSION_EMAIL_KEY) {
            Ok(Some(email)) => SessionLookup::Found(email),
            Ok(None) => SessionLookup::Missing,
            Err(_) => SessionLookup::Failed,
        },
        None => SessionLookup::NoSession,
    }
}

impl CurrentUser {
    /// The signed-in user that `lookup` shows, or `Unauthorized` when it shows
    /// none: every missing or failed step counts as signed out.
    pub fn resolve(lookup: SessionLookup) -> (r: Result<CurrentUser, AuthError>)
        ensures
            lookup matches SessionLookup::Found(e) ==> r matches Ok(u) && u.email@ == e@,
            !(lookup is Found) ==> r == Err::<CurrentUser, AuthError>(AuthError::Unauthorized),
    {
        match lookup {
            SessionLookup::Found(email) => Ok(CurrentUser { email }),
            _ => Err(AuthError::Unauthorized),
        }
    }

    /// The signed-in user of `session`, for content that must be authenticated.
    /// Without a session this fails with `Unauthorized`.
    pub fn from_session(session: Option<&Session>) -> (r: Result<CurrentUser, AuthError>)
        ensures
            session is None ==> r == Err::<CurrentUser, AuthError>(AuthError::Unauthorized),
            r is Err ==> r == Err::<CurrentUser, AuthError>(AuthError::Unauthorized),
    {
        CurrentUser::resolve(read_session(session))
    }
}

/// The signed-in user, where one is known, for lookups that may not fail.
/// `request` is `None` when there is no request at all (as while pre-rendering),
/// and otherwise what its session shows.
pub fn get_current_user(request: Option<SessionLookup>) -> (r: Option<CurrentUser>)
    ensures
        request matches Some(SessionLookup::Found(e)) ==> r matches Some(u) && u.email@ == e@,
        !(request matches Some(SessionLookup::Found(_))) ==> r is None,
{
    match request {
        Some(lookup) => match CurrentUser::resolve(lookup) {
            Ok(u) => Some(u),
            Err(_) => None,
        },
        None => None,
    }
}

} // verus!
