//! Users, their credentials and the requests and responses that carry them.

use crate::error::{AppError, ErrorKind, ErrorView, Outcome, Result};
use crate::models::{random_id, random_id_shape, RECORD_ID_LENGTH};
use crate::text::{clone_opt_text, opt_text};
use crate::time::{Timestamp, CLOCK_LIMIT_SECS};
use crate::validation::{
    char_count, email_shaped, looks_like_email, FieldErrorView, Validate, ValidationErrors,
};
use argon2::PasswordHasher;
use argon2::PasswordVerifier;
use vstd::prelude::*;
use vstd::std_specs::convert::FromSpecImpl;
use vstd::string::*;

verus! {

/// Shortest password a new account may have, in characters.
pub const MIN_PASSWORD_LENGTH: usize = 8;

/// Shortest name a profile may carry, in characters.
pub const MIN_NAME_LENGTH: usize = 2;

/// Longest name a profile may carry, in characters.
pub const MAX_NAME_LENGTH: usize = 100;

// ---------------------------------------------------------------------
// Password hashing
// ---------------------------------------------------------------------

/// What checking a password against a stored hash yields with Argon2 in its
/// default setting: whether the password fits, or the message of the
/// failure to read the hash.
pub uninterp spec fn password_check(hash: Seq<char>, password: Seq<char>) -> std::result::Result<
    bool,
    Seq<char>,
>;

/// The model of the result of a password check or of a hashing.
pub open spec fn checked<T>(r: std::result::Result<T, String>) -> std::result::Result<
    T,
    Seq<char>,
> {
    match r {
        Ok(v) => Ok(v),
        Err(e) => Err(e@),
    }
}

/// Reads the hash with `argon2::PasswordHash::new` and checks the password
/// against it with `PasswordVerifier::verify_password` of the default
/// `Argon2`. Trusted: the outcome is a function of the two texts alone,
/// named [`password_check`].
#[verifier::external_body]
fn argon2_verify(hash: &str, password: &str) -> (r: std::result::Result<bool, String>)
    ensures
        checked(r) == password_check(hash@, password@),
{
    match argon2::PasswordHash::new(hash) {
        Ok(parsed) => Ok(
            argon2::Argon2::default().verify_password(password.as_bytes(), &parsed).is_ok(),
        ),
        Err(e) => Err(e.to_string()),
    }
}

/// Hashes the password with `PasswordHasher::hash_password` of the default
/// `Argon2` and a salt from `SaltString::generate` over the system's random
/// source. Trusted: a hash that comes back is one the password fits, as the
/// crate documents; nothing else is known of it, nor of the message of a
/// failure.
#[verifier::external_body]
fn argon2_hash(password: &str) -> (r: std::result::Result<String, String>)
    ensures
        match r {
            Ok(hash) => password_check(hash@, password@) == Ok::<bool, Seq<char>>(true),
            Err(_) => true,
        },
{
    let salt = argon2::password_hash::SaltString::generate(
        &mut argon2::password_hash::rand_core::OsRng,
    );
    match argon2::Argon2::default().hash_password(password.as_bytes(), &salt) {
        Ok(hash) => Ok(hash.to_string()),
        Err(e) => Err(e.to_string()),
    }
}

// ---------------------------------------------------------------------
// The stored record
// ---------------------------------------------------------------------

/// A user as stored.
#[derive(Debug)]
pub struct User {
    pub id: String,
    pub email: String,
    /// The hash of the password; never shown to clients.
    pub password_hash: String,
    pub name: Option<String>,
    pub is_active: bool,
    pub created_at: Timestamp,
    pub updated_at: Timestamp,
}

/// The model of a [`User`].
pub struct UserView {
    pub id: Seq<char>,
    pub email: Seq<char>,
    pub password_hash: Seq<char>,
    pub name: Option<Seq<char>>,
    pub is_active: bool,
    pub created_at: Timestamp,
    pub updated_at: Timestamp,
}

impl View for User {
    type V = UserView;

    open spec fn view(&self) -> UserView {
        UserView {
            id: self.id@,
            email: self.email@,
            password_hash: self.password_hash@,
            name: opt_text(self.name),
            is_active: self.is_active,
            created_at: self.created_at,
            updated_at: self.updated_at,
        }
    }
}

impl Clone for User {
    fn clone(&self) -> (u: Self)
        ensures
            u@ == self@,
    {
        User {
            id: self.id.clone(),
            email: self.email.clone(),
            password_hash: self.password_hash.clone(),
            name: clone_opt_text(&self.name),
            is_active: self.is_active,
            created_at: self.created_at,
            updated_at: self.updated_at,
        }
    }
}

/// What a password check against a user's stored hash answers: whether the
/// password fits, or an `Internal` failure when the stored hash cannot be
/// read.
pub open spec fn password_verdict(hash: Seq<char>, password: Seq<char>) -> Outcome<bool> {
    match password_check(hash, password) {
        Ok(fits) => Ok(fits),
        Err(message) => Err(ErrorView { kind: ErrorKind::Internal, detail: message }),
    }
}

/// The model of the result of an operation that answers yes or no.
pub open spec fn verdict(r: Result<bool>) -> Outcome<bool> {
    match r {
        Ok(b) => Ok(b),
        Err(e) => Err(e@),
    }
}

/// Turns the outcome of a password check into the service's result.
pub fn verdict_of_check(outcome: std::result::Result<bool, String>) -> (r: Result<bool>)
    ensures
        verdict(r) == (match outcome {
            Ok(fits) => Ok::<bool, ErrorView>(fits),
            Err(message) => Err::<bool, ErrorView>(
                ErrorView { kind: ErrorKind::Internal, detail: message@ },
            ),
        }),
{
    match outcome {
        Ok(fits) => Ok(fits),
        Err(message) => Err(AppError::Internal(message)),
    }
}

impl User {
    /// Checks a password against the stored hash.
    pub fn verify_password(&self, password: &str) -> (r: Result<bool>)
        ensures
            verdict(r) == password_verdict(self.password_hash@, password@),
    {
        verdict_of_check(argon2_verify(self.password_hash.as_str(), password))
    }
}

// ---------------------------------------------------------------------
// What the store is asked to insert
// ---------------------------------------------------------------------

/// A user about to be stored.
#[derive(Debug)]
pub struct CreateUser {
    pub id: String,
    pub email: String,
    pub password_hash: String,
    pub name: Option<String>,
}

/// The model of a [`CreateUser`].
pub struct CreateUserView {
    pub id: Seq<char>,
    pub email: Seq<char>,
    pub password_hash: Seq<char>,
    pub name: Option<Seq<char>>,
}

impl View for CreateUser {
    type V = CreateUserView;

    open spec fn view(&self) -> CreateUserView {
        CreateUserView {
            id: self.id@,
            email: self.email@,
            password_hash: self.password_hash@,
            name: opt_text(self.name),
        }
    }
}

impl Clone for CreateUser {
    fn clone(&self) -> (c: Self)
        ensures
            c@ == self@,
    {
        CreateUser {
            id: self.id.clone(),
            email: self.email.clone(),
            password_hash: self.password_hash.clone(),
            name: clone_opt_text(&self.name),
        }
    }
}

impl CreateUserView {
    /// The record that storing this at `now` creates: active, with both
    /// time marks at `now`.
    pub open spec fn stored_at(self, now: Timestamp) -> UserView {
        UserView {
            id: self.id,
            email: self.email,
            password_hash: self.password_hash,
            name: self.name,
            is_active: true,
            created_at: now,
            updated_at: now,
        }
    }
}

impl CreateUser {
    /// The user to store, given the identifier and the outcome of hashing
    /// the password: an `Internal` failure with the hashing's message when
    /// it failed.
    pub fn from_hashing(
        id: String,
        email: &str,
        hashing: std::result::Result<String, String>,
        name: Option<String>,
    ) -> (r: Result<Self>)
        ensures
            match hashing {
                Ok(hash) => r is Ok && r->Ok_0@ == (CreateUserView {
                    id: id@,
                    email: email@,
                    password_hash: hash@,
                    name: opt_text(name),
                }),
                Err(message) => r is Err && r->Err_0@ == (ErrorView {
                    kind: ErrorKind::Internal,
                    detail: message@,
                }),
            },
    {
        match hashing {
            Ok(password_hash) => Ok(
                CreateUser { id, email: email.to_string(), password_hash, name },
            ),
            Err(message) => Err(AppError::Internal(message)),
        }
    }

    /// The user to store for an e-mail address and a password: a fresh
    /// random identifier and a salted hash that the password fits. Fails
    /// with `Internal` when hashing fails.
    pub fn new(email: &str, password: &str, name: Option<String>) -> (r: Result<Self>)
        ensures
            r is Ok ==> r->Ok_0@.email == email@ && r->Ok_0@.name == opt_text(name)
                && random_id_shape(r->Ok_0@.id, RECORD_ID_LENGTH as nat) && password_check(
                r->Ok_0@.password_hash,
                password@,
            ) == Ok::<bool, Seq<char>>(true),
            r is Err ==> r->Err_0@.kind == ErrorKind::Internal,
    {
        let hashing = argon2_hash(password);
        let id = random_id(RECORD_ID_LENGTH);
        CreateUser::from_hashing(id, email, hashing, name)
    }
}

// ---------------------------------------------------------------------
// Requests
// ---------------------------------------------------------------------

/// A request to open an account.
#[derive(Debug)]
pub struct RegisterRequest {
    pub email: String,
    pub password: String,
    pub name: Option<String>,
}

/// A request to log in.
#[derive(Debug)]
pub struct LoginRequest {
    pub email: String,
    pub password: String,
}

/// A request to change a profile.
#[derive(Debug)]
pub struct UpdateProfileRequest {
    pub name: Option<String>,
}

/// A request to change a password.
#[derive(Debug)]
pub struct ChangePasswordRequest {
    pub current_password: String,
    pub new_password: String,
}

/// The fault of an e-mail address, if it has one.
pub open spec fn email_faults(email: Seq<char>) -> Seq<FieldErrorView> {
    if !email_shaped(email) {
        seq![("email"@, "Invalid email format"@)]
    } else {
        Seq::empty()
    }
}

/// The fault of a name, if it has one: fewer than 2 or more than 100
/// characters.
pub open spec fn name_faults(name: Option<Seq<char>>) -> Seq<FieldErrorView> {
    if name is Some && (name->0.len() < MIN_NAME_LENGTH || name->0.len() > MAX_NAME_LENGTH) {
        seq![("name"@, "Name must be 2-100 characters"@)]
    } else {
        Seq::empty()
    }
}

/// The fault of a text that is shorter than it must be.
pub open spec fn too_short_faults(
    text: Seq<char>,
    min: nat,
    field: Seq<char>,
    message: Seq<char>,
) -> Seq<FieldErrorView> {
    if text.len() < min {
        seq![(field, message)]
    } else {
        Seq::empty()
    }
}

/// All faults of a registration, in the order e-mail, password, name.
pub open spec fn register_faults(
    email: Seq<char>,
    password: Seq<char>,
    name: Option<Seq<char>>,
) -> Seq<FieldErrorView> {
    email_faults(email) + too_short_faults(
        password,
        MIN_PASSWORD_LENGTH as nat,
        "password"@,
        "Password must be at least 8 characters"@,
    ) + name_faults(name)
}

/// All faults of a login, in the order e-mail, password.
pub open spec fn login_faults(email: Seq<char>, password: Seq<char>) -> Seq<FieldErrorView> {
    email_faults(email) + too_short_faults(password, 1, "password"@, "Password is required"@)
}

/// All faults of a password change, in the order current, new.
pub open spec fn change_password_faults(current: Seq<char>, new: Seq<char>) -> Seq<FieldErrorView> {
    too_short_faults(current, 1, "current_password"@, "Current password is required"@)
        + too_short_faults(
        new,
        MIN_PASSWORD_LENGTH as nat,
        "new_password"@,
        "New password must be at least 8 characters"@,
    )
}

/// Adds the fault of an e-mail address, if any, to `errors`.
fn check_email(errors: &mut ValidationErrors, email: &str)
    ensures
        final(errors)@ == old(errors)@ + email_faults(email@),
{
    if !looks_like_email(email) {
        errors.add("email", "Invalid email format");
    }
    assert(final(errors)@ =~= old(errors)@ + email_faults(email@));
}

/// Adds the fault of a name, if any, to `errors`.
fn check_name(errors: &mut ValidationErrors, name: &Option<String>)
    ensures
        final(errors)@ == old(errors)@ + name_faults(opt_text(*name)),
{
    match name {
        Some(n) => {
            let count = char_count(n.as_str());
            if count < MIN_NAME_LENGTH || count > MAX_NAME_LENGTH {
                errors.add("name", "Name must be 2-100 characters");
            }
        },
        None => {},
    }
    assert(final(errors)@ =~= old(errors)@ + name_faults(opt_text(*name)));
}

/// Adds the fault of a text that is too short, if it is, to `errors`.
fn check_min_length(
    errors: &mut ValidationErrors,
    text: &str,
    min: usize,
    field: &str,
    message: &str,
)
    ensures
        final(errors)@ == old(errors)@ + too_short_faults(text@, min as nat, field@, message@),
{
    if char_count(text) < min {
        errors.add(field, message);
    }
    assert(final(errors)@ =~= old(errors)@ + too_short_faults(
        text@,
        min as nat,
        field@,
        message@,
    ));
}

impl Validate for RegisterRequest {
    open spec fn faults(&self) -> Seq<FieldErrorView> {
        register_faults(self.email@, self.password@, opt_text(self.name))
    }

    /// Checks the request field by field.
    fn validate(&self) -> (r: std::result::Result<(), ValidationErrors>) {
        let mut errors = ValidationErrors::new();
        check_email(&mut errors, self.email.as_str());
        check_min_length(
            &mut errors,
            self.password.as_str(),
            MIN_PASSWORD_LENGTH,
            "password",
            "Password must be at least 8 characters",
        );
        check_name(&mut errors, &self.name);
        assert(errors@ =~= self.faults());
        errors.into_result()
    }
}

impl Validate for LoginRequest {
    open spec fn faults(&self) -> Seq<FieldErrorView> {
        login_faults(self.email@, self.password@)
    }

    /// Checks the request field by field.
    fn validate(&self) -> (r: std::result::Result<(), ValidationErrors>) {
        let mut errors = ValidationErrors::new();
        check_email(&mut errors, self.email.as_str());
        check_min_length(
            &mut errors,
            self.password.as_str(),
            1,
            "password",
            "Password is required",
        );
        assert(errors@ =~= self.faults());
        errors.into_result()
    }
}

impl Validate for UpdateProfileRequest {
    open spec fn faults(&self) -> Seq<FieldErrorView> {
        name_faults(opt_text(self.name))
    }

    /// Checks the request.
    fn validate(&self) -> (r: std::result::Result<(), ValidationErrors>) {
        let mut errors = ValidationErrors::new();
        check_name(&mut errors, &self.name);
        assert(errors@ =~= self.faults());
        errors.into_result()
    }
}

impl Validate for ChangePasswordRequest {
    open spec fn faults(&self) -> Seq<FieldErrorView> {
        change_password_faults(self.current_password@, self.new_password@)
    }

    /// Checks the request field by field.
    fn validate(&self) -> (r: std::result::Result<(), ValidationErrors>) {
        let mut errors = ValidationErrors::new();
        check_min_length(
            &mut errors,
            self.current_password.as_str(),
            1,
            "current_password",
            "Current password is required",
        );
        check_min_length(
            &mut errors,
            self.new_password.as_str(),
            MIN_PASSWORD_LENGTH,
            "new_password",
            "New password must be at least 8 characters",
        );
        assert(errors@ =~= self.faults());
        errors.into_result()
    }
}

// ---------------------------------------------------------------------
// Responses
// ---------------------------------------------------------------------

/// A user as shown to clients: everything but the password hash and the
/// change mark.
#[derive(Debug)]
pub struct UserResponse {
    pub id: String,
    pub email: String,
    pub name: Option<String>,
    pub is_active: bool,
    pub created_at: Timestamp,
}

/// The model of a [`UserResponse`].
pub struct UserResponseView {
    pub id: Seq<char>,
    pub email: Seq<char>,
    pub name: Option<Seq<char>>,
    pub is_active: bool,
    pub created_at: Timestamp,
}

impl View for UserResponse {
    type V = UserResponseView;

    open spec fn view(&self) -> UserResponseView {
        UserResponseView {
            id: self.id@,
            email: self.email@,
            name: opt_text(self.name),
            is_active: self.is_active,
            created_at: self.created_at,
        }
    }
}

/// What a client is shown of a user.
pub open spec fn user_response_of(user: UserView) -> UserResponseView {
    UserResponseView {
        id: user.id,
        email: user.email,
        name: user.name,
        is_active: user.is_active,
        created_at: user.created_at,
    }
}

impl UserResponse {
    /// What a client is shown of `user`.
    pub fn from_user(user: &User) -> (r: Self)
        ensures
            r@ == user_response_of(user@),
    {
        UserResponse {
            id: user.id.clone(),
            email: user.email.clone(),
            name: clone_opt_text(&user.name),
            is_active: user.is_active,
            created_at: user.created_at,
        }
    }
}

impl From<User> for UserResponse {
    fn from(user: User) -> (r: Self) {
        UserResponse {
            id: user.id,
            email: user.email,
            name: user.name,
            is_active: user.is_active,
            created_at: user.created_at,
        }
    }
}

impl FromSpecImpl<User> for UserResponse {
    open spec fn obeys_from_spec() -> bool {
        true
    }

    open spec fn from_spec(user: User) -> Self {
        UserResponse {
            id: user.id,
            email: user.email,
            name: user.name,
            is_active: user.is_active,
            created_at: user.created_at,
        }
    }
}

impl<'a> From<&'a User> for UserResponse {
    fn from(user: &'a User) -> (r: Self)
        ensures
            r@ == user_response_of(user@),
    {
        UserResponse::from_user(user)
    }
}

impl<'a> FromSpecImpl<&'a User> for UserResponse {
    /// The conversion copies strings; its contract is stated on `from`.
    open spec fn obeys_from_spec() -> bool {
        false
    }

    open spec fn from_spec(user: &'a User) -> Self {
        arbitrary()
    }
}

/// The answer to a successful login.
#[derive(Debug)]
pub struct LoginResponse {
    pub user: UserResponse,
    pub token: String,
    pub expires_at: Timestamp,
}

/// The answer to a successful registration.
#[derive(Debug)]
pub struct RegisterResponse {
    pub user: UserResponse,
    pub message: String,
}

// ---------------------------------------------------------------------
// Token claims
// ---------------------------------------------------------------------

/// Longest token lifetime, in hours, for which the expiry can be computed
/// from any reading of the system clock.
pub const MAX_TOKEN_HOURS: u64 = 2_000_000_000_000_000;

/// What a token says: whom it was issued to, and from when to when it is
/// good.
#[derive(Debug)]
pub struct Claims {
    /// The identifier of the user.
    pub sub: String,
    /// The e-mail address of the user.
    pub email: String,
    /// Expiry, in seconds since the epoch.
    pub exp: i64,
    /// Time of issue, in seconds since the epoch.
    pub iat: i64,
}

/// The model of [`Claims`].
pub struct ClaimsView {
    pub sub: Seq<char>,
    pub email: Seq<char>,
    pub exp: i64,
    pub iat: i64,
}

impl View for Claims {
    type V = ClaimsView;

    open spec fn view(&self) -> ClaimsView {
        ClaimsView { sub: self.sub@, email: self.email@, exp: self.exp, iat: self.iat }
    }
}

impl Clone for Claims {
    fn clone(&self) -> (c: Self)
        ensures
            c@ == self@,
    {
        Claims { sub: self.sub.clone(), email: self.email.clone(), exp: self.exp, iat: self.iat }
    }
}

/// The claims issued to a user at second `now` for `hours` hours.
pub open spec fn claims_issued(
    user_id: Seq<char>,
    email: Seq<char>,
    hours: u64,
    now: i64,
) -> ClaimsView {
    ClaimsView { sub: user_id, email, exp: (now + hours * 3600) as i64, iat: now }
}

impl Claims {
    /// The claims for a user, issued at second `now` and good for
    /// `expiration_hours` hours.
    pub fn issued_at(user_id: &str, email: &str, expiration_hours: u64, now: i64) -> (c: Self)
        requires
            now + expiration_hours * 3600 <= i64::MAX,
        ensures
            c@ == claims_issued(user_id@, email@, expiration_hours, now),
    {
        let expiry: i128 = now as i128 + (expiration_hours as i128) * 3600;
        Claims { sub: user_id.to_string(), email: email.to_string(), exp: expiry as i64, iat: now }
    }

    /// The claims for a user, issued now by the system clock and good for
    /// `expiration_hours` hours.
    pub fn new(user_id: &str, email: &str, expiration_hours: u64) -> (c: Self)
        requires
            expiration_hours <= MAX_TOKEN_HOURS,
        ensures
            exists|now: i64|
                -CLOCK_LIMIT_SECS < now < CLOCK_LIMIT_SECS && c@ == #[trigger] claims_issued(
                    user_id@,
                    email@,
                    expiration_hours,
                    now,
                ),
    {
        let now = Timestamp::now();
        Claims::issued_at(user_id, email, expiration_hours, now.secs)
    }

    /// Whether the claims have expired by second `now`: it lies strictly
    /// after the expiry.
    pub fn is_expired_at(&self, now: i64) -> (r: bool)
        ensures
            r == (now > self.exp),
    {
        now > self.exp
    }

    /// Whether the claims have expired by the system clock.
    pub fn is_expired(&self) -> (r: bool)
        ensures
            exists|now: i64|
                -CLOCK_LIMIT_SECS < now < CLOCK_LIMIT_SECS && r == (#[trigger] is_after(
                    now,
                    self.exp,
                )),
            self.exp >= CLOCK_LIMIT_SECS ==> !r,
            self.exp <= -CLOCK_LIMIT_SECS ==> r,
    {
        let now = Timestamp::now();
        let r = self.is_expired_at(now.secs);
        assert(-CLOCK_LIMIT_SECS < now.secs < CLOCK_LIMIT_SECS && r == is_after(
            now.secs,
            self.exp,
        ));
        r
    }
}

/// Whether second `now` lies strictly after second `expiry`.
pub open spec fn is_after(now: i64, expiry: i64) -> bool {
    now > expiry
}

} // verus!
