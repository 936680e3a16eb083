//! Accounts: registration, login, and what a token entitles to.
//!
//! Tokens are signed and read outside this module. What is decided here is
//! who may have one, what it says, and whether one that was read is still
//! good.

use crate::config::Config;
use crate::database::repository::Repository;
use crate::database::users::{
    after_user_insert, has_email, has_user_id, user_by_email, user_by_id, user_insert_fault,
    without_user, UserRepository, UserRows,
};
use crate::error::{user_not_found_text, AppError, ErrorKind, ErrorView, Outcome, Result};
use crate::models::user::{
    claims_issued, login_faults, password_check, password_verdict, register_faults,
    user_response_of, Claims, ClaimsView, CreateUser, LoginRequest, LoginResponse, RegisterRequest,
    RegisterResponse, User, UserResponse, UserView, MIN_PASSWORD_LENGTH,
};
use crate::services::Service;
use crate::text::{byte_len, is_prefix, opt_text, skip_chars, starts_with, utf8_len};
use crate::time::Timestamp;
use crate::validation::{faults_text, Validate};
use vstd::prelude::*;
use vstd::string::*;

verus! {

// ---------------------------------------------------------------------
// The model
// ---------------------------------------------------------------------

/// The model of the account service: the user table and the lifetime of
/// the tokens it grants.
pub struct AuthServiceView {
    pub users: UserRows,
    pub jwt_expiration_hours: u64,
}

/// The failure for credentials that do not fit.
pub open spec fn invalid_credentials() -> ErrorView {
    ErrorView { kind: ErrorKind::Unauthorized, detail: "Invalid credentials"@ }
}

/// The failure for an account that was deactivated.
pub open spec fn deactivated() -> ErrorView {
    ErrorView { kind: ErrorKind::Forbidden, detail: "Account is deactivated"@ }
}

/// The failure for an e-mail address that has an account already.
pub open spec fn email_registered() -> ErrorView {
    ErrorView { kind: ErrorKind::Conflict, detail: "Email already registered"@ }
}

/// The failure for a token that cannot be read.
pub open spec fn invalid_token() -> ErrorView {
    ErrorView { kind: ErrorKind::Unauthorized, detail: "Invalid token"@ }
}

/// The failure for a token past its expiry.
pub open spec fn token_expired() -> ErrorView {
    ErrorView { kind: ErrorKind::Unauthorized, detail: "Token expired"@ }
}

/// The failure for a token or a request whose user is gone.
pub open spec fn user_gone() -> ErrorView {
    ErrorView { kind: ErrorKind::NotFound, detail: "User not found"@ }
}

/// The failure for a new password that is too short.
pub open spec fn password_too_short() -> ErrorView {
    ErrorView { kind: ErrorKind::BadRequest, detail: "Password must be at least 8 characters"@ }
}

/// The failure for a current password that does not fit.
pub open spec fn wrong_current_password() -> ErrorView {
    ErrorView { kind: ErrorKind::Unauthorized, detail: "Current password is incorrect"@ }
}

/// Why a registration is turned down before anything is hashed or stored,
/// if it is: the request has faults, or the e-mail address has an account.
pub open spec fn registration_fault(
    users: UserRows,
    email: Seq<char>,
    password: Seq<char>,
    name: Option<Seq<char>>,
) -> Option<ErrorView> {
    if register_faults(email, password, name).len() > 0 {
        Some(
            ErrorView {
                kind: ErrorKind::Validation,
                detail: faults_text(register_faults(email, password, name)),
            },
        )
    } else if has_email(users, email) {
        Some(email_registered())
    } else {
        None
    }
}

/// The user a login is for: the active user with the e-mail address whose
/// stored hash the password fits. Faults of the request come first; an
/// unknown address and a wrong password give the same failure.
pub open spec fn login_user(users: UserRows, email: Seq<char>, password: Seq<char>) -> Outcome<
    UserView,
> {
    if login_faults(email, password).len() > 0 {
        Err(
            ErrorView {
                kind: ErrorKind::Validation,
                detail: faults_text(login_faults(email, password)),
            },
        )
    } else {
        match user_by_email(users, email) {
            None => Err(invalid_credentials()),
            Some(user) => if !user.is_active {
                Err(deactivated())
            } else {
                match password_verdict(user.password_hash, password) {
                    Err(e) => Err(e),
                    Ok(false) => Err(invalid_credentials()),
                    Ok(true) => Ok(user),
                }
            },
        }
    }
}

/// What checking a token that was read yields at second `now`: the claims
/// when there are any and they have not expired.
pub open spec fn token_verdict(decoded: Option<ClaimsView>, now: i64) -> Outcome<ClaimsView> {
    match decoded {
        None => Err(invalid_token()),
        Some(claims) => if now > claims.exp {
            Err(token_expired())
        } else {
            Ok(claims)
        },
    }
}

/// The user a token may be renewed for at second `now`: the one its claims
/// name, if the token is good and the user still exists.
pub open spec fn renewal_user(users: UserRows, decoded: Option<ClaimsView>, now: i64) -> Outcome<
    UserView,
> {
    match token_verdict(decoded, now) {
        Err(e) => Err(e),
        Ok(claims) => match user_by_id(users, claims.sub) {
            Some(user) => Ok(user),
            None => Err(user_gone()),
        },
    }
}

/// The outcome of a request to change a password: the new one must have 8
/// bytes or more, the user must exist, and the current one must fit.
pub open spec fn password_change(
    users: UserRows,
    user_id: Seq<char>,
    current: Seq<char>,
    new: Seq<char>,
) -> Outcome<()> {
    if utf8_len(new) < MIN_PASSWORD_LENGTH {
        Err(password_too_short())
    } else {
        match user_by_id(users, user_id) {
            None => Err(user_gone()),
            Some(user) => match password_verdict(user.password_hash, current) {
                Err(e) => Err(e),
                Ok(false) => Err(wrong_current_password()),
                Ok(true) => Ok(()),
            },
        }
    }
}

/// The token of an `Authorization` header value: what follows `Bearer `.
pub open spec fn bearer_token(header: Seq<char>) -> Option<Seq<char>> {
    if is_prefix("Bearer "@, header) {
        Some(header.skip(7))
    } else {
        None
    }
}

/// The model of an optional claims value.
pub open spec fn opt_claims(o: Option<Claims>) -> Option<ClaimsView> {
    match o {
        Some(c) => Some(c@),
        None => None,
    }
}

/// The model of the result of an operation that answers with claims.
pub open spec fn claims_outcome(r: Result<Claims>) -> Outcome<ClaimsView> {
    match r {
        Ok(c) => Ok(c@),
        Err(e) => Err(e@),
    }
}

/// The model of the result of an operation that answers with nothing.
pub open spec fn done_outcome(r: Result<()>) -> Outcome<()> {
    match r {
        Ok(()) => Ok(()),
        Err(e) => Err(e@),
    }
}

// ---------------------------------------------------------------------
// Tickets
// ---------------------------------------------------------------------

/// What a successful login grants: the user, the claims to sign, and when
/// the token will expire.
#[derive(Debug)]
pub struct LoginTicket {
    pub user: User,
    pub claims: Claims,
    pub expires_at: Timestamp,
}

/// The model of a [`LoginTicket`].
pub struct LoginTicketView {
    pub user: UserView,
    pub claims: ClaimsView,
    pub expires_at: Timestamp,
}

impl View for LoginTicket {
    type V = LoginTicketView;

    open spec fn view(&self) -> LoginTicketView {
        LoginTicketView { user: self.user@, claims: self.claims@, expires_at: self.expires_at }
    }
}

/// The ticket for a user at `now` with tokens good for `hours` hours.
pub open spec fn ticket_for(user: UserView, hours: u64, now: Timestamp) -> LoginTicketView {
    LoginTicketView {
        user,
        claims: claims_issued(user.id, user.email, hours, now.secs),
        expires_at: Timestamp { secs: (now.secs + hours * 3600) as i64, nanos: now.nanos },
    }
}

/// The ticket that a login or a renewal grants, if it grants one.
pub open spec fn granted(
    user: Outcome<UserView>,
    hours: u64,
    now: Timestamp,
) -> Outcome<LoginTicketView> {
    match user {
        Ok(u) => Ok(ticket_for(u, hours, now)),
        Err(e) => Err(e),
    }
}

/// The model of the result of an operation that answers with a ticket.
pub open spec fn ticket_outcome(r: Result<LoginTicket>) -> Outcome<LoginTicketView> {
    match r {
        Ok(t) => Ok(t@),
        Err(e) => Err(e@),
    }
}

impl LoginTicket {
    /// The answer to the login, once the claims were signed into `token`.
    pub fn into_response(self, token: String) -> (r: LoginResponse)
        ensures
            r.user@ == user_response_of(self.user@),
            r.token@ == token@,
            r.expires_at == self.expires_at,
    {
        LoginResponse {
            user: UserResponse::from_user(&self.user),
            token,
            expires_at: self.expires_at,
        }
    }
}

// ---------------------------------------------------------------------
// The service
// ---------------------------------------------------------------------

/// The service that manages accounts.
#[derive(Debug)]
pub struct AuthService {
    repo: UserRepository,
    config: Config,
}

impl View for AuthService {
    type V = AuthServiceView;

    closed spec fn view(&self) -> AuthServiceView {
        AuthServiceView {
            users: self.repo@,
            jwt_expiration_hours: self.config.jwt_expiration_hours,
        }
    }
}

impl Service for AuthService {

}

/// The token of an `Authorization` header value: what follows `Bearer `, or
/// nothing when the value does not begin with it.
pub fn extract_token_from_header(header_value: &str) -> (r: Option<&str>)
    ensures
        crate::text::opt_str(r) == bearer_token(header_value@),
{
    proof {
        reveal_strlit("Bearer ");
    }
    if !starts_with(header_value, "Bearer ") {
        return None;
    }
    Some(skip_chars(header_value, 7))
}

/// Decides [`token_verdict`].
pub fn check_token(decoded: Option<Claims>, now: i64) -> (r: Result<Claims>)
    ensures
        claims_outcome(r) == token_verdict(opt_claims(decoded), now),
{
    match decoded {
        None => Err(AppError::Unauthorized("Invalid token".to_string())),
        Some(claims) => {
            if claims.is_expired_at(now) {
                Err(AppError::Unauthorized("Token expired".to_string()))
            } else {
                Ok(claims)
            }
        },
    }
}

impl AuthService {
    /// A service over the given users and settings.
    pub fn new(repo: UserRepository, config: Config) -> (s: Self)
        ensures
            s@ == (AuthServiceView {
                users: repo@,
                jwt_expiration_hours: config.jwt_expiration_hours,
            }),
    {
        AuthService { repo, config }
    }

    /// The user stored under the e-mail address, if any.
    pub fn find_by_email(&self, email: &str) -> (r: Option<User>)
        ensures
            crate::database::users::opt_user(r) == user_by_email(self@.users, email@),
    {
        match self.repo.find_by_email(email) {
            Ok(found) => found,
            Err(_) => None,
        }
    }

    /// Removes the user with the identifier and tells whether there was
    /// one. Nothing else changes.
    pub fn unregister(&mut self, user_id: &str) -> (r: bool)
        ensures
            r == has_user_id(old(self)@.users, user_id@),
            final(self)@ == (AuthServiceView {
                users: without_user(old(self)@.users, user_id@),
                ..old(self)@
            }),
    {
        let id = user_id.to_string();
        match self.repo.delete(&id) {
            Ok(removed) => removed,
            Err(_) => false,
        }
    }

    /// Whether a registration may go ahead; see [`registration_fault`].
    pub fn check_registration(&self, request: &RegisterRequest) -> (r: Result<()>)
        ensures
            match registration_fault(
                self@.users,
                request.email@,
                request.password@,
                opt_text(request.name),
            ) {
                Some(fault) => r is Err && r->Err_0@ == fault,
                None => r is Ok,
            },
    {
        if let Err(errors) = request.validate() {
            return Err(AppError::from(errors));
        }
        let taken = match self.repo.email_exists(request.email.as_str()) {
            Ok(t) => t,
            Err(e) => {
                return Err(e);
            },
        };
        if taken {
            return Err(AppError::Conflict("Email already registered".to_string()));
        }
        Ok(())
    }

    /// Stores the user of a registration that may go ahead and answers with
    /// the account. Fails with `Database`, and stores nothing, when the
    /// identifier or the e-mail address is taken.
    pub fn complete_registration(&mut self, create_user: &CreateUser, now: Timestamp) -> (r: Result<
        RegisterResponse,
    >)
        ensures
            final(self)@ == (AuthServiceView {
                users: after_user_insert(old(self)@.users, create_user@, now),
                ..old(self)@
            }),
            match user_insert_fault(old(self)@.users, create_user@) {
                Some(fault) => r is Err && r->Err_0@ == fault,
                None => r is Ok && r->Ok_0.user@ == user_response_of(create_user@.stored_at(now))
                    && r->Ok_0.message@ == "Registration successful"@,
            },
    {
        let user = match self.repo.create_at(create_user, now) {
            Ok(user) => user,
            Err(e) => {
                return Err(e);
            },
        };
        Ok(
            RegisterResponse {
                user: UserResponse::from(user),
                message: "Registration successful".to_string(),
            },
        )
    }

    /// Opens an account: checks the request, hashes the password, draws an
    /// identifier and stores the user. The request's faults and a taken
    /// e-mail address are reported as [`registration_fault`] says and leave
    /// the table as it is. On success the table has one more user, who is
    /// active, has the address and the name of the request, and a hash that
    /// the password fits.
    pub fn register(&mut self, request: RegisterRequest) -> (r: Result<RegisterResponse>)
        ensures
            match registration_fault(
                old(self)@.users,
                request.email@,
                request.password@,
                opt_text(request.name),
            ) {
                Some(fault) => r is Err && r->Err_0@ == fault && final(self)@ == old(self)@,
                None => true,
            },
            r is Err ==> final(self)@ == old(self)@,
            r is Err && registration_fault(
                old(self)@.users,
                request.email@,
                request.password@,
                opt_text(request.name),
            ) is None ==> r->Err_0@.kind == ErrorKind::Internal || r->Err_0@.kind
                == ErrorKind::Database,
            r is Ok ==> exists|stored: UserView|
                #![trigger old(self)@.users.push(stored)]
                final(self)@.users == old(self)@.users.push(stored) && stored.email
                    == request.email@ && stored.name == opt_text(request.name) && stored.is_active
                    && password_check(stored.password_hash, request.password@) == Ok::<
                    bool,
                    Seq<char>,
                >(true) && r->Ok_0.user@ == user_response_of(stored),
            final(self)@.jwt_expiration_hours == old(self)@.jwt_expiration_hours,
    {
        if let Err(e) = self.check_registration(&request) {
            return Err(e);
        }
        let create_user = match CreateUser::new(
            request.email.as_str(),
            request.password.as_str(),
            request.name,
        ) {
            Ok(c) => c,
            Err(e) => {
                return Err(e);
            },
        };
        let now = Timestamp::now();
        let r = self.complete_registration(&create_user, now);
        proof {
            if r is Ok {
                let stored = create_user@.stored_at(now);
                assert(final(self)@.users == old(self)@.users.push(stored));
            }
        }
        r
    }

    /// The user that a login is for; see [`login_user`].
    pub fn authenticate(&self, request: &LoginRequest) -> (r: Result<User>)
        ensures
            match login_user(self@.users, request.email@, request.password@) {
                Ok(user) => r is Ok && r->Ok_0@ == user,
                Err(e) => r is Err && r->Err_0@ == e,
            },
    {
        if let Err(errors) = request.validate() {
            return Err(AppError::from(errors));
        }
        let found = match self.repo.find_by_email(request.email.as_str()) {
            Ok(found) => found,
            Err(e) => {
                return Err(e);
            },
        };
        let user = match found {
            Some(user) => user,
            None => {
                return Err(AppError::Unauthorized("Invalid credentials".to_string()));
            },
        };
        if !user.is_active {
            return Err(AppError::Forbidden("Account is deactivated".to_string()));
        }
        let fits = match user.verify_password(request.password.as_str()) {
            Ok(fits) => fits,
            Err(e) => {
                return Err(e);
            },
        };
        if !fits {
            return Err(AppError::Unauthorized("Invalid credentials".to_string()));
        }
        Ok(user)
    }

    /// The ticket for a user at `now`: the claims to sign and the expiry of
    /// the token.
    pub fn generate_token_at(&self, user: User, now: Timestamp) -> (t: LoginTicket)
        requires
            now.secs + self@.jwt_expiration_hours * 3600 <= i64::MAX,
        ensures
            t@ == ticket_for(user@, self@.jwt_expiration_hours, now),
    {
        let hours = self.config.jwt_expiration_hours;
        let claims = Claims::issued_at(user.id.as_str(), user.email.as_str(), hours, now.secs);
        let expiry: i128 = now.secs as i128 + (hours as i128) * 3600;
        LoginTicket {
            user,
            claims,
            expires_at: Timestamp { secs: expiry as i64, nanos: now.nanos },
        }
    }

    /// Logs a user in at `now`: the ticket for the user that
    /// [`login_user`] finds.
    pub fn login_at(&self, request: LoginRequest, now: Timestamp) -> (r: Result<LoginTicket>)
        requires
            now.secs + self@.jwt_expiration_hours * 3600 <= i64::MAX,
        ensures
            ticket_outcome(r) == granted(
                login_user(self@.users, request.email@, request.password@),
                self@.jwt_expiration_hours,
                now,
            ),
    {
        match self.authenticate(&request) {
            Ok(user) => Ok(self.generate_token_at(user, now)),
            Err(e) => Err(e),
        }
    }

    /// Logs a user in by the system clock. Tokens must not be granted for
    /// longer than the clock can count.
    pub fn login(&self, request: LoginRequest) -> (r: Result<LoginTicket>)
        requires
            self@.jwt_expiration_hours <= crate::models::user::MAX_TOKEN_HOURS,
        ensures
            exists|now: Timestamp|
                now.clock_range() && ticket_outcome(r) == granted(
                    login_user(self@.users, request.email@, request.password@),
                    self@.jwt_expiration_hours,
                    now,
                ),
            r is Ok <==> login_user(self@.users, request.email@, request.password@) is Ok,
    {
        let now = Timestamp::now();
        self.login_at(request, now)
    }

    /// Checks a token that was read, at second `now`; see
    /// [`token_verdict`].
    pub fn verify_token_at(&self, decoded: Option<Claims>, now: i64) -> (r: Result<Claims>)
        ensures
            claims_outcome(r) == token_verdict(opt_claims(decoded), now),
    {
        check_token(decoded, now)
    }

    /// Checks a token that was read, by the system clock. A token that
    /// could not be read is never good.
    pub fn verify_token(&self, decoded: Option<Claims>) -> (r: Result<Claims>)
        ensures
            exists|now: Timestamp|
                now.clock_range() && claims_outcome(r) == token_verdict(
                    opt_claims(decoded),
                    now.secs,
                ),
            decoded is None ==> r is Err && r->Err_0@ == invalid_token(),
    {
        let now = Timestamp::now();
        self.verify_token_at(decoded, now.secs)
    }

    /// The user with the identifier as clients see them.
    pub fn get_user(&self, user_id: &str) -> (r: Result<UserResponse>)
        ensures
            match user_by_id(self@.users, user_id@) {
                Some(user) => r is Ok && r->Ok_0@ == user_response_of(user),
                None => r is Err && r->Err_0@ == (ErrorView {
                    kind: ErrorKind::NotFound,
                    detail: user_not_found_text(user_id@),
                }),
            },
    {
        match self.repo.find_user(user_id) {
            Some(user) => Ok(UserResponse::from(user)),
            None => Err(AppError::user_not_found(user_id)),
        }
    }

    /// Renews a token at `now`: the ticket for the user that
    /// [`renewal_user`] finds.
    pub fn refresh_token_at(&self, decoded: Option<Claims>, now: Timestamp) -> (r: Result<
        LoginTicket,
    >)
        requires
            now.secs + self@.jwt_expiration_hours * 3600 <= i64::MAX,
        ensures
            ticket_outcome(r) == granted(
                renewal_user(self@.users, opt_claims(decoded), now.secs),
                self@.jwt_expiration_hours,
                now,
            ),
    {
        let claims = match self.verify_token_at(decoded, now.secs) {
            Ok(claims) => claims,
            Err(e) => {
                return Err(e);
            },
        };
        match self.repo.find_user(claims.sub.as_str()) {
            Some(user) => Ok(self.generate_token_at(user, now)),
            None => Err(AppError::NotFound("User not found".to_string())),
        }
    }

    /// Renews a token by the system clock.
    pub fn refresh_token(&self, decoded: Option<Claims>) -> (r: Result<LoginTicket>)
        requires
            self@.jwt_expiration_hours <= crate::models::user::MAX_TOKEN_HOURS,
        ensures
            exists|now: Timestamp|
                now.clock_range() && ticket_outcome(r) == granted(
                    renewal_user(self@.users, opt_claims(decoded), now.secs),
                    self@.jwt_expiration_hours,
                    now,
                ),
            decoded is None ==> r is Err && r->Err_0@ == invalid_token(),
    {
        let now = Timestamp::now();
        self.refresh_token_at(decoded, now)
    }

    /// Decides whether a password may be changed; see [`password_change`].
    /// The stored hash is not replaced.
    pub fn change_password(&self, user_id: &str, current_password: &str, new_password: &str) -> (r:
        Result<()>)
        ensures
            done_outcome(r) == password_change(
                self@.users,
                user_id@,
                current_password@,
                new_password@,
            ),
    {
        if byte_len(new_password) < MIN_PASSWORD_LENGTH {
            return Err(AppError::BadRequest("Password must be at least 8 characters".to_string()));
        }
        let user = match self.repo.find_user(user_id) {
            Some(user) => user,
            None => {
                return Err(AppError::NotFound("User not found".to_string()));
            },
        };
        let fits = match user.verify_password(current_password) {
            Ok(fits) => fits,
            Err(e) => {
                return Err(e);
            },
        };
        if !fits {
            return Err(AppError::Unauthorized("Current password is incorrect".to_string()));
        }
        Ok(())
    }
}

/// Whoever has registered can log in: once a registration has stored a user
/// whose hash the password fits, a login with the same address and
/// password finds that user, provided the two requests are without faults.
pub proof fn lemma_registered_user_can_log_in(
    users: UserRows,
    stored: UserView,
    password: Seq<char>,
)
    requires
        crate::database::users::users_wf(users.push(stored)),
        stored.is_active,
        password_check(stored.password_hash, password) == Ok::<bool, Seq<char>>(true),
        login_faults(stored.email, password).len() == 0,
    ensures
        login_user(users.push(stored), stored.email, password) == Ok::<UserView, ErrorView>(stored),
{
    let t = users.push(stored);
    assert(t[users.len() as int] == stored);
    crate::database::users::lemma_user_at(t, users.len() as int);
}

} // verus!
