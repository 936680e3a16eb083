//! Short links and the requests and responses that carry them.

use crate::error::{AppError, ErrorKind, ErrorView, Outcome, Result};
use crate::models::{random_id, random_id_shape, RECORD_ID_LENGTH};
use crate::text::{clone_opt_text, concat3, opt_text, trim_end_char, trimmed_end};
use crate::time::{expired_at, is_expired, Timestamp};
use crate::utils::{
    code_char_allowed, generate_short_code, generated_code, is_code_char, DEFAULT_SHORT_CODE_LENGTH,
    MAX_CUSTOM_CODE_LENGTH, MAX_URL_LENGTH, MIN_CUSTOM_CODE_LENGTH,
};
use crate::validation::{
    char_count, looks_like_url, url_shaped, FieldErrorView, Validate, ValidationErrors,
};
use vstd::prelude::*;
use vstd::string::*;

verus! {

/// Longest title a link may carry, in characters.
pub const MAX_TITLE_LENGTH: usize = 200;

/// Shortest lifetime a link may be given, in hours.
pub const MIN_LIFETIME_HOURS: u32 = 1;

// ---------------------------------------------------------------------
// The stored record
// ---------------------------------------------------------------------

/// A short link as it is stored.
#[derive(Debug)]
pub struct Url {
    /// Identifier of the record.
    pub id: String,
    /// The short code clients visit.
    pub short_code: String,
    /// Where the short code leads.
    pub original_url: String,
    /// Optional title.
    pub title: Option<String>,
    /// How often the link was followed.
    pub clicks: i64,
    /// The owner, if the link has one.
    pub user_id: Option<String>,
    /// When the link stops working, if ever.
    pub expires_at: Option<Timestamp>,
    /// When the record was created.
    pub created_at: Timestamp,
    /// When the record last changed.
    pub updated_at: Timestamp,
}

/// The model of a [`Url`].
pub struct UrlView {
    pub id: Seq<char>,
    pub short_code: Seq<char>,
    pub original_url: Seq<char>,
    pub title: Option<Seq<char>>,
    pub clicks: i64,
    pub user_id: Option<Seq<char>>,
    pub expires_at: Option<Timestamp>,
    pub created_at: Timestamp,
    pub updated_at: Timestamp,
}

impl View for Url {
    type V = UrlView;

    open spec fn view(&self) -> UrlView {
        UrlView {
            id: self.id@,
            short_code: self.short_code@,
            original_url: self.original_url@,
            title: opt_text(self.title),
            clicks: self.clicks,
            user_id: opt_text(self.user_id),
            expires_at: self.expires_at,
            created_at: self.created_at,
            updated_at: self.updated_at,
        }
    }
}

impl Clone for Url {
    fn clone(&self) -> (u: Self)
        ensures
            u@ == self@,
    {
        Url {
            id: self.id.clone(),
            short_code: self.short_code.clone(),
            original_url: self.original_url.clone(),
            title: clone_opt_text(&self.title),
            clicks: self.clicks,
            user_id: clone_opt_text(&self.user_id),
            expires_at: self.expires_at,
            created_at: self.created_at,
            updated_at: self.updated_at,
        }
    }
}

/// The full short link for a code: the base address without trailing
/// slashes, a slash, and the code.
pub open spec fn short_url_text(base_url: Seq<char>, short_code: Seq<char>) -> Seq<char> {
    trimmed_end(base_url, '/') + seq!['/'] + short_code
}

impl UrlView {
    /// Whether the link has expired by `now`.
    pub open spec fn expired(self, now: Timestamp) -> bool {
        expired_at(self.expires_at, now)
    }
}

impl Url {
    /// Whether the link has expired by `now`: it has an expiry, and that
    /// lies strictly before `now`.
    pub fn is_expired_at(&self, now: Timestamp) -> (r: bool)
        ensures
            r == self@.expired(now),
    {
        is_expired(self.expires_at, now)
    }

    /// Whether the link has expired by the system clock. A link without an
    /// expiry never has.
    pub fn is_expired(&self) -> (r: bool)
        ensures
            self.expires_at is None ==> !r,
            exists|now: Timestamp| now.clock_range() && r == self@.expired(now),
    {
        let now = Timestamp::now();
        self.is_expired_at(now)
    }

    /// The full short link under `base_url`.
    pub fn short_url(&self, base_url: &str) -> (s: String)
        ensures
            s@ == short_url_text(base_url@, self.short_code@),
    {
        proof {
            reveal_strlit("/");
        }
        let s = concat3(trim_end_char(base_url, '/'), "/", self.short_code.as_str());
        assert("/"@ =~= seq!['/']);
        s
    }
}

// ---------------------------------------------------------------------
// What the store is asked to insert
// ---------------------------------------------------------------------

/// A short link about to be stored.
#[derive(Debug)]
pub struct CreateUrl {
    pub id: String,
    pub short_code: String,
    pub original_url: String,
    pub title: Option<String>,
    pub user_id: Option<String>,
    pub expires_at: Option<Timestamp>,
}

/// The model of a [`CreateUrl`].
pub struct CreateUrlView {
    pub id: Seq<char>,
    pub short_code: Seq<char>,
    pub original_url: Seq<char>,
    pub title: Option<Seq<char>>,
    pub user_id: Option<Seq<char>>,
    pub expires_at: Option<Timestamp>,
}

impl View for CreateUrl {
    type V = CreateUrlView;

    open spec fn view(&self) -> CreateUrlView {
        CreateUrlView {
            id: self.id@,
            short_code: self.short_code@,
            original_url: self.original_url@,
            title: opt_text(self.title),
            user_id: opt_text(self.user_id),
            expires_at: self.expires_at,
        }
    }
}

impl Clone for CreateUrl {
    fn clone(&self) -> (c: Self)
        ensures
            c@ == self@,
    {
        CreateUrl {
            id: self.id.clone(),
            short_code: self.short_code.clone(),
            original_url: self.original_url.clone(),
            title: clone_opt_text(&self.title),
            user_id: clone_opt_text(&self.user_id),
            expires_at: self.expires_at,
        }
    }
}

impl CreateUrlView {
    /// The record that storing this at `now` creates: no clicks yet, and
    /// both time marks at `now`.
    pub open spec fn stored_at(self, now: Timestamp) -> UrlView {
        UrlView {
            id: self.id,
            short_code: self.short_code,
            original_url: self.original_url,
            title: self.title,
            clicks: 0,
            user_id: self.user_id,
            expires_at: self.expires_at,
            created_at: now,
            updated_at: now,
        }
    }
}

// ---------------------------------------------------------------------
// Requests
// ---------------------------------------------------------------------

/// A client's request for a new short link.
#[derive(Debug)]
pub struct CreateUrlRequest {
    /// Where the link shall lead.
    pub url: String,
    /// The short code the client would like, if any.
    pub custom_code: Option<String>,
    /// Optional title.
    pub title: Option<String>,
    /// Lifetime in hours, if the link shall expire.
    pub expires_in_hours: Option<u32>,
}

/// The model of a [`CreateUrlRequest`].
pub struct CreateUrlRequestView {
    pub url: Seq<char>,
    pub custom_code: Option<Seq<char>>,
    pub title: Option<Seq<char>>,
    pub expires_in_hours: Option<u32>,
}

impl View for CreateUrlRequest {
    type V = CreateUrlRequestView;

    open spec fn view(&self) -> CreateUrlRequestView {
        CreateUrlRequestView {
            url: self.url@,
            custom_code: opt_text(self.custom_code),
            title: opt_text(self.title),
            expires_in_hours: self.expires_in_hours,
        }
    }
}

impl Clone for CreateUrlRequest {
    fn clone(&self) -> (c: Self)
        ensures
            c@ == self@,
    {
        CreateUrlRequest {
            url: self.url.clone(),
            custom_code: clone_opt_text(&self.custom_code),
            title: clone_opt_text(&self.title),
            expires_in_hours: self.expires_in_hours,
        }
    }
}

/// Whether every character of `s` may occur in a short code and there is
/// at least one.
pub open spec fn code_chars_only(s: Seq<char>) -> bool {
    s.len() > 0 && forall|i: int| 0 <= i < s.len() ==> is_code_char(#[trigger] s[i])
}

/// The fault of a title, if it has one: more than 200 characters.
pub open spec fn title_faults(title: Option<Seq<char>>) -> Seq<FieldErrorView> {
    if title is Some && title->0.len() > MAX_TITLE_LENGTH {
        seq![("title"@, "Title is too long"@)]
    } else {
        Seq::empty()
    }
}

/// The faults of a target URL: not shaped like a URL, longer than 2048
/// characters.
pub open spec fn url_faults(url: Seq<char>) -> Seq<FieldErrorView> {
    (if !url_shaped(url) {
        seq![("url"@, "Invalid URL format"@)]
    } else {
        Seq::empty()
    }) + (if url.len() > MAX_URL_LENGTH {
        seq![("url"@, "URL is too long"@)]
    } else {
        Seq::empty()
    })
}

/// The faults of a custom code: fewer than 3 or more than 20 characters, a
/// character other than letters, digits, `_` and `-`.
pub open spec fn custom_code_faults(code: Option<Seq<char>>) -> Seq<FieldErrorView> {
    match code {
        None => Seq::empty(),
        Some(c) => (if c.len() < MIN_CUSTOM_CODE_LENGTH || c.len() > MAX_CUSTOM_CODE_LENGTH {
            seq![("custom_code"@, "Custom code must be 3-20 characters"@)]
        } else {
            Seq::empty()
        }) + (if !code_chars_only(c) {
            seq![("custom_code"@, "Invalid custom code format"@)]
        } else {
            Seq::empty()
        }),
    }
}

/// Whether a lifetime is long enough: where one is given, it is at least
/// one hour, so that a link expires strictly after it is created.
pub open spec fn lifetime_fits(expires_in_hours: Option<u32>) -> bool {
    expires_in_hours is None || expires_in_hours->0 >= MIN_LIFETIME_HOURS
}

/// The fault of a lifetime, if it has one: less than one hour.
pub open spec fn lifetime_faults(expires_in_hours: Option<u32>) -> Seq<FieldErrorView> {
    if !lifetime_fits(expires_in_hours) {
        seq![("expires_in_hours"@, "Lifetime must be at least 1 hour"@)]
    } else {
        Seq::empty()
    }
}

/// All faults of a creation request, in the order url, custom code, title,
/// lifetime.
pub open spec fn create_request_faults(r: CreateUrlRequestView) -> Seq<FieldErrorView> {
    url_faults(r.url) + custom_code_faults(r.custom_code) + title_faults(r.title)
        + lifetime_faults(r.expires_in_hours)
}

/// All faults of an update request, in the order title, lifetime.
pub open spec fn update_request_faults(
    title: Option<Seq<char>>,
    expires_in_hours: Option<u32>,
) -> Seq<FieldErrorView> {
    title_faults(title) + lifetime_faults(expires_in_hours)
}

/// Decides [`code_chars_only`].
pub fn has_code_chars_only(s: &str) -> (r: bool)
    ensures
        r == code_chars_only(s@),
{
    let mut any = false;
    for c in it: s.chars()
        invariant
            it.seq() == s@,
            any == (it.index() > 0),
            forall|i: int| 0 <= i < it.index() ==> is_code_char(#[trigger] s@[i]),
    {
        if !code_char_allowed(c) {
            return false;
        }
        any = true;
    }
    any
}

/// Whether a title is short enough: at most 200 characters.
pub open spec fn title_fits(title: Option<Seq<char>>) -> bool {
    title is None || title->0.len() <= MAX_TITLE_LENGTH
}

/// Decides [`title_fits`].
pub fn title_allowed(title: &Option<String>) -> (r: bool)
    ensures
        r == title_fits(opt_text(*title)),
{
    match title {
        Some(t) => char_count(t.as_str()) <= MAX_TITLE_LENGTH,
        None => true,
    }
}

/// Decides [`lifetime_fits`].
pub fn lifetime_allowed(expires_in_hours: Option<u32>) -> (r: bool)
    ensures
        r == lifetime_fits(expires_in_hours),
{
    match expires_in_hours {
        Some(hours) => hours >= MIN_LIFETIME_HOURS,
        None => true,
    }
}

/// Adds the fault of a lifetime, if any, to `errors`.
fn check_lifetime(errors: &mut ValidationErrors, expires_in_hours: Option<u32>)
    ensures
        final(errors)@ == old(errors)@ + lifetime_faults(expires_in_hours),
{
    if !lifetime_allowed(expires_in_hours) {
        errors.add("expires_in_hours", "Lifetime must be at least 1 hour");
    }
    assert(final(errors)@ =~= old(errors)@ + lifetime_faults(expires_in_hours));
}

/// Adds the fault of a title, if any, to `errors`.
fn check_title(errors: &mut ValidationErrors, title: &Option<String>)
    ensures
        final(errors)@ == old(errors)@ + title_faults(opt_text(*title)),
{
    match title {
        Some(t) => {
            if char_count(t.as_str()) > MAX_TITLE_LENGTH {
                errors.add("title", "Title is too long");
                assert(final(errors)@ =~= old(errors)@ + title_faults(opt_text(*title)));
            } else {
                assert(final(errors)@ =~= old(errors)@ + title_faults(opt_text(*title)));
            }
        },
        None => {
            assert(final(errors)@ =~= old(errors)@ + title_faults(opt_text(*title)));
        },
    }
}

impl Validate for CreateUrlRequest {
    open spec fn faults(&self) -> Seq<FieldErrorView> {
        create_request_faults(self@)
    }

    /// Checks the request field by field; see [`create_request_faults`].
    fn validate(&self) -> (r: std::result::Result<(), ValidationErrors>) {
        let mut errors = ValidationErrors::new();
        if !looks_like_url(self.url.as_str()) {
            errors.add("url", "Invalid URL format");
        }
        if char_count(self.url.as_str()) > MAX_URL_LENGTH {
            errors.add("url", "URL is too long");
        }
        assert(errors@ =~= url_faults(self.url@));
        match &self.custom_code {
            Some(code) => {
                let n = char_count(code.as_str());
                if n < MIN_CUSTOM_CODE_LENGTH || n > MAX_CUSTOM_CODE_LENGTH {
                    errors.add("custom_code", "Custom code must be 3-20 characters");
                }
                if !has_code_chars_only(code.as_str()) {
                    errors.add("custom_code", "Invalid custom code format");
                }
            },
            None => {},
        }
        assert(errors@ =~= url_faults(self.url@) + custom_code_faults(opt_text(self.custom_code)));
        check_title(&mut errors, &self.title);
        check_lifetime(&mut errors, self.expires_in_hours);
        errors.into_result()
    }
}

/// A client's request to change a short link.
#[derive(Debug)]
pub struct UpdateUrlRequest {
    /// The new title, if it shall change.
    pub title: Option<String>,
    /// The new lifetime in hours, if it shall change.
    pub expires_in_hours: Option<u32>,
}

impl Clone for UpdateUrlRequest {
    fn clone(&self) -> (c: Self)
        ensures
            opt_text(c.title) == opt_text(self.title),
            c.expires_in_hours == self.expires_in_hours,
    {
        UpdateUrlRequest {
            title: clone_opt_text(&self.title),
            expires_in_hours: self.expires_in_hours,
        }
    }
}

impl Validate for UpdateUrlRequest {
    open spec fn faults(&self) -> Seq<FieldErrorView> {
        update_request_faults(opt_text(self.title), self.expires_in_hours)
    }

    /// Checks the request: a title of more than 200 characters and a
    /// lifetime of less than one hour are its possible faults.
    fn validate(&self) -> (r: std::result::Result<(), ValidationErrors>) {
        let mut errors = ValidationErrors::new();
        check_title(&mut errors, &self.title);
        assert(errors@ =~= title_faults(opt_text(self.title)));
        check_lifetime(&mut errors, self.expires_in_hours);
        errors.into_result()
    }
}

// ---------------------------------------------------------------------
// Responses
// ---------------------------------------------------------------------

/// A short link as it is shown to clients.
#[derive(Debug)]
pub struct UrlResponse {
    pub id: String,
    pub short_code: String,
    pub short_url: String,
    pub original_url: String,
    pub title: Option<String>,
    pub clicks: i64,
    pub expires_at: Option<Timestamp>,
    pub created_at: Timestamp,
}

/// The model of a [`UrlResponse`].
pub struct UrlResponseView {
    pub id: Seq<char>,
    pub short_code: Seq<char>,
    pub short_url: Seq<char>,
    pub original_url: Seq<char>,
    pub title: Option<Seq<char>>,
    pub clicks: i64,
    pub expires_at: Option<Timestamp>,
    pub created_at: Timestamp,
}

impl View for UrlResponse {
    type V = UrlResponseView;

    open spec fn view(&self) -> UrlResponseView {
        UrlResponseView {
            id: self.id@,
            short_code: self.short_code@,
            short_url: self.short_url@,
            original_url: self.original_url@,
            title: opt_text(self.title),
            clicks: self.clicks,
            expires_at: self.expires_at,
            created_at: self.created_at,
        }
    }
}

impl Clone for UrlResponse {
    fn clone(&self) -> (c: Self)
        ensures
            c@ == self@,
    {
        UrlResponse {
            id: self.id.clone(),
            short_code: self.short_code.clone(),
            short_url: self.short_url.clone(),
            original_url: self.original_url.clone(),
            title: clone_opt_text(&self.title),
            clicks: self.clicks,
            expires_at: self.expires_at,
            created_at: self.created_at,
        }
    }
}

/// What a client is shown of a record, with links under `base_url`.
pub open spec fn response_of(url: UrlView, base_url: Seq<char>) -> UrlResponseView {
    UrlResponseView {
        id: url.id,
        short_code: url.short_code,
        short_url: short_url_text(base_url, url.short_code),
        original_url: url.original_url,
        title: url.title,
        clicks: url.clicks,
        expires_at: url.expires_at,
        created_at: url.created_at,
    }
}

impl UrlResponse {
    /// What a client is shown of `url`, with links under `base_url`.
    pub fn from_url(url: &Url, base_url: &str) -> (r: Self)
        ensures
            r@ == response_of(url@, base_url@),
    {
        UrlResponse {
            id: url.id.clone(),
            short_code: url.short_code.clone(),
            short_url: url.short_url(base_url),
            original_url: url.original_url.clone(),
            title: clone_opt_text(&url.title),
            clicks: url.clicks,
            expires_at: url.expires_at,
            created_at: url.created_at,
        }
    }
}

/// The answer to a resolution: where to redirect.
#[derive(Debug)]
pub struct RedirectResponse {
    pub original_url: String,
}

// ---------------------------------------------------------------------
// Builder
// ---------------------------------------------------------------------

/// Step-by-step construction of a [`CreateUrl`].
#[derive(Debug)]
pub struct UrlBuilder {
    original_url: Option<String>,
    short_code: Option<String>,
    title: Option<String>,
    user_id: Option<String>,
    expires_at: Option<Timestamp>,
}

/// The model of a [`UrlBuilder`]: what has been set so far.
pub struct UrlBuilderView {
    pub original_url: Option<Seq<char>>,
    pub short_code: Option<Seq<char>>,
    pub title: Option<Seq<char>>,
    pub user_id: Option<Seq<char>>,
    pub expires_at: Option<Timestamp>,
}

impl View for UrlBuilder {
    type V = UrlBuilderView;

    closed spec fn view(&self) -> UrlBuilderView {
        UrlBuilderView {
            original_url: opt_text(self.original_url),
            short_code: opt_text(self.short_code),
            title: opt_text(self.title),
            user_id: opt_text(self.user_id),
            expires_at: self.expires_at,
        }
    }
}

/// A builder with nothing set.
pub open spec fn empty_builder() -> UrlBuilderView {
    UrlBuilderView {
        original_url: None,
        short_code: None,
        title: None,
        user_id: None,
        expires_at: None,
    }
}

/// What building yields once an identifier and a fallback code are at hand:
/// a failure when no target was set, otherwise the link to store, with the
/// fallback code where no code was set.
pub open spec fn built(b: UrlBuilderView, id: Seq<char>, fallback_code: Seq<char>) -> Outcome<
    CreateUrlView,
> {
    match b.original_url {
        None => Err(
            ErrorView { kind: ErrorKind::BadRequest, detail: "Original URL is required"@ },
        ),
        Some(target) => Ok(
            CreateUrlView {
                id,
                short_code: match b.short_code {
                    Some(c) => c,
                    None => fallback_code,
                },
                original_url: target,
                title: b.title,
                user_id: b.user_id,
                expires_at: b.expires_at,
            },
        ),
    }
}

/// The model of a build result.
pub open spec fn build_outcome(r: Result<CreateUrl>) -> Outcome<CreateUrlView> {
    match r {
        Ok(c) => Ok(c@),
        Err(e) => Err(e@),
    }
}

impl Default for UrlBuilder {
    fn default() -> (b: Self)
        ensures
            b@ == empty_builder(),
    {
        UrlBuilder {
            original_url: None,
            short_code: None,
            title: None,
            user_id: None,
            expires_at: None,
        }
    }
}

impl UrlBuilder {
    /// A builder for a link to `original_url`.
    pub fn new(original_url: &str) -> (b: Self)
        ensures
            b@ == (UrlBuilderView { original_url: Some(original_url@), ..empty_builder() }),
    {
        UrlBuilder {
            original_url: Some(original_url.to_string()),
            short_code: None,
            title: None,
            user_id: None,
            expires_at: None,
        }
    }

    /// Sets the short code.
    pub fn custom_code(self, code: &str) -> (b: Self)
        ensures
            b@ == (UrlBuilderView { short_code: Some(code@), ..self@ }),
    {
        let mut b = self;
        b.short_code = Some(code.to_string());
        b
    }

    /// Sets the title.
    pub fn title(self, title: &str) -> (b: Self)
        ensures
            b@ == (UrlBuilderView { title: Some(title@), ..self@ }),
    {
        let mut b = self;
        b.title = Some(title.to_string());
        b
    }

    /// Sets the owner.
    pub fn user_id(self, user_id: &str) -> (b: Self)
        ensures
            b@ == (UrlBuilderView { user_id: Some(user_id@), ..self@ }),
    {
        let mut b = self;
        b.user_id = Some(user_id.to_string());
        b
    }

    /// Sets the expiry.
    pub fn expires_at(self, expires_at: Timestamp) -> (b: Self)
        ensures
            b@ == (UrlBuilderView { expires_at: Some(expires_at), ..self@ }),
    {
        let mut b = self;
        b.expires_at = Some(expires_at);
        b
    }

    /// Sets the expiry to `hours` hours after `now`. The link table takes
    /// a link only if its expiry lies after its creation, so a link built
    /// with 0 hours cannot be stored at `now`.
    pub fn expires_in_hours_from(self, hours: u32, now: Timestamp) -> (b: Self)
        requires
            now.secs + hours * 3600 <= i64::MAX,
        ensures
            b@ == (UrlBuilderView { expires_at: Some(now.after_hours(hours as int)), ..self@ }),
    {
        self.expires_at(now.plus_hours(hours))
    }

    /// Sets the expiry to `hours` hours after the current reading of the
    /// system clock.
    pub fn expires_in_hours(self, hours: u32) -> (b: Self)
        ensures
            exists|now: Timestamp|
                now.clock_range() && b@ == (UrlBuilderView {
                    expires_at: Some(now.after_hours(hours as int)),
                    ..self@
                }),
    {
        let now = Timestamp::now();
        self.expires_in_hours_from(hours, now)
    }

    /// Builds the link with the given identifier, using `fallback_code`
    /// where no short code was set.
    pub fn build_with(self, id: String, fallback_code: String) -> (r: Result<CreateUrl>)
        ensures
            build_outcome(r) == built(self@, id@, fallback_code@),
    {
        let original_url = match self.original_url {
            Some(u) => u,
            None => {
                return Err(AppError::BadRequest("Original URL is required".to_string()));
            },
        };
        let short_code = match self.short_code {
            Some(c) => c,
            None => fallback_code,
        };
        Ok(
            CreateUrl {
                id,
                short_code,
                original_url,
                title: self.title,
                user_id: self.user_id,
                expires_at: self.expires_at,
            },
        )
    }

    /// Builds the link with a fresh random identifier, and with a freshly
    /// generated short code where none was set. Fails exactly when no target
    /// was set.
    pub fn build(self) -> (r: Result<CreateUrl>)
        ensures
            exists|id: Seq<char>, code: Seq<char>|
                random_id_shape(id, RECORD_ID_LENGTH as nat) && generated_code(
                    code,
                    DEFAULT_SHORT_CODE_LENGTH as nat,
                ) && build_outcome(r) == built(self@, id, code),
    {
        let id = random_id(RECORD_ID_LENGTH);
        let code = if self.short_code.is_none() {
            generate_short_code()
        } else {
            String::new()
        };
        let ghost id_text = id@;
        let ghost code_text = if self@.short_code is None {
            code@
        } else {
            Seq::new(DEFAULT_SHORT_CODE_LENGTH as nat, |i: int| 'a')
        };
        let r = self.build_with(id, code);
        assert(random_id_shape(id_text, RECORD_ID_LENGTH as nat) && generated_code(
            code_text,
            DEFAULT_SHORT_CODE_LENGTH as nat,
        ) && build_outcome(r) == built(self@, id_text, code_text));
        r
    }
}

} // verus!
