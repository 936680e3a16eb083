//! Allocation, resolution and removal of short links.
//!
//! The service owns the link table, a queue of clicks that were dispatched
//! but not yet recorded, and the settings it needs. Every operation that
//! depends on the time, on random codes or on random identifiers exists in
//! two forms: one that takes those values as arguments and whose outcome is
//! a function of its arguments, and one that draws them itself and then
//! behaves as the first.

use crate::config::Config;
use crate::database::repository::{
    code_taken_text, insert_fault, opt_row, rows_of, UrlRepository, UrlStats,
};
use crate::database::store::{
    has_code, live_rows, lookup, rows_of_user, store_wf, total_clicks, with_click, without_id, Rows,
};
use crate::error::{AppError, ErrorKind, ErrorView, Outcome, Result};
use crate::models::url::{
    lifetime_allowed, lifetime_fits, response_of, title_allowed, title_fits, CreateUrlRequest,
    CreateUrlRequestView, CreateUrlView, Url, UrlBuilder, UrlResponse, UrlResponseView, UrlView,
};
use crate::models::{random_id, random_id_shape, RECORD_ID_LENGTH};
use crate::services::laws::lemma_settled_counts;
use crate::services::Service;
use crate::text::{concat3, opt_str, opt_text, str_eq, texts};
use crate::time::Timestamp;
use crate::utils::{
    generate_short_code, generated_code, is_valid_short_code, is_valid_url, valid_short_code,
    valid_url, DEFAULT_SHORT_CODE_LENGTH,
};
use vstd::prelude::*;
use vstd::string::*;

verus! {

/// How many generated codes are tried before allocation gives up.
pub const MAX_GENERATION_ATTEMPTS: usize = 10;

// ---------------------------------------------------------------------
// The model
// ---------------------------------------------------------------------

/// The model of the service: the link table, the short codes of the clicks
/// still to be recorded (oldest first), and the base address of short links.
pub struct UrlServiceView {
    pub rows: Rows,
    pub pending: Seq<Seq<char>>,
    pub base_url: Seq<char>,
}

/// The failure for a short code that resolves to no live link.
pub open spec fn not_found(code: Seq<char>) -> ErrorView {
    ErrorView { kind: ErrorKind::NotFound, detail: "URL '"@ + code + "' not found"@ }
}

/// The failure for a target that is not an acceptable URL.
pub open spec fn invalid_url() -> ErrorView {
    ErrorView { kind: ErrorKind::BadRequest, detail: "Invalid URL format"@ }
}

/// The failure for a custom code of the wrong format.
pub open spec fn invalid_code() -> ErrorView {
    ErrorView { kind: ErrorKind::BadRequest, detail: "Invalid custom code format"@ }
}

/// The failure for a custom code that is taken.
pub open spec fn conflict(code: Seq<char>) -> ErrorView {
    ErrorView { kind: ErrorKind::Conflict, detail: code_taken_text(code) }
}

/// The failure of automatic allocation once its attempts are used up.
pub open spec fn allocation_exhausted() -> ErrorView {
    ErrorView { kind: ErrorKind::Internal, detail: "Failed to generate unique short code"@ }
}

/// The failure for a requester who may not delete a link.
pub open spec fn forbidden() -> ErrorView {
    ErrorView {
        kind: ErrorKind::Forbidden,
        detail: "You don't have permission to delete this URL"@,
    }
}

/// The generated codes that allocation looks at: the first ten.
pub open spec fn attempts(generated: Seq<Seq<char>>) -> Seq<Seq<char>> {
    if generated.len() > MAX_GENERATION_ATTEMPTS {
        generated.take(MAX_GENERATION_ATTEMPTS as int)
    } else {
        generated
    }
}

/// The first of the codes that no row carries, if there is one.
pub open spec fn first_free(rows: Rows, codes: Seq<Seq<char>>) -> Option<Seq<char>>
    decreases codes.len(),
{
    if codes.len() == 0 {
        None
    } else if !has_code(rows, codes[0]) {
        Some(codes[0])
    } else {
        first_free(rows, codes.drop_first())
    }
}

/// The code allocated for a new link. A candidate is taken as it is when its
/// format is right and no row carries it; otherwise the request fails and no
/// other code stands in. Without a candidate the first free one of the
/// generated codes is taken, and allocation is exhausted when there is none
/// among the first ten.
pub open spec fn allocation(
    rows: Rows,
    candidate: Option<Seq<char>>,
    generated: Seq<Seq<char>>,
) -> Outcome<Seq<char>> {
    match candidate {
        Some(code) => if !valid_short_code(code) {
            Err(invalid_code())
        } else if has_code(rows, code) {
            Err(conflict(code))
        } else {
            Ok(code)
        },
        None => match first_free(rows, attempts(generated)) {
            Some(code) => Ok(code),
            None => Err(allocation_exhausted()),
        },
    }
}

/// When a link created at `now` expires: after its lifetime, if it has one.
pub open spec fn expiry_for(ttl_hours: Option<u32>, now: Timestamp) -> Option<Timestamp> {
    match ttl_hours {
        Some(hours) => Some(now.after_hours(hours as int)),
        None => None,
    }
}

/// The link that a request asks to store under an allocated code.
pub open spec fn link_to_store(
    request: CreateUrlRequestView,
    owner: Option<Seq<char>>,
    id: Seq<char>,
    code: Seq<char>,
    now: Timestamp,
) -> CreateUrlView {
    CreateUrlView {
        id,
        short_code: code,
        original_url: request.url,
        title: request.title,
        user_id: owner,
        expires_at: expiry_for(request.expires_in_hours, now),
    }
}

/// The failure for a title of more than 200 characters.
pub open spec fn title_too_long() -> ErrorView {
    ErrorView { kind: ErrorKind::Validation, detail: "title: Title is too long"@ }
}

/// The failure for a lifetime of less than one hour.
pub open spec fn lifetime_too_short() -> ErrorView {
    ErrorView {
        kind: ErrorKind::Validation,
        detail: "expires_in_hours: Lifetime must be at least 1 hour"@,
    }
}

/// The outcome of a creation: the row that is stored, or why none is.
///
/// The target must be an acceptable URL. Then a code is allocated, so that
/// a candidate of the wrong format and a candidate that is taken are
/// reported whatever else the request holds. Then the title must be short
/// enough and the lifetime, if there is one, at least one hour. At last the
/// link is inserted, which fails when the identifier is taken or the expiry
/// cannot be told from the creation. So no link is ever stored whose expiry
/// is not strictly after its creation.
pub open spec fn creation(
    rows: Rows,
    request: CreateUrlRequestView,
    owner: Option<Seq<char>>,
    id: Seq<char>,
    generated: Seq<Seq<char>>,
    now: Timestamp,
) -> Outcome<UrlView> {
    if !valid_url(request.url) {
        Err(invalid_url())
    } else {
        match allocation(rows, request.custom_code, generated) {
            Err(e) => Err(e),
            Ok(code) => if !title_fits(request.title) {
                Err(title_too_long())
            } else if !lifetime_fits(request.expires_in_hours) {
                Err(lifetime_too_short())
            } else {
                let link = link_to_store(request, owner, id, code, now);
                match insert_fault(rows, link, now) {
                    Some(fault) => Err(fault),
                    None => Ok(link.stored_at(now)),
                }
            },
        }
    }
}

/// The table after a creation: one row longer when it succeeded, unchanged
/// when it failed.
pub open spec fn rows_after_creation(
    rows: Rows,
    request: CreateUrlRequestView,
    owner: Option<Seq<char>>,
    id: Seq<char>,
    generated: Seq<Seq<char>>,
    now: Timestamp,
) -> Rows {
    match creation(rows, request, owner, id, generated, now) {
        Ok(row) => rows.push(row),
        Err(_) => rows,
    }
}

/// The live link under a code at `now`: the row with the code, unless it
/// has expired.
pub open spec fn live_link(rows: Rows, code: Seq<char>, now: Timestamp) -> Option<UrlView> {
    match lookup(rows, code) {
        Some(row) => if row.expired(now) {
            None
        } else {
            Some(row)
        },
        None => None,
    }
}

/// The outcome of a resolution: the target of the live link under the code,
/// or "not found" where there is none. An expired link and an unknown code
/// give the same failure.
pub open spec fn resolution(rows: Rows, code: Seq<char>, now: Timestamp) -> Outcome<Seq<char>> {
    match live_link(rows, code, now) {
        Some(row) => Ok(row.original_url),
        None => Err(not_found(code)),
    }
}

/// The click queue after a resolution: one entry longer when it succeeded.
pub open spec fn pending_after_resolution(
    rows: Rows,
    pending: Seq<Seq<char>>,
    code: Seq<char>,
    now: Timestamp,
) -> Seq<Seq<char>> {
    if live_link(rows, code, now) is Some {
        pending.push(code)
    } else {
        pending
    }
}

/// The outcome of a request for a link's details.
pub open spec fn information(
    rows: Rows,
    base_url: Seq<char>,
    code: Seq<char>,
    now: Timestamp,
) -> Outcome<UrlResponseView> {
    match live_link(rows, code, now) {
        Some(row) => Ok(response_of(row, base_url)),
        None => Err(not_found(code)),
    }
}

/// Whether a requester may delete a link with the given owner: always when
/// the link has no owner, otherwise only the owner.
pub open spec fn may_delete(owner: Option<Seq<char>>, requester: Option<Seq<char>>) -> bool {
    owner is None || owner == requester
}

/// The outcome of a deletion: "not found" without a live link under the
/// code, "forbidden" when the requester may not delete it, success
/// otherwise.
pub open spec fn deletion(
    rows: Rows,
    code: Seq<char>,
    requester: Option<Seq<char>>,
    now: Timestamp,
) -> Outcome<()> {
    match live_link(rows, code, now) {
        None => Err(not_found(code)),
        Some(row) => if may_delete(row.user_id, requester) {
            Ok(())
        } else {
            Err(forbidden())
        },
    }
}

/// The table after a deletion: without the link when it succeeded,
/// unchanged when it failed.
pub open spec fn rows_after_deletion(
    rows: Rows,
    code: Seq<char>,
    requester: Option<Seq<char>>,
    now: Timestamp,
) -> Rows {
    match live_link(rows, code, now) {
        Some(row) => if may_delete(row.user_id, requester) {
            without_id(rows, row.id)
        } else {
            rows
        },
        None => rows,
    }
}

/// The table after the queued clicks were recorded at `now`, oldest first.
pub open spec fn settled(rows: Rows, pending: Seq<Seq<char>>, now: Timestamp) -> Rows
    decreases pending.len(),
{
    if pending.len() == 0 {
        rows
    } else {
        with_click(settled(rows, pending.drop_last(), now), pending.last(), now)
    }
}

/// How often `code` occurs in a click queue.
pub open spec fn occurrences(pending: Seq<Seq<char>>, code: Seq<char>) -> nat
    decreases pending.len(),
{
    if pending.len() == 0 {
        0
    } else if pending.last() == code {
        occurrences(pending.drop_last(), code) + 1
    } else {
        occurrences(pending.drop_last(), code)
    }
}

/// Whether two rows are the same link: they agree in everything but the
/// counter and the change mark.
pub open spec fn same_link(a: UrlView, b: UrlView) -> bool {
    &&& a.id == b.id
    &&& a.short_code == b.short_code
    &&& a.original_url == b.original_url
    &&& a.title == b.title
    &&& a.user_id == b.user_id
    &&& a.expires_at == b.expires_at
    &&& a.created_at == b.created_at
}

/// Whether the link under `code` stands in `after` as settling `pending` on
/// `before` leaves it: there if and only if it was there, the same link,
/// never with a lower counter, with its counter raised by the number of
/// clicks queued for it as long as the counter can hold the sum, and
/// untouched where no click was queued for it.
pub open spec fn counted(
    before: Rows,
    pending: Seq<Seq<char>>,
    after: Rows,
    code: Seq<char>,
) -> bool {
    &&& lookup(after, code) is Some <==> lookup(before, code) is Some
    &&& lookup(before, code) is Some ==> same_link(lookup(after, code)->0, lookup(before, code)->0)
        && lookup(after, code)->0.clicks >= lookup(before, code)->0.clicks
    &&& lookup(before, code) is Some && lookup(before, code)->0.clicks + occurrences(pending, code)
        <= i64::MAX ==> lookup(after, code)->0.clicks == lookup(before, code)->0.clicks
        + occurrences(pending, code)
    &&& occurrences(pending, code) == 0 ==> lookup(after, code) == lookup(before, code)
}

/// Whether every link stands in `after` as settling `pending` on `before`
/// leaves it; see [`counted`].
pub open spec fn settled_as_counted(before: Rows, pending: Seq<Seq<char>>, after: Rows) -> bool {
    forall|code: Seq<char>| #![trigger lookup(after, code)] counted(before, pending, after, code)
}

/// What clients are shown of a list of rows.
pub open spec fn responses_of(rows: Rows, base_url: Seq<char>) -> Seq<UrlResponseView> {
    Seq::new(rows.len(), |i: int| response_of(rows[i], base_url))
}

/// The models of a list of responses.
pub open spec fn response_views(v: Seq<UrlResponse>) -> Seq<UrlResponseView> {
    Seq::new(v.len(), |i: int| v[i]@)
}

/// The model of the result of an operation that answers with a link.
pub open spec fn response_outcome(r: Result<UrlResponse>) -> Outcome<UrlResponseView> {
    match r {
        Ok(response) => Ok(response@),
        Err(e) => Err(e@),
    }
}

/// The model of the result of an operation that answers with a text.
pub open spec fn text_outcome(r: Result<String>) -> Outcome<Seq<char>> {
    match r {
        Ok(s) => Ok(s@),
        Err(e) => Err(e@),
    }
}

/// The model of the result of an operation that answers with nothing.
pub open spec fn unit_outcome(r: Result<()>) -> Outcome<()> {
    match r {
        Ok(()) => Ok(()),
        Err(e) => Err(e@),
    }
}

/// What a creation answers: the stored row as clients see it.
pub open spec fn creation_response(
    created: Outcome<UrlView>,
    base_url: Seq<char>,
) -> Outcome<UrlResponseView> {
    match created {
        Ok(row) => Ok(response_of(row, base_url)),
        Err(e) => Err(e),
    }
}

/// Whether `codes` could be the codes drawn for one allocation: ten codes of
/// seven letters or digits each.
pub open spec fn generated_batch(codes: Seq<Seq<char>>) -> bool {
    &&& codes.len() == MAX_GENERATION_ATTEMPTS
    &&& forall|i: int|
        0 <= i < codes.len() ==> generated_code(
            #[trigger] codes[i],
            DEFAULT_SHORT_CODE_LENGTH as nat,
        )
}

// ---------------------------------------------------------------------
// The service
// ---------------------------------------------------------------------

/// The service that allocates, resolves and removes short links.
#[derive(Debug)]
pub struct UrlService {
    repo: UrlRepository,
    config: Config,
    pending_clicks: Vec<String>,
}

impl View for UrlService {
    type V = UrlServiceView;

    closed spec fn view(&self) -> UrlServiceView {
        UrlServiceView {
            rows: self.repo@,
            pending: texts(self.pending_clicks@),
            base_url: self.config.base_url@,
        }
    }
}

impl Service for UrlService {

}

/// The failure for a short code that resolves to no live link.
fn not_found_error(short_code: &str) -> (e: AppError)
    ensures
        e@ == not_found(short_code@),
{
    AppError::NotFound(concat3("URL '", short_code, "' not found"))
}

/// Decides [`may_delete`].
pub fn requester_may_delete(owner: &Option<String>, requester: Option<&str>) -> (r: bool)
    ensures
        r == may_delete(opt_text(*owner), opt_str(requester)),
{
    match owner {
        None => true,
        Some(o) => match requester {
            Some(who) => str_eq(o.as_str(), who),
            None => false,
        },
    }
}

/// Draws the codes for one allocation.
fn draw_codes() -> (codes: Vec<String>)
    ensures
        generated_batch(texts(codes@)),
{
    let mut codes: Vec<String> = Vec::new();
    let mut i: usize = 0;
    while i < MAX_GENERATION_ATTEMPTS
        invariant
            i <= MAX_GENERATION_ATTEMPTS,
            codes@.len() == i,
            forall|k: int|
                0 <= k < codes@.len() ==> generated_code(
                    (#[trigger] codes@[k])@,
                    DEFAULT_SHORT_CODE_LENGTH as nat,
                ),
        decreases MAX_GENERATION_ATTEMPTS - i,
    {
        let code = generate_short_code();
        codes.push(code);
        i += 1;
    }
    assert forall|k: int| 0 <= k < texts(codes@).len() implies generated_code(
        #[trigger] texts(codes@)[k],
        DEFAULT_SHORT_CODE_LENGTH as nat,
    ) by {
        assert(texts(codes@)[k] == codes@[k]@);
    }
    codes
}

impl UrlService {
    /// A service over the given table and settings, with no click waiting.
    pub fn new(repo: UrlRepository, config: Config) -> (s: Self)
        ensures
            s@ == (UrlServiceView {
                rows: repo@,
                pending: Seq::empty(),
                base_url: config.base_url@,
            }),
    {
        let s = UrlService { repo, config, pending_clicks: Vec::new() };
        assert(texts(s.pending_clicks@) =~= Seq::<Seq<char>>::empty());
        s
    }

    /// Nothing to do at run time; tells the caller that the link table is
    /// well-formed.
    pub fn well_formed(&self)
        ensures
            store_wf(self@.rows),
    {
        self.repo.well_formed();
    }

    /// Number of clicks dispatched and not yet recorded.
    pub fn pending_clicks(&self) -> (n: usize)
        ensures
            n == self@.pending.len(),
    {
        self.pending_clicks.len()
    }

    /// The short codes of the clicks dispatched and not yet recorded, oldest
    /// first.
    pub fn pending_codes(&self) -> (codes: Vec<String>)
        ensures
            texts(codes@) == self@.pending,
    {
        let mut codes: Vec<String> = Vec::new();
        let mut i: usize = 0;
        while i < self.pending_clicks.len()
            invariant
                i <= self.pending_clicks@.len(),
                codes@.len() == i,
                forall|k: int| 0 <= k < i ==> (#[trigger] codes@[k])@ == self.pending_clicks@[k]@,
            decreases self.pending_clicks.len() - i,
        {
            codes.push(self.pending_clicks[i].clone());
            i += 1;
        }
        assert(texts(codes@) =~= texts(self.pending_clicks@));
        codes
    }

    /// The row stored under the code, expired or not.
    pub fn find_by_short_code(&self, short_code: &str) -> (r: Option<Url>)
        ensures
            opt_row(r) == lookup(self@.rows, short_code@),
    {
        match self.repo.find_by_short_code(short_code) {
            Ok(found) => found,
            Err(_) => None,
        }
    }

    /// Allocates the code for a new link from a candidate, or else from the
    /// generated codes; see [`allocation`].
    pub fn allocate_unique_code(&self, candidate: Option<&str>, generated: &Vec<String>) -> (r:
        Result<String>)
        ensures
            text_outcome(r) == allocation(self@.rows, opt_str(candidate), texts(generated@)),
    {
        match candidate {
            Some(code) => {
                if !is_valid_short_code(code) {
                    return Err(AppError::BadRequest("Invalid custom code format".to_string()));
                }
                let taken = match self.repo.code_exists(code) {
                    Ok(t) => t,
                    Err(e) => {
                        return Err(e);
                    },
                };
                if taken {
                    return Err(
                        AppError::Conflict(concat3("Short code '", code, "' already exists")),
                    );
                }
                Ok(code.to_string())
            },
            None => {
                let ghost tries = attempts(texts(generated@));
                let mut i: usize = 0;
                assert(tries.skip(0) =~= tries);
                while i < generated.len() && i < MAX_GENERATION_ATTEMPTS
                    invariant
                        i <= generated@.len(),
                        i <= MAX_GENERATION_ATTEMPTS,
                        i <= tries.len(),
                        candidate is None,
                        tries == attempts(texts(generated@)),
                        first_free(self@.rows, tries) == first_free(
                            self@.rows,
                            tries.skip(i as int),
                        ),
                    decreases generated.len() - i,
                {
                    let ghost rest = tries.skip(i as int);
                    assert(rest[0] == generated@[i as int]@);
                    assert(rest.drop_first() =~= tries.skip(i + 1));
                    let taken = match self.repo.code_exists(generated[i].as_str()) {
                        Ok(t) => t,
                        Err(e) => {
                            return Err(e);
                        },
                    };
                    if !taken {
                        assert(first_free(self@.rows, rest) == Some(rest[0]));
                        return Ok(generated[i].clone());
                    }
                    assert(first_free(self@.rows, rest) == first_free(
                        self@.rows,
                        rest.drop_first(),
                    ));
                    i += 1;
                }
                assert(tries.skip(i as int).len() == 0);
                Err(AppError::Internal("Failed to generate unique short code".to_string()))
            },
        }
    }

    /// Draws up to ten random codes and returns the first that no link
    /// carries. Whatever is drawn, a code that is returned has seven letters
    /// or digits and is free, and a failure is exhaustion.
    pub fn generate_unique_code(&self) -> (r: Result<String>)
        ensures
            exists|generated: Seq<Seq<char>>|
                generated_batch(generated) && text_outcome(r) == allocation(
                    self@.rows,
                    None,
                    generated,
                ),
            r is Ok ==> !has_code(self@.rows, r->Ok_0@) && generated_code(
                r->Ok_0@,
                DEFAULT_SHORT_CODE_LENGTH as nat,
            ),
            r is Err ==> r->Err_0@ == allocation_exhausted(),
    {
        let generated = draw_codes();
        let r = self.allocate_unique_code(None, &generated);
        proof {
            lemma_first_free(self@.rows, attempts(texts(generated@)));
            assert(generated_batch(texts(generated@)) && text_outcome(r) == allocation(
                self@.rows,
                None,
                texts(generated@),
            ));
        }
        r
    }

    /// Creates a short link from the request, with the given identifier,
    /// generated codes and clock reading; see [`creation`]. On success the
    /// stored link is answered and the table has one more row; on failure
    /// the table is unchanged. With an acceptable target, a candidate of
    /// the wrong format and a candidate that is taken are reported first,
    /// whatever the title and the lifetime. A link that is stored with an
    /// expiry expires strictly after its creation.
    pub fn create_short_url_with(
        &mut self,
        request: CreateUrlRequest,
        user_id: Option<String>,
        id: String,
        generated: &Vec<String>,
        now: Timestamp,
    ) -> (r: Result<UrlResponse>)
        requires
            request.expires_in_hours is Some ==> now.secs + request.expires_in_hours->0 * 3600
                <= i64::MAX,
        ensures
            response_outcome(r) == creation_response(
                creation(
                    old(self)@.rows,
                    request@,
                    opt_text(user_id),
                    id@,
                    texts(generated@),
                    now,
                ),
                old(self)@.base_url,
            ),
            final(self)@ == (UrlServiceView {
                rows: rows_after_creation(
                    old(self)@.rows,
                    request@,
                    opt_text(user_id),
                    id@,
                    texts(generated@),
                    now,
                ),
                ..old(self)@
            }),
            r is Ok && r->Ok_0@.expires_at is Some ==> r->Ok_0@.created_at.before(
                r->Ok_0@.expires_at->0,
            ),
            r is Ok ==> (r->Ok_0@.expires_at is Some <==> request.expires_in_hours is Some),
            !lifetime_fits(request.expires_in_hours) ==> r is Err && final(self)@ == old(self)@,
            valid_url(request.url@) && request.custom_code is Some && !valid_short_code(
                request.custom_code->0@,
            ) ==> r is Err && r->Err_0@ == invalid_code() && final(self)@ == old(self)@,
            valid_url(request.url@) && request.custom_code is Some && valid_short_code(
                request.custom_code->0@,
            ) && has_code(old(self)@.rows, request.custom_code->0@) ==> r is Err && r->Err_0@
                == conflict(request.custom_code->0@) && final(self)@ == old(self)@,
            request.custom_code is Some && has_code(old(self)@.rows, request.custom_code->0@)
                ==> r is Err && final(self)@ == old(self)@,
    {
        if !is_valid_url(request.url.as_str()) {
            return Err(AppError::BadRequest("Invalid URL format".to_string()));
        }
        let candidate: Option<&str> = match &request.custom_code {
            Some(code) => Some(code.as_str()),
            None => None,
        };
        let short_code = match self.allocate_unique_code(candidate, generated) {
            Ok(code) => code,
            Err(e) => {
                return Err(e);
            },
        };
        if !title_allowed(&request.title) {
            return Err(AppError::Validation("title: Title is too long".to_string()));
        }
        if !lifetime_allowed(request.expires_in_hours) {
            return Err(
                AppError::Validation(
                    "expires_in_hours: Lifetime must be at least 1 hour".to_string(),
                ),
            );
        }
        let mut builder = UrlBuilder::new(request.url.as_str()).custom_code(short_code.as_str());
        if let Some(title) = &request.title {
            builder = builder.title(title.as_str());
        }
        if let Some(user) = &user_id {
            builder = builder.user_id(user.as_str());
        }
        if let Some(hours) = request.expires_in_hours {
            builder = builder.expires_in_hours_from(hours, now);
        }
        let create_url = match builder.build_with(id, short_code) {
            Ok(c) => c,
            Err(e) => {
                return Err(e);
            },
        };
        assert(create_url@ == link_to_store(
            request@,
            opt_text(user_id),
            id@,
            create_url@.short_code,
            now,
        ));
        let url = match self.repo.create_at(&create_url, now) {
            Ok(u) => u,
            Err(e) => {
                return Err(e);
            },
        };
        Ok(UrlResponse::from_url(&url, self.config.base_url.as_str()))
    }

    /// Creates a short link from the request, with a fresh random
    /// identifier, the system clock and, where the request names no code,
    /// freshly drawn codes. The outcome is that of
    /// [`UrlService::create_short_url_with`] for some identifier, clock
    /// reading and batch of codes that could have been drawn.
    pub fn create_short_url(&mut self, request: CreateUrlRequest, user_id: Option<String>) -> (r:
        Result<UrlResponse>)
        ensures
            exists|id: Seq<char>, generated: Seq<Seq<char>>, now: Timestamp|
                random_id_shape(id, RECORD_ID_LENGTH as nat) && generated_batch(generated)
                    && now.clock_range() && response_outcome(r) == creation_response(
                    creation(old(self)@.rows, request@, opt_text(user_id), id, generated, now),
                    old(self)@.base_url,
                ) && final(self)@ == (UrlServiceView {
                    rows: rows_after_creation(
                        old(self)@.rows,
                        request@,
                        opt_text(user_id),
                        id,
                        generated,
                        now,
                    ),
                    ..old(self)@
                }),
            r is Ok && r->Ok_0@.expires_at is Some ==> r->Ok_0@.created_at.before(
                r->Ok_0@.expires_at->0,
            ),
            r is Ok ==> (r->Ok_0@.expires_at is Some <==> request.expires_in_hours is Some),
            !lifetime_fits(request.expires_in_hours) ==> r is Err && final(self)@ == old(self)@,
            valid_url(request.url@) && request.custom_code is Some && !valid_short_code(
                request.custom_code->0@,
            ) ==> r is Err && r->Err_0@ == invalid_code() && final(self)@ == old(self)@,
            valid_url(request.url@) && request.custom_code is Some && valid_short_code(
                request.custom_code->0@,
            ) && has_code(old(self)@.rows, request.custom_code->0@) ==> r is Err && r->Err_0@
                == conflict(request.custom_code->0@) && final(self)@ == old(self)@,
            request.custom_code is Some && has_code(old(self)@.rows, request.custom_code->0@)
                ==> r is Err && final(self)@ == old(self)@,
            r is Err ==> final(self)@ == old(self)@,
    {
        let now = Timestamp::now();
        let id = random_id(RECORD_ID_LENGTH);
        let generated = if request.custom_code.is_none() {
            draw_codes()
        } else {
            Vec::new()
        };
        let ghost id_text = id@;
        let ghost drawn = if request.custom_code is None {
            texts(generated@)
        } else {
            Seq::new(MAX_GENERATION_ATTEMPTS as nat, |i: int| Seq::new(7, |j: int| 'a'))
        };
        let r = self.create_short_url_with(request, user_id, id, &generated, now);
        assert(random_id_shape(id_text, RECORD_ID_LENGTH as nat) && generated_batch(drawn)
            && now.clock_range() && response_outcome(r) == creation_response(
            creation(old(self)@.rows, request@, opt_text(user_id), id_text, drawn, now),
            old(self)@.base_url,
        ) && final(self)@ == (UrlServiceView {
            rows: rows_after_creation(
                old(self)@.rows,
                request@,
                opt_text(user_id),
                id_text,
                drawn,
                now,
            ),
            ..old(self)@
        }));
        r
    }

    /// The live link under the code at `now`, if any.
    fn find_live(&self, short_code: &str, now: Timestamp) -> (r: Option<Url>)
        ensures
            opt_row(r) == live_link(self@.rows, short_code@, now),
    {
        match self.repo.find_by_short_code(short_code) {
            Ok(Some(url)) => {
                if url.is_expired_at(now) {
                    None
                } else {
                    Some(url)
                }
            },
            _ => None,
        }
    }

    /// Resolves a short code at `now`; see [`resolution`]. On success one
    /// click on the code joins the queue of clicks to record, so that the
    /// code is queued once more than before; the table itself is not
    /// touched. On failure nothing changes.
    pub fn get_original_url_at(&mut self, short_code: &str, now: Timestamp) -> (r: Result<String>)
        ensures
            text_outcome(r) == resolution(old(self)@.rows, short_code@, now),
            final(self)@ == (UrlServiceView {
                pending: pending_after_resolution(
                    old(self)@.rows,
                    old(self)@.pending,
                    short_code@,
                    now,
                ),
                ..old(self)@
            }),
            r is Ok ==> occurrences(final(self)@.pending, short_code@) == occurrences(
                old(self)@.pending,
                short_code@,
            ) + 1,
            r is Err ==> final(self)@ == old(self)@,
    {
        proof {
            assert(old(self)@.pending.push(short_code@).drop_last() =~= old(self)@.pending);
        }
        match self.find_live(short_code, now) {
            Some(url) => {
                self.pending_clicks.push(short_code.to_string());
                assert(texts(self.pending_clicks@) =~= old(self)@.pending.push(short_code@));
                Ok(url.original_url)
            },
            None => Err(not_found_error(short_code)),
        }
    }

    /// Resolves a short code by the system clock.
    pub fn get_original_url(&mut self, short_code: &str) -> (r: Result<String>)
        ensures
            exists|now: Timestamp|
                now.clock_range() && text_outcome(r) == resolution(
                    old(self)@.rows,
                    short_code@,
                    now,
                ) && final(self)@ == (UrlServiceView {
                    pending: pending_after_resolution(
                        old(self)@.rows,
                        old(self)@.pending,
                        short_code@,
                        now,
                    ),
                    ..old(self)@
                }),
            lookup(old(self)@.rows, short_code@) is None ==> r is Err && r->Err_0@ == not_found(
                short_code@,
            ),
            final(self)@.rows == old(self)@.rows,
            r is Ok ==> occurrences(final(self)@.pending, short_code@) == occurrences(
                old(self)@.pending,
                short_code@,
            ) + 1,
            r is Err ==> final(self)@ == old(self)@,
            lookup(old(self)@.rows, short_code@) is Some && lookup(
                old(self)@.rows,
                short_code@,
            )->0.expires_at is None ==> r is Ok && r->Ok_0@ == lookup(
                old(self)@.rows,
                short_code@,
            )->0.original_url,
    {
        let now = Timestamp::now();
        self.get_original_url_at(short_code, now)
    }

    /// The details of the live link under the code at `now`; see
    /// [`information`]. No click is counted.
    pub fn get_url_info_at(&self, short_code: &str, now: Timestamp) -> (r: Result<UrlResponse>)
        ensures
            response_outcome(r) == information(self@.rows, self@.base_url, short_code@, now),
    {
        match self.find_live(short_code, now) {
            Some(url) => Ok(UrlResponse::from_url(&url, self.config.base_url.as_str())),
            None => Err(not_found_error(short_code)),
        }
    }

    /// The details of the live link under the code, by the system clock.
    pub fn get_url_info(&self, short_code: &str) -> (r: Result<UrlResponse>)
        ensures
            exists|now: Timestamp|
                now.clock_range() && response_outcome(r) == information(
                    self@.rows,
                    self@.base_url,
                    short_code@,
                    now,
                ),
            lookup(self@.rows, short_code@) is None ==> r is Err && r->Err_0@ == not_found(
                short_code@,
            ),
            lookup(self@.rows, short_code@) is Some && lookup(
                self@.rows,
                short_code@,
            )->0.expires_at is None ==> r is Ok && r->Ok_0@ == response_of(
                lookup(self@.rows, short_code@)->0,
                self@.base_url,
            ),
    {
        let now = Timestamp::now();
        self.get_url_info_at(short_code, now)
    }

    /// The links of one owner as clients see them, newest first.
    pub fn get_user_urls(&self, user_id: &str) -> (r: Result<Vec<UrlResponse>>)
        ensures
            r is Ok,
            response_views(r->Ok_0@) == responses_of(
                rows_of_user(self@.rows, user_id@),
                self@.base_url,
            ),
    {
        let urls = match self.repo.find_by_user(user_id) {
            Ok(urls) => urls,
            Err(e) => {
                return Err(e);
            },
        };
        let mut responses: Vec<UrlResponse> = Vec::new();
        let mut i: usize = 0;
        while i < urls.len()
            invariant
                i <= urls@.len(),
                responses@.len() == i,
                forall|k: int|
                    0 <= k < i ==> (#[trigger] responses@[k])@ == response_of(
                        urls@[k]@,
                        self@.base_url,
                    ),
            decreases urls.len() - i,
        {
            responses.push(UrlResponse::from_url(&urls[i], self.config.base_url.as_str()));
            i += 1;
        }
        assert(response_views(responses@) =~= responses_of(rows_of(urls@), self@.base_url));
        Ok(responses)
    }

    /// Deletes the live link under the code at `now` on behalf of the
    /// requester; see [`deletion`].
    pub fn delete_url_at(&mut self, short_code: &str, user_id: Option<&str>, now: Timestamp) -> (r:
        Result<()>)
        ensures
            unit_outcome(r) == deletion(old(self)@.rows, short_code@, opt_str(user_id), now),
            final(self)@ == (UrlServiceView {
                rows: rows_after_deletion(old(self)@.rows, short_code@, opt_str(user_id), now),
                ..old(self)@
            }),
    {
        let url = match self.find_live(short_code, now) {
            Some(url) => url,
            None => {
                return Err(not_found_error(short_code));
            },
        };
        if !requester_may_delete(&url.user_id, user_id) {
            return Err(
                AppError::Forbidden("You don't have permission to delete this URL".to_string()),
            );
        }
        self.repo.delete_by_id(url.id.as_str());
        Ok(())
    }

    /// Deletes the live link under the code on behalf of the requester, by
    /// the system clock.
    pub fn delete_url(&mut self, short_code: &str, user_id: Option<&str>) -> (r: Result<()>)
        ensures
            exists|now: Timestamp|
                now.clock_range() && unit_outcome(r) == deletion(
                    old(self)@.rows,
                    short_code@,
                    opt_str(user_id),
                    now,
                ) && final(self)@ == (UrlServiceView {
                    rows: rows_after_deletion(
                        old(self)@.rows,
                        short_code@,
                        opt_str(user_id),
                        now,
                    ),
                    ..old(self)@
                }),
            lookup(old(self)@.rows, short_code@) is None ==> r is Err && r->Err_0@ == not_found(
                short_code@,
            ),
    {
        let now = Timestamp::now();
        self.delete_url_at(short_code, user_id, now)
    }

    /// Removes every link that has expired by `now` and returns how many
    /// there were.
    pub fn cleanup_expired_at(&mut self, now: Timestamp) -> (r: Result<u64>)
        ensures
            final(self)@ == (UrlServiceView {
                rows: live_rows(old(self)@.rows, now),
                ..old(self)@
            }),
            r is Ok,
            r->Ok_0 == old(self)@.rows.len() - final(self)@.rows.len(),
    {
        self.repo.delete_expired_at(now)
    }

    /// Removes every link that has expired by the system clock and returns
    /// how many there were.
    pub fn cleanup_expired(&mut self) -> (r: Result<u64>)
        ensures
            exists|now: Timestamp|
                now.clock_range() && final(self)@ == (UrlServiceView {
                    rows: live_rows(old(self)@.rows, now),
                    ..old(self)@
                }),
            r is Ok,
            r->Ok_0 == old(self)@.rows.len() - final(self)@.rows.len(),
    {
        let now = Timestamp::now();
        self.cleanup_expired_at(now)
    }

    /// Records one click on the code at `now`: the counter of the link
    /// under the code goes up by one and its change mark moves to `now`.
    /// Nothing is reported back, and nothing changes without such a link.
    pub fn record_click_at(&mut self, short_code: &str, now: Timestamp)
        ensures
            final(self)@ == (UrlServiceView {
                rows: with_click(old(self)@.rows, short_code@, now),
                ..old(self)@
            }),
    {
        let _ = self.repo.increment_clicks_at(short_code, now);
    }

    /// Records one click on the code, timed by the system clock.
    pub fn record_click(&mut self, short_code: &str)
        ensures
            exists|now: Timestamp|
                now.clock_range() && final(self)@ == (UrlServiceView {
                    rows: with_click(old(self)@.rows, short_code@, now),
                    ..old(self)@
                }),
    {
        let now = Timestamp::now();
        self.record_click_at(short_code, now);
    }

    /// Records every queued click at `now`, oldest first, and empties the
    /// queue. Every link stays the link it was, and its counter goes up by
    /// the number of clicks that were queued for its code.
    pub fn settle_clicks_at(&mut self, now: Timestamp)
        ensures
            final(self)@ == (UrlServiceView {
                rows: settled(old(self)@.rows, old(self)@.pending, now),
                pending: Seq::empty(),
                ..old(self)@
            }),
            settled_as_counted(old(self)@.rows, old(self)@.pending, final(self)@.rows),
    {
        self.repo.well_formed();
        proof {
            let rows = old(self)@.rows;
            let pending = old(self)@.pending;
            assert forall|code: Seq<char>|
                #![trigger lookup(settled(rows, pending, now), code)]
                counted(rows, pending, settled(rows, pending, now), code) by {
                lemma_settled_counts(rows, pending, now, code);
            }
        }
        let mut queue: Vec<String> = Vec::new();
        std::mem::swap(&mut self.pending_clicks, &mut queue);
        assert(texts(self.pending_clicks@) =~= Seq::<Seq<char>>::empty());
        let ghost pending = texts(queue@);
        let mut i: usize = 0;
        assert(pending.take(0) =~= Seq::<Seq<char>>::empty());
        while i < queue.len()
            invariant
                i <= queue@.len(),
                pending == texts(queue@),
                self@.rows == settled(old(self)@.rows, pending.take(i as int), now),
                self@.pending == Seq::<Seq<char>>::empty(),
                self@.base_url == old(self)@.base_url,
            decreases queue.len() - i,
        {
            let ghost prefix = pending.take(i + 1);
            assert(prefix.drop_last() =~= pending.take(i as int));
            assert(prefix.last() == queue@[i as int]@);
            self.record_click_at(queue[i].as_str(), now);
            i += 1;
        }
        assert(pending.take(i as int) =~= pending);
    }

    /// Records every queued click, timed by the system clock, and empties
    /// the queue.
    pub fn settle_clicks(&mut self)
        ensures
            exists|now: Timestamp|
                now.clock_range() && final(self)@ == (UrlServiceView {
                    rows: settled(old(self)@.rows, old(self)@.pending, now),
                    pending: Seq::empty(),
                    ..old(self)@
                }),
            settled_as_counted(old(self)@.rows, old(self)@.pending, final(self)@.rows),
            final(self)@.pending == Seq::<Seq<char>>::empty(),
            final(self)@.base_url == old(self)@.base_url,
    {
        let now = Timestamp::now();
        self.settle_clicks_at(now);
    }

    /// The number of links and the sum of their clicks. Fails with
    /// `Database` when a total does not fit a 64-bit signed integer.
    pub fn get_stats(&self) -> (r: Result<UrlStats>)
        ensures
            match r {
                Ok(stats) => stats.total_urls == self@.rows.len() && stats.total_clicks
                    == total_clicks(self@.rows),
                Err(e) => e@.kind == ErrorKind::Database && (self@.rows.len() > i64::MAX
                    || total_clicks(self@.rows) > i64::MAX || total_clicks(self@.rows) < i64::MIN),
            },
            self@.rows.len() <= i64::MAX && i64::MIN <= total_clicks(self@.rows) <= i64::MAX
                ==> r is Ok,
    {
        self.repo.get_stats()
    }
}

/// A code that allocation draws from generated codes is one of them and is
/// free.
pub proof fn lemma_first_free(rows: Rows, codes: Seq<Seq<char>>)
    ensures
        match first_free(rows, codes) {
            Some(code) => !has_code(rows, code) && exists|i: int|
                0 <= i < codes.len() && #[trigger] codes[i] == code,
            None => forall|i: int| 0 <= i < codes.len() ==> has_code(rows, #[trigger] codes[i]),
        },
    decreases codes.len(),
{
    if codes.len() > 0 {
        if !has_code(rows, codes[0]) {
            assert(codes[0] == codes[0]);
        } else {
            let rest = codes.drop_first();
            lemma_first_free(rows, rest);
            match first_free(rows, rest) {
                Some(code) => {
                    let i = choose|i: int| 0 <= i < rest.len() && #[trigger] rest[i] == code;
                    assert(codes[i + 1] == code);
                },
                None => {
                    assert forall|i: int| 0 <= i < codes.len() implies has_code(
                        rows,
                        #[trigger] codes[i],
                    ) by {
                        if i > 0 {
                            assert(rest[i - 1] == codes[i]);
                        }
                    }
                },
            }
        }
    }
}

} // verus!
