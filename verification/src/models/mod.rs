//! Data carried between the layers of the service.

pub mod dto;
pub mod url;
pub mod user;

pub use dto::{
    ApiResponse, BatchDeleteRequest, BatchOperationResponse, EmptyResponse, HealthResponse,
    SearchParams,
};
pub use url::{
    CreateUrl, CreateUrlRequest, RedirectResponse, UpdateUrlRequest, Url, UrlBuilder, UrlResponse,
    UrlView,
};
pub use user::{
    ChangePasswordRequest, Claims, CreateUser, LoginRequest, LoginResponse, RegisterRequest,
    RegisterResponse, UpdateProfileRequest, User, UserResponse,
};

use crate::time::Timestamp;
use crate::utils::is_code_char;
use vstd::prelude::*;
use vstd::std_specs::convert::FromSpec;
use vstd::std_specs::convert::FromSpecImpl;
use vstd::string::*;

verus! {

/// Length of the identifier given to every record.
pub const RECORD_ID_LENGTH: usize = 21;

/// Largest identifier length that [`random_id`] is asked for.
pub const MAX_ID_LENGTH: usize = 1024;

/// Whether `id` could be a random identifier of the given length: that many
/// characters, each an ASCII letter or digit, `_` or `-`.
pub open spec fn random_id_shape(id: Seq<char>, size: nat) -> bool {
    &&& id.len() == size
    &&& forall|i: int| 0 <= i < id.len() ==> is_code_char(#[trigger] id[i])
}

/// Generates an identifier with `nanoid::format`, fed by the crate's
/// default random source and its URL-safe alphabet. Trusted: the identifier
/// has `size` characters, all from that alphabet. With size 0 the outside
/// function never returns, so the precondition asks for at least one
/// character.
#[verifier::external_body]
pub(crate) fn random_id(size: usize) -> (id: String)
    requires
        0 < size <= MAX_ID_LENGTH,
    ensures
        random_id_shape(id@, size as nat),
{
    nanoid::format(nanoid::rngs::default, &nanoid::alphabet::SAFE, size)
}

// ---------------------------------------------------------------------
// Identifier
// ---------------------------------------------------------------------

/// An opaque identifier.
#[derive(Debug, PartialEq, Eq, Hash)]
pub struct Id(String);

impl View for Id {
    type V = Seq<char>;

    closed spec fn view(&self) -> Seq<char> {
        self.0@
    }
}

impl Id {
    /// A fresh random identifier of 21 URL-safe characters.
    pub fn new() -> (id: Self)
        ensures
            random_id_shape(id@, RECORD_ID_LENGTH as nat),
    {
        Id(random_id(RECORD_ID_LENGTH))
    }

    /// The identifier with the given text.
    pub fn from_string(s: &str) -> (id: Self)
        ensures
            id@ == s@,
    {
        Id(s.to_string())
    }

    /// The text of the identifier.
    pub fn as_str(&self) -> (s: &str)
        ensures
            s@ == self@,
    {
        self.0.as_str()
    }

    /// The text of the identifier, owned.
    pub fn into_string(self) -> (s: String)
        ensures
            s@ == self@,
    {
        self.0
    }
}

impl Clone for Id {
    fn clone(&self) -> (id: Self)
        ensures
            id@ == self@,
    {
        Id(self.0.clone())
    }
}

impl Default for Id {
    fn default() -> (id: Self)
        ensures
            random_id_shape(id@, RECORD_ID_LENGTH as nat),
    {
        Id::new()
    }
}

impl From<String> for Id {
    fn from(s: String) -> (id: Self) {
        Id(s)
    }
}

impl FromSpecImpl<String> for Id {
    open spec fn obeys_from_spec() -> bool {
        true
    }

    closed spec fn from_spec(s: String) -> Self {
        Id(s)
    }
}

impl<'a> From<&'a str> for Id {
    fn from(s: &'a str) -> (id: Self)
        ensures
            id@ == s@,
    {
        Id::from_string(s)
    }
}

impl<'a> FromSpecImpl<&'a str> for Id {
    /// The conversion allocates its text; its contract is stated on `from`.
    open spec fn obeys_from_spec() -> bool {
        false
    }

    closed spec fn from_spec(s: &'a str) -> Self {
        arbitrary()
    }
}

/// An identifier made from a string carries that string's text.
pub proof fn lemma_id_from_string(s: String)
    ensures
        <Id as FromSpec<String>>::from_spec(s)@ == s@,
{
}

// ---------------------------------------------------------------------
// Timestamps
// ---------------------------------------------------------------------

/// When a record was created and when it was last changed.
#[derive(Debug, Clone, Copy, PartialEq, Eq, Structural)]
pub struct Timestamps {
    pub created_at: Timestamp,
    pub updated_at: Timestamp,
}

impl Timestamps {
    /// Both marks set to the given instant.
    pub fn at(now: Timestamp) -> (t: Self)
        ensures
            t.created_at == now,
            t.updated_at == now,
    {
        Timestamps { created_at: now, updated_at: now }
    }

    /// Both marks set to one reading of the system clock.
    pub fn now() -> (t: Self)
        ensures
            t.created_at == t.updated_at,
            t.created_at.clock_range(),
    {
        Timestamps::at(Timestamp::now())
    }

    /// Marks a change at the given instant; the creation mark stays.
    pub fn touch_at(&mut self, now: Timestamp)
        ensures
            final(self).created_at == old(self).created_at,
            final(self).updated_at == now,
    {
        self.updated_at = now;
    }

    /// Marks a change at the current reading of the system clock.
    pub fn touch(&mut self)
        ensures
            final(self).created_at == old(self).created_at,
            final(self).updated_at.clock_range(),
    {
        let now = Timestamp::now();
        self.touch_at(now);
    }
}

impl Default for Timestamps {
    fn default() -> (t: Self)
        ensures
            t.created_at == t.updated_at,
            t.created_at.clock_range(),
    {
        Timestamps::now()
    }
}

// ---------------------------------------------------------------------
// Pagination
// ---------------------------------------------------------------------

/// Page a listing starts with when none is asked for.
pub const DEFAULT_PAGE: u32 = 1;

/// Items per page when no number is asked for.
pub const DEFAULT_PER_PAGE: u32 = 20;

/// Most items a page ever holds.
pub const MAX_PER_PAGE: u32 = 100;

/// Which page of a listing is wanted.
#[derive(Debug, Clone, Copy, PartialEq, Eq, Structural)]
pub struct Pagination {
    /// Page number, counted from 1.
    pub page: u32,
    /// Items per page.
    pub per_page: u32,
}

/// The page number used when a request names none.
pub fn default_page() -> (p: u32)
    ensures
        p == DEFAULT_PAGE,
{
    DEFAULT_PAGE
}

/// The page size used when a request names none.
pub fn default_per_page() -> (p: u32)
    ensures
        p == DEFAULT_PER_PAGE,
{
    DEFAULT_PER_PAGE
}

impl Default for Pagination {
    fn default() -> (p: Self)
        ensures
            p.page == DEFAULT_PAGE,
            p.per_page == DEFAULT_PER_PAGE,
    {
        Pagination { page: DEFAULT_PAGE, per_page: DEFAULT_PER_PAGE }
    }
}

impl Pagination {
    /// Number of items that precede this page: none before page 1 (or page
    /// 0), otherwise the full pages before it.
    pub open spec fn items_before(self) -> int {
        if self.page == 0 {
            0
        } else {
            (self.page - 1) * self.per_page
        }
    }

    /// How many items to skip to reach this page.
    pub fn offset(&self) -> (n: u32)
        requires
            self.items_before() <= u32::MAX,
        ensures
            n == self.items_before(),
    {
        let pages_before: u32 = if self.page == 0 {
            0
        } else {
            self.page - 1
        };
        assert(pages_before * self.per_page == self.items_before()) by (nonlinear_arith)
            requires
                pages_before == (if self.page == 0 {
                    0int
                } else {
                    self.page - 1
                }),
                self.items_before() == (if self.page == 0 {
                    0int
                } else {
                    (self.page - 1) * self.per_page
                }),
        ;
        pages_before * self.per_page
    }

    /// How many items to fetch: the page size, capped at 100.
    pub fn limit(&self) -> (n: u32)
        ensures
            n == if self.per_page <= MAX_PER_PAGE {
                self.per_page
            } else {
                MAX_PER_PAGE
            },
    {
        if self.per_page <= MAX_PER_PAGE {
            self.per_page
        } else {
            MAX_PER_PAGE
        }
    }
}

/// Where a page stands within the whole listing.
#[derive(Debug, Clone, Copy, PartialEq, Eq, Structural)]
pub struct PaginationInfo {
    pub current_page: u32,
    pub per_page: u32,
    pub total_items: u64,
    pub total_pages: u32,
    pub has_next: bool,
    pub has_prev: bool,
}

/// Number of pages needed for `total_items` items at `per_page` items a
/// page: the quotient rounded up, and never more than `u32::MAX`. With a
/// page size of 0 an empty listing has no page and any other has `u32::MAX`.
pub open spec fn pages_needed(total_items: u64, per_page: u32) -> int {
    if per_page == 0 {
        if total_items == 0 {
            0
        } else {
            u32::MAX as int
        }
    } else {
        let pages = (total_items + per_page - 1) / (per_page as int);
        if pages > u32::MAX {
            u32::MAX as int
        } else {
            pages
        }
    }
}

impl PaginationInfo {
    /// Describes the page `pagination` within a listing of `total_items`.
    pub fn new(pagination: &Pagination, total_items: u64) -> (info: Self)
        ensures
            info.current_page == pagination.page,
            info.per_page == pagination.per_page,
            info.total_items == total_items,
            info.total_pages == pages_needed(total_items, pagination.per_page),
            info.has_next == (pagination.page < info.total_pages),
            info.has_prev == (pagination.page > 1),
    {
        let total_pages: u32 = if pagination.per_page == 0 {
            if total_items == 0 {
                0
            } else {
                u32::MAX
            }
        } else {
            let per_page = pagination.per_page as u64;
            let full = total_items / per_page;
            assert(total_items % per_page != 0 ==> full < u64::MAX) by (nonlinear_arith)
                requires
                    per_page > 0,
                    full == total_items / per_page,
                    total_items <= u64::MAX,
            ;
            let pages = if total_items % per_page == 0 {
                full
            } else {
                full + 1
            };
            assert(pages == (total_items + per_page - 1) / (per_page as int)) by (nonlinear_arith)
                requires
                    per_page > 0,
                    full == total_items / per_page,
                    pages == (if total_items % per_page == 0 {
                        full as int
                    } else {
                        full + 1
                    }),
            ;
            if pages > u32::MAX as u64 {
                u32::MAX
            } else {
                pages as u32
            }
        };
        PaginationInfo {
            current_page: pagination.page,
            per_page: pagination.per_page,
            total_items,
            total_pages,
            has_next: pagination.page < total_pages,
            has_prev: pagination.page > 1,
        }
    }
}

/// One page of a listing together with its place in the whole.
#[derive(Debug)]
pub struct PaginatedResult<T> {
    /// The items of the page.
    pub data: Vec<T>,
    /// Where the page stands.
    pub pagination: PaginationInfo,
}

impl<T> PaginatedResult<T> {
    /// Wraps the items of one page.
    pub fn new(data: Vec<T>, pagination: &Pagination, total_items: u64) -> (r: Self)
        ensures
            r.data == data,
            r.pagination.current_page == pagination.page,
            r.pagination.per_page == pagination.per_page,
            r.pagination.total_items == total_items,
            r.pagination.total_pages == pages_needed(total_items, pagination.per_page),
            r.pagination.has_next == (pagination.page < r.pagination.total_pages),
            r.pagination.has_prev == (pagination.page > 1),
    {
        PaginatedResult { data, pagination: PaginationInfo::new(pagination, total_items) }
    }
}

// ---------------------------------------------------------------------
// Sort order
// ---------------------------------------------------------------------

/// Direction of a sorted listing.
#[derive(Debug, Clone, Copy, PartialEq, Eq, Structural)]
pub enum SortOrder {
    Asc,
    Desc,
}

impl Default for SortOrder {
    fn default() -> (o: Self)
        ensures
            o == SortOrder::Asc,
    {
        SortOrder::Asc
    }
}

impl SortOrder {
    /// The SQL keyword of this direction.
    pub fn as_sql(&self) -> (s: &'static str)
        ensures
            s@ == (match *self {
                SortOrder::Asc => "ASC"@,
                SortOrder::Desc => "DESC"@,
            }),
    {
        match self {
            SortOrder::Asc => "ASC",
            SortOrder::Desc => "DESC",
        }
    }
}

} // verus!
