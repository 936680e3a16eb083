//! The repositories: rows kept in memory behind the operations the service
//! needs.

use crate::database::store::{
    expires_later, has_code, has_id, lemma_live_rows, lemma_lookup_at, lemma_push_row,
    lemma_with_click, lemma_without_id, live_rows, lookup, lookup_id, rows_of_user, store_wf,
    total_clicks, with_click, without_id, Rows,
};
use crate::error::{AppError, ErrorKind, ErrorView, Result};
use crate::models::url::{CreateUrl, CreateUrlView, Url, UrlView};
use crate::text::{clone_opt_text, concat3, str_eq};
use crate::time::Timestamp;
use vstd::prelude::*;
use vstd::string::*;

verus! {

/// What every repository offers, whatever it stores.
pub trait Repository: Send + Sync {
    /// What is stored.
    type Entity;

    /// What identifies a stored entity.
    type Id;

    /// The entity with the identifier, if any.
    fn find_by_id(&self, id: &Self::Id) -> Result<Option<Self::Entity>>;

    /// All entities, newest first.
    fn find_all(&self) -> Result<Vec<Self::Entity>>;

    /// Stores a copy of the entity as a new row.
    fn save(&mut self, entity: &Self::Entity) -> Result<Self::Entity>;

    /// Removes the entity with the identifier; tells whether there was one.
    fn delete(&mut self, id: &Self::Id) -> Result<bool>;

    /// Number of entities.
    fn count(&self) -> Result<i64>;
}

/// Totals over all short links.
#[derive(Debug, Clone, Copy, PartialEq, Eq, Structural)]
pub struct UrlStats {
    /// Number of links.
    pub total_urls: i64,
    /// Clicks on all links together.
    pub total_clicks: i64,
}

/// The models of a list of rows.
pub open spec fn rows_of(v: Seq<Url>) -> Rows {
    Seq::new(v.len(), |i: int| v[i]@)
}

/// The model of an optional row.
pub open spec fn opt_row(o: Option<Url>) -> Option<UrlView> {
    match o {
        Some(u) => Some(u@),
        None => None,
    }
}

/// The detail of the failure for a short code that is taken.
pub open spec fn code_taken_text(code: Seq<char>) -> Seq<char> {
    "Short code '"@ + code + "' already exists"@
}

/// The detail of the failure for an identifier that is taken.
pub open spec fn id_taken_text() -> Seq<char> {
    "UNIQUE constraint failed: urls.id"@
}

/// The detail of the failure for a total that does not fit its type.
pub open spec fn overflow_text() -> Seq<char> {
    "integer overflow"@
}

/// The detail of the failure for an expiry that is not after the creation.
pub open spec fn expiry_too_early_text() -> Seq<char> {
    "CHECK constraint failed: expires_at > created_at"@
}

/// Why a link cannot be inserted as created at `created_at`, if it cannot:
/// its short code is taken (`Conflict`), or else its identifier is
/// (`Database`), or else it would expire at or before its creation
/// (`Database`).
pub open spec fn insert_fault(s: Rows, c: CreateUrlView, created_at: Timestamp) -> Option<
    ErrorView,
> {
    if has_code(s, c.short_code) {
        Some(ErrorView { kind: ErrorKind::Conflict, detail: code_taken_text(c.short_code) })
    } else if has_id(s, c.id) {
        Some(ErrorView { kind: ErrorKind::Database, detail: id_taken_text() })
    } else if !expires_later(created_at, c.expires_at) {
        Some(ErrorView { kind: ErrorKind::Database, detail: expiry_too_early_text() })
    } else {
        None
    }
}

/// The table after an attempt to insert a link at `now`: one row longer
/// when nothing stands against it, unchanged otherwise.
pub open spec fn after_insert(s: Rows, c: CreateUrlView, now: Timestamp) -> Rows {
    if insert_fault(s, c, now) is None {
        s.push(c.stored_at(now))
    } else {
        s
    }
}

/// The link that storing a copy of a row inserts.
pub open spec fn as_new(u: UrlView) -> CreateUrlView {
    CreateUrlView {
        id: u.id,
        short_code: u.short_code,
        original_url: u.original_url,
        title: u.title,
        user_id: u.user_id,
        expires_at: u.expires_at,
    }
}

/// Decides [`expires_later`].
pub fn expiry_allowed(created_at: Timestamp, expires_at: Option<Timestamp>) -> (r: bool)
    ensures
        r == expires_later(created_at, expires_at),
{
    match expires_at {
        Some(expiry) => created_at.is_before(&expiry),
        None => true,
    }
}

/// The short links, in memory.
#[derive(Debug)]
pub struct UrlRepository {
    urls: Vec<Url>,
}

impl View for UrlRepository {
    type V = Rows;

    closed spec fn view(&self) -> Rows {
        rows_of(self.urls@)
    }
}

/// The position of the row with the short code, if any.
fn position_of_code(urls: &Vec<Url>, code: &str) -> (r: Option<usize>)
    ensures
        match r {
            Some(i) => i < urls@.len() && urls@[i as int]@.short_code == code@,
            None => !has_code(rows_of(urls@), code@),
        },
{
    let mut i: usize = 0;
    while i < urls.len()
        invariant
            i <= urls@.len(),
            forall|j: int| 0 <= j < i ==> (#[trigger] rows_of(urls@)[j]).short_code != code@,
        decreases urls.len() - i,
    {
        if str_eq(urls[i].short_code.as_str(), code) {
            return Some(i);
        }
        assert(rows_of(urls@)[i as int] == urls@[i as int]@);
        i += 1;
    }
    None
}

/// The position of the row with the identifier, if any.
fn position_of_id(urls: &Vec<Url>, id: &str) -> (r: Option<usize>)
    ensures
        match r {
            Some(i) => i < urls@.len() && urls@[i as int]@.id == id@,
            None => !has_id(rows_of(urls@), id@),
        },
{
    let mut i: usize = 0;
    while i < urls.len()
        invariant
            i <= urls@.len(),
            forall|j: int| 0 <= j < i ==> (#[trigger] rows_of(urls@)[j]).id != id@,
        decreases urls.len() - i,
    {
        if str_eq(urls[i].id.as_str(), id) {
            return Some(i);
        }
        assert(rows_of(urls@)[i as int] == urls@[i as int]@);
        i += 1;
    }
    None
}

impl UrlRepository {
    #[verifier::type_invariant]
    closed spec fn inv(self) -> bool {
        store_wf(rows_of(self.urls@))
    }

    /// Moves the rows out, leaving an empty table behind.
    fn take_rows(&mut self) -> (urls: Vec<Url>)
        ensures
            urls == old(self).urls,
            final(self).urls@ == Seq::<Url>::empty(),
    {
        let mut urls: Vec<Url> = Vec::new();
        assert(rows_of(urls@) =~= Rows::empty());
        std::mem::swap(&mut self.urls, &mut urls);
        urls
    }

    /// An empty table.
    pub fn new() -> (r: Self)
        ensures
            r@ == Rows::empty(),
    {
        let r = UrlRepository { urls: Vec::new() };
        assert(r@ =~= Rows::empty());
        r
    }

    /// Nothing to do at run time; tells the caller that the table is
    /// well-formed.
    pub fn well_formed(&self)
        ensures
            store_wf(self@),
    {
        proof {
            use_type_invariant(self);
        }
    }

    /// Number of rows.
    pub fn len(&self) -> (n: usize)
        ensures
            n == self@.len(),
    {
        self.urls.len()
    }

    /// The row with the short code, if any.
    pub fn find_by_short_code(&self, short_code: &str) -> (r: Result<Option<Url>>)
        ensures
            r is Ok,
            opt_row(r->Ok_0) == lookup(self@, short_code@),
    {
        proof {
            use_type_invariant(self);
        }
        match position_of_code(&self.urls, short_code) {
            Some(i) => {
                proof {
                    assert(self@[i as int] == self.urls@[i as int]@);
                    lemma_lookup_at(self@, i as int);
                }
                Ok(Some(self.urls[i].clone()))
            },
            None => Ok(None),
        }
    }

    /// Whether some row carries the short code.
    pub fn code_exists(&self, short_code: &str) -> (r: Result<bool>)
        ensures
            r is Ok,
            r->Ok_0 == has_code(self@, short_code@),
    {
        match position_of_code(&self.urls, short_code) {
            Some(i) => {
                assert(self@[i as int] == self.urls@[i as int]@);
                Ok(true)
            },
            None => Ok(false),
        }
    }

    /// Inserts a link with both time marks at `now` and no clicks. Fails,
    /// and leaves the table as it is, when the short code or the identifier
    /// is taken, or when the link would expire at or before `now`.
    pub fn create_at(&mut self, create_url: &CreateUrl, now: Timestamp) -> (r: Result<Url>)
        ensures
            final(self)@ == after_insert(old(self)@, create_url@, now),
            match insert_fault(old(self)@, create_url@, now) {
                Some(fault) => r is Err && r->Err_0@ == fault,
                None => r is Ok && r->Ok_0@ == create_url@.stored_at(now),
            },
    {
        proof {
            use_type_invariant(&*self);
        }
        if let Some(i) = position_of_code(&self.urls, create_url.short_code.as_str()) {
            assert(self@[i as int] == self.urls@[i as int]@);
            return Err(
                AppError::Conflict(
                    concat3("Short code '", create_url.short_code.as_str(), "' already exists"),
                ),
            );
        }
        if let Some(i) = position_of_id(&self.urls, create_url.id.as_str()) {
            assert(self@[i as int] == self.urls@[i as int]@);
            return Err(AppError::Database("UNIQUE constraint failed: urls.id".to_string()));
        }
        if !expiry_allowed(now, create_url.expires_at) {
            return Err(
                AppError::Database("CHECK constraint failed: expires_at > created_at".to_string()),
            );
        }
        let url = Url {
            id: create_url.id.clone(),
            short_code: create_url.short_code.clone(),
            original_url: create_url.original_url.clone(),
            title: clone_opt_text(&create_url.title),
            clicks: 0,
            user_id: clone_opt_text(&create_url.user_id),
            expires_at: create_url.expires_at,
            created_at: now,
            updated_at: now,
        };
        let stored = url.clone();
        let mut urls = self.take_rows();
        proof {
            lemma_push_row(old(self)@, url@);
            assert(rows_of(urls@.push(url)) =~= old(self)@.push(url@));
        }
        urls.push(url);
        self.urls = urls;
        Ok(stored)
    }

    /// Puts back a row as it was stored before, with its clicks and time
    /// marks. Fails, and leaves the table as it is, when the short code or
    /// the identifier is taken, or when the row expires at or before its
    /// creation.
    pub fn restore(&mut self, url: Url) -> (r: Result<()>)
        ensures
            match insert_fault(old(self)@, as_new(url@), url@.created_at) {
                Some(fault) => r is Err && r->Err_0@ == fault && final(self)@ == old(self)@,
                None => r is Ok && final(self)@ == old(self)@.push(url@),
            },
    {
        proof {
            use_type_invariant(&*self);
        }
        if let Some(i) = position_of_code(&self.urls, url.short_code.as_str()) {
            assert(self@[i as int] == self.urls@[i as int]@);
            return Err(
                AppError::Conflict(
                    concat3("Short code '", url.short_code.as_str(), "' already exists"),
                ),
            );
        }
        if let Some(i) = position_of_id(&self.urls, url.id.as_str()) {
            assert(self@[i as int] == self.urls@[i as int]@);
            return Err(AppError::Database("UNIQUE constraint failed: urls.id".to_string()));
        }
        if !expiry_allowed(url.created_at, url.expires_at) {
            return Err(
                AppError::Database("CHECK constraint failed: expires_at > created_at".to_string()),
            );
        }
        let mut urls = self.take_rows();
        proof {
            lemma_push_row(old(self)@, url@);
            assert(rows_of(urls@.push(url)) =~= old(self)@.push(url@));
        }
        urls.push(url);
        self.urls = urls;
        Ok(())
    }

    /// Inserts a link, timed by the system clock.
    pub fn create(&mut self, create_url: &CreateUrl) -> (r: Result<Url>)
        ensures
            exists|now: Timestamp|
                now.clock_range() && final(self)@ == after_insert(old(self)@, create_url@, now)
                    && (match insert_fault(old(self)@, create_url@, now) {
                    Some(fault) => r is Err && r->Err_0@ == fault,
                    None => r is Ok && r->Ok_0@ == create_url@.stored_at(now),
                }),
            has_code(old(self)@, create_url@.short_code) || has_id(old(self)@, create_url@.id)
                ==> r is Err && final(self)@ == old(self)@,
            create_url@.expires_at is None && !has_code(old(self)@, create_url@.short_code)
                && !has_id(old(self)@, create_url@.id) ==> r is Ok,
    {
        let now = Timestamp::now();
        self.create_at(create_url, now)
    }

    /// Records one click on the short code at `now` and returns the row as
    /// it stands afterwards. Without such a row nothing changes.
    pub fn increment_clicks_at(&mut self, short_code: &str, now: Timestamp) -> (r: Result<
        Option<Url>,
    >)
        ensures
            final(self)@ == with_click(old(self)@, short_code@, now),
            r is Ok,
            opt_row(r->Ok_0) == lookup(final(self)@, short_code@),
    {
        proof {
            use_type_invariant(&*self);
            lemma_with_click(old(self)@, short_code@, now);
        }
        match position_of_code(&self.urls, short_code) {
            Some(i) => {
                let mut url = self.urls[i].clone();
                if url.clicks < i64::MAX {
                    url.clicks = url.clicks + 1;
                }
                url.updated_at = now;
                let after = url.clone();
                proof {
                    let s = old(self)@;
                    let t = rows_of(self.urls@.update(i as int, url));
                    assert(s[i as int] == self.urls@[i as int]@);
                    assert forall|j: int| 0 <= j < s.len() implies t[j] == with_click(
                        s,
                        short_code@,
                        now,
                    )[j] by {
                        assert(s[j] == self.urls@[j]@);
                        if j != i {
                            assert(s[j].short_code != s[i as int].short_code);
                        }
                    }
                    assert(t =~= with_click(s, short_code@, now));
                    lemma_lookup_at(t, i as int);
                }
                let mut urls = self.take_rows();
                urls.set(i, url);
                self.urls = urls;
                Ok(Some(after))
            },
            None => {
                Ok(None)
            },
        }
    }

    /// Records one click on the short code, timed by the system clock.
    pub fn increment_clicks(&mut self, short_code: &str) -> (r: Result<Option<Url>>)
        ensures
            exists|now: Timestamp|
                now.clock_range() && final(self)@ == with_click(old(self)@, short_code@, now),
            r is Ok,
            opt_row(r->Ok_0) == lookup(final(self)@, short_code@),
    {
        let now = Timestamp::now();
        self.increment_clicks_at(short_code, now)
    }

    /// The rows of one owner, newest first.
    pub fn find_by_user(&self, user_id: &str) -> (r: Result<Vec<Url>>)
        ensures
            r is Ok,
            rows_of(r->Ok_0@) == rows_of_user(self@, user_id@),
    {
        let mut found: Vec<Url> = Vec::new();
        let mut i: usize = self.urls.len();
        assert(self@.skip(i as int) =~= Rows::empty());
        assert(rows_of(found@) =~= Rows::empty());
        while i > 0
            invariant
                i <= self.urls@.len(),
                rows_of(found@) == rows_of_user(self@.skip(i as int), user_id@),
            decreases i,
        {
            i -= 1;
            let ghost tail = self@.skip(i as int);
            assert(tail.drop_first() =~= self@.skip(i + 1));
            assert(tail[0] == self.urls@[i as int]@);
            let owned = match &self.urls[i].user_id {
                Some(owner) => str_eq(owner.as_str(), user_id),
                None => false,
            };
            if owned {
                let ghost before = rows_of(found@);
                let url = self.urls[i].clone();
                found.push(url);
                assert(rows_of(found@) =~= before.push(tail[0]));
            }
        }
        assert(self@.skip(0) =~= self@);
        Ok(found)
    }

    /// Removes every row that has expired by `now` and returns how many
    /// there were.
    pub fn delete_expired_at(&mut self, now: Timestamp) -> (r: Result<u64>)
        ensures
            final(self)@ == live_rows(old(self)@, now),
            r is Ok,
            r->Ok_0 == old(self)@.len() - final(self)@.len(),
    {
        proof {
            use_type_invariant(&*self);
        }
        let mut kept: Vec<Url> = Vec::new();
        let mut i: usize = 0;
        assert(self@.take(0) =~= Rows::empty());
        assert(rows_of(kept@) =~= Rows::empty());
        while i < self.urls.len()
            invariant
                i <= self.urls@.len(),
                rows_of(kept@) == live_rows(self@.take(i as int), now),
                kept@.len() <= i,
            decreases self.urls.len() - i,
        {
            let ghost prefix = self@.take(i + 1);
            assert(prefix.drop_last() =~= self@.take(i as int));
            assert(prefix.last() == self.urls@[i as int]@);
            if !self.urls[i].is_expired_at(now) {
                let ghost before = rows_of(kept@);
                let url = self.urls[i].clone();
                kept.push(url);
                assert(rows_of(kept@) =~= before.push(prefix.last()));
            }
            i += 1;
        }
        assert(self@.take(i as int) =~= self@);
        let removed = self.urls.len() - kept.len();
        proof {
            lemma_live_rows(old(self)@, now);
        }
        self.urls = kept;
        Ok(removed as u64)
    }

    /// Removes every row that has expired by the system clock and returns
    /// how many there were.
    pub fn delete_expired(&mut self) -> (r: Result<u64>)
        ensures
            exists|now: Timestamp| now.clock_range() && final(self)@ == live_rows(old(self)@, now),
            r is Ok,
            r->Ok_0 == old(self)@.len() - final(self)@.len(),
    {
        let now = Timestamp::now();
        self.delete_expired_at(now)
    }

    /// The number of links and the sum of their clicks. Fails with
    /// `Database` when a total does not fit a 64-bit signed integer.
    pub fn get_stats(&self) -> (r: Result<UrlStats>)
        ensures
            match r {
                Ok(stats) => stats.total_urls == self@.len() && stats.total_clicks == total_clicks(
                    self@,
                ),
                Err(e) => e@ == (ErrorView { kind: ErrorKind::Database, detail: overflow_text() })
                    && (self@.len() > i64::MAX || total_clicks(self@) > i64::MAX || total_clicks(
                    self@,
                ) < i64::MIN),
            },
            self@.len() <= i64::MAX && i64::MIN <= total_clicks(self@) <= i64::MAX ==> r is Ok,
    {
        if self.urls.len() as u64 > 0x7fff_ffff_ffff_ffff {
            return Err(AppError::Database("integer overflow".to_string()));
        }
        let mut sum: i128 = 0;
        let mut i: usize = 0;
        assert(self@.take(0) =~= Rows::empty());
        while i < self.urls.len()
            invariant
                i <= self.urls@.len(),
                sum == total_clicks(self@.take(i as int)),
                -(i as int) * 0x8000_0000_0000_0000 <= sum <= (i as int) * 0x8000_0000_0000_0000,
                self.urls@.len() <= 0x7fff_ffff_ffff_ffff,
            decreases self.urls.len() - i,
        {
            let ghost prefix = self@.take(i + 1);
            assert(prefix.drop_last() =~= self@.take(i as int));
            assert(prefix.last() == self.urls@[i as int]@);
            let clicks = self.urls[i].clicks;
            assert(-((i + 1) as int) * 0x8000_0000_0000_0000 <= sum + clicks <= ((i + 1) as int)
                * 0x8000_0000_0000_0000) by (nonlinear_arith)
                requires
                    -(i as int) * 0x8000_0000_0000_0000 <= sum <= (i as int)
                        * 0x8000_0000_0000_0000,
                    -0x8000_0000_0000_0000 <= clicks < 0x8000_0000_0000_0000,
            ;
            assert(((i + 1) as int) * 0x8000_0000_0000_0000 <= 0x7fff_ffff_ffff_ffff
                * 0x8000_0000_0000_0000) by (nonlinear_arith)
                requires
                    i + 1 <= 0x7fff_ffff_ffff_ffff,
            ;
            sum = sum + clicks as i128;
            i += 1;
        }
        assert(self@.take(i as int) =~= self@);
        if sum > 0x7fff_ffff_ffff_ffff || sum < -0x8000_0000_0000_0000 {
            return Err(AppError::Database("integer overflow".to_string()));
        }
        Ok(UrlStats { total_urls: self.urls.len() as i64, total_clicks: sum as i64 })
    }

    /// Removes the row with the identifier and tells whether there was one.
    pub fn delete_by_id(&mut self, id: &str) -> (r: bool)
        ensures
            final(self)@ == without_id(old(self)@, id@),
            r == has_id(old(self)@, id@),
    {
        proof {
            use_type_invariant(&*self);
            lemma_without_id(old(self)@, id@);
        }
        match position_of_id(&self.urls, id) {
            Some(i) => {
                proof {
                    let s = old(self)@;
                    assert(s[i as int] == self.urls@[i as int]@);
                    lemma_lookup_at(s, i as int);
                    assert(rows_of(self.urls@.remove(i as int)) =~= s.remove(i as int));
                }
                let mut urls = self.take_rows();
                urls.remove(i);
                self.urls = urls;
                true
            },
            None => false,
        }
    }
}

impl Repository for UrlRepository {
    type Entity = Url;

    type Id = String;

    /// The row with the identifier, if any.
    fn find_by_id(&self, id: &String) -> (r: Result<Option<Url>>)
        ensures
            r is Ok,
            opt_row(r->Ok_0) == lookup_id(self@, id@),
    {
        proof {
            use_type_invariant(self);
        }
        match position_of_id(&self.urls, id.as_str()) {
            Some(i) => {
                proof {
                    assert(self@[i as int] == self.urls@[i as int]@);
                    lemma_lookup_at(self@, i as int);
                }
                Ok(Some(self.urls[i].clone()))
            },
            None => Ok(None),
        }
    }

    /// All rows, newest first.
    fn find_all(&self) -> (r: Result<Vec<Url>>)
        ensures
            r is Ok,
            rows_of(r->Ok_0@) == self@.reverse(),
    {
        let mut all: Vec<Url> = Vec::new();
        let mut i: usize = self.urls.len();
        while i > 0
            invariant
                i <= self.urls@.len(),
                all@.len() == self.urls@.len() - i,
                forall|k: int|
                    0 <= k < all@.len() ==> (#[trigger] all@[k])@ == self@[self@.len() - 1 - k],
            decreases i,
        {
            i -= 1;
            assert(self@[i as int] == self.urls@[i as int]@);
            let url = self.urls[i].clone();
            all.push(url);
        }
        assert(rows_of(all@) =~= self@.reverse());
        Ok(all)
    }

    /// Inserts a copy of the row as a new link, timed by the system clock.
    fn save(&mut self, entity: &Url) -> (r: Result<Url>)
        ensures
            exists|now: Timestamp|
                now.clock_range() && final(self)@ == after_insert(
                    old(self)@,
                    as_new(entity@),
                    now,
                ) && (match insert_fault(old(self)@, as_new(entity@), now) {
                    Some(fault) => r is Err && r->Err_0@ == fault,
                    None => r is Ok && r->Ok_0@ == as_new(entity@).stored_at(now),
                }),
            has_code(old(self)@, entity@.short_code) || has_id(old(self)@, entity@.id) ==> r is Err
                && final(self)@ == old(self)@,
            entity@.expires_at is None && !has_code(old(self)@, entity@.short_code) && !has_id(
                old(self)@,
                entity@.id,
            ) ==> r is Ok,
    {
        let create_url = CreateUrl {
            id: entity.id.clone(),
            short_code: entity.short_code.clone(),
            original_url: entity.original_url.clone(),
            title: clone_opt_text(&entity.title),
            user_id: clone_opt_text(&entity.user_id),
            expires_at: entity.expires_at,
        };
        self.create(&create_url)
    }

    /// Removes the row with the identifier and tells whether there was one.
    fn delete(&mut self, id: &String) -> (r: Result<bool>)
        ensures
            final(self)@ == without_id(old(self)@, id@),
            r is Ok,
            r->Ok_0 == has_id(old(self)@, id@),
    {
        Ok(self.delete_by_id(id.as_str()))
    }

    /// Number of rows. Fails with `Database` when it does not fit a 64-bit
    /// signed integer.
    fn count(&self) -> (r: Result<i64>)
        ensures
            match r {
                Ok(n) => n == self@.len(),
                Err(e) => e@ == (ErrorView { kind: ErrorKind::Database, detail: overflow_text() })
                    && self@.len() > i64::MAX,
            },
    {
        if self.urls.len() as u64 > 0x7fff_ffff_ffff_ffff {
            return Err(AppError::Database("integer overflow".to_string()));
        }
        Ok(self.urls.len() as i64)
    }
}

} // verus!
