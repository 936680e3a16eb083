//! A fixed-window rate limiter.
//!
//! Every client key has a window that starts with its first request. Up to
//! `max_requests` requests are let through per window; once the window is
//! older than `window_seconds`, the next request starts a new one.

use crate::error::{AppError, ErrorKind, ErrorView, Outcome, Result};
use crate::text::{is_prefix, opt_str, skip_chars, starts_with};
use crate::time::Timestamp;
use vstd::hash_map::StringHashMap;
use vstd::prelude::*;
use vstd::string::*;

verus! {

/// The failure for a protected request without an `Authorization` header.
pub open spec fn missing_auth_token() -> ErrorView {
    ErrorView { kind: ErrorKind::Unauthorized, detail: "Missing auth token"@ }
}

/// The failure for a protected request whose `Authorization` header does
/// not begin with `Bearer `.
pub open spec fn invalid_auth_format() -> ErrorView {
    ErrorView { kind: ErrorKind::Unauthorized, detail: "Invalid auth format"@ }
}

/// The token a protected request presents, given the value of its
/// `Authorization` header: what follows `Bearer `.
pub open spec fn presented_token(header: Option<Seq<char>>) -> Outcome<Seq<char>> {
    match header {
        None => Err(missing_auth_token()),
        Some(value) => if is_prefix("Bearer "@, value) {
            Ok(value.skip(7))
        } else {
            Err(invalid_auth_format())
        },
    }
}

/// The token a protected request presents; see [`presented_token`]. Whether
/// the token is good is for the account service to say.
pub fn require_auth<'a>(header: Option<&'a str>) -> (r: Result<&'a str>)
    ensures
        match presented_token(opt_str(header)) {
            Ok(token) => r is Ok && r->Ok_0@ == token,
            Err(e) => r is Err && r->Err_0@ == e,
        },
{
    proof {
        reveal_strlit("Bearer ");
    }
    let value = match header {
        Some(value) => value,
        None => {
            return Err(AppError::Unauthorized("Missing auth token".to_string()));
        },
    };
    if !starts_with(value, "Bearer ") {
        return Err(AppError::Unauthorized("Invalid auth format".to_string()));
    }
    Ok(skip_chars(value, 7))
}

/// The headers that harden every response, as names and values.
pub open spec fn security_header_list() -> Seq<(Seq<char>, Seq<char>)> {
    seq![
        ("X-Content-Type-Options"@, "nosniff"@),
        ("X-Frame-Options"@, "DENY"@),
        ("X-XSS-Protection"@, "1; mode=block"@),
        ("Referrer-Policy"@, "strict-origin-when-cross-origin"@),
    ]
}

/// The headers that harden every response: no content sniffing, no
/// framing, the legacy XSS filter in blocking mode, and a strict referrer
/// policy.
pub fn security_headers() -> (r: Vec<(&'static str, &'static str)>)
    ensures
        r@.len() == security_header_list().len(),
        forall|i: int|
            0 <= i < r@.len() ==> (#[trigger] r@[i]).0@ == security_header_list()[i].0 && r@[i].1@
                == security_header_list()[i].1,
{
    let mut headers: Vec<(&'static str, &'static str)> = Vec::new();
    headers.push(("X-Content-Type-Options", "nosniff"));
    headers.push(("X-Frame-Options", "DENY"));
    headers.push(("X-XSS-Protection", "1; mode=block"));
    headers.push(("Referrer-Policy", "strict-origin-when-cross-origin"));
    headers
}

/// Nanoseconds in one second.
pub const NANOS_PER_SECOND: i128 = 1_000_000_000;

/// `std::time::Instant`, a reading of the monotonic clock. Nothing is known
/// of what it holds.
#[verifier::external_type_specification]
#[verifier::external_body]
pub struct ExInstant(std::time::Instant);

/// Reads the monotonic clock with `std::time::Instant::now`. Trusted;
/// nothing is claimed of the reading.
#[verifier::external_body]
fn monotonic_now() -> std::time::Instant {
    std::time::Instant::now()
}

/// The time that has passed since `origin` according to
/// `std::time::Instant::elapsed`, as whole seconds and nanoseconds. Trusted:
/// the nanoseconds are below one second, as `Duration::subsec_nanos`
/// documents.
#[verifier::external_body]
fn monotonic_since(origin: &std::time::Instant) -> (t: Timestamp)
    ensures
        t.nanos < 1_000_000_000,
{
    let elapsed = origin.elapsed();
    Timestamp { secs: elapsed.as_secs() as i64, nanos: elapsed.subsec_nanos() }
}

/// The state of one client key: how many requests its current window has
/// seen, and when that window began.
#[derive(Debug, Clone, Copy, PartialEq, Eq, Structural)]
pub struct RateWindowEntry {
    pub count: u32,
    pub window_start: Timestamp,
}

/// The windows of all client keys.
pub type Windows = Map<Seq<char>, RateWindowEntry>;

/// The model of a rate limiter: its windows and its two parameters.
pub struct RateLimiterView {
    pub windows: Windows,
    pub max_requests: u32,
    pub window_seconds: u64,
}

/// Nanoseconds from `start` to `now`; negative when `now` is the earlier.
pub open spec fn nanos_between(start: Timestamp, now: Timestamp) -> int {
    (now.secs - start.secs) * 1_000_000_000 + (now.nanos - start.nanos)
}

/// Whether a window that began at `start` is over at `now`: more than
/// `window_seconds` have passed since.
pub open spec fn window_passed(start: Timestamp, now: Timestamp, window_seconds: u64) -> bool {
    nanos_between(start, now) > window_seconds * 1_000_000_000
}

/// Whether a request at `now` is let through, given the state of its key: a
/// key seen for the first time always is, a key whose window is over always
/// is, and otherwise the key must have budget left.
pub open spec fn admitted(
    entry: Option<RateWindowEntry>,
    now: Timestamp,
    max_requests: u32,
    window_seconds: u64,
) -> bool {
    match entry {
        None => true,
        Some(e) => window_passed(e.window_start, now, window_seconds) || e.count < max_requests,
    }
}

/// The state of a key after a request at `now`: a new window with one
/// request for a key seen for the first time or whose window is over, one
/// request more in the same window while there is budget, and no change
/// when the request is rejected.
pub open spec fn entry_after(
    entry: Option<RateWindowEntry>,
    now: Timestamp,
    max_requests: u32,
    window_seconds: u64,
) -> RateWindowEntry {
    match entry {
        None => RateWindowEntry { count: 1, window_start: now },
        Some(e) => if window_passed(e.window_start, now, window_seconds) {
            RateWindowEntry { count: 1, window_start: now }
        } else if e.count < max_requests {
            RateWindowEntry { count: (e.count + 1) as u32, window_start: e.window_start }
        } else {
            e
        },
    }
}

/// The windows after a request for `key` at `now`: the state of `key` moves
/// on as [`entry_after`] says, and no other key is touched.
pub open spec fn windows_after_check(
    windows: Windows,
    key: Seq<char>,
    now: Timestamp,
    max_requests: u32,
    window_seconds: u64,
) -> Windows {
    windows.insert(key, entry_after(windows.get(key), now, max_requests, window_seconds))
}

/// The windows after a cleanup at `now`: those that are not over.
pub open spec fn windows_after_cleanup(
    windows: Windows,
    now: Timestamp,
    window_seconds: u64,
) -> Windows {
    Map::new(
        |k: Seq<char>|
            windows.contains_key(k) && !window_passed(windows[k].window_start, now, window_seconds),
        |k: Seq<char>| windows[k],
    )
}

/// Whether `key` is among the first `upto` of `keys`.
pub open spec fn listed(keys: Seq<String>, key: Seq<char>, upto: int) -> bool {
    exists|j: int| 0 <= j < upto && j < keys.len() && (#[trigger] keys[j])@ == key
}

/// Decides [`window_passed`].
pub fn window_has_passed(start: Timestamp, now: Timestamp, window_seconds: u64) -> (r: bool)
    ensures
        r == window_passed(start, now, window_seconds),
{
    let seconds: i128 = now.secs as i128 - start.secs as i128;
    let nanos: i128 = now.nanos as i128 - start.nanos as i128;
    let elapsed: i128 = seconds * NANOS_PER_SECOND + nanos;
    elapsed > (window_seconds as i128) * NANOS_PER_SECOND
}

/// A fixed-window rate limiter over client keys.
pub struct RateLimiterState {
    requests: StringHashMap<RateWindowEntry>,
    keys: Vec<String>,
    max_requests: u32,
    window_seconds: u64,
    origin: std::time::Instant,
}

impl View for RateLimiterState {
    type V = RateLimiterView;

    closed spec fn view(&self) -> RateLimiterView {
        RateLimiterView {
            windows: self.requests@,
            max_requests: self.max_requests,
            window_seconds: self.window_seconds,
        }
    }
}

impl RateLimiterState {
    /// Every key with a window is on the list of keys.
    #[verifier::type_invariant]
    closed spec fn inv(self) -> bool {
        forall|k: Seq<char>| #[trigger]
            self.requests@.contains_key(k) ==> listed(self.keys@, k, self.keys@.len() as int)
    }

    /// A limiter without windows that lets `max_requests` requests through
    /// per key and window of `window_seconds` seconds.
    pub fn new(max_requests: u32, window_seconds: u64) -> (r: Self)
        ensures
            r@ == (RateLimiterView { windows: Map::empty(), max_requests, window_seconds }),
    {
        RateLimiterState {
            requests: StringHashMap::new(),
            keys: Vec::new(),
            max_requests,
            window_seconds,
            origin: monotonic_now(),
        }
    }

    /// The requests let through per key and window.
    pub fn max_requests(&self) -> (n: u32)
        ensures
            n == self@.max_requests,
    {
        self.max_requests
    }

    /// The length of a window in seconds.
    pub fn window_seconds(&self) -> (n: u64)
        ensures
            n == self@.window_seconds,
    {
        self.window_seconds
    }

    /// The state of a key, if it has a window.
    pub fn entry(&self, key: &str) -> (r: Option<RateWindowEntry>)
        ensures
            r == self@.windows.get(key@),
    {
        match self.requests.get(key) {
            Some(e) => Some(*e),
            None => None,
        }
    }

    /// Moves the windows and the list of keys out, leaving none behind.
    fn take_state(&mut self) -> (state: (StringHashMap<RateWindowEntry>, Vec<String>))
        ensures
            state.0 == old(self).requests,
            state.1 == old(self).keys,
            final(self).requests@ == Windows::empty(),
            final(self).keys@ == Seq::<String>::empty(),
            final(self).max_requests == old(self).max_requests,
            final(self).window_seconds == old(self).window_seconds,
    {
        let mut requests: StringHashMap<RateWindowEntry> = StringHashMap::new();
        let mut keys: Vec<String> = Vec::new();
        std::mem::swap(&mut self.requests, &mut requests);
        std::mem::swap(&mut self.keys, &mut keys);
        (requests, keys)
    }

    /// Accounts for one request for `key` at `now`. The request is let
    /// through exactly when [`admitted`] says so, and is answered with
    /// `RateLimited` otherwise; the windows move on as
    /// [`windows_after_check`] says, which leaves them unchanged on a
    /// rejection.
    pub fn check_at(&mut self, key: &str, now: Timestamp) -> (r: Result<()>)
        ensures
            r is Ok <==> admitted(
                old(self)@.windows.get(key@),
                now,
                old(self)@.max_requests,
                old(self)@.window_seconds,
            ),
            r is Err ==> r->Err_0@.kind == ErrorKind::RateLimited,
            final(self)@ == (RateLimiterView {
                windows: windows_after_check(
                    old(self)@.windows,
                    key@,
                    now,
                    old(self)@.max_requests,
                    old(self)@.window_seconds,
                ),
                ..old(self)@
            }),
    {
        proof {
            use_type_invariant(&*self);
        }
        let known = self.entry(key);
        let next = match known {
            None => RateWindowEntry { count: 1, window_start: now },
            Some(e) => {
                if window_has_passed(e.window_start, now, self.window_seconds) {
                    RateWindowEntry { count: 1, window_start: now }
                } else if e.count < self.max_requests {
                    RateWindowEntry { count: e.count + 1, window_start: e.window_start }
                } else {
                    assert(old(self)@.windows.insert(key@, e) =~= old(self)@.windows);
                    return Err(AppError::RateLimited);
                }
            },
        };
        let (mut requests, mut keys) = self.take_state();
        if known.is_none() {
            keys.push(key.to_string());
        }
        requests.insert(key.to_string(), next);
        proof {
            let old_keys = old(self).keys@;
            assert forall|k: Seq<char>| #[trigger] requests@.contains_key(k) implies listed(
                keys@,
                k,
                keys@.len() as int,
            ) by {
                if k == key@ && known is None {
                    assert(keys@[keys@.len() - 1]@ == k);
                } else {
                    assert(old(self).requests@.contains_key(k));
                    let j = choose|j: int|
                        0 <= j < old_keys.len() && (#[trigger] old_keys[j])@ == k;
                    assert(keys@[j]@ == k);
                }
            }
        }
        self.keys = keys;
        self.requests = requests;
        Ok(())
    }

    /// Accounts for one request for `key` at the current reading of the
    /// limiter's monotonic clock.
    pub fn check(&mut self, key: &str) -> (r: Result<()>)
        ensures
            exists|now: Timestamp|
                (r is Ok <==> admitted(
                    old(self)@.windows.get(key@),
                    now,
                    old(self)@.max_requests,
                    old(self)@.window_seconds,
                )) && final(self)@ == (RateLimiterView {
                    windows: windows_after_check(
                        old(self)@.windows,
                        key@,
                        now,
                        old(self)@.max_requests,
                        old(self)@.window_seconds,
                    ),
                    ..old(self)@
                }),
            r is Err ==> r->Err_0@.kind == ErrorKind::RateLimited,
            !old(self)@.windows.contains_key(key@) ==> r is Ok,
    {
        let now = monotonic_since(&self.origin);
        self.check_at(key, now)
    }

    /// Drops every window that is over at `now`; see
    /// [`windows_after_cleanup`].
    pub fn cleanup_at(&mut self, now: Timestamp)
        ensures
            final(self)@ == (RateLimiterView {
                windows: windows_after_cleanup(
                    old(self)@.windows,
                    now,
                    old(self)@.window_seconds,
                ),
                ..old(self)@
            }),
    {
        proof {
            use_type_invariant(&*self);
        }
        let window_seconds = self.window_seconds;
        let (mut requests, keys) = self.take_state();
        let ghost before = requests@;
        let mut kept: Vec<String> = Vec::new();
        let mut i: usize = 0;
        while i < keys.len()
            invariant
                i <= keys@.len(),
                forall|k: Seq<char>| #[trigger]
                    before.contains_key(k) ==> listed(keys@, k, keys@.len() as int),
                forall|k: Seq<char>| #[trigger]
                    requests@.contains_key(k) <==> before.contains_key(k) && !(listed(
                        keys@,
                        k,
                        i as int,
                    ) && window_passed(before[k].window_start, now, window_seconds)),
                forall|k: Seq<char>| #[trigger]
                    requests@.contains_key(k) ==> requests@[k] == before[k],
                forall|k: Seq<char>|
                    requests@.contains_key(k) && #[trigger] listed(keys@, k, i as int) ==> listed(
                        kept@,
                        k,
                        kept@.len() as int,
                    ),
            decreases keys.len() - i,
        {
            let key = keys[i].as_str();
            let ghost earlier = requests@;
            let ghost kept_before = kept@;
            let over = match requests.get(key) {
                Some(e) => window_has_passed(e.window_start, now, window_seconds),
                None => false,
            };
            let present = requests.contains_key(key);
            if over {
                requests.remove(key);
            } else if present {
                kept.push(keys[i].clone());
            }
            proof {
                assert(keys@[i as int]@ == key@);
                assert forall|k: Seq<char>| listed(keys@, k, i + 1) <==> (listed(
                    keys@,
                    k,
                    i as int,
                ) || k == key@) by {
                    if listed(keys@, k, i + 1) {
                        let j = choose|j: int|
                            0 <= j < i + 1 && j < keys@.len() && (#[trigger] keys@[j])@ == k;
                        if j < i {
                            assert(listed(keys@, k, i as int));
                        }
                    }
                    if listed(keys@, k, i as int) {
                        let j = choose|j: int|
                            0 <= j < i && j < keys@.len() && (#[trigger] keys@[j])@ == k;
                        assert(0 <= j < i + 1 && keys@[j]@ == k);
                    }
                    if k == key@ {
                        assert(keys@[i as int]@ == k);
                    }
                }
                assert forall|k: Seq<char>|
                    requests@.contains_key(k) && #[trigger] listed(keys@, k, i + 1) implies listed(
                        kept@,
                        k,
                        kept@.len() as int,
                    ) by {
                    if k == key@ {
                        assert(!over && present);
                        assert(kept@[kept@.len() - 1]@ == k);
                    } else {
                        assert(earlier.contains_key(k));
                        assert(listed(keys@, k, i as int));
                        let j = choose|j: int|
                            0 <= j < kept_before.len() && (#[trigger] kept_before[j])@ == k;
                        assert(kept@[j]@ == k);
                    }
                }
            }
            i += 1;
        }
        proof {
            assert(requests@ =~= windows_after_cleanup(before, now, window_seconds));
        }
        self.keys = kept;
        self.requests = requests;
    }

    /// Drops every window that is over at the current reading of the
    /// limiter's monotonic clock.
    pub fn cleanup(&mut self)
        ensures
            exists|now: Timestamp|
                final(self)@.windows == #[trigger] windows_after_cleanup(
                    old(self)@.windows,
                    now,
                    old(self)@.window_seconds,
                ),
            final(self)@.max_requests == old(self)@.max_requests,
            final(self)@.window_seconds == old(self)@.window_seconds,
    {
        let now = monotonic_since(&self.origin);
        self.cleanup_at(now);
    }
}

/// Isolation: a request for one key leaves the window of every other key as
/// it was, so that whether a later request for another key is let through
/// does not depend on it.
pub proof fn lemma_rate_limit_isolation(
    windows: Windows,
    key: Seq<char>,
    other: Seq<char>,
    now: Timestamp,
    later: Timestamp,
    max_requests: u32,
    window_seconds: u64,
)
    requires
        key != other,
    ensures
        windows_after_check(windows, key, now, max_requests, window_seconds).get(other)
            == windows.get(other),
        admitted(
            windows_after_check(windows, key, now, max_requests, window_seconds).get(other),
            later,
            max_requests,
            window_seconds,
        ) == admitted(windows.get(other), later, max_requests, window_seconds),
{
}

/// Window reset: once more than the window length has passed since a key's
/// window began, the next request for the key is let through whatever the
/// key has used up, and begins a new window with a count of one. A request
/// that is rejected changes nothing.
pub proof fn lemma_rate_limit_window_reset(
    windows: Windows,
    key: Seq<char>,
    now: Timestamp,
    max_requests: u32,
    window_seconds: u64,
)
    ensures
        windows.contains_key(key) && window_passed(windows[key].window_start, now, window_seconds)
            ==> admitted(windows.get(key), now, max_requests, window_seconds)
            && windows_after_check(windows, key, now, max_requests, window_seconds)[key] == (
        RateWindowEntry { count: 1, window_start: now }),
        !admitted(windows.get(key), now, max_requests, window_seconds) ==> windows_after_check(
            windows,
            key,
            now,
            max_requests,
            window_seconds,
        ) == windows,
{
    if !admitted(windows.get(key), now, max_requests, window_seconds) {
        assert(windows_after_check(windows, key, now, max_requests, window_seconds) =~= windows);
    }
}

/// How many of the requests for `key` at the given times, in that order,
/// are let through.
pub open spec fn admitted_count(
    windows: Windows,
    key: Seq<char>,
    times: Seq<Timestamp>,
    max_requests: u32,
    window_seconds: u64,
) -> nat
    decreases times.len(),
{
    if times.len() == 0 {
        0
    } else {
        let rest = admitted_count(
            windows_after_check(windows, key, times[0], max_requests, window_seconds),
            key,
            times.drop_first(),
            max_requests,
            window_seconds,
        );
        if admitted(windows.get(key), times[0], max_requests, window_seconds) {
            rest + 1
        } else {
            rest
        }
    }
}

/// The budget that is left in the window of a key: what it may still use
/// up to the maximum.
pub open spec fn budget_left(entry: RateWindowEntry, max_requests: u32) -> nat {
    if entry.count < max_requests {
        (max_requests - entry.count) as nat
    } else {
        0
    }
}

/// Budget: of the requests that fall into the running window of a key,
/// exactly as many are let through as the key has budget left, and no more.
pub proof fn lemma_rate_limit_budget(
    windows: Windows,
    key: Seq<char>,
    times: Seq<Timestamp>,
    max_requests: u32,
    window_seconds: u64,
)
    requires
        windows.contains_key(key),
        forall|i: int|
            0 <= i < times.len() ==> !window_passed(
                windows[key].window_start,
                #[trigger] times[i],
                window_seconds,
            ),
    ensures
        admitted_count(windows, key, times, max_requests, window_seconds) == (if times.len()
            <= budget_left(windows[key], max_requests) {
            times.len()
        } else {
            budget_left(windows[key], max_requests)
        }),
    decreases times.len(),
{
    if times.len() > 0 {
        let next = windows_after_check(windows, key, times[0], max_requests, window_seconds);
        let rest = times.drop_first();
        assert(!window_passed(windows[key].window_start, times[0], window_seconds));
        assert(next[key].window_start == windows[key].window_start);
        assert forall|i: int| 0 <= i < rest.len() implies !window_passed(
            next[key].window_start,
            #[trigger] rest[i],
            window_seconds,
        ) by {
            assert(rest[i] == times[i + 1]);
        }
        lemma_rate_limit_budget(next, key, rest, max_requests, window_seconds);
    }
}

/// A key that is seen for the first time is let through once and then has
/// the budget of a window that has used one request: of `n` further
/// requests in that window, `max_requests - 1` are let through at most.
pub proof fn lemma_rate_limit_first_window(
    windows: Windows,
    key: Seq<char>,
    first: Timestamp,
    times: Seq<Timestamp>,
    max_requests: u32,
    window_seconds: u64,
)
    requires
        !windows.contains_key(key),
        forall|i: int|
            0 <= i < times.len() ==> !window_passed(first, #[trigger] times[i], window_seconds),
    ensures
        admitted(windows.get(key), first, max_requests, window_seconds),
        admitted_count(
            windows_after_check(windows, key, first, max_requests, window_seconds),
            key,
            times,
            max_requests,
            window_seconds,
        ) == (if max_requests == 0 {
            0
        } else if times.len() <= max_requests - 1 {
            times.len()
        } else {
            (max_requests - 1) as nat
        }),
{
    let next = windows_after_check(windows, key, first, max_requests, window_seconds);
    assert(next[key] == (RateWindowEntry { count: 1, window_start: first }));
    lemma_rate_limit_budget(next, key, times, max_requests, window_seconds);
}

} // verus!
