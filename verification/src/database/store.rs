//! The mathematical model of the link table: a sequence of rows in which no
//! short code and no identifier occurs twice and no expiry lies at or before
//! its row's creation, and the operations on it.

use crate::models::url::UrlView;
use crate::time::Timestamp;
use vstd::prelude::*;

verus! {

/// The rows of the link table, oldest first.
pub type Rows = Seq<UrlView>;

/// Whether some row carries the short code.
pub open spec fn has_code(s: Rows, code: Seq<char>) -> bool {
    exists|i: int| 0 <= i < s.len() && (#[trigger] s[i]).short_code == code
}

/// Whether some row carries the identifier.
pub open spec fn has_id(s: Rows, id: Seq<char>) -> bool {
    exists|i: int| 0 <= i < s.len() && (#[trigger] s[i]).id == id
}

/// The position of a row with the short code, where there is one.
pub open spec fn code_index(s: Rows, code: Seq<char>) -> int {
    choose|i: int| 0 <= i < s.len() && (#[trigger] s[i]).short_code == code
}

/// The position of a row with the identifier, where there is one.
pub open spec fn id_index(s: Rows, id: Seq<char>) -> int {
    choose|i: int| 0 <= i < s.len() && (#[trigger] s[i]).id == id
}

/// The row with the short code, if any.
pub open spec fn lookup(s: Rows, code: Seq<char>) -> Option<UrlView> {
    if has_code(s, code) {
        Some(s[code_index(s, code)])
    } else {
        None
    }
}

/// The row with the identifier, if any.
pub open spec fn lookup_id(s: Rows, id: Seq<char>) -> Option<UrlView> {
    if has_id(s, id) {
        Some(s[id_index(s, id)])
    } else {
        None
    }
}

/// Whether no two rows share a short code or an identifier.
pub open spec fn rows_distinct(s: Rows) -> bool {
    forall|i: int, j: int|
        0 <= i < s.len() && 0 <= j < s.len() && i != j ==> (#[trigger] s[i]).short_code != (
        #[trigger] s[j]).short_code && s[i].id != s[j].id
}

/// Whether an expiry, if there is one, lies strictly after the creation.
pub open spec fn expires_later(created_at: Timestamp, expires_at: Option<Timestamp>) -> bool {
    match expires_at {
        Some(expiry) => created_at.before(expiry),
        None => true,
    }
}

/// Whether a row expires, if at all, strictly after it was created.
pub open spec fn well_timed(u: UrlView) -> bool {
    expires_later(u.created_at, u.expires_at)
}

/// Whether every row expires, if at all, strictly after it was created.
pub open spec fn rows_well_timed(s: Rows) -> bool {
    forall|i: int| 0 <= i < s.len() ==> well_timed(#[trigger] s[i])
}

/// The invariant of the table: no two rows share a short code or an
/// identifier, and every row that expires does so strictly after it was
/// created.
pub open spec fn store_wf(s: Rows) -> bool {
    rows_distinct(s) && rows_well_timed(s)
}

/// A row after one more click recorded at `now`: the counter goes up by one
/// (it stays at its largest value once there) and the change mark moves to
/// `now`.
pub open spec fn clicked(u: UrlView, now: Timestamp) -> UrlView {
    UrlView {
        clicks: if u.clicks < i64::MAX {
            (u.clicks + 1) as i64
        } else {
            u.clicks
        },
        updated_at: now,
        ..u
    }
}

/// The table after a click on `code` was recorded at `now`: the row with
/// that code is [`clicked`], every other row is unchanged. Without such a
/// row nothing changes.
pub open spec fn with_click(s: Rows, code: Seq<char>, now: Timestamp) -> Rows {
    Seq::new(
        s.len(),
        |i: int|
            if s[i].short_code == code {
                clicked(s[i], now)
            } else {
                s[i]
            },
    )
}

/// The table without the row that carries the identifier.
pub open spec fn without_id(s: Rows, id: Seq<char>) -> Rows {
    if has_id(s, id) {
        s.remove(id_index(s, id))
    } else {
        s
    }
}

/// The rows that have not expired by `now`, in their order.
pub open spec fn live_rows(s: Rows, now: Timestamp) -> Rows
    decreases s.len(),
{
    if s.len() == 0 {
        Seq::empty()
    } else if s.last().expired(now) {
        live_rows(s.drop_last(), now)
    } else {
        live_rows(s.drop_last(), now).push(s.last())
    }
}

/// The rows of one owner, newest first.
pub open spec fn rows_of_user(s: Rows, user_id: Seq<char>) -> Rows
    decreases s.len(),
{
    if s.len() == 0 {
        Seq::empty()
    } else if s[0].user_id == Some(user_id) {
        rows_of_user(s.drop_first(), user_id).push(s[0])
    } else {
        rows_of_user(s.drop_first(), user_id)
    }
}

/// The sum of the click counters of all rows.
pub open spec fn total_clicks(s: Rows) -> int
    decreases s.len(),
{
    if s.len() == 0 {
        0
    } else {
        total_clicks(s.drop_last()) + s.last().clicks
    }
}

// ---------------------------------------------------------------------
// Facts about the model
// ---------------------------------------------------------------------

/// In a well-formed table, the row at a position is the one found under its
/// short code and under its identifier.
pub proof fn lemma_lookup_at(s: Rows, i: int)
    requires
        store_wf(s),
        0 <= i < s.len(),
    ensures
        has_code(s, s[i].short_code),
        code_index(s, s[i].short_code) == i,
        lookup(s, s[i].short_code) == Some(s[i]),
        has_id(s, s[i].id),
        id_index(s, s[i].id) == i,
        lookup_id(s, s[i].id) == Some(s[i]),
        well_timed(s[i]),
{
    let code = s[i].short_code;
    let id = s[i].id;
    assert(s[i].short_code == code);
    assert(s[i].id == id);
    let j = code_index(s, code);
    assert(0 <= j < s.len() && s[j].short_code == code);
    let k = id_index(s, id);
    assert(0 <= k < s.len() && s[k].id == id);
}

/// What is found under a code is a row of the table that carries the code.
pub proof fn lemma_lookup_is_row(s: Rows, code: Seq<char>)
    requires
        has_code(s, code),
    ensures
        0 <= code_index(s, code) < s.len(),
        s[code_index(s, code)].short_code == code,
        lookup(s, code) == Some(s[code_index(s, code)]),
{
}

/// Whatever is found in a well-formed table expires, if at all, strictly
/// after it was created.
pub proof fn lemma_found_rows_are_well_timed(s: Rows, code: Seq<char>)
    requires
        store_wf(s),
        lookup(s, code) is Some,
    ensures
        well_timed(lookup(s, code)->0),
{
    lemma_lookup_is_row(s, code);
    assert(well_timed(s[code_index(s, code)]));
}

/// Appending a well-timed row whose code and identifier are new keeps the
/// table well-formed; the new row is found under its code, and every other
/// code finds what it found before.
pub proof fn lemma_push_row(s: Rows, u: UrlView)
    requires
        store_wf(s),
        !has_code(s, u.short_code),
        !has_id(s, u.id),
        well_timed(u),
    ensures
        store_wf(s.push(u)),
        lookup(s.push(u), u.short_code) == Some(u),
        lookup_id(s.push(u), u.id) == Some(u),
        forall|code: Seq<char>| code != u.short_code ==> lookup(s.push(u), code) == lookup(s, code),
        forall|code: Seq<char>|
            has_code(s.push(u), code) <==> (has_code(s, code) || code == u.short_code),
{
    let t = s.push(u);
    assert forall|i: int, j: int| 0 <= i < t.len() && 0 <= j < t.len() && i != j implies (
    #[trigger] t[i]).short_code != (#[trigger] t[j]).short_code && t[i].id != t[j].id by {
        if i < s.len() {
            assert(t[i] == s[i]);
        }
        if j < s.len() {
            assert(t[j] == s[j]);
        }
    }
    assert(t[s.len() as int] == u);
    assert forall|i: int| 0 <= i < t.len() implies well_timed(#[trigger] t[i]) by {
        if i < s.len() {
            assert(t[i] == s[i]);
            assert(well_timed(s[i]));
        }
    }
    lemma_lookup_at(t, s.len() as int);
    assert forall|code: Seq<char>| has_code(t, code) <==> (has_code(s, code) || code
        == u.short_code) by {
        if has_code(s, code) {
            let i = code_index(s, code);
            assert(t[i] == s[i]);
        }
        if has_code(t, code) {
            let i = code_index(t, code);
            if i < s.len() {
                assert(t[i] == s[i]);
            }
        }
    }
    assert forall|code: Seq<char>| code != u.short_code implies lookup(t, code) == lookup(
        s,
        code,
    ) by {
        if has_code(s, code) {
            let i = code_index(s, code);
            assert(t[i] == s[i]);
            lemma_lookup_at(t, i);
        }
    }
}

/// Recording a click keeps the table well-formed and changes nothing but
/// the row clicked on.
pub proof fn lemma_with_click(s: Rows, code: Seq<char>, now: Timestamp)
    requires
        store_wf(s),
    ensures
        store_wf(with_click(s, code, now)),
        with_click(s, code, now).len() == s.len(),
        forall|c: Seq<char>| has_code(with_click(s, code, now), c) <==> has_code(s, c),
        lookup(with_click(s, code, now), code) == (match lookup(s, code) {
            Some(u) => Some(clicked(u, now)),
            None => None,
        }),
        forall|c: Seq<char>| c != code ==> lookup(with_click(s, code, now), c) == lookup(s, c),
        !has_code(s, code) ==> with_click(s, code, now) == s,
{
    let t = with_click(s, code, now);
    assert forall|i: int| 0 <= i < s.len() implies (#[trigger] t[i]).short_code
        == s[i].short_code && t[i].id == s[i].id by {}
    assert forall|i: int, j: int| 0 <= i < t.len() && 0 <= j < t.len() && i != j implies (
    #[trigger] t[i]).short_code != (#[trigger] t[j]).short_code && t[i].id != t[j].id by {
        assert(t[i].short_code == s[i].short_code);
        assert(t[j].short_code == s[j].short_code);
    }
    assert forall|i: int| 0 <= i < t.len() implies well_timed(#[trigger] t[i]) by {
        assert(well_timed(s[i]));
    }
    assert forall|c: Seq<char>| has_code(t, c) <==> has_code(s, c) by {
        if has_code(s, c) {
            let i = code_index(s, c);
            assert(t[i].short_code == c);
        }
        if has_code(t, c) {
            let i = code_index(t, c);
            assert(s[i].short_code == c);
        }
    }
    assert forall|c: Seq<char>| #![auto] has_code(s, c) implies lookup(t, c) == Some(
        t[code_index(s, c)],
    ) by {
        let i = code_index(s, c);
        assert(t[i].short_code == c);
        lemma_lookup_at(t, i);
    }
    if !has_code(s, code) {
        assert forall|i: int| 0 <= i < s.len() implies t[i] == s[i] by {
            if s[i].short_code == code {
                assert(has_code(s, code));
            }
        }
        assert(t =~= s);
    }
}

/// Removing the row with an identifier keeps the table well-formed; the
/// code of the removed row is unknown afterwards, and every other code
/// finds what it found before.
pub proof fn lemma_without_id(s: Rows, id: Seq<char>)
    requires
        store_wf(s),
    ensures
        store_wf(without_id(s, id)),
        !has_id(without_id(s, id), id),
        forall|c: Seq<char>|
            lookup(without_id(s, id), c) == (if lookup(s, c) is Some && lookup(s, c)->0.id == id {
                None
            } else {
                lookup(s, c)
            }),
{
    let t = without_id(s, id);
    if has_id(s, id) {
        let k = id_index(s, id);
        assert(0 <= k < s.len() && s[k].id == id);
        assert forall|i: int| 0 <= i < t.len() implies #[trigger] t[i] == s[if i < k {
            i
        } else {
            i + 1
        }] by {}
        assert forall|i: int, j: int| 0 <= i < t.len() && 0 <= j < t.len() && i != j implies (
        #[trigger] t[i]).short_code != (#[trigger] t[j]).short_code && t[i].id != t[j].id by {
            let a = if i < k {
                i
            } else {
                i + 1
            };
            let b = if j < k {
                j
            } else {
                j + 1
            };
            assert(t[i] == s[a] && t[j] == s[b]);
        }
        assert forall|i: int| 0 <= i < t.len() implies well_timed(#[trigger] t[i]) by {
            let a = if i < k {
                i
            } else {
                i + 1
            };
            assert(t[i] == s[a]);
            assert(well_timed(s[a]));
        }
        if has_id(t, id) {
            let i = id_index(t, id);
            let a = if i < k {
                i
            } else {
                i + 1
            };
            assert(t[i] == s[a]);
            assert(false);
        }
        assert forall|c: Seq<char>|
            lookup(t, c) == (if lookup(s, c) is Some && lookup(s, c)->0.id == id {
                None
            } else {
                lookup(s, c)
            }) by {
            if has_code(t, c) {
                let i = code_index(t, c);
                let a = if i < k {
                    i
                } else {
                    i + 1
                };
                assert(t[i] == s[a]);
                lemma_lookup_at(s, a);
                lemma_lookup_at(t, i);
            } else if has_code(s, c) {
                let a = code_index(s, c);
                lemma_lookup_at(s, a);
                if a != k {
                    let i = if a < k {
                        a
                    } else {
                        a - 1
                    };
                    assert(t[i] == s[a]);
                    assert(has_code(t, c));
                }
            }
        }
    } else {
        assert forall|c: Seq<char>|
            lookup(t, c) == (if lookup(s, c) is Some && lookup(s, c)->0.id == id {
                None
            } else {
                lookup(s, c)
            }) by {
            if has_code(s, c) {
                let a = code_index(s, c);
                if s[a].id == id {
                    assert(has_id(s, id));
                }
            }
        }
    }
}

/// Every live row is a row of the table, in the same relative order.
pub proof fn lemma_live_rows_are_rows(s: Rows, now: Timestamp, k: int) -> (j: int)
    requires
        0 <= k < live_rows(s, now).len(),
    ensures
        0 <= j < s.len(),
        live_rows(s, now)[k] == s[j],
        !s[j].expired(now),
    decreases s.len(),
{
    let rest = live_rows(s.drop_last(), now);
    if !s.last().expired(now) && k == rest.len() {
        s.len() - 1
    } else {
        lemma_live_rows_are_rows(s.drop_last(), now, k)
    }
}

/// Purging expired rows keeps the table well-formed, never lengthens it,
/// removes exactly the codes of expired rows and leaves every other row as
/// it was.
pub proof fn lemma_live_rows(s: Rows, now: Timestamp)
    requires
        store_wf(s),
    ensures
        store_wf(live_rows(s, now)),
        live_rows(s, now).len() <= s.len(),
        forall|c: Seq<char>|
            lookup(live_rows(s, now), c) == (if lookup(s, c) is Some && lookup(s, c)->0.expired(
                now,
            ) {
                None
            } else {
                lookup(s, c)
            }),
    decreases s.len(),
{
    let t = live_rows(s, now);
    if s.len() == 0 {
        assert forall|c: Seq<char>| lookup(t, c) == lookup(s, c) by {}
    } else {
        let init = s.drop_last();
        let rest = live_rows(init, now);
        assert(store_wf(init)) by {
            assert forall|i: int, j: int|
                0 <= i < init.len() && 0 <= j < init.len() && i != j implies (
            #[trigger] init[i]).short_code != (#[trigger] init[j]).short_code && init[i].id
                != init[j].id by {
                assert(init[i] == s[i] && init[j] == s[j]);
            }
            assert forall|i: int| 0 <= i < init.len() implies well_timed(
                #[trigger] init[i],
            ) by {
                assert(init[i] == s[i]);
                assert(well_timed(s[i]));
            }
        }
        lemma_live_rows(init, now);
        let last = s.last();
        let n = s.len() - 1;
        assert(s[n] == last);
        assert(well_timed(s[n]));
        if !last.expired(now) {
            assert(!has_code(rest, last.short_code)) by {
                if has_code(rest, last.short_code) {
                    let k = code_index(rest, last.short_code);
                    let j = lemma_live_rows_are_rows(init, now, k);
                    assert(init[j] == s[j]);
                    assert(false);
                }
            }
            assert(!has_id(rest, last.id)) by {
                if has_id(rest, last.id) {
                    let k = id_index(rest, last.id);
                    let j = lemma_live_rows_are_rows(init, now, k);
                    assert(init[j] == s[j]);
                    assert(false);
                }
            }
            lemma_push_row(rest, last);
        }
        assert forall|c: Seq<char>|
            lookup(t, c) == (if lookup(s, c) is Some && lookup(s, c)->0.expired(now) {
                None
            } else {
                lookup(s, c)
            }) by {
            lemma_lookup_at(s, n);
            let from_init = if lookup(init, c) is Some && lookup(init, c)->0.expired(now) {
                None
            } else {
                lookup(init, c)
            };
            assert(lookup(rest, c) == from_init);
            if c == last.short_code {
                assert(!has_code(init, c)) by {
                    if has_code(init, c) {
                        let j = code_index(init, c);
                        assert(init[j] == s[j]);
                        assert(false);
                    }
                }
                assert(lookup(init, c) is None);
                assert(lookup(s, c) == Some(last));
                if last.expired(now) {
                    assert(t == rest);
                } else {
                    assert(t == rest.push(last));
                    assert(lookup(t, c) == Some(last));
                }
            } else {
                assert(lookup(s, c) == lookup(init, c)) by {
                    if has_code(s, c) {
                        let j = code_index(s, c);
                        assert(j != n);
                        assert(init[j] == s[j]);
                        lemma_lookup_at(init, j);
                        lemma_lookup_at(s, j);
                    } else if has_code(init, c) {
                        let j = code_index(init, c);
                        assert(init[j] == s[j]);
                        assert(false);
                    }
                }
                if last.expired(now) {
                    assert(t == rest);
                } else {
                    assert(t == rest.push(last));
                    assert(lookup(t, c) == lookup(rest, c));
                }
            }
        }
    }
}

} // verus!
