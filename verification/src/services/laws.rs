//! What always holds of the service, whatever is stored and asked.

use crate::database::repository::insert_fault;
use crate::database::store::{
    has_code, lemma_lookup_is_row, lemma_push_row, lemma_with_click, lemma_without_id, lookup,
    store_wf, well_timed, with_click, without_id, Rows,
};
use crate::error::{fails_with, ErrorKind, ErrorView, Outcome};
use crate::models::url::{
    create_request_faults, custom_code_faults, lifetime_faults, lifetime_fits, title_faults,
    url_faults, CreateUrlRequestView, UrlView,
};
use crate::text::lemma_utf8_len_bounds;
use crate::services::url_service::{
    allocation, conflict, creation, deletion, forbidden, information, invalid_code, link_to_store,
    live_link, not_found, occurrences, pending_after_resolution, resolution,
    rows_after_creation, rows_after_deletion, same_link, settled,
};
use crate::time::Timestamp;
use crate::utils::{valid_short_code, valid_url};
use crate::validation::FieldErrorView;
use vstd::prelude::*;

verus! {

/// Everything one creation is given.
pub struct CreateCall {
    pub request: CreateUrlRequestView,
    pub owner: Option<Seq<char>>,
    pub id: Seq<char>,
    pub generated: Seq<Seq<char>>,
    pub now: Timestamp,
}

/// The outcome of a creation call on a table.
pub open spec fn call_outcome(rows: Rows, call: CreateCall) -> Outcome<UrlView> {
    creation(rows, call.request, call.owner, call.id, call.generated, call.now)
}

/// The table after a creation call.
pub open spec fn rows_after_call(rows: Rows, call: CreateCall) -> Rows {
    rows_after_creation(rows, call.request, call.owner, call.id, call.generated, call.now)
}

/// The short codes of the links that a run of creation calls creates, in
/// the order of the calls.
pub open spec fn created_codes(rows: Rows, calls: Seq<CreateCall>) -> Seq<Seq<char>>
    decreases calls.len(),
{
    if calls.len() == 0 {
        Seq::empty()
    } else {
        let rest = created_codes(rows_after_call(rows, calls[0]), calls.drop_first());
        match call_outcome(rows, calls[0]) {
            Ok(row) => seq![row.short_code] + rest,
            Err(_) => rest,
        }
    }
}

/// A successful creation stores its link under a code that no link carried
/// before, and keeps the table well-formed; a failed one leaves the table as
/// it was.
pub proof fn lemma_creation_takes_a_free_code(rows: Rows, call: CreateCall)
    requires
        store_wf(rows),
    ensures
        store_wf(rows_after_call(rows, call)),
        match call_outcome(rows, call) {
            Ok(row) => !has_code(rows, row.short_code) && lookup(
                rows_after_call(rows, call),
                row.short_code,
            ) == Some(row) && rows_after_call(rows, call) == rows.push(row),
            Err(_) => rows_after_call(rows, call) == rows,
        },
        forall|code: Seq<char>|
            has_code(rows, code) ==> has_code(rows_after_call(rows, call), code),
{
    match call_outcome(rows, call) {
        Ok(row) => {
            let code = row.short_code;
            let link = link_to_store(call.request, call.owner, call.id, code, call.now);
            assert(allocation(rows, call.request.custom_code, call.generated) == Ok::<
                Seq<char>,
                ErrorView,
            >(code));
            assert(insert_fault(rows, link, call.now) is None);
            lemma_push_row(rows, row);
        },
        Err(_) => {},
    }
}

/// Uniqueness: in a run of creations, no two links that are created carry
/// the same short code, and none carries a code that was in the table
/// before the run.
pub proof fn lemma_created_codes_are_unique(rows: Rows, calls: Seq<CreateCall>)
    requires
        store_wf(rows),
    ensures
        forall|i: int, j: int|
            0 <= i < j < created_codes(rows, calls).len() ==> created_codes(rows, calls)[i]
                != created_codes(rows, calls)[j],
        forall|i: int|
            0 <= i < created_codes(rows, calls).len() ==> !has_code(
                rows,
                #[trigger] created_codes(rows, calls)[i],
            ),
    decreases calls.len(),
{
    if calls.len() > 0 {
        let next = rows_after_call(rows, calls[0]);
        let rest = created_codes(next, calls.drop_first());
        let all = created_codes(rows, calls);
        lemma_creation_takes_a_free_code(rows, calls[0]);
        lemma_created_codes_are_unique(next, calls.drop_first());
        match call_outcome(rows, calls[0]) {
            Ok(row) => {
                assert(all =~= seq![row.short_code] + rest);
                assert(has_code(next, row.short_code)) by {
                    lemma_push_row(rows, row);
                }
                assert forall|i: int| 0 <= i < all.len() implies !has_code(
                    rows,
                    #[trigger] all[i],
                ) by {
                    if i > 0 {
                        assert(all[i] == rest[i - 1]);
                    }
                }
                assert forall|i: int, j: int| 0 <= i < j < all.len() implies all[i] != all[j] by {
                    assert(all[j] == rest[j - 1]);
                    if i > 0 {
                        assert(all[i] == rest[i - 1]);
                    }
                }
            },
            Err(_) => {
                assert(all == rest);
            },
        }
    }
}

/// Allocation determinism under collision: a creation that asks for a code
/// which a link already carries never succeeds and never changes the table;
/// no other code stands in for the one asked for. Where the target is an
/// acceptable URL and the code has the format of a code, the failure is the
/// conflict on that code, whatever the title, the lifetime, the owner, the
/// codes drawn and the clock reading.
pub proof fn lemma_taken_candidate_conflicts(rows: Rows, call: CreateCall, code: Seq<char>)
    requires
        has_code(rows, code),
        call.request.custom_code == Some(code),
    ensures
        call_outcome(rows, call) is Err,
        rows_after_call(rows, call) == rows,
        valid_url(call.request.url) && valid_short_code(code) ==> fails_with(
            call_outcome(rows, call),
            conflict(code),
        ),
{
}

/// A candidate of the wrong format is reported as such, whatever else the
/// request holds besides an acceptable target: nothing is stored, and the
/// table is not asked whether it holds the candidate.
pub proof fn lemma_malformed_candidate_is_reported(
    rows: Rows,
    other_rows: Rows,
    call: CreateCall,
    code: Seq<char>,
)
    requires
        valid_url(call.request.url),
        call.request.custom_code == Some(code),
        !valid_short_code(code),
    ensures
        fails_with(call_outcome(rows, call), invalid_code()),
        rows_after_call(rows, call) == rows,
        call_outcome(other_rows, call) == call_outcome(rows, call),
{
}

/// Resolution masks expiry: resolving a code whose link has expired fails
/// exactly as resolving a code that no link carries, and neither queues a
/// click.
pub proof fn lemma_resolution_masks_expiry(
    rows: Rows,
    other_rows: Rows,
    pending: Seq<Seq<char>>,
    code: Seq<char>,
    now: Timestamp,
)
    requires
        lookup(rows, code) is Some,
        lookup(rows, code)->0.expired(now),
        lookup(other_rows, code) is None,
    ensures
        resolution(rows, code, now) == resolution(other_rows, code, now),
        fails_with(resolution(rows, code, now), not_found(code)),
        not_found(code).kind == ErrorKind::NotFound,
        pending_after_resolution(rows, pending, code, now) == pending,
{
}

/// The click queue after one resolution of `code` at each of `times`, in
/// that order.
pub open spec fn pending_after_resolutions(
    rows: Rows,
    pending: Seq<Seq<char>>,
    code: Seq<char>,
    times: Seq<Timestamp>,
) -> Seq<Seq<char>>
    decreases times.len(),
{
    if times.len() == 0 {
        pending
    } else {
        pending_after_resolution(
            rows,
            pending_after_resolutions(rows, pending, code, times.drop_last()),
            code,
            times.last(),
        )
    }
}

/// Settling a queue adds to each link's counter the number of clicks queued
/// for its code, as long as the counter can hold the sum, and never lowers
/// a counter. It neither adds nor removes a link, and changes nothing of a
/// link but its counter and its change mark.
pub proof fn lemma_settled_counts(
    rows: Rows,
    pending: Seq<Seq<char>>,
    now: Timestamp,
    code: Seq<char>,
)
    requires
        store_wf(rows),
    ensures
        store_wf(settled(rows, pending, now)),
        lookup(settled(rows, pending, now), code) is Some <==> lookup(rows, code) is Some,
        lookup(rows, code) is Some ==> same_link(
            lookup(settled(rows, pending, now), code)->0,
            lookup(rows, code)->0,
        ) && lookup(settled(rows, pending, now), code)->0.clicks >= lookup(rows, code)->0.clicks,
        lookup(rows, code) is Some && lookup(rows, code)->0.clicks + occurrences(pending, code)
            <= i64::MAX ==> lookup(settled(rows, pending, now), code)->0.clicks == lookup(
            rows,
            code,
        )->0.clicks + occurrences(pending, code),
        occurrences(pending, code) == 0 ==> lookup(settled(rows, pending, now), code) == lookup(
            rows,
            code,
        ),
    decreases pending.len(),
{
    if pending.len() > 0 {
        let before = settled(rows, pending.drop_last(), now);
        lemma_settled_counts(rows, pending.drop_last(), now, code);
        lemma_with_click(before, pending.last(), now);
    }
}

/// While a queue is settled click by click, no counter is ever lower than
/// it was before: after any number of the queued clicks, every link still
/// stands, with a counter at or above its starting value.
pub proof fn lemma_clicks_never_go_down(
    rows: Rows,
    pending: Seq<Seq<char>>,
    now: Timestamp,
    code: Seq<char>,
    done: int,
)
    requires
        store_wf(rows),
        lookup(rows, code) is Some,
        0 <= done <= pending.len(),
    ensures
        lookup(settled(rows, pending.take(done), now), code) is Some,
        lookup(settled(rows, pending.take(done), now), code)->0.clicks >= lookup(
            rows,
            code,
        )->0.clicks,
{
    lemma_settled_counts(rows, pending.take(done), now, code);
}

/// Successful resolutions of a live code queue exactly one click each.
pub proof fn lemma_resolutions_queue_clicks(
    rows: Rows,
    pending: Seq<Seq<char>>,
    code: Seq<char>,
    times: Seq<Timestamp>,
)
    requires
        forall|i: int| 0 <= i < times.len() ==> live_link(rows, code, #[trigger] times[i]) is Some,
    ensures
        occurrences(pending_after_resolutions(rows, pending, code, times), code) == occurrences(
            pending,
            code,
        ) + times.len(),
    decreases times.len(),
{
    if times.len() > 0 {
        let earlier = times.drop_last();
        assert forall|i: int| 0 <= i < earlier.len() implies live_link(
            rows,
            code,
            #[trigger] earlier[i],
        ) is Some by {
            assert(earlier[i] == times[i]);
        }
        lemma_resolutions_queue_clicks(rows, pending, code, earlier);
        let queue = pending_after_resolutions(rows, pending, code, earlier);
        assert(live_link(rows, code, times.last()) is Some) by {
            assert(times[times.len() - 1] == times.last());
        }
        assert(queue.push(code).drop_last() =~= queue);
    }
}

/// Click monotonicity: after `n` successful resolutions of a live code,
/// starting with no click for it waiting, and once the queue has been
/// settled, the link's counter stands at its starting value plus `n`
/// (provided the counter can hold that number), and that is what a request
/// for the link's details reports while the link is live. The resolutions
/// themselves do not touch the table.
pub proof fn lemma_clicks_add_up(
    rows: Rows,
    pending: Seq<Seq<char>>,
    code: Seq<char>,
    times: Seq<Timestamp>,
    settle_time: Timestamp,
)
    requires
        store_wf(rows),
        occurrences(pending, code) == 0,
        forall|i: int| 0 <= i < times.len() ==> live_link(rows, code, #[trigger] times[i]) is Some,
        lookup(rows, code) is Some,
        lookup(rows, code)->0.clicks + times.len() <= i64::MAX,
    ensures
        lookup(
            settled(rows, pending_after_resolutions(rows, pending, code, times), settle_time),
            code,
        ) is Some,
        lookup(
            settled(rows, pending_after_resolutions(rows, pending, code, times), settle_time),
            code,
        )->0.clicks == lookup(rows, code)->0.clicks + times.len(),
        forall|base_url: Seq<char>, at: Timestamp|
            live_link(rows, code, at) is Some ==> (#[trigger] information(
                settled(rows, pending_after_resolutions(rows, pending, code, times), settle_time),
                base_url,
                code,
                at,
            )) is Ok && information(
                settled(rows, pending_after_resolutions(rows, pending, code, times), settle_time),
                base_url,
                code,
                at,
            )->Ok_0.clicks == lookup(rows, code)->0.clicks + times.len(),
{
    lemma_resolutions_queue_clicks(rows, pending, code, times);
    lemma_settled_counts(
        rows,
        pending_after_resolutions(rows, pending, code, times),
        settle_time,
        code,
    );
}

/// Deletion authorization: a link with an owner can be deleted by that
/// owner and by nobody else, a link without an owner by anybody. A refused
/// deletion leaves the table as it was; a granted one removes the link and
/// no other.
pub proof fn lemma_deletion_authorization(
    rows: Rows,
    code: Seq<char>,
    requester: Option<Seq<char>>,
    now: Timestamp,
)
    requires
        store_wf(rows),
        live_link(rows, code, now) is Some,
    ensures
        ({
            let owner = live_link(rows, code, now)->0.user_id;
            let outcome = deletion(rows, code, requester, now);
            &&& owner is Some && requester != owner ==> fails_with(outcome, forbidden())
                && rows_after_deletion(rows, code, requester, now) == rows
            &&& owner is Some && requester == owner ==> outcome is Ok
            &&& owner is None ==> outcome is Ok
        }),
        deletion(rows, code, requester, now) is Ok ==> lookup(
            rows_after_deletion(rows, code, requester, now),
            code,
        ) is None && forall|other: Seq<char>|
            other != code ==> lookup(rows_after_deletion(rows, code, requester, now), other)
                == lookup(rows, other),
{
    let row = live_link(rows, code, now)->0;
    assert(lookup(rows, code) == Some(row));
    lemma_lookup_is_row(rows, code);
    lemma_without_id(rows, row.id);
    if deletion(rows, code, requester, now) is Ok {
        let after = rows_after_deletion(rows, code, requester, now);
        assert(after == without_id(rows, row.id));
        assert forall|other: Seq<char>| other != code implies lookup(after, other) == lookup(
            rows,
            other,
        ) by {
            if lookup(rows, other) is Some && lookup(rows, other)->0.id == row.id {
                lemma_lookup_is_row(rows, other);
                let a = crate::database::store::code_index(rows, other);
                let b = crate::database::store::code_index(rows, code);
                assert(rows[a].id == rows[b].id);
                assert(a == b);
            }
        }
    }
}

/// No link is stored whose expiry is not strictly after its creation: a
/// link that is created with a lifetime expires strictly after it was
/// created, whatever the lifetime and the clock reading, and a link that is
/// created without a lifetime never expires. A lifetime of less than one
/// hour creates nothing.
pub proof fn lemma_created_link_expires_later(rows: Rows, call: CreateCall)
    ensures
        !lifetime_fits(call.request.expires_in_hours) ==> call_outcome(rows, call) is Err
            && rows_after_call(rows, call) == rows,
        call_outcome(rows, call) is Ok ==> ({
            let row = call_outcome(rows, call)->Ok_0;
            &&& row.created_at == call.now
            &&& row.clicks == 0
            &&& call.request.expires_in_hours is None <==> row.expires_at is None
            &&& row.expires_at is Some ==> row.created_at.before(row.expires_at->0)
            &&& well_timed(row)
            &&& !row.expired(call.now)
        }),
{
}

/// A click changes nothing of a link but its counter, which never goes
/// down, and its change mark: code, target, owner and expiry stay what they
/// were when the link was created.
pub proof fn lemma_click_keeps_the_link(rows: Rows, code: Seq<char>, now: Timestamp)
    requires
        store_wf(rows),
        lookup(rows, code) is Some,
    ensures
        ({
            let before = lookup(rows, code)->0;
            let after = lookup(with_click(rows, code, now), code);
            &&& after is Some
            &&& after->0.id == before.id
            &&& after->0.short_code == before.short_code
            &&& after->0.original_url == before.original_url
            &&& after->0.title == before.title
            &&& after->0.user_id == before.user_id
            &&& after->0.expires_at == before.expires_at
            &&& after->0.created_at == before.created_at
            &&& after->0.clicks >= before.clicks
        }),
{
    lemma_with_click(rows, code, now);
}

/// Whatever a creation accepts would also pass the field-by-field check of
/// the request: its target is shaped like a URL and has at most 2048
/// characters, its custom code has 3 to 20 characters of the code alphabet,
/// its title has at most 200 characters, and its lifetime is at least one
/// hour.
pub proof fn lemma_created_requests_are_faultless(rows: Rows, call: CreateCall)
    requires
        call_outcome(rows, call) is Ok,
    ensures
        create_request_faults(call.request).len() == 0,
{
    let request = call.request;
    lemma_utf8_len_bounds(request.url);
    assert(url_faults(request.url) =~= Seq::<FieldErrorView>::empty());
    assert(title_faults(request.title) =~= Seq::<FieldErrorView>::empty());
    assert(lifetime_faults(request.expires_in_hours) =~= Seq::<FieldErrorView>::empty());
    match request.custom_code {
        Some(code) => {
            assert(valid_short_code(code));
            assert(custom_code_faults(request.custom_code) =~= Seq::<FieldErrorView>::empty());
        },
        None => {},
    }
}

} // verus!
