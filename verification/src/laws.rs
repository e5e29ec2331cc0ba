//! What holds of the operations on every input, stated over the same
//! functions that the operations' contracts use.

use vstd::prelude::*;
use crate::case::{CaseError, CaseView};
use crate::clock::{cooling_down, timestamp_millis, COOLDOWN_MILLIS};
use crate::lifecycle::{call_result, close_result, create_result, records_after};
use crate::names::{
    has_case_prefix, is_case_thread, lemma_case_prefix_len, thread_case_id, thread_name_of,
    ThreadKind,
};
use crate::notices::Notice;
use crate::roles::{holders, holds_role, lemma_holders_exact, Member};
use crate::store::{lookup, put_answer, records_after_put};

verus! {

/// Opening a case that succeeds adds exactly one record: it is stored under
/// the new id, which was free before, its owner is the author of the message
/// and its thread the new thread, and every other id holds what it held.
pub proof fn law_create_adds_one_record(
    records: Map<Seq<char>, CaseView>,
    id: Seq<char>,
    author: u64,
    thread_id: u64,
    now: i64,
)
    requires
        create_result(records, id, author, thread_id, now) is Ok,
    ensures
        ({
            let outcome = create_result(records, id, author, thread_id, now);
            let case = outcome->Ok_0;
            let after = records_after(records, outcome);
            &&& case.id == id
            &&& case.owner_id == author
            &&& case.thread_id == thread_id
            &&& !records.contains_key(id)
            &&& after.dom() == records.dom().insert(id)
            &&& after[id] == case
            &&& forall|other: Seq<char>|
                records.contains_key(other) ==> #[trigger] after[other] == records[other]
        }),
{
    let outcome = create_result(records, id, author, thread_id, now);
    let after = records_after(records, outcome);
    assert(after.dom() =~= records.dom().insert(id));
}

/// Opening a case that fails leaves the store as it was.
pub proof fn law_failed_create_changes_nothing(
    records: Map<Seq<char>, CaseView>,
    id: Seq<char>,
    author: u64,
    thread_id: u64,
    now: i64,
)
    requires
        create_result(records, id, author, thread_id, now) is Err,
    ensures
        records_after(records, create_result(records, id, author, thread_id, now)) == records,
{
}

/// Before 30 minutes have passed since a case was created, summoning the
/// helpers adds nobody and answers with the cooldown notice.
pub proof fn law_call_within_cooldown(
    records: Map<Seq<char>, CaseView>,
    kind: ThreadKind,
    name: Seq<char>,
    created: i64,
    now: i64,
    members: Seq<Member>,
    helper_role: u64,
)
    requires
        is_case_thread(kind, name),
        records.contains_key(thread_case_id(name)),
        timestamp_millis(records[thread_case_id(name)].created_at) == Some(created),
        now < created + COOLDOWN_MILLIS,
    ensures
        call_result(records, kind, name, now, members, helper_role) == Ok::<
            (Notice, Seq<u64>),
            CaseError,
        >((Notice::CallCooldown, Seq::empty())),
{
}

/// From 30 minutes after a case was created, summoning the helpers adds the
/// members who hold the helper role, and nobody else.
pub proof fn law_call_after_cooldown(
    records: Map<Seq<char>, CaseView>,
    kind: ThreadKind,
    name: Seq<char>,
    created: i64,
    now: i64,
    members: Seq<Member>,
    helper_role: u64,
)
    requires
        is_case_thread(kind, name),
        records.contains_key(thread_case_id(name)),
        timestamp_millis(records[thread_case_id(name)].created_at) == Some(created),
        now >= created + COOLDOWN_MILLIS,
    ensures
        call_result(records, kind, name, now, members, helper_role) == Ok::<
            (Notice, Seq<u64>),
            CaseError,
        >((Notice::HelpersCalled, holders(members, helper_role))),
        forall|user: u64|
            #[trigger] holders(members, helper_role).contains(user) <==> exists|i: int|
                0 <= i < members.len() && (#[trigger] members[i]).user_id == user && holds_role(
                    members[i],
                    helper_role,
                ),
{
    assert forall|user: u64|
        #[trigger] holders(members, helper_role).contains(user) <==> exists|i: int|
            0 <= i < members.len() && (#[trigger] members[i]).user_id == user && holds_role(
                members[i],
                helper_role,
            ) by {
        lemma_holders_exact(members, helper_role, user);
    }
}

/// Once the helpers can be summoned into a case they can be summoned again:
/// at any later instant, with the same members, the answer is the same.
pub proof fn law_call_repeats(
    records: Map<Seq<char>, CaseView>,
    kind: ThreadKind,
    name: Seq<char>,
    first: i64,
    second: i64,
    members: Seq<Member>,
    helper_role: u64,
)
    requires
        first <= second,
        call_result(records, kind, name, first, members, helper_role) matches Ok(done)
            && done.0 == Notice::HelpersCalled,
    ensures
        call_result(records, kind, name, second, members, helper_role) == call_result(
            records,
            kind,
            name,
            first,
            members,
            helper_role,
        ),
{
}

/// A case without a record has no known age: the helpers are summoned
/// whatever the instant.
pub proof fn law_call_without_record(
    records: Map<Seq<char>, CaseView>,
    kind: ThreadKind,
    name: Seq<char>,
    now: i64,
    members: Seq<Member>,
    helper_role: u64,
)
    requires
        is_case_thread(kind, name),
        !records.contains_key(thread_case_id(name)),
    ensures
        call_result(records, kind, name, now, members, helper_role) == Ok::<
            (Notice, Seq<u64>),
            CaseError,
        >((Notice::HelpersCalled, holders(members, helper_role))),
{
}

/// A case is closed only for its stored owner and for holders of the helper
/// role. In a case thread with a record, anyone else is denied.
pub proof fn law_close_authorization(
    records: Map<Seq<char>, CaseView>,
    kind: ThreadKind,
    name: Seq<char>,
    requester: u64,
    requester_is_helper: bool,
)
    ensures
        close_result(records, kind, name, requester, requester_is_helper) == Notice::CaseClosed
            ==> records.contains_key(thread_case_id(name)) && (records[thread_case_id(
            name,
        )].owner_id == requester || requester_is_helper),
        is_case_thread(kind, name) && records.contains_key(thread_case_id(name))
            && records[thread_case_id(name)].owner_id != requester && !requester_is_helper
            ==> close_result(records, kind, name, requester, requester_is_helper)
            == Notice::CloseDenied,
        is_case_thread(kind, name) && records.contains_key(thread_case_id(name)) && (
        records[thread_case_id(name)].owner_id == requester || requester_is_helper)
            ==> close_result(records, kind, name, requester, requester_is_helper)
            == Notice::CaseClosed,
{
}

/// The id read from the name of the thread of case `id` is `id`, and that
/// name begins with the prefix.
pub proof fn law_thread_name_round_trip(id: Seq<char>)
    ensures
        has_case_prefix(thread_name_of(id)),
        thread_case_id(thread_name_of(id)) == id,
{
    lemma_case_prefix_len();
    let name = thread_name_of(id);
    assert(name.subrange(0, 5) =~= crate::names::case_prefix());
    assert(name.subrange(5, name.len() as int) =~= id);
}

/// Outside a case thread both operations answer with their guard notice,
/// whatever the store holds, and nobody is added.
pub proof fn law_guard_ignores_store(
    records: Map<Seq<char>, CaseView>,
    kind: ThreadKind,
    name: Seq<char>,
    now: i64,
    members: Seq<Member>,
    helper_role: u64,
    requester: u64,
    requester_is_helper: bool,
)
    requires
        kind != ThreadKind::PublicThread || !has_case_prefix(name),
    ensures
        call_result(records, kind, name, now, members, helper_role) == Ok::<
            (Notice, Seq<u64>),
            CaseError,
        >((Notice::CallOutsideCase, Seq::empty())),
        close_result(records, kind, name, requester, requester_is_helper)
            == Notice::CloseOutsideCase,
{
}

/// A case that was opened can be closed by the author of the message that
/// opened it, from the thread that was named for it, and by nobody who is
/// neither that author nor a helper.
pub proof fn law_opened_case_closes_for_its_author(
    records: Map<Seq<char>, CaseView>,
    id: Seq<char>,
    author: u64,
    thread_id: u64,
    now: i64,
    stranger: u64,
)
    requires
        create_result(records, id, author, thread_id, now) is Ok,
        stranger != author,
    ensures
        ({
            let after = records_after(
                records,
                create_result(records, id, author, thread_id, now),
            );
            let name = thread_name_of(id);
            &&& close_result(after, ThreadKind::PublicThread, name, author, false)
                == Notice::CaseClosed
            &&& close_result(after, ThreadKind::PublicThread, name, stranger, false)
                == Notice::CloseDenied
            &&& close_result(after, ThreadKind::PublicThread, name, stranger, true)
                == Notice::CaseClosed
        }),
{
    law_thread_name_round_trip(id);
}

/// A record that was put is found again under its id, equal in every field.
pub proof fn law_put_then_get(records: Map<Seq<char>, CaseView>, case: CaseView)
    requires
        put_answer(records, case) is Ok,
    ensures
        lookup(records_after_put(records, case), case.id) == Ok::<CaseView, CaseError>(case),
{
}

/// No put changes or removes a record that was stored before.
pub proof fn law_records_persist(
    records: Map<Seq<char>, CaseView>,
    case: CaseView,
    id: Seq<char>,
)
    requires
        records.contains_key(id),
    ensures
        lookup(records_after_put(records, case), id) == lookup(records, id),
{
}

} // verus!
