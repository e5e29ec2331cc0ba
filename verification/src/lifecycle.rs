//! The three operations on support cases: opening one, summoning the helpers
//! into one, and closing one. Each takes what the chat platform reported as
//! plain values and answers with what is to be done there.

use vstd::prelude::*;
use crate::case::{Case, CaseError, CaseView};
use crate::clock::{
    clock_millis, cooling_down, in_cooldown, read_timestamp, timestamp_millis, timestamp_text,
    write_timestamp,
};
use crate::names::{
    case_id_of_thread, is_case_thread, is_lower_hex, new_case_id, thread_case_id, thread_name,
    thread_name_of, ThreadKind, AUTO_ARCHIVE_MINUTES, CASE_ID_LENGTH,
};
use crate::notices::Notice;
use crate::roles::{holders, select_holders, Member};
use crate::store::{lookup, CaseStore};

verus! {

/// Whether a message opens a case: it was posted in the intake channel, and
/// not by an automated author.
pub open spec fn opens_case(channel_id: u64, intake_channel_id: u64, author_is_bot: bool) -> bool {
    channel_id == intake_channel_id && !author_is_bot
}

/// Whether a message opens a case.
pub fn is_intake_message(channel_id: u64, intake_channel_id: u64, author_is_bot: bool) -> (yes: bool)
    ensures
        yes == opens_case(channel_id, intake_channel_id, author_is_bot),
{
    channel_id == intake_channel_id && !author_is_bot
}

/// The thread to open for a new case: a public thread on the message that
/// asked for help.
#[derive(Clone, Debug, PartialEq, Eq)]
pub struct ThreadRequest {
    /// The id of the new case.
    pub id: String,
    /// The name of the thread.
    pub name: String,
    /// Minutes without activity after which the thread is archived.
    pub auto_archive_minutes: u16,
}

/// Begins a case: draws its id and says which thread to open for it. The id
/// has six hexadecimal digits, the thread is named by the prefix and the id,
/// and it is archived after a day without activity.
pub fn begin_case() -> (request: ThreadRequest)
    ensures
        request.id@.len() == CASE_ID_LENGTH,
        forall|i: int| 0 <= i < CASE_ID_LENGTH ==> is_lower_hex(#[trigger] request.id@[i]),
        request.name@ == thread_name_of(request.id@),
        request.auto_archive_minutes == AUTO_ARCHIVE_MINUTES,
{
    let id = new_case_id();
    let name = thread_name(id.as_str());
    ThreadRequest { id, name, auto_archive_minutes: AUTO_ARCHIVE_MINUTES }
}

/// The record of a case opened by `author` in `thread_id` at `created_at`.
pub open spec fn new_record(id: Seq<char>, author: u64, thread_id: u64, created_at: Seq<char>)
    -> CaseView {
    CaseView { id, owner_id: author, thread_id, created_at }
}

/// What recording a case answers, on a store whose contents are `records`.
pub open spec fn record_result(
    records: Map<Seq<char>, CaseView>,
    id: Seq<char>,
    author: u64,
    thread_id: u64,
    created_at: Seq<char>,
) -> Result<CaseView, CaseError> {
    if records.contains_key(id) {
        Err(CaseError::DuplicateId)
    } else {
        Ok(new_record(id, author, thread_id, created_at))
    }
}

/// What opening a case at the instant `now` answers.
pub open spec fn create_result(
    records: Map<Seq<char>, CaseView>,
    id: Seq<char>,
    author: u64,
    thread_id: u64,
    now: i64,
) -> Result<CaseView, CaseError> {
    match timestamp_text(now) {
        Some(created_at) => record_result(records, id, author, thread_id, created_at),
        None => Err(CaseError::TimeOutOfRange),
    }
}

/// What the store holds after an attempt to open a case: on success the old
/// records and the new one, on failure the old records.
pub open spec fn records_after(
    records: Map<Seq<char>, CaseView>,
    outcome: Result<CaseView, CaseError>,
) -> Map<Seq<char>, CaseView> {
    match outcome {
        Ok(case) => records.insert(case.id, case),
        Err(_) => records,
    }
}

/// An outcome with the case taken by its value.
pub open spec fn outcome_view(outcome: Result<Case, CaseError>) -> Result<CaseView, CaseError> {
    match outcome {
        Ok(case) => Ok(case@),
        Err(e) => Err(e),
    }
}

/// Whether store and outcome are as opening a case at `now` leaves them.
pub open spec fn created_at_instant(
    before: Map<Seq<char>, CaseView>,
    after: Map<Seq<char>, CaseView>,
    id: Seq<char>,
    author: u64,
    thread_id: u64,
    now: i64,
    outcome: Result<CaseView, CaseError>,
) -> bool {
    outcome == create_result(before, id, author, thread_id, now) && after == records_after(
        before,
        outcome,
    )
}

/// Stores the record of a case that `author` opened in `thread_id` at
/// `created_at`, and hands the record back. An id that is already taken is
/// refused with `DuplicateId`, and the store stays as it was.
pub fn record_case(
    store: &mut CaseStore,
    id: String,
    author: u64,
    thread_id: u64,
    created_at: String,
) -> (outcome: Result<Case, CaseError>)
    requires
        old(store).wf(),
    ensures
        final(store).wf(),
        outcome_view(outcome) == record_result(old(store)@, id@, author, thread_id, created_at@),
        final(store)@ == records_after(old(store)@, outcome_view(outcome)),
{
    let case = Case::new(id, author, thread_id, created_at);
    let kept = case.duplicate();
    match store.put(case) {
        Ok(()) => Ok(kept),
        Err(e) => Err(e),
    }
}

/// Opens a case at the instant `now`: writes the instant as text and stores
/// the record `{id, author, thread_id, text}`. On success the caller posts
/// `Notice::CaseOpened`. Fails with `TimeOutOfRange` where the instant has no
/// date, and with `DuplicateId` where the id is taken; the store then stays
/// as it was.
pub fn create_new(
    store: &mut CaseStore,
    id: String,
    author: u64,
    thread_id: u64,
    now: i64,
) -> (outcome: Result<Case, CaseError>)
    requires
        old(store).wf(),
    ensures
        final(store).wf(),
        created_at_instant(
            old(store)@,
            final(store)@,
            id@,
            author,
            thread_id,
            now,
            outcome_view(outcome),
        ),
{
    match write_timestamp(now) {
        Some(created_at) => record_case(store, id, author, thread_id, created_at),
        None => Err(CaseError::TimeOutOfRange),
    }
}

/// Opens a case at the instant that the clock shows. Store and outcome are
/// those of `create_new` at some instant.
pub fn create_new_now(
    store: &mut CaseStore,
    id: String,
    author: u64,
    thread_id: u64,
) -> (outcome: Result<Case, CaseError>)
    requires
        old(store).wf(),
    ensures
        final(store).wf(),
        exists|now: i64| #[trigger]
            created_at_instant(
                old(store)@,
                final(store)@,
                id@,
                author,
                thread_id,
                now,
                outcome_view(outcome),
            ),
{
    let now = clock_millis();
    create_new(store, id, author, thread_id, now)
}

/// The cooldown gate. `created` is `None` for a case without a record,
/// `Some(None)` for one whose creation time cannot be read, and the creation
/// instant otherwise. A case without a record passes; one still in its
/// cooldown is told so; an unreadable creation time is an error.
pub open spec fn gate(created: Option<Option<i64>>, now: i64) -> Result<Notice, CaseError> {
    match created {
        None => Ok(Notice::HelpersCalled),
        Some(None) => Err(CaseError::UnreadableTimestamp),
        Some(Some(at)) => if cooling_down(at, now) {
            Ok(Notice::CallCooldown)
        } else {
            Ok(Notice::HelpersCalled)
        },
    }
}

/// The cooldown gate, see `gate`.
pub fn cooldown_gate(created: Option<Option<i64>>, now: i64) -> (verdict: Result<Notice, CaseError>)
    ensures
        verdict == gate(created, now),
{
    match created {
        None => Ok(Notice::HelpersCalled),
        Some(None) => Err(CaseError::UnreadableTimestamp),
        Some(Some(at)) => if in_cooldown(at, now) {
            Ok(Notice::CallCooldown)
        } else {
            Ok(Notice::HelpersCalled)
        },
    }
}

/// What is known of the creation time of the case that the thread `name`
/// hosts, in the form that `gate` takes.
pub open spec fn created_of(records: Map<Seq<char>, CaseView>, name: Seq<char>) -> Option<
    Option<i64>,
> {
    match lookup(records, thread_case_id(name)) {
        Ok(case) => Some(timestamp_millis(case.created_at)),
        Err(_) => None,
    }
}

/// What summoning the helpers answers: the notice to post and the users to
/// add to the thread.
pub open spec fn call_result(
    records: Map<Seq<char>, CaseView>,
    kind: ThreadKind,
    name: Seq<char>,
    now: i64,
    members: Seq<Member>,
    helper_role: u64,
) -> Result<(Notice, Seq<u64>), CaseError> {
    if !is_case_thread(kind, name) {
        Ok((Notice::CallOutsideCase, Seq::empty()))
    } else {
        match gate(created_of(records, name), now) {
            Ok(Notice::HelpersCalled) => Ok((Notice::HelpersCalled, holders(members, helper_role))),
            Ok(notice) => Ok((notice, Seq::empty())),
            Err(e) => Err(e),
        }
    }
}

/// The notice to post and the users to add to the thread.
#[derive(Clone, Debug, PartialEq, Eq)]
pub struct CallOutcome {
    pub notice: Notice,
    pub added: Vec<u64>,
}

/// An outcome of `call` with the list taken by its value.
pub open spec fn call_view(outcome: Result<CallOutcome, CaseError>) -> Result<
    (Notice, Seq<u64>),
    CaseError,
> {
    match outcome {
        Ok(done) => Ok((done.notice, done.added@)),
        Err(e) => Err(e),
    }
}

/// Summons the helpers into the case that the thread hosts, at the instant
/// `now`. Outside a case thread the answer is `CallOutsideCase`, whatever the
/// store holds. A case whose record is found and is younger than 30 minutes
/// gets `CallCooldown`. In both cases nobody is added. Otherwise the answer
/// is `HelpersCalled` with the ids of the members who hold `helper_role`, in
/// the members' order. The store is only read.
pub fn call(
    store: &CaseStore,
    kind: ThreadKind,
    name: &str,
    now: i64,
    members: &Vec<Member>,
    helper_role: u64,
) -> (outcome: Result<CallOutcome, CaseError>)
    requires
        store.wf(),
    ensures
        call_view(outcome) == call_result(store@, kind, name@, now, members@, helper_role),
{
    let id = match case_id_of_thread(kind, name) {
        Some(id) => id,
        None => {
            return Ok(CallOutcome { notice: Notice::CallOutsideCase, added: Vec::new() });
        },
    };
    let created = match store.get_by_id(&id) {
        Ok(case) => Some(read_timestamp(case.created_at.as_str())),
        Err(_) => None,
    };
    match cooldown_gate(created, now) {
        Ok(Notice::HelpersCalled) => Ok(
            CallOutcome {
                notice: Notice::HelpersCalled,
                added: select_holders(members, helper_role),
            },
        ),
        Ok(notice) => Ok(CallOutcome { notice, added: Vec::new() }),
        Err(e) => Err(e),
    }
}

/// Summons the helpers at the instant that the clock shows. The outcome is
/// that of `call` at some instant.
pub fn call_now(
    store: &CaseStore,
    kind: ThreadKind,
    name: &str,
    members: &Vec<Member>,
    helper_role: u64,
) -> (outcome: Result<CallOutcome, CaseError>)
    requires
        store.wf(),
    ensures
        exists|now: i64|
            call_view(outcome) == #[trigger] call_result(
                store@,
                kind,
                name@,
                now,
                members@,
                helper_role,
            ),
{
    let now = clock_millis();
    call(store, kind, name, now, members, helper_role)
}

/// What closing a case answers. Outside a case thread: `CloseOutsideCase`.
/// Without a record: `OwnerUnknown`. For the case's owner and for a holder
/// of the helper role: `CaseClosed`. For anyone else: `CloseDenied`.
pub open spec fn close_result(
    records: Map<Seq<char>, CaseView>,
    kind: ThreadKind,
    name: Seq<char>,
    requester: u64,
    requester_is_helper: bool,
) -> Notice {
    if !is_case_thread(kind, name) {
        Notice::CloseOutsideCase
    } else {
        match lookup(records, thread_case_id(name)) {
            Err(_) => Notice::OwnerUnknown,
            Ok(case) => if case.owner_id == requester || requester_is_helper {
                Notice::CaseClosed
            } else {
                Notice::CloseDenied
            },
        }
    }
}

/// Closes the case that the thread hosts, on behalf of `requester`. The
/// answer is the notice to post, see `close_result`. The store is only read:
/// a closed case keeps its record.
pub fn close(
    store: &CaseStore,
    kind: ThreadKind,
    name: &str,
    requester: u64,
    requester_is_helper: bool,
) -> (notice: Notice)
    requires
        store.wf(),
    ensures
        notice == close_result(store@, kind, name@, requester, requester_is_helper),
{
    let id = match case_id_of_thread(kind, name) {
        Some(id) => id,
        None => {
            return Notice::CloseOutsideCase;
        },
    };
    match store.get_by_id(&id) {
        Err(_) => Notice::OwnerUnknown,
        Ok(case) => if case.owner_id == requester || requester_is_helper {
            Notice::CaseClosed
        } else {
            Notice::CloseDenied
        },
    }
}

} // verus!
