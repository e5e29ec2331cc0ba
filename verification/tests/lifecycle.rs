use support_cases::case::{Case, CaseError};
use support_cases::clock::{in_cooldown, COOLDOWN_MILLIS};
use support_cases::lifecycle::{
    begin_case, call, call_now, close, cooldown_gate, create_new, create_new_now, is_intake_message,
    record_case, CallOutcome,
};
use support_cases::names::ThreadKind;
use support_cases::notices::Notice;
use support_cases::roles::Member;
use support_cases::store::CaseStore;

const T0: i64 = 1_640_995_200_000;
const MINUTE: i64 = 60_000;
const U1: u64 = 1001;
const U2: u64 = 1002;
const TH1: u64 = 5001;
const HELPER: u64 = 77;

fn community() -> Vec<Member> {
    vec![
        Member { user_id: 1, roles: vec![3, HELPER] },
        Member { user_id: 2, roles: vec![] },
        Member { user_id: 3, roles: vec![HELPER] },
        Member { user_id: U2, roles: vec![4] },
    ]
}

fn opened() -> CaseStore {
    let mut store = CaseStore::new();
    let made = create_new(&mut store, "abc123".to_string(), U1, TH1, T0);
    assert!(made.is_ok());
    store
}

#[test]
fn scenario_open_call_close() {
    let mut store = CaseStore::new();
    let case = create_new(&mut store, "abc123".to_string(), U1, TH1, T0).unwrap();
    assert_eq!(
        case,
        Case {
            id: "abc123".to_string(),
            owner_id: U1,
            thread_id: TH1,
            created_at: "2022-01-01T00:00:00.000Z".to_string(),
        }
    );
    assert_eq!(store.get_by_id(&"abc123".to_string()), Ok(case));

    let early = call(&store, ThreadKind::PublicThread, "case-abc123", T0 + 10 * MINUTE, &community(), HELPER);
    assert_eq!(early, Ok(CallOutcome { notice: Notice::CallCooldown, added: vec![] }));

    let late = call(&store, ThreadKind::PublicThread, "case-abc123", T0 + 31 * MINUTE, &community(), HELPER);
    assert_eq!(late, Ok(CallOutcome { notice: Notice::HelpersCalled, added: vec![1, 3] }));

    assert_eq!(close(&store, ThreadKind::PublicThread, "case-abc123", U2, false), Notice::CloseDenied);
    assert_eq!(close(&store, ThreadKind::PublicThread, "case-abc123", U1, false), Notice::CaseClosed);
}

#[test]
fn create_writes_millisecond_utc_text() {
    let mut store = CaseStore::new();
    let case = create_new(&mut store, "0a1b2c".to_string(), 9, 8, 947_638_923_004).unwrap();
    assert_eq!(case.created_at, "2000-01-12T01:02:03.004Z");
    assert_eq!(case.owner_id, 9);
    assert_eq!(case.thread_id, 8);
    assert_eq!(case.id, "0a1b2c");
}

#[test]
fn create_refuses_a_taken_id() {
    let mut store = opened();
    let again = create_new(&mut store, "abc123".to_string(), U2, 6000, T0 + 5);
    assert_eq!(again, Err(CaseError::DuplicateId));
    let kept = store.get_by_id(&"abc123".to_string()).unwrap();
    assert_eq!(kept.owner_id, U1);
    assert_eq!(kept.thread_id, TH1);
    assert_eq!(kept.created_at, "2022-01-01T00:00:00.000Z");
}

#[test]
fn create_refuses_an_instant_without_a_date() {
    let mut store = CaseStore::new();
    let made = create_new(&mut store, "abc123".to_string(), U1, TH1, i64::MAX);
    assert_eq!(made, Err(CaseError::TimeOutOfRange));
    assert!(!store.contains(&"abc123".to_string()));
}

#[test]
fn create_now_stores_a_readable_time() {
    let mut store = CaseStore::new();
    let case = create_new_now(&mut store, "abc123".to_string(), U1, TH1).unwrap();
    assert_eq!(case.owner_id, U1);
    assert_eq!(case.thread_id, TH1);
    assert_eq!(case.created_at.len(), 24);
    assert!(case.created_at.ends_with('Z'));
    let at_once = call_now(&store, ThreadKind::PublicThread, "case-abc123", &community(), HELPER);
    assert_eq!(at_once, Ok(CallOutcome { notice: Notice::CallCooldown, added: vec![] }));
}

#[test]
fn call_now_summons_into_an_old_case() {
    let store = opened();
    let done = call_now(&store, ThreadKind::PublicThread, "case-abc123", &community(), HELPER);
    assert_eq!(done, Ok(CallOutcome { notice: Notice::HelpersCalled, added: vec![1, 3] }));
}

#[test]
fn cooldown_ends_at_exactly_thirty_minutes() {
    let store = opened();
    let just_before = call(&store, ThreadKind::PublicThread, "case-abc123", T0 + 30 * MINUTE - 1, &community(), HELPER);
    assert_eq!(just_before.unwrap().notice, Notice::CallCooldown);
    let at = call(&store, ThreadKind::PublicThread, "case-abc123", T0 + 30 * MINUTE, &community(), HELPER);
    assert_eq!(at, Ok(CallOutcome { notice: Notice::HelpersCalled, added: vec![1, 3] }));
}

#[test]
fn call_before_creation_time_is_in_cooldown() {
    let store = opened();
    let before = call(&store, ThreadKind::PublicThread, "case-abc123", T0 - 5 * MINUTE, &community(), HELPER);
    assert_eq!(before, Ok(CallOutcome { notice: Notice::CallCooldown, added: vec![] }));
}

#[test]
fn call_twice_gives_the_same_answer() {
    let store = opened();
    let first = call(&store, ThreadKind::PublicThread, "case-abc123", T0 + 40 * MINUTE, &community(), HELPER);
    let second = call(&store, ThreadKind::PublicThread, "case-abc123", T0 + 41 * MINUTE, &community(), HELPER);
    assert!(first.is_ok());
    assert_eq!(first, second);
}

#[test]
fn call_without_a_record_skips_the_cooldown() {
    let store = opened();
    let done = call(&store, ThreadKind::PublicThread, "case-ffffff", T0, &community(), HELPER);
    assert_eq!(done, Ok(CallOutcome { notice: Notice::HelpersCalled, added: vec![1, 3] }));
}

#[test]
fn call_outside_a_case_thread_is_turned_away() {
    let store = opened();
    let members = community();
    let late = T0 + 60 * MINUTE;
    for (kind, name) in [
        (ThreadKind::Other, "case-abc123"),
        (ThreadKind::PublicThread, "general"),
        (ThreadKind::PublicThread, "case"),
        (ThreadKind::PublicThread, ""),
        (ThreadKind::PublicThread, "Case-abc123"),
        (ThreadKind::PublicThread, " case-abc123"),
    ] {
        assert_eq!(
            call(&store, kind, name, late, &members, HELPER),
            Ok(CallOutcome { notice: Notice::CallOutsideCase, added: vec![] })
        );
        assert_eq!(close(&store, kind, name, U1, true), Notice::CloseOutsideCase);
    }
}

#[test]
fn call_fails_on_an_unreadable_creation_time() {
    let mut store = CaseStore::new();
    let made = record_case(&mut store, "abc123".to_string(), U1, TH1, "yesterday".to_string());
    assert!(made.is_ok());
    let done = call(&store, ThreadKind::PublicThread, "case-abc123", T0, &community(), HELPER);
    assert_eq!(done, Err(CaseError::UnreadableTimestamp));
}

#[test]
fn call_reads_the_stored_text() {
    let mut store = CaseStore::new();
    record_case(&mut store, "abc123".to_string(), U1, TH1, "2022-01-01T01:00:00.000+01:00".to_string()).unwrap();
    record_case(&mut store, "def456".to_string(), U1, TH1, "2022-01-01 00:20:00Z".to_string()).unwrap();
    let first = call(&store, ThreadKind::PublicThread, "case-abc123", T0 + 30 * MINUTE, &community(), HELPER);
    assert_eq!(first.unwrap().notice, Notice::HelpersCalled);
    let second = call(&store, ThreadKind::PublicThread, "case-def456", T0 + 30 * MINUTE, &community(), HELPER);
    assert_eq!(second.unwrap().notice, Notice::CallCooldown);
}

#[test]
fn call_with_no_helpers_adds_nobody() {
    let store = opened();
    let done = call(&store, ThreadKind::PublicThread, "case-abc123", T0 + 31 * MINUTE, &community(), 12345);
    assert_eq!(done, Ok(CallOutcome { notice: Notice::HelpersCalled, added: vec![] }));
}

#[test]
fn close_is_for_owner_and_helpers() {
    let store = opened();
    assert_eq!(close(&store, ThreadKind::PublicThread, "case-abc123", U1, false), Notice::CaseClosed);
    assert_eq!(close(&store, ThreadKind::PublicThread, "case-abc123", U1, true), Notice::CaseClosed);
    assert_eq!(close(&store, ThreadKind::PublicThread, "case-abc123", U2, true), Notice::CaseClosed);
    assert_eq!(close(&store, ThreadKind::PublicThread, "case-abc123", U2, false), Notice::CloseDenied);
    assert!(store.contains(&"abc123".to_string()));
}

#[test]
fn close_without_a_record_is_left_to_staff() {
    let store = opened();
    assert_eq!(close(&store, ThreadKind::PublicThread, "case-zzzzzz", U1, true), Notice::OwnerUnknown);
    assert_eq!(close(&store, ThreadKind::PublicThread, "case-", U1, false), Notice::OwnerUnknown);
}

#[test]
fn gate_cases() {
    assert_eq!(cooldown_gate(None, 0), Ok(Notice::HelpersCalled));
    assert_eq!(cooldown_gate(Some(None), 0), Err(CaseError::UnreadableTimestamp));
    assert_eq!(cooldown_gate(Some(Some(0)), 1_799_999), Ok(Notice::CallCooldown));
    assert_eq!(cooldown_gate(Some(Some(0)), 1_800_000), Ok(Notice::HelpersCalled));
    assert_eq!(cooldown_gate(Some(Some(i64::MAX)), i64::MIN), Ok(Notice::CallCooldown));
    assert_eq!(cooldown_gate(Some(Some(i64::MIN)), i64::MAX), Ok(Notice::HelpersCalled));
}

#[test]
fn cooldown_arithmetic() {
    assert_eq!(COOLDOWN_MILLIS, 30 * 60 * 1000);
    assert!(in_cooldown(100, 100));
    assert!(in_cooldown(100, 100 + COOLDOWN_MILLIS - 1));
    assert!(!in_cooldown(100, 100 + COOLDOWN_MILLIS));
    assert!(in_cooldown(i64::MAX, i64::MIN));
    assert!(!in_cooldown(i64::MIN, i64::MAX));
}

#[test]
fn intake_filter() {
    assert!(is_intake_message(10, 10, false));
    assert!(!is_intake_message(10, 10, true));
    assert!(!is_intake_message(11, 10, false));
    assert!(!is_intake_message(11, 10, true));
}

#[test]
fn begun_case_names_its_thread() {
    let request = begin_case();
    assert_eq!(request.id.len(), 6);
    assert!(request.id.chars().all(|c| matches!(c, '0'..='9' | 'a'..='f')));
    assert_eq!(request.name, format!("case-{}", request.id));
    assert_eq!(request.auto_archive_minutes, 1440);
}
