use support_cases::commands::get_category_description;
use support_cases::config::DataPath;
use support_cases::names::{
    case_id_of_thread, hosts_case, new_case_id, short_id, thread_name, ThreadKind,
    CASE_ID_LENGTH, CASE_PREFIX_LENGTH,
};
use support_cases::notices::Notice;
use support_cases::roles::{select_holders, Member};
use support_cases::session::{on_ready, ReadyAction};

#[test]
fn thread_name_has_the_prefix() {
    assert_eq!(thread_name("abc123"), "case-abc123");
    assert_eq!(thread_name(""), "case-");
    assert_eq!(CASE_PREFIX_LENGTH, 5);
}

#[test]
fn id_is_what_follows_the_prefix() {
    assert_eq!(case_id_of_thread(ThreadKind::PublicThread, "case-abc123"), Some("abc123".to_string()));
    assert_eq!(case_id_of_thread(ThreadKind::PublicThread, "case-"), Some(String::new()));
    assert_eq!(case_id_of_thread(ThreadKind::PublicThread, "case-case-x"), Some("case-x".to_string()));
    assert_eq!(case_id_of_thread(ThreadKind::PublicThread, "case-\u{e9}t\u{e9}"), Some("\u{e9}t\u{e9}".to_string()));
    assert_eq!(case_id_of_thread(ThreadKind::PublicThread, "cas\u{e9}-abc"), None);
    assert_eq!(case_id_of_thread(ThreadKind::PublicThread, "case_abc123"), None);
    assert_eq!(case_id_of_thread(ThreadKind::PublicThread, "cas"), None);
    assert_eq!(case_id_of_thread(ThreadKind::Other, "case-abc123"), None);
}

#[test]
fn name_and_id_round_trip() {
    for id in ["abc123", "000000", "x", "", "a-b-c"] {
        let name = thread_name(id);
        assert!(hosts_case(ThreadKind::PublicThread, &name));
        assert!(!hosts_case(ThreadKind::Other, &name));
        assert_eq!(case_id_of_thread(ThreadKind::PublicThread, &name), Some(id.to_string()));
    }
}

#[test]
fn short_id_keeps_six_characters() {
    assert_eq!(short_id("0123456789"), "012345");
    assert_eq!(short_id("abcdef"), "abcdef");
    assert_eq!(short_id("3f2a9c1e-8b0d-4c6f-9a1b-0123456789ab"), "3f2a9c");
}

#[test]
fn new_ids_are_six_hex_digits() {
    for _ in 0..50 {
        let id = new_case_id();
        assert_eq!(id.chars().count(), CASE_ID_LENGTH);
        assert!(id.chars().all(|c| matches!(c, '0'..='9' | 'a'..='f')));
    }
}

#[test]
fn notice_texts_are_exact() {
    assert_eq!(Notice::CaseOpened.text(), "Support case opened.");
    assert_eq!(Notice::CallOutsideCase.text(), "The call command can only be used within support cases.");
    assert_eq!(
        Notice::CallCooldown.text(),
        "You cannot call the helpers until at least 30m after opening your support case! \
         We do this because all of our staff team is volunteers and we want to give them \
         a chance to see and respond to your support case first before pinging them."
    );
    assert_eq!(Notice::HelpersCalled.text(), "The helpers have been called to your support case.");
    assert_eq!(Notice::CloseOutsideCase.text(), "The close command can only be used within support cases.");
    assert_eq!(
        Notice::OwnerUnknown.text(),
        "Unable to get the owner of this support case. As a result, the support case must manually be closed by staff."
    );
    assert_eq!(Notice::CloseDenied.text(), "Only the support case author and staff members can close a support case!");
    assert_eq!(
        Notice::CaseClosed.text(),
        "This support case has been closed and can only be re-opened by a staff member."
    );
}

#[test]
fn holders_come_in_member_order() {
    let members = vec![
        Member { user_id: 30, roles: vec![1, 2] },
        Member { user_id: 10, roles: vec![2] },
        Member { user_id: 20, roles: vec![1] },
        Member { user_id: 40, roles: vec![] },
        Member { user_id: 5, roles: vec![9, 9, 1] },
    ];
    assert_eq!(select_holders(&members, 1), vec![30, 20, 5]);
    assert_eq!(select_holders(&members, 2), vec![30, 10]);
    assert_eq!(select_holders(&members, 3), Vec::<u64>::new());
    assert_eq!(select_holders(&Vec::new(), 1), Vec::<u64>::new());
    assert!(members[0].has_role(2));
    assert!(!members[3].has_role(2));
}

#[test]
fn category_descriptions() {
    assert_eq!(get_category_description("Meta"), "Information about the bot");
    assert_eq!(get_category_description("Support"), "Handles all aspects of support cases");
    assert_eq!(get_category_description("meta"), "???");
    assert_eq!(get_category_description(""), "???");
}

#[test]
fn data_path_is_below_data() {
    assert_eq!(DataPath::load().dynamic, "data/dynamic");
}

#[test]
fn ready_steps() {
    assert_eq!(on_ready(false), ReadyAction::Start);
    assert_eq!(on_ready(true), ReadyAction::Resume);
    assert_eq!(support_cases::names::AUTO_ARCHIVE_MINUTES, 1440);
}
