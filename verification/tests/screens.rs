use ducktape::names::RailRow;
use ducktape::screens::{connect_below, connect_caption, Below};
use ducktape::screens::{
    account_heading, bell_count, bell_label, block_age_text, contract_text, epoch_progress,
    epoch_text, narrow_tab, network_row_name, node_pulse, not_answering, notification_said,
    notification_source, other_chain_note, quiz_prompt, tab_name, unlock_copy, week_hint,
    word_label,
};
use ducktape::screens::{section_title, sections, title_initial, unread_line};

#[test]
fn the_key_step_says_what_the_key_is_doing() {
    let (label, heading, lead) = unlock_copy("testkit", true, false, false);
    assert_eq!((label.as_str(), heading.as_str()), ("testkit · locked", "Sign in to testkit"));
    assert!(lead.unwrap().starts_with("This device's key still has a password"));
    let (label, heading, lead) = unlock_copy("testkit", false, true, true);
    assert_eq!((label.as_str(), heading.as_str(), lead), ("testkit · locked", "Sign in to testkit", None));
    let (label, heading, _) = unlock_copy("testkit", false, false, true);
    assert_eq!((label.as_str(), heading.as_str()), ("[02 / 04] Key", "The key didn't open"));
    let (_, heading, lead) = unlock_copy("testkit", false, false, false);
    assert_eq!(heading, "Opening this device's key…");
    assert!(lead.unwrap().ends_with("nothing to write down."));
    assert_eq!(
        other_chain_note("testkit"),
        "This is a different network also called testkit. It gets its own key on this device."
    );
}

#[test]
fn the_bar_names_its_tabs_bell_and_node() {
    let row = RailRow { module: "module-registry", label: "module-registry".into(), note: Some("Failed"), empty: false };
    assert_eq!(tab_name(&row), "Module registry · Failed");
    let plain = RailRow { module: "chat", label: "Chat".into(), note: None, empty: false };
    assert_eq!(tab_name(&plain), "Chat");
    assert_eq!(narrow_tab("Chat"), "C");
    assert_eq!(narrow_tab(""), "");
    assert_eq!(bell_label(0), "Notifications");
    assert_eq!(bell_label(3), "Notifications, 3 unread");
    assert_eq!(bell_count(99), "99");
    assert_eq!(bell_count(100), "99+");
    assert_eq!(node_pulse(true, true, 7), (true, "Node: switching".to_string()));
    assert_eq!(node_pulse(false, true, 7), (false, "Node: not answering".to_string()));
    assert_eq!(node_pulse(false, false, 7), (true, "Node: in sync, block 7".to_string()));
    assert_eq!(node_pulse(false, false, -1), (true, "Node: in sync, block -1".to_string()));
}

#[test]
fn the_node_menu_reads_its_numbers() {
    assert_eq!(block_age_text(0), "just now");
    assert_eq!(block_age_text(-3), "just now");
    assert_eq!(block_age_text(2), "2 s ago");
    assert_eq!(epoch_progress(1030, 100), (30, 100));
    assert_eq!(epoch_progress(1030, 0), (0, 0));
    assert_eq!(epoch_text(10, 30, 100), "10 · 30 / 100");
    assert_eq!(contract_text(3), "v3");
}

#[test]
fn the_account_menu_names_the_account_or_says_signed_in() {
    let account = Some(Some((7, "Grace Hopper".to_string())));
    assert_eq!(
        account_heading(&account, "testkit"),
        ("Grace Hopper".to_string(), Some(7), "account 7 · testkit".to_string())
    );
    assert_eq!(account_heading(&Some(None), "testkit"), ("Signed in".to_string(), None, "testkit".to_string()));
    assert_eq!(account_heading(&None, "testkit"), ("Signed in".to_string(), None, "testkit".to_string()));
}

#[test]
fn a_notification_reads_its_source_and_whether_it_was_read() {
    assert_eq!(notification_source("chat", "#design"), "chat · #design");
    assert_eq!(notification_source("chat", ""), "chat");
    assert_eq!(notification_said(false, "Ada mentioned you", "@grace look"), "Unread. Ada mentioned you: @grace look");
    assert_eq!(notification_said(true, "Lin", "@grace look"), "Lin: @grace look");
    assert_eq!(week_hint(false, 0), "Has not asked");
    assert_eq!(week_hint(true, 0), "0 this week");
    assert_eq!(week_hint(false, 4), "4 this week");
}

#[test]
fn the_recovery_check_counts_words_from_one() {
    assert_eq!(quiz_prompt([4, 11, 19]), "Type words 5, 12 and 20 from your paper.");
    assert_eq!(word_label(0), "Word 1");
    assert_eq!(not_answering("testkit"), "testkit isn't answering. What you write stays here.");
    assert_eq!(network_row_name("testkit · 127.0.0.1:1", true), "testkit · 127.0.0.1:1 (current)");
    assert_eq!(network_row_name("testkit", false), "testkit");
}

#[test]
fn the_connect_screen_says_the_refusal_first_then_the_failure_then_the_try() {
    assert!(matches!(connect_below("not an address", "Can't reach", true, "Reaching…"), Below::Alert(said) if said == "not an address"));
    assert!(matches!(connect_below("", "Can't reach", true, "Reaching…"), Below::Alert(said) if said == "Can't reach"));
    assert!(matches!(connect_below("", "", true, "Reaching…"), Below::Status(said) if said == "Reaching…"));
    assert!(matches!(connect_below("", "", false, "Not connected"), Below::Nothing));
    assert_eq!(connect_caption(false), "No network yet.");
    assert_eq!(connect_caption(true), "A node, drawn in characters.");
}

#[test]
fn the_notification_centre_counts_its_unread_rows() {
    assert_eq!(unread_line(0), "0 unread");
    assert_eq!(unread_line(12), "12 unread");
}

#[test]
fn a_notification_badge_is_its_titles_first_letter_in_upper_case() {
    assert_eq!(title_initial("deploy done"), "D");
    assert_eq!(title_initial("émile"), "É");
    assert_eq!(title_initial(""), "");
}

#[test]
fn notification_rows_fall_into_today_and_earlier() {
    // newest first: two rows today, then two from before midnight
    assert_eq!(sections(&[500, 400, 90, 10], 100), vec![(0, true), (2, false)]);
    assert_eq!(sections(&[50, 20], 100), vec![(0, false)]);
    assert_eq!(sections(&[], 100), Vec::<(usize, bool)>::new());
    assert_eq!(sections(&[100], 100), vec![(0, true)]);
    assert_eq!(section_title(true), "Today");
    assert_eq!(section_title(false), "Earlier");
}
