use ducktape::names::{empty_panes_message, initials, RailRow};

fn row(empty: bool) -> RailRow {
    RailRow {
        module: "chat",
        label: "Chat".into(),
        note: None,
        empty,
    }
}

#[test]
fn names_the_network_only_when_the_rail_itself_is_empty() {
    assert_eq!(
        empty_panes_message(&[], "⌘K"),
        "This network runs no program with a view."
    );
    assert_eq!(
        empty_panes_message(&[row(true)], "⌘K"),
        "This network runs no program with a view.",
        "a rail of empty-slot rows still has nothing to open"
    );
    assert!(empty_panes_message(&[row(true), row(false)], "⌘K").starts_with("Press "));
}

#[test]
fn initials_take_the_first_letter_of_two_words() {
    assert_eq!(initials("Ada Lovelace King"), "AL");
    assert_eq!(initials("ada"), "A");
    assert_eq!(initials("  "), "?");
    assert_eq!(initials("émile zola"), "ÉZ");
}

#[test]
fn a_name_without_words_has_a_question_mark_for_initials() {
    assert_eq!(initials(""), "?");
    assert_eq!(initials("\t\n"), "?");
    assert_eq!(initials("x"), "X");
}
