use ducktape::layout::{Halving, EMPTY};
use ducktape::model::{Appearance, Ducktape};
use ducktape::names::RailRow;
use ducktape::window::{DesktopWindow, KeyOutcome, KeyPress, PaneMessage, WindowKind};

type Frame = (i32, i32, i32, i32);

fn rail_row(module: &'static str, label: &str, empty: bool) -> RailRow {
    RailRow { module, label: label.into(), note: None, empty }
}

fn rail() -> Vec<RailRow> {
    vec![
        rail_row("chat", "Chat", false),
        rail_row("slot", "Slot", true),
        rail_row("files", "Files", false),
        rail_row("forge", "Forge", false),
    ]
}

fn key(name: &str, command: bool, shift: bool) -> KeyPress {
    KeyPress { name: name.into(), command, shift, control: false, alt: false }
}

fn modules(window: &DesktopWindow<Frame>) -> Vec<&'static str> {
    window.layout.panes.iter().map(|pane| pane.module).collect()
}

#[test]
fn an_untouched_desk_opens_its_seed_once_and_every_window_has_a_frame() {
    let mut window: DesktopWindow<Frame> = DesktopWindow::new(WindowKind::Console);
    let mounting = window.initialize_panes(Some("chat"), 1);
    assert_eq!(modules(&window), ["chat"]);
    assert!(window.initialized);
    assert_eq!(mounting.added, vec![(1, "chat")]);
    assert!(mounting.hidden.is_empty());
    assert_eq!(window.focused_view(), Some(1));
    // touched: a seed no longer opens anything
    let out = window.pane_message(PaneMessage::Close(0), 2, false);
    assert_eq!(out.settled.mounting.hidden, vec![(1, "chat")]);
    let mounting = window.initialize_panes(Some("files"), 3);
    assert!(modules(&window).is_empty(), "a closed desk reopened");
    assert!(mounting.hidden.is_empty() && mounting.added.is_empty());
    assert!(window.mounted.is_empty());
    assert_eq!(window.focused_view(), None);
}

#[test]
fn a_popped_out_window_opens_its_own_program() {
    let mut window: DesktopWindow<Frame> = DesktopWindow::new(WindowKind::View { module: "files" });
    let _ = window.initialize_panes(Some("chat"), 7);
    assert_eq!(modules(&window), ["files"]);
}

#[test]
fn settling_mounts_a_view_per_shown_pane_and_names_the_one_in_front() {
    let mut window: DesktopWindow<Frame> = DesktopWindow::new(WindowKind::Console);
    let settled = window.open_view("chat", 1);
    assert_eq!(settled.shown, Some("chat"));
    assert_eq!(settled.mounting.added, vec![(1, "chat")]);
    let settled = window.open_view("files", 2);
    assert_eq!(modules(&window), ["chat", "files"]);
    assert_eq!(settled.shown, Some("files"));
    assert_eq!(settled.focus, vec![(1, false), (2, true)]);
    // an empty half has no view to mount
    let done = window.desk_key(&key("d", true, false), false, &rail(), 3);
    match done {
        KeyOutcome::Settled { halved: Some((below, Halving::Split(None))), settled } => {
            assert!(!below);
            assert!(settled.mounting.added.is_empty());
            assert_eq!(settled.shown, None);
        }
        _ => panic!("⌘D halves the window"),
    }
    assert_eq!(modules(&window), ["chat", "files", EMPTY]);
    assert_eq!(window.mounted, vec![(1, "chat"), (2, "files")]);
}

#[test]
fn the_desk_keys_cycle_focus_and_halve() {
    let mut window: DesktopWindow<Frame> = DesktopWindow::new(WindowKind::Console);
    let _ = window.open_view("chat", 1);
    let _ = window.open_view("files", 2);
    let _ = window.open_view("forge", 3);
    assert_eq!(window.layout.focused, 2);
    assert!(matches!(window.desk_key(&key("1", true, false), false, &rail(), 4), KeyOutcome::Settled { .. }));
    assert_eq!(window.layout.focused, 0, "⌘1 focuses the first");
    assert!(matches!(window.desk_key(&key("`", true, false), false, &rail(), 5), KeyOutcome::Settled { .. }));
    assert_ne!(window.layout.focused, 0);
    let tab = KeyPress { name: "Tab".into(), command: false, shift: true, control: true, alt: false };
    assert!(matches!(window.desk_key(&tab, false, &rail(), 6), KeyOutcome::Settled { .. }));
    assert_eq!(window.layout.focused, 0, "⇧ goes back");
    assert!(matches!(window.desk_key(&key("x", true, false), false, &rail(), 7), KeyOutcome::NotOurs));
    assert!(matches!(window.desk_key(&key("D", true, true), false, &rail(), 8), KeyOutcome::Settled { halved: Some((true, _)), .. }));
    assert_eq!(window.layout.panes.len(), 4);
}

#[test]
fn an_empty_window_picks_and_opens_from_its_list() {
    let mut window: DesktopWindow<Frame> = DesktopWindow::new(WindowKind::Console);
    let _ = window.desk_key(&key("d", true, false), false, &rail(), 1);
    assert_eq!(modules(&window), [EMPTY]);
    // three programs with a view: ↓ past the end stays on the last row
    for _ in 0..5 {
        assert!(matches!(window.desk_key(&key("Down", false, false), false, &rail(), 2), KeyOutcome::Redraw));
    }
    assert_eq!(window.layout.pick, 2);
    assert!(matches!(window.desk_key(&key("up", false, false), false, &rail(), 3), KeyOutcome::Redraw));
    assert_eq!(window.layout.pick, 1);
    // a view's editor keeps its keys
    assert!(matches!(window.desk_key(&key("enter", false, false), true, &rail(), 4), KeyOutcome::NotOurs));
    // Enter opens the picked row: the second with a view is files
    let done = window.desk_key(&key("enter", false, false), false, &rail(), 5);
    assert!(matches!(done, KeyOutcome::Settled { halved: None, settled } if settled.shown == Some("files")));
    assert_eq!(modules(&window), ["files"]);
    assert!(matches!(window.desk_key(&key("q", false, false), false, &rail(), 6), KeyOutcome::NotOurs));
}

#[test]
fn a_digit_in_an_empty_window_opens_the_nth_program() {
    let mut window: DesktopWindow<Frame> = DesktopWindow::new(WindowKind::Console);
    let _ = window.desk_key(&key("d", true, false), false, &rail(), 1);
    assert!(matches!(window.desk_key(&key("9", false, false), false, &rail(), 2), KeyOutcome::Redraw));
    assert_eq!(modules(&window), [EMPTY]);
    let _ = window.desk_key(&key("3", false, false), false, &rail(), 3);
    assert_eq!(modules(&window), ["forge"]);
}

#[test]
fn pop_out_and_back_in_keep_the_pane() {
    let mut console: DesktopWindow<Frame> = DesktopWindow::new(WindowKind::Console);
    let _ = console.open_view("chat", 1);
    let _ = console.pane_message(PaneMessage::Split("files"), 2, false);
    let files = console.layout.panes[1].instance;
    let out = console.pane_message(PaneMessage::PopOut(1), 3, false);
    assert_eq!(modules(&console), ["chat"]);
    let (pane, view) = out.popped.expect("a window of its own");
    assert_eq!((pane.instance, view), (files, (files, "files")));
    assert!(!out.close_window);
    let mut own: DesktopWindow<Frame> = DesktopWindow::new(WindowKind::View { module: "files" });
    let _ = own.take_in(pane, view);
    assert_eq!(own.layout.panes[0].instance, files);
    assert_eq!(own.mounted, vec![(files, "files")]);
    // back in: the pop-out closes, the console takes the pane and its view
    let out = own.pane_message(PaneMessage::PopIn, 4, true);
    assert!(out.close_window);
    assert!(own.layout.panes.is_empty() && own.mounted.is_empty());
    let (pane, view) = out.popped.unwrap();
    let _ = console.take_in(pane, view);
    assert_eq!(console.layout.panes[1].instance, files);
    assert!(console.mounted.contains(&(files, "files")));
    // an empty window has no view to carry out
    let _ = console.pane_message(PaneMessage::Split(EMPTY), 5, false);
    let focused = console.layout.focused;
    let out = console.pane_message(PaneMessage::PopOut(focused), 6, false);
    assert!(out.popped.is_none());
    assert_eq!(console.layout.panes.len(), 3);
}

#[test]
fn closing_the_pane_of_a_popped_out_window_closes_it() {
    let mut own: DesktopWindow<Frame> = DesktopWindow::new(WindowKind::View { module: "chat" });
    let _ = own.initialize_panes(None, 1);
    let out = own.pane_message(PaneMessage::Close(0), 2, false);
    assert!(out.close_window);
    assert_eq!(out.settled.mounting.hidden, vec![(1, "chat")]);
    let mut console: DesktopWindow<Frame> = DesktopWindow::new(WindowKind::Console);
    let _ = console.open_view("chat", 3);
    let out = console.pane_message(PaneMessage::Close(0), 4, false);
    assert!(!out.close_window);
}

#[test]
fn the_caption_names_the_network_and_the_host() {
    assert_eq!(
        DesktopWindow::<Frame>::where_("testkit", "http://127.0.0.1:8844"),
        "testkit · 127.0.0.1:8844"
    );
    assert_eq!(DesktopWindow::<Frame>::where_("testkit", "https://node.example/v1"), "testkit · node.example");
    assert_eq!(DesktopWindow::<Frame>::where_("testkit", "10.0.0.5:8844"), "testkit · 10.0.0.5:8844");
}

#[test]
fn the_keymap_hears_where_the_window_is() {
    let mut console: DesktopWindow<Frame> = DesktopWindow::new(WindowKind::Console);
    assert_eq!(console.key_context(false, false), ["Ducktape", "console"]);
    let _ = console.desk_key(&key("d", true, false), false, &rail(), 1);
    assert_eq!(console.key_context(true, false), ["Ducktape", "console", "on_desk", "desk", "empty"]);
    assert_eq!(console.key_context(true, true), ["Ducktape", "console", "on_desk", "overlay"], "an overlay keeps its keys");
    let _ = console.open_view("chat", 2);
    assert_eq!(console.key_context(true, false), ["Ducktape", "console", "on_desk", "desk"]);
    let own: DesktopWindow<Frame> = DesktopWindow::new(WindowKind::View { module: "chat" });
    assert_eq!(own.key_context(true, true), ["Ducktape"]);
}

#[test]
fn pane_messages_open_halve_cycle_and_pick() {
    let mut window: DesktopWindow<Frame> = DesktopWindow::new(WindowKind::Console);
    let out = window.pane_message(PaneMessage::Open("chat"), 1, false);
    assert_eq!(out.settled.shown, Some("chat"));
    let out = window.pane_message(PaneMessage::Halve { below: true }, 2, false);
    assert!(matches!(out.halved, Some((true, Halving::Split(None)))));
    assert_eq!(modules(&window), ["chat", EMPTY]);
    let _ = window.pane_message(PaneMessage::Cycle { forward: true }, 3, false);
    assert_eq!(window.layout.focused, 0);
    let _ = window.pane_message(PaneMessage::Focus(1), 4, false);
    for _ in 0..4 {
        let _ = window.pane_message(PaneMessage::Pick { down: true, rows: 3 }, 5, false);
    }
    assert_eq!(window.layout.pick, 2);
    let _ = window.pane_message(PaneMessage::Pick { down: false, rows: 3 }, 6, false);
    assert_eq!(window.layout.pick, 1);
    let out = window.pane_message(PaneMessage::Open("files"), 7, false);
    assert_eq!(modules(&window), ["chat", "files"], "an empty focused window takes it");
    assert!(out.halved.is_none());
}

/// A desk with `chat` open, as the console first draws it.
fn desk() -> DesktopWindow<Frame> {
    let mut window: DesktopWindow<Frame> = DesktopWindow::new(WindowKind::Console);
    let _ = window.initialize_panes(Some("chat"), 1);
    window
}

fn booted() -> Ducktape {
    Ducktape::boot(Vec::new(), Appearance::System, true, "http://d", None).0
}

#[test]
fn the_bar_fills_focuses_opens_or_replaces() {
    let mut state = booted();
    let mut window = desk();
    let _ = state.pane(&mut window, PaneMessage::Open("files"), 2, false);
    assert_eq!(modules(&window), ["chat", "files"]);
    assert_eq!(state.active, Some("files"));
    let _ = state.pane(&mut window, PaneMessage::Open("chat"), 3, false);
    assert_eq!(window.layout.focused, 0, "focused where it was");
    assert_eq!(state.active, Some("chat"));
    let _ = state.pane(&mut window, PaneMessage::Select("calendar"), 4, false);
    assert_eq!(modules(&window), ["calendar", "files"]);
    let _ = state.pane(&mut window, PaneMessage::Halve { below: false }, 5, false);
    assert_eq!(modules(&window), ["calendar", EMPTY, "files"]);
    let _ = state.pane(&mut window, PaneMessage::Open("chat"), 6, false);
    assert_eq!(modules(&window), ["calendar", "chat", "files"]);
}

#[test]
fn the_desk_keys_move_the_model() {
    let mut state = booted();
    let mut window = desk();
    let _ = state.pane(&mut window, PaneMessage::Halve { below: false }, 2, false);
    let _ = state.pane(&mut window, PaneMessage::Halve { below: true }, 3, false);
    assert_eq!(window.layout.panes.len(), 3);
    let _ = state.pane(&mut window, PaneMessage::Focus(0), 4, false);
    assert_eq!((window.layout.focused, state.active), (0, Some("chat")));
    let _ = state.pane(&mut window, PaneMessage::Cycle { forward: true }, 5, false);
    assert_ne!(window.layout.focused, 0);
    let _ = state.pane(&mut window, PaneMessage::Close(2), 6, false);
    let _ = state.pane(&mut window, PaneMessage::Close(1), 7, false);
    assert_eq!(modules(&window), ["chat"]);
    // an empty window's list: down past the end stays on the last row
    let _ = state.pane(&mut window, PaneMessage::Halve { below: false }, 8, false);
    for _ in 0..5 {
        let _ = state.pane(&mut window, PaneMessage::Pick { down: true, rows: 3 }, 9, false);
    }
    assert_eq!(window.layout.pick, 2);
    let _ = state.pane(&mut window, PaneMessage::Pick { down: false, rows: 3 }, 10, false);
    assert_eq!(window.layout.pick, 1);
}

#[test]
fn the_window_in_front_is_the_active_program_and_its_badge_is_read() {
    let mut state = booted();
    state.badges.push(("files", 3));
    let mut window = desk();
    let out = state.pane(&mut window, PaneMessage::Split("files"), 2, false);
    assert_eq!(out.settled.shown, Some("files"));
    assert_eq!(state.active, Some("files"));
    assert_eq!(state.badge("files"), None);
    // an empty half in front moves no program to the front
    let _ = state.pane(&mut window, PaneMessage::Halve { below: false }, 3, false);
    assert_eq!(state.active, Some("files"));
    // a pick in the empty window's list leaves the app alone
    let before = state.active;
    let _ = state.pane(&mut window, PaneMessage::Pick { down: true, rows: 2 }, 4, false);
    assert_eq!(state.active, before);
    let _ = state.pane(&mut window, PaneMessage::Focus(0), 5, false);
    assert_eq!(state.active, Some("chat"));
}

#[test]
fn a_closed_pane_is_handed_back_for_its_frame() {
    let mut state = booted();
    let mut window = desk();
    let _ = state.pane(&mut window, PaneMessage::Split("files"), 2, false);
    let files = window.layout.panes[1].instance;
    let out = state.pane(&mut window, PaneMessage::Close(1), 3, false);
    let gone = out.gone.expect("the closed pane");
    assert_eq!((gone.module, gone.instance), ("files", files));
    assert!(!out.close_window);
    assert_eq!(state.active, Some("chat"));
    let out = state.pane(&mut window, PaneMessage::Focus(0), 4, false);
    assert!(out.gone.is_none());
}

#[test]
fn a_desk_key_in_a_window_makes_its_front_program_active() {
    let mut state = booted();
    let mut window = desk();
    let _ = state.pane(&mut window, PaneMessage::Split("files"), 2, false);
    assert_eq!(state.active, Some("files"));
    let out = state.window_key(&mut window, &key("1", true, false), false, &rail(), 3);
    assert!(matches!(out, KeyOutcome::Settled { .. }));
    assert_eq!(state.active, Some("chat"));
    // a key that is not the desk's leaves the app as it was
    let out = state.window_key(&mut window, &key("x", false, false), false, &rail(), 4);
    assert!(matches!(out, KeyOutcome::NotOurs));
    assert_eq!(state.active, Some("chat"));
}
