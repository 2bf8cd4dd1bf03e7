use ducktape::layout::{Halving, Layout, Pane, EMPTY, MAX_PANES};

/// A frame as the desk would hand one out: x, y, width, height.
type Frame = (i32, i32, i32, i32);

/// View numbers, handed out one by one as the shell does.
struct Views(u64);

impl Views {
    fn next(&mut self) -> u64 {
        self.0 += 1;
        self.0
    }
}

fn modules(layout: &Layout<Frame>) -> Vec<&'static str> {
    layout.panes.iter().map(|pane| pane.module).collect()
}

#[test]
fn rail_selection_focuses_existing_or_replaces_only_focused() {
    let mut views = Views(0);
    let mut layout: Layout<Frame> = Layout::new();
    assert!(layout.select("chat", views.next()));
    let chat = layout.panes[0].instance;
    assert!(layout.split("files", views.next()));
    assert!(layout.select("chat", views.next()));
    assert_eq!(layout.focused, 0);
    assert_eq!(layout.panes[0].instance, chat);
    assert!(!layout.select("chat", views.next()));
    layout.panes[0].frame = Some((10, 10, 500, 400));
    let frame = layout.panes[0].frame;
    assert!(layout.select("calendar", views.next()));
    assert_eq!(layout.panes.len(), 2);
    assert_eq!(layout.panes[0].module, "calendar");
    assert_eq!(layout.panes[0].frame, frame, "a replaced view keeps its window");
    assert_ne!(layout.panes[0].instance, chat);
    assert_eq!(layout.panes[1].module, "files");
}

#[test]
fn split_opens_on_top_with_unique_instances_and_limits_count() {
    let mut views = Views(0);
    let mut layout: Layout<Frame> = Layout::new();
    assert!(layout.split("chat", views.next()));
    assert!(layout.split("files", views.next()));
    assert!(layout.focus(0));
    assert!(layout.split("chat", views.next()));
    assert_eq!(layout.focused, 1);
    assert_eq!(layout.panes[1].module, "chat");
    assert_eq!(*layout.stacking().last().unwrap(), 1, "the new window is on top");
    assert_ne!(layout.panes[0].instance, layout.panes[1].instance);
    while layout.split("calendar", views.next()) {}
    assert_eq!(layout.panes.len(), MAX_PANES);
    assert!(!layout.focus(MAX_PANES));
}

#[test]
fn focus_raises_and_closing_focuses_the_window_left_on_top() {
    let mut views = Views(0);
    let mut layout: Layout<Frame> = Layout::new();
    for module in ["chat", "files", "calendar"] {
        layout.split(module, views.next());
    }
    assert!(layout.focus(0));
    assert_eq!(layout.stacking(), vec![1, 2, 0]);
    assert!(!layout.focus(0), "already focused and on top");
    assert!(layout.close(0).is_some());
    // "calendar" (now index 1) was raised after "files"
    assert_eq!(layout.focused, 1);
    assert!(layout.close(1).is_some());
    assert!(layout.close(0).is_some());
    assert!(layout.panes.is_empty());
    assert!(layout.close(0).is_none());
    assert!(!layout.focus(0));
}

#[test]
fn popout_and_popin_transfer_instance_and_replace_at_capacity() {
    let mut views = Views(0);
    let mut source: Layout<Frame> = Layout::new();
    source.split("chat", views.next());
    let first = source.panes[0].instance;
    let pane = source.close(0).unwrap();
    assert!(source.panes.is_empty());
    let mut destination: Layout<Frame> = Layout::new();
    assert!(destination.popin(pane).is_none());
    assert_eq!(destination.panes[0].instance, first);
    while destination.split("files", views.next()) {}
    destination.focus(1);
    let displaced = destination.panes[1].instance;
    let pane = Pane::new("chat", views.next());
    let incoming = pane.instance;
    assert_eq!(destination.popin(pane).unwrap().instance, displaced);
    assert_eq!(destination.panes.len(), MAX_PANES);
    assert_eq!(destination.panes[1].instance, incoming);
    assert!(destination.close(MAX_PANES).is_none());
}

#[test]
fn halving_splits_the_focused_frame_into_an_empty_window() {
    let mut views = Views(0);
    let mut layout: Layout<Frame> = Layout::new();
    assert!(matches!(layout.halve(views.next()), Halving::Opened), "no window: an empty one");
    assert!(layout.panes[0].is_empty());
    layout.panes[0].frame = Some((0, 0, 1400, 860));
    layout.load("chat", views.next());
    assert_eq!(layout.panes[0].module, "chat");
    let whole = layout.panes[0].frame;
    assert!(matches!(layout.halve(views.next()), Halving::Split(frame) if frame == whole));
    assert_eq!(layout.focused, 1);
    assert!(layout.panes[1].is_empty());
    assert!(matches!(layout.halve(views.next()), Halving::Split(None)));
    assert_eq!(layout.panes.len(), 3);
    while layout.split("files", views.next()) {}
    assert!(matches!(layout.halve(views.next()), Halving::Refused), "no room for another");
}

#[test]
fn the_menu_bar_fills_an_empty_window_focuses_an_open_one_else_opens_another() {
    let mut views = Views(0);
    let mut layout: Layout<Frame> = Layout::new();
    layout.split(EMPTY, views.next());
    let empty = layout.panes[0].instance;
    assert!(layout.open("chat", views.next()));
    assert_eq!((layout.panes.len(), layout.panes[0].module), (1, "chat"));
    assert_ne!(layout.panes[0].instance, empty);
    assert!(layout.open("files", views.next()), "a window of its own");
    assert_eq!(layout.panes.len(), 2);
    assert!(layout.open("chat", views.next()));
    assert_eq!((layout.panes.len(), layout.focused), (2, 0));
    // shift: replaces the focused view, as a plain click once did
    assert!(layout.select("calendar", views.next()));
    assert_eq!(layout.panes[0].module, "calendar");
    // a module open twice stays in the focused window
    layout.split("files", views.next());
    assert!(!layout.select("files", views.next()));
    assert_eq!(layout.focused, 1);
}

#[test]
fn cycling_visits_every_window_and_back_returns() {
    let mut views = Views(0);
    let mut layout: Layout<Frame> = Layout::new();
    for module in ["chat", "files", "calendar"] {
        layout.split(module, views.next());
    }
    let mut seen = vec![];
    for _ in 0..3 {
        assert!(layout.cycle(true));
        assert_eq!(*layout.stacking().last().unwrap(), layout.focused);
        seen.push(layout.focused);
    }
    assert_eq!(seen, vec![0, 1, 2]);
    assert!(layout.cycle(false));
    assert_eq!(layout.focused, 1);
    assert!(layout.cycle(true));
    assert_eq!(layout.focused, 2);
    layout.close(layout.focused);
    assert_eq!(layout.panes.len(), 2);
    assert_eq!(layout.focused, 1, "the one beneath takes focus");
    layout.close(0);
    assert!(!layout.cycle(true), "one window has nowhere to go");
}

#[test]
fn cycling_forward_then_back_restores_the_stacking_and_focus() {
    let mut views = Views(0);
    let mut layout: Layout<Frame> = Layout::new();
    for module in ["chat", "files", "calendar", "forge"] {
        layout.split(module, views.next());
    }
    layout.focus(1);
    let before = (layout.stacking(), layout.focused);
    assert!(layout.cycle(true));
    assert!(layout.cycle(false));
    assert_eq!((layout.stacking(), layout.focused), before);
    assert_eq!(modules(&layout), ["chat", "files", "calendar", "forge"]);
}

#[test]
fn a_layout_cleared_shows_nothing_and_is_untouched() {
    let mut views = Views(0);
    let mut layout: Layout<Frame> = Layout::new();
    layout.split("chat", views.next());
    layout.initialized = true;
    layout.clear();
    assert!(layout.panes.is_empty());
    assert!(layout.shown().is_none());
    assert!(!layout.initialized);
    assert!(layout.split("files", views.next()));
    assert_eq!(layout.shown(), Some("files"));
}
