use ducktape::model::{Appearance, Ducktape, Effect, Overlay, RecentEndpoint};
use ducktape::names::RailRow;
use ducktape::overlay::{Spot, SpotRow};
use ducktape::update::Message;

fn booted() -> Ducktape {
    Ducktape::boot(Vec::new(), Appearance::System, true, "http://127.0.0.1:8844", None).0
}

fn rail() -> Vec<RailRow> {
    vec![
        RailRow { module: "chat", label: "Chat".into(), note: None, empty: false },
        RailRow { module: "slot", label: "Slot".into(), note: None, empty: true },
        RailRow { module: "files", label: "Files".into(), note: None, empty: false },
    ]
}

fn titles(rows: &[SpotRow]) -> Vec<&str> {
    rows.iter().map(|row| row.title.as_str()).collect()
}

fn on_a_node() -> Ducktape {
    let mut state = booted();
    state.connected = true;
    state.connected_rpc = "http://a".into();
    state.network = "testkit".into();
    state.recent_endpoints = vec![
        RecentEndpoint { url: "http://a".into(), network: "testkit".into(), founded: 0, other_chain: false },
        RecentEndpoint { url: "http://b:9000/".into(), network: "".into(), founded: 0, other_chain: false },
    ];
    state
}

#[test]
fn spotlight_offers_programs_networks_then_actions() {
    let mut state = on_a_node();
    let rows = state.spotlight_rows(&rail());
    assert_eq!(
        titles(&rows),
        [
            "Chat",
            "Files",
            "b:9000",
            "Ducktape settings",
            "Light appearance",
            "Dark appearance",
            "Match the system's appearance",
            "Add a network…"
        ]
    );
    assert_eq!(rows[0].group, "Programs");
    assert_eq!(rows[2].meta, "b:9000");
    assert!(matches!(&rows[2].spot, Spot::Switch(url) if url == "http://b:9000/"));
    // a seated key with no account: Create account and Lock
    state.signer_key = "ab".into();
    state.account = Some(None);
    let rows = state.spotlight_rows(&rail());
    assert!(titles(&rows).contains(&"Create account"));
    assert!(titles(&rows).contains(&"Lock"));
}

#[test]
fn spotlight_matches_titles_and_details_ignoring_case() {
    let mut state = on_a_node();
    let _ = state.update(Message::SpotlightTyped("  FIL ".into()));
    assert_eq!(titles(&state.spotlight_rows(&rail())), ["Files"]);
    let _ = state.update(Message::SpotlightTyped("network".into()));
    assert_eq!(titles(&state.spotlight_rows(&rail())), ["Ducktape settings", "Add a network…"]);
    let _ = state.update(Message::SpotlightTyped("zzz".into()));
    assert!(state.spotlight_rows(&rail()).is_empty());
}

#[test]
fn enter_takes_the_picked_rows_action_and_closes_spotlight() {
    let mut state = on_a_node();
    let _ = state.update(Message::OpenSpotlight);
    assert_eq!(state.overlay, Some(Overlay::Spotlight));
    let _ = state.update(Message::SpotlightMove { down: true, rows: 8 });
    let effects = state.update(Message::SpotlightSubmit(rail()));
    assert_eq!(state.overlay, None);
    assert_eq!(state.active, Some("files"));
    assert!(matches!(effects.as_slice(), [Effect::Select("files")]));
    // the picked row past the rows shown does nothing
    let _ = state.update(Message::OpenSpotlight);
    let _ = state.update(Message::SpotlightTyped("zzz".into()));
    let effects = state.update(Message::SpotlightSubmit(rail()));
    assert!(effects.is_empty());
    assert_eq!(state.overlay, Some(Overlay::Spotlight));
}

#[test]
fn picking_another_network_reaches_it() {
    let mut state = on_a_node();
    let effects = state.update(Message::Spot(Spot::Switch("http://b:9000/".into())));
    assert!(state.connecting);
    assert!(matches!(&effects[0], Effect::Reach { origin, generation: 1 } if origin == "http://b:9000/"));
    let effects = state.update(Message::Spot(Spot::Appearance(Appearance::Dark)));
    assert!(state.dark());
    assert!(matches!(effects.as_slice(), [Effect::SaveAppearance(Appearance::Dark)]));
    let effects = state.update(Message::Spot(Spot::OtherNetwork));
    assert!(!state.connected);
    assert!(matches!(effects.as_slice(), [Effect::CancelReach, Effect::LeaveNetwork]));
}

#[test]
fn the_pick_stays_among_the_rows() {
    let mut state = booted();
    for _ in 0..5 {
        let _ = state.update(Message::SpotlightMove { down: true, rows: 3 });
    }
    assert_eq!(state.spotlight_pick, 2);
    let _ = state.update(Message::SpotlightMove { down: false, rows: 3 });
    assert_eq!(state.spotlight_pick, 1);
    let _ = state.update(Message::SpotlightMove { down: true, rows: 0 });
    assert_eq!(state.spotlight_pick, 0);
}

#[test]
fn command_k_toggles_spotlight_and_escape_closes_what_is_open() {
    let mut state = booted();
    assert!(state.escape_key().is_none());
    let message = state.spotlight_key();
    assert!(matches!(message, Message::OpenSpotlight));
    let _ = state.update(message);
    let message = state.spotlight_key();
    assert!(matches!(message, Message::CloseOverlay(Overlay::Spotlight)));
    let _ = state.update(Message::OpenSettings);
    let escape = state.escape_key().unwrap();
    assert!(matches!(escape, Message::CloseOverlay(Overlay::Settings)));
    let _ = state.update(escape);
    assert!(state.overlay.is_none());
}
