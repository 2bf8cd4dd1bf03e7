use ducktape::model::{Appearance, Ducktape, Effect, Overlay, Popover, Stage, Unlock};
use ducktape::update::Message;
use ducktape::window::{DesktopWindow, PaneMessage, WindowKind};

fn booted() -> Ducktape {
    Ducktape::boot(Vec::new(), Appearance::System, true, "http://127.0.0.1:8844", None).0
}

#[test]
fn toggling_a_menu_twice_restores_what_was_open() {
    let mut state = booted();
    let _ = state.update(Message::TogglePopover(Popover::Account));
    assert_eq!(state.overlay, Some(Overlay::Menu(Popover::Account)));
    let _ = state.update(Message::TogglePopover(Popover::Account));
    assert_eq!(state.overlay, None);
    // over another overlay the first toggle replaces it
    let _ = state.update(Message::OpenSettings);
    let _ = state.update(Message::TogglePopover(Popover::Node));
    let _ = state.update(Message::TogglePopover(Popover::Node));
    assert_eq!(state.overlay, None);
}

#[test]
fn closing_what_is_not_open_keeps_what_is() {
    let mut state = booted();
    let _ = state.update(Message::OpenSettings);
    let _ = state.update(Message::CloseOverlay(Overlay::Spotlight));
    assert_eq!(state.overlay, Some(Overlay::Settings));
    let _ = state.update(Message::CloseOverlay(Overlay::Menu(Popover::Node)));
    assert_eq!(state.overlay, Some(Overlay::Settings));
    let _ = state.update(Message::CloseOverlay(Overlay::Settings));
    assert_eq!(state.overlay, None);
}

#[test]
fn a_lock_holds_until_unlock_lifts_it() {
    let mut state = booted();
    state.stage = Stage::Unlock(Unlock::new());
    state.keyring = "testkit".into();
    let _ = state.update(Message::Unlocked("ab".into()));
    let _ = state.update(Message::Lock);
    // a sign-in flow asking for the key again opens nothing while locked
    let effects = state.open_device_key();
    assert!(effects.is_empty() && !state.sign_in.seating);
    let effects = state.update(Message::UnlockSubmit);
    assert!(!state.sign_in.locked);
    assert!(matches!(&effects[..], [Effect::OpenDeviceKey { keyring, legacy: false }] if keyring == "testkit"));
}

#[test]
fn a_windows_views_are_its_panes_views_and_settling_again_changes_nothing() {
    let mut window: DesktopWindow<(i32, i32)> = DesktopWindow::new(WindowKind::Console);
    let _ = window.open_view("chat", 1);
    let _ = window.pane_message(PaneMessage::Split("files"), 2, false);
    let _ = window.pane_message(PaneMessage::Split(""), 3, false);
    let _ = window.pane_message(PaneMessage::Select("forge"), 4, false);
    for pane in &window.layout.panes {
        assert_eq!(
            window.mounted.iter().any(|(instance, _)| *instance == pane.instance),
            !pane.module.is_empty()
        );
    }
    assert_eq!(window.mounted.len(), 3);
    let before = window.mounted.clone();
    let again = window.sync_panes();
    assert!(again.hidden.is_empty() && again.added.is_empty());
    assert_eq!(window.mounted, before);
}

#[test]
fn the_notification_centre_and_its_policy_are_handed_on() {
    let mut state = booted();
    assert!(matches!(state.update(Message::NotifyMarkAllRead).as_slice(), [Effect::MarkAllRead]));
    assert!(matches!(state.update(Message::NotifyClearRead).as_slice(), [Effect::ClearRead]));
    assert!(matches!(state.update(Message::NotifyNotNow("chat")).as_slice(), [Effect::NotNow("chat")]));
    assert!(matches!(state.update(Message::SetNotifyBanners(false)).as_slice(), [Effect::SaveBanners(false)]));
    assert!(matches!(state.update(Message::SetNotifyInFront(true)).as_slice(), [Effect::SaveInFront(true)]));
    assert!(matches!(state.update(Message::SetNotifyBurst(3)).as_slice(), [Effect::SaveBurst(3)]));
    let _ = state.update(Message::NotifySettings);
    assert_eq!(state.overlay, Some(Overlay::Settings));
    assert_eq!(state.settings_page, ducktape::model::SettingsPage::Notifications);
}
