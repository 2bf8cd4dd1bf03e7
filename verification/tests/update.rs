use ducktape::desk::{Intent, Link};
use ducktape::model::{Account, Appearance, Ducktape, Effect, Keyring, NodeStatus, Overlay, Permission, Phrase, Recover, Stage, Unlock};
use ducktape::phrase::{normalize_phrase, quiz_matches, quiz_positions};
use ducktape::update::Message;

const CONTRACT: u64 = 3;

fn booted() -> Ducktape {
    Ducktape::boot(Vec::new(), Appearance::System, true, "http://127.0.0.1:8844", None).0
}

fn send(state: &mut Ducktape, message: Message) -> Vec<Effect> {
    state.update(message)
}

fn status(height: u64) -> NodeStatus {
    NodeStatus {
        network: "testkit".into(),
        time: 0,
        block_time_ms: 0,
        epoch_length: 0,
        height,
        tip: vec![0; 32],
        root: vec![0; 32],
        epoch: 0,
        identity: Vec::new(),
        contract: CONTRACT,
        genesis: vec![0; 32],
    }
}

fn badge(state: &Ducktape, module: &str) -> Option<i64> {
    state.badge(module)
}

fn account_step(state: &Ducktape) -> bool {
    matches!(state.stage, Stage::Account(_))
}

fn password(state: &Ducktape) -> String {
    match &state.stage {
        Stage::Unlock(step) => step.password.clone(),
        _ => String::new(),
    }
}

#[test]
fn normalize_phrase_folds_whitespace_and_case() {
    assert_eq!(normalize_phrase("  Canoe\n Pond\tFOREST  "), "canoe pond forest");
}

fn chain_link(program: &'static str, chain: &str, label: &str, tail: &[&str], listed: bool) -> Link {
    Link::Chain {
        program: program.into(),
        listed,
        module: program,
        chain: chain.into(),
        label: label.into(),
        tail: tail.iter().map(|part| part.to_string()).collect(),
        route_valid: true,
    }
}

#[test]
fn a_link_on_this_chain_hands_its_view_the_route() {
    let mut state = booted();
    state.chain = "testkit#0a1b2c3d".into();
    let effects = send(
        &mut state,
        Message::OpenLink(chain_link("link-test-here", "testkit#0a1b2c3d", "testkit", &["tx", "00ff"], true)),
    );
    assert_eq!(state.active, Some("link-test-here"));
    assert!(state.toast.is_empty(), "the view coming forward says it");
    assert!(matches!(&effects[0], Effect::Route { module: "link-test-here", route } if route == "tx/00ff"));
    // another chain's link opens the seat, routes nothing, and says why
    let effects = send(
        &mut state,
        Message::OpenLink(chain_link("link-test-away", "othernet#0a1b2c3d", "othernet", &["tx", "00ff"], true)),
    );
    assert_eq!(state.active, Some("link-test-away"));
    assert!(!effects.iter().any(|effect| matches!(effect, Effect::Route { .. })));
    assert!(state.toast.contains("othernet"));
    // a view nobody lists opens nothing
    state.toast.clear();
    let _ = send(
        &mut state,
        Message::OpenLink(chain_link("link-test-nowhere", "testkit#0a1b2c3d", "testkit", &["x"], false)),
    );
    assert_eq!(state.active, Some("link-test-away"));
    assert!(state.toast.contains("link-test-nowhere"));
}

#[test]
fn a_view_event_sets_its_badge_and_opens_its_link() {
    let mut state = booted();
    let _ = send(&mut state, Message::ViewEvent("chat", Intent::Badge(3)));
    assert_eq!(badge(&state, "chat"), Some(3));
    let _ = send(&mut state, Message::ViewEvent("chat", Intent::Badge(0)));
    assert!(state.badges.is_empty(), "a zero count clears the badge");
    let _ = send(&mut state, Message::ViewEvent("chat", Intent::Badge(-2)));
    assert!(state.badges.is_empty());
    let _ = send(&mut state, Message::ViewEvent("chat", Intent::Notified));
    assert!(state.badges.is_empty() && state.active.is_none());
    let effects = send(
        &mut state,
        Message::ViewEvent(
            "chat",
            Intent::OpenLink(Link::View { module: "view-event-link", route: Some("room/7".into()) }),
        ),
    );
    assert_eq!(state.active, Some("view-event-link"));
    assert!(
        matches!(effects.last(), Some(Effect::Open("view-event-link"))),
        "a link brings its seat forward"
    );
    assert!(matches!(&effects[0], Effect::Route { module: "view-event-link", route } if route == "room/7"));
}

#[test]
fn two_missed_polls_read_reconnecting_and_one_answer_recovers() {
    let mut state = booted();
    state.connected = true;
    state.status = "Connected · block 7".into();
    let _ = send(&mut state, Message::StatusMissed);
    assert!(!state.reconnecting(), "one miss is a hiccup");
    assert_eq!(state.status, "Connected · block 7");
    let _ = send(&mut state, Message::StatusMissed);
    assert!(state.reconnecting());
    assert_eq!(state.status, "Reconnecting…");
    assert!(state.connected, "the poll keeps running");
    // same height: no block moved, so nothing else is asked for
    state.height = 9;
    let effects = send(&mut state, Message::StatusPushed(status(9)));
    assert!(effects.is_empty());
    assert!(!state.reconnecting());
    assert_eq!(state.status, "Connected · block 9");
}

#[test]
fn the_quiz_takes_the_asked_words_in_any_case() {
    let phrase = (1..=24).map(|n| format!("w{n}")).collect::<Vec<_>>().join(" ");
    let answers = |a: &str, b: &str, c: &str| [a.to_string(), b.to_string(), c.to_string()];
    assert!(quiz_matches(&phrase, [4, 11, 19], &answers("w5", " W12 ", "w20")));
    assert!(!quiz_matches(&phrase, [4, 11, 19], &answers("w5", "w12", "w21")));
    assert!(!quiz_matches(&phrase, [4, 11, 19], &answers("", "", "")));
    let asked = quiz_positions(24);
    assert!(asked[0] < asked[1] && asked[1] < asked[2] && asked[2] < 24);
}

/// The key step, on the console: where a sign-in starts.
fn signing_in() -> Ducktape {
    let mut state = booted();
    state.stage = Stage::Unlock(Unlock::new());
    state
}

#[test]
fn a_new_try_clears_the_last_connect_failure() {
    let mut state = signing_in();
    state.error = "Can't reach http://a.".into();
    let _ = send(&mut state, Message::EndpointTyped("not a url at all".into()));
    assert!(state.error.is_empty());
    state.error = "Can't reach http://a.".into();
    let refusal = "That isn't a node address.".to_string();
    let _ = send(&mut state, Message::ConnectSubmit { origin: None, refusal: refusal.clone() });
    assert!(state.error.is_empty(), "the stale failure hid the refusal");
    assert_eq!(state.endpoint_error, refusal);
}

#[test]
fn a_failed_unlock_keeps_the_typed_password_and_success_wipes_it() {
    let mut state = signing_in();
    state.key_exists = true;
    let _ = send(&mut state, Message::UnlockSubmit);
    assert!(!state.sign_in.unlock_busy, "an empty password is not sent");
    let _ = send(&mut state, Message::PasswordTyped("hunter22".into()));
    let effects = send(&mut state, Message::UnlockSubmit);
    assert!(matches!(&effects[0], Effect::OpenLockedKey { password, .. } if password == "hunter22"));
    assert_eq!(password(&state), "hunter22");
    let _ = send(&mut state, Message::UnlockFailed { error: "wrong".into(), key_exists: true });
    assert_eq!(password(&state), "hunter22", "a retry must send what the field shows");
    let _ = send(&mut state, Message::Unlocked("ab".into()));
    assert!(password(&state).is_empty());
}

#[test]
fn a_lock_stays_locked_until_unlock_and_approving_needs_a_found_request() {
    let mut state = signing_in();
    state.keyring = "testkit".into();
    let _ = send(&mut state, Message::Unlocked("ab".into()));
    let _ = send(&mut state, Message::Lock);
    assert!(state.sign_in.locked && state.signer_key.is_empty());
    assert!(!state.sign_in.seating, "a lock reopened the key on its own");
    let _ = send(&mut state, Message::ApproveOpen);
    let _ = send(&mut state, Message::ApproveConfirm);
    assert!(!state.sign_in.unlock_busy, "approved with nothing found");
}

#[test]
fn switching_node_leaves_no_key_seated() {
    let mut state = signing_in();
    state.signer_key = "ab".into();
    if let Stage::Unlock(step) = &mut state.stage {
        step.password = "hunter22".into();
    }
    state.sign_in.unlock_error = "wrong".into();
    let effects = send(&mut state, Message::Disconnect);
    assert!(state.signer_key.is_empty() && password(&state).is_empty());
    assert!(state.sign_in.unlock_error.is_empty());
    assert!(matches!(state.stage, Stage::Connect));
    assert!(matches!(effects.as_slice(), [Effect::CancelReach, Effect::LeaveNetwork]));
}

fn resolved(state: &mut Ducktape, account: Option<(u64, String)>) {
    let key = state.signer_key.clone();
    let node = state.connected_rpc.clone();
    let _ = send(state, Message::AccountResolved { node, key, account });
}

#[test]
fn a_sign_in_without_an_account_opens_the_account_step_once() {
    for signed_in in [Message::Unlocked("ab".into()), Message::DeviceKey(Ok(Some("ab".into())))] {
        let mut state = signing_in();
        let _ = send(&mut state, signed_in);
        assert!(!account_step(&state), "shown before the node answered");
        resolved(&mut state, None);
        assert!(account_step(&state));
        let _ = send(&mut state, Message::CreateAccountLater);
        resolved(&mut state, None);
        assert!(!account_step(&state), "a later block reopened it");
    }
}

#[test]
fn the_account_step_is_skipped_for_a_key_with_an_account_or_a_passkey() {
    let mut state = signing_in();
    let _ = send(&mut state, Message::Unlocked("ab".into()));
    resolved(&mut state, Some((7, "ada".into())));
    assert!(!account_step(&state));
    let mut state = signing_in();
    let _ = send(&mut state, Message::PasskeyDone("ab".into()));
    resolved(&mut state, None);
    assert!(!account_step(&state), "the passkey made the account");
    // another key's answer neither opens nor disarms it
    let mut state = signing_in();
    let _ = send(&mut state, Message::Unlocked("ab".into()));
    let node = state.connected_rpc.clone();
    let _ = send(&mut state, Message::AccountResolved { node, key: "cd".into(), account: None });
    resolved(&mut state, None);
    assert!(account_step(&state));
}

#[test]
fn the_rail_reopens_the_step_and_a_created_account_closes_it() {
    let mut state = signing_in();
    state.signer_key = "ab".into();
    let _ = send(&mut state, Message::ShowCreateAccount);
    assert!(account_step(&state));
    let _ = send(&mut state, Message::CreateAccountSubmit);
    assert!(!state.sign_in.unlock_busy, "an empty name is not sent");
    assert!(!state.sign_in.unlock_error.is_empty());
    let _ = send(&mut state, Message::AccountCreated(Err("refused".into())));
    assert!(account_step(&state) && state.sign_in.unlock_error.contains("refused"));
    let _ = send(
        &mut state,
        Message::AccountCreated(Err("error sending request for url (http://127.0.0.1:1/)".into())),
    );
    assert!(!state.sign_in.unlock_error.contains("url"), "a transport string");
    let _ = send(&mut state, Message::AccountCreated(Ok((9, "ada".into()))));
    assert!(!account_step(&state));
    assert_eq!(state.account, Some(Some((9, "ada".into()))));
}

fn on_testkit() -> Ducktape {
    let mut state = signing_in();
    state.connected = true;
    state.connected_rpc = "http://a".into();
    state.network = "testkit".into();
    state.keyring = "testkit".into();
    state.height = 7;
    state.status = "Connected · block 7".into();
    state.signer_key = "ab".into();
    state.account = Some(Some((7, "Grace Hopper".into())));
    state.active = Some("chat");
    state.set_badge("chat", 3);
    state
}

#[test]
fn a_switch_keeps_the_network_in_hand_until_the_other_answers() {
    let mut state = on_testkit();
    let _ = send(&mut state, Message::ToggleNetworkMenu);
    assert_eq!(state.overlay, Some(Overlay::Network));
    let _ = send(&mut state, Message::SwitchNetwork("http://b".into()));
    assert!(state.overlay.is_none() && state.connecting);
    assert_eq!(state.status, "Reaching http://b…");
    assert_eq!(state.signer_key, "ab", "still signed in while reaching");
    // A's poll lands mid-switch: the status keeps saying where it is going
    let _ = send(&mut state, Message::StatusPushed(status(8)));
    assert_eq!(state.status, "Reaching http://b…");
    let generation = state.connect_generation;
    let said = format!("Can't reach {}: error sending request for url (http://b/v1/status)", state.failure_subject());
    let _ = send(&mut state, Message::ConnectFailed { generation, said });
    assert!(state.connected && !state.connecting);
    assert_eq!(state.status, "Connected · block 8");
    assert_eq!(state.endpoint, "http://a");
    assert!(state.error.is_empty() && state.toast.contains("http://b"));
    assert_eq!(state.account, Some(Some((7, "Grace Hopper".into()))));
}

#[test]
fn taking_up_another_chain_resets_the_last_ones_state() {
    let mut state = on_testkit();
    let _ = state.take_up(Keyring { dir: "testkit".into(), other_chain: false }, false);
    assert_eq!(state.signer_key, "ab", "a second node of one network keeps the key");
    assert_eq!(state.active, Some("chat"));
    let _ = state.take_up(Keyring { dir: "testkit+200".into(), other_chain: true }, false);
    assert!(state.signer_key.is_empty(), "the seat is locked on a switch");
    assert_eq!(state.account, None, "the account is asked again");
    assert_eq!(state.active, None);
    assert!(state.badges.is_empty());
    assert!(state.other_chain);
    assert_eq!(state.keyring, "testkit+200");
}

#[test]
fn an_account_answer_from_before_a_switch_is_dropped() {
    let mut state = on_testkit();
    state.account = None;
    let _ = send(
        &mut state,
        Message::AccountResolved { node: "http://old".into(), key: "ab".into(), account: Some((1, "Stale".into())) },
    );
    assert_eq!(state.account, None);
    let _ = send(&mut state, Message::AccountResolved { node: "http://a".into(), key: "ab".into(), account: None });
    assert_eq!(state.account, Some(None));
}

#[test]
fn switching_node_from_a_held_phrase_restore_or_link_keeps_none_of_them() {
    let steps = [
        Stage::Phrase(Phrase {
            words: "canoe pond forest".into(),
            quiz: Some([0, 1, 2]),
            answers: ["canoe".into(), "pond".into(), "".into()],
        }),
        Stage::Recover(Recover { phrase: "canoe pond".into(), name: "ada".into() }),
        Stage::Account(Account {
            name: "ada".into(),
            link_code: "ABCD-EFGH".into(),
            linking: true,
            passkey_running: false,
            passkey_phone: false,
            passkey_qr: String::new(),
        }),
    ];
    for step in steps {
        let mut state = signing_in();
        state.signer_key = "ab".into();
        state.stage = step;
        state.sign_in.unlock_error = "wrong".into();
        let _ = send(&mut state, Message::Disconnect);
        assert!(state.signer_key.is_empty());
        assert!(state.sign_in.unlock_error.is_empty());
        assert!(matches!(state.stage, Stage::Connect), "the step and what it held are gone");
    }
}

#[test]
fn a_permission_is_handed_to_the_shell_as_it_is() {
    let mut state = signing_in();
    let effects = send(&mut state, Message::NotifyPermission("chat", Permission::Silent));
    assert!(matches!(effects.as_slice(), [Effect::SetPermission("chat", Permission::Silent)]));
}

#[test]
fn an_effect_leaves_its_secret_wiped() {
    let mut effect = Effect::OpenLockedKey { keyring: "testkit".into(), password: "hunter22".into() };
    effect.wipe_secrets();
    assert!(matches!(&effect, Effect::OpenLockedKey { keyring, password } if keyring == "testkit" && password.is_empty()));
    let mut effect = Effect::JoinWithRecoveryKey { node: "http://d".into(), network: "testkit".into(), phrase: "canoe pond".into() };
    effect.wipe_secrets();
    assert!(matches!(&effect, Effect::JoinWithRecoveryKey { phrase, network, .. } if phrase.is_empty() && network == "testkit"));
    let mut effect = Effect::AddRecoveryKey { node: "http://d".into(), network: "testkit".into(), phrase: "canoe".into() };
    effect.wipe_secrets();
    assert!(matches!(&effect, Effect::AddRecoveryKey { phrase, .. } if phrase.is_empty()));
    let mut effect = Effect::Quit;
    effect.wipe_secrets();
    assert!(matches!(effect, Effect::Quit));
}
