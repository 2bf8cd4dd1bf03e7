use ducktape::model::{Appearance, Ducktape, Effect, Keyring, NodeStatus, RecentEndpoint, Stage};
use ducktape::update::Message;

const CONTRACT: u64 = 3;

fn status(network: &str, height: u64, contract: u64) -> NodeStatus {
    NodeStatus {
        network: network.into(),
        time: 1_790_121_600,
        block_time_ms: 2000,
        epoch_length: 100,
        height,
        tip: vec![0xab; 32],
        root: vec![0; 32],
        epoch: 1,
        identity: Vec::new(),
        contract,
        genesis: vec![1; 32],
    }
}

fn recent(url: &str, network: &str) -> RecentEndpoint {
    RecentEndpoint { url: url.into(), network: network.into(), founded: 0, other_chain: false }
}

#[test]
fn boot_reaches_the_node_last_used_or_the_one_the_environment_names() {
    let (state, first) = Ducktape::boot(vec![recent("http://a", "testkit")], Appearance::Dark, false, "http://d", None);
    assert_eq!(state.endpoint, "http://a");
    assert_eq!(first.as_deref(), Some("http://a"));
    assert!(matches!(state.stage, Stage::Connect));
    assert_eq!(state.status, "Not connected");
    let (state, first) = Ducktape::boot(Vec::new(), Appearance::System, true, "http://d", None);
    assert_eq!(state.endpoint, "http://d");
    assert_eq!(first, None);
    let (_, first) = Ducktape::boot(Vec::new(), Appearance::System, true, "http://d", Some("http://e".into()));
    assert_eq!(first.as_deref(), Some("http://e"));
}

/// Reach `origin`, have it answer in this app's contract, and bind its
/// network under `dir`.
fn reach(state: &mut Ducktape, origin: &str, network: &str, dir: &str) -> Vec<Effect> {
    let effects = state.update(Message::ConnectTo(origin.into()));
    let generation = match &effects[0] {
        Effect::Reach { generation, .. } => *generation,
        _ => panic!("a reach"),
    };
    let effects = state.update(Message::Connected {
        generation,
        origin: origin.into(),
        status: status(network, 7, CONTRACT),
        speaks: CONTRACT,
    });
    assert!(matches!(&effects[0], Effect::BindNetwork { generation: g, .. } if *g == generation));
    state.update(Message::NetworkBound {
        generation,
        origin: origin.into(),
        status: status(network, 7, CONTRACT),
        keyring: Ok(Keyring { dir: dir.into(), other_chain: false }),
        key_exists: false,
        recent: vec![recent(origin, network)],
        chain: format!("{network}#0a1b2c3d"),
        fresh: 1,
    })
}

#[test]
fn a_node_in_the_contract_is_taken_up_and_the_key_step_comes_first() {
    let mut state = Ducktape::boot(Vec::new(), Appearance::System, true, "http://d", None).0;
    let effects = reach(&mut state, "http://a", "testkit", "testkit");
    assert!(state.connected && !state.connecting);
    assert_eq!(state.connected_rpc, "http://a");
    assert_eq!(state.network, "testkit");
    assert_eq!(state.chain, "testkit#0a1b2c3d");
    assert_eq!(state.status, "Connected · block 7");
    assert_eq!(state.height, 7);
    assert!(matches!(state.stage, Stage::Unlock(_)));
    assert_eq!(state.console_win, Some(1));
    assert!(state.sign_in.seating);
    assert!(matches!(
        effects.as_slice(),
        [Effect::LeaveNetwork, Effect::NetworkInHand { .. }, Effect::OpenConsole(1), Effect::OpenDeviceKey { legacy: false, .. }]
    ));
}

#[test]
fn a_node_of_another_contract_is_refused() {
    let mut state = Ducktape::boot(Vec::new(), Appearance::System, true, "http://d", None).0;
    let effects = state.update(Message::ConnectTo("http://a".into()));
    assert!(matches!(&effects[0], Effect::Reach { generation: 1, .. }));
    let effects = state.update(Message::Connected {
        generation: 1,
        origin: "http://a".into(),
        status: status("testkit", 7, 2),
        speaks: CONTRACT,
    });
    assert!(!state.connecting && !state.connected);
    match &effects[..] {
        [Effect::Unreached { generation: 1, error }] => {
            assert_eq!(error, "this node speaks contract 2; this app speaks 3")
        }
        _ => panic!("refused"),
    }
    let _ = state.update(Message::ConnectFailed { generation: 1, said: "Can't reach http://a.".into() });
    assert_eq!(state.error, "Can't reach http://a.");
    assert_eq!(state.status, "Not connected");
}

#[test]
fn an_answer_for_a_replaced_attempt_changes_nothing() {
    let mut state = Ducktape::boot(Vec::new(), Appearance::System, true, "http://d", None).0;
    let _ = state.update(Message::ConnectTo("http://a".into()));
    let _ = state.update(Message::ConnectTo("http://b".into()));
    let effects = state.update(Message::Connected {
        generation: 1,
        origin: "http://a".into(),
        status: status("testkit", 7, CONTRACT),
        speaks: CONTRACT,
    });
    assert!(effects.is_empty());
    assert!(state.connecting && state.endpoint == "http://b");
    let _ = state.update(Message::ConnectFailed { generation: 1, said: "late".into() });
    assert!(state.error.is_empty() && state.connecting);
}

#[test]
fn a_keyring_that_cannot_be_bound_fails_the_attempt() {
    let mut state = Ducktape::boot(Vec::new(), Appearance::System, true, "http://d", None).0;
    let _ = state.update(Message::ConnectTo("http://a".into()));
    let effects = state.update(Message::NetworkBound {
        generation: 1,
        origin: "http://a".into(),
        status: status("testkit", 7, CONTRACT),
        keyring: Err("no home directory".into()),
        key_exists: false,
        recent: Vec::new(),
        chain: "testkit".into(),
        fresh: 1,
    });
    assert!(matches!(&effects[..], [Effect::Unreached { generation: 1, error }] if error == "no home directory"));
    assert!(!state.connected);
}

#[test]
fn a_second_node_of_the_same_network_keeps_the_key_and_another_chain_drops_it() {
    let mut state = Ducktape::boot(Vec::new(), Appearance::System, true, "http://d", None).0;
    let _ = reach(&mut state, "http://a", "testkit", "testkit");
    let _ = state.update(Message::Unlocked("ab".into()));
    assert_eq!(state.signer_key, "ab");
    let effects = reach(&mut state, "http://a2", "testkit", "testkit");
    assert_eq!(state.signer_key, "ab", "a second node of one network keeps the key");
    assert!(!effects.iter().any(|effect| matches!(effect, Effect::LeaveNetwork)));
    assert!(matches!(effects.last(), Some(Effect::ResolveAccount { node, .. }) if node == "http://a2"));
    let effects = reach(&mut state, "http://c", "othernet", "othernet");
    assert!(state.signer_key.is_empty(), "the seat is locked on a switch");
    assert!(matches!(effects[0], Effect::LeaveNetwork));
    assert_eq!(state.keyring, "othernet");
}

#[test]
fn a_poll_asks_the_node_in_hand_and_a_moved_height_asks_the_account_again() {
    let mut state = Ducktape::boot(Vec::new(), Appearance::System, true, "http://d", None).0;
    assert!(state.update(Message::Tick).is_empty());
    let _ = reach(&mut state, "http://a", "testkit", "testkit");
    assert!(matches!(&state.update(Message::Tick)[..], [Effect::PollStatus { node }] if node == "http://a"));
    let _ = state.update(Message::Unlocked("ab".into()));
    let effects = state.update(Message::StatusPushed(status("testkit", 8, CONTRACT)));
    assert!(matches!(effects.as_slice(), [Effect::CheckDeployments, Effect::ResolveAccount { .. }]));
    assert_eq!(state.status, "Connected · block 8");
}

#[test]
fn leaving_from_the_switcher_and_forgetting_a_node() {
    let mut state = Ducktape::boot(Vec::new(), Appearance::System, true, "http://d", None).0;
    let _ = reach(&mut state, "http://a", "testkit", "testkit");
    let effects = state.update(Message::SwitchNetwork("http://a".into()));
    assert!(effects.is_empty(), "the node in hand is not reached again");
    let effects = state.update(Message::ForgetEndpoint("http://old".into()));
    assert!(matches!(&effects[..], [Effect::ForgetEndpoint(url)] if url == "http://old"));
    let _ = state.update(Message::RecentRead(Vec::new()));
    assert!(state.recent_endpoints.is_empty());
}

#[test]
fn a_failure_names_a_node_reached_before_by_its_network() {
    let mut state = Ducktape::boot(vec![recent("http://a", "testkit")], Appearance::System, true, "http://d", None).0;
    assert_eq!(state.failure_subject(), "testkit (http://a)");
    state.endpoint = "http://z".into();
    assert_eq!(state.failure_subject(), "http://z");
}
