use ducktape::model::{Appearance, Ducktape, Effect, Overlay, Stage, Unlock};
use ducktape::update::Message;

fn on_the_desk() -> Ducktape {
    let mut state = Ducktape::boot(Vec::new(), Appearance::System, true, "http://d", None).0;
    state.connected = true;
    state.connected_rpc = "http://a".into();
    state.network = "testkit".into();
    state.keyring = "testkit".into();
    state.signer_key = "ab".into();
    state.account = Some(Some((7, "Grace Hopper".into())));
    state.stage = Stage::Desk;
    state
}

fn phrase() -> String {
    (1..=24).map(|n| format!("w{n}")).collect::<Vec<_>>().join(" ")
}

#[test]
fn a_recovery_key_is_written_down_checked_and_added() {
    let mut state = on_the_desk();
    let _ = state.update(Message::RecoveryKeyStart(phrase()));
    assert!(matches!(&state.stage, Stage::Phrase(step) if step.quiz.is_none()));
    let _ = state.update(Message::PhraseWrittenDown);
    let asked = match &state.stage {
        Stage::Phrase(step) => step.quiz.expect("three words asked"),
        _ => panic!("the check"),
    };
    assert!(asked[0] < asked[1] && asked[1] < asked[2] && asked[2] < 24);
    // wrong words: said, nothing sent
    let effects = state.update(Message::PhraseCheckSubmit);
    assert!(effects.is_empty() && state.sign_in.unlock_error.starts_with("Those words don't match"));
    for (nth, position) in asked.iter().enumerate() {
        let _ = state.update(Message::PhraseWordTyped(nth, format!(" W{} ", position + 1)));
    }
    assert!(state.sign_in.unlock_error.is_empty(), "typing clears the failure");
    let effects = state.update(Message::PhraseCheckSubmit);
    assert!(matches!(&effects[..], [Effect::AddRecoveryKey { phrase: words, .. }] if *words == phrase()));
    assert!(state.sign_in.unlock_busy);
    let _ = state.update(Message::RecoveryKeyAdded(Ok(())));
    assert!(matches!(state.stage, Stage::Desk));
    assert_eq!(state.toast, "Recovery key added. Keep the paper somewhere safe.");
    assert!(!state.sign_in.unlock_busy);
}

#[test]
fn a_recovery_key_joins_only_when_its_words_make_one() {
    let mut state = on_the_desk();
    state.stage = Stage::Account(ducktape::model::Account::new());
    let _ = state.update(Message::RecoverShow);
    assert!(matches!(state.stage, Stage::Recover(_)));
    let _ = state.update(Message::RestorePhraseTyped("  Canoe\n Pond\tFOREST  ".into()));
    let effects = state.update(Message::RecoverSubmit(false));
    assert!(effects.is_empty());
    assert_eq!(state.sign_in.unlock_error, "Those words aren't a recovery key — check each one.");
    let effects = state.update(Message::RecoverSubmit(true));
    assert!(matches!(&effects[..], [Effect::JoinWithRecoveryKey { phrase, .. }] if phrase == "canoe pond forest"));
    let _ = state.update(Message::Joined(Err("refused".into())));
    assert!(!state.sign_in.unlock_busy);
}

#[test]
fn another_device_joins_by_its_code() {
    let mut state = on_the_desk();
    state.stage = Stage::Account(ducktape::model::Account::new());
    let effects = state.update(Message::LinkStart("ABCD-EFGH".into()));
    assert!(matches!(&effects[..], [Effect::JoinFromDevice { code, .. }] if code == "ABCD-EFGH"));
    assert!(state.update(Message::LinkStart("IJKL-MNOP".into())).is_empty(), "one wait at a time");
    let effects = state.update(Message::LinkCancel);
    assert!(matches!(&effects[..], [Effect::CancelLink]));
}

#[test]
fn approving_a_device_finds_its_request_then_approves_it() {
    let mut state = on_the_desk();
    let _ = state.update(Message::ApproveOpen);
    assert_eq!(state.overlay, Some(Overlay::Approve));
    let _ = state.update(Message::ApproveCodeTyped("ABCD-EFGH".into()));
    assert!(state.update(Message::ApproveConfirm).is_empty(), "nothing found yet");
    let effects = state.update(Message::ApproveFind);
    assert!(matches!(&effects[..], [Effect::FindRequest { code }] if code == "ABCD-EFGH"));
    let _ = state.update(Message::ApproveFound(Ok(())));
    let effects = state.update(Message::ApproveConfirm);
    assert!(matches!(&effects[..], [Effect::Approve { account: 7, code, .. }] if code == "ABCD-EFGH"));
    let _ = state.update(Message::ApproveDone(Ok(())));
    assert_eq!(state.overlay, None);
    assert_eq!(state.toast, "Approved. The new device finishes on its own.");
}

#[test]
fn a_passkey_needs_a_seated_key_and_a_name_to_create() {
    let mut state = on_the_desk();
    state.stage = Stage::Account(ducktape::model::Account::new());
    let effects = state.update(Message::PasskeyCreateSubmit);
    assert!(effects.is_empty() && state.sign_in.unlock_error == "Name your account first.");
    let _ = state.update(Message::AccountNameTyped("  ada ".into()));
    let effects = state.update(Message::PasskeyCreateSubmit);
    assert!(matches!(&effects[..], [Effect::Passkey { create: true, name, pubkey, .. }] if name == "ada" && pubkey == "ab"));
    let _ = state.update(Message::PasskeyUsePhone);
    let _ = state.update(Message::PasskeyQr("https://relay/qr".into()));
    assert!(matches!(&state.stage, Stage::Account(step) if step.passkey_phone && step.passkey_qr == "https://relay/qr"));
    let effects = state.update(Message::PasskeyCancel);
    assert!(matches!(&effects[..], [Effect::CancelPasskey, Effect::Toast(said)] if said == "Passkey step cancelled"));
    state.signer_key.clear();
    let _ = state.update(Message::PasskeySignInSubmit);
    assert_eq!(state.sign_in.unlock_error, "Unlock this device's key first.");
}

#[test]
fn reading_without_a_key_opens_the_desk_and_sign_in_asks_for_the_key_again() {
    let mut state = on_the_desk();
    state.signer_key.clear();
    state.stage = Stage::Unlock(Unlock::new());
    let _ = state.update(Message::BrowseWithoutKey);
    assert!(matches!(state.stage, Stage::Desk));
    let effects = state.update(Message::SignIn);
    assert!(matches!(state.stage, Stage::Unlock(_)));
    assert!(matches!(&effects[..], [Effect::OpenDeviceKey { keyring, legacy: false }] if keyring == "testkit"));
    assert!(state.sign_in.seating);
}

#[test]
fn a_key_that_will_not_open_says_why() {
    let mut state = on_the_desk();
    state.signer_key.clear();
    state.sign_in.seating = true;
    let effects = state.update(Message::DeviceKey(Err("the keychain is locked".into())));
    assert!(effects.is_empty());
    assert!(!state.sign_in.seating);
    assert_eq!(state.sign_in.unlock_error, "the keychain is locked");
    let _ = state.update(Message::DeviceKey(Ok(None)));
    assert!(state.signer_key.is_empty());
}

#[test]
fn the_passkey_qr_shows_only_while_the_phone_is_picked() {
    let mut state = on_the_desk();
    state.stage = Stage::Account(ducktape::model::Account::new());
    let _ = state.update(Message::AccountNameTyped("ada".into()));
    let _ = state.update(Message::PasskeyQr("https://relay/qr".into()));
    assert_eq!(state.passkey_qr_shown(), None);
    let _ = state.update(Message::PasskeyCreateSubmit);
    let _ = state.update(Message::PasskeyQr("https://relay/qr".into()));
    assert_eq!(state.passkey_qr_shown(), None, "the phone was not picked");
    let _ = state.update(Message::PasskeyUsePhone);
    assert_eq!(state.passkey_qr_shown().as_deref(), Some("https://relay/qr"));
    let _ = state.update(Message::PasskeyFailed("the browser said no".into()));
    assert_eq!(state.passkey_qr_shown(), None);
    assert_eq!(state.sign_in.unlock_error, "the browser said no");
}
