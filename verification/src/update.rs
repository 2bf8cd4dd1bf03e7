//! The reducer: one message in, the state moved, the shell's work out.
//! What a message needs from the outside (a parsed link, a notification
//! looked up, a keyring bound) comes in with it; what the shell must do
//! comes back as effects.

use vstd::prelude::*;

use crate::connect::Answer;
use crate::desk::{Intent, Link, Notification};
use crate::model::{
    Appearance, Ducktape, Effect, Keyring, NodeStatus, Overlay, Permission, Popover, RecentEndpoint,
    SettingsPage,
};
use crate::names::RailRow;
use crate::overlay::Spot;
use crate::text::decimal;

verus! {

/// Everything that moves the app's state.
#[allow(inconsistent_fields)]
pub enum Message {
    SetAppearance(Appearance),
    EndpointTyped(String),
    /// Connect: the address typed, as the origin it names (if it names
    /// one), and what is said under the field if it does not.
    ConnectSubmit { origin: Option<String>, refusal: String },
    ConnectTo(String),
    /// A node answered the attempt `generation`: its contract, and the one
    /// this app speaks.
    Connected { generation: u64, origin: String, status: NodeStatus, speaks: u64 },
    /// The network of the attempt `generation`, bound: its keyring (or why
    /// not), whether an old password-locked key is in it, the nodes reached
    /// before as now recorded, the chain its links name, and a key for a
    /// console window should one be opened.
    NetworkBound {
        generation: u64,
        origin: String,
        status: NodeStatus,
        keyring: Result<Keyring, String>,
        key_exists: bool,
        recent: Vec<RecentEndpoint>,
        chain: String,
        fresh: u64,
    },
    /// The attempt `generation` failed, as said in words.
    ConnectFailed { generation: u64, said: String },
    StatusPushed(NodeStatus),
    StatusMissed,
    AccountResolved { node: String, key: String, account: Option<(u64, String)> },
    Disconnect,
    ToggleNetworkMenu,
    CloseOverlay(Overlay),
    TogglePopover(Popover),
    OpenSpotlight,
    SpotlightTyped(String),
    SpotlightMove { down: bool, rows: usize },
    /// Enter in Spotlight, among the rows of the rail given.
    SpotlightSubmit(Vec<RailRow>),
    Spot(Spot),
    OpenSettings,
    ShowSettingsPage(SettingsPage),
    SetMotion(bool),
    SwitchNetwork(String),
    SelectView(&'static str),
    ViewShown(&'static str),
    ViewEvent(&'static str, Intent),
    OpenLink(Link),
    /// A notification centre row picked, as the centre found it.
    NotifyOpen(Option<Notification>),
    NotifySettings,
    NotifyMarkAllRead,
    NotifyClearRead,
    NotifyNotNow(&'static str),
    /// A view's permission bar, or its row in Settings.
    NotifyPermission(&'static str, Permission),
    SetNotifyBanners(bool),
    SetNotifyInFront(bool),
    SetNotifyBurst(u32),
    PasswordTyped(String),
    UnlockSubmit,
    Unlocked(String),
    DeviceKey(Result<Option<String>, String>),
    /// "From another device", with the code this device shows.
    LinkStart(String),
    LinkCancel,
    RecoverShow,
    RecoverCancel,
    /// "Use a recovery key": whether the words typed make one.
    RecoverSubmit(bool),
    Joined(Result<(), String>),
    ApproveOpen,
    ApproveCodeTyped(String),
    ApproveFind,
    ApproveFound(Result<(), String>),
    ApproveConfirm,
    ApproveDone(Result<(), String>),
    /// A new recovery key, with its words.
    RecoveryKeyStart(String),
    RecoveryKeyAdded(Result<(), String>),
    PhraseCancel,
    PhraseWrittenDown,
    PhraseWordTyped(usize, String),
    PhraseCheckSubmit,
    PhraseShowAgain,
    UnlockFailed { error: String, key_exists: bool },
    BrowseWithoutKey,
    SignIn,
    RestorePhraseTyped(String),
    AccountNameTyped(String),
    PasskeyCreateSubmit,
    PasskeySignInSubmit,
    PasskeyCancel,
    PasskeyUsePhone,
    PasskeyQr(String),
    PasskeyDone(String),
    PasskeyFailed(String),
    ShowCreateAccount,
    CreateAccountSubmit,
    CreateAccountLater,
    AccountCreated(Result<(u64, String), String>),
    ForgetEndpoint(String),
    /// The nodes reached before, read again.
    RecentRead(Vec<RecentEndpoint>),
    Lock,
    ShowToast(String),
    DismissToast,
    ToastTick,
    Tick,
    WallTick,
    ConsoleOpened(u64),
    WindowWasClosed(u64),
    WindowFocused(u64),
    WindowUnfocused(u64),
    /// Whether ⌘ (Ctrl elsewhere) is held.
    CommandHeld(bool),
    /// The tray's "Open": the console, opened under the key given if there
    /// is none.
    TrayOpen(u64),
    TrayQuit,
}

/// What a node's answer does to the attempt `generation`: one from an
/// attempt since replaced changes nothing; otherwise the attempt is over,
/// and the network is bound — or, for a node of another contract, the
/// attempt fails saying so.
pub open spec fn answer_taken(old: Ducktape, new: Ducktape, generation: u64, origin: String, status: NodeStatus, speaks: u64, effects: Seq<Effect>) -> bool {
    if generation != old.connect_generation {
        new == old && effects.len() == 0
    } else {
        &&& new == (Ducktape { connect_pending: false, connecting: false, ..old })
        &&& status.contract != speaks ==> (effects.len() == 1 && (effects[0] matches Effect::Unreached { generation: g, error }
            && g == generation
            && error@ == "this node speaks contract "@ + decimal(status.contract as nat) + "; this app speaks "@ + decimal(speaks as nat)))
        &&& status.contract == speaks ==> effects == seq![Effect::BindNetwork { generation, origin, status }]
    }
}

/// What a bound network does: nothing for an attempt since replaced; the
/// network taken up; or, with no keyring, the attempt fails saying why.
pub open spec fn binding_taken(
    old: Ducktape,
    new: Ducktape,
    generation: u64,
    origin: String,
    status: NodeStatus,
    keyring: Result<Keyring, String>,
    key_exists: bool,
    recent: Vec<RecentEndpoint>,
    chain: String,
    fresh: u64,
    effects: Seq<Effect>,
) -> bool {
    if generation != old.connect_generation {
        new == old && effects.len() == 0
    } else {
        match keyring {
            Ok(keyring) => Ducktape::network_taken(old, new, origin, status, keyring, key_exists, recent, chain, fresh, effects),
            Err(error) => new == old && effects == seq![Effect::Unreached { generation, error }],
        }
    }
}

/// The one effect `effect`.
fn one(effect: Effect) -> (effects: Vec<Effect>)
    ensures
        effects@ == seq![effect],
{
    let effects = vec![effect];
    assert(effects@ =~= seq![effect]);
    effects
}

impl Ducktape {
    /// What `update(message)` does, message by message: each is the
    /// handler's own contract, and a handler that returns no effects
    /// leaves none.
    pub open spec fn updated(old: Self, new: Self, message: Message, effects: Seq<Effect>) -> bool {
        let none = effects.len() == 0;
        match message {
            Message::SetAppearance(mode) => Self::after_set_appearance(old, new, mode, effects),
            Message::EndpointTyped(text) => Self::after_endpoint_typed(old, new, text) && none,
            Message::ConnectSubmit { origin, refusal } => Self::after_connect_submit(old, new, origin, refusal, effects),
            Message::ConnectTo(origin) => Self::reaching(old, new, origin, effects),
            Message::Connected { generation, origin, status, speaks } =>
                answer_taken(old, new, generation, origin, status, speaks, effects),
            Message::NetworkBound { generation, origin, status, keyring, key_exists, recent, chain, fresh } =>
                binding_taken(old, new, generation, origin, status, keyring, key_exists, recent, chain, fresh, effects),
            Message::ConnectFailed { generation, said } => Self::failed(old, new, generation, said) && none,
            Message::StatusPushed(status) => Self::after_status_pushed(old, new, status, effects),
            Message::StatusMissed => Self::after_status_missed(old, new) && none,
            Message::AccountResolved { node, key, account } => Self::account_taken(old, new, node, key, account) && none,
            Message::Disconnect => Self::disconnected(old, new, effects),
            Message::ToggleNetworkMenu => Self::after_toggle_network_menu(old, new) && none,
            Message::CloseOverlay(overlay) => Self::overlay_closed(old, new, overlay) && none,
            Message::TogglePopover(which) => Self::after_toggle_popover(old, new, which) && none,
            Message::OpenSpotlight => Self::after_open_spotlight(old, new) && none,
            Message::SpotlightTyped(text) => Self::after_spotlight_typed(old, new, text) && none,
            Message::SpotlightMove { down, rows } => Self::after_spotlight_move(old, new, down, rows) && none,
            Message::SpotlightSubmit(rail) => Self::submitted(old, new, rail@, effects),
            Message::Spot(spot) => Self::spot_taken(old, new, spot, effects),
            Message::OpenSettings => Self::after_open_settings(old, new) && none,
            Message::ShowSettingsPage(page) => Self::after_show_settings_page(old, new, page) && none,
            Message::SetMotion(on) => Self::after_set_motion(old, new, on, effects),
            Message::SwitchNetwork(origin) => Self::after_switch_network(old, new, origin, effects),
            Message::SelectView(module) => Self::after_select_view(old, new, module, effects),
            Message::ViewShown(module) => Self::after_view_shown(old, new, module) && none,
            Message::ViewEvent(module, intent) => Self::after_view_event(old, new, module, intent, effects),
            Message::OpenLink(link) => Self::link_opened(old, new, link, effects),
            Message::NotifyOpen(row) => Self::after_notify_open(old, new, row, effects),
            Message::NotifySettings => Self::after_notify_settings(old, new) && none,
            Message::NotifyMarkAllRead => new == old && effects == seq![Effect::MarkAllRead],
            Message::NotifyClearRead => new == old && effects == seq![Effect::ClearRead],
            Message::NotifyNotNow(module) => new == old && effects == seq![Effect::NotNow(module)],
            Message::NotifyPermission(module, permission) => new == old && effects == seq![Effect::SetPermission(module, permission)],
            Message::SetNotifyBanners(on) => new == old && effects == seq![Effect::SaveBanners(on)],
            Message::SetNotifyInFront(show) => new == old && effects == seq![Effect::SaveInFront(show)],
            Message::SetNotifyBurst(burst) => new == old && effects == seq![Effect::SaveBurst(burst)],
            Message::PasswordTyped(text) => Self::after_password_typed(old, new, text) && none,
            Message::UnlockSubmit => Self::unlock_submitted(old, new, effects),
            Message::Unlocked(pubkey) => Self::key_seated(old, new, pubkey, effects),
            Message::DeviceKey(found) => Self::after_device_key(old, new, found, effects),
            Message::LinkStart(code) => Self::after_link_start(old, new, code, effects),
            Message::LinkCancel => Self::after_link_cancel(old, new, effects),
            Message::RecoverShow => Self::after_recover_show(old, new) && none,
            Message::RecoverCancel => Self::after_recover_cancel(old, new) && none,
            Message::RecoverSubmit(valid) => Self::recover_submitted(old, new, valid, effects),
            Message::Joined(result) => Self::after_joined(old, new, result, effects),
            Message::ApproveOpen => Self::after_approve_open(old, new) && none,
            Message::ApproveCodeTyped(text) => Self::after_approve_code_typed(old, new, text) && none,
            Message::ApproveFind => Self::after_approve_find(old, new, effects),
            Message::ApproveFound(found) => Self::after_approve_found(old, new, found) && none,
            Message::ApproveConfirm => Self::after_approve_confirm(old, new, effects),
            Message::ApproveDone(done) => Self::after_approve_done(old, new, done) && none,
            Message::RecoveryKeyStart(words) => Self::after_recovery_key_start(old, new, words) && none,
            Message::RecoveryKeyAdded(added) => Self::after_recovery_key_added(old, new, added) && none,
            Message::PhraseCancel => Self::after_leave_phrase(old, new) && none,
            Message::PhraseWrittenDown => Self::after_phrase_written_down(old, new) && none,
            Message::PhraseWordTyped(nth, text) => Self::after_phrase_word_typed(old, new, nth, text) && none,
            Message::PhraseCheckSubmit => Self::phrase_checked(old, new, effects),
            Message::PhraseShowAgain => Self::after_phrase_show_again(old, new) && none,
            Message::UnlockFailed { error, key_exists } => Self::after_unlock_failed(old, new, error, key_exists) && none,
            Message::BrowseWithoutKey => Self::after_browse_without_key(old, new) && none,
            Message::SignIn => Self::after_sign_in_again(old, new, effects),
            Message::RestorePhraseTyped(text) => Self::after_restore_phrase_typed(old, new, text) && none,
            Message::AccountNameTyped(text) => Self::after_account_name_typed(old, new, text) && none,
            Message::PasskeyCreateSubmit => Self::passkey_started(old, new, true, effects),
            Message::PasskeySignInSubmit => Self::passkey_started(old, new, false, effects),
            Message::PasskeyCancel => Self::after_passkey_cancel(old, new, effects),
            Message::PasskeyUsePhone => Self::after_passkey_use_phone(old, new) && none,
            Message::PasskeyQr(url) => Self::after_passkey_qr(old, new, url) && none,
            Message::PasskeyDone(pubkey) => Self::after_passkey_done(old, new, pubkey, effects),
            Message::PasskeyFailed(error) => Self::after_passkey_failed(old, new, error) && none,
            Message::ShowCreateAccount => Self::after_show_create_account(old, new) && none,
            Message::CreateAccountSubmit => Self::creation_submitted(old, new, effects),
            Message::CreateAccountLater => Self::after_create_account_later(old, new) && none,
            Message::AccountCreated(created) => Self::after_account_created(old, new, created) && none,
            Message::ForgetEndpoint(url) => new == old && effects == seq![Effect::ForgetEndpoint(url)],
            Message::RecentRead(recent) => Self::after_recent_read(old, new, recent) && none,
            Message::Lock => Self::after_lock(old, new, effects),
            Message::ShowToast(said) => Self::after_show_toast(old, new, said) && none,
            Message::DismissToast => Self::after_dismiss_toast(old, new) && none,
            Message::ToastTick => Self::after_toast_tick(old, new) && none,
            Message::Tick => {
                &&& new == old
                &&& old.connected ==> effects == seq![Effect::PollStatus { node: old.connected_rpc }]
                &&& !old.connected ==> none
            },
            Message::WallTick => Self::after_wall_tick(old, new) && none,
            Message::ConsoleOpened(key) => Self::after_console_opened(old, new, key) && none,
            Message::WindowWasClosed(key) => Self::after_window_was_closed(old, new, key) && none,
            Message::WindowFocused(key) => Self::after_window_focused(old, new, key) && none,
            Message::WindowUnfocused(key) => Self::after_window_unfocused(old, new, key) && none,
            Message::CommandHeld(held) => Self::after_command_held(old, new, held) && none,
            Message::TrayOpen(fresh) => Self::console_raised(old, new, fresh, effects),
            Message::TrayQuit => new == old && effects == seq![Effect::Quit],
        }
    }

    /// The room the counters need: another attempt to number, another
    /// toast tick and another second to count.
    pub open spec fn counters_room(self) -> bool {
        &&& self.connect_generation < u64::MAX
        &&& self.toast_age < i64::MAX
        &&& self.wall_now < i64::MAX
    }

    /// One message in, the state moved, the shell's work out: see
    /// [`Self::updated`].
    #[verifier::rlimit(80)]
    pub fn update(&mut self, message: Message) -> (effects: Vec<Effect>)
        requires
            old(self).counters_room(),
        ensures
            Self::updated(*old(self), *final(self), message, effects@),
    {
        match message {
            Message::SetAppearance(mode) => self.set_appearance(mode),
            Message::EndpointTyped(text) => {
                self.endpoint_typed(text);
                Vec::new()
            },
            Message::ConnectSubmit { origin, refusal } => self.connect_submit(origin, refusal),
            Message::ConnectTo(origin) => self.connect_to(origin),
            Message::Connected { generation, origin, status, speaks } => {
                let contract = status.contract;
                match self.node_answered(generation, contract, speaks) {
                    Answer::Stale => Vec::new(),
                    Answer::Refused => {
                        let error = Ducktape::contract_refusal(contract, speaks);
                        one(Effect::Unreached { generation, error })
                    },
                    Answer::Accepted => one(Effect::BindNetwork { generation, origin, status }),
                }
            },
            Message::NetworkBound { generation, origin, status, keyring, key_exists, recent, chain, fresh } => {
                if generation != self.connect_generation {
                    return Vec::new();
                }
                match keyring {
                    Ok(keyring) => self.take_network(origin, status, keyring, key_exists, recent, chain, fresh),
                    Err(error) => one(Effect::Unreached { generation, error }),
                }
            },
            Message::ConnectFailed { generation, said } => {
                self.connect_failed(generation, said);
                Vec::new()
            },
            Message::StatusPushed(status) => self.status_pushed(status),
            Message::StatusMissed => {
                self.status_missed();
                Vec::new()
            },
            Message::AccountResolved { node, key, account } => {
                self.account_resolved(node, key, account);
                Vec::new()
            },
            Message::Disconnect => self.disconnect(),
            Message::ToggleNetworkMenu => {
                self.toggle_network_menu();
                Vec::new()
            },
            Message::CloseOverlay(overlay) => {
                self.close(overlay);
                Vec::new()
            },
            Message::TogglePopover(which) => {
                self.toggle_popover(which);
                Vec::new()
            },
            Message::OpenSpotlight => {
                self.open_spotlight();
                Vec::new()
            },
            Message::SpotlightTyped(text) => {
                self.spotlight_typed(text);
                Vec::new()
            },
            Message::SpotlightMove { down, rows } => {
                self.spotlight_move(down, rows);
                Vec::new()
            },
            Message::SpotlightSubmit(rail) => self.spotlight_submit(rail.as_slice()),
            Message::Spot(spot) => self.spot(spot),
            Message::OpenSettings => {
                self.open_settings();
                Vec::new()
            },
            Message::ShowSettingsPage(page) => {
                self.show_settings_page(page);
                Vec::new()
            },
            Message::SetMotion(on) => self.set_motion(on),
            Message::SwitchNetwork(origin) => self.switch_network(origin),
            Message::SelectView(module) => self.select_view(module),
            Message::ViewShown(module) => {
                self.view_shown(module);
                Vec::new()
            },
            Message::ViewEvent(module, intent) => self.view_event(module, intent),
            Message::OpenLink(link) => self.open_link(link),
            Message::NotifyOpen(row) => self.notify_open(row),
            Message::NotifySettings => {
                self.notify_settings();
                Vec::new()
            },
            Message::NotifyMarkAllRead => one(Effect::MarkAllRead),
            Message::NotifyClearRead => one(Effect::ClearRead),
            Message::NotifyNotNow(module) => one(Effect::NotNow(module)),
            Message::NotifyPermission(module, permission) => one(Effect::SetPermission(module, permission)),
            Message::SetNotifyBanners(on) => one(Effect::SaveBanners(on)),
            Message::SetNotifyInFront(show) => one(Effect::SaveInFront(show)),
            Message::SetNotifyBurst(burst) => one(Effect::SaveBurst(burst)),
            Message::PasswordTyped(text) => {
                self.password_typed(text);
                Vec::new()
            },
            Message::UnlockSubmit => self.unlock_submit(),
            Message::Unlocked(pubkey) => self.unlocked(pubkey),
            Message::DeviceKey(found) => self.device_key(found),
            Message::LinkStart(code) => self.link_start(code),
            Message::LinkCancel => self.link_cancel(),
            Message::RecoverShow => {
                self.recover_show();
                Vec::new()
            },
            Message::RecoverCancel => {
                self.recover_cancel();
                Vec::new()
            },
            Message::RecoverSubmit(valid) => self.recover_submit(valid),
            Message::Joined(result) => self.joined(result),
            Message::ApproveOpen => {
                self.approve_open();
                Vec::new()
            },
            Message::ApproveCodeTyped(text) => {
                self.approve_code_typed(text);
                Vec::new()
            },
            Message::ApproveFind => self.approve_find(),
            Message::ApproveFound(found) => {
                self.approve_found(found);
                Vec::new()
            },
            Message::ApproveConfirm => self.approve_confirm(),
            Message::ApproveDone(done) => {
                self.approve_done(done);
                Vec::new()
            },
            Message::RecoveryKeyStart(words) => {
                self.recovery_key_start(words);
                Vec::new()
            },
            Message::RecoveryKeyAdded(added) => {
                self.recovery_key_added(added);
                Vec::new()
            },
            Message::PhraseCancel => {
                self.leave_phrase();
                Vec::new()
            },
            Message::PhraseWrittenDown => {
                self.phrase_written_down();
                Vec::new()
            },
            Message::PhraseWordTyped(nth, text) => {
                self.phrase_word_typed(nth, text);
                Vec::new()
            },
            Message::PhraseCheckSubmit => self.phrase_check_submit(),
            Message::PhraseShowAgain => {
                self.phrase_show_again();
                Vec::new()
            },
            Message::UnlockFailed { error, key_exists } => {
                self.unlock_failed(error, key_exists);
                Vec::new()
            },
            Message::BrowseWithoutKey => {
                self.browse_without_key();
                Vec::new()
            },
            Message::SignIn => self.sign_in_again(),
            Message::RestorePhraseTyped(text) => {
                self.restore_phrase_typed(text);
                Vec::new()
            },
            Message::AccountNameTyped(text) => {
                self.account_name_typed(text);
                Vec::new()
            },
            Message::PasskeyCreateSubmit => self.passkey(true),
            Message::PasskeySignInSubmit => self.passkey(false),
            Message::PasskeyCancel => self.passkey_cancel(),
            Message::PasskeyUsePhone => {
                self.passkey_use_phone();
                Vec::new()
            },
            Message::PasskeyQr(url) => {
                self.passkey_qr(url);
                Vec::new()
            },
            Message::PasskeyDone(pubkey) => self.passkey_done(pubkey),
            Message::PasskeyFailed(error) => {
                self.passkey_failed(error);
                Vec::new()
            },
            Message::ShowCreateAccount => {
                self.show_create_account();
                Vec::new()
            },
            Message::CreateAccountSubmit => self.create_account_submit(),
            Message::CreateAccountLater => {
                self.create_account_later();
                Vec::new()
            },
            Message::AccountCreated(created) => {
                self.account_created(created);
                Vec::new()
            },
            Message::ForgetEndpoint(url) => self.forget_endpoint(url),
            Message::RecentRead(recent) => {
                self.recent_read(recent);
                Vec::new()
            },
            Message::Lock => self.lock(),
            Message::ShowToast(said) => {
                self.show_toast(said);
                Vec::new()
            },
            Message::DismissToast => {
                self.dismiss_toast();
                Vec::new()
            },
            Message::ToastTick => {
                self.toast_tick();
                Vec::new()
            },
            Message::Tick => self.tick(),
            Message::WallTick => {
                self.wall_tick();
                Vec::new()
            },
            Message::ConsoleOpened(key) => {
                self.console_opened(key);
                Vec::new()
            },
            Message::WindowWasClosed(key) => {
                self.window_was_closed(key);
                Vec::new()
            },
            Message::WindowFocused(key) => {
                self.window_focused(key);
                Vec::new()
            },
            Message::WindowUnfocused(key) => {
                self.window_unfocused(key);
                Vec::new()
            },
            Message::CommandHeld(held) => {
                self.command_held(held);
                Vec::new()
            },
            Message::TrayOpen(fresh) => self.raise_console(fresh),
            Message::TrayQuit => one(Effect::Quit),
        }
    }

    /// ⌘K: Spotlight closes if it is open, else opens.
    pub fn spotlight_key(&self) -> (message: Message)
        ensures
            self.overlay == Some(Overlay::Spotlight) ==> message == Message::CloseOverlay(Overlay::Spotlight),
            self.overlay != Some(Overlay::Spotlight) ==> message == Message::OpenSpotlight,
    {
        if self.overlay == Some(Overlay::Spotlight) {
            Message::CloseOverlay(Overlay::Spotlight)
        } else {
            Message::OpenSpotlight
        }
    }

    /// Escape: whatever is open over the desk closes.
    pub fn escape_key(&self) -> (message: Option<Message>)
        ensures
            match self.overlay {
                Some(overlay) => message == Some(Message::CloseOverlay(overlay)),
                None => message is None,
            },
    {
        match self.overlay {
            Some(overlay) => Some(Message::CloseOverlay(overlay)),
            None => None,
        }
    }
}

} // verus!
