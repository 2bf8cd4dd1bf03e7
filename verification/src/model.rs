//! The app's state, and what moves it. Small on purpose: a node to reach,
//! a key to unlock, the programs the node runs, and which one is open.
//! Everything a person does inside a view is the view's. The state moves
//! by one message at a time; what the shell must go and do for it (reach a
//! node, open a key, save a setting) comes back as effects.

use vstd::prelude::*;

use crate::text::{same_text, wipe};

verus! {

/// Unanswered status polls in a row before the node counts as lost: one
/// miss is a hiccup, two (four seconds) is a node that went away.
pub const LOST_AFTER: u32 = 2;

/// A toast fades after this many of its ticks.
pub const TOAST_TICKS: i64 = 12;

/// Whether a program's notifications show: with a banner, silently into
/// the notification centre, or not at all.
#[derive(Clone, Copy, Debug, PartialEq, Eq, Structural)]
pub enum Permission {
    Allow,
    Silent,
    Off,
}

#[derive(Clone, Copy, Debug, PartialEq, Eq, Structural)]
pub enum Appearance {
    System,
    Light,
    Dark,
}

/// A menu hanging off the menu bar.
#[derive(Clone, Copy, Debug, PartialEq, Eq, Structural)]
pub enum Popover {
    /// The breathing dot: how the node is doing.
    Node,
    /// The account's name: who is signed in, and Lock.
    Account,
    /// The bell: the notification centre.
    Notifications,
}

/// What is open over the desk: one at a time, and it keeps the desk's
/// keys while it is.
#[derive(Clone, Copy, Debug, PartialEq, Eq, Structural)]
pub enum Overlay {
    /// ⌘K.
    Spotlight,
    /// "Add a device…".
    Approve,
    Settings,
    /// The network switcher.
    Network,
    /// A menu off the bar.
    Menu(Popover),
}

/// The Settings window's sections.
#[derive(Clone, Copy, Debug, PartialEq, Eq, Structural)]
pub enum SettingsPage {
    Appearance,
    Notifications,
    Networks,
    About,
}

/// The key step.
pub struct Unlock {
    /// A password-locked key's password (keys from before they moved into
    /// the OS).
    pub password: String,
    /// The key is seated and the node's first answer about its account is
    /// awaited: none goes on to the account step, one to the desk, and
    /// neither shows the other first.
    pub awaiting: bool,
}

/// A new recovery key, from the account menu.
pub struct Phrase {
    /// Its words, held until the person has typed back the words `quiz`
    /// asks for and the key is on the account.
    pub words: String,
    /// Once "I wrote it down" is pressed: the three word positions
    /// (0-based, ascending) the person types back.
    pub quiz: Option<[usize; 3]>,
    pub answers: [String; 3],
}

/// "Use a recovery key", off the account step.
pub struct Recover {
    /// Its words being typed.
    pub phrase: String,
    /// The account step's name field, back as it was on "← Back".
    pub name: String,
}

/// The account step, and the ways it joins one.
pub struct Account {
    /// The name a new account takes.
    pub name: String,
    /// "From another device": the code this device shows while it waits
    /// for one on the account to approve it.
    pub link_code: String,
    /// That wait is running.
    pub linking: bool,
    /// A passkey ceremony is in flight (the browser has it).
    pub passkey_running: bool,
    /// The person picked "Use a phone instead"; the ceremony reads it.
    pub passkey_phone: bool,
    /// The QR URL of the touch in flight.
    pub passkey_qr: String,
}

/// Which screen the console window shows: a launcher step, or the desk.
/// What a step alone holds (a typed secret, a task in flight) lives in
/// its variant and goes when it does.
pub enum Stage {
    /// Reaching a node.
    Connect,
    /// This device's key: opening, locked, or behind an old password.
    Unlock(Unlock),
    /// A new recovery key's words, and their check.
    Phrase(Phrase),
    /// The account's recovery key, typed to add this device.
    Recover(Recover),
    /// Name an account for the seated key, or join one.
    Account(Account),
    /// The desk: signed in, or reading without a key.
    Desk,
}

/// What the sign-in screens share: the step's failure and busy mark, this
/// device's key being opened or locked, and the "Add a device…" dialog.
pub struct SignIn {
    pub unlock_error: String,
    pub unlock_busy: bool,
    /// This device's key is being opened (or made) for the network reached.
    pub seating: bool,
    /// Locked on purpose: the key is not reopened until Unlock.
    pub locked: bool,
    /// "Add a device…": the code typed, and whether it found a request.
    pub approve_code: String,
    pub approve_found: bool,
}

/// A node this device reached before.
pub struct RecentEndpoint {
    pub url: String,
    pub network: String,
    pub founded: u64,
    pub other_chain: bool,
}

/// A node's answer to a status poll.
pub struct NodeStatus {
    pub network: String,
    pub time: u64,
    pub block_time_ms: u64,
    pub epoch_length: u64,
    pub height: u64,
    pub tip: Vec<u8>,
    pub root: Vec<u8>,
    pub epoch: u64,
    pub identity: Vec<u8>,
    pub contract: u64,
    pub genesis: Vec<u8>,
}

/// Where a network's keys live on this device: the directory its name
/// binds to, and whether that name is shared with another chain met first.
pub struct Keyring {
    pub dir: String,
    pub other_chain: bool,
}

/// What the shell must go and do for a message.
pub enum Effect {
    SaveAppearance(Appearance),
    SaveMotion(bool),
    /// Ask `origin` for its status; its answer comes back tagged
    /// `generation`.
    Reach { origin: String, generation: u64 },
    /// The attempt in flight, if any, is dropped.
    CancelReach,
    /// The attempt `generation` reached a node in this app's contract:
    /// bind the keyring of the network `status` names, and hand it back
    /// (`Message::NetworkBound`).
    BindNetwork { generation: u64, origin: String, status: NodeStatus },
    /// The attempt `generation` did not land, as `error`: say it, naming
    /// the node (`Message::ConnectFailed`).
    Unreached { generation: u64, error: String },
    /// Lock the signer for the network being left, and empty every
    /// window's panes (each keeping its desk's measure).
    LeaveNetwork,
    /// Ask `node` which account `key` belongs to on `network`.
    ResolveAccount { node: String, network: String, key: String },
    /// Open (or make) this device's key in `keyring`; `legacy` when only a
    /// password-locked key is there.
    OpenDeviceKey { keyring: String, legacy: bool },
    /// Open the password-locked key in `keyring` with `password`.
    OpenLockedKey { keyring: String, password: String },
    /// Lock the signer, then say "Locked".
    Lock,
    /// Bring the window `key` forward.
    RaiseWindow(u64),
    /// Open the console window, known from now on as `key`.
    OpenConsole(u64),
    /// The node's programs may have changed: have their deployments
    /// checked.
    CheckDeployments,
    /// The network in hand is `network` at `node`, its links naming
    /// `chain`: the views and the notification centre follow it.
    NetworkInHand { node: String, network: String, chain: String },
    /// Forget `url` from the nodes reached before.
    ForgetEndpoint(String),
    /// Ask the node in hand for its status again.
    PollStatus { node: String },
    /// Hand `route` to `module`'s view.
    Route { module: &'static str, route: String },
    OpenUrl(String),
    AddRecoveryKey { node: String, network: String, phrase: String },
    JoinWithRecoveryKey { node: String, network: String, phrase: String },
    JoinFromDevice { node: String, network: String, code: String },
    /// The wait for another device is dropped.
    CancelLink,
    FindRequest { code: String },
    Approve { node: String, network: String, account: u64, code: String },
    CreateAccount { node: String, network: String, name: String },
    /// A passkey ceremony: it creates an account (`create`) or admits the
    /// seated key `pubkey` into the account it holds.
    Passkey { create: bool, node: String, network: String, name: String, pubkey: String },
    /// The ceremony in flight is dropped.
    CancelPasskey,
    /// The notification centre: every row read, or the read rows gone.
    MarkAllRead,
    ClearRead,
    /// `module`'s view asked to notify and was told "not now".
    NotNow(&'static str),
    /// Keep `module`'s notification permission.
    SetPermission(&'static str, Permission),
    /// The notification policy Settings sets: desktop banners, banners
    /// while the app is in front, and how many a burst may show.
    SaveBanners(bool),
    SaveInFront(bool),
    SaveBurst(u32),
    /// Say `said` as a toast once the shell is done.
    Toast(String),
    /// Show `module` in the console's focused window, reusing a window it
    /// is already in (`Layout::select`).
    Select(&'static str),
    /// Open `module` on the console's desk (`Layout::open`).
    Open(&'static str),
    Quit,
}

/// The app's state.
pub struct Ducktape {
    pub appearance: Appearance,
    pub system_dark: bool,
    /// The console window's screen.
    pub stage: Stage,
    /// The node URL being typed.
    pub endpoint: String,
    pub endpoint_error: String,
    pub recent_endpoints: Vec<RecentEndpoint>,
    /// The node reached: its origin and the network it serves.
    pub connected_rpc: String,
    pub network: String,
    /// The chain links name, `<network>#<salt>`.
    pub chain: String,
    /// Where this network's keys live on this device.
    pub keyring: String,
    /// The network shares its name with another chain this device met
    /// first: its keys are its own, and the sign-in screen says so.
    pub other_chain: bool,
    pub connected: bool,
    pub connecting: bool,
    pub status: String,
    pub height: i64,
    /// Status polls gone unanswered in a row.
    pub status_misses: u32,
    /// The node's last answer, whole: the node status menu reads it.
    pub node: Option<NodeStatus>,
    /// `wall_now` when the height last moved: "last block 2 s ago".
    pub block_seen: i64,
    /// What is open over the desk.
    pub overlay: Option<Overlay>,
    /// What ⌘K holds: the typed text, the picked row.
    pub spotlight_query: String,
    pub spotlight_pick: usize,
    /// The Settings page shown, kept while Settings is closed.
    pub settings_page: SettingsPage,
    /// The drawings turn; off keeps them on their first frame.
    pub motion: bool,
    pub error: String,
    /// The seated key's public half, hex; empty while locked.
    pub signer_key: String,
    /// The account the seated key belongs to, as `(number, name)`: `None`
    /// until the node was asked, `Some(None)` while the key holds none.
    pub account: Option<Option<(u64, String)>>,
    /// A password-locked key file is here for `network` and this device's
    /// OS-kept key is not.
    pub key_exists: bool,
    /// What outlives one sign-in step; leaving a network drops it whole.
    pub sign_in: SignIn,
    /// The program whose view is open.
    pub active: Option<&'static str>,
    /// Each program's unread count, as its view last said it.
    pub badges: Vec<(&'static str, i64)>,
    pub toast: String,
    pub toast_age: i64,
    pub console_win: Option<u64>,
    pub focused_win: Option<u64>,
    pub cmd_held: bool,
    pub connect_generation: u64,
    /// An attempt to reach a node is in flight.
    pub connect_pending: bool,
    pub wall_now: i64,
}

/// `module`'s badge among `badges`: the first entry for it.
pub open spec fn badge_in(badges: Seq<(&'static str, i64)>, module: Seq<char>) -> Option<i64>
    decreases badges.len(),
{
    if badges.len() == 0 {
        None
    } else if badges[0].0@ == module {
        Some(badges[0].1)
    } else {
        badge_in(badges.drop_first(), module)
    }
}

/// No program has two entries among `badges`.
pub open spec fn badges_unique(badges: Seq<(&'static str, i64)>) -> bool {
    forall|i: int, j: int| 0 <= i < j < badges.len() ==> #[trigger] badges[i].0@ != #[trigger] badges[j].0@
}

/// The badges with `module`'s gone.
pub fn without_badge(badges: &Vec<(&'static str, i64)>, module: &str) -> (out: Vec<(&'static str, i64)>)
    ensures
        badge_in(out@, module@) is None,
        forall|m: Seq<char>| m != module@ ==> badge_in(out@, m) == badge_in(badges@, m),
        forall|k: int| 0 <= k < out@.len() ==> (#[trigger] out@[k]).0@ != module@,
        badges_unique(badges@) ==> badges_unique(out@),
{
    let mut out: Vec<(&'static str, i64)> = Vec::new();
    let n = badges.len();
    let mut i = n;
    // built back to front, so each step puts an entry before the rest
    while i > 0
        invariant
            i <= n,
            n == badges@.len(),
            badge_in(out@, module@) is None,
            forall|m: Seq<char>| m != module@ ==> badge_in(out@, m) == badge_in(badges@.skip(i as int), m),
            forall|k: int| 0 <= k < out@.len() ==> (#[trigger] out@[k]).0@ != module@,
            forall|k: int| 0 <= k < out@.len() ==> exists|j: int| i <= j < n && #[trigger] out@[k] == badges@[j],
            badges_unique(badges@) ==> badges_unique(out@),
        decreases i,
    {
        i = i - 1;
        let entry = badges[i];
        let ghost here = badges@.skip(i as int);
        proof {
            assert(here.drop_first() =~= badges@.skip(i + 1));
            assert(here[0] == entry);
            assert forall|m: Seq<char>| m != entry.0@ implies badge_in(here, m) == badge_in(badges@.skip(i + 1), m) by {}
        }
        if !same_text(entry.0, module) {
            let mut next: Vec<(&'static str, i64)> = Vec::new();
            next.push(entry);
            let ghost rest = out@;
            let mut tail = out;
            next.append(&mut tail);
            out = next;
            proof {
                assert(out@ =~= seq![entry] + rest);
                assert(out@.drop_first() =~= rest);
                assert(out@[0] == entry);
                assert forall|k: int| 0 <= k < out@.len() implies exists|j: int| i <= j < n && #[trigger] out@[k] == badges@[j] by {
                    if k == 0 {
                        assert(out@[k] == badges@[i as int]);
                    } else {
                        assert(out@[k] == rest[k - 1]);
                    }
                }
                if badges_unique(badges@) {
                    assert forall|a: int, b: int| 0 <= a < b < out@.len() implies #[trigger] out@[a].0@ != #[trigger] out@[b].0@ by {
                        assert(out@[b] == rest[b - 1]);
                        let jb = choose|j: int| i + 1 <= j < n && rest[b - 1] == badges@[j];
                        if a == 0 {
                            assert(badges@[i as int].0@ != badges@[jb].0@);
                        } else {
                            assert(out@[a] == rest[a - 1]);
                        }
                    }
                }
                assert forall|m: Seq<char>| m != module@ implies badge_in(out@, m) == badge_in(here, m) by {
                    if m != entry.0@ {
                        assert(badge_in(out@, m) == badge_in(rest, m));
                    }
                }
            }
        }
    }
    proof {
        assert(badges@.skip(0) =~= badges@);
    }
    out
}

impl Unlock {
    /// The key step, nothing typed, nothing awaited.
    pub fn new() -> (step: Self)
        ensures
            step.password@.len() == 0,
            !step.awaiting,
    {
        Unlock { password: String::new(), awaiting: false }
    }
}

impl Account {
    /// The account step, as it first shows.
    pub fn new() -> (step: Self)
        ensures
            step.name@.len() == 0,
            step.link_code@.len() == 0,
            !step.linking,
            !step.passkey_running,
            !step.passkey_phone,
            step.passkey_qr@.len() == 0,
    {
        Account {
            name: String::new(),
            link_code: String::new(),
            linking: false,
            passkey_running: false,
            passkey_phone: false,
            passkey_qr: String::new(),
        }
    }
}

impl SignIn {
    /// Nothing of a sign-in yet.
    pub fn new() -> (sign_in: Self)
        ensures
            sign_in.unlock_error@.len() == 0,
            !sign_in.unlock_busy,
            !sign_in.seating,
            !sign_in.locked,
            sign_in.approve_code@.len() == 0,
            !sign_in.approve_found,
    {
        SignIn {
            unlock_error: String::new(),
            unlock_busy: false,
            seating: false,
            locked: false,
            approve_code: String::new(),
            approve_found: false,
        }
    }
}

/// The key step as a stage, fresh.
pub open spec fn fresh_unlock(stage: Stage) -> bool {
    stage matches Stage::Unlock(step) && step.password@.len() == 0 && !step.awaiting
}

/// The account step as a stage, fresh, with `name` in its field.
pub open spec fn fresh_account(stage: Stage, name: Seq<char>) -> bool {
    &&& stage matches Stage::Account(step)
    &&& step.name@ == name
    &&& step.link_code@.len() == 0
    &&& !step.linking
    &&& !step.passkey_running
    &&& !step.passkey_phone
    &&& step.passkey_qr@.len() == 0
}

/// Whether `s` is a key written in hex: an even number of hex digits.
pub open spec fn hex_key(s: Seq<char>) -> bool {
    &&& s.len() % 2 == 0
    &&& forall|i: int| 0 <= i < s.len() ==> {
        ||| ('0' <= #[trigger] s[i] && s[i] <= '9')
        ||| ('a' <= s[i] && s[i] <= 'f')
        ||| ('A' <= s[i] && s[i] <= 'F')
    }
}

pub fn is_hex_key(s: &str) -> (hex: bool)
    ensures
        hex == hex_key(s@),
{
    let chars = crate::text::chars_of(s);
    let n = chars.len();
    for i in 0..n
        invariant
            n == chars@.len(),
            chars@ == s@,
            forall|j: int| 0 <= j < i ==> {
                ||| ('0' <= #[trigger] chars@[j] && chars@[j] <= '9')
                ||| ('a' <= chars@[j] && chars@[j] <= 'f')
                ||| ('A' <= chars@[j] && chars@[j] <= 'F')
            },
    {
        let c = chars[i];
        if !(('0' <= c && c <= '9') || ('a' <= c && c <= 'f') || ('A' <= c && c <= 'F')) {
            return false;
        }
    }
    n % 2 == 0
}

impl Ducktape {
    /// Connected, but the last [`LOST_AFTER`] status polls went unanswered.
    pub open spec fn lost(self) -> bool {
        self.connected && self.status_misses >= LOST_AFTER
    }

    pub fn reconnecting(&self) -> (lost: bool)
        ensures
            lost == self.lost(),
    {
        self.connected && self.status_misses >= LOST_AFTER
    }

    /// Before the desk: the console window is the launcher's size.
    pub fn in_launcher(&self) -> (launcher: bool)
        ensures
            launcher == !(self.stage is Desk),
    {
        !matches!(self.stage, Stage::Desk)
    }

    /// Seconds since the height last moved.
    pub fn block_age(&self) -> (age: i64)
        requires
            i64::MIN <= self.wall_now - self.block_seen <= i64::MAX,
        ensures
            age == self.wall_now - self.block_seen,
    {
        self.wall_now - self.block_seen
    }

    pub open spec fn is_dark(self) -> bool {
        match self.appearance {
            Appearance::Light => false,
            Appearance::Dark => true,
            Appearance::System => self.system_dark,
        }
    }

    pub fn dark(&self) -> (dark: bool)
        ensures
            dark == self.is_dark(),
    {
        match self.appearance {
            Appearance::Light => false,
            Appearance::Dark => true,
            Appearance::System => self.system_dark,
        }
    }

    /// `module`'s badge, if its view set one.
    pub fn badge(&self, module: &str) -> (count: Option<i64>)
        ensures
            count == badge_in(self.badges@, module@),
    {
        let n = self.badges.len();
        assert(self.badges@.skip(0) =~= self.badges@);
        for i in 0..n
            invariant
                n == self.badges@.len(),
                badge_in(self.badges@, module@) == badge_in(self.badges@.skip(i as int), module@),
        {
            proof {
                assert(self.badges@.skip(i as int).drop_first() =~= self.badges@.skip(i + 1));
            }
            if same_text(self.badges[i].0, module) {
                return Some(self.badges[i].1);
            }
        }
        None
    }

    /// Leaves the current step for `next`, wiping the secrets it held.
    pub fn set_stage(&mut self, next: Stage)
        ensures
            *final(self) == (Ducktape { stage: next, ..*old(self) }),
    {
        match &mut self.stage {
            Stage::Unlock(step) => wipe(&mut step.password),
            Stage::Phrase(step) => {
                wipe(&mut step.words);
                wipe(&mut step.answers[0]);
                wipe(&mut step.answers[1]);
                wipe(&mut step.answers[2]);
            },
            Stage::Recover(step) => wipe(&mut step.phrase),
            _ => {},
        }
        self.stage = next;
    }
}

impl Effect {
    /// What `wipe_secrets` leaves: a password or a recovery phrase the
    /// effect carries is emptied, and nothing else changes.
    pub open spec fn secrets_wiped(old: Self, new: Self) -> bool {
        match old {
            Effect::OpenLockedKey { keyring, .. } =>
                new matches Effect::OpenLockedKey { keyring: k, password } && k == keyring && password@.len() == 0,
            Effect::AddRecoveryKey { node, network, .. } =>
                new matches Effect::AddRecoveryKey { node: n, network: w, phrase } && n == node && w == network && phrase@.len() == 0,
            Effect::JoinWithRecoveryKey { node, network, .. } =>
                new matches Effect::JoinWithRecoveryKey { node: n, network: w, phrase } && n == node && w == network && phrase@.len() == 0,
            _ => new == old,
        }
    }

    /// Wipes the secret the effect carries, once the shell has used it.
    pub fn wipe_secrets(&mut self)
        ensures
            Self::secrets_wiped(*old(self), *final(self)),
    {
        match self {
            Effect::OpenLockedKey { password, .. } => wipe(password),
            Effect::AddRecoveryKey { phrase, .. } => wipe(phrase),
            Effect::JoinWithRecoveryKey { phrase, .. } => wipe(phrase),
            _ => {},
        }
    }
}

} // verus!
