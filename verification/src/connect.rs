//! Reaching a node, keeping up with it, and leaving it.

use vstd::prelude::*;

use crate::model::{
    fresh_unlock, hex_key, is_hex_key, Appearance, Ducktape, Effect, Keyring, NodeStatus,
    Overlay, RecentEndpoint, SettingsPage, SignIn, Stage, Unlock,
};
use crate::text::{
    chars_of, decimal, push_decimal, push_signed, push_str, same_text, signed_decimal, string_of,
};

verus! {

/// How a node's answer to a reach is taken.
pub enum Answer {
    /// Meant for an attempt that is no longer the current one.
    Stale,
    /// The node speaks another contract: refused like a node that never
    /// answered.
    Refused,
    /// Current, and in this app's contract: the network can be taken up.
    Accepted,
}

/// "Connected · block N".
pub open spec fn connected_text(height: int) -> Seq<char> {
    "Connected · block "@ + signed_decimal(height)
}

/// A node's height as the model keeps it: -1 for one past `i64`.
pub open spec fn height_of(height: u64) -> i64 {
    if height <= i64::MAX as u64 { height as i64 } else { -1i64 }
}

/// The recent entry a failure names: the first for `endpoint` with a
/// network.
pub open spec fn names_endpoint(recent: Seq<RecentEndpoint>, endpoint: Seq<char>, i: int) -> bool {
    &&& 0 <= i < recent.len()
    &&& recent[i].url@ == endpoint
    &&& recent[i].network@.len() > 0
    &&& forall|j: int| 0 <= j < i ==> !(recent[j].url@ == endpoint && recent[j].network@.len() > 0)
}

impl Ducktape {
    /// The state at launch: the node last used in the address field (else
    /// `default_endpoint`), and the first thing to do: reach `env_rpc` if
    /// the environment names one, else the node last used, if there was one.
    pub fn boot(
        recent: Vec<RecentEndpoint>,
        appearance: Appearance,
        motion: bool,
        default_endpoint: &str,
        env_rpc: Option<String>,
    ) -> (booted: (Self, Option<String>))
        ensures
            booted.0.endpoint@ == (if recent@.len() > 0 { recent@[0].url@ } else { default_endpoint@ }),
            booted.0.recent_endpoints == recent,
            booted.0.appearance == appearance,
            booted.0.motion == motion,
            booted.0.stage is Connect,
            !booted.0.connected,
            !booted.0.connecting,
            booted.0.status@ == "Not connected"@,
            booted.0.height == -1,
            booted.0.overlay is None,
            booted.0.account is None,
            booted.0.active is None,
            booted.0.badges@.len() == 0,
            booted.0.signer_key@.len() == 0,
            booted.0.console_win is None,
            booted.0.connect_generation == 0,
            booted.0.wall_now == 0,
            !booted.0.system_dark,
            booted.0.endpoint_error@.len() == 0,
            booted.0.connected_rpc@.len() == 0,
            booted.0.network@.len() == 0,
            booted.0.chain@.len() == 0,
            booted.0.keyring@.len() == 0,
            !booted.0.other_chain,
            booted.0.status_misses == 0,
            booted.0.node is None,
            booted.0.block_seen == 0,
            booted.0.spotlight_query@.len() == 0,
            booted.0.spotlight_pick == 0,
            booted.0.settings_page == SettingsPage::Appearance,
            booted.0.error@.len() == 0,
            !booted.0.key_exists,
            booted.0.sign_in.unlock_error@.len() == 0,
            !booted.0.sign_in.unlock_busy,
            !booted.0.sign_in.seating,
            !booted.0.sign_in.locked,
            booted.0.sign_in.approve_code@.len() == 0,
            !booted.0.sign_in.approve_found,
            booted.0.toast@.len() == 0,
            booted.0.toast_age == 0,
            booted.0.focused_win is None,
            !booted.0.cmd_held,
            !booted.0.connect_pending,
            booted.1 == (match env_rpc {
                Some(rpc) => Some(rpc),
                None => if recent@.len() > 0 { Some(booted.0.endpoint) } else { None },
            }),
    {
        let endpoint = if recent.len() > 0 { recent[0].url.clone() } else { String::from_str(default_endpoint) };
        let first = match env_rpc {
            Some(rpc) => Some(rpc),
            None => if recent.len() > 0 { Some(endpoint.clone()) } else { None },
        };
        let state = Ducktape {
            appearance,
            system_dark: false,
            stage: Stage::Connect,
            endpoint,
            endpoint_error: String::new(),
            recent_endpoints: recent,
            connected_rpc: String::new(),
            network: String::new(),
            chain: String::new(),
            keyring: String::new(),
            other_chain: false,
            connected: false,
            connecting: false,
            status: String::from_str("Not connected"),
            height: -1,
            status_misses: 0,
            node: None,
            block_seen: 0,
            overlay: None,
            spotlight_query: String::new(),
            spotlight_pick: 0,
            settings_page: SettingsPage::Appearance,
            motion,
            error: String::new(),
            signer_key: String::new(),
            account: None,
            key_exists: false,
            sign_in: SignIn::new(),
            active: None,
            badges: Vec::new(),
            toast: String::new(),
            toast_age: 0,
            console_win: None,
            focused_win: None,
            cmd_held: false,
            connect_generation: 0,
            connect_pending: false,
            wall_now: 0,
        };
        (state, first)
    }

    /// What `endpoint_typed` does, from `old` to `new`.
    pub open spec fn after_endpoint_typed(old: Self, new: Self, text: String) -> bool {
        &&& new == (Ducktape { endpoint: text, endpoint_error: new.endpoint_error, error: new.error, ..old })
        &&& new.endpoint_error@.len() == 0
        &&& new.error@.len() == 0
    }

    /// A new address or a new try makes the last failure's sentence stale:
    /// it named a node this attempt is not about.
    pub fn endpoint_typed(&mut self, text: String)
        ensures
            Self::after_endpoint_typed(*old(self), *final(self), text),
    {
        self.endpoint = text;
        self.endpoint_error = String::new();
        self.error = String::new();
    }

    /// What `connect_to(origin)` does: the address becomes `origin`, the
    /// last failure goes, and a new attempt starts.
    pub open spec fn reaching(old: Self, new: Self, origin: String, effects: Seq<Effect>) -> bool {
        &&& new == (Ducktape {
            endpoint: origin,
            endpoint_error: new.endpoint_error,
            error: new.error,
            connecting: true,
            status: new.status,
            connect_generation: (old.connect_generation + 1) as u64,
            connect_pending: true,
            ..old
        })
        &&& new.endpoint_error@.len() == 0
        &&& new.error@.len() == 0
        &&& new.status@ == "Reaching "@ + origin@ + "…"@
        &&& effects == seq![Effect::Reach { origin: new.endpoint, generation: new.connect_generation }]
    }

    pub fn connect_to(&mut self, origin: String) -> (effects: Vec<Effect>)
        requires
            old(self).connect_generation < u64::MAX,
        ensures
            Self::reaching(*old(self), *final(self), origin, effects@),
    {
        let mut said: Vec<char> = Vec::new();
        push_str(&mut said, "Reaching ");
        push_str(&mut said, origin.as_str());
        push_str(&mut said, "…");
        self.status = string_of(&said);
        let reach = Effect::Reach { origin: origin.clone(), generation: self.connect_generation + 1 };
        self.endpoint = origin;
        self.endpoint_error = String::new();
        self.error = String::new();
        self.connecting = true;
        self.connect_generation = self.connect_generation + 1;
        self.connect_pending = true;
        let effects = vec![reach];
        assert(effects@ == seq![reach]);
        effects
    }

    /// What `connect_submit` does, from `old` to `new`.
    pub open spec fn after_connect_submit(old: Self, new: Self, origin: Option<String>, refusal: String, effects: Seq<Effect>) -> bool {
        match origin {
            Some(o) => Self::reaching(old, new, o, effects),
            None => {
                &&& new == (Ducktape { error: new.error, endpoint_error: refusal, ..old })
                &&& new.error@.len() == 0
                &&& effects.len() == 0
            },
        }
    }

    /// Connect: the address typed, as the origin it names (`origin`, if it
    /// names one); else `refusal` under the field.
    pub fn connect_submit(&mut self, origin: Option<String>, refusal: String) -> (effects: Vec<Effect>)
        requires
            old(self).connect_generation < u64::MAX,
        ensures
            Self::after_connect_submit(*old(self), *final(self), origin, refusal, effects@),
    {
        match origin {
            Some(origin) => self.connect_to(origin),
            None => {
                self.error = String::new();
                self.endpoint_error = refusal;
                Vec::new()
            },
        }
    }

    /// Who a failure to reach names: a node this device reached before is
    /// named by its network, the way the Recent list names it.
    pub fn failure_subject(&self) -> (who: String)
        ensures
            forall|i: int| names_endpoint(self.recent_endpoints@, self.endpoint@, i) ==> who@ == self.recent_endpoints@[i].network@ + " ("@ + self.recent_endpoints@[i].url@ + ")"@,
            (forall|i: int| 0 <= i < self.recent_endpoints@.len() ==> !(#[trigger] self.recent_endpoints@[i].url@ == self.endpoint@ && self.recent_endpoints@[i].network@.len() > 0)) ==> who@ == self.endpoint@,
    {
        let n = self.recent_endpoints.len();
        for i in 0..n
            invariant
                n == self.recent_endpoints@.len(),
                forall|j: int| 0 <= j < i ==> !(#[trigger] self.recent_endpoints@[j].url@ == self.endpoint@ && self.recent_endpoints@[j].network@.len() > 0),
        {
            let entry = &self.recent_endpoints[i];
            if same_text(entry.url.as_str(), self.endpoint.as_str()) && entry.network.unicode_len() > 0 {
                let mut who: Vec<char> = chars_of(entry.network.as_str());
                push_str(&mut who, " (");
                push_str(&mut who, entry.url.as_str());
                push_str(&mut who, ")");
                proof {
                    assert forall|k: int| names_endpoint(self.recent_endpoints@, self.endpoint@, k) implies k == i by {
                        if k < i {
                        } else if k > i {
                            assert(!(self.recent_endpoints@[i as int].url@ == self.endpoint@ && self.recent_endpoints@[i as int].network@.len() > 0));
                        }
                    }
                }
                return string_of(&who);
            }
        }
        self.endpoint.clone()
    }

    /// The refusal of a node that speaks another contract.
    pub fn contract_refusal(contract: u64, speaks: u64) -> (said: String)
        ensures
            said@ == "this node speaks contract "@ + decimal(contract as nat) + "; this app speaks "@ + decimal(speaks as nat),
    {
        let mut out: Vec<char> = Vec::new();
        push_str(&mut out, "this node speaks contract ");
        push_decimal(&mut out, contract);
        push_str(&mut out, "; this app speaks ");
        push_decimal(&mut out, speaks);
        string_of(&out)
    }

    /// A node answered the attempt `generation`: one from an attempt since
    /// replaced is dropped; otherwise the attempt is over, and the node is
    /// taken only if it speaks the contract `speaks`.
    pub fn node_answered(&mut self, generation: u64, contract: u64, speaks: u64) -> (answer: Answer)
        ensures
            generation != old(self).connect_generation ==> answer is Stale && *final(self) == *old(self),
            generation == old(self).connect_generation ==> {
                &&& *final(self) == (Ducktape { connect_pending: false, connecting: false, ..*old(self) })
                &&& (answer is Refused) == (contract != speaks)
                &&& (answer is Accepted) == (contract == speaks)
            },
    {
        if generation != self.connect_generation {
            return Answer::Stale;
        }
        self.connect_pending = false;
        self.connecting = false;
        if contract != speaks {
            Answer::Refused
        } else {
            Answer::Accepted
        }
    }

    /// What `connect_failed(generation, said)` does. A switch that did not
    /// land keeps the network in hand, as it was, and says the failure over
    /// it; with no network in hand the failure goes under the field.
    pub open spec fn failed(old: Self, new: Self, generation: u64, said: String) -> bool {
        if generation != old.connect_generation {
            new == old
        } else if old.connected {
            &&& new == (Ducktape {
                connect_pending: false,
                connecting: false,
                endpoint: new.endpoint,
                status: new.status,
                toast: said,
                toast_age: 0,
                ..old
            })
            &&& new.endpoint@ == old.connected_rpc@
            &&& new.status@ == connected_text(old.height as int)
        } else {
            &&& new == (Ducktape { connect_pending: false, connecting: false, status: new.status, error: said, ..old })
            &&& new.status@ == "Not connected"@
        }
    }

    /// The attempt `generation` failed, as `said` (the failure in words,
    /// naming [`Self::failure_subject`]).
    pub fn connect_failed(&mut self, generation: u64, said: String)
        ensures
            Self::failed(*old(self), *final(self), generation, said),
    {
        if generation != self.connect_generation {
            return;
        }
        self.connect_pending = false;
        self.connecting = false;
        if self.connected {
            self.endpoint = self.connected_rpc.clone();
            let mut status: Vec<char> = Vec::new();
            push_str(&mut status, "Connected · block ");
            push_signed(&mut status, self.height);
            self.status = string_of(&status);
            self.notice(said);
            return;
        }
        self.status = String::from_str("Not connected");
        self.error = said;
    }

    /// What `apply_status(status)` does: the height (and when it last
    /// moved), the answer kept whole, and — unless another node is being
    /// reached — the status line.
    pub open spec fn status_applied(old: Self, new: Self, status: NodeStatus) -> bool {
        let height = height_of(status.height);
        &&& new == (Ducktape {
            height,
            block_seen: if height != old.height { old.wall_now } else { old.block_seen },
            node: Some(status),
            status: new.status,
            ..old
        })
        &&& !old.connecting ==> new.status@ == "Connected · block "@ + decimal(status.height as nat)
        &&& old.connecting ==> new.status == old.status
    }

    pub fn apply_status(&mut self, status: NodeStatus)
        ensures
            Self::status_applied(*old(self), *final(self), status),
    {
        let height: i64 = if status.height <= i64::MAX as u64 { status.height as i64 } else { -1 };
        if height != self.height {
            self.block_seen = self.wall_now;
        }
        self.height = height;
        if !self.connecting {
            let mut said: Vec<char> = Vec::new();
            push_str(&mut said, "Connected · block ");
            push_decimal(&mut said, status.height);
            self.status = string_of(&said);
        }
        self.node = Some(status);
    }

    /// What `resolve_account()` asks: which account the seated key belongs
    /// to, once there is a key written in hex and a node in hand.
    pub open spec fn resolve_effects(self) -> Seq<Effect> {
        if hex_key(self.signer_key@) && self.signer_key@.len() > 0 && self.connected {
            seq![Effect::ResolveAccount { node: self.connected_rpc, network: self.network, key: self.signer_key }]
        } else {
            seq![]
        }
    }

    /// Asks the node which account the seated key belongs to; the answer
    /// lands as `account_resolved`. A failed ask keeps what the menu bar
    /// already shows — the next block asks again.
    pub fn resolve_account(&self) -> (effects: Vec<Effect>)
        ensures
            effects@ =~= self.resolve_effects(),
    {
        if !is_hex_key(self.signer_key.as_str()) || self.signer_key.unicode_len() == 0 || !self.connected {
            return Vec::new();
        }
        let e = Effect::ResolveAccount {
            node: self.connected_rpc.clone(),
            network: self.network.clone(),
            key: self.signer_key.clone(),
        };
        let effects = vec![e];
        assert(effects@ == seq![e]);
        effects
    }

    /// What `status_pushed` does, from `old` to `new`.
    pub open spec fn after_status_pushed(old: Self, new: Self, status: NodeStatus, effects: Seq<Effect>) -> bool {
        &&& ({
            let reset = Ducktape { status_misses: 0, ..old };
            Self::status_applied(reset, new, status)
        })
        &&& height_of(status.height) == old.height ==> effects.len() == 0
        &&& height_of(status.height) != old.height ==> effects == seq![Effect::CheckDeployments] + new.resolve_effects()
        &&& !new.lost()
    }

    /// A status poll answered: the misses are forgotten; a moved height
    /// has the deployments checked and the account asked again (a block
    /// may have created the account, or renamed it).
    pub fn status_pushed(&mut self, status: NodeStatus) -> (effects: Vec<Effect>)
        ensures
            Self::after_status_pushed(*old(self), *final(self), status, effects@),
    {
        let height: i64 = if status.height <= i64::MAX as u64 { status.height as i64 } else { -1 };
        let moved = height != self.height;
        self.status_misses = 0;
        self.apply_status(status);
        if !moved {
            return Vec::new();
        }
        let mut effects = vec![Effect::CheckDeployments];
        let mut asked = self.resolve_account();
        effects.append(&mut asked);
        assert(effects@ =~= seq![Effect::CheckDeployments] + self.resolve_effects());
        effects
    }

    /// What `status_missed` does, from `old` to `new`.
    pub open spec fn after_status_missed(old: Self, new: Self) -> bool {
        &&& new == (Ducktape {
            status_misses: if old.status_misses == u32::MAX { u32::MAX } else { (old.status_misses + 1) as u32 },
            status: new.status,
            ..old
        })
        &&& new.lost() ==> new.status@ == "Reconnecting…"@
        &&& !new.lost() ==> new.status == old.status
    }

    /// A status poll went unanswered: from [`crate::model::LOST_AFTER`] on
    /// the status says the node is not answering (the poll keeps running)
    /// until one lands.
    pub fn status_missed(&mut self)
        ensures
            Self::after_status_missed(*old(self), *final(self)),
    {
        self.status_misses = self.status_misses.saturating_add(1);
        if self.reconnecting() {
            self.status = String::from_str("Reconnecting…");
        }
    }

    /// What `account_resolved` does: an answer about another node or key
    /// (from before a switch) is dropped. Otherwise the key step, waiting
    /// on it, goes on — to the account step when the key holds no account,
    /// else to the desk — and the answer is kept.
    pub open spec fn account_taken(old: Self, new: Self, node: String, key: String, account: Option<(u64, String)>) -> bool {
        if node@ != old.connected_rpc@ || key@ != old.signer_key@ {
            new == old
        } else {
            &&& new == (Ducktape { stage: new.stage, account: Some(account), ..old })
            &&& (old.stage matches Stage::Unlock(step) && step.awaiting) ==> {
                if account is None {
                    crate::model::fresh_account(new.stage, Seq::empty())
                } else {
                    new.stage is Desk
                }
            }
            &&& !(old.stage matches Stage::Unlock(step) && step.awaiting) ==> new.stage == old.stage
        }
    }

    pub fn account_resolved(&mut self, node: String, key: String, account: Option<(u64, String)>)
        ensures
            Self::account_taken(*old(self), *final(self), node, key, account),
    {
        if !same_text(node.as_str(), self.connected_rpc.as_str()) || !same_text(key.as_str(), self.signer_key.as_str()) {
            return;
        }
        let awaiting = match &self.stage {
            Stage::Unlock(step) => step.awaiting,
            _ => false,
        };
        if awaiting {
            if account.is_none() {
                let step = crate::model::Account::new();
                assert(step.name@ =~= Seq::<char>::empty());
                self.set_stage(Stage::Account(step));
            } else {
                self.set_stage(Stage::Desk);
            }
        }
        self.account = Some(account);
    }

    /// What leaving a network does to everything but the keyring, which
    /// becomes `keyring` (`other_chain`, `key_exists` with it): its seated
    /// key (the seat is one for the whole app), the account it resolved to,
    /// the open view and its badges, what is open over the desk, and any
    /// sign-in half done, all go.
    pub open spec fn left_to(old: Self, new: Self, keyring: String, other_chain: bool, key_exists: bool) -> bool {
        &&& new == (Ducktape {
            sign_in: new.sign_in,
            stage: new.stage,
            account: None,
            active: None,
            badges: new.badges,
            overlay: None,
            node: None,
            keyring,
            other_chain,
            key_exists,
            signer_key: new.signer_key,
            ..old
        })
        &&& fresh_unlock(new.stage)
        &&& new.badges@.len() == 0
        &&& new.signer_key@.len() == 0
        &&& new.sign_in.unlock_error@.len() == 0
        &&& !new.sign_in.unlock_busy
        &&& !new.sign_in.seating
        &&& !new.sign_in.locked
        &&& new.sign_in.approve_code@.len() == 0
        &&& !new.sign_in.approve_found
    }

    /// What `leave_network()` does: everything that belonged to the network
    /// being left goes, its keyring too.
    pub open spec fn left(old: Self, new: Self) -> bool {
        Self::left_to(old, new, new.keyring, false, false) && new.keyring@.len() == 0
    }

    pub fn leave_network(&mut self) -> (effects: Vec<Effect>)
        ensures
            Self::left(*old(self), *final(self)),
            effects@ == seq![Effect::LeaveNetwork],
    {
        self.sign_in = SignIn::new();
        self.set_stage(Stage::Unlock(Unlock::new()));
        self.account = None;
        self.active = None;
        self.badges = Vec::new();
        self.overlay = None;
        self.node = None;
        self.keyring = String::new();
        self.other_chain = false;
        self.key_exists = false;
        crate::text::wipe(&mut self.signer_key);
        let effects = vec![Effect::LeaveNetwork];
        assert(effects@ == seq![Effect::LeaveNetwork]);
        effects
    }

    /// What `take_up(keyring, key_exists)` does: another chain than the
    /// last leaves it first; the connect screen gives way to the key step;
    /// the keyring becomes this one, with whether an old password-locked
    /// key is in it.
    pub open spec fn taken_up(old: Self, new: Self, keyring: Keyring, key_exists: bool, effects: Seq<Effect>) -> bool {
        if keyring.dir@ != old.keyring@ {
            &&& Self::left_to(old, new, keyring.dir, keyring.other_chain, key_exists)
            &&& effects == seq![Effect::LeaveNetwork]
        } else {
            &&& new == (Ducktape {
                stage: new.stage,
                keyring: keyring.dir,
                other_chain: keyring.other_chain,
                key_exists,
                ..old
            })
            &&& (old.stage is Connect) ==> fresh_unlock(new.stage)
            &&& !(old.stage is Connect) ==> new.stage == old.stage
            &&& effects.len() == 0
        }
    }

    /// The network `keyring` names becomes the one in hand. Another chain
    /// than the last (a switch, not a second node of the same network):
    /// nothing of the last one — its seated key, account, open view —
    /// carries over, and the key step comes first. A second node of the
    /// same network keeps the screen it was on.
    pub fn take_up(&mut self, keyring: Keyring, key_exists: bool) -> (effects: Vec<Effect>)
        ensures
            Self::taken_up(*old(self), *final(self), keyring, key_exists, effects@),
    {
        let effects = if !same_text(keyring.dir.as_str(), self.keyring.as_str()) {
            self.leave_network()
        } else {
            Vec::new()
        };
        if matches!(self.stage, Stage::Connect) {
            self.set_stage(Stage::Unlock(Unlock::new()));
        }
        self.keyring = keyring.dir;
        self.other_chain = keyring.other_chain;
        self.key_exists = key_exists;
        effects
    }

    /// What `take_network(..)` does once a node in this app's contract
    /// answered: the network `keyring` names is taken up, the node and the
    /// network become the ones in hand (`recent` as the nodes reached
    /// before, `chain` as the chain its links name), its status is applied,
    /// the console comes forward (opened under `fresh` if there is none),
    /// this device's key is opened, and the account of a seated key asked.
    pub open spec fn network_taken(
        old: Self,
        new: Self,
        origin: String,
        status: NodeStatus,
        keyring: Keyring,
        key_exists: bool,
        recent: Vec<RecentEndpoint>,
        chain: String,
        fresh: u64,
        effects: Seq<Effect>,
    ) -> bool {
        exists|up: Self, applied: Self, raised: Self, left: Seq<Effect>, raise: Seq<Effect>, opening: Seq<Effect>|
            #![trigger Self::taken_up(old, up, keyring, key_exists, left), Self::console_raised(applied, raised, fresh, raise), Self::key_opening(raised, new, opening)]
        {
            let joined = Ducktape {
                recent_endpoints: recent,
                connected_rpc: origin,
                network: status.network,
                chain,
                connected: true,
                status_misses: 0,
                ..up
            };
            &&& Self::taken_up(old, up, keyring, key_exists, left)
            &&& Self::status_applied(joined, applied, status)
            &&& Self::console_raised(applied, raised, fresh, raise)
            &&& Self::key_opening(raised, new, opening)
            &&& effects == left
                + seq![Effect::NetworkInHand { node: origin, network: status.network, chain }]
                + raise + opening + new.resolve_effects()
        }
    }

    pub fn take_network(
        &mut self,
        origin: String,
        status: NodeStatus,
        keyring: Keyring,
        key_exists: bool,
        recent: Vec<RecentEndpoint>,
        chain: String,
        fresh: u64,
    ) -> (effects: Vec<Effect>)
        ensures
            Self::network_taken(*old(self), *final(self), origin, status, keyring, key_exists, recent, chain, fresh, effects@),
    {
        let mut effects = self.take_up(keyring, key_exists);
        let ghost up = *self;
        let ghost left = effects@;
        self.recent_endpoints = recent;
        self.connected_rpc = origin.clone();
        self.network = status.network.clone();
        self.chain = chain.clone();
        self.connected = true;
        self.status_misses = 0;
        let ghost joined = *self;
        let network = status.network.clone();
        self.apply_status(status);
        let ghost applied = *self;
        effects.push(Effect::NetworkInHand { node: origin, network, chain });
        let mut raise = self.raise_console(fresh);
        let ghost raised = *self;
        let ghost raise_seq = raise@;
        effects.append(&mut raise);
        let mut opening = self.open_device_key();
        let ghost opening_seq = opening@;
        effects.append(&mut opening);
        let mut asked = self.resolve_account();
        effects.append(&mut asked);
        proof {
            assert(joined == (Ducktape {
                recent_endpoints: recent,
                connected_rpc: origin,
                network: status.network,
                chain,
                connected: true,
                status_misses: 0,
                ..up
            }));
            assert(effects@ == left
                + seq![Effect::NetworkInHand { node: origin, network: status.network, chain }]
                + raise_seq + opening_seq + self.resolve_effects());
        }
        effects
    }

    /// What `disconnect()` does: the attempt in flight is dropped, the node
    /// and the network in hand go, with everything that belonged to the
    /// network, and the connect screen comes back.
    pub open spec fn disconnected(old: Self, new: Self, effects: Seq<Effect>) -> bool {
        &&& exists|stage: Stage| #[trigger] fresh_unlock(stage) && Self::left(Ducktape {
                connect_generation: (old.connect_generation + 1) as u64,
                connect_pending: false,
                connected: false,
                connecting: false,
                status_misses: 0,
                connected_rpc: new.connected_rpc,
                network: new.network,
                chain: new.chain,
                status: new.status,
                ..old
            }, Ducktape { stage, ..new })
        &&& new.stage is Connect
        &&& new.connected_rpc@.len() == 0
        &&& new.network@.len() == 0
        &&& new.chain@.len() == 0
        &&& new.status@ == "Not connected"@
        &&& effects == seq![Effect::CancelReach, Effect::LeaveNetwork]
    }

    pub fn disconnect(&mut self) -> (effects: Vec<Effect>)
        requires
            old(self).connect_generation < u64::MAX,
        ensures
            Self::disconnected(*old(self), *final(self), effects@),
    {
        self.connect_generation = self.connect_generation + 1;
        self.connect_pending = false;
        self.connected = false;
        self.connecting = false;
        self.status_misses = 0;
        self.connected_rpc = String::new();
        self.network = String::new();
        self.chain = String::new();
        self.status = String::from_str("Not connected");
        let ghost cut = *self;
        let mut effects = vec![Effect::CancelReach];
        let mut left = self.leave_network();
        effects.append(&mut left);
        let ghost after = *self;
        self.stage = Stage::Connect;
        proof {
            assert(Self::left(cut, after));
            assert(after == (Ducktape { stage: after.stage, ..*self }));
            assert(fresh_unlock(after.stage));
            assert(cut == (Ducktape {
                connect_generation: (old(self).connect_generation + 1) as u64,
                connect_pending: false,
                connected: false,
                connecting: false,
                status_misses: 0,
                connected_rpc: self.connected_rpc,
                network: self.network,
                chain: self.chain,
                status: self.status,
                ..*old(self)
            }));
            assert(effects@ == seq![Effect::CancelReach, Effect::LeaveNetwork]);
        }
        effects
    }

    /// What `switch_network` does, from `old` to `new`.
    pub open spec fn after_switch_network(old: Self, new: Self, origin: String, effects: Seq<Effect>) -> bool {
        let closed = Ducktape {
            overlay: if old.overlay == Some(Overlay::Network) { None } else { old.overlay },
            ..old
        };
        if origin@ == old.connected_rpc@ && !old.connecting {
            new == closed && effects.len() == 0
        } else {
            Self::reaching(closed, new, origin, effects)
        }
    }

    /// Another node from the switcher: the switcher closes, and the node is
    /// reached — unless it is the one in hand and no other is being
    /// reached. Only once it answers does the console leave the network in
    /// hand.
    pub fn switch_network(&mut self, origin: String) -> (effects: Vec<Effect>)
        requires
            old(self).connect_generation < u64::MAX,
        ensures
            Self::after_switch_network(*old(self), *final(self), origin, effects@),
    {
        self.close(Overlay::Network);
        if same_text(origin.as_str(), self.connected_rpc.as_str()) && !self.connecting {
            return Vec::new();
        }
        self.connect_to(origin)
    }

    /// Forget `url` from the nodes reached before.
    pub fn forget_endpoint(&self, url: String) -> (effects: Vec<Effect>)
        ensures
            effects@ == seq![Effect::ForgetEndpoint(url)],
    {
        let effects = vec![Effect::ForgetEndpoint(url)];
        assert(effects@ == seq![Effect::ForgetEndpoint(url)]);
        effects
    }

    /// What `recent_read` does, from `old` to `new`.
    pub open spec fn after_recent_read(old: Self, new: Self, recent: Vec<RecentEndpoint>) -> bool {
        new == (Ducktape { recent_endpoints: recent, ..old })
    }

    /// The nodes reached before, as read again after a change.
    pub fn recent_read(&mut self, recent: Vec<RecentEndpoint>)
        ensures
            Self::after_recent_read(*old(self), *final(self), recent),
    {
        self.recent_endpoints = recent;
    }

    /// The status poll's beat: the node in hand is asked again.
    pub fn tick(&self) -> (effects: Vec<Effect>)
        ensures
            self.connected ==> effects@ == seq![Effect::PollStatus { node: self.connected_rpc }],
            !self.connected ==> effects@.len() == 0,
    {
        if !self.connected {
            return Vec::new();
        }
        let e = Effect::PollStatus { node: self.connected_rpc.clone() };
        let effects = vec![e];
        assert(effects@ == seq![e]);
        effects
    }
}

} // verus!
