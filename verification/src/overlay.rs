//! What opens over the desk: Spotlight, Settings, the network switcher,
//! the bar's menus, and closing each.

use vstd::prelude::*;

use crate::model::{Appearance, Ducktape, Effect, Overlay, Popover, RecentEndpoint, SettingsPage};
use crate::names::{endpoint_name, host_text, RailRow};
use crate::text::{contains_text, holds_text, lower, lower_of, push_str, string_of, trim, trimmed, chars_of};

verus! {

/// What toggling `overlay` leaves open: it, or nothing if it was the one
/// open.
pub open spec fn toggled(open: Option<Overlay>, overlay: Overlay) -> Option<Overlay> {
    if open == Some(overlay) {
        None
    } else {
        Some(overlay)
    }
}

/// What is left open once the bar's menus close.
pub open spec fn menus_closed(open: Option<Overlay>) -> Option<Overlay> {
    if open matches Some(Overlay::Menu(_)) {
        None
    } else {
        open
    }
}

/// The pick after ↑ or ↓ among `rows` rows.
pub open spec fn moved_pick(pick: usize, down: bool, rows: usize) -> usize {
    if rows == 0 {
        0
    } else if down {
        if pick + 1 < rows { (pick + 1) as usize } else { (rows - 1) as usize }
    } else {
        if pick == 0 { 0 } else { (pick - 1) as usize }
    }
}

/// What a Spotlight row does when picked.
pub enum Spot {
    Open(&'static str),
    Switch(String),
    Settings,
    CreateAccount,
    Lock,
    Appearance(Appearance),
    OtherNetwork,
}

/// One Spotlight row, under its group's heading.
pub struct SpotRow {
    pub group: &'static str,
    pub title: String,
    pub meta: String,
    pub spot: Spot,
}

/// A row as the contracts read it: its group, title and detail as text,
/// and what it does.
pub type RowText = (Seq<char>, Seq<char>, Seq<char>, Spot);

pub open spec fn row_text(row: SpotRow) -> RowText {
    (row.group@, row.title@, row.meta@, row.spot)
}

pub open spec fn rows_text(rows: Seq<SpotRow>) -> Seq<RowText> {
    rows.map_values(|row: SpotRow| row_text(row))
}

/// A row for each program of the rail with a view, in the rail's order.
pub open spec fn program_rows(rail: Seq<RailRow>) -> Seq<RowText>
    decreases rail.len(),
{
    if rail.len() == 0 {
        seq![]
    } else {
        let before = program_rows(rail.drop_last());
        let last = rail.last();
        if last.empty {
            before
        } else {
            before.push(("Programs"@, last.label@, "Open"@, Spot::Open(last.module)))
        }
    }
}

/// A row for each node reached before but the one in hand.
pub open spec fn network_rows(recent: Seq<RecentEndpoint>, connected: Seq<char>) -> Seq<RowText>
    decreases recent.len(),
{
    if recent.len() == 0 {
        seq![]
    } else {
        let before = network_rows(recent.drop_last(), connected);
        let last = recent.last();
        if last.url@ == connected {
            before
        } else {
            before.push(("Networks"@, endpoint_name(last), host_text(last.url@), Spot::Switch(last.url)))
        }
    }
}

/// The things to do: Settings; Create account, for a seated key that
/// holds none; Lock, for a seated key; the three appearances; another
/// network.
pub open spec fn action_rows(state: Ducktape) -> Seq<RowText> {
    let seated = state.signer_key@.len() > 0;
    seq![("Actions"@, "Ducktape settings"@, "theme, networks"@, Spot::Settings)]
        + (if state.account == Some(None::<(u64, String)>) && seated {
            seq![("Actions"@, "Create account"@, state.network@, Spot::CreateAccount)]
        } else {
            seq![]
        })
        + (if seated { seq![("Actions"@, "Lock"@, "this device's key"@, Spot::Lock)] } else { seq![] })
        + seq![
            ("Actions"@, "Light appearance"@, Seq::<char>::empty(), Spot::Appearance(Appearance::Light)),
            ("Actions"@, "Dark appearance"@, Seq::<char>::empty(), Spot::Appearance(Appearance::Dark)),
            ("Actions"@, "Match the system's appearance"@, Seq::<char>::empty(), Spot::Appearance(Appearance::System)),
            ("Actions"@, "Add a network…"@, Seq::<char>::empty(), Spot::OtherNetwork),
        ]
}

/// Everything ⌘K offers, in the order shown: the network's programs, the
/// other networks this device reached, then things to do.
pub open spec fn offered_rows(state: Ducktape, rail: Seq<RailRow>) -> Seq<RowText> {
    program_rows(rail) + network_rows(state.recent_endpoints@, state.connected_rpc@) + action_rows(state)
}

/// The text typed, as rows are matched against it: trimmed, lower case.
pub open spec fn query_of(state: Ducktape) -> Seq<char> {
    lower_of(trimmed(state.spotlight_query@))
}

/// A row matches when its title or detail holds the text, ignoring case.
pub open spec fn row_shown(row: RowText, query: Seq<char>) -> bool {
    query.len() == 0 || holds_text(lower_of(row.1), query) || holds_text(lower_of(row.2), query)
}

/// The rows that match `query`, in their order.
pub open spec fn kept_rows(rows: Seq<RowText>, query: Seq<char>) -> Seq<RowText>
    decreases rows.len(),
{
    if rows.len() == 0 {
        seq![]
    } else {
        let before = kept_rows(rows.drop_last(), query);
        if row_shown(rows.last(), query) { before.push(rows.last()) } else { before }
    }
}

/// What ⌘K shows for the text typed.
pub open spec fn shown_rows(state: Ducktape, rail: Seq<RailRow>) -> Seq<RowText> {
    kept_rows(offered_rows(state, rail), query_of(state))
}

fn row(group: &'static str, title: String, meta: &str, spot: Spot) -> (made: SpotRow)
    ensures
        row_text(made) == (group@, title@, meta@, spot),
{
    SpotRow { group, title, meta: String::from_str(meta), spot }
}

fn push_row(rows: &mut Vec<SpotRow>, made: SpotRow)
    ensures
        rows_text(final(rows)@) == rows_text(old(rows)@).push(row_text(made)),
{
    rows.push(made);
    assert(rows_text(rows@) =~= rows_text(old(rows)@).push(row_text(made)));
}

impl Ducktape {
    /// `overlay` open, or closed if it was the one open.
    pub fn toggle(&mut self, overlay: Overlay)
        ensures
            *final(self) == (Ducktape { overlay: toggled(old(self).overlay, overlay), ..*old(self) }),
    {
        self.overlay = if self.overlay == Some(overlay) { None } else { Some(overlay) };
    }

    /// Whichever menu off the bar is open, closed.
    pub fn close_menu(&mut self)
        ensures
            *final(self) == (Ducktape { overlay: menus_closed(old(self).overlay), ..*old(self) }),
    {
        if matches!(self.overlay, Some(Overlay::Menu(_))) {
            self.overlay = None;
        }
    }

    /// What `close(overlay)` does: it closes if it is the one open, and what
    /// it held goes either way. Any menu off the bar closes for `Menu(_)`.
    pub open spec fn overlay_closed(old: Self, new: Self, overlay: Overlay) -> bool {
        match overlay {
            Overlay::Menu(_) => new == (Ducktape { overlay: menus_closed(old.overlay), ..old }),
            Overlay::Spotlight => {
                &&& new == (Ducktape {
                    spotlight_query: new.spotlight_query,
                    overlay: if old.overlay == Some(overlay) { None } else { old.overlay },
                    ..old
                })
                &&& new.spotlight_query@.len() == 0
            },
            Overlay::Approve => {
                &&& new == (Ducktape {
                    sign_in: crate::model::SignIn {
                        approve_found: false,
                        unlock_error: new.sign_in.unlock_error,
                        ..old.sign_in
                    },
                    overlay: if old.overlay == Some(overlay) { None } else { old.overlay },
                    ..old
                })
                &&& new.sign_in.unlock_error@.len() == 0
            },
            _ => new == (Ducktape { overlay: if old.overlay == Some(overlay) { None } else { old.overlay }, ..old }),
        }
    }

    /// `overlay` closed, if it is the one open, and what it held let go
    /// either way. Any menu off the bar closes for `Menu(_)`.
    #[verifier::rlimit(40)]
    pub fn close(&mut self, overlay: Overlay)
        ensures
            Self::overlay_closed(*old(self), *final(self), overlay),
    {
        match overlay {
            Overlay::Menu(_) => {
                self.close_menu();
                return;
            },
            Overlay::Spotlight => {
                self.spotlight_query = String::new();
            },
            Overlay::Approve => {
                self.sign_in.approve_found = false;
                self.sign_in.unlock_error = String::new();
            },
            Overlay::Settings | Overlay::Network => {},
        }
        if self.overlay == Some(overlay) {
            self.overlay = None;
        }
    }

    /// What `toggle_network_menu` does, from `old` to `new`.
    pub open spec fn after_toggle_network_menu(old: Self, new: Self) -> bool {
        new == (Ducktape { overlay: toggled(old.overlay, Overlay::Network), ..old })
    }

    pub fn toggle_network_menu(&mut self)
        ensures
            Self::after_toggle_network_menu(*old(self), *final(self)),
    {
        self.toggle(Overlay::Network);
    }

    /// What `toggle_popover` does, from `old` to `new`.
    pub open spec fn after_toggle_popover(old: Self, new: Self, which: Popover) -> bool {
        new == (Ducktape { overlay: toggled(old.overlay, Overlay::Menu(which)), ..old })
    }

    pub fn toggle_popover(&mut self, which: Popover)
        ensures
            Self::after_toggle_popover(*old(self), *final(self), which),
    {
        self.toggle(Overlay::Menu(which));
    }

    /// What `open_spotlight` does, from `old` to `new`.
    pub open spec fn after_open_spotlight(old: Self, new: Self) -> bool {
        &&& new == (Ducktape {
            overlay: Some(Overlay::Spotlight),
            spotlight_query: new.spotlight_query,
            spotlight_pick: 0,
            ..old
        })
        &&& new.spotlight_query@.len() == 0
    }

    /// ⌘K: Spotlight, empty, its first row picked.
    pub fn open_spotlight(&mut self)
        ensures
            Self::after_open_spotlight(*old(self), *final(self)),
    {
        self.overlay = Some(Overlay::Spotlight);
        self.spotlight_query = String::new();
        self.spotlight_pick = 0;
    }

    /// What `spotlight_typed` does, from `old` to `new`.
    pub open spec fn after_spotlight_typed(old: Self, new: Self, text: String) -> bool {
        new == (Ducktape { spotlight_query: text, spotlight_pick: 0, ..old })
    }

    pub fn spotlight_typed(&mut self, text: String)
        ensures
            Self::after_spotlight_typed(*old(self), *final(self), text),
    {
        self.spotlight_query = text;
        self.spotlight_pick = 0;
    }

    /// What `spotlight_move` does, from `old` to `new`.
    pub open spec fn after_spotlight_move(old: Self, new: Self, down: bool, rows: usize) -> bool {
        &&& new == (Ducktape { spotlight_pick: moved_pick(old.spotlight_pick, down, rows), ..old })
        &&& old.spotlight_pick < rows ==> new.spotlight_pick < rows
    }

    /// Up or down a row among `rows` shown: the pick stays on the rows.
    pub fn spotlight_move(&mut self, down: bool, rows: usize)
        ensures
            Self::after_spotlight_move(*old(self), *final(self), down, rows),
    {
        self.spotlight_pick = if rows == 0 {
            0
        } else if down {
            if self.spotlight_pick < rows - 1 { self.spotlight_pick + 1 } else { rows - 1 }
        } else {
            if self.spotlight_pick == 0 { 0 } else { self.spotlight_pick - 1 }
        };
    }

    /// What `open_settings` does, from `old` to `new`.
    pub open spec fn after_open_settings(old: Self, new: Self) -> bool {
        new == (Ducktape { overlay: Some(Overlay::Settings), ..old })
    }

    pub fn open_settings(&mut self)
        ensures
            Self::after_open_settings(*old(self), *final(self)),
    {
        self.overlay = Some(Overlay::Settings);
    }

    /// What `show_settings_page` does, from `old` to `new`.
    pub open spec fn after_show_settings_page(old: Self, new: Self, page: SettingsPage) -> bool {
        new == (Ducktape { settings_page: page, ..old })
    }

    pub fn show_settings_page(&mut self, page: SettingsPage)
        ensures
            Self::after_show_settings_page(*old(self), *final(self), page),
    {
        self.settings_page = page;
    }

    /// What `notify_settings` does, from `old` to `new`.
    pub open spec fn after_notify_settings(old: Self, new: Self) -> bool {
        new == (Ducktape {
            settings_page: SettingsPage::Notifications,
            overlay: Some(Overlay::Settings),
            ..old
        })
    }

    /// The centre's footer: Settings, on Notifications.
    pub fn notify_settings(&mut self)
        ensures
            Self::after_notify_settings(*old(self), *final(self)),
    {
        self.settings_page = SettingsPage::Notifications;
        self.open_settings();
    }

    /// What ⌘K offers for the text typed, in the order shown: the
    /// network's programs (`rail`), the other networks this device reached,
    /// then things to do. A row matches when its title or detail holds the
    /// text, ignoring case.
    pub fn spotlight_rows(&self, rail: &[RailRow]) -> (rows: Vec<SpotRow>)
        ensures
            rows_text(rows@) == shown_rows(*self, rail@),
    {
        let mut all: Vec<SpotRow> = Vec::new();
        let n = rail.len();
        for i in 0..n
            invariant
                n == rail@.len(),
                rows_text(all@) == program_rows(rail@.take(i as int)),
        {
            assert(rail@.take(i + 1).drop_last() =~= rail@.take(i as int));
            if !rail[i].empty {
                let made = row("Programs", rail[i].label.clone(), "Open", Spot::Open(rail[i].module));
                push_row(&mut all, made);
            }
        }
        assert(rail@.take(n as int) =~= rail@);
        let ghost programs = all@;
        let m = self.recent_endpoints.len();
        for i in 0..m
            invariant
                m == self.recent_endpoints@.len(),
                rows_text(all@) == rows_text(programs) + network_rows(self.recent_endpoints@.take(i as int), self.connected_rpc@),
                rows_text(programs) == program_rows(rail@),
        {
            let entry = &self.recent_endpoints[i];
            assert(self.recent_endpoints@.take(i + 1).drop_last() =~= self.recent_endpoints@.take(i as int));
            if !crate::text::same_text(entry.url.as_str(), self.connected_rpc.as_str()) {
                let host = entry.host();
                let made = SpotRow { group: "Networks", title: entry.name(), meta: host, spot: Spot::Switch(entry.url.clone()) };
                push_row(&mut all, made);
            }
        }
        assert(self.recent_endpoints@.take(m as int) =~= self.recent_endpoints@);
        let ghost listed = rows_text(all@);
        let seated = self.signer_key.unicode_len() > 0;
        push_row(&mut all, row("Actions", String::from_str("Ducktape settings"), "theme, networks", Spot::Settings));
        let ghost settings = rows_text(all@);
        if matches!(self.account, Some(None)) && seated {
            push_row(&mut all, row("Actions", String::from_str("Create account"), self.network.as_str(), Spot::CreateAccount));
        }
        let ghost created = rows_text(all@);
        if seated {
            push_row(&mut all, row("Actions", String::from_str("Lock"), "this device's key", Spot::Lock));
        }
        let ghost locked = rows_text(all@);
        let no_meta = String::new();
        push_row(&mut all, row("Actions", String::from_str("Light appearance"), no_meta.as_str(), Spot::Appearance(Appearance::Light)));
        push_row(&mut all, row("Actions", String::from_str("Dark appearance"), no_meta.as_str(), Spot::Appearance(Appearance::Dark)));
        push_row(&mut all, row("Actions", String::from_str("Match the system's appearance"), no_meta.as_str(), Spot::Appearance(Appearance::System)));
        push_row(&mut all, row("Actions", String::from_str("Add a network…"), no_meta.as_str(), Spot::OtherNetwork));
        proof {
            let ghost acts = action_rows(*self);
            let ghost r0 = seq![("Actions"@, "Ducktape settings"@, "theme, networks"@, Spot::Settings)];
            let ghost r1 = if self.account == Some(None::<(u64, String)>) && seated {
                seq![("Actions"@, "Create account"@, self.network@, Spot::CreateAccount)]
            } else {
                seq![]
            };
            let ghost r2 = if seated { seq![("Actions"@, "Lock"@, "this device's key"@, Spot::Lock)] } else { seq![] };
            assert(settings =~= listed + r0);
            assert(created =~= listed + r0 + r1);
            assert(locked =~= listed + r0 + r1 + r2);
            let ghost tail = seq![
                ("Actions"@, "Light appearance"@, Seq::<char>::empty(), Spot::Appearance(Appearance::Light)),
                ("Actions"@, "Dark appearance"@, Seq::<char>::empty(), Spot::Appearance(Appearance::Dark)),
                ("Actions"@, "Match the system's appearance"@, Seq::<char>::empty(), Spot::Appearance(Appearance::System)),
                ("Actions"@, "Add a network…"@, Seq::<char>::empty(), Spot::OtherNetwork),
            ];
            assert(rows_text(all@) =~= locked + tail);
            assert(acts =~= r0 + r1 + r2 + tail);
            assert(rows_text(all@) =~= listed + acts);
            assert(rows_text(all@) =~= offered_rows(*self, rail@));
        }
        let typed = chars_of(self.spotlight_query.as_str());
        let query = lower(string_of(&trim(&typed)).as_str());
        let q = query.unicode_len();
        let ghost offered = rows_text(all@);
        let mut rows: Vec<SpotRow> = Vec::new();
        let mut rest = all;
        let k = rest.len();
        let mut i: usize = 0;
        while i < k
            invariant
                k == offered.len(),
                i <= k,
                rest@.len() == k - i,
                forall|j: int| 0 <= j < k - i ==> #[trigger] row_text(rest@[j]) == offered[i + j],
                rows_text(rows@) == kept_rows(offered.take(i as int), query@),
                query@ == query_of(*self),
                q == query@.len(),
            decreases k - i,
        {
            let next = rest.remove(0);
            assert(row_text(next) == offered[i as int]);
            assert(offered.take(i + 1).drop_last() =~= offered.take(i as int));
            assert(offered.take(i + 1).last() == offered[i as int]);
            let keep = q == 0 || contains_text(lower(next.title.as_str()).as_str(), query.as_str())
                || contains_text(lower(next.meta.as_str()).as_str(), query.as_str());
            if keep {
                push_row(&mut rows, next);
            }
            i = i + 1;
        }
        assert(offered.take(k as int) =~= offered);
        rows
    }

    /// What picking `spot` does: Spotlight closes, and the row's action is
    /// taken — a program shown, another node reached, Settings opened, the
    /// account step, a lock, an appearance, or another network to connect.
    pub open spec fn spot_taken(old: Self, new: Self, spot: Spot, effects: Seq<Effect>) -> bool {
        exists|closed: Self| #[trigger] Self::overlay_closed(old, closed, Overlay::Spotlight) && match spot {
            Spot::Open(module) => Self::after_select_view(closed, new, module, effects),
            Spot::Switch(url) => Self::after_switch_network(closed, new, url, effects),
            Spot::Settings => Self::after_open_settings(closed, new) && effects.len() == 0,
            Spot::CreateAccount => Self::after_show_create_account(closed, new) && effects.len() == 0,
            Spot::Lock => Self::after_lock(closed, new, effects),
            Spot::Appearance(mode) => Self::after_set_appearance(closed, new, mode, effects),
            Spot::OtherNetwork => Self::disconnected(closed, new, effects),
        }
    }

    /// A Spotlight row picked: see [`Self::spot_taken`].
    pub fn spot(&mut self, spot: Spot) -> (effects: Vec<Effect>)
        requires
            old(self).connect_generation < u64::MAX,
        ensures
            Self::spot_taken(*old(self), *final(self), spot, effects@),
    {
        self.close(Overlay::Spotlight);
        let ghost closed = *self;
        match spot {
            Spot::Open(module) => self.select_view(module),
            Spot::Switch(url) => self.switch_network(url),
            Spot::Settings => {
                self.open_settings();
                Vec::new()
            },
            Spot::CreateAccount => {
                self.show_create_account();
                Vec::new()
            },
            Spot::Lock => self.lock(),
            Spot::Appearance(mode) => self.set_appearance(mode),
            Spot::OtherNetwork => self.disconnect(),
        }
    }

    /// What Enter in Spotlight does: the picked row's action, if a row is
    /// picked among those shown for `rail`.
    pub open spec fn submitted(old: Self, new: Self, rail: Seq<RailRow>, effects: Seq<Effect>) -> bool {
        let shown = shown_rows(old, rail);
        if old.spotlight_pick < shown.len() {
            Self::spot_taken(old, new, shown[old.spotlight_pick as int].3, effects)
        } else {
            new == old && effects.len() == 0
        }
    }

    /// Enter in Spotlight.
    pub fn spotlight_submit(&mut self, rail: &[RailRow]) -> (effects: Vec<Effect>)
        requires
            old(self).connect_generation < u64::MAX,
        ensures
            Self::submitted(*old(self), *final(self), rail@, effects@),
    {
        let mut rows = self.spotlight_rows(rail);
        if self.spotlight_pick >= rows.len() {
            return Vec::new();
        }
        let ghost before = rows@;
        let picked = rows.remove(self.spotlight_pick);
        assert(rows_text(before)[self.spotlight_pick as int] == row_text(picked));
        self.spot(picked.spot)
    }
}

} // verus!
