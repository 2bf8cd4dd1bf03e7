//! The desk itself: the open view, its badge, links, toasts, the windows
//! and the tray.

use vstd::prelude::*;

use crate::model::{badge_in, badges_unique, without_badge, Appearance, Ducktape, Effect, TOAST_TICKS};
use crate::text::{chars_of, joined, push_all, push_str, same_text, string_of};

verus! {

/// A link, as the runtime read it.
pub enum Link {
    /// The short `duck://<view>/<route>`.
    View { module: &'static str, route: Option<String> },
    /// `duck://<chain>/<program>/<tail>`: the program named, whether a
    /// view here lists it (`listed`) and the module it interns to, the
    /// chain's id as links write it and its label, the tail's segments, and
    /// whether the view takes the tail joined with `/` as a route.
    Chain {
        program: String,
        listed: bool,
        module: &'static str,
        chain: String,
        label: String,
        tail: Vec<String>,
        route_valid: bool,
    },
    /// An ordinary web address.
    Web(String),
    Unknown,
}

/// What a view tells the app.
pub enum Intent {
    /// Its unread count.
    Badge(i64),
    /// A link to open.
    OpenLink(Link),
    /// It posted a notification (the dispatch redraws).
    Notified,
}

/// A notification centre row, picked: its link (if any), and the view it
/// came from and whether that view is still listed.
pub struct Notification {
    pub link: Option<Link>,
    pub module: &'static str,
    pub listed: bool,
}

/// The segments of a link's tail joined with `/`.
pub fn join_route(tail: &Vec<String>) -> (route: String)
    ensures
        route@ == joined(tail@.map_values(|s: String| s@), "/"@),
{
    let ghost parts = tail@.map_values(|s: String| s@);
    let mut out: Vec<char> = Vec::new();
    for i in 0..tail.len()
        invariant
            parts == tail@.map_values(|s: String| s@),
            out@ == joined(parts.take(i as int), "/"@),
    {
        if i > 0 {
            push_str(&mut out, "/");
        }
        let part = chars_of(tail[i].as_str());
        push_all(&mut out, &part);
        proof {
            let next = parts.take(i + 1);
            assert(next.drop_last() =~= parts.take(i as int));
            assert(out@ =~= joined(next, "/"@));
        }
    }
    assert(parts.take(tail@.len() as int) =~= parts);
    string_of(&out)
}

/// What `open_seat(module, route)` asks of the shell: the route handed to
/// the view first, then the seat opened on the desk.
pub open spec fn seat_effects(module: &'static str, route: Option<String>) -> Seq<Effect> {
    match route {
        Some(r) => seq![Effect::Route { module, route: r }, Effect::Open(module)],
        None => seq![Effect::Open(module)],
    }
}

impl Ducktape {
    /// What `set_appearance` does, from `old` to `new`.
    pub open spec fn after_set_appearance(old: Self, new: Self, mode: Appearance, effects: Seq<Effect>) -> bool {
        &&& new == (Ducktape { appearance: mode, ..old })
        &&& effects == seq![Effect::SaveAppearance(mode)]
    }

    pub fn set_appearance(&mut self, mode: Appearance) -> (effects: Vec<Effect>)
        ensures
            Self::after_set_appearance(*old(self), *final(self), mode, effects@),
    {
        self.appearance = mode;
        let effects = vec![Effect::SaveAppearance(mode)];
        assert(effects@ =~= seq![Effect::SaveAppearance(mode)]);
        effects
    }

    /// What `set_motion` does, from `old` to `new`.
    pub open spec fn after_set_motion(old: Self, new: Self, on: bool, effects: Seq<Effect>) -> bool {
        &&& new == (Ducktape { motion: on, ..old })
        &&& effects == seq![Effect::SaveMotion(on)]
    }

    pub fn set_motion(&mut self, on: bool) -> (effects: Vec<Effect>)
        ensures
            Self::after_set_motion(*old(self), *final(self), on, effects@),
    {
        self.motion = on;
        let effects = vec![Effect::SaveMotion(on)];
        assert(effects@ =~= seq![Effect::SaveMotion(on)]);
        effects
    }

    /// What `view_shown` does, from `old` to `new`.
    pub open spec fn after_view_shown(old: Self, new: Self, module: &'static str) -> bool {
        &&& new == (Ducktape { active: Some(module), badges: new.badges, ..old })
        &&& badge_in(new.badges@, module@) is None
        &&& forall|m: Seq<char>| m != module@ ==> badge_in(new.badges@, m) == badge_in(old.badges@, m)
        &&& (badges_unique(old.badges@) ==> badges_unique(new.badges@))
    }

    /// `module`'s view is the one in front: active, its badge read.
    pub fn view_shown(&mut self, module: &'static str)
        ensures
            Self::after_view_shown(*old(self), *final(self), module),
    {
        self.active = Some(module);
        self.badges = without_badge(&self.badges, module);
    }

    /// What `select_view` does, from `old` to `new`.
    pub open spec fn after_select_view(old: Self, new: Self, module: &'static str, effects: Seq<Effect>) -> bool {
        &&& new == (Ducktape { active: Some(module), badges: new.badges, ..old })
        &&& badge_in(new.badges@, module@) is None
        &&& forall|m: Seq<char>| m != module@ ==> badge_in(new.badges@, m) == badge_in(old.badges@, m)
        &&& (badges_unique(old.badges@) ==> badges_unique(new.badges@))
        &&& effects == seq![Effect::Select(module)]
    }

    /// Show a program on the desk (Spotlight, a menu).
    pub fn select_view(&mut self, module: &'static str) -> (effects: Vec<Effect>)
        ensures
            Self::after_select_view(*old(self), *final(self), module, effects@),
    {
        self.view_shown(module);
        let effects = vec![Effect::Select(module)];
        assert(effects@ =~= seq![Effect::Select(module)]);
        effects
    }

    /// What `set_badge` does, from `old` to `new`.
    pub open spec fn after_set_badge(old: Self, new: Self, module: &'static str, count: i64) -> bool {
        &&& new == (Ducktape { badges: new.badges, ..old })
        &&& badge_in(new.badges@, module@) == (if count > 0 { Some(count) } else { None })
        &&& forall|m: Seq<char>| m != module@ ==> badge_in(new.badges@, m) == badge_in(old.badges@, m)
        &&& (badges_unique(old.badges@) ==> badges_unique(new.badges@))
    }

    /// `module`'s unread count, as its view says it: a count above zero is
    /// kept, anything else clears the badge.
    pub fn set_badge(&mut self, module: &'static str, count: i64)
        ensures
            Self::after_set_badge(*old(self), *final(self), module, count),
    {
        let mut kept = without_badge(&self.badges, module);
        if count > 0 {
            let mut first: Vec<(&'static str, i64)> = Vec::new();
            first.push((module, count));
            let ghost rest = kept@;
            first.append(&mut kept);
            proof {
                assert(first@ =~= seq![(module, count)] + rest);
                assert(first@.drop_first() =~= rest);
                if badges_unique(old(self).badges@) {
                    assert forall|a: int, b: int| 0 <= a < b < first@.len() implies #[trigger] first@[a].0@ != #[trigger] first@[b].0@ by {
                        assert(first@[b] == rest[b - 1]);
                        if a > 0 {
                            assert(first@[a] == rest[a - 1]);
                        }
                    }
                }
            }
            self.badges = first;
        } else {
            self.badges = kept;
        }
    }

    /// What `notice` does, from `old` to `new`.
    pub open spec fn after_notice(old: Self, new: Self, said: String) -> bool {
        new == (Ducktape { toast: said, toast_age: 0, ..old })
    }

    /// Says `said` as a toast, fresh.
    pub fn notice(&mut self, said: String)
        ensures
            Self::after_notice(*old(self), *final(self), said),
    {
        self.toast = said;
        self.toast_age = 0;
    }

    /// What `open_seat` does, from `old` to `new`.
    pub open spec fn after_open_seat(old: Self, new: Self, module: &'static str, route: Option<String>, effects: Seq<Effect>) -> bool {
        &&& new == (Ducktape { active: Some(module), ..old })
        &&& effects == seat_effects(module, route)
    }

    /// `module`'s seat opened, handed `route` if there is one.
    pub fn open_seat(&mut self, module: &'static str, route: Option<String>) -> (effects: Vec<Effect>)
        ensures
            Self::after_open_seat(*old(self), *final(self), module, route, effects@),
    {
        self.active = Some(module);
        let effects = match route {
            Some(route) => vec![Effect::Route { module, route }, Effect::Open(module)],
            None => vec![Effect::Open(module)],
        };
        assert(effects@ =~= seat_effects(module, route));
        effects
    }

    /// What `open_link(link)` does: `duck://<chain>/<program>/<tail>` on
    /// this chain, or the short `duck://<view>/<route>`, opens the seat and
    /// hands its view the route. The window coming forward is the answer;
    /// a notice only says what there is nothing to see of.
    pub open spec fn link_opened(old: Self, new: Self, link: Link, effects: Seq<Effect>) -> bool {
        match link {
            Link::View { module, route } => {
                &&& new == (Ducktape { active: Some(module), ..old })
                &&& effects == seat_effects(module, route)
            },
            Link::Chain { program, listed, module, chain, label, tail, route_valid } => {
                let route = joined(tail@.map_values(|s: String| s@), "/"@);
                if !listed {
                    &&& new == (Ducktape { toast: new.toast, toast_age: 0, ..old })
                    &&& new.toast@ == "No view here opens "@ + program@ + " links."@
                    &&& effects.len() == 0
                } else if chain@ != old.chain@ {
                    &&& new == (Ducktape { active: Some(module), toast: new.toast, toast_age: 0, ..old })
                    &&& new.toast@ == "That link is to "@ + label@ + ", not this network; opened "@ + module@ + "."@
                    &&& effects == seat_effects(module, None)
                } else if route.len() == 0 || route_valid {
                    &&& new == (Ducktape { active: Some(module), ..old })
                    &&& if route.len() == 0 {
                        effects == seat_effects(module, None)
                    } else {
                        &&& effects.len() == 2
                        &&& effects[0] matches Effect::Route { module: m, route: r } && m == module && r@ == route
                        &&& effects[1] == Effect::Open(module)
                    }
                } else {
                    &&& new == (Ducktape { active: Some(module), toast: new.toast, toast_age: 0, ..old })
                    &&& new.toast@ == module@ + " can't open that part of the link."@
                    &&& effects == seat_effects(module, None)
                }
            },
            Link::Web(url) => new == old && effects == seq![Effect::OpenUrl(url)],
            Link::Unknown => {
                &&& new == (Ducktape { toast: new.toast, toast_age: 0, ..old })
                &&& new.toast@ == "This link is not one this app opens."@
                &&& effects.len() == 0
            },
        }
    }

    pub fn open_link(&mut self, link: Link) -> (effects: Vec<Effect>)
        ensures
            Self::link_opened(*old(self), *final(self), link, effects@),
    {
        match link {
            Link::View { module, route } => self.open_seat(module, route),
            Link::Chain { program, listed, module, chain, label, tail, route_valid } => {
                self.open_chain_link(program, listed, module, chain, label, tail, route_valid)
            },
            Link::Web(url) => {
                let e = vec![Effect::OpenUrl(url)];
                assert(e@ == seq![Effect::OpenUrl(url)]);
                e
            },
            Link::Unknown => {
                let said = String::from_str("This link is not one this app opens.");
                assert(said@ == "This link is not one this app opens."@);
                self.notice(said);
                let e: Vec<Effect> = Vec::new();
                assert(e@.len() == 0);
                e
            },
        }
    }

    #[verifier::rlimit(40)]
    fn open_chain_link(
        &mut self,
        program: String,
        listed: bool,
        module: &'static str,
        chain: String,
        label: String,
        tail: Vec<String>,
        route_valid: bool,
    ) -> (effects: Vec<Effect>)
        ensures
            Self::link_opened(*old(self), *final(self), Link::Chain { program, listed, module, chain, label, tail, route_valid }, effects@),
    {
        if !listed {
            let mut said: Vec<char> = Vec::new();
            push_str(&mut said, "No view here opens ");
            push_str(&mut said, program.as_str());
            push_str(&mut said, " links.");
            self.notice(string_of(&said));
            return Vec::new();
        }
        let route = join_route(&tail);
        if !same_text(chain.as_str(), self.chain.as_str()) {
            let effects = self.open_seat(module, None);
            let mut said: Vec<char> = Vec::new();
            push_str(&mut said, "That link is to ");
            push_str(&mut said, label.as_str());
            push_str(&mut said, ", not this network; opened ");
            push_str(&mut said, module);
            push_str(&mut said, ".");
            self.notice(string_of(&said));
            effects
        } else if route.unicode_len() == 0 || route_valid {
            let route = if route.unicode_len() == 0 { None } else { Some(route) };
            self.open_seat(module, route)
        } else {
            let effects = self.open_seat(module, None);
            let mut said: Vec<char> = chars_of(module);
            push_str(&mut said, " can't open that part of the link.");
            self.notice(string_of(&said));
            effects
        }
    }

    /// What `view_event` does, from `old` to `new`.
    pub open spec fn after_view_event(old: Self, new: Self, module: &'static str, intent: Intent, effects: Seq<Effect>) -> bool {
        match intent {
            Intent::Badge(count) => {
                &&& new == (Ducktape { badges: new.badges, ..old })
                &&& badge_in(new.badges@, module@) == (if count > 0 { Some(count) } else { None })
                &&& forall|m: Seq<char>| m != module@ ==> badge_in(new.badges@, m) == badge_in(old.badges@, m)
                &&& (badges_unique(old.badges@) ==> badges_unique(new.badges@))
        &&& (badges_unique(old.badges@) ==> badges_unique(new.badges@))
                &&& effects.len() == 0
            },
            Intent::OpenLink(link) => Self::link_opened(old, new, link, effects),
            Intent::Notified => new == old && effects.len() == 0,
        }
    }

    /// What a view's intent does: a count above zero badges it, any other
    /// count clears its badge, a link opens.
    pub fn view_event(&mut self, module: &'static str, intent: Intent) -> (effects: Vec<Effect>)
        ensures
            Self::after_view_event(*old(self), *final(self), module, intent, effects@),
    {
        match intent {
            Intent::Badge(count) => {
                self.set_badge(module, count);
                Vec::new()
            },
            Intent::OpenLink(link) => self.open_link(link),
            Intent::Notified => Vec::new(),
        }
    }

    /// What `show_toast` does, from `old` to `new`.
    pub open spec fn after_show_toast(old: Self, new: Self, said: String) -> bool {
        new == (Ducktape { toast: said, toast_age: 0, ..old })
    }

    pub fn show_toast(&mut self, said: String)
        ensures
            Self::after_show_toast(*old(self), *final(self), said),
    {
        self.notice(said);
    }

    /// What `dismiss_toast` does, from `old` to `new`.
    pub open spec fn after_dismiss_toast(old: Self, new: Self) -> bool {
        &&& new == (Ducktape { toast: new.toast, ..old })
        &&& new.toast@.len() == 0
    }

    pub fn dismiss_toast(&mut self)
        ensures
            Self::after_dismiss_toast(*old(self), *final(self)),
    {
        self.toast = String::new();
    }

    /// What `toast_tick` does, from `old` to `new`.
    pub open spec fn after_toast_tick(old: Self, new: Self) -> bool {
        &&& new == (Ducktape { toast: new.toast, toast_age: (old.toast_age + 1) as i64, ..old })
        &&& new.toast_age > TOAST_TICKS ==> new.toast@.len() == 0
        &&& new.toast_age <= TOAST_TICKS ==> new.toast == old.toast
    }

    /// A toast's tick: past [`TOAST_TICKS`] it fades.
    pub fn toast_tick(&mut self)
        requires
            old(self).toast_age < i64::MAX,
        ensures
            Self::after_toast_tick(*old(self), *final(self)),
    {
        self.toast_age = self.toast_age + 1;
        if self.toast_age > TOAST_TICKS {
            self.toast = String::new();
        }
    }

    /// What `wall_tick` does, from `old` to `new`.
    pub open spec fn after_wall_tick(old: Self, new: Self) -> bool {
        new == (Ducktape { wall_now: (old.wall_now + 1) as i64, ..old })
    }

    /// A second of the wall clock.
    pub fn wall_tick(&mut self)
        requires
            old(self).wall_now < i64::MAX,
        ensures
            Self::after_wall_tick(*old(self), *final(self)),
    {
        self.wall_now = self.wall_now + 1;
    }

    /// What `raise_console(fresh)` does: the console window is brought
    /// forward; with none, one is opened under the key `fresh`.
    pub open spec fn console_raised(old: Self, new: Self, fresh: u64, effects: Seq<Effect>) -> bool {
        match old.console_win {
            Some(key) => new == old && effects == seq![Effect::RaiseWindow(key)],
            None => new == (Ducktape { console_win: Some(fresh), ..old }) && effects == seq![Effect::OpenConsole(fresh)],
        }
    }

    pub fn raise_console(&mut self, fresh: u64) -> (effects: Vec<Effect>)
        ensures
            Self::console_raised(*old(self), *final(self), fresh, effects@),
    {
        let e = match self.console_win {
            Some(key) => Effect::RaiseWindow(key),
            None => {
                self.console_win = Some(fresh);
                Effect::OpenConsole(fresh)
            },
        };
        let effects = vec![e];
        assert(effects@ == seq![e]);
        effects
    }

    /// What `console_opened` does, from `old` to `new`.
    pub open spec fn after_console_opened(old: Self, new: Self, key: u64) -> bool {
        new == (Ducktape { console_win: Some(key), ..old })
    }

    pub fn console_opened(&mut self, key: u64)
        ensures
            Self::after_console_opened(*old(self), *final(self), key),
    {
        self.console_win = Some(key);
    }

    /// What `window_was_closed` does, from `old` to `new`.
    pub open spec fn after_window_was_closed(old: Self, new: Self, key: u64) -> bool {
        new == (Ducktape {
            console_win: if old.console_win == Some(key) { None } else { old.console_win },
            focused_win: if old.focused_win == Some(key) { None } else { old.focused_win },
            ..old
        })
    }

    /// A window went: it is neither the console nor focused any more.
    pub fn window_was_closed(&mut self, key: u64)
        ensures
            Self::after_window_was_closed(*old(self), *final(self), key),
    {
        if self.console_win == Some(key) {
            self.console_win = None;
        }
        if self.focused_win == Some(key) {
            self.focused_win = None;
        }
    }

    /// What `window_focused` does, from `old` to `new`.
    pub open spec fn after_window_focused(old: Self, new: Self, key: u64) -> bool {
        new == (Ducktape { focused_win: Some(key), ..old })
    }

    pub fn window_focused(&mut self, key: u64)
        ensures
            Self::after_window_focused(*old(self), *final(self), key),
    {
        self.focused_win = Some(key);
    }

    /// What `window_unfocused` does, from `old` to `new`.
    pub open spec fn after_window_unfocused(old: Self, new: Self, key: u64) -> bool {
        new == (Ducktape {
            focused_win: if old.focused_win == Some(key) { None } else { old.focused_win },
            ..old
        })
    }

    pub fn window_unfocused(&mut self, key: u64)
        ensures
            Self::after_window_unfocused(*old(self), *final(self), key),
    {
        if self.focused_win == Some(key) {
            self.focused_win = None;
        }
    }

    /// What `command_held` does, from `old` to `new`.
    pub open spec fn after_command_held(old: Self, new: Self, held: bool) -> bool {
        new == (Ducktape { cmd_held: held, ..old })
    }

    /// Whether ⌘ (Ctrl elsewhere) is held, as the keyboard last said.
    pub fn command_held(&mut self, held: bool)
        ensures
            Self::after_command_held(*old(self), *final(self), held),
    {
        self.cmd_held = held;
    }

    /// What `notify_open` does, from `old` to `new`.
    pub open spec fn after_notify_open(old: Self, new: Self, row: Option<Notification>, effects: Seq<Effect>) -> bool {
        let closed = Ducktape { overlay: if old.overlay matches Some(crate::model::Overlay::Menu(_)) { None } else { old.overlay }, ..old };
        match row {
            Some(Notification { link: Some(link), .. }) => Self::link_opened(closed, new, link, effects),
            Some(Notification { link: None, module, listed: true }) => {
                &&& new == (Ducktape { active: Some(module), ..closed })
                &&& effects == seat_effects(module, None)
            },
            _ => new == closed && effects.len() == 0,
        }
    }

    /// A notification centre row picked: read, and its link opened, or its
    /// view's seat if that view is still listed.
    pub fn notify_open(&mut self, row: Option<Notification>) -> (effects: Vec<Effect>)
        ensures
            Self::after_notify_open(*old(self), *final(self), row, effects@),
    {
        self.close_menu();
        match row {
            Some(Notification { link: Some(link), .. }) => self.open_link(link),
            Some(Notification { link: None, module, listed: true }) => self.open_seat(module, None),
            _ => Vec::new(),
        }
    }
}

} // verus!
