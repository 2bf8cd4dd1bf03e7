//! A desktop window: its panes, the views mounted for them, and the keys
//! its desk answers. The views themselves are the shell's; a window here
//! says which to mount, which to hide, and which is in front.

use vstd::prelude::*;

use crate::layout::{Halving, Layout, Pane};
use crate::model::{badge_in, Ducktape};
use crate::names::{host_of, host_text};
use crate::names::{openable, viewable, RailRow};
use crate::text::{ascii_lower, chars_of, push_all, push_str, same_text, string_of, to_ascii_lower};

verus! {

/// What a window is for: the console, or one program popped out of it.
pub enum WindowKind {
    Console,
    View { module: &'static str },
}

/// A view mounted for a pane: the pane's view number, and its program.
pub type Mounted = (u64, &'static str);

/// Some pane of `panes` is the view `instance`.
pub open spec fn placed<F>(panes: Seq<Pane<F>>, instance: u64) -> bool {
    exists|i: int| 0 <= i < panes.len() && panes[i].instance == instance
}

/// Some view of `views` is `instance`.
pub open spec fn mounts(views: Seq<Mounted>, instance: u64) -> bool {
    exists|k: int| 0 <= k < views.len() && views[k].0 == instance
}

/// The views of `views` whose pane is still placed (`keep`), or gone
/// (`!keep`), in their order.
pub open spec fn sorted_out<F>(views: Seq<Mounted>, panes: Seq<Pane<F>>, keep: bool) -> Seq<Mounted>
    decreases views.len(),
{
    if views.len() == 0 {
        seq![]
    } else {
        let before = sorted_out(views.drop_last(), panes, keep);
        if placed(panes, views.last().0) == keep { before.push(views.last()) } else { before }
    }
}

/// The views to mount for `panes` beside those in `have`: one for each
/// pane that shows something and has none yet, in the panes' order.
pub open spec fn to_mount<F>(panes: Seq<Pane<F>>, have: Seq<Mounted>) -> Seq<Mounted>
    decreases panes.len(),
{
    if panes.len() == 0 {
        seq![]
    } else {
        let before = to_mount(panes.drop_last(), have);
        let pane = panes.last();
        if pane.module@.len() > 0 && !mounts(have + before, pane.instance) {
            before.push((pane.instance, pane.module))
        } else {
            before
        }
    }
}

/// For each pane with a view mounted, in the panes' order: its view, and
/// whether it is the focused one.
pub open spec fn focus_flags<F>(panes: Seq<Pane<F>>, views: Seq<Mounted>, focused: int) -> Seq<(u64, bool)>
    decreases panes.len(),
{
    if panes.len() == 0 {
        seq![]
    } else {
        let before = focus_flags(panes.drop_last(), views, focused);
        let last = panes.len() - 1;
        if mounts(views, panes[last].instance) {
            before.push((panes[last].instance, last == focused))
        } else {
            before
        }
    }
}

/// What bringing the views in line with the panes did: the views whose
/// pane went (to hide), and those newly mounted.
pub struct Mounting {
    pub hidden: Vec<Mounted>,
    pub added: Vec<Mounted>,
}

/// What settling a window did: its views brought in line, the program in
/// front (it is the active one), and each mounted view told whether it is
/// focused.
pub struct Settled {
    pub mounting: Mounting,
    pub shown: Option<&'static str>,
    pub focus: Vec<(u64, bool)>,
}

/// What is done to one window's panes: the bar, a title bar's buttons.
pub enum PaneMessage {
    /// `module` in the focused pane (shift-click on the bar).
    Select(&'static str),
    /// A bar click: see `Layout::open`.
    Open(&'static str),
    /// Another pane showing `module`.
    Split(&'static str),
    /// The focused pane halved, the new half below (or beside).
    Halve { below: bool },
    /// The next window up, or back.
    Cycle { forward: bool },
    /// Up or down in an empty window's list of `rows`.
    Pick { down: bool, rows: usize },
    /// The pane into a window of its own.
    PopOut(usize),
    Close(usize),
    Focus(usize),
    /// This pop-out's pane back onto the console's desk.
    PopIn,
}

/// What a pane message did beyond the panes: a pane (and its view) that
/// leaves for another window, and whether this window goes.
pub struct PaneOutcome<F> {
    pub popped: Option<(Pane<F>, Mounted)>,
    pub close_window: bool,
    /// After `Close`: the pane closed, for the shell to give its frame to
    /// the window beside it.
    pub gone: Option<Pane<F>>,
    /// After `Halve`: whether below, and how the split went, for the shell
    /// to cut the frame.
    pub halved: Option<(bool, Halving<F>)>,
    pub settled: Settled,
}

/// `k` is the first view of `views` that is `instance`.
pub open spec fn first_view(views: Seq<Mounted>, instance: u64, k: int) -> bool {
    &&& 0 <= k < views.len()
    &&& views[k].0 == instance
    &&& forall|j: int| 0 <= j < k ==> views[j].0 != instance
}

/// What taking the view `instance` out of `views` leaves, handing back
/// `taken`: the first such view, if there is one.
pub open spec fn taken_out(views: Seq<Mounted>, instance: u64, left: Seq<Mounted>, taken: Option<Mounted>) -> bool {
    if mounts(views, instance) {
        exists|k: int| #[trigger] first_view(views, instance, k) && taken == Some(views[k]) && left == views.remove(k)
    } else {
        taken is None && left == views
    }
}

/// Takes the view `instance` out of `views`, if it is there.
fn take_view(views: &mut Vec<Mounted>, instance: u64) -> (taken: Option<Mounted>)
    ensures
        taken_out(old(views)@, instance, final(views)@, taken),
{
    let n = views.len();
    for k in 0..n
        invariant
            n == views@.len(),
            views@ == old(views)@,
            forall|j: int| 0 <= j < k ==> views@[j].0 != instance,
    {
        if views[k].0 == instance {
            let view = views.remove(k);
            assert(first_view(old(views)@, instance, k as int));
            return Some(view);
        }
    }
    None
}

/// A key pressed on a desk: its name as the keyboard reports it, and the
/// modifiers held (`command` is ⌘ on a Mac, Ctrl elsewhere).
pub struct KeyPress {
    pub name: String,
    pub command: bool,
    pub shift: bool,
    pub control: bool,
    pub alt: bool,
}

/// What a key did on a desk.
pub enum KeyOutcome<F> {
    /// Not the desk's key.
    NotOurs,
    /// The empty window's list moved its pick, or had nothing there: it
    /// redraws.
    Redraw,
    /// The panes moved and the window settled. After ⌘D, `halved` says
    /// whether the new half goes below (⇧) and how the split went, for the
    /// shell to cut the frame.
    Settled { halved: Option<(bool, Halving<F>)>, settled: Settled },
}

/// A key's name with its ASCII letters in lower case.
pub open spec fn key_name(name: Seq<char>) -> Seq<char> {
    name.map_values(|c: char| ascii_lower(c))
}

/// The digit 1 to 9 a key's name is, if it is one.
pub open spec fn digit_key(name: Seq<char>) -> Option<usize> {
    if name.len() == 1 && '1' <= name[0] && name[0] <= '9' {
        Some((name[0] as int - '0' as int) as usize)
    } else {
        None
    }
}

/// A key's name, lower-cased.
fn lowered(name: &str) -> (out: String)
    ensures
        out@ == key_name(name@),
{
    let chars = chars_of(name);
    let mut out: Vec<char> = Vec::new();
    for i in 0..chars.len()
        invariant
            chars@ == name@,
            out@ == key_name(name@.take(i as int)),
    {
        out.push(to_ascii_lower(chars[i]));
        assert(key_name(name@.take(i + 1)) =~= key_name(name@.take(i as int)).push(ascii_lower(name@[i as int])));
    }
    assert(name@.take(chars@.len() as int) =~= name@);
    string_of(&out)
}

/// The digit a (lower-cased) key's name is.
fn digit_of(name: &str) -> (digit: Option<usize>)
    ensures
        digit == digit_key(name@),
{
    if name.unicode_len() != 1 {
        return None;
    }
    let c = name.get_char(0);
    if '1' <= c && c <= '9' {
        Some(((c as u32) - ('0' as u32)) as usize)
    } else {
        None
    }
}

/// One desktop window.
pub struct DesktopWindow<F> {
    pub kind: WindowKind,
    pub layout: Layout<F>,
    /// The views mounted here, by their panes' view numbers.
    pub mounted: Vec<Mounted>,
    /// Something was shown here: an untouched window no longer opens a
    /// program on its own.
    pub initialized: bool,
}

/// Whether `views` holds the view `instance`.
fn holds_view(views: &Vec<Mounted>, instance: u64) -> (found: bool)
    ensures
        found == mounts(views@, instance),
{
    for k in 0..views.len()
        invariant
            forall|j: int| 0 <= j < k ==> views@[j].0 != instance,
    {
        if views[k].0 == instance {
            return true;
        }
    }
    false
}

impl<F: Copy> DesktopWindow<F> {
    /// A window of `kind`, with no pane yet.
    pub fn new(kind: WindowKind) -> (window: Self)
        ensures
            window.kind == kind,
            window.layout.panes@.len() == 0,
            window.layout.wf(),
            window.layout.top == 0,
            window.layout.pick == 0,
            window.mounted@.len() == 0,
            !window.initialized,
    {
        DesktopWindow { kind, layout: Layout::new(), mounted: Vec::new(), initialized: false }
    }

    /// Whether some pane of the layout is the view `instance`.
    fn placed_here(&self, instance: u64) -> (found: bool)
        ensures
            found == placed(self.layout.panes@, instance),
    {
        for i in 0..self.layout.panes.len()
            invariant
                forall|j: int| 0 <= j < i ==> self.layout.panes@[j].instance != instance,
        {
            if self.layout.panes[i].instance == instance {
                return true;
            }
        }
        false
    }

    /// The focused pane's view, if it has one mounted.
    pub fn focused_view(&self) -> (view: Option<u64>)
        ensures
            ({
                let panes = self.layout.panes@;
                let f = self.layout.focused as int;
                if f < panes.len() && mounts(self.mounted@, panes[f].instance) {
                    view == Some(panes[f].instance)
                } else {
                    view is None
                }
            }),
    {
        if self.layout.focused >= self.layout.panes.len() {
            return None;
        }
        let instance = self.layout.panes[self.layout.focused].instance;
        if holds_view(&self.mounted, instance) { Some(instance) } else { None }
    }

    /// What `sync_panes()` does: the views whose pane went are let go, and
    /// each pane that shows something and has no view gets one.
    pub open spec fn synced(old: Self, new: Self, done: Mounting) -> bool {
        let kept = sorted_out(old.mounted@, old.layout.panes@, true);
        &&& done.hidden@ == sorted_out(old.mounted@, old.layout.panes@, false)
        &&& done.added@ == to_mount(old.layout.panes@, kept)
        &&& new.mounted@ == kept + done.added@
        &&& new == (DesktopWindow { mounted: new.mounted, ..old })
    }

    /// The views brought in line with the panes.
    pub fn sync_panes(&mut self) -> (done: Mounting)
        ensures
            Self::synced(*old(self), *final(self), done),
    {
        let ghost panes = self.layout.panes@;
        let mut kept: Vec<Mounted> = Vec::new();
        let mut hidden: Vec<Mounted> = Vec::new();
        let n = self.mounted.len();
        for k in 0..n
            invariant
                n == self.mounted@.len(),
                self.mounted@ == old(self).mounted@,
                self.layout.panes@ == panes,
                kept@ == sorted_out(self.mounted@.take(k as int), panes, true),
                hidden@ == sorted_out(self.mounted@.take(k as int), panes, false),
        {
            assert(self.mounted@.take(k + 1).drop_last() =~= self.mounted@.take(k as int));
            let view = self.mounted[k];
            if self.placed_here(view.0) {
                kept.push(view);
            } else {
                hidden.push(view);
            }
        }
        assert(self.mounted@.take(n as int) =~= self.mounted@);
        self.mounted = kept;
        let ghost have = self.mounted@;
        let mut added: Vec<Mounted> = Vec::new();
        let m = self.layout.panes.len();
        for i in 0..m
            invariant
                m == panes.len(),
                self.layout.panes@ == panes,
                self.layout == old(self).layout,
                self.kind == old(self).kind,
                self.initialized == old(self).initialized,
                added@ == to_mount(panes.take(i as int), have),
                self.mounted@ == have + added@,
        {
            assert(panes.take(i + 1).drop_last() =~= panes.take(i as int));
            let pane = &self.layout.panes[i];
            if !pane.is_empty() && !holds_view(&self.mounted, pane.instance) {
                let view = (pane.instance, pane.module);
                added.push(view);
                self.mounted.push(view);
                assert(self.mounted@ =~= have + added@);
            }
        }
        assert(panes.take(m as int) =~= panes);
        Mounting { hidden, added }
    }

    /// The program the focused pane shows, if it shows one.
    pub open spec fn in_front(self) -> Option<&'static str> {
        let panes = self.layout.panes@;
        let f = self.layout.focused as int;
        if f < panes.len() && panes[f].module@.len() > 0 { Some(panes[f].module) } else { None }
    }

    /// What `settle()` does: the views brought in line, the program in
    /// front named, each mounted view told whether it is the focused one.
    pub open spec fn settled(old: Self, new: Self, done: Settled) -> bool {
        &&& Self::synced(old, new, done.mounting)
        &&& done.shown == new.in_front()
        &&& done.focus@ == focus_flags(new.layout.panes@, new.mounted@, new.layout.focused as int)
    }

    /// After the panes changed: views mounted for them, the focused one
    /// told so, and the program in front named (it is the active one).
    pub fn settle(&mut self) -> (done: Settled)
        ensures
            Self::settled(*old(self), *final(self), done),
    {
        let mounting = self.sync_panes();
        let shown = if self.layout.focused < self.layout.panes.len() && !self.layout.panes[self.layout.focused].is_empty() {
            Some(self.layout.panes[self.layout.focused].module)
        } else {
            None
        };
        let ghost panes = self.layout.panes@;
        let mut focus: Vec<(u64, bool)> = Vec::new();
        let n = self.layout.panes.len();
        for i in 0..n
            invariant
                n == panes.len(),
                self.layout.panes@ == panes,
                focus@ == focus_flags(panes.take(i as int), self.mounted@, self.layout.focused as int),
        {
            assert(panes.take(i + 1).drop_last() =~= panes.take(i as int));
            assert(panes.take(i + 1)[i as int] == panes[i as int]);
            let instance = self.layout.panes[i].instance;
            if holds_view(&self.mounted, instance) {
                focus.push((instance, i == self.layout.focused));
            }
        }
        assert(panes.take(n as int) =~= panes);
        Settled { mounting, shown, focus }
    }

    /// What `initialize_panes(module)` does: an untouched window selects
    /// the program it was opened for (a popped-out view's), else `module`
    /// if there is one, and is no longer untouched; then its views are
    /// brought in line.
    pub open spec fn initialized_with(old: Self, new: Self, module: Option<&'static str>, fresh: u64, done: Mounting) -> bool {
        let seed = match old.kind {
            WindowKind::View { module: own } => Some(own),
            WindowKind::Console => module,
        };
        if !old.initialized && seed is Some {
            Self::seeded(old, new, seed->0, fresh, done)
        } else {
            Self::synced(old, new, done)
        }
    }

    /// `seed` selected in the layout, the window touched, then its views
    /// brought in line.
    pub open spec fn seeded(old: Self, new: Self, seed: &'static str, fresh: u64, done: Mounting) -> bool {
        exists|layout: Layout<F>, changed: bool| #[trigger] Layout::selected(old.layout, layout, seed, fresh, changed)
            && Self::synced(DesktopWindow { layout, initialized: true, ..old }, new, done)
    }

    pub fn initialize_panes(&mut self, module: Option<&'static str>, fresh: u64) -> (done: Mounting)
        requires
            old(self).layout.wf(),
            old(self).layout.room(),
        ensures
            Self::initialized_with(*old(self), *final(self), module, fresh, done),
            final(self).layout.wf(),
    {
        if !self.initialized {
            let seed = match self.kind {
                WindowKind::View { module: own } => Some(own),
                WindowKind::Console => module,
            };
            if let Some(seed) = seed {
                let changed = self.layout.select(seed, fresh);
                self.initialized = true;
                let ghost picked = self.layout;
                let done = self.sync_panes();
                assert(Layout::selected(old(self).layout, picked, seed, fresh, changed));
                return done;
            }
        }
        self.sync_panes()
    }

    /// What `open_view(module)` does: the window is touched, `module` opens
    /// as the menu bar opens it ([`Layout::opened`]), and the window
    /// settles.
    pub open spec fn view_opened(old: Self, new: Self, module: &'static str, fresh: u64, done: Settled) -> bool {
        exists|layout: Layout<F>, changed: bool| #[trigger] Layout::opened(old.layout, layout, module, fresh, changed)
            && Self::settled(DesktopWindow { layout, initialized: true, ..old }, new, done)
    }

    /// A menu bar click, or a pick in an empty window.
    pub fn open_view(&mut self, module: &'static str, fresh: u64) -> (done: Settled)
        requires
            old(self).layout.wf(),
            old(self).layout.room(),
        ensures
            Self::view_opened(*old(self), *final(self), module, fresh, done),
            final(self).layout.wf(),
    {
        self.initialized = true;
        self.layout.open(module, fresh);
        self.settle()
    }

    /// The node reached, as the drawing's caption: "testkit · 127.0.0.1:8844".
    pub fn where_(network: &str, connected_rpc: &str) -> (out: String)
        ensures
            out@ == network@ + " · "@ + host_text(connected_rpc@),
    {
        let host = host_of(connected_rpc);
        let mut out: Vec<char> = chars_of(network);
        push_str(&mut out, " · ");
        push_all(&mut out, &host);
        string_of(&out)
    }

    /// What one pane message does to the panes, before the window settles.
    pub open spec fn pane_step(
        old: Self,
        new: Self,
        message: PaneMessage,
        fresh: u64,
        console: bool,
        popped: Option<(Pane<F>, Mounted)>,
        close_window: bool,
        halved: Option<(bool, Halving<F>)>,
        gone: Option<Pane<F>>,
    ) -> bool {
        let panes = old.layout.panes@;
        &&& message is Halve || halved is None
        &&& message is Close || gone is None
        &&& match message {
            PaneMessage::Select(module) => {
                &&& exists|changed: bool| #[trigger] Layout::selected(old.layout, new.layout, module, fresh, changed)
                &&& new == (DesktopWindow { layout: new.layout, ..old })
                &&& popped is None && !close_window
            },
            PaneMessage::Open(module) => {
                &&& exists|changed: bool| #[trigger] Layout::opened(old.layout, new.layout, module, fresh, changed)
                &&& new == (DesktopWindow { layout: new.layout, ..old })
                &&& popped is None && !close_window
            },
            PaneMessage::Halve { below } => {
                &&& halved matches Some((b, done)) && b == below && Layout::halved(old.layout, new.layout, fresh, done)
                &&& new == (DesktopWindow { layout: new.layout, ..old })
                &&& popped is None && !close_window
            },
            PaneMessage::Cycle { forward } => {
                &&& exists|moved: bool| #[trigger] Layout::cycled(old.layout, new.layout, forward, moved)
                &&& new == (DesktopWindow { layout: new.layout, ..old })
                &&& popped is None && !close_window
            },
            PaneMessage::Pick { down, rows } => {
                let last: int = if rows == 0 { 0 } else { rows - 1 };
                let pick: int = if old.layout.pick < last { old.layout.pick as int } else { last };
                let moved: int = if down { if pick + 1 < last { pick + 1 } else { last } } else { if pick == 0 { 0 } else { pick - 1 } };
                &&& new == (DesktopWindow { layout: Layout { pick: moved as usize, ..old.layout }, ..old })
                &&& popped is None && !close_window
            },
            PaneMessage::Split(module) => {
                &&& exists|opened: bool| #[trigger] Layout::split_into(old.layout, new.layout, module, fresh, opened)
                &&& new == (DesktopWindow { layout: new.layout, ..old })
                &&& popped is None && !close_window
            },
            PaneMessage::Focus(index) => {
                &&& exists|changed: bool| #[trigger] Layout::focused_on(old.layout, new.layout, index as int, changed)
                &&& new == (DesktopWindow { layout: new.layout, ..old })
                &&& popped is None && !close_window
            },
            PaneMessage::Close(index) => {
                &&& Layout::closed(old.layout, new.layout, index as int, gone)
                &&& new == (DesktopWindow { layout: new.layout, ..old })
                &&& popped is None
                &&& close_window == (old.kind is View)
            },
            PaneMessage::PopOut(index) => if index >= panes.len() || panes[index as int].module@.len() == 0 {
                new == old && popped is None && !close_window
            } else {
                Self::handed_out(old, new, index as int, popped) && !close_window
            },
            PaneMessage::PopIn => if !console || panes.len() == 0 {
                new == old && popped is None && !close_window
            } else {
                Self::handed_out(old, new, 0, popped) && close_window == (popped is Some)
            },
        }
    }

    /// Pane `index` taken out, and its view with it: the two leave
    /// together if it has one.
    pub open spec fn handed_out(old: Self, new: Self, index: int, popped: Option<(Pane<F>, Mounted)>) -> bool {
        let pane = old.layout.panes@[index];
        &&& Layout::closed(old.layout, new.layout, index, Some(pane))
        &&& exists|taken: Option<Mounted>| #[trigger] taken_out(old.mounted@, pane.instance, new.mounted@, taken)
            && popped == (match taken { Some(view) => Some((pane, view)), None => None })
        &&& new == (DesktopWindow { layout: new.layout, mounted: new.mounted, ..old })
    }

    /// What `pane_message(message)` does: the window is touched, the
    /// message moves its panes ([`Self::pane_step`]; `console` says whether
    /// a console window other than this one is open to take a pane back),
    /// and the window settles.
    pub open spec fn pane_moved(old: Self, new: Self, message: PaneMessage, fresh: u64, console: bool, out: PaneOutcome<F>) -> bool {
        exists|moved: Self| #[trigger] Self::pane_step(DesktopWindow { initialized: true, ..old }, moved, message, fresh, console, out.popped, out.close_window, out.halved, out.gone)
            && Self::settled(moved, new, out.settled)
    }

    /// Pane `index` and its view, taken out to leave this window.
    fn hand_out(&mut self, index: usize) -> (popped: Option<(Pane<F>, Mounted)>)
        requires
            old(self).layout.wf(),
            index < old(self).layout.panes@.len(),
        ensures
            Self::handed_out(*old(self), *final(self), index as int, popped),
            final(self).layout.wf(),
    {
        let ghost pane_before = self.layout.panes@[index as int];
        let gone = self.layout.close(index);
        let pane = gone.unwrap();
        let taken = take_view(&mut self.mounted, pane.instance);
        match taken {
            Some(view) => Some((pane, view)),
            None => None,
        }
    }

    pub fn pane_message(&mut self, message: PaneMessage, fresh: u64, console: bool) -> (out: PaneOutcome<F>)
        requires
            old(self).layout.wf(),
            old(self).layout.room(),
        ensures
            Self::pane_moved(*old(self), *final(self), message, fresh, console, out),
            final(self).layout.wf(),
            out.settled.shown == final(self).in_front(),
    {
        self.initialized = true;
        let ghost touched = *self;
        let mut popped: Option<(Pane<F>, Mounted)> = None;
        let mut close_window = false;
        let mut halved: Option<(bool, Halving<F>)> = None;
        let mut gone: Option<Pane<F>> = None;
        match message {
            PaneMessage::Select(module) => {
                let changed = self.layout.select(module, fresh);
                assert(Layout::selected(touched.layout, self.layout, module, fresh, changed));
            },
            PaneMessage::Open(module) => {
                let changed = self.layout.open(module, fresh);
                assert(Layout::opened(touched.layout, self.layout, module, fresh, changed));
            },
            PaneMessage::Halve { below } => {
                let done = self.layout.halve(fresh);
                halved = Some((below, done));
            },
            PaneMessage::Cycle { forward } => {
                let moved = self.layout.cycle(forward);
                assert(Layout::cycled(touched.layout, self.layout, forward, moved));
            },
            PaneMessage::Pick { down, rows } => {
                let last: usize = if rows == 0 { 0 } else { rows - 1 };
                let pick: usize = if self.layout.pick < last { self.layout.pick } else { last };
                self.layout.pick = if down {
                    if pick + 1 < last { pick + 1 } else { last }
                } else {
                    if pick == 0 { 0 } else { pick - 1 }
                };
            },
            PaneMessage::Split(module) => {
                let opened = self.layout.split(module, fresh);
                assert(Layout::split_into(touched.layout, self.layout, module, fresh, opened));
            },
            PaneMessage::Focus(index) => {
                let changed = self.layout.focus(index);
                assert(Layout::focused_on(touched.layout, self.layout, index as int, changed));
            },
            PaneMessage::Close(index) => {
                gone = self.layout.close(index);
                close_window = matches!(self.kind, WindowKind::View { .. });
            },
            PaneMessage::PopOut(index) => {
                if index < self.layout.panes.len() && !self.layout.panes[index].is_empty() {
                    popped = self.hand_out(index);
                }
            },
            PaneMessage::PopIn => {
                if console && self.layout.panes.len() > 0 {
                    popped = self.hand_out(0);
                    close_window = popped.is_some();
                }
            },
        }
        let ghost moved = *self;
        assert(Self::pane_step(touched, moved, message, fresh, console, popped, close_window, halved, gone));
        let settled = self.settle();
        assert(touched == DesktopWindow { initialized: true, ..*old(self) });
        let out = PaneOutcome { popped, close_window, halved, gone, settled };
        assert(Self::pane_step(DesktopWindow { initialized: true, ..*old(self) }, moved, message, fresh, console, out.popped, out.close_window, out.halved, out.gone)
            && Self::settled(moved, *self, out.settled));
        out
    }

    /// What `take_in(pane, view)` does: the pane lands here as
    /// [`Layout::popin`] lands it, its view mounted with it, the window is
    /// touched, and it settles (a view displaced at capacity is let go).
    pub open spec fn took_in(old: Self, new: Self, pane: Pane<F>, view: Mounted, done: Settled) -> bool {
        exists|landed: Self| {
            &&& #[trigger] landed.mounted@ == old.mounted@.push(view)
            &&& exists|displaced: Option<Pane<F>>| #[trigger] Layout::popped_in(old.layout, landed.layout, pane, displaced)
            &&& landed == (DesktopWindow { layout: landed.layout, mounted: landed.mounted, initialized: true, ..old })
            &&& Self::settled(landed, new, done)
        }
    }

    /// A pane from another window lands here, with its view.
    pub fn take_in(&mut self, pane: Pane<F>, view: Mounted) -> (done: Settled)
        requires
            old(self).layout.wf(),
            old(self).layout.room(),
        ensures
            Self::took_in(*old(self), *final(self), pane, view, done),
            final(self).layout.wf(),
    {
        self.mounted.push(view);
        let displaced = self.layout.popin(pane);
        self.initialized = true;
        let ghost landed = *self;
        assert(Layout::popped_in(old(self).layout, landed.layout, pane, displaced));
        self.settle()
    }

    /// The windows cycled, the window touched, and settled.
    pub open spec fn cycled_and_settled(old: Self, new: Self, forward: bool, settled: Settled) -> bool {
        exists|layout: Layout<F>, moved: bool| #[trigger] Layout::cycled(old.layout, layout, forward, moved)
            && Self::settled(DesktopWindow { layout, initialized: true, ..old }, new, settled)
    }

    /// The focused window halved, the window touched, and settled.
    pub open spec fn halved_and_settled(old: Self, new: Self, fresh: u64, done: Halving<F>, settled: Settled) -> bool {
        exists|layout: Layout<F>| #[trigger] Layout::halved(old.layout, layout, fresh, done)
            && Self::settled(DesktopWindow { layout, initialized: true, ..old }, new, settled)
    }

    /// Window `index` focused, the window touched, and settled.
    pub open spec fn focused_and_settled(old: Self, new: Self, index: int, settled: Settled) -> bool {
        exists|layout: Layout<F>, changed: bool| #[trigger] Layout::focused_on(old.layout, layout, index, changed)
            && Self::settled(DesktopWindow { layout, initialized: true, ..old }, new, settled)
    }

    /// What `desk_key(press)` does: ⌘` / ⌘~ (and Ctrl-Tab) cycle the
    /// windows, ⇧ going back; ⌘D halves the focused one; ⌘1…⌘9 focus the
    /// Nth; in an empty focused window, outside a view's editor and with no
    /// ⌘ or ⌥, ↑ ↓ move the list's pick, Enter opens the picked row and 1…9
    /// the Nth (`rail`'s rows with a view). Anything else is not the desk's.
    pub open spec fn desk_keyed(old: Self, new: Self, press: KeyPress, in_guest_editor: bool, rail: Seq<RailRow>, fresh: u64, out: KeyOutcome<F>) -> bool {
        let name = key_name(press.name@);
        let digit = digit_key(name);
        let panes = old.layout.panes@;
        let cycle = (press.command && (name == "`"@ || name == "~"@)) || (press.control && name == "tab"@);
        if cycle {
            &&& out matches KeyOutcome::Settled { halved, settled } && halved is None
                && Self::cycled_and_settled(old, new, !press.shift, settled)
        } else if press.command && name == "d"@ {
            &&& out matches KeyOutcome::Settled { halved: Some((below, done)), settled } && below == press.shift
                && Self::halved_and_settled(old, new, fresh, done, settled)
        } else if press.command && digit is Some {
            &&& out matches KeyOutcome::Settled { halved, settled } && halved is None
                && Self::focused_and_settled(old, new, digit->0 - 1, settled)
        } else if !in_guest_editor && !press.command && !press.alt && old.layout.focused < panes.len()
            && panes[old.layout.focused as int].module@.len() == 0 {
            let rows = viewable(rail);
            let last: int = if rows.len() == 0 { 0 } else { rows.len() - 1 };
            let pick: int = if old.layout.pick < last { old.layout.pick as int } else { last };
            let open: Option<int> = if name == "enter"@ {
                if pick < rows.len() { Some(pick) } else { None }
            } else if digit is Some {
                if digit->0 - 1 < rows.len() { Some(digit->0 - 1) } else { None }
            } else {
                None
            };
            if name == "up"@ || name == "down"@ {
                let moved: int = if name == "up"@ { if pick == 0 { 0 } else { pick - 1 } } else { if pick + 1 < last { pick + 1 } else { last } };
                &&& new == (DesktopWindow { layout: Layout { pick: moved as usize, ..old.layout }, ..old })
                &&& out is Redraw
            } else if name == "enter"@ || digit is Some {
                match open {
                    Some(k) => out matches KeyOutcome::Settled { halved, settled } && halved is None
                        && Self::view_opened(old, new, rail[rows[k] as int].module, fresh, settled),
                    None => new == old && out is Redraw,
                }
            } else {
                new == old && out is NotOurs
            }
        } else {
            new == old && out is NotOurs
        }
    }

    /// The desk's own keys: see [`Self::desk_keyed`]. The keys' names come
    /// in as the keyboard reports them (their letters in any case).
    #[verifier::rlimit(60)]
    pub fn desk_key(&mut self, press: &KeyPress, in_guest_editor: bool, rail: &[RailRow], fresh: u64) -> (out: KeyOutcome<F>)
        requires
            old(self).layout.wf(),
            old(self).layout.room(),
        ensures
            Self::desk_keyed(*old(self), *final(self), *press, in_guest_editor, rail@, fresh, out),
            final(self).layout.wf(),
            out matches KeyOutcome::Settled { settled, .. } ==> settled.shown == final(self).in_front(),
    {
        let name = lowered(press.name.as_str());
        let digit = digit_of(name.as_str());
        proof {
            reveal_strlit("`");
            reveal_strlit("~");
            reveal_strlit("tab");
            reveal_strlit("d");
            reveal_strlit("up");
            reveal_strlit("down");
            reveal_strlit("enter");
        }
        let cycle = (press.command && (same_text(name.as_str(), "`") || same_text(name.as_str(), "~")))
            || (press.control && same_text(name.as_str(), "tab"));
        let mut halved: Option<(bool, Halving<F>)> = None;
        if cycle {
            let moved = self.layout.cycle(!press.shift);
            assert(Layout::cycled(old(self).layout, self.layout, !press.shift, moved));
        } else if press.command && same_text(name.as_str(), "d") {
            let done = self.layout.halve(fresh);
            assert(Layout::halved(old(self).layout, self.layout, fresh, done));
            halved = Some((press.shift, done));
        } else if press.command && digit.is_some() {
            let nth = digit.unwrap();
            let changed = self.layout.focus(nth - 1);
            assert(Layout::focused_on(old(self).layout, self.layout, nth - 1, changed));
        } else if !in_guest_editor && !press.command && !press.alt && self.layout.focused < self.layout.panes.len()
            && self.layout.panes[self.layout.focused].is_empty() {
            let rows = openable(rail);
            let last: usize = if rows.len() == 0 { 0 } else { rows.len() - 1 };
            let pick: usize = if self.layout.pick < last { self.layout.pick } else { last };
            if same_text(name.as_str(), "up") {
                self.layout.pick = if pick == 0 { 0 } else { pick - 1 };
                return KeyOutcome::Redraw;
            }
            if same_text(name.as_str(), "down") {
                self.layout.pick = if pick + 1 < last { pick + 1 } else { last };
                return KeyOutcome::Redraw;
            }
            let open: Option<usize> = if same_text(name.as_str(), "enter") {
                if pick < rows.len() { Some(pick) } else { None }
            } else if digit.is_some() {
                let nth = digit.unwrap();
                if nth - 1 < rows.len() { Some(nth - 1) } else { None }
            } else {
                return KeyOutcome::NotOurs;
            };
            return match open {
                Some(k) => {
                    let settled = self.open_view(rail[rows[k]].module, fresh);
                    KeyOutcome::Settled { halved: None, settled }
                },
                None => KeyOutcome::Redraw,
            };
        } else {
            return KeyOutcome::NotOurs;
        }
        self.initialized = true;
        let ghost moved = *self;
        let settled = self.settle();
        assert(moved == DesktopWindow { layout: moved.layout, initialized: true, ..*old(self) });
        KeyOutcome::Settled { halved, settled }
    }

    /// What this window tells the keymap about itself, outermost first:
    /// the app's context; in the console, whether the desk is up (not a
    /// launcher step) and whether something is open over it; and on a
    /// desk with nothing over it, the desk's own keys, and the empty
    /// window's when the focused window is empty.
    pub open spec fn contexts(self, on_desk: bool, overlay_open: bool) -> Seq<Seq<char>> {
        let console = self.kind is Console;
        let desk = console && on_desk;
        let over = console && overlay_open;
        let panes = self.layout.panes@;
        let f = self.layout.focused as int;
        seq!["Ducktape"@]
            + (if console { seq!["console"@] } else { seq![] })
            + (if desk { seq!["on_desk"@] } else { seq![] })
            + (if over { seq!["overlay"@] } else { seq![] })
            + (if desk && !over { seq!["desk"@] } else { seq![] })
            + (if desk && !over && f < panes.len() && panes[f].module@.len() == 0 { seq!["empty"@] } else { seq![] })
    }

    pub fn key_context(&self, on_desk: bool, overlay_open: bool) -> (names: Vec<&'static str>)
        ensures
            names@.map_values(|name: &'static str| name@) == self.contexts(on_desk, overlay_open),
    {
        let console = matches!(self.kind, WindowKind::Console);
        let desk = console && on_desk;
        let over = console && overlay_open;
        let mut names: Vec<&'static str> = Vec::new();
        names.push("Ducktape");
        let ghost base = names@.map_values(|name: &'static str| name@);
        assert(base =~= seq!["Ducktape"@]);
        if console {
            names.push("console");
        }
        let ghost a = names@.map_values(|name: &'static str| name@);
        assert(a =~= base + (if console { seq!["console"@] } else { seq![] }));
        if desk {
            names.push("on_desk");
        }
        let ghost b = names@.map_values(|name: &'static str| name@);
        assert(b =~= a + (if desk { seq!["on_desk"@] } else { seq![] }));
        if over {
            names.push("overlay");
        }
        let ghost c = names@.map_values(|name: &'static str| name@);
        assert(c =~= b + (if over { seq!["overlay"@] } else { seq![] }));
        if desk && !over {
            names.push("desk");
        }
        let ghost d = names@.map_values(|name: &'static str| name@);
        assert(d =~= c + (if desk && !over { seq!["desk"@] } else { seq![] }));
        let empty = desk && !over && self.layout.focused < self.layout.panes.len()
            && self.layout.panes[self.layout.focused].is_empty();
        if empty {
            names.push("empty");
        }
        let ghost e = names@.map_values(|name: &'static str| name@);
        assert(e =~= d + (if empty { seq!["empty"@] } else { seq![] }));
        names
    }
}

impl Ducktape {
    /// What the program in front of a window does to the app: shown, it
    /// is the active program and its badge is read; with none in front,
    /// nothing changes.
    pub open spec fn fronted(old: Self, new: Self, shown: Option<&'static str>) -> bool {
        match shown {
            Some(module) => Self::after_view_shown(old, new, module),
            None => new == old,
        }
    }

    /// What [`Self::pane`] does: `window` moves from `old_window` to
    /// `new_window` as the message moves it, and the app from `old` to `new`
    /// as the program then in front says.
    pub open spec fn paned<F: Copy>(
        old: Self,
        new: Self,
        old_window: DesktopWindow<F>,
        new_window: DesktopWindow<F>,
        message: PaneMessage,
        fresh: u64,
        console: bool,
        out: PaneOutcome<F>,
    ) -> bool {
        &&& DesktopWindow::pane_moved(old_window, new_window, message, fresh, console, out)
        &&& out.settled.shown == new_window.in_front()
        &&& message is Pick ==> new == old
        &&& !(message is Pick) ==> Self::fronted(old, new, out.settled.shown)
    }

    /// One window's panes moved by `message` (see
    /// [`DesktopWindow::pane_moved`]), and the window in front made the
    /// active program, however it got there. A pick in an empty window's
    /// list moves no program to the front.
    pub fn pane<F: Copy>(&mut self, window: &mut DesktopWindow<F>, message: PaneMessage, fresh: u64, console: bool) -> (out: PaneOutcome<F>)
        requires
            old(window).layout.wf(),
            old(window).layout.room(),
        ensures
            Self::paned(*old(self), *final(self), *old(window), *final(window), message, fresh, console, out),
            final(window).layout.wf(),
    {
        let picked = matches!(message, PaneMessage::Pick { .. });
        let out = window.pane_message(message, fresh, console);
        if !picked {
            if let Some(module) = out.settled.shown {
                self.view_shown(module);
            }
        }
        out
    }

    /// A desk key pressed in `window` (see [`DesktopWindow::desk_keyed`]),
    /// and the window in front made the active program once the panes
    /// moved.
    pub fn window_key<F: Copy>(&mut self, window: &mut DesktopWindow<F>, press: &KeyPress, in_guest_editor: bool, rail: &[RailRow], fresh: u64) -> (out: KeyOutcome<F>)
        requires
            old(window).layout.wf(),
            old(window).layout.room(),
        ensures
            DesktopWindow::desk_keyed(*old(window), *final(window), *press, in_guest_editor, rail@, fresh, out),
            final(window).layout.wf(),
            match out {
                KeyOutcome::Settled { settled, .. } => {
                    &&& settled.shown == final(window).in_front()
                    &&& Self::fronted(*old(self), *final(self), settled.shown)
                },
                _ => *final(self) == *old(self),
            },
    {
        let out = window.desk_key(press, in_guest_editor, rail, fresh);
        if let KeyOutcome::Settled { settled, .. } = &out {
            if let Some(module) = settled.shown {
                self.view_shown(module);
            }
        }
        out
    }
}

/// The window in front is the active program, however it got there: once
/// a pane message other than a pick has moved a window's panes, the program
/// its focused pane shows, if any, is the active one and its badge is read.
pub proof fn law_the_window_in_front_is_the_active_program<F: Copy>(
    old: Ducktape,
    new: Ducktape,
    old_window: DesktopWindow<F>,
    window: DesktopWindow<F>,
    message: PaneMessage,
    fresh: u64,
    console: bool,
    out: PaneOutcome<F>,
)
    requires
        Ducktape::paned(old, new, old_window, window, message, fresh, console, out),
        !(message is Pick),
    ensures
        window.in_front() matches Some(module) ==> new.active == Some(module) && badge_in(new.badges@, module@) is None,
        window.in_front() is None ==> new == old,
{
}

} // verus!
