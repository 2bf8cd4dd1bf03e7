//! Which view is where: one window's panes, their stacking and focus.
//! Each pane is a window on the desk with a frame and a place in the
//! stacking order; the highest `z` is drawn on top. A frame is carried
//! here as the shell's own value `F` (its geometry is the shell's): a
//! replaced view keeps its window's frame, a pane moved into another
//! window keeps its instance.

use vstd::prelude::*;

use crate::text::same_text;

verus! {

/// The most panes one window holds.
pub const MAX_PANES: usize = 8;

/// The module of a window with nothing in it yet: it lists what it can open.
pub const EMPTY: &'static str = "";

/// One window on a desk.
pub struct Pane<F> {
    /// The program it shows; [`EMPTY`] for none yet.
    pub module: &'static str,
    /// Which view this is: a view keeps its instance wherever it moves.
    pub instance: u64,
    /// None until the desk it lands on is measured.
    pub frame: Option<F>,
    /// Stacking order: the highest is drawn on top.
    pub z: u64,
    /// The frame to go back to when a filled window is filled again.
    pub restore: Option<F>,
}

impl<F> Pane<F> {
    /// A pane showing `module`, as the view numbered `instance`; not yet
    /// placed or stacked.
    pub fn new(module: &'static str, instance: u64) -> (pane: Self)
        ensures
            pane.module == module,
            pane.instance == instance,
            pane.frame is None,
            pane.z == 0,
            pane.restore is None,
    {
        Pane { module, instance, frame: None, z: 0, restore: None }
    }

    /// Whether the pane shows nothing yet.
    pub fn is_empty(&self) -> (empty: bool)
        ensures
            empty == (self.module@.len() == 0),
    {
        self.module.is_empty()
    }
}

/// What `halve` did: nothing (no room), a first window on an empty desk,
/// or a second half beside the focused window, whose frame before the
/// split it hands back for the shell to cut in two.
pub enum Halving<F> {
    Refused,
    Opened,
    Split(Option<F>),
}

/// One window's panes.
pub struct Layout<F> {
    pub panes: Vec<Pane<F>>,
    pub focused: usize,
    /// The row picked in an empty window's list.
    pub pick: usize,
    /// The highest `z` given out so far.
    pub top: u64,
    /// Something was shown here: the desk no longer opens the active
    /// program on its own.
    pub initialized: bool,
}

/// The modules of `panes`, in order.
pub open spec fn modules_of<F>(panes: Seq<Pane<F>>) -> Seq<Seq<char>> {
    panes.map_values(|p: Pane<F>| p.module@)
}

/// `new` is `old` with pane `i`'s stacking set to `z`, nothing else moved.
pub open spec fn restacked<F>(old: Seq<Pane<F>>, new: Seq<Pane<F>>, i: int, z: u64) -> bool {
    &&& new.len() == old.len()
    &&& new[i].z == z
    &&& new[i].module == old[i].module
    &&& new[i].instance == old[i].instance
    &&& new[i].frame == old[i].frame
    &&& new[i].restore == old[i].restore
    &&& forall|j: int| 0 <= j < old.len() && j != i ==> new[j] == old[j]
}


/// The same view in the same window, whatever its height.
pub open spec fn same_view<F>(a: Pane<F>, b: Pane<F>) -> bool {
    &&& a.module == b.module
    &&& a.instance == b.instance
    &&& a.frame == b.frame
    &&& a.restore == b.restore
}

/// `o` turned by one: the first to the end (`forward`), or the last to
/// the front.
pub open spec fn rotated(o: Seq<usize>, forward: bool) -> Seq<usize> {
    if forward {
        o.drop_first().push(o[0])
    } else {
        seq![o.last()] + o.drop_last()
    }
}

/// A turned list holds what the list held, each once if it was.
pub proof fn lemma_rotated_keeps(o: Seq<usize>, forward: bool)
    requires
        o.len() >= 1,
    ensures
        rotated(o, forward).len() == o.len(),
        forall|x: usize| o.contains(x) ==> #[trigger] rotated(o, forward).contains(x),
        (forall|a: int, b: int| 0 <= a < b < o.len() ==> o[a] != o[b]) ==> (forall|a: int, b: int|
            0 <= a < b < o.len() ==> rotated(o, forward)[a] != rotated(o, forward)[b]),
        forall|a: int| 0 <= a < o.len() ==> exists|b: int| 0 <= b < o.len() && #[trigger] rotated(o, forward)[a] == o[b],
{
    let r = rotated(o, forward);
    let n = o.len();
    // position `a` of the turned list holds the list's `src(a)`
    assert forall|a: int| 0 <= a < n implies #[trigger] r[a] == o[if forward { if a < n - 1 { a + 1 } else { 0 } } else { if a == 0 { n - 1 } else { a - 1 } }] by {}
    assert forall|x: usize| o.contains(x) implies #[trigger] r.contains(x) by {
        let m = choose|m: int| 0 <= m < n && o[m] == x;
        let a = if forward { if m == 0 { n - 1 } else { m - 1 } } else { if m == n - 1 { 0 } else { m + 1 } };
        assert(r[a] == x);
    }
    assert forall|a: int| 0 <= a < n implies exists|b: int| 0 <= b < n && #[trigger] r[a] == o[b] by {
        let b = if forward { if a < n - 1 { a + 1 } else { 0 } } else { if a == 0 { n - 1 } else { a - 1 } };
        assert(r[a] == o[b]);
    }
}

impl<F: Copy> Layout<F> {
    /// The layout's invariant: a bounded number of panes, a focus on one of
    /// them, and stacking heights that are distinct and given out already.
    pub open spec fn wf(self) -> bool {
        &&& self.panes@.len() <= MAX_PANES
        &&& self.panes@.len() > 0 ==> self.focused < self.panes@.len()
        &&& forall|i: int| 0 <= i < self.panes@.len() ==> self.panes@[i].z <= self.top
        &&& forall|i: int, j: int|
            0 <= i < self.panes@.len() && 0 <= j < self.panes@.len() && i != j
                ==> self.panes@[i].z != self.panes@[j].z
    }

    /// Room for the stacking counter to go on: a bound no desk reaches.
    pub open spec fn room(self) -> bool {
        self.top < 0xffff_ffff_ffff_ff00
    }

    /// No two panes are the same view.
    pub open spec fn distinct_instances(self) -> bool {
        forall|i: int, j: int|
            0 <= i < self.panes@.len() && 0 <= j < self.panes@.len() && i != j
                ==> self.panes@[i].instance != self.panes@[j].instance
    }

    /// Whether some pane is the view `instance`.
    pub open spec fn holds_instance(self, instance: u64) -> bool {
        exists|i: int| 0 <= i < self.panes@.len() && self.panes@[i].instance == instance
    }

    pub open spec fn modules(self) -> Seq<Seq<char>> {
        modules_of(self.panes@)
    }

    /// Pane `i` is the one on top.
    pub open spec fn on_top(self, i: int) -> bool {
        &&& 0 <= i < self.panes@.len()
        &&& forall|j: int| 0 <= j < self.panes@.len() ==> self.panes@[j].z <= self.panes@[i].z
    }

    /// `i` is the first pane showing `module`.
    pub open spec fn first_showing(self, i: int, module: Seq<char>) -> bool {
        &&& 0 <= i < self.panes@.len()
        &&& self.panes@[i].module@ == module
        &&& forall|j: int| 0 <= j < i ==> self.panes@[j].module@ != module
    }

    pub open spec fn shows(self, module: Seq<char>) -> bool {
        exists|i: int| 0 <= i < self.panes@.len() && self.panes@[i].module@ == module
    }

    /// What `focus(index)` does, from `old` to `new`, answering `changed`.
    pub open spec fn focused_on(old: Self, new: Self, index: int, changed: bool) -> bool {
        &&& changed == (0 <= index < old.panes@.len() && !(old.focused == index
            && old.panes@[index].z == old.top))
        &&& changed ==> {
            &&& new.focused == index
            &&& new.top == old.top + 1
            &&& restacked(old.panes@, new.panes@, index, new.top)
            &&& new.pick == old.pick
            &&& new.initialized == old.initialized
        }
        &&& !changed ==> new == old
    }

    /// What `split(module)` does with the fresh view `fresh`.
    pub open spec fn split_into(old: Self, new: Self, module: &'static str, fresh: u64, opened: bool) -> bool {
        &&& opened == (old.panes@.len() < MAX_PANES)
        &&& opened ==> {
            let at = if old.panes@.len() == 0 { 0 } else { old.focused + 1 };
            &&& new.panes@ == old.panes@.insert(at, Pane {
                module,
                instance: fresh,
                frame: None,
                z: (old.top + 1) as u64,
                restore: None,
            })
            &&& new.focused == at
            &&& new.top == old.top + 1
            &&& new.pick == old.pick
            &&& new.initialized == old.initialized
        }
        &&& !opened ==> new == old
    }

    /// What `load(module)` does with the fresh view `fresh`: the focused
    /// window shows it in place of what it showed, keeping its frame and
    /// height; with no window, a first one.
    pub open spec fn loaded(old: Self, new: Self, module: &'static str, fresh: u64) -> bool {
        &&& old.focused < old.panes@.len() ==> {
            &&& new.panes@ == old.panes@.update(old.focused as int, Pane {
                module,
                instance: fresh,
                frame: old.panes@[old.focused as int].frame,
                z: old.panes@[old.focused as int].z,
                restore: None,
            })
            &&& new.focused == old.focused
            &&& new.top == old.top
        }
        &&& old.panes@.len() == 0 ==> {
            &&& new.panes@ == seq![Pane::<F> {
                module,
                instance: fresh,
                frame: None,
                z: (old.top + 1) as u64,
                restore: None,
            }]
            &&& new.focused == 0
            &&& new.top == old.top + 1
        }
        &&& new.pick == old.pick
        &&& new.initialized == old.initialized
    }

    /// An empty layout.
    pub fn new() -> (layout: Self)
        ensures
            layout.panes@.len() == 0,
            layout.focused == 0,
            layout.pick == 0,
            layout.top == 0,
            !layout.initialized,
            layout.wf(),
    {
        Layout { panes: Vec::new(), focused: 0, pick: 0, top: 0, initialized: false }
    }

    /// The focused pane's program, unless it is empty.
    pub fn shown(&self) -> (module: Option<&'static str>)
        ensures
            module == (if self.focused < self.panes@.len() && self.panes@[self.focused as int].module@.len() > 0 {
                Some(self.panes@[self.focused as int].module)
            } else {
                None
            }),
    {
        if self.focused < self.panes.len() && !self.panes[self.focused].is_empty() {
            Some(self.panes[self.focused].module)
        } else {
            None
        }
    }

    /// Every pane gone.
    pub fn clear(&mut self)
        ensures
            final(self).panes@.len() == 0,
            final(self).focused == 0,
            final(self).pick == 0,
            final(self).top == 0,
            !final(self).initialized,
            final(self).wf(),
    {
        *self = Self::new();
    }

    /// Pane `index` (if there is one) on top of the others.
    fn raise(&mut self, index: usize)
        requires
            old(self).top < u64::MAX,
        ensures
            final(self).top == old(self).top + 1,
            final(self).focused == old(self).focused,
            final(self).pick == old(self).pick,
            final(self).initialized == old(self).initialized,
            index < old(self).panes@.len() ==> restacked(old(self).panes@, final(self).panes@, index as int, final(self).top),
            index >= old(self).panes@.len() ==> final(self).panes@ == old(self).panes@,
    {
        self.top = self.top + 1;
        if index < self.panes.len() {
            self.panes[index].z = self.top;
        }
    }

    /// The first pane showing `module`.
    pub fn position(&self, module: &str) -> (found: Option<usize>)
        ensures
            found matches Some(i) ==> self.first_showing(i as int, module@),
            found is None ==> !self.shows(module@),
    {
        let n = self.panes.len();
        for i in 0..n
            invariant
                n == self.panes@.len(),
                forall|j: int| 0 <= j < i ==> self.panes@[j].module@ != module@,
        {
            if same_text(self.panes[i].module, module) {
                return Some(i);
            }
        }
        None
    }

    /// Focus brings a window to the top. False if nothing changed.
    pub fn focus(&mut self, index: usize) -> (changed: bool)
        requires
            old(self).wf(),
            old(self).room(),
        ensures
            Self::focused_on(*old(self), *final(self), index as int, changed),
            final(self).wf(),
            changed ==> final(self).on_top(index as int),
    {
        if index >= self.panes.len() {
            return false;
        }
        let on_top = self.panes[index].z == self.top;
        if self.focused == index && on_top {
            return false;
        }
        self.focused = index;
        self.raise(index);
        true
    }

    /// Another window beside the focused one, on top and focused, showing
    /// `module` as the view `fresh`; false when the window holds
    /// [`MAX_PANES`] already.
    pub fn split(&mut self, module: &'static str, fresh: u64) -> (opened: bool)
        requires
            old(self).wf(),
            old(self).room(),
        ensures
            Self::split_into(*old(self), *final(self), module, fresh, opened),
            final(self).wf(),
            opened ==> final(self).on_top(final(self).focused as int),
            !old(self).holds_instance(fresh) && old(self).distinct_instances()
                ==> final(self).distinct_instances(),
    {
        if self.panes.len() == MAX_PANES {
            return false;
        }
        let index = if self.panes.len() == 0 { 0 } else { self.focused + 1 };
        self.panes.insert(index, Pane::new(module, fresh));
        self.focused = index;
        self.raise(index);
        proof {
            let old_panes = old(self).panes@;
            let new_panes = self.panes@;
            assert forall|i: int| 0 <= i < new_panes.len() implies #[trigger] new_panes[i].z <= self.top by {
                if i < index {
                    assert(new_panes[i] == old_panes[i]);
                } else if i > index {
                    assert(new_panes[i] == old_panes[i - 1]);
                }
            }
            assert forall|i: int, j: int|
                0 <= i < new_panes.len() && 0 <= j < new_panes.len() && i != j
                implies #[trigger] new_panes[i].z != #[trigger] new_panes[j].z by {
                if i != index && j != index {
                    let oi = if i < index { i } else { i - 1 };
                    let oj = if j < index { j } else { j - 1 };
                    assert(new_panes[i] == old_panes[oi]);
                    assert(new_panes[j] == old_panes[oj]);
                } else if i == index {
                    let oj = if j < index { j } else { j - 1 };
                    assert(new_panes[j] == old_panes[oj]);
                } else {
                    let oi = if i < index { i } else { i - 1 };
                    assert(new_panes[i] == old_panes[oi]);
                }
            }
            assert(self.panes@ =~= old_panes.insert(index as int, Pane {
                module,
                instance: fresh,
                frame: None,
                z: self.top,
                restore: None,
            }));
            if !old(self).holds_instance(fresh) && old(self).distinct_instances() {
                assert forall|i: int, j: int|
                    0 <= i < new_panes.len() && 0 <= j < new_panes.len() && i != j
                    implies #[trigger] new_panes[i].instance != #[trigger] new_panes[j].instance by {
                    if i != index && j != index {
                        let oi = if i < index { i } else { i - 1 };
                        let oj = if j < index { j } else { j - 1 };
                        assert(new_panes[i] == old_panes[oi]);
                        assert(new_panes[j] == old_panes[oj]);
                    } else if i == index {
                        let oj = if j < index { j } else { j - 1 };
                        assert(new_panes[j] == old_panes[oj]);
                    } else {
                        let oi = if i < index { i } else { i - 1 };
                        assert(new_panes[i] == old_panes[oi]);
                    }
                }
            }
        }
        true
    }

    /// `module` in the focused window, as the view `fresh`, in place of
    /// what it showed; with no window, a first one.
    pub fn load(&mut self, module: &'static str, fresh: u64)
        requires
            old(self).wf(),
            old(self).room(),
        ensures
            Self::loaded(*old(self), *final(self), module, fresh),
            final(self).wf(),
    {
        let mut pane = Pane::new(module, fresh);
        if self.focused < self.panes.len() {
            let f = self.focused;
            pane.frame = self.panes[f].frame;
            pane.z = self.panes[f].z;
            self.panes.set(f, pane);
        } else {
            self.panes.push(pane);
            self.focused = 0;
            self.raise(0);
            proof {
                if old(self).panes@.len() == 0 {
                    assert(self.panes@ =~= seq![Pane::<F> {
                        module,
                        instance: fresh,
                        frame: None,
                        z: self.top,
                        restore: None,
                    }]);
                }
            }
        }
    }

    /// What `select(module)` does with the fresh view `fresh`: the focused
    /// window if it shows `module`, else the first window that does, is
    /// focused; else the focused window loads it.
    pub open spec fn selected(old: Self, new: Self, module: &'static str, fresh: u64, changed: bool) -> bool {
        if old.focused < old.panes@.len() && old.panes@[old.focused as int].module@ == module@ {
            Self::focused_on(old, new, old.focused as int, changed)
        } else if old.shows(module@) {
            forall|i: int| old.first_showing(i, module@) ==> Self::focused_on(old, new, i, changed)
        } else {
            changed && Self::loaded(old, new, module, fresh)
        }
    }

    /// What `open(module)` does with the fresh view `fresh`: an empty
    /// focused window loads it; else the first window showing it is
    /// focused; else it opens in a window of its own.
    pub open spec fn opened(old: Self, new: Self, module: &'static str, fresh: u64, changed: bool) -> bool {
        if old.focused < old.panes@.len() && old.panes@[old.focused as int].module@.len() == 0 {
            changed && Self::loaded(old, new, module, fresh)
        } else if old.shows(module@) {
            forall|i: int| old.first_showing(i, module@) ==> Self::focused_on(old, new, i, changed)
        } else {
            Self::split_into(old, new, module, fresh, changed)
        }
    }

    /// What `halve()` does with the fresh view `fresh`: the list's pick
    /// resets; the focused window makes room for an empty one beside it
    /// (none at capacity), and hands back its frame to cut; with no window,
    /// an empty one opens.
    pub open spec fn halved(old: Self, new: Self, fresh: u64, done: Halving<F>) -> bool {
        let old = Layout { pick: 0, ..old };
        &&& new.pick == 0
        &&& if old.focused < old.panes@.len() {
            &&& (done is Refused) == (old.panes@.len() == MAX_PANES)
            &&& done matches Halving::Split(whole) ==> whole == old.panes@[old.focused as int].frame
            &&& !(done is Opened)
            &&& Self::split_into(old, new, EMPTY, fresh, !(done is Refused))
        } else {
            &&& done is Opened
            &&& Self::split_into(old, new, EMPTY, fresh, true)
        }
    }

    /// Selection reuses an existing module (the focused window first)
    /// before replacing a focused view.
    pub fn select(&mut self, module: &'static str, fresh: u64) -> (changed: bool)
        requires
            old(self).wf(),
            old(self).room(),
        ensures
            final(self).wf(),
            Self::selected(*old(self), *final(self), module, fresh, changed),
    {
        if self.focused < self.panes.len() && same_text(self.panes[self.focused].module, module) {
            let f = self.focused;
            return self.focus(f);
        }
        if let Some(index) = self.position(module) {
            return self.focus(index);
        }
        self.load(module, fresh);
        true
    }

    /// A menu bar click: into the focused window if it is empty, else to
    /// the window it is already open in, else in a window of its own.
    pub fn open(&mut self, module: &'static str, fresh: u64) -> (changed: bool)
        requires
            old(self).wf(),
            old(self).room(),
        ensures
            final(self).wf(),
            Self::opened(*old(self), *final(self), module, fresh, changed),
    {
        if self.focused < self.panes.len() && self.panes[self.focused].is_empty() {
            self.load(module, fresh);
            return true;
        }
        if let Some(index) = self.position(module) {
            return self.focus(index);
        }
        self.split(module, fresh)
    }

    /// `a` is drawn before `b`: lower, or as high and earlier.
    pub open spec fn beneath(self, a: int, b: int) -> bool {
        ||| self.panes@[a].z < self.panes@[b].z
        ||| (self.panes@[a].z == self.panes@[b].z && a < b)
    }

    /// `o` lists every pane once, bottom to top: the order windows are
    /// drawn in.
    pub open spec fn is_order(self, o: Seq<usize>) -> bool {
        &&& o.len() == self.panes@.len()
        &&& forall|k: int| 0 <= k < o.len() ==> #[trigger] o[k] < self.panes@.len()
        &&& forall|i: usize| i < self.panes@.len() ==> #[trigger] o.contains(i)
        &&& forall|a: int, b: int| 0 <= a < b < o.len() ==> self.beneath(#[trigger] o[a] as int, #[trigger] o[b] as int)
    }

    /// The panes' indices bottom to top.
    pub closed spec fn order(self) -> Seq<usize> {
        choose|o: Seq<usize>| self.is_order(o)
    }

    /// Two bottom-to-top lists of the same panes are the same list.
    pub proof fn lemma_order_unique(self, o1: Seq<usize>, o2: Seq<usize>)
        requires
            self.is_order(o1),
            self.is_order(o2),
        ensures
            o1 == o2,
    {
        if o1.len() > 0 {
            self.lemma_order_prefix(o1, o2, (o1.len() - 1) as nat);
        }
        assert(o1 =~= o2);
    }

    proof fn lemma_order_prefix(self, o1: Seq<usize>, o2: Seq<usize>, k: nat)
        requires
            self.is_order(o1),
            self.is_order(o2),
            k < o1.len(),
        ensures
            forall|j: int| 0 <= j <= k ==> o1[j] == o2[j],
        decreases k,
    {
        if k > 0 {
            self.lemma_order_prefix(o1, o2, (k - 1) as nat);
        }
        let x = o1[k as int];
        let y = o2[k as int];
        if x != y {
            assert(o2.contains(x));
            let m = choose|m: int| 0 <= m < o2.len() && o2[m] == x;
            assert(o1.contains(y));
            let m2 = choose|m: int| 0 <= m < o1.len() && o1[m] == y;
            if m < k {
                assert(o1[m] == o2[m]);
                assert(self.beneath(o1[m] as int, o1[k as int] as int));
            }
            if m2 < k {
                assert(o1[m2] == o2[m2]);
                assert(self.beneath(o2[m2] as int, o2[k as int] as int));
            }
            assert(m > k);
            assert(m2 > k);
            assert(self.beneath(y as int, x as int));
            assert(self.beneath(x as int, y as int));
            assert(false);
        }
    }

    /// Every layout has its bottom-to-top list, and `order` is it.
    pub proof fn lemma_order_is(self, o: Seq<usize>)
        requires
            self.is_order(o),
        ensures
            self.order() == o,
    {
        self.lemma_order_unique(self.order(), o);
    }

    /// Indices bottom to top: the order windows are drawn in.
    pub fn stacking(&self) -> (order: Vec<usize>)
        ensures
            self.is_order(order@),
            order@ == self.order(),
    {
        let n = self.panes.len();
        let mut order: Vec<usize> = Vec::new();
        for i in 0..n
            invariant
                n == self.panes@.len(),
                order@.len() == i,
                forall|k: int| 0 <= k < order@.len() ==> #[trigger] order@[k] < i,
                forall|j: usize| j < i ==> #[trigger] order@.contains(j),
                forall|a: int, b: int| 0 <= a < b < order@.len() ==> self.beneath(#[trigger] order@[a] as int, #[trigger] order@[b] as int),
        {
            let z = self.panes[i].z;
            let mut p: usize = 0;
            while p < order.len() && self.panes[order[p]].z <= z
                invariant
                    n == self.panes@.len(),
                    i < n,
                    z == self.panes@[i as int].z,
                    p <= order@.len(),
                    forall|k: int| 0 <= k < order@.len() ==> #[trigger] order@[k] < i,
                    forall|k: int| 0 <= k < p ==> self.panes@[#[trigger] order@[k] as int].z <= z,
                decreases order@.len() - p,
            {
                p = p + 1;
            }
            proof {
                // what sits at or past `p` is above `i`
                assert forall|k: int| p <= k < order@.len() implies self.panes@[#[trigger] order@[k] as int].z > z by {
                    if k > p {
                        assert(self.beneath(order@[p as int] as int, order@[k] as int));
                    }
                }
            }
            let ghost before = order@;
            order.insert(p, i);
            proof {
                assert(order@ == before.insert(p as int, i));
                assert forall|k: int| 0 <= k < order@.len() implies #[trigger] order@[k] < i + 1 by {
                    if k < p {
                        assert(order@[k] == before[k]);
                    } else if k > p {
                        assert(order@[k] == before[k - 1]);
                    }
                }
                assert forall|j: usize| j < i + 1 implies #[trigger] order@.contains(j) by {
                    if j == i {
                        assert(order@[p as int] == i);
                    } else {
                        assert(before.contains(j));
                        let m = choose|m: int| 0 <= m < before.len() && before[m] == j;
                        if m < p {
                            assert(order@[m] == before[m]);
                        } else {
                            assert(order@[m + 1] == before[m]);
                        }
                    }
                }
                assert forall|a: int, b: int| 0 <= a < b < order@.len() implies self.beneath(#[trigger] order@[a] as int, #[trigger] order@[b] as int) by {
                    if a < p && b < p {
                        assert(order@[a] == before[a] && order@[b] == before[b]);
                    } else if a < p && b == p {
                        assert(order@[a] == before[a]);
                    } else if a < p {
                        assert(order@[a] == before[a] && order@[b] == before[b - 1]);
                    } else if a == p {
                        assert(order@[b] == before[b - 1]);
                    } else {
                        assert(order@[a] == before[a - 1] && order@[b] == before[b - 1]);
                    }
                }
            }
        }
        proof {
            self.lemma_order_is(order@);
        }
        order
    }

    /// What `cycle(forward)` does: with two windows or more, the one at
    /// the bottom comes to the top (`forward`) or the top one goes to the
    /// bottom, and the new top is focused; every pane keeps its view.
    pub open spec fn cycled(old: Self, new: Self, forward: bool, moved: bool) -> bool {
        &&& moved == (old.panes@.len() >= 2)
        &&& moved ==> {
            &&& old.is_order(old.order())
            &&& new.is_order(new.order())
            &&& new.order() == rotated(old.order(), forward)
            &&& new.focused == new.order().last()
            &&& new.top == old.top + old.panes@.len()
            &&& new.panes@.len() == old.panes@.len()
            &&& forall|i: int| 0 <= i < old.panes@.len() ==> same_view(#[trigger] old.panes@[i], new.panes@[i])
            &&& new.pick == old.pick
            &&& new.initialized == old.initialized
        }
        &&& !moved ==> new == old
    }

    /// The next window up (`forward`: the one at the bottom comes to the
    /// top; back: the top one goes to the bottom), so repeating it visits
    /// every window in turn.
    #[verifier::spinoff_prover]
    #[verifier::rlimit(100)]
    pub fn cycle(&mut self, forward: bool) -> (moved: bool)
        requires
            old(self).wf(),
            old(self).room(),
        ensures
            Self::cycled(*old(self), *final(self), forward, moved),
            final(self).wf(),
            moved ==> final(self).on_top(final(self).focused as int),
    {
        let order = self.stacking();
        let n = order.len();
        if n < 2 {
            return false;
        }
        let mut rot: Vec<usize> = Vec::new();
        if forward {
            for k in 1..n
                invariant
                    n == order@.len(),
                    rot@ == order@.subrange(1, k as int),
            {
                rot.push(order[k]);
            }
            rot.push(order[0]);
        } else {
            rot.push(order[n - 1]);
            for k in 0..n - 1
                invariant
                    n == order@.len(),
                    n >= 2,
                    rot@ == seq![order@[n - 1]] + order@.subrange(0, k as int),
            {
                rot.push(order[k]);
            }
        }
        let ghost o = order@;
        proof {
            assert(rot@ =~= rotated(o, forward));
            lemma_rotated_keeps(o, forward);
            assert forall|a: int, b: int| 0 <= a < b < o.len() implies o[a] != o[b] by {
                assert(self.beneath(o[a] as int, o[b] as int));
            }
        }
        let ghost start = *self;
        let mut k: usize = 0;
        while k < n
            invariant
                n == rot@.len(),
                n == start.panes@.len(),
                n >= 2,
                start.wf(),
                start.room(),
                rot@ == rotated(o, forward),
                start.is_order(o),
                forall|a: int, b: int| 0 <= a < b < n ==> rot@[a] != rot@[b],
                forall|a: int| 0 <= a < n ==> #[trigger] rot@[a] < n,
                forall|i: usize| i < n ==> #[trigger] rot@.contains(i),
                k <= n,
                self.panes@.len() == n,
                self.top == start.top + k,
                self.focused == start.focused,
                self.pick == start.pick,
                self.initialized == start.initialized,
                forall|i: int| 0 <= i < n ==> same_view(#[trigger] start.panes@[i], self.panes@[i]),
                forall|a: int| 0 <= a < k ==> self.panes@[#[trigger] rot@[a] as int].z == start.top + 1 + a,
            decreases n - k,
        {
            let index = rot[k];
            self.raise(index);
            proof {
                assert forall|a: int| 0 <= a < k + 1 implies self.panes@[#[trigger] rot@[a] as int].z == start.top + 1 + a by {
                    if a < k {
                        assert(rot@[a] != rot@[k as int]);
                    }
                }
            }
            k = k + 1;
        }
        self.focused = rot[n - 1];
        proof {
            let r = rot@;
            assert forall|a: int, b: int| 0 <= a < b < n implies self.beneath(#[trigger] r[a] as int, #[trigger] r[b] as int) by {
                assert(self.panes@[r[a] as int].z == start.top + 1 + a);
                assert(self.panes@[r[b] as int].z == start.top + 1 + b);
            }
            assert(self.is_order(r));
            self.lemma_order_is(r);
            start.lemma_order_is(o);
            assert(self.is_order(self.order()));
            assert(start.is_order(start.order()));
            // every pane was raised once, so the heights stay distinct
            assert forall|i: int| 0 <= i < n implies #[trigger] self.panes@[i].z <= self.top by {
                assert(r.contains(i as usize));
                let a = choose|a: int| 0 <= a < n && #[trigger] r[a] == i as usize;
                assert(self.panes@[r[a] as int].z == start.top + 1 + a);
            }
            assert forall|i: int, j: int| 0 <= i < n && 0 <= j < n && i != j
                implies #[trigger] self.panes@[i].z != #[trigger] self.panes@[j].z by {
                assert(r.contains(i as usize));
                assert(r.contains(j as usize));
                let a = choose|a: int| 0 <= a < n && #[trigger] r[a] == i as usize;
                let b = choose|b: int| 0 <= b < n && #[trigger] r[b] == j as usize;
                assert(self.panes@[r[a] as int].z == start.top + 1 + a);
                assert(self.panes@[r[b] as int].z == start.top + 1 + b);
            }
            assert forall|j: int| 0 <= j < n implies #[trigger] self.panes@[j].z <= self.panes@[self.focused as int].z by {
                assert(r.contains(j as usize));
                let a = choose|a: int| 0 <= a < n && #[trigger] r[a] == j as usize;
                assert(self.panes@[r[a] as int].z == start.top + 1 + a);
                assert(self.panes@[r[n - 1] as int].z == start.top + 1 + (n - 1));
            }
        }
        true
    }

    /// Pane `i` is the highest, the last of the highest on a tie.
    pub open spec fn topmost(self, i: int) -> bool {
        &&& self.on_top(i)
        &&& forall|j: int| i < j < self.panes@.len() ==> self.panes@[j].z < self.panes@[i].z
    }

    /// What `close(index)` does: pane `index`, if there is one, is taken
    /// out and handed back, and the window left on top is focused.
    pub open spec fn closed(old: Self, new: Self, index: int, gone: Option<Pane<F>>) -> bool {
        &&& index >= old.panes@.len() ==> gone is None && new == old
        &&& 0 <= index < old.panes@.len() ==> {
            &&& gone == Some(old.panes@[index])
            &&& new.panes@ == old.panes@.remove(index)
            &&& new.top == old.top
            &&& new.pick == old.pick
            &&& new.initialized == old.initialized
            &&& new.panes@.len() > 0 ==> new.topmost(new.focused as int)
            &&& new.panes@.len() == 0 ==> new.focused == 0
        }
    }

    /// Pane `index` gone; the window left on top is focused.
    pub fn close(&mut self, index: usize) -> (gone: Option<Pane<F>>)
        requires
            old(self).wf(),
        ensures
            final(self).wf(),
            Self::closed(*old(self), *final(self), index as int, gone),
            old(self).distinct_instances() ==> final(self).distinct_instances(),
    {
        if index >= self.panes.len() {
            return None;
        }
        let pane = self.panes.remove(index);
        let ghost before = old(self).panes@;
        proof {
            assert forall|i: int| 0 <= i < self.panes@.len() implies #[trigger] self.panes@[i] == before[if i < index { i } else { i + 1 }] by {}
        }
        let n = self.panes.len();
        let mut best: usize = 0;
        for i in 0..n
            invariant
                n == self.panes@.len(),
                n > 0 ==> best < n,
                i > 0 ==> best < i,
                n == 0 ==> best == 0,
                forall|j: int| 0 <= j < i ==> self.panes@[j].z <= self.panes@[best as int].z,
                forall|j: int| best < j < i ==> self.panes@[j].z < self.panes@[best as int].z,
        {
            if i == 0 || self.panes[i].z >= self.panes[best].z {
                best = i;
            }
        }
        self.focused = best;
        proof {
            let now = self.panes@;
            assert forall|i: int, j: int| 0 <= i < now.len() && 0 <= j < now.len() && i != j
                implies #[trigger] now[i].z != #[trigger] now[j].z by {
                let oi = if i < index { i } else { i + 1 };
                let oj = if j < index { j } else { j + 1 };
                assert(now[i] == before[oi]);
                assert(now[j] == before[oj]);
            }
            assert forall|i: int| 0 <= i < now.len() implies #[trigger] now[i].z <= self.top by {
                assert(now[i] == before[if i < index { i } else { i + 1 }]);
            }
            if old(self).distinct_instances() {
                assert forall|i: int, j: int| 0 <= i < now.len() && 0 <= j < now.len() && i != j
                    implies #[trigger] now[i].instance != #[trigger] now[j].instance by {
                    let oi = if i < index { i } else { i + 1 };
                    let oj = if j < index { j } else { j + 1 };
                    assert(now[i] == before[oi]);
                    assert(now[j] == before[oj]);
                }
            }
        }
        Some(pane)
    }

    /// What `popin(pane)` does: the pane lands on top and focused; at
    /// capacity in the focused window's place (and frame), whose pane is
    /// handed back.
    pub open spec fn popped_in(old: Self, new: Self, pane: Pane<F>, displaced: Option<Pane<F>>) -> bool {
        &&& new.top == old.top + 1
        &&& new.pick == old.pick
        &&& new.initialized == old.initialized
        &&& old.panes@.len() == MAX_PANES ==> {
            &&& displaced == Some(old.panes@[old.focused as int])
            &&& new.panes@ == old.panes@.update(old.focused as int, Pane {
                module: pane.module,
                instance: pane.instance,
                frame: old.panes@[old.focused as int].frame,
                z: new.top,
                restore: None,
            })
            &&& new.focused == old.focused
        }
        &&& old.panes@.len() < MAX_PANES ==> {
            &&& displaced is None
            &&& new.panes@ == old.panes@.push(Pane {
                module: pane.module,
                instance: pane.instance,
                frame: None,
                z: new.top,
                restore: None,
            })
            &&& new.focused == old.panes@.len()
        }
    }

    /// A pane from another window lands here; returns the displaced view
    /// so its entity can be released by the caller.
    pub fn popin(&mut self, pane: Pane<F>) -> (displaced: Option<Pane<F>>)
        requires
            old(self).wf(),
            old(self).room(),
        ensures
            Self::popped_in(*old(self), *final(self), pane, displaced),
            final(self).wf(),
            final(self).on_top(final(self).focused as int),
            old(self).distinct_instances() && !old(self).holds_instance(pane.instance)
                ==> final(self).distinct_instances(),
    {
        let mut pane = pane;
        pane.frame = None;
        pane.restore = None;
        if self.panes.len() == MAX_PANES {
            let f = self.focused;
            pane.frame = self.panes[f].frame;
            let mut displaced = pane;
            std::mem::swap(&mut self.panes[f], &mut displaced);
            self.raise(f);
            proof {
                let o = old(self).panes@;
                assert(self.panes@ =~= o.update(f as int, Pane {
                    module: pane.module,
                    instance: pane.instance,
                    frame: o[f as int].frame,
                    z: self.top,
                    restore: None,
                }));
            }
            Some(displaced)
        } else {
            self.panes.push(pane);
            self.focused = self.panes.len() - 1;
            let f = self.focused;
            self.raise(f);
            proof {
                let o = old(self).panes@;
                assert(self.panes@ =~= o.push(Pane {
                    module: pane.module,
                    instance: pane.instance,
                    frame: None,
                    z: self.top,
                    restore: None,
                }));
            }
            None
        }
    }

    /// Halves the focused window: it keeps the first half, a new empty
    /// window (the view `fresh`) takes the other. With no window, an empty
    /// one fills the desk. The halves' frames are the shell's to cut from
    /// the frame handed back.
    pub fn halve(&mut self, fresh: u64) -> (done: Halving<F>)
        requires
            old(self).wf(),
            old(self).room(),
        ensures
            final(self).wf(),
            Self::halved(*old(self), *final(self), fresh, done),
    {
        self.pick = 0;
        if self.focused >= self.panes.len() {
            let opened = self.split(EMPTY, fresh);
            return if opened { Halving::Opened } else { Halving::Refused };
        }
        let whole = self.panes[self.focused].frame;
        if !self.split(EMPTY, fresh) {
            return Halving::Refused;
        }
        Halving::Split(whole)
    }

    /// A window of two or more panes cycled forward and then back is where
    /// it started: both cycles move, the stacking is the same, and the
    /// focus is on the window that was on top. With fewer than two panes
    /// neither cycle moves anything.
    pub proof fn law_cycle_back_undoes_forward(a: Self, b: Self, c: Self, forth: bool, back: bool)
        requires
            Self::cycled(a, b, true, forth),
            Self::cycled(b, c, false, back),
        ensures
            a.panes@.len() >= 2 ==> forth && back && c.order() == a.order() && c.focused == a.order().last(),
            a.panes@.len() < 2 ==> !forth && !back && c == a,
    {
        if a.panes@.len() >= 2 {
            let o = a.order();
            assert(o.len() >= 2);
            assert(rotated(rotated(o, true), false) =~= o);
        }
    }

    /// The last of the bottom-to-top list is the window on top.
    pub proof fn law_last_in_order_is_on_top(self, o: Seq<usize>)
        requires
            self.wf(),
            self.is_order(o),
            o.len() > 0,
        ensures
            self.on_top(o.last() as int),
    {
        let n = o.len();
        assert forall|j: int| 0 <= j < self.panes@.len() implies #[trigger] self.panes@[j].z <= self.panes@[o.last() as int].z by {
            assert(o.contains(j as usize));
            let m = choose|m: int| 0 <= m < n && o[m] == j as usize;
            if m < n - 1 {
                assert(self.beneath(o[m] as int, o[n - 1] as int));
            }
        }
    }

    /// Cycling forward once per window visits every window in turn: the
    /// `k`-th cycle focuses the window that was `k`-th from the bottom.
    pub proof fn law_cycling_visits_every_window(ls: Seq<Self>)
        requires
            ls.len() >= 3,
            ls.len() == ls[0].panes@.len() + 1,
            forall|k: int| 0 <= k < ls.len() - 1 ==> Self::cycled(#[trigger] ls[k], ls[k + 1], true, true),
        ensures
            forall|k: int| 0 <= k < ls.len() - 1 ==> #[trigger] ls[k + 1].focused == ls[0].order()[k],
    {
        let n = ls[0].panes@.len();
        let o = ls[0].order();
        assert(Self::cycled(ls[0], ls[1], true, true));
        assert(o.len() == n);
        Self::lemma_cycles_rotate(ls, o, n as nat);
        assert forall|k: int| 0 <= k < ls.len() - 1 implies #[trigger] ls[k + 1].focused == o[k] by {
            assert(Self::cycled(ls[k], ls[k + 1], true, true));
            assert(ls[k + 1].order() == o.subrange(k + 1, n as int) + o.subrange(0, k + 1));
        }
    }

    proof fn lemma_cycles_rotate(ls: Seq<Self>, o: Seq<usize>, k: nat)
        requires
            ls.len() >= 3,
            ls.len() == ls[0].panes@.len() + 1,
            forall|k: int| 0 <= k < ls.len() - 1 ==> Self::cycled(#[trigger] ls[k], ls[k + 1], true, true),
            o == ls[0].order(),
            o.len() == ls[0].panes@.len(),
            k <= ls[0].panes@.len(),
        ensures
            forall|j: int| 0 <= j <= k ==> #[trigger] ls[j].order() == o.subrange(j, o.len() as int) + o.subrange(0, j),
        decreases k,
    {
        let n = o.len() as int;
        if k == 0 {
            assert(ls[0].order() =~= o.subrange(0, n) + o.subrange(0, 0));
        } else {
            Self::lemma_cycles_rotate(ls, o, (k - 1) as nat);
            let j = k - 1;
            assert(Self::cycled(ls[j], ls[j + 1], true, true));
            let prev = o.subrange(j, n) + o.subrange(0, j);
            assert(ls[j].order() == prev);
            assert(prev[0] == o[j]);
            assert(rotated(prev, true) =~= o.subrange(j + 1, n) + o.subrange(0, j + 1));
        }
    }
}

} // verus!
