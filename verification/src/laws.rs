//! What holds of the app across messages: an answer for an attempt since
//! replaced changes nothing, a node that went quiet reads so and one answer
//! recovers it, a switch of chain or a disconnect leaves no key seated, a
//! lock stays locked, and the views a window mounts are its panes' views;
//! and what single operations promise of every input: who Spotlight offers
//! an account to, which routes a link hands a view, which digits a short
//! hash keeps, that every quiz answer counts, and when the block age restarts.

use vstd::prelude::*;

use crate::desk::Link;
use crate::model::{badges_unique, Ducktape, Effect, Keyring, NodeStatus, Overlay, Popover, RecentEndpoint, Stage};
use crate::layout::{Layout, Pane};
use crate::names::RailRow;
use crate::overlay::{action_rows, kept_rows, network_rows, offered_rows, program_rows, query_of, shown_rows, RowText, Spot};
use crate::phrase::quiz_passes;
use crate::readout::{hex_of, nibble, short_hex_text};
use crate::text::{holds_text, joined, lower_of, same_ignoring_ascii_case, trimmed, words_of};
use crate::update::Message;
use crate::window::{mounts, placed, sorted_out, taken_out, to_mount, DesktopWindow, Mounted, Mounting, Settled};

verus! {

/// An answer, a binding or a failure for an attempt since replaced (a
/// newer attempt numbered since) changes nothing and asks for nothing.
pub proof fn law_a_stale_answer_changes_nothing(old: Ducktape, new: Ducktape, message: Message, effects: Seq<Effect>)
    requires
        Ducktape::updated(old, new, message, effects),
        match message {
            Message::Connected { generation, .. } => generation != old.connect_generation,
            Message::NetworkBound { generation, .. } => generation != old.connect_generation,
            Message::ConnectFailed { generation, .. } => generation != old.connect_generation,
            _ => false,
        },
    ensures
        new == old,
        effects.len() == 0,
{
}

/// A node in another contract is refused: the attempt ends, nothing of the
/// network is taken up, and the failure is to be said.
pub proof fn law_another_contract_is_refused(
    old: Ducktape,
    new: Ducktape,
    generation: u64,
    origin: String,
    status: NodeStatus,
    speaks: u64,
    effects: Seq<Effect>,
)
    requires
        Ducktape::updated(old, new, Message::Connected { generation, origin, status, speaks }, effects),
        generation == old.connect_generation,
        status.contract != speaks,
    ensures
        new == (Ducktape { connect_pending: false, connecting: false, ..old }),
        effects.len() == 1,
        effects[0] is Unreached,
{
}

/// One missed status poll is a hiccup; the second reads "Reconnecting…";
/// one answer recovers.
pub proof fn law_two_missed_polls_read_reconnecting(s0: Ducktape, s1: Ducktape, s2: Ducktape, s3: Ducktape, status: NodeStatus, effects: Seq<Effect>)
    requires
        s0.connected,
        s0.status_misses == 0,
        Ducktape::after_status_missed(s0, s1),
        Ducktape::after_status_missed(s1, s2),
        Ducktape::after_status_pushed(s2, s3, status, effects),
    ensures
        !s1.lost(),
        s1.status == s0.status,
        s2.lost(),
        s2.status@ == "Reconnecting…"@,
        !s3.lost(),
        s3.connected,
{
}

/// An answer about another node or another key (one asked before a
/// switch) is dropped.
pub proof fn law_an_account_answer_from_before_a_switch_is_dropped(
    old: Ducktape,
    new: Ducktape,
    node: String,
    key: String,
    account: Option<(u64, String)>,
)
    requires
        Ducktape::account_taken(old, new, node, key, account),
        node@ != old.connected_rpc@ || key@ != old.signer_key@,
    ensures
        new == old,
{
}

/// The key step waiting on the node's first answer goes on once: to the
/// account step for a key with no account, to the desk for one with an
/// account; a later answer moves no screen.
pub proof fn law_the_account_step_opens_once(
    s0: Ducktape,
    s1: Ducktape,
    s2: Ducktape,
    account: Option<(u64, String)>,
    later: Option<(u64, String)>,
)
    requires
        s0.stage matches Stage::Unlock(step) && step.awaiting,
        Ducktape::account_taken(s0, s1, s0.connected_rpc, s0.signer_key, account),
        Ducktape::account_taken(s1, s2, s1.connected_rpc, s1.signer_key, later),
    ensures
        account is None ==> s1.stage is Account,
        account is Some ==> s1.stage is Desk,
        s2.stage == s1.stage,
        s2.account == Some(later),
{
}

/// Disconnecting leaves no key seated, no account, no open view and no
/// node: the connect screen is back.
pub proof fn law_a_disconnect_leaves_no_key_seated(old: Ducktape, new: Ducktape, effects: Seq<Effect>)
    requires
        Ducktape::disconnected(old, new, effects),
        old.connect_generation < u64::MAX,
    ensures
        new.signer_key@.len() == 0,
        new.account is None,
        new.active is None,
        new.badges@.len() == 0,
        !new.connected,
        new.stage is Connect,
        new.connect_generation == old.connect_generation + 1,
{
}

/// A node of another chain than the one in hand leaves nothing of the last
/// one seated: no key, no account, no open view or badge, nothing open
/// over the desk, the key step first.
pub proof fn law_another_chain_leaves_no_key_seated(
    old: Ducktape,
    new: Ducktape,
    origin: String,
    status: NodeStatus,
    keyring: Keyring,
    key_exists: bool,
    recent: Vec<RecentEndpoint>,
    chain: String,
    fresh: u64,
    effects: Seq<Effect>,
)
    requires
        Ducktape::network_taken(old, new, origin, status, keyring, key_exists, recent, chain, fresh, effects),
        keyring.dir@ != old.keyring@,
    ensures
        new.signer_key@.len() == 0,
        new.account is None,
        new.active is None,
        new.badges@.len() == 0,
        new.overlay is None,
        new.stage is Unlock,
        new.keyring == keyring.dir,
        new.connected,
        new.connected_rpc == origin,
        effects[0] == Effect::LeaveNetwork,
{
    let (up, applied, raised, left, raise, opening) = choose|up: Ducktape, applied: Ducktape, raised: Ducktape, left: Seq<Effect>, raise: Seq<Effect>, opening: Seq<Effect>|
        #![trigger Ducktape::taken_up(old, up, keyring, key_exists, left), Ducktape::console_raised(applied, raised, fresh, raise), Ducktape::key_opening(raised, new, opening)]
        {
            let joined = Ducktape {
                recent_endpoints: recent,
                connected_rpc: origin,
                network: status.network,
                chain,
                connected: true,
                status_misses: 0,
                ..up
            };
            &&& Ducktape::taken_up(old, up, keyring, key_exists, left)
            &&& Ducktape::status_applied(joined, applied, status)
            &&& Ducktape::console_raised(applied, raised, fresh, raise)
            &&& Ducktape::key_opening(raised, new, opening)
            &&& effects == left
                + seq![Effect::NetworkInHand { node: origin, network: status.network, chain }]
                + raise + opening + new.resolve_effects()
        };
    assert(effects[0] == left[0]);
}

/// Toggling a menu off the bar twice leaves what was open: nothing, or
/// that menu. (Over another overlay the first toggle replaces it, and the
/// second leaves nothing open.)
pub proof fn law_toggling_a_menu_twice_restores_it(s0: Ducktape, s1: Ducktape, s2: Ducktape, which: Popover)
    requires
        s0.overlay is None || s0.overlay == Some(Overlay::Menu(which)),
        Ducktape::after_toggle_popover(s0, s1, which),
        Ducktape::after_toggle_popover(s1, s2, which),
    ensures
        s2 == s0,
{
}

/// Closing what is not open changes nothing of what is open.
pub proof fn law_closing_what_is_not_open_keeps_the_overlay(old: Ducktape, new: Ducktape, overlay: Overlay)
    requires
        Ducktape::overlay_closed(old, new, overlay),
        old.overlay != Some(overlay),
        !(overlay is Menu),
    ensures
        new.overlay == old.overlay,
{
}

/// A lock stays locked: this device's key is not opened again on its own
/// (a node reached, a sign-in flow) until Unlock, which lifts the lock.
pub proof fn law_a_lock_stays_locked_until_unlock(
    s0: Ducktape,
    s1: Ducktape,
    s2: Ducktape,
    s3: Ducktape,
    locking: Seq<Effect>,
    opening: Seq<Effect>,
    unlocking: Seq<Effect>,
)
    requires
        Ducktape::after_lock(s0, s1, locking),
        Ducktape::key_opening(s1, s2, opening),
        Ducktape::unlock_submitted(s2, s3, unlocking),
        !s2.sign_in.unlock_busy,
    ensures
        s1.sign_in.locked,
        s1.signer_key@.len() == 0,
        s2 == s1,
        opening.len() == 0,
        !s3.sign_in.locked,
{
}

/// Approving another device needs a request found for its code: without
/// one, Approve changes nothing and sends nothing.
pub proof fn law_approving_needs_a_found_request(old: Ducktape, new: Ducktape, effects: Seq<Effect>)
    requires
        Ducktape::after_approve_confirm(old, new, effects),
        !old.sign_in.approve_found,
    ensures
        new == old,
        effects.len() == 0,
{
}

/// A failed unlock keeps the password typed (a retry sends what the field
/// shows); a key seated wipes it.
pub proof fn law_a_failed_unlock_keeps_the_password_and_success_wipes_it(
    s0: Ducktape,
    s1: Ducktape,
    s2: Ducktape,
    error: String,
    key_exists: bool,
    pubkey: String,
    effects: Seq<Effect>,
)
    requires
        s0.stage is Unlock,
        Ducktape::after_unlock_failed(s0, s1, error, key_exists),
        Ducktape::key_seated(s1, s2, pubkey, effects),
    ensures
        s1.stage == s0.stage,
        s2.stage matches Stage::Unlock(step) && step.password@.len() == 0,
{
}

/// A new address typed, or a new try, clears the last failure to reach.
pub proof fn law_a_new_try_clears_the_last_failure(s0: Ducktape, s1: Ducktape, text: String, origin: String, effects: Seq<Effect>)
    requires
        Ducktape::after_endpoint_typed(s0, s1, text) || Ducktape::reaching(s0, s1, origin, effects),
    ensures
        s1.error@.len() == 0,
        s1.endpoint_error@.len() == 0,
{
}

/// Each view kept is a placed pane's.
proof fn lemma_kept_views_are_placed<F>(views: Seq<Mounted>, panes: Seq<Pane<F>>)
    ensures
        forall|k: int| 0 <= k < sorted_out(views, panes, true).len()
            ==> placed(panes, #[trigger] sorted_out(views, panes, true)[k].0),
    decreases views.len(),
{
    if views.len() > 0 {
        lemma_kept_views_are_placed(views.drop_last(), panes);
        let before = sorted_out(views.drop_last(), panes, true);
        let after = sorted_out(views, panes, true);
        assert forall|k: int| 0 <= k < after.len() implies placed(panes, #[trigger] after[k].0) by {
            if k < before.len() {
                assert(after[k] == before[k]);
            }
        }
    }
}

/// Each view to mount is for a pane of `panes`.
proof fn lemma_new_views_are_placed<F>(panes: Seq<Pane<F>>, have: Seq<Mounted>)
    ensures
        forall|k: int| 0 <= k < to_mount(panes, have).len()
            ==> placed(panes, #[trigger] to_mount(panes, have)[k].0),
    decreases panes.len(),
{
    if panes.len() > 0 {
        let prefix = panes.drop_last();
        lemma_new_views_are_placed(prefix, have);
        let before = to_mount(prefix, have);
        let after = to_mount(panes, have);
        assert forall|k: int| 0 <= k < after.len() implies placed(panes, #[trigger] after[k].0) by {
            if k < before.len() {
                assert(after[k] == before[k]);
                let i = choose|i: int| 0 <= i < prefix.len() && prefix[i].instance == before[k].0;
                assert(panes[i] == prefix[i]);
            } else {
                assert(panes[panes.len() - 1].instance == after[k].0);
            }
        }
    }
}

/// Every pane that shows something has a view among `have` and those
/// mounted for it.
proof fn lemma_every_shown_pane_has_a_view<F>(panes: Seq<Pane<F>>, have: Seq<Mounted>)
    ensures
        forall|i: int| 0 <= i < panes.len() && panes[i].module@.len() > 0
            ==> mounts(have + to_mount(panes, have), #[trigger] panes[i].instance),
    decreases panes.len(),
{
    if panes.len() > 0 {
        let prefix = panes.drop_last();
        lemma_every_shown_pane_has_a_view(prefix, have);
        let before = have + to_mount(prefix, have);
        let after = have + to_mount(panes, have);
        assert forall|i: int| 0 <= i < panes.len() && panes[i].module@.len() > 0
            implies mounts(after, #[trigger] panes[i].instance) by {
            if i < prefix.len() {
                assert(prefix[i] == panes[i]);
                assert(mounts(before, prefix[i].instance));
                let k = choose|k: int| 0 <= k < before.len() && before[k].0 == prefix[i].instance;
                assert(after[k] == before[k]);
            } else if mounts(before, panes[i].instance) {
                let k = choose|k: int| 0 <= k < before.len() && before[k].0 == panes[i].instance;
                assert(after[k] == before[k]);
            } else {
                assert(after[after.len() - 1].0 == panes[i].instance);
            }
        }
    }
}

/// A window's views are its panes' views once they are brought in line:
/// each pane that shows something has one mounted, and each view mounted
/// is a pane's.
pub proof fn law_a_windows_views_are_its_panes_views<F: Copy>(old: DesktopWindow<F>, new: DesktopWindow<F>, done: Mounting)
    requires
        DesktopWindow::synced(old, new, done),
    ensures
        forall|i: int| 0 <= i < new.layout.panes@.len() && new.layout.panes@[i].module@.len() > 0
            ==> mounts(new.mounted@, #[trigger] new.layout.panes@[i].instance),
        forall|k: int| 0 <= k < new.mounted@.len() ==> placed(new.layout.panes@, #[trigger] new.mounted@[k].0),
{
    let panes = old.layout.panes@;
    let kept = sorted_out(old.mounted@, panes, true);
    lemma_kept_views_are_placed(old.mounted@, panes);
    lemma_new_views_are_placed(panes, kept);
    lemma_every_shown_pane_has_a_view(panes, kept);
    assert forall|k: int| 0 <= k < new.mounted@.len() implies placed(new.layout.panes@, #[trigger] new.mounted@[k].0) by {
        if k < kept.len() {
            assert(new.mounted@[k] == kept[k]);
        } else {
            assert(new.mounted@[k] == to_mount(panes, kept)[k - kept.len()]);
        }
    }
}

/// A pane that leaves its window takes its own view along: the view handed
/// out is the pane's, and neither stays behind.
pub proof fn law_a_popped_out_pane_takes_its_view<F: Copy>(
    old: DesktopWindow<F>,
    new: DesktopWindow<F>,
    index: int,
    pane: Pane<F>,
    view: Mounted,
)
    requires
        DesktopWindow::handed_out(old, new, index, Some((pane, view))),
        0 <= index < old.layout.panes@.len(),
    ensures
        pane == old.layout.panes@[index],
        view.0 == pane.instance,
        new.layout.panes@ == old.layout.panes@.remove(index),
        mounts(old.mounted@, pane.instance),
        new.mounted@.len() == old.mounted@.len() - 1,
{
    let taken = choose|taken: Option<Mounted>| #[trigger] taken_out(old.mounted@, pane.instance, new.mounted@, taken)
        && Some((pane, view)) == (match taken { Some(view) => Some((pane, view)), None => None });
    if mounts(old.mounted@, pane.instance) {
        let k = choose|k: int| #[trigger] crate::window::first_view(old.mounted@, pane.instance, k)
            && taken == Some(old.mounted@[k]) && new.mounted@ == old.mounted@.remove(k);
    }
}

/// Views that are all placed are all kept, and none hidden.
proof fn lemma_all_placed_all_kept<F>(views: Seq<Mounted>, panes: Seq<Pane<F>>)
    requires
        forall|k: int| 0 <= k < views.len() ==> placed(panes, #[trigger] views[k].0),
    ensures
        sorted_out(views, panes, true) == views,
        sorted_out(views, panes, false) == Seq::<Mounted>::empty(),
    decreases views.len(),
{
    if views.len() > 0 {
        let prefix = views.drop_last();
        assert forall|k: int| 0 <= k < prefix.len() implies placed(panes, #[trigger] prefix[k].0) by {
            assert(prefix[k] == views[k]);
        }
        lemma_all_placed_all_kept(prefix, panes);
        assert(placed(panes, views[views.len() - 1].0));
        assert(prefix.push(views.last()) =~= views);
    }
}

/// Panes that all have their view need none mounted.
proof fn lemma_all_mounted_none_new<F>(panes: Seq<Pane<F>>, have: Seq<Mounted>)
    requires
        forall|i: int| 0 <= i < panes.len() && panes[i].module@.len() > 0 ==> mounts(have, #[trigger] panes[i].instance),
    ensures
        to_mount(panes, have) == Seq::<Mounted>::empty(),
    decreases panes.len(),
{
    if panes.len() > 0 {
        let prefix = panes.drop_last();
        assert forall|i: int| 0 <= i < prefix.len() && prefix[i].module@.len() > 0 implies mounts(have, #[trigger] prefix[i].instance) by {
            assert(prefix[i] == panes[i]);
        }
        lemma_all_mounted_none_new(prefix, have);
        let last = panes.len() - 1;
        assert(have + Seq::<Mounted>::empty() =~= have);
        if panes[last].module@.len() > 0 {
            assert(mounts(have, panes[last].instance));
        }
    }
}

/// Bringing a window's views in line a second time changes nothing: none
/// to hide, none to mount.
pub proof fn law_settling_again_changes_nothing<F: Copy>(
    a: DesktopWindow<F>,
    b: DesktopWindow<F>,
    c: DesktopWindow<F>,
    first: Mounting,
    second: Mounting,
)
    requires
        DesktopWindow::synced(a, b, first),
        DesktopWindow::synced(b, c, second),
    ensures
        second.hidden@.len() == 0,
        second.added@.len() == 0,
        c.mounted@ == b.mounted@,
        c.layout == b.layout,
        c.kind == b.kind,
        c.initialized == b.initialized,
{
    law_a_windows_views_are_its_panes_views(a, b, first);
    let panes = b.layout.panes@;
    lemma_all_placed_all_kept(b.mounted@, panes);
    lemma_all_mounted_none_new(panes, b.mounted@);
    assert(c.mounted@ =~= b.mounted@);
}

/// Each placed view is among those kept.
proof fn lemma_placed_views_are_kept<F>(views: Seq<Mounted>, panes: Seq<Pane<F>>)
    ensures
        forall|k: int| 0 <= k < views.len() && placed(panes, views[k].0)
            ==> mounts(sorted_out(views, panes, true), #[trigger] views[k].0),
    decreases views.len(),
{
    if views.len() > 0 {
        let prefix = views.drop_last();
        lemma_placed_views_are_kept(prefix, panes);
        let before = sorted_out(prefix, panes, true);
        let after = sorted_out(views, panes, true);
        assert forall|k: int| 0 <= k < views.len() && placed(panes, views[k].0)
            implies mounts(after, #[trigger] views[k].0) by {
            if k < prefix.len() {
                assert(prefix[k] == views[k]);
                let j = choose|j: int| 0 <= j < before.len() && before[j].0 == prefix[k].0;
                assert(after[j] == before[j]);
            } else {
                assert(after[after.len() - 1] == views[k]);
            }
        }
    }
}

/// A pane taken in from another window lands with its view: once the
/// window settles, the pane is one of its panes and its view is mounted.
pub proof fn law_a_pane_taken_in_keeps_its_view<F: Copy>(
    old: DesktopWindow<F>,
    new: DesktopWindow<F>,
    pane: Pane<F>,
    view: Mounted,
    done: Settled,
)
    requires
        DesktopWindow::took_in(old, new, pane, view, done),
        old.layout.wf(),
        view.0 == pane.instance,
    ensures
        placed(new.layout.panes@, pane.instance),
        mounts(new.mounted@, pane.instance),
{
    let landed = choose|landed: DesktopWindow<F>| {
        &&& #[trigger] landed.mounted@ == old.mounted@.push(view)
        &&& exists|displaced: Option<Pane<F>>| #[trigger] Layout::popped_in(old.layout, landed.layout, pane, displaced)
        &&& landed == (DesktopWindow { layout: landed.layout, mounted: landed.mounted, initialized: true, ..old })
        &&& DesktopWindow::settled(landed, new, done)
    };
    let displaced = choose|displaced: Option<Pane<F>>| #[trigger] Layout::popped_in(old.layout, landed.layout, pane, displaced);
    let panes = landed.layout.panes@;
    let at: int = if old.layout.panes@.len() == crate::layout::MAX_PANES { old.layout.focused as int } else { old.layout.panes@.len() as int };
    if old.layout.panes@.len() == crate::layout::MAX_PANES {
        assert(panes == old.layout.panes@.update(at, Pane {
            module: pane.module,
            instance: pane.instance,
            frame: old.layout.panes@[at].frame,
            z: landed.layout.top,
            restore: None,
        }));
    }
    assert(panes[at].instance == pane.instance);
    assert(placed(panes, pane.instance));
    let last = landed.mounted@.len() - 1;
    assert(landed.mounted@[last] == view);
    lemma_placed_views_are_kept(landed.mounted@, panes);
    let kept = sorted_out(landed.mounted@, panes, true);
    assert(mounts(kept, landed.mounted@[last].0));
    let k = choose|k: int| 0 <= k < kept.len() && kept[k].0 == pane.instance;
    assert(new.mounted@[k] == kept[k]);
}

/// A program has one badge at most: from badges that name each program
/// at most once, no message makes a second entry for any of them.
pub proof fn law_a_program_has_one_badge_at_most(old: Ducktape, new: Ducktape, message: Message, effects: Seq<Effect>)
    requires
        badges_unique(old.badges@),
        Ducktape::updated(old, new, message, effects),
    ensures
        badges_unique(new.badges@),
{
}

/// The rows kept for a query are rows that were offered.
proof fn lemma_kept_rows_are_offered(rows: Seq<RowText>, query: Seq<char>)
    ensures
        forall|k: int| 0 <= k < kept_rows(rows, query).len() ==> exists|j: int| 0 <= j < rows.len() && rows[j] == #[trigger] kept_rows(rows, query)[k],
    decreases rows.len(),
{
    if rows.len() > 0 {
        let before = rows.drop_last();
        lemma_kept_rows_are_offered(before, query);
        let kept = kept_rows(rows, query);
        assert forall|k: int| 0 <= k < kept.len() implies exists|j: int| 0 <= j < rows.len() && rows[j] == #[trigger] kept[k] by {
            let kb = kept_rows(before, query);
            if k < kb.len() {
                assert(kept[k] == kb[k]);
                let j = choose|j: int| 0 <= j < before.len() && before[j] == kb[k];
                assert(rows[j] == before[j]);
            } else {
                assert(kept[k] == rows[rows.len() - 1]);
            }
        }
    }
}

/// Every row kept holds the text typed in its title or its detail.
proof fn lemma_kept_rows_match(rows: Seq<RowText>, query: Seq<char>)
    ensures
        forall|k: int| 0 <= k < kept_rows(rows, query).len() ==> {
            let row = #[trigger] kept_rows(rows, query)[k];
            query.len() == 0 || holds_text(lower_of(row.1), query) || holds_text(lower_of(row.2), query)
        },
    decreases rows.len(),
{
    if rows.len() > 0 {
        let before = rows.drop_last();
        lemma_kept_rows_match(before, query);
        let kept = kept_rows(rows, query);
        let kb = kept_rows(before, query);
        assert forall|k: int| 0 <= k < kept.len() implies {
            let row = #[trigger] kept[k];
            query.len() == 0 || holds_text(lower_of(row.1), query) || holds_text(lower_of(row.2), query)
        } by {
            if k < kb.len() {
                assert(kept[k] == kb[k]);
            } else {
                assert(kept[k] == rows.last());
            }
        }
    }
}

/// With nothing typed, every row offered is kept.
proof fn lemma_nothing_typed_keeps_all(rows: Seq<RowText>, query: Seq<char>)
    requires
        query.len() == 0,
    ensures
        kept_rows(rows, query) == rows,
    decreases rows.len(),
{
    if rows.len() > 0 {
        lemma_nothing_typed_keeps_all(rows.drop_last(), query);
        assert(rows.drop_last().push(rows.last()) =~= rows);
    }
}

proof fn lemma_program_rows_open(rail: Seq<RailRow>)
    ensures
        forall|k: int| 0 <= k < program_rows(rail).len() ==> (#[trigger] program_rows(rail)[k]).3 is Open,
    decreases rail.len(),
{
    if rail.len() > 0 {
        lemma_program_rows_open(rail.drop_last());
    }
}

proof fn lemma_network_rows_switch(recent: Seq<RecentEndpoint>, connected: Seq<char>)
    ensures
        forall|k: int| 0 <= k < network_rows(recent, connected).len() ==> (#[trigger] network_rows(recent, connected)[k]).3 is Switch,
    decreases recent.len(),
{
    if recent.len() > 0 {
        lemma_network_rows_switch(recent.drop_last(), connected);
    }
}

/// Spotlight offers "Create account" only to a seated key that the node
/// says holds no account; to such a key, with nothing typed, it is offered.
pub proof fn law_create_account_is_offered_only_to_a_key_without_one(state: Ducktape, rail: Seq<RailRow>)
    ensures
        forall|k: int| 0 <= k < shown_rows(state, rail).len() && #[trigger] shown_rows(state, rail)[k].3 == Spot::CreateAccount
            ==> state.account == Some(None::<(u64, String)>) && state.signer_key@.len() > 0,
        state.account == Some(None::<(u64, String)>) && state.signer_key@.len() > 0 && query_of(state).len() == 0
            ==> exists|k: int| 0 <= k < shown_rows(state, rail).len() && #[trigger] shown_rows(state, rail)[k].3 == Spot::CreateAccount,
        forall|k: int| 0 <= k < shown_rows(state, rail).len() && #[trigger] shown_rows(state, rail)[k].3 == Spot::Lock
            ==> state.signer_key@.len() > 0,
        state.signer_key@.len() > 0 && query_of(state).len() == 0
            ==> exists|k: int| 0 <= k < shown_rows(state, rail).len() && #[trigger] shown_rows(state, rail)[k].3 == Spot::Lock,
        forall|k: int| 0 <= k < shown_rows(state, rail).len() ==> {
            let row = #[trigger] shown_rows(state, rail)[k];
            query_of(state).len() == 0 || holds_text(lower_of(row.1), query_of(state)) || holds_text(lower_of(row.2), query_of(state))
        },
{
    let offered = offered_rows(state, rail);
    let programs = program_rows(rail);
    let networks = network_rows(state.recent_endpoints@, state.connected_rpc@);
    let actions = action_rows(state);
    lemma_program_rows_open(rail);
    lemma_network_rows_switch(state.recent_endpoints@, state.connected_rpc@);
    lemma_kept_rows_are_offered(offered, query_of(state));
    let shown = shown_rows(state, rail);
    lemma_kept_rows_match(offered, query_of(state));
    assert forall|k: int| 0 <= k < shown.len() && #[trigger] shown[k].3 == Spot::Lock
        implies state.signer_key@.len() > 0 by {
        let j = choose|j: int| 0 <= j < offered.len() && offered[j] == shown[k];
        if j < programs.len() {
            assert(offered[j] == programs[j]);
        } else if j < programs.len() + networks.len() {
            assert(offered[j] == networks[j - programs.len()]);
        } else {
            assert(offered[j] == actions[j - programs.len() - networks.len()]);
        }
    }
    assert forall|k: int| 0 <= k < shown.len() && #[trigger] shown[k].3 == Spot::CreateAccount
        implies state.account == Some(None::<(u64, String)>) && state.signer_key@.len() > 0 by {
        let j = choose|j: int| 0 <= j < offered.len() && offered[j] == shown[k];
        if j < programs.len() {
            assert(offered[j] == programs[j]);
        } else if j < programs.len() + networks.len() {
            assert(offered[j] == networks[j - programs.len()]);
        } else {
            assert(offered[j] == actions[j - programs.len() - networks.len()]);
        }
    }
    if state.account == Some(None::<(u64, String)>) && state.signer_key@.len() > 0 && query_of(state).len() == 0 {
        lemma_nothing_typed_keeps_all(offered, query_of(state));
        let at: int = (programs.len() + networks.len() + 1) as int;
        assert(actions[1].3 == Spot::CreateAccount);
        assert(shown[at] == actions[1]);
    }
    if state.signer_key@.len() > 0 && query_of(state).len() == 0 {
        lemma_nothing_typed_keeps_all(offered, query_of(state));
        let first: int = (programs.len() + networks.len()) as int;
        if state.account == Some(None::<(u64, String)>) {
            assert(actions[2].3 == Spot::Lock);
            assert(shown[first + 2] == actions[2]);
        } else {
            assert(actions[1].3 == Spot::Lock);
            assert(shown[first + 1] == actions[1]);
        }
    }
}

/// A chain link opens its view at the route only when the link is to this
/// chain, the program is listed, and the view takes that route; a route
/// the view does not take opens the view at no route and says so.
pub proof fn law_a_route_the_view_refuses_is_not_handed_to_it(old: Ducktape, new: Ducktape, link: Link, effects: Seq<Effect>)
    requires
        Ducktape::link_opened(old, new, link, effects),
        link is Chain,
    ensures
        forall|k: int| 0 <= k < effects.len() && #[trigger] effects[k] is Route ==> {
            &&& link->Chain_listed
            &&& link->Chain_chain@ == old.chain@
            &&& link->Chain_route_valid
            &&& joined(link->Chain_tail@.map_values(|s: String| s@), "/"@).len() > 0
        },
        forall|k: int| 0 <= k < effects.len() ==> match #[trigger] effects[k] {
            Effect::Route { module, route } => module == link->Chain_module && route@ == joined(link->Chain_tail@.map_values(|s: String| s@), "/"@),
            _ => true,
        },
        !link->Chain_listed ==> effects.len() == 0 && new.active == old.active,
        link->Chain_listed && link->Chain_chain@ != old.chain@ ==> {
            &&& effects == seq![Effect::Open(link->Chain_module)]
            &&& new.toast@ == "That link is to "@ + link->Chain_label@ + ", not this network; opened "@ + link->Chain_module@ + "."@
        },
        link->Chain_listed && link->Chain_chain@ == old.chain@ && !link->Chain_route_valid && joined(link->Chain_tail@.map_values(|s: String| s@), "/"@).len() > 0 ==> {
            &&& effects == seq![Effect::Open(link->Chain_module)]
            &&& new.toast@ == link->Chain_module@ + " can't open that part of the link."@
            &&& new.active == Some(link->Chain_module)
        },
{
}

/// Two lower-case hex digits for each byte, in order.
proof fn lemma_hex_digits(b: Seq<u8>)
    ensures
        hex_of(b).len() == 2 * b.len(),
        forall|i: int| 0 <= i < b.len() ==> hex_of(b)[2 * i] == nibble((#[trigger] b[i] / 16) as nat) && hex_of(b)[2 * i + 1] == nibble((b[i] % 16) as nat),
    decreases b.len(),
{
    if b.len() > 0 {
        let before = b.drop_last();
        lemma_hex_digits(before);
        let h = hex_of(b);
        assert forall|i: int| 0 <= i < b.len() implies h[2 * i] == nibble((#[trigger] b[i] / 16) as nat) && h[2 * i + 1] == nibble((b[i] % 16) as nat) by {
            if i < before.len() {
                assert(b[i] == before[i]);
                assert(h[2 * i] == hex_of(before)[2 * i]);
                assert(h[2 * i + 1] == hex_of(before)[2 * i + 1]);
            }
        }
    }
}

/// A hash of up to seven bytes reads in full; a longer one reads as its
/// first four bytes, an ellipsis and its last two bytes, each byte two
/// lower-case hex digits.
pub proof fn law_a_short_hash_keeps_its_ends(b: Seq<u8>)
    ensures
        b.len() <= 7 ==> short_hex_text(b).len() == 2 * b.len(),
        b.len() <= 7 ==> forall|i: int| 0 <= i < b.len() ==> short_hex_text(b)[2 * i] == nibble((#[trigger] b[i] / 16) as nat) && short_hex_text(b)[2 * i + 1] == nibble((b[i] % 16) as nat),
        b.len() > 7 ==> short_hex_text(b) == seq![
            nibble((b[0] / 16) as nat), nibble((b[0] % 16) as nat),
            nibble((b[1] / 16) as nat), nibble((b[1] % 16) as nat),
            nibble((b[2] / 16) as nat), nibble((b[2] % 16) as nat),
            nibble((b[3] / 16) as nat), nibble((b[3] % 16) as nat),
            '…',
            nibble((b[b.len() - 2] / 16) as nat), nibble((b[b.len() - 2] % 16) as nat),
            nibble((b[b.len() - 1] / 16) as nat), nibble((b[b.len() - 1] % 16) as nat),
        ],
{
    lemma_hex_digits(b);
    let h = hex_of(b);
    if b.len() > 7 {
        let n = b.len() as int;
        assert(h[0] == nibble((b[0] / 16) as nat) && h[1] == nibble((b[0] % 16) as nat));
        assert(h[2] == nibble((b[1] / 16) as nat) && h[3] == nibble((b[1] % 16) as nat));
        assert(h[4] == nibble((b[2] / 16) as nat) && h[5] == nibble((b[2] % 16) as nat));
        assert(h[6] == nibble((b[3] / 16) as nat) && h[7] == nibble((b[3] % 16) as nat));
        assert(h[2 * (n - 2)] == nibble((b[n - 2] / 16) as nat) && h[2 * (n - 2) + 1] == nibble((b[n - 2] % 16) as nat));
        assert(h[2 * (n - 1)] == nibble((b[n - 1] / 16) as nat) && h[2 * (n - 1) + 1] == nibble((b[n - 1] % 16) as nat));
        assert(short_hex_text(b) =~= seq![
            nibble((b[0] / 16) as nat), nibble((b[0] % 16) as nat),
            nibble((b[1] / 16) as nat), nibble((b[1] % 16) as nat),
            nibble((b[2] / 16) as nat), nibble((b[2] % 16) as nat),
            nibble((b[3] / 16) as nat), nibble((b[3] % 16) as nat),
            '…',
            nibble((b[n - 2] / 16) as nat), nibble((b[n - 2] % 16) as nat),
            nibble((b[n - 1] / 16) as nat), nibble((b[n - 1] % 16) as nat),
        ]);
    }
}

/// The recovery-key check passes exactly when each of the three answers,
/// the first, the second and the third, is the phrase's word at the
/// position asked for it, ignoring ASCII case and the answer's
/// surrounding whitespace.
pub proof fn law_every_answer_is_checked(phrase: Seq<char>, asked: [usize; 3], answers: Seq<Seq<char>>)
    ensures
        quiz_passes(phrase, asked, answers) <==> {
            let w = words_of(phrase);
            &&& asked[0] < w.len() && same_ignoring_ascii_case(w[asked[0] as int], trimmed(answers[0]))
            &&& asked[1] < w.len() && same_ignoring_ascii_case(w[asked[1] as int], trimmed(answers[1]))
            &&& asked[2] < w.len() && same_ignoring_ascii_case(w[asked[2] as int], trimmed(answers[2]))
        },
{
    assert(asked@[0] == asked[0] && asked@[1] == asked[1] && asked@[2] == asked[2]);
}

/// A status that moves the height restarts the block age at zero; one
/// that leaves the height where it was keeps the time the last block came.
pub proof fn law_a_new_height_restarts_the_block_age(old: Ducktape, new: Ducktape, status: NodeStatus)
    requires
        Ducktape::status_applied(old, new, status),
    ensures
        new.wall_now == old.wall_now,
        new.height != old.height ==> new.wall_now - new.block_seen == 0,
        new.height == old.height ==> new.block_seen == old.block_seen,
        status.height <= i64::MAX ==> new.height == status.height,
{
}

} // verus!
