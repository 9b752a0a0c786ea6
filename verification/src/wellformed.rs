//! The invariant of the coordinator: every operation leads from a state
//! that the coordinator can be in to another such state.

use crate::event_loop::Action;
use crate::geometry::ScaleFactor;
use crate::input::{KeyboardEventVariant, PointerEvent, TouchEventVariant};
use crate::request::Request;
use crate::seat::Capability;
use crate::popup_tree::{doomed_from, in_subtree, spared_upto};
use crate::shell::{
    CursorIcon, LayerSurfaceConfigure, ObjectId, PopupConfigure, SctkPopupSettings,
    SessionLockSurfaceConfigure, WindowConfigure,
};
use crate::state::{parent_stands_before, popups_ordered, stands_at, StateView};
use crate::surface::{
    first_with_id, first_with_surface, index_of_id, index_of_surface, Record, SctkLayerSurface,
    SctkLockSurface, SctkPopup, SctkSurface,
};
use crate::table::{lemma_inserted, lemma_removed};
use crate::wayland;
use crate::wayland::layer_surface::SctkLayerSurfaceSettings;
use crate::wayland::window::SctkWindowSettings;
use crate::window::Id;
use vstd::prelude::*;

verus! {

/// The place that a lookup by id gives is the first place of the id.
pub proof fn lemma_index_of_id<R: Record>(records: Seq<R>, id: Id)
    ensures
        index_of_id(records, id) matches Some(i) ==> first_with_id(records, id, i),
{
}

/// The place that a lookup by surface gives is the first place of the
/// surface.
pub proof fn lemma_index_of_surface<R: Record>(records: Seq<R>, surface: ObjectId)
    ensures
        index_of_surface(records, surface) matches Some(i) ==> first_with_surface(
            records,
            surface,
            i,
        ),
{
}

/// Naming a surface keeps the state well-formed, as long as names are left.
pub proof fn lemma_named_wf(s: StateView, id: Id)
    requires
        s.wf(),
        s.next_surface < u64::MAX,
    ensures
        s.named(id).wf(),
{
    reveal(StateView::wf);
    lemma_inserted(s.id_map, s.next_surface, id);
    assert forall|i: int| 0 <= i < s.popups.len() implies #[trigger] parent_stands_before(
        s.named(id).popups,
        i,
    ) by {
        assert(parent_stands_before(s.popups, i));
    }
}

/// Forgetting a surface keeps the state well-formed.
pub proof fn lemma_forgetting_wf(s: StateView, id: Id, surface: ObjectId)
    requires
        s.wf(),
    ensures
        s.forgetting(id, surface).wf(),
{
    reveal(StateView::wf);
    lemma_removed(s.id_map, surface.0);
    lemma_removed(s.to_commit, id.0);
    lemma_removed(s.requested_frame, surface.0);
    assert forall|i: int| 0 <= i < s.popups.len() implies #[trigger] parent_stands_before(
        s.forgetting(id, surface).popups,
        i,
    ) by {
        assert(parent_stands_before(s.popups, i));
    }
}

/// Marking a surface for a commit keeps the state well-formed.
pub proof fn lemma_committing_wf(s: StateView, id: Id, surface: ObjectId, request: Request)
    requires
        s.wf(),
    ensures
        s.committing(id, surface, request).wf(),
{
    reveal(StateView::wf);
    lemma_inserted(s.to_commit, id.0, surface);
    assert forall|i: int| 0 <= i < s.popups.len() implies #[trigger] parent_stands_before(
        s.committing(id, surface, request).popups,
        i,
    ) by {
        assert(parent_stands_before(s.popups, i));
    }
}

/// Creating a window keeps the state well-formed, as long as names are
/// left.
pub proof fn lemma_get_window_wf(s: StateView, settings: SctkWindowSettings)
    requires
        s.wf(),
        s.next_surface < u64::MAX,
    ensures
        s.get_window(settings).wf(),
{
    reveal(StateView::wf);
    lemma_named_wf(s, settings.window_id);
    let after = s.get_window(settings);
    assert forall|i: int| 0 <= i < after.popups.len() implies #[trigger] parent_stands_before(
        after.popups,
        i,
    ) by {
        assert(parent_stands_before(s.popups, i));
    }
}

/// Creating a layer surface keeps the state well-formed, as long as names
/// are left.
pub proof fn lemma_get_layer_surface_wf(s: StateView, settings: SctkLayerSurfaceSettings)
    requires
        s.wf(),
        s.next_surface < u64::MAX,
    ensures
        s.get_layer_surface(settings).wf(),
{
    reveal(StateView::wf);
    lemma_named_wf(s, settings.id);
    let after = s.get_layer_surface(settings);
    assert forall|i: int| 0 <= i < after.popups.len() implies #[trigger] parent_stands_before(
        after.popups,
        i,
    ) by {
        assert(parent_stands_before(s.popups, i));
    }
}

/// Creating a popup keeps the state well-formed, as long as names are left:
/// the new popup has a surface of its own and stands after the popup it is
/// placed against.
pub proof fn lemma_get_popup_wf(s: StateView, settings: SctkPopupSettings)
    requires
        s.wf(),
        s.next_surface < u64::MAX,
    ensures
        s.get_popup(settings).wf(),
{
    reveal(StateView::wf);
    if s.popup_error(settings) is None {
        lemma_named_wf(s, settings.id);
        lemma_index_of_id(s.popups, settings.parent);
        let after = s.get_popup(settings);
        let n = s.popups.len() as int;
        assert(after.popups == s.popups.push(s.popup_record(settings, s.fresh())));
        assert forall|i: int| 0 <= i < after.popups.len() implies #[trigger] parent_stands_before(
            after.popups,
            i,
        ) by {
            if i < n {
                assert(parent_stands_before(s.popups, i));
                match s.popups[i].data.parent {
                    SctkSurface::Popup(p) => {
                        let j = choose|j: int| 0 <= j < i && #[trigger] stands_at(s.popups, j, p);
                        assert(stands_at(after.popups, j, p));
                    },
                    _ => {},
                }
            } else {
                match after.popups[i].data.parent {
                    SctkSurface::Popup(p) => {
                        let j = index_of_id(s.popups, settings.parent).unwrap();
                        assert(stands_at(after.popups, j, p));
                    },
                    _ => {},
                }
            }
        }
    }
}

/// Creating a lock surface keeps the state well-formed, as long as names
/// are left.
pub proof fn lemma_get_lock_surface_wf(s: StateView, id: Id, output: ObjectId)
    requires
        s.wf(),
        s.next_surface < u64::MAX,
    ensures
        s.get_lock_surface(id, output).wf(),
{
    reveal(StateView::wf);
    lemma_named_wf(s, id);
    let after = s.get_lock_surface(id, output);
    assert forall|i: int| 0 <= i < after.popups.len() implies #[trigger] parent_stands_before(
        after.popups,
        i,
    ) by {
        assert(parent_stands_before(s.popups, i));
    }
}

/// Putting another record of the same popup in its place keeps the popups
/// in order.
pub proof fn lemma_popup_replaced(popups: Seq<SctkPopup>, next: u64, i: int, popup: SctkPopup)
    requires
        popups_ordered(popups, next),
        0 <= i < popups.len(),
        popup.popup == popups[i].popup,
        popup.data.parent == popups[i].data.parent,
    ensures
        popups_ordered(popups.update(i, popup), next),
{
    let after = popups.update(i, popup);
    assert forall|k: int| 0 <= k < after.len() implies #[trigger] parent_stands_before(
        after,
        k,
    ) by {
        assert(parent_stands_before(popups, k));
        match popups[k].data.parent {
            SctkSurface::Popup(p) => {
                let j = choose|j: int| 0 <= j < k && #[trigger] stands_at(popups, j, p);
                assert(stands_at(after, j, p));
            },
            _ => {},
        }
    }
    assert forall|a: int, b: int| 0 <= a < b < after.len() implies (#[trigger] after[a]).popup != (
    #[trigger] after[b]).popup by {
        assert(popups[a].popup != popups[b].popup);
    }
    assert forall|k: int| 0 <= k < after.len() implies (#[trigger] after[k]).popup.0 < next by {
        assert(popups[k].popup.0 < next);
    }
}

/// A change of scale keeps the state well-formed.
pub proof fn lemma_scale_factor_changed_wf(
    s: StateView,
    surface: ObjectId,
    scale: ScaleFactor,
    legacy: bool,
)
    requires
        s.wf(),
    ensures
        s.scale_factor_changed(surface, scale, legacy).wf(),
{
    reveal(StateView::wf);
    lemma_index_of_surface(s.windows, surface);
    lemma_index_of_surface(s.popups, surface);
    lemma_index_of_surface(s.layer_surfaces, surface);
    lemma_index_of_surface(s.lock_surfaces, surface);
    let after = s.scale_factor_changed(surface, scale, legacy);
    if after != s {
        match s.role_of(surface) {
            Some(crate::handlers::Role::Popup(i)) => {
                lemma_popup_replaced(s.popups, s.next_surface, i as int, after.popups[i as int]);
            },
            _ => {},
        }
    }
}

/// The configure of a window keeps the state well-formed, and leaves the
/// viewport of the window, where it has one, at the size that the configure
/// has established.
pub proof fn lemma_configure_wf(s: StateView, surface: ObjectId, configure: WindowConfigure)
    requires
        s.wf(),
    ensures
        s.configure(surface, configure).wf(),
        index_of_surface(s.windows, surface) matches Some(i) ==> {
            let window = s.configure(surface, configure).windows[i];
            &&& window.window == surface
            &&& window.current_size == s.windows[i].updated_size(configure.new_size)
            &&& crate::surface::viewport_shows(window.wp_viewport, window.current_size)
        },
{
    reveal(StateView::wf);
    lemma_index_of_surface(s.windows, surface);
}

/// A request to close a window keeps the state well-formed.
pub proof fn lemma_request_close_wf(s: StateView, surface: ObjectId)
    requires
        s.wf(),
    ensures
        s.request_close(surface).wf(),
{
    reveal(StateView::wf);
}

/// The configure of a layer surface keeps the state well-formed, and leaves
/// the viewport of the surface, where it has one, at the size that the
/// configure has established.
pub proof fn lemma_configure_layer_wf(
    s: StateView,
    surface: ObjectId,
    configure: LayerSurfaceConfigure,
)
    requires
        s.wf(),
    ensures
        s.configure_layer(surface, configure).wf(),
        index_of_surface(s.layer_surfaces, surface) matches Some(i) ==> {
            let layer = s.configure_layer(surface, configure).layer_surfaces[i];
            let size = crate::geometry::LogicalSize {
                width: configure.new_size.0,
                height: configure.new_size.1,
            };
            &&& layer.surface == surface
            &&& layer.current_size == Some(size)
            &&& crate::surface::viewport_shows(layer.wp_viewport, size)
        },
{
    reveal(StateView::wf);
    lemma_index_of_surface(s.layer_surfaces, surface);
}

/// The closing of a layer surface keeps the state well-formed.
pub proof fn lemma_closed_layer_wf(s: StateView, surface: ObjectId)
    requires
        s.wf(),
    ensures
        s.closed_layer(surface).wf(),
{
    reveal(StateView::wf);
    lemma_index_of_surface(s.layer_surfaces, surface);
    match index_of_surface(s.layer_surfaces, surface) {
        Some(i) => {
            lemma_forgetting_wf(s, s.layer_surfaces[i].id, surface);
        },
        None => {},
    }
}

/// The configure of a popup keeps the state well-formed, and leaves the
/// viewport of the popup, where it has one, at the size that the configure
/// has established.
pub proof fn lemma_configure_popup_wf(s: StateView, surface: ObjectId, configure: PopupConfigure)
    requires
        s.wf(),
    ensures
        s.configure_popup(surface, configure).wf(),
        index_of_surface(s.popups, surface) matches Some(i) ==> {
            let popup = s.configure_popup(surface, configure).popups[i];
            &&& popup.popup == surface
            &&& popup.common.size == crate::handlers::configured_size(
                s.popups[i].common.size,
                configure.width,
                configure.height,
            )
            &&& crate::surface::viewport_shows(popup.wp_viewport, popup.common.size)
        },
{
    reveal(StateView::wf);
    lemma_index_of_surface(s.popups, surface);
    match index_of_surface(s.popups, surface) {
        Some(i) => {
            lemma_popup_replaced(
                s.popups,
                s.next_surface,
                i,
                s.configure_popup(surface, configure).popups[i],
            );
        },
        None => {},
    }
}

/// The configure of a lock surface keeps the state well-formed, and leaves
/// the viewport of the surface, where it has one, at the size that the
/// configure has established.
pub proof fn lemma_configure_lock_surface_wf(
    s: StateView,
    surface: ObjectId,
    configure: SessionLockSurfaceConfigure,
)
    requires
        s.wf(),
    ensures
        s.configure_lock_surface(surface, configure).wf(),
        index_of_surface(s.lock_surfaces, surface) matches Some(i) ==> {
            let lock = s.configure_lock_surface(surface, configure).lock_surfaces[i];
            let size = crate::geometry::LogicalSize {
                width: configure.new_size.0,
                height: configure.new_size.1,
            };
            &&& lock.session_lock_surface == surface
            &&& lock.common.size == size
            &&& crate::surface::viewport_shows(lock.wp_viewport, size)
        },
{
    reveal(StateView::wf);
    lemma_index_of_surface(s.lock_surfaces, surface);
}

/// A frame callback keeps the state well-formed.
pub proof fn lemma_frame_wf(s: StateView, surface: ObjectId)
    requires
        s.wf(),
    ensures
        s.frame(surface).wf(),
{
    reveal(StateView::wf);
    lemma_removed(s.requested_frame, surface.0);
}

/// Destroying popups that are no longer in the table keeps the state
/// well-formed.
pub proof fn lemma_popups_gone_wf(s: StateView, gone: Seq<SctkPopup>, k: int)
    requires
        s.wf(),
        0 <= k <= gone.len(),
    ensures
        s.popups_gone(gone, k).wf(),
    decreases k,
{
    reveal(StateView::wf);
    if k > 0 {
        lemma_popups_gone_wf(s, gone, k - 1);
        let before = s.popups_gone(gone, k - 1);
        lemma_forgetting_wf(before, gone[k - 1].data.id, gone[k - 1].popup);
        let after = before.popup_gone(gone[k - 1]);
        assert forall|i: int| 0 <= i < after.popups.len() implies #[trigger] parent_stands_before(
            after.popups,
            i,
        ) by {
            assert(parent_stands_before(before.popups, i));
        }
    }
}

/// A popup outside the subtree keeps its place among those that are spared,
/// after every spared popup that stood before it.
pub proof fn lemma_spared_place(popups: Seq<SctkPopup>, root: ObjectId, i: int, n: int)
    requires
        0 <= i < n <= popups.len(),
        !in_subtree(popups, root, i),
    ensures
        spared_upto(popups, root, i).len() < spared_upto(popups, root, n).len(),
        spared_upto(popups, root, n)[spared_upto(popups, root, i).len() as int] == popups[i],
    decreases n - i,
{
    if n == i + 1 {
    } else {
        lemma_spared_place(popups, root, i, n - 1);
    }
}

/// The number of spared popups does not go down along the table.
pub proof fn lemma_spared_grows(popups: Seq<SctkPopup>, root: ObjectId, i: int, n: int)
    requires
        0 <= i <= n <= popups.len(),
    ensures
        spared_upto(popups, root, i).len() <= spared_upto(popups, root, n).len(),
        spared_upto(popups, root, n).len() <= n,
    decreases n,
{
    if i < n {
        lemma_spared_grows(popups, root, i, n - 1);
    } else if n > 0 {
        lemma_spared_grows(popups, root, 0, n - 1);
    }
}

/// Every spared popup is a popup outside the subtree, and stands among the
/// spared ones after as many as were spared before it.
pub proof fn lemma_spared_members(popups: Seq<SctkPopup>, root: ObjectId, n: int, k: int)
    requires
        0 <= n <= popups.len(),
        0 <= k < spared_upto(popups, root, n).len(),
    ensures
        exists|i: int|
            0 <= i < n && !in_subtree(popups, root, i) && spared_upto(popups, root, i).len() == k
                && spared_upto(popups, root, n)[k] == #[trigger] popups[i],
    decreases n,
{
    if n > 0 {
        let rest = spared_upto(popups, root, n - 1);
        if !in_subtree(popups, root, n - 1) && k == rest.len() {
            assert(spared_upto(popups, root, n)[k] == popups[n - 1]);
        } else {
            lemma_spared_members(popups, root, n - 1, k);
            let i = choose|i: int|
                0 <= i < n - 1 && !in_subtree(popups, root, i) && spared_upto(popups, root, i).len()
                    == k && rest[k] == #[trigger] popups[i];
            assert(spared_upto(popups, root, n)[k] == popups[i]);
        }
    }
}

/// The popups that are spared when a subtree goes are still in order: no
/// spared popup is placed against one that went.
pub proof fn lemma_spared_ordered(popups: Seq<SctkPopup>, next: u64, root: ObjectId)
    requires
        popups_ordered(popups, next),
        forall|i: int| 0 <= i < popups.len() ==> (#[trigger] popups[i]).wf(),
    ensures
        popups_ordered(spared_upto(popups, root, popups.len() as int), next),
        forall|k: int|
            0 <= k < spared_upto(popups, root, popups.len() as int).len() ==> (
            #[trigger] spared_upto(popups, root, popups.len() as int)[k]).wf(),
{
    let n = popups.len() as int;
    let spared = spared_upto(popups, root, n);
    assert forall|k: int| 0 <= k < spared.len() implies (#[trigger] spared[k]).wf() && spared[k].popup.0
        < next by {
        lemma_spared_members(popups, root, n, k);
        let i = choose|i: int|
            0 <= i < n && !in_subtree(popups, root, i) && spared_upto(popups, root, i).len() == k
                && spared[k] == #[trigger] popups[i];
        assert(popups[i].wf());
    }
    assert forall|a: int, b: int| 0 <= a < b < spared.len() implies (#[trigger] spared[a]).popup != (
    #[trigger] spared[b]).popup by {
        lemma_spared_members(popups, root, n, a);
        lemma_spared_members(popups, root, n, b);
        let i = choose|i: int|
            0 <= i < n && !in_subtree(popups, root, i) && spared_upto(popups, root, i).len() == a
                && spared[a] == #[trigger] popups[i];
        let j = choose|j: int|
            0 <= j < n && !in_subtree(popups, root, j) && spared_upto(popups, root, j).len() == b
                && spared[b] == #[trigger] popups[j];
        if i < j {
            assert(popups[i].popup != popups[j].popup);
        } else if j < i {
            assert(popups[j].popup != popups[i].popup);
        }
    }
    assert forall|k: int| 0 <= k < spared.len() implies #[trigger] parent_stands_before(
        spared,
        k,
    ) by {
        lemma_spared_members(popups, root, n, k);
        let i = choose|i: int|
            0 <= i < n && !in_subtree(popups, root, i) && spared_upto(popups, root, i).len() == k
                && spared[k] == #[trigger] popups[i];
        assert(parent_stands_before(popups, i));
        match popups[i].data.parent {
            SctkSurface::Popup(p) => {
                let j = choose|j: int| 0 <= j < i && #[trigger] stands_at(popups, j, p);
                // The popup it is placed against is spared too: else it
                // would belong to the subtree itself.
                if in_subtree(popups, root, j) {
                    assert(stands_at(popups, j, p) && in_subtree(popups, root, j));
                    assert(in_subtree(popups, root, i));
                }
                lemma_spared_place(popups, root, j, n);
                lemma_spared_grows(popups, root, j + 1, i);
                lemma_spared_place(popups, root, j, j + 1);
                assert(stands_at(spared, spared_upto(popups, root, j).len() as int, p));
            },
            _ => {},
        }
    }
}

/// Destroying a popup with every popup placed against it keeps the state
/// well-formed.
pub proof fn lemma_destroy_popup_tree_wf(s: StateView, root: ObjectId)
    requires
        s.wf(),
    ensures
        s.destroy_popup_tree(root).wf(),
{
    reveal(StateView::wf);
    lemma_spared_ordered(s.popups, s.next_surface, root);
    let gone = doomed_from(s.popups, root, 0);
    let start = StateView {
        popups: spared_upto(s.popups, root, s.popups.len() as int),
        ..s
    };
    assert(start.wf());
    lemma_popups_gone_wf(start, gone, gone.len() as int);
}

/// Destroying a popup by its id keeps the state well-formed.
pub proof fn lemma_destroy_popup_wf(s: StateView, id: Id)
    requires
        s.wf(),
    ensures
        s.destroy_popup(id).wf(),
{
    reveal(StateView::wf);
    lemma_index_of_id(s.popups, id);
    match index_of_id(s.popups, id) {
        Some(i) => {
            lemma_destroy_popup_tree_wf(s, s.popups[i].popup);
        },
        None => {},
    }
}

/// The dismissal of a popup keeps the state well-formed.
pub proof fn lemma_popup_done_wf(s: StateView, surface: ObjectId)
    requires
        s.wf(),
    ensures
        s.popup_done(surface).wf(),
{
    reveal(StateView::wf);
    lemma_destroy_popup_tree_wf(s, surface);
}

/// An event of a pointer keeps the state well-formed.
pub proof fn lemma_pointer_event_wf(s: StateView, seat: int, pointer: ObjectId, event: PointerEvent)
    requires
        s.wf(),
    ensures
        s.pointer_event(seat, pointer, event).wf(),
{
    reveal(StateView::wf);
}

/// The events of a pointer frame keep the state well-formed.
pub proof fn lemma_pointer_events_wf(
    s: StateView,
    seat: int,
    pointer: ObjectId,
    events: Seq<PointerEvent>,
    k: int,
)
    requires
        s.wf(),
    ensures
        s.pointer_events(seat, pointer, events, k).wf(),
    decreases events.len() - k,
{
    reveal(StateView::wf);
    if 0 <= k < events.len() {
        lemma_pointer_event_wf(s, seat, pointer, events[k]);
        if !s.taken_by_border(events[k]) {
            lemma_pointer_events_wf(
                s.pointer_event(seat, pointer, events[k]),
                seat,
                pointer,
                events,
                k + 1,
            );
        }
    }
}

/// A pointer frame keeps the state well-formed.
pub proof fn lemma_pointer_frame_wf(s: StateView, pointer: ObjectId, events: Seq<PointerEvent>)
    requires
        s.wf(),
    ensures
        s.pointer_frame(pointer, events).wf(),
{
    reveal(StateView::wf);
    match crate::pointer::seat_of_device(s.seats, Capability::Pointer, pointer) {
        Some(seat) => {
            lemma_pointer_events_wf(s, seat, pointer, events, 0);
        },
        None => {},
    }
}

/// Noting the focus of a surface keeps the state well-formed.
pub proof fn lemma_focused_wf(s: StateView, surface: ObjectId, has_focus: bool)
    requires
        s.wf(),
    ensures
        s.focused(surface, has_focus).wf(),
{
    reveal(StateView::wf);
    lemma_index_of_surface(s.windows, surface);
    lemma_index_of_surface(s.popups, surface);
    lemma_index_of_surface(s.layer_surfaces, surface);
    lemma_index_of_surface(s.lock_surfaces, surface);
    let after = s.focused(surface, has_focus);
    match s.role_of(surface) {
        Some(crate::handlers::Role::Popup(i)) => {
            lemma_popup_replaced(s.popups, s.next_surface, i as int, after.popups[i as int]);
        },
        _ => {},
    }
}

/// An event of a keyboard keeps the state well-formed.
pub proof fn lemma_keyboard_event_wf(
    s: StateView,
    keyboard: ObjectId,
    variant: KeyboardEventVariant,
    serial: u32,
)
    requires
        s.wf(),
    ensures
        s.keyboard_event(keyboard, variant, serial).wf(),
{
    reveal(StateView::wf);
    match variant {
        KeyboardEventVariant::Enter(surface) => {
            lemma_focused_wf(s, surface, true);
        },
        KeyboardEventVariant::Leave(surface) => {
            lemma_focused_wf(s, surface, false);
        },
        _ => {},
    }
    let refocused = s.refocused(variant);
    let after = s.keyboard_event(keyboard, variant, serial);
    assert(refocused.wf());
    assert(after.popups == refocused.popups || after == s);
}

/// An event of a touch screen keeps the state well-formed.
pub proof fn lemma_touch_event_wf(s: StateView, touch: ObjectId, variant: TouchEventVariant)
    requires
        s.wf(),
    ensures
        s.touch_event(touch, variant).wf(),
{
    reveal(StateView::wf);
    match variant {
        TouchEventVariant::Down { surface, id, position, .. } => {
            lemma_inserted(
                s.touch_points,
                crate::devices::finger_key(id),
                crate::state::TouchPoint { surface, position },
            );
        },
        TouchEventVariant::Up { id, .. } => {
            lemma_removed(s.touch_points, crate::devices::finger_key(id));
        },
        TouchEventVariant::Motion { id, position, .. } => {
            match crate::table::value_of(s.touch_points, crate::devices::finger_key(id)) {
                Some(point) => {
                    lemma_inserted(
                        s.touch_points,
                        crate::devices::finger_key(id),
                        crate::state::TouchPoint { surface: point.surface, position },
                    );
                },
                None => {},
            }
        },
        TouchEventVariant::Cancel => {},
    }
}

/// Seats and outputs that come and go, and a cursor icon that the
/// application asks for, keep the state well-formed.
pub proof fn lemma_devices_wf(
    s: StateView,
    seat: ObjectId,
    capability: Capability,
    device: ObjectId,
    icon: CursorIcon,
)
    requires
        s.wf(),
    ensures
        s.new_seat(seat).wf(),
        s.remove_seat(seat).wf(),
        s.new_capability(seat, capability, device).wf(),
        s.remove_capability(seat, capability).wf(),
        s.new_output(device).wf(),
        s.remove_output(device).wf(),
        s.set_cursor(icon).wf(),
{
    reveal(StateView::wf);
}

/// A window action keeps the state well-formed, as long as names are left.
pub proof fn lemma_window_action_wf(s: StateView, action: wayland::window::Action)
    requires
        s.wf(),
        s.next_surface < u64::MAX,
    ensures
        s.window_action(action).wf(),
{
    reveal(StateView::wf);
    match action {
        wayland::window::Action::Window { builder } => {
            lemma_get_window_wf(s, builder);
        },
        wayland::window::Action::Destroy(id) => {
            lemma_index_of_id(s.windows, id);
            match index_of_id(s.windows, id) {
                Some(i) => {
                    lemma_forgetting_wf(s, id, s.windows[i].window);
                },
                None => {},
            }
        },
        wayland::window::Action::Size { id, width, height } => {
            lemma_index_of_id(s.windows, id);
            match index_of_id(s.windows, id) {
                Some(i) => {
                    lemma_inserted(s.to_commit, id.0, s.windows[i].window);
                },
                None => {},
            }
        },
        wayland::window::Action::MinSize { id, size } => {
            lemma_window_commit_wf(s, id);
        },
        wayland::window::Action::MaxSize { id, size } => {
            lemma_window_commit_wf(s, id);
        },
        wayland::window::Action::Title { id, title } => {
            lemma_window_commit_wf(s, id);
        },
        wayland::window::Action::AppId { id, app_id } => {
            lemma_window_commit_wf(s, id);
        },
        wayland::window::Action::InteractiveMove { id } => {
            lemma_window_commit_wf(s, id);
        },
        wayland::window::Action::InteractiveResize { id, edge } => {
            lemma_window_commit_wf(s, id);
        },
        wayland::window::Action::ShowWindowMenu { id, x, y } => {
            lemma_window_commit_wf(s, id);
        },
        wayland::window::Action::Minimize { id } => {
            lemma_window_commit_wf(s, id);
        },
        wayland::window::Action::Maximize { id } => {
            lemma_window_commit_wf(s, id);
        },
        wayland::window::Action::UnsetMaximize { id } => {
            lemma_window_commit_wf(s, id);
        },
        wayland::window::Action::Fullscreen { id } => {
            lemma_window_commit_wf(s, id);
        },
        wayland::window::Action::UnsetFullscreen { id } => {
            lemma_window_commit_wf(s, id);
        },
        wayland::window::Action::ToggleMaximized { id } => {
            lemma_window_commit_wf(s, id);
        },
        wayland::window::Action::ToggleFullscreen { id } => {
            lemma_window_commit_wf(s, id);
        },
        wayland::window::Action::Mode(id, mode) => {
            lemma_window_commit_wf(s, id);
        },
    }
}

/// Whatever is asked of a window for its next commit, the state stays
/// well-formed.
pub proof fn lemma_window_commit_wf(s: StateView, id: Id)
    requires
        s.wf(),
    ensures
        forall|surface: ObjectId, request: Request| #[trigger]
            s.committing(id, surface, request).wf(),
{
    reveal(StateView::wf);
    assert forall|surface: ObjectId, request: Request| #[trigger]
        s.committing(id, surface, request).wf() by {
        lemma_committing_wf(s, id, surface, request);
    }
}

/// A layer surface action keeps the state well-formed, as long as names
/// are left.
pub proof fn lemma_layer_action_wf(s: StateView, action: wayland::layer_surface::Action)
    requires
        s.wf(),
        s.next_surface < u64::MAX,
    ensures
        s.layer_action(action).wf(),
{
    reveal(StateView::wf);
    match action {
        wayland::layer_surface::Action::LayerSurface { builder } => {
            lemma_get_layer_surface_wf(s, builder);
        },
        wayland::layer_surface::Action::Size { id, width, height } => {
            lemma_index_of_id(s.layer_surfaces, id);
            match index_of_id(s.layer_surfaces, id) {
                Some(i) => {
                    lemma_inserted(s.to_commit, id.0, s.layer_surfaces[i].surface);
                },
                None => {},
            }
        },
        wayland::layer_surface::Action::Destroy(id) => {
            lemma_index_of_id(s.layer_surfaces, id);
            match index_of_id(s.layer_surfaces, id) {
                Some(i) => {
                    lemma_forgetting_wf(s, id, s.layer_surfaces[i].surface);
                },
                None => {},
            }
        },
        wayland::layer_surface::Action::Anchor { id, anchor } => {
            lemma_index_of_id(s.layer_surfaces, id);
            match index_of_id(s.layer_surfaces, id) {
                Some(i) => {
                    lemma_inserted(s.to_commit, id.0, s.layer_surfaces[i].surface);
                },
                None => {},
            }
        },
        wayland::layer_surface::Action::ExclusiveZone { id, exclusive_zone } => {
            lemma_index_of_id(s.layer_surfaces, id);
            match index_of_id(s.layer_surfaces, id) {
                Some(i) => {
                    let l = s.layer_surfaces[i];
                    lemma_restyle_layer_wf(
                        s,
                        id,
                        SctkLayerSurface { exclusive_zone, ..l },
                        Request::SetExclusiveZone { surface: l.surface, exclusive_zone },
                    );
                },
                None => {},
            }
        },
        wayland::layer_surface::Action::Margin { id, margin } => {
            lemma_index_of_id(s.layer_surfaces, id);
            match index_of_id(s.layer_surfaces, id) {
                Some(i) => {
                    let l = s.layer_surfaces[i];
                    lemma_restyle_layer_wf(
                        s,
                        id,
                        SctkLayerSurface { margin, ..l },
                        Request::SetMargin { surface: l.surface, margin },
                    );
                },
                None => {},
            }
        },
        wayland::layer_surface::Action::KeyboardInteractivity { id, keyboard_interactivity } => {
            lemma_index_of_id(s.layer_surfaces, id);
            match index_of_id(s.layer_surfaces, id) {
                Some(i) => {
                    let l = s.layer_surfaces[i];
                    lemma_restyle_layer_wf(
                        s,
                        id,
                        SctkLayerSurface { keyboard_interactivity, ..l },
                        Request::SetKeyboardInteractivity {
                            surface: l.surface,
                            keyboard_interactivity,
                        },
                    );
                },
                None => {},
            }
        },
        wayland::layer_surface::Action::Layer { id, layer } => {
            lemma_index_of_id(s.layer_surfaces, id);
            match index_of_id(s.layer_surfaces, id) {
                Some(i) => {
                    let l = s.layer_surfaces[i];
                    lemma_restyle_layer_wf(
                        s,
                        id,
                        SctkLayerSurface { layer, ..l },
                        Request::SetLayer { surface: l.surface, layer },
                    );
                },
                None => {},
            }
        },
    }
}

/// Putting a well-formed record in the place of a layer surface keeps the
/// state well-formed.
pub proof fn lemma_restyle_layer_wf(
    s: StateView,
    id: Id,
    styled: SctkLayerSurface,
    request: Request,
)
    requires
        s.wf(),
        styled.wf(),
    ensures
        s.restyle_layer(id, styled, request).wf(),
{
    reveal(StateView::wf);
    lemma_index_of_id(s.layer_surfaces, id);
    match index_of_id(s.layer_surfaces, id) {
        Some(i) => {
            lemma_committing_wf(s, id, s.layer_surfaces[i].surface, request);
            let after = s.restyle_layer(id, styled, request);
            assert forall|k: int|
                0 <= k < after.popups.len() implies #[trigger] parent_stands_before(
                after.popups,
                k,
            ) by {
                assert(parent_stands_before(s.popups, k));
            }
        },
        None => {},
    }
}

/// A popup action keeps the state well-formed, as long as names are left.
pub proof fn lemma_popup_action_wf(s: StateView, action: wayland::popup::Action)
    requires
        s.wf(),
        s.next_surface < u64::MAX,
    ensures
        s.popup_action(action).wf(),
{
    reveal(StateView::wf);
    match action {
        wayland::popup::Action::Popup { popup } => {
            lemma_get_popup_wf(s, popup);
            let made = s.get_popup(popup);
            let after = s.create_popup(popup);
            assert forall|i: int|
                0 <= i < after.popups.len() implies #[trigger] parent_stands_before(
                after.popups,
                i,
            ) by {
                assert(parent_stands_before(made.popups, i));
            }
        },
        wayland::popup::Action::Destroy { id } => {
            lemma_destroy_popup_wf(s, id);
        },
        wayland::popup::Action::Size { id, width, height } => {
            lemma_index_of_id(s.popups, id);
            match index_of_id(s.popups, id) {
                Some(i) => {
                    lemma_inserted(s.to_commit, id.0, s.popups[i].popup);
                    lemma_popup_replaced(
                        s.popups,
                        s.next_surface,
                        i,
                        s.popups[i].with_size(width, height),
                    );
                },
                None => {},
            }
        },
        wayland::popup::Action::Grab { .. } => {},
    }
}

/// Destroying lock surfaces that are no longer in the table keeps the state
/// well-formed, and brings no lock surface back.
pub proof fn lemma_lock_surfaces_gone_wf(s: StateView, gone: Seq<SctkLockSurface>, k: int)
    requires
        s.wf(),
        0 <= k <= gone.len(),
    ensures
        s.lock_surfaces_gone(gone, k).wf(),
        s.lock_surfaces_gone(gone, k).lock_surfaces == s.lock_surfaces,
        s.lock_surfaces_gone(gone, k).session_lock == s.session_lock,
        s.lock_surfaces_gone(gone, k).globals == s.globals,
        s.lock_surfaces_gone(gone, k).next_surface == s.next_surface,
    decreases k,
{
    reveal(StateView::wf);
    if k > 0 {
        lemma_lock_surfaces_gone_wf(s, gone, k - 1);
        let before = s.lock_surfaces_gone(gone, k - 1);
        lemma_forgetting_wf(before, gone[k - 1].id, gone[k - 1].session_lock_surface);
        let after = before.lock_surface_gone(gone[k - 1]);
        assert forall|i: int| 0 <= i < after.popups.len() implies #[trigger] parent_stands_before(
            after.popups,
            i,
        ) by {
            assert(parent_stands_before(before.popups, i));
        }
    }
}

/// Destroying every lock surface keeps the state well-formed, and leaves no
/// lock surface.
pub proof fn lemma_without_lock_surfaces_wf(s: StateView)
    requires
        s.wf(),
    ensures
        s.without_lock_surfaces().wf(),
        s.without_lock_surfaces().lock_surfaces.len() == 0,
        s.without_lock_surfaces().session_lock == s.session_lock,
        s.without_lock_surfaces().globals == s.globals,
        s.without_lock_surfaces().next_surface == s.next_surface,
{
    reveal(StateView::wf);
    let start = StateView { lock_surfaces: Seq::empty(), ..s };
    assert forall|i: int| 0 <= i < start.popups.len() implies #[trigger] parent_stands_before(
        start.popups,
        i,
    ) by {
        assert(parent_stands_before(s.popups, i));
    }
    lemma_lock_surfaces_gone_wf(start, s.lock_surfaces, s.lock_surfaces.len() as int);
}

/// A session lock action keeps the state well-formed, as long as names are
/// left: lock surfaces are there only while the session is locked.
pub proof fn lemma_session_lock_action_wf(s: StateView, action: wayland::session_lock::Action)
    requires
        s.wf(),
        s.next_surface < u64::MAX,
    ensures
        s.session_lock_action(action).wf(),
{
    reveal(StateView::wf);
    match action {
        wayland::session_lock::Action::Lock => {},
        wayland::session_lock::Action::Unlock => {
            lemma_without_lock_surfaces_wf(s);
        },
        wayland::session_lock::Action::LockSurface { id, output } => {
            lemma_get_lock_surface_wf(s, id, output);
        },
        wayland::session_lock::Action::DestroyLockSurface { id } => {
            lemma_index_of_id(s.lock_surfaces, id);
            match index_of_id(s.lock_surfaces, id) {
                Some(i) => {
                    let start = StateView { lock_surfaces: s.lock_surfaces.remove(i), ..s };
                    assert(start.wf());
                    lemma_forgetting_wf(
                        start,
                        s.lock_surfaces[i].id,
                        s.lock_surfaces[i].session_lock_surface,
                    );
                },
                None => {},
            }
        },
    }
}

/// The end of the lock keeps the state well-formed.
pub proof fn lemma_finished_wf(s: StateView)
    requires
        s.wf(),
    ensures
        s.finished().wf(),
{
    reveal(StateView::wf);
    lemma_without_lock_surfaces_wf(s);
}

/// Every action of the user interface keeps the state well-formed, as long
/// as names are left.
pub proof fn lemma_handle_action_wf(s: StateView, action: wayland::Action)
    requires
        s.wf(),
        s.next_surface < u64::MAX,
    ensures
        s.handle_action(action).wf(),
{
    reveal(StateView::wf);
    match action {
        wayland::Action::LayerSurface(action) => {
            lemma_layer_action_wf(s, action);
        },
        wayland::Action::Window(action) => {
            lemma_window_action_wf(s, action);
        },
        wayland::Action::Popup(action) => {
            lemma_popup_action_wf(s, action);
        },
        wayland::Action::Activation(action) => {},
        wayland::Action::SessionLock(action) => {
            lemma_session_lock_action_wf(s, action);
        },
    }
}

/// Asking for a frame keeps the state well-formed.
pub proof fn lemma_request_frame_wf(s: StateView, surface: ObjectId)
    requires
        s.wf(),
    ensures
        s.request_frame(surface).wf(),
{
    reveal(StateView::wf);
    lemma_inserted(s.requested_frame, surface.0, ());
    match crate::table::value_of(s.id_map, surface.0) {
        Some(id) => {
            lemma_inserted(s.to_commit, id.0, surface);
        },
        None => {},
    }
}

/// The end of a wake-up keeps the state well-formed.
pub proof fn lemma_flushed_wf(s: StateView)
    requires
        s.wf(),
    ensures
        s.flushed().wf(),
{
    reveal(StateView::wf);
}

/// Whatever the user interface sends keeps the state well-formed, as long
/// as names are left.
pub proof fn lemma_handle_wf(s: StateView, action: Action)
    requires
        s.wf(),
        s.next_surface < u64::MAX,
    ensures
        s.handle(action).wf(),
{
    reveal(StateView::wf);
    match action {
        Action::Action(action) => {
            lemma_handle_action_wf(s, action);
        },
        Action::SetCursor(icon) => {},
        Action::RequestRedraw(surface) => {
            lemma_request_frame_wf(s, surface);
        },
        Action::PrePresentNotify(surface) => {
            lemma_request_frame_wf(s, surface);
        },
        Action::Ready => {},
    }
}

} // verus!
