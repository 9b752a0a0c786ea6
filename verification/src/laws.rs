//! What holds of the coordinator whatever it is asked and told.

use crate::event_loop::with_commits;
use crate::geometry::ScaleFactor;
use crate::input::{KeyboardEventVariant, PointerEvent, TouchEventVariant};
use crate::pointer::{is_motion, seat_of_device};
use crate::request::Request;
use crate::sctk_event::SctkEvent;
use crate::seat::{cursor_over, Capability};
use crate::shell::ObjectId;
use crate::state::StateView;
use crate::surface::SctkLockSurface;
use crate::table::{count_of, lemma_count_distinct, lemma_has_key_place, lemma_inserted, value_of};
use crate::wayland;
use crate::wellformed::lemma_without_lock_surfaces_wf;
use crate::window::Id;
use vstd::prelude::*;

verus! {

/// A whole-number scale from the outputs never changes the scale of a
/// surface whose fractional scale is reported: nothing changes at all, so
/// the scale that the user interface reads stays, and it is told nothing.
pub proof fn lemma_fractional_scale_precedence(s: StateView, surface: ObjectId, scale: ScaleFactor)
    requires
        s.has_fractional_scale(surface),
    ensures
        s.scale_factor_changed(surface, scale, true) == s,
        s.scale_factor_changed(surface, scale, true).scale_of(surface) == s.scale_of(surface),
{
}

/// A scale that is not held back is the scale that the user interface
/// reads of the surface afterwards, and tells it so.
pub proof fn lemma_scale_reported(s: StateView, surface: ObjectId, scale: ScaleFactor, legacy: bool)
    requires
        s.role_of(surface) is Some,
        !(legacy && s.has_fractional_scale(surface)),
    ensures
        s.scale_factor_changed(surface, scale, legacy).sctk_events.len() == s.sctk_events.len()
            + 1,
        s.scale_factor_changed(surface, scale, legacy).sctk_events.last()
            matches SctkEvent::SurfaceScaleFactorChanged { scale: told, surface: of, .. } && told
            == scale && of == surface,
{
}

/// After a configure has established the size of a surface, the viewport
/// of the surface, where it has one, shows the buffer at that size, and
/// still does when the wake-up has ended and the surface has been
/// committed. This holds of windows, layer surfaces, popups and lock
/// surfaces alike.
pub proof fn lemma_viewport_coherence(
    s: StateView,
    surface: ObjectId,
    window: crate::shell::WindowConfigure,
    layer: crate::shell::LayerSurfaceConfigure,
    popup: crate::shell::PopupConfigure,
    lock: crate::shell::SessionLockSurfaceConfigure,
)
    requires
        s.wf(),
    ensures
        crate::surface::index_of_surface(s.windows, surface) matches Some(i) ==> {
            let after = s.configure(surface, window).flushed().windows[i];
            &&& after.current_size == s.windows[i].updated_size(window.new_size)
            &&& crate::surface::viewport_shows(after.wp_viewport, after.current_size)
        },
        crate::surface::index_of_surface(s.layer_surfaces, surface) matches Some(i) ==> {
            let after = s.configure_layer(surface, layer).flushed().layer_surfaces[i];
            let size = crate::geometry::LogicalSize {
                width: layer.new_size.0,
                height: layer.new_size.1,
            };
            &&& after.current_size == Some(size)
            &&& crate::surface::viewport_shows(after.wp_viewport, size)
        },
        crate::surface::index_of_surface(s.popups, surface) matches Some(i) ==> {
            let after = s.configure_popup(surface, popup).flushed().popups[i];
            &&& after.common.size == crate::handlers::configured_size(
                s.popups[i].common.size,
                popup.width,
                popup.height,
            )
            &&& crate::surface::viewport_shows(after.wp_viewport, after.common.size)
        },
        crate::surface::index_of_surface(s.lock_surfaces, surface) matches Some(i) ==> {
            let after = s.configure_lock_surface(surface, lock).flushed().lock_surfaces[i];
            let size = crate::geometry::LogicalSize {
                width: lock.new_size.0,
                height: lock.new_size.1,
            };
            &&& after.common.size == size
            &&& crate::surface::viewport_shows(after.wp_viewport, size)
        },
        s.configure(surface, window).flushed().wf(),
        s.configure_layer(surface, layer).flushed().wf(),
        s.configure_popup(surface, popup).flushed().wf(),
        s.configure_lock_surface(surface, lock).flushed().wf(),
{
    crate::wellformed::lemma_configure_wf(s, surface, window);
    crate::wellformed::lemma_configure_layer_wf(s, surface, layer);
    crate::wellformed::lemma_configure_popup_wf(s, surface, popup);
    crate::wellformed::lemma_configure_lock_surface_wf(s, surface, lock);
    crate::wellformed::lemma_flushed_wf(s.configure(surface, window));
    crate::wellformed::lemma_flushed_wf(s.configure_layer(surface, layer));
    crate::wellformed::lemma_flushed_wf(s.configure_popup(surface, popup));
    crate::wellformed::lemma_flushed_wf(s.configure_lock_surface(surface, lock));
}

/// However many changes a surface sees before the end of a wake-up, it
/// waits for one commit: the first change files it, and a second one finds
/// it filed.
pub proof fn lemma_commit_coalescing(
    s: StateView,
    id: Id,
    surface: ObjectId,
    first: Request,
    second: Request,
)
    requires
        s.wf(),
    ensures
        ({
            let once = s.committing(id, surface, first);
            let twice = once.committing(id, surface, second);
            &&& count_of(once.to_commit, id.0) == 1
            &&& value_of(once.to_commit, id.0) == Some(surface)
            &&& twice.to_commit == once.to_commit
            &&& count_of(twice.to_commit, id.0) == 1
        }),
{
    reveal(StateView::wf);
    let once = s.committing(id, surface, first);
    lemma_inserted(s.to_commit, id.0, surface);
    lemma_count_distinct(once.to_commit, id.0);
    lemma_has_key_place(once.to_commit, id.0);
    let i = crate::table::place_of(once.to_commit, id.0).unwrap();
    assert(once.to_commit.update(i, (id.0, surface)) =~= once.to_commit);
}

/// In every state that the coordinator can be in, a surface waits for at
/// most one commit, whatever has been asked of it since the last wake-up
/// ended: it is filed once if anything was asked, and not at all otherwise.
pub proof fn lemma_one_commit_per_surface(s: StateView, id: Id)
    requires
        s.wf(),
    ensures
        count_of(s.to_commit, id.0) <= 1,
        count_of(s.to_commit, id.0) == 1 <==> crate::table::has_key(s.to_commit, id.0),
{
    reveal(StateView::wf);
    lemma_count_distinct(s.to_commit, id.0);
}

/// At the end of a wake-up the requests that were decided on go out as
/// they are, followed by exactly one commit for each surface that waits for
/// one, in the order in which the surfaces were filed.
pub proof fn lemma_one_commit_each(s: StateView)
    ensures
        s.outgoing().len() == s.requests.len() + s.to_commit.len(),
        forall|k: int| 0 <= k < s.requests.len() ==> s.outgoing()[k] == s.requests[k],
        forall|k: int|
            0 <= k < s.to_commit.len() ==> s.outgoing()[s.requests.len() + k] == (Request::Commit {
                surface: (#[trigger] s.to_commit[k]).1,
            }),
{
    lemma_with_commits(s.requests, s.to_commit, s.to_commit.len() as int);
}

/// The first `n` commits follow the requests, one for each surface.
pub proof fn lemma_with_commits(requests: Seq<Request>, pending: Seq<(u64, ObjectId)>, n: int)
    requires
        0 <= n <= pending.len(),
    ensures
        with_commits(requests, pending, n).len() == requests.len() + n,
        forall|k: int|
            0 <= k < requests.len() ==> with_commits(requests, pending, n)[k] == requests[k],
        forall|k: int|
            0 <= k < n ==> with_commits(requests, pending, n)[requests.len() + k]
                == (Request::Commit { surface: (#[trigger] pending[k]).1 }),
    decreases n,
{
    if n > 0 {
        lemma_with_commits(requests, pending, n - 1);
    }
}

/// The user interface is told nothing of a pointer that does not belong to
/// the active seat, whatever the frame holds.
pub proof fn lemma_inactive_pointer_silent(
    s: StateView,
    seat: int,
    pointer: ObjectId,
    events: Seq<PointerEvent>,
    k: int,
)
    requires
        seat != 0,
    ensures
        s.pointer_events(seat, pointer, events, k).sctk_events == s.sctk_events,
    decreases events.len() - k,
{
    if 0 <= k < events.len() {
        if !s.taken_by_border(events[k]) {
            lemma_inactive_pointer_silent(
                s.pointer_event(seat, pointer, events[k]),
                seat,
                pointer,
                events,
                k + 1,
            );
        }
    }
}

/// Only input on the active seat reaches the user interface: of a pointer
/// frame, a keyboard event or a touch event of another seat it is told
/// nothing.
pub proof fn lemma_inactive_seat_silent(
    s: StateView,
    device: ObjectId,
    events: Seq<PointerEvent>,
    typed: KeyboardEventVariant,
    serial: u32,
    touched: TouchEventVariant,
)
    ensures
        seat_of_device(s.seats, Capability::Pointer, device) != Some(0int) ==> s.pointer_frame(
            device,
            events,
        ).sctk_events == s.sctk_events,
        seat_of_device(s.seats, Capability::Keyboard, device) != Some(0int) ==> s.keyboard_event(
            device,
            typed,
            serial,
        ).sctk_events == s.sctk_events,
        seat_of_device(s.seats, Capability::Touch, device) != Some(0int) ==> s.touch_event(
            device,
            touched,
        ).sctk_events == s.sctk_events,
{
    match seat_of_device(s.seats, Capability::Pointer, device) {
        Some(seat) => {
            if seat != 0 {
                lemma_inactive_pointer_silent(s, seat, device, events, 0);
            }
        },
        None => {},
    }
    match typed {
        KeyboardEventVariant::Enter(surface) => {
            assert(s.focused(surface, true).sctk_events == s.sctk_events);
        },
        KeyboardEventVariant::Leave(surface) => {
            assert(s.focused(surface, false).sctk_events == s.sctk_events);
        },
        _ => {},
    }
}

/// A motion of the pointer over the border of a resizable window does not
/// reach the user interface, on whichever seat. All it does is to make the
/// seat show the arrow of the edge under the pointer.
pub proof fn lemma_border_motion_silent(s: StateView, seat: int, pointer: ObjectId, event: PointerEvent)
    requires
        s.border_hit(event) is Some,
        is_motion(event),
        0 <= seat < s.seats.len(),
    ensures
        s.taken_by_border(event),
        s.pointer_event(seat, pointer, event).sctk_events == s.sctk_events,
        s.pointer_event(seat, pointer, event).seats[seat] == s.seats[seat].showing(
            cursor_over(s.border_hit(event).unwrap().0),
        ),
{
}

/// The press of the left button over the border of a resizable window does
/// not reach the user interface: it starts a resize of the edge under the
/// pointer, with the serial of the press.
pub proof fn lemma_border_press_resizes(s: StateView, seat: int, pointer: ObjectId, event: PointerEvent)
    requires
        s.border_hit(event) is Some,
        crate::pointer::is_left_press(event),
        0 <= seat < s.seats.len(),
    ensures
        s.taken_by_border(event),
        s.pointer_event(seat, pointer, event).sctk_events == s.sctk_events,
        s.pointer_event(seat, pointer, event).requests == s.requests.push(
            Request::Resize {
                surface: s.windows[s.border_hit(event).unwrap().1].window,
                seat: s.seats[seat].seat,
                serial: event.kind->Press_serial,
                edge: s.border_hit(event).unwrap().0,
            },
        ),
{
}

/// The requests that destroy the first `k` of the given lock surfaces, in
/// order.
pub open spec fn destroy_requests(gone: Seq<SctkLockSurface>, k: int) -> Seq<Request> {
    Seq::new(k as nat, |j: int| Request::DestroyLockSurface { surface: gone[j].session_lock_surface })
}

/// Destroying lock surfaces asks the compositor for nothing but their
/// destruction.
pub proof fn lemma_lock_surfaces_gone_requests(s: StateView, gone: Seq<SctkLockSurface>, k: int)
    requires
        0 <= k <= gone.len(),
    ensures
        s.lock_surfaces_gone(gone, k).requests == s.requests + destroy_requests(gone, k),
    decreases k,
{
    if k > 0 {
        lemma_lock_surfaces_gone_requests(s, gone, k - 1);
        assert(s.lock_surfaces_gone(gone, k).requests =~= s.requests + destroy_requests(gone, k));
    } else {
        assert(s.requests =~= s.requests + destroy_requests(gone, 0));
    }
}

/// After an unlock the session is not locked and no lock surface is left.
/// The compositor was asked to destroy the lock surfaces, to unlock where
/// the session was locked, and then waited for exactly once, last of all.
/// Until the session is locked anew, a request to create or destroy a lock
/// surface is dropped: it changes nothing and asks nothing of the
/// compositor.
pub proof fn lemma_unlock_is_final(s: StateView, id: Id, output: ObjectId)
    requires
        s.wf(),
    ensures
        ({
            let unlocked = s.unlock();
            let destroyed = s.requests + destroy_requests(
                s.lock_surfaces,
                s.lock_surfaces.len() as int,
            );
            &&& !unlocked.session_lock
            &&& unlocked.lock_surfaces.len() == 0
            &&& unlocked.requests == (if s.session_lock {
                destroyed.push(Request::Unlock)
            } else {
                destroyed
            }).push(Request::Roundtrip)
            &&& unlocked.sctk_events.last() == SctkEvent::SessionUnlocked
            &&& unlocked.session_lock_action(
                wayland::session_lock::Action::LockSurface { id, output },
            ) == unlocked
            &&& unlocked.session_lock_action(
                wayland::session_lock::Action::DestroyLockSurface { id },
            ) == unlocked
            &&& unlocked.globals.session_lock ==> unlocked.session_lock_action(
                wayland::session_lock::Action::Lock,
            ).session_lock
        }),
{
    reveal(StateView::wf);
    lemma_without_lock_surfaces_wf(s);
    let start = StateView { lock_surfaces: Seq::empty(), ..s };
    lemma_lock_surfaces_gone_requests(start, s.lock_surfaces, s.lock_surfaces.len() as int);
    let unlocked = s.unlock();
    assert(crate::surface::index_of_id(unlocked.lock_surfaces, id) is None);
}

} // verus!
