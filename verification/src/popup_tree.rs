//! The destruction of popups: a popup goes only after every popup that is
//! placed against it.

use crate::request::Request;
use crate::sctk_event::{PopupEventVariant, SctkEvent};
use crate::shell::ObjectId;
use crate::state::{popups_ordered, stands_at, SctkState, StateView};
use crate::surface::{index_of_id, index_of_surface, position_by_id, position_by_surface, SctkPopup, SctkSurface};
use crate::window::Id;
use vstd::prelude::*;

verus! {

/// Whether the popup at `i` is the popup `root`, or is placed against it
/// directly or through other popups. A popup stands after the popup it is
/// placed against, so the search goes down the table only.
pub open spec fn in_subtree(popups: Seq<SctkPopup>, root: ObjectId, i: int) -> bool
    decreases i,
{
    if 0 <= i < popups.len() {
        popups[i].popup == root || match popups[i].data.parent {
            SctkSurface::Popup(p) => exists|j: int|
                0 <= j < i && #[trigger] stands_at(popups, j, p) && in_subtree(popups, root, j),
            _ => false,
        }
    } else {
        false
    }
}

/// The popups of the subtree of `root` among those from `i` on, the last
/// one first: the order in which they are destroyed.
pub open spec fn doomed_from(popups: Seq<SctkPopup>, root: ObjectId, i: int) -> Seq<SctkPopup>
    decreases popups.len() - i,
{
    if 0 <= i < popups.len() {
        if in_subtree(popups, root, i) {
            doomed_from(popups, root, i + 1).push(popups[i])
        } else {
            doomed_from(popups, root, i + 1)
        }
    } else {
        Seq::empty()
    }
}

/// The popups outside the subtree of `root` among the first `k`, in order.
pub open spec fn spared_upto(popups: Seq<SctkPopup>, root: ObjectId, k: int) -> Seq<SctkPopup>
    decreases k,
{
    if 0 < k <= popups.len() {
        if in_subtree(popups, root, k - 1) {
            spared_upto(popups, root, k - 1)
        } else {
            spared_upto(popups, root, k - 1).push(popups[k - 1])
        }
    } else {
        Seq::empty()
    }
}

/// The event that tells that a popup is gone.
pub open spec fn done_event(popup: SctkPopup) -> SctkEvent {
    SctkEvent::PopupEvent {
        variant: PopupEventVariant::Done,
        toplevel_id: popup.data.toplevel,
        parent_id: popup.data.parent.spec_wl_surface(),
        id: popup.popup,
    }
}

impl StateView {
    /// The state after a popup that is no longer in the table has been
    /// destroyed: what was filed under it is dropped, the compositor is
    /// asked to destroy it, and the user interface is told.
    pub open spec fn popup_gone(self, popup: SctkPopup) -> StateView {
        StateView {
            requests: self.requests.push(Request::DestroyPopup { surface: popup.popup }),
            sctk_events: self.sctk_events.push(done_event(popup)),
            ..self.forgetting(popup.data.id, popup.popup)
        }
    }

    /// The state after the first `k` of the given popups have been
    /// destroyed, one after the other.
    pub open spec fn popups_gone(self, gone: Seq<SctkPopup>, k: int) -> StateView
        decreases k,
    {
        if 0 < k <= gone.len() {
            self.popups_gone(gone, k - 1).popup_gone(gone[k - 1])
        } else {
            self
        }
    }

    /// The state after the popup `root` and every popup placed against it,
    /// directly or through other popups, have been destroyed: the last of
    /// the table first.
    pub open spec fn destroy_popup_tree(self, root: ObjectId) -> StateView {
        let gone = doomed_from(self.popups, root, 0);
        StateView {
            popups: spared_upto(self.popups, root, self.popups.len() as int),
            ..self
        }.popups_gone(gone, gone.len() as int)
    }

    /// The state after the popup with the given id, and every popup placed
    /// against it, have been destroyed. An unknown id changes nothing.
    pub open spec fn destroy_popup(self, id: Id) -> StateView {
        match index_of_id(self.popups, id) {
            Some(i) => self.destroy_popup_tree(self.popups[i].popup),
            None => self,
        }
    }

    /// The state after the compositor has dismissed a popup: the popup and
    /// every popup placed against it are destroyed. An unknown surface
    /// changes nothing.
    pub open spec fn popup_done(self, surface: ObjectId) -> StateView {
        match index_of_surface(self.popups, surface) {
            Some(_) => self.destroy_popup_tree(surface),
            None => self,
        }
    }
}

/// Marks the popups of the subtree of `root`.
fn mark_subtree(popups: &Vec<SctkPopup>, root: ObjectId) -> (marks: Vec<bool>)
    ensures
        marks.len() == popups.len(),
        forall|i: int| 0 <= i < popups.len() ==> marks@[i] == in_subtree(popups@, root, i),
{
    let mut marks: Vec<bool> = Vec::new();
    let mut i: usize = 0;
    while i < popups.len()
        invariant
            i <= popups.len(),
            marks.len() == i,
            forall|k: int| 0 <= k < i ==> marks@[k] == in_subtree(popups@, root, k),
        decreases popups.len() - i,
    {
        let mut marked: bool = popups[i].popup == root;
        if !marked {
            match popups[i].data.parent {
                SctkSurface::Popup(p) => {
                    let mut j: usize = 0;
                    while j < i
                        invariant
                            j <= i,
                            i < popups.len(),
                            marks.len() == i,
                            forall|k: int|
                                0 <= k < i ==> marks@[k] == in_subtree(popups@, root, k),
                            marked == exists|k: int|
                                0 <= k < j && #[trigger] stands_at(popups@, k, p) && in_subtree(
                                    popups@,
                                    root,
                                    k,
                                ),
                        decreases i - j,
                    {
                        if popups[j].popup == p && marks[j] {
                            marked = true;
                            assert(stands_at(popups@, j as int, p) && in_subtree(
                                popups@,
                                root,
                                j as int,
                            ));
                        } else if marked {
                            let ghost k = choose|k: int|
                                0 <= k < j && #[trigger] stands_at(popups@, k, p) && in_subtree(
                                    popups@,
                                    root,
                                    k,
                                );
                            assert(stands_at(popups@, k, p));
                        }
                        j += 1;
                    }
                },
                _ => {},
            }
        }
        marks.push(marked);
        i += 1;
    }
    marks
}

impl SctkState {
    /// Destroys a popup that has been taken out of the table.
    fn popup_gone(&mut self, popup: SctkPopup)
        ensures
            final(self)@ == old(self)@.popup_gone(popup),
    {
        self.forget(popup.data.id, popup.popup);
        self.requests.push(Request::DestroyPopup { surface: popup.popup });
        self.sctk_events.push(
            SctkEvent::PopupEvent {
                variant: PopupEventVariant::Done,
                toplevel_id: popup.data.toplevel,
                parent_id: popup.data.parent.wl_surface(),
                id: popup.popup,
            },
        );
    }

    /// Destroys the popup `root` and every popup that is placed against it,
    /// directly or through other popups. The popups leave the table first;
    /// then they are destroyed from the last of the table to the first, so
    /// that no popup goes before one placed against it, and the user
    /// interface is told of each in that order.
    pub fn destroy_popup_tree(&mut self, root: ObjectId)
        ensures
            final(self)@ == old(self)@.destroy_popup_tree(root),
            old(self)@.wf() ==> final(self)@.wf(),
    {
        proof {
            if self@.wf() {
                crate::wellformed::lemma_destroy_popup_tree_wf(self@, root);
            }
        }
        let marks = mark_subtree(&self.popups, root);
        let n: usize = self.popups.len();
        let mut spared: Vec<SctkPopup> = Vec::new();
        let mut k: usize = 0;
        while k < n
            invariant
                k <= n,
                n == self.popups.len(),
                marks.len() == n,
                forall|i: int| 0 <= i < n ==> marks@[i] == in_subtree(self.popups@, root, i),
                spared@ == spared_upto(self.popups@, root, k as int),
            decreases n - k,
        {
            if !marks[k] {
                spared.push(self.popups[k]);
            }
            k += 1;
        }
        let mut gone: Vec<SctkPopup> = Vec::new();
        let mut i: usize = n;
        while i > 0
            invariant
                i <= n,
                n == self.popups.len(),
                marks.len() == n,
                forall|k: int| 0 <= k < n ==> marks@[k] == in_subtree(self.popups@, root, k),
                gone@ == doomed_from(self.popups@, root, i as int),
            decreases i,
        {
            i -= 1;
            if marks[i] {
                gone.push(self.popups[i]);
            }
        }
        self.popups = spared;
        let ghost start = self@;
        let mut d: usize = 0;
        while d < gone.len()
            invariant
                d <= gone.len(),
                self@ == start.popups_gone(gone@, d as int),
            decreases gone.len() - d,
        {
            self.popup_gone(gone[d]);
            d += 1;
        }
    }

    /// Destroys the popup with the given id, and every popup placed against
    /// it before it. An unknown id is ignored.
    pub fn destroy_popup(&mut self, id: Id)
        ensures
            final(self)@ == old(self)@.destroy_popup(id),
            old(self)@.wf() ==> final(self)@.wf(),
    {
        proof {
            if self@.wf() {
                crate::wellformed::lemma_destroy_popup_wf(self@, id);
            }
        }
        match position_by_id(&self.popups, id) {
            Some(i) => {
                let root = self.popups[i].popup;
                self.destroy_popup_tree(root);
            },
            None => {},
        }
    }

    /// Handles the dismissal of a popup by the compositor: the popup and
    /// every popup placed against it are destroyed. An unknown surface is
    /// ignored.
    pub fn popup_done(&mut self, surface: ObjectId)
        ensures
            final(self)@ == old(self)@.popup_done(surface),
            old(self)@.wf() ==> final(self)@.wf(),
    {
        proof {
            if self@.wf() {
                crate::wellformed::lemma_popup_done_wf(self@, surface);
            }
        }
        match position_by_surface(&self.popups, surface) {
            Some(_) => {
                self.destroy_popup_tree(surface);
            },
            None => {},
        }
    }
}

/// The events that tell that the first `k` of the given popups are gone, in
/// order.
pub open spec fn done_events(gone: Seq<SctkPopup>, k: int) -> Seq<SctkEvent> {
    Seq::new(k as nat, |j: int| done_event(gone[j]))
}

/// No popup of a subtree stands before the popup at its root.
pub proof fn lemma_subtree_below(popups: Seq<SctkPopup>, next: u64, root: int, i: int)
    requires
        popups_ordered(popups, next),
        0 <= root < popups.len(),
        in_subtree(popups, popups[root].popup, i),
    ensures
        root <= i < popups.len(),
    decreases i,
{
    let surface = popups[root].popup;
    if popups[i].popup == surface {
        if i < root {
            assert(popups[i].popup != popups[root].popup);
        }
    } else {
        match popups[i].data.parent {
            SctkSurface::Popup(p) => {
                let j = choose|j: int|
                    0 <= j < i && #[trigger] stands_at(popups, j, p) && in_subtree(
                        popups,
                        surface,
                        j,
                    );
                lemma_subtree_below(popups, next, root, j);
            },
            _ => {},
        }
    }
}

/// A popup that is placed, directly or through other popups, against a
/// popup of a subtree belongs to that subtree too.
pub proof fn lemma_subtree_nested(popups: Seq<SctkPopup>, next: u64, root: ObjectId, a: int, b: int)
    requires
        popups_ordered(popups, next),
        in_subtree(popups, root, a),
        in_subtree(popups, popups[a].popup, b),
    ensures
        in_subtree(popups, root, b),
    decreases b,
{
    let inner = popups[a].popup;
    if popups[b].popup == inner {
        if a < b {
            assert(popups[a].popup != popups[b].popup);
        } else if b < a {
            assert(popups[b].popup != popups[a].popup);
        }
    } else {
        match popups[b].data.parent {
            SctkSurface::Popup(p) => {
                let j = choose|j: int|
                    0 <= j < b && #[trigger] stands_at(popups, j, p) && in_subtree(
                        popups,
                        inner,
                        j,
                    );
                lemma_subtree_nested(popups, next, root, a, j);
                assert(0 <= j < b && stands_at(popups, j, p) && in_subtree(popups, root, j));
            },
            _ => {},
        }
    }
}

/// The popups of a subtree from `j` on are destroyed before those from `i`
/// on that stand before `j`: the order of destruction from `j` on is the
/// beginning of the order from `i` on.
pub proof fn lemma_doomed_prefix(popups: Seq<SctkPopup>, root: ObjectId, i: int, j: int)
    requires
        0 <= i <= j <= popups.len(),
    ensures
        doomed_from(popups, root, j).len() <= doomed_from(popups, root, i).len(),
        forall|k: int|
            0 <= k < doomed_from(popups, root, j).len() ==> doomed_from(popups, root, i)[k]
                == doomed_from(popups, root, j)[k],
    decreases j - i,
{
    if i < j {
        lemma_doomed_prefix(popups, root, i + 1, j);
    }
}

/// A popup of the subtree is destroyed after exactly those popups of the
/// subtree that stand after it.
pub proof fn lemma_doomed_place(popups: Seq<SctkPopup>, root: ObjectId, a: int)
    requires
        0 <= a < popups.len(),
        in_subtree(popups, root, a),
    ensures
        doomed_from(popups, root, a + 1).len() < doomed_from(popups, root, 0).len(),
        doomed_from(popups, root, 0)[doomed_from(popups, root, a + 1).len() as int] == popups[a],
{
    lemma_doomed_prefix(popups, root, 0, a);
    lemma_doomed_prefix(popups, root, a, a + 1);
    assert(doomed_from(popups, root, a) == doomed_from(popups, root, a + 1).push(popups[a]));
}

/// Everything that is destroyed belongs to the subtree.
pub proof fn lemma_doomed_members(popups: Seq<SctkPopup>, root: ObjectId, i: int, k: int)
    requires
        0 <= i <= popups.len(),
        0 <= k < doomed_from(popups, root, i).len(),
    ensures
        exists|a: int|
            i <= a < popups.len() && in_subtree(popups, root, a) && doomed_from(popups, root, i)[k]
                == #[trigger] popups[a],
    decreases popups.len() - i,
{
    if i < popups.len() {
        let rest = doomed_from(popups, root, i + 1);
        if in_subtree(popups, root, i) && k == rest.len() {
            assert(doomed_from(popups, root, i)[k] == popups[i]);
        } else {
            lemma_doomed_members(popups, root, i + 1, k);
            let a = choose|a: int|
                i + 1 <= a < popups.len() && in_subtree(popups, root, a) && rest[k]
                    == #[trigger] popups[a];
            assert(doomed_from(popups, root, i)[k] == popups[a]);
        }
    }
}

/// Destroying popups one after the other tells the user interface of each,
/// in that order, and touches no record.
pub proof fn lemma_popups_gone(s: StateView, gone: Seq<SctkPopup>, k: int)
    requires
        0 <= k <= gone.len(),
    ensures
        s.popups_gone(gone, k).sctk_events == s.sctk_events + done_events(gone, k),
        s.popups_gone(gone, k).popups == s.popups,
        s.popups_gone(gone, k).windows == s.windows,
        s.popups_gone(gone, k).layer_surfaces == s.layer_surfaces,
        s.popups_gone(gone, k).lock_surfaces == s.lock_surfaces,
        s.popups_gone(gone, k).seats == s.seats,
        s.popups_gone(gone, k).session_lock == s.session_lock,
        s.popups_gone(gone, k).next_surface == s.next_surface,
        s.popups_gone(gone, k).touch_points == s.touch_points,
    decreases k,
{
    if k > 0 {
        lemma_popups_gone(s, gone, k - 1);
        assert(s.popups_gone(gone, k).sctk_events =~= s.sctk_events + done_events(gone, k));
    } else {
        assert(s.sctk_events =~= s.sctk_events + done_events(gone, 0));
    }
}

/// Destroying a popup tells the user interface that every popup placed
/// against it, directly or through other popups, is gone before it tells
/// that the popup itself is gone.
///
/// The events that come up are exactly one for each popup of the subtree,
/// in the order of destruction. In that order every popup comes after all
/// popups that are placed against it, so the popup that was asked to go
/// comes last.
pub proof fn lemma_destroy_order(s: StateView, root: int)
    requires
        s.wf(),
        0 <= root < s.popups.len(),
    ensures
        ({
            let surface = s.popups[root].popup;
            let gone = doomed_from(s.popups, surface, 0);
            let after = s.destroy_popup_tree(surface);
            &&& after.sctk_events == s.sctk_events + done_events(gone, gone.len() as int)
            &&& gone.len() >= 1
            &&& gone.last() == s.popups[root]
            &&& forall|k: int|
                #![trigger gone[k]]
                0 <= k < gone.len() ==> exists|a: int|
                    0 <= a < s.popups.len() && in_subtree(s.popups, surface, a) && gone[k]
                        == #[trigger] s.popups[a]
            &&& forall|a: int, b: int|
                #![trigger in_subtree(s.popups, surface, a), in_subtree(
                    s.popups,
                    s.popups[a].popup,
                    b,
                )]
                in_subtree(s.popups, surface, a) && in_subtree(s.popups, s.popups[a].popup, b) && a
                    != b ==> {
                    let place_a = doomed_from(s.popups, surface, a + 1).len() as int;
                    let place_b = doomed_from(s.popups, surface, b + 1).len() as int;
                    &&& place_b < place_a < gone.len()
                    &&& gone[place_a] == s.popups[a]
                    &&& gone[place_b] == s.popups[b]
                }
        }),
{
    reveal(StateView::wf);
    let popups = s.popups;
    let surface = popups[root].popup;
    let gone = doomed_from(popups, surface, 0);
    let start = StateView { popups: spared_upto(popups, surface, popups.len() as int), ..s };
    lemma_popups_gone(start, gone, gone.len() as int);
    assert(in_subtree(popups, surface, root));
    lemma_doomed_place(popups, surface, root);
    // Nothing before the root belongs to the subtree, so the root goes last.
    assert forall|i: int| 0 <= i < root implies !in_subtree(popups, surface, i) by {
        if in_subtree(popups, surface, i) {
            lemma_subtree_below(popups, s.next_surface, root, i);
        }
    }
    lemma_nothing_doomed_before(popups, surface, root, 0);
    assert(doomed_from(popups, surface, root) == doomed_from(popups, surface, root + 1).push(
        popups[root],
    ));
    assert forall|k: int| #![trigger gone[k]] 0 <= k < gone.len() implies exists|a: int|
        0 <= a < popups.len() && in_subtree(popups, surface, a) && gone[k]
            == #[trigger] popups[a] by {
        lemma_doomed_members(popups, surface, 0, k);
    }
    assert forall|a: int, b: int|
        #![trigger in_subtree(popups, surface, a), in_subtree(popups, popups[a].popup, b)]
        in_subtree(popups, surface, a) && in_subtree(popups, popups[a].popup, b) && a != b implies {
        let place_a = doomed_from(popups, surface, a + 1).len() as int;
        let place_b = doomed_from(popups, surface, b + 1).len() as int;
        &&& place_b < place_a < gone.len()
        &&& gone[place_a] == popups[a]
        &&& gone[place_b] == popups[b]
    } by {
        lemma_subtree_below(popups, s.next_surface, a, b);
        lemma_subtree_nested(popups, s.next_surface, surface, a, b);
        lemma_doomed_place(popups, surface, a);
        lemma_doomed_place(popups, surface, b);
        lemma_doomed_prefix(popups, surface, a + 1, b);
        lemma_doomed_prefix(popups, surface, b, b + 1);
        assert(doomed_from(popups, surface, b) == doomed_from(popups, surface, b + 1).push(
            popups[b],
        ));
    }
}

/// Where nothing from `i` up to `upto` belongs to the subtree, what is
/// destroyed from `i` on is what is destroyed from `upto` on.
proof fn lemma_nothing_doomed_before(popups: Seq<SctkPopup>, root: ObjectId, upto: int, i: int)
    requires
        0 <= i <= upto <= popups.len(),
        forall|k: int| i <= k < upto ==> !in_subtree(popups, root, k),
    ensures
        doomed_from(popups, root, i) == doomed_from(popups, root, upto),
    decreases upto - i,
{
    if i < upto {
        lemma_nothing_doomed_before(popups, root, upto, i + 1);
    }
}

} // verus!
