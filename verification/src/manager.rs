//! The window manager: the one record of which windows exist.
//!
//! Surfaces are kept in the order in which their windows were created, so
//! every walk over the manager is deterministic. No identity is tracked
//! twice, and at most one tracked window has its graphics context current.

use crate::frame::{frame_clear, Frame};
use crate::renderer::{PocRenderer, PocUpdate};
use crate::surface::{NativeWindow, RedrawPolicy, Surface, WindowError, WindowId};
use vstd::prelude::*;

verus! {

/// Whether some surface of `surfaces` belongs to window `id`.
pub open spec fn tracks(surfaces: Seq<Surface>, id: WindowId) -> bool {
    exists|i: int| 0 <= i < surfaces.len() && (#[trigger] surfaces[i]).id == id
}

/// Where the surface of window `id` stands in `surfaces`, if it is tracked.
pub open spec fn position(surfaces: Seq<Surface>, id: WindowId) -> int {
    choose|i: int| 0 <= i < surfaces.len() && (#[trigger] surfaces[i]).id == id
}

/// Whether no two surfaces of `surfaces` belong to the same window.
pub open spec fn distinct_ids(surfaces: Seq<Surface>) -> bool {
    forall|i: int, j: int|
        0 <= i < j < surfaces.len() ==> (#[trigger] surfaces[i]).id != (#[trigger] surfaces[j]).id
}

/// The identities of `surfaces`, in the same order.
pub open spec fn identities(surfaces: Seq<Surface>) -> Seq<WindowId> {
    Seq::new(surfaces.len(), |i: int| surfaces[i].id)
}

/// The windows of `surfaces` that ask for a redraw, in the same order.
pub open spec fn due_windows(surfaces: Seq<Surface>) -> Seq<WindowId>
    decreases surfaces.len(),
{
    if surfaces.len() == 0 {
        Seq::empty()
    } else if surfaces.last().redraw_due() {
        due_windows(surfaces.drop_last()).push(surfaces.last().id)
    } else {
        due_windows(surfaces.drop_last())
    }
}

/// `surfaces` once the redraw check of every surface was made.
pub open spec fn all_checked(surfaces: Seq<Surface>) -> Seq<Surface> {
    Seq::new(surfaces.len(), |i: int| surfaces[i].redraw_checked())
}

/// Owner of every surface, keyed by window identity.
pub struct WindowManager {
    surfaces: Vec<Surface>,
    current: Option<WindowId>,
}

impl View for WindowManager {
    type V = Seq<Surface>;

    /// The tracked surfaces, oldest window first.
    closed spec fn view(&self) -> Seq<Surface> {
        self.surfaces@
    }
}

impl WindowManager {
    /// The window whose graphics context is current, if any is.
    pub closed spec fn active(&self) -> Option<WindowId> {
        self.current
    }

    /// The invariant of the manager: identities are unique, and the window
    /// whose context is current is a tracked one.
    pub open spec fn wf(&self) -> bool {
        &&& distinct_ids(self@)
        &&& self.active() matches Some(id) ==> tracks(self@, id)
    }

    /// A manager that tracks no window.
    pub fn new() -> (manager: Self)
        ensures
            manager.wf(),
            manager@ == Seq::<Surface>::empty(),
            manager.active().is_none(),
    {
        WindowManager { surfaces: Vec::new(), current: None }
    }

    /// Index of the surface of window `id`.
    fn find(&self, id: WindowId) -> (found: Option<usize>)
        requires
            self.wf(),
        ensures
            found matches Some(i) ==> tracks(self@, id) && i == position(self@, id) && 0 <= i
                < self@.len() && self@[i as int].id == id,
            found.is_none() ==> !tracks(self@, id),
    {
        let mut i: usize = 0;
        while i < self.surfaces.len()
            invariant
                self.wf(),
                i <= self.surfaces.len(),
                forall|k: int| 0 <= k < i ==> (#[trigger] self@[k]).id != id,
            decreases self.surfaces.len() - i,
        {
            if self.surfaces[i].id == id {
                proof {
                    lemma_position_unique(self@, id, i as int);
                }
                return Some(i);
            }
            i = i + 1;
        }
        None
    }

    /// Takes charge of a window. `native` is what the windowing layer
    /// answered to the request for a new window: `None` if it refused.
    /// The new surface gets `renderer` and `state`; its renderer takes the
    /// size of the window and is finalized, as the context of the new
    /// window is current at that point.
    pub fn create(
        &mut self,
        native: Option<NativeWindow>,
        renderer: PocRenderer,
        state: PocUpdate,
    ) -> (result: Result<WindowId, WindowError>)
        requires
            old(self).wf(),
        ensures
            final(self).wf(),
            match result {
                Ok(id) => {
                    &&& native matches Some(window)
                    &&& id == window.id
                    &&& !tracks(old(self)@, id)
                    &&& final(self)@ == old(self)@.push(Surface::created(window, renderer, state))
                    &&& final(self).active() == Some(id)
                },
                Err(error) => {
                    &&& error == WindowError::WindowCreation
                    &&& native matches Some(window) ==> tracks(old(self)@, window.id)
                    &&& final(self)@ == old(self)@
                    &&& final(self).active() == old(self).active()
                },
            },
    {
        match native {
            None => Err(WindowError::WindowCreation),
            Some(window) => {
                if self.find(window.id).is_some() {
                    Err(WindowError::WindowCreation)
                } else {
                    let surface = Surface::new(window, renderer, state);
                    self.surfaces.push(surface);
                    self.current = Some(window.id);
                    proof {
                        let last = old(self)@.len() as int;
                        assert(self@[last].id == window.id);
                    }
                    Ok(window.id)
                }
            },
        }
    }

    /// The surface of window `id`.
    pub fn get(&self, id: WindowId) -> (result: Result<&Surface, WindowError>)
        requires
            self.wf(),
        ensures
            match result {
                Ok(surface) => tracks(self@, id) && *surface == self@[position(self@, id)]
                    && surface.id == id,
                Err(error) => error == WindowError::UnknownWindow && !tracks(self@, id),
            },
    {
        match self.find(id) {
            Some(i) => Ok(&self.surfaces[i]),
            None => Err(WindowError::UnknownWindow),
        }
    }

    /// Whether window `id` is tracked.
    pub fn contains(&self, id: WindowId) -> (known: bool)
        requires
            self.wf(),
        ensures
            known == tracks(self@, id),
    {
        self.find(id).is_some()
    }

    /// Stops tracking window `id` and drops its surface, renderer and all.
    /// Does nothing if the window is not tracked.
    pub fn remove(&mut self, id: WindowId)
        requires
            old(self).wf(),
        ensures
            final(self).wf(),
            !tracks(final(self)@, id),
            forall|other: WindowId|
                other != id ==> (tracks(final(self)@, other) <==> tracks(old(self)@, other)),
            final(self)@.len() == old(self)@.len() - (if tracks(old(self)@, id) {
                1int
            } else {
                0int
            }),
            !tracks(old(self)@, id) ==> final(self)@ == old(self)@ && final(self).active() == old(
                self,
            ).active(),
            tracks(old(self)@, id) ==> final(self)@ == old(self)@.remove(position(old(self)@, id))
                && final(self).active() == (if old(self).active() == Some(id) {
                None
            } else {
                old(self).active()
            }),
    {
        match self.find(id) {
            None => {},
            Some(i) => {
                if self.current == Some(id) {
                    self.current = None;
                }
                self.surfaces.remove(i);
                proof {
                    lemma_remove_keeps_others(old(self)@, i as int);
                }
            },
        }
    }

    /// Stops tracking every window and lists, oldest window first, the
    /// windows that were tracked.
    pub fn remove_all(&mut self) -> (removed: Vec<WindowId>)
        ensures
            final(self).wf(),
            final(self)@ == Seq::<Surface>::empty(),
            final(self).active().is_none(),
            removed@ == identities(old(self)@),
    {
        let removed = self.list_identities();
        self.surfaces.clear();
        self.current = None;
        removed
    }

    /// Whether no window is tracked.
    pub fn is_empty(&self) -> (empty: bool)
        ensures
            empty == (self@.len() == 0),
    {
        self.surfaces.len() == 0
    }

    /// Number of tracked windows.
    pub fn len(&self) -> (count: usize)
        ensures
            count == self@.len(),
    {
        self.surfaces.len()
    }

    /// The identities of the tracked windows, oldest window first. The
    /// list is a copy: it stays as it is when the manager changes.
    pub fn list_identities(&self) -> (ids: Vec<WindowId>)
        ensures
            ids@ == identities(self@),
    {
        let mut ids: Vec<WindowId> = Vec::new();
        let mut i: usize = 0;
        while i < self.surfaces.len()
            invariant
                i <= self.surfaces.len(),
                ids@.len() == i,
                forall|k: int| 0 <= k < i ==> ids@[k] == self@[k].id,
            decreases self.surfaces.len() - i,
        {
            ids.push(self.surfaces[i].id);
            i = i + 1;
        }
        ids
    }

    /// The window whose graphics context is current, if any is.
    pub fn current(&self) -> (current: Option<WindowId>)
        ensures
            current == self.active(),
    {
        self.current
    }

    /// Records the outcome of making the context of window `id` current.
    /// `granted` tells whether the graphics layer did so. When it refused,
    /// no context is current any more.
    pub fn activate(&mut self, id: WindowId, granted: bool) -> (result: Result<(), WindowError>)
        requires
            old(self).wf(),
        ensures
            final(self).wf(),
            final(self)@ == old(self)@,
            match result {
                Ok(_) => tracks(old(self)@, id) && granted && final(self).active() == Some(id),
                Err(error) => if tracks(old(self)@, id) {
                    &&& !granted
                    &&& error == WindowError::ContextActivation
                    &&& final(self).active().is_none()
                } else {
                    &&& error == WindowError::UnknownWindow
                    &&& final(self).active() == old(self).active()
                },
            },
    {
        match self.find(id) {
            None => Err(WindowError::UnknownWindow),
            Some(_) => {
                if granted {
                    self.current = Some(id);
                    Ok(())
                } else {
                    self.current = None;
                    Err(WindowError::ContextActivation)
                }
            },
        }
    }

    /// Records the new pixel size of window `id`.
    pub fn resize(&mut self, id: WindowId, width: u32, height: u32) -> (result: Result<
        (),
        WindowError,
    >)
        requires
            old(self).wf(),
        ensures
            final(self).wf(),
            final(self).active() == old(self).active(),
            match result {
                Ok(_) => {
                    &&& tracks(old(self)@, id)
                    &&& final(self)@ == old(self)@.update(
                        position(old(self)@, id),
                        old(self)@[position(old(self)@, id)].resized(width, height),
                    )
                },
                Err(error) => {
                    &&& error == WindowError::UnknownWindow
                    &&& !tracks(old(self)@, id)
                    &&& final(self)@ == old(self)@
                },
            },
    {
        match self.find(id) {
            None => Err(WindowError::UnknownWindow),
            Some(i) => {
                self.surfaces[i].resize(width, height);
                proof {
                    lemma_update_keeps_ids(old(self)@, i as int, self@[i as int]);
                }
                Ok(())
            },
        }
    }

    /// Marks window `id` as in need of a redraw.
    pub fn mark_dirty(&mut self, id: WindowId) -> (result: Result<(), WindowError>)
        requires
            old(self).wf(),
        ensures
            final(self).wf(),
            final(self).active() == old(self).active(),
            match result {
                Ok(_) => {
                    &&& tracks(old(self)@, id)
                    &&& final(self)@ == old(self)@.update(
                        position(old(self)@, id),
                        Surface { dirty: true, ..old(self)@[position(old(self)@, id)] },
                    )
                },
                Err(error) => {
                    &&& error == WindowError::UnknownWindow
                    &&& !tracks(old(self)@, id)
                    &&& final(self)@ == old(self)@
                },
            },
    {
        match self.find(id) {
            None => Err(WindowError::UnknownWindow),
            Some(i) => {
                self.surfaces[i].mark_dirty();
                proof {
                    lemma_update_keeps_ids(old(self)@, i as int, self@[i as int]);
                }
                Ok(())
            },
        }
    }

    /// Hands a message to the application state of window `id` and marks
    /// the window as in need of a redraw.
    pub fn update(&mut self, id: WindowId, message: ()) -> (result: Result<(), WindowError>)
        requires
            old(self).wf(),
        ensures
            final(self).wf(),
            final(self).active() == old(self).active(),
            match result {
                Ok(_) => {
                    &&& tracks(old(self)@, id)
                    &&& final(self)@ == old(self)@.update(
                        position(old(self)@, id),
                        Surface { dirty: true, ..old(self)@[position(old(self)@, id)] },
                    )
                },
                Err(error) => {
                    &&& error == WindowError::UnknownWindow
                    &&& !tracks(old(self)@, id)
                    &&& final(self)@ == old(self)@
                },
            },
    {
        match self.find(id) {
            None => Err(WindowError::UnknownWindow),
            Some(i) => {
                self.surfaces[i].update(message);
                proof {
                    lemma_update_keeps_ids(old(self)@, i as int, self@[i as int]);
                }
                Ok(())
            },
        }
    }

    /// Chooses when window `id` asks for redraws.
    pub fn set_redraw_policy(&mut self, id: WindowId, policy: RedrawPolicy) -> (result: Result<
        (),
        WindowError,
    >)
        requires
            old(self).wf(),
        ensures
            final(self).wf(),
            final(self).active() == old(self).active(),
            match result {
                Ok(_) => {
                    &&& tracks(old(self)@, id)
                    &&& final(self)@ == old(self)@.update(
                        position(old(self)@, id),
                        Surface { policy, ..old(self)@[position(old(self)@, id)] },
                    )
                },
                Err(error) => {
                    &&& error == WindowError::UnknownWindow
                    &&& !tracks(old(self)@, id)
                    &&& final(self)@ == old(self)@
                },
            },
    {
        match self.find(id) {
            None => Err(WindowError::UnknownWindow),
            Some(i) => {
                self.surfaces[i].set_redraw_policy(policy);
                proof {
                    lemma_update_keeps_ids(old(self)@, i as int, self@[i as int]);
                }
                Ok(())
            },
        }
    }

    /// Makes the redraw check of every tracked window and lists, oldest
    /// window first, the windows for which a redraw is due.
    pub fn collect_redraws(&mut self) -> (due: Vec<WindowId>)
        requires
            old(self).wf(),
        ensures
            final(self).wf(),
            final(self).active() == old(self).active(),
            final(self)@ == all_checked(old(self)@),
            due@ == due_windows(old(self)@),
    {
        let mut due: Vec<WindowId> = Vec::new();
        let mut i: usize = 0;
        let count = self.surfaces.len();
        while i < count
            invariant
                i <= count,
                count == old(self)@.len(),
                self@.len() == count,
                self.current == old(self).current,
                forall|k: int| 0 <= k < i ==> (#[trigger] self@[k]) == old(self)@[k].redraw_checked(),
                forall|k: int| i <= k < count ==> (#[trigger] self@[k]) == old(self)@[k],
                due@ == due_windows(old(self)@.take(i as int)),
            decreases count - i,
        {
            let is_due = self.surfaces[i].check_and_clear_redraw();
            proof {
                let before = old(self)@.take(i as int);
                let upto = old(self)@.take(i + 1);
                assert(upto.drop_last() == before);
                assert(upto.last() == old(self)@[i as int]);
            }
            if is_due {
                let id = self.surfaces[i].id;
                due.push(id);
            }
            i = i + 1;
        }
        proof {
            assert(old(self)@.take(count as int) == old(self)@);
            assert(self@ == all_checked(old(self)@));
            lemma_checked_keeps_ids(old(self)@);
        }
        due
    }

    /// Draws window `id`. `activated` tells whether the graphics layer
    /// made the context of that window current. If it did, the context is
    /// recorded as the current one and the frame to execute comes back; if
    /// it refused, no context is current any more.
    pub fn draw(&mut self, id: WindowId, activated: bool) -> (result: Result<Frame, WindowError>)
        requires
            old(self).wf(),
        ensures
            final(self).wf(),
            final(self)@ == old(self)@,
            match result {
                Ok(frame) => {
                    &&& tracks(old(self)@, id)
                    &&& activated
                    &&& final(self).active() == Some(id)
                    &&& frame.clear == frame_clear()
                    &&& frame.passes@ == old(self)@[position(old(self)@, id)].renderer.passes()
                },
                Err(error) => if tracks(old(self)@, id) {
                    &&& !activated
                    &&& error == WindowError::ContextActivation
                    &&& final(self).active().is_none()
                } else {
                    &&& error == WindowError::UnknownWindow
                    &&& final(self).active() == old(self).active()
                },
            },
    {
        match self.find(id) {
            None => Err(WindowError::UnknownWindow),
            Some(i) => {
                if activated {
                    self.current = Some(id);
                } else {
                    self.current = None;
                }
                self.surfaces[i].draw(activated)
            },
        }
    }
}

/// A manager tracks no surface exactly when it tracks no window, and it
/// lists one identity for each surface.
pub proof fn lemma_empty_iff_nothing_tracked(surfaces: Seq<Surface>)
    ensures
        surfaces.len() == 0 <==> forall|id: WindowId| !tracks(surfaces, id),
        identities(surfaces).len() == surfaces.len(),
{
    if surfaces.len() > 0 {
        assert(tracks(surfaces, surfaces[0].id));
    }
}

/// The identities of surfaces with distinct identities hold no identity
/// twice, and hold exactly the tracked ones.
pub proof fn lemma_identities_distinct(surfaces: Seq<Surface>)
    requires
        distinct_ids(surfaces),
    ensures
        identities(surfaces).no_duplicates(),
        forall|id: WindowId| identities(surfaces).contains(id) <==> tracks(surfaces, id),
{
    let ids = identities(surfaces);
    assert forall|i: int, j: int| 0 <= i < ids.len() && 0 <= j < ids.len() && i != j implies ids[i]
        != ids[j] by {
        if i < j {
            assert(surfaces[i].id != surfaces[j].id);
        } else {
            assert(surfaces[j].id != surfaces[i].id);
        }
    }
    assert forall|id: WindowId| ids.contains(id) <==> tracks(surfaces, id) by {
        if ids.contains(id) {
            let k = choose|k: int| 0 <= k < ids.len() && ids[k] == id;
            assert(surfaces[k].id == id);
        }
        if tracks(surfaces, id) {
            let k = position(surfaces, id);
            assert(ids[k] == id);
        }
    }
}

/// At the end of a batch every tracked window for which a redraw is due is
/// listed exactly once, and no other window is listed.
pub proof fn lemma_due_windows_exactly_once(surfaces: Seq<Surface>)
    requires
        distinct_ids(surfaces),
    ensures
        due_windows(surfaces).no_duplicates(),
        forall|id: WindowId|
            due_windows(surfaces).contains(id) <==> (tracks(surfaces, id)
                && surfaces[position(surfaces, id)].redraw_due()),
    decreases surfaces.len(),
{
    let due = due_windows(surfaces);
    if surfaces.len() > 0 {
        let prefix = surfaces.drop_last();
        let last = surfaces.last();
        let end = surfaces.len() - 1;
        let before = due_windows(prefix);
        assert forall|i: int, j: int| 0 <= i < j < prefix.len() implies (#[trigger] prefix[i]).id != (
        #[trigger] prefix[j]).id by {
            assert(surfaces[i].id != surfaces[j].id);
        }
        lemma_due_windows_exactly_once(prefix);
        lemma_position_unique(surfaces, last.id, end);
        if before.contains(last.id) {
            assert(tracks(prefix, last.id));
            let k = position(prefix, last.id);
            assert(prefix[k].id == last.id);
            assert(surfaces[k].id != surfaces[end].id);
        }
        assert forall|id: WindowId| tracks(prefix, id) implies tracks(surfaces, id) && position(
            surfaces,
            id,
        ) == position(prefix, id) by {
            let k = position(prefix, id);
            assert(surfaces[k].id == id);
            lemma_position_unique(surfaces, id, k);
        }
        assert forall|id: WindowId| tracks(surfaces, id) && id != last.id implies tracks(
            prefix,
            id,
        ) by {
            let k = position(surfaces, id);
            assert(prefix[k].id == id);
        }
        if last.redraw_due() {
            assert(due == before.push(last.id));
            assert forall|i: int, j: int| 0 <= i < due.len() && 0 <= j < due.len() && i
                != j implies due[i] != due[j] by {
                if i < before.len() && j < before.len() {
                    assert(before[i] != before[j]);
                } else if i < before.len() {
                    assert(before.contains(before[i]));
                } else {
                    assert(before.contains(before[j]));
                }
            }
            assert forall|id: WindowId|
                due.contains(id) <==> (tracks(surfaces, id) && surfaces[position(
                    surfaces,
                    id,
                )].redraw_due()) by {
                if due.contains(id) {
                    let k = choose|k: int| 0 <= k < due.len() && due[k] == id;
                    if k < before.len() {
                        assert(before.contains(before[k]));
                    }
                }
                if tracks(surfaces, id) && surfaces[position(surfaces, id)].redraw_due() {
                    if id == last.id {
                        assert(due[before.len() as int] == id);
                    } else {
                        assert(before.contains(id));
                        let k = choose|k: int| 0 <= k < before.len() && before[k] == id;
                        assert(due[k] == id);
                    }
                }
            }
        } else {
            assert(due == before);
        }
    }
}

/// In a sequence of surfaces with distinct identities, the surface of a
/// window stands at one index only.
pub proof fn lemma_position_unique(surfaces: Seq<Surface>, id: WindowId, i: int)
    requires
        distinct_ids(surfaces),
        0 <= i < surfaces.len(),
        surfaces[i].id == id,
    ensures
        tracks(surfaces, id),
        position(surfaces, id) == i,
{
    let p = position(surfaces, id);
    assert(0 <= p < surfaces.len() && surfaces[p].id == id);
    if p < i {
        assert(surfaces[p].id != surfaces[i].id);
    } else if i < p {
        assert(surfaces[i].id != surfaces[p].id);
    }
}

/// Removing one surface leaves the identities distinct, stops tracking its
/// window and keeps every other window tracked.
pub proof fn lemma_remove_keeps_others(surfaces: Seq<Surface>, i: int)
    requires
        distinct_ids(surfaces),
        0 <= i < surfaces.len(),
    ensures
        distinct_ids(surfaces.remove(i)),
        !tracks(surfaces.remove(i), surfaces[i].id),
        forall|other: WindowId|
            other != surfaces[i].id ==> (tracks(surfaces.remove(i), other) <==> tracks(
                surfaces,
                other,
            )),
{
    let rest = surfaces.remove(i);
    assert forall|k: int| 0 <= k < rest.len() implies #[trigger] rest[k] == surfaces[if k < i {
        k
    } else {
        k + 1
    }] by {}
    assert forall|a: int, b: int| 0 <= a < b < rest.len() implies (#[trigger] rest[a]).id != (
    #[trigger] rest[b]).id by {
        let sa = if a < i { a } else { a + 1 };
        let sb = if b < i { b } else { b + 1 };
        assert(surfaces[sa].id != surfaces[sb].id);
    }
    if tracks(rest, surfaces[i].id) {
        let k = position(rest, surfaces[i].id);
        let sk = if k < i { k } else { k + 1 };
        if sk < i {
            assert(surfaces[sk].id != surfaces[i].id);
        } else {
            assert(surfaces[i].id != surfaces[sk].id);
        }
    }
    assert forall|other: WindowId| other != surfaces[i].id implies (tracks(rest, other) <==> tracks(
        surfaces,
        other,
    )) by {
        if tracks(rest, other) {
            let k = position(rest, other);
            let sk = if k < i { k } else { k + 1 };
            assert(surfaces[sk].id == other);
        }
        if tracks(surfaces, other) {
            let k = position(surfaces, other);
            let rk = if k < i { k } else { k - 1 };
            assert(rest[rk].id == other);
        }
    }
}

/// Replacing a surface by one of the same window changes neither which
/// windows are tracked nor that the identities are distinct.
pub proof fn lemma_update_keeps_ids(surfaces: Seq<Surface>, i: int, surface: Surface)
    requires
        0 <= i < surfaces.len(),
        surface.id == surfaces[i].id,
    ensures
        distinct_ids(surfaces) ==> distinct_ids(surfaces.update(i, surface)),
        forall|id: WindowId| tracks(surfaces.update(i, surface), id) <==> tracks(surfaces, id),
{
    let updated = surfaces.update(i, surface);
    assert forall|k: int| 0 <= k < surfaces.len() implies (#[trigger] updated[k]).id
        == surfaces[k].id by {}
    if distinct_ids(surfaces) {
        assert forall|a: int, b: int| 0 <= a < b < updated.len() implies (#[trigger] updated[a]).id
            != (#[trigger] updated[b]).id by {
            assert(surfaces[a].id != surfaces[b].id);
        }
    }
    assert forall|id: WindowId| tracks(updated, id) <==> tracks(surfaces, id) by {
        if tracks(updated, id) {
            let k = position(updated, id);
            assert(surfaces[k].id == id);
        }
        if tracks(surfaces, id) {
            let k = position(surfaces, id);
            assert(updated[k].id == id);
        }
    }
}

/// The redraw check changes neither which windows are tracked nor that
/// the identities are distinct.
pub proof fn lemma_checked_keeps_ids(surfaces: Seq<Surface>)
    ensures
        distinct_ids(surfaces) ==> distinct_ids(all_checked(surfaces)),
        forall|id: WindowId| tracks(all_checked(surfaces), id) <==> tracks(surfaces, id),
{
    let checked = all_checked(surfaces);
    if distinct_ids(surfaces) {
        assert forall|a: int, b: int| 0 <= a < b < checked.len() implies (#[trigger] checked[a]).id
            != (#[trigger] checked[b]).id by {
            assert(surfaces[a].id != surfaces[b].id);
        }
    }
    assert forall|id: WindowId| tracks(checked, id) <==> tracks(surfaces, id) by {
        if tracks(checked, id) {
            let k = position(checked, id);
            assert(surfaces[k].id == id);
        }
        if tracks(surfaces, id) {
            let k = position(surfaces, id);
            assert(checked[k].id == id);
        }
    }
}

} // verus!
