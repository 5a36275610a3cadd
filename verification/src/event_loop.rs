//! The event dispatch loop as a state machine.
//!
//! The loop itself runs elsewhere: whoever pumps the events of the
//! windowing layer hands each of them to [`EventLoop::dispatch`], carries
//! out the actions that come back, and stops once the state is
//! [`LoopState::Exiting`].

use crate::manager::{all_checked, due_windows, identities, position, tracks, WindowManager};
use crate::frame::{frame_clear, Frame};
use crate::surface::{WindowError, WindowId};
use vstd::prelude::*;

verus! {

/// Where the loop stands.
#[derive(Clone, Copy, Debug, PartialEq, Eq, Structural)]
pub enum LoopState {
    /// The loop runs and has not been told yet to wait for events.
    Idle,
    /// The loop blocks until the next event arrives.
    WaitingForEvents,
    /// The loop is to end. Nothing leads out of this state.
    Exiting,
}

/// A key of the keyboard, as far as the loop tells keys apart.
#[derive(Clone, Copy, Debug, PartialEq, Eq, Structural)]
pub enum Key {
    /// The key that quits the program.
    Escape,
    /// Any other key.
    Other,
}

/// An event of the windowing layer.
#[derive(Clone, Copy, Debug, PartialEq, Eq, Structural)]
pub enum Event {
    /// The loop has started.
    Init,
    /// The user asked to close a window.
    CloseRequested { window: WindowId },
    /// A window took a new pixel size.
    Resized { window: WindowId, width: u32, height: u32 },
    /// A key was released.
    KeyReleased { key: Key },
    /// Every pending event of the batch has been handed over.
    MainEventsCleared,
    /// A window has to be drawn.
    RedrawRequested { window: WindowId },
    /// The loop has ended.
    LoopDestroyed,
    /// Anything else.
    Other,
}

/// Work that the owner of the windows carries out for the loop.
#[derive(Clone, Copy, Debug, PartialEq, Eq, Structural)]
pub enum Action {
    /// Destroy the graphics context, the renderer and the window, in that
    /// order. The window is no longer tracked.
    CloseWindow { window: WindowId },
    /// Resize the drawable of the window to the new pixel size.
    ResizeWindow { window: WindowId, width: u32, height: u32 },
    /// Ask the windowing layer for a redraw of the window.
    RequestRedraw { window: WindowId },
    /// Make the context of the window current, hand the outcome to
    /// [`EventLoop::draw`], execute the frame that comes back, and present
    /// the surface.
    Draw { window: WindowId },
}

/// One redraw request for each window of `ids`, in the same order.
pub open spec fn redraw_requests(ids: Seq<WindowId>) -> Seq<Action> {
    Seq::new(ids.len(), |i: int| Action::RequestRedraw { window: ids[i] })
}

/// One close action for each window of `ids`, in the same order.
pub open spec fn close_actions(ids: Seq<WindowId>) -> Seq<Action> {
    Seq::new(ids.len(), |i: int| Action::CloseWindow { window: ids[i] })
}

/// Whether `after` tracks the same surfaces as `before`, with the same
/// context current.
pub open spec fn same_windows(before: &WindowManager, after: &WindowManager) -> bool {
    after@ == before@ && after.active() == before.active()
}

/// The loop state together with the windows it works on.
pub struct EventLoop {
    pub state: LoopState,
    pub manager: WindowManager,
}

impl EventLoop {
    /// The invariant of the loop: that of its window manager.
    pub open spec fn wf(&self) -> bool {
        self.manager.wf()
    }

    /// A loop over the windows of `manager` that has not started yet.
    pub fn new(manager: WindowManager) -> (event_loop: Self)
        ensures
            event_loop.state == LoopState::Idle,
            event_loop.manager == manager,
    {
        EventLoop { state: LoopState::Idle, manager }
    }

    /// Whether the loop is to end.
    pub fn is_exiting(&self) -> (exiting: bool)
        ensures
            exiting == (self.state is Exiting),
    {
        match self.state {
            LoopState::Exiting => true,
            _ => false,
        }
    }

    /// Handles one event and tells what is to be done for it.
    ///
    /// Once the loop is exiting, the state stays and every event but the
    /// end of the loop is ignored. The end of the loop, whenever it
    /// comes, closes every window that is still tracked. Before that:
    /// the start of the loop makes it wait for events; a close request
    /// removes the window, and the loop exits if no window is left; a
    /// resize is recorded in the surface of the window; the release of
    /// the quit key makes the loop exit, whatever windows are open; at the
    /// end of a batch every window whose redraw check succeeds gets one
    /// redraw request; a redraw request makes the window draw. A resize or
    /// a redraw of a window that is not tracked is an error and changes
    /// nothing.
    pub fn dispatch(&mut self, event: Event) -> (result: Result<Vec<Action>, WindowError>)
        requires
            old(self).wf(),
        ensures
            final(self).wf(),
            old(self).state is Exiting ==> final(self).state is Exiting,
            event is LoopDestroyed ==> {
                &&& final(self).state is Exiting
                &&& final(self).manager@.len() == 0
                &&& final(self).manager.active().is_none()
                &&& result matches Ok(actions)
                &&& actions@ == close_actions(identities(old(self).manager@))
            },
            old(self).state is Exiting && !(event is LoopDestroyed) ==> {
                &&& same_windows(&old(self).manager, &final(self).manager)
                &&& result matches Ok(actions)
                &&& actions@.len() == 0
            },
            !(old(self).state is Exiting) ==> match event {
                Event::Init => {
                    &&& final(self).state is WaitingForEvents
                    &&& same_windows(&old(self).manager, &final(self).manager)
                    &&& result matches Ok(actions)
                    &&& actions@.len() == 0
                },
                Event::CloseRequested { window } => {
                    &&& !tracks(final(self).manager@, window)
                    &&& forall|other: WindowId|
                        other != window ==> (tracks(final(self).manager@, other) <==> tracks(
                            old(self).manager@,
                            other,
                        ))
                    &&& final(self).manager@.len() == old(self).manager@.len() - (if tracks(
                        old(self).manager@,
                        window,
                    ) {
                        1int
                    } else {
                        0int
                    })
                    &&& final(self).state == (if final(self).manager@.len() == 0 {
                        LoopState::Exiting
                    } else {
                        old(self).state
                    })
                    &&& result matches Ok(actions)
                    &&& if tracks(old(self).manager@, window) {
                        &&& final(self).manager@ == old(self).manager@.remove(
                            position(old(self).manager@, window),
                        )
                        &&& final(self).manager.active() == (if old(self).manager.active() == Some(
                            window,
                        ) {
                            None
                        } else {
                            old(self).manager.active()
                        })
                        &&& actions@ == seq![Action::CloseWindow { window }]
                    } else {
                        &&& same_windows(&old(self).manager, &final(self).manager)
                        &&& actions@.len() == 0
                    }
                },
                Event::Resized { window, width, height } => {
                    &&& final(self).state == old(self).state
                    &&& final(self).manager.active() == old(self).manager.active()
                    &&& if tracks(old(self).manager@, window) {
                        &&& final(self).manager@ == old(self).manager@.update(
                            position(old(self).manager@, window),
                            old(self).manager@[position(old(self).manager@, window)].resized(
                                width,
                                height,
                            ),
                        )
                        &&& result matches Ok(actions)
                        &&& actions@ == seq![Action::ResizeWindow { window, width, height }]
                    } else {
                        &&& final(self).manager@ == old(self).manager@
                        &&& result == Err::<Vec<Action>, WindowError>(WindowError::UnknownWindow)
                    }
                },
                Event::KeyReleased { key } => {
                    &&& final(self).state == (if key is Escape {
                        LoopState::Exiting
                    } else {
                        old(self).state
                    })
                    &&& same_windows(&old(self).manager, &final(self).manager)
                    &&& result matches Ok(actions)
                    &&& actions@.len() == 0
                },
                Event::MainEventsCleared => {
                    &&& final(self).state == old(self).state
                    &&& final(self).manager@ == all_checked(old(self).manager@)
                    &&& final(self).manager.active() == old(self).manager.active()
                    &&& result matches Ok(actions)
                    &&& actions@ == redraw_requests(due_windows(old(self).manager@))
                },
                Event::RedrawRequested { window } => {
                    &&& final(self).state == old(self).state
                    &&& same_windows(&old(self).manager, &final(self).manager)
                    &&& if tracks(old(self).manager@, window) {
                        &&& result matches Ok(actions)
                        &&& actions@ == seq![Action::Draw { window }]
                    } else {
                        result == Err::<Vec<Action>, WindowError>(WindowError::UnknownWindow)
                    }
                },
                Event::LoopDestroyed => true,
                Event::Other => {
                    &&& final(self).state == old(self).state
                    &&& same_windows(&old(self).manager, &final(self).manager)
                    &&& result matches Ok(actions)
                    &&& actions@.len() == 0
                },
            },
    {
        let mut actions: Vec<Action> = Vec::new();
        match event {
            Event::LoopDestroyed => {
                let closed = self.manager.remove_all();
                let mut i: usize = 0;
                while i < closed.len()
                    invariant
                        i <= closed.len(),
                        actions@.len() == i,
                        forall|k: int|
                            0 <= k < i ==> actions@[k] == (Action::CloseWindow { window: closed@[k] }),
                    decreases closed.len() - i,
                {
                    actions.push(Action::CloseWindow { window: closed[i] });
                    i = i + 1;
                }
                self.state = LoopState::Exiting;
                assert(actions@ == close_actions(closed@));
                return Ok(actions);
            },
            _ => {},
        }
        if self.is_exiting() {
            return Ok(actions);
        }
        match event {
            Event::Init => {
                self.state = LoopState::WaitingForEvents;
            },
            Event::CloseRequested { window } => {
                if self.manager.contains(window) {
                    actions.push(Action::CloseWindow { window });
                }
                self.manager.remove(window);
                if self.manager.is_empty() {
                    self.state = LoopState::Exiting;
                }
                assert(tracks(old(self).manager@, window) ==> actions@ == seq![
                    Action::CloseWindow { window },
                ]);
            },
            Event::Resized { window, width, height } => {
                match self.manager.resize(window, width, height) {
                    Ok(_) => {
                        actions.push(Action::ResizeWindow { window, width, height });
                        assert(actions@ == seq![Action::ResizeWindow { window, width, height }]);
                    },
                    Err(error) => {
                        return Err(error);
                    },
                }
            },
            Event::KeyReleased { key } => {
                match key {
                    Key::Escape => {
                        self.state = LoopState::Exiting;
                    },
                    Key::Other => {},
                }
            },
            Event::MainEventsCleared => {
                let due = self.manager.collect_redraws();
                let mut i: usize = 0;
                while i < due.len()
                    invariant
                        i <= due.len(),
                        actions@.len() == i,
                        forall|k: int|
                            0 <= k < i ==> actions@[k] == (Action::RequestRedraw { window: due@[k] }),
                    decreases due.len() - i,
                {
                    actions.push(Action::RequestRedraw { window: due[i] });
                    i = i + 1;
                }
                assert(actions@ == redraw_requests(due@));
            },
            Event::RedrawRequested { window } => {
                if self.manager.contains(window) {
                    actions.push(Action::Draw { window });
                    assert(actions@ == seq![Action::Draw { window }]);
                } else {
                    return Err(WindowError::UnknownWindow);
                }
            },
            Event::LoopDestroyed => {},
            Event::Other => {},
        }
        Ok(actions)
    }

    /// Draws window `window`, as a [`Action::Draw`] asks for. `activated`
    /// tells whether the graphics layer made the context of that window
    /// current. If it did, the frame to execute and then to present comes
    /// back. If it refused, the window is dropped as if it had been
    /// closed, and the loop exits if no window is left.
    pub fn draw(&mut self, window: WindowId, activated: bool) -> (result: Result<
        Frame,
        WindowError,
    >)
        requires
            old(self).wf(),
        ensures
            final(self).wf(),
            old(self).state is Exiting ==> final(self).state is Exiting,
            match result {
                Ok(frame) => {
                    &&& tracks(old(self).manager@, window)
                    &&& activated
                    &&& final(self).state == old(self).state
                    &&& final(self).manager@ == old(self).manager@
                    &&& final(self).manager.active() == Some(window)
                    &&& frame.clear == frame_clear()
                    &&& frame.passes@ == old(self).manager@[position(
                        old(self).manager@,
                        window,
                    )].renderer.passes()
                },
                Err(error) => if tracks(old(self).manager@, window) {
                    &&& !activated
                    &&& error == WindowError::ContextActivation
                    &&& final(self).manager@ == old(self).manager@.remove(
                        position(old(self).manager@, window),
                    )
                    &&& final(self).manager.active().is_none()
                    &&& final(self).state == (if final(self).manager@.len() == 0 {
                        LoopState::Exiting
                    } else {
                        old(self).state
                    })
                } else {
                    &&& error == WindowError::UnknownWindow
                    &&& final(self).state == old(self).state
                    &&& same_windows(&old(self).manager, &final(self).manager)
                },
            },
    {
        let result = self.manager.draw(window, activated);
        match result {
            Err(WindowError::ContextActivation) => {
                self.manager.remove(window);
                if self.manager.is_empty() {
                    self.state = LoopState::Exiting;
                }
            },
            _ => {},
        }
        result
    }
}

} // verus!
