//! The cursor of a window: its image, its visibility, and how it is confined.

use crate::error::{GrabFailure, NotSupportedError, OsError, RequestError};
use crate::geometry::PhysicalSize;
use crate::protocol::{
    emit, ignored, no_calls, Call, CallView, Rectangle, Request, CURRENT_TIME, GRAB_EVENTS,
    grab_event_mask,
};
use crate::state::StateData;
use crate::window::{UnownedWindow, WindowModel};
use vstd::prelude::*;

verus! {

/// One of the named cursor shapes, by its index among them.
#[derive(Clone, Copy, Debug, PartialEq, Eq, Structural)]
pub struct CursorIcon {
    pub index: u32,
}

/// A cursor image that the application uploaded, by its resource id.
#[derive(Clone, Copy, Debug, PartialEq, Eq, Structural)]
pub struct CustomCursor {
    pub id: u32,
}

/// The cursor an application asks for.
#[derive(Clone, Copy, Debug, PartialEq, Eq, Structural)]
pub enum Cursor {
    Icon(CursorIcon),
    Custom(CustomCursor),
    /// A custom cursor that was made for another backend.
    Foreign,
}

/// The cursor image that a window has selected.
#[derive(Clone, Copy, Debug, PartialEq, Eq, Structural)]
pub enum SelectedCursor {
    Custom(CustomCursor),
    Named(CursorIcon),
}

/// How the pointer is held to a window.
#[derive(Clone, Copy, Debug, PartialEq, Eq, Structural)]
pub enum CursorGrabMode {
    /// Not at all.
    Free,
    /// It cannot leave the window.
    Confined,
    /// It cannot move.
    Locked,
}

impl SelectedCursor {
    /// The default arrow.
    pub open spec fn spec_default() -> SelectedCursor {
        SelectedCursor::Named(CursorIcon { index: 0 })
    }
}

impl Default for SelectedCursor {
    /// The default arrow.
    fn default() -> (r: SelectedCursor)
        ensures
            r == SelectedCursor::spec_default(),
    {
        SelectedCursor::Named(CursorIcon { index: 0 })
    }
}

/// What the server says to a request to grab the pointer.
#[derive(Clone, Copy, Debug, PartialEq, Eq, Structural)]
pub enum GrabStatus {
    Success,
    AlreadyGrabbed,
    InvalidTime,
    NotViewable,
    Frozen,
}

/// A request to grab the pointer, confined to `confine_to`. Pointer and
/// keyboard events go on being delivered while the grab lasts.
#[derive(Clone, Copy, Debug, PartialEq, Eq, Structural)]
pub struct GrabPointer {
    pub owner_events: bool,
    pub grab_window: u32,
    pub event_mask: u32,
    pub confine_to: u32,
    pub cursor: u32,
    pub time: u32,
}

/// How a change of the grab mode goes on after its calls.
#[derive(Clone, Copy, Debug, PartialEq, Eq)]
pub enum GrabNext {
    /// It is over, with this result.
    Done(Result<(), RequestError>),
    /// The pointer is to be grabbed, and the server's answer handed to
    /// [`UnownedWindow::finish_cursor_grab`].
    Grab(GrabPointer),
}

/// A change of the grab mode: the calls to issue, then how it goes on.
#[derive(Debug, PartialEq, Eq)]
pub struct GrabPlan {
    pub calls: Vec<Call>,
    pub next: GrabNext,
}

/// Why the server refused a grab; nothing where it did not.
pub open spec fn grab_failure(status: GrabStatus) -> Option<GrabFailure> {
    match status {
        GrabStatus::Success => None,
        GrabStatus::AlreadyGrabbed => Some(GrabFailure::AlreadyGrabbed),
        GrabStatus::InvalidTime => Some(GrabFailure::InvalidTime),
        GrabStatus::NotViewable => Some(GrabFailure::NotViewable),
        GrabStatus::Frozen => Some(GrabFailure::Frozen),
    }
}

/// The result of a grab that the server answered with `status`.
pub open spec fn grab_result(status: GrabStatus) -> Result<(), RequestError> {
    match grab_failure(status) {
        None => Ok(()),
        Some(f) => Err(RequestError::Os(OsError::Grab(f))),
    }
}

/// The rectangle that takes input in a window of the given size: all of it,
/// as far as sixteen bits reach.
pub open spec fn full_rectangle(size: PhysicalSize) -> Rectangle {
    Rectangle { x: 0, y: 0, width: size.width as u16, height: size.height as u16 }
}

impl WindowModel {
    /// Whether a change to `mode` is a change at all, and one that can be made.
    pub open spec fn grab_changes(self, mode: CursorGrabMode) -> bool {
        mode != CursorGrabMode::Locked && mode != self.cursor_grabbed_mode
    }

    /// The window after the first part of a change of the grab mode: the
    /// pointer is let go, whatever comes next.
    pub open spec fn after_set_cursor_grab(self, mode: CursorGrabMode) -> WindowModel {
        if self.grab_changes(mode) {
            WindowModel { cursor_grabbed_mode: CursorGrabMode::Free, ..self }
        } else {
            self
        }
    }

    /// The calls of a change of the grab mode: the pointer is let go first,
    /// so that a stale grab cannot stand in the way of a new one.
    pub open spec fn set_cursor_grab_calls(self, mode: CursorGrabMode) -> Seq<CallView> {
        if !self.grab_changes(mode) {
            seq![]
        } else if mode == CursorGrabMode::Free {
            seq![
                ignored(Request::UngrabPointer { time: CURRENT_TIME }),
                ignored(Request::Flush),
            ]
        } else {
            seq![ignored(Request::UngrabPointer { time: CURRENT_TIME })]
        }
    }

    /// The grab that confines the pointer to the window.
    pub open spec fn confining_grab(self) -> GrabPointer {
        GrabPointer {
            owner_events: true,
            grab_window: self.xwindow,
            event_mask: GRAB_EVENTS,
            confine_to: self.xwindow,
            cursor: 0,
            time: CURRENT_TIME,
        }
    }

    /// How a change of the grab mode goes on after its calls.
    pub open spec fn set_cursor_grab_next(self, mode: CursorGrabMode) -> GrabNext {
        if mode == CursorGrabMode::Locked {
            GrabNext::Done(Err(RequestError::NotSupported(NotSupportedError::LockedCursor)))
        } else if mode == self.cursor_grabbed_mode || mode == CursorGrabMode::Free {
            GrabNext::Done(Ok(()))
        } else {
            GrabNext::Grab(self.confining_grab())
        }
    }

    /// The window after the server answered a confining grab.
    pub open spec fn after_grab_reply(self, status: GrabStatus) -> WindowModel {
        if status == GrabStatus::Success {
            WindowModel { cursor_grabbed_mode: CursorGrabMode::Confined, ..self }
        } else {
            self
        }
    }

    /// The window after a cursor was selected.
    pub open spec fn after_set_cursor(self, cursor: Cursor) -> WindowModel {
        match cursor {
            Cursor::Icon(icon) => WindowModel {
                selected_cursor: SelectedCursor::Named(icon),
                ..self
            },
            Cursor::Custom(c) => WindowModel { selected_cursor: SelectedCursor::Custom(c), ..self },
            Cursor::Foreign => self,
        }
    }

    /// The calls that show a newly selected cursor. A hidden cursor stays
    /// hidden, and a named shape that is selected already is not sent again.
    pub open spec fn set_cursor_calls(self, cursor: Cursor) -> Seq<CallView> {
        match cursor {
            Cursor::Icon(icon) => if self.cursor_visible && self.selected_cursor
                != SelectedCursor::Named(icon) {
                seq![ignored(Request::SetCursorIcon { window: self.xwindow, icon: Some(icon) })]
            } else {
                seq![]
            },
            Cursor::Custom(c) => if self.cursor_visible {
                seq![ignored(Request::SetCustomCursor { window: self.xwindow, cursor: c })]
            } else {
                seq![]
            },
            Cursor::Foreign => seq![],
        }
    }

    /// The call that shows the selected cursor.
    pub open spec fn show_cursor_call(self) -> CallView {
        match self.selected_cursor {
            SelectedCursor::Custom(c) => ignored(
                Request::SetCustomCursor { window: self.xwindow, cursor: c },
            ),
            SelectedCursor::Named(icon) => ignored(
                Request::SetCursorIcon { window: self.xwindow, icon: Some(icon) },
            ),
        }
    }

    /// The calls that show or hide the cursor. Hiding shows no image; showing
    /// brings back the selected one, which was never forgotten.
    pub open spec fn set_cursor_visible_calls(self, visible: bool) -> Seq<CallView> {
        if visible == self.cursor_visible {
            seq![]
        } else if visible {
            seq![self.show_cursor_call()]
        } else {
            seq![ignored(Request::SetCursorIcon { window: self.xwindow, icon: None })]
        }
    }

    /// The call that lets all of the window take pointer input, or none of it.
    pub open spec fn hittest_call(self, hittest: bool, size: PhysicalSize) -> CallView {
        ignored(
            Request::SetInputRegion {
                window: self.xwindow,
                rectangle: if hittest {
                    Some(full_rectangle(size))
                } else {
                    None
                },
            },
        )
    }

    /// The calls that move the pointer to a place in the window.
    pub open spec fn cursor_position_calls(self, x: i32, y: i32) -> Seq<CallView> {
        seq![
            ignored(Request::WarpPointer { window: self.xwindow, x: x as i16, y: y as i16 }),
            ignored(Request::Flush),
        ]
    }
}

impl GrabStatus {
    /// The result of a grab that the server answered with this status.
    pub fn result(self) -> (r: Result<(), RequestError>)
        ensures
            r == grab_result(self),
    {
        match self {
            GrabStatus::Success => Ok(()),
            GrabStatus::AlreadyGrabbed => Err(
                RequestError::Os(OsError::Grab(GrabFailure::AlreadyGrabbed)),
            ),
            GrabStatus::InvalidTime => Err(RequestError::Os(OsError::Grab(GrabFailure::InvalidTime))),
            GrabStatus::NotViewable => Err(RequestError::Os(OsError::Grab(GrabFailure::NotViewable))),
            GrabStatus::Frozen => Err(RequestError::Os(OsError::Grab(GrabFailure::Frozen))),
        }
    }
}

impl UnownedWindow {
    /// Selects a cursor, and shows it unless the cursor is hidden.
    pub fn set_cursor(&mut self, cursor: Cursor) -> (calls: Vec<Call>)
        ensures
            final(self)@ == old(self)@.after_set_cursor(cursor),
            calls.deep_view() == old(self)@.set_cursor_calls(cursor),
    {
        let mut calls = no_calls();
        match cursor {
            Cursor::Icon(icon) => {
                let old_cursor = self.selected_cursor;
                self.selected_cursor = SelectedCursor::Named(icon);
                if SelectedCursor::Named(icon) != old_cursor && self.cursor_visible {
                    emit(
                        &mut calls,
                        Call::ignore(
                            Request::SetCursorIcon { window: self.xwindow, icon: Some(icon) },
                        ),
                    );
                }
            },
            Cursor::Custom(c) => {
                if self.cursor_visible {
                    emit(
                        &mut calls,
                        Call::ignore(Request::SetCustomCursor { window: self.xwindow, cursor: c }),
                    );
                }
                self.selected_cursor = SelectedCursor::Custom(c);
            },
            Cursor::Foreign => {},
        }
        calls
    }

    /// Starts a change of the grab mode. Locking the pointer is not supported
    /// and changes nothing. The mode that is active already changes nothing
    /// either. Any other change lets the pointer go first; confining it then
    /// takes a grab, whose answer decides.
    pub fn set_cursor_grab(&mut self, mode: CursorGrabMode) -> (plan: GrabPlan)
        ensures
            final(self)@ == old(self)@.after_set_cursor_grab(mode),
            plan.calls.deep_view() == old(self)@.set_cursor_grab_calls(mode),
            plan.next == old(self)@.set_cursor_grab_next(mode),
    {
        let mut calls = no_calls();
        if mode == CursorGrabMode::Locked {
            return GrabPlan {
                calls,
                next: GrabNext::Done(
                    Err(RequestError::NotSupported(NotSupportedError::LockedCursor)),
                ),
            };
        }
        if mode == self.cursor_grabbed_mode {
            return GrabPlan { calls, next: GrabNext::Done(Ok(())) };
        }
        emit(&mut calls, Call::ignore(Request::UngrabPointer { time: CURRENT_TIME }));
        self.cursor_grabbed_mode = CursorGrabMode::Free;
        match mode {
            CursorGrabMode::Confined => {
                let grab = GrabPointer {
                    owner_events: true,
                    grab_window: self.xwindow,
                    event_mask: grab_event_mask(),
                    confine_to: self.xwindow,
                    cursor: 0,
                    time: CURRENT_TIME,
                };
                GrabPlan { calls, next: GrabNext::Grab(grab) }
            },
            _ => {
                emit(&mut calls, Call::ignore(Request::Flush));
                GrabPlan { calls, next: GrabNext::Done(Ok(())) }
            },
        }
    }

    /// Takes the server's answer to a confining grab: on success the pointer
    /// is confined; on any failure the grab mode stays as it is and the
    /// failure is returned.
    pub fn finish_cursor_grab(&mut self, status: GrabStatus) -> (r: Result<(), RequestError>)
        ensures
            final(self)@ == old(self)@.after_grab_reply(status),
            r == grab_result(status),
    {
        let result = status.result();
        if result.is_ok() {
            self.cursor_grabbed_mode = CursorGrabMode::Confined;
        }
        result
    }

    /// The cursor image that is selected, shown or not.
    pub fn selected_cursor(&self) -> (r: SelectedCursor)
        ensures
            r == self@.selected_cursor,
    {
        self.selected_cursor
    }

    /// Whether the cursor is shown.
    pub fn is_cursor_visible(&self) -> (r: bool)
        ensures
            r == self@.cursor_visible,
    {
        self.cursor_visible
    }

    /// How the pointer is held at present.
    pub fn cursor_grab_mode(&self) -> (r: CursorGrabMode)
        ensures
            r == self@.cursor_grabbed_mode,
    {
        self.cursor_grabbed_mode
    }

    /// Shows or hides the cursor.
    pub fn set_cursor_visible(&mut self, visible: bool) -> (calls: Vec<Call>)
        ensures
            final(self)@ == (WindowModel { cursor_visible: visible, ..old(self)@ }),
            calls.deep_view() == old(self)@.set_cursor_visible_calls(visible),
    {
        let mut calls = no_calls();
        if visible == self.cursor_visible {
            return calls;
        }
        self.cursor_visible = visible;
        let request = if visible {
            match self.selected_cursor {
                SelectedCursor::Custom(c) => Request::SetCustomCursor {
                    window: self.xwindow,
                    cursor: c,
                },
                SelectedCursor::Named(icon) => Request::SetCursorIcon {
                    window: self.xwindow,
                    icon: Some(icon),
                },
            }
        } else {
            Request::SetCursorIcon { window: self.xwindow, icon: None }
        };
        emit(&mut calls, Call::ignore(request));
        calls
    }

    /// The calls that move the pointer to `(x, y)` in the window. Each
    /// coordinate is cut to its low sixteen bits.
    pub fn set_cursor_position_physical(&self, x: i32, y: i32) -> (calls: Vec<Call>)
        ensures
            calls.deep_view() == self@.cursor_position_calls(x, y),
    {
        let mut calls = no_calls();
        emit(
            &mut calls,
            Call::ignore(
                Request::WarpPointer {
                    window: self.xwindow,
                    x: #[verifier::truncate]
                    (x as i16),
                    y: #[verifier::truncate]
                    (y as i16),
                },
            ),
        );
        emit(&mut calls, Call::ignore(Request::Flush));
        calls
    }

    /// The calls that move the pointer to `position` in the window.
    pub fn set_cursor_position(&self, position: crate::geometry::PhysicalPosition) -> (calls: Vec<
        Call,
    >)
        ensures
            calls.deep_view() == self@.cursor_position_calls(position.x, position.y),
    {
        self.set_cursor_position_physical(position.x, position.y)
    }

    /// The call that lets all of a window of `size` take pointer input, or
    /// none of it. Each side is cut to its low sixteen bits.
    pub fn cursor_hittest_region(&self, hittest: bool, size: PhysicalSize) -> (call: Call)
        ensures
            call.deep_view() == self@.hittest_call(hittest, size),
    {
        let rectangle = if hittest {
            Some(
                Rectangle {
                    x: 0,
                    y: 0,
                    width: #[verifier::truncate]
                    (size.width as u16),
                    height: #[verifier::truncate]
                    (size.height as u16),
                },
            )
        } else {
            None
        };
        Call::ignore(Request::SetInputRegion { window: self.xwindow, rectangle })
    }

    /// Notes whether the window takes pointer input, once the region was
    /// sent. Where it could not be sent (`issued` is false), nothing is noted
    /// and the request counts as ignored.
    pub fn set_cursor_hittest(&mut self, hittest: bool, issued: bool) -> (r: Result<
        (),
        RequestError,
    >)
        ensures
            r == if issued {
                Ok::<(), RequestError>(())
            } else {
                Err::<(), RequestError>(RequestError::Ignored)
            },
            final(self)@ == if issued {
                old(self)@.with_state(
                    StateData { cursor_hittest: Some(hittest), ..old(self)@.state },
                )
            } else {
                old(self)@
            },
    {
        if !issued {
            return Err(RequestError::Ignored);
        }
        proof {
            use_type_invariant(&self.shared_state);
        }
        self.shared_state.data.cursor_hittest = Some(hittest);
        Ok(())
    }

    /// Whether the window takes pointer input; `None` until it was ever set.
    pub fn cursor_hittest(&self) -> (r: Option<bool>)
        ensures
            r == self@.state.cursor_hittest,
    {
        self.shared_state.data.cursor_hittest
    }
}

} // verus!
