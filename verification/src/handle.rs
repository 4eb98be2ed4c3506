//! The handle that an application holds on a window.

use crate::creation::{
    creatable, creation, finds_screen_and_visual, Creation, FreshIds, Server, WindowAttributes,
};
use crate::error::RequestError;
use crate::fullscreen::{exclusive, step_is, FullscreenNext, FullscreenStep, StepModel};
use crate::host::ProcessInfo;
use crate::monitor::{Fullscreen, MonitorHandle};
use crate::protocol::{ignored, no_calls, Call, Request};
use crate::window::{UnownedWindow, WindowModel};
use std::sync::Arc;
use vstd::prelude::*;

verus! {

/// A window as its owner holds it. Giving it up takes two steps:
/// [`Window::close`], which undoes an exclusive fullscreen mode, and
/// [`Window::destroy`], which gives the call that destroys the window.
#[derive(Debug)]
pub struct Window(pub UnownedWindow);

impl WindowModel {
    /// What giving up the window does first: an exclusive mode, in force or
    /// staged, is left, so that the desktop's video mode comes back.
    pub open spec fn close_step(self) -> StepModel {
        if exclusive(self.state.reported_fullscreen()) {
            self.fullscreen_step(None, None)
        } else {
            self.idle()
        }
    }
}

impl Window {
    /// Creates a window; see [`UnownedWindow::new`].
    pub fn new(
        server: &Server,
        ids: FreshIds,
        process: &ProcessInfo,
        monitor: Arc<MonitorHandle>,
        attrs: WindowAttributes,
    ) -> (r: Result<(Window, Vec<Call>), RequestError>)
        requires
            finds_screen_and_visual(*server, attrs) ==> creatable(attrs),
        ensures
            match r {
                Ok(c) => creation(*server, ids, *process, monitor, attrs) matches Ok(m) && c.0.0@
                    == m.window && c.1.deep_view() == m.calls,
                Err(e) => creation(*server, ids, *process, monitor, attrs) matches Err(f) && e
                    == f,
            },
    {
        match UnownedWindow::new(server, ids, process, monitor, attrs) {
            Ok(c) => {
                let Creation { window, calls } = c;
                Ok((Window(window), calls))
            },
            Err(e) => Err(e),
        }
    }

    /// Starts giving up the window: an exclusive fullscreen mode is left
    /// first. The step is carried through like any change of mode.
    pub fn close(&mut self) -> (step: FullscreenStep)
        ensures
            step_is(final(self).0@, step, old(self).0@.close_step()),
    {
        let leave = match self.0.fullscreen() {
            Some(Fullscreen::Exclusive(_, _)) => true,
            _ => false,
        };
        if leave {
            self.0.set_fullscreen(None)
        } else {
            FullscreenStep { calls: no_calls(), next: FullscreenNext::Finished }
        }
    }

    /// The call that destroys the window on the server.
    pub fn destroy(&self) -> (call: Call)
        ensures
            call.deep_view() == ignored(Request::DestroyWindow { window: self.0@.xwindow }),
    {
        Call::ignore(Request::DestroyWindow { window: self.0.xwindow })
    }
}

} // verus!
