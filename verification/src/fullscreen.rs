//! Entering and leaving fullscreen, with the desktop's video mode saved on the
//! way in and restored on the way out.
//!
//! A change of mode may need answers from the server: the video mode that an
//! output is driven at, the window's frame extents, its position. The change
//! then stops with a [`Query`]; [`UnownedWindow::resume_fullscreen`] takes the
//! reply and goes on.

use crate::geometry::{hint_dimension, offset_saturating, saturate_i32, cast_dimension_to_hint};
use crate::monitor::{native_mode_of, same_fullscreen, share, targets_equal, Fullscreen, MonitorHandle};
use crate::protocol::{
    emit, ignored, no_calls, Ack, Call, CallView, Query, Reply, Request, CURRENT_TIME,
};
use crate::state::{StateData, Visibility};
use crate::window::{UnownedWindow, WindowModel};
use std::sync::Arc;
use vstd::prelude::*;

verus! {

/// What is left of a change of mode that waits for a reply.
#[derive(Debug, PartialEq, Eq)]
pub enum FullscreenPending {
    /// The change to `target` starts once the desktop's video mode is known.
    DesktopMode { target: Fullscreen },
    /// On the way in: the frame extents are needed to tell where the window is.
    EnterExtents { origin: (i32, i32) },
    /// On the way in: the window goes to `origin` once it is known where it is.
    EnterPosition { origin: (i32, i32) },
    /// On the way out: the frame extents are needed to put the window back.
    LeaveExtents { position: (i32, i32) },
}

/// How a step of a change of mode ends.
#[derive(Debug, PartialEq, Eq)]
pub enum FullscreenNext {
    /// Nothing is left to do.
    Finished,
    /// `query` is to be asked, and its reply handed over with `pending`.
    Ask { query: Query, pending: FullscreenPending },
}

/// One step of a change of mode: the calls to issue, then how it goes on.
#[derive(Debug, PartialEq, Eq)]
pub struct FullscreenStep {
    pub calls: Vec<Call>,
    pub next: FullscreenNext,
}

/// A step as a mathematical value, with the window as the step leaves it.
pub struct StepModel {
    pub window: WindowModel,
    pub calls: Seq<CallView>,
    pub next: FullscreenNext,
}

impl FullscreenPending {
    /// The query whose reply this waits for.
    pub open spec fn query(self) -> Query {
        match self {
            FullscreenPending::DesktopMode { target } => Query::CrtcMode {
                crtc: target_crtc(Some(target)),
            },
            FullscreenPending::EnterExtents { .. } => Query::FrameExtents,
            FullscreenPending::EnterPosition { .. } => Query::InnerPosition,
            FullscreenPending::LeaveExtents { .. } => Query::FrameExtents,
        }
    }
}

/// Whether a mode switches the output's video mode.
pub open spec fn exclusive(mode: Option<Fullscreen>) -> bool {
    mode matches Some(f) && f.is_exclusive()
}

/// The output that an exclusive target takes over; zero for any other target.
pub open spec fn target_crtc(target: Option<Fullscreen>) -> u32 {
    match target {
        Some(Fullscreen::Exclusive(m, _)) => m.id,
        _ => 0,
    }
}

impl WindowModel {
    /// The monitor that a mode covers: the one it names, else the one that
    /// the window was last seen on.
    pub open spec fn target_monitor(self, mode: Fullscreen) -> Arc<MonitorHandle> {
        match mode {
            Fullscreen::Exclusive(m, _) => m,
            Fullscreen::Borderless(Some(m)) => m,
            Fullscreen::Borderless(None) => self.state.last_monitor,
        }
    }

    /// Whether the frame extents must be measured before the window can be
    /// placed: the window manager places surfaces, and none are remembered.
    pub open spec fn position_needs_extents(self) -> bool {
        self.quirks.positions_surface && self.state.frame_extents is None
    }

    /// Where the window is asked to be so that its frame comes to lie at
    /// `(x, y)`: further right and down by the frame's left and top where
    /// the window manager places surfaces, `(x, y)` itself otherwise.
    pub open spec fn corrected_position(self, x: i32, y: i32) -> (i32, i32) {
        match self.state.frame_extents {
            Some(e) if self.quirks.positions_surface => (
                saturate_i32(x + hint_dimension(e.frame_extents.left)),
                saturate_i32(y + hint_dimension(e.frame_extents.top)),
            ),
            _ => (x, y),
        }
    }

    /// The call that moves the window's frame to `(x, y)`.
    pub open spec fn position_call(self, x: i32, y: i32) -> CallView {
        ignored(
            Request::ConfigureWindow {
                window: self.xwindow,
                x: Some(self.corrected_position(x, y).0),
                y: Some(self.corrected_position(x, y).1),
                width: None,
                height: None,
                stack_mode: None,
            },
        )
    }

    /// The message that sets or clears the fullscreen state; it is confirmed.
    pub open spec fn fullscreen_hint_call(self, fullscreen: bool) -> CallView {
        CallView {
            ack: Ack::Check,
            ..self.netwm_call(fullscreen, self.atoms.net_wm_state_fullscreen, 0)
        }
    }

    /// The call that gives the window the keyboard focus.
    pub open spec fn input_focus_call(self) -> CallView {
        ignored(Request::SetInputFocus { window: self.xwindow, time: CURRENT_TIME })
    }

    /// The end of a change that the server was told of: the frame extents are
    /// forgotten, since decorations may have come or gone.
    pub open spec fn finish(self, calls: Seq<CallView>) -> StepModel {
        StepModel {
            window: self.with_state(StateData { frame_extents: None, ..self.state }),
            calls,
            next: FullscreenNext::Finished,
        }
    }

    /// A step that changes nothing and issues nothing.
    pub open spec fn idle(self) -> StepModel {
        StepModel { window: self, calls: seq![], next: FullscreenNext::Finished }
    }

    /// The way out of fullscreen: the state is cleared first, then the window
    /// goes back to where it was, if that was noted.
    pub open spec fn leave(self, calls: Seq<CallView>) -> StepModel {
        let calls = calls.push(self.fullscreen_hint_call(false));
        match self.state.restore_position {
            None => self.finish(calls),
            Some(position) => {
                let w = self.with_state(StateData { restore_position: None, ..self.state });
                if w.position_needs_extents() {
                    StepModel {
                        window: w,
                        calls,
                        next: FullscreenNext::Ask {
                            query: Query::FrameExtents,
                            pending: FullscreenPending::LeaveExtents { position },
                        },
                    }
                } else {
                    w.finish(calls.push(w.position_call(position.0, position.1)))
                }
            },
        }
    }

    /// The query that tells where the window is: its frame extents where none
    /// are remembered, its inner position where they are.
    pub open spec fn locate(self, origin: (i32, i32), calls: Seq<CallView>) -> StepModel {
        if self.state.frame_extents is None {
            StepModel {
                window: self,
                calls,
                next: FullscreenNext::Ask {
                    query: Query::FrameExtents,
                    pending: FullscreenPending::EnterExtents { origin },
                },
            }
        } else {
            StepModel {
                window: self,
                calls,
                next: FullscreenNext::Ask {
                    query: Query::InnerPosition,
                    pending: FullscreenPending::EnterPosition { origin },
                },
            }
        }
    }

    /// The calls that `mode` adds before the window moves: an exclusive mode
    /// that the output knows switches the output to it. Outputs to the right
    /// of and below that output are not moved, so a mode larger than the
    /// desktop's may come to overlap them: a known limit, left as it is.
    pub open spec fn mode_switch(self, mode: Fullscreen, calls: Seq<CallView>) -> Seq<CallView> {
        match mode {
            Fullscreen::Exclusive(m, v) => match native_mode_of(m.video_modes@, v) {
                Some(native) => calls.push(
                    ignored(Request::SetCrtcConfig { crtc: m.id, mode: native }),
                ),
                None => calls,
            },
            Fullscreen::Borderless(_) => calls,
        }
    }

    /// Whether a target asks for a mode on the dummy monitor, which stands for
    /// "no monitor" and cannot be covered.
    pub open spec fn targets_dummy(self, target: Option<Fullscreen>) -> bool {
        target matches Some(mode) && self.target_monitor(mode).spec_is_dummy()
    }

    /// The way into fullscreen, up to the question where the window is.
    pub open spec fn enter(self, mode: Fullscreen, calls: Seq<CallView>) -> StepModel {
        self.locate(self.target_monitor(mode).position, self.mode_switch(mode, calls))
    }

    /// What a change to `target` does once the state holds the new mode.
    pub open spec fn apply_fullscreen(
        self,
        target: Option<Fullscreen>,
        calls: Seq<CallView>,
    ) -> StepModel {
        match target {
            None => self.leave(calls),
            Some(mode) => self.enter(mode, calls),
        }
    }

    /// The first step of a change to `target`. `desktop` is the video mode of
    /// the target's output, where it was asked for already.
    ///
    /// While the window is not visible the target is staged and nothing else
    /// happens. A target that is the current mode changes nothing, and neither
    /// does a mode on the dummy monitor: it is turned down without any effect,
    /// before anything is noted or asked. On the way into an exclusive mode
    /// from another kind, the desktop's video mode is asked for and then noted
    /// together with the new mode. On the way out of an exclusive mode into
    /// another kind, the noted video mode is restored and forgotten.
    pub open spec fn fullscreen_step(
        self,
        target: Option<Fullscreen>,
        desktop: Option<u32>,
    ) -> StepModel {
        let s = self.state;
        if s.visibility != Visibility::Yes {
            StepModel {
                window: self.with_state(StateData { desired_fullscreen: Some(target), ..s }),
                calls: seq![],
                next: FullscreenNext::Finished,
            }
        } else if same_fullscreen(s.fullscreen, target) {
            self.idle()
        } else if self.targets_dummy(target) {
            self.idle()
        } else if exclusive(target) && !exclusive(s.fullscreen) {
            let crtc = target_crtc(target);
            match desktop {
                None => StepModel {
                    window: self,
                    calls: seq![],
                    next: FullscreenNext::Ask {
                        query: Query::CrtcMode { crtc },
                        pending: FullscreenPending::DesktopMode { target: target->0 },
                    },
                },
                Some(mode) => self.with_state(
                    StateData { fullscreen: target, desktop_video_mode: Some((crtc, mode)), ..s },
                ).apply_fullscreen(target, seq![]),
            }
        } else if exclusive(s.fullscreen) && !exclusive(target) {
            self.with_state(
                StateData { fullscreen: target, desktop_video_mode: None, ..s },
            ).apply_fullscreen(
                target,
                match s.desktop_video_mode {
                    Some((crtc, mode)) => seq![ignored(Request::SetCrtcConfig { crtc, mode })],
                    None => seq![],
                },
            )
        } else {
            self.with_state(StateData { fullscreen: target, ..s }).apply_fullscreen(target, seq![])
        }
    }

    /// The step that follows a reply. A reply of another kind than the one
    /// waited for is no answer: the query stands.
    pub open spec fn fullscreen_resume(self, pending: FullscreenPending, reply: Reply) -> StepModel {
        match (pending, reply) {
            (FullscreenPending::DesktopMode { target }, Reply::CrtcMode { mode }) => {
                self.fullscreen_step(Some(target), Some(mode))
            },
            (FullscreenPending::EnterExtents { origin }, Reply::FrameExtents { extents }) => {
                self.with_state(
                    StateData { frame_extents: Some(extents), ..self.state },
                ).locate(origin, seq![])
            },
            (FullscreenPending::EnterPosition { origin }, Reply::InnerPosition { x, y }) => {
                match self.state.frame_extents {
                    None => self.locate(origin, seq![]),
                    Some(e) => {
                        let w = self.with_state(
                            StateData {
                                restore_position: Some(e.spec_inner_pos_to_outer(x, y)),
                                ..self.state
                            },
                        );
                        w.finish(
                            seq![
                                w.position_call(origin.0, origin.1),
                                w.fullscreen_hint_call(true),
                                w.input_focus_call(),
                            ],
                        )
                    },
                }
            },
            (FullscreenPending::LeaveExtents { position }, Reply::FrameExtents { extents }) => {
                let w = self.with_state(StateData { frame_extents: Some(extents), ..self.state });
                w.finish(seq![w.position_call(position.0, position.1)])
            },
            _ => StepModel {
                window: self,
                calls: seq![],
                next: FullscreenNext::Ask { query: pending.query(), pending },
            },
        }
    }

    /// What the server's word that the window's visibility changed does. A
    /// hidden window is unmapped again. A window that waited to be shown is
    /// visible from now on, and the mode that was staged for it, if any, is
    /// taken out and asked for.
    pub open spec fn visibility_notify_step(self) -> StepModel {
        match self.state.visibility {
            Visibility::No => StepModel {
                window: self,
                calls: seq![ignored(Request::UnmapWindow { window: self.xwindow })],
                next: FullscreenNext::Finished,
            },
            Visibility::Yes => self.idle(),
            Visibility::YesWait => {
                let w = self.with_state(
                    StateData {
                        visibility: Visibility::Yes,
                        desired_fullscreen: None,
                        ..self.state
                    },
                );
                match self.state.desired_fullscreen {
                    Some(target) => w.fullscreen_step(target, None),
                    None => w.idle(),
                }
            },
        }
    }
}

/// Whether a step and the window it left are what `model` says.
pub open spec fn step_is(window: WindowModel, step: FullscreenStep, model: StepModel) -> bool {
    &&& window == model.window
    &&& step.calls.deep_view() == model.calls
    &&& step.next == model.next
}

impl UnownedWindow {
    /// The call that moves the window's frame to `(x, y)`, or the query that
    /// must be answered first: where the window manager places surfaces and
    /// no frame extents are remembered, they have to be measured.
    pub fn set_position_inner(&self, x: i32, y: i32) -> (r: Result<Call, Query>)
        ensures
            match r {
                Ok(call) => !self@.position_needs_extents() && call.deep_view()
                    == self@.position_call(x, y),
                Err(query) => self@.position_needs_extents() && query == Query::FrameExtents,
            },
    {
        let mut x = x;
        let mut y = y;
        if self.quirks.positions_surface {
            match self.shared_state.data.frame_extents {
                Some(e) => {
                    x = offset_saturating(x, cast_dimension_to_hint(e.frame_extents.left));
                    y = offset_saturating(y, cast_dimension_to_hint(e.frame_extents.top));
                },
                None => {
                    return Err(Query::FrameExtents);
                },
            }
        }
        Ok(
            Call::ignore(
                Request::ConfigureWindow {
                    window: self.xwindow,
                    x: Some(x),
                    y: Some(y),
                    width: None,
                    height: None,
                    stack_mode: None,
                },
            ),
        )
    }

    /// The message that sets or clears the fullscreen state, and, where it
    /// sets it, the call that gives the window the keyboard focus, so that the
    /// display is not left locked without one.
    pub fn set_fullscreen_hint(&self, fullscreen: bool) -> (calls: Vec<Call>)
        ensures
            calls.deep_view() == if fullscreen {
                seq![self@.fullscreen_hint_call(true), self@.input_focus_call()]
            } else {
                seq![self@.fullscreen_hint_call(false)]
            },
    {
        let mut calls = no_calls();
        let mut hint = self.set_netwm(fullscreen, self.atoms.net_wm_state_fullscreen, 0);
        hint.ack = Ack::Check;
        emit(&mut calls, hint);
        if fullscreen {
            emit(
                &mut calls,
                Call::ignore(Request::SetInputFocus { window: self.xwindow, time: CURRENT_TIME }),
            );
        }
        calls
    }

    /// Ends a change that the server was told of.
    fn finish_fullscreen(&mut self, calls: Vec<Call>) -> (step: FullscreenStep)
        ensures
            step_is(final(self)@, step, old(self)@.finish(calls.deep_view())),
    {
        self.invalidate_cached_frame_extents();
        FullscreenStep { calls, next: FullscreenNext::Finished }
    }

    /// Asks where the window is.
    fn locate(&self, origin: (i32, i32), calls: Vec<Call>) -> (step: FullscreenStep)
        ensures
            step_is(self@, step, self@.locate(origin, calls.deep_view())),
    {
        match self.shared_state.data.frame_extents {
            None => FullscreenStep {
                calls,
                next: FullscreenNext::Ask {
                    query: Query::FrameExtents,
                    pending: FullscreenPending::EnterExtents { origin },
                },
            },
            Some(_) => FullscreenStep {
                calls,
                next: FullscreenNext::Ask {
                    query: Query::InnerPosition,
                    pending: FullscreenPending::EnterPosition { origin },
                },
            },
        }
    }

    /// The way out of fullscreen.
    fn leave_fullscreen(&mut self, calls: Vec<Call>) -> (step: FullscreenStep)
        ensures
            step_is(final(self)@, step, old(self)@.leave(calls.deep_view())),
    {
        let mut calls = calls;
        let mut hint = self.set_netwm(false, self.atoms.net_wm_state_fullscreen, 0);
        hint.ack = Ack::Check;
        emit(&mut calls, hint);
        proof {
            use_type_invariant(&self.shared_state);
        }
        match self.shared_state.data.restore_position {
            None => self.finish_fullscreen(calls),
            Some(position) => {
                self.shared_state.data.restore_position = None;
                match self.set_position_inner(position.0, position.1) {
                    Ok(call) => {
                        emit(&mut calls, call);
                        self.finish_fullscreen(calls)
                    },
                    Err(query) => FullscreenStep {
                        calls,
                        next: FullscreenNext::Ask {
                            query,
                            pending: FullscreenPending::LeaveExtents { position },
                        },
                    },
                }
            },
        }
    }

    /// The way into fullscreen, up to the question where the window is.
    fn enter_fullscreen(&self, mode: &Fullscreen, calls: Vec<Call>) -> (step: FullscreenStep)
        ensures
            step_is(self@, step, self@.enter(*mode, calls.deep_view())),
    {
        let mut calls = calls;
        let origin = match mode {
            Fullscreen::Exclusive(m, _) => m.position,
            Fullscreen::Borderless(Some(m)) => m.position,
            Fullscreen::Borderless(None) => self.shared_state.data.last_monitor.position,
        };
        if let Fullscreen::Exclusive(m, v) = mode {
            if let Some(native) = m.native_mode(v) {
                emit(&mut calls, Call::ignore(Request::SetCrtcConfig { crtc: m.id, mode: native }));
            }
        }
        self.locate(origin, calls)
    }

    /// The first step of a change to `fullscreen`; `desktop_mode` is the video
    /// mode of the target's output, where it was asked for already.
    pub fn set_fullscreen_inner(
        &mut self,
        fullscreen: Option<Fullscreen>,
        desktop_mode: Option<u32>,
    ) -> (step: FullscreenStep)
        ensures
            step_is(final(self)@, step, old(self)@.fullscreen_step(fullscreen, desktop_mode)),
    {
        proof {
            use_type_invariant(&self.shared_state);
        }
        match self.shared_state.data.visibility {
            Visibility::Yes => {},
            _ => {
                self.shared_state.data.desired_fullscreen = Some(fullscreen);
                return FullscreenStep { calls: no_calls(), next: FullscreenNext::Finished };
            },
        }
        if targets_equal(&self.shared_state.data.fullscreen, &fullscreen) {
            return FullscreenStep { calls: no_calls(), next: FullscreenNext::Finished };
        }
        // A mode on the dummy monitor is turned down before anything changes.
        let dummy = match &fullscreen {
            Some(Fullscreen::Exclusive(m, _)) => m.is_dummy(),
            Some(Fullscreen::Borderless(Some(m))) => m.is_dummy(),
            Some(Fullscreen::Borderless(None)) => self.shared_state.data.last_monitor.is_dummy(),
            None => false,
        };
        if dummy {
            return FullscreenStep { calls: no_calls(), next: FullscreenNext::Finished };
        }
        let was_exclusive = match &self.shared_state.data.fullscreen {
            Some(Fullscreen::Exclusive(_, _)) => true,
            _ => false,
        };
        let mut calls = no_calls();
        match fullscreen {
            Some(Fullscreen::Exclusive(m, v)) => {
                if !was_exclusive {
                    let crtc = m.native_id();
                    match desktop_mode {
                        None => {
                            return FullscreenStep {
                                calls,
                                next: FullscreenNext::Ask {
                                    query: Query::CrtcMode { crtc },
                                    pending: FullscreenPending::DesktopMode {
                                        target: Fullscreen::Exclusive(m, v),
                                    },
                                },
                            };
                        },
                        Some(mode) => {
                            self.shared_state.set_mode(
                                Some(Fullscreen::Exclusive(share(&m), v)),
                                Some((crtc, mode)),
                            );
                        },
                    }
                } else {
                    let kept = self.shared_state.data.desktop_video_mode;
                    self.shared_state.set_mode(Some(Fullscreen::Exclusive(share(&m), v)), kept);
                }
                self.enter_fullscreen(&Fullscreen::Exclusive(m, v), calls)
            },
            Some(Fullscreen::Borderless(m)) => {
                if was_exclusive {
                    if let Some((crtc, mode)) = self.shared_state.data.desktop_video_mode {
                        emit(&mut calls, Call::ignore(Request::SetCrtcConfig { crtc, mode }));
                    }
                }
                let target = Fullscreen::Borderless(m);
                self.shared_state.set_mode(Some(target.clone()), None);
                self.enter_fullscreen(&target, calls)
            },
            None => {
                if was_exclusive {
                    if let Some((crtc, mode)) = self.shared_state.data.desktop_video_mode {
                        emit(&mut calls, Call::ignore(Request::SetCrtcConfig { crtc, mode }));
                    }
                }
                self.shared_state.set_mode(None, None);
                self.leave_fullscreen(calls)
            },
        }
    }

    /// Starts a change to `fullscreen`.
    pub fn set_fullscreen(&mut self, fullscreen: Option<Fullscreen>) -> (step: FullscreenStep)
        ensures
            step_is(final(self)@, step, old(self)@.fullscreen_step(fullscreen, None)),
    {
        self.set_fullscreen_inner(fullscreen, None)
    }

    /// Goes on with a change of mode after the reply to its query.
    pub fn resume_fullscreen(&mut self, pending: FullscreenPending, reply: Reply) -> (step:
        FullscreenStep)
        ensures
            step_is(final(self)@, step, old(self)@.fullscreen_resume(pending, reply)),
    {
        proof {
            use_type_invariant(&self.shared_state);
        }
        match pending {
            FullscreenPending::DesktopMode { target } => match reply {
                Reply::CrtcMode { mode } => self.set_fullscreen_inner(Some(target), Some(mode)),
                _ => {
                    let crtc = match &target {
                        Fullscreen::Exclusive(m, _) => m.native_id(),
                        _ => 0,
                    };
                    FullscreenStep {
                        calls: no_calls(),
                        next: FullscreenNext::Ask {
                            query: Query::CrtcMode { crtc },
                            pending: FullscreenPending::DesktopMode { target },
                        },
                    }
                },
            },
            FullscreenPending::EnterExtents { origin } => match reply {
                Reply::FrameExtents { extents } => {
                    self.update_cached_frame_extents(extents);
                    self.locate(origin, no_calls())
                },
                _ => FullscreenStep {
                    calls: no_calls(),
                    next: FullscreenNext::Ask {
                        query: Query::FrameExtents,
                        pending: FullscreenPending::EnterExtents { origin },
                    },
                },
            },
            FullscreenPending::EnterPosition { origin } => match reply {
                Reply::InnerPosition { x, y } => match self.shared_state.data.frame_extents {
                    None => self.locate(origin, no_calls()),
                    Some(e) => {
                        self.shared_state.data.restore_position = Some(e.inner_pos_to_outer(x, y));
                        let mut calls = no_calls();
                        match self.set_position_inner(origin.0, origin.1) {
                            Ok(call) => emit(&mut calls, call),
                            Err(_) => {},
                        }
                        assert(calls.deep_view() == seq![self@.position_call(origin.0, origin.1)]);
                        let mut hint = self.set_netwm(true, self.atoms.net_wm_state_fullscreen, 0);
                        hint.ack = Ack::Check;
                        emit(&mut calls, hint);
                        emit(
                            &mut calls,
                            Call::ignore(
                                Request::SetInputFocus { window: self.xwindow, time: CURRENT_TIME },
                            ),
                        );
                        assert(calls.deep_view() == seq![
                            self@.position_call(origin.0, origin.1),
                            self@.fullscreen_hint_call(true),
                            self@.input_focus_call(),
                        ]);
                        self.finish_fullscreen(calls)
                    },
                },
                _ => FullscreenStep {
                    calls: no_calls(),
                    next: FullscreenNext::Ask {
                        query: Query::InnerPosition,
                        pending: FullscreenPending::EnterPosition { origin },
                    },
                },
            },
            FullscreenPending::LeaveExtents { position } => match reply {
                Reply::FrameExtents { extents } => {
                    self.update_cached_frame_extents(extents);
                    let mut calls = no_calls();
                    match self.set_position_inner(position.0, position.1) {
                        Ok(call) => emit(&mut calls, call),
                        Err(_) => {},
                    }
                    assert(calls.deep_view() == seq![self@.position_call(position.0, position.1)]);
                    self.finish_fullscreen(calls)
                },
                _ => FullscreenStep {
                    calls: no_calls(),
                    next: FullscreenNext::Ask {
                        query: Query::FrameExtents,
                        pending: FullscreenPending::LeaveExtents { position },
                    },
                },
            },
        }
    }

    /// Takes the server's word that the window's visibility changed.
    pub fn visibility_notify(&mut self) -> (step: FullscreenStep)
        ensures
            step_is(final(self)@, step, old(self)@.visibility_notify_step()),
            final(self)@.state.visibility == Visibility::Yes
                ==> final(self)@.state.desired_fullscreen is None,
    {
        proof {
            use_type_invariant(&self.shared_state);
        }
        match self.shared_state.data.visibility {
            Visibility::No => {
                let mut calls = no_calls();
                emit(&mut calls, Call::ignore(Request::UnmapWindow { window: self.xwindow }));
                FullscreenStep { calls, next: FullscreenNext::Finished }
            },
            Visibility::Yes => FullscreenStep { calls: no_calls(), next: FullscreenNext::Finished },
            Visibility::YesWait => {
                let staged = self.shared_state.take_staged();
                let step = match staged {
                    Some(target) => self.set_fullscreen(target),
                    None => FullscreenStep { calls: no_calls(), next: FullscreenNext::Finished },
                };
                proof {
                    use_type_invariant(&self.shared_state);
                }
                step
            },
        }
    }
}

} // verus!
