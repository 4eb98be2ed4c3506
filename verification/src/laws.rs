//! What holds of every window, whatever is asked of it and in whatever order.

use crate::cursor::{CursorGrabMode, GrabNext};
use crate::fullscreen::{exclusive, FullscreenPending};
use crate::monitor::{same_fullscreen, Fullscreen};
use crate::protocol::{CallView, Reply, Request};
use crate::state::Visibility;
use crate::window::WindowModel;
use vstd::prelude::*;

verus! {

/// Something that happens to a window and may touch its visibility or its
/// fullscreen mode.
pub enum Change {
    /// The application shows or hides the window.
    SetVisible(bool),
    /// The server says that the window's visibility changed.
    VisibilityNotify,
    /// The application asks for a fullscreen mode.
    SetFullscreen(Option<Fullscreen>),
    /// A change of mode goes on after a reply.
    Resume(FullscreenPending, Reply),
    /// The owner starts giving up the window.
    Close,
}

impl WindowModel {
    /// The window after a change.
    pub open spec fn after(self, change: Change) -> WindowModel {
        match change {
            Change::SetVisible(visible) => self.after_set_visible(visible),
            Change::VisibilityNotify => self.visibility_notify_step().window,
            Change::SetFullscreen(target) => self.fullscreen_step(target, None).window,
            Change::Resume(pending, reply) => self.fullscreen_resume(pending, reply).window,
            Change::Close => self.close_step().window,
        }
    }

    /// The window after a sequence of changes, first to last.
    pub open spec fn after_all(self, changes: Seq<Change>) -> WindowModel
        decreases changes.len(),
    {
        if changes.len() == 0 {
            self
        } else {
            self.after_all(changes.drop_last()).after(changes.last())
        }
    }
}

/// How many of the calls map a window.
pub open spec fn map_requests(calls: Seq<CallView>) -> nat
    decreases calls.len(),
{
    if calls.len() == 0 {
        0
    } else {
        map_requests(calls.drop_last()) + if calls.last().request is MapWindow {
            1nat
        } else {
            0nat
        }
    }
}

/// A change of mode keeps the state coherent, whatever the target and
/// whether or not the desktop's video mode is at hand.
pub proof fn lemma_fullscreen_step_coherent(
    w: WindowModel,
    target: Option<Fullscreen>,
    desktop: Option<u32>,
)
    requires
        w.state.coherent(),
    ensures
        w.fullscreen_step(target, desktop).window.state.coherent(),
{
}

/// Going on after a reply keeps the state coherent.
pub proof fn lemma_resume_coherent(w: WindowModel, pending: FullscreenPending, reply: Reply)
    requires
        w.state.coherent(),
    ensures
        w.fullscreen_resume(pending, reply).window.state.coherent(),
{
    if let FullscreenPending::DesktopMode { target } = pending {
        if let Reply::CrtcMode { mode } = reply {
            lemma_fullscreen_step_coherent(w, Some(target), Some(mode));
        }
    }
}

/// The server's word on the window's visibility keeps the state coherent.
pub proof fn lemma_notify_coherent(w: WindowModel)
    requires
        w.state.coherent(),
    ensures
        w.visibility_notify_step().window.state.coherent(),
{
    if w.state.visibility == Visibility::YesWait {
        let shown = w.with_state(
            crate::state::StateData {
                visibility: Visibility::Yes,
                desired_fullscreen: None,
                ..w.state
            },
        );
        if let Some(target) = w.state.desired_fullscreen {
            lemma_fullscreen_step_coherent(shown, target, None);
        }
    }
}

/// Giving up the window keeps the state coherent.
pub proof fn lemma_close_coherent(w: WindowModel)
    requires
        w.state.coherent(),
    ensures
        w.close_step().window.state.coherent(),
{
    lemma_fullscreen_step_coherent(w, None, None);
}

/// Every single change keeps the state coherent: a mode is staged only while
/// the window is not visible, and a desktop video mode is remembered exactly
/// while the mode is exclusive.
pub proof fn lemma_change_coherent(w: WindowModel, change: Change)
    requires
        w.state.coherent(),
    ensures
        w.after(change).state.coherent(),
{
    match change {
        Change::SetVisible(visible) => {
            assert(w.after_set_visible(visible).state.coherent());
        },
        Change::VisibilityNotify => {
            lemma_notify_coherent(w);
        },
        Change::SetFullscreen(target) => {
            lemma_fullscreen_step_coherent(w, target, None);
        },
        Change::Resume(pending, reply) => {
            lemma_resume_coherent(w, pending, reply);
        },
        Change::Close => {
            lemma_close_coherent(w);
        },
    }
}

/// After any sequence of changes to a window whose state was coherent, no
/// fullscreen mode is staged while the window is visible, and a desktop video
/// mode is remembered if and only if the mode in force is exclusive.
pub proof fn lemma_always_coherent(w: WindowModel, changes: Seq<Change>)
    requires
        w.state.coherent(),
    ensures
        w.after_all(changes).state.coherent(),
        w.after_all(changes).state.visibility == Visibility::Yes ==> w.after_all(
            changes,
        ).state.desired_fullscreen is None,
        w.after_all(changes).state.desktop_video_mode is Some <==> exclusive(
            w.after_all(changes).state.fullscreen,
        ),
    decreases changes.len(),
{
    if changes.len() > 0 {
        lemma_always_coherent(w, changes.drop_last());
        lemma_change_coherent(w.after_all(changes.drop_last()), changes.last());
    }
}

/// Once the server's word has made a window visible, nothing is staged: the
/// mode that was staged has been taken out, and asked for.
pub proof fn lemma_notify_consumes_staged(w: WindowModel)
    requires
        w.state.coherent(),
    ensures
        w.visibility_notify_step().window.state.visibility == Visibility::Yes
            ==> w.visibility_notify_step().window.state.desired_fullscreen is None,
        w.state.visibility == Visibility::YesWait ==> w.visibility_notify_step().window.state.visibility
            == Visibility::Yes,
{
    lemma_notify_coherent(w);
}

/// A fullscreen mode that is asked for while the window is not visible
/// reaches the server only after the server's word has made the window
/// visible: until then the request is staged, nothing is issued, and the
/// application is told the staged mode. Once the window is visible, the
/// server's word changes nothing any more, so a staged mode is asked for once.
pub proof fn lemma_staged_mode_waits_for_visibility(w: WindowModel, target: Option<Fullscreen>)
    requires
        w.state.visibility != Visibility::Yes,
    ensures
        w.fullscreen_step(target, None).calls == Seq::<CallView>::empty(),
        w.fullscreen_step(target, None).next is Finished,
        w.fullscreen_step(target, None).window.state.fullscreen == w.state.fullscreen,
        w.fullscreen_step(target, None).window.state.desired_fullscreen == Some(target),
        w.fullscreen_step(target, None).window.state.reported_fullscreen() == target,
        w.fullscreen_step(target, None).window.after_set_visible(true).state.desired_fullscreen
            == Some(target),
        w.state.visibility == Visibility::YesWait ==> w.fullscreen_step(
            target,
            None,
        ).window.visibility_notify_step() == w.with_state(
            crate::state::StateData {
                visibility: Visibility::Yes,
                desired_fullscreen: None,
                ..w.state
            },
        ).fullscreen_step(target, None),
        forall|v: WindowModel|
            v.state.visibility == Visibility::Yes ==> #[trigger] v.visibility_notify_step()
                == v.idle(),
{
}

/// A visible window in an exclusive mode that is asked for another kind of
/// mode, or for none, leaves the exclusive mode: it forgets the desktop video
/// mode and issues the call that restores it first. The one request that it
/// does not follow is a mode on the dummy monitor, which changes nothing, so
/// that the window stays in its exclusive mode with the video mode noted.
pub proof fn lemma_leaving_exclusive_restores(w: WindowModel, target: Option<Fullscreen>)
    requires
        w.state.coherent(),
        w.state.visibility == Visibility::Yes,
        exclusive(w.state.fullscreen),
        !exclusive(target),
    ensures
        w.state.desktop_video_mode is Some,
        w.targets_dummy(target) ==> w.fullscreen_step(target, None) == w.idle(),
        !w.targets_dummy(target) ==> {
            &&& w.fullscreen_step(target, None).window.state.fullscreen == target
            &&& w.fullscreen_step(target, None).window.state.desktop_video_mode is None
            &&& w.fullscreen_step(target, None).calls.len() > 0
            &&& w.state.desktop_video_mode matches Some(d) && w.fullscreen_step(
                target,
                None,
            ).calls[0].request == (Request::SetCrtcConfig { crtc: d.0, mode: d.1 })
        },
{
    assert(!same_fullscreen(w.state.fullscreen, target));
}

/// A mode on the dummy monitor is turned down: whatever mode the visible
/// window is in, nothing is issued, nothing is asked, and nothing changes.
pub proof fn lemma_dummy_monitor_is_turned_down(
    w: WindowModel,
    target: Option<Fullscreen>,
    desktop: Option<u32>,
)
    requires
        w.state.visibility == Visibility::Yes,
        w.targets_dummy(target),
    ensures
        w.fullscreen_step(target, desktop) == w.idle(),
        w.fullscreen_step(target, desktop).window == w,
        w.fullscreen_step(target, desktop).calls == Seq::<CallView>::empty(),
        w.fullscreen_step(target, desktop).next is Finished,
{
}

/// Showing a window twice in a row maps it once: the second request changes
/// nothing and issues nothing, and the first maps a hidden window exactly
/// once and a window that was shown already not at all.
pub proof fn lemma_show_twice_maps_once(w: WindowModel)
    ensures
        w.after_set_visible(true).set_visible_calls(true) == Seq::<CallView>::empty(),
        w.after_set_visible(true).after_set_visible(true) == w.after_set_visible(true),
        map_requests(
            w.set_visible_calls(true) + w.after_set_visible(true).set_visible_calls(true),
        ) == if w.state.visibility == Visibility::No {
            1nat
        } else {
            0nat
        },
{
    let first = w.set_visible_calls(true);
    assert(first + Seq::<CallView>::empty() =~= first);
    if w.state.visibility == Visibility::No {
        assert(first.drop_last().drop_last().drop_last() =~= Seq::<CallView>::empty());
        reveal_with_fuel(map_requests, 4);
        assert(first.drop_last().drop_last().len() == 1);
        assert(first.drop_last().len() == 2);
    }
}

/// Asking for the grab mode that is active is a no-op: nothing is issued,
/// the pointer is neither let go nor grabbed, and nothing changes.
pub proof fn lemma_same_grab_mode_is_noop(w: WindowModel, mode: CursorGrabMode)
    requires
        mode == w.cursor_grabbed_mode,
    ensures
        w.set_cursor_grab_calls(mode) == Seq::<CallView>::empty(),
        w.after_set_cursor_grab(mode) == w,
        w.set_cursor_grab_next(mode) is Done,
{
}

/// A refused grab leaves the grab mode free: the pointer was let go before
/// the grab was tried, and a failure does not bring the old mode back.
pub proof fn lemma_refused_grab_stays_free(w: WindowModel, status: crate::cursor::GrabStatus)
    requires
        w.cursor_grabbed_mode != CursorGrabMode::Confined,
        status != crate::cursor::GrabStatus::Success,
    ensures
        w.after_set_cursor_grab(CursorGrabMode::Confined).after_grab_reply(
            status,
        ).cursor_grabbed_mode == CursorGrabMode::Free,
        crate::cursor::grab_result(status) is Err,
{
}

} // verus!
