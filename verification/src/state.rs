//! What can change about a window after it was created.

use crate::creation::WindowAttributes;
use crate::geometry::{FrameExtentsHeuristic, Size};
use crate::ime::ImeCapabilities;
use crate::monitor::{clone_target, share, Fullscreen, MonitorHandle};
use std::sync::Arc;
use vstd::prelude::*;

verus! {

/// Whether a window is shown.
#[derive(Clone, Copy, Debug, PartialEq, Eq, Structural)]
pub enum Visibility {
    /// Hidden.
    No,
    /// Shown, and the server has said so.
    Yes,
    /// Asked to be shown; the server has not said so yet.
    YesWait,
}

/// The state of a window as plain data. A [`SharedState`] holds one that is
/// coherent, and is viewed as it.
#[derive(Debug)]
pub struct StateData {
    pub size: Option<(u32, u32)>,
    pub position: Option<(i32, i32)>,
    pub inner_position: Option<(i32, i32)>,
    pub inner_position_rel_parent: Option<(i32, i32)>,
    pub is_resizable: bool,
    pub is_decorated: bool,
    pub ime_capabilities: Option<ImeCapabilities>,
    pub last_monitor: Arc<MonitorHandle>,
    pub dpi_adjusted: Option<(u32, u32)>,
    /// The mode that the server was asked for.
    pub fullscreen: Option<Fullscreen>,
    /// The mode that was asked for while the window was not visible.
    pub desired_fullscreen: Option<Option<Fullscreen>>,
    /// Where the window was before it went fullscreen.
    pub restore_position: Option<(i32, i32)>,
    /// The output and the video mode it had before a window took it over.
    pub desktop_video_mode: Option<(u32, u32)>,
    pub frame_extents: Option<FrameExtentsHeuristic>,
    pub min_surface_size: Option<Size>,
    pub max_surface_size: Option<Size>,
    pub surface_resize_increments: Option<Size>,
    pub base_size: Option<Size>,
    pub visibility: Visibility,
    pub has_focus: bool,
    /// Whether the window takes pointer input; `None` until it was ever set.
    pub cursor_hittest: Option<bool>,
}

impl StateData {
    /// A fullscreen mode is staged only while the window is not visible.
    pub open spec fn staged_only_while_hidden(self) -> bool {
        self.desired_fullscreen is Some ==> self.visibility != Visibility::Yes
    }

    /// A desktop video mode is remembered exactly while the mode is exclusive.
    pub open spec fn desktop_mode_iff_exclusive(self) -> bool {
        self.desktop_video_mode is Some <==> (self.fullscreen matches Some(f) && f.is_exclusive())
    }

    /// What holds of every window's state.
    pub open spec fn coherent(self) -> bool {
        &&& self.staged_only_while_hidden()
        &&& self.desktop_mode_iff_exclusive()
    }

    /// The state of a window that was just created on `last_monitor`.
    pub open spec fn initial(
        last_monitor: Arc<MonitorHandle>,
        visible: bool,
        resizable: bool,
        decorations: bool,
    ) -> StateData {
        StateData {
            size: None,
            position: None,
            inner_position: None,
            inner_position_rel_parent: None,
            is_resizable: resizable,
            is_decorated: decorations,
            ime_capabilities: None,
            last_monitor,
            dpi_adjusted: None,
            fullscreen: None,
            desired_fullscreen: None,
            restore_position: None,
            desktop_video_mode: None,
            frame_extents: None,
            min_surface_size: None,
            max_surface_size: None,
            surface_resize_increments: None,
            base_size: None,
            visibility: if visible {
                Visibility::YesWait
            } else {
                Visibility::No
            },
            has_focus: false,
            cursor_hittest: None,
        }
    }

    /// The mode that an application is told: the staged one where there is one.
    pub open spec fn reported_fullscreen(self) -> Option<Fullscreen> {
        match self.desired_fullscreen {
            Some(f) => f,
            None => self.fullscreen,
        }
    }
}

/// The state of one window. It is coherent at all times.
#[derive(Debug)]
pub struct SharedState {
    pub(crate) data: StateData,
}

impl View for SharedState {
    type V = StateData;

    open(crate) spec fn view(&self) -> StateData {
        self.data
    }
}

impl SharedState {
    /// What every value of this type satisfies: its data is coherent.
    #[verifier::type_invariant]
    pub open(crate) spec fn inv(self) -> bool {
        self.data.coherent()
    }

    /// The state of a window that was just created on `last_monitor`: waiting
    /// to be shown where it is to be visible, hidden otherwise; resizable and
    /// decorated as asked; everything else unknown.
    pub fn new(last_monitor: Arc<MonitorHandle>, window_attributes: &WindowAttributes) -> (r:
        SharedState)
        ensures
            r@ == StateData::initial(
                last_monitor,
                window_attributes.visible,
                window_attributes.resizable,
                window_attributes.decorations,
            ),
            r@.coherent(),
    {
        let visibility = if window_attributes.visible {
            Visibility::YesWait
        } else {
            Visibility::No
        };
        SharedState {
            data: StateData {
                size: None,
                position: None,
                inner_position: None,
                inner_position_rel_parent: None,
                is_resizable: window_attributes.resizable,
                is_decorated: window_attributes.decorations,
                ime_capabilities: None,
                last_monitor,
                dpi_adjusted: None,
                fullscreen: None,
                desired_fullscreen: None,
                restore_position: None,
                desktop_video_mode: None,
                frame_extents: None,
                min_surface_size: None,
                max_surface_size: None,
                surface_resize_increments: None,
                base_size: None,
                visibility,
                has_focus: false,
                cursor_hittest: None,
            },
        }
    }

    /// Notes a new mode together with the desktop video mode that goes with it.
    pub(crate) fn set_mode(&mut self, fullscreen: Option<Fullscreen>, desktop: Option<(u32, u32)>)
        requires
            desktop is Some <==> (fullscreen matches Some(f) && f.is_exclusive()),
        ensures
            final(self)@ == (StateData {
                fullscreen,
                desktop_video_mode: desktop,
                ..old(self)@
            }),
    {
        proof {
            use_type_invariant(&*self);
        }
        // Both fields change in one assignment: either alone would break coherence.
        let staged = match &self.data.desired_fullscreen {
            Some(f) => Some(clone_target(f)),
            None => None,
        };
        self.data = StateData {
            size: self.data.size,
            position: self.data.position,
            inner_position: self.data.inner_position,
            inner_position_rel_parent: self.data.inner_position_rel_parent,
            is_resizable: self.data.is_resizable,
            is_decorated: self.data.is_decorated,
            ime_capabilities: self.data.ime_capabilities,
            last_monitor: share(&self.data.last_monitor),
            dpi_adjusted: self.data.dpi_adjusted,
            fullscreen,
            desired_fullscreen: staged,
            restore_position: self.data.restore_position,
            desktop_video_mode: desktop,
            frame_extents: self.data.frame_extents,
            min_surface_size: self.data.min_surface_size,
            max_surface_size: self.data.max_surface_size,
            surface_resize_increments: self.data.surface_resize_increments,
            base_size: self.data.base_size,
            visibility: self.data.visibility,
            has_focus: self.data.has_focus,
            cursor_hittest: self.data.cursor_hittest,
        };
    }

    /// Makes a window that waited to be shown visible, and takes out the mode
    /// that was staged for it.
    pub(crate) fn take_staged(&mut self) -> (r: Option<Option<Fullscreen>>)
        ensures
            r == old(self)@.desired_fullscreen,
            final(self)@ == (StateData {
                visibility: Visibility::Yes,
                desired_fullscreen: None,
                ..old(self)@
            }),
    {
        proof {
            use_type_invariant(&*self);
        }
        let staged = match &self.data.desired_fullscreen {
            Some(f) => Some(clone_target(f)),
            None => None,
        };
        self.data.desired_fullscreen = None;
        self.data.visibility = Visibility::Yes;
        staged
    }

    /// Notes the size constraints.
    pub(crate) fn set_constraints(
        &mut self,
        min: Option<Size>,
        max: Option<Size>,
        increments: Option<Size>,
        base: Option<Size>,
    )
        ensures
            final(self)@ == (StateData {
                min_surface_size: min,
                max_surface_size: max,
                surface_resize_increments: increments,
                base_size: base,
                ..old(self)@
            }),
    {
        proof {
            use_type_invariant(&*self);
        }
        self.data.min_surface_size = min;
        self.data.max_surface_size = max;
        self.data.surface_resize_increments = increments;
        self.data.base_size = base;
    }

    /// Stages a mode for a window that is not visible, with the position to
    /// come back to.
    pub(crate) fn stage(&mut self, target: Option<Fullscreen>, position: Option<(i32, i32)>)
        requires
            old(self)@.visibility != Visibility::Yes,
        ensures
            final(self)@ == (StateData {
                desired_fullscreen: Some(target),
                restore_position: position,
                ..old(self)@
            }),
    {
        proof {
            use_type_invariant(&*self);
        }
        self.data.desired_fullscreen = Some(target);
        self.data.restore_position = position;
    }

    /// Every state is coherent.
    pub fn coherence(&self)
        ensures
            self@.coherent(),
    {
        proof {
            use_type_invariant(self);
        }
    }

    pub fn size(&self) -> (r: Option<(u32, u32)>)
        ensures
            r == self@.size,
    {
        self.data.size
    }

    /// Notes the size that the server reported.
    pub fn set_size(&mut self, size: Option<(u32, u32)>)
        ensures
            final(self)@ == (StateData { size, ..old(self)@ }),
    {
        proof {
            use_type_invariant(&*self);
        }
        self.data.size = size;
    }

    pub fn position(&self) -> (r: Option<(i32, i32)>)
        ensures
            r == self@.position,
    {
        self.data.position
    }

    /// Notes the position that the server reported.
    pub fn set_position(&mut self, position: Option<(i32, i32)>)
        ensures
            final(self)@ == (StateData { position, ..old(self)@ }),
    {
        proof {
            use_type_invariant(&*self);
        }
        self.data.position = position;
    }

    pub fn inner_position(&self) -> (r: Option<(i32, i32)>)
        ensures
            r == self@.inner_position,
    {
        self.data.inner_position
    }

    /// Notes the position of the surface that the server reported.
    pub fn set_inner_position(&mut self, inner_position: Option<(i32, i32)>)
        ensures
            final(self)@ == (StateData { inner_position, ..old(self)@ }),
    {
        proof {
            use_type_invariant(&*self);
        }
        self.data.inner_position = inner_position;
    }

    pub fn inner_position_rel_parent(&self) -> (r: Option<(i32, i32)>)
        ensures
            r == self@.inner_position_rel_parent,
    {
        self.data.inner_position_rel_parent
    }

    /// Notes the position of the surface in its parent.
    pub fn set_inner_position_rel_parent(&mut self, inner_position_rel_parent: Option<(i32, i32)>)
        ensures
            final(self)@ == (StateData { inner_position_rel_parent, ..old(self)@ }),
    {
        proof {
            use_type_invariant(&*self);
        }
        self.data.inner_position_rel_parent = inner_position_rel_parent;
    }

    pub fn dpi_adjusted(&self) -> (r: Option<(u32, u32)>)
        ensures
            r == self@.dpi_adjusted,
    {
        self.data.dpi_adjusted
    }

    /// Notes the size that a change of scale factor led to.
    pub fn set_dpi_adjusted(&mut self, dpi_adjusted: Option<(u32, u32)>)
        ensures
            final(self)@ == (StateData { dpi_adjusted, ..old(self)@ }),
    {
        proof {
            use_type_invariant(&*self);
        }
        self.data.dpi_adjusted = dpi_adjusted;
    }

    pub fn has_focus(&self) -> (r: bool)
        ensures
            r == self@.has_focus,
    {
        self.data.has_focus
    }

    /// Notes whether the window has the keyboard focus.
    pub fn set_has_focus(&mut self, has_focus: bool)
        ensures
            final(self)@ == (StateData { has_focus, ..old(self)@ }),
    {
        proof {
            use_type_invariant(&*self);
        }
        self.data.has_focus = has_focus;
    }

    /// Notes the monitor that the window was seen on.
    pub fn set_last_monitor(&mut self, last_monitor: Arc<MonitorHandle>)
        ensures
            final(self)@ == (StateData { last_monitor, ..old(self)@ }),
    {
        proof {
            use_type_invariant(&*self);
        }
        self.data.last_monitor = last_monitor;
    }

    pub fn is_resizable(&self) -> (r: bool)
        ensures
            r == self@.is_resizable,
    {
        self.data.is_resizable
    }

    pub fn is_decorated(&self) -> (r: bool)
        ensures
            r == self@.is_decorated,
    {
        self.data.is_decorated
    }

    pub fn min_surface_size(&self) -> (r: Option<Size>)
        ensures
            r == self@.min_surface_size,
    {
        self.data.min_surface_size
    }

    pub fn max_surface_size(&self) -> (r: Option<Size>)
        ensures
            r == self@.max_surface_size,
    {
        self.data.max_surface_size
    }

    pub fn surface_resize_increments(&self) -> (r: Option<Size>)
        ensures
            r == self@.surface_resize_increments,
    {
        self.data.surface_resize_increments
    }

    pub fn base_size(&self) -> (r: Option<Size>)
        ensures
            r == self@.base_size,
    {
        self.data.base_size
    }

    pub fn ime_capabilities(&self) -> (r: Option<ImeCapabilities>)
        ensures
            r == self@.ime_capabilities,
    {
        self.data.ime_capabilities
    }

    pub fn cursor_hittest(&self) -> (r: Option<bool>)
        ensures
            r == self@.cursor_hittest,
    {
        self.data.cursor_hittest
    }

    pub fn visibility(&self) -> (r: Visibility)
        ensures
            r == self@.visibility,
    {
        self.data.visibility
    }

    pub fn fullscreen(&self) -> (r: Option<Fullscreen>)
        ensures
            r == self@.fullscreen,
    {
        clone_target(&self.data.fullscreen)
    }

    pub fn desired_fullscreen(&self) -> (r: Option<Option<Fullscreen>>)
        ensures
            r == self@.desired_fullscreen,
            r is Some ==> self@.visibility != Visibility::Yes,
    {
        proof {
            use_type_invariant(self);
        }
        match &self.data.desired_fullscreen {
            Some(f) => Some(clone_target(f)),
            None => None,
        }
    }

    pub fn desktop_video_mode(&self) -> (r: Option<(u32, u32)>)
        ensures
            r == self@.desktop_video_mode,
            r is Some <==> (self@.fullscreen matches Some(f) && f.is_exclusive()),
    {
        proof {
            use_type_invariant(self);
        }
        self.data.desktop_video_mode
    }

    pub fn restore_position(&self) -> (r: Option<(i32, i32)>)
        ensures
            r == self@.restore_position,
    {
        self.data.restore_position
    }

    pub fn frame_extents(&self) -> (r: Option<FrameExtentsHeuristic>)
        ensures
            r == self@.frame_extents,
    {
        self.data.frame_extents
    }

    pub fn last_monitor(&self) -> (r: Arc<MonitorHandle>)
        ensures
            r == self@.last_monitor,
    {
        share(&self.data.last_monitor)
    }
}

} // verus!
