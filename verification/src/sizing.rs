//! Where a window is and how large it may be: positions, sizes, size hints,
//! and what follows when the scale factor of its monitor changes.

use crate::cursor::CursorGrabMode;
use crate::geometry::{
    cast_dimension_to_hint, cast_size_to_hint, cast_size_to_unsigned_hint, hint_dimension,
    hint_size, rescale_size_to_hint, rescaled_hint, HintSize, PhysicalPosition, PhysicalSize,
    PixelRange, Scale, ScaleFactor, Size,
};
use crate::hints::HintsPatch;
use crate::monitor::MonitorHandle;
use crate::protocol::{
    emit, emit_all, ignored, no_calls, wm_message, Call, CallView, ClientData, Query, Request,
    CURRENT_TIME, MOVERESIZE_BOTTOM, MOVERESIZE_BOTTOMLEFT, MOVERESIZE_BOTTOMRIGHT,
    MOVERESIZE_LEFT, MOVERESIZE_MOVE, MOVERESIZE_RIGHT, MOVERESIZE_TOP, MOVERESIZE_TOPLEFT,
    MOVERESIZE_TOPRIGHT,
};
use crate::state::StateData;
use crate::window::{UnownedWindow, WindowModel};
use vstd::prelude::*;

verus! {

/// The edge or corner that a window is resized by.
#[derive(Clone, Copy, Debug, PartialEq, Eq, Structural)]
pub enum ResizeDirection {
    East,
    North,
    NorthEast,
    NorthWest,
    South,
    SouthEast,
    SouthWest,
    West,
}

/// The part of a window that no system interface covers.
#[derive(Clone, Copy, Debug, PartialEq, Eq, Structural)]
pub struct PhysicalInsets {
    pub top: u32,
    pub left: u32,
    pub bottom: u32,
    pub right: u32,
}

/// A resize: the calls to issue, and whether the input region must be set
/// again afterwards, from the size that the window then has.
#[derive(Debug, PartialEq, Eq)]
pub struct ResizePlan {
    pub calls: Vec<Call>,
    pub reapply_hittest: bool,
}

/// What a change of scale factor asks of a window.
#[derive(Debug, PartialEq, Eq)]
pub struct DpiChange {
    /// The number that the window's size is to be multiplied by.
    pub ratio: Scale,
    /// The call that rescales the size hints.
    pub hints: Call,
}

/// The number that names an edge or corner to the window manager.
pub open spec fn resize_action(direction: ResizeDirection) -> u32 {
    match direction {
        ResizeDirection::East => MOVERESIZE_RIGHT,
        ResizeDirection::North => MOVERESIZE_TOP,
        ResizeDirection::NorthEast => MOVERESIZE_TOPRIGHT,
        ResizeDirection::NorthWest => MOVERESIZE_TOPLEFT,
        ResizeDirection::South => MOVERESIZE_BOTTOM,
        ResizeDirection::SouthEast => MOVERESIZE_BOTTOMRIGHT,
        ResizeDirection::SouthWest => MOVERESIZE_BOTTOMLEFT,
        ResizeDirection::West => MOVERESIZE_LEFT,
    }
}

/// A size in pixels as an entry of a size hint.
pub open spec fn pixels_hint(dimensions: Option<(u32, u32)>) -> Option<HintSize> {
    match dimensions {
        Some(d) => Some(HintSize::Pixels(hint_dimension(d.0), hint_dimension(d.1))),
        None => None,
    }
}

/// A size as an entry of a size hint.
pub open spec fn size_hint(size: Option<Size>, scale: Scale, range: PixelRange) -> Option<HintSize> {
    match size {
        Some(s) => Some(hint_size(s, scale, range)),
        None => None,
    }
}

/// A size as an entry of a size hint that is rescaled by `scale`.
pub open spec fn rescaled_size_hint(size: Option<Size>, scale: Scale) -> Option<HintSize> {
    match size {
        Some(s) => Some(rescaled_hint(s, scale)),
        None => None,
    }
}

impl WindowModel {
    /// The scale factor of the monitor that the window was last seen on.
    pub open spec fn scale(self) -> Scale {
        Scale::Factor(self.state.last_monitor.scale_factor)
    }

    /// The call that changes some of the size hints.
    pub open spec fn hints_call(self, patch: HintsPatch) -> CallView {
        ignored(Request::UpdateNormalHints { window: self.xwindow, patch })
    }

    /// The call that sets or removes the smallest size.
    pub open spec fn min_size_call(self, hint: Option<HintSize>) -> CallView {
        self.hints_call(HintsPatch { min_size: Some(hint), ..HintsPatch::spec_none() })
    }

    /// The call that sets or removes the largest size.
    pub open spec fn max_size_call(self, hint: Option<HintSize>) -> CallView {
        self.hints_call(HintsPatch { max_size: Some(hint), ..HintsPatch::spec_none() })
    }

    /// The call that resizes the window.
    pub open spec fn resize_call(self, width: u32, height: u32) -> CallView {
        ignored(
            Request::ConfigureWindow {
                window: self.xwindow,
                x: None,
                y: None,
                width: Some(width),
                height: Some(height),
                stack_mode: None,
            },
        )
    }

    /// Whether a resize undoes the input region: it does where the window
    /// was made to take pointer input.
    pub open spec fn hittest_active(self) -> bool {
        self.state.cursor_hittest == Some(true)
    }

    /// The calls of a request for a surface size. The size is held to what a
    /// size hint can say. A window that is not resizable has its smallest and
    /// largest size moved to the new size first.
    pub open spec fn request_surface_size_calls(self, size: PhysicalSize) -> Seq<CallView> {
        let w = hint_dimension(size.width);
        let h = hint_dimension(size.height);
        let pin = if self.state.is_resizable {
            seq![]
        } else {
            seq![
                self.hints_call(
                    HintsPatch {
                        min_size: Some(Some(HintSize::Pixels(w, h))),
                        max_size: Some(Some(HintSize::Pixels(w, h))),
                        ..HintsPatch::spec_none()
                    },
                ),
            ]
        };
        pin + seq![self.resize_call(w as u32, h as u32), ignored(Request::Flush)]
    }

    /// The patch that rescales every stored size constraint by `new / old`,
    /// whether it is stored in physical or in logical pixels. A constraint
    /// that is absent is removed from the hints.
    pub open spec fn dpi_patch(self, old: ScaleFactor, new: ScaleFactor) -> HintsPatch {
        let ratio = Scale::Ratio { new, old };
        HintsPatch {
            min_size: Some(rescaled_size_hint(self.state.min_surface_size, ratio)),
            max_size: Some(rescaled_size_hint(self.state.max_surface_size, ratio)),
            size_increment: Some(
                rescaled_size_hint(self.state.surface_resize_increments, ratio),
            ),
            base_size: Some(rescaled_size_hint(self.state.base_size, ratio)),
        }
    }

    /// The smallest and largest size of a window that is made resizable or
    /// not: the stored constraints, or the window's own size twice.
    pub open spec fn resizable_bounds(self, resizable: bool, surface_size: PhysicalSize) -> (
        Option<Size>,
        Option<Size>,
    ) {
        if resizable {
            (self.state.min_surface_size, self.state.max_surface_size)
        } else {
            (Some(Size::Physical(surface_size)), Some(Size::Physical(surface_size)))
        }
    }

    /// The calls that make the window resizable or not.
    pub open spec fn set_resizable_calls(
        self,
        resizable: bool,
        surface_size: PhysicalSize,
    ) -> Seq<CallView> {
        if self.quirks.freezes_size_hints {
            seq![]
        } else {
            let bounds = self.resizable_bounds(resizable, surface_size);
            seq![
                self.maximizable_call(resizable),
                self.hints_call(
                    HintsPatch {
                        min_size: Some(size_hint(bounds.0, self.scale(), PixelRange::Signed)),
                        max_size: Some(size_hint(bounds.1, self.scale(), PixelRange::Signed)),
                        ..HintsPatch::spec_none()
                    },
                ),
            ]
        }
    }

    /// The window after it was made resizable or not.
    pub open spec fn after_set_resizable(self, resizable: bool) -> WindowModel {
        if self.quirks.freezes_size_hints {
            self
        } else {
            self.with_state(StateData { is_resizable: resizable, ..self.state })
        }
    }

    /// The calls that hand the window to the window manager for a move or a
    /// resize by the pointer, which is at `pointer` inside the window while
    /// the window's surface is at `position`.
    pub open spec fn drag_calls(
        self,
        action: u32,
        pointer: (i32, i32),
        position: (i32, i32),
    ) -> Seq<CallView> {
        seq![
            ignored(Request::UngrabPointer { time: CURRENT_TIME }),
            ignored(Request::Flush),
            ignored(
                wm_message(
                    self.xwindow,
                    self.root,
                    self.atoms.net_wm_moveresize,
                    ClientData {
                        d0: (position.0 as i64 + pointer.0 as i64) as u32,
                        d1: (position.1 as i64 + pointer.1 as i64) as u32,
                        d2: action,
                        d3: 1,
                        d4: 1,
                    },
                ),
            ),
            ignored(Request::Flush),
        ]
    }
}

impl ResizeDirection {
    /// The number that names the edge or corner to the window manager.
    pub fn action(self) -> (r: u32)
        ensures
            r == resize_action(self),
    {
        match self {
            ResizeDirection::East => MOVERESIZE_RIGHT,
            ResizeDirection::North => MOVERESIZE_TOP,
            ResizeDirection::NorthEast => MOVERESIZE_TOPRIGHT,
            ResizeDirection::NorthWest => MOVERESIZE_TOPLEFT,
            ResizeDirection::South => MOVERESIZE_BOTTOM,
            ResizeDirection::SouthEast => MOVERESIZE_BOTTOMRIGHT,
            ResizeDirection::SouthWest => MOVERESIZE_BOTTOMLEFT,
            ResizeDirection::West => MOVERESIZE_LEFT,
        }
    }
}

impl UnownedWindow {
    /// The position of the window's frame, given that of its surface; or the
    /// query for the frame extents, where none are remembered.
    pub fn outer_position_physical(&self, inner: (i32, i32)) -> (r: Result<(i32, i32), Query>)
        ensures
            r == match self@.state.frame_extents {
                Some(e) => Ok::<(i32, i32), Query>(e.spec_inner_pos_to_outer(inner.0, inner.1)),
                None => Err::<(i32, i32), Query>(Query::FrameExtents),
            },
    {
        match self.shared_state.data.frame_extents {
            Some(e) => Ok(e.inner_pos_to_outer(inner.0, inner.1)),
            None => Err(Query::FrameExtents),
        }
    }

    /// The position of the window's frame, given that of its surface; or the
    /// query for the frame extents, where none are remembered.
    pub fn outer_position(&self, inner: (i32, i32)) -> (r: Result<PhysicalPosition, Query>)
        ensures
            r == match self@.state.frame_extents {
                Some(e) => Ok::<PhysicalPosition, Query>(
                    PhysicalPosition {
                        x: e.spec_inner_pos_to_outer(inner.0, inner.1).0,
                        y: e.spec_inner_pos_to_outer(inner.0, inner.1).1,
                    },
                ),
                None => Err::<PhysicalPosition, Query>(Query::FrameExtents),
            },
    {
        match self.outer_position_physical(inner) {
            Ok(p) => Ok(PhysicalPosition { x: p.0, y: p.1 }),
            Err(q) => Err(q),
        }
    }

    /// Where the surface lies inside the frame; or the query for the frame
    /// extents, where none are remembered.
    pub fn surface_position(&self) -> (r: Result<PhysicalPosition, Query>)
        ensures
            r == match self@.state.frame_extents {
                Some(e) => Ok::<PhysicalPosition, Query>(
                    PhysicalPosition {
                        x: e.spec_surface_position().0,
                        y: e.spec_surface_position().1,
                    },
                ),
                None => Err::<PhysicalPosition, Query>(Query::FrameExtents),
            },
    {
        match self.shared_state.data.frame_extents {
            Some(e) => {
                let p = e.surface_position();
                Ok(PhysicalPosition { x: p.0, y: p.1 })
            },
            None => Err(Query::FrameExtents),
        }
    }

    /// The size of the window's frame, given that of its surface; or the
    /// query for the frame extents, where none are remembered.
    pub fn outer_size(&self, surface: PhysicalSize) -> (r: Result<PhysicalSize, Query>)
        ensures
            r == match self@.state.frame_extents {
                Some(e) => Ok::<PhysicalSize, Query>(
                    PhysicalSize {
                        width: e.spec_surface_size_to_outer(surface.width, surface.height).0,
                        height: e.spec_surface_size_to_outer(surface.width, surface.height).1,
                    },
                ),
                None => Err::<PhysicalSize, Query>(Query::FrameExtents),
            },
    {
        match self.shared_state.data.frame_extents {
            Some(e) => {
                let s = e.surface_size_to_outer(surface.width, surface.height);
                Ok(PhysicalSize { width: s.0, height: s.1 })
            },
            None => Err(Query::FrameExtents),
        }
    }

    /// The position of the surface on the root window, from the coordinates
    /// that the server reports.
    pub fn inner_position_physical(&self, dst_x: i16, dst_y: i16) -> (r: (i32, i32))
        ensures
            r == (dst_x as i32, dst_y as i32),
    {
        (dst_x as i32, dst_y as i32)
    }

    /// The size of the surface, from the sides that the server reports.
    pub fn surface_size_physical(&self, width: u16, height: u16) -> (r: (u32, u32))
        ensures
            r == (width as u32, height as u32),
    {
        (width as u32, height as u32)
    }

    /// The size of the surface, from the sides that the server reports.
    pub fn surface_size(&self, width: u16, height: u16) -> (r: PhysicalSize)
        ensures
            r == (PhysicalSize { width: width as u32, height: height as u32 }),
    {
        PhysicalSize { width: width as u32, height: height as u32 }
    }

    /// Nothing covers any part of the window.
    pub fn safe_area(&self) -> (r: PhysicalInsets)
        ensures
            r == (PhysicalInsets { top: 0, left: 0, bottom: 0, right: 0 }),
    {
        PhysicalInsets { top: 0, left: 0, bottom: 0, right: 0 }
    }

    /// The call that moves the window's frame to `(x, y)`, or the query that
    /// must be answered first.
    pub fn set_position_physical(&self, x: i32, y: i32) -> (r: Result<Call, Query>)
        ensures
            match r {
                Ok(call) => !self@.position_needs_extents() && call.deep_view()
                    == self@.position_call(x, y),
                Err(query) => self@.position_needs_extents() && query == Query::FrameExtents,
            },
    {
        self.set_position_inner(x, y)
    }

    /// The call that moves the window's frame to `position`, or the query
    /// that must be answered first.
    pub fn set_outer_position(&self, position: PhysicalPosition) -> (r: Result<Call, Query>)
        ensures
            match r {
                Ok(call) => !self@.position_needs_extents() && call.deep_view()
                    == self@.position_call(position.x, position.y),
                Err(query) => self@.position_needs_extents() && query == Query::FrameExtents,
            },
    {
        self.set_position_physical(position.x, position.y)
    }

    /// The scale factor of the monitor that the window was last seen on.
    pub fn scale_factor(&self) -> (r: ScaleFactor)
        ensures
            r == self@.state.last_monitor.scale_factor,
    {
        self.shared_state.data.last_monitor.scale_factor
    }

    /// Resizes the window. A resize undoes the input region, so where the
    /// window takes pointer input the region must be set again afterwards.
    pub fn request_surface_size_physical(&self, width: u32, height: u32) -> (plan: ResizePlan)
        ensures
            plan.calls.deep_view() == seq![
                self@.resize_call(width, height),
                ignored(Request::Flush),
            ],
            plan.reapply_hittest == self@.hittest_active(),
    {
        let mut calls = no_calls();
        emit(
            &mut calls,
            Call::ignore(
                Request::ConfigureWindow {
                    window: self.xwindow,
                    x: None,
                    y: None,
                    width: Some(width),
                    height: Some(height),
                    stack_mode: None,
                },
            ),
        );
        emit(&mut calls, Call::ignore(Request::Flush));
        let reapply_hittest = match self.shared_state.data.cursor_hittest {
            Some(true) => true,
            _ => false,
        };
        ResizePlan { calls, reapply_hittest }
    }

    /// Asks for a surface size. The new size is never known at once, so
    /// nothing is returned besides the plan.
    pub fn request_surface_size(&self, size: PhysicalSize) -> (r: (Option<PhysicalSize>, ResizePlan))
        ensures
            r.0 is None,
            r.1.calls.deep_view() == self@.request_surface_size_calls(size),
            r.1.reapply_hittest == self@.hittest_active(),
    {
        let w = cast_dimension_to_hint(size.width);
        let h = cast_dimension_to_hint(size.height);
        let mut calls = no_calls();
        if !self.shared_state.data.is_resizable {
            let mut patch = HintsPatch::none();
            patch.min_size = Some(Some(HintSize::Pixels(w, h)));
            patch.max_size = Some(Some(HintSize::Pixels(w, h)));
            emit(&mut calls, self.update_normal_hints(patch));
        }
        let plan = self.request_surface_size_physical(w as u32, h as u32);
        let reapply_hittest = plan.reapply_hittest;
        emit_all(&mut calls, plan.calls);
        assert(calls.deep_view() =~= self@.request_surface_size_calls(size));
        (None, ResizePlan { calls, reapply_hittest })
    }

    /// The call that changes the entries of the size hints that `patch` names.
    pub fn update_normal_hints(&self, patch: HintsPatch) -> (call: Call)
        ensures
            call.deep_view() == self@.hints_call(patch),
    {
        Call::ignore(Request::UpdateNormalHints { window: self.xwindow, patch })
    }

    /// The call that sets or removes the smallest size, given in pixels.
    pub fn set_min_surface_size_physical(&self, dimensions: Option<(u32, u32)>) -> (call: Call)
        ensures
            call.deep_view() == self@.min_size_call(pixels_hint(dimensions)),
    {
        let mut patch = HintsPatch::none();
        patch.min_size = Some(
            match dimensions {
                Some(d) => Some(
                    HintSize::Pixels(cast_dimension_to_hint(d.0), cast_dimension_to_hint(d.1)),
                ),
                None => None,
            },
        );
        self.update_normal_hints(patch)
    }

    /// Notes the smallest size and asks for it, in pixels of the window's
    /// monitor.
    pub fn set_min_surface_size(&mut self, dimensions: Option<Size>) -> (call: Call)
        ensures
            final(self)@ == old(self)@.with_state(
                StateData { min_surface_size: dimensions, ..old(self)@.state },
            ),
            call.deep_view() == old(self)@.min_size_call(
                size_hint(dimensions, old(self)@.scale(), PixelRange::Unsigned),
            ),
    {
        proof {
            use_type_invariant(&self.shared_state);
        }
        self.shared_state.data.min_surface_size = dimensions;
        let scale = Scale::Factor(self.scale_factor());
        let mut patch = HintsPatch::none();
        patch.min_size = Some(
            match dimensions {
                Some(s) => Some(cast_size_to_unsigned_hint(s, scale)),
                None => None,
            },
        );
        self.update_normal_hints(patch)
    }

    /// The call that sets or removes the largest size, given in pixels.
    pub fn set_max_surface_size_physical(&self, dimensions: Option<(u32, u32)>) -> (call: Call)
        ensures
            call.deep_view() == self@.max_size_call(pixels_hint(dimensions)),
    {
        let mut patch = HintsPatch::none();
        patch.max_size = Some(
            match dimensions {
                Some(d) => Some(
                    HintSize::Pixels(cast_dimension_to_hint(d.0), cast_dimension_to_hint(d.1)),
                ),
                None => None,
            },
        );
        self.update_normal_hints(patch)
    }

    /// Notes the largest size and asks for it, in pixels of the window's
    /// monitor.
    pub fn set_max_surface_size(&mut self, dimensions: Option<Size>) -> (call: Call)
        ensures
            final(self)@ == old(self)@.with_state(
                StateData { max_surface_size: dimensions, ..old(self)@.state },
            ),
            call.deep_view() == old(self)@.max_size_call(
                size_hint(dimensions, old(self)@.scale(), PixelRange::Unsigned),
            ),
    {
        proof {
            use_type_invariant(&self.shared_state);
        }
        self.shared_state.data.max_surface_size = dimensions;
        let scale = Scale::Factor(self.scale_factor());
        let mut patch = HintsPatch::none();
        patch.max_size = Some(
            match dimensions {
                Some(s) => Some(cast_size_to_unsigned_hint(s, scale)),
                None => None,
            },
        );
        self.update_normal_hints(patch)
    }

    /// The resize increments that the window's size hints hold, as sizes.
    /// Each side is taken as the unsigned number with the same 32 bits.
    pub fn surface_resize_increments(&self, increment: Option<(i32, i32)>) -> (r: Option<
        PhysicalSize,
    >)
        ensures
            r == match increment {
                Some(i) => Some(PhysicalSize { width: i.0 as u32, height: i.1 as u32 }),
                None => None,
            },
    {
        match increment {
            Some(i) => Some(
                PhysicalSize {
                    width: #[verifier::truncate]
                    (i.0 as u32),
                    height: #[verifier::truncate]
                    (i.1 as u32),
                },
            ),
            None => None,
        }
    }

    /// Notes the resize increments and asks for them, in pixels of the
    /// window's monitor.
    pub fn set_surface_resize_increments(&mut self, increments: Option<Size>) -> (call: Call)
        ensures
            final(self)@ == old(self)@.with_state(
                StateData { surface_resize_increments: increments, ..old(self)@.state },
            ),
            call.deep_view() == old(self)@.hints_call(
                HintsPatch {
                    size_increment: Some(
                        size_hint(increments, old(self)@.scale(), PixelRange::Signed),
                    ),
                    ..HintsPatch::spec_none()
                },
            ),
    {
        proof {
            use_type_invariant(&self.shared_state);
        }
        self.shared_state.data.surface_resize_increments = increments;
        let scale = Scale::Factor(self.scale_factor());
        let mut patch = HintsPatch::none();
        patch.size_increment = Some(
            match increments {
                Some(s) => Some(cast_size_to_hint(s, scale)),
                None => None,
            },
        );
        self.update_normal_hints(patch)
    }

    /// The call that rescales every stored size constraint by
    /// `new_scale_factor / old_scale_factor`: each of the four constraints,
    /// in whatever unit it is stored, goes into the hints multiplied by that
    /// ratio, and an absent one is removed. The stored constraints stay as
    /// they are.
    pub fn adjust_for_dpi(&self, old_scale_factor: ScaleFactor, new_scale_factor: ScaleFactor) -> (call:
        Call)
        ensures
            call.deep_view() == self@.hints_call(
                self@.dpi_patch(old_scale_factor, new_scale_factor),
            ),
    {
        let ratio = Scale::Ratio { new: new_scale_factor, old: old_scale_factor };
        let patch = HintsPatch {
            min_size: Some(
                match self.shared_state.data.min_surface_size {
                    Some(s) => Some(rescale_size_to_hint(s, ratio)),
                    None => None,
                },
            ),
            max_size: Some(
                match self.shared_state.data.max_surface_size {
                    Some(s) => Some(rescale_size_to_hint(s, ratio)),
                    None => None,
                },
            ),
            size_increment: Some(
                match self.shared_state.data.surface_resize_increments {
                    Some(s) => Some(rescale_size_to_hint(s, ratio)),
                    None => None,
                },
            ),
            base_size: Some(
                match self.shared_state.data.base_size {
                    Some(s) => Some(rescale_size_to_hint(s, ratio)),
                    None => None,
                },
            ),
        };
        self.update_normal_hints(patch)
    }

    /// What a change of a monitor's scale factor asks of the window: nothing
    /// unless the window is on that monitor, which is told by its name. The
    /// scale factor before the change defaults to that of the window's
    /// monitor.
    pub fn refresh_dpi_for_monitor(
        &self,
        new_monitor: &MonitorHandle,
        maybe_prev_scale_factor: Option<ScaleFactor>,
    ) -> (r: Option<DpiChange>)
        ensures
            match r {
                Some(change) => {
                    let old = match maybe_prev_scale_factor {
                        Some(f) => f,
                        None => self@.state.last_monitor.scale_factor,
                    };
                    &&& self@.state.last_monitor.name@ == new_monitor.name@
                    &&& change.ratio == (Scale::Ratio { new: new_monitor.scale_factor, old })
                    &&& change.hints.deep_view() == self@.hints_call(
                        self@.dpi_patch(old, new_monitor.scale_factor),
                    )
                },
                None => self@.state.last_monitor.name@ != new_monitor.name@,
            },
    {
        if self.shared_state.data.last_monitor.name == new_monitor.name {
            let old = match maybe_prev_scale_factor {
                Some(f) => f,
                None => self.shared_state.data.last_monitor.scale_factor,
            };
            Some(
                DpiChange {
                    ratio: Scale::Ratio { new: new_monitor.scale_factor, old },
                    hints: self.adjust_for_dpi(old, new_monitor.scale_factor),
                },
            )
        } else {
            None
        }
    }

    /// The resize that ends a change of scale factor: `proposed` is the size
    /// that the application settled on, `current` the size that the window
    /// has. Nothing is issued where they are the same.
    pub fn apply_dpi_size(&self, current: PhysicalSize, proposed: PhysicalSize) -> (r: Option<
        ResizePlan,
    >)
        ensures
            match r {
                Some(plan) => {
                    &&& proposed != current
                    &&& plan.calls.deep_view() == seq![
                        self@.resize_call(proposed.width, proposed.height),
                        ignored(Request::Flush),
                    ]
                    &&& plan.reapply_hittest == self@.hittest_active()
                },
                None => proposed == current,
            },
    {
        if proposed != current {
            Some(self.request_surface_size_physical(proposed.width, proposed.height))
        } else {
            None
        }
    }

    /// Makes the window resizable or not. A window that is not resizable has
    /// its smallest and largest size set to `surface_size`, its own; one that
    /// is gets its stored constraints back. Under a window manager that stops
    /// reading size hints of unresizable windows, nothing happens at all.
    pub fn set_resizable(&mut self, resizable: bool, surface_size: PhysicalSize) -> (calls: Vec<
        Call,
    >)
        ensures
            final(self)@ == old(self)@.after_set_resizable(resizable),
            calls.deep_view() == old(self)@.set_resizable_calls(resizable, surface_size),
    {
        let mut calls = no_calls();
        if self.quirks.freezes_size_hints {
            return calls;
        }
        proof {
            use_type_invariant(&self.shared_state);
        }
        let (min_size, max_size) = if resizable {
            (self.shared_state.data.min_surface_size, self.shared_state.data.max_surface_size)
        } else {
            (Some(Size::Physical(surface_size)), Some(Size::Physical(surface_size)))
        };
        self.shared_state.data.is_resizable = resizable;
        emit(&mut calls, self.set_maximizable_inner(resizable));
        let scale = Scale::Factor(self.scale_factor());
        let mut patch = HintsPatch::none();
        patch.min_size = Some(
            match min_size {
                Some(s) => Some(cast_size_to_hint(s, scale)),
                None => None,
            },
        );
        patch.max_size = Some(
            match max_size {
                Some(s) => Some(cast_size_to_hint(s, scale)),
                None => None,
            },
        );
        emit(&mut calls, self.update_normal_hints(patch));
        calls
    }

    /// Hands the window to the window manager for a move by the pointer.
    pub fn drag_window(&mut self, pointer: (i32, i32), position: (i32, i32)) -> (calls: Vec<Call>)
        ensures
            final(self)@ == (WindowModel {
                cursor_grabbed_mode: CursorGrabMode::Free,
                ..old(self)@
            }),
            calls.deep_view() == old(self)@.drag_calls(MOVERESIZE_MOVE, pointer, position),
    {
        self.drag_initiate(MOVERESIZE_MOVE, pointer, position)
    }

    /// Hands the window to the window manager for a resize by the pointer.
    pub fn drag_resize_window(
        &mut self,
        direction: ResizeDirection,
        pointer: (i32, i32),
        position: (i32, i32),
    ) -> (calls: Vec<Call>)
        ensures
            final(self)@ == (WindowModel {
                cursor_grabbed_mode: CursorGrabMode::Free,
                ..old(self)@
            }),
            calls.deep_view() == old(self)@.drag_calls(resize_action(direction), pointer, position),
    {
        self.drag_initiate(direction.action(), pointer, position)
    }

    /// Lets the pointer go, whatever held it, and asks the window manager to
    /// move or resize the window from where the pointer is: `pointer` inside
    /// the window, whose surface is at `position`. The sums that the message
    /// carries are cut to their low 32 bits.
    pub fn drag_initiate(&mut self, action: u32, pointer: (i32, i32), position: (i32, i32)) -> (calls:
        Vec<Call>)
        ensures
            final(self)@ == (WindowModel {
                cursor_grabbed_mode: CursorGrabMode::Free,
                ..old(self)@
            }),
            calls.deep_view() == old(self)@.drag_calls(action, pointer, position),
    {
        let mut calls = no_calls();
        emit(&mut calls, Call::ignore(Request::UngrabPointer { time: CURRENT_TIME }));
        emit(&mut calls, Call::ignore(Request::Flush));
        self.cursor_grabbed_mode = CursorGrabMode::Free;
        let x: u32 = #[verifier::truncate]
        ((position.0 as i64 + pointer.0 as i64) as u32);
        let y: u32 = #[verifier::truncate]
        ((position.1 as i64 + pointer.1 as i64) as u32);
        emit(
            &mut calls,
            Call::message(
                self.xwindow,
                self.root,
                self.atoms.net_wm_moveresize,
                ClientData { d0: x, d1: y, d2: action, d3: 1, d4: 1 },
            ),
        );
        emit(&mut calls, Call::ignore(Request::Flush));
        calls
    }
}

} // verus!
