//! What an application can ask for on a compositor-based system, beyond what
//! every platform offers.

use crate::creation::ApplicationName;
use crate::handle::Window;
use smithay_client_toolkit::shell::wlr_layer::{Anchor, KeyboardInteractivity, Layer};
use vstd::prelude::*;

verus! {

/// The edges that a layer surface is anchored to; held, never looked into.
#[verifier::external_type_specification]
#[verifier::external_body]
pub struct ExAnchor(Anchor);

/// How a layer surface takes the keyboard; held, never looked into.
#[verifier::external_type_specification]
#[verifier::external_body]
pub struct ExKeyboardInteractivity(KeyboardInteractivity);

/// The layer that a layer surface is drawn in; held, never looked into.
#[verifier::external_type_specification]
#[verifier::external_body]
pub struct ExLayer(Layer);

/// A position in logical pixels; held, never looked into.
#[verifier::external_type_specification]
#[verifier::external_body]
#[verifier::reject_recursive_types(P)]
pub struct ExLogicalPosition<P>(dpi::LogicalPosition<P>);

/// A size in logical pixels; held, never looked into.
#[verifier::external_type_specification]
#[verifier::external_body]
#[verifier::reject_recursive_types(P)]
pub struct ExLogicalSize<P>(dpi::LogicalSize<P>);

/// The windowing system that an event loop talks to.
#[derive(Clone, Copy, Debug, PartialEq, Eq, Structural)]
pub enum Backend {
    X11,
    Wayland,
}

/// A running event loop.
#[derive(Debug)]
pub struct ActiveEventLoop {
    pub backend: Backend,
}

/// An event loop.
#[derive(Debug)]
pub struct EventLoop {
    pub event_loop: ActiveEventLoop,
}

/// What an event loop is built with on this platform.
#[derive(Clone, Copy, Debug, PartialEq, Eq, Structural)]
pub struct PlatformSpecificEventLoopAttributes {
    pub forced_backend: Option<Backend>,
    pub any_thread: bool,
}

/// The builder of an event loop.
#[derive(Debug)]
pub struct EventLoopBuilder {
    pub platform_specific: PlatformSpecificEventLoopAttributes,
}

/// What a layer surface is created with.
pub struct WaylandWindowAttributes {
    pub anchor: Option<Anchor>,
    pub exclusive_zone: Option<i32>,
    /// Top, right, bottom, left.
    pub margin: Option<(i32, i32, i32, i32)>,
    pub keyboard_interactivity: Option<KeyboardInteractivity>,
    pub layer: Option<Layer>,
    pub region: Option<(dpi::LogicalPosition<i32>, dpi::LogicalSize<i32>)>,
    pub output: Option<u64>,
}

/// What a window is created with on this platform.
pub struct PlatformSpecificWindowAttributes {
    pub name: Option<ApplicationName>,
    pub wayland: WaylandWindowAttributes,
}

/// What a window is created with.
pub struct WindowAttributes {
    pub platform_specific: PlatformSpecificWindowAttributes,
}

/// Additional methods on a running event loop that are specific to Wayland.
pub trait ActiveEventLoopExtWayland {
    /// The windowing system that the event loop talks to.
    spec fn backend_of(&self) -> Backend;

    /// True if the event loop uses Wayland.
    fn is_wayland(&self) -> (r: bool)
        ensures
            r == (self.backend_of() == Backend::Wayland),
    ;
}

impl ActiveEventLoopExtWayland for ActiveEventLoop {
    open spec fn backend_of(&self) -> Backend {
        self.backend
    }

    fn is_wayland(&self) -> (r: bool) {
        self.backend == Backend::Wayland
    }
}

/// Additional methods on an event loop that are specific to Wayland.
pub trait EventLoopExtWayland {
    /// The windowing system that the event loop talks to.
    spec fn backend_of(&self) -> Backend;

    /// True if the event loop uses Wayland.
    fn is_wayland(&self) -> (r: bool)
        ensures
            r == (self.backend_of() == Backend::Wayland),
    ;
}

impl EventLoopExtWayland for EventLoop {
    open spec fn backend_of(&self) -> Backend {
        self.event_loop.backend
    }

    fn is_wayland(&self) -> (r: bool) {
        self.event_loop.is_wayland()
    }
}

/// Additional methods on an event-loop builder that are specific to Wayland.
pub trait EventLoopBuilderExtWayland {
    /// What the builder holds for this platform.
    spec fn attributes(&self) -> PlatformSpecificEventLoopAttributes;

    /// Force using Wayland.
    fn with_wayland(&mut self)
        ensures
            final(self).attributes() == (PlatformSpecificEventLoopAttributes {
                forced_backend: Some(Backend::Wayland),
                ..old(self).attributes()
            }),
    ;

    /// Whether to allow the event loop to be created off of the main thread.
    fn with_any_thread(&mut self, any_thread: bool)
        ensures
            final(self).attributes() == (PlatformSpecificEventLoopAttributes {
                any_thread,
                ..old(self).attributes()
            }),
    ;
}

impl EventLoopBuilderExtWayland for EventLoopBuilder {
    open spec fn attributes(&self) -> PlatformSpecificEventLoopAttributes {
        self.platform_specific
    }

    fn with_wayland(&mut self) {
        self.platform_specific.forced_backend = Some(Backend::Wayland);
    }

    fn with_any_thread(&mut self, any_thread: bool) {
        self.platform_specific.any_thread = any_thread;
    }
}

/// Additional methods on a window that are specific to Wayland: none.
pub trait WindowExtWayland {

}

impl WindowExtWayland for Window {

}

/// Additional methods on window attributes that are specific to Wayland.
/// Each sets one entry and leaves the others as they are.
pub trait WindowAttributesExtWayland: Sized {
    /// What the attributes hold for this platform.
    spec fn platform(&self) -> PlatformSpecificWindowAttributes;

    /// Build window with the given name: `general` is the application id,
    /// `instance` has no effect of its own.
    fn with_name(self, general: String, instance: String) -> (r: Self)
        ensures
            r.platform() == (PlatformSpecificWindowAttributes {
                name: Some(ApplicationName { general, instance }),
                ..self.platform()
            }),
    ;

    fn with_anchor(self, anchor: Anchor) -> (r: Self)
        ensures
            r.platform() == (PlatformSpecificWindowAttributes {
                wayland: WaylandWindowAttributes { anchor: Some(anchor), ..self.platform().wayland },
                ..self.platform()
            }),
    ;

    fn with_exclusive_zone(self, exclusive_zone: i32) -> (r: Self)
        ensures
            r.platform() == (PlatformSpecificWindowAttributes {
                wayland: WaylandWindowAttributes {
                    exclusive_zone: Some(exclusive_zone),
                    ..self.platform().wayland
                },
                ..self.platform()
            }),
    ;

    fn with_margin(self, top: i32, right: i32, bottom: i32, left: i32) -> (r: Self)
        ensures
            r.platform() == (PlatformSpecificWindowAttributes {
                wayland: WaylandWindowAttributes {
                    margin: Some((top, right, bottom, left)),
                    ..self.platform().wayland
                },
                ..self.platform()
            }),
    ;

    fn with_keyboard_interactivity(self, keyboard_interactivity: KeyboardInteractivity) -> (r: Self)
        ensures
            r.platform() == (PlatformSpecificWindowAttributes {
                wayland: WaylandWindowAttributes {
                    keyboard_interactivity: Some(keyboard_interactivity),
                    ..self.platform().wayland
                },
                ..self.platform()
            }),
    ;

    fn with_layer(self, layer: Layer) -> (r: Self)
        ensures
            r.platform() == (PlatformSpecificWindowAttributes {
                wayland: WaylandWindowAttributes { layer: Some(layer), ..self.platform().wayland },
                ..self.platform()
            }),
    ;

    fn with_region(self, position: dpi::LogicalPosition<i32>, size: dpi::LogicalSize<i32>) -> (r:
        Self)
        ensures
            r.platform() == (PlatformSpecificWindowAttributes {
                wayland: WaylandWindowAttributes {
                    region: Some((position, size)),
                    ..self.platform().wayland
                },
                ..self.platform()
            }),
    ;

    fn with_output(self, output: u64) -> (r: Self)
        ensures
            r.platform() == (PlatformSpecificWindowAttributes {
                wayland: WaylandWindowAttributes { output: Some(output), ..self.platform().wayland },
                ..self.platform()
            }),
    ;
}

impl WindowAttributesExtWayland for WindowAttributes {
    open spec fn platform(&self) -> PlatformSpecificWindowAttributes {
        self.platform_specific
    }

    fn with_name(self, general: String, instance: String) -> (r: Self) {
        let mut attrs = self;
        attrs.platform_specific.name = Some(ApplicationName { general, instance });
        attrs
    }

    fn with_anchor(self, anchor: Anchor) -> (r: Self) {
        let mut attrs = self;
        attrs.platform_specific.wayland.anchor = Some(anchor);
        attrs
    }

    fn with_exclusive_zone(self, exclusive_zone: i32) -> (r: Self) {
        let mut attrs = self;
        attrs.platform_specific.wayland.exclusive_zone = Some(exclusive_zone);
        attrs
    }

    fn with_margin(self, top: i32, right: i32, bottom: i32, left: i32) -> (r: Self) {
        let mut attrs = self;
        attrs.platform_specific.wayland.margin = Some((top, right, bottom, left));
        attrs
    }

    fn with_keyboard_interactivity(self, keyboard_interactivity: KeyboardInteractivity) -> (r:
        Self) {
        let mut attrs = self;
        attrs.platform_specific.wayland.keyboard_interactivity = Some(keyboard_interactivity);
        attrs
    }

    fn with_layer(self, layer: Layer) -> (r: Self) {
        let mut attrs = self;
        attrs.platform_specific.wayland.layer = Some(layer);
        attrs
    }

    fn with_region(self, position: dpi::LogicalPosition<i32>, size: dpi::LogicalSize<i32>) -> (r:
        Self) {
        let mut attrs = self;
        attrs.platform_specific.wayland.region = Some((position, size));
        attrs
    }

    fn with_output(self, output: u64) -> (r: Self) {
        let mut attrs = self;
        attrs.platform_specific.wayland.output = Some(output);
        attrs
    }
}

} // verus!
