use smithay_client_toolkit::shell::wlr_layer::{Anchor, KeyboardInteractivity, Layer};
use winit_x11::wayland::{
    ActiveEventLoop, ActiveEventLoopExtWayland, Backend, EventLoop, EventLoopBuilder,
    EventLoopBuilderExtWayland, EventLoopExtWayland, PlatformSpecificEventLoopAttributes,
    PlatformSpecificWindowAttributes, WaylandWindowAttributes, WindowAttributes,
    WindowAttributesExtWayland,
};

fn attributes() -> WindowAttributes {
    WindowAttributes {
        platform_specific: PlatformSpecificWindowAttributes {
            name: None,
            wayland: WaylandWindowAttributes {
                anchor: None,
                exclusive_zone: None,
                margin: None,
                keyboard_interactivity: None,
                layer: None,
                region: None,
                output: None,
            },
        },
    }
}

#[test]
fn active_event_loop_tells_its_backend() {
    assert!(ActiveEventLoop { backend: Backend::Wayland }.is_wayland());
    assert!(!ActiveEventLoop { backend: Backend::X11 }.is_wayland());
}

#[test]
fn event_loop_tells_its_backend() {
    assert!(EventLoop { event_loop: ActiveEventLoop { backend: Backend::Wayland } }.is_wayland());
    assert!(!EventLoop { event_loop: ActiveEventLoop { backend: Backend::X11 } }.is_wayland());
}

#[test]
fn builder_forces_wayland_and_keeps_the_rest() {
    let mut builder = EventLoopBuilder {
        platform_specific: PlatformSpecificEventLoopAttributes {
            forced_backend: Some(Backend::X11),
            any_thread: true,
        },
    };
    builder.with_wayland();
    assert_eq!(
        builder.platform_specific,
        PlatformSpecificEventLoopAttributes { forced_backend: Some(Backend::Wayland), any_thread: true }
    );
    builder.with_any_thread(false);
    assert_eq!(
        builder.platform_specific,
        PlatformSpecificEventLoopAttributes { forced_backend: Some(Backend::Wayland), any_thread: false }
    );
}

#[test]
fn each_builder_sets_its_own_entry() {
    let attrs = attributes()
        .with_name("org.app".to_owned(), "main".to_owned())
        .with_anchor(Anchor::TOP | Anchor::LEFT)
        .with_exclusive_zone(-1)
        .with_margin(1, 2, 3, 4)
        .with_keyboard_interactivity(KeyboardInteractivity::OnDemand)
        .with_layer(Layer::Overlay)
        .with_region(dpi::LogicalPosition::new(5, 6), dpi::LogicalSize::new(7, 8))
        .with_output(9);
    let platform = attrs.platform_specific;
    let name = platform.name.unwrap();
    assert_eq!(name.general, "org.app");
    assert_eq!(name.instance, "main");
    assert_eq!(platform.wayland.anchor, Some(Anchor::TOP | Anchor::LEFT));
    assert_eq!(platform.wayland.exclusive_zone, Some(-1));
    assert_eq!(platform.wayland.margin, Some((1, 2, 3, 4)));
    assert_eq!(platform.wayland.keyboard_interactivity, Some(KeyboardInteractivity::OnDemand));
    assert_eq!(platform.wayland.layer, Some(Layer::Overlay));
    assert_eq!(
        platform.wayland.region,
        Some((dpi::LogicalPosition::new(5, 6), dpi::LogicalSize::new(7, 8)))
    );
    assert_eq!(platform.wayland.output, Some(9));
}

#[test]
fn a_builder_leaves_the_other_entries_alone() {
    let attrs = attributes().with_layer(Layer::Top);
    let wayland = attrs.platform_specific.wayland;
    assert_eq!(wayland.layer, Some(Layer::Top));
    assert_eq!(wayland.anchor, None);
    assert_eq!(wayland.exclusive_zone, None);
    assert_eq!(wayland.margin, None);
    assert_eq!(wayland.keyboard_interactivity, None);
    assert_eq!(wayland.region, None);
    assert_eq!(wayland.output, None);
    assert!(attrs.platform_specific.name.is_none());

    let attrs = attributes().with_layer(Layer::Top).with_layer(Layer::Bottom).with_output(1);
    assert_eq!(attrs.platform_specific.wayland.layer, Some(Layer::Bottom));
    assert_eq!(attrs.platform_specific.wayland.output, Some(1));
}
