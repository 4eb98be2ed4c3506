use std::sync::Arc;
use winit_x11::creation::{
    choose_visual, clamp_dimensions, find_transparent_visual, find_visual, resolve_screen,
    wm_class, ApplicationName, FreshIds, Screen, Server, Visual, VisualChoice, WindowAttributes,
};
use winit_x11::cursor::{Cursor, CursorGrabMode, CursorIcon, CustomCursor, SelectedCursor};
use winit_x11::error::{NotSupportedError, OsError, RequestError};
use winit_x11::fullscreen::FullscreenNext;
use winit_x11::geometry::{
    AaRect, FrameExtents, FrameExtentsHeuristic, FrameExtentsHeuristicPath, HintSize,
    LogicalExtent, PhysicalPosition, PhysicalSize, PixelRange, Scale, ScaleFactor, Size,
};
use winit_x11::handle::Window;
use winit_x11::hints::{HintPixels, NormalHints};
use winit_x11::host::ProcessInfo;
use winit_x11::monitor::{guess_monitor, Fullscreen, MonitorHandle, VideoMode, VideoModeHandle};
use winit_x11::protocol::{Ack, Atoms, Call, ClientData, Payload, Request, StackMode};
use winit_x11::state::Visibility;
use winit_x11::window::{RgbaIcon, Theme, UnownedWindow, WindowLevel, WindowType, WmQuirks};

fn atoms() -> Atoms {
    Atoms {
        card32: 301,
        utf8_string: 302,
        wm_change_state: 303,
        wm_client_machine: 304,
        wm_delete_window: 305,
        wm_protocols: 306,
        wm_state: 307,
        xdnd_aware: 308,
        xembed: 309,
        gtk_theme_variant: 310,
        net_active_window: 311,
        net_wm_icon: 312,
        net_wm_moveresize: 313,
        net_wm_name: 314,
        net_wm_pid: 315,
        net_wm_ping: 316,
        net_wm_state: 317,
        net_wm_state_above: 318,
        net_wm_state_below: 319,
        net_wm_state_fullscreen: 320,
        net_wm_state_hidden: 321,
        net_wm_state_maximized_horz: 322,
        net_wm_state_maximized_vert: 323,
        net_wm_sync_request: 324,
        net_wm_sync_request_counter: 325,
        net_wm_window_type: 326,
        net_wm_window_type_combo: 327,
        net_wm_window_type_desktop: 328,
        net_wm_window_type_dialog: 329,
        net_wm_window_type_dnd: 330,
        net_wm_window_type_dock: 331,
        net_wm_window_type_dropdown_menu: 332,
        net_wm_window_type_menu: 333,
        net_wm_window_type_normal: 334,
        net_wm_window_type_notification: 335,
        net_wm_window_type_popup_menu: 336,
        net_wm_window_type_splash: 337,
        net_wm_window_type_toolbar: 338,
        net_wm_window_type_tooltip: 339,
        net_wm_window_type_utility: 340,
    }
}

const WINDOW: u32 = 77;
const ROOT: u32 = 1;
const DEFAULT_ROOT: u32 = 2;

fn no_quirks() -> WmQuirks {
    WmQuirks { positions_surface: false, freezes_size_hints: false }
}

fn mode(width: u32, height: u32, native_mode: u32) -> VideoModeHandle {
    VideoModeHandle {
        mode: VideoMode {
            size: PhysicalSize { width, height },
            bit_depth: Some(24),
            refresh_rate_millihertz: Some(60_000),
        },
        native_mode,
    }
}

fn monitor(id: u32, name: &str, scale: f64, position: (i32, i32)) -> Arc<MonitorHandle> {
    Arc::new(MonitorHandle {
        id,
        name: name.to_owned(),
        scale_factor: ScaleFactor { bits: scale.to_bits() },
        position,
        rect: AaRect::new(position, (1920, 1080)),
        video_modes: vec![mode(1920, 1080, 501), mode(1280, 720, 502), mode(1280, 720, 503)],
    })
}

fn server(quirks: WmQuirks) -> Server {
    Server {
        atoms: atoms(),
        quirks,
        default_screen: 0,
        default_root: DEFAULT_ROOT,
        screens: vec![Screen {
            root: ROOT,
            visuals: vec![
                Visual { visual_id: 33, class: 4, depth: 24 },
                Visual { visual_id: 34, class: 5, depth: 32 },
                Visual { visual_id: 35, class: 4, depth: 32 },
                Visual { visual_id: 36, class: 4, depth: 32 },
            ],
        }],
        has_sync: true,
        has_ime: true,
    }
}

fn ids() -> FreshIds {
    FreshIds { window: WINDOW, colormap: 78, sync_counter: 79 }
}

fn process() -> ProcessInfo {
    ProcessInfo {
        pid: 4242,
        hostname: b"box".to_vec(),
        binary_name: Some("app".to_owned()),
        resource_name: None,
    }
}

fn attributes() -> WindowAttributes {
    WindowAttributes {
        surface_size: None,
        min_surface_size: None,
        max_surface_size: None,
        surface_resize_increments: None,
        base_size: None,
        position: None,
        resizable: true,
        title: "winit window".to_owned(),
        maximized: false,
        visible: false,
        transparent: false,
        decorations: true,
        window_icon: None,
        preferred_theme: None,
        cursor: Cursor::Icon(CursorIcon { index: 0 }),
        parent_window: None,
        fullscreen: None,
        window_level: WindowLevel::Normal,
        name: None,
        activation_token: None,
        visual_id: None,
        screen_id: None,
        override_redirect: false,
        x11_window_types: vec![WindowType::Normal],
        embed_window: None,
    }
}

fn create_on(monitor: Arc<MonitorHandle>, quirks: WmQuirks, attrs: WindowAttributes) -> UnownedWindow {
    UnownedWindow::new(&server(quirks), ids(), &process(), monitor, attrs).unwrap().window
}

fn hidden() -> UnownedWindow {
    create_on(monitor(61, "DP-1", 1.0, (0, 0)), no_quirks(), attributes())
}

/// A window that the server has confirmed as visible.
fn shown_on(monitor: Arc<MonitorHandle>, quirks: WmQuirks) -> UnownedWindow {
    let mut attrs = attributes();
    attrs.visible = true;
    let mut window = create_on(monitor, quirks, attrs);
    let step = window.visibility_notify();
    assert_eq!(step.next, FullscreenNext::Finished);
    assert!(step.calls.is_empty());
    assert_eq!(window.shared_state.visibility(), Visibility::Yes);
    window
}

fn shown() -> UnownedWindow {
    shown_on(monitor(61, "DP-1", 1.0, (0, 0)), no_quirks())
}

fn raise() -> Call {
    Call::ignore(Request::ConfigureWindow {
        window: WINDOW,
        x: None,
        y: None,
        width: None,
        height: None,
        stack_mode: Some(StackMode::Above),
    })
}

fn place(x: i32, y: i32) -> Call {
    Call::ignore(Request::ConfigureWindow {
        window: WINDOW,
        x: Some(x),
        y: Some(y),
        width: None,
        height: None,
        stack_mode: None,
    })
}

fn resize(width: u32, height: u32) -> Call {
    Call::ignore(Request::ConfigureWindow {
        window: WINDOW,
        x: None,
        y: None,
        width: Some(width),
        height: Some(height),
        stack_mode: None,
    })
}

fn state_message(operation: u32, first: u32, second: u32) -> Call {
    Call::message(
        WINDOW,
        ROOT,
        atoms().net_wm_state,
        ClientData { d0: operation, d1: first, d2: second, d3: 0, d4: 0 },
    )
}

fn fullscreen_hint(on: bool) -> Call {
    let mut call = state_message(if on { 1 } else { 0 }, atoms().net_wm_state_fullscreen, 0);
    call.ack = Ack::Check;
    call
}

fn flush() -> Call {
    Call::ignore(Request::Flush)
}

fn extents(left: u32, top: u32) -> FrameExtentsHeuristic {
    FrameExtentsHeuristic {
        frame_extents: FrameExtents { left, right: left, top, bottom: left },
        heuristic_path: FrameExtentsHeuristicPath::Supported,
    }
}

fn creation_calls(attrs: WindowAttributes) -> Vec<Call> {
    UnownedWindow::new(&server(no_quirks()), ids(), &process(), monitor(61, "DP-1", 1.0, (0, 0)), attrs)
        .unwrap()
        .calls
}

fn create_window_request(calls: &[Call]) -> Request {
    calls
        .iter()
        .map(|c| c.request)
        .find(|r| matches!(r, Request::CreateWindow { .. }))
        .unwrap()
}

fn normal_hints(calls: &[Call]) -> NormalHints {
    calls
        .iter()
        .find_map(|c| match c.request {
            Request::SetNormalHints { hints, .. } => Some(hints),
            _ => None,
        })
        .unwrap()
}

fn index_of(calls: &[Call], wanted: &Call) -> usize {
    calls.iter().position(|c| c == wanted).unwrap()
}

#[test]
fn plain_window_is_created_with_these_calls_in_this_order() {
    let calls = creation_calls(attributes());
    let title = b"winit window".to_vec();
    let expected = vec![
        Call::check(Request::CreateWindow {
            depth: 0,
            wid: WINDOW,
            parent: ROOT,
            x: 0,
            y: 0,
            width: 800,
            height: 600,
            visual: 0,
            event_mask: 0x0043_c04f,
            override_redirect: false,
            colormap: 0,
        }),
        Call::bytes(WINDOW, 39, 31, title.clone()),
        Call::bytes(WINDOW, 314, 302, title),
        Call::ignore(Request::UpdateMotifHints {
            window: WINDOW,
            decorations: Some(true),
            maximizable: None,
        }),
        Call::words(WINDOW, 308, 4, vec![5]),
        Call::bytes(WINDOW, 67, 31, b"app\0app\0".to_vec()),
        Call::words(WINDOW, 315, 6, vec![4242]),
        Call::bytes(WINDOW, 304, 31, b"box".to_vec()),
        Call::words(WINDOW, 326, 4, vec![334]),
        Call::check(Request::SetNormalHints {
            window: WINDOW,
            hints: NormalHints {
                position: None,
                size: Some(HintPixels { width: 800, height: 600 }),
                min_size: None,
                max_size: None,
                size_increment: None,
                base_size: None,
            },
        }),
        Call::words(WINDOW, 306, 4, vec![305, 316, 324]),
        Call::ignore(Request::CreateSyncCounter { id: 79 }),
        Call::words(WINDOW, 325, 6, vec![79]),
        Call::ignore(Request::SelectXInputEvents { window: WINDOW, device: 1, mask: 0x001c_07f0 }),
        Call::check(Request::SetDetectableAutoRepeat),
        Call::check(Request::CreateImeContext { window: WINDOW }),
        state_message(0, 318, 0),
        state_message(0, 319, 0),
        Call::check(Request::Sync),
    ];
    assert_eq!(calls, expected);
}

#[test]
fn only_vital_calls_are_confirmed() {
    let mut attrs = attributes();
    attrs.visible = true;
    attrs.maximized = true;
    attrs.embed_window = Some(5);
    attrs.activation_token = Some("token".to_owned());
    let calls = creation_calls(attrs);
    let confirmed: Vec<Request> =
        calls.iter().filter(|c| c.ack == Ack::Check).map(|c| c.request).collect();
    assert_eq!(confirmed.len(), 7);
    assert!(matches!(confirmed[0], Request::CreateWindow { .. }));
    assert!(matches!(confirmed[1], Request::ChangeProperty { property: 309, .. }));
    assert!(matches!(confirmed[2], Request::SetNormalHints { .. }));
    assert_eq!(confirmed[3], Request::SetDetectableAutoRepeat);
    assert_eq!(confirmed[4], Request::CreateImeContext { window: WINDOW });
    assert_eq!(confirmed[5], Request::RemoveActivationToken { window: WINDOW });
    assert_eq!(confirmed[6], Request::Sync);
    assert_eq!(calls.last().unwrap(), &Call::check(Request::Sync));
}

#[test]
fn metadata_is_written_before_the_window_is_mapped() {
    let mut attrs = attributes();
    attrs.visible = true;
    attrs.maximized = true;
    attrs.preferred_theme = Some(Theme::Light);
    attrs.window_level = WindowLevel::AlwaysOnTop;
    let calls = creation_calls(attrs);
    let map = index_of(&calls, &Call::ignore(Request::MapWindow { window: WINDOW }));
    assert_eq!(calls[map + 1], raise());
    let title = index_of(&calls, &Call::bytes(WINDOW, 314, 302, b"winit window".to_vec()));
    let theme = index_of(&calls, &Call::bytes(WINDOW, 310, 302, b"light".to_vec()));
    let class = index_of(&calls, &Call::bytes(WINDOW, 67, 31, b"app\0app\0".to_vec()));
    let hints = calls.iter().position(|c| matches!(c.request, Request::SetNormalHints { .. })).unwrap();
    let maximize = index_of(&calls, &state_message(1, 322, 323));
    let above = index_of(&calls, &state_message(1, 318, 0));
    assert!(title < theme && theme < class && class < hints && hints < map);
    assert!(map < maximize && maximize < above);
}

#[test]
fn hidden_window_is_not_mapped() {
    let calls = creation_calls(attributes());
    assert!(!calls.iter().any(|c| matches!(c.request, Request::MapWindow { .. })));
}

#[test]
fn negative_screen_id_is_refused() {
    let mut attrs = attributes();
    attrs.screen_id = Some(-1);
    let result =
        UnownedWindow::new(&server(no_quirks()), ids(), &process(), monitor(61, "DP-1", 1.0, (0, 0)), attrs);
    assert_eq!(
        result.err(),
        Some(RequestError::NotSupported(NotSupportedError::NegativeScreenId))
    );
    assert_eq!(NotSupportedError::NegativeScreenId.message(), "screen id must be non-negative");
}

#[test]
fn unknown_screen_id_is_refused() {
    let mut attrs = attributes();
    attrs.screen_id = Some(1);
    let result =
        UnownedWindow::new(&server(no_quirks()), ids(), &process(), monitor(61, "DP-1", 1.0, (0, 0)), attrs);
    assert_eq!(result.err(), Some(RequestError::NotSupported(NotSupportedError::UnknownScreenId)));
    assert_eq!(
        NotSupportedError::UnknownScreenId.message(),
        "requested screen id not present in server's response"
    );
    assert_eq!(resolve_screen(&server(no_quirks()), None), Ok(0));
    assert_eq!(resolve_screen(&server(no_quirks()), Some(0)), Ok(0));
    assert_eq!(
        resolve_screen(&server(no_quirks()), Some(i32::MAX)),
        Err(RequestError::NotSupported(NotSupportedError::UnknownScreenId))
    );
    let mut elsewhere = server(no_quirks());
    elsewhere.default_screen = 3;
    assert_eq!(
        resolve_screen(&elsewhere, None),
        Err(RequestError::NotSupported(NotSupportedError::UnknownScreenId))
    );
}

#[test]
fn missing_visual_is_refused() {
    let mut attrs = attributes();
    attrs.visual_id = Some(99);
    let result = Window::new(&server(no_quirks()), ids(), &process(), monitor(61, "DP-1", 1.0, (0, 0)), attrs);
    assert_eq!(result.err(), Some(RequestError::Os(OsError::NoSuchVisual(99))));
}

#[test]
fn requested_visual_gets_a_colormap() {
    let mut attrs = attributes();
    attrs.visual_id = Some(34);
    let creation =
        UnownedWindow::new(&server(no_quirks()), ids(), &process(), monitor(61, "DP-1", 1.0, (0, 0)), attrs)
            .unwrap();
    assert_eq!(
        creation.calls[0],
        Call::ignore(Request::CreateColormap { mid: 78, window: ROOT, visual: 34 })
    );
    match creation.calls[1].request {
        Request::CreateWindow { depth, visual, colormap, .. } => {
            assert_eq!((depth, visual, colormap), (32, 34, 78));
        },
        other => panic!("unexpected {other:?}"),
    }
    assert_eq!(creation.window.visual(), 34);
}

#[test]
fn transparent_window_takes_the_first_true_colour_visual_of_depth_32() {
    let visuals = server(no_quirks()).screens.remove(0).visuals;
    assert_eq!(
        choose_visual(&visuals, None, true),
        Ok(VisualChoice { visual: 35, depth: 32, colormap_visual: Some(35) })
    );
    assert_eq!(find_transparent_visual(&visuals), Some(Visual { visual_id: 35, class: 4, depth: 32 }));
    assert_eq!(find_visual(&visuals, 36), Some(Visual { visual_id: 36, class: 4, depth: 32 }));
    assert_eq!(find_visual(&visuals, 37), None);
    let opaque = vec![Visual { visual_id: 33, class: 4, depth: 24 }];
    let inherited = VisualChoice { visual: 0, depth: 0, colormap_visual: None };
    assert_eq!(choose_visual(&opaque, None, true), Ok(inherited));
    assert_eq!(choose_visual(&visuals, None, false), Ok(inherited));
    assert_eq!(choose_visual(&vec![], None, true), Ok(inherited));
    assert_eq!(
        choose_visual(&visuals, Some(33), true),
        Ok(VisualChoice { visual: 33, depth: 24, colormap_visual: Some(33) })
    );
    assert_eq!(
        choose_visual(&vec![], Some(1), false),
        Err(RequestError::Os(OsError::NoSuchVisual(1)))
    );
}

#[test]
fn inherited_visual_is_resolved_afterwards() {
    let mut window = hidden();
    assert_eq!(window.visual(), 0);
    window.resolve_visual(33);
    assert_eq!(window.visual(), 33);
    assert_eq!(window.screen_id(), 0);
}

#[test]
fn size_is_held_below_the_largest_first_and_above_the_smallest_then() {
    let size = |width, height| Some(PhysicalSize { width, height });
    assert_eq!(clamp_dimensions(None, None, None), (800, 600));
    assert_eq!(clamp_dimensions(size(300, 200), None, None), (300, 200));
    assert_eq!(clamp_dimensions(None, None, size(640, 700)), (640, 600));
    assert_eq!(clamp_dimensions(None, size(900, 100), None), (900, 600));
    assert_eq!(clamp_dimensions(size(50, 5000), size(100, 100), size(1000, 1000)), (100, 1000));
    // Where the bounds contradict each other, the smallest size wins.
    assert_eq!(clamp_dimensions(size(500, 500), size(700, 700), size(600, 600)), (700, 700));
}

#[test]
fn window_is_created_at_the_clamped_size_and_position() {
    let mut attrs = attributes();
    attrs.surface_size = Some(PhysicalSize { width: 5000, height: 10 });
    attrs.max_surface_size = Some(PhysicalSize { width: 1000, height: 1000 });
    attrs.min_surface_size = Some(PhysicalSize { width: 100, height: 100 });
    attrs.position = Some(PhysicalPosition { x: 40_000, y: -7 });
    attrs.override_redirect = true;
    attrs.embed_window = Some(5);
    attrs.parent_window = Some(6);
    let calls = creation_calls(attrs);
    assert_eq!(
        create_window_request(&calls),
        Request::CreateWindow {
            depth: 0,
            wid: WINDOW,
            parent: 5,
            x: i16::MAX,
            y: -7,
            width: 1000,
            height: 100,
            visual: 0,
            event_mask: 0x0043_c04f,
            override_redirect: true,
            colormap: 0,
        }
    );
    assert_eq!(
        normal_hints(&calls),
        NormalHints {
            position: Some(PhysicalPosition { x: 40_000, y: -7 }),
            size: Some(HintPixels { width: 1000, height: 100 }),
            min_size: Some(HintSize::Pixels(100, 100)),
            max_size: Some(HintSize::Pixels(1000, 1000)),
            size_increment: None,
            base_size: None,
        }
    );
    // Messages about the window go to its parent as the root.
    assert!(calls.contains(&Call::message(
        WINDOW,
        6,
        317,
        ClientData { d0: 0, d1: 318, d2: 0, d3: 0, d4: 0 },
    )));
}

#[test]
fn unresizable_window_is_pinned_to_its_size() {
    let mut attrs = attributes();
    attrs.resizable = false;
    attrs.min_surface_size = Some(PhysicalSize { width: 100, height: 100 });
    let creation =
        UnownedWindow::new(&server(no_quirks()), ids(), &process(), monitor(61, "DP-1", 1.0, (0, 0)), attrs)
            .unwrap();
    let hints = normal_hints(&creation.calls);
    assert_eq!(hints.min_size, Some(HintSize::Pixels(800, 600)));
    assert_eq!(hints.max_size, Some(HintSize::Pixels(800, 600)));
    let pinned = Some(Size::Physical(PhysicalSize { width: 800, height: 600 }));
    assert_eq!(creation.window.shared_state.min_surface_size(), pinned);
    assert_eq!(creation.window.shared_state.max_surface_size(), pinned);
    assert!(!creation.window.is_resizable());
}

#[test]
fn unresizable_window_is_not_pinned_where_the_window_manager_would_freeze() {
    let quirks = WmQuirks { positions_surface: false, freezes_size_hints: true };
    let mut attrs = attributes();
    attrs.resizable = false;
    attrs.min_surface_size = Some(PhysicalSize { width: 100, height: 100 });
    let creation =
        UnownedWindow::new(&server(quirks), ids(), &process(), monitor(61, "DP-1", 1.0, (0, 0)), attrs)
            .unwrap();
    let hints = normal_hints(&creation.calls);
    assert_eq!(hints.min_size, Some(HintSize::Pixels(100, 100)));
    assert_eq!(hints.max_size, None);
    assert_eq!(
        creation.window.shared_state.min_surface_size(),
        Some(Size::Physical(PhysicalSize { width: 100, height: 100 }))
    );
}

#[test]
fn logical_constraints_are_scaled_by_the_monitor() {
    let mut attrs = attributes();
    let logical = LogicalExtent { width: 8.0f64.to_bits(), height: 16.0f64.to_bits() };
    attrs.surface_resize_increments = Some(Size::Logical(logical));
    attrs.base_size = Some(Size::Physical(PhysicalSize { width: 3, height: 4 }));
    let m = monitor(61, "DP-1", 1.5, (0, 0));
    let creation = UnownedWindow::new(&server(no_quirks()), ids(), &process(), m, attrs).unwrap();
    let hints = normal_hints(&creation.calls);
    assert_eq!(
        hints.size_increment,
        Some(HintSize::Scaled {
            size: logical,
            scale: Scale::Factor(ScaleFactor { bits: 1.5f64.to_bits() }),
            range: PixelRange::Signed,
        })
    );
    assert_eq!(hints.base_size, Some(HintSize::Pixels(3, 4)));
    assert_eq!(creation.window.shared_state.surface_resize_increments(), Some(Size::Logical(logical)));
    assert_eq!(
        creation.window.shared_state.base_size(),
        Some(Size::Physical(PhysicalSize { width: 3, height: 4 }))
    );
}

#[test]
fn fullscreen_asked_for_at_creation_is_staged() {
    let m = monitor(61, "DP-1", 1.0, (0, 0));
    let mut attrs = attributes();
    attrs.visible = true;
    attrs.fullscreen = Some(Fullscreen::Borderless(None));
    attrs.position = Some(PhysicalPosition { x: 30, y: 40 });
    let creation = UnownedWindow::new(&server(no_quirks()), ids(), &process(), m, attrs).unwrap();
    let window = creation.window;
    assert_eq!(window.shared_state.visibility(), Visibility::YesWait);
    assert_eq!(window.shared_state.desired_fullscreen(), Some(Some(Fullscreen::Borderless(None))));
    assert_eq!(window.shared_state.fullscreen(), None);
    assert_eq!(window.shared_state.restore_position(), Some((30, 40)));
    assert_eq!(window.fullscreen(), Some(Fullscreen::Borderless(None)));
    assert!(!creation
        .calls
        .contains(&state_message(1, atoms().net_wm_state_fullscreen, 0)));
}

#[test]
fn position_alone_is_nothing_to_come_back_to() {
    let mut attrs = attributes();
    attrs.position = Some(PhysicalPosition { x: 30, y: 40 });
    let window = create_on(monitor(61, "DP-1", 1.0, (0, 0)), no_quirks(), attrs);
    assert_eq!(window.shared_state.restore_position(), None);
    assert_eq!(window.shared_state.desired_fullscreen(), None);
}

#[test]
fn new_window_starts_with_this_state() {
    let mut attrs = attributes();
    attrs.decorations = false;
    let window = create_on(monitor(61, "DP-1", 1.0, (0, 0)), no_quirks(), attrs);
    let state = &window.shared_state;
    assert_eq!(state.size(), None);
    assert_eq!(state.position(), None);
    assert_eq!(state.inner_position(), None);
    assert_eq!(state.inner_position_rel_parent(), None);
    assert_eq!(state.dpi_adjusted(), None);
    assert_eq!(state.fullscreen(), None);
    assert_eq!(state.desired_fullscreen(), None);
    assert_eq!(state.restore_position(), None);
    assert_eq!(state.desktop_video_mode(), None);
    assert_eq!(state.frame_extents(), None);
    assert_eq!(state.min_surface_size(), None);
    assert_eq!(state.max_surface_size(), None);
    assert!(!state.has_focus());
    assert!(!state.is_decorated());
    assert!(state.is_resizable());
    assert_eq!(window.cursor_grab_mode(), CursorGrabMode::Free);
    assert!(window.is_cursor_visible());
    assert_eq!(window.selected_cursor(), SelectedCursor::Named(CursorIcon { index: 0 }));
    state.coherence();
}

#[test]
fn cursor_asked_for_at_creation_is_selected() {
    let mut attrs = attributes();
    attrs.cursor = Cursor::Icon(CursorIcon { index: 4 });
    let creation =
        UnownedWindow::new(&server(no_quirks()), ids(), &process(), monitor(61, "DP-1", 1.0, (0, 0)), attrs)
            .unwrap();
    assert!(creation.calls.contains(&Call::ignore(Request::SetCursorIcon {
        window: WINDOW,
        icon: Some(CursorIcon { index: 4 }),
    })));
    assert_eq!(creation.window.selected_cursor(), SelectedCursor::Named(CursorIcon { index: 4 }));

    let mut attrs = attributes();
    attrs.cursor = Cursor::Custom(CustomCursor { id: 12 });
    let creation =
        UnownedWindow::new(&server(no_quirks()), ids(), &process(), monitor(61, "DP-1", 1.0, (0, 0)), attrs)
            .unwrap();
    assert!(creation.calls.contains(&Call::ignore(Request::SetCustomCursor {
        window: WINDOW,
        cursor: CustomCursor { id: 12 },
    })));
}

#[test]
fn icon_and_token_are_written_where_given() {
    let mut attrs = attributes();
    attrs.window_icon = Some(RgbaIcon { rgba: vec![1, 2, 3, 4], width: 1, height: 1 });
    attrs.activation_token = Some("tok".to_owned());
    let calls = creation_calls(attrs);
    assert!(calls.contains(&Call::words(WINDOW, 312, 6, vec![1, 1, 0x0401_0203])));
    let token = calls
        .iter()
        .find(|c| matches!(c.request, Request::RemoveActivationToken { .. }))
        .unwrap();
    assert_eq!(token.payload, Payload::Bytes(b"tok".to_vec()));
    assert_eq!(token.ack, Ack::Check);
}

#[test]
fn server_without_extensions_gets_no_counter_and_no_input_context() {
    let mut plain = server(no_quirks());
    plain.has_sync = false;
    plain.has_ime = false;
    let creation =
        UnownedWindow::new(&plain, ids(), &process(), monitor(61, "DP-1", 1.0, (0, 0)), attributes()).unwrap();
    assert!(!creation.calls.iter().any(|c| matches!(c.request, Request::CreateSyncCounter { .. })));
    assert!(!creation.calls.iter().any(|c| matches!(c.request, Request::CreateImeContext { .. })));
    assert_eq!(creation.window.sync_counter_id(), None);

    let zero = FreshIds { window: WINDOW, colormap: 78, sync_counter: 0 };
    let creation = UnownedWindow::new(
        &server(no_quirks()),
        zero,
        &process(),
        monitor(61, "DP-1", 1.0, (0, 0)),
        attributes(),
    )
    .unwrap();
    assert_eq!(creation.window.sync_counter_id(), None);
    assert!(creation.calls.contains(&Call::ignore(Request::CreateSyncCounter { id: 0 })));
}

#[test]
fn class_property_names_instance_and_class() {
    let title = "My Title".to_owned();
    let named = Some(ApplicationName { general: "org.app".to_owned(), instance: "main".to_owned() });
    assert_eq!(wm_class(&named, &process(), &title), b"main\0org.app\0".to_vec());
    assert_eq!(wm_class(&None, &process(), &title), b"app\0app\0".to_vec());
    let with_resource = ProcessInfo {
        pid: 1,
        hostname: vec![],
        binary_name: Some("app".to_owned()),
        resource_name: Some("res".to_owned()),
    };
    assert_eq!(wm_class(&None, &with_resource, &title), b"res\0app\0".to_vec());
    let anonymous = ProcessInfo { pid: 1, hostname: vec![], binary_name: None, resource_name: None };
    assert_eq!(wm_class(&None, &anonymous, &title), b"My Title\0My Title\0".to_vec());
    let only_resource = ProcessInfo {
        pid: 1,
        hostname: vec![],
        binary_name: None,
        resource_name: Some("res".to_owned()),
    };
    assert_eq!(wm_class(&None, &only_resource, &title), b"res\0My Title\0".to_vec());
}

#[test]
fn monitor_under_the_pointer_is_guessed() {
    let left = monitor(61, "DP-1", 1.0, (0, 0));
    let right = monitor(62, "DP-2", 2.0, (1920, 0));
    let monitors = vec![Arc::clone(&left), Arc::clone(&right)];
    assert!(Arc::ptr_eq(&guess_monitor(&monitors, Some((2000, 10))), &right));
    assert!(Arc::ptr_eq(&guess_monitor(&monitors, Some((10, 10))), &left));
    // The shared edge belongs to both; the first one wins.
    assert!(Arc::ptr_eq(&guess_monitor(&monitors, Some((1920, 10))), &left));
    // Outside every monitor, and without a pointer: the first one.
    assert!(Arc::ptr_eq(&guess_monitor(&monitors, Some((-5, 10))), &left));
    assert!(Arc::ptr_eq(&guess_monitor(&monitors, None), &left));
}

#[test]
fn without_monitors_the_dummy_is_guessed() {
    let guessed = guess_monitor(&vec![], Some((0, 0)));
    assert!(guessed.is_dummy());
    assert_eq!(guessed.native_id(), 0);
    let dummy = MonitorHandle::dummy();
    assert_eq!(dummy.name, "<dummy monitor>");
    assert_eq!(dummy.scale_factor, ScaleFactor { bits: 1.0f64.to_bits() });
    assert_eq!(dummy.position, (0, 0));
    assert_eq!(dummy.rect, AaRect { x: 0, y: 0, width: 1, height: 1 });
    assert!(dummy.video_modes.is_empty());
    assert!(!monitor(61, "DP-1", 1.0, (0, 0)).is_dummy());
}

#[test]
fn monitors_compare_by_id() {
    let a = monitor(61, "DP-1", 1.0, (0, 0));
    let b = monitor(61, "other", 2.0, (5, 5));
    let c = monitor(62, "DP-1", 1.0, (0, 0));
    assert!(*a == *b);
    assert!(*a != *c);
    assert_eq!(Fullscreen::Borderless(Some(a.clone())), Fullscreen::Borderless(Some(b)));
    assert_ne!(Fullscreen::Borderless(Some(a)), Fullscreen::Borderless(Some(c)));
}

#[test]
fn handle_wraps_the_created_window() {
    let (window, calls) = Window::new(
        &server(no_quirks()),
        ids(),
        &process(),
        monitor(61, "DP-1", 1.0, (0, 0)),
        attributes(),
    )
    .unwrap();
    assert_eq!(calls, creation_calls(attributes()));
    assert_eq!(window.0.shared_state.visibility(), Visibility::No);
    assert_eq!(window.destroy(), Call::ignore(Request::DestroyWindow { window: WINDOW }));
    let mut window = window;
    let step = window.close();
    assert!(step.calls.is_empty());
    assert_eq!(step.next, FullscreenNext::Finished);
}

#[test]
fn screen_and_visual_errors_come_whatever_title_and_size_are() {
    let mut attrs = attributes();
    attrs.title = "bad\0title".to_owned();
    attrs.surface_size = Some(PhysicalSize { width: 100_000, height: 100_000 });
    attrs.screen_id = Some(-1);
    let result =
        UnownedWindow::new(&server(no_quirks()), ids(), &process(), monitor(61, "DP-1", 1.0, (0, 0)), attrs);
    assert_eq!(
        result.err(),
        Some(RequestError::NotSupported(NotSupportedError::NegativeScreenId))
    );

    let mut attrs = attributes();
    attrs.title = "bad\0title".to_owned();
    attrs.screen_id = Some(7);
    let result =
        UnownedWindow::new(&server(no_quirks()), ids(), &process(), monitor(61, "DP-1", 1.0, (0, 0)), attrs);
    assert_eq!(result.err(), Some(RequestError::NotSupported(NotSupportedError::UnknownScreenId)));

    let mut attrs = attributes();
    attrs.title = "bad\0title".to_owned();
    attrs.surface_size = Some(PhysicalSize { width: 100_000, height: 100_000 });
    attrs.visual_id = Some(99);
    let result = Window::new(&server(no_quirks()), ids(), &process(), monitor(61, "DP-1", 1.0, (0, 0)), attrs);
    assert_eq!(result.err(), Some(RequestError::Os(OsError::NoSuchVisual(99))));
}
