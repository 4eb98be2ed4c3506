//! Creating a window: what is asked of the server, in which order, and the
//! state that the new window starts with.
//!
//! Everything that must be known of the server beforehand is handed in as
//! plain values. The result is the window together with the calls that bring
//! it about. A call that is confirmed must succeed for the window to be
//! usable; the others are best effort.

use crate::cursor::{Cursor, CursorGrabMode, SelectedCursor};
use crate::error::{NotSupportedError, OsError, RequestError};
use crate::geometry::{
    cast_dimension_to_hint, cast_size_to_hint, clamp_to_i16, hint_dimension, saturate_i16,
    HintSize, PhysicalPosition, PhysicalSize, PixelRange, Scale, Size,
};
use crate::hints::{HintPixels, NormalHints};
use crate::host::ProcessInfo;
use crate::monitor::{Fullscreen, MonitorHandle};
use crate::protocol::{
    checked, emit, emit_all, ignored, no_calls, property_bytes, property_words, window_event_mask,
    xinput_event_mask, Ack, Atoms, Call, CallView, Payload, PayloadView, Request, StackMode,
    ALL_MASTER_DEVICES, ATOM_ATOM, ATOM_CARDINAL, ATOM_STRING, ATOM_WM_CLASS, COPY_FROM_PARENT,
    TRUE_COLOR, WINDOW_EVENTS, XI_WINDOW_EVENTS,
};
use crate::sizing::{pixels_hint, size_hint};
use crate::state::{SharedState, StateData, Visibility};
use crate::window::{
    icon_words, RgbaIcon, Theme, UnownedWindow, WindowLevel, WindowModel, WindowType, WmQuirks,
};
use std::sync::Arc;
use vstd::prelude::*;
use vstd::string::*;
use vstd::utf8::encode_utf8;

verus! {

/// The names that a window is known by to the desktop.
#[derive(Debug)]
pub struct ApplicationName {
    pub general: String,
    pub instance: String,
}

/// What an application asks of a new window. Sizes and the position are in
/// physical pixels of the monitor that the window is taken to be on.
#[derive(Debug)]
pub struct WindowAttributes {
    pub surface_size: Option<PhysicalSize>,
    pub min_surface_size: Option<PhysicalSize>,
    pub max_surface_size: Option<PhysicalSize>,
    pub surface_resize_increments: Option<Size>,
    pub base_size: Option<Size>,
    pub position: Option<PhysicalPosition>,
    pub resizable: bool,
    pub title: String,
    pub maximized: bool,
    pub visible: bool,
    pub transparent: bool,
    pub decorations: bool,
    pub window_icon: Option<RgbaIcon>,
    pub preferred_theme: Option<Theme>,
    pub cursor: Cursor,
    pub parent_window: Option<u32>,
    pub fullscreen: Option<Fullscreen>,
    pub window_level: WindowLevel,
    pub name: Option<ApplicationName>,
    pub activation_token: Option<String>,
    pub visual_id: Option<u32>,
    pub screen_id: Option<i32>,
    pub override_redirect: bool,
    pub x11_window_types: Vec<WindowType>,
    pub embed_window: Option<u32>,
}

/// A visual of a screen, with the depth it belongs to.
#[derive(Clone, Copy, Debug, PartialEq, Eq, Structural)]
pub struct Visual {
    pub visual_id: u32,
    pub class: u8,
    pub depth: u8,
}

/// A screen of the server: its root window, and its visuals in the order
/// that the server lists them, depth by depth.
#[derive(Debug)]
pub struct Screen {
    pub root: u32,
    pub visuals: Vec<Visual>,
}

/// What is known of the server before a window is created.
#[derive(Debug)]
pub struct Server {
    pub atoms: Atoms,
    pub quirks: WmQuirks,
    pub default_screen: i32,
    pub default_root: u32,
    pub screens: Vec<Screen>,
    /// Whether the server has the synchronization extension.
    pub has_sync: bool,
    /// Whether an input method is at hand.
    pub has_ime: bool,
}

/// Resource ids that the connection set aside for a new window.
#[derive(Clone, Copy, Debug, PartialEq, Eq, Structural)]
pub struct FreshIds {
    pub window: u32,
    pub colormap: u32,
    pub sync_counter: u32,
}

/// The visual that a window is created with.
#[derive(Clone, Copy, Debug, PartialEq, Eq, Structural)]
pub struct VisualChoice {
    /// The visual's id, or zero for "as the parent's".
    pub visual: u32,
    /// The depth, or zero for "as the parent's".
    pub depth: u8,
    /// The visual that a colormap is created for, where one is needed.
    pub colormap_visual: Option<u32>,
}

/// A new window and the calls that bring it about.
#[derive(Debug)]
pub struct Creation {
    pub window: UnownedWindow,
    pub calls: Vec<Call>,
}

/// A creation as a mathematical value.
pub struct CreationModel {
    pub window: WindowModel,
    pub calls: Seq<CallView>,
}

/// The smaller of two numbers.
pub open spec fn smaller(a: u32, b: u32) -> u32 {
    if a <= b {
        a
    } else {
        b
    }
}

/// The larger of two numbers.
pub open spec fn larger(a: u32, b: u32) -> u32 {
    if a >= b {
        a
    } else {
        b
    }
}

/// The size that a window is created with: the size asked for, or 800 by 600,
/// held below the largest size first and above the smallest size then.
pub open spec fn initial_dimensions(
    surface: Option<PhysicalSize>,
    min: Option<PhysicalSize>,
    max: Option<PhysicalSize>,
) -> (u32, u32) {
    let d = match surface {
        Some(s) => (s.width, s.height),
        None => (800u32, 600u32),
    };
    let d = match max {
        Some(m) => (smaller(d.0, m.width), smaller(d.1, m.height)),
        None => d,
    };
    match min {
        Some(m) => (larger(d.0, m.width), larger(d.1, m.height)),
        None => d,
    }
}

/// The first visual with the given id.
pub open spec fn visual_with_id(visuals: Seq<Visual>, id: u32) -> Option<Visual>
    decreases visuals.len(),
{
    if visuals.len() == 0 {
        None
    } else if visuals[0].visual_id == id {
        Some(visuals[0])
    } else {
        visual_with_id(visuals.drop_first(), id)
    }
}

/// The first visual of true colour with 32 bits of depth.
pub open spec fn transparent_visual(visuals: Seq<Visual>) -> Option<Visual>
    decreases visuals.len(),
{
    if visuals.len() == 0 {
        None
    } else if visuals[0].depth == 32 && visuals[0].class == TRUE_COLOR {
        Some(visuals[0])
    } else {
        transparent_visual(visuals.drop_first())
    }
}

/// The visual that a window is created with. A visual that is asked for by
/// its id must exist. A transparent window gets the first visual of true
/// colour with 32 bits of depth, where there is one. Any other window takes
/// its parent's visual, and needs no colormap.
pub open spec fn visual_choice(
    visuals: Seq<Visual>,
    visual_id: Option<u32>,
    transparent: bool,
) -> Result<VisualChoice, RequestError> {
    let inherited = VisualChoice { visual: COPY_FROM_PARENT, depth: 0, colormap_visual: None };
    match visual_id {
        Some(id) => match visual_with_id(visuals, id) {
            Some(v) => Ok(
                VisualChoice { visual: v.visual_id, depth: v.depth, colormap_visual: Some(id) },
            ),
            None => Err(RequestError::Os(OsError::NoSuchVisual(id))),
        },
        None => if transparent {
            match transparent_visual(visuals) {
                Some(v) => Ok(
                    VisualChoice {
                        visual: v.visual_id,
                        depth: v.depth,
                        colormap_visual: Some(v.visual_id),
                    },
                ),
                None => Ok(inherited),
            }
        } else {
            Ok(inherited)
        },
    }
}

/// The index of the screen that a window is created on, or why there is none.
pub open spec fn screen_index(server: Server, requested: Option<i32>) -> Result<int, RequestError> {
    let id = match requested {
        Some(id) => id,
        None => server.default_screen,
    };
    if id < 0 {
        Err(RequestError::NotSupported(NotSupportedError::NegativeScreenId))
    } else if id >= server.screens@.len() {
        Err(RequestError::NotSupported(NotSupportedError::UnknownScreenId))
    } else {
        Ok(id as int)
    }
}

/// The instance name and the class name of a window: those it was given, or
/// else the program's file name (the title where that is unknown) as the
/// class and the value of the `RESOURCE_NAME` variable (the class where it is
/// not set) as the instance.
pub open spec fn class_names(
    name: Option<ApplicationName>,
    process: ProcessInfo,
    title: Seq<char>,
) -> (Seq<char>, Seq<char>) {
    match name {
        Some(n) => (n.instance@, n.general@),
        None => {
            let class = match process.binary_name {
                Some(b) => b@,
                None => title,
            };
            let instance = match process.resource_name {
                Some(r) => r@,
                None => class,
            };
            (instance, class)
        },
    }
}

/// The value of the class property: instance and class, each with a zero
/// byte behind it.
pub open spec fn class_bytes(instance: Seq<char>, class: Seq<char>) -> Seq<u8> {
    encode_utf8(instance) + seq![0u8] + encode_utf8(class) + seq![0u8]
}

/// The smallest and largest size that the size hints start with: those
/// asked for, or the window's own size twice where it is not resizable and
/// the window manager can deal with that.
pub open spec fn initial_bounds(
    attrs: WindowAttributes,
    quirks: WmQuirks,
    dimensions: (u32, u32),
) -> (Option<PhysicalSize>, Option<PhysicalSize>) {
    if !attrs.resizable && !quirks.freezes_size_hints {
        let pinned = Some(PhysicalSize { width: dimensions.0, height: dimensions.1 });
        (pinned, pinned)
    } else {
        (attrs.min_surface_size, attrs.max_surface_size)
    }
}

/// A size in pixels as a constraint.
pub open spec fn physical(size: Option<PhysicalSize>) -> Option<Size> {
    match size {
        Some(s) => Some(Size::Physical(s)),
        None => None,
    }
}

/// A size in pixels as an entry of a size hint.
pub open spec fn physical_hint(size: Option<PhysicalSize>) -> Option<HintSize> {
    match size {
        Some(s) => Some(HintSize::Pixels(hint_dimension(s.width), hint_dimension(s.height))),
        None => None,
    }
}

/// The size hints that a window is created with.
pub open spec fn initial_hints(
    attrs: WindowAttributes,
    quirks: WmQuirks,
    dimensions: (u32, u32),
    scale: Scale,
) -> NormalHints {
    let bounds = initial_bounds(attrs, quirks, dimensions);
    NormalHints {
        position: attrs.position,
        size: Some(
            HintPixels {
                width: hint_dimension(dimensions.0),
                height: hint_dimension(dimensions.1),
            },
        ),
        min_size: physical_hint(bounds.0),
        max_size: physical_hint(bounds.1),
        size_increment: size_hint(attrs.surface_resize_increments, scale, PixelRange::Signed),
        base_size: size_hint(attrs.base_size, scale, PixelRange::Signed),
    }
}

/// `calls` where `cond` holds, nothing where it does not.
pub open spec fn when(cond: bool, calls: Seq<CallView>) -> Seq<CallView> {
    if cond {
        calls
    } else {
        seq![]
    }
}

/// The state that a new window starts with. A fullscreen mode that was asked
/// for is staged, since the window is not visible yet, and the position asked
/// for is then the one to come back to.
pub open spec fn created_state(
    monitor: Arc<MonitorHandle>,
    attrs: WindowAttributes,
    quirks: WmQuirks,
    dimensions: (u32, u32),
) -> StateData {
    let bounds = initial_bounds(attrs, quirks, dimensions);
    StateData {
        min_surface_size: physical(bounds.0),
        max_surface_size: physical(bounds.1),
        surface_resize_increments: attrs.surface_resize_increments,
        base_size: attrs.base_size,
        desired_fullscreen: if attrs.fullscreen is Some {
            Some(attrs.fullscreen)
        } else {
            None
        },
        restore_position: match attrs.position {
            Some(p) if attrs.fullscreen is Some => Some((p.x, p.y)),
            _ => None,
        },
        ..StateData::initial(monitor, attrs.visible, attrs.resizable, attrs.decorations)
    }
}

/// The new window, on screen `screen_id` under `root`, with `visual`, before
/// its cursor is selected.
pub open spec fn created_window(
    server: Server,
    ids: FreshIds,
    monitor: Arc<MonitorHandle>,
    attrs: WindowAttributes,
    screen_id: i32,
    root: u32,
    visual: u32,
    dimensions: (u32, u32),
) -> WindowModel {
    WindowModel {
        xwindow: ids.window,
        visual,
        root,
        default_root: server.default_root,
        screen_id,
        sync_counter_id: if server.has_sync && ids.sync_counter != 0 {
            Some(ids.sync_counter)
        } else {
            None
        },
        atoms: server.atoms,
        quirks: server.quirks,
        selected_cursor: SelectedCursor::spec_default(),
        cursor_grabbed_mode: CursorGrabMode::Free,
        cursor_visible: true,
        state: created_state(monitor, attrs, server.quirks, dimensions),
    }
}

/// The call that creates the window.
pub open spec fn create_window_call(
    ids: FreshIds,
    attrs: WindowAttributes,
    root: u32,
    choice: VisualChoice,
    dimensions: (u32, u32),
) -> CallView {
    checked(
        Request::CreateWindow {
            depth: choice.depth,
            wid: ids.window,
            parent: match attrs.embed_window {
                Some(p) => p,
                None => root,
            },
            x: match attrs.position {
                Some(p) => saturate_i16(p.x),
                None => 0i16,
            },
            y: match attrs.position {
                Some(p) => saturate_i16(p.y),
                None => 0i16,
            },
            width: dimensions.0 as u16,
            height: dimensions.1 as u16,
            visual: choice.visual,
            event_mask: WINDOW_EVENTS,
            override_redirect: attrs.override_redirect,
            colormap: if choice.colormap_visual is Some {
                ids.colormap
            } else {
                0
            },
        },
    )
}

/// The calls that create the window: a colormap where the visual needs one,
/// then the window itself, which is confirmed.
pub open spec fn window_stage(
    ids: FreshIds,
    attrs: WindowAttributes,
    root: u32,
    choice: VisualChoice,
    dimensions: (u32, u32),
) -> Seq<CallView> {
    (match choice.colormap_visual {
        Some(v) => seq![
            ignored(Request::CreateColormap { mid: ids.colormap, window: root, visual: v }),
        ],
        None => seq![],
    }) + seq![create_window_call(ids, attrs, root, choice, dimensions)]
}

impl WindowModel {
    /// What must be set before the window is mapped, because window managers
    /// read it when they place the window: title, decorations, theme.
    pub open spec fn metadata_stage(self, attrs: WindowAttributes) -> Seq<CallView> {
        self.title_calls(encode_utf8(attrs.title@)) + seq![
            self.decorations_call(attrs.decorations),
        ] + when(attrs.preferred_theme is Some, seq![self.theme_call(attrs.preferred_theme)])
            + when(attrs.embed_window is Some, seq![self.embed_call()])
    }

    /// The call that announces version 5 of the drag-and-drop protocol.
    pub open spec fn dnd_call(self) -> CallView {
        property_words(self.xwindow, self.atoms.xdnd_aware, ATOM_ATOM, seq![5u32])
    }

    /// The call that writes the class property.
    pub open spec fn class_call(self, instance: Seq<char>, class: Seq<char>) -> CallView {
        property_bytes(self.xwindow, ATOM_WM_CLASS, ATOM_STRING, class_bytes(instance, class))
    }

    /// Who the window belongs to: drag-and-drop awareness, class, process and
    /// machine, window types.
    pub open spec fn identity_stage(
        self,
        attrs: WindowAttributes,
        process: ProcessInfo,
    ) -> Seq<CallView> {
        let names = class_names(attrs.name, process, attrs.title@);
        seq![self.dnd_call(), self.class_call(names.0, names.1)] + self.pid_calls(
            process.pid,
            process.hostname@,
        ) + seq![self.window_types_call(attrs.x11_window_types@)]
    }

    /// The call that advertises the protocols that the window takes part in:
    /// closing on request, answering pings, synchronized resizing.
    pub open spec fn protocols_call(self) -> CallView {
        property_words(
            self.xwindow,
            self.atoms.wm_protocols,
            ATOM_ATOM,
            seq![
                self.atoms.wm_delete_window,
                self.atoms.net_wm_ping,
                self.atoms.net_wm_sync_request,
            ],
        )
    }

    /// The calls that create the counter for synchronized resizing and name
    /// it on the window.
    pub open spec fn sync_calls(self, counter: u32) -> Seq<CallView> {
        seq![
            ignored(Request::CreateSyncCounter { id: counter }),
            property_words(
                self.xwindow,
                self.atoms.net_wm_sync_request_counter,
                ATOM_CARDINAL,
                seq![counter],
            ),
        ]
    }

    /// Size hints, which are confirmed, then icon, protocols, the counter for
    /// synchronized resizing, and the events of the input extension.
    pub open spec fn hints_stage(
        self,
        attrs: WindowAttributes,
        hints: NormalHints,
        has_sync: bool,
        counter: u32,
    ) -> Seq<CallView> {
        seq![checked(Request::SetNormalHints { window: self.xwindow, hints })] + (
        match attrs.window_icon {
            Some(icon) => seq![self.icon_call(icon_words(icon.rgba@, icon.width, icon.height))],
            None => seq![],
        }) + seq![self.protocols_call()] + when(has_sync, self.sync_calls(counter)) + seq![
            ignored(
                Request::SelectXInputEvents {
                    window: self.xwindow,
                    device: ALL_MASTER_DEVICES,
                    mask: XI_WINDOW_EVENTS,
                },
            ),
        ]
    }

    /// Mapping and raising, where the window is to be visible; then what the
    /// keyboard needs, both confirmed.
    pub open spec fn map_stage(self, visible: bool, has_ime: bool) -> Seq<CallView> {
        when(
            visible,
            seq![
                ignored(Request::MapWindow { window: self.xwindow }),
                ignored(
                    Request::ConfigureWindow {
                        window: self.xwindow,
                        x: None,
                        y: None,
                        width: None,
                        height: None,
                        stack_mode: Some(StackMode::Above),
                    },
                ),
            ],
        ) + seq![checked(Request::SetDetectableAutoRepeat)] + when(
            has_ime,
            seq![checked(Request::CreateImeContext { window: self.xwindow })],
        )
    }

    /// What can only be asked of a mapped window: maximizing and the level.
    /// Then the cursor, the startup notification, and one round trip, so
    /// that a window that could not be created is never handed out.
    pub open spec fn final_stage(self, attrs: WindowAttributes) -> Seq<CallView> {
        when(attrs.maximized, seq![self.maximized_call(true)]) + self.window_level_calls(
            attrs.window_level,
        ) + self.set_cursor_calls(attrs.cursor) + (match attrs.activation_token {
            Some(token) => seq![
                CallView {
                    request: Request::RemoveActivationToken { window: self.xwindow },
                    ack: Ack::Check,
                    payload: PayloadView::Bytes(encode_utf8(token@)),
                },
            ],
            None => seq![],
        }) + seq![checked(Request::Sync)]
    }
}

impl WindowModel {
    /// Everything that is asked for a window once it exists.
    pub open spec fn setup_calls(
        self,
        attrs: WindowAttributes,
        process: ProcessInfo,
        hints: NormalHints,
        has_sync: bool,
        has_ime: bool,
        counter: u32,
    ) -> Seq<CallView> {
        self.metadata_stage(attrs) + self.identity_stage(attrs, process) + self.hints_stage(
            attrs,
            hints,
            has_sync,
            counter,
        ) + self.map_stage(attrs.visible, has_ime) + self.final_stage(attrs)
    }
}

/// Whether the screen that a window asks for exists and has the visual that
/// the window asks for: whether its creation gets as far as a window.
pub open spec fn finds_screen_and_visual(server: Server, attrs: WindowAttributes) -> bool {
    screen_index(server, attrs.screen_id) matches Ok(index) && visual_choice(
        server.screens@[index].visuals@,
        attrs.visual_id,
        attrs.transparent,
    ) is Ok
}

/// What must hold of a window for the calls that create it to be written:
/// its title holds no zero byte, and its size, held to the size constraints,
/// fits the sixteen bits of the request.
pub open spec fn creatable(attrs: WindowAttributes) -> bool {
    &&& !encode_utf8(attrs.title@).contains(0u8)
    &&& initial_dimensions(
        attrs.surface_size,
        attrs.min_surface_size,
        attrs.max_surface_size,
    ).0 <= u16::MAX
    &&& initial_dimensions(
        attrs.surface_size,
        attrs.min_surface_size,
        attrs.max_surface_size,
    ).1 <= u16::MAX
}

/// The creation of a window, or why it fails: the screen must exist, and a
/// visual that is asked for by its id must exist on it.
pub open spec fn creation(
    server: Server,
    ids: FreshIds,
    process: ProcessInfo,
    monitor: Arc<MonitorHandle>,
    attrs: WindowAttributes,
) -> Result<CreationModel, RequestError> {
    match screen_index(server, attrs.screen_id) {
        Err(e) => Err(e),
        Ok(index) => {
            let screen = server.screens@[index];
            match visual_choice(screen.visuals@, attrs.visual_id, attrs.transparent) {
                Err(e) => Err(e),
                Ok(choice) => {
                    let root = match attrs.parent_window {
                        Some(p) => p,
                        None => screen.root,
                    };
                    let dimensions = initial_dimensions(
                        attrs.surface_size,
                        attrs.min_surface_size,
                        attrs.max_surface_size,
                    );
                    let w = created_window(
                        server,
                        ids,
                        monitor,
                        attrs,
                        index as i32,
                        root,
                        choice.visual,
                        dimensions,
                    );
                    let hints = initial_hints(
                        attrs,
                        server.quirks,
                        dimensions,
                        Scale::Factor(monitor.scale_factor),
                    );
                    Ok(
                        CreationModel {
                            window: w.after_set_cursor(attrs.cursor),
                            calls: window_stage(ids, attrs, root, choice, dimensions)
                                + w.setup_calls(
                                attrs,
                                process,
                                hints,
                                server.has_sync,
                                server.has_ime,
                                ids.sync_counter,
                            ),
                        },
                    )
                },
            }
        },
    }
}

/// The size that a window is created with: the size asked for, or 800 by 600,
/// held below the largest size first and above the smallest size then.
pub fn clamp_dimensions(
    surface: Option<PhysicalSize>,
    min: Option<PhysicalSize>,
    max: Option<PhysicalSize>,
) -> (r: (u32, u32))
    ensures
        r == initial_dimensions(surface, min, max),
{
    let mut d: (u32, u32) = match surface {
        Some(s) => (s.width, s.height),
        None => (800, 600),
    };
    if let Some(m) = max {
        if m.width < d.0 {
            d.0 = m.width;
        }
        if m.height < d.1 {
            d.1 = m.height;
        }
    }
    if let Some(m) = min {
        if m.width > d.0 {
            d.0 = m.width;
        }
        if m.height > d.1 {
            d.1 = m.height;
        }
    }
    d
}

/// The first visual with the given id.
pub fn find_visual(visuals: &Vec<Visual>, id: u32) -> (r: Option<Visual>)
    ensures
        r == visual_with_id(visuals@, id),
{
    let mut i: usize = 0;
    assert(visuals@.subrange(0, visuals.len() as int) =~= visuals@);
    while i < visuals.len()
        invariant
            i <= visuals.len(),
            visual_with_id(visuals@, id) == visual_with_id(
                visuals@.subrange(i as int, visuals.len() as int),
                id,
            ),
        decreases visuals.len() - i,
    {
        let ghost rest = visuals@.subrange(i as int, visuals.len() as int);
        assert(rest[0] == visuals@[i as int]);
        assert(rest.drop_first() =~= visuals@.subrange(i + 1, visuals.len() as int));
        if visuals[i].visual_id == id {
            return Some(visuals[i]);
        }
        i = i + 1;
    }
    None
}

/// The first visual of true colour with 32 bits of depth.
pub fn find_transparent_visual(visuals: &Vec<Visual>) -> (r: Option<Visual>)
    ensures
        r == transparent_visual(visuals@),
{
    let mut i: usize = 0;
    assert(visuals@.subrange(0, visuals.len() as int) =~= visuals@);
    while i < visuals.len()
        invariant
            i <= visuals.len(),
            transparent_visual(visuals@) == transparent_visual(
                visuals@.subrange(i as int, visuals.len() as int),
            ),
        decreases visuals.len() - i,
    {
        let ghost rest = visuals@.subrange(i as int, visuals.len() as int);
        assert(rest[0] == visuals@[i as int]);
        assert(rest.drop_first() =~= visuals@.subrange(i + 1, visuals.len() as int));
        if visuals[i].depth == 32 && visuals[i].class == TRUE_COLOR {
            return Some(visuals[i]);
        }
        i = i + 1;
    }
    None
}

/// The visual that a window is created with, or why there is none.
pub fn choose_visual(visuals: &Vec<Visual>, visual_id: Option<u32>, transparent: bool) -> (r: Result<
    VisualChoice,
    RequestError,
>)
    ensures
        r == visual_choice(visuals@, visual_id, transparent),
{
    let inherited = VisualChoice { visual: COPY_FROM_PARENT, depth: 0, colormap_visual: None };
    match visual_id {
        Some(id) => match find_visual(visuals, id) {
            Some(v) => Ok(
                VisualChoice { visual: v.visual_id, depth: v.depth, colormap_visual: Some(id) },
            ),
            None => Err(RequestError::Os(OsError::NoSuchVisual(id))),
        },
        None => {
            if transparent {
                match find_transparent_visual(visuals) {
                    Some(v) => Ok(
                        VisualChoice {
                            visual: v.visual_id,
                            depth: v.depth,
                            colormap_visual: Some(v.visual_id),
                        },
                    ),
                    None => Ok(inherited),
                }
            } else {
                Ok(inherited)
            }
        },
    }
}

/// The index of the screen that a window is created on, or why there is none.
pub fn resolve_screen(server: &Server, requested: Option<i32>) -> (r: Result<usize, RequestError>)
    ensures
        match r {
            Ok(i) => screen_index(*server, requested) == Ok::<int, RequestError>(i as int),
            Err(e) => screen_index(*server, requested) == Err::<int, RequestError>(e),
        },
{
    let id = match requested {
        Some(id) => id,
        None => server.default_screen,
    };
    if id < 0 {
        return Err(RequestError::NotSupported(NotSupportedError::NegativeScreenId));
    }
    let index = id as usize;
    if index >= server.screens.len() {
        return Err(RequestError::NotSupported(NotSupportedError::UnknownScreenId));
    }
    Ok(index)
}

/// The value of the class property of a window.
pub fn wm_class(name: &Option<ApplicationName>, process: &ProcessInfo, title: &String) -> (r: Vec<u8>)
    ensures
        r@ == class_bytes(
            class_names(*name, *process, title@).0,
            class_names(*name, *process, title@).1,
        ),
{
    let (mut instance, mut class): (Vec<u8>, Vec<u8>) = match name {
        Some(n) => (n.instance.as_str().as_bytes_vec(), n.general.as_str().as_bytes_vec()),
        None => {
            let class = match &process.binary_name {
                Some(b) => b.as_str().as_bytes_vec(),
                None => title.as_str().as_bytes_vec(),
            };
            let instance = match &process.resource_name {
                Some(r) => r.as_str().as_bytes_vec(),
                None => match &process.binary_name {
                    Some(b) => b.as_str().as_bytes_vec(),
                    None => title.as_str().as_bytes_vec(),
                },
            };
            (instance, class)
        },
    };
    let mut out: Vec<u8> = Vec::new();
    out.append(&mut instance);
    out.push(0);
    out.append(&mut class);
    out.push(0);
    assert(out@ =~= class_bytes(
        class_names(*name, *process, title@).0,
        class_names(*name, *process, title@).1,
    ));
    out
}

/// A size in pixels as an entry of a size hint.
fn physical_to_hint(size: Option<PhysicalSize>) -> (r: Option<HintSize>)
    ensures
        r == physical_hint(size),
{
    match size {
        Some(s) => Some(
            HintSize::Pixels(cast_dimension_to_hint(s.width), cast_dimension_to_hint(s.height)),
        ),
        None => None,
    }
}

/// A size as an entry of a size hint.
fn size_to_hint(size: Option<Size>, scale: Scale) -> (r: Option<HintSize>)
    ensures
        r == size_hint(size, scale, PixelRange::Signed),
{
    match size {
        Some(s) => Some(cast_size_to_hint(s, scale)),
        None => None,
    }
}

/// The size hints that a window is created with.
fn starting_hints(
    attrs: &WindowAttributes,
    quirks: WmQuirks,
    dimensions: (u32, u32),
    scale: Scale,
) -> (r: NormalHints)
    ensures
        r == initial_hints(*attrs, quirks, dimensions, scale),
{
    let pin = !attrs.resizable && !quirks.freezes_size_hints;
    let (min, max) = if pin {
        let pinned = Some(PhysicalSize { width: dimensions.0, height: dimensions.1 });
        (pinned, pinned)
    } else {
        (attrs.min_surface_size, attrs.max_surface_size)
    };
    NormalHints {
        position: attrs.position,
        size: Some(
            HintPixels {
                width: cast_dimension_to_hint(dimensions.0),
                height: cast_dimension_to_hint(dimensions.1),
            },
        ),
        min_size: physical_to_hint(min),
        max_size: physical_to_hint(max),
        size_increment: size_to_hint(attrs.surface_resize_increments, scale),
        base_size: size_to_hint(attrs.base_size, scale),
    }
}

/// A size in pixels as a constraint.
fn physical_to_size(size: Option<PhysicalSize>) -> (r: Option<Size>)
    ensures
        r == physical(size),
{
    match size {
        Some(s) => Some(Size::Physical(s)),
        None => None,
    }
}

impl UnownedWindow {
    /// The calls that create the window.
    fn window_stage(
        ids: FreshIds,
        attrs: &WindowAttributes,
        root: u32,
        choice: VisualChoice,
        dimensions: (u32, u32),
    ) -> (calls: Vec<Call>)
        requires
            dimensions.0 <= u16::MAX,
            dimensions.1 <= u16::MAX,
        ensures
            calls.deep_view() == window_stage(ids, *attrs, root, choice, dimensions),
    {
        let mut calls = no_calls();
        let colormap = match choice.colormap_visual {
            Some(v) => {
                emit(
                    &mut calls,
                    Call::ignore(
                        Request::CreateColormap { mid: ids.colormap, window: root, visual: v },
                    ),
                );
                ids.colormap
            },
            None => 0,
        };
        let (x, y) = match attrs.position {
            Some(p) => (clamp_to_i16(p.x), clamp_to_i16(p.y)),
            None => (0, 0),
        };
        let parent = match attrs.embed_window {
            Some(p) => p,
            None => root,
        };
        emit(
            &mut calls,
            Call::check(
                Request::CreateWindow {
                    depth: choice.depth,
                    wid: ids.window,
                    parent,
                    x,
                    y,
                    width: dimensions.0 as u16,
                    height: dimensions.1 as u16,
                    visual: choice.visual,
                    event_mask: window_event_mask(),
                    override_redirect: attrs.override_redirect,
                    colormap,
                },
            ),
        );
        assert(calls.deep_view() =~= window_stage(ids, *attrs, root, choice, dimensions));
        calls
    }

    /// What must be set before the window is mapped.
    fn metadata_stage(&mut self, attrs: &WindowAttributes) -> (calls: Vec<Call>)
        requires
            !encode_utf8(attrs.title@).contains(0u8),
            old(self)@.state.is_decorated == attrs.decorations,
        ensures
            final(self)@ == old(self)@,
            calls.deep_view() == old(self)@.metadata_stage(*attrs),
    {
        let mut calls = self.set_title_inner(attrs.title.as_str());
        let decorations = self.set_decorations_inner(attrs.decorations);
        emit(&mut calls, decorations);
        if attrs.preferred_theme.is_some() {
            emit(&mut calls, self.set_theme_inner(attrs.preferred_theme));
        }
        if attrs.embed_window.is_some() {
            emit(&mut calls, self.embed_window());
        }
        assert(calls.deep_view() =~= old(self)@.metadata_stage(*attrs));
        assert(self@.state =~= old(self)@.state);
        calls
    }

    /// Who the window belongs to.
    fn identity_stage(&self, attrs: &WindowAttributes, process: &ProcessInfo) -> (calls: Vec<Call>)
        ensures
            calls.deep_view() == self@.identity_stage(*attrs, *process),
    {
        let mut calls = no_calls();
        let version: Vec<u32> = vec![5u32];
        assert(version@ =~= seq![5u32]);
        emit(&mut calls, Call::words(self.xwindow, self.atoms.xdnd_aware, ATOM_ATOM, version));
        emit(
            &mut calls,
            Call::bytes(
                self.xwindow,
                ATOM_WM_CLASS,
                ATOM_STRING,
                wm_class(&attrs.name, process, &attrs.title),
            ),
        );
        emit_all(&mut calls, self.pid_calls(process.pid, crate::protocol::copy_bytes(&process.hostname)));
        emit(&mut calls, self.set_window_types(&attrs.x11_window_types));
        assert(calls.deep_view() =~= self@.identity_stage(*attrs, *process));
        calls
    }

    /// Size hints, icon, protocols, counter, input-extension events.
    fn hints_stage(
        &self,
        attrs: &WindowAttributes,
        hints: NormalHints,
        has_sync: bool,
        counter: u32,
    ) -> (calls: Vec<Call>)
        ensures
            calls.deep_view() == self@.hints_stage(*attrs, hints, has_sync, counter),
    {
        let mut calls = no_calls();
        emit(&mut calls, Call::check(Request::SetNormalHints { window: self.xwindow, hints }));
        if let Some(icon) = &attrs.window_icon {
            emit(&mut calls, self.set_icon_inner(icon));
        }
        let protocols: Vec<u32> = vec![
            self.atoms.wm_delete_window,
            self.atoms.net_wm_ping,
            self.atoms.net_wm_sync_request,
        ];
        assert(protocols@ =~= seq![
            self.atoms.wm_delete_window,
            self.atoms.net_wm_ping,
            self.atoms.net_wm_sync_request,
        ]);
        emit(&mut calls, Call::words(self.xwindow, self.atoms.wm_protocols, ATOM_ATOM, protocols));
        if has_sync {
            emit(&mut calls, Call::ignore(Request::CreateSyncCounter { id: counter }));
            let value: Vec<u32> = vec![counter];
            assert(value@ =~= seq![counter]);
            emit(
                &mut calls,
                Call::words(
                    self.xwindow,
                    self.atoms.net_wm_sync_request_counter,
                    ATOM_CARDINAL,
                    value,
                ),
            );
        }
        emit(
            &mut calls,
            Call::ignore(
                Request::SelectXInputEvents {
                    window: self.xwindow,
                    device: ALL_MASTER_DEVICES,
                    mask: xinput_event_mask(),
                },
            ),
        );
        assert(calls.deep_view() =~= self@.hints_stage(*attrs, hints, has_sync, counter));
        calls
    }

    /// Mapping and raising, then what the keyboard needs.
    fn map_stage(&self, visible: bool, has_ime: bool) -> (calls: Vec<Call>)
        ensures
            calls.deep_view() == self@.map_stage(visible, has_ime),
    {
        let mut calls = no_calls();
        if visible {
            emit(&mut calls, Call::ignore(Request::MapWindow { window: self.xwindow }));
            emit(
                &mut calls,
                Call::ignore(
                    Request::ConfigureWindow {
                        window: self.xwindow,
                        x: None,
                        y: None,
                        width: None,
                        height: None,
                        stack_mode: Some(StackMode::Above),
                    },
                ),
            );
        }
        emit(&mut calls, Call::check(Request::SetDetectableAutoRepeat));
        if has_ime {
            emit(&mut calls, Call::check(Request::CreateImeContext { window: self.xwindow }));
        }
        assert(calls.deep_view() =~= self@.map_stage(visible, has_ime));
        calls
    }

    /// Maximizing, level, cursor, startup notification, round trip.
    fn final_stage(&mut self, attrs: &WindowAttributes) -> (calls: Vec<Call>)
        ensures
            final(self)@ == old(self)@.after_set_cursor(attrs.cursor),
            calls.deep_view() == old(self)@.final_stage(*attrs),
    {
        let mut calls = no_calls();
        if attrs.maximized {
            emit(&mut calls, self.set_maximized_inner(true));
        }
        emit_all(&mut calls, self.set_window_level_inner(attrs.window_level));
        emit_all(&mut calls, self.set_cursor(attrs.cursor));
        if let Some(token) = &attrs.activation_token {
            emit(
                &mut calls,
                Call {
                    request: Request::RemoveActivationToken { window: self.xwindow },
                    ack: Ack::Check,
                    payload: Payload::Bytes(token.as_str().as_bytes_vec()),
                },
            );
        }
        emit(&mut calls, Call::check(Request::Sync));
        assert(calls.deep_view() =~= old(self)@.final_stage(*attrs));
        calls
    }

    /// The window as it is before anything was asked for it.
    fn fresh(
        server: &Server,
        ids: FreshIds,
        monitor: Arc<MonitorHandle>,
        attrs: &WindowAttributes,
        index: usize,
        root: u32,
        visual: u32,
        dimensions: (u32, u32),
    ) -> (window: UnownedWindow)
        requires
            index <= i32::MAX,
        ensures
            window@ == created_window(
                *server,
                ids,
                monitor,
                *attrs,
                index as i32,
                root,
                visual,
                dimensions,
            ),
    {
        let pin = !attrs.resizable && !server.quirks.freezes_size_hints;
        let (min, max) = if pin {
            let pinned = Some(PhysicalSize { width: dimensions.0, height: dimensions.1 });
            (pinned, pinned)
        } else {
            (attrs.min_surface_size, attrs.max_surface_size)
        };
        let mut shared_state = SharedState::new(monitor, attrs);
        shared_state.set_constraints(
            physical_to_size(min),
            physical_to_size(max),
            attrs.surface_resize_increments,
            attrs.base_size,
        );
        if attrs.fullscreen.is_some() {
            shared_state.stage(
                crate::monitor::clone_target(&attrs.fullscreen),
                match attrs.position {
                    Some(p) => Some((p.x, p.y)),
                    None => None,
                },
            );
        }
        let sync_counter_id = if server.has_sync && ids.sync_counter != 0 {
            Some(ids.sync_counter)
        } else {
            None
        };
        let window = UnownedWindow {
            xwindow: ids.window,
            visual,
            root,
            default_root: server.default_root,
            screen_id: index as i32,
            sync_counter_id,
            atoms: server.atoms,
            quirks: server.quirks,
            selected_cursor: SelectedCursor::default(),
            cursor_grabbed_mode: CursorGrabMode::Free,
            cursor_visible: true,
            shared_state,
        };
        assert(window@.state == created_state(monitor, *attrs, server.quirks, dimensions));
        window
    }

    /// Everything that is asked for a window once it exists.
    fn setup(
        &mut self,
        attrs: &WindowAttributes,
        process: &ProcessInfo,
        hints: NormalHints,
        has_sync: bool,
        has_ime: bool,
        counter: u32,
    ) -> (calls: Vec<Call>)
        requires
            !encode_utf8(attrs.title@).contains(0u8),
            old(self)@.state.is_decorated == attrs.decorations,
        ensures
            final(self)@ == old(self)@.after_set_cursor(attrs.cursor),
            calls.deep_view() == old(self)@.setup_calls(
                *attrs,
                *process,
                hints,
                has_sync,
                has_ime,
                counter,
            ),
    {
        let mut calls = self.metadata_stage(attrs);
        emit_all(&mut calls, self.identity_stage(attrs, process));
        emit_all(&mut calls, self.hints_stage(attrs, hints, has_sync, counter));
        emit_all(&mut calls, self.map_stage(attrs.visible, has_ime));
        emit_all(&mut calls, self.final_stage(attrs));
        calls
    }

    /// Creates a window on `monitor`, the monitor that it is taken to be on.
    ///
    /// Fails where the screen asked for does not exist, or where a visual was
    /// asked for by its id and the screen has none with that id; nothing is
    /// to be issued then. Otherwise the result holds the window and the calls
    /// that bring it about. Where the window takes its visual from its
    /// parent, the visual that the server chose is to be read once the window
    /// exists and handed to [`UnownedWindow::resolve_visual`].
    ///
    /// Where screen and visual are found, the title must not hold a zero byte,
    /// and the window's size, after it was held to the size constraints, must
    /// fit the sixteen bits of the request that creates it. Where they are
    /// not found, the error is returned whatever title and size are.
    pub fn new(
        server: &Server,
        ids: FreshIds,
        process: &ProcessInfo,
        monitor: Arc<MonitorHandle>,
        attrs: WindowAttributes,
    ) -> (r: Result<Creation, RequestError>)
        requires
            finds_screen_and_visual(*server, attrs) ==> creatable(attrs),
        ensures
            match r {
                Ok(c) => creation(*server, ids, *process, monitor, attrs) matches Ok(m)
                    && c.window@ == m.window && c.calls.deep_view() == m.calls,
                Err(e) => creation(*server, ids, *process, monitor, attrs) matches Err(f) && e
                    == f,
            },
    {
        let index = match resolve_screen(server, attrs.screen_id) {
            Ok(i) => i,
            Err(e) => {
                return Err(e);
            },
        };
        let choice = match choose_visual(
            &server.screens[index].visuals,
            attrs.visual_id,
            attrs.transparent,
        ) {
            Ok(c) => c,
            Err(e) => {
                return Err(e);
            },
        };
        let root = match attrs.parent_window {
            Some(p) => p,
            None => server.screens[index].root,
        };
        let dimensions = clamp_dimensions(
            attrs.surface_size,
            attrs.min_surface_size,
            attrs.max_surface_size,
        );
        let scale = Scale::Factor(monitor.scale_factor);
        let hints = starting_hints(&attrs, server.quirks, dimensions, scale);
        let mut window = UnownedWindow::fresh(
            server,
            ids,
            monitor,
            &attrs,
            index,
            root,
            choice.visual,
            dimensions,
        );
        let mut calls = UnownedWindow::window_stage(ids, &attrs, root, choice, dimensions);
        let setup = window.setup(
            &attrs,
            process,
            hints,
            server.has_sync,
            server.has_ime,
            ids.sync_counter,
        );
        emit_all(&mut calls, setup);
        Ok(Creation { window, calls })
    }

    /// Notes the visual that the server chose for a window that took its
    /// parent's.
    pub fn resolve_visual(&mut self, visual: u32)
        ensures
            final(self)@ == (WindowModel { visual, ..old(self)@ }),
    {
        self.visual = visual;
    }

    /// The window's visual; zero while it is "as the parent's".
    pub fn visual(&self) -> (r: u32)
        ensures
            r == self@.visual,
    {
        self.visual
    }

    /// The index of the window's screen.
    pub fn screen_id(&self) -> (r: i32)
        ensures
            r == self@.screen_id,
    {
        self.screen_id
    }
}

} // verus!
