//! The calls that a window asks of its display-server connection.
//!
//! A [`Call`] names one request, says whether its acknowledgment matters, and
//! carries the property value that goes with it, if any. The numbers below are
//! those of the X11 core protocol and of the XInput extension.

use crate::cursor::{CursorIcon, CustomCursor};
use crate::geometry::FrameExtentsHeuristic;
use crate::hints::{HintsPatch, NormalHints};
use vstd::prelude::*;

verus! {

pub const KEY_PRESS: u32 = 0x0000_0001;

pub const KEY_RELEASE: u32 = 0x0000_0002;

pub const BUTTON_PRESS: u32 = 0x0000_0004;

pub const BUTTON_RELEASE: u32 = 0x0000_0008;

pub const ENTER_WINDOW: u32 = 0x0000_0010;

pub const LEAVE_WINDOW: u32 = 0x0000_0020;

pub const POINTER_MOTION: u32 = 0x0000_0040;

pub const POINTER_MOTION_HINT: u32 = 0x0000_0080;

pub const BUTTON1_MOTION: u32 = 0x0000_0100;

pub const BUTTON2_MOTION: u32 = 0x0000_0200;

pub const BUTTON3_MOTION: u32 = 0x0000_0400;

pub const BUTTON4_MOTION: u32 = 0x0000_0800;

pub const BUTTON5_MOTION: u32 = 0x0000_1000;

pub const KEYMAP_STATE: u32 = 0x0000_4000;

pub const EXPOSURE: u32 = 0x0000_8000;

pub const VISIBILITY_CHANGE: u32 = 0x0001_0000;

pub const STRUCTURE_NOTIFY: u32 = 0x0002_0000;

pub const SUBSTRUCTURE_NOTIFY: u32 = 0x0008_0000;

pub const SUBSTRUCTURE_REDIRECT: u32 = 0x0010_0000;

pub const PROPERTY_CHANGE: u32 = 0x0040_0000;

/// The events a new window listens for: exposure, structure, visibility,
/// keyboard, pointer and property changes.
pub const WINDOW_EVENTS: u32 = 0x0043_c04f;

/// The events under which a message reaches the window manager.
pub const REDIRECT_EVENTS: u32 = 0x0018_0000;

/// The pointer events a confining grab keeps delivering.
pub const GRAB_EVENTS: u32 = 0x0000_5ffc;

pub const XI_BUTTON_PRESS: u32 = 0x0000_0010;

pub const XI_BUTTON_RELEASE: u32 = 0x0000_0020;

pub const XI_MOTION: u32 = 0x0000_0040;

pub const XI_ENTER: u32 = 0x0000_0080;

pub const XI_LEAVE: u32 = 0x0000_0100;

pub const XI_FOCUS_IN: u32 = 0x0000_0200;

pub const XI_FOCUS_OUT: u32 = 0x0000_0400;

pub const XI_TOUCH_BEGIN: u32 = 0x0004_0000;

pub const XI_TOUCH_UPDATE: u32 = 0x0008_0000;

pub const XI_TOUCH_END: u32 = 0x0010_0000;

/// The input-extension events a new window listens for.
pub const XI_WINDOW_EVENTS: u32 = 0x001c_07f0;

/// The device id that stands for every master device.
pub const ALL_MASTER_DEVICES: u16 = 1;

/// The value of `WM_STATE` of a minimized window.
pub const ICONIC_STATE: u32 = 3;

pub const ATOM_ATOM: u32 = 4;

pub const ATOM_CARDINAL: u32 = 6;

pub const ATOM_STRING: u32 = 31;

pub const ATOM_WM_NAME: u32 = 39;

pub const ATOM_WM_CLASS: u32 = 67;

/// The timestamp that stands for "now".
pub const CURRENT_TIME: u32 = 0;

/// The visual id that stands for "as the parent's".
pub const COPY_FROM_PARENT: u32 = 0;

/// The visual class of true colour.
pub const TRUE_COLOR: u8 = 4;

pub const MOVERESIZE_TOPLEFT: u32 = 0;

pub const MOVERESIZE_TOP: u32 = 1;

pub const MOVERESIZE_TOPRIGHT: u32 = 2;

pub const MOVERESIZE_RIGHT: u32 = 3;

pub const MOVERESIZE_BOTTOMRIGHT: u32 = 4;

pub const MOVERESIZE_BOTTOM: u32 = 5;

pub const MOVERESIZE_BOTTOMLEFT: u32 = 6;

pub const MOVERESIZE_LEFT: u32 = 7;

pub const MOVERESIZE_MOVE: u32 = 8;

/// The event mask of a new window, from its parts.
pub fn window_event_mask() -> (r: u32)
    ensures
        r == WINDOW_EVENTS,
{
    let r: u32 = EXPOSURE | STRUCTURE_NOTIFY | VISIBILITY_CHANGE | KEY_PRESS | KEY_RELEASE
        | KEYMAP_STATE | BUTTON_PRESS | BUTTON_RELEASE | POINTER_MOTION | PROPERTY_CHANGE;
    assert(0x8000u32 | 0x2_0000u32 | 0x1_0000u32 | 1u32 | 2u32 | 0x4000u32 | 4u32 | 8u32 | 0x40u32
        | 0x40_0000u32 == 0x0043_c04fu32) by (bit_vector);
    r
}

/// The event mask of a message to the window manager, from its parts.
pub fn redirect_event_mask() -> (r: u32)
    ensures
        r == REDIRECT_EVENTS,
{
    let r: u32 = SUBSTRUCTURE_REDIRECT | SUBSTRUCTURE_NOTIFY;
    assert(0x10_0000u32 | 0x8_0000u32 == 0x0018_0000u32) by (bit_vector);
    r
}

/// The event mask of a confining pointer grab, from its parts.
pub fn grab_event_mask() -> (r: u32)
    ensures
        r == GRAB_EVENTS,
{
    let r: u32 = BUTTON_PRESS | BUTTON_RELEASE | ENTER_WINDOW | LEAVE_WINDOW | POINTER_MOTION
        | POINTER_MOTION_HINT | BUTTON1_MOTION | BUTTON2_MOTION | BUTTON3_MOTION | BUTTON4_MOTION
        | BUTTON5_MOTION | KEYMAP_STATE;
    assert(4u32 | 8u32 | 0x10u32 | 0x20u32 | 0x40u32 | 0x80u32 | 0x100u32 | 0x200u32 | 0x400u32
        | 0x800u32 | 0x1000u32 | 0x4000u32 == 0x0000_5ffcu32) by (bit_vector);
    r
}

/// The input-extension event mask of a new window, from its parts.
pub fn xinput_event_mask() -> (r: u32)
    ensures
        r == XI_WINDOW_EVENTS,
{
    let r: u32 = XI_MOTION | XI_BUTTON_PRESS | XI_BUTTON_RELEASE | XI_ENTER | XI_LEAVE | XI_FOCUS_IN
        | XI_FOCUS_OUT | XI_TOUCH_BEGIN | XI_TOUCH_UPDATE | XI_TOUCH_END;
    assert(0x40u32 | 0x10u32 | 0x20u32 | 0x80u32 | 0x100u32 | 0x200u32 | 0x400u32 | 0x4_0000u32
        | 0x8_0000u32 | 0x10_0000u32 == 0x001c_07f0u32) by (bit_vector);
    r
}

/// The atoms that the connection interned for its windows.
#[derive(Clone, Copy, Debug, PartialEq, Eq, Structural)]
pub struct Atoms {
    pub card32: u32,
    pub utf8_string: u32,
    pub wm_change_state: u32,
    pub wm_client_machine: u32,
    pub wm_delete_window: u32,
    pub wm_protocols: u32,
    pub wm_state: u32,
    pub xdnd_aware: u32,
    pub xembed: u32,
    pub gtk_theme_variant: u32,
    pub net_active_window: u32,
    pub net_wm_icon: u32,
    pub net_wm_moveresize: u32,
    pub net_wm_name: u32,
    pub net_wm_pid: u32,
    pub net_wm_ping: u32,
    pub net_wm_state: u32,
    pub net_wm_state_above: u32,
    pub net_wm_state_below: u32,
    pub net_wm_state_fullscreen: u32,
    pub net_wm_state_hidden: u32,
    pub net_wm_state_maximized_horz: u32,
    pub net_wm_state_maximized_vert: u32,
    pub net_wm_sync_request: u32,
    pub net_wm_sync_request_counter: u32,
    pub net_wm_window_type: u32,
    pub net_wm_window_type_combo: u32,
    pub net_wm_window_type_desktop: u32,
    pub net_wm_window_type_dialog: u32,
    pub net_wm_window_type_dnd: u32,
    pub net_wm_window_type_dock: u32,
    pub net_wm_window_type_dropdown_menu: u32,
    pub net_wm_window_type_menu: u32,
    pub net_wm_window_type_normal: u32,
    pub net_wm_window_type_notification: u32,
    pub net_wm_window_type_popup_menu: u32,
    pub net_wm_window_type_splash: u32,
    pub net_wm_window_type_toolbar: u32,
    pub net_wm_window_type_tooltip: u32,
    pub net_wm_window_type_utility: u32,
}

/// Where a reconfigured window goes in the stacking order.
#[derive(Clone, Copy, Debug, PartialEq, Eq, Structural)]
pub enum StackMode {
    Above,
    Below,
}

/// A rectangle of an input region.
#[derive(Clone, Copy, Debug, PartialEq, Eq, Structural)]
pub struct Rectangle {
    pub x: i16,
    pub y: i16,
    pub width: u16,
    pub height: u16,
}

/// The five words of a client message.
#[derive(Clone, Copy, Debug, PartialEq, Eq, Structural)]
pub struct ClientData {
    pub d0: u32,
    pub d1: u32,
    pub d2: u32,
    pub d3: u32,
    pub d4: u32,
}

/// One request to the display server, or to a service beside it.
#[allow(inconsistent_fields)]
#[derive(Clone, Copy, Debug, PartialEq, Eq, Structural)]
pub enum Request {
    /// Create a colormap without entries for `visual` on the screen of `window`.
    CreateColormap { mid: u32, window: u32, visual: u32 },
    /// Create an input-output window without a border.
    CreateWindow {
        depth: u8,
        wid: u32,
        parent: u32,
        x: i16,
        y: i16,
        width: u16,
        height: u16,
        visual: u32,
        event_mask: u32,
        override_redirect: bool,
        colormap: u32,
    },
    DestroyWindow { window: u32 },
    MapWindow { window: u32 },
    UnmapWindow { window: u32 },
    /// Change the listed parts of a window's configuration.
    ConfigureWindow {
        window: u32,
        x: Option<i32>,
        y: Option<i32>,
        width: Option<u32>,
        height: Option<u32>,
        stack_mode: Option<StackMode>,
    },
    /// Replace a property by the call's payload: `len` items of `format` bits.
    ChangeProperty { window: u32, property: u32, type_: u32, format: u8, len: u64 },
    /// Send a 32-bit client message about `window` to `target`.
    SendClientMessage {
        window: u32,
        target: u32,
        message_type: u32,
        event_mask: Option<u32>,
        data: ClientData,
    },
    /// Give `window` the keyboard focus, reverting to its parent.
    SetInputFocus { window: u32, time: u32 },
    UngrabPointer { time: u32 },
    /// Move the pointer to a place in `window`.
    WarpPointer { window: u32, x: i16, y: i16 },
    /// Make `rectangle`, or nothing, the region of `window` that takes input.
    SetInputRegion { window: u32, rectangle: Option<Rectangle> },
    /// Create a synchronization counter that starts at zero.
    CreateSyncCounter { id: u32 },
    SelectXInputEvents { window: u32, device: u16, mask: u32 },
    /// Drive an output at a video mode.
    SetCrtcConfig { crtc: u32, mode: u32 },
    /// Show a named cursor shape in `window`, or none.
    SetCursorIcon { window: u32, icon: Option<CursorIcon> },
    SetCustomCursor { window: u32, cursor: CustomCursor },
    /// Read the window's decoration hints, change the listed ones, write them.
    UpdateMotifHints { window: u32, decorations: Option<bool>, maximizable: Option<bool> },
    /// Write the window's normal size hints.
    SetNormalHints { window: u32, hints: NormalHints },
    /// Read the window's normal size hints, apply `patch`, write them.
    UpdateNormalHints { window: u32, patch: HintsPatch },
    /// Read the window's hints, set the urgency flag, write them.
    SetUrgency { window: u32, urgent: bool },
    /// Send what is buffered.
    Flush,
    /// Wait until the server has processed everything sent so far.
    Sync,
    /// Withdraw the startup notification named by the call's payload.
    RemoveActivationToken { window: u32 },
    /// Make held keys repeat without intermediate releases.
    SetDetectableAutoRepeat,
    CreateImeContext { window: u32 },
    ImeAllow { window: u32, allowed: bool },
    ImeArea { window: u32, x: i16, y: i16, width: u16, height: u16 },
    /// Wake the event loop: `window` wants to be redrawn.
    WakeRedraw { window: u32 },
    /// Wake the event loop: `window` asked for an activation token.
    WakeActivation { window: u32, serial: u64 },
}

/// What becomes of a request's acknowledgment.
#[derive(Clone, Copy, Debug, PartialEq, Eq, Structural)]
pub enum Ack {
    /// An error of the server is dropped.
    Ignore,
    /// The caller waits for it; an error of the server ends the operation.
    Check,
}

/// The value that goes with a request.
#[derive(Clone, Debug, PartialEq, Eq)]
pub enum Payload {
    Empty,
    /// Items of 8 bits.
    Bytes(Vec<u8>),
    /// Items of 32 bits.
    Words(Vec<u32>),
}

/// A payload as a mathematical value.
pub enum PayloadView {
    Empty,
    Bytes(Seq<u8>),
    Words(Seq<u32>),
}

impl DeepView for Payload {
    type V = PayloadView;

    open spec fn deep_view(&self) -> PayloadView {
        match self {
            Payload::Empty => PayloadView::Empty,
            Payload::Bytes(b) => PayloadView::Bytes(b@),
            Payload::Words(w) => PayloadView::Words(w@),
        }
    }
}

/// A request with its acknowledgment policy and its payload.
#[derive(Clone, Debug, PartialEq, Eq)]
pub struct Call {
    pub request: Request,
    pub ack: Ack,
    pub payload: Payload,
}

/// A call as a mathematical value.
pub struct CallView {
    pub request: Request,
    pub ack: Ack,
    pub payload: PayloadView,
}

impl DeepView for Call {
    type V = CallView;

    open spec fn deep_view(&self) -> CallView {
        CallView { request: self.request, ack: self.ack, payload: self.payload.deep_view() }
    }
}

/// The call that sends `request` and drops its acknowledgment.
pub open spec fn ignored(request: Request) -> CallView {
    CallView { request, ack: Ack::Ignore, payload: PayloadView::Empty }
}

/// The call that sends `request` and waits for its acknowledgment.
pub open spec fn checked(request: Request) -> CallView {
    CallView { request, ack: Ack::Check, payload: PayloadView::Empty }
}

/// The call that replaces a property of 8-bit items.
pub open spec fn property_bytes(window: u32, property: u32, type_: u32, data: Seq<u8>) -> CallView {
    CallView {
        request: Request::ChangeProperty {
            window,
            property,
            type_,
            format: 8,
            len: data.len() as u64,
        },
        ack: Ack::Ignore,
        payload: PayloadView::Bytes(data),
    }
}

/// The call that replaces a property of 32-bit items.
pub open spec fn property_words(window: u32, property: u32, type_: u32, data: Seq<u32>) -> CallView {
    CallView {
        request: Request::ChangeProperty {
            window,
            property,
            type_,
            format: 32,
            len: data.len() as u64,
        },
        ack: Ack::Ignore,
        payload: PayloadView::Words(data),
    }
}

/// The message that asks the window manager something about `window`.
pub open spec fn wm_message(
    window: u32,
    root: u32,
    message_type: u32,
    data: ClientData,
) -> Request {
    Request::SendClientMessage {
        window,
        target: root,
        message_type,
        event_mask: Some(REDIRECT_EVENTS),
        data,
    }
}

impl Call {
    /// The call that sends `request` and drops its acknowledgment.
    pub fn ignore(request: Request) -> (r: Call)
        ensures
            r.deep_view() == ignored(request),
    {
        Call { request, ack: Ack::Ignore, payload: Payload::Empty }
    }

    /// The call that sends `request` and waits for its acknowledgment.
    pub fn check(request: Request) -> (r: Call)
        ensures
            r.deep_view() == checked(request),
    {
        Call { request, ack: Ack::Check, payload: Payload::Empty }
    }

    /// The call that replaces a property of 8-bit items.
    pub fn bytes(window: u32, property: u32, type_: u32, data: Vec<u8>) -> (r: Call)
        ensures
            r.deep_view() == property_bytes(window, property, type_, data@),
    {
        let len = data.len() as u64;
        Call {
            request: Request::ChangeProperty { window, property, type_, format: 8, len },
            ack: Ack::Ignore,
            payload: Payload::Bytes(data),
        }
    }

    /// The call that replaces a property of 32-bit items.
    pub fn words(window: u32, property: u32, type_: u32, data: Vec<u32>) -> (r: Call)
        ensures
            r.deep_view() == property_words(window, property, type_, data@),
    {
        let len = data.len() as u64;
        Call {
            request: Request::ChangeProperty { window, property, type_, format: 32, len },
            ack: Ack::Ignore,
            payload: Payload::Words(data),
        }
    }

    /// The call that asks the window manager something about `window`.
    pub fn message(window: u32, root: u32, message_type: u32, data: ClientData) -> (r: Call)
        ensures
            r.deep_view() == ignored(wm_message(window, root, message_type, data)),
    {
        Call::ignore(
            Request::SendClientMessage {
                window,
                target: root,
                message_type,
                event_mask: Some(redirect_event_mask()),
                data,
            },
        )
    }

    /// The bytes that the payload puts on the wire, in the machine's byte order.
    pub fn wire_data(&self) -> (r: Vec<u8>)
        ensures
            match self.payload.deep_view() {
                PayloadView::Empty => r@ == Seq::<u8>::empty(),
                PayloadView::Bytes(b) => r@ == b,
                PayloadView::Words(w) => r@ == words_le(w) || r@ == words_be(w),
            },
    {
        match &self.payload {
            Payload::Empty => Vec::new(),
            Payload::Bytes(b) => copy_bytes(b),
            Payload::Words(w) => words_to_bytes(w),
        }
    }
}

/// Byte `k` of `w`, counted from the least significant.
pub open spec fn word_byte(w: u32, k: int) -> u8 {
    ((w as int / pow256(k)) % 256) as u8
}

/// 256 to the power `k`, for `k` from 0 to 3.
pub open spec fn pow256(k: int) -> int {
    if k == 0 {
        1
    } else if k == 1 {
        0x100
    } else if k == 2 {
        0x1_0000
    } else {
        0x100_0000
    }
}

/// The words as bytes, least significant byte first.
pub open spec fn words_le(words: Seq<u32>) -> Seq<u8> {
    Seq::new(4 * words.len(), |i: int| word_byte(words[i / 4], i % 4))
}

/// The words as bytes, most significant byte first.
pub open spec fn words_be(words: Seq<u32>) -> Seq<u8> {
    Seq::new(4 * words.len(), |i: int| word_byte(words[i / 4], 3 - i % 4))
}

/// `bytemuck::cast_slice` from 32-bit words to bytes. The cast reads the
/// words where they lie in memory, so the bytes come in the machine's order:
/// assumed to be the little-endian or the big-endian bytes of the words. On
/// these two types the cast cannot fail.
#[verifier::external_body]
fn words_to_bytes(words: &Vec<u32>) -> (r: Vec<u8>)
    ensures
        r@ == words_le(words@) || r@ == words_be(words@),
{
    bytemuck::cast_slice::<u32, u8>(words.as_slice()).to_vec()
}

/// A copy of `bytes`.
pub fn copy_bytes(bytes: &Vec<u8>) -> (r: Vec<u8>)
    ensures
        r@ == bytes@,
{
    let mut out: Vec<u8> = Vec::new();
    let mut i: usize = 0;
    while i < bytes.len()
        invariant
            i <= bytes.len(),
            out@ == bytes@.subrange(0, i as int),
        decreases bytes.len() - i,
    {
        out.push(bytes[i]);
        i = i + 1;
        assert(out@ =~= bytes@.subrange(0, i as int));
    }
    assert(bytes@.subrange(0, bytes.len() as int) =~= bytes@);
    out
}

/// No calls.
pub fn no_calls() -> (r: Vec<Call>)
    ensures
        r.deep_view() == Seq::<CallView>::empty(),
{
    let r: Vec<Call> = Vec::new();
    assert(r.deep_view() =~= Seq::<CallView>::empty());
    r
}

/// Whether `x` occurs in `words`.
pub fn contains_word(words: &Vec<u32>, x: u32) -> (r: bool)
    ensures
        r == words@.contains(x),
{
    let mut i: usize = 0;
    while i < words.len()
        invariant
            i <= words.len(),
            forall|j: int| 0 <= j < i ==> words@[j] != x,
        decreases words.len() - i,
    {
        if words[i] == x {
            return true;
        }
        i = i + 1;
    }
    false
}

/// Appends `call` to `calls`.
pub fn emit(calls: &mut Vec<Call>, call: Call)
    ensures
        final(calls).deep_view() == old(calls).deep_view().push(call.deep_view()),
{
    calls.push(call);
    assert(calls.deep_view() =~= old(calls).deep_view().push(call.deep_view()));
}

/// Appends `more` to `calls`, in order.
pub fn emit_all(calls: &mut Vec<Call>, more: Vec<Call>)
    ensures
        final(calls).deep_view() == old(calls).deep_view() + more.deep_view(),
{
    let ghost added = more.deep_view();
    let mut rest = more;
    calls.append(&mut rest);
    assert(calls.deep_view() =~= old(calls).deep_view() + added);
}

/// What an operation needs to learn from the server before it can go on.
#[derive(Clone, Copy, Debug, PartialEq, Eq, Structural)]
pub enum Query {
    /// The video mode that an output is driven at.
    CrtcMode { crtc: u32 },
    /// The window's frame extents.
    FrameExtents,
    /// The position of the window's surface on the root window.
    InnerPosition,
}

/// The server's answer to a [`Query`].
#[derive(Clone, Copy, Debug, PartialEq, Eq, Structural)]
pub enum Reply {
    CrtcMode { mode: u32 },
    FrameExtents { extents: FrameExtentsHeuristic },
    InnerPosition { x: i32, y: i32 },
}

} // verus!
