//! A window: its identity, its state, and the calls that its operations issue.

use crate::cursor::{CursorGrabMode, SelectedCursor};
use crate::monitor::{clone_target, Fullscreen, MonitorHandle};
use crate::protocol::{
    contains_word, emit, ignored, no_calls, property_bytes, property_words, wm_message, Atoms,
    Call, CallView, ClientData, Request, StackMode, ATOM_ATOM, ATOM_CARDINAL, ATOM_STRING,
    ATOM_WM_NAME, CURRENT_TIME, ICONIC_STATE,
};
use crate::state::{SharedState, StateData, Visibility};
use std::sync::Arc;
use vstd::prelude::*;
use vstd::string::*;

verus! {

/// What is known to go wrong with the window manager in charge.
#[derive(Clone, Copy, Debug, PartialEq, Eq, Structural)]
pub struct WmQuirks {
    /// It places the surface, not the frame, where a window asks to be.
    pub positions_surface: bool,
    /// It stops reading size hints once a window was made unresizable.
    pub freezes_size_hints: bool,
}

/// A window's visual theme.
#[derive(Clone, Copy, Debug, PartialEq, Eq, Structural)]
pub enum Theme {
    Light,
    Dark,
}

/// Where a window stands among the others.
#[derive(Clone, Copy, Debug, PartialEq, Eq, Structural)]
pub enum WindowLevel {
    AlwaysOnBottom,
    Normal,
    AlwaysOnTop,
}

/// How loudly a window asks for attention.
#[derive(Clone, Copy, Debug, PartialEq, Eq, Structural)]
pub enum UserAttentionType {
    Critical,
    Informational,
}

/// The kinds of window that a window manager tells apart.
#[derive(Clone, Copy, Debug, PartialEq, Eq, Structural)]
pub enum WindowType {
    Desktop,
    Dock,
    Toolbar,
    Menu,
    Utility,
    Splash,
    Dialog,
    DropdownMenu,
    PopupMenu,
    Tooltip,
    Notification,
    Combo,
    Dnd,
    Normal,
}

/// The buttons in a window's title bar.
#[derive(Clone, Copy, Debug, PartialEq, Eq, Structural)]
pub struct WindowButtons {
    pub close: bool,
    pub minimize: bool,
    pub maximize: bool,
}

/// The identity of a window.
#[derive(Clone, Copy, Debug, PartialEq, Eq, Structural)]
pub struct WindowId {
    pub raw: usize,
}

/// An RGBA image: four bytes for each of `width * height` pixels, row by row.
#[derive(Debug)]
pub struct RgbaIcon {
    pub rgba: Vec<u8>,
    pub width: u32,
    pub height: u32,
}

/// A window as a mathematical value.
pub struct WindowModel {
    pub xwindow: u32,
    pub visual: u32,
    pub root: u32,
    pub default_root: u32,
    pub screen_id: i32,
    pub sync_counter_id: Option<u32>,
    pub atoms: Atoms,
    pub quirks: WmQuirks,
    pub selected_cursor: SelectedCursor,
    pub cursor_grabbed_mode: CursorGrabMode,
    pub cursor_visible: bool,
    pub state: StateData,
}

/// A window. Its operations change what it knows of itself and hand back the
/// calls to issue; they never talk to the server themselves.
#[derive(Debug)]
pub struct UnownedWindow {
    pub(crate) xwindow: u32,
    pub(crate) visual: u32,
    pub(crate) root: u32,
    pub(crate) default_root: u32,
    pub(crate) screen_id: i32,
    pub(crate) sync_counter_id: Option<u32>,
    pub(crate) atoms: Atoms,
    pub(crate) quirks: WmQuirks,
    pub(crate) selected_cursor: SelectedCursor,
    pub(crate) cursor_grabbed_mode: CursorGrabMode,
    pub(crate) cursor_visible: bool,
    pub shared_state: SharedState,
}

impl View for UnownedWindow {
    type V = WindowModel;

    open(crate) spec fn view(&self) -> WindowModel {
        WindowModel {
            xwindow: self.xwindow,
            visual: self.visual,
            root: self.root,
            default_root: self.default_root,
            screen_id: self.screen_id,
            sync_counter_id: self.sync_counter_id,
            atoms: self.atoms,
            quirks: self.quirks,
            selected_cursor: self.selected_cursor,
            cursor_grabbed_mode: self.cursor_grabbed_mode,
            cursor_visible: self.cursor_visible,
            state: self.shared_state@,
        }
    }
}

/// The bytes of the theme variant that is advertised for `theme`.
pub open spec fn theme_variant(theme: Option<Theme>) -> Seq<u8> {
    match theme {
        Some(Theme::Light) => seq![108u8, 105u8, 103u8, 104u8, 116u8],
        _ => seq![100u8, 97u8, 114u8, 107u8],
    }
}

/// The first word of a state message: 1 to add a state, 0 to remove it.
pub open spec fn state_operation(enable: bool) -> u32 {
    if enable {
        1u32
    } else {
        0u32
    }
}

/// The ARGB word of pixel `i` of an RGBA image.
pub open spec fn argb_word(rgba: Seq<u8>, i: int) -> u32 {
    (rgba[4 * i + 3] as u32) << 24 | (rgba[4 * i] as u32) << 16 | (rgba[4 * i + 1] as u32) << 8 | (
    rgba[4 * i + 2] as u32)
}

/// An icon as the words of an icon property: width, height, then one ARGB
/// word for each pixel.
pub open spec fn icon_words(rgba: Seq<u8>, width: u32, height: u32) -> Seq<u32> {
    seq![width, height] + Seq::new((rgba.len() / 4) as nat, |i: int| argb_word(rgba, i))
}

impl Atoms {
    /// The atom that names a window type.
    pub open spec fn spec_window_type(self, t: WindowType) -> u32 {
        match t {
            WindowType::Desktop => self.net_wm_window_type_desktop,
            WindowType::Dock => self.net_wm_window_type_dock,
            WindowType::Toolbar => self.net_wm_window_type_toolbar,
            WindowType::Menu => self.net_wm_window_type_menu,
            WindowType::Utility => self.net_wm_window_type_utility,
            WindowType::Splash => self.net_wm_window_type_splash,
            WindowType::Dialog => self.net_wm_window_type_dialog,
            WindowType::DropdownMenu => self.net_wm_window_type_dropdown_menu,
            WindowType::PopupMenu => self.net_wm_window_type_popup_menu,
            WindowType::Tooltip => self.net_wm_window_type_tooltip,
            WindowType::Notification => self.net_wm_window_type_notification,
            WindowType::Combo => self.net_wm_window_type_combo,
            WindowType::Dnd => self.net_wm_window_type_dnd,
            WindowType::Normal => self.net_wm_window_type_normal,
        }
    }

    /// The atom that names a window type.
    pub fn window_type(&self, t: WindowType) -> (r: u32)
        ensures
            r == self.spec_window_type(t),
    {
        match t {
            WindowType::Desktop => self.net_wm_window_type_desktop,
            WindowType::Dock => self.net_wm_window_type_dock,
            WindowType::Toolbar => self.net_wm_window_type_toolbar,
            WindowType::Menu => self.net_wm_window_type_menu,
            WindowType::Utility => self.net_wm_window_type_utility,
            WindowType::Splash => self.net_wm_window_type_splash,
            WindowType::Dialog => self.net_wm_window_type_dialog,
            WindowType::DropdownMenu => self.net_wm_window_type_dropdown_menu,
            WindowType::PopupMenu => self.net_wm_window_type_popup_menu,
            WindowType::Tooltip => self.net_wm_window_type_tooltip,
            WindowType::Notification => self.net_wm_window_type_notification,
            WindowType::Combo => self.net_wm_window_type_combo,
            WindowType::Dnd => self.net_wm_window_type_dnd,
            WindowType::Normal => self.net_wm_window_type_normal,
        }
    }
}

impl WindowModel {
    /// This window with another state.
    pub open spec fn with_state(self, state: StateData) -> WindowModel {
        WindowModel { state, ..self }
    }

    /// Whether showing or hiding would change nothing.
    pub open spec fn visible_already(self, visible: bool) -> bool {
        visible == (self.state.visibility != Visibility::No)
    }

    /// The state after the window was asked to show or hide.
    pub open spec fn after_set_visible(self, visible: bool) -> WindowModel {
        if self.visible_already(visible) {
            self
        } else if visible {
            self.with_state(StateData { visibility: Visibility::YesWait, ..self.state })
        } else {
            self.with_state(StateData { visibility: Visibility::No, ..self.state })
        }
    }

    /// The calls that show or hide the window: map and raise, or unmap.
    pub open spec fn set_visible_calls(self, visible: bool) -> Seq<CallView> {
        if self.visible_already(visible) {
            seq![]
        } else if visible {
            seq![
                ignored(Request::MapWindow { window: self.xwindow }),
                ignored(
                    Request::ConfigureWindow {
                        window: self.xwindow,
                        x: None,
                        y: None,
                        width: None,
                        height: None,
                        stack_mode: Some(StackMode::Above),
                    },
                ),
                ignored(Request::Flush),
            ]
        } else {
            seq![ignored(Request::UnmapWindow { window: self.xwindow }), ignored(Request::Flush)]
        }
    }

    /// The calls that write a title: once as a plain string, once as UTF-8.
    pub open spec fn title_calls(self, title: Seq<u8>) -> Seq<CallView> {
        seq![
            property_bytes(self.xwindow, ATOM_WM_NAME, ATOM_STRING, title),
            property_bytes(self.xwindow, self.atoms.net_wm_name, self.atoms.utf8_string, title),
        ]
    }

    /// The call that advertises a theme variant.
    pub open spec fn theme_call(self, theme: Option<Theme>) -> CallView {
        property_bytes(
            self.xwindow,
            self.atoms.gtk_theme_variant,
            self.atoms.utf8_string,
            theme_variant(theme),
        )
    }

    /// The message that adds or removes up to two window-manager states.
    pub open spec fn netwm_call(self, enable: bool, first: u32, second: u32) -> CallView {
        ignored(
            wm_message(
                self.xwindow,
                self.root,
                self.atoms.net_wm_state,
                ClientData { d0: state_operation(enable), d1: first, d2: second, d3: 0, d4: 0 },
            ),
        )
    }

    /// The message that minimizes the window, or brings it back.
    pub open spec fn minimized_call(self, minimized: bool) -> CallView {
        if minimized {
            ignored(
                wm_message(
                    self.xwindow,
                    self.default_root,
                    self.atoms.wm_change_state,
                    ClientData { d0: 3, d1: 0, d2: 0, d3: 0, d4: 0 },
                ),
            )
        } else {
            self.activate_call()
        }
    }

    /// The message that asks for the window to be activated.
    pub open spec fn activate_call(self) -> CallView {
        ignored(
            wm_message(
                self.xwindow,
                self.root,
                self.atoms.net_active_window,
                ClientData { d0: 1, d1: CURRENT_TIME, d2: 0, d3: 0, d4: 0 },
            ),
        )
    }

    /// The message that maximizes the window on both axes, or undoes that.
    pub open spec fn maximized_call(self, maximized: bool) -> CallView {
        self.netwm_call(
            maximized,
            self.atoms.net_wm_state_maximized_horz,
            self.atoms.net_wm_state_maximized_vert,
        )
    }

    /// The calls that put the window at a level: the state "above" is set for
    /// the top level alone, the state "below" for the bottom level alone.
    pub open spec fn window_level_calls(self, level: WindowLevel) -> Seq<CallView> {
        seq![
            self.netwm_call(level == WindowLevel::AlwaysOnTop, self.atoms.net_wm_state_above, 0),
            self.netwm_call(level == WindowLevel::AlwaysOnBottom, self.atoms.net_wm_state_below, 0),
        ]
    }

    /// The call that asks for decorations to be shown or not.
    pub open spec fn decorations_call(self, decorations: bool) -> CallView {
        ignored(
            Request::UpdateMotifHints {
                window: self.xwindow,
                decorations: Some(decorations),
                maximizable: None,
            },
        )
    }

    /// The call that allows or forbids maximizing.
    pub open spec fn maximizable_call(self, maximizable: bool) -> CallView {
        ignored(
            Request::UpdateMotifHints {
                window: self.xwindow,
                decorations: None,
                maximizable: Some(maximizable),
            },
        )
    }

    /// The call that writes the window's icon: `words`, or nothing.
    pub open spec fn icon_call(self, words: Seq<u32>) -> CallView {
        property_words(self.xwindow, self.atoms.net_wm_icon, ATOM_CARDINAL, words)
    }

    /// The call that writes the window's types.
    pub open spec fn window_types_call(self, types: Seq<WindowType>) -> CallView {
        property_words(
            self.xwindow,
            self.atoms.net_wm_window_type,
            ATOM_ATOM,
            types.map_values(|t: WindowType| self.atoms.spec_window_type(t)),
        )
    }

    /// The call that announces the window as embeddable; it is confirmed.
    pub open spec fn embed_call(self) -> CallView {
        CallView {
            ack: crate::protocol::Ack::Check,
            ..property_words(
                self.xwindow,
                self.atoms.xembed,
                self.atoms.xembed,
                seq![0u32, 1u32],
            )
        }
    }

    /// The calls that name the process and the machine it runs on.
    pub open spec fn pid_calls(self, pid: u32, hostname: Seq<u8>) -> Seq<CallView> {
        seq![
            property_words(self.xwindow, self.atoms.net_wm_pid, ATOM_CARDINAL, seq![pid]),
            property_bytes(self.xwindow, self.atoms.wm_client_machine, ATOM_STRING, hostname),
        ]
    }

    /// Whether the window is to be focused: it is visible, and `wm_state`,
    /// where it could be read, does not say that it is minimized.
    pub open spec fn focusable(self, wm_state: Option<Seq<u32>>) -> bool {
        &&& self.state.visibility == Visibility::Yes
        &&& !(wm_state matches Some(s) && s.contains(ICONIC_STATE))
    }

    /// The calls that focus the window, where it is to be focused.
    pub open spec fn focus_calls(self, wm_state: Option<Seq<u32>>) -> Seq<CallView> {
        if self.focusable(wm_state) {
            seq![self.activate_call(), ignored(Request::Flush)]
        } else {
            seq![]
        }
    }
}

/// Whether two strings hold the same characters.
pub fn str_equal(a: &str, b: &str) -> (r: bool)
    ensures
        r == (a@ == b@),
{
    let x = a.to_owned();
    let y = b.to_owned();
    x == y
}

impl WmQuirks {
    /// The quirks of the window manager with this name.
    pub open spec fn spec_of(wm_name: Option<Seq<char>>) -> WmQuirks {
        WmQuirks {
            positions_surface: wm_name matches Some(n) && (n == "Enlightenment"@ || n == "FVWM"@),
            freezes_size_hints: wm_name matches Some(n) && n == "Xfwm4"@,
        }
    }

    /// The quirks of the window manager with this name; none where it has not
    /// told its name.
    pub fn of(wm_name: Option<&str>) -> (r: WmQuirks)
        ensures
            r == WmQuirks::spec_of(
                match wm_name {
                    Some(n) => Some(n@),
                    None => None,
                },
            ),
    {
        match wm_name {
            Some(n) => WmQuirks {
                positions_surface: str_equal(n, "Enlightenment") || str_equal(n, "FVWM"),
                freezes_size_hints: str_equal(n, "Xfwm4"),
            },
            None => WmQuirks { positions_surface: false, freezes_size_hints: false },
        }
    }
}

/// An icon as the words of an icon property: width, height, then one ARGB
/// word for each whole pixel.
pub fn rgba_to_cardinals(icon: &RgbaIcon) -> (r: Vec<u32>)
    ensures
        r@ == icon_words(icon.rgba@, icon.width, icon.height),
{
    let count: usize = icon.rgba.len() / 4;
    let mut data: Vec<u32> = Vec::new();
    data.push(icon.width);
    data.push(icon.height);
    let mut i: usize = 0;
    while i < count
        invariant
            i <= count,
            count == icon.rgba.len() / 4,
            data@ == seq![icon.width, icon.height] + Seq::new(
                i as nat,
                |k: int| argb_word(icon.rgba@, k),
            ),
        decreases count - i,
    {
        let r = icon.rgba[4 * i] as u32;
        let g = icon.rgba[4 * i + 1] as u32;
        let b = icon.rgba[4 * i + 2] as u32;
        let a = icon.rgba[4 * i + 3] as u32;
        data.push(a << 24 | r << 16 | g << 8 | b);
        i = i + 1;
        assert(data@ =~= seq![icon.width, icon.height] + Seq::new(
            i as nat,
            |k: int| argb_word(icon.rgba@, k),
        ));
    }
    data
}

impl UnownedWindow {
    pub fn id(&self) -> (r: WindowId)
        ensures
            r.raw == self@.xwindow,
    {
        WindowId { raw: self.xwindow as usize }
    }

    pub fn xlib_window(&self) -> (r: u64)
        ensures
            r == self@.xwindow,
    {
        self.xwindow as u64
    }

    /// The window that messages to the window manager go to.
    pub fn root(&self) -> (r: u32)
        ensures
            r == self@.root,
    {
        self.root
    }

    /// The atoms that the window's connection interned.
    pub fn atoms(&self) -> (r: Atoms)
        ensures
            r == self@.atoms,
    {
        self.atoms
    }

    pub fn sync_counter_id(&self) -> (r: Option<u32>)
        ensures
            r == self@.sync_counter_id,
    {
        self.sync_counter_id
    }

    /// Shows or hides the window. Where it is already as asked, or already on
    /// its way there, nothing is issued; else the window is mapped and raised
    /// and waits for the server to say so, or is unmapped and hidden at once.
    pub fn set_visible(&mut self, visible: bool) -> (calls: Vec<Call>)
        ensures
            final(self)@ == old(self)@.after_set_visible(visible),
            calls.deep_view() == old(self)@.set_visible_calls(visible),
    {
        let mut calls = no_calls();
        let shown = match self.shared_state.data.visibility {
            Visibility::No => false,
            _ => true,
        };
        if visible == shown {
            return calls;
        }
        proof {
            use_type_invariant(&self.shared_state);
        }
        if visible {
            emit(&mut calls, Call::ignore(Request::MapWindow { window: self.xwindow }));
            emit(
                &mut calls,
                Call::ignore(
                    Request::ConfigureWindow {
                        window: self.xwindow,
                        x: None,
                        y: None,
                        width: None,
                        height: None,
                        stack_mode: Some(StackMode::Above),
                    },
                ),
            );
            emit(&mut calls, Call::ignore(Request::Flush));
            self.shared_state.data.visibility = Visibility::YesWait;
        } else {
            emit(&mut calls, Call::ignore(Request::UnmapWindow { window: self.xwindow }));
            emit(&mut calls, Call::ignore(Request::Flush));
            self.shared_state.data.visibility = Visibility::No;
        }
        calls
    }

    /// Whether the server has said that the window is shown.
    pub fn is_visible(&self) -> (r: Option<bool>)
        ensures
            r == Some(self@.state.visibility == Visibility::Yes),
    {
        Some(
            match self.shared_state.data.visibility {
                Visibility::Yes => true,
                _ => false,
            },
        )
    }

    /// The calls that write `title`, twice: as a plain string and as UTF-8.
    pub fn set_title_inner(&self, title: &str) -> (calls: Vec<Call>)
        requires
            !title.spec_bytes().contains(0u8),
        ensures
            calls.deep_view() == self@.title_calls(title.spec_bytes()),
    {
        let mut calls = no_calls();
        emit(&mut calls, Call::bytes(self.xwindow, ATOM_WM_NAME, ATOM_STRING, title.as_bytes_vec()));
        emit(
            &mut calls,
            Call::bytes(
                self.xwindow,
                self.atoms.net_wm_name,
                self.atoms.utf8_string,
                title.as_bytes_vec(),
            ),
        );
        calls
    }

    /// Writes `title` and sends it off.
    pub fn set_title(&self, title: &str) -> (calls: Vec<Call>)
        requires
            !title.spec_bytes().contains(0u8),
        ensures
            calls.deep_view() == self@.title_calls(title.spec_bytes()).push(
                ignored(Request::Flush),
            ),
    {
        let mut calls = self.set_title_inner(title);
        emit(&mut calls, Call::ignore(Request::Flush));
        calls
    }

    /// The call that advertises the theme variant: "light" for the light
    /// theme, "dark" for the dark one and where none is preferred.
    pub fn set_theme_inner(&self, theme: Option<Theme>) -> (call: Call)
        ensures
            call.deep_view() == self@.theme_call(theme),
    {
        let variant: Vec<u8> = match theme {
            Some(Theme::Light) => vec![108u8, 105u8, 103u8, 104u8, 116u8],
            _ => vec![100u8, 97u8, 114u8, 107u8],
        };
        assert(variant@ =~= theme_variant(theme));
        Call::bytes(self.xwindow, self.atoms.gtk_theme_variant, self.atoms.utf8_string, variant)
    }

    /// Advertises the theme variant and sends it off.
    pub fn set_theme(&self, theme: Option<Theme>) -> (calls: Vec<Call>)
        ensures
            calls.deep_view() == seq![self@.theme_call(theme), ignored(Request::Flush)],
    {
        let mut calls = no_calls();
        emit(&mut calls, self.set_theme_inner(theme));
        emit(&mut calls, Call::ignore(Request::Flush));
        calls
    }

    /// The theme is not tracked.
    pub fn theme(&self) -> (r: Option<Theme>)
        ensures
            r is None,
    {
        None
    }

    /// The title is not tracked.
    pub fn title(&self) -> (r: String)
        ensures
            r@ == Seq::<char>::empty(),
    {
        String::new()
    }

    /// The message that adds (`enable`) or removes up to two states.
    pub fn set_netwm(&self, enable: bool, first: u32, second: u32) -> (call: Call)
        ensures
            call.deep_view() == self@.netwm_call(enable, first, second),
    {
        let operation: u32 = if enable {
            1
        } else {
            0
        };
        Call::message(
            self.xwindow,
            self.root,
            self.atoms.net_wm_state,
            ClientData { d0: operation, d1: first, d2: second, d3: 0, d4: 0 },
        )
    }

    /// The message that adds or removes one state.
    pub fn toggle_atom(&self, atom: u32, enable: bool) -> (call: Call)
        ensures
            call.deep_view() == self@.netwm_call(enable, atom, 0),
    {
        self.set_netwm(enable, atom, 0)
    }

    /// The message that minimizes the window, sent to the default screen's
    /// root, or the one that activates it again.
    pub fn set_minimized_inner(&self, minimized: bool) -> (call: Call)
        ensures
            call.deep_view() == self@.minimized_call(minimized),
    {
        if minimized {
            Call::message(
                self.xwindow,
                self.default_root,
                self.atoms.wm_change_state,
                ClientData { d0: 3, d1: 0, d2: 0, d3: 0, d4: 0 },
            )
        } else {
            Call::message(
                self.xwindow,
                self.root,
                self.atoms.net_active_window,
                ClientData { d0: 1, d1: CURRENT_TIME, d2: 0, d3: 0, d4: 0 },
            )
        }
    }

    /// Minimizes the window or brings it back, and sends that off.
    pub fn set_minimized(&self, minimized: bool) -> (calls: Vec<Call>)
        ensures
            calls.deep_view() == seq![self@.minimized_call(minimized), ignored(Request::Flush)],
    {
        let mut calls = no_calls();
        emit(&mut calls, self.set_minimized_inner(minimized));
        emit(&mut calls, Call::ignore(Request::Flush));
        calls
    }

    /// Whether the window is minimized: whether its window-manager state, as
    /// far as it could be read, holds the hidden state.
    pub fn is_minimized(&self, state: Option<&Vec<u32>>) -> (r: Option<bool>)
        ensures
            r == Some(state matches Some(s) && s@.contains(self@.atoms.net_wm_state_hidden)),
    {
        Some(
            match state {
                Some(s) => contains_word(s, self.atoms.net_wm_state_hidden),
                None => false,
            },
        )
    }

    /// Whether the window is maximized: whether its window-manager state, as
    /// far as it could be read, holds both maximized states.
    pub fn is_maximized(&self, state: Option<&Vec<u32>>) -> (r: bool)
        ensures
            r == (state matches Some(s) && s@.contains(self@.atoms.net_wm_state_maximized_horz)
                && s@.contains(self@.atoms.net_wm_state_maximized_vert)),
    {
        match state {
            Some(s) => contains_word(s, self.atoms.net_wm_state_maximized_horz) && contains_word(
                s,
                self.atoms.net_wm_state_maximized_vert,
            ),
            None => false,
        }
    }

    /// The message that maximizes the window on both axes, or undoes that.
    pub fn set_maximized_inner(&self, maximized: bool) -> (call: Call)
        ensures
            call.deep_view() == self@.maximized_call(maximized),
    {
        self.set_netwm(
            maximized,
            self.atoms.net_wm_state_maximized_horz,
            self.atoms.net_wm_state_maximized_vert,
        )
    }

    /// Maximizes the window or undoes that, sends it off, and forgets the
    /// frame extents, which may no longer hold.
    pub fn set_maximized(&mut self, maximized: bool) -> (calls: Vec<Call>)
        ensures
            final(self)@ == old(self)@.with_state(
                StateData { frame_extents: None, ..old(self)@.state },
            ),
            calls.deep_view() == seq![
                old(self)@.maximized_call(maximized),
                ignored(Request::Flush),
            ],
    {
        let mut calls = no_calls();
        emit(&mut calls, self.set_maximized_inner(maximized));
        emit(&mut calls, Call::ignore(Request::Flush));
        self.invalidate_cached_frame_extents();
        calls
    }

    /// Forgets the frame extents.
    pub fn invalidate_cached_frame_extents(&mut self)
        ensures
            final(self)@ == old(self)@.with_state(
                StateData { frame_extents: None, ..old(self)@.state },
            ),
    {
        proof {
            use_type_invariant(&self.shared_state);
        }
        self.shared_state.data.frame_extents = None;
    }

    /// Remembers the frame extents that were measured.
    pub fn update_cached_frame_extents(&mut self, extents: crate::geometry::FrameExtentsHeuristic)
        ensures
            final(self)@ == old(self)@.with_state(
                StateData { frame_extents: Some(extents), ..old(self)@.state },
            ),
    {
        proof {
            use_type_invariant(&self.shared_state);
        }
        self.shared_state.data.frame_extents = Some(extents);
    }

    /// Notes whether the window is decorated, and asks for it.
    pub fn set_decorations_inner(&mut self, decorations: bool) -> (call: Call)
        ensures
            final(self)@ == old(self)@.with_state(
                StateData { is_decorated: decorations, ..old(self)@.state },
            ),
            call.deep_view() == old(self)@.decorations_call(decorations),
    {
        proof {
            use_type_invariant(&self.shared_state);
        }
        self.shared_state.data.is_decorated = decorations;
        Call::ignore(
            Request::UpdateMotifHints {
                window: self.xwindow,
                decorations: Some(decorations),
                maximizable: None,
            },
        )
    }

    /// Shows or removes the decorations, sends that off, and forgets the
    /// frame extents, which may no longer hold.
    pub fn set_decorations(&mut self, decorations: bool) -> (calls: Vec<Call>)
        ensures
            final(self)@ == old(self)@.with_state(
                StateData { is_decorated: decorations, frame_extents: None, ..old(self)@.state },
            ),
            calls.deep_view() == seq![
                old(self)@.decorations_call(decorations),
                ignored(Request::Flush),
            ],
    {
        let mut calls = no_calls();
        let call = self.set_decorations_inner(decorations);
        emit(&mut calls, call);
        emit(&mut calls, Call::ignore(Request::Flush));
        self.invalidate_cached_frame_extents();
        calls
    }

    pub fn is_decorated(&self) -> (r: bool)
        ensures
            r == self@.state.is_decorated,
    {
        self.shared_state.data.is_decorated
    }

    /// The call that allows or forbids maximizing.
    pub fn set_maximizable_inner(&self, maximizable: bool) -> (call: Call)
        ensures
            call.deep_view() == self@.maximizable_call(maximizable),
    {
        Call::ignore(
            Request::UpdateMotifHints {
                window: self.xwindow,
                decorations: None,
                maximizable: Some(maximizable),
            },
        )
    }

    /// The calls that put the window at `level`.
    pub fn set_window_level_inner(&self, level: WindowLevel) -> (calls: Vec<Call>)
        ensures
            calls.deep_view() == self@.window_level_calls(level),
    {
        let top = match level {
            WindowLevel::AlwaysOnTop => true,
            _ => false,
        };
        let bottom = match level {
            WindowLevel::AlwaysOnBottom => true,
            _ => false,
        };
        let mut calls = no_calls();
        emit(&mut calls, self.toggle_atom(self.atoms.net_wm_state_above, top));
        emit(&mut calls, self.toggle_atom(self.atoms.net_wm_state_below, bottom));
        calls
    }

    /// Puts the window at `level` and sends that off.
    pub fn set_window_level(&self, level: WindowLevel) -> (calls: Vec<Call>)
        ensures
            calls.deep_view() == self@.window_level_calls(level).push(ignored(Request::Flush)),
    {
        let mut calls = self.set_window_level_inner(level);
        emit(&mut calls, Call::ignore(Request::Flush));
        calls
    }

    /// The call that writes `icon` as the window's icon.
    pub fn set_icon_inner(&self, icon: &RgbaIcon) -> (call: Call)
        ensures
            call.deep_view() == self@.icon_call(
                icon_words(icon.rgba@, icon.width, icon.height),
            ),
    {
        Call::words(self.xwindow, self.atoms.net_wm_icon, ATOM_CARDINAL, rgba_to_cardinals(icon))
    }

    /// The call that removes the window's icon.
    pub fn unset_icon_inner(&self) -> (call: Call)
        ensures
            call.deep_view() == self@.icon_call(Seq::<u32>::empty()),
    {
        Call::words(self.xwindow, self.atoms.net_wm_icon, ATOM_CARDINAL, Vec::new())
    }

    /// Writes or removes the window's icon and sends that off.
    pub fn set_window_icon(&self, icon: Option<&RgbaIcon>) -> (calls: Vec<Call>)
        ensures
            calls.deep_view() == seq![
                self@.icon_call(
                    match icon {
                        Some(i) => icon_words(i.rgba@, i.width, i.height),
                        None => Seq::<u32>::empty(),
                    },
                ),
                ignored(Request::Flush),
            ],
    {
        let mut calls = no_calls();
        let call = match icon {
            Some(i) => self.set_icon_inner(i),
            None => self.unset_icon_inner(),
        };
        emit(&mut calls, call);
        emit(&mut calls, Call::ignore(Request::Flush));
        calls
    }

    /// The call that writes the window's types, in the order given.
    pub fn set_window_types(&self, window_types: &Vec<WindowType>) -> (call: Call)
        ensures
            call.deep_view() == self@.window_types_call(window_types@),
    {
        let mut atoms: Vec<u32> = Vec::new();
        let mut i: usize = 0;
        while i < window_types.len()
            invariant
                i <= window_types.len(),
                atoms@ == window_types@.subrange(0, i as int).map_values(
                    |t: WindowType| self.atoms.spec_window_type(t),
                ),
            decreases window_types.len() - i,
        {
            atoms.push(self.atoms.window_type(window_types[i]));
            i = i + 1;
            assert(atoms@ =~= window_types@.subrange(0, i as int).map_values(
                |t: WindowType| self.atoms.spec_window_type(t),
            ));
        }
        assert(window_types@.subrange(0, window_types.len() as int) =~= window_types@);
        Call::words(self.xwindow, self.atoms.net_wm_window_type, ATOM_ATOM, atoms)
    }

    /// The call that announces the window as embeddable. It is confirmed.
    pub fn embed_window(&self) -> (call: Call)
        ensures
            call.deep_view() == self@.embed_call(),
    {
        let mut call = Call::words(self.xwindow, self.atoms.xembed, self.atoms.xembed, vec![0u32, 1u32]);
        call.ack = crate::protocol::Ack::Check;
        call
    }

    /// The calls that name the process `pid` and the machine `hostname`.
    pub fn pid_calls(&self, pid: u32, hostname: Vec<u8>) -> (calls: Vec<Call>)
        ensures
            calls.deep_view() == self@.pid_calls(pid, hostname@),
    {
        let mut calls = no_calls();
        let words: Vec<u32> = vec![pid];
        assert(words@ =~= seq![pid]);
        emit(&mut calls, Call::words(self.xwindow, self.atoms.net_wm_pid, ATOM_CARDINAL, words));
        emit(
            &mut calls,
            Call::bytes(self.xwindow, self.atoms.wm_client_machine, ATOM_STRING, hostname),
        );
        calls
    }

    /// Asks for the window to be focused, where it is visible and `wm_state`,
    /// as far as it could be read, does not say that it is minimized.
    pub fn focus_window(&self, wm_state: Option<&Vec<u32>>) -> (calls: Vec<Call>)
        ensures
            calls.deep_view() == self@.focus_calls(
                match wm_state {
                    Some(s) => Some(s@),
                    None => None,
                },
            ),
    {
        let is_minimized = match wm_state {
            Some(s) => contains_word(s, ICONIC_STATE),
            None => false,
        };
        let is_visible = match self.shared_state.data.visibility {
            Visibility::Yes => true,
            _ => false,
        };
        let mut calls = no_calls();
        if is_visible && !is_minimized {
            emit(
                &mut calls,
                Call::message(
                    self.xwindow,
                    self.root,
                    self.atoms.net_active_window,
                    ClientData { d0: 1, d1: CURRENT_TIME, d2: 0, d3: 0, d4: 0 },
                ),
            );
            emit(&mut calls, Call::ignore(Request::Flush));
        }
        calls
    }

    pub fn has_focus(&self) -> (r: bool)
        ensures
            r == self@.state.has_focus,
    {
        self.shared_state.data.has_focus
    }

    /// The call that raises or lowers the urgency flag: raised for any kind
    /// of request, lowered for none.
    pub fn request_user_attention(&self, request_type: Option<UserAttentionType>) -> (call: Call)
        ensures
            call.deep_view() == ignored(
                Request::SetUrgency { window: self@.xwindow, urgent: request_type is Some },
            ),
    {
        Call::ignore(Request::SetUrgency { window: self.xwindow, urgent: request_type.is_some() })
    }

    /// The call that wakes the event loop for a redraw of this window.
    pub fn request_redraw(&self) -> (call: Call)
        ensures
            call.deep_view() == ignored(Request::WakeRedraw { window: self@.xwindow }),
    {
        Call::ignore(Request::WakeRedraw { window: self.xwindow })
    }

    /// The call that wakes the event loop for an activation token, under the
    /// serial number that the answer will carry.
    pub fn request_activation_token(&self, serial: u64) -> (call: Call)
        ensures
            call.deep_view() == ignored(
                Request::WakeActivation { window: self@.xwindow, serial },
            ),
    {
        Call::ignore(Request::WakeActivation { window: self.xwindow, serial })
    }

    /// The mode that an application is told: the staged one where there is one.
    pub fn fullscreen(&self) -> (r: Option<Fullscreen>)
        ensures
            r == self@.state.reported_fullscreen(),
    {
        match &self.shared_state.data.desired_fullscreen {
            Some(f) => clone_target(f),
            None => clone_target(&self.shared_state.data.fullscreen),
        }
    }

    /// The monitor that the window was last seen on.
    pub fn current_monitor(&self) -> (r: Option<Arc<MonitorHandle>>)
        ensures
            r == Some(self@.state.last_monitor),
    {
        Some(self.shared_state.last_monitor())
    }

    pub fn is_resizable(&self) -> (r: bool)
        ensures
            r == self@.state.is_resizable,
    {
        self.shared_state.data.is_resizable
    }

    /// Transparency is decided when the window is created; nothing changes.
    pub fn set_transparent(&self, _transparent: bool) {
    }

    /// Blur is not on offer; nothing changes.
    pub fn set_blur(&self, _blur: bool) {
    }

    /// The buttons cannot be chosen; nothing changes.
    pub fn set_enabled_buttons(&self, _buttons: WindowButtons) {
    }

    /// Content protection is not on offer; nothing changes.
    pub fn set_content_protected(&self, _protected: bool) {
    }

    /// There is no window menu to show; nothing changes.
    pub fn show_window_menu(&self, _position: crate::geometry::PhysicalPosition) {
    }

    /// Nothing is to be done before a frame is presented.
    pub fn pre_present_notify(&self) {
    }

    /// Every button is enabled.
    pub fn enabled_buttons(&self) -> (r: WindowButtons)
        ensures
            r == (WindowButtons { close: true, minimize: true, maximize: true }),
    {
        WindowButtons { close: true, minimize: true, maximize: true }
    }
}

} // verus!
