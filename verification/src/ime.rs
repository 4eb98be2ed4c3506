//! Input-method requests: enabling, updating and disabling an input method.

use crate::error::ImeRequestError;
use crate::protocol::{emit, ignored, no_calls, Call, CallView, Request};
use crate::state::StateData;
use crate::window::{UnownedWindow, WindowModel};
use vstd::prelude::*;

verus! {

/// What an input method may be told about.
#[derive(Clone, Copy, Debug, PartialEq, Eq, Structural)]
pub struct ImeCapabilities {
    pub hint_and_purpose: bool,
    pub cursor_area: bool,
    pub surrounding_text: bool,
}

/// The area around the text cursor, in physical pixels.
#[derive(Clone, Copy, Debug, PartialEq, Eq, Structural)]
pub struct ImeArea {
    pub x: i16,
    pub y: i16,
    pub width: u16,
    pub height: u16,
}

/// What a request tells the input method.
#[derive(Clone, Copy, Debug, PartialEq, Eq, Structural)]
pub struct ImeRequestData {
    pub cursor_area: Option<ImeArea>,
}

/// A request about the input method of a window.
#[derive(Clone, Copy, Debug, PartialEq, Eq, Structural)]
pub enum ImeRequest {
    Enable { capabilities: ImeCapabilities, data: ImeRequestData },
    Update(ImeRequestData),
    Disable,
}

impl WindowModel {
    /// Why a request is refused; nothing where it is not. Enabling twice is
    /// refused, and so is an update while disabled.
    pub open spec fn ime_refusal(self, request: ImeRequest) -> Option<ImeRequestError> {
        match request {
            ImeRequest::Enable { .. } => if self.state.ime_capabilities is Some {
                Some(ImeRequestError::AlreadyEnabled)
            } else {
                None
            },
            ImeRequest::Update(_) => if self.state.ime_capabilities is None {
                Some(ImeRequestError::NotEnabled)
            } else {
                None
            },
            ImeRequest::Disable => None,
        }
    }

    /// The capabilities after a request. A refused request changes nothing.
    pub open spec fn ime_capabilities_after(self, request: ImeRequest) -> Option<ImeCapabilities> {
        match request {
            ImeRequest::Enable { capabilities, .. } => if self.state.ime_capabilities is Some {
                self.state.ime_capabilities
            } else {
                Some(capabilities)
            },
            ImeRequest::Update(_) => self.state.ime_capabilities,
            ImeRequest::Disable => None,
        }
    }

    /// The call that allows or forbids input-method events.
    pub open spec fn ime_allowed_call(self, allowed: bool) -> CallView {
        ignored(Request::ImeAllow { window: self.xwindow, allowed })
    }

    /// The call that tells the input method where the text cursor is.
    pub open spec fn ime_area_call(self, area: ImeArea) -> CallView {
        ignored(
            Request::ImeArea {
                window: self.xwindow,
                x: area.x,
                y: area.y,
                width: area.width,
                height: area.height,
            },
        )
    }

    /// The calls for the cursor area of a request: it is passed on where the
    /// capabilities in force include it, and dropped where they do not.
    pub open spec fn ime_area_calls(
        self,
        data: ImeRequestData,
        capabilities: ImeCapabilities,
    ) -> Seq<CallView> {
        match data.cursor_area {
            Some(area) if capabilities.cursor_area => seq![self.ime_area_call(area)],
            _ => seq![],
        }
    }

    /// The calls of a request that is not refused.
    pub open spec fn ime_calls(self, request: ImeRequest) -> Seq<CallView> {
        match request {
            ImeRequest::Enable { capabilities, data } => seq![self.ime_allowed_call(true)]
                + self.ime_area_calls(data, capabilities),
            ImeRequest::Update(data) => match self.state.ime_capabilities {
                Some(capabilities) => self.ime_area_calls(data, capabilities),
                None => seq![],
            },
            ImeRequest::Disable => seq![self.ime_allowed_call(false)],
        }
    }
}

impl UnownedWindow {
    /// The call that tells the input method where the text cursor is.
    pub fn set_ime_cursor_area(&self, area: ImeArea) -> (call: Call)
        ensures
            call.deep_view() == self@.ime_area_call(area),
    {
        Call::ignore(
            Request::ImeArea {
                window: self.xwindow,
                x: area.x,
                y: area.y,
                width: area.width,
                height: area.height,
            },
        )
    }

    /// The call that allows or forbids input-method events.
    pub fn set_ime_allowed(&self, allowed: bool) -> (call: Call)
        ensures
            call.deep_view() == self@.ime_allowed_call(allowed),
    {
        Call::ignore(Request::ImeAllow { window: self.xwindow, allowed })
    }

    /// Enables, updates or disables the input method.
    ///
    /// Enabling while enabled fails with `AlreadyEnabled`, an update while
    /// disabled with `NotEnabled`; neither changes anything. Disabling always
    /// succeeds. A cursor area is passed on only where the capabilities in
    /// force include it.
    pub fn request_ime_update(&mut self, request: ImeRequest) -> (r: Result<
        Vec<Call>,
        ImeRequestError,
    >)
        ensures
            final(self)@ == old(self)@.with_state(
                StateData {
                    ime_capabilities: old(self)@.ime_capabilities_after(request),
                    ..old(self)@.state
                },
            ),
            match r {
                Ok(calls) => old(self)@.ime_refusal(request) is None && calls.deep_view() == old(
                    self,
                )@.ime_calls(request),
                Err(e) => old(self)@.ime_refusal(request) == Some(e),
            },
    {
        proof {
            use_type_invariant(&self.shared_state);
        }
        let mut calls = no_calls();
        let (capabilities, data) = match request {
            ImeRequest::Enable { capabilities, data } => {
                if self.shared_state.data.ime_capabilities.is_some() {
                    return Err(ImeRequestError::AlreadyEnabled);
                }
                self.shared_state.data.ime_capabilities = Some(capabilities);
                emit(&mut calls, self.set_ime_allowed(true));
                (capabilities, data)
            },
            ImeRequest::Update(data) => match self.shared_state.data.ime_capabilities {
                Some(capabilities) => (capabilities, data),
                None => {
                    return Err(ImeRequestError::NotEnabled);
                },
            },
            ImeRequest::Disable => {
                self.shared_state.data.ime_capabilities = None;
                emit(&mut calls, self.set_ime_allowed(false));
                return Ok(calls);
            },
        };
        if let Some(area) = data.cursor_area {
            if capabilities.cursor_area {
                emit(&mut calls, self.set_ime_cursor_area(area));
            }
        }
        assert(calls.deep_view() =~= old(self)@.ime_calls(request));
        Ok(calls)
    }

    /// The capabilities that the input method was enabled with, if it is.
    pub fn ime_capabilities(&self) -> (r: Option<ImeCapabilities>)
        ensures
            r == self@.state.ime_capabilities,
    {
        self.shared_state.data.ime_capabilities
    }
}

} // verus!
