//! Why a request to a window was not carried out.

use vstd::prelude::*;

verus! {

/// Why a confining pointer grab was refused.
#[derive(Clone, Copy, Debug, PartialEq, Eq, Structural)]
pub enum GrabFailure {
    /// Another client holds the grab.
    AlreadyGrabbed,
    /// The timestamp of the request was not accepted.
    InvalidTime,
    /// The window to confine to cannot be seen.
    NotViewable,
    /// Another client has frozen the pointer.
    Frozen,
}

/// An error of the platform.
#[derive(Clone, Copy, Debug, PartialEq, Eq, Structural)]
pub enum OsError {
    /// The screen has no visual with this id.
    NoSuchVisual(u32),
    /// The pointer could not be confined.
    Grab(GrabFailure),
}

/// What is not supported.
#[derive(Clone, Copy, Debug, PartialEq, Eq, Structural)]
pub enum NotSupportedError {
    /// A screen id below zero was asked for.
    NegativeScreenId,
    /// The server has no screen with the id asked for.
    UnknownScreenId,
    /// Locking the pointer in place.
    LockedCursor,
}

/// Why a request was not carried out.
#[derive(Clone, Copy, Debug, PartialEq, Eq, Structural)]
pub enum RequestError {
    NotSupported(NotSupportedError),
    /// The request could not be issued, and nothing was changed.
    Ignored,
    Os(OsError),
}

/// Why an input-method request was not carried out.
#[derive(Clone, Copy, Debug, PartialEq, Eq, Structural)]
pub enum ImeRequestError {
    /// The input method is not enabled.
    NotEnabled,
    /// The input method is already enabled.
    AlreadyEnabled,
}

impl GrabFailure {
    /// The failure in words.
    pub fn message(&self) -> (r: &'static str)
        ensures
            r@ == match *self {
                GrabFailure::AlreadyGrabbed =>
                    "Cursor could not be confined: already confined by another client"@,
                GrabFailure::InvalidTime => "Cursor could not be confined: invalid time"@,
                GrabFailure::NotViewable =>
                    "Cursor could not be confined: confine location not viewable"@,
                GrabFailure::Frozen => "Cursor could not be confined: frozen by another client"@,
            },
    {
        match self {
            GrabFailure::AlreadyGrabbed =>
                "Cursor could not be confined: already confined by another client",
            GrabFailure::InvalidTime => "Cursor could not be confined: invalid time",
            GrabFailure::NotViewable =>
                "Cursor could not be confined: confine location not viewable",
            GrabFailure::Frozen => "Cursor could not be confined: frozen by another client",
        }
    }
}

impl NotSupportedError {
    /// The error in words.
    pub fn message(&self) -> (r: &'static str)
        ensures
            r@ == match *self {
                NotSupportedError::NegativeScreenId => "screen id must be non-negative"@,
                NotSupportedError::UnknownScreenId =>
                    "requested screen id not present in server's response"@,
                NotSupportedError::LockedCursor => "locked cursor is not implemented on X11"@,
            },
    {
        match self {
            NotSupportedError::NegativeScreenId => "screen id must be non-negative",
            NotSupportedError::UnknownScreenId =>
                "requested screen id not present in server's response",
            NotSupportedError::LockedCursor => "locked cursor is not implemented on X11",
        }
    }
}

} // verus!
