//! The size hints that a window advertises to its window manager.

use crate::geometry::{HintSize, PhysicalPosition};
use vstd::prelude::*;

verus! {

/// A width and a height as a size hint holds them.
#[derive(Clone, Copy, Debug, PartialEq, Eq, Structural)]
pub struct HintPixels {
    pub width: i32,
    pub height: i32,
}

/// The normal size hints of a window. A position or a size that is present is
/// marked as specified by the user.
#[derive(Clone, Copy, Debug, PartialEq, Eq, Structural)]
pub struct NormalHints {
    pub position: Option<PhysicalPosition>,
    pub size: Option<HintPixels>,
    pub min_size: Option<HintSize>,
    pub max_size: Option<HintSize>,
    pub size_increment: Option<HintSize>,
    pub base_size: Option<HintSize>,
}

/// A change to some of a window's normal size hints. An outer `None` leaves
/// the entry as it is; `Some(None)` removes it.
#[derive(Clone, Copy, Debug, PartialEq, Eq, Structural)]
pub struct HintsPatch {
    pub min_size: Option<Option<HintSize>>,
    pub max_size: Option<Option<HintSize>>,
    pub size_increment: Option<Option<HintSize>>,
    pub base_size: Option<Option<HintSize>>,
}

/// `change` where it names a value, `current` where it does not.
pub open spec fn patched(current: Option<HintSize>, change: Option<Option<HintSize>>) -> Option<
    HintSize,
> {
    match change {
        Some(v) => v,
        None => current,
    }
}

impl NormalHints {
    /// Hints with no entry.
    pub open spec fn spec_empty() -> NormalHints {
        NormalHints {
            position: None,
            size: None,
            min_size: None,
            max_size: None,
            size_increment: None,
            base_size: None,
        }
    }

    /// These hints after `patch`.
    pub open spec fn spec_apply(self, patch: HintsPatch) -> NormalHints {
        NormalHints {
            position: self.position,
            size: self.size,
            min_size: patched(self.min_size, patch.min_size),
            max_size: patched(self.max_size, patch.max_size),
            size_increment: patched(self.size_increment, patch.size_increment),
            base_size: patched(self.base_size, patch.base_size),
        }
    }

    /// Hints with no entry: what a window has before any were written.
    pub fn empty() -> (r: NormalHints)
        ensures
            r == NormalHints::spec_empty(),
    {
        NormalHints {
            position: None,
            size: None,
            min_size: None,
            max_size: None,
            size_increment: None,
            base_size: None,
        }
    }

    /// These hints after `patch`: position and size stay, each entry that the
    /// patch names is replaced.
    pub fn apply(self, patch: HintsPatch) -> (r: NormalHints)
        ensures
            r == self.spec_apply(patch),
    {
        NormalHints {
            position: self.position,
            size: self.size,
            min_size: match patch.min_size {
                Some(v) => v,
                None => self.min_size,
            },
            max_size: match patch.max_size {
                Some(v) => v,
                None => self.max_size,
            },
            size_increment: match patch.size_increment {
                Some(v) => v,
                None => self.size_increment,
            },
            base_size: match patch.base_size {
                Some(v) => v,
                None => self.base_size,
            },
        }
    }
}

impl HintsPatch {
    /// The patch that changes nothing.
    pub open spec fn spec_none() -> HintsPatch {
        HintsPatch { min_size: None, max_size: None, size_increment: None, base_size: None }
    }

    /// The patch that changes nothing.
    pub fn none() -> (r: HintsPatch)
        ensures
            r == HintsPatch::spec_none(),
    {
        HintsPatch { min_size: None, max_size: None, size_increment: None, base_size: None }
    }
}

} // verus!
