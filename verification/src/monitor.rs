//! Outputs, their video modes, and the fullscreen modes that name them.

use crate::geometry::{AaRect, PhysicalSize, ScaleFactor};
use std::sync::Arc;
use vstd::prelude::*;
use vstd::std_specs::cmp::PartialEqSpecImpl;

verus! {

/// A resolution and refresh rate that an output can be driven at. A depth or
/// a rate of zero does not occur: an unknown one is absent.
#[derive(Clone, Copy, Debug, PartialEq, Eq, Structural)]
pub struct VideoMode {
    pub size: PhysicalSize,
    pub bit_depth: Option<u16>,
    pub refresh_rate_millihertz: Option<u32>,
}

/// A video mode with the id that the server knows it by.
#[derive(Clone, Copy, Debug, PartialEq, Eq, Structural)]
pub struct VideoModeHandle {
    pub mode: VideoMode,
    pub native_mode: u32,
}

/// An output as the server reported it.
#[derive(Debug)]
pub struct MonitorHandle {
    /// The id of the output's controller; zero on the dummy monitor only.
    pub id: u32,
    pub name: String,
    pub scale_factor: ScaleFactor,
    /// The output's origin on the root window.
    pub position: (i32, i32),
    pub rect: AaRect,
    pub video_modes: Vec<VideoModeHandle>,
}

impl PartialEq for MonitorHandle {
    /// Two handles are equal where they name the same output.
    fn eq(&self, other: &MonitorHandle) -> (r: bool) {
        self.id == other.id
    }
}

impl Eq for MonitorHandle {

}

impl PartialEqSpecImpl for MonitorHandle {
    open spec fn obeys_eq_spec() -> bool {
        true
    }

    open spec fn eq_spec(&self, other: &MonitorHandle) -> bool {
        self.id == other.id
    }
}

/// The bit pattern of the double 1.0.
pub const SCALE_ONE: u64 = 0x3ff0_0000_0000_0000;

/// The id of the first entry of `modes` whose mode is `requested`.
pub open spec fn native_mode_of(modes: Seq<VideoModeHandle>, requested: VideoMode) -> Option<u32>
    decreases modes.len(),
{
    if modes.len() == 0 {
        None
    } else if modes[0].mode == requested {
        Some(modes[0].native_mode)
    } else {
        native_mode_of(modes.subrange(1, modes.len() as int), requested)
    }
}

/// The index of the first monitor whose rectangle holds the point.
pub open spec fn first_covering(monitors: Seq<Arc<MonitorHandle>>, x: int, y: int) -> Option<int>
    decreases monitors.len(),
{
    if monitors.len() == 0 {
        None
    } else if monitors[0].rect.covers(x, y) {
        Some(0int)
    } else {
        match first_covering(monitors.subrange(1, monitors.len() as int), x, y) {
            Some(i) => Some(i + 1),
            None => None,
        }
    }
}

/// The index of the monitor that a new window is taken to be on: the first one
/// under the pointer, else the first one; none where there is no monitor.
pub open spec fn guessed_index(
    monitors: Seq<Arc<MonitorHandle>>,
    pointer: Option<(i64, i64)>,
) -> Option<int> {
    if monitors.len() == 0 {
        None
    } else {
        match pointer {
            Some(p) => match first_covering(monitors, p.0 as int, p.1 as int) {
                Some(i) => Some(i),
                None => Some(0int),
            },
            None => Some(0int),
        }
    }
}

/// What `first_covering` finds lies in the sequence, holds the point, and is
/// the first that does; where it finds nothing, no monitor holds the point.
pub proof fn lemma_first_covering(monitors: Seq<Arc<MonitorHandle>>, x: int, y: int)
    ensures
        match first_covering(monitors, x, y) {
            Some(i) => {
                &&& 0 <= i < monitors.len()
                &&& monitors[i].rect.covers(x, y)
                &&& forall|j: int| 0 <= j < i ==> !(#[trigger] monitors[j]).rect.covers(x, y)
            },
            None => forall|j: int|
                0 <= j < monitors.len() ==> !(#[trigger] monitors[j]).rect.covers(x, y),
        },
    decreases monitors.len(),
{
    if monitors.len() > 0 && !monitors[0].rect.covers(x, y) {
        let rest = monitors.subrange(1, monitors.len() as int);
        lemma_first_covering(rest, x, y);
        assert(forall|j: int| 0 <= j < rest.len() ==> rest[j] == monitors[j + 1]);
        match first_covering(rest, x, y) {
            Some(i) => {
                assert forall|j: int| 0 <= j < i + 1 implies !(#[trigger] monitors[j]).rect.covers(
                    x,
                    y,
                ) by {
                    if j > 0 {
                        assert(rest[j - 1] == monitors[j]);
                    }
                }
            },
            None => {
                assert forall|j: int| 0 <= j < monitors.len() implies !(
                #[trigger] monitors[j]).rect.covers(x, y) by {
                    if j > 0 {
                        assert(rest[j - 1] == monitors[j]);
                    }
                }
            },
        }
    }
}

/// What `native_mode_of` finds is the id of an entry with the requested mode,
/// before which no entry has it; where it finds nothing, no entry has it.
pub proof fn lemma_native_mode_of(modes: Seq<VideoModeHandle>, requested: VideoMode)
    ensures
        match native_mode_of(modes, requested) {
            Some(id) => exists|i: int|
                {
                    &&& 0 <= i < modes.len()
                    &&& (#[trigger] modes[i]).mode == requested
                    &&& modes[i].native_mode == id
                    &&& forall|j: int| 0 <= j < i ==> (#[trigger] modes[j]).mode != requested
                },
            None => forall|j: int| 0 <= j < modes.len() ==> (#[trigger] modes[j]).mode != requested,
        },
    decreases modes.len(),
{
    if modes.len() > 0 {
        if modes[0].mode == requested {
            assert(modes[0].mode == requested && modes[0].native_mode == modes[0].native_mode);
        } else {
            let rest = modes.subrange(1, modes.len() as int);
            lemma_native_mode_of(rest, requested);
            assert(forall|j: int| 0 <= j < rest.len() ==> rest[j] == modes[j + 1]);
            match native_mode_of(rest, requested) {
                Some(id) => {
                    let i = choose|i: int|
                        {
                            &&& 0 <= i < rest.len()
                            &&& (#[trigger] rest[i]).mode == requested
                            &&& rest[i].native_mode == id
                            &&& forall|j: int|
                                0 <= j < i ==> (#[trigger] rest[j]).mode != requested
                        };
                    assert(modes[i + 1] == rest[i]);
                    assert forall|j: int| 0 <= j < i + 1 implies (#[trigger] modes[j]).mode
                        != requested by {
                        if j > 0 {
                            assert(rest[j - 1] == modes[j]);
                        }
                    }
                    assert((#[trigger] modes[i + 1]).mode == requested);
                },
                None => {
                    assert forall|j: int| 0 <= j < modes.len() implies (#[trigger] modes[j]).mode
                        != requested by {
                        if j > 0 {
                            assert(rest[j - 1] == modes[j]);
                        }
                    }
                },
            }
        }
    }
}

impl MonitorHandle {
    /// Whether this is the stand-in for "no monitor": no real output has id zero.
    pub open spec fn spec_is_dummy(&self) -> bool {
        self.id == 0
    }

    /// The stand-in for "no monitor": id zero, scale one, one pixel at the
    /// origin, no video modes.
    pub fn dummy() -> (r: MonitorHandle)
        ensures
            r.id == 0,
            r.spec_is_dummy(),
            r.name@ == "<dummy monitor>"@,
            r.scale_factor == (ScaleFactor { bits: SCALE_ONE }),
            r.position == (0i32, 0i32),
            r.rect == (AaRect { x: 0, y: 0, width: 1, height: 1 }),
            r.video_modes@ == Seq::<VideoModeHandle>::empty(),
    {
        MonitorHandle {
            id: 0,
            name: "<dummy monitor>".to_owned(),
            scale_factor: ScaleFactor { bits: SCALE_ONE },
            position: (0, 0),
            rect: AaRect::new((0, 0), (1, 1)),
            video_modes: Vec::new(),
        }
    }

    /// Whether this is the stand-in for "no monitor".
    pub fn is_dummy(&self) -> (r: bool)
        ensures
            r == self.spec_is_dummy(),
    {
        self.id == 0
    }

    /// The id that the server knows the output by.
    pub fn native_id(&self) -> (r: u32)
        ensures
            r == self.id,
    {
        self.id
    }

    /// The id of the first of this output's video modes that equals `requested`;
    /// nothing where none does.
    pub fn native_mode(&self, requested: &VideoMode) -> (r: Option<u32>)
        ensures
            r == native_mode_of(self.video_modes@, *requested),
            match r {
                Some(id) => exists|i: int|
                    {
                        &&& 0 <= i < self.video_modes@.len()
                        &&& (#[trigger] self.video_modes@[i]).mode == *requested
                        &&& self.video_modes@[i].native_mode == id
                        &&& forall|j: int|
                            0 <= j < i ==> (#[trigger] self.video_modes@[j]).mode != *requested
                    },
                None => forall|j: int|
                    0 <= j < self.video_modes@.len() ==> (#[trigger] self.video_modes@[j]).mode
                        != *requested,
            },
    {
        proof {
            lemma_native_mode_of(self.video_modes@, *requested);
        }
        let mut i: usize = 0;
        assert(self.video_modes@.subrange(0, self.video_modes.len() as int) =~= self.video_modes@);
        while i < self.video_modes.len()
            invariant
                i <= self.video_modes.len(),
                native_mode_of(self.video_modes@, *requested) == native_mode_of(
                    self.video_modes@.subrange(i as int, self.video_modes.len() as int),
                    *requested,
                ),
            decreases self.video_modes.len() - i,
        {
            let ghost rest = self.video_modes@.subrange(i as int, self.video_modes.len() as int);
            assert(rest[0] == self.video_modes@[i as int]);
            assert(rest.subrange(1, rest.len() as int) =~= self.video_modes@.subrange(
                i + 1,
                self.video_modes.len() as int,
            ));
            let entry = self.video_modes[i];
            if entry.mode == *requested {
                proof {
                    lemma_native_mode_of(self.video_modes@, *requested);
                }
                return Some(entry.native_mode);
            }
            i = i + 1;
        }
        assert(self.video_modes@.subrange(i as int, self.video_modes.len() as int).len() == 0);
        None
    }
}

/// `Arc::clone`: another handle on the same monitor, so equal to the first.
#[verifier::external_body]
pub(crate) fn share(monitor: &Arc<MonitorHandle>) -> (r: Arc<MonitorHandle>)
    ensures
        r == *monitor,
{
    Arc::clone(monitor)
}

/// The monitor that a new window is taken to be on: the first one whose
/// rectangle holds the pointer, else the first one, else the dummy monitor.
pub fn guess_monitor(monitors: &Vec<Arc<MonitorHandle>>, pointer: Option<(i64, i64)>) -> (r: Arc<
    MonitorHandle,
>)
    ensures
        match guessed_index(monitors@, pointer) {
            Some(i) => 0 <= i < monitors.len() && r == monitors[i],
            None => r.spec_is_dummy(),
        },
{
    if monitors.len() == 0 {
        return Arc::new(MonitorHandle::dummy());
    }
    if let Some(p) = pointer {
        let mut i: usize = 0;
        while i < monitors.len()
            invariant
                i <= monitors.len(),
                monitors.len() > 0,
                pointer == Some(p),
                forall|j: int|
                    0 <= j < i ==> !(#[trigger] monitors@[j]).rect.covers(p.0 as int, p.1 as int),
            decreases monitors.len() - i,
        {
            if monitors[i].rect.contains_point(p.0, p.1) {
                proof {
                    lemma_first_covering(monitors@, p.0 as int, p.1 as int);
                    assert(monitors@[i as int].rect.covers(p.0 as int, p.1 as int));
                    assert(first_covering(monitors@, p.0 as int, p.1 as int) == Some(i as int));
                }
                return share(&monitors[i]);
            }
            i = i + 1;
        }
        proof {
            lemma_first_covering(monitors@, p.0 as int, p.1 as int);
        }
    }
    share(&monitors[0])
}

/// A fullscreen mode. Two modes are equal where they name the same outputs
/// and the same video mode.
#[derive(Debug, PartialEq, Eq)]
pub enum Fullscreen {
    /// The output is switched to the video mode and the window covers it.
    Exclusive(Arc<MonitorHandle>, VideoMode),
    /// The window covers the output, or the one it is on where none is named.
    Borderless(Option<Arc<MonitorHandle>>),
}

/// Whether two targets ask for the same thing. Monitors are told apart by
/// their ids alone.
pub open spec fn same_fullscreen(a: Option<Fullscreen>, b: Option<Fullscreen>) -> bool {
    match (a, b) {
        (None, None) => true,
        (Some(Fullscreen::Exclusive(m, v)), Some(Fullscreen::Exclusive(n, w))) => m.id == n.id && v
            == w,
        (Some(Fullscreen::Borderless(None)), Some(Fullscreen::Borderless(None))) => true,
        (Some(Fullscreen::Borderless(Some(m))), Some(Fullscreen::Borderless(Some(n)))) => m.id
            == n.id,
        _ => false,
    }
}

impl Fullscreen {
    /// Whether the mode switches the output's video mode.
    pub open spec fn is_exclusive(self) -> bool {
        self is Exclusive
    }
}

impl Clone for Fullscreen {
    /// Another value for the same mode, on the same monitor.
    fn clone(&self) -> (r: Fullscreen)
        ensures
            r == *self,
    {
        match self {
            Fullscreen::Exclusive(m, v) => Fullscreen::Exclusive(share(m), *v),
            Fullscreen::Borderless(Some(m)) => Fullscreen::Borderless(Some(share(m))),
            Fullscreen::Borderless(None) => Fullscreen::Borderless(None),
        }
    }
}

/// A copy of an optional mode.
pub fn clone_target(target: &Option<Fullscreen>) -> (r: Option<Fullscreen>)
    ensures
        r == *target,
{
    match target {
        Some(f) => Some(f.clone()),
        None => None,
    }
}

/// Whether two targets ask for the same thing.
pub fn targets_equal(a: &Option<Fullscreen>, b: &Option<Fullscreen>) -> (r: bool)
    ensures
        r == same_fullscreen(*a, *b),
{
    match (a, b) {
        (None, None) => true,
        (Some(Fullscreen::Exclusive(m, v)), Some(Fullscreen::Exclusive(n, w))) => m.id == n.id
            && *v == *w,
        (Some(Fullscreen::Borderless(None)), Some(Fullscreen::Borderless(None))) => true,
        (Some(Fullscreen::Borderless(Some(m))), Some(Fullscreen::Borderless(Some(n)))) => m.id
            == n.id,
        _ => false,
    }
}

} // verus!
