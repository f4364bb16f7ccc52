//! The full-screen quad and the registry that holds it.
//!
//! One quad is expected. The registry still works with none (a resize then
//! changes nothing) and with several (a resize then rescales the first and
//! says how many it passed over).

use vstd::prelude::*;
use crate::viewport::{Scale, ViewportSize};

verus! {

/// Why the effect could not be started.
#[derive(Clone, Copy, Debug, PartialEq, Eq, Structural)]
pub enum StartupError {
    /// The host has no primary window to cover.
    NoPrimaryWindow,
}

/// What a resize found in the registry.
#[derive(Clone, Copy, Debug, PartialEq, Eq, Structural)]
pub enum ResizeOutcome {
    /// No quad yet; nothing was changed.
    NoQuad,
    /// The one quad was rescaled.
    Applied,
    /// The first quad was rescaled and `ignored` further quads were left as
    /// they were. The host may want to log this.
    Surplus { ignored: usize },
}

impl ResizeOutcome {
    /// The outcome of a resize on a registry of `count` quads.
    pub open spec fn for_count(count: nat) -> ResizeOutcome {
        if count == 0 {
            ResizeOutcome::NoQuad
        } else if count == 1 {
            ResizeOutcome::Applied
        } else {
            ResizeOutcome::Surplus { ignored: (count - 1) as usize }
        }
    }

    pub open spec fn spec_is_anomaly(self) -> bool {
        self is Surplus
    }

    /// Whether the resize met more quads than the one it expects.
    #[verifier::when_used_as_spec(spec_is_anomaly)]
    pub fn is_anomaly(self) -> (r: bool)
        ensures
            r == self.spec_is_anomaly(),
    {
        match self {
            ResizeOutcome::Surplus { .. } => true,
            _ => false,
        }
    }
}

/// A unit square stretched over the window by its scale.
///
/// The scale is always flat: resizing sets width and height and keeps depth
/// at one.
#[derive(Clone, Copy, Debug)]
pub struct FullscreenQuad {
    scale: Scale,
}

impl View for FullscreenQuad {
    type V = Scale;

    closed spec fn view(&self) -> Scale {
        self.scale
    }
}

impl FullscreenQuad {
    #[verifier::type_invariant]
    spec fn flat(self) -> bool {
        self.scale.is_flat()
    }

    /// A quad that covers a window of the given size.
    pub fn new(size: ViewportSize) -> (quad: FullscreenQuad)
        ensures
            quad@ == Scale::spec_covering(size),
    {
        FullscreenQuad { scale: Scale::covering(size) }
    }

    /// The current scale.
    pub fn scale(&self) -> (scale: Scale)
        ensures
            scale == self@,
            scale.is_flat(),
    {
        proof {
            use_type_invariant(self);
        }
        self.scale
    }

    /// Makes the quad cover a window of the given size.
    pub fn resize(&mut self, size: ViewportSize)
        ensures
            final(self)@ == Scale::spec_covering(size),
    {
        self.scale = Scale::covering(size);
    }
}

/// The scales after a resize to `size`: the first becomes the covering
/// scale, the others stay; with no quad there is nothing to change.
pub open spec fn resized(scales: Seq<Scale>, size: ViewportSize) -> Seq<Scale> {
    if scales.len() == 0 {
        scales
    } else {
        scales.update(0, Scale::spec_covering(size))
    }
}

/// The scales after one resize per notification, in the order of arrival.
pub open spec fn drained(scales: Seq<Scale>, events: Seq<ViewportSize>) -> Seq<Scale>
    decreases events.len(),
{
    if events.len() == 0 {
        scales
    } else {
        resized(drained(scales, events.drop_last()), events.last())
    }
}

/// The quads of the effect, in the order in which they were registered.
#[derive(Debug)]
pub struct QuadRegistry {
    quads: Vec<FullscreenQuad>,
}

impl View for QuadRegistry {
    type V = Seq<Scale>;

    closed spec fn view(&self) -> Seq<Scale> {
        self.quads@.map_values(|quad: FullscreenQuad| quad@)
    }
}

impl QuadRegistry {
    /// A registry without a quad.
    pub fn new() -> (registry: QuadRegistry)
        ensures
            registry@ == Seq::<Scale>::empty(),
    {
        QuadRegistry { quads: Vec::new() }
    }

    /// How many quads are registered.
    pub fn len(&self) -> (count: usize)
        ensures
            count == self@.len(),
    {
        self.quads.len()
    }

    /// The scale of the quad at `index`, if there is one.
    pub fn scale_at(&self, index: usize) -> (scale: Option<Scale>)
        ensures
            index < self@.len() ==> scale == Some(self@[index as int]) && self@[index as int].is_flat(),
            index >= self@.len() ==> scale is None,
    {
        if index < self.quads.len() {
            Some(self.quads[index].scale())
        } else {
            None
        }
    }

    /// Adds a quad behind those already registered.
    pub fn register(&mut self, quad: FullscreenQuad)
        ensures
            final(self)@ == old(self)@.push(quad@),
    {
        self.quads.push(quad);
        assert(self@ =~= old(self)@.push(quad@));
    }

    /// Creates the quad at startup, scaled to the window the host reports.
    ///
    /// Without a primary window there is nothing to cover: the registry is
    /// left as it was and the startup fails.
    pub fn initialize(&mut self, window: Option<ViewportSize>) -> (result: Result<(), StartupError>)
        ensures
            window is None ==> result == Err::<(), StartupError>(StartupError::NoPrimaryWindow)
                && final(self)@ == old(self)@,
            window is Some ==> result is Ok
                && final(self)@ == old(self)@.push(Scale::spec_covering(window->0)),
    {
        match window {
            None => Err(StartupError::NoPrimaryWindow),
            Some(size) => {
                self.register(FullscreenQuad::new(size));
                Ok(())
            },
        }
    }

    /// Reacts to one resize notification: the first quad is made to cover the
    /// new size.
    ///
    /// With no quad registered nothing happens and none is created. Further
    /// quads are not touched; the outcome says how many there were.
    pub fn resize(&mut self, size: ViewportSize) -> (outcome: ResizeOutcome)
        ensures
            final(self)@ == resized(old(self)@, size),
            outcome == ResizeOutcome::for_count(old(self)@.len()),
            final(self)@.len() == old(self)@.len(),
            old(self)@.len() == 0 ==> final(self)@ == old(self)@ && outcome == ResizeOutcome::NoQuad,
            old(self)@.len() > 0 ==> final(self)@[0] == Scale::spec_covering(size),
    {
        let count: usize = self.quads.len();
        if count == 0 {
            return ResizeOutcome::NoQuad;
        }
        let mut quad: FullscreenQuad = self.quads[0];
        quad.resize(size);
        self.quads.set(0, quad);
        assert(self@ =~= resized(old(self)@, size));
        if count == 1 {
            ResizeOutcome::Applied
        } else {
            ResizeOutcome::Surplus { ignored: count - 1 }
        }
    }

    /// Drains the resize notifications of one frame, applying each in the
    /// order of arrival. Returns what the resizes found, or `None` where the
    /// frame brought no notification.
    ///
    /// Each resize overwrites the one before it, so the registry ends as if
    /// only the last notification had arrived.
    pub fn update_quad_size(&mut self, events: &[ViewportSize]) -> (outcome: Option<ResizeOutcome>)
        ensures
            final(self)@ == drained(old(self)@, events@),
            final(self)@.len() == old(self)@.len(),
            events@.len() == 0 ==> outcome is None && final(self)@ == old(self)@,
            events@.len() > 0 ==> outcome == Some(ResizeOutcome::for_count(old(self)@.len()))
                && final(self)@ == resized(old(self)@, events@.last()),
            events@.len() > 0 && old(self)@.len() > 0 ==> final(self)@[0] == Scale::spec_covering(
                events@.last(),
            ),
    {
        let mut outcome: Option<ResizeOutcome> = None;
        let mut next: usize = 0;
        while next < events.len()
            invariant
                next <= events@.len(),
                self@ == drained(old(self)@, events@.take(next as int)),
                self@.len() == old(self)@.len(),
                next == 0 ==> outcome is None,
                next > 0 ==> outcome == Some(ResizeOutcome::for_count(old(self)@.len())),
            decreases events@.len() - next,
        {
            let found: ResizeOutcome = self.resize(events[next]);
            outcome = Some(found);
            proof {
                let before = events@.take(next as int);
                let after = events@.take(next + 1);
                assert(after.drop_last() =~= before);
                assert(after.last() == events@[next as int]);
            }
            next = next + 1;
        }
        proof {
            assert(events@.take(next as int) =~= events@);
            if events@.len() > 0 {
                lemma_only_last_resize_counts(old(self)@, events@);
            }
        }
        outcome
    }
}

/// A resize overwrites whatever an earlier resize wrote.
pub proof fn lemma_resize_overwrites(scales: Seq<Scale>, first: ViewportSize, second: ViewportSize)
    ensures
        resized(resized(scales, first), second) == resized(scales, second),
{
    assert(resized(resized(scales, first), second) =~= resized(scales, second));
}

/// Of the resize notifications drained in one frame only the last takes
/// effect: the registry ends as after that resize alone, and where it holds a
/// quad, the first quad covers the size of the last notification.
pub proof fn lemma_only_last_resize_counts(scales: Seq<Scale>, events: Seq<ViewportSize>)
    requires
        events.len() > 0,
    ensures
        drained(scales, events) == resized(scales, events.last()),
        drained(scales, events).len() == scales.len(),
        scales.len() > 0 ==> drained(scales, events)[0] == Scale::spec_covering(events.last()),
    decreases events.len(),
{
    let earlier = events.drop_last();
    if earlier.len() == 0 {
        assert(drained(scales, earlier) == scales);
    } else {
        lemma_only_last_resize_counts(scales, earlier);
        lemma_resize_overwrites(scales, earlier.last(), events.last());
    }
}

/// Resizing again to the same size changes nothing more: the scales stay as
/// the first resize left them, and the second resize finds what the first
/// found. With at most one quad registered, neither reports an anomaly.
pub proof fn lemma_resize_idempotent(scales: Seq<Scale>, size: ViewportSize)
    ensures
        resized(resized(scales, size), size) == resized(scales, size),
        ResizeOutcome::for_count(resized(scales, size).len()) == ResizeOutcome::for_count(
            scales.len(),
        ),
        scales.len() <= 1 ==> !ResizeOutcome::for_count(scales.len()).spec_is_anomaly(),
{
    lemma_resize_overwrites(scales, size, size);
}

} // verus!
