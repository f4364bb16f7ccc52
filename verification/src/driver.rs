//! The render loop driver: what happens at startup and on every frame.
//!
//! The driver owns neither quad nor material. The host keeps both registries
//! and lends them for the length of a call; the driver remembers only whether
//! the effect has been started.

use vstd::prelude::*;
use crate::material::{ticked, MaterialRegistry, ShadeMaterial};
use crate::quad::{drained, resized, QuadRegistry, ResizeOutcome, StartupError};
use crate::scalar::Scalar;
use crate::viewport::{Scale, ViewportSize};

verus! {

/// The two states of the driver. There is no way back from `Running`.
#[derive(Clone, Copy, Debug, PartialEq, Eq, Structural)]
pub enum LoopState {
    /// Nothing has been created yet.
    Uninitialized,
    /// Quad and material exist; frames are being driven.
    Running,
}

/// What one frame did, for a host that wants to log it.
#[derive(Clone, Copy, Debug, PartialEq, Eq, Structural)]
pub struct FrameReport {
    /// How many resize notifications were drained.
    pub resizes_drained: usize,
    /// What the resizes found in the quad registry; `None` where the frame
    /// brought no notification.
    pub resize: Option<ResizeOutcome>,
    /// How many materials were given the new time.
    pub materials_updated: usize,
}

/// The driver of the effect.
#[derive(Debug)]
pub struct RenderLoop {
    state: LoopState,
}

impl View for RenderLoop {
    type V = LoopState;

    closed spec fn view(&self) -> LoopState {
        self.state
    }
}

impl RenderLoop {
    /// A driver that has not been started.
    pub fn new() -> (driver: RenderLoop)
        ensures
            driver@ == LoopState::Uninitialized,
    {
        RenderLoop { state: LoopState::Uninitialized }
    }

    /// The current state.
    pub fn state(&self) -> (state: LoopState)
        ensures
            state == self@,
    {
        self.state
    }

    /// Starts the effect: one quad scaled to the window, one material at its
    /// defaults, and the driver goes to `Running`.
    ///
    /// Without a primary window the startup fails: nothing is created and
    /// the driver stays `Uninitialized`. On a driver that is already running
    /// the call changes nothing, so the effect is started once at most.
    pub fn setup(
        &mut self,
        window: Option<ViewportSize>,
        quads: &mut QuadRegistry,
        materials: &mut MaterialRegistry,
    ) -> (result: Result<(), StartupError>)
        ensures
            old(self)@ == LoopState::Running ==> ({
                &&& result is Ok
                &&& final(self)@ == LoopState::Running
                &&& final(quads)@ == old(quads)@
                &&& final(materials)@ == old(materials)@
            }),
            old(self)@ == LoopState::Uninitialized && window is None ==> ({
                &&& result == Err::<(), StartupError>(StartupError::NoPrimaryWindow)
                &&& final(self)@ == LoopState::Uninitialized
                &&& final(quads)@ == old(quads)@
                &&& final(materials)@ == old(materials)@
            }),
            old(self)@ == LoopState::Uninitialized && window is Some ==> ({
                &&& result is Ok
                &&& final(self)@ == LoopState::Running
                &&& final(quads)@ == old(quads)@.push(Scale::spec_covering(window->0))
                &&& final(materials)@ == old(materials)@.push(ShadeMaterial::spec_default())
            }),
    {
        match self.state {
            LoopState::Running => Ok(()),
            LoopState::Uninitialized => {
                match quads.initialize(window) {
                    Err(error) => Err(error),
                    Ok(()) => {
                        materials.register(ShadeMaterial::default());
                        self.state = LoopState::Running;
                        Ok(())
                    },
                }
            },
        }
    }

    /// Drives one frame: first the resize notifications are drained, each
    /// applied in the order of arrival, then every material is given the
    /// elapsed time. On return the host submits the draw.
    ///
    /// The quads end as after the last notification alone. The materials
    /// depend on the elapsed time only, never on a resize.
    ///
    /// Frames are driven in the `Running` state. Before a successful `setup`
    /// the call touches nothing and returns `None`.
    pub fn frame(
        &self,
        events: &[ViewportSize],
        elapsed: Scalar,
        quads: &mut QuadRegistry,
        materials: &mut MaterialRegistry,
    ) -> (report: Option<FrameReport>)
        ensures
            self@ == LoopState::Uninitialized ==> ({
                &&& report is None
                &&& final(quads)@ == old(quads)@
                &&& final(materials)@ == old(materials)@
            }),
            self@ == LoopState::Running ==> ({
                &&& final(quads)@ == drained(old(quads)@, events@)
                &&& events@.len() == 0 ==> final(quads)@ == old(quads)@
                &&& events@.len() > 0 ==> final(quads)@ == resized(old(quads)@, events@.last())
                &&& events@.len() > 0 && old(quads)@.len() > 0 ==> final(quads)@[0]
                    == Scale::spec_covering(events@.last())
                &&& final(quads)@.len() == old(quads)@.len()
                &&& final(materials)@ == ticked(old(materials)@, elapsed)
                &&& report == Some(
                    FrameReport {
                        resizes_drained: events@.len() as usize,
                        resize: if events@.len() == 0 {
                            None
                        } else {
                            Some(ResizeOutcome::for_count(old(quads)@.len()))
                        },
                        materials_updated: old(materials)@.len() as usize,
                    },
                )
            }),
    {
        match self.state {
            LoopState::Uninitialized => None,
            LoopState::Running => {
                let resize: Option<ResizeOutcome> = quads.update_quad_size(events);
                let materials_updated: usize = materials.update_time(elapsed);
                Some(FrameReport { resizes_drained: events.len(), resize, materials_updated })
            },
        }
    }
}

} // verus!
