//! The shader material and the registry of its instances.
//!
//! A material is the block of uniforms that the fragment shader reads: the
//! time since the effect started and a resolution. The time is rewritten on
//! every frame. The resolution is written when the material is created and
//! never again: a resize rescales the quad and leaves every material alone,
//! so the resolution can lag behind the window. A host that wants the shader
//! to see the current size writes the field itself.

use vstd::prelude::*;
use crate::scalar::Scalar;
use crate::viewport::ViewportSize;

verus! {

/// Where the host finds the source of the fragment shader.
pub const SHADER_ASSET_PATH: &'static str = "shaders/shade.wgsl";

/// The uniform slot of the elapsed time, a single number.
pub const TIME_BINDING: u32 = 0;

/// The uniform slot of the resolution, a pair of numbers.
pub const RESOLUTION_BINDING: u32 = 1;

/// What a material has to tell the host so that it can be drawn.
pub trait Material {
    /// The path that every call of `fragment_shader` gives.
    spec fn shader_path() -> Seq<char>;

    /// The asset path of the material's fragment shader.
    fn fragment_shader() -> (path: &'static str)
        ensures
            path@ == Self::shader_path(),
    ;
}

/// The uniforms of the effect.
#[derive(Clone, Copy, Debug, PartialEq, Eq, Structural)]
pub struct ShadeMaterial {
    /// Seconds since the effect started.
    pub time: Scalar,
    /// The resolution the material was created with.
    pub resolution: ViewportSize,
}

impl ShadeMaterial {
    /// The material as it is created: time zero, resolution zero by zero.
    pub open spec fn spec_default() -> ShadeMaterial {
        ShadeMaterial {
            time: Scalar::spec_zero(),
            resolution: ViewportSize { width: Scalar::spec_zero(), height: Scalar::spec_zero() },
        }
    }

    /// The material with its time replaced.
    pub open spec fn at_time(self, elapsed: Scalar) -> ShadeMaterial {
        ShadeMaterial { time: elapsed, resolution: self.resolution }
    }
}

impl Default for ShadeMaterial {
    fn default() -> (material: ShadeMaterial)
        ensures
            material == ShadeMaterial::spec_default(),
    {
        ShadeMaterial {
            time: Scalar::zero(),
            resolution: ViewportSize::new(Scalar::zero(), Scalar::zero()),
        }
    }
}

impl Material for ShadeMaterial {
    open spec fn shader_path() -> Seq<char> {
        SHADER_ASSET_PATH@
    }

    fn fragment_shader() -> (path: &'static str) {
        SHADER_ASSET_PATH
    }
}

/// The materials after a tick: each shows the elapsed time and keeps its
/// resolution.
pub open spec fn ticked(materials: Seq<ShadeMaterial>, elapsed: Scalar) -> Seq<ShadeMaterial> {
    Seq::new(materials.len(), |i: int| materials[i].at_time(elapsed))
}

/// The live instances of the material. One is expected; any number is served.
#[derive(Debug)]
pub struct MaterialRegistry {
    materials: Vec<ShadeMaterial>,
}

impl View for MaterialRegistry {
    type V = Seq<ShadeMaterial>;

    closed spec fn view(&self) -> Seq<ShadeMaterial> {
        self.materials@
    }
}

impl MaterialRegistry {
    /// A registry without a material.
    pub fn new() -> (registry: MaterialRegistry)
        ensures
            registry@ == Seq::<ShadeMaterial>::empty(),
    {
        MaterialRegistry { materials: Vec::new() }
    }

    /// How many materials are registered.
    pub fn len(&self) -> (count: usize)
        ensures
            count == self@.len(),
    {
        self.materials.len()
    }

    /// The material at `index`, if there is one.
    pub fn get(&self, index: usize) -> (material: Option<ShadeMaterial>)
        ensures
            index < self@.len() ==> material == Some(self@[index as int]),
            index >= self@.len() ==> material is None,
    {
        if index < self.materials.len() {
            Some(self.materials[index])
        } else {
            None
        }
    }

    /// Adds a material behind those already registered.
    pub fn register(&mut self, material: ShadeMaterial)
        ensures
            final(self)@ == old(self)@.push(material),
    {
        self.materials.push(material);
    }

    /// The tick of a frame: writes the elapsed time into every material and
    /// returns how many there were.
    ///
    /// All instances get the same time, and none has its resolution touched.
    /// The time is single precision: after some 2^24 seconds it can no longer
    /// tell neighbouring frames apart. That is a limit of the format, and the
    /// tick does nothing about it.
    pub fn update_time(&mut self, elapsed: Scalar) -> (count: usize)
        ensures
            final(self)@ == ticked(old(self)@, elapsed),
            count == old(self)@.len(),
    {
        let count: usize = self.materials.len();
        let mut next: usize = 0;
        while next < count
            invariant
                next <= count,
                count == old(self)@.len(),
                self@.len() == count,
                forall|i: int| 0 <= i < next ==> self@[i] == old(self)@[i].at_time(elapsed),
                forall|i: int| next <= i < count ==> self@[i] == old(self)@[i],
            decreases count - next,
        {
            let mut material: ShadeMaterial = self.materials[next];
            material.time = elapsed;
            self.materials.set(next, material);
            next = next + 1;
        }
        assert(self@ =~= ticked(old(self)@, elapsed));
        count
    }
}

/// Every material shows the time of the last tick, so the time on display
/// grows from frame to frame exactly as the elapsed time handed in grows: if
/// one tick brings `earlier` and the next brings a greater `later`, each
/// material goes from `earlier` to `later`.
pub proof fn lemma_time_follows_clock(
    materials: Seq<ShadeMaterial>,
    earlier: Scalar,
    later: Scalar,
    index: int,
)
    requires
        0 <= index < materials.len(),
        earlier.spec_lt(later),
    ensures
        ticked(materials, earlier)[index].time == earlier,
        ticked(ticked(materials, earlier), later)[index].time == later,
        ticked(materials, earlier)[index].time.spec_lt(
            ticked(ticked(materials, earlier), later)[index].time,
        ),
        ticked(ticked(materials, earlier), later)[index].resolution
            == materials[index].resolution,
{
}

/// A tick treats all instances alike: afterwards any two show the same time.
pub proof fn lemma_tick_is_uniform(materials: Seq<ShadeMaterial>, elapsed: Scalar, i: int, j: int)
    requires
        0 <= i < materials.len(),
        0 <= j < materials.len(),
    ensures
        ticked(materials, elapsed).len() == materials.len(),
        ticked(materials, elapsed)[i].time == ticked(materials, elapsed)[j].time,
{
}

} // verus!
