//! The GPU-facing side of the core: the process-lifetime graphics context,
//! the per-window surface manager, and the per-frame draw plan.
//!
//! The core decides everything that is a decision — which presentation
//! format to use, what the surface configuration is, which draws a frame
//! issues and with which uniform values — and records it in plain values.
//! The embedding shell owns the actual device, queue, surface, pipeline and
//! buffers, and carries each `FramePlan` out to them: one plan is encoded
//! into exactly one command buffer, submitted once, and presented once.

use vstd::prelude::*;
use crate::window::GameWindow;
use crate::window::InnerWindow;

verus! {

/// The per-frame shader parameters, as the core tracks them: the position
/// of the object being drawn (a pair of IEEE-754 single-precision bit
/// patterns) and the animation time as a count of elapsed steps. The shell
/// uploads the time as `steps * 0.001` in single precision; the count
/// saturates rather than wraps, mirroring how the accumulated single loses
/// its increments once large.
#[derive(Debug, Clone, Copy, PartialEq, Eq)]
pub struct Uniforms {
    pub position: (u32, u32),
    pub time: u64,
}

impl Uniforms {
    /// The initial parameters: the origin, at time zero.
    pub fn new() -> (u: Self)
        ensures
            u == (Uniforms { position: (0u32, 0u32), time: 0u64 }),
    {
        Uniforms { position: (0, 0), time: 0 }
    }
}

/// What the platform advertises for a freshly created surface: one flag per
/// supported texture format, in the platform's preference order, saying
/// whether that format is sRGB-capable. The shell reads these off the real
/// surface capabilities; the core only negotiates with the flags.
pub struct SurfaceCaps {
    pub format_is_srgb: Vec<bool>,
}

/// The negotiated swapchain configuration: the drawable extent (clamped to
/// at least one texel each way) and the index of the chosen format within
/// the advertised list.
#[derive(Debug, Clone, Copy, PartialEq, Eq, Structural)]
pub struct SurfaceConfig {
    pub width: u32,
    pub height: u32,
    pub format_index: usize,
}

/// One draw submission: the uniform values written for it. Every draw is
/// the same fixed three-vertex call; only the uniforms vary.
#[derive(Debug, Clone, Copy, PartialEq, Eq)]
pub struct DrawCall {
    pub position: (u32, u32),
    pub time: u64,
}

/// The plan for one frame: the draw submissions, in world order. One plan
/// stands for exactly one command buffer — a single pass that clears to the
/// fixed background color, then issues the draws in order — submitted once
/// and presented once.
pub struct FramePlan {
    pub draws: Vec<DrawCall>,
}

/// Why acquiring a frame from the surface failed. `Lost`, `Outdated` and
/// `Timeout` are recoverable: the frame is skipped and the loop goes on.
/// `OutOfMemory` and `Other` (the generic acquisition failure, which is how
/// a lost device surfaces) are fatal.
#[derive(Debug, Clone, Copy, PartialEq, Eq, Structural)]
pub enum SurfaceError {
    Timeout,
    Outdated,
    Lost,
    OutOfMemory,
    Other,
}

impl SurfaceError {
    /// Whether this failure must end the engine rather than skip a frame.
    pub open spec fn is_fatal_spec(self) -> bool {
        match self {
            SurfaceError::Timeout => false,
            SurfaceError::Outdated => false,
            SurfaceError::Lost => false,
            SurfaceError::OutOfMemory => true,
            SurfaceError::Other => true,
        }
    }

    pub fn is_fatal(&self) -> (r: bool)
        ensures
            r == self.is_fatal_spec(),
    {
        match self {
            SurfaceError::Timeout => false,
            SurfaceError::Outdated => false,
            SurfaceError::Lost => false,
            SurfaceError::OutOfMemory => true,
            SurfaceError::Other => true,
        }
    }

    /// The error's name, as it reads in a log line.
    pub open spec fn name_view(self) -> Seq<char> {
        match self {
            SurfaceError::Timeout => "Timeout"@,
            SurfaceError::Outdated => "Outdated"@,
            SurfaceError::Lost => "Lost"@,
            SurfaceError::OutOfMemory => "OutOfMemory"@,
            SurfaceError::Other => "Other"@,
        }
    }

    pub fn name(&self) -> (r: &'static str)
        ensures
            r@ == self.name_view(),
    {
        match self {
            SurfaceError::Timeout => "Timeout",
            SurfaceError::Outdated => "Outdated",
            SurfaceError::Lost => "Lost",
            SurfaceError::OutOfMemory => "OutOfMemory",
            SurfaceError::Other => "Other",
        }
    }
}

/// Whether any advertised format is sRGB-capable.
pub open spec fn has_srgb(srgb: Seq<bool>) -> bool {
    exists|i: int| 0 <= i < srgb.len() && srgb[i]
}

/// The index of the first sRGB-capable format.
pub open spec fn first_srgb(srgb: Seq<bool>) -> int
    decreases srgb.len(),
{
    if srgb.len() == 0 {
        0
    } else if srgb[0] {
        0
    } else {
        1 + first_srgb(srgb.drop_first())
    }
}

/// The negotiated format: the first sRGB-capable one if any is advertised,
/// else the platform's first advertised format.
pub open spec fn negotiated_format(srgb: Seq<bool>) -> int {
    if has_srgb(srgb) {
        first_srgb(srgb)
    } else {
        0
    }
}

proof fn lemma_first_srgb_at(srgb: Seq<bool>, i: int)
    requires
        0 <= i < srgb.len(),
        srgb[i],
        forall|j: int| 0 <= j < i ==> !srgb[j],
    ensures
        has_srgb(srgb),
        first_srgb(srgb) == i,
    decreases i,
{
    if i > 0 {
        lemma_first_srgb_at(srgb.drop_first(), i - 1);
    }
}

/// Walks the advertised formats and picks the negotiated one.
fn pick_format(caps: &SurfaceCaps) -> (idx: usize)
    requires
        caps.format_is_srgb@.len() > 0,
    ensures
        idx == negotiated_format(caps.format_is_srgb@),
        idx < caps.format_is_srgb@.len(),
{
    let ghost srgb = caps.format_is_srgb@;
    let n = caps.format_is_srgb.len();
    let mut i: usize = 0;
    while i < n
        invariant
            n == srgb.len(),
            i <= n,
            caps.format_is_srgb@ == srgb,
            forall|j: int| 0 <= j < i ==> !srgb[j],
        decreases n - i,
    {
        if caps.format_is_srgb[i] {
            proof {
                lemma_first_srgb_at(srgb, i as int);
            }
            return i;
        }
        i += 1;
    }
    proof {
        assert(!has_srgb(srgb));
    }
    0
}

/// The animation time `k` steps later, saturating at the largest count.
pub open spec fn stepped_time(t: u64, k: int) -> u64 {
    if t + k <= u64::MAX {
        (t + k) as u64
    } else {
        u64::MAX
    }
}

/// The draw submissions one frame issues for a world: one per object, in
/// world order, each carrying the object's position and the time advanced
/// by one more step.
pub open spec fn draw_calls(u0: Uniforms, world: Seq<crate::world::GameObject>) -> Seq<DrawCall> {
    Seq::new(
        world.len(),
        |i: int| DrawCall { position: world[i].position, time: stepped_time(u0.time, i + 1) },
    )
}

/// The uniform state left behind by one frame over a world.
pub open spec fn uniforms_after(u0: Uniforms, world: Seq<crate::world::GameObject>) -> Uniforms {
    Uniforms {
        position: if world.len() == 0 {
            u0.position
        } else {
            world.last().position
        },
        time: stepped_time(u0.time, world.len() as int),
    }
}

/// The per-window swapchain state: the negotiated configuration, the
/// window extent it was configured for, and the uniform parameters as of
/// the last drawn object. The surface itself, the fixed render pipeline and
/// the single uniform buffer/bind-group pair live with the shell, which
/// keeps them in step with this record.
#[derive(Debug, Clone, Copy, PartialEq, Eq)]
pub struct SurfaceManager {
    pub config: SurfaceConfig,
    pub size: (u32, u32),
    pub uniforms: Uniforms,
}

impl SurfaceManager {
    /// Binds a surface manager to a window: reads the window's extent,
    /// negotiates the presentation format, and starts the uniforms at the
    /// origin and time zero. A zero extent is clamped to one texel so the
    /// swapchain configuration stays valid.
    fn new(window: &GameWindow, caps: &SurfaceCaps) -> (sm: Self)
        requires
            caps.format_is_srgb@.len() > 0,
        ensures
            sm.size == window.inner.size_view(),
            sm.config.width == if window.inner.size_view().0 == 0 { 1u32 } else { window.inner.size_view().0 },
            sm.config.height == if window.inner.size_view().1 == 0 { 1u32 } else { window.inner.size_view().1 },
            sm.config.format_index == negotiated_format(caps.format_is_srgb@),
            sm.uniforms == (Uniforms { position: (0u32, 0u32), time: 0u64 }),
    {
        let size = window.inner.size();
        let format_index = pick_format(caps);
        SurfaceManager {
            config: SurfaceConfig {
                width: if size.0 == 0 { 1 } else { size.0 },
                height: if size.1 == 0 { 1 } else { size.1 },
                format_index,
            },
            size,
            uniforms: Uniforms::new(),
        }
    }

    /// Reconfigures the surface for a new window extent. A zero dimension
    /// is a no-op boundary: the configuration is left entirely unchanged.
    pub fn resize(&mut self, new_size: (u32, u32))
        ensures
            new_size.0 == 0 || new_size.1 == 0 ==> *final(self) == *old(self),
            new_size.0 > 0 && new_size.1 > 0 ==> *final(self) == (SurfaceManager {
                config: SurfaceConfig {
                    width: new_size.0,
                    height: new_size.1,
                    format_index: old(self).config.format_index,
                },
                size: new_size,
                uniforms: old(self).uniforms,
            }),
    {
        if new_size.0 > 0 && new_size.1 > 0 {
            self.size = new_size;
            self.config.width = new_size.0;
            self.config.height = new_size.1;
        }
    }

    /// Plans one frame over the world: for each object, in sequence order,
    /// the uniforms take the object's position and one more time step, and
    /// one draw is recorded with exactly those values. The plan's draws all
    /// belong to one pass that clears once, and the shell submits and
    /// presents the plan exactly once.
    pub fn render(&mut self, world: &crate::world::EngineWorld) -> (plan: FramePlan)
        ensures
            plan.draws@ == draw_calls(old(self).uniforms, world@),
            final(self).uniforms == uniforms_after(old(self).uniforms, world@),
            final(self).config == old(self).config,
            final(self).size == old(self).size,
    {
        let ghost u0 = self.uniforms;
        let n = world.objects.len();
        let mut draws: Vec<DrawCall> = Vec::new();
        proof {
            assert(draws@ =~= draw_calls(u0, world@).take(0));
        }
        let mut i: usize = 0;
        while i < n
            invariant
                n == world.objects.len(),
                i <= n,
                draws@ == draw_calls(u0, world@).take(i as int),
                self.uniforms.time == stepped_time(u0.time, i as int),
                self.uniforms.position == if i == 0 { u0.position } else { world@[i as int - 1].position },
                self.config == old(self).config,
                self.size == old(self).size,
            decreases n - i,
        {
            let obj = world.objects[i];
            self.uniforms.position = obj.position;
            self.uniforms.time = if self.uniforms.time < u64::MAX { self.uniforms.time + 1 } else { u64::MAX };
            draws.push(DrawCall { position: obj.position, time: self.uniforms.time });
            proof {
                assert(draws@ =~= draw_calls(u0, world@).take(i as int + 1));
            }
            i += 1;
        }
        proof {
            assert(draw_calls(u0, world@).take(n as int) =~= draw_calls(u0, world@));
        }
        FramePlan { draws }
    }
}

/// The process-lifetime graphics context. The core's record notes that a
/// device and queue were acquired; the handles themselves — instance,
/// adapter, device and queue — are owned by the shell, which acquires them
/// once, asynchronously, and treats failure to find an adapter or device as
/// fatal at startup.
pub struct GraphicsContext {
    _private: (),
}

impl GraphicsContext {
    /// Records a successful device/queue acquisition.
    pub fn new() -> Self {
        GraphicsContext { _private: () }
    }

    /// Negotiates a surface manager for the window from the advertised
    /// capabilities.
    pub fn create_surface_manager(&self, window: &GameWindow, caps: &SurfaceCaps) -> (sm:
        SurfaceManager)
        requires
            caps.format_is_srgb@.len() > 0,
        ensures
            sm.size == window.inner.size_view(),
            sm.config.width == if window.inner.size_view().0 == 0 { 1u32 } else { window.inner.size_view().0 },
            sm.config.height == if window.inner.size_view().1 == 0 { 1u32 } else { window.inner.size_view().1 },
            sm.config.format_index == negotiated_format(caps.format_is_srgb@),
            sm.uniforms == (Uniforms { position: (0u32, 0u32), time: 0u64 }),
    {
        SurfaceManager::new(window, caps)
    }
}

} // verus!
