use vstd::prelude::*;

verus! {

/// More bodies than this, with a GPU kernel at hand, go to the GPU.
pub const GPU_BODY_THRESHOLD: usize = 500;

/// More bodies than this go to the Barnes–Hut octree.
pub const TREE_BODY_THRESHOLD: usize = 50;

/// Most steps that one orbit prediction runs.
pub const MAX_PREDICTION_STEPS: u32 = 2000;

/// Particles per galaxy when the caller names no count.
pub const DEFAULT_GALAXY_PARTICLES: u32 = 300;

/// Most particles per galaxy.
pub const MAX_GALAXY_PARTICLES: u32 = 500;

/// How accelerations are evaluated.
#[derive(Clone, Copy, Debug, PartialEq, Eq, Structural)]
pub enum Backend {
    /// All pairs, on the GPU.
    Gpu,
    /// The Barnes–Hut octree.
    BarnesHut,
    /// All pairs, on the CPU.
    Direct,
}

pub open spec fn backend_for(n: int, gpu_available: bool) -> Backend {
    if n > GPU_BODY_THRESHOLD && gpu_available {
        Backend::Gpu
    } else if n > TREE_BODY_THRESHOLD {
        Backend::BarnesHut
    } else {
        Backend::Direct
    }
}

/// The backend for `n` bodies.
pub fn select_backend(n: usize, gpu_available: bool) -> (r: Backend)
    ensures
        r == backend_for(n as int, gpu_available),
{
    if n > GPU_BODY_THRESHOLD && gpu_available {
        Backend::Gpu
    } else if n > TREE_BODY_THRESHOLD {
        Backend::BarnesHut
    } else {
        Backend::Direct
    }
}

/// A tick does work only when the simulation runs and holds a body.
pub fn tick_runs(paused: bool, body_count: usize) -> (r: bool)
    ensures
        r == (!paused && body_count > 0),
{
    !paused && body_count > 0
}

/// Trails grow on even ticks.
pub fn records_trails(tick: u64) -> (r: bool)
    ensures
        r == (tick % 2 == 0),
{
    tick % 2 == 0
}

/// The number of steps that a prediction runs for a request.
pub fn prediction_steps(requested: u32) -> (r: u32)
    ensures
        r == (if requested < MAX_PREDICTION_STEPS { requested } else { MAX_PREDICTION_STEPS }),
{
    if requested < MAX_PREDICTION_STEPS {
        requested
    } else {
        MAX_PREDICTION_STEPS
    }
}

/// Particles per galaxy for a request: the default when none is named,
/// never above the cap.
pub fn galaxy_particles(requested: Option<u32>) -> (r: u32)
    ensures
        r == (match requested {
            Some(k) => if k < MAX_GALAXY_PARTICLES { k } else { MAX_GALAXY_PARTICLES },
            None => DEFAULT_GALAXY_PARTICLES,
        }),
{
    match requested {
        Some(k) => if k < MAX_GALAXY_PARTICLES {
            k
        } else {
            MAX_GALAXY_PARTICLES
        },
        None => DEFAULT_GALAXY_PARTICLES,
    }
}

} // verus!
