//! The settings of the world renderer.

use vstd::prelude::*;

verus! {

/// Render distance, in chunks, of a renderer that was not told another.
pub const DEFAULT_RENDER_DISTANCE: u32 = 32;

/// What the graphics device offers beyond the minimum.
pub struct WorldRendererFeatures {
    pub fill_mode_non_solid: bool,
}

impl Default for WorldRendererFeatures {
    fn default() -> (features: Self)
        ensures
            !features.fill_mode_non_solid,
    {
        WorldRendererFeatures { fill_mode_non_solid: false }
    }
}

/// The settings of the world renderer that can change while it runs.
#[derive(Clone, Copy)]
pub struct WorldRendererConfig {
    pub wireframe_mode: bool,
    pub render_aabbs: bool,
    pub disable_visibilty: bool,
    pub render_distance: u32,
    pub worker_threads: u32,
}

/// Half the processors of a machine, where the count is first cut to its low
/// 32 bits.
pub open spec fn half_of_cpus(cpus: usize) -> u32 {
    (cpus as u32) / 2
}

/// Number of the processors of this machine that the process may use.
///
/// Calls `num_cpus::get`, which documents that it returns at least 1; the
/// count itself depends on the machine and nothing more is claimed of it.
#[verifier::external_body]
pub(crate) fn available_cpus() -> (cpus: usize)
    ensures
        cpus >= 1,
{
    num_cpus::get()
}

impl WorldRendererConfig {
    /// The default settings on a machine with `cpus` processors: everything
    /// off, the default render distance, and half the processors as workers.
    pub fn for_cpus(cpus: usize) -> (config: Self)
        ensures
            !config.wireframe_mode,
            !config.render_aabbs,
            !config.disable_visibilty,
            config.render_distance == DEFAULT_RENDER_DISTANCE,
            config.worker_threads == half_of_cpus(cpus),
    {
        let cut: u32 = #[verifier::truncate] (cpus as u32);
        WorldRendererConfig {
            wireframe_mode: false,
            render_aabbs: false,
            disable_visibilty: false,
            render_distance: DEFAULT_RENDER_DISTANCE,
            worker_threads: cut / 2,
        }
    }
}

impl Default for WorldRendererConfig {
    /// The default settings on this machine; the worker count is half of
    /// whatever count of processors the machine reports.
    fn default() -> (config: Self)
        ensures
            !config.wireframe_mode,
            !config.render_aabbs,
            !config.disable_visibilty,
            config.render_distance == DEFAULT_RENDER_DISTANCE,
            exists|cpus: usize| cpus >= 1 && config.worker_threads == #[trigger] half_of_cpus(cpus),
    {
        let cpus = available_cpus();
        WorldRendererConfig::for_cpus(cpus)
    }
}

/// The choices that a set of graphics pipelines is built with.
pub struct PipelineOptions {
    pub wireframe_enabled: bool,
}

} // verus!
