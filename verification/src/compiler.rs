//! Configuration of the worldgen compiler front end.

use vstd::prelude::*;
use tungsten_wg::CompilerConfig;

verus! {

/// Settings of the code generation backend, as plain values: which backends
/// are generated and the module names of the generated Rust code.
pub struct BackendSettings {
    /// Whether to generate the Rust (RCL) backend.
    pub generate_rcl: bool,
    /// Whether to generate Rust from optimized SPMT with the new generator.
    pub generate_rcl_new: bool,
    /// Whether to generate the generalized GPU orchestrator.
    pub generate_gpu_orchestrator: bool,
    /// Whether to generate the CUDA C++ backend.
    pub generate_cuda: bool,
    /// Whether to generate the wave orchestration graph.
    pub generate_wave_orchestration_graph: bool,
    /// The namespace of the generated density function module.
    pub rcl_density_module_name: String,
    /// The namespace of the generated orchestration module.
    pub rcl_orchestration_module_name: String,
}

/// Model of the backend settings.
pub struct BackendView {
    pub generate_rcl: bool,
    pub generate_rcl_new: bool,
    pub generate_gpu_orchestrator: bool,
    pub generate_cuda: bool,
    pub generate_wave_orchestration_graph: bool,
    pub rcl_density_module_name: Seq<char>,
    pub rcl_orchestration_module_name: Seq<char>,
}

impl View for BackendSettings {
    type V = BackendView;

    open spec fn view(&self) -> BackendView {
        BackendView {
            generate_rcl: self.generate_rcl,
            generate_rcl_new: self.generate_rcl_new,
            generate_gpu_orchestrator: self.generate_gpu_orchestrator,
            generate_cuda: self.generate_cuda,
            generate_wave_orchestration_graph: self.generate_wave_orchestration_graph,
            rcl_density_module_name: self.rcl_density_module_name@,
            rcl_orchestration_module_name: self.rcl_orchestration_module_name@,
        }
    }
}

/// The backend's default settings: only the Rust backend is generated, into
/// the modules `density_function` and `orchestration`.
pub open spec fn default_backend_view() -> BackendView {
    BackendView {
        generate_rcl: true,
        generate_rcl_new: false,
        generate_gpu_orchestrator: false,
        generate_cuda: false,
        generate_wave_orchestration_graph: false,
        rcl_density_module_name: "density_function"@,
        rcl_orchestration_module_name: "orchestration"@,
    }
}

/// Calls `tungsten_wg::CompilerConfig::default()` and reads its settings
/// field by field. The contract restates the field values that the crate's
/// `Default` impl writes.
#[verifier::external_body]
fn default_backend_settings() -> (r: BackendSettings)
    ensures
        r@ == default_backend_view(),
{
    let c = CompilerConfig::default();
    BackendSettings {
        generate_rcl: c.generate_rcl,
        generate_rcl_new: c.generate_rcl_new,
        generate_gpu_orchestrator: c.generate_gpu_orchestrator,
        generate_cuda: c.generate_cuda,
        generate_wave_orchestration_graph: c.generate_wave_orchestration_graph,
        rcl_density_module_name: c.rcl_density_module_name,
        rcl_orchestration_module_name: c.rcl_orchestration_module_name,
    }
}

impl Default for BackendSettings {
    /// The backend's default settings.
    fn default() -> (r: Self)
        ensures
            r@ == default_backend_view(),
    {
        default_backend_settings()
    }
}

impl BackendSettings {
    /// Toggles the generation of the Rust (RCL) backend.
    pub fn with_rcl(self, generate: bool) -> (r: Self)
        ensures
            r@ == (BackendView { generate_rcl: generate, ..self@ }),
    {
        BackendSettings { generate_rcl: generate, ..self }
    }

    /// Toggles the new optimized-SPMT Rust generator.
    pub fn with_rcl_new(self, generate: bool) -> (r: Self)
        ensures
            r@ == (BackendView { generate_rcl_new: generate, ..self@ }),
    {
        BackendSettings { generate_rcl_new: generate, ..self }
    }

    /// Toggles the generation of the CUDA C++ backend.
    pub fn with_cuda(self, generate: bool) -> (r: Self)
        ensures
            r@ == (BackendView { generate_cuda: generate, ..self@ }),
    {
        BackendSettings { generate_cuda: generate, ..self }
    }

    /// Toggles the generation of the wave orchestration graph.
    pub fn with_wave_orchestration_graph(self, generate: bool) -> (r: Self)
        ensures
            r@ == (BackendView { generate_wave_orchestration_graph: generate, ..self@ }),
    {
        BackendSettings { generate_wave_orchestration_graph: generate, ..self }
    }
}

/// How Minecraft worldgen data is parsed and compiled.
pub struct MinecraftCompilerConfig {
    /// A mod or datapack folder loaded on top of the vanilla data.
    pub mod_path: Option<String>,
    /// Chunk size for world generation (16 in vanilla Minecraft).
    pub chunk_size: usize,
    /// Settings of the code generation backend.
    pub backend_config: BackendSettings,
}

impl MinecraftCompilerConfig {
    /// The default configuration: vanilla data only, chunk size 16, and the
    /// backend's default settings with the Rust backend enabled.
    pub fn new() -> (r: Self)
        ensures
            r.mod_path is None,
            r.chunk_size == 16,
            r.backend_config@ == (BackendView { generate_rcl: true, ..default_backend_view() }),
    {
        MinecraftCompilerConfig {
            mod_path: None,
            chunk_size: 16,
            backend_config: BackendSettings::default().with_rcl(true),
        }
    }

    /// Loads the worldgen data of `mod_path` on top of the vanilla data.
    pub fn with_mod_path(self, mod_path: String) -> (r: Self)
        ensures
            r.mod_path == Some(mod_path),
            r.chunk_size == self.chunk_size,
            r.backend_config == self.backend_config,
    {
        MinecraftCompilerConfig { mod_path: Some(mod_path), ..self }
    }

    /// Sets the chunk size.
    pub fn with_chunk_size(self, size: usize) -> (r: Self)
        ensures
            r.chunk_size == size,
            r.mod_path == self.mod_path,
            r.backend_config == self.backend_config,
    {
        MinecraftCompilerConfig { chunk_size: size, ..self }
    }

    /// Sets the backend configuration.
    pub fn with_backend_config(self, config: BackendSettings) -> (r: Self)
        ensures
            r.backend_config == config,
            r.mod_path == self.mod_path,
            r.chunk_size == self.chunk_size,
    {
        MinecraftCompilerConfig { backend_config: config, ..self }
    }
}

} // verus!
