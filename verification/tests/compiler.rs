use tungsten_mc::compiler::{BackendSettings, MinecraftCompilerConfig};

#[test]
fn compiler_config_defaults() {
    let c = MinecraftCompilerConfig::new();
    assert_eq!(c.mod_path, None);
    assert_eq!(c.chunk_size, 16);
    assert!(c.backend_config.generate_rcl);
    assert!(!c.backend_config.generate_cuda);
    assert!(!c.backend_config.generate_rcl_new);
    assert_eq!(c.backend_config.rcl_density_module_name, "density_function");
    assert_eq!(c.backend_config.rcl_orchestration_module_name, "orchestration");
}

#[test]
fn backend_defaults_match_the_backend_crate() {
    let ours = BackendSettings::default();
    let theirs = tungsten_wg::CompilerConfig::default();
    assert_eq!(ours.generate_rcl, theirs.generate_rcl);
    assert_eq!(ours.generate_rcl_new, theirs.generate_rcl_new);
    assert_eq!(ours.generate_gpu_orchestrator, theirs.generate_gpu_orchestrator);
    assert_eq!(ours.generate_cuda, theirs.generate_cuda);
    assert_eq!(ours.generate_wave_orchestration_graph, theirs.generate_wave_orchestration_graph);
    assert_eq!(ours.rcl_density_module_name, theirs.rcl_density_module_name);
    assert_eq!(ours.rcl_orchestration_module_name, theirs.rcl_orchestration_module_name);
}

#[test]
fn compiler_config_builders() {
    let backend = BackendSettings::default().with_rcl(false).with_cuda(true);
    let c = MinecraftCompilerConfig::new()
        .with_mod_path("path/to/datapack".to_string())
        .with_chunk_size(32)
        .with_backend_config(backend);
    assert_eq!(c.mod_path.as_deref(), Some("path/to/datapack"));
    assert_eq!(c.chunk_size, 32);
    assert!(c.backend_config.generate_cuda);
    assert!(!c.backend_config.generate_rcl);
    let again = c.backend_config.with_rcl(true).with_rcl_new(true).with_wave_orchestration_graph(true);
    assert!(again.generate_rcl && again.generate_rcl_new && again.generate_wave_orchestration_graph);
    assert!(again.generate_cuda);
}
