use virtio_devices::gpu::config::{GpuCapset, GpuConfig, GpuConfigError, GpuFlags, GpuMode};

#[test]
fn test_gpu_config_create_default_virglrenderer() {
    let config = GpuConfig::new(GpuMode::VirglRenderer, None, GpuFlags::new_default()).unwrap();
    assert_eq!(config.gpu_mode(), GpuMode::VirglRenderer);
    assert_eq!(config.capsets(), GpuConfig::default_virglrender_capset_mask());
}

#[test]
fn test_gpu_config_create_default_gfxstream() {
    let config = GpuConfig::new(GpuMode::Gfxstream, None, GpuFlags::default()).unwrap();
    assert_eq!(config.gpu_mode(), GpuMode::Gfxstream);
    assert_eq!(config.capsets(), GpuConfig::default_gfxstream_capset_mask());
}

fn assert_invalid_gpu_config(mode: GpuMode, capset: GpuCapset, expected_capset: GpuCapset) {
    let result = GpuConfig::new(mode, Some(capset), GpuFlags::new_default());
    assert!(matches!(
        result,
        Err(GpuConfigError::CapsetUnsuportedByMode(
            requested_mode,
            unsupported_capset
        )) if unsupported_capset == expected_capset && requested_mode == mode
    ));
}

#[test]
fn test_gpu_config_valid_combination() {
    let config = GpuConfig::new(
        GpuMode::VirglRenderer,
        Some(GpuCapset::virgl2()),
        GpuFlags::default(),
    )
    .unwrap();
    assert_eq!(config.gpu_mode(), GpuMode::VirglRenderer);
    assert_eq!(config.capsets(), GpuCapset::virgl2());
    assert_eq!(*config.flags(), GpuFlags::default());
}

#[test]
fn test_gpu_config_invalid_combinations() {
    assert_invalid_gpu_config(
        GpuMode::VirglRenderer,
        GpuCapset::virgl2() | GpuCapset::gfxstream_vulkan(),
        GpuCapset::gfxstream_vulkan(),
    );

    assert_invalid_gpu_config(
        GpuMode::Gfxstream,
        GpuCapset::virgl2() | GpuCapset::gfxstream_vulkan(),
        GpuCapset::virgl2(),
    );
}

#[test]
fn test_gles_required_by_gfxstream() {
    let capset = GpuCapset::gfxstream_vulkan() | GpuCapset::gfxstream_gles();
    let flags = GpuFlags {
        use_gles: false,
        ..GpuFlags::new_default()
    };
    let result = GpuConfig::new(GpuMode::Gfxstream, Some(capset), flags);
    assert!(matches!(result, Err(GpuConfigError::GlesRequiredByGfxstream)));
}

#[test]
fn test_default_num_capsets() {
    assert_eq!(GpuConfig::default_virglrender_capset_mask().num_capsets(), 2);
    assert_eq!(GpuConfig::default_gfxstream_capset_mask().num_capsets(), 2);
}

#[test]
fn test_capset_display_multiple() {
    let capset = GpuCapset::virgl() | GpuCapset::virgl2();
    let output = capset.to_string();
    assert_eq!(output, "virgl, virgl2")
}

/// Check if display name of GpuMode is the same as the name in the CLI arg
#[test]
fn test_gpu_mode_display_eq_arg_name() {
    for mode in GpuMode::value_variants().iter() {
        let mode_str = mode.to_string();
        let mode_from_str = GpuMode::from_str(&mode_str, false);
        assert_eq!(*mode, mode_from_str.unwrap());
    }
}

#[test]
fn mode_names_and_spellings() {
    assert_eq!(GpuMode::VirglRenderer.to_string(), "virglrenderer");
    assert_eq!(GpuMode::Gfxstream.to_string(), "gfxstream");
    assert_eq!(GpuMode::from_str("virgl-renderer", false), Some(GpuMode::VirglRenderer));
    assert_eq!(GpuMode::from_str("GfxStream", false), None);
    assert_eq!(GpuMode::from_str("GfxStream", true), Some(GpuMode::Gfxstream));
    assert_eq!(GpuMode::from_str("gfxstream ", true), None);
    assert_eq!(GpuMode::from_str("", true), None);
}

#[test]
fn capset_names() {
    assert_eq!(GpuCapset::empty().to_string(), "");
    assert_eq!(GpuCapset::empty().num_capsets(), 0);
    assert_eq!(GpuCapset::gfxstream_gles().to_string(), "gfxstream-gles");
    let all = GpuConfig::default_virglrender_capset_mask() | GpuConfig::default_gfxstream_capset_mask();
    assert_eq!(all.to_string(), "virgl, virgl2, gfxstream-vulkan, gfxstream-gles");
    assert_eq!(all.num_capsets(), 4);
}

#[test]
fn default_flags() {
    assert_eq!(
        GpuFlags::default(),
        GpuFlags { use_egl: true, use_glx: false, use_gles: true, use_surfaceless: true }
    );
}

#[test]
fn gles_is_only_required_by_its_own_capset() {
    let flags = GpuFlags { use_gles: false, ..GpuFlags::new_default() };
    assert!(GpuConfig::new(GpuMode::Gfxstream, Some(GpuCapset::gfxstream_vulkan()), flags).is_ok());
    assert!(GpuConfig::new(GpuMode::Gfxstream, None, flags).is_err());
    assert!(GpuConfig::new(GpuMode::VirglRenderer, None, flags).is_ok());
}
