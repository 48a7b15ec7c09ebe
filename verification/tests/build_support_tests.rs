use ocr_rs::build_support::{
    cpp_runtime_libraries, cuda_side_library_plan, prebuilt_asset_name, select_link_mode,
    should_link_mnn_whole_archive, uses_msvc_flags, BuildConfigError, BuildFeatures,
    CudaSideLibraryPlan, MnnLinkMode, NativeLibrary, NativeLinkKind, TargetInfo,
};

fn target<'a>(os: &'a str, arch: &'a str, env: &'a str, triple: &'a str) -> TargetInfo<'a> {
    TargetInfo {
        os,
        arch,
        env,
        triple,
    }
}

#[test]
fn cpu_only_linux_uses_the_prebuilt_library() {
    let target = target("linux", "x86_64", "gnu", "x86_64-unknown-linux-gnu");

    assert_eq!(
        select_link_mode(&target, &BuildFeatures::default()),
        Ok(MnnLinkMode::Prebuilt)
    );
    assert_eq!(
        prebuilt_asset_name(&target, "dev").as_deref(),
        Some("mnn-dev-linux-x86_64")
    );
}

#[test]
fn cuda_and_vulkan_force_a_source_build_when_prebuilt_has_no_gpu_backend() {
    let target = target("linux", "x86_64", "gnu", "x86_64-unknown-linux-gnu");

    for features in [
        BuildFeatures {
            cuda: true,
            ..BuildFeatures::default()
        },
        BuildFeatures {
            vulkan: true,
            ..BuildFeatures::default()
        },
    ] {
        assert_eq!(
            select_link_mode(&target, &features),
            Ok(MnnLinkMode::BuildFromSource)
        );
    }
}

#[test]
fn apple_metal_uses_the_metal_enabled_prebuilt() {
    let target = target("macos", "aarch64", "", "aarch64-apple-darwin");
    let features = BuildFeatures {
        metal: true,
        ..BuildFeatures::default()
    };

    assert_eq!(
        select_link_mode(&target, &features),
        Ok(MnnLinkMode::Prebuilt)
    );
}

#[test]
fn non_metal_apple_gpu_backend_forces_a_source_build() {
    let target = target("macos", "aarch64", "", "aarch64-apple-darwin");
    let features = BuildFeatures {
        opencl: true,
        ..BuildFeatures::default()
    };

    assert_eq!(
        select_link_mode(&target, &features),
        Ok(MnnLinkMode::BuildFromSource)
    );
}

#[test]
fn windows_msvc_keeps_using_the_msvc_prebuilt() {
    let target = target("windows", "x86_64", "msvc", "x86_64-pc-windows-msvc");

    assert_eq!(
        select_link_mode(&target, &BuildFeatures::default()),
        Ok(MnnLinkMode::Prebuilt)
    );
    assert!(uses_msvc_flags(&target).unwrap());
}

#[test]
fn windows_gnu_never_uses_the_msvc_prebuilt_or_msvc_flags() {
    let target = target("windows", "x86_64", "gnu", "x86_64-pc-windows-gnu");

    assert_eq!(prebuilt_asset_name(&target, "dev"), None);
    assert_eq!(
        select_link_mode(&target, &BuildFeatures::default()),
        Ok(MnnLinkMode::BuildFromSource)
    );
    assert!(!uses_msvc_flags(&target).unwrap());
}

#[test]
fn windows_gnu_cuda_source_build_is_rejected_before_invoking_cmake() {
    let target = target("windows", "x86_64", "gnu", "x86_64-pc-windows-gnu");
    let features = BuildFeatures {
        cuda: true,
        ..BuildFeatures::default()
    };

    assert_eq!(
        select_link_mode(&target, &features),
        Err(BuildConfigError::UnsupportedBackendForTarget {
            backend: "cuda",
            target: "x86_64-pc-windows-gnu",
        })
    );
}

#[test]
fn user_provided_mnn_library_takes_precedence_over_backend_building() {
    let target = target("windows", "x86_64", "gnu", "x86_64-pc-windows-gnu");
    let features = BuildFeatures {
        cuda: true,
        mnn_dynamic: true,
        ..BuildFeatures::default()
    };

    assert_eq!(
        select_link_mode(&target, &features),
        Ok(MnnLinkMode::Dynamic)
    );
}

#[test]
fn mutually_exclusive_link_features_are_rejected() {
    let target = target("linux", "x86_64", "gnu", "x86_64-unknown-linux-gnu");
    let features = BuildFeatures {
        mnn_dynamic: true,
        mnn_static: true,
        ..BuildFeatures::default()
    };

    assert_eq!(
        select_link_mode(&target, &features),
        Err(BuildConfigError::ConflictingLinkModes)
    );
}

#[test]
fn unknown_windows_environment_is_rejected() {
    let target = target("windows", "x86_64", "", "x86_64-pc-windows-unknown");

    assert_eq!(
        select_link_mode(&target, &BuildFeatures::default()),
        Err(BuildConfigError::UnsupportedWindowsEnvironment(""))
    );
    assert_eq!(
        uses_msvc_flags(&target),
        Err(BuildConfigError::UnsupportedWindowsEnvironment(""))
    );
}

#[test]
fn ios_simulator_uses_the_simulator_asset() {
    let target = target("ios", "aarch64", "", "aarch64-apple-ios-sim");

    assert_eq!(
        prebuilt_asset_name(&target, "dev").as_deref(),
        Some("mnn-dev-ios-arm64-sim")
    );
}

#[test]
fn source_built_or_user_supplied_static_gpu_mnn_is_linked_whole_archive() {
    let vulkan = BuildFeatures {
        vulkan: true,
        ..BuildFeatures::default()
    };
    let cuda_static = BuildFeatures {
        cuda: true,
        mnn_static: true,
        ..BuildFeatures::default()
    };

    assert!(should_link_mnn_whole_archive(
        MnnLinkMode::BuildFromSource,
        &vulkan
    ));
    assert!(should_link_mnn_whole_archive(
        MnnLinkMode::Static,
        &cuda_static
    ));
}

#[test]
fn prebuilt_and_dynamic_mnn_do_not_force_whole_archive_linking() {
    let metal = BuildFeatures {
        metal: true,
        ..BuildFeatures::default()
    };

    assert!(!should_link_mnn_whole_archive(
        MnnLinkMode::Prebuilt,
        &metal
    ));
    assert!(!should_link_mnn_whole_archive(MnnLinkMode::Dynamic, &metal));
}

// ---------------------------------------------------------------------------
// Further cases
// ---------------------------------------------------------------------------

#[test]
fn requested_backends_are_listed_in_declaration_order() {
    let features = BuildFeatures {
        vulkan: true,
        coreml: true,
        cuda: true,
        ..BuildFeatures::default()
    };
    assert_eq!(features.requested_backends(), vec!["coreml", "cuda", "vulkan"]);
    assert!(BuildFeatures::default().requested_backends().is_empty());
}

#[test]
fn prebuilt_asset_names_cover_every_published_target() {
    let cases = [
        (target("linux", "aarch64", "gnu", "aarch64-unknown-linux-gnu"), Some("mnn-1.2-linux-aarch64")),
        (target("windows", "x86", "msvc", "i686-pc-windows-msvc"), Some("mnn-1.2-windows-i686")),
        (target("windows", "aarch64", "msvc", "aarch64-pc-windows-msvc"), Some("mnn-1.2-windows-aarch64")),
        (target("macos", "x86_64", "", "x86_64-apple-darwin"), Some("mnn-1.2-macos-universal")),
        (target("ios", "aarch64", "", "aarch64-apple-ios"), Some("mnn-1.2-ios-arm64")),
        (target("android", "aarch64", "", "aarch64-linux-android"), Some("mnn-1.2-android-arm64-v8a")),
        (target("android", "arm", "", "armv7-linux-androideabi"), Some("mnn-1.2-android-armeabi-v7a")),
        (target("freebsd", "x86_64", "", "x86_64-unknown-freebsd"), None),
        (target("ios", "x86_64", "", "x86_64-apple-ios"), None),
    ];
    for (t, expected) in cases {
        assert_eq!(prebuilt_asset_name(&t, "1.2").as_deref(), expected);
    }
}

#[test]
fn requested_source_build_and_missing_prebuilt_build_from_source() {
    let linux = target("linux", "x86_64", "gnu", "x86_64-unknown-linux-gnu");
    let from_source = BuildFeatures {
        build_from_source: true,
        ..BuildFeatures::default()
    };
    assert_eq!(
        select_link_mode(&linux, &from_source),
        Ok(MnnLinkMode::BuildFromSource)
    );
    let freebsd = target("freebsd", "x86_64", "", "x86_64-unknown-freebsd");
    assert_eq!(
        select_link_mode(&freebsd, &BuildFeatures::default()),
        Ok(MnnLinkMode::BuildFromSource)
    );
    let static_mode = BuildFeatures {
        mnn_static: true,
        ..BuildFeatures::default()
    };
    assert_eq!(select_link_mode(&linux, &static_mode), Ok(MnnLinkMode::Static));
}

#[test]
fn metal_together_with_coreml_needs_a_source_build() {
    let target = target("macos", "aarch64", "", "aarch64-apple-darwin");
    let features = BuildFeatures {
        metal: true,
        coreml: true,
        ..BuildFeatures::default()
    };
    assert_eq!(
        select_link_mode(&target, &features),
        Ok(MnnLinkMode::BuildFromSource)
    );
}

#[test]
fn non_windows_targets_never_use_msvc_flags() {
    let linux = target("linux", "x86_64", "gnu", "x86_64-unknown-linux-gnu");
    assert_eq!(uses_msvc_flags(&linux), Ok(false));
}

#[test]
fn build_error_messages_name_the_offending_setting() {
    assert_eq!(
        BuildConfigError::ConflictingLinkModes.message(),
        "features `mnn-dynamic` and `mnn-static` are mutually exclusive"
    );
    assert_eq!(
        BuildConfigError::UnsupportedWindowsEnvironment("cygnus").message(),
        "unsupported Windows target environment `cygnus`; use `msvc` or `gnu`"
    );
    assert_eq!(
        BuildConfigError::UnsupportedBackendForTarget {
            backend: "cuda",
            target: "x86_64-pc-windows-gnu",
        }
        .message(),
        "backend `cuda` cannot be built from source for target `x86_64-pc-windows-gnu`; provide a compatible MNN library with `mnn-dynamic` or `mnn-static`"
    );
}

#[test]
fn cpp_runtime_follows_the_target_toolchain() {
    let windows_gnu = target("windows", "x86_64", "gnu", "x86_64-pc-windows-gnu");
    assert_eq!(
        cpp_runtime_libraries(&windows_gnu, true),
        vec![
            NativeLibrary { name: "stdc++", kind: NativeLinkKind::Static },
            NativeLibrary { name: "gcc_eh", kind: NativeLinkKind::Static },
            NativeLibrary { name: "gcc", kind: NativeLinkKind::Static },
            NativeLibrary { name: "winpthread", kind: NativeLinkKind::Static },
        ]
    );
    assert_eq!(
        cpp_runtime_libraries(&windows_gnu, false),
        vec![NativeLibrary { name: "stdc++", kind: NativeLinkKind::Dynamic }]
    );
    let macos = target("macos", "aarch64", "", "aarch64-apple-darwin");
    assert_eq!(
        cpp_runtime_libraries(&macos, true),
        vec![NativeLibrary { name: "c++", kind: NativeLinkKind::Dynamic }]
    );
    let linux = target("linux", "x86_64", "gnu", "x86_64-unknown-linux-gnu");
    assert_eq!(
        cpp_runtime_libraries(&linux, true),
        vec![NativeLibrary { name: "stdc++", kind: NativeLinkKind::Dynamic }]
    );
    let android = target("android", "aarch64", "", "aarch64-linux-android");
    assert_eq!(
        cpp_runtime_libraries(&android, false),
        vec![NativeLibrary { name: "c++_static", kind: NativeLinkKind::Static }]
    );
    let msvc = target("windows", "x86_64", "msvc", "x86_64-pc-windows-msvc");
    assert!(cpp_runtime_libraries(&msvc, true).is_empty());
}

#[test]
fn cuda_side_library_is_planned_only_for_linux_cuda() {
    assert_eq!(
        cuda_side_library_plan("linux", true, MnnLinkMode::BuildFromSource),
        Some(CudaSideLibraryPlan {
            link_name: "MNN_Cuda_Main",
            build_relative_path: Some("build/source/backend/cuda/libMNN_Cuda_Main.so"),
            install_relative_path: Some("lib/libMNN_Cuda_Main.so"),
        })
    );
    assert_eq!(
        cuda_side_library_plan("linux", true, MnnLinkMode::Dynamic),
        Some(CudaSideLibraryPlan {
            link_name: "MNN_Cuda_Main",
            build_relative_path: None,
            install_relative_path: None,
        })
    );
    assert_eq!(cuda_side_library_plan("linux", false, MnnLinkMode::BuildFromSource), None);
    assert_eq!(cuda_side_library_plan("windows", true, MnnLinkMode::BuildFromSource), None);
}
