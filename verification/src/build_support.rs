//! Planning of how the native MNN library is obtained and linked for a target:
//! which prebuilt archive fits, when a source build is needed, and which
//! C++ runtime libraries accompany it.
use vstd::prelude::*;

verus! {

/// How the MNN library ends up in the final artifact.
#[derive(Debug, Clone, Copy, PartialEq, Eq)]
pub enum MnnLinkMode {
    Prebuilt,
    BuildFromSource,
    Dynamic,
    Static,
}

/// Where the CUDA side library of MNN is found, if it has to be shipped.
#[derive(Debug, Clone, Copy, PartialEq, Eq)]
pub struct CudaSideLibraryPlan {
    pub link_name: &'static str,
    pub build_relative_path: Option<&'static str>,
    pub install_relative_path: Option<&'static str>,
}

/// Cargo features that influence how MNN is built and linked.
#[derive(Debug, Clone, Copy, Default, PartialEq, Eq)]
pub struct BuildFeatures {
    pub coreml: bool,
    pub metal: bool,
    pub cuda: bool,
    pub opencl: bool,
    pub opengl: bool,
    pub vulkan: bool,
    pub mnn_dynamic: bool,
    pub mnn_static: bool,
    pub build_from_source: bool,
    pub static_cpp_runtime: bool,
}

/// The compilation target, as Cargo describes it.
#[derive(Debug, Clone, Copy, PartialEq, Eq)]
pub struct TargetInfo<'a> {
    pub os: &'a str,
    pub arch: &'a str,
    pub env: &'a str,
    pub triple: &'a str,
}

/// Why a build configuration cannot be satisfied.
#[derive(Debug, Clone, Copy, PartialEq, Eq)]
pub enum BuildConfigError<'a> {
    ConflictingLinkModes,
    UnsupportedWindowsEnvironment(&'a str),
    UnsupportedBackendForTarget { backend: &'static str, target: &'a str },
}

/// Whether a native library is linked dynamically or statically.
#[derive(Debug, Clone, Copy, PartialEq, Eq)]
pub enum NativeLinkKind {
    Dynamic,
    Static,
}

/// A native library to hand to the linker.
#[derive(Debug, Clone, Copy, PartialEq, Eq)]
pub struct NativeLibrary {
    pub name: &'static str,
    pub kind: NativeLinkKind,
}

// ---------------------------------------------------------------------------
// Strings
// ---------------------------------------------------------------------------

/// `pat` occurs as a contiguous piece of `s`.
pub open spec fn has_substring(s: Seq<char>, pat: Seq<char>) -> bool {
    exists|i: int| 0 <= i && i + pat.len() <= s.len() && #[trigger] s.subrange(i, i + pat.len()) == pat
}

/// `<str as PartialEq>::eq`: two string slices are equal exactly when they hold
/// the same characters.
#[verifier::external_body]
fn str_eq(a: &str, b: &str) -> (r: bool)
    ensures
        r == (a@ == b@),
{
    a == b
}

/// `str::contains` with a `&str` pattern: true exactly when the pattern
/// occurs as a contiguous piece of the string.
#[verifier::external_body]
fn str_contains(s: &str, pat: &str) -> (r: bool)
    ensures
        r == has_substring(s@, pat@),
{
    s.contains(pat)
}

// ---------------------------------------------------------------------------
// Requested backends
// ---------------------------------------------------------------------------

/// `name` when `flag` is set, nothing otherwise.
pub open spec fn name_if(flag: bool, name: Seq<char>) -> Seq<Seq<char>> {
    if flag {
        seq![name]
    } else {
        Seq::empty()
    }
}

/// The GPU / accelerator backends that `f` asks for, in their fixed order.
pub open spec fn requested_backend_names(f: BuildFeatures) -> Seq<Seq<char>> {
    name_if(f.coreml, "coreml"@) + name_if(f.metal, "metal"@) + name_if(f.cuda, "cuda"@)
        + name_if(f.opencl, "opencl"@) + name_if(f.opengl, "opengl"@) + name_if(
        f.vulkan,
        "vulkan"@,
    )
}

/// `f` asks for at least one accelerator backend.
pub open spec fn requests_any_backend(f: BuildFeatures) -> bool {
    f.coreml || f.metal || f.cuda || f.opencl || f.opengl || f.vulkan
}

/// The backend list is empty exactly when no backend flag is set.
pub proof fn lemma_requested_backends_nonempty(f: BuildFeatures)
    ensures
        requested_backend_names(f).len() > 0 <==> requests_any_backend(f),
{
}

impl BuildFeatures {
    /// Names of the requested accelerator backends, in the order
    /// coreml, metal, cuda, opencl, opengl, vulkan.
    pub fn requested_backends(self) -> (r: Vec<&'static str>)
        ensures
            r@.map_values(|s: &'static str| s@) == requested_backend_names(self),
    {
        let mut r: Vec<&'static str> = Vec::new();
        let ghost names = requested_backend_names(self);
        if self.coreml {
            r.push("coreml");
        }
        if self.metal {
            r.push("metal");
        }
        if self.cuda {
            r.push("cuda");
        }
        if self.opencl {
            r.push("opencl");
        }
        if self.opengl {
            r.push("opengl");
        }
        if self.vulkan {
            r.push("vulkan");
        }
        assert(r@.map_values(|s: &'static str| s@) =~= names);
        r
    }

    fn requests_backend(self) -> (r: bool)
        ensures
            r == requests_any_backend(self),
    {
        let names = self.requested_backends();
        proof {
            lemma_requested_backends_nonempty(self);
        }
        names.len() != 0
    }
}

// ---------------------------------------------------------------------------
// Prebuilt archives
// ---------------------------------------------------------------------------

/// The platform suffix of the prebuilt MNN archive for a target, if one is published.
pub open spec fn asset_suffix(os: Seq<char>, arch: Seq<char>, env: Seq<char>, triple: Seq<char>) -> Option<
    Seq<char>,
> {
    if os == "linux"@ && arch == "x86_64"@ {
        Some("linux-x86_64"@)
    } else if os == "linux"@ && arch == "aarch64"@ {
        Some("linux-aarch64"@)
    } else if os == "windows"@ && arch == "x86_64"@ && env == "msvc"@ {
        Some("windows-x86_64"@)
    } else if os == "windows"@ && arch == "x86"@ && env == "msvc"@ {
        Some("windows-i686"@)
    } else if os == "windows"@ && arch == "aarch64"@ && env == "msvc"@ {
        Some("windows-aarch64"@)
    } else if os == "macos"@ {
        Some("macos-universal"@)
    } else if os == "ios"@ && arch == "aarch64"@ && has_substring(triple, "-sim"@) {
        Some("ios-arm64-sim"@)
    } else if os == "ios"@ && arch == "aarch64"@ {
        Some("ios-arm64"@)
    } else if os == "android"@ && arch == "aarch64"@ {
        Some("android-arm64-v8a"@)
    } else if os == "android"@ && arch == "arm"@ {
        Some("android-armeabi-v7a"@)
    } else {
        None
    }
}

/// The platform suffix for a target, in terms of its fields.
pub open spec fn target_asset_suffix(t: TargetInfo) -> Option<Seq<char>> {
    asset_suffix(t.os@, t.arch@, t.env@, t.triple@)
}

/// The archive name `mnn-<version>-<suffix>`.
pub open spec fn asset_name(version: Seq<char>, suffix: Seq<char>) -> Seq<char> {
    "mnn-"@ + version + "-"@ + suffix
}

fn target_suffix(target: &TargetInfo<'_>) -> (r: Option<&'static str>)
    ensures
        r is Some <==> target_asset_suffix(*target) is Some,
        r matches Some(s) ==> target_asset_suffix(*target) == Some(s@),
{
    let os = target.os;
    let arch = target.arch;
    if str_eq(os, "linux") && str_eq(arch, "x86_64") {
        Some("linux-x86_64")
    } else if str_eq(os, "linux") && str_eq(arch, "aarch64") {
        Some("linux-aarch64")
    } else if str_eq(os, "windows") && str_eq(arch, "x86_64") && str_eq(target.env, "msvc") {
        Some("windows-x86_64")
    } else if str_eq(os, "windows") && str_eq(arch, "x86") && str_eq(target.env, "msvc") {
        Some("windows-i686")
    } else if str_eq(os, "windows") && str_eq(arch, "aarch64") && str_eq(target.env, "msvc") {
        Some("windows-aarch64")
    } else if str_eq(os, "macos") {
        Some("macos-universal")
    } else if str_eq(os, "ios") && str_eq(arch, "aarch64") && str_contains(target.triple, "-sim") {
        Some("ios-arm64-sim")
    } else if str_eq(os, "ios") && str_eq(arch, "aarch64") {
        Some("ios-arm64")
    } else if str_eq(os, "android") && str_eq(arch, "aarch64") {
        Some("android-arm64-v8a")
    } else if str_eq(os, "android") && str_eq(arch, "arm") {
        Some("android-armeabi-v7a")
    } else {
        None
    }
}

/// Name of the prebuilt MNN archive published for `target`, or `None` when
/// no prebuilt archive exists for it (then MNN has to be built from source).
pub fn prebuilt_asset_name(target: &TargetInfo<'_>, version: &str) -> (r: Option<String>)
    ensures
        r is Some <==> target_asset_suffix(*target) is Some,
        r matches Some(name) ==> name@ == asset_name(version@, target_asset_suffix(*target)->0),
{
    match target_suffix(target) {
        Some(suffix) => {
            let mut name = String::from_str("mnn-");
            name.append(version);
            name.append("-");
            name.append(suffix);
            proof {
                reveal_strlit("mnn-");
                reveal_strlit("-");
            }
            assert(name@ =~= asset_name(version@, suffix@));
            Some(name)
        },
        None => None,
    }
}

/// The prebuilt archive can serve the requested backends: either no
/// accelerator is requested, or the target is Apple and only Metal is.
pub open spec fn prebuilt_supports(t: TargetInfo, f: BuildFeatures) -> bool {
    !requests_any_backend(f) || ((t.os@ == "macos"@ || t.os@ == "ios"@) && f.metal && !f.coreml
        && !f.cuda && !f.opencl && !f.opengl && !f.vulkan)
}

fn prebuilt_supports_requested_backends(target: &TargetInfo<'_>, features: &BuildFeatures) -> (r:
    bool)
    ensures
        r == prebuilt_supports(*target, *features),
{
    if !features.requests_backend() {
        return true;
    }
    (str_eq(target.os, "macos") || str_eq(target.os, "ios")) && features.metal && !features.coreml
        && !features.cuda && !features.opencl && !features.opengl && !features.vulkan
}

// ---------------------------------------------------------------------------
// Validation and link mode
// ---------------------------------------------------------------------------

/// A Windows target must use the `msvc` or `gnu` environment.
pub open spec fn windows_env_supported(t: TargetInfo) -> bool {
    !(t.os@ == "windows"@ && !(t.env@ == "msvc"@ || t.env@ == "gnu"@))
}

/// CUDA cannot be built from source for a MinGW Windows target.
pub open spec fn source_backend_supported(t: TargetInfo, f: BuildFeatures) -> bool {
    !(t.os@ == "windows"@ && t.env@ == "gnu"@ && f.cuda)
}

fn validate_windows_environment<'a>(target: &TargetInfo<'a>) -> (r: Result<(), BuildConfigError<'a>>)
    ensures
        r == (if windows_env_supported(*target) {
            Ok::<(), BuildConfigError<'a>>(())
        } else {
            Err(BuildConfigError::UnsupportedWindowsEnvironment(target.env))
        }),
{
    if str_eq(target.os, "windows") && !(str_eq(target.env, "msvc") || str_eq(target.env, "gnu")) {
        return Err(BuildConfigError::UnsupportedWindowsEnvironment(target.env));
    }
    Ok(())
}

fn validate_source_backend_support<'a>(target: &TargetInfo<'a>, features: &BuildFeatures) -> (r:
    Result<(), BuildConfigError<'a>>)
    ensures
        r == (if source_backend_supported(*target, *features) {
            Ok::<(), BuildConfigError<'a>>(())
        } else {
            Err(BuildConfigError::UnsupportedBackendForTarget { backend: "cuda", target: target.triple })
        }),
{
    // NVIDIA's Windows CUDA toolchain requires the MSVC ABI; a user-supplied
    // MinGW-compatible MNN library can still be selected explicitly.
    if str_eq(target.os, "windows") && str_eq(target.env, "gnu") && features.cuda {
        return Err(BuildConfigError::UnsupportedBackendForTarget { backend: "cuda", target: target.triple });
    }
    Ok(())
}

/// MNN must be compiled from source for this target and feature set.
pub open spec fn needs_source_build(t: TargetInfo, f: BuildFeatures) -> bool {
    f.build_from_source || target_asset_suffix(t) is None || !prebuilt_supports(t, f)
}

/// The link mode chosen for a target and feature set, or why none can be chosen.
pub open spec fn link_mode_for<'a>(t: TargetInfo<'a>, f: BuildFeatures) -> Result<
    MnnLinkMode,
    BuildConfigError<'a>,
> {
    if !windows_env_supported(t) {
        Err(BuildConfigError::UnsupportedWindowsEnvironment(t.env))
    } else if f.mnn_dynamic && f.mnn_static {
        Err(BuildConfigError::ConflictingLinkModes)
    } else if f.mnn_dynamic {
        Ok(MnnLinkMode::Dynamic)
    } else if f.mnn_static {
        Ok(MnnLinkMode::Static)
    } else if needs_source_build(t, f) {
        if source_backend_supported(t, f) {
            Ok(MnnLinkMode::BuildFromSource)
        } else {
            Err(BuildConfigError::UnsupportedBackendForTarget { backend: "cuda", target: t.triple })
        }
    } else {
        Ok(MnnLinkMode::Prebuilt)
    }
}

/// Chooses how MNN is obtained: a user-supplied dynamic or static library takes
/// precedence; otherwise the prebuilt archive when one exists and supports the
/// requested backends, else a source build.
pub fn select_link_mode<'a>(target: &TargetInfo<'a>, features: &BuildFeatures) -> (r: Result<
    MnnLinkMode,
    BuildConfigError<'a>,
>)
    ensures
        r == link_mode_for(*target, *features),
{
    validate_windows_environment(target)?;

    if features.mnn_dynamic && features.mnn_static {
        return Err(BuildConfigError::ConflictingLinkModes);
    }
    if features.mnn_dynamic {
        return Ok(MnnLinkMode::Dynamic);
    }
    if features.mnn_static {
        return Ok(MnnLinkMode::Static);
    }

    let has_prebuilt = prebuilt_asset_name(target, "unused").is_some();
    let needs_source = features.build_from_source || !has_prebuilt
        || !prebuilt_supports_requested_backends(target, features);

    if needs_source {
        validate_source_backend_support(target, features)?;
        Ok(MnnLinkMode::BuildFromSource)
    } else {
        Ok(MnnLinkMode::Prebuilt)
    }
}

/// Whether a target compiles with MSVC flags, or why the target is rejected.
pub open spec fn msvc_flags_for<'a>(t: TargetInfo<'a>) -> Result<bool, BuildConfigError<'a>> {
    if windows_env_supported(t) {
        Ok(t.os@ == "windows"@ && t.env@ == "msvc"@)
    } else {
        Err(BuildConfigError::UnsupportedWindowsEnvironment(t.env))
    }
}

/// Whether the MSVC compiler flags apply: exactly for Windows with the `msvc` environment.
pub fn uses_msvc_flags<'a>(target: &TargetInfo<'a>) -> (r: Result<bool, BuildConfigError<'a>>)
    ensures
        r == msvc_flags_for(*target),
{
    validate_windows_environment(target)?;
    Ok(str_eq(target.os, "windows") && str_eq(target.env, "msvc"))
}

// ---------------------------------------------------------------------------
// C++ runtime and linking details
// ---------------------------------------------------------------------------

/// The C++ runtime libraries that must be linked next to MNN.
pub open spec fn cpp_runtime_for(os: Seq<char>, env: Seq<char>, static_cpp_runtime: bool) -> Seq<
    NativeLibrary,
> {
    if os == "windows"@ && env == "gnu"@ && static_cpp_runtime {
        seq![
            NativeLibrary { name: "stdc++", kind: NativeLinkKind::Static },
            NativeLibrary { name: "gcc_eh", kind: NativeLinkKind::Static },
            NativeLibrary { name: "gcc", kind: NativeLinkKind::Static },
            NativeLibrary { name: "winpthread", kind: NativeLinkKind::Static },
        ]
    } else if os == "windows"@ && env == "gnu"@ {
        seq![NativeLibrary { name: "stdc++", kind: NativeLinkKind::Dynamic }]
    } else if os == "macos"@ || os == "ios"@ {
        seq![NativeLibrary { name: "c++", kind: NativeLinkKind::Dynamic }]
    } else if os == "linux"@ {
        seq![NativeLibrary { name: "stdc++", kind: NativeLinkKind::Dynamic }]
    } else if os == "android"@ {
        seq![NativeLibrary { name: "c++_static", kind: NativeLinkKind::Static }]
    } else {
        Seq::empty()
    }
}

/// The C++ runtime libraries to link for `target`: libstdc++ (static with its
/// helpers, or dynamic) for MinGW, libc++ on Apple, libstdc++ on Linux, the
/// static libc++ on Android, none elsewhere.
pub fn cpp_runtime_libraries(target: &TargetInfo<'_>, static_cpp_runtime: bool) -> (r: Vec<
    NativeLibrary,
>)
    ensures
        r@ == cpp_runtime_for(target.os@, target.env@, static_cpp_runtime),
{
    let os = target.os;
    let env = target.env;
    let r = if str_eq(os, "windows") && str_eq(env, "gnu") && static_cpp_runtime {
        vec![
            NativeLibrary { name: "stdc++", kind: NativeLinkKind::Static },
            NativeLibrary { name: "gcc_eh", kind: NativeLinkKind::Static },
            NativeLibrary { name: "gcc", kind: NativeLinkKind::Static },
            NativeLibrary { name: "winpthread", kind: NativeLinkKind::Static },
        ]
    } else if str_eq(os, "windows") && str_eq(env, "gnu") {
        vec![NativeLibrary { name: "stdc++", kind: NativeLinkKind::Dynamic }]
    } else if str_eq(os, "macos") || str_eq(os, "ios") {
        vec![NativeLibrary { name: "c++", kind: NativeLinkKind::Dynamic }]
    } else if str_eq(os, "linux") {
        vec![NativeLibrary { name: "stdc++", kind: NativeLinkKind::Dynamic }]
    } else if str_eq(os, "android") {
        vec![NativeLibrary { name: "c++_static", kind: NativeLinkKind::Static }]
    } else {
        Vec::new()
    };
    assert(r@ =~= cpp_runtime_for(os@, env@, static_cpp_runtime));
    r
}

/// MNN is linked as a whole archive when it is a static library (built from
/// source or supplied) that has to register accelerator backends.
pub open spec fn whole_archive_needed(mode: MnnLinkMode, f: BuildFeatures) -> bool {
    (mode == MnnLinkMode::BuildFromSource || mode == MnnLinkMode::Static) && requests_any_backend(f)
}

/// Whether MNN must be linked with `whole-archive` so that backend
/// registrations are kept.
pub fn should_link_mnn_whole_archive(link_mode: MnnLinkMode, features: &BuildFeatures) -> (r: bool)
    ensures
        r == whole_archive_needed(link_mode, *features),
{
    matches!(link_mode, MnnLinkMode::BuildFromSource | MnnLinkMode::Static)
        && features.requests_backend()
}

/// The CUDA side library plan: only Linux with CUDA ships `MNN_Cuda_Main`, and
/// its paths are known only for a source build.
pub open spec fn cuda_plan_for(os: Seq<char>, cuda_enabled: bool, mode: MnnLinkMode) -> Option<
    CudaSideLibraryPlan,
> {
    if os != "linux"@ || !cuda_enabled {
        None
    } else if mode == MnnLinkMode::BuildFromSource {
        Some(
            CudaSideLibraryPlan {
                link_name: "MNN_Cuda_Main",
                build_relative_path: Some("build/source/backend/cuda/libMNN_Cuda_Main.so"),
                install_relative_path: Some("lib/libMNN_Cuda_Main.so"),
            },
        )
    } else {
        Some(
            CudaSideLibraryPlan {
                link_name: "MNN_Cuda_Main",
                build_relative_path: None,
                install_relative_path: None,
            },
        )
    }
}

/// Where the CUDA side library comes from, if the target needs one.
pub fn cuda_side_library_plan(os: &str, cuda_enabled: bool, link_mode: MnnLinkMode) -> (r: Option<
    CudaSideLibraryPlan,
>)
    ensures
        r == cuda_plan_for(os@, cuda_enabled, link_mode),
{
    if !str_eq(os, "linux") || !cuda_enabled {
        return None;
    }
    let source_paths: Option<(&'static str, &'static str)> = if matches!(
        link_mode,
        MnnLinkMode::BuildFromSource
    ) {
        Some(("build/source/backend/cuda/libMNN_Cuda_Main.so", "lib/libMNN_Cuda_Main.so"))
    } else {
        None
    };
    let (build_relative_path, install_relative_path) = match source_paths {
        Some(paths) => (Some(paths.0), Some(paths.1)),
        None => (None, None),
    };
    Some(CudaSideLibraryPlan { link_name: "MNN_Cuda_Main", build_relative_path, install_relative_path })
}

// ---------------------------------------------------------------------------
// Error messages
// ---------------------------------------------------------------------------

/// The human-readable message of a build configuration error.
pub open spec fn build_error_message(e: BuildConfigError) -> Seq<char> {
    match e {
        BuildConfigError::ConflictingLinkModes => "features `mnn-dynamic` and `mnn-static` are mutually exclusive"@,
        BuildConfigError::UnsupportedWindowsEnvironment(environment) => "unsupported Windows target environment `"@
            + environment@ + "`; use `msvc` or `gnu`"@,
        BuildConfigError::UnsupportedBackendForTarget { backend, target } => "backend `"@ + backend@
            + "` cannot be built from source for target `"@ + target@
            + "`; provide a compatible MNN library with `mnn-dynamic` or `mnn-static`"@,
    }
}

impl<'a> BuildConfigError<'a> {
    /// The message that explains the error to the user of the build.
    pub fn message(&self) -> (r: String)
        ensures
            r@ == build_error_message(*self),
    {
        match self {
            BuildConfigError::ConflictingLinkModes => String::from_str(
                "features `mnn-dynamic` and `mnn-static` are mutually exclusive",
            ),
            BuildConfigError::UnsupportedWindowsEnvironment(environment) => {
                let mut m = String::from_str("unsupported Windows target environment `");
                m.append(environment);
                m.append("`; use `msvc` or `gnu`");
                m
            },
            BuildConfigError::UnsupportedBackendForTarget { backend, target } => {
                let mut m = String::from_str("backend `");
                m.append(backend);
                m.append("` cannot be built from source for target `");
                m.append(target);
                m.append("`; provide a compatible MNN library with `mnn-dynamic` or `mnn-static`");
                m
            },
        }
    }
}

// ---------------------------------------------------------------------------
// Laws
// ---------------------------------------------------------------------------

/// The prebuilt archive is chosen only when no source build was asked for, an
/// archive is published for the target, and it supports the requested backends.
pub proof fn law_prebuilt_only_when_published_and_sufficient(t: TargetInfo, f: BuildFeatures)
    requires
        link_mode_for(t, f) == Ok::<MnnLinkMode, BuildConfigError>(MnnLinkMode::Prebuilt),
    ensures
        !f.build_from_source,
        target_asset_suffix(t) is Some,
        prebuilt_supports(t, f),
        !f.mnn_dynamic && !f.mnn_static,
{
}

/// A user-supplied MNN library (exactly one of `mnn-dynamic`, `mnn-static`)
/// takes precedence over every backend and source-build setting.
pub proof fn law_user_library_takes_precedence(t: TargetInfo, f: BuildFeatures)
    requires
        windows_env_supported(t),
        f.mnn_dynamic != f.mnn_static,
    ensures
        link_mode_for(t, f) == Ok::<MnnLinkMode, BuildConfigError>(
            if f.mnn_dynamic {
                MnnLinkMode::Dynamic
            } else {
                MnnLinkMode::Static
            },
        ),
{
}

/// The features `mnn-dynamic` and `mnn-static` are mutually exclusive.
pub proof fn law_link_features_exclusive(t: TargetInfo, f: BuildFeatures)
    requires
        windows_env_supported(t),
        f.mnn_dynamic && f.mnn_static,
    ensures
        link_mode_for(t, f) == Err::<MnnLinkMode, BuildConfigError>(
            BuildConfigError::ConflictingLinkModes,
        ),
{
}

/// A MinGW Windows target never uses the MSVC prebuilt archive nor MSVC flags.
pub proof fn law_windows_gnu_never_msvc(t: TargetInfo)
    requires
        t.os@ == "windows"@,
        t.env@ == "gnu"@,
    ensures
        target_asset_suffix(t) is None,
        msvc_flags_for(t) == Ok::<bool, BuildConfigError>(false),
{
    reveal_strlit("gnu");
    reveal_strlit("msvc");
    reveal_strlit("windows");
    reveal_strlit("linux");
    reveal_strlit("macos");
    reveal_strlit("ios");
    reveal_strlit("android");
    assert("gnu"@[0] != "msvc"@[0]);
    assert("windows"@.len() != "linux"@.len());
    assert("windows"@.len() != "macos"@.len());
    assert("windows"@.len() != "ios"@.len());
    assert("windows"@[0] != "android"@[0]);
}

/// Choosing the link mode and choosing compiler flags reject exactly the same
/// targets, with the same error, whatever the features.
pub proof fn law_environment_check_agrees(t: TargetInfo, f: BuildFeatures)
    ensures
        msvc_flags_for(t) is Err <==> link_mode_for(t, f) == Err::<MnnLinkMode, BuildConfigError>(
            BuildConfigError::UnsupportedWindowsEnvironment(t.env),
        ),
        msvc_flags_for(t) is Err ==> msvc_flags_for(t) == Err::<bool, BuildConfigError>(
            BuildConfigError::UnsupportedWindowsEnvironment(t.env),
        ),
{
}

/// The "backend cannot be built from source" error arises only for CUDA on a
/// MinGW Windows target when no MNN library was supplied.
pub proof fn law_backend_error_only_for_mingw_cuda(t: TargetInfo, f: BuildFeatures)
    requires
        link_mode_for(t, f) is Err,
        link_mode_for(t, f) != Err::<MnnLinkMode, BuildConfigError>(
            BuildConfigError::ConflictingLinkModes,
        ),
        windows_env_supported(t),
    ensures
        t.os@ == "windows"@ && t.env@ == "gnu"@ && f.cuda,
        !f.mnn_dynamic && !f.mnn_static,
        link_mode_for(t, f) == Err::<MnnLinkMode, BuildConfigError>(
            BuildConfigError::UnsupportedBackendForTarget { backend: "cuda", target: t.triple },
        ),
{
}

/// Whole-archive linking is used only for a static MNN library (source-built
/// or supplied) that registers at least one accelerator backend.
pub proof fn law_whole_archive_only_for_static_with_backends(mode: MnnLinkMode, f: BuildFeatures)
    requires
        whole_archive_needed(mode, f),
    ensures
        requested_backend_names(f).len() > 0,
        mode != MnnLinkMode::Prebuilt && mode != MnnLinkMode::Dynamic,
{
    lemma_requested_backends_nonempty(f);
}

/// Every published target gets its own prebuilt archive: two targets share
/// an archive only when they have the same operating system and, except for
/// the universal macOS archive, the same architecture (and, on Windows, both
/// use MSVC; on iOS, both or neither are simulator targets). The 64-bit and 32-bit Windows MSVC targets get the `x86_64` and
/// `i686` archives.
pub proof fn law_prebuilt_archives_distinguish_targets(a: TargetInfo, b: TargetInfo)
    ensures
        (target_asset_suffix(a) is Some && target_asset_suffix(a) == target_asset_suffix(b)) ==> (
        a.os@ == b.os@ && (a.os@ != "macos"@ ==> a.arch@ == b.arch@) && (a.os@ == "windows"@
            ==> a.env@ == "msvc"@ && b.env@ == "msvc"@) && (a.os@ == "ios"@ ==> (has_substring(
            a.triple@,
            "-sim"@,
        ) <==> has_substring(b.triple@, "-sim"@)))),
        (a.os@ == "windows"@ && a.arch@ == "x86_64"@ && a.env@ == "msvc"@) ==> target_asset_suffix(a)
            == Some("windows-x86_64"@),
        (a.os@ == "windows"@ && a.arch@ == "x86"@ && a.env@ == "msvc"@) ==> target_asset_suffix(a)
            == Some("windows-i686"@),
{
    reveal_strlit("linux");
    reveal_strlit("windows");
    reveal_strlit("macos");
    reveal_strlit("ios");
    reveal_strlit("android");
    reveal_strlit("x86_64");
    reveal_strlit("aarch64");
    reveal_strlit("x86");
    reveal_strlit("arm");
    reveal_strlit("msvc");
    reveal_strlit("linux-x86_64");
    reveal_strlit("linux-aarch64");
    reveal_strlit("windows-x86_64");
    reveal_strlit("windows-i686");
    reveal_strlit("windows-aarch64");
    reveal_strlit("macos-universal");
    reveal_strlit("ios-arm64-sim");
    reveal_strlit("ios-arm64");
    reveal_strlit("android-arm64-v8a");
    reveal_strlit("android-armeabi-v7a");
    // operating systems, architectures and archive suffixes are told apart by
    // their length or first characters
    assert("linux"@.len() == 5 && "macos"@.len() == 5 && "ios"@.len() == 3);
    assert("windows"@.len() == 7 && "android"@.len() == 7);
    assert("linux"@[0] != "macos"@[0] && "windows"@[0] != "android"@[0]);
    assert("x86_64"@.len() == 6 && "aarch64"@.len() == 7 && "x86"@.len() == 3 && "arm"@.len()
        == 3);
    assert("x86"@[0] != "arm"@[0]);
    assert("linux-x86_64"@.len() == 12 && "windows-i686"@.len() == 12);
    assert("linux-x86_64"@[0] != "windows-i686"@[0]);
    assert("linux-aarch64"@.len() == 13 && "ios-arm64-sim"@.len() == 13);
    assert("linux-aarch64"@[0] != "ios-arm64-sim"@[0]);
    assert("windows-x86_64"@.len() == 14);
    assert("windows-aarch64"@.len() == 15 && "macos-universal"@.len() == 15);
    assert("windows-aarch64"@[0] != "macos-universal"@[0]);
    assert("ios-arm64"@.len() == 9);
    assert("android-arm64-v8a"@.len() == 17);
    assert("android-armeabi-v7a"@.len() == 19);
}

} // verus!
