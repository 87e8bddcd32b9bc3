//! The dependency registry snapshot, the rules for loading it from the cache,
//! and the decisions of its background refresh.
use vstd::prelude::*;

use crate::target::RustDependencyRegistryData;

verus! {

/// The only snapshot version this library understands.
pub const SUPPORTED_REGISTRY_VERSION: usize = 1;

/// Name of the cache file, in the per-user cache directory of the tool.
pub const DEPENDENCY_REGISTRY_CACHE_PATH: &'static str = "registry.json";

/// Where the background refresh fetches a newer snapshot.
pub const DEPENDENCY_REGISTRY_REMOTE_URL: &'static str = "https://registry.riff.determinate.systems/riff-registry.json";

/// A registry of known mappings from language specific dependencies to
/// development environment settings.
pub struct DependencyRegistryData {
    pub latest_riff_version: Option<String>,
    /// Checked for compatibility before the snapshot is used.
    pub version: usize,
    pub language: DependencyRegistryLanguageData,
}

/// One registry per supported ecosystem.
pub struct DependencyRegistryLanguageData {
    pub rust: RustDependencyRegistryData,
    pub javascript: RustDependencyRegistryData,
}

/// Why a snapshot cannot be used.
#[derive(Debug, Clone, Copy, PartialEq, Eq, Structural)]
pub enum DependencyRegistryError {
    /// The snapshot has a version other than the supported one.
    WrongVersion(usize),
}

impl DependencyRegistryError {
    /// What went wrong, for a person to read.
    pub fn message(&self) -> (r: String)
        ensures
            match self {
                DependencyRegistryError::WrongVersion(n) => r@ == "Wrong registry data version: 1 (expected) != "@
                    + decimal(*n as nat) + " (got)"@,
            },
    {
        match self {
            DependencyRegistryError::WrongVersion(n) => {
                let mut r = "Wrong registry data version: 1 (expected) != ".to_owned();
                push_decimal(&mut r, *n as u64);
                r.append(" (got)");
                r
            },
        }
    }
}

/// What the store parses: the cached document, or the dataset built into the
/// library when the cache file is empty.
pub fn registry_content(cached: String) -> (r: String)
    ensures
        cached@.len() == 0 ==> r@ == DEPENDENCY_REGISTRY_FALLBACK@,
        cached@.len() != 0 ==> r == cached,
{
    if cached.as_str().is_empty() {
        DEPENDENCY_REGISTRY_FALLBACK.to_owned()
    } else {
        cached
    }
}

/// Accepts a parsed snapshot only when it has the supported version; any
/// other version makes the whole snapshot unusable.
pub fn check_version(data: DependencyRegistryData) -> (r: Result<DependencyRegistryData, DependencyRegistryError>)
    ensures
        r is Ok <==> data.version == SUPPORTED_REGISTRY_VERSION,
        r matches Ok(d) ==> d == data,
        r matches Err(e) ==> e == DependencyRegistryError::WrongVersion(data.version),
{
    if data.version != SUPPORTED_REGISTRY_VERSION {
        Err(DependencyRegistryError::WrongVersion(data.version))
    } else {
        Ok(data)
    }
}

/// The decimal digit `d`.
pub open spec fn digit_char(d: nat) -> char {
    if d == 0 {
        '0'
    } else if d == 1 {
        '1'
    } else if d == 2 {
        '2'
    } else if d == 3 {
        '3'
    } else if d == 4 {
        '4'
    } else if d == 5 {
        '5'
    } else if d == 6 {
        '6'
    } else if d == 7 {
        '7'
    } else if d == 8 {
        '8'
    } else {
        '9'
    }
}

/// `n` written in decimal, without leading zeros.
pub open spec fn decimal(n: nat) -> Seq<char>
    decreases n,
{
    if n < 10 {
        seq![digit_char(n)]
    } else {
        decimal(n / 10).push(digit_char(n % 10))
    }
}

fn digit_str(d: u64) -> (r: &'static str)
    requires
        d < 10,
    ensures
        r@ == seq![digit_char(d as nat)],
{
    proof {
        reveal_strlit("0");
        reveal_strlit("1");
        reveal_strlit("2");
        reveal_strlit("3");
        reveal_strlit("4");
        reveal_strlit("5");
        reveal_strlit("6");
        reveal_strlit("7");
        reveal_strlit("8");
        reveal_strlit("9");
    }
    if d == 0 {
        "0"
    } else if d == 1 {
        "1"
    } else if d == 2 {
        "2"
    } else if d == 3 {
        "3"
    } else if d == 4 {
        "4"
    } else if d == 5 {
        "5"
    } else if d == 6 {
        "6"
    } else if d == 7 {
        "7"
    } else if d == 8 {
        "8"
    } else {
        "9"
    }
}

/// Appends `n`, in decimal, to `s`.
pub fn push_decimal(s: &mut String, n: u64)
    ensures
        final(s)@ == old(s)@ + decimal(n as nat),
    decreases n,
{
    if n >= 10 {
        push_decimal(s, n / 10);
    }
    s.append(digit_str(n % 10));
    assert(decimal(n as nat) =~= if n < 10 { seq![digit_char(n as nat)] } else { decimal((n / 10) as nat).push(digit_char((n % 10) as nat)) });
}

/// The name of the temporary file that a refresh writes before renaming it
/// over the cache; the process id keeps concurrent runs of the tool apart.
pub fn temp_cache_file_name(pid: u32) -> (r: String)
    ensures
        r@ == DEPENDENCY_REGISTRY_CACHE_PATH@ + ".new"@ + decimal(pid as nat),
{
    let mut r = DEPENDENCY_REGISTRY_CACHE_PATH.to_owned();
    r.append(".new");
    push_decimal(&mut r, pid as u64);
    r
}

/// The dataset built into the library, used while the cache is empty.
pub const DEPENDENCY_REGISTRY_FALLBACK: &'static str = r#"{
  "version": 1,
  "latest_riff_version": null,
  "language": {
    "rust": {
      "default": { "build-inputs": ["cargo", "rustc", "rustfmt"] },
      "dependencies": {
        "alsa-sys": { "build-inputs": ["alsa-lib"] },
        "ash": {
          "build-inputs": ["vulkan-loader", "vulkan-tools", "vulkan-headers", "vulkan-validation-layers"],
          "runtime-inputs": ["vulkan-loader"]
        },
        "atk-sys": { "build-inputs": ["atk"] },
        "bindgen": { "build-inputs": ["rustPlatform.bindgenHook"] },
        "bzip2-sys": { "build-inputs": ["bzip2"] },
        "cairo-sys-rs": { "build-inputs": ["cairo"] },
        "clang-sys": {
          "build-inputs": ["llvmPackages.libclang", "llvm"],
          "environment-variables": { "LIBCLANG_PATH": "${llvmPackages.libclang.lib}/lib" }
        },
        "curl-sys": { "build-inputs": ["curl"] },
        "egl": { "build-inputs": ["libGL"] },
        "expat-sys": { "build-inputs": ["expat"] },
        "freetype-sys": { "build-inputs": ["freetype"] },
        "gdk-pixbuf-sys": { "build-inputs": ["gdk-pixbuf"] },
        "gdk-sys": { "build-inputs": ["wrapGAppsHook", "gtk3"] },
        "gio-sys": { "build-inputs": ["glib"] },
        "gstreamer-audio-sys": { "build-inputs": ["gst_all_1.gst-plugins-base"] },
        "gstreamer-base-sys": { "build-inputs": ["gst_all_1.gstreamer"] },
        "gtk4-sys": { "build-inputs": ["gtk4"] },
        "hidapi": { "build-inputs": ["udev"] },
        "libadwaita-sys": { "build-inputs": ["libadwaita"] },
        "libdbus-sys": { "build-inputs": ["dbus"] },
        "libgit2-sys": { "build-inputs": ["libgit2"] },
        "libshumate-sys": { "build-inputs": ["libshumate"] },
        "libsqlite3-sys": { "build-inputs": ["sqlite"] },
        "libudev-sys": { "build-inputs": ["eudev"] },
        "libusb1-sys": { "build-inputs": ["libusb"] },
        "libz-sys": { "build-inputs": ["zlib", "cmake"] },
        "openssl-sys": { "build-inputs": ["openssl"] },
        "pango-sys": { "build-inputs": ["pango"] },
        "pkg-config": { "build-inputs": ["pkg-config"] },
        "prost": { "build-inputs": ["cmake"] },
        "qt_3d_render": { "build-inputs": ["libGL"] },
        "qt_gui": { "build-inputs": ["qt5.full"] },
        "rdkafka-sys": { "build-inputs": ["rdkafka", "cyrus_sasl"] },
        "servo-fontconfig-sys": { "build-inputs": ["fontconfig"] },
        "smithay-client-toolkit": { "build-inputs": ["libxkbcommon", "pkg-config"] },
        "spirv-tools-sys": { "build-inputs": ["spirv-tools"] },
        "wayland-sys": { "build-inputs": ["wayland"] },
        "wgpu-hal": {
          "environment-variables": {
            "ALSA_PLUGIN_DIR": "${pkgs.symlinkJoin { name = \"merged-alsa-plugins\"; paths = with pkgs; [ alsaPlugins pipewire.lib ]; }}/lib/alsa-lib"
          },
          "runtime-inputs": ["libGL", "spirv-tools", "vulkan-tools", "vulkan-loader", "vulkan-headers", "vulkan-extension-layer", "vulkan-validation-layers", "mesa", "mesa_drivers", "alsaPlugins", "pipewire"]
        },
        "winit": {
          "build-inputs": ["xorg.libX11"],
          "runtime-inputs": ["xorg.libX11", "xorg.libXcursor", "xorg.libXrandr", "xorg.libXi", "libGL", "glxinfo"]
        },
        "xcb": { "build-inputs": ["xorg.libxcb"] },
        "xkbcommon-sys": { "build-inputs": ["libxkbcommon"] },
        "zstd-sys": { "build-inputs": ["zlib", "clang"] }
      }
    },
    "javascript": {
      "default": { "build-inputs": ["nodejs", "yarn"] },
      "dependencies": {}
    }
  }
}"#;

} // verus!
