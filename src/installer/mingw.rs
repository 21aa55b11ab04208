//! GCC for Windows, from the standalone WinLibs build.
use vstd::prelude::*;
use crate::config::{join_path, joined, ConfigView, HudoConfig};
use crate::installer::{append_path, no_actions, no_deps, then, EnvAction, EnvChange, Installer, ToolInfo};

verus! {

pub struct MingwInstaller;

/// The GCC version of the build.
pub const MINGW_VERSION: &'static str = "14.2.0";

/// The full name of the build: GCC, LLVM and MinGW-w64 versions.
pub const MINGW_RELEASE: &'static str = "14.2.0-19.1.7-12.0.0-ucrt-r2";

impl Installer for MingwInstaller {
    open spec fn id_spec(&self) -> Seq<char> {
        "c"@
    }

    open spec fn download_spec(&self, config: ConfigView) -> (Seq<char>, Seq<char>) {
        let file = "winlibs-x86_64-posix-seh-gcc-"@ + MINGW_RELEASE@ + "-mingw-w64ucrt.zip"@;
        ("https://github.com/brechtsanders/winlibs_mingw/releases/download/"@ + MINGW_VERSION@ + "-posix-seh-ucrt-r2/"@ + file, file)
    }

    open spec fn env_spec(&self, install_path: Seq<char>, config: ConfigView) -> Seq<EnvChange> {
        seq![EnvChange::AppendPath(joined(install_path, "bin"@))]
    }

    open spec fn dir_spec(&self, config: ConfigView) -> Seq<char> {
        joined(joined(config.root_dir, "tools"@), "mingw64"@)
    }

    open spec fn deps_spec(&self) -> Seq<Seq<char>> {
        Seq::empty()
    }

    fn info(&self) -> (r: ToolInfo) {
        ToolInfo { id: "c", name: "C/C++", description: "GCC 编译器 (MinGW-w64)" }
    }

    fn resolve_download(&self, config: &HudoConfig) -> (r: (String, String)) {
        let file = String::from_str("winlibs-x86_64-posix-seh-gcc-").concat(MINGW_RELEASE).concat("-mingw-w64ucrt.zip");
        let url = String::from_str("https://github.com/brechtsanders/winlibs_mingw/releases/download/").concat(MINGW_VERSION).concat(
            "-posix-seh-ucrt-r2/",
        ).concat(file.as_str());
        (url, file)
    }

    fn env_actions(&self, install_path: &str, config: &HudoConfig) -> (r: Vec<EnvAction>) {
        then(no_actions(), append_path(join_path(install_path, "bin")))
    }

    fn dependencies(&self) -> (r: Vec<String>) {
        no_deps()
    }

    fn install_dir(&self, config: &HudoConfig) -> (r: String) {
        join_path(config.tools_dir().as_str(), "mingw64")
    }
}

} // verus!
