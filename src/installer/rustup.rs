//! Rust, through rustup-init.
use vstd::prelude::*;
use crate::config::{join_path, joined, ConfigView, HudoConfig};
use crate::installer::{append_path, depends_on, no_actions, set_var, then, EnvAction, EnvChange, Installer, ToolInfo};

verus! {

pub struct RustupInstaller;

impl Installer for RustupInstaller {
    open spec fn id_spec(&self) -> Seq<char> {
        "rust"@
    }

    open spec fn download_spec(&self, config: ConfigView) -> (Seq<char>, Seq<char>) {
        ("https://static.rust-lang.org/rustup/dist/x86_64-pc-windows-msvc/rustup-init.exe"@, "rustup-init.exe"@)
    }

    open spec fn env_spec(&self, install_path: Seq<char>, config: ConfigView) -> Seq<EnvChange> {
        let cargo = joined(joined(config.root_dir, "lang"@), "cargo"@);
        seq![
            EnvChange::SetVar("RUSTUP_HOME"@, joined(joined(config.root_dir, "tools"@), "rustup"@)),
            EnvChange::SetVar("CARGO_HOME"@, cargo),
            EnvChange::AppendPath(joined(cargo, "bin"@)),
        ]
    }

    open spec fn dir_spec(&self, config: ConfigView) -> Seq<char> {
        joined(joined(config.root_dir, "lang"@), "cargo"@)
    }

    open spec fn deps_spec(&self) -> Seq<Seq<char>> {
        seq!["c"@]
    }

    fn info(&self) -> (r: ToolInfo) {
        ToolInfo { id: "rust", name: "Rust", description: "Rust 编程语言 (via rustup)" }
    }

    fn resolve_download(&self, config: &HudoConfig) -> (r: (String, String)) {
        (
            String::from_str("https://static.rust-lang.org/rustup/dist/x86_64-pc-windows-msvc/rustup-init.exe"),
            String::from_str("rustup-init.exe"),
        )
    }

    fn env_actions(&self, install_path: &str, config: &HudoConfig) -> (r: Vec<EnvAction>) {
        let rustup_home = join_path(config.tools_dir().as_str(), "rustup");
        let cargo_home = join_path(config.lang_dir().as_str(), "cargo");
        let v = then(no_actions(), set_var("RUSTUP_HOME", rustup_home));
        let v = then(v, set_var("CARGO_HOME", cargo_home.clone()));
        then(v, append_path(join_path(cargo_home.as_str(), "bin")))
    }

    fn dependencies(&self) -> (r: Vec<String>) {
        depends_on("c")
    }

    fn install_dir(&self, config: &HudoConfig) -> (r: String) {
        join_path(config.lang_dir().as_str(), "cargo")
    }
}

} // verus!
