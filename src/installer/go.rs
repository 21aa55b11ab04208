//! Go, unpacked from the official zip archive.
use vstd::prelude::*;
use crate::config::{join_path, joined, ConfigView, HudoConfig};
use crate::installer::{append_path, no_actions, no_deps, or_default, set_var, then, value_or, EnvAction, EnvChange, Installer, ToolInfo};
use crate::text::{str_eq, trim_end, trim_end_char};

verus! {

pub struct GoInstaller;

/// The release fetched where the settings ask for the latest one.
pub const GO_VERSION_DEFAULT: &'static str = "1.24.0";

/// The release to fetch for the configured version `v`.
pub open spec fn go_version_of(v: Seq<char>) -> Seq<char> {
    if v == "latest"@ || v.len() == 0 {
        GO_VERSION_DEFAULT@
    } else {
        v
    }
}

/// GOPATH under the install root `root`.
pub open spec fn gopath_of(root: Seq<char>) -> Seq<char> {
    joined(joined(root, "lang"@), "gopath"@)
}

impl Installer for GoInstaller {
    open spec fn id_spec(&self) -> Seq<char> {
        "go"@
    }

    open spec fn download_spec(&self, config: ConfigView) -> (Seq<char>, Seq<char>) {
        let file = "go"@ + go_version_of(config.go_version) + ".windows-amd64.zip"@;
        (trim_end(or_default(config.mirrors_go, "https://go.dev/dl"@), '/') + "/"@ + file, file)
    }

    open spec fn env_spec(&self, install_path: Seq<char>, config: ConfigView) -> Seq<EnvChange> {
        seq![
            EnvChange::SetVar("GOROOT"@, install_path),
            EnvChange::SetVar("GOPATH"@, gopath_of(config.root_dir)),
            EnvChange::AppendPath(joined(install_path, "bin"@)),
            EnvChange::AppendPath(joined(gopath_of(config.root_dir), "bin"@)),
        ]
    }

    open spec fn dir_spec(&self, config: ConfigView) -> Seq<char> {
        joined(joined(config.root_dir, "lang"@), "go"@)
    }

    open spec fn deps_spec(&self) -> Seq<Seq<char>> {
        Seq::empty()
    }

    fn info(&self) -> (r: ToolInfo) {
        ToolInfo { id: "go", name: "Go", description: "Go 编程语言" }
    }

    fn resolve_download(&self, config: &HudoConfig) -> (r: (String, String)) {
        let configured = config.go.version.as_str();
        let version = if str_eq(configured, "latest") || configured.unicode_len() == 0 {
            GO_VERSION_DEFAULT
        } else {
            configured
        };
        let file = String::from_str("go").concat(version).concat(".windows-amd64.zip");
        let base = trim_end_char(value_or(&config.mirrors.go, "https://go.dev/dl").as_str(), '/');
        let url = base.concat("/").concat(file.as_str());
        (url, file)
    }

    fn env_actions(&self, install_path: &str, config: &HudoConfig) -> (r: Vec<EnvAction>) {
        let gopath = join_path(config.lang_dir().as_str(), "gopath");
        let v = then(no_actions(), set_var("GOROOT", String::from_str(install_path)));
        let v = then(v, set_var("GOPATH", gopath.clone()));
        let v = then(v, append_path(join_path(install_path, "bin")));
        then(v, append_path(join_path(gopath.as_str(), "bin")))
    }

    fn dependencies(&self) -> (r: Vec<String>) {
        no_deps()
    }

    fn install_dir(&self, config: &HudoConfig) -> (r: String) {
        join_path(config.lang_dir().as_str(), "go")
    }
}

} // verus!
