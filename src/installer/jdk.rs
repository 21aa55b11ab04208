//! The Temurin JDK, unpacked from the Adoptium archive.
use vstd::prelude::*;
use crate::config::{join_path, joined, ConfigView, HudoConfig};
use crate::installer::{append_path, no_actions, no_deps, or_default, set_var, then, value_or, EnvAction, EnvChange, Installer, ToolInfo};
use crate::text::{trim_end, trim_end_char};

verus! {

pub struct JdkInstaller;

/// The release line fetched where the settings name none.
pub const JDK_MAJOR_DEFAULT: &'static str = "21";

/// The release line to fetch for the configured one `v`.
pub open spec fn jdk_major_of(v: Seq<char>) -> Seq<char> {
    if v.len() == 0 {
        JDK_MAJOR_DEFAULT@
    } else {
        v
    }
}

impl Installer for JdkInstaller {
    open spec fn id_spec(&self) -> Seq<char> {
        "jdk"@
    }

    open spec fn download_spec(&self, config: ConfigView) -> (Seq<char>, Seq<char>) {
        let major = jdk_major_of(config.java_version);
        (
            trim_end(or_default(config.mirrors_java, "https://api.adoptium.net/v3/binary/latest"@), '/') + "/"@ + major
                + "/ga/windows/x64/jdk/hotspot/normal/eclipse"@,
            "adoptium-jdk"@ + major + "-latest.zip"@,
        )
    }

    open spec fn env_spec(&self, install_path: Seq<char>, config: ConfigView) -> Seq<EnvChange> {
        seq![EnvChange::SetVar("JAVA_HOME"@, install_path), EnvChange::AppendPath(joined(install_path, "bin"@))]
    }

    open spec fn dir_spec(&self, config: ConfigView) -> Seq<char> {
        joined(joined(config.root_dir, "lang"@), "java"@)
    }

    open spec fn deps_spec(&self) -> Seq<Seq<char>> {
        Seq::empty()
    }

    fn info(&self) -> (r: ToolInfo) {
        ToolInfo { id: "jdk", name: "Java JDK", description: "Adoptium Temurin JDK" }
    }

    fn resolve_download(&self, config: &HudoConfig) -> (r: (String, String)) {
        let configured = config.java.version.as_str();
        let major = if configured.unicode_len() == 0 {
            JDK_MAJOR_DEFAULT
        } else {
            configured
        };
        let base = trim_end_char(value_or(&config.mirrors.java, "https://api.adoptium.net/v3/binary/latest").as_str(), '/');
        let url = base.concat("/").concat(major).concat("/ga/windows/x64/jdk/hotspot/normal/eclipse");
        let file = String::from_str("adoptium-jdk").concat(major).concat("-latest.zip");
        (url, file)
    }

    fn env_actions(&self, install_path: &str, config: &HudoConfig) -> (r: Vec<EnvAction>) {
        let v = then(no_actions(), set_var("JAVA_HOME", String::from_str(install_path)));
        then(v, append_path(join_path(install_path, "bin")))
    }

    fn dependencies(&self) -> (r: Vec<String>) {
        no_deps()
    }

    fn install_dir(&self, config: &HudoConfig) -> (r: String) {
        join_path(config.lang_dir().as_str(), "java")
    }
}

} // verus!
