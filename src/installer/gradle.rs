//! Gradle, the Java and Android build tool, unpacked from its distribution zip.
use vstd::prelude::*;
use crate::config::{join_path, joined, ConfigView, HudoConfig};
use crate::installer::{append_path, depends_on, no_actions, or_default, set_var, then, value_or, EnvAction, EnvChange, Installer, ToolInfo};
use crate::text::{trim_end, trim_end_char};

verus! {

pub struct GradleInstaller;

/// The release fetched unless another is asked for.
pub const GRADLE_VERSION_DEFAULT: &'static str = "8.12.1";

/// The archive of `version` under the download base `mirror` (the official
/// one where none is set), and its cache file name.
pub open spec fn build_url_spec(mirror: Option<Seq<char>>, version: Seq<char>) -> (Seq<char>, Seq<char>) {
    let file = "gradle-"@ + version + "-bin.zip"@;
    (trim_end(or_default(mirror, "https://services.gradle.org/distributions"@), '/') + "/"@ + file, file)
}

/// The archive of `version` under the configured download base, and its
/// cache file name.
pub fn build_url(config: &HudoConfig, version: &str) -> (r: (String, String))
    ensures
        (r.0@, r.1@) == build_url_spec(config.model().mirrors_gradle, version@),
{
    let file = String::from_str("gradle-").concat(version).concat("-bin.zip");
    let base = trim_end_char(value_or(&config.mirrors.gradle, "https://services.gradle.org/distributions").as_str(), '/');
    let url = base.concat("/").concat(file.as_str());
    (url, file)
}

impl Installer for GradleInstaller {
    open spec fn id_spec(&self) -> Seq<char> {
        "gradle"@
    }

    open spec fn download_spec(&self, config: ConfigView) -> (Seq<char>, Seq<char>) {
        build_url_spec(config.mirrors_gradle, or_default(config.versions_gradle, GRADLE_VERSION_DEFAULT@))
    }

    open spec fn env_spec(&self, install_path: Seq<char>, config: ConfigView) -> Seq<EnvChange> {
        seq![EnvChange::SetVar("GRADLE_HOME"@, install_path), EnvChange::AppendPath(joined(install_path, "bin"@))]
    }

    /// It runs on a JDK.
    open spec fn dir_spec(&self, config: ConfigView) -> Seq<char> {
        joined(joined(config.root_dir, "tools"@), "gradle"@)
    }

    open spec fn deps_spec(&self) -> Seq<Seq<char>> {
        seq!["jdk"@]
    }

    fn info(&self) -> (r: ToolInfo) {
        ToolInfo { id: "gradle", name: "Gradle", description: "Gradle 构建工具 (Java/Android)" }
    }

    fn resolve_download(&self, config: &HudoConfig) -> (r: (String, String)) {
        let version = value_or(&config.versions.gradle, GRADLE_VERSION_DEFAULT);
        build_url(config, version.as_str())
    }

    fn env_actions(&self, install_path: &str, config: &HudoConfig) -> (r: Vec<EnvAction>) {
        let v = then(no_actions(), set_var("GRADLE_HOME", String::from_str(install_path)));
        then(v, append_path(join_path(install_path, "bin")))
    }

    fn dependencies(&self) -> (r: Vec<String>) {
        depends_on("jdk")
    }

    fn install_dir(&self, config: &HudoConfig) -> (r: String) {
        join_path(config.tools_dir().as_str(), "gradle")
    }
}

} // verus!
