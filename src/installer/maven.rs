//! Apache Maven, unpacked from its binary zip.
use vstd::prelude::*;
use crate::config::{join_path, joined, ConfigView, HudoConfig};
use crate::installer::{append_path, depends_on, no_actions, or_default, set_var, then, value_or, EnvAction, EnvChange, Installer, ToolInfo};
use crate::text::{trim_end, trim_end_char};

verus! {

pub struct MavenInstaller;

/// The release fetched unless another is asked for.
pub const MAVEN_VERSION_DEFAULT: &'static str = "3.9.9";

/// The archive of `version` under the download base `mirror` (the official
/// one where none is set), and its cache file name.
pub open spec fn build_url_spec(mirror: Option<Seq<char>>, version: Seq<char>) -> (Seq<char>, Seq<char>) {
    let file = "apache-maven-"@ + version + "-bin.zip"@;
    (trim_end(or_default(mirror, "https://downloads.apache.org/maven/maven-3"@), '/') + "/"@ + version + "/binaries/"@ + file, file)
}

/// The archive of `version` under the configured download base, and its
/// cache file name.
pub fn build_url(config: &HudoConfig, version: &str) -> (r: (String, String))
    ensures
        (r.0@, r.1@) == build_url_spec(config.model().mirrors_maven, version@),
{
    let file = String::from_str("apache-maven-").concat(version).concat("-bin.zip");
    let base = trim_end_char(value_or(&config.mirrors.maven, "https://downloads.apache.org/maven/maven-3").as_str(), '/');
    let url = base.concat("/").concat(version).concat("/binaries/").concat(file.as_str());
    (url, file)
}

impl Installer for MavenInstaller {
    open spec fn id_spec(&self) -> Seq<char> {
        "maven"@
    }

    open spec fn download_spec(&self, config: ConfigView) -> (Seq<char>, Seq<char>) {
        build_url_spec(config.mirrors_maven, or_default(config.versions_maven, MAVEN_VERSION_DEFAULT@))
    }

    open spec fn env_spec(&self, install_path: Seq<char>, config: ConfigView) -> Seq<EnvChange> {
        seq![EnvChange::SetVar("MAVEN_HOME"@, install_path), EnvChange::AppendPath(joined(install_path, "bin"@))]
    }

    /// It runs on a JDK.
    open spec fn dir_spec(&self, config: ConfigView) -> Seq<char> {
        joined(joined(config.root_dir, "tools"@), "maven"@)
    }

    open spec fn deps_spec(&self) -> Seq<Seq<char>> {
        seq!["jdk"@]
    }

    fn info(&self) -> (r: ToolInfo) {
        ToolInfo { id: "maven", name: "Maven", description: "Apache Maven 构建工具 (Java)" }
    }

    fn resolve_download(&self, config: &HudoConfig) -> (r: (String, String)) {
        let version = value_or(&config.versions.maven, MAVEN_VERSION_DEFAULT);
        build_url(config, version.as_str())
    }

    fn env_actions(&self, install_path: &str, config: &HudoConfig) -> (r: Vec<EnvAction>) {
        let v = then(no_actions(), set_var("MAVEN_HOME", String::from_str(install_path)));
        then(v, append_path(join_path(install_path, "bin")))
    }

    fn dependencies(&self) -> (r: Vec<String>) {
        depends_on("jdk")
    }

    fn install_dir(&self, config: &HudoConfig) -> (r: String) {
        join_path(config.tools_dir().as_str(), "maven")
    }
}

} // verus!
