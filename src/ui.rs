//! How tools are grouped when they are listed.
use vstd::prelude::*;
use crate::text::str_eq;

verus! {

/// The group a tool is listed under.
#[derive(Debug, Clone, Copy, PartialEq, Eq)]
pub enum ToolCategory {
    Tool,
    Language,
    Database,
    Ide,
}

/// The group of the tool `id`; an unknown id is listed with the tools.
pub open spec fn category_of(id: Seq<char>) -> ToolCategory {
    if id == "git"@ || id == "gh"@ {
        ToolCategory::Tool
    } else if id == "uv"@ || id == "nodejs"@ || id == "bun"@ || id == "miniconda"@ || id == "rust"@ || id == "go"@
        || id == "jdk"@ || id == "c"@ || id == "maven"@ || id == "gradle"@ {
        ToolCategory::Language
    } else if id == "mysql"@ || id == "pgsql"@ {
        ToolCategory::Database
    } else if id == "vscode"@ || id == "pycharm"@ || id == "chrome"@ {
        ToolCategory::Ide
    } else {
        ToolCategory::Tool
    }
}

impl ToolCategory {
    /// The heading of the group.
    pub fn label(&self) -> (r: &'static str)
        ensures
            r@ == match self {
                ToolCategory::Tool => "工具"@,
                ToolCategory::Language => "语言环境"@,
                ToolCategory::Database => "数据库"@,
                ToolCategory::Ide => "编辑器 / IDE"@,
            },
    {
        match self {
            ToolCategory::Tool => "工具",
            ToolCategory::Language => "语言环境",
            ToolCategory::Database => "数据库",
            ToolCategory::Ide => "编辑器 / IDE",
        }
    }

    /// The short mark of the group.
    pub fn icon(&self) -> (r: &'static str)
        ensures
            r@ == match self {
                ToolCategory::Tool => "[T]"@,
                ToolCategory::Language => "[L]"@,
                ToolCategory::Database => "[D]"@,
                ToolCategory::Ide => "[E]"@,
            },
    {
        match self {
            ToolCategory::Tool => "[T]",
            ToolCategory::Language => "[L]",
            ToolCategory::Database => "[D]",
            ToolCategory::Ide => "[E]",
        }
    }

    /// The group of the tool `id`.
    pub fn from_id(id: &str) -> (r: Self)
        ensures
            r == category_of(id@),
    {
        if str_eq(id, "git") || str_eq(id, "gh") {
            ToolCategory::Tool
        } else if str_eq(id, "uv") || str_eq(id, "nodejs") || str_eq(id, "bun") || str_eq(id, "miniconda") || str_eq(id, "rust")
            || str_eq(id, "go") || str_eq(id, "jdk") || str_eq(id, "c") || str_eq(id, "maven") || str_eq(id, "gradle") {
            ToolCategory::Language
        } else if str_eq(id, "mysql") || str_eq(id, "pgsql") {
            ToolCategory::Database
        } else if str_eq(id, "vscode") || str_eq(id, "pycharm") || str_eq(id, "chrome") {
            ToolCategory::Ide
        } else {
            ToolCategory::Tool
        }
    }
}

} // verus!
