use vstd::prelude::*;

verus! {

broadcast use vstd::string::group_string_axioms;

/// The API address used when the settings name none.
pub fn default_api_base() -> (r: String)
    ensures
        r@ == "https://api.openai.com/v1"@,
{
    "https://api.openai.com/v1".to_string()
}

/// The model used when the settings name none.
pub fn default_model() -> (r: String)
    ensures
        r@ == "gpt-4o"@,
{
    "gpt-4o".to_string()
}

/// The thread count used when the settings name none.
pub fn default_max_threads() -> (r: usize)
    ensures
        r == 4,
{
    4
}

/// Whether an API key was set.
pub fn api_key_is_set(api_key: &str) -> (r: bool)
    ensures
        r == (api_key@.len() > 0),
{
    api_key.unicode_len() > 0
}

/// A business metric of a project.
#[derive(Debug, Clone)]
pub struct MetricDefinition {
    pub name: String,
    pub description: String,
    pub sql_expression: Option<String>,
}

/// A data-cleaning rule of a project.
#[derive(Debug, Clone)]
pub struct CleaningRule {
    pub name: String,
    pub target: String,
    pub description: String,
    pub sql_transform: Option<String>,
}

/// A view that a project defines.
#[derive(Debug, Clone)]
pub struct ViewDefinition {
    pub name: String,
    pub source: String,
    pub sql: String,
}

/// The configuration of one project, kept in `config.yaml` at its root.
#[derive(Debug, Clone)]
pub struct ProjectConfig {
    pub name: String,
    pub industry: String,
    pub analyst_role: String,
    pub metrics: Vec<MetricDefinition>,
    pub cleaning_rules: Vec<CleaningRule>,
    pub views: Vec<ViewDefinition>,
}

/// A path component that `Path::join` appends as it is: not empty, and free of
/// separators and drive markers.
pub open spec fn plain_component(part: Seq<char>) -> bool {
    &&& part.len() > 0
    &&& forall|i: int| 0 <= i < part.len() ==> part[i] != '/' && part[i] != '\\' && part[i] != ':'
}

/// Whether `c` separates path components on some platform.
pub open spec fn is_separator(c: char) -> bool {
    c == '/' || c == '\\'
}

/// A base path that no platform reads as a network share or a verbatim path (those
/// begin with two separators, and some platforms rewrite what is joined to them).
pub open spec fn ordinary_base(base: Seq<char>) -> bool {
    !(base.len() >= 2 && is_separator(base[0]) && is_separator(base[1]))
}

/// A base path that `Path::join` extends with exactly one separator on every platform:
/// ordinary, not empty, not ending in a separator, and free of drive markers.
pub open spec fn separable_base(base: Seq<char>) -> bool {
    &&& ordinary_base(base)
    &&& base.len() > 0
    &&& !is_separator(base.last())
    &&& forall|i: int| 0 <= i < base.len() ==> base[i] != ':'
}

/// `Path::new(base).join(part)`, written back as text. On every platform, joining a
/// plain component to an ordinary base appends it, with one separator between them or
/// none: none after an empty base, one after a base that does not end in a separator
/// (and names no drive). Which separator the platform writes, and what a base that
/// begins with two separators becomes, the contract does not say.
#[verifier::external_body]
fn join_path(base: &str, part: &str) -> (r: String)
    requires
        plain_component(part@),
    ensures
        ordinary_base(base@) ==> r@ == base@ + part@ || r@ == base@ + seq!['/'] + part@ || r@ == base@ + seq!['\\'] + part@,
        base@.len() == 0 ==> r@ == part@,
        separable_base(base@) ==> r@ == base@ + seq!['/'] + part@ || r@ == base@ + seq!['\\'] + part@,
{
    std::path::Path::new(base).join(part).to_string_lossy().into_owned()
}

impl ProjectConfig {
    /// The name of a project's hidden directory.
    pub const DUCKPILOT_DIR: &'static str = ".duckpilot";

    /// The name of a project's configuration file.
    pub const CONFIG_FILE: &'static str = "config.yaml";

    /// The project's hidden directory `<root>/.duckpilot`.
    pub fn duckpilot_dir(project_root: &str) -> (r: String)
        ensures
            ordinary_base(project_root@) ==> r@ == project_root@ + ".duckpilot"@ || r@ == project_root@ + seq!['/'] + ".duckpilot"@
                || r@ == project_root@ + seq!['\\'] + ".duckpilot"@,
            project_root@.len() == 0 ==> r@ == ".duckpilot"@,
            separable_base(project_root@) ==> r@ == project_root@ + seq!['/'] + ".duckpilot"@
                || r@ == project_root@ + seq!['\\'] + ".duckpilot"@,
    {
        proof {
            reveal_strlit(".duckpilot");
        }
        join_path(project_root, Self::DUCKPILOT_DIR)
    }

    /// The project's configuration file `<root>/config.yaml`.
    pub fn config_path(project_root: &str) -> (r: String)
        ensures
            ordinary_base(project_root@) ==> r@ == project_root@ + "config.yaml"@ || r@ == project_root@ + seq!['/'] + "config.yaml"@
                || r@ == project_root@ + seq!['\\'] + "config.yaml"@,
            project_root@.len() == 0 ==> r@ == "config.yaml"@,
            separable_base(project_root@) ==> r@ == project_root@ + seq!['/'] + "config.yaml"@
                || r@ == project_root@ + seq!['\\'] + "config.yaml"@,
    {
        proof {
            reveal_strlit("config.yaml");
        }
        join_path(project_root, Self::CONFIG_FILE)
    }
}

impl Default for ProjectConfig {
    /// An unnamed project whose analyst is a data analyst, with no metrics, rules or views.
    fn default() -> (r: Self)
        ensures
            r.name@.len() == 0,
            r.industry@.len() == 0,
            r.analyst_role@ == "数据分析师"@,
            r.metrics@.len() == 0,
            r.cleaning_rules@.len() == 0,
            r.views@.len() == 0,
    {
        ProjectConfig {
            name: String::new(),
            industry: String::new(),
            analyst_role: "数据分析师".to_string(),
            metrics: Vec::new(),
            cleaning_rules: Vec::new(),
            views: Vec::new(),
        }
    }
}

} // verus!
