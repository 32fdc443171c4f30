use vstd::prelude::*;

use crate::json::{fields_model, lemma_fields_model, Json, JsonModel};
use crate::message::{jstr, json_str};

verus! {

/// Lists the tables of the database.
#[derive(Debug, Clone, Copy, PartialEq, Eq)]
pub struct ListTablesTool;

/// Describes the columns of one table.
#[derive(Debug, Clone, Copy, PartialEq, Eq)]
pub struct DescribeTableTool;

/// Runs one read-only SQL query.
#[derive(Debug, Clone, Copy, PartialEq, Eq)]
pub struct ExecuteQueryTool;

/// Shows the first rows of one table.
#[derive(Debug, Clone, Copy, PartialEq, Eq)]
pub struct SampleDataTool;

/// Loads a table again from its file with reader options.
#[derive(Debug, Clone, Copy, PartialEq, Eq)]
pub struct RepairTableTool;

/// Every built-in tool of the agent.
#[derive(Debug, Clone, Copy, PartialEq, Eq)]
pub enum AgentTool {
    ListTables(ListTablesTool),
    DescribeTable(DescribeTableTool),
    ExecuteQuery(ExecuteQueryTool),
    SampleData(SampleDataTool),
    RepairTable(RepairTableTool),
}

pub open spec fn list_tables_name() -> Seq<char> { "list_tables"@ }
pub open spec fn describe_table_name() -> Seq<char> { "describe_table"@ }
pub open spec fn execute_query_name() -> Seq<char> { "execute_query"@ }
pub open spec fn sample_data_name() -> Seq<char> { "sample_data"@ }
pub open spec fn repair_table_name() -> Seq<char> { "repair_table_schema"@ }

pub open spec fn list_tables_desc() -> Seq<char> {
    "列出数据库中所有可用的表名及行数。当你需要了解有哪些数据可用时使用此工具。"@
}
pub open spec fn describe_table_desc() -> Seq<char> {
    "查看指定表的结构信息，包括列名、数据类型、是否可为空。"@
}
pub open spec fn execute_query_desc() -> Seq<char> {
    "在 DuckDB 上执行 SQL 查询并返回结果。结果最多返回 200 行。"@
}
pub open spec fn sample_data_desc() -> Seq<char> {
    "查看指定表的前 N 行样本数据。默认返回 10 行。"@
}
pub open spec fn repair_table_desc() -> Seq<char> {
    "修复表结构检测错误。当你发现某个表的列名不对、有大量空行或数据错位时使用此工具。你可以指定标题行位置、数据范围等参数重新加载文件。"@
}

impl ListTablesTool {
    pub const NAME: &'static str = "list_tables";
    pub const DESC: &'static str = "列出数据库中所有可用的表名及行数。当你需要了解有哪些数据可用时使用此工具。";

    pub fn name(&self) -> (r: &str)
        ensures
            r@ == list_tables_name(),
    {
        Self::NAME
    }

    pub fn description(&self) -> (r: &str)
        ensures
            r@ == list_tables_desc(),
    {
        Self::DESC
    }
}

impl DescribeTableTool {
    pub const NAME: &'static str = "describe_table";
    pub const DESC: &'static str = "查看指定表的结构信息，包括列名、数据类型、是否可为空。";

    pub fn name(&self) -> (r: &str)
        ensures
            r@ == describe_table_name(),
    {
        Self::NAME
    }

    pub fn description(&self) -> (r: &str)
        ensures
            r@ == describe_table_desc(),
    {
        Self::DESC
    }
}

impl ExecuteQueryTool {
    pub const NAME: &'static str = "execute_query";
    pub const DESC: &'static str = "在 DuckDB 上执行 SQL 查询并返回结果。结果最多返回 200 行。";

    pub fn name(&self) -> (r: &str)
        ensures
            r@ == execute_query_name(),
    {
        Self::NAME
    }

    pub fn description(&self) -> (r: &str)
        ensures
            r@ == execute_query_desc(),
    {
        Self::DESC
    }
}

impl SampleDataTool {
    pub const NAME: &'static str = "sample_data";
    pub const DESC: &'static str = "查看指定表的前 N 行样本数据。默认返回 10 行。";

    pub fn name(&self) -> (r: &str)
        ensures
            r@ == sample_data_name(),
    {
        Self::NAME
    }

    pub fn description(&self) -> (r: &str)
        ensures
            r@ == sample_data_desc(),
    {
        Self::DESC
    }
}

impl RepairTableTool {
    pub const NAME: &'static str = "repair_table_schema";
    pub const DESC: &'static str = "修复表结构检测错误。当你发现某个表的列名不对、有大量空行或数据错位时使用此工具。你可以指定标题行位置、数据范围等参数重新加载文件。";

    pub fn name(&self) -> (r: &str)
        ensures
            r@ == repair_table_name(),
    {
        Self::NAME
    }

    pub fn description(&self) -> (r: &str)
        ensures
            r@ == repair_table_desc(),
    {
        Self::DESC
    }
}

} // verus!

verus! {

/// A property of a tool's parameter schema: its JSON type and what it means.
pub open spec fn prop_model(ty: Seq<char>, desc: Seq<char>) -> JsonModel {
    JsonModel::Object(seq![("type"@, jstr(ty)), ("description"@, jstr(desc))])
}

/// A tool's parameter schema: an object with the given properties, of which `required` must be given.
pub open spec fn schema_model(props: Seq<(Seq<char>, JsonModel)>, required: Seq<Seq<char>>) -> JsonModel {
    JsonModel::Object(
        seq![
            ("type"@, jstr("object"@)),
            ("properties"@, JsonModel::Object(props)),
            ("required"@, JsonModel::Array(required.map_values(|r: Seq<char>| jstr(r)))),
        ],
    )
}

pub open spec fn table_name_prop(desc: Seq<char>) -> (Seq<char>, JsonModel) {
    ("table_name"@, prop_model("string"@, desc))
}

pub open spec fn list_tables_params() -> JsonModel {
    schema_model(seq![], seq![])
}

pub open spec fn describe_table_params() -> JsonModel {
    schema_model(seq![table_name_prop("要查看的表名"@)], seq!["table_name"@])
}

pub open spec fn execute_query_params() -> JsonModel {
    schema_model(seq![("sql"@, prop_model("string"@, "要执行的 DuckDB SQL 语句"@))], seq!["sql"@])
}

pub open spec fn sample_data_params() -> JsonModel {
    schema_model(
        seq![table_name_prop("要查看的表名"@), ("limit"@, prop_model("integer"@, "返回的行数，默认 10"@))],
        seq!["table_name"@],
    )
}

pub open spec fn repair_table_params() -> JsonModel {
    schema_model(
        seq![
            table_name_prop("要修复的表名"@),
            ("file_path"@, prop_model("string"@, "原始文件路径（可从 list_tables 中获取）"@)),
            ("options"@, prop_model("string"@, "DuckDB 读取函数的附加参数字符串。例如对于 Excel: 'header=true, range=\'A3:Z100\''；对于 CSV: 'skip=2, delim=\',\''"@)),
        ],
        seq!["table_name"@, "file_path"@, "options"@],
    )
}

fn prop(ty: &str, desc: &str) -> (r: Json)
    ensures
        r.model() == prop_model(ty@, desc@),
{
    let fields = vec![(ty_key(), json_str(ty)), (desc_key(), json_str(desc))];
    proof {
        lemma_fields_model(fields@);
        assert(fields_model(fields@) =~= prop_model(ty@, desc@)->Object_0);
    }
    Json::Object(fields)
}

fn ty_key() -> (r: String)
    ensures
        r@ == "type"@,
{
    "type".to_string()
}

fn desc_key() -> (r: String)
    ensures
        r@ == "description"@,
{
    "description".to_string()
}

fn schema(props: Vec<(String, Json)>, required: Vec<&str>) -> (r: Json)
    ensures
        r.model() == schema_model(fields_model(props@), required@.map_values(|s: &str| s@)),
{
    let mut req: Vec<Json> = Vec::new();
    let mut i: usize = 0;
    while i < required.len()
        invariant
            i <= required.len(),
            req.len() == i,
            forall|j: int| 0 <= j < i ==> (#[trigger] req@[j]).model() == jstr(required@[j]@),
        decreases required.len() - i,
    {
        req.push(json_str(required[i]));
        i = i + 1;
    }
    let ghost pm = fields_model(props@);
    let fields = vec![
        (ty_key(), json_str("object")),
        ("properties".to_string(), Json::Object(props)),
        ("required".to_string(), Json::Array(req)),
    ];
    proof {
        crate::json::lemma_items_model(req@);
        assert(crate::json::items_model(req@) =~= required@.map_values(|s: &str| s@).map_values(|r: Seq<char>| jstr(r)));
        lemma_fields_model(fields@);
        assert(fields_model(fields@) =~= schema_model(pm, required@.map_values(|s: &str| s@))->Object_0);
    }
    Json::Object(fields)
}

fn table_name_property(desc: &str) -> (r: (String, Json))
    ensures
        (r.0@, r.1.model()) == table_name_prop(desc@),
{
    ("table_name".to_string(), prop("string", desc))
}

impl ListTablesTool {
    pub fn parameters(&self) -> (r: Json)
        ensures
            r.model() == list_tables_params(),
    {
        let props: Vec<(String, Json)> = Vec::new();
        let r = schema(props, Vec::new());
        proof {
            assert(fields_model(props@) =~= seq![]);
            assert(Seq::<&str>::empty().map_values(|s: &str| s@) =~= Seq::<Seq<char>>::empty());
        }
        r
    }
}

impl DescribeTableTool {
    pub fn parameters(&self) -> (r: Json)
        ensures
            r.model() == describe_table_params(),
    {
        let props = vec![table_name_property("要查看的表名")];
        let required = vec!["table_name"];
        proof {
            lemma_fields_model(props@);
            assert(fields_model(props@) =~= seq![table_name_prop("要查看的表名"@)]);
            assert(required@.map_values(|s: &str| s@) =~= seq!["table_name"@]);
        }
        schema(props, required)
    }
}

impl ExecuteQueryTool {
    pub fn parameters(&self) -> (r: Json)
        ensures
            r.model() == execute_query_params(),
    {
        let props = vec![("sql".to_string(), prop("string", "要执行的 DuckDB SQL 语句"))];
        let required = vec!["sql"];
        proof {
            lemma_fields_model(props@);
            assert(fields_model(props@) =~= seq![("sql"@, prop_model("string"@, "要执行的 DuckDB SQL 语句"@))]);
            assert(required@.map_values(|s: &str| s@) =~= seq!["sql"@]);
        }
        schema(props, required)
    }
}

impl SampleDataTool {
    pub fn parameters(&self) -> (r: Json)
        ensures
            r.model() == sample_data_params(),
    {
        let props = vec![
            table_name_property("要查看的表名"),
            ("limit".to_string(), prop("integer", "返回的行数，默认 10")),
        ];
        let required = vec!["table_name"];
        proof {
            lemma_fields_model(props@);
            assert(fields_model(props@) =~= seq![
                table_name_prop("要查看的表名"@),
                ("limit"@, prop_model("integer"@, "返回的行数，默认 10"@)),
            ]);
            assert(required@.map_values(|s: &str| s@) =~= seq!["table_name"@]);
        }
        schema(props, required)
    }
}

impl RepairTableTool {
    pub fn parameters(&self) -> (r: Json)
        ensures
            r.model() == repair_table_params(),
    {
        let props = vec![
            table_name_property("要修复的表名"),
            ("file_path".to_string(), prop("string", "原始文件路径（可从 list_tables 中获取）")),
            (
                "options".to_string(),
                prop("string", "DuckDB 读取函数的附加参数字符串。例如对于 Excel: 'header=true, range=\'A3:Z100\''；对于 CSV: 'skip=2, delim=\',\''"),
            ),
        ];
        let required = vec!["table_name", "file_path", "options"];
        proof {
            lemma_fields_model(props@);
            assert(fields_model(props@) =~= seq![
                table_name_prop("要修复的表名"@),
                ("file_path"@, prop_model("string"@, "原始文件路径（可从 list_tables 中获取）"@)),
                ("options"@, prop_model("string"@, "DuckDB 读取函数的附加参数字符串。例如对于 Excel: 'header=true, range=\'A3:Z100\''；对于 CSV: 'skip=2, delim=\',\''"@)),
            ]);
            assert(required@.map_values(|s: &str| s@) =~= seq!["table_name"@, "file_path"@, "options"@]);
        }
        schema(props, required)
    }
}

} // verus!

verus! {

impl AgentTool {
    pub open spec fn spec_name(self) -> Seq<char> {
        match self {
            AgentTool::ListTables(_) => list_tables_name(),
            AgentTool::DescribeTable(_) => describe_table_name(),
            AgentTool::ExecuteQuery(_) => execute_query_name(),
            AgentTool::SampleData(_) => sample_data_name(),
            AgentTool::RepairTable(_) => repair_table_name(),
        }
    }

    pub open spec fn spec_description(self) -> Seq<char> {
        match self {
            AgentTool::ListTables(_) => list_tables_desc(),
            AgentTool::DescribeTable(_) => describe_table_desc(),
            AgentTool::ExecuteQuery(_) => execute_query_desc(),
            AgentTool::SampleData(_) => sample_data_desc(),
            AgentTool::RepairTable(_) => repair_table_desc(),
        }
    }

    pub open spec fn spec_parameters(self) -> JsonModel {
        match self {
            AgentTool::ListTables(_) => list_tables_params(),
            AgentTool::DescribeTable(_) => describe_table_params(),
            AgentTool::ExecuteQuery(_) => execute_query_params(),
            AgentTool::SampleData(_) => sample_data_params(),
            AgentTool::RepairTable(_) => repair_table_params(),
        }
    }

    pub fn name(&self) -> (r: &str)
        ensures
            r@ == self.spec_name(),
    {
        match self {
            AgentTool::ListTables(t) => t.name(),
            AgentTool::DescribeTable(t) => t.name(),
            AgentTool::ExecuteQuery(t) => t.name(),
            AgentTool::SampleData(t) => t.name(),
            AgentTool::RepairTable(t) => t.name(),
        }
    }

    pub fn description(&self) -> (r: &str)
        ensures
            r@ == self.spec_description(),
    {
        match self {
            AgentTool::ListTables(t) => t.description(),
            AgentTool::DescribeTable(t) => t.description(),
            AgentTool::ExecuteQuery(t) => t.description(),
            AgentTool::SampleData(t) => t.description(),
            AgentTool::RepairTable(t) => t.description(),
        }
    }

    pub fn parameters(&self) -> (r: Json)
        ensures
            r.model() == self.spec_parameters(),
    {
        match self {
            AgentTool::ListTables(t) => t.parameters(),
            AgentTool::DescribeTable(t) => t.parameters(),
            AgentTool::ExecuteQuery(t) => t.parameters(),
            AgentTool::SampleData(t) => t.parameters(),
            AgentTool::RepairTable(t) => t.parameters(),
        }
    }
}

/// The tools that the agent may call, found by name.
pub struct ToolRegistry {
    tools: Vec<AgentTool>,
}

/// No two tools of a list share a name.
pub open spec fn distinct_names(tools: Seq<AgentTool>) -> bool {
    forall|i: int, j: int| 0 <= i < tools.len() && 0 <= j < tools.len() && i != j ==> tools[i].spec_name() != tools[j].spec_name()
}

/// The name-to-tool map that a list of tools with distinct names stands for.
pub open spec fn tools_by_name(tools: Seq<AgentTool>) -> Map<Seq<char>, AgentTool> {
    Map::new(
        |k: Seq<char>| exists|i: int| 0 <= i < tools.len() && tools[i].spec_name() == k,
        |k: Seq<char>| tools[choose|i: int| 0 <= i < tools.len() && tools[i].spec_name() == k],
    )
}

impl View for ToolRegistry {
    type V = Map<Seq<char>, AgentTool>;

    closed spec fn view(&self) -> Map<Seq<char>, AgentTool> {
        tools_by_name(self.tools@)
    }
}

proof fn lemma_by_name_at(tools: Seq<AgentTool>, i: int)
    requires
        distinct_names(tools),
        0 <= i < tools.len(),
    ensures
        tools_by_name(tools).contains_key(tools[i].spec_name()),
        tools_by_name(tools)[tools[i].spec_name()] == tools[i],
{
    let k = tools[i].spec_name();
    assert(tools_by_name(tools).dom().contains(k));
    let c = choose|c: int| 0 <= c < tools.len() && tools[c].spec_name() == k;
    assert(c == i);
}

impl ToolRegistry {
    #[verifier::type_invariant]
    closed spec fn names_distinct(self) -> bool {
        distinct_names(self.tools@)
    }

    /// Every registered tool carries the name it is registered under.
    pub proof fn lemma_keys_are_names(&self, k: Seq<char>)
        requires
            self@.contains_key(k),
        ensures
            self@[k].spec_name() == k,
    {
        let c = choose|c: int| 0 <= c < self.tools@.len() && self.tools@[c].spec_name() == k;
    }

    pub fn new() -> (r: Self)
        ensures
            r@ == Map::<Seq<char>, AgentTool>::empty(),
    {
        let r = ToolRegistry { tools: Vec::new() };
        assert(r@ =~= Map::<Seq<char>, AgentTool>::empty());
        r
    }

    /// Adds a tool under its name, replacing any tool of that name.
    pub fn register(&mut self, tool: AgentTool)
        ensures
            final(self)@ == old(self)@.insert(tool.spec_name(), tool),
    {
        proof {
            use_type_invariant(&*self);
        }
        let ghost old_tools = self.tools@;
        let name = tool.name();
        let mut i: usize = 0;
        while i < self.tools.len()
            invariant
                self.tools@ == old_tools,
                old(self).tools@ == old_tools,
                distinct_names(old_tools),
                i <= old_tools.len(),
                name@ == tool.spec_name(),
                forall|j: int| 0 <= j < i ==> old_tools[j].spec_name() != name@,
            decreases old_tools.len() - i,
        {
            if crate::text::str_eq(self.tools[i].name(), name) {
                let mut tools: Vec<AgentTool> = Vec::new();
                std::mem::swap(&mut tools, &mut self.tools);
                tools.set(i, tool);
                proof {
                    assert(distinct_names(tools@)) by {
                        assert forall|a: int, b: int| 0 <= a < tools@.len() && 0 <= b < tools@.len() && a != b implies tools@[a].spec_name() != tools@[b].spec_name() by {
                            if a != i && b != i {
                                assert(tools@[a] == old_tools[a] && tools@[b] == old_tools[b]);
                            } else if a == i {
                                assert(tools@[b] == old_tools[b]);
                            } else {
                                assert(tools@[a] == old_tools[a]);
                            }
                        }
                    }
                    assert forall|k: Seq<char>| #![auto] tools_by_name(tools@).contains_key(k) <==> tools_by_name(old_tools).insert(tool.spec_name(), tool).contains_key(k) by {
                        if tools_by_name(old_tools).contains_key(k) {
                            let c = choose|c: int| 0 <= c < old_tools.len() && old_tools[c].spec_name() == k;
                            if c != i {
                                assert(tools@[c] == old_tools[c]);
                            }
                        }
                        if tools_by_name(tools@).contains_key(k) {
                            let c = choose|c: int| 0 <= c < tools@.len() && tools@[c].spec_name() == k;
                            if c != i {
                                assert(tools@[c] == old_tools[c]);
                            }
                        }
                        if k == tool.spec_name() {
                            assert(tools@[i as int] == tool);
                        }
                    }
                    assert forall|k: Seq<char>| #![auto] tools_by_name(tools@).contains_key(k) implies tools_by_name(tools@)[k] == tools_by_name(old_tools).insert(tool.spec_name(), tool)[k] by {
                        let c = choose|c: int| 0 <= c < tools@.len() && tools@[c].spec_name() == k;
                        lemma_by_name_at(tools@, c);
                        if c != i {
                            assert(tools@[c] == old_tools[c]);
                            lemma_by_name_at(old_tools, c);
                        }
                    }
                    assert(tools_by_name(tools@) =~= tools_by_name(old_tools).insert(tool.spec_name(), tool));
                }
                self.tools = tools;
                return;
            }
            i = i + 1;
        }
        let mut tools: Vec<AgentTool> = Vec::new();
        std::mem::swap(&mut tools, &mut self.tools);
        tools.push(tool);
        proof {
            let tools = tools@;
            assert(tools == old_tools.push(tool));
            assert forall|k: Seq<char>| #![auto] tools_by_name(tools).contains_key(k) <==> tools_by_name(old_tools).insert(tool.spec_name(), tool).contains_key(k) by {
                if tools_by_name(old_tools).contains_key(k) {
                    let c = choose|c: int| 0 <= c < old_tools.len() && old_tools[c].spec_name() == k;
                    assert(tools[c] == old_tools[c]);
                }
                if k == tool.spec_name() {
                    assert(tools[old_tools.len() as int] == tool);
                }
                if tools_by_name(tools).contains_key(k) {
                    let c = choose|c: int| 0 <= c < tools.len() && tools[c].spec_name() == k;
                    if c < old_tools.len() {
                        assert(tools[c] == old_tools[c]);
                    }
                }
            }
            assert forall|k: Seq<char>| #![auto] tools_by_name(tools).contains_key(k) implies tools_by_name(tools)[k] == tools_by_name(old_tools).insert(tool.spec_name(), tool)[k] by {
                let c = choose|c: int| 0 <= c < tools.len() && tools[c].spec_name() == k;
                lemma_by_name_at(tools, c);
                if c < old_tools.len() {
                    assert(tools[c] == old_tools[c]);
                    lemma_by_name_at(old_tools, c);
                }
            }
            assert(tools_by_name(tools) =~= tools_by_name(old_tools).insert(tool.spec_name(), tool));
            assert(distinct_names(tools)) by {
                assert forall|a: int, b: int| 0 <= a < tools.len() && 0 <= b < tools.len() && a != b implies tools[a].spec_name() != tools[b].spec_name() by {
                    if a < old_tools.len() {
                        assert(tools[a] == old_tools[a]);
                    }
                    if b < old_tools.len() {
                        assert(tools[b] == old_tools[b]);
                    }
                }
            }
        }
        self.tools = tools;
    }

    /// The tool registered under `name`.
    pub fn get(&self, name: &str) -> (r: Option<&AgentTool>)
        ensures
            match r {
                Some(t) => self@.contains_key(name@) && self@[name@] == *t,
                None => !self@.contains_key(name@),
            },
    {
        proof {
            use_type_invariant(self);
        }
        let mut i: usize = 0;
        while i < self.tools.len()
            invariant
                i <= self.tools@.len(),
                distinct_names(self.tools@),
                forall|j: int| 0 <= j < i ==> self.tools@[j].spec_name() != name@,
            decreases self.tools@.len() - i,
        {
            if crate::text::str_eq(self.tools[i].name(), name) {
                proof {
                    lemma_by_name_at(self.tools@, i as int);
                }
                return Some(&self.tools[i]);
            }
            i = i + 1;
        }
        None
    }
}

/// A registry that holds every built-in tool.
/// The tools the agent starts with, in the order they are registered.
pub open spec fn builtin_tools() -> Seq<AgentTool> {
    seq![
        AgentTool::ListTables(ListTablesTool),
        AgentTool::DescribeTable(DescribeTableTool),
        AgentTool::ExecuteQuery(ExecuteQueryTool),
        AgentTool::SampleData(SampleDataTool),
        AgentTool::RepairTable(RepairTableTool),
    ]
}

pub fn build_registry() -> (r: ToolRegistry)
    ensures
        r@ == Map::<Seq<char>, AgentTool>::empty()
            .insert(list_tables_name(), AgentTool::ListTables(ListTablesTool))
            .insert(describe_table_name(), AgentTool::DescribeTable(DescribeTableTool))
            .insert(execute_query_name(), AgentTool::ExecuteQuery(ExecuteQueryTool))
            .insert(sample_data_name(), AgentTool::SampleData(SampleDataTool))
            .insert(repair_table_name(), AgentTool::RepairTable(RepairTableTool)),
        r@ == registered(builtin_tools()),
{
    proof {
        reveal_with_fuel(registered, 6);
        let t = builtin_tools();
        assert(t.drop_last().drop_last().drop_last().drop_last().drop_last() =~= Seq::<AgentTool>::empty());
        assert(t.drop_last().drop_last().drop_last().drop_last() =~= seq![t[0]]);
        assert(t.drop_last().drop_last().drop_last() =~= seq![t[0], t[1]]);
        assert(t.drop_last().drop_last() =~= seq![t[0], t[1], t[2]]);
        assert(t.drop_last() =~= seq![t[0], t[1], t[2], t[3]]);
    }
    let mut reg = ToolRegistry::new();
    reg.register(AgentTool::ListTables(ListTablesTool));
    reg.register(AgentTool::DescribeTable(DescribeTableTool));
    reg.register(AgentTool::ExecuteQuery(ExecuteQueryTool));
    reg.register(AgentTool::SampleData(SampleDataTool));
    reg.register(AgentTool::RepairTable(RepairTableTool));
    reg
}

} // verus!

verus! {

/// How a tool is announced in an OpenAI-style `tools` array.
pub open spec fn tool_api(t: AgentTool) -> JsonModel {
    JsonModel::Object(
        seq![
            ("type"@, jstr("function"@)),
            (
                "function"@,
                JsonModel::Object(
                    seq![
                        ("name"@, jstr(t.spec_name())),
                        ("description"@, jstr(t.spec_description())),
                        ("parameters"@, t.spec_parameters()),
                    ],
                ),
            ),
        ],
    )
}

/// `order` lists the tools of `m`, each once, in increasing order of name.
pub open spec fn sorted_listing(m: Map<Seq<char>, AgentTool>, order: Seq<AgentTool>) -> bool {
    &&& forall|a: int, b: int| 0 <= a < b < order.len() ==> crate::text::text_less(order[a].spec_name(), order[b].spec_name())
    &&& forall|a: int| 0 <= a < order.len() ==> m.contains_key(#[trigger] order[a].spec_name()) && m[order[a].spec_name()] == order[a]
    &&& forall|k: Seq<char>| m.contains_key(k) ==> exists|a: int| 0 <= a < order.len() && #[trigger] order[a].spec_name() == k
}

/// The listing of the registry holds each registered name once: as many entries as
/// there are names.
pub proof fn lemma_listing_length(m: Map<Seq<char>, AgentTool>, order: Seq<AgentTool>)
    requires
        sorted_listing(m, order),
        m.dom().finite(),
    ensures
        order.len() == m.dom().len(),
{
    let names = order.map_values(|t: AgentTool| t.spec_name());
    assert forall|a: int, b: int| 0 <= a < names.len() && 0 <= b < names.len() && a != b implies names[a] != names[b] by {
        if a < b {
            crate::text::lemma_text_less_irreflexive(names[a]);
        } else {
            crate::text::lemma_text_less_irreflexive(names[b]);
        }
    }
    assert(names.no_duplicates());
    names.unique_seq_to_set();
    assert forall|k: Seq<char>| #[trigger] names.to_set().contains(k) <==> m.dom().contains(k) by {
        if m.dom().contains(k) {
            let a = choose|a: int| 0 <= a < order.len() && #[trigger] order[a].spec_name() == k;
            assert(names[a] == k);
        }
        if names.to_set().contains(k) {
            let a = choose|a: int| 0 <= a < names.len() && names[a] == k;
            assert(m.contains_key(order[a].spec_name()));
        }
    }
    assert(names.to_set() =~= m.dom());
}

/// The map that registering `tools` in turn into a new registry makes.
pub open spec fn registered(tools: Seq<AgentTool>) -> Map<Seq<char>, AgentTool>
    decreases tools.len(),
{
    if tools.len() == 0 {
        Map::empty()
    } else {
        registered(tools.drop_last()).insert(tools.last().spec_name(), tools.last())
    }
}

/// After tools are registered in turn, a name is found exactly when some tool was
/// registered under it.
pub proof fn lemma_registered_names(tools: Seq<AgentTool>, name: Seq<char>)
    ensures
        registered(tools).contains_key(name) <==> exists|i: int| 0 <= i < tools.len() && #[trigger] tools[i].spec_name() == name,
    decreases tools.len(),
{
    if tools.len() > 0 {
        let rest = tools.drop_last();
        lemma_registered_names(rest, name);
        if rest.len() > 0 && registered(rest).contains_key(name) {
            let i = choose|i: int| 0 <= i < rest.len() && #[trigger] rest[i].spec_name() == name;
            assert(tools[i] == rest[i]);
        }
        if exists|i: int| 0 <= i < tools.len() && #[trigger] tools[i].spec_name() == name {
            let i = choose|i: int| 0 <= i < tools.len() && #[trigger] tools[i].spec_name() == name;
            if i < tools.len() - 1 {
                assert(rest[i] == tools[i]);
            }
        }
    }
}

/// After tools are registered in turn, a name finds the last tool registered under it.
pub proof fn lemma_registered_last(tools: Seq<AgentTool>, name: Seq<char>, i: int)
    requires
        0 <= i < tools.len(),
        tools[i].spec_name() == name,
        forall|j: int| i < j < tools.len() ==> #[trigger] tools[j].spec_name() != name,
    ensures
        registered(tools).contains_key(name),
        registered(tools)[name] == tools[i],
    decreases tools.len(),
{
    let rest = tools.drop_last();
    if i < tools.len() - 1 {
        assert(tools[tools.len() - 1].spec_name() != name);
        assert forall|j: int| i < j < rest.len() implies #[trigger] rest[j].spec_name() != name by {
            assert(rest[j] == tools[j]);
        }
        assert(rest[i] == tools[i]);
        lemma_registered_last(rest, name, i);
    }
}

fn tool_to_api(t: &AgentTool) -> (r: Json)
    ensures
        r.model() == tool_api(*t),
{
    let function = vec![
        ("name".to_string(), json_str(t.name())),
        (desc_key(), json_str(t.description())),
        ("parameters".to_string(), t.parameters()),
    ];
    let fields = vec![(ty_key(), json_str("function")), ("function".to_string(), Json::Object(function))];
    proof {
        lemma_fields_model(function@);
        lemma_fields_model(fields@);
        assert(fields_model(function@) =~= tool_api(*t)->Object_0[1].1->Object_0);
        assert(fields_model(fields@) =~= tool_api(*t)->Object_0);
    }
    Json::Object(fields)
}

impl ToolRegistry {
    /// The registered tools in increasing order of name.
    fn sorted_tools(&self) -> (r: Vec<AgentTool>)
        ensures
            sorted_listing(self@, r@),
    {
        proof {
            use_type_invariant(self);
        }
        let ghost tools = self.tools@;
        let mut out: Vec<AgentTool> = Vec::new();
        let mut i: usize = 0;
        while i < self.tools.len()
            invariant
                tools == self.tools@,
                distinct_names(tools),
                i <= tools.len(),
                forall|a: int, b: int| 0 <= a < b < out@.len() ==> crate::text::text_less(out@[a].spec_name(), out@[b].spec_name()),
                forall|a: int| #![trigger out@[a]] 0 <= a < out@.len() ==> exists|j: int| 0 <= j < i && #[trigger] tools[j] == out@[a],
                forall|j: int| #![trigger tools[j]] 0 <= j < i ==> exists|a: int| 0 <= a < out@.len() && out@[a] == tools[j],
            decreases tools.len() - i,
        {
            let t = self.tools[i];
            let name = t.name();
            let mut p: usize = 0;
            while p < out.len() && !crate::text::str_less(name, out[p].name())
                invariant
                    p <= out@.len(),
                    name@ == t.spec_name(),
                    forall|a: int| 0 <= a < p ==> !crate::text::text_less(t.spec_name(), #[trigger] out@[a].spec_name()),
                decreases out@.len() - p,
            {
                p = p + 1;
            }
            let ghost before = out@;
            proof {
                assert forall|a: int| 0 <= a < before.len() implies before[a].spec_name() != t.spec_name() by {
                    let j = choose|j: int| 0 <= j < i && #[trigger] tools[j] == before[a];
                    assert(tools[i as int] == t);
                }
            }
            out.insert(p, t);
            proof {
                assert(out@ == before.insert(p as int, t));
                assert forall|a: int, b: int| 0 <= a < b < out@.len() implies crate::text::text_less(out@[a].spec_name(), out@[b].spec_name()) by {
                    if b < p {
                        assert(out@[a] == before[a] && out@[b] == before[b]);
                    } else if b == p {
                        assert(out@[a] == before[a]);
                        assert(!crate::text::text_less(t.spec_name(), before[a].spec_name()));
                        crate::text::lemma_text_less_total(t.spec_name(), before[a].spec_name());
                    } else if a == p {
                        assert(out@[b] == before[b - 1]);
                        assert(crate::text::text_less(t.spec_name(), before[p as int].spec_name()));
                        if b - 1 > p {
                            crate::text::lemma_text_less_transitive(t.spec_name(), before[p as int].spec_name(), before[b - 1].spec_name());
                        }
                    } else if a < p {
                        assert(out@[a] == before[a] && out@[b] == before[b - 1]);
                    } else {
                        assert(out@[a] == before[a - 1] && out@[b] == before[b - 1]);
                    }
                }
                assert forall|a: int| #![trigger out@[a]] 0 <= a < out@.len() implies exists|j: int| 0 <= j < i + 1 && #[trigger] tools[j] == out@[a] by {
                    if a < p {
                        assert(out@[a] == before[a]);
                        let j = choose|j: int| 0 <= j < i && #[trigger] tools[j] == before[a];
                    } else if a == p {
                        assert(tools[i as int] == out@[a]);
                    } else {
                        assert(out@[a] == before[a - 1]);
                        let j = choose|j: int| 0 <= j < i && #[trigger] tools[j] == before[a - 1];
                    }
                }
                assert forall|j: int| #![trigger tools[j]] 0 <= j < i + 1 implies exists|a: int| 0 <= a < out@.len() && out@[a] == tools[j] by {
                    if j < i {
                        let a = choose|a: int| 0 <= a < before.len() && before[a] == #[trigger] tools[j];
                        if a < p {
                            assert(out@[a] == before[a]);
                        } else {
                            assert(out@[a + 1] == before[a]);
                        }
                    } else {
                        assert(out@[p as int] == tools[j]);
                    }
                }
            }
            i = i + 1;
        }
        proof {
            let m = tools_by_name(tools);
            assert forall|a: int| 0 <= a < out@.len() implies m.contains_key(#[trigger] out@[a].spec_name()) && m[out@[a].spec_name()] == out@[a] by {
                let j = choose|j: int| 0 <= j < i && #[trigger] tools[j] == out@[a];
                lemma_by_name_at(tools, j);
            }
            assert forall|k: Seq<char>| m.contains_key(k) implies exists|a: int| 0 <= a < out@.len() && #[trigger] out@[a].spec_name() == k by {
                let c = choose|c: int| 0 <= c < tools.len() && tools[c].spec_name() == k;
                let a = choose|a: int| 0 <= a < out@.len() && out@[a] == #[trigger] tools[c];
            }
        }
        out
    }

    /// The tools written as an OpenAI-style `tools` array, in increasing order of name.
    pub fn to_api_tools(&self) -> (r: Vec<Json>)
        ensures
            exists|order: Seq<AgentTool>|
                {
                    &&& sorted_listing(self@, order)
                    &&& r@.len() == order.len()
                    &&& forall|i: int| 0 <= i < order.len() ==> (#[trigger] r@[i]).model() == tool_api(order[i])
                },
    {
        let sorted = self.sorted_tools();
        let mut out: Vec<Json> = Vec::new();
        let mut i: usize = 0;
        while i < sorted.len()
            invariant
                i <= sorted.len(),
                out.len() == i,
                forall|j: int| 0 <= j < i ==> (#[trigger] out@[j]).model() == tool_api(sorted@[j]),
            decreases sorted.len() - i,
        {
            out.push(tool_to_api(&sorted[i]));
            i = i + 1;
        }
        out
    }
}

} // verus!

verus! {

proof fn lemma_sorted_listing_tail(m: Map<Seq<char>, AgentTool>, x: Seq<AgentTool>)
    requires
        sorted_listing(m, x),
        x.len() > 0,
    ensures
        sorted_listing(m.remove(x[0].spec_name()), x.drop_first()),
{
    let k = x[0].spec_name();
    let t = x.drop_first();
    let m2 = m.remove(k);
    assert forall|a: int| 0 <= a < t.len() implies m2.contains_key(#[trigger] t[a].spec_name()) && m2[t[a].spec_name()] == t[a] by {
        assert(t[a] == x[a + 1]);
        assert(crate::text::text_less(k, x[a + 1].spec_name()));
        if x[a + 1].spec_name() == k {
            crate::text::lemma_text_less_irreflexive(k);
        }
    }
    assert forall|k2: Seq<char>| m2.contains_key(k2) implies exists|a: int| 0 <= a < t.len() && #[trigger] t[a].spec_name() == k2 by {
        let a = choose|a: int| 0 <= a < x.len() && #[trigger] x[a].spec_name() == k2;
        assert(a != 0);
        assert(t[a - 1] == x[a]);
    }
    assert forall|a: int, b: int| 0 <= a < b < t.len() implies crate::text::text_less(t[a].spec_name(), t[b].spec_name()) by {
        assert(t[a] == x[a + 1] && t[b] == x[b + 1]);
    }
}

/// A listing of a registry's tools in increasing order of name is unique: the
/// order of `to_api_tools` is fully determined by the registry.
pub proof fn lemma_sorted_listing_unique(m: Map<Seq<char>, AgentTool>, x: Seq<AgentTool>, y: Seq<AgentTool>)
    requires
        sorted_listing(m, x),
        sorted_listing(m, y),
    ensures
        x == y,
    decreases x.len(),
{
    if x.len() == 0 {
        if y.len() > 0 {
            assert(m.contains_key(y[0].spec_name()));
        }
        assert(x =~= y);
    } else {
        if y.len() == 0 {
            assert(m.contains_key(x[0].spec_name()));
        }
        let kx = x[0].spec_name();
        let ky = y[0].spec_name();
        if kx != ky {
            let b = choose|b: int| 0 <= b < y.len() && #[trigger] y[b].spec_name() == kx;
            let a = choose|a: int| 0 <= a < x.len() && #[trigger] x[a].spec_name() == ky;
            assert(b != 0 && a != 0);
            assert(crate::text::text_less(ky, kx));
            assert(crate::text::text_less(kx, ky));
            crate::text::lemma_text_less_transitive(kx, ky, kx);
            crate::text::lemma_text_less_irreflexive(kx);
        }
        assert(x[0] == y[0]);
        lemma_sorted_listing_tail(m, x);
        lemma_sorted_listing_tail(m, y);
        lemma_sorted_listing_unique(m.remove(kx), x.drop_first(), y.drop_first());
        assert(x =~= seq![x[0]] + x.drop_first());
        assert(y =~= seq![y[0]] + y.drop_first());
    }
}


impl Default for ToolRegistry {
    /// An empty registry.
    fn default() -> (r: Self)
        ensures
            r@ == Map::<Seq<char>, AgentTool>::empty(),
    {
        ToolRegistry::new()
    }
}

/// After a tool is registered, looking up its name finds that tool, and looking up any
/// other name finds what it found before.
pub proof fn lemma_register_then_get(before: Map<Seq<char>, AgentTool>, tool: AgentTool, name: Seq<char>)
    ensures
        before.insert(tool.spec_name(), tool).contains_key(tool.spec_name()),
        before.insert(tool.spec_name(), tool)[tool.spec_name()] == tool,
        name != tool.spec_name() ==> {
            &&& before.insert(tool.spec_name(), tool).contains_key(name) == before.contains_key(name)
            &&& before.contains_key(name) ==> before.insert(tool.spec_name(), tool)[name] == before[name]
        },
{
}

} // verus!
