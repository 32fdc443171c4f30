use vstd::prelude::*;

use crate::text::{cat3, decimal, decimal_text, owned};

verus! {

/// What the status bar at the bottom of the screen shows.
#[derive(Debug, Clone)]
pub struct StatusBarData {
    pub db_connected: bool,
    pub llm_configured: bool,
    pub model_name: String,
    pub project_name: String,
    pub data_files_count: usize,
}

impl Default for StatusBarData {
    fn default() -> (r: Self)
        ensures
            !r.db_connected,
            !r.llm_configured,
            r.model_name@ == "gpt-4o"@,
            r.project_name@ == "未初始化"@,
            r.data_files_count == 0,
    {
        StatusBarData {
            db_connected: false,
            llm_configured: false,
            model_name: "gpt-4o".to_string(),
            project_name: "未初始化".to_string(),
            data_files_count: 0,
        }
    }
}

/// How a part of the status bar is coloured.
#[derive(Debug, Clone, Copy, PartialEq, Eq, Structural)]
pub enum StatusTone {
    Good,
    Bad,
    Warn,
    Model,
    Files,
    Separator,
    Hint,
}

pub open spec fn separator_text() -> Seq<char> {
    " │ "@
}

/// The parts of the status bar, left to right: the database state, the model service
/// state, the model name, the number of data files and the key hints, with a separator
/// between each two.
pub open spec fn status_parts(d: StatusBarData) -> Seq<(StatusTone, Seq<char>)> {
    let sep = (StatusTone::Separator, separator_text());
    seq![
        if d.db_connected { (StatusTone::Good, " DB:✓ "@) } else { (StatusTone::Bad, " DB:✗ "@) },
        sep,
        if d.llm_configured { (StatusTone::Good, " LLM:✓ "@) } else { (StatusTone::Warn, " LLM:✗ "@) },
        sep,
        (StatusTone::Model, " 📡 "@ + d.model_name@ + " "@),
        sep,
        (StatusTone::Files, " 📁 "@ + decimal(d.data_files_count as nat) + "个数据文件 "@),
        sep,
        (StatusTone::Hint, " Esc:退出 │ Tab:切换面板 │ Ctrl+R:刷新 Schema "@),
    ]
}

/// The status bar shows ` DB:✓ ` exactly when the database is connected and ` LLM:✓ `
/// exactly when the model service is configured; then come the model name and the
/// number of data files, in that order.
pub proof fn lemma_status_markers(d: StatusBarData)
    ensures
        status_parts(d).len() == 9,
        (status_parts(d)[0].1 == " DB:✓ "@) <==> d.db_connected,
        (status_parts(d)[2].1 == " LLM:✓ "@) <==> d.llm_configured,
        status_parts(d)[4].1 == " 📡 "@ + d.model_name@ + " "@,
        status_parts(d)[6].1 == " 📁 "@ + decimal(d.data_files_count as nat) + "个数据文件 "@,
{
    reveal_strlit(" DB:✓ ");
    reveal_strlit(" DB:✗ ");
    reveal_strlit(" LLM:✓ ");
    reveal_strlit(" LLM:✗ ");
    assert(" DB:✓ "@[4] != " DB:✗ "@[4]);
    assert(" LLM:✓ "@[5] != " LLM:✗ "@[5]);
}

pub open spec fn part_models(v: Seq<(StatusTone, String)>) -> Seq<(StatusTone, Seq<char>)> {
    v.map_values(|p: (StatusTone, String)| (p.0, p.1@))
}

impl StatusBarData {
    /// The parts of the status bar as drawn.
    pub fn parts(&self) -> (r: Vec<(StatusTone, String)>)
        ensures
            part_models(r@) == status_parts(*self),
    {
        let mut v: Vec<(StatusTone, String)> = Vec::new();
        if self.db_connected {
            v.push((StatusTone::Good, owned(" DB:✓ ")));
        } else {
            v.push((StatusTone::Bad, owned(" DB:✗ ")));
        }
        v.push((StatusTone::Separator, owned(" │ ")));
        if self.llm_configured {
            v.push((StatusTone::Good, owned(" LLM:✓ ")));
        } else {
            v.push((StatusTone::Warn, owned(" LLM:✗ ")));
        }
        v.push((StatusTone::Separator, owned(" │ ")));
        v.push((StatusTone::Model, cat3(" 📡 ", self.model_name.as_str(), " ")));
        v.push((StatusTone::Separator, owned(" │ ")));
        let count = decimal_text(self.data_files_count as u64);
        v.push((StatusTone::Files, cat3(" 📁 ", count.as_str(), "个数据文件 ")));
        v.push((StatusTone::Separator, owned(" │ ")));
        v.push((StatusTone::Hint, owned(" Esc:退出 │ Tab:切换面板 │ Ctrl+R:刷新 Schema ")));
        assert(part_models(v@) =~= status_parts(*self));
        v
    }
}

} // verus!
