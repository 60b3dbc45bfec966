//! The captions that the form shows for its pages and for the state of the
//! run.
use crate::app::Tab;
use vstd::prelude::*;
use vstd::string::StringExecFns;

verus! {

impl Tab {
    pub open spec fn spec_title(self) -> Seq<char> {
        match self {
            Tab::Basic => "基本"@,
            Tab::Streams => "流选择"@,
            Tab::Decrypt => "解密"@,
            Tab::Live => "直播"@,
            Tab::Advanced => "高级"@,
            Tab::Log => "日志"@,
        }
    }

    /// The name of the page.
    pub fn title(&self) -> (r: &'static str)
        ensures
            r@ == self.spec_title(),
    {
        match self {
            Tab::Basic => "基本",
            Tab::Streams => "流选择",
            Tab::Decrypt => "解密",
            Tab::Live => "直播",
            Tab::Advanced => "高级",
            Tab::Log => "日志",
        }
    }
}

/// The caption of a page's button: the page's name, marked when it is the
/// page shown.
pub fn tab_caption(current: Tab, tab: Tab) -> (r: String)
    ensures
        r@ == if current == tab {
            "▶ "@ + tab.spec_title()
        } else {
            tab.spec_title()
        },
{
    if current == tab {
        let mut s = String::from_str("▶ ");
        s.append(tab.title());
        s
    } else {
        String::from_str(tab.title())
    }
}

/// The caption of the start button: what it does, or that a run is going.
pub fn start_caption(running: bool) -> (r: &'static str)
    ensures
        r@ == if running {
            "运行中…"@
        } else {
            "开始下载"@
        },
{
    if running {
        "运行中…"
    } else {
        "开始下载"
    }
}

/// The state of the run as the log page shows it.
pub fn run_status(running: bool) -> (r: &'static str)
    ensures
        r@ == if running {
            "● 运行中"@
        } else {
            "○ 空闲"@
        },
{
    if running {
        "● 运行中"
    } else {
        "○ 空闲"
    }
}

} // verus!
