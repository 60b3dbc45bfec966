//! Starting a run once the downloader was looked for, and setting the log
//! file from a chosen path.
use crate::app::{App, Effect, Tab};
use crate::args::{build_args, spec_build_args, views};
use crate::text::{blank, is_blank, trim, trim_str};
use vstd::prelude::*;
use vstd::string::StringExecFns;

verus! {

/// The message shown where the downloader was not found.
pub open spec fn exe_missing_text() -> Seq<char> {
    "未找到 N_m3u8DL-RE 可执行文件，请在“基本”页指定其路径。"@
}

/// The message shown where no input was given.
pub open spec fn input_missing_text() -> Seq<char> {
    "请输入下载地址或文件路径。"@
}

/// The log of a run that has just started.
pub open spec fn started_text() -> Seq<char> {
    "开始运行...\n"@
}

/// The arguments of a run: the form's arguments, and, where the output is
/// captured, the switch that turns colour codes off.
pub open spec fn run_args(a: App, capture: bool) -> Seq<Seq<char>> {
    spec_build_args(a) + if capture {
        seq!["--no-ansi-color"@]
    } else {
        seq![]
    }
}

/// The form and the outside work after a start was refused: the form shows
/// why, and nothing else changes.
#[verifier::opaque]
pub open spec fn refused(a: App, why: Seq<char>, b: App, e: Effect) -> bool {
    &&& b.exe_error@ == why
    &&& b == (App { exe_error: b.exe_error, ..a })
    &&& e == Effect::Nothing
}

/// The form and the outside work after a run started with the downloader at
/// `x`: the next run number, the trimmed input and the form's arguments go
/// to the launch, the log starts afresh and the form turns to it.
#[verifier::opaque]
pub open spec fn started(a: App, x: String, b: App, e: Effect) -> bool {
    &&& b.log@ == started_text()
    &&& b == (App {
        run_gen: (a.run_gen + 1) as u64,
        running: true,
        tab: Tab::Log,
        log: b.log,
        progress_line: None,
        ..a
    })
    &&& e matches Effect::Launch { run_id, exe, input, args, capture }
    &&& run_id == b.run_gen
    &&& exe == x
    &&& input@ == trim(a.input@)
    &&& capture == !a.external_console
    &&& views(args@) == run_args(a, capture)
}

/// The form and the outside work after a start went on with the downloader
/// that was looked for (`found`): without a downloader, or without input,
/// the start is refused; otherwise a run starts.
pub open spec fn launched(a: App, found: Option<String>, b: App, e: Effect) -> bool {
    match found {
        None => refused(a, exe_missing_text(), b, e),
        Some(x) => if is_blank(a.input@) {
            refused(a, input_missing_text(), b, e)
        } else {
            started(a, x, b, e)
        },
    }
}

impl App {
    /// The arguments of a run of the form, and whether its output is
    /// captured.
    pub(crate) fn run_arguments(&self) -> (r: (Vec<String>, bool))
        ensures
            r.1 == !self.external_console,
            views(r.0@) == run_args(*self, r.1),
    {
        let mut args = build_args(self);
        let capture = !self.external_console;
        if capture {
            let ghost before = args@;
            let flag = String::from_str("--no-ansi-color");
            args.push(flag);
            assert(views(args@) =~= views(before).push(flag@));
        }
        assert(views(args@) =~= run_args(*self, capture));
        (args, capture)
    }

    /// Refuses a start where the downloader was not found.
    fn refuse_missing(&mut self) -> (e: Effect)
        ensures
            refused(*old(self), exe_missing_text(), *final(self), e),
    {
        self.exe_error = String::from_str("未找到 N_m3u8DL-RE 可执行文件，请在“基本”页指定其路径。");
        proof {
            reveal(refused);
        }
        Effect::Nothing
    }

    /// Refuses a start where no input was given.
    fn refuse_blank(&mut self) -> (e: Effect)
        ensures
            refused(*old(self), input_missing_text(), *final(self), e),
    {
        self.exe_error = String::from_str("请输入下载地址或文件路径。");
        proof {
            reveal(refused);
        }
        Effect::Nothing
    }

    /// Starts a run with the downloader at `exe`.
    fn begin_run(&mut self, exe: String) -> (e: Effect)
        requires
            old(self).run_gen < u64::MAX,
        ensures
            started(*old(self), exe, *final(self), e),
    {
        let input = trim_str(self.input.as_str());
        let (args, capture) = self.run_arguments();
        let run_id = self.run_gen + 1;
        self.run_gen = run_id;
        self.running = true;
        self.tab = Tab::Log;
        self.log = String::from_str("开始运行...\n");
        self.progress_line = None;
        proof {
            reveal(started);
        }
        Effect::Launch { run_id, exe, input, args, capture }
    }

    /// Continues a start once the downloader was looked for (`found`): see
    /// `launched`.
    pub fn launch(&mut self, found: Option<String>) -> (e: Effect)
        requires
            found is Some && !is_blank(old(self).input@) ==> old(self).run_gen < u64::MAX,
        ensures
            launched(*old(self), found, *final(self), e),
    {
        match found {
            None => self.refuse_missing(),
            Some(exe) => {
                if blank(self.input.as_str()) {
                    self.refuse_blank()
                } else {
                    self.begin_run(exe)
                }
            },
        }
    }
}

} // verus!
