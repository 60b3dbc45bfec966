//! The run's log: lines are added, and a progress line replaces the
//! progress line that ends the log.
use crate::app::{App, LogEvent};
use crate::runner::{done_message, done_text};
use crate::detect::{join_under, log_file_name, placed_under};
use crate::text::chars_of;
use vstd::prelude::*;
use vstd::string::StringExecFns;

verus! {

/// `s` without its last `n` characters (empty where it has no more).
pub open spec fn without_tail(s: Seq<char>, n: int) -> Seq<char> {
    if n >= s.len() {
        seq![]
    } else {
        s.subrange(0, s.len() - n)
    }
}

/// The log before a progress line is added: a progress line that ends the
/// log is taken off (its text and its line feed).
pub open spec fn before_progress(log: Seq<char>, progress_line: Option<usize>) -> Seq<char> {
    match progress_line {
        Some(k) => without_tail(without_tail(log, 1), k as int),
        None => log,
    }
}

/// The form after an event of the run reached the log: a line is added, a
/// progress line replaces the progress line that ends the log (if one does),
/// and the end of the run adds its outcome and marks the form idle.
#[verifier::opaque]
pub open spec fn logged(a: App, ev: LogEvent, b: App) -> bool {
    match ev {
        LogEvent::Line(s) => b.log@ == a.log@ + s@ + "\n"@ && b == App {
            log: b.log,
            progress_line: None,
            ..a
        },
        LogEvent::Progress(s) => b.log@ == before_progress(a.log@, a.progress_line) + s@ + "\n"@
            && b == App { log: b.log, progress_line: Some(s@.len() as usize), ..a },
        LogEvent::Done(r) => b.log@ == a.log@ + done_text(r) && b == App {
            log: b.log,
            progress_line: None,
            running: false,
            ..a
        },
    }
}

/// Trusted: `String::pop`. Claimed, as documented: an empty string stays
/// empty and gives `None`; otherwise the last character is removed and
/// given back.
#[verifier::external_body]
fn string_pop(s: &mut String) -> (r: Option<char>)
    ensures
        old(s)@.len() == 0 ==> r is None && final(s)@ == old(s)@,
        old(s)@.len() > 0 ==> r == Some(old(s)@.last()) && final(s)@ == old(s)@.drop_last(),
{
    s.pop()
}

/// Removes the last `n` characters of `s` (all of them where it has fewer).
fn drop_tail(s: &mut String, n: usize)
    ensures
        final(s)@ == without_tail(old(s)@, n as int),
{
    let ghost s0 = s@;
    let mut i: usize = 0;
    assert(s@ =~= without_tail(s0, 0));
    while i < n
        invariant
            i <= n,
            s@ == without_tail(s0, i as int),
        decreases n - i,
    {
        let _ = string_pop(s);
        assert(s@ =~= without_tail(s0, i + 1));
        i = i + 1;
    }
}

/// Adds a progress line to the log text, taking off the progress line that
/// ends it (its `previous` characters and its line feed) if one does;
/// returns the length of the new progress line.
fn add_progress(log: &mut String, previous: Option<usize>, text: &str) -> (n: usize)
    ensures
        final(log)@ == before_progress(old(log)@, previous) + text@ + "\n"@,
        n == text@.len(),
{
    match previous {
        Some(k) => {
            drop_tail(log, 1);
            drop_tail(log, k);
        },
        None => {},
    }
    let n = chars_of(text).len();
    log.append(text);
    log.append("\n");
    n
}

/// The form after its log file was set from the chosen path (`is_dir` where
/// that path is a directory): a directory gets the default log file name
/// under it, a file is used as it is; nothing else changes.
#[verifier::opaque]
pub open spec fn log_file_set(a: App, chosen: String, is_dir: bool, b: App) -> bool {
    &&& b == (App { log_file_path: b.log_file_path, ..a })
    &&& is_dir ==> placed_under(chosen@, log_file_name(), b.log_file_path@)
    &&& !is_dir ==> b.log_file_path == chosen
}

pub(crate) proof fn lemma_log_file_set(a: App, chosen: String, is_dir: bool, b: App)
    requires
        b == (App { log_file_path: b.log_file_path, ..a }),
        is_dir ==> placed_under(chosen@, log_file_name(), b.log_file_path@),
        !is_dir ==> b.log_file_path == chosen,
    ensures
        log_file_set(a, chosen, is_dir, b),
{
    reveal(log_file_set);
}

impl App {
    /// Adds a finished line of output to the log.
    pub(crate) fn log_line(&mut self, s: String)
        ensures
            logged(*old(self), LogEvent::Line(s), *final(self)),
    {
        self.log.append(s.as_str());
        self.log.append("\n");
        self.progress_line = None;
        proof {
            reveal(logged);
        }
    }

    /// Adds a progress line to the log, in place of the progress line that
    /// ends it, if one does.
    pub(crate) fn log_progress(&mut self, s: String)
        ensures
            logged(*old(self), LogEvent::Progress(s), *final(self)),
    {
        let mut log = String::new();
        std::mem::swap(&mut log, &mut self.log);
        let n = add_progress(&mut log, self.progress_line, s.as_str());
        self.log = log;
        self.progress_line = Some(n);
        proof {
            reveal(logged);
        }
    }

    /// Adds the end of the run to the log and marks the form idle.
    pub(crate) fn log_done(&mut self, r: Result<u32, String>)
        ensures
            logged(*old(self), LogEvent::Done(r), *final(self)),
    {
        let text = done_message(&r);
        self.log.append(text.as_str());
        self.progress_line = None;
        self.running = false;
        proof {
            reveal(logged);
        }
    }

    #[verifier::spinoff_prover]
    fn log_file_in_dir(&mut self, chosen: String)
        ensures
            log_file_set(*old(self), chosen, true, *final(self)),
    {
        proof {
            crate::detect::lemma_plain_names();
        }
        self.log_file_path = join_under(chosen.as_str(), "n_m3u8dl-re-gui.log");
        proof {
            lemma_log_file_set(*old(self), chosen, true, *self);
        }
    }

    fn log_file_as_chosen(&mut self, chosen: String)
        ensures
            log_file_set(*old(self), chosen, false, *final(self)),
    {
        self.log_file_path = chosen;
        proof {
            reveal(log_file_set);
        }
    }

    /// Sets the log file from the chosen path: a directory gets the default
    /// log file name under it, a file is used as it is.
    pub fn log_file_checked(&mut self, chosen: String, is_dir: bool)
        ensures
            log_file_set(*old(self), chosen, is_dir, *final(self)),
    {
        if is_dir {
            self.log_file_in_dir(chosen);
        } else {
            self.log_file_as_chosen(chosen);
        }
    }
}

} // verus!
