//! Default locations next to the program, and the places, in order, where the
//! downloader and ffmpeg are looked for.
use crate::text::blank;
use crate::text::is_blank;
use vstd::prelude::*;
use vstd::string::StringExecFns;

verus! {

/// Whether `s` begins with `\\?\`, the verbatim prefix of Windows paths (under
/// which joining a name may rewrite the path it is joined to).
pub open spec fn is_verbatim(s: Seq<char>) -> bool {
    s.len() >= 4 && s[0] == '\\' && s[1] == '\\' && s[2] == '?' && s[3] == '\\'
}

pub open spec fn is_name_char(c: char) -> bool {
    ('a' <= c && c <= 'z') || ('A' <= c && c <= 'Z') || ('0' <= c && c <= '9') || c == '.' || c
        == '-' || c == '_'
}

/// A plain relative name: not empty, not `.` or `..`, made of ASCII letters,
/// digits, `.`, `-` and `_` (no separator, root or drive).
pub open spec fn is_plain_name(s: Seq<char>) -> bool {
    &&& s.len() > 0
    &&& s != seq!['.']
    &&& s != seq!['.', '.']
    &&& name_chars(s)
}

/// Every character of `s` may stand in a plain name.
pub open spec fn name_chars(s: Seq<char>) -> bool
    decreases s.len(),
{
    s.len() == 0 || (is_name_char(s[0]) && name_chars(s.drop_first()))
}

/// Whether `s` ends with `suffix`.
pub open spec fn ends_with(s: Seq<char>, suffix: Seq<char>) -> bool {
    s.len() >= suffix.len() && s.subrange(s.len() - suffix.len(), s.len() as int) == suffix
}

/// Whether `s` ends with a path separator (`/`, or `\` as Windows has it).
pub open spec fn ends_with_separator(s: Seq<char>) -> bool {
    s.len() > 0 && (s.last() == '/' || s.last() == '\\')
}

/// Whether `s` is a bare drive such as `C:` (a Windows prefix to which a
/// name is joined without a separator).
pub open spec fn is_bare_drive(s: Seq<char>) -> bool {
    s.len() == 2 && s[1] == ':' && (('a' <= s[0] && s[0] <= 'z') || ('A' <= s[0] && s[0] <= 'Z'))
}

/// `r` is `name` put under the directory `base`: it ends with `name`, and
/// unless `base` is a verbatim path: it is `name` alone for an empty `base`;
/// `base`, one separator (`/` or `\`) and `name` for a `base` that neither
/// ends with a separator nor is a bare drive; and otherwise `base`, at most
/// one separator, and `name`.
pub open spec fn placed_under(base: Seq<char>, name: Seq<char>, r: Seq<char>) -> bool {
    &&& ends_with(r, name)
    &&& !is_verbatim(base) ==> if base.len() == 0 {
        r == name
    } else if !ends_with_separator(base) && !is_bare_drive(base) {
        ||| r == base + seq!['/'] + name
        ||| r == base + seq!['\\'] + name
    } else {
        ||| r == base + name
        ||| r == base + seq!['/'] + name
        ||| r == base + seq!['\\'] + name
    }
}

/// Trusted: `std::path::Path::join`, with the result read back as a `String`
/// (no loss: both parts are valid Unicode). Claimed, of a plain relative name
/// only, what `PathBuf::push` documents and does: a relative path extends the
/// existing one, which it keeps; joined to an empty path it stands alone; a
/// separator (`/` on Unix, `\` on Windows) is put between the two unless the
/// path already ends with a separator or is a bare Windows drive such as
/// `C:`. Which of the two separators is used depends on the platform and is
/// left open, as is what happens under a verbatim (`\\?\`) path, which
/// `push` may normalize.
#[verifier::external_body]
fn path_join(base: &str, name: &str) -> (r: String)
    ensures
        is_plain_name(name@) ==> placed_under(base@, name@, r@),
{
    std::path::Path::new(base).join(name).to_string_lossy().into_owned()
}

/// A character of a plain directory path: an ASCII letter or digit, `-`,
/// `_`, or the separator `/`.
pub open spec fn is_dir_char(c: char) -> bool {
    ('a' <= c && c <= 'z') || ('A' <= c && c <= 'Z') || ('0' <= c && c <= '9') || c == '-' || c
        == '_' || c == '/'
}

/// A plain directory path: not empty, made of plain directory characters,
/// absolute (`/` first) or relative, with no doubled separator and no
/// separator at its end. None of its components is `.` or `..`, and it has
/// no root or drive but a leading `/`.
pub open spec fn is_plain_dir(d: Seq<char>) -> bool {
    &&& d.len() > 0
    &&& d.last() != '/'
    &&& forall|i: int| 0 <= i < d.len() ==> is_dir_char(#[trigger] d[i])
    &&& forall|i: int| 0 <= i < d.len() - 1 ==> !(#[trigger] d[i] == '/' && d[i + 1] == '/')
}

/// `p` is a plain name in a plain directory, joined by the `/` at `i`.
pub open spec fn file_in_dir_at(p: Seq<char>, i: int) -> bool {
    &&& 0 < i < p.len()
    &&& p[i] == '/'
    &&& is_plain_dir(p.subrange(0, i))
    &&& is_plain_name(p.subrange(i + 1, p.len() as int))
}

/// The parent of a plain path: the empty path for a plain name, and `d` for
/// a plain name in a plain directory `d` (the `/` that joins them is the last
/// one, since a plain name has none); nothing is said of other paths.
pub open spec fn plain_parent(p: Seq<char>) -> Option<Seq<char>> {
    if is_plain_name(p) {
        Some(seq![])
    } else if exists|i: int| file_in_dir_at(p, i) {
        Some(p.subrange(0, choose|i: int| file_in_dir_at(p, i)))
    } else {
        None
    }
}

/// Trusted: `std::path::Path::parent`, read back as a `String`. Claimed, as its
/// documentation says: `None` for the empty path; `Some("")` for a relative
/// path of one component (here a plain name); the path without its final
/// component for a plain name in a plain directory (here `d/name`, whose
/// parent is `d` on every platform); and, where there is a parent at all, a
/// prefix of the path. What it gives for other paths (roots, drive
/// prefixes, `.` and `..` components, doubled or trailing separators) is
/// left unsaid.
#[verifier::external_body]
fn path_parent(p: &str) -> (r: Option<String>)
    ensures
        p@.len() == 0 ==> r is None,
        plain_parent(p@) is Some ==> r is Some && r->0@ == plain_parent(p@)->0,
        r matches Some(d) ==> d@.len() <= p@.len() && d@ == p@.subrange(0, d@.len() as int),
{
    std::path::Path::new(p).parent().map(|d| d.to_string_lossy().into_owned())
}

/// The name of the default log file.
pub open spec fn log_file_name() -> Seq<char> {
    "n_m3u8dl-re-gui.log"@
}

pub proof fn lemma_plain_names()
    ensures
        is_plain_name("log"@),
        is_plain_name("temp"@),
        is_plain_name("downloads"@),
        is_plain_name("config"@),
        is_plain_name("config.json"@),
        is_plain_name("n_m3u8dl-re-gui.log"@),
        is_plain_name("N_m3u8DL-RE.exe"@),
        is_plain_name("N_m3u8DL-RE"@),
        is_plain_name("ffmpeg.exe"@),
        is_plain_name("ffmpeg"@),
{
    assert(is_plain_name("log"@)) by {
        reveal_strlit("log");
        assert("log"@ =~= seq!['l', 'o', 'g']);
        reveal_with_fuel(name_chars, 20);
    }
    assert(is_plain_name("temp"@)) by {
        reveal_strlit("temp");
        assert("temp"@ =~= seq!['t', 'e', 'm', 'p']);
        reveal_with_fuel(name_chars, 20);
    }
    assert(is_plain_name("downloads"@)) by {
        reveal_strlit("downloads");
        assert("downloads"@ =~= seq!['d', 'o', 'w', 'n', 'l', 'o', 'a', 'd', 's']);
        reveal_with_fuel(name_chars, 20);
    }
    assert(is_plain_name("config"@)) by {
        reveal_strlit("config");
        assert("config"@ =~= seq!['c', 'o', 'n', 'f', 'i', 'g']);
        reveal_with_fuel(name_chars, 20);
    }
    assert(is_plain_name("config.json"@)) by {
        reveal_strlit("config.json");
        assert("config.json"@ =~= seq!['c', 'o', 'n', 'f', 'i', 'g', '.', 'j', 's', 'o', 'n']);
        reveal_with_fuel(name_chars, 20);
    }
    assert(is_plain_name("n_m3u8dl-re-gui.log"@)) by {
        reveal_strlit("n_m3u8dl-re-gui.log");
        assert("n_m3u8dl-re-gui.log"@ =~= seq!['n', '_', 'm', '3', 'u', '8', 'd', 'l', '-', 'r', 'e', '-', 'g', 'u', 'i', '.', 'l', 'o', 'g']);
        reveal_with_fuel(name_chars, 20);
    }
    assert(is_plain_name("N_m3u8DL-RE.exe"@)) by {
        reveal_strlit("N_m3u8DL-RE.exe");
        assert("N_m3u8DL-RE.exe"@ =~= seq!['N', '_', 'm', '3', 'u', '8', 'D', 'L', '-', 'R', 'E', '.', 'e', 'x', 'e']);
        reveal_with_fuel(name_chars, 20);
    }
    assert(is_plain_name("N_m3u8DL-RE"@)) by {
        reveal_strlit("N_m3u8DL-RE");
        assert("N_m3u8DL-RE"@ =~= seq!['N', '_', 'm', '3', 'u', '8', 'D', 'L', '-', 'R', 'E']);
        reveal_with_fuel(name_chars, 20);
    }
    assert(is_plain_name("ffmpeg.exe"@)) by {
        reveal_strlit("ffmpeg.exe");
        assert("ffmpeg.exe"@ =~= seq!['f', 'f', 'm', 'p', 'e', 'g', '.', 'e', 'x', 'e']);
        reveal_with_fuel(name_chars, 20);
    }
    assert(is_plain_name("ffmpeg"@)) by {
        reveal_strlit("ffmpeg");
        assert("ffmpeg"@ =~= seq!['f', 'f', 'm', 'p', 'e', 'g']);
        reveal_with_fuel(name_chars, 20);
    }
}

/// `r` is `first`, then `second` under it, put under `base`.
pub open spec fn nested_under(base: Seq<char>, first: Seq<char>, second: Seq<char>, r: Seq<char>) -> bool {
    exists|mid: Seq<char>| placed_under(base, first, mid) && placed_under(mid, second, r)
}

/// Puts `name` under the directory `dir` (the log file under the chosen
/// folder, a program under a search directory).
pub fn join_under(dir: &str, name: &str) -> (r: String)
    requires
        is_plain_name(name@),
    ensures
        placed_under(dir@, name@, r@),
{
    path_join(dir, name)
}

/// The default log file: `log/n_m3u8dl-re-gui.log` under the program's
/// directory, or relative to the working directory where that is unknown.
pub fn default_log_path(exe_dir: Option<String>) -> (r: String)
    ensures
        match exe_dir {
            Some(d) => nested_under(d@, "log"@, log_file_name(), r@),
            None => placed_under("log"@, log_file_name(), r@),
        },
{
    proof {
        lemma_plain_names();
    }
    match exe_dir {
        Some(d) => {
            let logs = path_join(d.as_str(), "log");
            let r = path_join(logs.as_str(), "n_m3u8dl-re-gui.log");
            assert(placed_under(d@, "log"@, logs@) && placed_under(logs@, log_file_name(), r@));
            r
        },
        None => path_join("log", "n_m3u8dl-re-gui.log"),
    }
}

/// The default folder for temporary files: `temp` under the program's
/// directory, or relative to the working directory where that is unknown.
pub fn default_temp_path(exe_dir: Option<String>) -> (r: String)
    ensures
        match exe_dir {
            Some(d) => placed_under(d@, "temp"@, r@),
            None => r@ == "temp"@,
        },
{
    proof {
        lemma_plain_names();
    }
    match exe_dir {
        Some(d) => path_join(d.as_str(), "temp"),
        None => String::from_str("temp"),
    }
}

/// The default folder for downloads: `downloads` under the program's
/// directory, or relative to the working directory where that is unknown.
pub fn default_save_dir(exe_dir: Option<String>) -> (r: String)
    ensures
        match exe_dir {
            Some(d) => placed_under(d@, "downloads"@, r@),
            None => r@ == "downloads"@,
        },
{
    proof {
        lemma_plain_names();
    }
    match exe_dir {
        Some(d) => path_join(d.as_str(), "downloads"),
        None => String::from_str("downloads"),
    }
}

/// The downloader's file name on the platform.
pub open spec fn spec_exe_name(windows: bool) -> Seq<char> {
    if windows {
        "N_m3u8DL-RE.exe"@
    } else {
        "N_m3u8DL-RE"@
    }
}

/// ffmpeg's file name on the platform.
pub open spec fn spec_ffmpeg_name(windows: bool) -> Seq<char> {
    if windows {
        "ffmpeg.exe"@
    } else {
        "ffmpeg"@
    }
}

/// The programs are looked for under their executable names for the
/// platform: every candidate put under a directory ends with
/// `N_m3u8DL-RE.exe` or `ffmpeg.exe` on Windows, and with `N_m3u8DL-RE` or
/// `ffmpeg`, without `.exe`, elsewhere.
pub proof fn law_programs_are_looked_for_by_executable_name(
    windows: bool,
    dir: Seq<char>,
    exe: Seq<char>,
    ffmpeg: Seq<char>,
)
    requires
        placed_under(dir, spec_exe_name(windows), exe),
        placed_under(dir, spec_ffmpeg_name(windows), ffmpeg),
    ensures
        windows ==> ends_with(exe, "N_m3u8DL-RE.exe"@) && ends_with(ffmpeg, "ffmpeg.exe"@),
        !windows ==> ends_with(exe, "N_m3u8DL-RE"@) && !ends_with(exe, ".exe"@),
        !windows ==> ends_with(ffmpeg, "ffmpeg"@) && !ends_with(ffmpeg, ".exe"@),
{
    reveal_strlit("N_m3u8DL-RE.exe");
    reveal_strlit("N_m3u8DL-RE");
    reveal_strlit("ffmpeg.exe");
    reveal_strlit("ffmpeg");
    reveal_strlit(".exe");
    if !windows {
        let n = exe.len();
        assert("N_m3u8DL-RE"@ =~= seq!['N', '_', 'm', '3', 'u', '8', 'D', 'L', '-', 'R', 'E']);
        assert(exe.subrange(n - 11, n as int) == "N_m3u8DL-RE"@);
        assert(exe.subrange(n - 11, n as int)[10] == exe[n - 1]);
        assert(exe[n - 1] == 'E');
        assert(".exe"@ =~= seq!['.', 'e', 'x', 'e']);
        if ends_with(exe, ".exe"@) {
            assert(exe.subrange(n - 4, n as int)[3] == exe[n - 1]);
        }
        let m = ffmpeg.len();
        assert("ffmpeg"@ =~= seq!['f', 'f', 'm', 'p', 'e', 'g']);
        assert(ffmpeg.subrange(m - 6, m as int) == "ffmpeg"@);
        assert(ffmpeg.subrange(m - 6, m as int)[5] == ffmpeg[m - 1]);
        assert(ffmpeg[m - 1] == 'g');
        if ends_with(ffmpeg, ".exe"@) {
            assert(ffmpeg.subrange(m - 4, m as int)[3] == ffmpeg[m - 1]);
        }
    }
}

pub fn exe_name(windows: bool) -> (r: &'static str)
    ensures
        r@ == spec_exe_name(windows),
        is_plain_name(r@),
{
    proof {
        lemma_plain_names();
    }
    if windows {
        "N_m3u8DL-RE.exe"
    } else {
        "N_m3u8DL-RE"
    }
}

pub fn ffmpeg_name(windows: bool) -> (r: &'static str)
    ensures
        r@ == spec_ffmpeg_name(windows),
        is_plain_name(r@),
{
    proof {
        lemma_plain_names();
    }
    if windows {
        "ffmpeg.exe"
    } else {
        "ffmpeg"
    }
}

/// The user's own path comes first, where it is not blank.
pub open spec fn preferred_candidates(preferred: Seq<char>) -> Seq<Seq<char>> {
    if is_blank(preferred) {
        seq![]
    } else {
        seq![preferred]
    }
}

/// `found` holds `name` put under each directory of `dirs`, in order.
pub open spec fn each_under(dirs: Seq<Seq<char>>, name: Seq<char>, found: Seq<Seq<char>>) -> bool {
    &&& found.len() == dirs.len()
    &&& forall|i: int| 0 <= i < dirs.len() ==> placed_under(dirs[i], name, #[trigger] found[i])
}

fn push_each_under(out: &mut Vec<String>, dirs: &Vec<String>, name: &str)
    requires
        is_plain_name(name@),
    ensures
        final(out)@.len() == old(out)@.len() + dirs@.len(),
        final(out)@.subrange(0, old(out)@.len() as int) == old(out)@,
        each_under(
            dirs@.map_values(|d: String| d@),
            name@,
            final(out)@.subrange(old(out)@.len() as int, final(out)@.len() as int).map_values(
                |s: String| s@,
            ),
        ),
{
    let ghost start = out@;
    let mut i: usize = 0;
    while i < dirs.len()
        invariant
            i <= dirs@.len(),
            is_plain_name(name@),
            out@.len() == start.len() + i,
            out@.subrange(0, start.len() as int) == start,
            forall|k: int|
                0 <= k < i ==> placed_under(dirs@[k]@, name@, #[trigger] out@[start.len() + k]@),
        decreases dirs.len() - i,
    {
        let p = path_join(dirs[i].as_str(), name);
        let ghost before = out@;
        out.push(p);
        assert(out@.subrange(0, start.len() as int) =~= before.subrange(0, start.len() as int));
        i = i + 1;
    }
    let ghost found = out@.subrange(start.len() as int, out@.len() as int).map_values(
        |s: String| s@,
    );
    assert forall|k: int| 0 <= k < dirs@.len() implies placed_under(
        dirs@.map_values(|d: String| d@)[k],
        name@,
        #[trigger] found[k],
    ) by {
        assert(found[k] == out@[start.len() + k]@);
    }
}

/// The paths where the downloader is looked for, in order: the user's own
/// path (unless blank), then the program's own directory, then each
/// directory of `PATH`. The first that names an existing file is used.
pub fn exe_candidates(
    preferred: &str,
    gui_dir: Option<String>,
    path_dirs: &Vec<String>,
    windows: bool,
) -> (r: Vec<String>)
    ensures
        ({
            let pre = preferred_candidates(preferred@);
            let own: int = if gui_dir is Some { 1 } else { 0 };
            &&& r@.len() == pre.len() + own + path_dirs@.len()
            &&& r@.subrange(0, pre.len() as int).map_values(|s: String| s@) == pre
            &&& (gui_dir matches Some(d) ==> placed_under(
                d@,
                spec_exe_name(windows),
                r@[pre.len() as int]@,
            ))
            &&& each_under(
                path_dirs@.map_values(|d: String| d@),
                spec_exe_name(windows),
                r@.subrange(pre.len() + own, r@.len() as int).map_values(|s: String| s@),
            )
        }),
{
    let name = exe_name(windows);
    let mut r: Vec<String> = Vec::new();
    if !blank(preferred) {
        r.push(String::from_str(preferred));
    }
    let ghost pre_len = r@.len();
    assert(r@.subrange(0, pre_len as int).map_values(|s: String| s@) =~= preferred_candidates(
        preferred@,
    ));
    match gui_dir {
        Some(d) => {
            let p = path_join(d.as_str(), name);
            r.push(p);
        },
        None => {},
    }
    let ghost mid = r@;
    push_each_under(&mut r, path_dirs, name);
    proof {
        assert(r@.subrange(0, pre_len as int) =~= mid.subrange(0, pre_len as int));
        if gui_dir is Some {
            assert(r@[pre_len as int] == r@.subrange(0, mid.len() as int)[pre_len as int]);
        }
    }
    r
}

/// The directory that holds the downloader found at `exe`, where there is
/// one: none for an empty path, the empty path for a bare file name, `d` for
/// `d/name`, and in any case a prefix of `exe`.
pub fn downloader_dir(exe: &str) -> (r: Option<String>)
    ensures
        exe@.len() == 0 ==> r is None,
        plain_parent(exe@) is Some ==> r is Some && r->0@ == plain_parent(exe@)->0,
        r matches Some(d) ==> d@.len() <= exe@.len() && d@ == exe@.subrange(0, d@.len() as int),
{
    path_parent(exe)
}

/// The paths where ffmpeg is looked for, in order: the user's own path
/// (unless blank), each directory of `PATH`, the downloader's directory,
/// then the program's own directory. The first that names an existing file
/// is used.
pub fn ffmpeg_candidates(
    preferred: &str,
    path_dirs: &Vec<String>,
    downloader_dir: Option<String>,
    gui_dir: Option<String>,
    windows: bool,
) -> (r: Vec<String>)
    ensures
        ({
            let pre = preferred_candidates(preferred@);
            let n: int = (pre.len() + path_dirs@.len()) as int;
            let re: int = if downloader_dir is Some { 1 } else { 0 };
            let own: int = if gui_dir is Some { 1 } else { 0 };
            &&& r@.len() == n + re + own
            &&& r@.subrange(0, pre.len() as int).map_values(|s: String| s@) == pre
            &&& each_under(
                path_dirs@.map_values(|d: String| d@),
                spec_ffmpeg_name(windows),
                r@.subrange(pre.len() as int, n).map_values(|s: String| s@),
            )
            &&& (downloader_dir matches Some(d) ==> placed_under(
                d@,
                spec_ffmpeg_name(windows),
                r@[n]@,
            ))
            &&& (gui_dir matches Some(d) ==> placed_under(
                d@,
                spec_ffmpeg_name(windows),
                r@[n + re]@,
            ))
        }),
{
    let name = ffmpeg_name(windows);
    let mut r: Vec<String> = Vec::new();
    if !blank(preferred) {
        r.push(String::from_str(preferred));
    }
    let ghost pre_len = r@.len();
    assert(r@.subrange(0, pre_len as int).map_values(|s: String| s@) =~= preferred_candidates(
        preferred@,
    ));
    push_each_under(&mut r, path_dirs, name);
    let ghost after_dirs = r@;
    match downloader_dir {
        Some(d) => {
            let p = path_join(d.as_str(), name);
            r.push(p);
        },
        None => {},
    }
    let ghost before_gui = r@;
    match gui_dir {
        Some(d) => {
            let p = path_join(d.as_str(), name);
            r.push(p);
        },
        None => {},
    }
    assert(r@.subrange(0, pre_len as int) =~= after_dirs.subrange(0, pre_len as int));
    assert(r@.subrange(pre_len as int, after_dirs.len() as int) =~= after_dirs.subrange(
        pre_len as int,
        after_dirs.len() as int,
    ));
    r
}

/// Whether `i` is the first index whose candidate is marked as an existing
/// file (`exists[i]`).
pub open spec fn first_marked(exists: Seq<bool>, i: int) -> bool {
    &&& 0 <= i < exists.len()
    &&& exists[i]
    &&& forall|j: int| 0 <= j < i ==> !exists[j]
}

/// The first candidate marked as an existing file (`exists[i]` for the
/// `i`th candidate), as the search for the downloader and for ffmpeg takes
/// it; none where no candidate is marked. Candidates without a mark count as
/// missing.
pub fn first_existing(candidates: &Vec<String>, exists: &Vec<bool>) -> (r: Option<String>)
    ensures
        match r {
            Some(p) => exists|i: int|
                first_marked(exists@, i) && i < candidates@.len() && p == candidates@[i],
            None => forall|i: int|
                0 <= i < exists@.len() && i < candidates@.len() ==> !exists@[i],
        },
{
    let mut i: usize = 0;
    while i < candidates.len() && i < exists.len()
        invariant
            i <= candidates@.len(),
            i <= exists@.len(),
            forall|j: int| 0 <= j < i ==> !exists@[j],
        decreases candidates.len() - i,
    {
        if exists[i] {
            let p = candidates[i].clone();
            assert(first_marked(exists@, i as int));
            return Some(p);
        }
        i = i + 1;
    }
    None
}

} // verus!
