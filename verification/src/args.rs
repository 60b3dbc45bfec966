//! The downloader's command line, built from the form.
use crate::app::{App, ProxyMode, SubFormat, UiLanguage, DecryptionEngine, CustomHlsMethod, LogLevel};
use crate::text::{chars_of, is_blank, string_of, trim, trim_chars};
use vstd::prelude::*;
use vstd::string::StringExecFns;

verus! {

/// The texts of a list of strings.
pub open spec fn views(v: Seq<String>) -> Seq<Seq<char>> {
    v.map_values(|s: String| s@)
}

proof fn lemma_views_push(v: Seq<String>, s: String)
    ensures
        views(v.push(s)) == views(v).push(s@),
{
    assert(views(v.push(s)) =~= views(v).push(s@));
}

/// A switch is passed only where it differs from the downloader's own
/// default: a switch that defaults to off as its bare name, one that defaults
/// to on as its name followed by `false`.
pub open spec fn flag_args(name: Seq<char>, on: bool, default: bool) -> Seq<Seq<char>> {
    if on == default {
        seq![]
    } else if on {
        seq![name]
    } else {
        seq![name, "false"@]
    }
}

/// An option with a value is passed only where the value is not blank, and
/// then with the value trimmed.
pub open spec fn opt_args(name: Seq<char>, value: Seq<char>) -> Seq<Seq<char>> {
    if is_blank(value) {
        seq![]
    } else {
        seq![name, trim(value)]
    }
}

/// Appends a switch to `v` where it differs from its default.
pub fn bool_opt(v: &mut Vec<String>, name: &str, on: bool, default: bool)
    ensures
        views(final(v)@) == views(old(v)@) + flag_args(name@, on, default),
{
    let ghost v0 = v@;
    if on == default {
        assert(views(v@) =~= views(v0) + flag_args(name@, on, default));
        return ;
    }
    let n = String::from_str(name);
    v.push(n);
    proof {
        lemma_views_push(v0, n);
    }
    if !on {
        let ghost v1 = v@;
        let f = String::from_str("false");
        v.push(f);
        proof {
            lemma_views_push(v1, f);
        }
    }
    assert(views(v@) =~= views(v0) + flag_args(name@, on, default));
}

/// Appends an option and its trimmed value to `v` unless the value is blank.
pub fn opt(v: &mut Vec<String>, name: &str, value: &str)
    ensures
        views(final(v)@) == views(old(v)@) + opt_args(name@, value@),
{
    let ghost v0 = v@;
    let cs = chars_of(value);
    let t = trim_chars(&cs);
    if t.len() > 0 {
        let n = String::from_str(name);
        v.push(n);
        proof {
            lemma_views_push(v0, n);
        }
        let ghost v1 = v@;
        let s = string_of(&t);
        v.push(s);
        proof {
            lemma_views_push(v1, s);
        }
    }
    assert(views(v@) =~= views(v0) + opt_args(name@, value@));
}

/// Appends an option that is always passed, with its trimmed value, or with
/// `default` where the value is blank.
fn always_opt(v: &mut Vec<String>, name: &str, value: &str, default: &str)
    ensures
        views(final(v)@) == views(old(v)@) + always_args(name@, value@, default@),
{
    let ghost v0 = v@;
    let cs = chars_of(value);
    let t = trim_chars(&cs);
    let n = String::from_str(name);
    v.push(n);
    proof {
        lemma_views_push(v0, n);
    }
    let ghost v1 = v@;
    let s = if t.len() > 0 {
        string_of(&t)
    } else {
        String::from_str(default)
    };
    v.push(s);
    proof {
        lemma_views_push(v1, s);
    }
    assert(views(v@) =~= views(v0) + always_args(name@, value@, default@));
}

/// The pieces of `s` between line feeds, in order (always at least one).
pub open spec fn split_lines(s: Seq<char>) -> Seq<Seq<char>>
    decreases s.len(),
{
    if s.len() == 0 {
        seq![seq![]]
    } else {
        let prev = split_lines(s.drop_last());
        if s.last() == '\n' {
            prev.push(seq![])
        } else {
            prev.update(prev.len() - 1, prev.last().push(s.last()))
        }
    }
}

/// A header line is passed as `-H` and the trimmed line, unless it is blank.
pub open spec fn header_line_args(line: Seq<char>) -> Seq<Seq<char>> {
    if is_blank(line) {
        seq![]
    } else {
        seq!["-H"@, trim(line)]
    }
}

pub open spec fn header_lines_args(lines: Seq<Seq<char>>) -> Seq<Seq<char>>
    decreases lines.len(),
{
    if lines.len() == 0 {
        seq![]
    } else {
        header_lines_args(lines.drop_last()) + header_line_args(lines.last())
    }
}

/// The arguments for the request headers: one `-H` per non-blank line.
pub open spec fn header_args(text: Seq<char>) -> Seq<Seq<char>> {
    header_lines_args(split_lines(text))
}

proof fn lemma_split_lines_nonempty(s: Seq<char>)
    ensures
        split_lines(s).len() >= 1,
    decreases s.len(),
{
    if s.len() > 0 {
        lemma_split_lines_nonempty(s.drop_last());
    }
}

fn push_header_line(v: &mut Vec<String>, line: &Vec<char>)
    ensures
        views(final(v)@) == views(old(v)@) + header_line_args(line@),
{
    let ghost v0 = v@;
    let t = trim_chars(line);
    if t.len() > 0 {
        let h = String::from_str("-H");
        v.push(h);
        proof {
            lemma_views_push(v0, h);
        }
        let ghost v1 = v@;
        let s = string_of(&t);
        v.push(s);
        proof {
            lemma_views_push(v1, s);
        }
    }
    assert(views(v@) =~= views(v0) + header_line_args(line@));
}

/// Appends `-H` and the line for each non-blank line of `headers`.
pub fn push_header_args(v: &mut Vec<String>, headers: &str)
    ensures
        views(final(v)@) == views(old(v)@) + header_args(headers@),
{
    let ghost v0 = v@;
    let cs = chars_of(headers);
    let n = cs.len();
    let mut cur: Vec<char> = Vec::new();
    let ghost mut done: Seq<Seq<char>> = seq![];
    let mut i: usize = 0;
    assert(cs@.subrange(0, 0) =~= Seq::<char>::empty());
    assert(split_lines(cs@.subrange(0, 0)) =~= done.push(cur@));
    assert(views(v@) =~= views(v0) + header_lines_args(done));
    while i < n
        invariant
            i <= n,
            n == cs@.len(),
            split_lines(cs@.subrange(0, i as int)) == done.push(cur@),
            views(v@) == views(v0) + header_lines_args(done),
        decreases n - i,
    {
        let c = cs[i];
        let ghost pre = cs@.subrange(0, i as int);
        let ghost next = cs@.subrange(0, i + 1);
        assert(next.drop_last() =~= pre);
        assert(next.last() == c);
        if c == '\n' {
            push_header_line(v, &cur);
            proof {
                assert(header_lines_args(done.push(cur@)).len() >= 0);
                assert(done.push(cur@).drop_last() =~= done);
                assert(views(v@) =~= views(v0) + header_lines_args(done.push(cur@)));
                done = done.push(cur@);
            }
            cur = Vec::new();
            assert(split_lines(next) =~= done.push(cur@));
        } else {
            let ghost old_cur = cur@;
            cur.push(c);
            assert(split_lines(next) =~= done.push(cur@)) by {
                let prev = split_lines(pre);
                assert(prev == done.push(old_cur));
                assert(prev.update(prev.len() - 1, prev.last().push(c)) =~= done.push(cur@));
            }
        }
        i = i + 1;
    }
    push_header_line(v, &cur);
    proof {
        assert(cs@.subrange(0, n as int) =~= cs@);
        assert(done.push(cur@).drop_last() =~= done);
        assert(views(v@) =~= views(v0) + header_lines_args(done.push(cur@)));
    }
}


/// The proxy arguments: the system proxy is asked for explicitly, a custom
/// proxy passes its address, and no proxy passes nothing (the downloader has
/// no switch for it).
pub open spec fn proxy_args(mode: ProxyMode, address: Seq<char>) -> Seq<Seq<char>> {
    match mode {
        ProxyMode::System => seq!["--use-system-proxy"@],
        ProxyMode::Custom => opt_args("--custom-proxy"@, address),
        ProxyMode::NoProxy => seq![],
    }
}

/// A choice is passed only where it differs from the downloader's default.
pub open spec fn choice_args(name: Seq<char>, is_default: bool, value: Seq<char>) -> Seq<
    Seq<char>,
> {
    if is_default {
        seq![]
    } else {
        opt_args(name, value)
    }
}

/// The downloader's arguments for the form `a`, without the program and the
/// input, in the order in which they are passed.
pub open spec fn spec_build_args(a: App) -> Seq<Seq<char>> {
    seq![]
        + saving_args(a)
        + transfer_args(a)
        + network_args(a)
        + binaries_args(a)
        + streams_args(a)
        + subtitles_args(a)
        + decryption_args(a)
        + merging_args(a)
        + live_switches_args(a)
        + live_values_args(a)
        + diagnostics_args(a)
        + advanced_args(a)
        + compatibility_args(a)
}

/// The saving options.
pub open spec fn saving_args(a: App) -> Seq<Seq<char>> {
    seq![]
        + opt_args("--save-dir"@, a.save_dir@)
        + opt_args("--save-name"@, a.save_name@)
        + opt_args("--save-pattern"@, a.save_pattern@)
        + opt_args("--tmp-dir"@, a.tmp_dir@)
        + opt_args("--log-file-path"@, a.log_file_path@)
        + opt_args("--base-url"@, a.base_url@)
}

/// An option that is always passed: its trimmed value, or `default` where
/// the value is blank.
pub open spec fn always_args(name: Seq<char>, value: Seq<char>, default: Seq<char>) -> Seq<Seq<char>> {
    seq![name, if is_blank(value) { default } else { trim(value) }]
}

/// The thread, retry and timeout options, always passed (8 threads, 10
/// retries and 10 seconds where a field was left blank).
pub open spec fn transfer_args(a: App) -> Seq<Seq<char>> {
    seq![]
        + always_args("--thread-count"@, a.thread_count@, "8"@)
        + always_args("--download-retry-count"@, a.retry_count@, "10"@)
        + always_args("--http-request-timeout"@, a.http_timeout@, "10"@)
}

/// The headers, proxy, speed limit, concurrency and language options.
pub open spec fn network_args(a: App) -> Seq<Seq<char>> {
    seq![]
        + header_args(a.headers@)
        + proxy_args(a.proxy_mode, a.proxy_address@)
        + opt_args("-R"@, a.max_speed@)
        + flag_args("--concurrent-download"@, a.concurrent_download, false)
        + choice_args("--ui-language"@, a.ui_language == UiLanguage::Default, a.ui_language.spec_arg())
}

/// The helper binary options.
pub open spec fn binaries_args(a: App) -> Seq<Seq<char>> {
    seq![]
        + opt_args("--ffmpeg-binary-path"@, a.ffmpeg_path@)
        + choice_args("--decryption-engine"@, a.decryption_engine == DecryptionEngine::Default, a.decryption_engine.spec_arg())
        + opt_args("--decryption-binary-path"@, a.decryption_binary@)
}

/// The stream selection options.
pub open spec fn streams_args(a: App) -> Seq<Seq<char>> {
    seq![]
        + flag_args("--auto-select"@, a.auto_select, false)
        + opt_args("-sv"@, a.select_video@)
        + opt_args("-sa"@, a.select_audio@)
        + opt_args("-ss"@, a.select_subtitle@)
        + opt_args("-dv"@, a.drop_video@)
        + opt_args("-da"@, a.drop_audio@)
}

/// The subtitle options.
pub open spec fn subtitles_args(a: App) -> Seq<Seq<char>> {
    seq![]
        + opt_args("-ds"@, a.drop_subtitle@)
        + flag_args("--sub-only"@, a.sub_only, false)
        + choice_args("--sub-format"@, a.sub_format == SubFormat::Srt, "VTT"@)
}

/// The decryption options.
pub open spec fn decryption_args(a: App) -> Seq<Seq<char>> {
    seq![]
        + opt_args("--key"@, a.key@)
        + opt_args("--key-text-file"@, a.key_text_file@)
        + choice_args("--custom-hls-method"@, a.custom_hls_method == CustomHlsMethod::Default, a.custom_hls_method.spec_arg())
        + opt_args("--custom-hls-key"@, a.custom_hls_key@)
        + opt_args("--custom-hls-iv"@, a.custom_hls_iv@)
        + flag_args("--mp4-real-time-decryption"@, a.mp4_realtime_decryption, false)
}

/// The merging options.
pub open spec fn merging_args(a: App) -> Seq<Seq<char>> {
    seq![]
        + flag_args("--binary-merge"@, a.binary_merge, false)
        + flag_args("--skip-merge"@, a.skip_merge, false)
        + flag_args("--del-after-done"@, a.del_after_done, true)
        + flag_args("--no-date-info"@, a.no_date_info, false)
        + opt_args("-M"@, a.mux_after_done@)
        + opt_args("--mux-import"@, a.mux_import@)
}

/// The live stream switches.
pub open spec fn live_switches_args(a: App) -> Seq<Seq<char>> {
    seq![]
        + flag_args("--live-perform-as-vod"@, a.live_perform_as_vod, false)
        + flag_args("--live-real-time-merge"@, a.live_realtime_merge, false)
        + flag_args("--live-keep-segments"@, a.live_keep_segments, true)
        + flag_args("--live-pipe-mux"@, a.live_pipe_mux, false)
        + flag_args("--live-fix-vtt-by-audio"@, a.live_fix_vtt_by_audio, false)
}

/// The live stream values.
pub open spec fn live_values_args(a: App) -> Seq<Seq<char>> {
    seq![]
        + opt_args("--live-record-limit"@, a.live_record_limit@)
        + opt_args("--live-wait-time"@, a.live_wait_time@)
        + opt_args("--live-take-count"@, a.live_take_count@)
}

/// The segment check, metadata and logging options.
pub open spec fn diagnostics_args(a: App) -> Seq<Seq<char>> {
    seq![]
        + flag_args("--append-url-params"@, a.append_url_params, false)
        + flag_args("--check-segments-count"@, a.check_segments_count, true)
        + flag_args("--write-meta-json"@, a.write_meta_json, true)
        + flag_args("--no-log"@, a.no_log, false)
        + choice_args("--log-level"@, a.log_level == LogLevel::Info, a.log_level.spec_label())
}

/// The URL processing, range, start time and ad filtering options.
pub open spec fn advanced_args(a: App) -> Seq<Seq<char>> {
    seq![]
        + opt_args("--urlprocessor-args"@, a.urlprocessor_args@)
        + opt_args("--custom-range"@, a.custom_range@)
        + opt_args("--task-start-at"@, a.task_start_at@)
        + opt_args("--ad-keyword"@, a.ad_keyword@)
}

/// The compatibility switches.
pub open spec fn compatibility_args(a: App) -> Seq<Seq<char>> {
    seq![]
        + flag_args("--allow-hls-multi-ext-map"@, a.allow_hls_multi_ext_map, false)
        + flag_args("--disable-update-check"@, a.disable_update_check, false)
        + flag_args("--force-ansi-console"@, a.force_ansi_console, false)
        + flag_args("--use-ffmpeg-concat-demuxer"@, a.use_ffmpeg_concat_demuxer, false)
}

fn push_proxy_args(v: &mut Vec<String>, mode: ProxyMode, address: &str)
    ensures
        views(final(v)@) == views(old(v)@) + proxy_args(mode, address@),
{
    let ghost v0 = v@;
    match mode {
        ProxyMode::System => {
            let s = String::from_str("--use-system-proxy");
            v.push(s);
            proof {
                lemma_views_push(v0, s);
            }
            assert(views(v@) =~= views(v0) + proxy_args(mode, address@));
        },
        ProxyMode::Custom => opt(v, "--custom-proxy", address),
        ProxyMode::NoProxy => {
            assert(views(v@) =~= views(v0) + proxy_args(mode, address@));
        },
    }
}

fn choice_opt(v: &mut Vec<String>, name: &str, is_default: bool, value: &str)
    ensures
        views(final(v)@) == views(old(v)@) + choice_args(name@, is_default, value@),
{
    if !is_default {
        opt(v, name, value);
    } else {
        assert(views(v@) =~= views(old(v)@) + choice_args(name@, is_default, value@));
    }
}
fn push_saving_args(v: &mut Vec<String>, app: &App)
    ensures
        views(final(v)@) == views(old(v)@) + saving_args(*app),
{
    let ghost v0 = v@;
    opt(v, "--save-dir", app.save_dir.as_str());
    opt(v, "--save-name", app.save_name.as_str());
    opt(v, "--save-pattern", app.save_pattern.as_str());
    opt(v, "--tmp-dir", app.tmp_dir.as_str());
    opt(v, "--log-file-path", app.log_file_path.as_str());
    opt(v, "--base-url", app.base_url.as_str());
    assert(views(v@) =~= views(v0) + saving_args(*app));
}

fn push_transfer_args(v: &mut Vec<String>, app: &App)
    ensures
        views(final(v)@) == views(old(v)@) + transfer_args(*app),
{
    let ghost v0 = v@;
    always_opt(v, "--thread-count", app.thread_count.as_str(), "8");
    always_opt(v, "--download-retry-count", app.retry_count.as_str(), "10");
    always_opt(v, "--http-request-timeout", app.http_timeout.as_str(), "10");
    assert(views(v@) =~= views(v0) + transfer_args(*app));
}

fn push_network_args(v: &mut Vec<String>, app: &App)
    ensures
        views(final(v)@) == views(old(v)@) + network_args(*app),
{
    let ghost v0 = v@;
    push_header_args(v, app.headers.as_str());
    push_proxy_args(v, app.proxy_mode, app.proxy_address.as_str());
    opt(v, "-R", app.max_speed.as_str());
    bool_opt(v, "--concurrent-download", app.concurrent_download, false);
    choice_opt(v, "--ui-language", app.ui_language == UiLanguage::Default, app.ui_language.arg());
    assert(views(v@) =~= views(v0) + network_args(*app));
}

fn push_binaries_args(v: &mut Vec<String>, app: &App)
    ensures
        views(final(v)@) == views(old(v)@) + binaries_args(*app),
{
    let ghost v0 = v@;
    opt(v, "--ffmpeg-binary-path", app.ffmpeg_path.as_str());
    choice_opt(v, "--decryption-engine", app.decryption_engine == DecryptionEngine::Default, app.decryption_engine.arg());
    opt(v, "--decryption-binary-path", app.decryption_binary.as_str());
    assert(views(v@) =~= views(v0) + binaries_args(*app));
}

fn push_streams_args(v: &mut Vec<String>, app: &App)
    ensures
        views(final(v)@) == views(old(v)@) + streams_args(*app),
{
    let ghost v0 = v@;
    bool_opt(v, "--auto-select", app.auto_select, false);
    opt(v, "-sv", app.select_video.as_str());
    opt(v, "-sa", app.select_audio.as_str());
    opt(v, "-ss", app.select_subtitle.as_str());
    opt(v, "-dv", app.drop_video.as_str());
    opt(v, "-da", app.drop_audio.as_str());
    assert(views(v@) =~= views(v0) + streams_args(*app));
}

fn push_subtitles_args(v: &mut Vec<String>, app: &App)
    ensures
        views(final(v)@) == views(old(v)@) + subtitles_args(*app),
{
    let ghost v0 = v@;
    opt(v, "-ds", app.drop_subtitle.as_str());
    bool_opt(v, "--sub-only", app.sub_only, false);
    choice_opt(v, "--sub-format", app.sub_format == SubFormat::Srt, "VTT");
    assert(views(v@) =~= views(v0) + subtitles_args(*app));
}

fn push_decryption_args(v: &mut Vec<String>, app: &App)
    ensures
        views(final(v)@) == views(old(v)@) + decryption_args(*app),
{
    let ghost v0 = v@;
    opt(v, "--key", app.key.as_str());
    opt(v, "--key-text-file", app.key_text_file.as_str());
    choice_opt(v, "--custom-hls-method", app.custom_hls_method == CustomHlsMethod::Default, app.custom_hls_method.arg());
    opt(v, "--custom-hls-key", app.custom_hls_key.as_str());
    opt(v, "--custom-hls-iv", app.custom_hls_iv.as_str());
    bool_opt(v, "--mp4-real-time-decryption", app.mp4_realtime_decryption, false);
    assert(views(v@) =~= views(v0) + decryption_args(*app));
}

fn push_merging_args(v: &mut Vec<String>, app: &App)
    ensures
        views(final(v)@) == views(old(v)@) + merging_args(*app),
{
    let ghost v0 = v@;
    bool_opt(v, "--binary-merge", app.binary_merge, false);
    bool_opt(v, "--skip-merge", app.skip_merge, false);
    bool_opt(v, "--del-after-done", app.del_after_done, true);
    bool_opt(v, "--no-date-info", app.no_date_info, false);
    opt(v, "-M", app.mux_after_done.as_str());
    opt(v, "--mux-import", app.mux_import.as_str());
    assert(views(v@) =~= views(v0) + merging_args(*app));
}

fn push_live_switches_args(v: &mut Vec<String>, app: &App)
    ensures
        views(final(v)@) == views(old(v)@) + live_switches_args(*app),
{
    let ghost v0 = v@;
    bool_opt(v, "--live-perform-as-vod", app.live_perform_as_vod, false);
    bool_opt(v, "--live-real-time-merge", app.live_realtime_merge, false);
    bool_opt(v, "--live-keep-segments", app.live_keep_segments, true);
    bool_opt(v, "--live-pipe-mux", app.live_pipe_mux, false);
    bool_opt(v, "--live-fix-vtt-by-audio", app.live_fix_vtt_by_audio, false);
    assert(views(v@) =~= views(v0) + live_switches_args(*app));
}

fn push_live_values_args(v: &mut Vec<String>, app: &App)
    ensures
        views(final(v)@) == views(old(v)@) + live_values_args(*app),
{
    let ghost v0 = v@;
    opt(v, "--live-record-limit", app.live_record_limit.as_str());
    opt(v, "--live-wait-time", app.live_wait_time.as_str());
    opt(v, "--live-take-count", app.live_take_count.as_str());
    assert(views(v@) =~= views(v0) + live_values_args(*app));
}

fn push_diagnostics_args(v: &mut Vec<String>, app: &App)
    ensures
        views(final(v)@) == views(old(v)@) + diagnostics_args(*app),
{
    let ghost v0 = v@;
    bool_opt(v, "--append-url-params", app.append_url_params, false);
    bool_opt(v, "--check-segments-count", app.check_segments_count, true);
    bool_opt(v, "--write-meta-json", app.write_meta_json, true);
    bool_opt(v, "--no-log", app.no_log, false);
    choice_opt(v, "--log-level", app.log_level == LogLevel::Info, app.log_level.arg());
    assert(views(v@) =~= views(v0) + diagnostics_args(*app));
}

fn push_advanced_args(v: &mut Vec<String>, app: &App)
    ensures
        views(final(v)@) == views(old(v)@) + advanced_args(*app),
{
    let ghost v0 = v@;
    opt(v, "--urlprocessor-args", app.urlprocessor_args.as_str());
    opt(v, "--custom-range", app.custom_range.as_str());
    opt(v, "--task-start-at", app.task_start_at.as_str());
    opt(v, "--ad-keyword", app.ad_keyword.as_str());
    assert(views(v@) =~= views(v0) + advanced_args(*app));
}

fn push_compatibility_args(v: &mut Vec<String>, app: &App)
    ensures
        views(final(v)@) == views(old(v)@) + compatibility_args(*app),
{
    let ghost v0 = v@;
    bool_opt(v, "--allow-hls-multi-ext-map", app.allow_hls_multi_ext_map, false);
    bool_opt(v, "--disable-update-check", app.disable_update_check, false);
    bool_opt(v, "--force-ansi-console", app.force_ansi_console, false);
    bool_opt(v, "--use-ffmpeg-concat-demuxer", app.use_ffmpeg_concat_demuxer, false);
    assert(views(v@) =~= views(v0) + compatibility_args(*app));
}

/// The downloader's command-line arguments for the form (without the program
/// and the input, which go first).
pub fn build_args(app: &App) -> (r: Vec<String>)
    ensures
        views(r@) == spec_build_args(*app),
{
    let mut v: Vec<String> = Vec::new();
    assert(views(v@) =~= seq![]);
    push_saving_args(&mut v, app);
    push_transfer_args(&mut v, app);
    push_network_args(&mut v, app);
    push_binaries_args(&mut v, app);
    push_streams_args(&mut v, app);
    push_subtitles_args(&mut v, app);
    push_decryption_args(&mut v, app);
    push_merging_args(&mut v, app);
    push_live_switches_args(&mut v, app);
    push_live_values_args(&mut v, app);
    push_diagnostics_args(&mut v, app);
    push_advanced_args(&mut v, app);
    push_compatibility_args(&mut v, app);
    v
}

} // verus!
