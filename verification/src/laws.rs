//! What holds of the form across steps: progress lines, saved settings, and
//! starting runs.
use crate::app::{App, Effect, LogEvent, Message, preview, settings_of};
use crate::form::initial;
use crate::args::{
    always_args, flag_args, opt_args, advanced_args, binaries_args, compatibility_args, decryption_args, diagnostics_args,
    live_switches_args, live_values_args, merging_args, network_args, saving_args,
    spec_build_args, streams_args, subtitles_args, transfer_args, views,
};
use crate::log::{before_progress, logged, without_tail};
use crate::start::{launched, refused, run_args, started};
use crate::step::{edited, stepped};
use crate::text::{is_blank, trim};
use vstd::prelude::*;

verus! {

/// A progress line that follows a progress line takes its place: the log
/// holds what it held before the first of them, then the second one.
pub proof fn law_progress_line_replaces_progress_line(
    a: App,
    s1: String,
    s2: String,
    b: App,
    c: App,
)
    requires
        s1@.len() <= usize::MAX,
        logged(a, LogEvent::Progress(s1), b),
        logged(b, LogEvent::Progress(s2), c),
    ensures
        c.log@ == before_progress(a.log@, a.progress_line) + s2@ + "\n"@,
        c.progress_line == Some(s2@.len() as usize),
{
    reveal(logged);
    reveal_strlit("\n");
    let x = before_progress(a.log@, a.progress_line);
    assert(without_tail(b.log@, 1) =~= x + s1@);
    assert(without_tail(x + s1@, s1@.len() as int) =~= x);
}

/// The settings that a form saves bring back, at the next launch, the
/// downloader, the output folder, the proxy, the headers, the ffmpeg path,
/// the console choice and the theme (where the downloader and the folder
/// were given).
pub proof fn law_saved_settings_come_back(
    a: App,
    exe_dir: Option<String>,
    found: Option<String>,
    b: App,
)
    requires
        a.exe_path@.len() > 0,
        a.save_dir@.len() > 0,
        initial(settings_of(a), exe_dir, found, b),
    ensures
        b.exe_path@ == a.exe_path@,
        b.save_dir == a.save_dir,
        b.proxy_address == a.proxy_address,
        b.headers == a.headers,
        b.ffmpeg_path == a.ffmpeg_path,
        b.external_console == a.external_console,
        b.theme_mode == a.theme_mode,
{
}

/// A start while a run is going changes nothing and asks for nothing.
pub proof fn law_start_while_running_is_ignored(a: App, b: App, e: Effect)
    requires
        a.running,
        stepped(a, Message::Start, b, e),
    ensures
        b == a,
        e == Effect::Nothing,
{
}

/// A run starts exactly when a downloader was found and an input was
/// given; it then gets the next run number, and the form is running.
pub proof fn law_run_starts_with_downloader_and_input(
    a: App,
    found: Option<String>,
    b: App,
    e: Effect,
)
    requires
        found is Some && !is_blank(a.input@) ==> a.run_gen < u64::MAX,
        launched(a, found, b, e),
    ensures
        e is Launch <==> (found is Some && !is_blank(a.input@)),
        e matches Effect::Launch { run_id, .. } ==> run_id == a.run_gen + 1 && b.running,
        !(e is Launch) ==> e == Effect::Nothing && b.running == a.running && b.run_gen == a.run_gen,
{
    reveal(refused);
    reveal(started);
}

/// Whether two forms hold the same options, all those that the downloader's
/// arguments are built from (the downloader, the input, the run, the log,
/// the page, the theme and the console choice aside).
pub open spec fn same_options(a: App, b: App) -> bool {
    &&& a.save_dir == b.save_dir
    &&& a.save_name == b.save_name
    &&& a.save_pattern == b.save_pattern
    &&& a.tmp_dir == b.tmp_dir
    &&& a.log_file_path == b.log_file_path
    &&& a.base_url == b.base_url
    &&& a.thread_count == b.thread_count
    &&& a.retry_count == b.retry_count
    &&& a.http_timeout == b.http_timeout
    &&& a.headers == b.headers
    &&& a.proxy_mode == b.proxy_mode
    &&& a.proxy_address == b.proxy_address
    &&& a.max_speed == b.max_speed
    &&& a.concurrent_download == b.concurrent_download
    &&& a.ui_language == b.ui_language
    &&& a.ffmpeg_path == b.ffmpeg_path
    &&& a.decryption_engine == b.decryption_engine
    &&& a.decryption_binary == b.decryption_binary
    &&& a.auto_select == b.auto_select
    &&& a.select_video == b.select_video
    &&& a.select_audio == b.select_audio
    &&& a.select_subtitle == b.select_subtitle
    &&& a.drop_video == b.drop_video
    &&& a.drop_audio == b.drop_audio
    &&& a.drop_subtitle == b.drop_subtitle
    &&& a.sub_only == b.sub_only
    &&& a.sub_format == b.sub_format
    &&& a.key == b.key
    &&& a.key_text_file == b.key_text_file
    &&& a.custom_hls_method == b.custom_hls_method
    &&& a.custom_hls_key == b.custom_hls_key
    &&& a.custom_hls_iv == b.custom_hls_iv
    &&& a.mp4_realtime_decryption == b.mp4_realtime_decryption
    &&& a.binary_merge == b.binary_merge
    &&& a.skip_merge == b.skip_merge
    &&& a.del_after_done == b.del_after_done
    &&& a.no_date_info == b.no_date_info
    &&& a.mux_after_done == b.mux_after_done
    &&& a.mux_import == b.mux_import
    &&& a.live_perform_as_vod == b.live_perform_as_vod
    &&& a.live_realtime_merge == b.live_realtime_merge
    &&& a.live_keep_segments == b.live_keep_segments
    &&& a.live_pipe_mux == b.live_pipe_mux
    &&& a.live_fix_vtt_by_audio == b.live_fix_vtt_by_audio
    &&& a.live_record_limit == b.live_record_limit
    &&& a.live_wait_time == b.live_wait_time
    &&& a.live_take_count == b.live_take_count
    &&& a.append_url_params == b.append_url_params
    &&& a.check_segments_count == b.check_segments_count
    &&& a.write_meta_json == b.write_meta_json
    &&& a.no_log == b.no_log
    &&& a.log_level == b.log_level
    &&& a.urlprocessor_args == b.urlprocessor_args
    &&& a.custom_range == b.custom_range
    &&& a.task_start_at == b.task_start_at
    &&& a.ad_keyword == b.ad_keyword
    &&& a.allow_hls_multi_ext_map == b.allow_hls_multi_ext_map
    &&& a.disable_update_check == b.disable_update_check
    &&& a.force_ansi_console == b.force_ansi_console
    &&& a.use_ffmpeg_concat_demuxer == b.use_ffmpeg_concat_demuxer
}

proof fn lemma_same_saving_args(a: App, b: App)
    requires
        same_options(a, b),
    ensures
        saving_args(a) == saving_args(b),
{
}

proof fn lemma_same_transfer_args(a: App, b: App)
    requires
        same_options(a, b),
    ensures
        transfer_args(a) == transfer_args(b),
{
}

proof fn lemma_same_network_args(a: App, b: App)
    requires
        same_options(a, b),
    ensures
        network_args(a) == network_args(b),
{
}

proof fn lemma_same_binaries_args(a: App, b: App)
    requires
        same_options(a, b),
    ensures
        binaries_args(a) == binaries_args(b),
{
}

proof fn lemma_same_streams_args(a: App, b: App)
    requires
        same_options(a, b),
    ensures
        streams_args(a) == streams_args(b),
{
}

proof fn lemma_same_subtitles_args(a: App, b: App)
    requires
        same_options(a, b),
    ensures
        subtitles_args(a) == subtitles_args(b),
{
}

proof fn lemma_same_decryption_args(a: App, b: App)
    requires
        same_options(a, b),
    ensures
        decryption_args(a) == decryption_args(b),
{
}

proof fn lemma_same_merging_args(a: App, b: App)
    requires
        same_options(a, b),
    ensures
        merging_args(a) == merging_args(b),
{
}

proof fn lemma_same_live_switches_args(a: App, b: App)
    requires
        same_options(a, b),
    ensures
        live_switches_args(a) == live_switches_args(b),
{
}

proof fn lemma_same_live_values_args(a: App, b: App)
    requires
        same_options(a, b),
    ensures
        live_values_args(a) == live_values_args(b),
{
}

proof fn lemma_same_diagnostics_args(a: App, b: App)
    requires
        same_options(a, b),
    ensures
        diagnostics_args(a) == diagnostics_args(b),
{
}

proof fn lemma_same_advanced_args(a: App, b: App)
    requires
        same_options(a, b),
    ensures
        advanced_args(a) == advanced_args(b),
{
}

proof fn lemma_same_compatibility_args(a: App, b: App)
    requires
        same_options(a, b),
    ensures
        compatibility_args(a) == compatibility_args(b),
{
}

/// The downloader's arguments depend on the form's options alone.
pub proof fn law_arguments_depend_only_on_options(a: App, b: App)
    requires
        same_options(a, b),
    ensures
        spec_build_args(a) == spec_build_args(b),
{
    lemma_same_saving_args(a, b);
    lemma_same_transfer_args(a, b);
    lemma_same_network_args(a, b);
    lemma_same_binaries_args(a, b);
    lemma_same_streams_args(a, b);
    lemma_same_subtitles_args(a, b);
    lemma_same_decryption_args(a, b);
    lemma_same_merging_args(a, b);
    lemma_same_live_switches_args(a, b);
    lemma_same_live_values_args(a, b);
    lemma_same_diagnostics_args(a, b);
    lemma_same_advanced_args(a, b);
    lemma_same_compatibility_args(a, b);
}

/// The command preview leaves the downloader's path out: changing it does
/// not change the preview.
pub proof fn law_preview_ignores_downloader_path(a: App, x: String)
    ensures
        preview(App { exe_path: x, ..a }) == preview(a),
{
    law_arguments_depend_only_on_options(App { exe_path: x, ..a }, a);
}

/// A start that goes on to a run launches the downloader with the arguments
/// of the form as it was when Start was pressed.
pub proof fn law_start_launches_the_form_arguments(
    a: App,
    b: App,
    e: Effect,
    found: Option<String>,
    c: App,
    e2: Effect,
)
    requires
        stepped(a, Message::Start, b, e),
        launched(b, found, c, e2),
    ensures
        e2 matches Effect::Launch { args, capture, .. } ==> views(args@) == run_args(a, capture),
{
    reveal(refused);
    reveal(started);
    if !a.running {
        law_arguments_depend_only_on_options(a, b);
    }
}

/// A console choice is saved at once: the settings that its step asks to
/// write bring it back at the next launch (with everything else the form
/// saves unchanged).
pub proof fn law_console_choice_comes_back(
    a: App,
    x: bool,
    b: App,
    saved: crate::config::Settings,
    exe_dir: Option<String>,
    found: Option<String>,
    c: App,
)
    requires
        stepped(a, Message::ExternalConsoleToggled(x), b, Effect::SaveSettings(saved)),
        initial(saved, exe_dir, found, c),
    ensures
        b.external_console == x,
        c.external_console == x,
        c.proxy_address == a.proxy_address,
        c.headers == a.headers,
        c.ffmpeg_path == a.ffmpeg_path,
        c.theme_mode == a.theme_mode,
{
}

proof fn lemma_edit_stores_exe_path(a: App, m: Message, b: App, e: Effect)
    requires
        m is ExePathChanged,
        stepped(a, m, b, e),
    ensures
        b.exe_path == m->ExePathChanged_0,
        e == Effect::Nothing,
{
    reveal(edited);
}

proof fn lemma_edit_stores_input(a: App, m: Message, b: App, e: Effect)
    requires
        m is InputChanged,
        stepped(a, m, b, e),
    ensures
        b.input == m->InputChanged_0,
        e == Effect::Nothing,
{
    reveal(edited);
}

proof fn lemma_edit_stores_save_dir(a: App, m: Message, b: App, e: Effect)
    requires
        m is SaveDirChanged,
        stepped(a, m, b, e),
    ensures
        b.save_dir == m->SaveDirChanged_0,
        e == Effect::Nothing,
{
    reveal(edited);
}

proof fn lemma_edit_stores_save_name(a: App, m: Message, b: App, e: Effect)
    requires
        m is SaveNameChanged,
        stepped(a, m, b, e),
    ensures
        b.save_name == m->SaveNameChanged_0,
        e == Effect::Nothing,
{
    reveal(edited);
}

proof fn lemma_edit_stores_save_pattern(a: App, m: Message, b: App, e: Effect)
    requires
        m is SavePatternChanged,
        stepped(a, m, b, e),
    ensures
        b.save_pattern == m->SavePatternChanged_0,
        e == Effect::Nothing,
{
    reveal(edited);
}

proof fn lemma_edit_stores_tmp_dir(a: App, m: Message, b: App, e: Effect)
    requires
        m is TmpDirChanged,
        stepped(a, m, b, e),
    ensures
        b.tmp_dir == m->TmpDirChanged_0,
        e == Effect::Nothing,
{
    reveal(edited);
}

proof fn lemma_edit_stores_log_file_path(a: App, m: Message, b: App, e: Effect)
    requires
        m is LogFilePathChanged,
        stepped(a, m, b, e),
    ensures
        b.log_file_path == m->LogFilePathChanged_0,
        e == Effect::Nothing,
{
    reveal(edited);
}

proof fn lemma_edit_stores_base_url(a: App, m: Message, b: App, e: Effect)
    requires
        m is BaseUrlChanged,
        stepped(a, m, b, e),
    ensures
        b.base_url == m->BaseUrlChanged_0,
        e == Effect::Nothing,
{
    reveal(edited);
}

proof fn lemma_edit_stores_thread_count(a: App, m: Message, b: App, e: Effect)
    requires
        m is ThreadCountChanged,
        stepped(a, m, b, e),
    ensures
        b.thread_count == m->ThreadCountChanged_0,
        e == Effect::Nothing,
{
    reveal(edited);
}

proof fn lemma_edit_stores_retry_count(a: App, m: Message, b: App, e: Effect)
    requires
        m is RetryCountChanged,
        stepped(a, m, b, e),
    ensures
        b.retry_count == m->RetryCountChanged_0,
        e == Effect::Nothing,
{
    reveal(edited);
}

proof fn lemma_edit_stores_http_timeout(a: App, m: Message, b: App, e: Effect)
    requires
        m is HttpTimeoutChanged,
        stepped(a, m, b, e),
    ensures
        b.http_timeout == m->HttpTimeoutChanged_0,
        e == Effect::Nothing,
{
    reveal(edited);
}

proof fn lemma_edit_stores_headers(a: App, m: Message, b: App, e: Effect)
    requires
        m is HeadersEdited,
        stepped(a, m, b, e),
    ensures
        b.headers == m->HeadersEdited_0,
        e == Effect::Nothing,
{
    reveal(edited);
}

proof fn lemma_edit_stores_proxy_mode(a: App, m: Message, b: App, e: Effect)
    requires
        m is ProxyModeSelected,
        stepped(a, m, b, e),
    ensures
        b.proxy_mode == m->ProxyModeSelected_0,
        e == Effect::Nothing,
{
    reveal(edited);
}

proof fn lemma_edit_stores_proxy_address(a: App, m: Message, b: App, e: Effect)
    requires
        m is ProxyAddressChanged,
        stepped(a, m, b, e),
    ensures
        b.proxy_address == m->ProxyAddressChanged_0,
        e == Effect::Nothing,
{
    reveal(edited);
}

proof fn lemma_edit_stores_max_speed(a: App, m: Message, b: App, e: Effect)
    requires
        m is MaxSpeedChanged,
        stepped(a, m, b, e),
    ensures
        b.max_speed == m->MaxSpeedChanged_0,
        e == Effect::Nothing,
{
    reveal(edited);
}

proof fn lemma_edit_stores_concurrent_download(a: App, m: Message, b: App, e: Effect)
    requires
        m is ConcurrentToggled,
        stepped(a, m, b, e),
    ensures
        b.concurrent_download == m->ConcurrentToggled_0,
        e == Effect::Nothing,
{
    reveal(edited);
}

proof fn lemma_edit_stores_ui_language(a: App, m: Message, b: App, e: Effect)
    requires
        m is UiLanguageSelected,
        stepped(a, m, b, e),
    ensures
        b.ui_language == m->UiLanguageSelected_0,
        e == Effect::Nothing,
{
    reveal(edited);
}

proof fn lemma_edit_stores_ffmpeg_path(a: App, m: Message, b: App, e: Effect)
    requires
        m is FfmpegPathChanged,
        stepped(a, m, b, e),
    ensures
        b.ffmpeg_path == m->FfmpegPathChanged_0,
        e == Effect::Nothing,
{
    reveal(edited);
}

proof fn lemma_edit_stores_decryption_engine(a: App, m: Message, b: App, e: Effect)
    requires
        m is DecryptionEngineSelected,
        stepped(a, m, b, e),
    ensures
        b.decryption_engine == m->DecryptionEngineSelected_0,
        e == Effect::Nothing,
{
    reveal(edited);
}

proof fn lemma_edit_stores_decryption_binary(a: App, m: Message, b: App, e: Effect)
    requires
        m is DecryptionBinaryChanged,
        stepped(a, m, b, e),
    ensures
        b.decryption_binary == m->DecryptionBinaryChanged_0,
        e == Effect::Nothing,
{
    reveal(edited);
}

proof fn lemma_edit_stores_auto_select(a: App, m: Message, b: App, e: Effect)
    requires
        m is AutoSelectToggled,
        stepped(a, m, b, e),
    ensures
        b.auto_select == m->AutoSelectToggled_0,
        e == Effect::Nothing,
{
    reveal(edited);
}

proof fn lemma_edit_stores_select_video(a: App, m: Message, b: App, e: Effect)
    requires
        m is SelectVideoChanged,
        stepped(a, m, b, e),
    ensures
        b.select_video == m->SelectVideoChanged_0,
        e == Effect::Nothing,
{
    reveal(edited);
}

proof fn lemma_edit_stores_select_audio(a: App, m: Message, b: App, e: Effect)
    requires
        m is SelectAudioChanged,
        stepped(a, m, b, e),
    ensures
        b.select_audio == m->SelectAudioChanged_0,
        e == Effect::Nothing,
{
    reveal(edited);
}

proof fn lemma_edit_stores_select_subtitle(a: App, m: Message, b: App, e: Effect)
    requires
        m is SelectSubtitleChanged,
        stepped(a, m, b, e),
    ensures
        b.select_subtitle == m->SelectSubtitleChanged_0,
        e == Effect::Nothing,
{
    reveal(edited);
}

proof fn lemma_edit_stores_drop_video(a: App, m: Message, b: App, e: Effect)
    requires
        m is DropVideoChanged,
        stepped(a, m, b, e),
    ensures
        b.drop_video == m->DropVideoChanged_0,
        e == Effect::Nothing,
{
    reveal(edited);
}

proof fn lemma_edit_stores_drop_audio(a: App, m: Message, b: App, e: Effect)
    requires
        m is DropAudioChanged,
        stepped(a, m, b, e),
    ensures
        b.drop_audio == m->DropAudioChanged_0,
        e == Effect::Nothing,
{
    reveal(edited);
}

proof fn lemma_edit_stores_drop_subtitle(a: App, m: Message, b: App, e: Effect)
    requires
        m is DropSubtitleChanged,
        stepped(a, m, b, e),
    ensures
        b.drop_subtitle == m->DropSubtitleChanged_0,
        e == Effect::Nothing,
{
    reveal(edited);
}

proof fn lemma_edit_stores_sub_only(a: App, m: Message, b: App, e: Effect)
    requires
        m is SubOnlyToggled,
        stepped(a, m, b, e),
    ensures
        b.sub_only == m->SubOnlyToggled_0,
        e == Effect::Nothing,
{
    reveal(edited);
}

proof fn lemma_edit_stores_sub_format(a: App, m: Message, b: App, e: Effect)
    requires
        m is SubFormatSelected,
        stepped(a, m, b, e),
    ensures
        b.sub_format == m->SubFormatSelected_0,
        e == Effect::Nothing,
{
    reveal(edited);
}

proof fn lemma_edit_stores_key(a: App, m: Message, b: App, e: Effect)
    requires
        m is KeyChanged,
        stepped(a, m, b, e),
    ensures
        b.key == m->KeyChanged_0,
        e == Effect::Nothing,
{
    reveal(edited);
}

proof fn lemma_edit_stores_key_text_file(a: App, m: Message, b: App, e: Effect)
    requires
        m is KeyTextFileChanged,
        stepped(a, m, b, e),
    ensures
        b.key_text_file == m->KeyTextFileChanged_0,
        e == Effect::Nothing,
{
    reveal(edited);
}

proof fn lemma_edit_stores_custom_hls_method(a: App, m: Message, b: App, e: Effect)
    requires
        m is CustomHlsMethodSelected,
        stepped(a, m, b, e),
    ensures
        b.custom_hls_method == m->CustomHlsMethodSelected_0,
        e == Effect::Nothing,
{
    reveal(edited);
}

proof fn lemma_edit_stores_custom_hls_key(a: App, m: Message, b: App, e: Effect)
    requires
        m is CustomHlsKeyChanged,
        stepped(a, m, b, e),
    ensures
        b.custom_hls_key == m->CustomHlsKeyChanged_0,
        e == Effect::Nothing,
{
    reveal(edited);
}

proof fn lemma_edit_stores_custom_hls_iv(a: App, m: Message, b: App, e: Effect)
    requires
        m is CustomHlsIvChanged,
        stepped(a, m, b, e),
    ensures
        b.custom_hls_iv == m->CustomHlsIvChanged_0,
        e == Effect::Nothing,
{
    reveal(edited);
}

proof fn lemma_edit_stores_mp4_realtime_decryption(a: App, m: Message, b: App, e: Effect)
    requires
        m is Mp4RealtimeDecryptionToggled,
        stepped(a, m, b, e),
    ensures
        b.mp4_realtime_decryption == m->Mp4RealtimeDecryptionToggled_0,
        e == Effect::Nothing,
{
    reveal(edited);
}

proof fn lemma_edit_stores_binary_merge(a: App, m: Message, b: App, e: Effect)
    requires
        m is BinaryMergeToggled,
        stepped(a, m, b, e),
    ensures
        b.binary_merge == m->BinaryMergeToggled_0,
        e == Effect::Nothing,
{
    reveal(edited);
}

proof fn lemma_edit_stores_skip_merge(a: App, m: Message, b: App, e: Effect)
    requires
        m is SkipMergeToggled,
        stepped(a, m, b, e),
    ensures
        b.skip_merge == m->SkipMergeToggled_0,
        e == Effect::Nothing,
{
    reveal(edited);
}

proof fn lemma_edit_stores_del_after_done(a: App, m: Message, b: App, e: Effect)
    requires
        m is DelAfterDoneToggled,
        stepped(a, m, b, e),
    ensures
        b.del_after_done == m->DelAfterDoneToggled_0,
        e == Effect::Nothing,
{
    reveal(edited);
}

proof fn lemma_edit_stores_no_date_info(a: App, m: Message, b: App, e: Effect)
    requires
        m is NoDateInfoToggled,
        stepped(a, m, b, e),
    ensures
        b.no_date_info == m->NoDateInfoToggled_0,
        e == Effect::Nothing,
{
    reveal(edited);
}

proof fn lemma_edit_stores_mux_after_done(a: App, m: Message, b: App, e: Effect)
    requires
        m is MuxAfterDoneChanged,
        stepped(a, m, b, e),
    ensures
        b.mux_after_done == m->MuxAfterDoneChanged_0,
        e == Effect::Nothing,
{
    reveal(edited);
}

proof fn lemma_edit_stores_mux_import(a: App, m: Message, b: App, e: Effect)
    requires
        m is MuxImportChanged,
        stepped(a, m, b, e),
    ensures
        b.mux_import == m->MuxImportChanged_0,
        e == Effect::Nothing,
{
    reveal(edited);
}

proof fn lemma_edit_stores_live_perform_as_vod(a: App, m: Message, b: App, e: Effect)
    requires
        m is LivePerformAsVodToggled,
        stepped(a, m, b, e),
    ensures
        b.live_perform_as_vod == m->LivePerformAsVodToggled_0,
        e == Effect::Nothing,
{
    reveal(edited);
}

proof fn lemma_edit_stores_live_realtime_merge(a: App, m: Message, b: App, e: Effect)
    requires
        m is LiveRealtimeMergeToggled,
        stepped(a, m, b, e),
    ensures
        b.live_realtime_merge == m->LiveRealtimeMergeToggled_0,
        e == Effect::Nothing,
{
    reveal(edited);
}

proof fn lemma_edit_stores_live_keep_segments(a: App, m: Message, b: App, e: Effect)
    requires
        m is LiveKeepSegmentsToggled,
        stepped(a, m, b, e),
    ensures
        b.live_keep_segments == m->LiveKeepSegmentsToggled_0,
        e == Effect::Nothing,
{
    reveal(edited);
}

proof fn lemma_edit_stores_live_pipe_mux(a: App, m: Message, b: App, e: Effect)
    requires
        m is LivePipeMuxToggled,
        stepped(a, m, b, e),
    ensures
        b.live_pipe_mux == m->LivePipeMuxToggled_0,
        e == Effect::Nothing,
{
    reveal(edited);
}

proof fn lemma_edit_stores_live_fix_vtt_by_audio(a: App, m: Message, b: App, e: Effect)
    requires
        m is LiveFixVttByAudioToggled,
        stepped(a, m, b, e),
    ensures
        b.live_fix_vtt_by_audio == m->LiveFixVttByAudioToggled_0,
        e == Effect::Nothing,
{
    reveal(edited);
}

proof fn lemma_edit_stores_live_record_limit(a: App, m: Message, b: App, e: Effect)
    requires
        m is LiveRecordLimitChanged,
        stepped(a, m, b, e),
    ensures
        b.live_record_limit == m->LiveRecordLimitChanged_0,
        e == Effect::Nothing,
{
    reveal(edited);
}

proof fn lemma_edit_stores_live_wait_time(a: App, m: Message, b: App, e: Effect)
    requires
        m is LiveWaitTimeChanged,
        stepped(a, m, b, e),
    ensures
        b.live_wait_time == m->LiveWaitTimeChanged_0,
        e == Effect::Nothing,
{
    reveal(edited);
}

proof fn lemma_edit_stores_live_take_count(a: App, m: Message, b: App, e: Effect)
    requires
        m is LiveTakeCountChanged,
        stepped(a, m, b, e),
    ensures
        b.live_take_count == m->LiveTakeCountChanged_0,
        e == Effect::Nothing,
{
    reveal(edited);
}

proof fn lemma_edit_stores_append_url_params(a: App, m: Message, b: App, e: Effect)
    requires
        m is AppendUrlParamsToggled,
        stepped(a, m, b, e),
    ensures
        b.append_url_params == m->AppendUrlParamsToggled_0,
        e == Effect::Nothing,
{
    reveal(edited);
}

proof fn lemma_edit_stores_check_segments_count(a: App, m: Message, b: App, e: Effect)
    requires
        m is CheckSegmentsCountToggled,
        stepped(a, m, b, e),
    ensures
        b.check_segments_count == m->CheckSegmentsCountToggled_0,
        e == Effect::Nothing,
{
    reveal(edited);
}

proof fn lemma_edit_stores_write_meta_json(a: App, m: Message, b: App, e: Effect)
    requires
        m is WriteMetaJsonToggled,
        stepped(a, m, b, e),
    ensures
        b.write_meta_json == m->WriteMetaJsonToggled_0,
        e == Effect::Nothing,
{
    reveal(edited);
}

proof fn lemma_edit_stores_no_log(a: App, m: Message, b: App, e: Effect)
    requires
        m is NoLogToggled,
        stepped(a, m, b, e),
    ensures
        b.no_log == m->NoLogToggled_0,
        e == Effect::Nothing,
{
    reveal(edited);
}

proof fn lemma_edit_stores_log_level(a: App, m: Message, b: App, e: Effect)
    requires
        m is LogLevelSelected,
        stepped(a, m, b, e),
    ensures
        b.log_level == m->LogLevelSelected_0,
        e == Effect::Nothing,
{
    reveal(edited);
}

proof fn lemma_edit_stores_urlprocessor_args(a: App, m: Message, b: App, e: Effect)
    requires
        m is UrlprocessorArgsChanged,
        stepped(a, m, b, e),
    ensures
        b.urlprocessor_args == m->UrlprocessorArgsChanged_0,
        e == Effect::Nothing,
{
    reveal(edited);
}

proof fn lemma_edit_stores_custom_range(a: App, m: Message, b: App, e: Effect)
    requires
        m is CustomRangeChanged,
        stepped(a, m, b, e),
    ensures
        b.custom_range == m->CustomRangeChanged_0,
        e == Effect::Nothing,
{
    reveal(edited);
}

proof fn lemma_edit_stores_task_start_at(a: App, m: Message, b: App, e: Effect)
    requires
        m is TaskStartAtChanged,
        stepped(a, m, b, e),
    ensures
        b.task_start_at == m->TaskStartAtChanged_0,
        e == Effect::Nothing,
{
    reveal(edited);
}

proof fn lemma_edit_stores_ad_keyword(a: App, m: Message, b: App, e: Effect)
    requires
        m is AdKeywordChanged,
        stepped(a, m, b, e),
    ensures
        b.ad_keyword == m->AdKeywordChanged_0,
        e == Effect::Nothing,
{
    reveal(edited);
}

proof fn lemma_edit_stores_allow_hls_multi_ext_map(a: App, m: Message, b: App, e: Effect)
    requires
        m is AllowHlsMultiExtMapToggled,
        stepped(a, m, b, e),
    ensures
        b.allow_hls_multi_ext_map == m->AllowHlsMultiExtMapToggled_0,
        e == Effect::Nothing,
{
    reveal(edited);
}

proof fn lemma_edit_stores_disable_update_check(a: App, m: Message, b: App, e: Effect)
    requires
        m is DisableUpdateCheckToggled,
        stepped(a, m, b, e),
    ensures
        b.disable_update_check == m->DisableUpdateCheckToggled_0,
        e == Effect::Nothing,
{
    reveal(edited);
}

proof fn lemma_edit_stores_force_ansi_console(a: App, m: Message, b: App, e: Effect)
    requires
        m is ForceAnsiConsoleToggled,
        stepped(a, m, b, e),
    ensures
        b.force_ansi_console == m->ForceAnsiConsoleToggled_0,
        e == Effect::Nothing,
{
    reveal(edited);
}

proof fn lemma_edit_stores_use_ffmpeg_concat_demuxer(a: App, m: Message, b: App, e: Effect)
    requires
        m is UseFfmpegConcatDemuxerToggled,
        stepped(a, m, b, e),
    ensures
        b.use_ffmpeg_concat_demuxer == m->UseFfmpegConcatDemuxerToggled_0,
        e == Effect::Nothing,
{
    reveal(edited);
}

proof fn lemma_edit_stores_tab(a: App, m: Message, b: App, e: Effect)
    requires
        m is TabSelected,
        stepped(a, m, b, e),
    ensures
        b.tab == m->TabSelected_0,
        e == Effect::Nothing,
{
    reveal(edited);
}

/// An edit stores the value it carries: after a message that edits a field
/// with the value `x`, that field is `x` (not a function of it), and no
/// outside work is asked for.
pub proof fn law_edits_store_their_value(a: App, m: Message, b: App, e: Effect)
    requires
        stepped(a, m, b, e),
    ensures
        m matches Message::ExePathChanged(x) ==> b.exe_path == x,
        m matches Message::InputChanged(x) ==> b.input == x,
        m matches Message::SaveDirChanged(x) ==> b.save_dir == x,
        m matches Message::SaveNameChanged(x) ==> b.save_name == x,
        m matches Message::SavePatternChanged(x) ==> b.save_pattern == x,
        m matches Message::TmpDirChanged(x) ==> b.tmp_dir == x,
        m matches Message::LogFilePathChanged(x) ==> b.log_file_path == x,
        m matches Message::BaseUrlChanged(x) ==> b.base_url == x,
        m matches Message::ThreadCountChanged(x) ==> b.thread_count == x,
        m matches Message::RetryCountChanged(x) ==> b.retry_count == x,
        m matches Message::HttpTimeoutChanged(x) ==> b.http_timeout == x,
        m matches Message::HeadersEdited(x) ==> b.headers == x,
        m matches Message::ProxyModeSelected(x) ==> b.proxy_mode == x,
        m matches Message::ProxyAddressChanged(x) ==> b.proxy_address == x,
        m matches Message::MaxSpeedChanged(x) ==> b.max_speed == x,
        m matches Message::ConcurrentToggled(x) ==> b.concurrent_download == x,
        m matches Message::UiLanguageSelected(x) ==> b.ui_language == x,
        m matches Message::FfmpegPathChanged(x) ==> b.ffmpeg_path == x,
        m matches Message::DecryptionEngineSelected(x) ==> b.decryption_engine == x,
        m matches Message::DecryptionBinaryChanged(x) ==> b.decryption_binary == x,
        m matches Message::AutoSelectToggled(x) ==> b.auto_select == x,
        m matches Message::SelectVideoChanged(x) ==> b.select_video == x,
        m matches Message::SelectAudioChanged(x) ==> b.select_audio == x,
        m matches Message::SelectSubtitleChanged(x) ==> b.select_subtitle == x,
        m matches Message::DropVideoChanged(x) ==> b.drop_video == x,
        m matches Message::DropAudioChanged(x) ==> b.drop_audio == x,
        m matches Message::DropSubtitleChanged(x) ==> b.drop_subtitle == x,
        m matches Message::SubOnlyToggled(x) ==> b.sub_only == x,
        m matches Message::SubFormatSelected(x) ==> b.sub_format == x,
        m matches Message::KeyChanged(x) ==> b.key == x,
        m matches Message::KeyTextFileChanged(x) ==> b.key_text_file == x,
        m matches Message::CustomHlsMethodSelected(x) ==> b.custom_hls_method == x,
        m matches Message::CustomHlsKeyChanged(x) ==> b.custom_hls_key == x,
        m matches Message::CustomHlsIvChanged(x) ==> b.custom_hls_iv == x,
        m matches Message::Mp4RealtimeDecryptionToggled(x) ==> b.mp4_realtime_decryption == x,
        m matches Message::BinaryMergeToggled(x) ==> b.binary_merge == x,
        m matches Message::SkipMergeToggled(x) ==> b.skip_merge == x,
        m matches Message::DelAfterDoneToggled(x) ==> b.del_after_done == x,
        m matches Message::NoDateInfoToggled(x) ==> b.no_date_info == x,
        m matches Message::MuxAfterDoneChanged(x) ==> b.mux_after_done == x,
        m matches Message::MuxImportChanged(x) ==> b.mux_import == x,
        m matches Message::LivePerformAsVodToggled(x) ==> b.live_perform_as_vod == x,
        m matches Message::LiveRealtimeMergeToggled(x) ==> b.live_realtime_merge == x,
        m matches Message::LiveKeepSegmentsToggled(x) ==> b.live_keep_segments == x,
        m matches Message::LivePipeMuxToggled(x) ==> b.live_pipe_mux == x,
        m matches Message::LiveFixVttByAudioToggled(x) ==> b.live_fix_vtt_by_audio == x,
        m matches Message::LiveRecordLimitChanged(x) ==> b.live_record_limit == x,
        m matches Message::LiveWaitTimeChanged(x) ==> b.live_wait_time == x,
        m matches Message::LiveTakeCountChanged(x) ==> b.live_take_count == x,
        m matches Message::AppendUrlParamsToggled(x) ==> b.append_url_params == x,
        m matches Message::CheckSegmentsCountToggled(x) ==> b.check_segments_count == x,
        m matches Message::WriteMetaJsonToggled(x) ==> b.write_meta_json == x,
        m matches Message::NoLogToggled(x) ==> b.no_log == x,
        m matches Message::LogLevelSelected(x) ==> b.log_level == x,
        m matches Message::UrlprocessorArgsChanged(x) ==> b.urlprocessor_args == x,
        m matches Message::CustomRangeChanged(x) ==> b.custom_range == x,
        m matches Message::TaskStartAtChanged(x) ==> b.task_start_at == x,
        m matches Message::AdKeywordChanged(x) ==> b.ad_keyword == x,
        m matches Message::AllowHlsMultiExtMapToggled(x) ==> b.allow_hls_multi_ext_map == x,
        m matches Message::DisableUpdateCheckToggled(x) ==> b.disable_update_check == x,
        m matches Message::ForceAnsiConsoleToggled(x) ==> b.force_ansi_console == x,
        m matches Message::UseFfmpegConcatDemuxerToggled(x) ==> b.use_ffmpeg_concat_demuxer == x,
        m matches Message::TabSelected(x) ==> b.tab == x,
        crate::step::is_edit(m) ==> e == Effect::Nothing,
{
    match m {
        Message::ExePathChanged(..) => lemma_edit_stores_exe_path(a, m, b, e),
        Message::InputChanged(..) => lemma_edit_stores_input(a, m, b, e),
        Message::SaveDirChanged(..) => lemma_edit_stores_save_dir(a, m, b, e),
        Message::SaveNameChanged(..) => lemma_edit_stores_save_name(a, m, b, e),
        Message::SavePatternChanged(..) => lemma_edit_stores_save_pattern(a, m, b, e),
        Message::TmpDirChanged(..) => lemma_edit_stores_tmp_dir(a, m, b, e),
        Message::LogFilePathChanged(..) => lemma_edit_stores_log_file_path(a, m, b, e),
        Message::BaseUrlChanged(..) => lemma_edit_stores_base_url(a, m, b, e),
        Message::ThreadCountChanged(..) => lemma_edit_stores_thread_count(a, m, b, e),
        Message::RetryCountChanged(..) => lemma_edit_stores_retry_count(a, m, b, e),
        Message::HttpTimeoutChanged(..) => lemma_edit_stores_http_timeout(a, m, b, e),
        Message::HeadersEdited(..) => lemma_edit_stores_headers(a, m, b, e),
        Message::ProxyModeSelected(..) => lemma_edit_stores_proxy_mode(a, m, b, e),
        Message::ProxyAddressChanged(..) => lemma_edit_stores_proxy_address(a, m, b, e),
        Message::MaxSpeedChanged(..) => lemma_edit_stores_max_speed(a, m, b, e),
        Message::ConcurrentToggled(..) => lemma_edit_stores_concurrent_download(a, m, b, e),
        Message::UiLanguageSelected(..) => lemma_edit_stores_ui_language(a, m, b, e),
        Message::FfmpegPathChanged(..) => lemma_edit_stores_ffmpeg_path(a, m, b, e),
        Message::DecryptionEngineSelected(..) => lemma_edit_stores_decryption_engine(a, m, b, e),
        Message::DecryptionBinaryChanged(..) => lemma_edit_stores_decryption_binary(a, m, b, e),
        Message::AutoSelectToggled(..) => lemma_edit_stores_auto_select(a, m, b, e),
        Message::SelectVideoChanged(..) => lemma_edit_stores_select_video(a, m, b, e),
        Message::SelectAudioChanged(..) => lemma_edit_stores_select_audio(a, m, b, e),
        Message::SelectSubtitleChanged(..) => lemma_edit_stores_select_subtitle(a, m, b, e),
        Message::DropVideoChanged(..) => lemma_edit_stores_drop_video(a, m, b, e),
        Message::DropAudioChanged(..) => lemma_edit_stores_drop_audio(a, m, b, e),
        Message::DropSubtitleChanged(..) => lemma_edit_stores_drop_subtitle(a, m, b, e),
        Message::SubOnlyToggled(..) => lemma_edit_stores_sub_only(a, m, b, e),
        Message::SubFormatSelected(..) => lemma_edit_stores_sub_format(a, m, b, e),
        Message::KeyChanged(..) => lemma_edit_stores_key(a, m, b, e),
        Message::KeyTextFileChanged(..) => lemma_edit_stores_key_text_file(a, m, b, e),
        Message::CustomHlsMethodSelected(..) => lemma_edit_stores_custom_hls_method(a, m, b, e),
        Message::CustomHlsKeyChanged(..) => lemma_edit_stores_custom_hls_key(a, m, b, e),
        Message::CustomHlsIvChanged(..) => lemma_edit_stores_custom_hls_iv(a, m, b, e),
        Message::Mp4RealtimeDecryptionToggled(..) => lemma_edit_stores_mp4_realtime_decryption(a, m, b, e),
        Message::BinaryMergeToggled(..) => lemma_edit_stores_binary_merge(a, m, b, e),
        Message::SkipMergeToggled(..) => lemma_edit_stores_skip_merge(a, m, b, e),
        Message::DelAfterDoneToggled(..) => lemma_edit_stores_del_after_done(a, m, b, e),
        Message::NoDateInfoToggled(..) => lemma_edit_stores_no_date_info(a, m, b, e),
        Message::MuxAfterDoneChanged(..) => lemma_edit_stores_mux_after_done(a, m, b, e),
        Message::MuxImportChanged(..) => lemma_edit_stores_mux_import(a, m, b, e),
        Message::LivePerformAsVodToggled(..) => lemma_edit_stores_live_perform_as_vod(a, m, b, e),
        Message::LiveRealtimeMergeToggled(..) => lemma_edit_stores_live_realtime_merge(a, m, b, e),
        Message::LiveKeepSegmentsToggled(..) => lemma_edit_stores_live_keep_segments(a, m, b, e),
        Message::LivePipeMuxToggled(..) => lemma_edit_stores_live_pipe_mux(a, m, b, e),
        Message::LiveFixVttByAudioToggled(..) => lemma_edit_stores_live_fix_vtt_by_audio(a, m, b, e),
        Message::LiveRecordLimitChanged(..) => lemma_edit_stores_live_record_limit(a, m, b, e),
        Message::LiveWaitTimeChanged(..) => lemma_edit_stores_live_wait_time(a, m, b, e),
        Message::LiveTakeCountChanged(..) => lemma_edit_stores_live_take_count(a, m, b, e),
        Message::AppendUrlParamsToggled(..) => lemma_edit_stores_append_url_params(a, m, b, e),
        Message::CheckSegmentsCountToggled(..) => lemma_edit_stores_check_segments_count(a, m, b, e),
        Message::WriteMetaJsonToggled(..) => lemma_edit_stores_write_meta_json(a, m, b, e),
        Message::NoLogToggled(..) => lemma_edit_stores_no_log(a, m, b, e),
        Message::LogLevelSelected(..) => lemma_edit_stores_log_level(a, m, b, e),
        Message::UrlprocessorArgsChanged(..) => lemma_edit_stores_urlprocessor_args(a, m, b, e),
        Message::CustomRangeChanged(..) => lemma_edit_stores_custom_range(a, m, b, e),
        Message::TaskStartAtChanged(..) => lemma_edit_stores_task_start_at(a, m, b, e),
        Message::AdKeywordChanged(..) => lemma_edit_stores_ad_keyword(a, m, b, e),
        Message::AllowHlsMultiExtMapToggled(..) => lemma_edit_stores_allow_hls_multi_ext_map(a, m, b, e),
        Message::DisableUpdateCheckToggled(..) => lemma_edit_stores_disable_update_check(a, m, b, e),
        Message::ForceAnsiConsoleToggled(..) => lemma_edit_stores_force_ansi_console(a, m, b, e),
        Message::UseFfmpegConcatDemuxerToggled(..) => lemma_edit_stores_use_ffmpeg_concat_demuxer(a, m, b, e),
        Message::TabSelected(..) => lemma_edit_stores_tab(a, m, b, e),
        _ => {},
    }
}

/// The form at launch passes no switch: every switch starts at the
/// downloader's own default (off, but for deleting temporary files, keeping
/// live segments, checking the segment count and writing the meta file,
/// which the downloader does by default), whatever the remembered settings.
pub proof fn law_launch_form_passes_no_switch(
    settings: crate::config::Settings,
    exe_dir: Option<String>,
    found: Option<String>,
    a: App,
)
    requires
        initial(settings, exe_dir, found, a),
    ensures
        !a.concurrent_download,
        !a.auto_select,
        !a.sub_only,
        !a.mp4_realtime_decryption,
        !a.binary_merge,
        !a.skip_merge,
        a.del_after_done,
        !a.no_date_info,
        !a.live_perform_as_vod,
        !a.live_realtime_merge,
        a.live_keep_segments,
        !a.live_pipe_mux,
        !a.live_fix_vtt_by_audio,
        !a.append_url_params,
        a.check_segments_count,
        a.write_meta_json,
        !a.no_log,
        !a.allow_hls_multi_ext_map,
        !a.disable_update_check,
        !a.force_ansi_console,
        !a.use_ffmpeg_concat_demuxer,
        flag_args("--concurrent-download"@, a.concurrent_download, false).len() == 0,
        flag_args("--auto-select"@, a.auto_select, false).len() == 0,
        flag_args("--sub-only"@, a.sub_only, false).len() == 0,
        flag_args("--mp4-real-time-decryption"@, a.mp4_realtime_decryption, false).len() == 0,
        flag_args("--binary-merge"@, a.binary_merge, false).len() == 0,
        flag_args("--skip-merge"@, a.skip_merge, false).len() == 0,
        flag_args("--del-after-done"@, a.del_after_done, true).len() == 0,
        flag_args("--no-date-info"@, a.no_date_info, false).len() == 0,
        flag_args("--live-perform-as-vod"@, a.live_perform_as_vod, false).len() == 0,
        flag_args("--live-real-time-merge"@, a.live_realtime_merge, false).len() == 0,
        flag_args("--live-keep-segments"@, a.live_keep_segments, true).len() == 0,
        flag_args("--live-pipe-mux"@, a.live_pipe_mux, false).len() == 0,
        flag_args("--live-fix-vtt-by-audio"@, a.live_fix_vtt_by_audio, false).len() == 0,
        flag_args("--append-url-params"@, a.append_url_params, false).len() == 0,
        flag_args("--check-segments-count"@, a.check_segments_count, true).len() == 0,
        flag_args("--write-meta-json"@, a.write_meta_json, true).len() == 0,
        flag_args("--no-log"@, a.no_log, false).len() == 0,
        flag_args("--allow-hls-multi-ext-map"@, a.allow_hls_multi_ext_map, false).len() == 0,
        flag_args("--disable-update-check"@, a.disable_update_check, false).len() == 0,
        flag_args("--force-ansi-console"@, a.force_ansi_console, false).len() == 0,
        flag_args("--use-ffmpeg-concat-demuxer"@, a.use_ffmpeg_concat_demuxer, false).len() == 0,
{
}

/// Whether the arguments `args` pass the option `name` with the value
/// `value`: `name` stands somewhere among them, immediately followed by
/// `value`.
pub open spec fn passes_option(args: Seq<Seq<char>>, name: Seq<char>, value: Seq<char>) -> bool {
    exists|i: int| 0 <= i && i + 1 < args.len() && #[trigger] args[i] == name && args[i + 1] == value
}

pub broadcast proof fn lemma_passes_option_in_concat(
    s: Seq<Seq<char>>,
    t: Seq<Seq<char>>,
    name: Seq<char>,
    value: Seq<char>,
)
    ensures
        (passes_option(s, name, value) || passes_option(t, name, value)) ==> #[trigger] passes_option(
            s + t,
            name,
            value,
        ),
{
    if passes_option(s, name, value) {
        let i = choose|i: int| 0 <= i && i + 1 < s.len() && #[trigger] s[i] == name && s[i + 1] == value;
        assert((s + t)[i] == s[i] && (s + t)[i + 1] == s[i + 1]);
    } else if passes_option(t, name, value) {
        let i = choose|i: int| 0 <= i && i + 1 < t.len() && #[trigger] t[i] == name && t[i + 1] == value;
        assert((s + t)[s.len() + i] == t[i] && (s + t)[s.len() + i + 1] == t[i + 1]);
    }
}

proof fn lemma_opt_args_passes(name: Seq<char>, value: Seq<char>)
    ensures
        !is_blank(value) ==> passes_option(opt_args(name, value), name, trim(value)),
{
    if !is_blank(value) {
        assert(opt_args(name, value)[0] == name);
    }
}

proof fn lemma_always_args_passes(name: Seq<char>, value: Seq<char>, default: Seq<char>)
    ensures
        passes_option(
            always_args(name, value, default),
            name,
            if is_blank(value) { default } else { trim(value) },
        ),
{
    assert(always_args(name, value, default)[0] == name);
}

/// Every text option of the form that is not blank is passed to the
/// downloader under its own flag, followed by its trimmed text; the thread,
/// retry and timeout counts are always passed (8, 10 and 10 where blank).
pub proof fn law_text_options_are_passed(a: App)
    ensures
        !is_blank(a.save_dir@) ==> passes_option(spec_build_args(a), "--save-dir"@, trim(a.save_dir@)),
        !is_blank(a.save_name@) ==> passes_option(spec_build_args(a), "--save-name"@, trim(a.save_name@)),
        !is_blank(a.save_pattern@) ==> passes_option(spec_build_args(a), "--save-pattern"@, trim(a.save_pattern@)),
        !is_blank(a.tmp_dir@) ==> passes_option(spec_build_args(a), "--tmp-dir"@, trim(a.tmp_dir@)),
        !is_blank(a.log_file_path@) ==> passes_option(spec_build_args(a), "--log-file-path"@, trim(a.log_file_path@)),
        !is_blank(a.base_url@) ==> passes_option(spec_build_args(a), "--base-url"@, trim(a.base_url@)),
        !is_blank(a.max_speed@) ==> passes_option(spec_build_args(a), "-R"@, trim(a.max_speed@)),
        !is_blank(a.ffmpeg_path@) ==> passes_option(spec_build_args(a), "--ffmpeg-binary-path"@, trim(a.ffmpeg_path@)),
        !is_blank(a.decryption_binary@) ==> passes_option(spec_build_args(a), "--decryption-binary-path"@, trim(a.decryption_binary@)),
        !is_blank(a.select_video@) ==> passes_option(spec_build_args(a), "-sv"@, trim(a.select_video@)),
        !is_blank(a.select_audio@) ==> passes_option(spec_build_args(a), "-sa"@, trim(a.select_audio@)),
        !is_blank(a.select_subtitle@) ==> passes_option(spec_build_args(a), "-ss"@, trim(a.select_subtitle@)),
        !is_blank(a.drop_video@) ==> passes_option(spec_build_args(a), "-dv"@, trim(a.drop_video@)),
        !is_blank(a.drop_audio@) ==> passes_option(spec_build_args(a), "-da"@, trim(a.drop_audio@)),
        !is_blank(a.drop_subtitle@) ==> passes_option(spec_build_args(a), "-ds"@, trim(a.drop_subtitle@)),
        !is_blank(a.key@) ==> passes_option(spec_build_args(a), "--key"@, trim(a.key@)),
        !is_blank(a.key_text_file@) ==> passes_option(spec_build_args(a), "--key-text-file"@, trim(a.key_text_file@)),
        !is_blank(a.custom_hls_key@) ==> passes_option(spec_build_args(a), "--custom-hls-key"@, trim(a.custom_hls_key@)),
        !is_blank(a.custom_hls_iv@) ==> passes_option(spec_build_args(a), "--custom-hls-iv"@, trim(a.custom_hls_iv@)),
        !is_blank(a.mux_after_done@) ==> passes_option(spec_build_args(a), "-M"@, trim(a.mux_after_done@)),
        !is_blank(a.mux_import@) ==> passes_option(spec_build_args(a), "--mux-import"@, trim(a.mux_import@)),
        !is_blank(a.live_record_limit@) ==> passes_option(spec_build_args(a), "--live-record-limit"@, trim(a.live_record_limit@)),
        !is_blank(a.live_wait_time@) ==> passes_option(spec_build_args(a), "--live-wait-time"@, trim(a.live_wait_time@)),
        !is_blank(a.live_take_count@) ==> passes_option(spec_build_args(a), "--live-take-count"@, trim(a.live_take_count@)),
        !is_blank(a.urlprocessor_args@) ==> passes_option(spec_build_args(a), "--urlprocessor-args"@, trim(a.urlprocessor_args@)),
        !is_blank(a.custom_range@) ==> passes_option(spec_build_args(a), "--custom-range"@, trim(a.custom_range@)),
        !is_blank(a.task_start_at@) ==> passes_option(spec_build_args(a), "--task-start-at"@, trim(a.task_start_at@)),
        !is_blank(a.ad_keyword@) ==> passes_option(spec_build_args(a), "--ad-keyword"@, trim(a.ad_keyword@)),
        passes_option(spec_build_args(a), "--thread-count"@, if is_blank(a.thread_count@) { "8"@ } else { trim(a.thread_count@) }),
        passes_option(spec_build_args(a), "--download-retry-count"@, if is_blank(a.retry_count@) { "10"@ } else { trim(a.retry_count@) }),
        passes_option(spec_build_args(a), "--http-request-timeout"@, if is_blank(a.http_timeout@) { "10"@ } else { trim(a.http_timeout@) }),
{
    broadcast use lemma_passes_option_in_concat;

    lemma_opt_args_passes("--save-dir"@, a.save_dir@);
    lemma_opt_args_passes("--save-name"@, a.save_name@);
    lemma_opt_args_passes("--save-pattern"@, a.save_pattern@);
    lemma_opt_args_passes("--tmp-dir"@, a.tmp_dir@);
    lemma_opt_args_passes("--log-file-path"@, a.log_file_path@);
    lemma_opt_args_passes("--base-url"@, a.base_url@);
    lemma_opt_args_passes("-R"@, a.max_speed@);
    lemma_opt_args_passes("--ffmpeg-binary-path"@, a.ffmpeg_path@);
    lemma_opt_args_passes("--decryption-binary-path"@, a.decryption_binary@);
    lemma_opt_args_passes("-sv"@, a.select_video@);
    lemma_opt_args_passes("-sa"@, a.select_audio@);
    lemma_opt_args_passes("-ss"@, a.select_subtitle@);
    lemma_opt_args_passes("-dv"@, a.drop_video@);
    lemma_opt_args_passes("-da"@, a.drop_audio@);
    lemma_opt_args_passes("-ds"@, a.drop_subtitle@);
    lemma_opt_args_passes("--key"@, a.key@);
    lemma_opt_args_passes("--key-text-file"@, a.key_text_file@);
    lemma_opt_args_passes("--custom-hls-key"@, a.custom_hls_key@);
    lemma_opt_args_passes("--custom-hls-iv"@, a.custom_hls_iv@);
    lemma_opt_args_passes("-M"@, a.mux_after_done@);
    lemma_opt_args_passes("--mux-import"@, a.mux_import@);
    lemma_opt_args_passes("--live-record-limit"@, a.live_record_limit@);
    lemma_opt_args_passes("--live-wait-time"@, a.live_wait_time@);
    lemma_opt_args_passes("--live-take-count"@, a.live_take_count@);
    lemma_opt_args_passes("--urlprocessor-args"@, a.urlprocessor_args@);
    lemma_opt_args_passes("--custom-range"@, a.custom_range@);
    lemma_opt_args_passes("--task-start-at"@, a.task_start_at@);
    lemma_opt_args_passes("--ad-keyword"@, a.ad_keyword@);
    lemma_always_args_passes("--thread-count"@, a.thread_count@, "8"@);
    lemma_always_args_passes("--download-retry-count"@, a.retry_count@, "10"@);
    lemma_always_args_passes("--http-request-timeout"@, a.http_timeout@, "10"@);
}

} // verus!
