//! The form at launch.
use crate::app::{
    App, CustomHlsMethod, DecryptionEngine, LogLevel, ProxyMode, SubFormat, Tab, UiLanguage,
};
use crate::config::Settings;
use crate::detect::{default_log_path, default_save_dir, default_temp_path, log_file_name, nested_under, placed_under};
use vstd::prelude::*;
use vstd::string::StringExecFns;

verus! {

/// The initial form: the remembered settings, the default folders under the
/// program's directory, and `found` as the downloader where the settings name
/// none; 8 threads, 10 retries and a 10-second timeout filled in; every other
/// option at the downloader's default.
pub open spec fn initial(settings: Settings, exe_dir: Option<String>, found: Option<String>, a: App) -> bool {
    &&& a.exe_path@ == if settings.exe_path@.len() == 0 {
        match found {
            Some(p) => p@,
            None => seq![],
        }
    } else {
        settings.exe_path@
    }
    &&& if settings.save_dir@.len() == 0 {
        match exe_dir {
            Some(d) => placed_under(d@, "downloads"@, a.save_dir@),
            None => a.save_dir@ == "downloads"@,
        }
    } else {
        a.save_dir == settings.save_dir
    }
    &&& match exe_dir {
        Some(d) => placed_under(d@, "temp"@, a.tmp_dir@) && nested_under(
            d@,
            "log"@,
            log_file_name(),
            a.log_file_path@,
        ),
        None => a.tmp_dir@ == "temp"@ && placed_under("log"@, log_file_name(), a.log_file_path@),
    }
    &&& a.headers == settings.headers
    &&& a.ffmpeg_path == settings.ffmpeg_path
    &&& a.thread_count@ == "8"@ && a.retry_count@ == "10"@ && a.http_timeout@ == "10"@
    &&& a.proxy_address == settings.proxy_address
    &&& a.external_console == settings.external_console
    &&& a.theme_mode == settings.theme_mode
    &&& a.proxy_mode == ProxyMode::System
    &&& a.ui_language == UiLanguage::Default
    &&& a.decryption_engine == DecryptionEngine::Default
    &&& a.sub_format == SubFormat::Srt
    &&& a.custom_hls_method == CustomHlsMethod::Default
    &&& a.log_level == LogLevel::Info
    &&& a.tab == Tab::Basic
    &&& a.del_after_done && a.live_keep_segments && a.check_segments_count && a.write_meta_json
    &&& !a.concurrent_download && !a.auto_select && !a.sub_only && !a.mp4_realtime_decryption
    &&& !a.binary_merge && !a.skip_merge && !a.no_date_info && !a.live_perform_as_vod
    &&& !a.live_realtime_merge && !a.live_pipe_mux && !a.live_fix_vtt_by_audio
    &&& !a.append_url_params && !a.no_log && !a.allow_hls_multi_ext_map
    &&& !a.disable_update_check && !a.force_ansi_console && !a.use_ffmpeg_concat_demuxer
    &&& !a.running && a.run_gen == 0 && a.progress_line is None
    &&& a.input@.len() == 0 && a.save_name@.len() == 0 && a.save_pattern@.len() == 0
    &&& a.base_url@.len() == 0 && a.max_speed@.len() == 0
    &&& a.decryption_binary@.len() == 0 && a.select_video@.len() == 0
    &&& a.select_audio@.len() == 0 && a.select_subtitle@.len() == 0
    &&& a.drop_video@.len() == 0 && a.drop_audio@.len() == 0 && a.drop_subtitle@.len() == 0
    &&& a.key@.len() == 0 && a.key_text_file@.len() == 0 && a.custom_hls_key@.len() == 0
    &&& a.custom_hls_iv@.len() == 0 && a.mux_after_done@.len() == 0 && a.mux_import@.len() == 0
    &&& a.live_record_limit@.len() == 0 && a.live_wait_time@.len() == 0
    &&& a.live_take_count@.len() == 0 && a.urlprocessor_args@.len() == 0
    &&& a.custom_range@.len() == 0 && a.task_start_at@.len() == 0 && a.ad_keyword@.len() == 0
    &&& a.log@.len() == 0 && a.exe_error@.len() == 0
}


impl App {
    /// The form at launch, from the remembered settings, the program's
    /// directory (where it is known) and, where the settings name no
    /// downloader, the one that was found.
    pub fn new(settings: Settings, exe_dir: Option<String>, found: Option<String>) -> (r: App)
        ensures
            initial(settings, exe_dir, found, r),
    {
        let exe_path = if settings.exe_path.as_str().is_empty() {
            match found {
                Some(p) => p,
                None => String::new(),
            }
        } else {
            settings.exe_path
        };
        let save_dir = if settings.save_dir.as_str().is_empty() {
            default_save_dir(exe_dir.clone())
        } else {
            settings.save_dir
        };
        let tmp_dir = default_temp_path(exe_dir.clone());
        let log_file_path = default_log_path(exe_dir);
        App {
            exe_path,
            input: String::new(),
            save_dir,
            save_name: String::new(),
            save_pattern: String::new(),
            tmp_dir,
            log_file_path,
            base_url: String::new(),
            thread_count: String::from_str("8"),
            retry_count: String::from_str("10"),
            http_timeout: String::from_str("10"),
            headers: settings.headers,
            proxy_mode: ProxyMode::System,
            proxy_address: settings.proxy_address,
            max_speed: String::new(),
            concurrent_download: false,
            ui_language: UiLanguage::Default,
            ffmpeg_path: settings.ffmpeg_path,
            decryption_engine: DecryptionEngine::Default,
            decryption_binary: String::new(),
            auto_select: false,
            select_video: String::new(),
            select_audio: String::new(),
            select_subtitle: String::new(),
            drop_video: String::new(),
            drop_audio: String::new(),
            drop_subtitle: String::new(),
            sub_only: false,
            sub_format: SubFormat::Srt,
            key: String::new(),
            key_text_file: String::new(),
            custom_hls_method: CustomHlsMethod::Default,
            custom_hls_key: String::new(),
            custom_hls_iv: String::new(),
            mp4_realtime_decryption: false,
            binary_merge: false,
            skip_merge: false,
            del_after_done: true,
            no_date_info: false,
            mux_after_done: String::new(),
            mux_import: String::new(),
            live_perform_as_vod: false,
            live_realtime_merge: false,
            live_keep_segments: true,
            live_pipe_mux: false,
            live_fix_vtt_by_audio: false,
            live_record_limit: String::new(),
            live_wait_time: String::new(),
            live_take_count: String::new(),
            append_url_params: false,
            check_segments_count: true,
            write_meta_json: true,
            no_log: false,
            log_level: LogLevel::Info,
            urlprocessor_args: String::new(),
            custom_range: String::new(),
            task_start_at: String::new(),
            ad_keyword: String::new(),
            allow_hls_multi_ext_map: false,
            disable_update_check: false,
            force_ansi_console: false,
            use_ffmpeg_concat_demuxer: false,
            external_console: settings.external_console,
            theme_mode: settings.theme_mode,
            tab: Tab::Basic,
            log: String::new(),
            progress_line: None,
            running: false,
            run_gen: 0,
            exe_error: String::new(),
        }
    }

}

} // verus!
