//! One step of the form: how each message changes the form and which
//! outside work it asks for.
use crate::app::{
    App, CustomHlsMethod, DecryptionEngine, Effect, LogEvent, LogLevel, Message, ProxyMode, SubFormat,
    Tab, ThemeMode, UiLanguage, preview, settings_of,
};
use crate::log::logged;
use vstd::prelude::*;
use vstd::string::StringExecFns;

verus! {

/// The form after a text, switch or choice was edited: that field takes the
/// new value and nothing else changes.
#[verifier::opaque]
pub open spec fn edited(a: App, m: Message, b: App) -> bool {
    match m {
        Message::ExePathChanged(x) => b == App { exe_path: x, ..a },
        Message::InputChanged(x) => b == App { input: x, ..a },
        Message::SaveDirChanged(x) => b == App { save_dir: x, ..a },
        Message::SaveNameChanged(x) => b == App { save_name: x, ..a },
        Message::SavePatternChanged(x) => b == App { save_pattern: x, ..a },
        Message::TmpDirChanged(x) => b == App { tmp_dir: x, ..a },
        Message::LogFilePathChanged(x) => b == App { log_file_path: x, ..a },
        Message::BaseUrlChanged(x) => b == App { base_url: x, ..a },
        Message::ThreadCountChanged(x) => b == App { thread_count: x, ..a },
        Message::RetryCountChanged(x) => b == App { retry_count: x, ..a },
        Message::HttpTimeoutChanged(x) => b == App { http_timeout: x, ..a },
        Message::HeadersEdited(x) => b == App { headers: x, ..a },
        Message::ProxyModeSelected(x) => b == App { proxy_mode: x, ..a },
        Message::ProxyAddressChanged(x) => b == App { proxy_address: x, ..a },
        Message::MaxSpeedChanged(x) => b == App { max_speed: x, ..a },
        Message::ConcurrentToggled(x) => b == App { concurrent_download: x, ..a },
        Message::UiLanguageSelected(x) => b == App { ui_language: x, ..a },
        Message::FfmpegPathChanged(x) => b == App { ffmpeg_path: x, ..a },
        Message::DecryptionEngineSelected(x) => b == App { decryption_engine: x, ..a },
        Message::DecryptionBinaryChanged(x) => b == App { decryption_binary: x, ..a },
        Message::AutoSelectToggled(x) => b == App { auto_select: x, ..a },
        Message::SelectVideoChanged(x) => b == App { select_video: x, ..a },
        Message::SelectAudioChanged(x) => b == App { select_audio: x, ..a },
        Message::SelectSubtitleChanged(x) => b == App { select_subtitle: x, ..a },
        Message::DropVideoChanged(x) => b == App { drop_video: x, ..a },
        Message::DropAudioChanged(x) => b == App { drop_audio: x, ..a },
        Message::DropSubtitleChanged(x) => b == App { drop_subtitle: x, ..a },
        Message::SubOnlyToggled(x) => b == App { sub_only: x, ..a },
        Message::SubFormatSelected(x) => b == App { sub_format: x, ..a },
        Message::KeyChanged(x) => b == App { key: x, ..a },
        Message::KeyTextFileChanged(x) => b == App { key_text_file: x, ..a },
        Message::CustomHlsMethodSelected(x) => b == App { custom_hls_method: x, ..a },
        Message::CustomHlsKeyChanged(x) => b == App { custom_hls_key: x, ..a },
        Message::CustomHlsIvChanged(x) => b == App { custom_hls_iv: x, ..a },
        Message::Mp4RealtimeDecryptionToggled(x) => b == App { mp4_realtime_decryption: x, ..a },
        Message::BinaryMergeToggled(x) => b == App { binary_merge: x, ..a },
        Message::SkipMergeToggled(x) => b == App { skip_merge: x, ..a },
        Message::DelAfterDoneToggled(x) => b == App { del_after_done: x, ..a },
        Message::NoDateInfoToggled(x) => b == App { no_date_info: x, ..a },
        Message::MuxAfterDoneChanged(x) => b == App { mux_after_done: x, ..a },
        Message::MuxImportChanged(x) => b == App { mux_import: x, ..a },
        Message::LivePerformAsVodToggled(x) => b == App { live_perform_as_vod: x, ..a },
        Message::LiveRealtimeMergeToggled(x) => b == App { live_realtime_merge: x, ..a },
        Message::LiveKeepSegmentsToggled(x) => b == App { live_keep_segments: x, ..a },
        Message::LivePipeMuxToggled(x) => b == App { live_pipe_mux: x, ..a },
        Message::LiveFixVttByAudioToggled(x) => b == App { live_fix_vtt_by_audio: x, ..a },
        Message::LiveRecordLimitChanged(x) => b == App { live_record_limit: x, ..a },
        Message::LiveWaitTimeChanged(x) => b == App { live_wait_time: x, ..a },
        Message::LiveTakeCountChanged(x) => b == App { live_take_count: x, ..a },
        Message::AppendUrlParamsToggled(x) => b == App { append_url_params: x, ..a },
        Message::CheckSegmentsCountToggled(x) => b == App { check_segments_count: x, ..a },
        Message::WriteMetaJsonToggled(x) => b == App { write_meta_json: x, ..a },
        Message::NoLogToggled(x) => b == App { no_log: x, ..a },
        Message::LogLevelSelected(x) => b == App { log_level: x, ..a },
        Message::UrlprocessorArgsChanged(x) => b == App { urlprocessor_args: x, ..a },
        Message::CustomRangeChanged(x) => b == App { custom_range: x, ..a },
        Message::TaskStartAtChanged(x) => b == App { task_start_at: x, ..a },
        Message::AdKeywordChanged(x) => b == App { ad_keyword: x, ..a },
        Message::AllowHlsMultiExtMapToggled(x) => b == App { allow_hls_multi_ext_map: x, ..a },
        Message::DisableUpdateCheckToggled(x) => b == App { disable_update_check: x, ..a },
        Message::ForceAnsiConsoleToggled(x) => b == App { force_ansi_console: x, ..a },
        Message::UseFfmpegConcatDemuxerToggled(x) => b == App { use_ffmpeg_concat_demuxer: x, ..a },
        Message::TabSelected(x) => b == App { tab: x, ..a },
        _ => false,
    }
}

/// Whether a message edits one field of the form (and does nothing else).
pub open spec fn is_edit(m: Message) -> bool {
    match m {
        Message::BrowseExe => false,
        Message::BrowseSaveDir => false,
        Message::BrowseTmpDir => false,
        Message::BrowseLogFile => false,
        Message::ExePathChosen(..) => false,
        Message::SaveDirChosen(..) => false,
        Message::TmpDirChosen(..) => false,
        Message::LogFileChosen(..) => false,
        Message::ExternalConsoleToggled(..) => false,
        Message::Start => false,
        Message::LogEvent(..) => false,
        Message::CopyPreview => false,
        Message::OpenOutputFolder => false,
        Message::ClearLog => false,
        _ => true,
    }
}

/// One step of the form: `b` and `e` are the form and the outside work after
/// the message `m` reached the form `a`.
pub open spec fn stepped(a: App, m: Message, b: App, e: Effect) -> bool {
    match m {
        Message::BrowseExe => b == a && e == Effect::PickExe,
        Message::BrowseSaveDir => b == a && e == Effect::PickSaveDir,
        Message::BrowseTmpDir => b == a && e == Effect::PickTmpDir,
        Message::BrowseLogFile => b == a && e == Effect::PickLogFile,
        Message::ExePathChosen(p) => e == Effect::Nothing && b == match p {
            Some(p) => App { exe_path: p, ..a },
            None => a,
        },
        Message::SaveDirChosen(p) => e == Effect::Nothing && b == match p {
            Some(p) => App { save_dir: p, ..a },
            None => a,
        },
        Message::TmpDirChosen(p) => e == Effect::Nothing && b == match p {
            Some(p) => App { tmp_dir: p, ..a },
            None => a,
        },
        Message::LogFileChosen(p) => b == a && e == match p {
            Some(p) => Effect::CheckLogFile(p),
            None => Effect::Nothing,
        },
        Message::ExternalConsoleToggled(x) => b == App { external_console: x, ..a } && e
            == Effect::SaveSettings(settings_of(b)),
        Message::Start => if a.running {
            b == a && e == Effect::Nothing
        } else {
            b.exe_error@.len() == 0 && b == App { exe_error: b.exe_error, ..a } && e
                == Effect::LocateExe(a.exe_path)
        },
        Message::LogEvent(ev) => e == Effect::Nothing && logged(a, ev, b),
        Message::CopyPreview => b == a && (e matches Effect::CopyText(t) && t@ == preview(a)),
        Message::OpenOutputFolder => b == a && e == if a.save_dir@.len() > 0 {
            Effect::OpenFolder(a.save_dir)
        } else {
            Effect::Nothing
        },
        Message::ClearLog => b.log@.len() == 0 && b == App { log: b.log, progress_line: None, ..a }
            && e == Effect::Nothing,
        _ => edited(a, m, b) && e == Effect::Nothing,
    }
}

/// A form with every text empty, every switch off, every choice at its
/// first value, no progress line and no run.
pub open spec fn is_vacant(a: App) -> bool {
    &&& a.exe_path@.len() == 0
    &&& a.input@.len() == 0
    &&& a.exe_error@.len() == 0
    &&& a.save_dir@.len() == 0
    &&& a.save_name@.len() == 0
    &&& a.save_pattern@.len() == 0
    &&& a.tmp_dir@.len() == 0
    &&& a.log_file_path@.len() == 0
    &&& a.base_url@.len() == 0
    &&& a.thread_count@.len() == 0
    &&& a.retry_count@.len() == 0
    &&& a.http_timeout@.len() == 0
    &&& a.headers@.len() == 0
    &&& a.proxy_mode == ProxyMode::System
    &&& a.proxy_address@.len() == 0
    &&& a.max_speed@.len() == 0
    &&& !a.concurrent_download
    &&& a.ui_language == UiLanguage::Default
    &&& a.ffmpeg_path@.len() == 0
    &&& a.decryption_engine == DecryptionEngine::Mp4decrypt
    &&& a.decryption_binary@.len() == 0
    &&& !a.auto_select
    &&& a.select_video@.len() == 0
    &&& a.select_audio@.len() == 0
    &&& a.select_subtitle@.len() == 0
    &&& a.drop_video@.len() == 0
    &&& a.drop_audio@.len() == 0
    &&& a.drop_subtitle@.len() == 0
    &&& !a.sub_only
    &&& a.sub_format == SubFormat::Srt
    &&& a.key@.len() == 0
    &&& a.key_text_file@.len() == 0
    &&& a.custom_hls_method == CustomHlsMethod::Default
    &&& a.custom_hls_key@.len() == 0
    &&& a.custom_hls_iv@.len() == 0
    &&& !a.mp4_realtime_decryption
    &&& !a.binary_merge
    &&& !a.skip_merge
    &&& !a.del_after_done
    &&& !a.no_date_info
    &&& a.mux_after_done@.len() == 0
    &&& a.mux_import@.len() == 0
    &&& !a.live_perform_as_vod
    &&& !a.live_realtime_merge
    &&& !a.live_keep_segments
    &&& !a.live_pipe_mux
    &&& !a.live_fix_vtt_by_audio
    &&& a.live_record_limit@.len() == 0
    &&& a.live_wait_time@.len() == 0
    &&& a.live_take_count@.len() == 0
    &&& !a.append_url_params
    &&& !a.check_segments_count
    &&& !a.write_meta_json
    &&& !a.no_log
    &&& a.log_level == LogLevel::Info
    &&& a.urlprocessor_args@.len() == 0
    &&& a.custom_range@.len() == 0
    &&& a.task_start_at@.len() == 0
    &&& a.ad_keyword@.len() == 0
    &&& !a.allow_hls_multi_ext_map
    &&& !a.disable_update_check
    &&& !a.force_ansi_console
    &&& !a.use_ffmpeg_concat_demuxer
    &&& !a.external_console
    &&& a.theme_mode == ThemeMode::System
    &&& a.tab == Tab::Basic
    &&& a.log@.len() == 0
    &&& a.progress_line is None
    &&& !a.running
    &&& a.run_gen == 0
}

impl App {
    /// A form with every field empty, which holds the place of the form
    /// while a step computes the next one.
    fn vacant() -> (r: App)
        ensures
            is_vacant(r),
    {
        App {
            exe_path: String::new(),
            input: String::new(),
            exe_error: String::new(),
            save_dir: String::new(),
            save_name: String::new(),
            save_pattern: String::new(),
            tmp_dir: String::new(),
            log_file_path: String::new(),
            base_url: String::new(),
            thread_count: String::new(),
            retry_count: String::new(),
            http_timeout: String::new(),
            headers: String::new(),
            proxy_mode: ProxyMode::System,
            proxy_address: String::new(),
            max_speed: String::new(),
            concurrent_download: false,
            ui_language: UiLanguage::Default,
            ffmpeg_path: String::new(),
            decryption_engine: DecryptionEngine::Mp4decrypt,
            decryption_binary: String::new(),
            auto_select: false,
            select_video: String::new(),
            select_audio: String::new(),
            select_subtitle: String::new(),
            drop_video: String::new(),
            drop_audio: String::new(),
            drop_subtitle: String::new(),
            sub_only: false,
            sub_format: SubFormat::Srt,
            key: String::new(),
            key_text_file: String::new(),
            custom_hls_method: CustomHlsMethod::Default,
            custom_hls_key: String::new(),
            custom_hls_iv: String::new(),
            mp4_realtime_decryption: false,
            binary_merge: false,
            skip_merge: false,
            del_after_done: false,
            no_date_info: false,
            mux_after_done: String::new(),
            mux_import: String::new(),
            live_perform_as_vod: false,
            live_realtime_merge: false,
            live_keep_segments: false,
            live_pipe_mux: false,
            live_fix_vtt_by_audio: false,
            live_record_limit: String::new(),
            live_wait_time: String::new(),
            live_take_count: String::new(),
            append_url_params: false,
            check_segments_count: false,
            write_meta_json: false,
            no_log: false,
            log_level: LogLevel::Info,
            urlprocessor_args: String::new(),
            custom_range: String::new(),
            task_start_at: String::new(),
            ad_keyword: String::new(),
            allow_hls_multi_ext_map: false,
            disable_update_check: false,
            force_ansi_console: false,
            use_ffmpeg_concat_demuxer: false,
            external_console: false,
            theme_mode: ThemeMode::System,
            tab: Tab::Basic,
            log: String::new(),
            progress_line: None,
            running: false,
            run_gen: 0,
        }
    }

    /// The form after an edit. Each edit has a function of its own below,
    /// so that each proof is about one field of the form.
    fn edit(self, m: Message) -> (r: App)
        requires
            is_edit(m),
        ensures
            edited(self, m, r),
    {
        match m {
            Message::ExePathChanged(x) => self.edit_exe_path(x),
            Message::InputChanged(x) => self.edit_input(x),
            Message::SaveDirChanged(x) => self.edit_save_dir(x),
            Message::SaveNameChanged(x) => self.edit_save_name(x),
            Message::SavePatternChanged(x) => self.edit_save_pattern(x),
            Message::TmpDirChanged(x) => self.edit_tmp_dir(x),
            Message::LogFilePathChanged(x) => self.edit_log_file_path(x),
            Message::BaseUrlChanged(x) => self.edit_base_url(x),
            Message::ThreadCountChanged(x) => self.edit_thread_count(x),
            Message::RetryCountChanged(x) => self.edit_retry_count(x),
            Message::HttpTimeoutChanged(x) => self.edit_http_timeout(x),
            Message::HeadersEdited(x) => self.edit_headers(x),
            Message::ProxyModeSelected(x) => self.edit_proxy_mode(x),
            Message::ProxyAddressChanged(x) => self.edit_proxy_address(x),
            Message::MaxSpeedChanged(x) => self.edit_max_speed(x),
            Message::ConcurrentToggled(x) => self.edit_concurrent_download(x),
            Message::UiLanguageSelected(x) => self.edit_ui_language(x),
            Message::FfmpegPathChanged(x) => self.edit_ffmpeg_path(x),
            Message::DecryptionEngineSelected(x) => self.edit_decryption_engine(x),
            Message::DecryptionBinaryChanged(x) => self.edit_decryption_binary(x),
            Message::AutoSelectToggled(x) => self.edit_auto_select(x),
            Message::SelectVideoChanged(x) => self.edit_select_video(x),
            Message::SelectAudioChanged(x) => self.edit_select_audio(x),
            Message::SelectSubtitleChanged(x) => self.edit_select_subtitle(x),
            Message::DropVideoChanged(x) => self.edit_drop_video(x),
            Message::DropAudioChanged(x) => self.edit_drop_audio(x),
            Message::DropSubtitleChanged(x) => self.edit_drop_subtitle(x),
            Message::SubOnlyToggled(x) => self.edit_sub_only(x),
            Message::SubFormatSelected(x) => self.edit_sub_format(x),
            Message::KeyChanged(x) => self.edit_key(x),
            Message::KeyTextFileChanged(x) => self.edit_key_text_file(x),
            Message::CustomHlsMethodSelected(x) => self.edit_custom_hls_method(x),
            Message::CustomHlsKeyChanged(x) => self.edit_custom_hls_key(x),
            Message::CustomHlsIvChanged(x) => self.edit_custom_hls_iv(x),
            Message::Mp4RealtimeDecryptionToggled(x) => self.edit_mp4_realtime_decryption(x),
            Message::BinaryMergeToggled(x) => self.edit_binary_merge(x),
            Message::SkipMergeToggled(x) => self.edit_skip_merge(x),
            Message::DelAfterDoneToggled(x) => self.edit_del_after_done(x),
            Message::NoDateInfoToggled(x) => self.edit_no_date_info(x),
            Message::MuxAfterDoneChanged(x) => self.edit_mux_after_done(x),
            Message::MuxImportChanged(x) => self.edit_mux_import(x),
            Message::LivePerformAsVodToggled(x) => self.edit_live_perform_as_vod(x),
            Message::LiveRealtimeMergeToggled(x) => self.edit_live_realtime_merge(x),
            Message::LiveKeepSegmentsToggled(x) => self.edit_live_keep_segments(x),
            Message::LivePipeMuxToggled(x) => self.edit_live_pipe_mux(x),
            Message::LiveFixVttByAudioToggled(x) => self.edit_live_fix_vtt_by_audio(x),
            Message::LiveRecordLimitChanged(x) => self.edit_live_record_limit(x),
            Message::LiveWaitTimeChanged(x) => self.edit_live_wait_time(x),
            Message::LiveTakeCountChanged(x) => self.edit_live_take_count(x),
            Message::AppendUrlParamsToggled(x) => self.edit_append_url_params(x),
            Message::CheckSegmentsCountToggled(x) => self.edit_check_segments_count(x),
            Message::WriteMetaJsonToggled(x) => self.edit_write_meta_json(x),
            Message::NoLogToggled(x) => self.edit_no_log(x),
            Message::LogLevelSelected(x) => self.edit_log_level(x),
            Message::UrlprocessorArgsChanged(x) => self.edit_urlprocessor_args(x),
            Message::CustomRangeChanged(x) => self.edit_custom_range(x),
            Message::TaskStartAtChanged(x) => self.edit_task_start_at(x),
            Message::AdKeywordChanged(x) => self.edit_ad_keyword(x),
            Message::AllowHlsMultiExtMapToggled(x) => self.edit_allow_hls_multi_ext_map(x),
            Message::DisableUpdateCheckToggled(x) => self.edit_disable_update_check(x),
            Message::ForceAnsiConsoleToggled(x) => self.edit_force_ansi_console(x),
            Message::UseFfmpegConcatDemuxerToggled(x) => self.edit_use_ffmpeg_concat_demuxer(x),
            Message::TabSelected(x) => self.edit_tab(x),
            _ => self,
        }
    }

    fn edit_exe_path(self, x: String) -> (r: App)
        ensures
            edited(self, Message::ExePathChanged(x), r),
    {
        proof {
            reveal(edited);
        }
        App { exe_path: x, ..self }
    }

    fn edit_input(self, x: String) -> (r: App)
        ensures
            edited(self, Message::InputChanged(x), r),
    {
        proof {
            reveal(edited);
        }
        App { input: x, ..self }
    }

    fn edit_save_dir(self, x: String) -> (r: App)
        ensures
            edited(self, Message::SaveDirChanged(x), r),
    {
        proof {
            reveal(edited);
        }
        App { save_dir: x, ..self }
    }

    fn edit_save_name(self, x: String) -> (r: App)
        ensures
            edited(self, Message::SaveNameChanged(x), r),
    {
        proof {
            reveal(edited);
        }
        App { save_name: x, ..self }
    }

    fn edit_save_pattern(self, x: String) -> (r: App)
        ensures
            edited(self, Message::SavePatternChanged(x), r),
    {
        proof {
            reveal(edited);
        }
        App { save_pattern: x, ..self }
    }

    fn edit_tmp_dir(self, x: String) -> (r: App)
        ensures
            edited(self, Message::TmpDirChanged(x), r),
    {
        proof {
            reveal(edited);
        }
        App { tmp_dir: x, ..self }
    }

    fn edit_log_file_path(self, x: String) -> (r: App)
        ensures
            edited(self, Message::LogFilePathChanged(x), r),
    {
        proof {
            reveal(edited);
        }
        App { log_file_path: x, ..self }
    }

    fn edit_base_url(self, x: String) -> (r: App)
        ensures
            edited(self, Message::BaseUrlChanged(x), r),
    {
        proof {
            reveal(edited);
        }
        App { base_url: x, ..self }
    }

    fn edit_thread_count(self, x: String) -> (r: App)
        ensures
            edited(self, Message::ThreadCountChanged(x), r),
    {
        proof {
            reveal(edited);
        }
        App { thread_count: x, ..self }
    }

    fn edit_retry_count(self, x: String) -> (r: App)
        ensures
            edited(self, Message::RetryCountChanged(x), r),
    {
        proof {
            reveal(edited);
        }
        App { retry_count: x, ..self }
    }

    fn edit_http_timeout(self, x: String) -> (r: App)
        ensures
            edited(self, Message::HttpTimeoutChanged(x), r),
    {
        proof {
            reveal(edited);
        }
        App { http_timeout: x, ..self }
    }

    fn edit_headers(self, x: String) -> (r: App)
        ensures
            edited(self, Message::HeadersEdited(x), r),
    {
        proof {
            reveal(edited);
        }
        App { headers: x, ..self }
    }

    fn edit_proxy_mode(self, x: ProxyMode) -> (r: App)
        ensures
            edited(self, Message::ProxyModeSelected(x), r),
    {
        proof {
            reveal(edited);
        }
        App { proxy_mode: x, ..self }
    }

    fn edit_proxy_address(self, x: String) -> (r: App)
        ensures
            edited(self, Message::ProxyAddressChanged(x), r),
    {
        proof {
            reveal(edited);
        }
        App { proxy_address: x, ..self }
    }

    fn edit_max_speed(self, x: String) -> (r: App)
        ensures
            edited(self, Message::MaxSpeedChanged(x), r),
    {
        proof {
            reveal(edited);
        }
        App { max_speed: x, ..self }
    }

    fn edit_concurrent_download(self, x: bool) -> (r: App)
        ensures
            edited(self, Message::ConcurrentToggled(x), r),
    {
        proof {
            reveal(edited);
        }
        App { concurrent_download: x, ..self }
    }

    fn edit_ui_language(self, x: UiLanguage) -> (r: App)
        ensures
            edited(self, Message::UiLanguageSelected(x), r),
    {
        proof {
            reveal(edited);
        }
        App { ui_language: x, ..self }
    }

    fn edit_ffmpeg_path(self, x: String) -> (r: App)
        ensures
            edited(self, Message::FfmpegPathChanged(x), r),
    {
        proof {
            reveal(edited);
        }
        App { ffmpeg_path: x, ..self }
    }

    fn edit_decryption_engine(self, x: DecryptionEngine) -> (r: App)
        ensures
            edited(self, Message::DecryptionEngineSelected(x), r),
    {
        proof {
            reveal(edited);
        }
        App { decryption_engine: x, ..self }
    }

    fn edit_decryption_binary(self, x: String) -> (r: App)
        ensures
            edited(self, Message::DecryptionBinaryChanged(x), r),
    {
        proof {
            reveal(edited);
        }
        App { decryption_binary: x, ..self }
    }

    fn edit_auto_select(self, x: bool) -> (r: App)
        ensures
            edited(self, Message::AutoSelectToggled(x), r),
    {
        proof {
            reveal(edited);
        }
        App { auto_select: x, ..self }
    }

    fn edit_select_video(self, x: String) -> (r: App)
        ensures
            edited(self, Message::SelectVideoChanged(x), r),
    {
        proof {
            reveal(edited);
        }
        App { select_video: x, ..self }
    }

    fn edit_select_audio(self, x: String) -> (r: App)
        ensures
            edited(self, Message::SelectAudioChanged(x), r),
    {
        proof {
            reveal(edited);
        }
        App { select_audio: x, ..self }
    }

    fn edit_select_subtitle(self, x: String) -> (r: App)
        ensures
            edited(self, Message::SelectSubtitleChanged(x), r),
    {
        proof {
            reveal(edited);
        }
        App { select_subtitle: x, ..self }
    }

    fn edit_drop_video(self, x: String) -> (r: App)
        ensures
            edited(self, Message::DropVideoChanged(x), r),
    {
        proof {
            reveal(edited);
        }
        App { drop_video: x, ..self }
    }

    fn edit_drop_audio(self, x: String) -> (r: App)
        ensures
            edited(self, Message::DropAudioChanged(x), r),
    {
        proof {
            reveal(edited);
        }
        App { drop_audio: x, ..self }
    }

    fn edit_drop_subtitle(self, x: String) -> (r: App)
        ensures
            edited(self, Message::DropSubtitleChanged(x), r),
    {
        proof {
            reveal(edited);
        }
        App { drop_subtitle: x, ..self }
    }

    fn edit_sub_only(self, x: bool) -> (r: App)
        ensures
            edited(self, Message::SubOnlyToggled(x), r),
    {
        proof {
            reveal(edited);
        }
        App { sub_only: x, ..self }
    }

    fn edit_sub_format(self, x: SubFormat) -> (r: App)
        ensures
            edited(self, Message::SubFormatSelected(x), r),
    {
        proof {
            reveal(edited);
        }
        App { sub_format: x, ..self }
    }

    fn edit_key(self, x: String) -> (r: App)
        ensures
            edited(self, Message::KeyChanged(x), r),
    {
        proof {
            reveal(edited);
        }
        App { key: x, ..self }
    }

    fn edit_key_text_file(self, x: String) -> (r: App)
        ensures
            edited(self, Message::KeyTextFileChanged(x), r),
    {
        proof {
            reveal(edited);
        }
        App { key_text_file: x, ..self }
    }

    fn edit_custom_hls_method(self, x: CustomHlsMethod) -> (r: App)
        ensures
            edited(self, Message::CustomHlsMethodSelected(x), r),
    {
        proof {
            reveal(edited);
        }
        App { custom_hls_method: x, ..self }
    }

    fn edit_custom_hls_key(self, x: String) -> (r: App)
        ensures
            edited(self, Message::CustomHlsKeyChanged(x), r),
    {
        proof {
            reveal(edited);
        }
        App { custom_hls_key: x, ..self }
    }

    fn edit_custom_hls_iv(self, x: String) -> (r: App)
        ensures
            edited(self, Message::CustomHlsIvChanged(x), r),
    {
        proof {
            reveal(edited);
        }
        App { custom_hls_iv: x, ..self }
    }

    fn edit_mp4_realtime_decryption(self, x: bool) -> (r: App)
        ensures
            edited(self, Message::Mp4RealtimeDecryptionToggled(x), r),
    {
        proof {
            reveal(edited);
        }
        App { mp4_realtime_decryption: x, ..self }
    }

    fn edit_binary_merge(self, x: bool) -> (r: App)
        ensures
            edited(self, Message::BinaryMergeToggled(x), r),
    {
        proof {
            reveal(edited);
        }
        App { binary_merge: x, ..self }
    }

    fn edit_skip_merge(self, x: bool) -> (r: App)
        ensures
            edited(self, Message::SkipMergeToggled(x), r),
    {
        proof {
            reveal(edited);
        }
        App { skip_merge: x, ..self }
    }

    fn edit_del_after_done(self, x: bool) -> (r: App)
        ensures
            edited(self, Message::DelAfterDoneToggled(x), r),
    {
        proof {
            reveal(edited);
        }
        App { del_after_done: x, ..self }
    }

    fn edit_no_date_info(self, x: bool) -> (r: App)
        ensures
            edited(self, Message::NoDateInfoToggled(x), r),
    {
        proof {
            reveal(edited);
        }
        App { no_date_info: x, ..self }
    }

    fn edit_mux_after_done(self, x: String) -> (r: App)
        ensures
            edited(self, Message::MuxAfterDoneChanged(x), r),
    {
        proof {
            reveal(edited);
        }
        App { mux_after_done: x, ..self }
    }

    fn edit_mux_import(self, x: String) -> (r: App)
        ensures
            edited(self, Message::MuxImportChanged(x), r),
    {
        proof {
            reveal(edited);
        }
        App { mux_import: x, ..self }
    }

    fn edit_live_perform_as_vod(self, x: bool) -> (r: App)
        ensures
            edited(self, Message::LivePerformAsVodToggled(x), r),
    {
        proof {
            reveal(edited);
        }
        App { live_perform_as_vod: x, ..self }
    }

    fn edit_live_realtime_merge(self, x: bool) -> (r: App)
        ensures
            edited(self, Message::LiveRealtimeMergeToggled(x), r),
    {
        proof {
            reveal(edited);
        }
        App { live_realtime_merge: x, ..self }
    }

    fn edit_live_keep_segments(self, x: bool) -> (r: App)
        ensures
            edited(self, Message::LiveKeepSegmentsToggled(x), r),
    {
        proof {
            reveal(edited);
        }
        App { live_keep_segments: x, ..self }
    }

    fn edit_live_pipe_mux(self, x: bool) -> (r: App)
        ensures
            edited(self, Message::LivePipeMuxToggled(x), r),
    {
        proof {
            reveal(edited);
        }
        App { live_pipe_mux: x, ..self }
    }

    fn edit_live_fix_vtt_by_audio(self, x: bool) -> (r: App)
        ensures
            edited(self, Message::LiveFixVttByAudioToggled(x), r),
    {
        proof {
            reveal(edited);
        }
        App { live_fix_vtt_by_audio: x, ..self }
    }

    fn edit_live_record_limit(self, x: String) -> (r: App)
        ensures
            edited(self, Message::LiveRecordLimitChanged(x), r),
    {
        proof {
            reveal(edited);
        }
        App { live_record_limit: x, ..self }
    }

    fn edit_live_wait_time(self, x: String) -> (r: App)
        ensures
            edited(self, Message::LiveWaitTimeChanged(x), r),
    {
        proof {
            reveal(edited);
        }
        App { live_wait_time: x, ..self }
    }

    fn edit_live_take_count(self, x: String) -> (r: App)
        ensures
            edited(self, Message::LiveTakeCountChanged(x), r),
    {
        proof {
            reveal(edited);
        }
        App { live_take_count: x, ..self }
    }

    fn edit_append_url_params(self, x: bool) -> (r: App)
        ensures
            edited(self, Message::AppendUrlParamsToggled(x), r),
    {
        proof {
            reveal(edited);
        }
        App { append_url_params: x, ..self }
    }

    fn edit_check_segments_count(self, x: bool) -> (r: App)
        ensures
            edited(self, Message::CheckSegmentsCountToggled(x), r),
    {
        proof {
            reveal(edited);
        }
        App { check_segments_count: x, ..self }
    }

    fn edit_write_meta_json(self, x: bool) -> (r: App)
        ensures
            edited(self, Message::WriteMetaJsonToggled(x), r),
    {
        proof {
            reveal(edited);
        }
        App { write_meta_json: x, ..self }
    }

    fn edit_no_log(self, x: bool) -> (r: App)
        ensures
            edited(self, Message::NoLogToggled(x), r),
    {
        proof {
            reveal(edited);
        }
        App { no_log: x, ..self }
    }

    fn edit_log_level(self, x: LogLevel) -> (r: App)
        ensures
            edited(self, Message::LogLevelSelected(x), r),
    {
        proof {
            reveal(edited);
        }
        App { log_level: x, ..self }
    }

    fn edit_urlprocessor_args(self, x: String) -> (r: App)
        ensures
            edited(self, Message::UrlprocessorArgsChanged(x), r),
    {
        proof {
            reveal(edited);
        }
        App { urlprocessor_args: x, ..self }
    }

    fn edit_custom_range(self, x: String) -> (r: App)
        ensures
            edited(self, Message::CustomRangeChanged(x), r),
    {
        proof {
            reveal(edited);
        }
        App { custom_range: x, ..self }
    }

    fn edit_task_start_at(self, x: String) -> (r: App)
        ensures
            edited(self, Message::TaskStartAtChanged(x), r),
    {
        proof {
            reveal(edited);
        }
        App { task_start_at: x, ..self }
    }

    fn edit_ad_keyword(self, x: String) -> (r: App)
        ensures
            edited(self, Message::AdKeywordChanged(x), r),
    {
        proof {
            reveal(edited);
        }
        App { ad_keyword: x, ..self }
    }

    fn edit_allow_hls_multi_ext_map(self, x: bool) -> (r: App)
        ensures
            edited(self, Message::AllowHlsMultiExtMapToggled(x), r),
    {
        proof {
            reveal(edited);
        }
        App { allow_hls_multi_ext_map: x, ..self }
    }

    fn edit_disable_update_check(self, x: bool) -> (r: App)
        ensures
            edited(self, Message::DisableUpdateCheckToggled(x), r),
    {
        proof {
            reveal(edited);
        }
        App { disable_update_check: x, ..self }
    }

    fn edit_force_ansi_console(self, x: bool) -> (r: App)
        ensures
            edited(self, Message::ForceAnsiConsoleToggled(x), r),
    {
        proof {
            reveal(edited);
        }
        App { force_ansi_console: x, ..self }
    }

    fn edit_use_ffmpeg_concat_demuxer(self, x: bool) -> (r: App)
        ensures
            edited(self, Message::UseFfmpegConcatDemuxerToggled(x), r),
    {
        proof {
            reveal(edited);
        }
        App { use_ffmpeg_concat_demuxer: x, ..self }
    }

    fn edit_tab(self, x: Tab) -> (r: App)
        ensures
            edited(self, Message::TabSelected(x), r),
    {
        proof {
            reveal(edited);
        }
        App { tab: x, ..self }
    }

    /// The form and the outside work after a message reached the form.
    fn step(self, m: Message) -> (r: (App, Effect))
        ensures
            stepped(self, m, r.0, r.1),
    {
        match m {
            Message::BrowseExe => (self, Effect::PickExe),
            Message::BrowseSaveDir => (self, Effect::PickSaveDir),
            Message::BrowseTmpDir => (self, Effect::PickTmpDir),
            Message::BrowseLogFile => (self, Effect::PickLogFile),
            Message::ExePathChosen(p) => match p {
                Some(p) => (App { exe_path: p, ..self }, Effect::Nothing),
                None => (self, Effect::Nothing),
            },
            Message::SaveDirChosen(p) => match p {
                Some(p) => (App { save_dir: p, ..self }, Effect::Nothing),
                None => (self, Effect::Nothing),
            },
            Message::TmpDirChosen(p) => match p {
                Some(p) => (App { tmp_dir: p, ..self }, Effect::Nothing),
                None => (self, Effect::Nothing),
            },
            Message::LogFileChosen(p) => match p {
                Some(p) => (self, Effect::CheckLogFile(p)),
                None => (self, Effect::Nothing),
            },
            Message::ExternalConsoleToggled(x) => {
                let b = App { external_console: x, ..self };
                let s = b.save_settings();
                (b, Effect::SaveSettings(s))
            },
            Message::Start => {
                if self.running {
                    (self, Effect::Nothing)
                } else {
                    let exe = self.exe_path.clone();
                    (App { exe_error: String::new(), ..self }, Effect::LocateExe(exe))
                }
            },
            Message::LogEvent(ev) => {
                let mut b = self;
                match ev {
                    LogEvent::Line(s) => b.log_line(s),
                    LogEvent::Progress(s) => b.log_progress(s),
                    LogEvent::Done(r) => b.log_done(r),
                }
                (b, Effect::Nothing)
            },
            Message::CopyPreview => {
                let t = self.command_preview();
                (self, Effect::CopyText(t))
            },
            Message::OpenOutputFolder => {
                if !self.save_dir.as_str().is_empty() {
                    let d = self.save_dir.clone();
                    (self, Effect::OpenFolder(d))
                } else {
                    (self, Effect::Nothing)
                }
            },
            Message::ClearLog => (App { log: String::new(), progress_line: None, ..self }, Effect::Nothing),
            m => (self.edit(m), Effect::Nothing),
        }
    }

    /// Handles a message: updates the form and returns the outside work it
    /// asks for.
    pub fn update(&mut self, message: Message) -> (e: Effect)
        ensures
            stepped(*old(self), message, *final(self), e),
    {
        let mut a = App::vacant();
        std::mem::swap(&mut a, self);
        let (b, e) = a.step(message);
        *self = b;
        e
    }
}

} // verus!
