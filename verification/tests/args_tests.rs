use m3u8dl_gui::app::{
    App, CustomHlsMethod, DecryptionEngine, LogLevel, ProxyMode, SubFormat, Tab, ThemeMode,
    UiLanguage,
};
use m3u8dl_gui::args::{bool_opt, build_args, opt};

fn sample_app() -> App {
    let mut a = App {
        exe_path: String::new(),
        input: String::new(),
        exe_error: String::new(),
        save_dir: String::new(),
        save_name: String::new(),
        save_pattern: String::new(),
        tmp_dir: String::new(),
        log_file_path: String::new(),
        base_url: String::new(),
        thread_count: String::new(),
        retry_count: String::new(),
        http_timeout: String::new(),
        headers: String::new(),
        proxy_mode: ProxyMode::System,
        proxy_address: String::new(),
        max_speed: String::new(),
        concurrent_download: false,
        ui_language: UiLanguage::Default,
        ffmpeg_path: String::new(),
        decryption_engine: DecryptionEngine::Default,
        decryption_binary: String::new(),
        auto_select: false,
        select_video: String::new(),
        select_audio: String::new(),
        select_subtitle: String::new(),
        drop_video: String::new(),
        drop_audio: String::new(),
        drop_subtitle: String::new(),
        sub_only: false,
        sub_format: SubFormat::Srt,
        key: String::new(),
        key_text_file: String::new(),
        custom_hls_method: CustomHlsMethod::Default,
        custom_hls_key: String::new(),
        custom_hls_iv: String::new(),
        mp4_realtime_decryption: false,
        binary_merge: false,
        skip_merge: false,
        del_after_done: true,
        no_date_info: false,
        mux_after_done: String::new(),
        mux_import: String::new(),
        live_perform_as_vod: false,
        live_realtime_merge: false,
        live_keep_segments: true,
        live_pipe_mux: false,
        live_fix_vtt_by_audio: false,
        live_record_limit: String::new(),
        live_wait_time: String::new(),
        live_take_count: String::new(),
        append_url_params: false,
        check_segments_count: true,
        write_meta_json: true,
        no_log: false,
        log_level: LogLevel::Info,
        urlprocessor_args: String::new(),
        custom_range: String::new(),
        task_start_at: String::new(),
        ad_keyword: String::new(),
        allow_hls_multi_ext_map: false,
        disable_update_check: false,
        force_ansi_console: false,
        use_ffmpeg_concat_demuxer: false,
        external_console: false,
        theme_mode: ThemeMode::System,
        tab: Tab::Basic,
        log: String::new(),
        progress_line: None,
        running: false,
        run_gen: 0,
    };
    a.save_name = "test".into();
    a.proxy_mode = ProxyMode::Custom;
    a.proxy_address = "http://127.0.0.1:8888".into();
    a.binary_merge = true;
    a.del_after_done = false;
    a
}

#[test]
fn builds_expected_args() {
    let a = sample_app();
    let args = build_args(&a);
    assert!(args.contains(&"--save-name".to_string()));
    assert!(args.contains(&"test".to_string()));
    assert!(!args.contains(&"--use-system-proxy".to_string()));
    assert!(args.contains(&"--custom-proxy".to_string()));
    assert!(args.contains(&"http://127.0.0.1:8888".to_string()));
    assert!(args.contains(&"--binary-merge".to_string()));
    let idx = args.iter().position(|x| x == "--del-after-done").unwrap();
    assert_eq!(args[idx + 1], "false");
}

#[test]
fn empty_app_has_no_args() {
    let a = sample_app();
    let mut a2 = a;
    a2.save_name = String::new();
    a2.proxy_mode = ProxyMode::System;
    a2.proxy_address = String::new();
    a2.binary_merge = false;
    a2.del_after_done = true;
    let args = build_args(&a2);
    assert!(!args.contains(&"--binary-merge".to_string()));
    assert!(!args.contains(&"--del-after-done".to_string()));
}

#[test]
fn blank_form_asks_only_for_the_system_proxy() {
    let mut a = sample_app();
    a.save_name = String::new();
    a.proxy_mode = ProxyMode::System;
    a.binary_merge = false;
    a.del_after_done = true;
    assert_eq!(
        build_args(&a),
        vec![
            "--thread-count".to_string(),
            "8".to_string(),
            "--download-retry-count".to_string(),
            "10".to_string(),
            "--http-request-timeout".to_string(),
            "10".to_string(),
            "--use-system-proxy".to_string()
        ]
    );
}

#[test]
fn no_proxy_mode_adds_nothing() {
    let mut a = sample_app();
    a.save_name = String::new();
    a.proxy_mode = ProxyMode::NoProxy;
    a.binary_merge = false;
    a.del_after_done = true;
    assert_eq!(build_args(&a).len(), 6);
    assert!(!build_args(&a).iter().any(|x| x.contains("proxy")));
}

#[test]
fn custom_proxy_without_address_adds_nothing() {
    let mut a = sample_app();
    a.proxy_address = "   ".into();
    let args = build_args(&a);
    assert!(!args.contains(&"--custom-proxy".to_string()));
}

#[test]
fn options_are_trimmed_and_blank_ones_skipped() {
    let mut v: Vec<String> = Vec::new();
    opt(&mut v, "--save-dir", "  D:/out ");
    opt(&mut v, "--tmp-dir", " \t ");
    assert_eq!(v, vec!["--save-dir".to_string(), "D:/out".to_string()]);
}

#[test]
fn switches_follow_their_defaults() {
    let mut v: Vec<String> = Vec::new();
    bool_opt(&mut v, "--a", false, false);
    bool_opt(&mut v, "--b", true, true);
    bool_opt(&mut v, "--c", true, false);
    bool_opt(&mut v, "--d", false, true);
    assert_eq!(
        v,
        vec!["--c".to_string(), "--d".to_string(), "false".to_string()]
    );
}

#[test]
fn headers_give_one_h_per_line() {
    let mut a = sample_app();
    a.headers = "  Cookie: x=1 \n\n User-Agent: y\n".into();
    let args = build_args(&a);
    let i = args.iter().position(|x| x == "-H").unwrap();
    assert_eq!(args[i + 1], "Cookie: x=1");
    assert_eq!(args[i + 2], "-H");
    assert_eq!(args[i + 3], "User-Agent: y");
}

#[test]
fn choices_give_their_argument_values() {
    let mut a = sample_app();
    a.ui_language = UiLanguage::ZhTw;
    a.decryption_engine = DecryptionEngine::ShakaPackager;
    a.sub_format = SubFormat::Vtt;
    a.custom_hls_method = CustomHlsMethod::Aes128Ecb;
    a.log_level = LogLevel::Warn;
    let args = build_args(&a);
    let after = |name: &str| {
        let i = args.iter().position(|x| x == name).unwrap();
        args[i + 1].clone()
    };
    assert_eq!(after("--ui-language"), "zh-TW");
    assert_eq!(after("--decryption-engine"), "SHAKA_PACKAGER");
    assert_eq!(after("--sub-format"), "VTT");
    assert_eq!(after("--custom-hls-method"), "AES_128_ECB");
    assert_eq!(after("--log-level"), "WARN");
}

#[test]
fn tab_and_theme_do_not_change_args() {
    let mut a = sample_app();
    let before = build_args(&a);
    a.tab = Tab::Log;
    a.theme_mode = ThemeMode::Dark;
    assert_eq!(build_args(&a), before);
}

#[test]
fn builds_expected_args_in_order() {
    let a = sample_app();
    let args = build_args(&a);
    assert_eq!(
        args,
        vec![
            "--save-name".to_string(),
            "test".to_string(),
            "--thread-count".to_string(),
            "8".to_string(),
            "--download-retry-count".to_string(),
            "10".to_string(),
            "--http-request-timeout".to_string(),
            "10".to_string(),
            "--custom-proxy".to_string(),
            "http://127.0.0.1:8888".to_string(),
            "--binary-merge".to_string(),
            "--del-after-done".to_string(),
            "false".to_string()
        ]
    );
}

#[test]
fn counts_are_always_passed() {
    let mut a = sample_app();
    a.thread_count = " 16 ".into();
    a.retry_count = "   ".into();
    a.http_timeout = String::new();
    let args = build_args(&a);
    let after = |name: &str| {
        let i = args.iter().position(|x| x == name).unwrap();
        args[i + 1].clone()
    };
    assert_eq!(after("--thread-count"), "16");
    assert_eq!(after("--download-retry-count"), "10");
    assert_eq!(after("--http-request-timeout"), "10");
}
