use m3u8dl_gui::app::{
    quote, App, CustomHlsMethod, DecryptionEngine, Effect, LogEvent, LogLevel, Message, ProxyMode,
    SubFormat, Tab, ThemeMode, UiLanguage,
};
use m3u8dl_gui::captions::{run_status, start_caption, tab_caption};
use m3u8dl_gui::config::Settings;

fn settings() -> Settings {
    Settings {
        exe_path: "C:/x/N_m3u8DL-RE.exe".into(),
        save_dir: "D:/out".into(),
        proxy_address: "http://127.0.0.1:8888".into(),
        headers: "X-Test: 1".into(),
        ffmpeg_path: "C:/ff/ffmpeg.exe".into(),
        external_console: true,
        theme_mode: ThemeMode::Dark,
    }
}

fn fresh() -> App {
    App::new(settings(), Some("/opt/gui".to_string()), None)
}

#[test]
fn quote_leaves_plain_arguments() {
    assert_eq!(quote("abc"), "abc");
    assert_eq!(quote(""), "");
}

#[test]
fn quote_wraps_spaces_and_escapes_quotes() {
    assert_eq!(quote("a b"), "\"a b\"");
    assert_eq!(quote("say \"hi\""), "\"say \\\"hi\\\"\"");
    assert_eq!(quote("x\"y"), "\"x\\\"y\"");
}

#[test]
fn labels_match_the_choices() {
    assert_eq!(ProxyMode::NoProxy.label(), "不使用代理");
    assert_eq!(UiLanguage::Default.label(), "默认");
    assert_eq!(DecryptionEngine::Default.label(), "默认 (mp4decrypt)");
    assert_eq!(SubFormat::Vtt.label(), "VTT");
    assert_eq!(CustomHlsMethod::NoEncryption.label(), "NONE");
    assert_eq!(CustomHlsMethod::SampleAesCtr.label(), "SAMPLE_AES_CTR");
    assert_eq!(LogLevel::Info.label(), "INFO");
}

#[test]
fn new_form_takes_remembered_settings() {
    let a = fresh();
    assert_eq!(a.exe_path, "C:/x/N_m3u8DL-RE.exe");
    assert_eq!(a.save_dir, "D:/out");
    assert_eq!(a.proxy_address, "http://127.0.0.1:8888");
    assert_eq!(a.headers, "X-Test: 1");
    assert_eq!(a.ffmpeg_path, "C:/ff/ffmpeg.exe");
    assert!(a.external_console);
    assert_eq!(a.theme_mode, ThemeMode::Dark);
    assert_eq!(a.tmp_dir, "/opt/gui/temp");
    assert_eq!(a.log_file_path, "/opt/gui/log/n_m3u8dl-re-gui.log");
    assert_eq!(a.tab, Tab::Basic);
    assert!(!a.running);
    assert_eq!(a.run_gen, 0);
    assert!(a.del_after_done && a.write_meta_json && !a.binary_merge);
}

#[test]
fn new_form_falls_back_to_defaults() {
    let a = App::new(Settings::default(), None, Some("found/N_m3u8DL-RE".to_string()));
    assert_eq!(a.exe_path, "found/N_m3u8DL-RE");
    assert_eq!(a.save_dir, "downloads");
    assert_eq!(a.tmp_dir, "temp");
    assert_eq!(a.log_file_path, "log/n_m3u8dl-re-gui.log");
    assert_eq!(a.theme_mode, ThemeMode::System);
}

#[test]
fn saved_settings_come_back() {
    let mut a = fresh();
    a.update(Message::ExePathChanged("E:/re.exe".into()));
    a.update(Message::SaveDirChanged("E:/dl".into()));
    a.update(Message::HeadersEdited("A: b".into()));
    let s = a.save_settings();
    let b = App::new(s.clone(), Some("/opt/gui".to_string()), Some("other".to_string()));
    assert_eq!(b.save_settings(), s);
    assert_eq!(b.exe_path, "E:/re.exe");
}

#[test]
fn edits_set_their_field_only() {
    let mut a = fresh();
    let e = a.update(Message::SaveNameChanged("movie".into()));
    assert!(matches!(e, Effect::Nothing));
    assert_eq!(a.save_name, "movie");
    a.update(Message::ProxyModeSelected(ProxyMode::Custom));
    a.update(Message::BinaryMergeToggled(true));
    a.update(Message::TabSelected(Tab::Live));
    assert_eq!(a.proxy_mode, ProxyMode::Custom);
    assert!(a.binary_merge);
    assert_eq!(a.tab, Tab::Live);
    assert_eq!(a.save_dir, "D:/out");
    assert!(a.log.is_empty());
}

#[test]
fn browse_asks_for_a_dialog() {
    let mut a = fresh();
    assert!(matches!(a.update(Message::BrowseExe), Effect::PickExe));
    assert!(matches!(a.update(Message::BrowseSaveDir), Effect::PickSaveDir));
    assert!(matches!(a.update(Message::BrowseTmpDir), Effect::PickTmpDir));
    assert!(matches!(a.update(Message::BrowseLogFile), Effect::PickLogFile));
}

#[test]
fn chosen_paths_replace_only_when_given() {
    let mut a = fresh();
    a.update(Message::SaveDirChosen(None));
    assert_eq!(a.save_dir, "D:/out");
    a.update(Message::SaveDirChosen(Some("F:/x".into())));
    assert_eq!(a.save_dir, "F:/x");
    a.update(Message::TmpDirChosen(Some("F:/t".into())));
    assert_eq!(a.tmp_dir, "F:/t");
    a.update(Message::ExePathChosen(Some("F:/re.exe".into())));
    assert_eq!(a.exe_path, "F:/re.exe");
    match a.update(Message::LogFileChosen(Some("F:/logs".into()))) {
        Effect::CheckLogFile(p) => assert_eq!(p, "F:/logs"),
        _ => panic!("expected a check of the chosen path"),
    }
    assert!(matches!(a.update(Message::LogFileChosen(None)), Effect::Nothing));
}

#[test]
fn chosen_log_directory_gets_the_default_name() {
    let mut a = fresh();
    a.log_file_checked("F:/logs".to_string(), true);
    assert_eq!(a.log_file_path, "F:/logs/n_m3u8dl-re-gui.log");
    a.log_file_checked("F:/my.log".to_string(), false);
    assert_eq!(a.log_file_path, "F:/my.log");
}

#[test]
fn console_toggle_saves_settings() {
    let mut a = fresh();
    match a.update(Message::ExternalConsoleToggled(false)) {
        Effect::SaveSettings(s) => {
            assert!(!s.external_console);
            assert_eq!(s.save_dir, "D:/out");
        }
        _ => panic!("expected a save"),
    }
    assert!(!a.external_console);
}

#[test]
fn start_asks_to_locate_the_downloader() {
    let mut a = fresh();
    a.exe_error = "old".into();
    match a.update(Message::Start) {
        Effect::LocateExe(p) => assert_eq!(p, "C:/x/N_m3u8DL-RE.exe"),
        _ => panic!("expected a lookup"),
    }
    assert!(a.exe_error.is_empty());
    assert!(!a.running);
}

#[test]
fn start_while_running_does_nothing() {
    let mut a = fresh();
    a.running = true;
    a.exe_error = "keep".into();
    assert!(matches!(a.update(Message::Start), Effect::Nothing));
    assert_eq!(a.exe_error, "keep");
}

#[test]
fn launch_without_downloader_says_so() {
    let mut a = fresh();
    a.input = "http://x/a.m3u8".into();
    assert!(matches!(a.launch(None), Effect::Nothing));
    assert_eq!(a.exe_error, "未找到 N_m3u8DL-RE 可执行文件，请在“基本”页指定其路径。");
    assert!(!a.running);
}

#[test]
fn launch_without_input_says_so() {
    let mut a = fresh();
    a.input = "   ".into();
    assert!(matches!(a.launch(Some("re".into())), Effect::Nothing));
    assert_eq!(a.exe_error, "请输入下载地址或文件路径。");
    assert_eq!(a.run_gen, 0);
}

#[test]
fn launch_starts_a_run() {
    let mut a = fresh();
    a.external_console = false;
    a.input = "  http://x/a.m3u8 ".into();
    a.log = "old".into();
    match a.launch(Some("re".into())) {
        Effect::Launch { run_id, exe, input, args, capture } => {
            assert_eq!(run_id, 1);
            assert_eq!(exe, "re");
            assert_eq!(input, "http://x/a.m3u8");
            assert!(capture);
            assert_eq!(args.last().unwrap(), "--no-ansi-color");
            assert!(args.contains(&"--use-system-proxy".to_string()));
        }
        _ => panic!("expected a launch"),
    }
    assert!(a.running);
    assert_eq!(a.run_gen, 1);
    assert_eq!(a.tab, Tab::Log);
    assert_eq!(a.log, "开始运行...\n");
}

#[test]
fn launch_in_own_console_keeps_colours() {
    let mut a = fresh();
    a.input = "in".into();
    match a.launch(Some("re".into())) {
        Effect::Launch { args, capture, .. } => {
            assert!(!capture);
            assert!(!args.contains(&"--no-ansi-color".to_string()));
        }
        _ => panic!("expected a launch"),
    }
}

#[test]
fn log_events_fill_the_log() {
    let mut a = fresh();
    a.running = true;
    a.update(Message::LogEvent(LogEvent::Line("one".into())));
    a.update(Message::LogEvent(LogEvent::Progress("10%".into())));
    a.update(Message::LogEvent(LogEvent::Progress("20%".into())));
    assert_eq!(a.log, "one\n20%\n");
    a.update(Message::LogEvent(LogEvent::Line("two".into())));
    a.update(Message::LogEvent(LogEvent::Progress("5%".into())));
    assert_eq!(a.log, "one\n20%\ntwo\n5%\n");
    a.update(Message::LogEvent(LogEvent::Done(Ok(0))));
    assert_eq!(a.log, "one\n20%\ntwo\n5%\n进程结束，退出码 0\n");
    assert!(!a.running);
}

#[test]
fn failed_run_is_logged() {
    let mut a = fresh();
    a.running = true;
    a.update(Message::LogEvent(LogEvent::Done(Err("gone".into()))));
    assert_eq!(a.log, "进程异常：gone\n");
    assert!(!a.running);
}

#[test]
fn clear_log_empties_it() {
    let mut a = fresh();
    a.update(Message::LogEvent(LogEvent::Progress("50%".into())));
    a.update(Message::ClearLog);
    assert!(a.log.is_empty());
    a.update(Message::LogEvent(LogEvent::Progress("60%".into())));
    assert_eq!(a.log, "60%\n");
}

#[test]
fn copy_preview_gives_the_preview() {
    let mut a = fresh();
    a.input = "a b".into();
    let expected = a.command_preview();
    assert!(expected.starts_with("\"a b\" --save-dir D:/out"));
    match a.update(Message::CopyPreview) {
        Effect::CopyText(t) => assert_eq!(t, expected),
        _ => panic!("expected a copy"),
    }
}

#[test]
fn preview_without_input_starts_with_args() {
    let a = fresh();
    assert!(a.command_preview().starts_with("--save-dir D:/out --tmp-dir /opt/gui/temp"));
}

#[test]
fn open_folder_needs_a_folder() {
    let mut a = fresh();
    match a.update(Message::OpenOutputFolder) {
        Effect::OpenFolder(d) => assert_eq!(d, "D:/out"),
        _ => panic!("expected a folder"),
    }
    a.update(Message::SaveDirChanged(String::new()));
    assert!(matches!(a.update(Message::OpenOutputFolder), Effect::Nothing));
}

#[test]
fn captions_of_pages_and_run() {
    assert_eq!(tab_caption(Tab::Log, Tab::Log), "▶ 日志");
    assert_eq!(tab_caption(Tab::Log, Tab::Basic), "基本");
    assert_eq!(Tab::Streams.title(), "流选择");
    assert_eq!(start_caption(true), "运行中…");
    assert_eq!(start_caption(false), "开始下载");
    assert_eq!(run_status(false), "○ 空闲");
}

#[test]
fn new_form_fills_in_counts_and_passes_them() {
    let a = App::new(Settings::default(), None, None);
    assert_eq!(a.thread_count, "8");
    assert_eq!(a.retry_count, "10");
    assert_eq!(a.http_timeout, "10");
    assert!(a.ffmpeg_path.is_empty());
    let args = m3u8dl_gui::args::build_args(&a);
    let after = |name: &str| {
        let i = args.iter().position(|x| x == name).unwrap();
        args[i + 1].clone()
    };
    assert_eq!(after("--thread-count"), "8");
    assert_eq!(after("--download-retry-count"), "10");
    assert_eq!(after("--http-request-timeout"), "10");
}

#[test]
fn saved_ffmpeg_path_comes_back() {
    let mut a = fresh();
    a.update(Message::FfmpegPathChanged("E:/bin/ffmpeg.exe".into()));
    let s = a.save_settings();
    assert_eq!(s.ffmpeg_path, "E:/bin/ffmpeg.exe");
    let b = App::new(s, None, None);
    assert_eq!(b.ffmpeg_path, "E:/bin/ffmpeg.exe");
}

#[test]
fn preview_leaves_the_downloader_out() {
    let mut a = fresh();
    a.input = "in".into();
    let before = a.command_preview();
    a.update(Message::ExePathChanged("Z:/other.exe".into()));
    assert_eq!(a.command_preview(), before);
}

#[test]
fn cleared_thread_count_still_passes_the_default() {
    let mut a = App::new(Settings::default(), None, None);
    a.update(Message::ThreadCountChanged(String::new()));
    assert!(a.thread_count.is_empty());
    let args = m3u8dl_gui::args::build_args(&a);
    let i = args.iter().position(|x| x == "--thread-count").unwrap();
    assert_eq!(args[i + 1], "8");
}

#[test]
fn console_choice_comes_back_after_saving() {
    let mut a = fresh();
    let s = match a.update(Message::ExternalConsoleToggled(false)) {
        Effect::SaveSettings(s) => s,
        _ => panic!("expected a save"),
    };
    let b = App::new(s, None, None);
    assert!(!b.external_console);
}
