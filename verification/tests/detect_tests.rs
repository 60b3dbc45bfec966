use m3u8dl_gui::config::Settings;
use m3u8dl_gui::detect::{
    default_log_path, default_save_dir, default_temp_path, downloader_dir, exe_candidates,
    ffmpeg_candidates, first_existing,
};
use m3u8dl_gui::text::{decimal, trim_str};

#[test]
fn default_paths_under_program_dir() {
    let d = Some("/opt/gui".to_string());
    assert_eq!(default_log_path(d.clone()), "/opt/gui/log/n_m3u8dl-re-gui.log");
    assert_eq!(default_temp_path(d.clone()), "/opt/gui/temp");
    assert_eq!(default_save_dir(d), "/opt/gui/downloads");
}

#[test]
fn default_paths_without_program_dir() {
    assert_eq!(default_log_path(None), "log/n_m3u8dl-re-gui.log");
    assert_eq!(default_temp_path(None), "temp");
    assert_eq!(default_save_dir(None), "downloads");
}

#[test]
fn settings_file_location() {
    assert_eq!(Settings::path(Some("/opt/gui".to_string())), "/opt/gui/config/config.json");
    assert_eq!(Settings::path(None), "config/config.json");
}

#[test]
fn downloader_is_looked_for_in_order() {
    let dirs = vec!["/usr/bin".to_string(), "/bin".to_string()];
    let c = exe_candidates("  ", Some("/opt/gui".to_string()), &dirs, false);
    assert_eq!(
        c,
        vec![
            "/opt/gui/N_m3u8DL-RE".to_string(),
            "/usr/bin/N_m3u8DL-RE".to_string(),
            "/bin/N_m3u8DL-RE".to_string()
        ]
    );
    let c = exe_candidates("mine.exe", None, &dirs, true);
    assert_eq!(c[0], "mine.exe");
    assert_eq!(c[1], "/usr/bin/N_m3u8DL-RE.exe");
}

#[test]
fn ffmpeg_is_looked_for_in_order() {
    let dirs = vec!["/usr/bin".to_string()];
    let c = ffmpeg_candidates(
        "",
        &dirs,
        downloader_dir("/tools/N_m3u8DL-RE"),
        Some("/opt/gui".to_string()),
        false,
    );
    assert_eq!(
        c,
        vec![
            "/usr/bin/ffmpeg".to_string(),
            "/tools/ffmpeg".to_string(),
            "/opt/gui/ffmpeg".to_string()
        ]
    );
}

#[test]
fn downloader_dir_of_paths() {
    assert_eq!(downloader_dir("/tools/re"), Some("/tools".to_string()));
    assert_eq!(downloader_dir(""), None);
    assert_eq!(downloader_dir("re"), Some(String::new()));
    assert_eq!(downloader_dir("tools/bin/re.exe"), Some("tools/bin".to_string()));
}

#[test]
fn first_existing_takes_the_first_marked() {
    let c = vec!["a".to_string(), "b".to_string(), "c".to_string()];
    assert_eq!(first_existing(&c, &vec![false, true, true]), Some("b".to_string()));
    assert_eq!(first_existing(&c, &vec![false, false, false]), None);
    assert_eq!(first_existing(&c, &vec![false]), None);
}

#[test]
fn text_helpers() {
    assert_eq!(trim_str("\u{3000} 下载 \t"), "下载");
    assert_eq!(decimal(0), "0");
    assert_eq!(decimal(1234567), "1234567");
}
