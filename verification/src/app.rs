//! The form's model: the choices it offers, the state it holds, and the
//! labels under which the choices are shown.
use crate::args::{build_args, spec_build_args, views};
use crate::config::Settings;
use crate::text::{chars_of, contains_char, has_char, string_of, trim, trim_str};
use vstd::prelude::*;
use vstd::string::StringExecFns;

verus! {

/// The pages of the form.
#[derive(Debug, Clone, Copy, PartialEq, Eq, Structural)]
pub enum Tab {
    Basic,
    Streams,
    Decrypt,
    Live,
    Advanced,
    Log,
}

impl Default for Tab {
    fn default() -> (r: Self)
        ensures
            r == Tab::Basic,
    {
        Tab::Basic
    }
}

/// How the downloader reaches the network.
#[derive(Debug, Clone, Copy, PartialEq, Eq, Structural)]
pub enum ProxyMode {
    System,
    NoProxy,
    Custom,
}

impl Default for ProxyMode {
    fn default() -> (r: Self)
        ensures
            r == ProxyMode::System,
    {
        ProxyMode::System
    }
}

impl ProxyMode {
    pub open spec fn spec_label(self) -> Seq<char> {
        match self {
            ProxyMode::System => "使用系统代理"@,
            ProxyMode::NoProxy => "不使用代理"@,
            ProxyMode::Custom => "自定义代理"@,
        }
    }

    /// The text under which the choice is shown.
    pub fn label(&self) -> (r: String)
        ensures
            r@ == self.spec_label(),
    {
        match self {
            ProxyMode::System => String::from_str("使用系统代理"),
            ProxyMode::NoProxy => String::from_str("不使用代理"),
            ProxyMode::Custom => String::from_str("自定义代理"),
        }
    }
}

/// The language of the downloader's own console output.
#[derive(Debug, Clone, Copy, PartialEq, Eq, Structural)]
pub enum UiLanguage {
    Default,
    EnUs,
    ZhCn,
    ZhTw,
}

impl Default for UiLanguage {
    fn default() -> (r: Self)
        ensures
            r == UiLanguage::Default,
    {
        UiLanguage::Default
    }
}

impl UiLanguage {
    pub open spec fn spec_label(self) -> Seq<char> {
        match self {
            UiLanguage::Default => "默认"@,
            UiLanguage::EnUs => "en-US"@,
            UiLanguage::ZhCn => "zh-CN"@,
            UiLanguage::ZhTw => "zh-TW"@,
        }
    }

    /// The value passed with `--ui-language` (empty for the default choice,
    /// which passes nothing).
    pub open spec fn spec_arg(self) -> Seq<char> {
        match self {
            UiLanguage::EnUs => "en-US"@,
            UiLanguage::ZhCn => "zh-CN"@,
            UiLanguage::ZhTw => "zh-TW"@,
            UiLanguage::Default => ""@,
        }
    }

    /// The text under which the choice is shown.
    pub fn label(&self) -> (r: String)
        ensures
            r@ == self.spec_label(),
    {
        match self {
            UiLanguage::Default => String::from_str("默认"),
            UiLanguage::EnUs => String::from_str("en-US"),
            UiLanguage::ZhCn => String::from_str("zh-CN"),
            UiLanguage::ZhTw => String::from_str("zh-TW"),
        }
    }

    pub fn arg(&self) -> (r: &'static str)
        ensures
            r@ == self.spec_arg(),
    {
        match self {
            UiLanguage::EnUs => "en-US",
            UiLanguage::ZhCn => "zh-CN",
            UiLanguage::ZhTw => "zh-TW",
            UiLanguage::Default => "",
        }
    }
}

/// The tool that removes encryption from downloaded segments.
#[derive(Debug, Clone, Copy, PartialEq, Eq, Structural)]
pub enum DecryptionEngine {
    Default,
    Ffmpeg,
    Mp4decrypt,
    ShakaPackager,
}

impl Default for DecryptionEngine {
    fn default() -> (r: Self)
        ensures
            r == DecryptionEngine::Default,
    {
        DecryptionEngine::Default
    }
}

impl DecryptionEngine {
    pub open spec fn spec_label(self) -> Seq<char> {
        match self {
            DecryptionEngine::Default => "默认 (mp4decrypt)"@,
            DecryptionEngine::Ffmpeg => "FFMPEG"@,
            DecryptionEngine::Mp4decrypt => "MP4DECRYPT"@,
            DecryptionEngine::ShakaPackager => "SHAKA_PACKAGER"@,
        }
    }

    /// The value passed with `--decryption-engine` (empty for the default
    /// choice, which passes nothing).
    pub open spec fn spec_arg(self) -> Seq<char> {
        match self {
            DecryptionEngine::Ffmpeg => "FFMPEG"@,
            DecryptionEngine::Mp4decrypt => "MP4DECRYPT"@,
            DecryptionEngine::ShakaPackager => "SHAKA_PACKAGER"@,
            DecryptionEngine::Default => ""@,
        }
    }

    /// The text under which the choice is shown.
    pub fn label(&self) -> (r: String)
        ensures
            r@ == self.spec_label(),
    {
        match self {
            DecryptionEngine::Default => String::from_str("默认 (mp4decrypt)"),
            DecryptionEngine::Ffmpeg => String::from_str("FFMPEG"),
            DecryptionEngine::Mp4decrypt => String::from_str("MP4DECRYPT"),
            DecryptionEngine::ShakaPackager => String::from_str("SHAKA_PACKAGER"),
        }
    }

    pub fn arg(&self) -> (r: &'static str)
        ensures
            r@ == self.spec_arg(),
    {
        match self {
            DecryptionEngine::Ffmpeg => "FFMPEG",
            DecryptionEngine::Mp4decrypt => "MP4DECRYPT",
            DecryptionEngine::ShakaPackager => "SHAKA_PACKAGER",
            DecryptionEngine::Default => "",
        }
    }
}

/// The subtitle format written.
#[derive(Debug, Clone, Copy, PartialEq, Eq, Structural)]
pub enum SubFormat {
    Srt,
    Vtt,
}

impl Default for SubFormat {
    fn default() -> (r: Self)
        ensures
            r == SubFormat::Srt,
    {
        SubFormat::Srt
    }
}

impl SubFormat {
    pub open spec fn spec_label(self) -> Seq<char> {
        match self {
            SubFormat::Srt => "SRT"@,
            SubFormat::Vtt => "VTT"@,
        }
    }

    /// The text under which the choice is shown.
    pub fn label(&self) -> (r: String)
        ensures
            r@ == self.spec_label(),
    {
        match self {
            SubFormat::Srt => String::from_str("SRT"),
            SubFormat::Vtt => String::from_str("VTT"),
        }
    }
}

/// The HLS encryption method forced on the downloader.
#[derive(Debug, Clone, Copy, PartialEq, Eq, Structural)]
pub enum CustomHlsMethod {
    Default,
    NoEncryption,
    Aes128,
    Aes128Ecb,
    Cenc,
    ChaCha20,
    SampleAes,
    SampleAesCtr,
    Unknown,
}

impl Default for CustomHlsMethod {
    fn default() -> (r: Self)
        ensures
            r == CustomHlsMethod::Default,
    {
        CustomHlsMethod::Default
    }
}

impl CustomHlsMethod {
    pub open spec fn spec_label(self) -> Seq<char> {
        match self {
            CustomHlsMethod::Default => "默认"@,
            _ => self.spec_arg(),
        }
    }

    /// The value passed with `--custom-hls-method` (empty for the default
    /// choice, which passes nothing).
    pub open spec fn spec_arg(self) -> Seq<char> {
        match self {
            CustomHlsMethod::NoEncryption => "NONE"@,
            CustomHlsMethod::Aes128 => "AES_128"@,
            CustomHlsMethod::Aes128Ecb => "AES_128_ECB"@,
            CustomHlsMethod::Cenc => "CENC"@,
            CustomHlsMethod::ChaCha20 => "CHACHA20"@,
            CustomHlsMethod::SampleAes => "SAMPLE_AES"@,
            CustomHlsMethod::SampleAesCtr => "SAMPLE_AES_CTR"@,
            CustomHlsMethod::Unknown => "UNKNOWN"@,
            CustomHlsMethod::Default => ""@,
        }
    }

    /// The text under which the choice is shown.
    pub fn label(&self) -> (r: String)
        ensures
            r@ == self.spec_label(),
    {
        match self {
            CustomHlsMethod::Default => String::from_str("默认"),
            _ => String::from_str(self.arg()),
        }
    }

    pub fn arg(&self) -> (r: &'static str)
        ensures
            r@ == self.spec_arg(),
    {
        match self {
            CustomHlsMethod::NoEncryption => "NONE",
            CustomHlsMethod::Aes128 => "AES_128",
            CustomHlsMethod::Aes128Ecb => "AES_128_ECB",
            CustomHlsMethod::Cenc => "CENC",
            CustomHlsMethod::ChaCha20 => "CHACHA20",
            CustomHlsMethod::SampleAes => "SAMPLE_AES",
            CustomHlsMethod::SampleAesCtr => "SAMPLE_AES_CTR",
            CustomHlsMethod::Unknown => "UNKNOWN",
            CustomHlsMethod::Default => "",
        }
    }
}

/// The downloader's console log level.
#[derive(Debug, Clone, Copy, PartialEq, Eq, Structural)]
pub enum LogLevel {
    Debug,
    Error,
    Info,
    Off,
    Warn,
}

impl Default for LogLevel {
    fn default() -> (r: Self)
        ensures
            r == LogLevel::Info,
    {
        LogLevel::Info
    }
}

impl LogLevel {
    /// Both the shown text and the value passed with `--log-level`.
    pub open spec fn spec_label(self) -> Seq<char> {
        match self {
            LogLevel::Debug => "DEBUG"@,
            LogLevel::Error => "ERROR"@,
            LogLevel::Info => "INFO"@,
            LogLevel::Off => "OFF"@,
            LogLevel::Warn => "WARN"@,
        }
    }

    /// The text under which the choice is shown.
    pub fn label(&self) -> (r: String)
        ensures
            r@ == self.spec_label(),
    {
        String::from_str(self.arg())
    }

    pub fn arg(&self) -> (r: &'static str)
        ensures
            r@ == self.spec_label(),
    {
        match self {
            LogLevel::Debug => "DEBUG",
            LogLevel::Error => "ERROR",
            LogLevel::Info => "INFO",
            LogLevel::Off => "OFF",
            LogLevel::Warn => "WARN",
        }
    }
}

/// The colour theme of the window.
#[derive(Debug, Clone, Copy, PartialEq, Eq, Structural)]
pub enum ThemeMode {
    System,
    Light,
    Dark,
}

impl Default for ThemeMode {
    fn default() -> (r: Self)
        ensures
            r == ThemeMode::System,
    {
        ThemeMode::System
    }
}

/// What a run of the downloader reports: a finished line of output, a
/// progress line that replaces the progress line before it, or its end (the
/// exit code, or why it could not be waited for).
#[derive(Debug, PartialEq)]
pub enum LogEvent {
    Line(String),
    Progress(String),
    Done(Result<u32, String>),
}

impl Clone for LogEvent {
    fn clone(&self) -> (r: Self)
        ensures
            r == *self,
    {
        match self {
            LogEvent::Line(s) => LogEvent::Line(s.clone()),
            LogEvent::Progress(s) => LogEvent::Progress(s.clone()),
            LogEvent::Done(Ok(code)) => LogEvent::Done(Ok(*code)),
            LogEvent::Done(Err(e)) => LogEvent::Done(Err(e.clone())),
        }
    }
}


/// Everything the form holds: the downloader's options as typed or chosen,
/// and the state of the current run and of its log.
pub struct App {
    // downloader and input
    pub exe_path: String,
    pub input: String,
    /// Why the last start did not happen (empty if it did).
    pub exe_error: String,
    // saving
    pub save_dir: String,
    pub save_name: String,
    pub save_pattern: String,
    pub tmp_dir: String,
    pub log_file_path: String,
    pub base_url: String,
    // threads, retries, timeout
    pub thread_count: String,
    pub retry_count: String,
    pub http_timeout: String,
    // request headers, one per line
    pub headers: String,
    // proxy
    pub proxy_mode: ProxyMode,
    pub proxy_address: String,
    // speed limit, concurrency, language
    pub max_speed: String,
    pub concurrent_download: bool,
    pub ui_language: UiLanguage,
    // helper binaries
    pub ffmpeg_path: String,
    pub decryption_engine: DecryptionEngine,
    pub decryption_binary: String,
    // stream selection
    pub auto_select: bool,
    pub select_video: String,
    pub select_audio: String,
    pub select_subtitle: String,
    pub drop_video: String,
    pub drop_audio: String,
    pub drop_subtitle: String,
    pub sub_only: bool,
    pub sub_format: SubFormat,
    // decryption
    pub key: String,
    pub key_text_file: String,
    pub custom_hls_method: CustomHlsMethod,
    pub custom_hls_key: String,
    pub custom_hls_iv: String,
    pub mp4_realtime_decryption: bool,
    // merging
    pub binary_merge: bool,
    pub skip_merge: bool,
    pub del_after_done: bool,
    pub no_date_info: bool,
    pub mux_after_done: String,
    pub mux_import: String,
    // live streams
    pub live_perform_as_vod: bool,
    pub live_realtime_merge: bool,
    pub live_keep_segments: bool,
    pub live_pipe_mux: bool,
    pub live_fix_vtt_by_audio: bool,
    pub live_record_limit: String,
    pub live_wait_time: String,
    pub live_take_count: String,
    // advanced
    pub append_url_params: bool,
    pub check_segments_count: bool,
    pub write_meta_json: bool,
    pub no_log: bool,
    pub log_level: LogLevel,
    pub urlprocessor_args: String,
    pub custom_range: String,
    pub task_start_at: String,
    pub ad_keyword: String,
    pub allow_hls_multi_ext_map: bool,
    pub disable_update_check: bool,
    pub force_ansi_console: bool,
    pub use_ffmpeg_concat_demuxer: bool,
    // run and window
    pub external_console: bool,
    pub theme_mode: ThemeMode,
    pub tab: Tab,
    pub log: String,
    /// The number of characters of the log's last line when that line is a
    /// progress line, which the next progress line replaces.
    pub progress_line: Option<usize>,
    pub running: bool,
    pub run_gen: u64,
}

/// What the user did, or what a finished piece of outside work reports.
#[derive(Debug, Clone)]
pub enum Message {
    ExePathChanged(String),
    BrowseExe,
    ExePathChosen(Option<String>),
    InputChanged(String),
    SaveDirChanged(String),
    BrowseSaveDir,
    SaveDirChosen(Option<String>),
    SaveNameChanged(String),
    SavePatternChanged(String),
    TmpDirChanged(String),
    LogFilePathChanged(String),
    BrowseTmpDir,
    TmpDirChosen(Option<String>),
    BrowseLogFile,
    LogFileChosen(Option<String>),
    BaseUrlChanged(String),
    ThreadCountChanged(String),
    RetryCountChanged(String),
    HttpTimeoutChanged(String),
    HeadersEdited(String),
    ProxyModeSelected(ProxyMode),
    ProxyAddressChanged(String),
    MaxSpeedChanged(String),
    ConcurrentToggled(bool),
    UiLanguageSelected(UiLanguage),
    FfmpegPathChanged(String),
    DecryptionEngineSelected(DecryptionEngine),
    DecryptionBinaryChanged(String),
    AutoSelectToggled(bool),
    SelectVideoChanged(String),
    SelectAudioChanged(String),
    SelectSubtitleChanged(String),
    DropVideoChanged(String),
    DropAudioChanged(String),
    DropSubtitleChanged(String),
    SubOnlyToggled(bool),
    SubFormatSelected(SubFormat),
    KeyChanged(String),
    KeyTextFileChanged(String),
    CustomHlsMethodSelected(CustomHlsMethod),
    CustomHlsKeyChanged(String),
    CustomHlsIvChanged(String),
    Mp4RealtimeDecryptionToggled(bool),
    BinaryMergeToggled(bool),
    SkipMergeToggled(bool),
    DelAfterDoneToggled(bool),
    NoDateInfoToggled(bool),
    MuxAfterDoneChanged(String),
    MuxImportChanged(String),
    LivePerformAsVodToggled(bool),
    LiveRealtimeMergeToggled(bool),
    LiveKeepSegmentsToggled(bool),
    LivePipeMuxToggled(bool),
    LiveFixVttByAudioToggled(bool),
    LiveRecordLimitChanged(String),
    LiveWaitTimeChanged(String),
    LiveTakeCountChanged(String),
    AppendUrlParamsToggled(bool),
    CheckSegmentsCountToggled(bool),
    WriteMetaJsonToggled(bool),
    NoLogToggled(bool),
    LogLevelSelected(LogLevel),
    UrlprocessorArgsChanged(String),
    CustomRangeChanged(String),
    TaskStartAtChanged(String),
    AdKeywordChanged(String),
    AllowHlsMultiExtMapToggled(bool),
    DisableUpdateCheckToggled(bool),
    ForceAnsiConsoleToggled(bool),
    UseFfmpegConcatDemuxerToggled(bool),
    ExternalConsoleToggled(bool),
    TabSelected(Tab),
    Start,
    LogEvent(LogEvent),
    CopyPreview,
    OpenOutputFolder,
    ClearLog,
}

/// The outside work that a step of the form asks for; its outcome comes back
/// as a message, or through `App::launch` or `App::log_file_checked`.
#[derive(Debug)]
pub enum Effect {
    /// Nothing to do.
    Nothing,
    /// Ask the user for the downloader's executable.
    PickExe,
    /// Ask the user for the output folder.
    PickSaveDir,
    /// Ask the user for the folder of temporary files.
    PickTmpDir,
    /// Ask the user for the log file's folder.
    PickLogFile,
    /// Find out whether the chosen log path is a directory.
    CheckLogFile(String),
    /// Write the settings file.
    SaveSettings(Settings),
    /// Look for the downloader, starting with the given path.
    LocateExe(String),
    /// Start the downloader: the program, then the input, then the arguments;
    /// with its output captured into the log, or in a console of its own.
    Launch { run_id: u64, exe: String, input: String, args: Vec<String>, capture: bool },
    /// Put the text on the clipboard.
    CopyText(String),
    /// Show the folder in the file manager.
    OpenFolder(String),
}

/// The settings that a save writes for the form.
pub open spec fn settings_of(a: App) -> Settings {
    Settings {
        exe_path: a.exe_path,
        save_dir: a.save_dir,
        proxy_address: a.proxy_address,
        headers: a.headers,
        ffmpeg_path: a.ffmpeg_path,
        external_console: a.external_console,
        theme_mode: a.theme_mode,
    }
}

/// `s` with each double quote escaped by a backslash.
pub open spec fn escaped_quotes(s: Seq<char>) -> Seq<char>
    decreases s.len(),
{
    if s.len() == 0 {
        s
    } else if s[0] == '"' {
        seq!['\\', '"'] + escaped_quotes(s.drop_first())
    } else {
        seq![s[0]] + escaped_quotes(s.drop_first())
    }
}

/// An argument as shown in the command preview: one with a space or a double
/// quote in it is put in double quotes, its own quotes escaped; any other is
/// shown as it is.
pub open spec fn quoted(s: Seq<char>) -> Seq<char> {
    if has_char(s, ' ') || has_char(s, '"') {
        seq!['"'] + escaped_quotes(s) + seq!['"']
    } else {
        s
    }
}

/// The texts joined with single spaces between them.
pub open spec fn joined(v: Seq<Seq<char>>) -> Seq<char>
    decreases v.len(),
{
    if v.len() == 0 {
        seq![]
    } else if v.len() == 1 {
        v[0]
    } else {
        joined(v.drop_last()) + seq![' '] + v.last()
    }
}

/// The command preview: the quoted input (where there is one) and the
/// arguments, joined with spaces, trimmed (the program itself is left out).
pub open spec fn preview(a: App) -> Seq<char> {
    let head = if a.input@.len() > 0 {
        quoted(a.input@) + seq![' ']
    } else {
        seq![]
    };
    trim(head + joined(spec_build_args(a)))
}

/// Puts a double quote around an argument with a space or a double quote in
/// it, escaping its own double quotes.
pub fn quote(s: &str) -> (r: String)
    ensures
        r@ == quoted(s@),
{
    let cs = chars_of(s);
    if !(contains_char(&cs, ' ') || contains_char(&cs, '"')) {
        return String::from_str(s);
    }
    let mut out: Vec<char> = Vec::new();
    out.push('"');
    let n = cs.len();
    let mut i: usize = 0;
    assert(cs@.subrange(0, n as int) =~= cs@);
    while i < n
        invariant
            i <= n,
            n == cs@.len(),
            seq!['"'] + escaped_quotes(cs@) == out@ + escaped_quotes(cs@.subrange(i as int, n as int)),
        decreases n - i,
    {
        let ghost before = out@;
        let c = cs[i];
        assert(cs@.subrange(i as int, n as int).drop_first() =~= cs@.subrange(i + 1, n as int));
        if c == '"' {
            out.push('\\');
            out.push('"');
            assert(out@ =~= before + seq!['\\', '"']);
        } else {
            out.push(c);
            assert(out@ =~= before + seq![c]);
        }
        i = i + 1;
    }
    assert(escaped_quotes(cs@.subrange(n as int, n as int)) =~= seq![]);
    assert(out@ =~= out@ + seq![]);
    let ghost body = out@;
    out.push('"');
    assert(out@ =~= seq!['"'] + escaped_quotes(cs@) + seq!['"']);
    string_of(&out)
}

proof fn lemma_joined_push(v: Seq<Seq<char>>, x: Seq<char>)
    ensures
        joined(v.push(x)) == if v.len() == 0 {
            x
        } else {
            joined(v) + seq![' '] + x
        },
{
    assert(v.push(x).drop_last() =~= v);
}

impl App {
    /// The live command preview (without the program itself).
    pub fn command_preview(&self) -> (r: String)
        ensures
            r@ == preview(*self),
    {
        let args = build_args(self);
        let mut s = String::new();
        proof {
            reveal_strlit(" ");
        }
        if !self.input.as_str().is_empty() {
            let q = quote(self.input.as_str());
            s.append(q.as_str());
            s.append(" ");
        }
        assert(s@ =~= (if self.input@.len() > 0 {
            quoted(self.input@) + seq![' ']
        } else {
            seq![]
        }));
        let ghost head = s@;
        let ghost vs = views(args@);
        let mut i: usize = 0;
        assert(vs.take(0) =~= seq![]);
        while i < args.len()
            invariant
                i <= args@.len(),
                vs == views(args@),
                s@ == head + joined(vs.take(i as int)),
            decreases args.len() - i,
        {
            proof {
                reveal_strlit(" ");
                lemma_joined_push(vs.take(i as int), vs[i as int]);
                assert(vs.take(i + 1) =~= vs.take(i as int).push(vs[i as int]));
            }
            if i > 0 {
                s.append(" ");
            }
            s.append(args[i].as_str());
            i = i + 1;
        }
        assert(vs.take(args@.len() as int) =~= vs);
        trim_str(s.as_str())
    }

    /// The settings that saving the form writes: the downloader's path, the
    /// output folder, the proxy address, the headers, the ffmpeg path, the
    /// console choice and the theme.
    pub fn save_settings(&self) -> (r: Settings)
        ensures
            r == settings_of(*self),
    {
        Settings {
            exe_path: self.exe_path.clone(),
            save_dir: self.save_dir.clone(),
            proxy_address: self.proxy_address.clone(),
            headers: self.headers.clone(),
            ffmpeg_path: self.ffmpeg_path.clone(),
            external_console: self.external_console,
            theme_mode: self.theme_mode,
        }
    }
}

} // verus!
