//! The few preferences remembered between runs, and where they are kept.
use crate::app::ThemeMode;
use crate::detect::{nested_under, placed_under};
use vstd::prelude::*;
use vstd::string::StringExecFns;

verus! {

/// The remembered preferences (everything else starts from its default on
/// every launch).
#[derive(Debug, Clone, PartialEq)]
pub struct Settings {
    pub exe_path: String,
    pub save_dir: String,
    pub proxy_address: String,
    pub headers: String,
    pub ffmpeg_path: String,
    pub external_console: bool,
    /// Older settings files lack it; it then reads as `ThemeMode::System`.
    pub theme_mode: ThemeMode,
}

impl Default for Settings {
    fn default() -> (r: Self)
        ensures
            r.exe_path@.len() == 0,
            r.save_dir@.len() == 0,
            r.proxy_address@.len() == 0,
            r.headers@.len() == 0,
            r.ffmpeg_path@.len() == 0,
            !r.external_console,
            r.theme_mode == ThemeMode::System,
    {
        Settings {
            exe_path: String::new(),
            save_dir: String::new(),
            proxy_address: String::new(),
            headers: String::new(),
            ffmpeg_path: String::new(),
            external_console: false,
            theme_mode: ThemeMode::System,
        }
    }
}

impl Settings {
    /// The settings file: `config/config.json` under the program's
    /// directory, or relative to the working directory where that is
    /// unknown.
    pub fn path(exe_dir: Option<String>) -> (r: String)
        ensures
            match exe_dir {
                Some(d) => nested_under(d@, "config"@, "config.json"@, r@),
                None => placed_under("config"@, "config.json"@, r@),
            },
    {
        proof {
            crate::detect::lemma_plain_names();
        }
        match exe_dir {
            Some(d) => {
                let dir = crate::detect::join_under(d.as_str(), "config");
                let r = crate::detect::join_under(dir.as_str(), "config.json");
                assert(placed_under(d@, "config"@, dir@) && placed_under(dir@, "config.json"@, r@));
                r
            },
            None => crate::detect::join_under("config", "config.json"),
        }
    }
}

} // verus!
