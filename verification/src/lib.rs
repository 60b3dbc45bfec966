//! The logic of a graphical front end for the N_m3u8DL-RE downloader: the
//! command line it builds from the form, the form's state machine, the
//! persisted settings, the default paths, and the decoding of the
//! downloader's console output.
pub mod text;
pub mod app;
pub mod args;
pub mod runner;
pub mod detect;
pub mod config;
pub mod form;
pub mod log;
pub mod start;
pub mod step;
pub mod laws;
pub mod icon;
pub mod captions;
