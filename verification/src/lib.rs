//! Foot-pedal controlled playback of dictation recordings.
//!
//! The library holds the parts that decide: the playback transport
//! ([`audio`]), the pedal edge classifier and dispatcher ([`dispatch`]), the
//! device search and the scanner's steps ([`pedal`]), the decisions of the
//! decoding loop ([`decode`]), the settings ([`config`]), the list of errors
//! on show ([`notices`]), the archive naming ([`archive`]) and the text
//! renderers ([`ui_time`], [`util`], [`decimal`]). Each function carries a
//! contract that Verus proves. Devices, files, the audio sink and the window
//! are the caller's business: the library takes clock readings and events as
//! plain values and answers with the next state and what to do.

pub mod archive;
pub mod audio;
pub mod config;
pub mod decimal;
pub mod decode;
pub mod dispatch;
pub mod notices;
pub mod pedal;
pub mod ui_time;
pub mod util;
