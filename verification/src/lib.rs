//! Sequential timecode logging for a folder of video clips.
//!
//! The clips of a shoot are laid back to back on one virtual timeline that
//! starts at a timecode chosen by the user.  This library holds the rules of
//! that bookkeeping: how a timecode is written and read at a whole number of
//! frames per second, how the running position moves from one clip to the
//! next, which candidate files are taken into the log, and how the finished
//! rows are laid out on a sheet.
//!
//! Three things are left to the caller.  It lists the folder, probes the
//! files and writes the workbook; `collector` says when, and `export` says
//! what.  It does the arithmetic on numbers with a fraction: the library
//! works on whole frames, and is handed the whole frames per second of a
//! clip and the whole frames that the clip lasts.  And the search for a
//! timecode inside a text is done by the `regex` crate; `pattern` says what
//! is believed of it.
//!
//! But for that search, every function of the library is verified against
//! its contract, and none of them panics.

pub mod collector;
pub mod export;
pub mod frame_rate;
pub mod numeral;
pub mod pattern;
pub mod text;
pub mod timecode;
pub mod timeline;
