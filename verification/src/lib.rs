//! Reports the current local time for a named friend in their configured
//! time zone.
//!
//! A configuration text maps friend names (case-insensitively) to time-zone
//! identifiers.  The library classifies where such a text comes from, parses
//! it into a [`ZoneDirectory`], and resolves a friend's current local time as
//! a fixed-format display string.

mod casing;
mod directory;
mod errors;
mod parse;
mod source;
mod timezone;

pub use crate::casing::lower_of;
pub use crate::directory::ZoneDirectory;
pub use crate::errors::WhatTimeError;
pub use crate::parse::parse_config;
pub use crate::parse::parsed_config;
pub use crate::parse::lines_of;
pub use crate::parse::line_break;
pub use crate::parse::line_entry;
pub use crate::parse::directory_of_lines;
pub use crate::parse::skip_ws;
pub use crate::parse::skip_token;
pub use crate::parse::is_ws_char;
pub use crate::parse::lemma_skipped_line;
pub use crate::parse::lemma_duplicate_name_last_wins;
pub use crate::source::is_url;
pub use crate::source::is_url_spec;
pub use crate::source::classify_source;
pub use crate::source::get_config;
pub use crate::source::default_config;
pub use crate::source::CmdLineArgs;
pub use crate::source::ConfigSource;
pub use crate::timezone::get_local_time;
pub use crate::timezone::is_valid_tz;
pub use crate::timezone::is_time_display;
pub use crate::timezone::is_ascii_alpha;
pub use crate::timezone::is_ascii_digit;
