//! What a renderer is made from: the flags of the command line, the persisted
//! configuration and the profile, and how the three are weighed.

use crate::record::Format;
use vstd::prelude::*;

verus! {

/// The width of the elapsed-time column where the configuration names none.
pub const DEFAULT_DIFF_WIDTH: usize = 8;

/// What the command line asked for.
#[derive(Clone, Debug, PartialEq, Eq)]
pub struct Arguments {
    /// Highlight patterns, in addition to those of the profile.
    pub highlight: Vec<String>,
    /// The name of the output format, if one was given.
    pub format: Option<String>,
    pub monochrome: bool,
    pub hide_timestamp: bool,
    pub no_dimm: bool,
    pub shorten_tags: bool,
    pub show_date: bool,
    pub show_time_diff: bool,
}

/// What the persisted configuration holds, `None` for a key that is not set.
#[derive(Clone, Copy, Debug, PartialEq, Eq)]
pub struct Config {
    pub monochrome: Option<bool>,
    pub hide_timestamp: Option<bool>,
    pub no_dimm: Option<bool>,
    pub shorten_tags: Option<bool>,
    pub show_date: Option<bool>,
    pub tag_width: Option<usize>,
    pub show_time_diff: Option<bool>,
    pub time_diff_width: Option<usize>,
}

/// The part of a profile that the renderer reads.
#[derive(Clone, Debug, PartialEq, Eq)]
pub struct Profile {
    /// The highlight patterns that apply without being asked for.
    pub highlight: Vec<String>,
}

impl Default for Arguments {
    /// A command line that asks for nothing.
    fn default() -> (args: Arguments)
        ensures
            args.highlight@.len() == 0,
            args.format is None,
            !args.monochrome,
            !args.hide_timestamp,
            !args.no_dimm,
            !args.shorten_tags,
            !args.show_date,
            !args.show_time_diff,
    {
        Arguments {
            highlight: Vec::new(),
            format: None,
            monochrome: false,
            hide_timestamp: false,
            no_dimm: false,
            shorten_tags: false,
            show_date: false,
            show_time_diff: false,
        }
    }
}

impl Default for Config {
    /// A configuration in which no key is set.
    fn default() -> (config: Config)
        ensures
            config == (Config {
                monochrome: None,
                hide_timestamp: None,
                no_dimm: None,
                shorten_tags: None,
                show_date: None,
                tag_width: None,
                show_time_diff: None,
                time_diff_width: None,
            }),
    {
        Config {
            monochrome: None,
            hide_timestamp: None,
            no_dimm: None,
            shorten_tags: None,
            show_date: None,
            tag_width: None,
            show_time_diff: None,
            time_diff_width: None,
        }
    }
}

impl Default for Profile {
    /// A profile without highlight patterns.
    fn default() -> (profile: Profile)
        ensures
            profile.highlight@.len() == 0,
    {
        Profile { highlight: Vec::new() }
    }
}

/// Why a renderer cannot be made.
#[derive(Clone, Copy, Debug, PartialEq, Eq, Structural)]
pub enum ConfigError {
    /// The HTML format was asked for, which the terminal cannot show.
    UnsupportedFormat,
}

impl ConfigError {
    /// The error in words.
    pub fn message(&self) -> (message: String)
        ensures
            message@ == "HTML format is unsupported when writing to files"@,
    {
        "HTML format is unsupported when writing to files".to_owned()
    }
}

/// A switch is on where its flag is given or the configuration turns it on.
pub open spec fn switched_on(flag: bool, stored: Option<bool>) -> bool {
    flag || stored == Some(true)
}

/// The format that is asked for: the one that is named, and the
/// human-readable one where none is named or the name is not known.
pub open spec fn wanted_format(name: Option<String>) -> Format {
    match name {
        Some(name) => match Format::named(name@) {
            Some(format) => format,
            None => Format::Human,
        },
        None => Format::Human,
    }
}

/// Whether a switch is on.
pub fn switch(flag: bool, stored: Option<bool>) -> (on: bool)
    ensures
        on == switched_on(flag, stored),
{
    flag || match stored {
        Some(on) => on,
        None => false,
    }
}

} // verus!
