//! Log records and the formats they can be written in.

use crate::text::same_text;
use crate::timestamp::Timestamp;
use vstd::prelude::*;

verus! {

/// The severity of a record, from the least to the most severe; `Unset`, the
/// level of a record that names none, comes last.
#[derive(Clone, Copy, Debug, PartialEq, Eq, PartialOrd, Ord, Hash, Structural)]
pub enum Level {
    Trace,
    Verbose,
    Debug,
    Info,
    Warn,
    Error,
    Fatal,
    Assert,
    Unset,
}

impl Level {
    /// The letter a level is displayed as.
    pub open spec fn letter(self) -> char {
        match self {
            Level::Trace => 'T',
            Level::Verbose => 'V',
            Level::Debug => 'D',
            Level::Info => 'I',
            Level::Warn => 'W',
            Level::Error => 'E',
            Level::Fatal => 'F',
            Level::Assert => 'A',
            Level::Unset => '-',
        }
    }

    /// The level's letter with a blank on either side.
    pub open spec fn badge_text(self) -> Seq<char> {
        seq![' ', self.letter(), ' ']
    }

    /// The letter a level is displayed as.
    pub fn symbol(&self) -> (symbol: char)
        ensures
            symbol == self.letter(),
    {
        match self {
            Level::Trace => 'T',
            Level::Verbose => 'V',
            Level::Debug => 'D',
            Level::Info => 'I',
            Level::Warn => 'W',
            Level::Error => 'E',
            Level::Fatal => 'F',
            Level::Assert => 'A',
            Level::Unset => '-',
        }
    }

    /// The level's letter with a blank on either side.
    pub fn badge(&self) -> (badge: String)
        ensures
            badge@ == self.badge_text(),
    {
        let mut badge = String::new();
        badge.push(' ');
        badge.push(self.symbol());
        badge.push(' ');
        badge
    }
}

/// The formats a record can be written in.
#[derive(Clone, Copy, Debug, PartialEq, Eq, Structural)]
pub enum Format {
    Csv,
    Html,
    Human,
    Json,
    Raw,
}

impl Format {
    /// The format of the given name, if there is one: names are written in
    /// lower case.
    pub open spec fn named(name: Seq<char>) -> Option<Format> {
        if name == "csv"@ {
            Some(Format::Csv)
        } else if name == "html"@ {
            Some(Format::Html)
        } else if name == "human"@ {
            Some(Format::Human)
        } else if name == "json"@ {
            Some(Format::Json)
        } else if name == "raw"@ {
            Some(Format::Raw)
        } else {
            None
        }
    }

    /// Only one name stands for the HTML format.
    pub proof fn lemma_html_has_one_name(name: Seq<char>)
        ensures
            Format::named(name) == Some(Format::Html) <==> name == "html"@,
    {
        reveal_strlit("csv");
        reveal_strlit("html");
        if name == "html"@ {
            assert(name.len() == 4);
            assert("csv"@.len() == 3);
        }
    }

    /// The format of the given name, if there is one.
    pub fn parse(name: &str) -> (format: Option<Format>)
        ensures
            format == Format::named(name@),
    {
        if same_text(name, "csv") {
            Some(Format::Csv)
        } else if same_text(name, "html") {
            Some(Format::Html)
        } else if same_text(name, "human") {
            Some(Format::Human)
        } else if same_text(name, "json") {
            Some(Format::Json)
        } else if same_text(name, "raw") {
            Some(Format::Raw)
        } else {
            None
        }
    }
}

/// One structured log line.
#[derive(Clone, Debug, PartialEq, Eq)]
pub struct Record {
    pub timestamp: Option<Timestamp>,
    pub message: String,
    pub level: Level,
    pub tag: String,
    pub process: String,
    pub thread: String,
}

/// A record with its texts as character sequences.
pub struct RecordView {
    pub timestamp: Option<Timestamp>,
    pub message: Seq<char>,
    pub level: Level,
    pub tag: Seq<char>,
    pub process: Seq<char>,
    pub thread: Seq<char>,
}

impl View for Record {
    type V = RecordView;

    open spec fn view(&self) -> RecordView {
        RecordView {
            timestamp: self.timestamp,
            message: self.message@,
            level: self.level,
            tag: self.tag@,
            process: self.process@,
            thread: self.thread@,
        }
    }
}

} // verus!
