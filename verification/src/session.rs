//! The state of a session and what it says of every record: the text and the
//! style of each column, the lines of the message, and the state that the
//! record leaves behind.

use crate::color::{hashed_index, Color, Style, DIM_INDEX};
use crate::config::{switched_on, wanted_format, Arguments, Config, Profile, DEFAULT_DIFF_WIDTH};
use crate::layout::{
    chunk, chunk_count, preamble_columns, tag_columns, tag_text, thread_columns, thread_text,
    wider,
};
use crate::line::{line_spans, Marker, PreambleView, RenderingView, SpanView};
use crate::pattern::{any_matches, compilable};
use crate::record::{Format, Level, RecordView};
use crate::text::{align_left, align_right, contains, repeated, texts};
use crate::timestamp::{diff_text, elapsed, timestamp_text, DateFormat, Timestamp};
use vstd::prelude::*;

verus! {

/// The state of a session: what was configured when the renderer was made,
/// the widest process and thread names seen so far, and the time of the last
/// record of each tag.
pub struct Session {
    pub color: bool,
    pub date_format: DateFormat,
    pub diff_width: nat,
    pub format: Format,
    /// The highlight patterns as they were written.
    pub highlight: Seq<Seq<char>>,
    pub no_dimm: bool,
    pub process_width: nat,
    pub shorten_tag: bool,
    pub tag_timestamps: Map<Seq<char>, Timestamp>,
    pub tag_width: Option<usize>,
    pub thread_width: nat,
    pub time_diff: bool,
}

/// The columns in front of the message of one record, without the padding
/// of the time and the elapsed time.
pub struct Columns {
    pub timestamp: Seq<char>,
    pub diff: Seq<char>,
    pub tag: Seq<char>,
    pub process: Seq<char>,
    pub thread: Seq<char>,
}

/// The text that a message holds where a new session begins.
pub open spec fn session_marker() -> Seq<char> {
    "--------- beginning of"@
}

/// Whether a message marks the beginning of a session.
pub open spec fn starts_session(message: Seq<char>) -> bool {
    contains(message, session_marker())
}

/// The number of characters of the message on each line where a message of
/// `len` characters behind a preamble of `preamble` characters is cut.
pub open spec fn wrap_width(preamble: nat, len: nat, terminal: Option<usize>) -> Option<nat> {
    match terminal {
        Some(columns) => if preamble < columns && preamble + len > columns {
            Some((columns - preamble) as nat)
        } else {
            None
        },
        None => None,
    }
}

/// The lines of a message behind their preamble: one line for each chunk of
/// `width` characters, the first and the last marked as such and so the ones
/// in between, or the whole message on a single line.
pub open spec fn message_lines(
    preamble: PreambleView,
    message: Seq<char>,
    width: Option<nat>,
) -> Seq<Seq<SpanView>> {
    match width {
        Some(width) => {
            let count = chunk_count(message.len(), width);
            Seq::new(
                count,
                |i: int| line_spans(preamble, Marker::at(i, count), chunk(message, width, i)),
            )
        },
        None => seq![line_spans(preamble, Marker::Single, message)],
    }
}

impl Session {
    /// The state of a session that has seen no record.
    pub open spec fn configured(args: Arguments, config: Config, profile: Profile) -> Session {
        let time_diff = switched_on(args.show_time_diff, config.show_time_diff);
        Session {
            color: !switched_on(args.monochrome, config.monochrome),
            date_format: DateFormat::selected(
                switched_on(args.show_date, config.show_date),
                switched_on(args.hide_timestamp, config.hide_timestamp),
            ),
            diff_width: if time_diff {
                match config.time_diff_width {
                    Some(width) => width as nat,
                    None => DEFAULT_DIFF_WIDTH as nat,
                }
            } else {
                0
            },
            format: wanted_format(args.format),
            highlight: compilable(texts(profile.highlight@) + texts(args.highlight@)),
            no_dimm: switched_on(args.no_dimm, config.no_dimm),
            process_width: 0,
            shorten_tag: switched_on(args.shorten_tags, config.shorten_tags),
            tag_timestamps: Map::empty(),
            tag_width: config.tag_width,
            thread_width: 0,
            time_diff,
        }
    }

    /// The time of the record as it is displayed; empty for a record without
    /// a time.
    pub open spec fn timestamp_column(self, record: RecordView) -> Seq<char> {
        match record.timestamp {
            Some(at) => timestamp_text(self.date_format, at),
            None => Seq::empty(),
        }
    }

    /// The time since the last record of the same tag. It is empty where the
    /// column is off, where the record has no time, where the tag was not seen
    /// before in this session, where one of the two times is no calendar
    /// date, and on a record that starts a session.
    pub open spec fn diff_column(self, record: RecordView) -> Seq<char> {
        if !starts_session(record.message) && self.time_diff && record.timestamp is Some
            && self.tag_timestamps.contains_key(record.tag) {
            match elapsed(record.timestamp->0, self.tag_timestamps[record.tag]) {
                Some(millis) => diff_text(millis, self.diff_width),
                None => Seq::empty(),
            }
        } else {
            Seq::empty()
        }
    }

    /// The width of the tag column on a terminal of the given width.
    pub open spec fn tag_width_on(self, terminal: Option<usize>) -> nat {
        tag_columns(self.tag_width, terminal)
    }

    /// The tag column. A record that starts a session has no tag of its own:
    /// its message stands there.
    pub open spec fn tag_column(self, record: RecordView, terminal: Option<usize>) -> Seq<char> {
        tag_text(
            if starts_session(record.message) {
                record.message
            } else {
                record.tag
            },
            self.tag_width_on(terminal),
            self.shorten_tag,
        )
    }

    /// The width of the process column once `record` has been seen.
    pub open spec fn process_width_after(self, record: RecordView) -> nat {
        wider(self.process_width, record.process.len())
    }

    /// The width of the thread column once `record` has been seen.
    pub open spec fn thread_width_after(self, record: RecordView) -> nat {
        thread_columns(self.thread_width, record.thread)
    }

    /// The process column: the name at the left edge of the column.
    pub open spec fn process_column(self, record: RecordView) -> Seq<char> {
        align_left(record.process, self.process_width_after(record))
    }

    /// The thread column.
    pub open spec fn thread_column(self, record: RecordView) -> Seq<char> {
        thread_text(record.thread, self.thread_width)
    }

    /// The muted colour of this session.
    pub open spec fn dim(self) -> Color {
        if self.no_dimm {
            Color::White
        } else {
            Color::Indexed(DIM_INDEX)
        }
    }

    /// The colour of a level.
    pub open spec fn level_color(self, level: Level) -> Color {
        match level {
            Level::Trace | Level::Verbose | Level::Debug | Level::Unset => self.dim(),
            Level::Info => Color::Green,
            Level::Warn => Color::Yellow,
            Level::Error | Level::Fatal | Level::Assert => Color::Red,
        }
    }

    /// Whether one of the highlight patterns matches in `text`.
    pub open spec fn highlights(self, text: Seq<char>) -> bool {
        any_matches(self.highlight, text)
    }

    /// Whether a highlight pattern matches in the message or in the tag,
    /// process or thread column of a record.
    pub open spec fn highlighted(self, columns: Columns, message: Seq<char>) -> bool {
        ||| self.highlights(message)
        ||| self.highlights(columns.tag)
        ||| self.highlights(columns.process)
        ||| self.highlights(columns.thread)
    }

    /// The style of a field of the given colour: bold where a highlight
    /// pattern matches in its text.
    pub open spec fn field_style(self, text: Seq<char>, color: Color) -> Style {
        Style { bold: self.highlights(text), foreground: Some(color), background: None }
    }

    /// The style of a span in a session with colours; none in one without.
    pub open spec fn painted(self, style: Style) -> Option<Style> {
        if self.color {
            Some(style)
        } else {
            None
        }
    }

    /// The columns of the record.
    pub open spec fn columns(self, record: RecordView, terminal: Option<usize>) -> Columns {
        Columns {
            timestamp: self.timestamp_column(record),
            diff: self.diff_column(record),
            tag: self.tag_column(record, terminal),
            process: self.process_column(record),
            thread: self.thread_column(record),
        }
    }

    /// What every line of a record of the given columns, level and message
    /// starts with: time and elapsed time are padded to their widths, and in
    /// a session with colours every field has its style. Time and elapsed
    /// time are muted, and the time is bold and yellow on a highlighted line;
    /// tag, process and thread each have the colour of their own text; the
    /// level badge is black on the colour of the level, which is also the
    /// colour of marker and message.
    pub open spec fn dressed(
        self,
        columns: Columns,
        level: Level,
        message: Seq<char>,
    ) -> PreambleView {
        let dim = Style { bold: false, foreground: Some(self.dim()), background: None };
        let level_color = self.level_color(level);
        PreambleView {
            timestamp: SpanView {
                text: align_left(columns.timestamp, self.date_format.columns()),
                style: self.painted(
                    if self.highlighted(columns, message) {
                        Style { bold: true, foreground: Some(Color::Yellow), background: None }
                    } else {
                        dim
                    },
                ),
            },
            diff: SpanView {
                text: align_right(columns.diff, self.diff_width),
                style: self.painted(dim),
            },
            tag: SpanView {
                text: columns.tag,
                style: self.painted(
                    self.field_style(columns.tag, Color::Indexed(hashed_index(columns.tag))),
                ),
            },
            process: SpanView {
                text: columns.process,
                style: self.painted(
                    self.field_style(
                        columns.process,
                        Color::Indexed(hashed_index(columns.process)),
                    ),
                ),
            },
            thread: SpanView {
                text: columns.thread,
                style: self.painted(
                    self.field_style(columns.thread, Color::Indexed(hashed_index(columns.thread))),
                ),
            },
            level: SpanView {
                text: level.badge_text(),
                style: self.painted(
                    Style {
                        bold: false,
                        foreground: Some(Color::Black),
                        background: Some(level_color),
                    },
                ),
            },
            marker: self.painted(
                Style { bold: false, foreground: Some(level_color), background: None },
            ),
            message: self.painted(self.field_style(message, level_color)),
        }
    }

    /// What every line of the record starts with.
    pub open spec fn preamble(self, record: RecordView, terminal: Option<usize>) -> PreambleView {
        self.dressed(self.columns(record, terminal), record.level, record.message)
    }

    /// The number of characters in front of the message.
    pub open spec fn preamble_width(self, record: RecordView, terminal: Option<usize>) -> nat {
        preamble_columns(
            self.date_format.columns(),
            self.diff_width,
            self.tag_width_on(terminal),
            self.process_width_after(record),
            self.thread_width_after(record),
        )
    }

    /// The number of characters of the message on each line, where the
    /// message is cut: the width of the terminal is known, preamble and
    /// message together are wider, and the preamble leaves room. Elsewhere the
    /// message stands on one line.
    pub open spec fn chunk_width(self, record: RecordView, terminal: Option<usize>) -> Option<
        nat,
    > {
        wrap_width(self.preamble_width(record, terminal), record.message.len(), terminal)
    }

    /// The lines of the record.
    pub open spec fn lines(self, record: RecordView, terminal: Option<usize>) -> Seq<
        Seq<SpanView>,
    > {
        message_lines(
            self.preamble(record, terminal),
            record.message,
            self.chunk_width(record, terminal),
        )
    }

    /// The number of characters on each line of a message of `len`
    /// characters that is cut, behind a tag column of `tag_width` characters
    /// and process and thread columns as wide as they are now.
    pub open spec fn cut_at(self, tag_width: nat, len: nat, terminal: Option<usize>) -> Option<
        nat,
    > {
        wrap_width(
            preamble_columns(
                self.date_format.columns(),
                self.diff_width,
                tag_width,
                self.process_width,
                self.thread_width,
            ),
            len,
            terminal,
        )
    }

    /// The horizontal rule in front of a record that starts a session: as
    /// wide as the terminal, and none where that width is not known.
    pub open spec fn rule(record: RecordView, terminal: Option<usize>) -> Option<Seq<char>> {
        match terminal {
            Some(columns) => if starts_session(record.message) {
                Some(repeated('─', columns as nat))
            } else {
                None
            },
            None => None,
        }
    }

    /// What is printed for the record in the human-readable format.
    pub open spec fn rendering(self, record: RecordView, terminal: Option<usize>) -> RenderingView {
        RenderingView { rule: Session::rule(record, terminal), lines: self.lines(record, terminal) }
    }

    /// The times of the last records by tag once `record` has been printed:
    /// a record that starts a session drops all that was stored, and a record
    /// with a time and a tag stores its own, where the elapsed-time column is
    /// on.
    pub open spec fn tag_timestamps_after(self, record: RecordView) -> Map<Seq<char>, Timestamp> {
        let kept = if starts_session(record.message) {
            Map::empty()
        } else {
            self.tag_timestamps
        };
        if self.time_diff && record.timestamp is Some && record.tag.len() > 0 {
            kept.insert(record.tag, record.timestamp->0)
        } else {
            kept
        }
    }

    /// The state of the session once `record` has been printed in the
    /// human-readable format.
    pub open spec fn after(self, record: RecordView) -> Session {
        Session {
            process_width: self.process_width_after(record),
            thread_width: self.thread_width_after(record),
            tag_timestamps: self.tag_timestamps_after(record),
            ..self
        }
    }

    /// The state of the session once all of `records` have been printed in
    /// the human-readable format, in their order.
    pub open spec fn after_all(self, records: Seq<RecordView>) -> Session
        decreases records.len(),
    {
        if records.len() == 0 {
            self
        } else {
            self.after_all(records.drop_last()).after(records.last())
        }
    }
}

} // verus!
