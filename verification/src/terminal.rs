//! The renderer: what is printed for each record of a session, and how the
//! session changes with it.

use crate::color::{hashed_color, Color, Style, DIM_INDEX};
use crate::config::{
    switch, wanted_format, Arguments, Config, ConfigError, Profile, DEFAULT_DIFF_WIDTH,
};
use crate::layout::{chunk, chunks, preamble_width, render_tag, render_thread, tag_width, wrap};
use crate::line::{line_spans, Line, Marker, Preamble, Rendering, Span};
use crate::pattern::{compile_into, matches_any, pattern_compiles, sources, Pattern};
use crate::record::{Format, Level, Record};
use crate::session::{message_lines, starts_session, Columns, Session};
use crate::text::{contains_text, pad_end, pad_start, repeat, texts};
use crate::timestamp::{elapsed_millis, format_diff, format_timestamp, DateFormat, Timestamp};
use vstd::hash_map::StringHashMap;
use vstd::prelude::*;

verus! {

/// What there is to print for one record.
#[derive(Debug, PartialEq, Eq)]
pub enum Rendered {
    /// One line: the record as it writes itself in the given format.
    Serialized(Format),
    /// The lines of the human-readable format.
    Human(Rendering),
}

/// The renderer of one session.
pub struct Terminal {
    color: bool,
    date_format: DateFormat,
    diff_width: usize,
    format: Format,
    highlight: Vec<Pattern>,
    no_dimm: bool,
    process_width: usize,
    shorten_tag: bool,
    tag_timestamps: StringHashMap<Timestamp>,
    tag_width: Option<usize>,
    thread_width: usize,
    time_diff: bool,
}

impl View for Terminal {
    type V = Session;

    closed spec fn view(&self) -> Session {
        Session {
            color: self.color,
            date_format: self.date_format,
            diff_width: self.diff_width as nat,
            format: self.format,
            highlight: sources(self.highlight@),
            no_dimm: self.no_dimm,
            process_width: self.process_width as nat,
            shorten_tag: self.shorten_tag,
            tag_timestamps: self.tag_timestamps@,
            tag_width: self.tag_width,
            thread_width: self.thread_width as nat,
            time_diff: self.time_diff,
        }
    }
}

/// Whether a message marks the beginning of a session.
pub fn is_session_start(message: &str) -> (starts: bool)
    ensures
        starts == starts_session(message@),
{
    contains_text(message, "--------- beginning of")
}

impl Terminal {
    /// What holds of every renderer: its format is one that a terminal can
    /// show.
    pub open spec fn wf(&self) -> bool {
        self@.format != Format::Html
    }

    /// A renderer for a new session. Each option is on where the command
    /// line or the configuration turns it on; highlight patterns are those of
    /// the profile and then those of the command line, without the ones that
    /// do not compile. The format is the human-readable one unless another is
    /// named, and the HTML format is refused.
    pub fn new(args: &Arguments, config: &Config, profile: &Profile) -> (made: Result<
        Terminal,
        ConfigError,
    >)
        ensures
            match made {
                Ok(terminal) => wanted_format(args.format) != Format::Html && terminal.wf()
                    && terminal@ == Session::configured(*args, *config, *profile),
                Err(error) => wanted_format(args.format) == Format::Html && error
                    == ConfigError::UnsupportedFormat,
            },
            made is Err <==> (args.format matches Some(name) && name@ == "html"@),
    {
        proof {
            if let Some(name) = &args.format {
                Format::lemma_html_has_one_name(name@);
            }
        }
        let mut highlight: Vec<Pattern> = Vec::new();
        compile_into(&mut highlight, &profile.highlight);
        compile_into(&mut highlight, &args.highlight);
        proof {
            Seq::filter_distributes_over_add(
                texts(profile.highlight@),
                texts(args.highlight@),
                |source: Seq<char>| pattern_compiles(source),
            );
            assert(sources(Seq::<Pattern>::empty()) == Seq::<Seq<char>>::empty());
        }
        let format = match &args.format {
            Some(name) => match Format::parse(name.as_str()) {
                Some(format) => format,
                None => Format::Human,
            },
            None => Format::Human,
        };
        match format {
            Format::Html => {
                return Err(ConfigError::UnsupportedFormat);
            },
            _ => {},
        }
        let time_diff = switch(args.show_time_diff, config.show_time_diff);
        let time_diff_width = match config.time_diff_width {
            Some(width) => width,
            None => DEFAULT_DIFF_WIDTH,
        };
        Ok(
            Terminal {
                color: !switch(args.monochrome, config.monochrome),
                date_format: DateFormat::select(
                    switch(args.show_date, config.show_date),
                    switch(args.hide_timestamp, config.hide_timestamp),
                ),
                diff_width: if time_diff {
                    time_diff_width
                } else {
                    0
                },
                format,
                highlight,
                no_dimm: switch(args.no_dimm, config.no_dimm),
                process_width: 0,
                shorten_tag: switch(args.shorten_tags, config.shorten_tags),
                tag_timestamps: StringHashMap::new(),
                tag_width: config.tag_width,
                thread_width: 0,
                time_diff,
            },
        )
    }

    /// The format that records are written in.
    pub fn format(&self) -> (format: Format)
        ensures
            format == self@.format,
    {
        self.format
    }

    /// Whether the lines are painted.
    pub fn color(&self) -> (color: bool)
        ensures
            color == self@.color,
    {
        self.color
    }

    /// How the time of a record is displayed.
    pub fn date_format(&self) -> (format: DateFormat)
        ensures
            format == self@.date_format,
    {
        self.date_format
    }

    /// The width of the elapsed-time column.
    pub fn diff_width(&self) -> (width: usize)
        ensures
            width == self@.diff_width,
    {
        self.diff_width
    }

    /// The configured width of the tag column, if one is configured.
    pub fn tag_width(&self) -> (width: Option<usize>)
        ensures
            width == self@.tag_width,
    {
        self.tag_width
    }

    /// The width of the process column.
    pub fn process_width(&self) -> (width: usize)
        ensures
            width == self@.process_width,
    {
        self.process_width
    }

    /// The width of the thread column.
    pub fn thread_width(&self) -> (width: usize)
        ensures
            width == self@.thread_width,
    {
        self.thread_width
    }

    /// The number of highlight patterns.
    pub fn highlight_count(&self) -> (count: usize)
        ensures
            count == self@.highlight.len(),
    {
        self.highlight.len()
    }

    /// The time of the last record of `tag` in this session, if there was one.
    pub fn last_seen(&self, tag: &str) -> (at: Option<Timestamp>)
        ensures
            at == (if self@.tag_timestamps.contains_key(tag@) {
                Some(self@.tag_timestamps[tag@])
            } else {
                None
            }),
    {
        match self.tag_timestamps.get(tag) {
            Some(at) => Some(*at),
            None => None,
        }
    }

    /// The style of a field of colour `c`: bold where a highlight pattern
    /// matches in `s`, which `h` then records.
    pub fn highlight_style(&self, s: &str, c: Color, h: &mut bool) -> (style: Style)
        ensures
            style == self@.field_style(s@, c),
            *final(h) == (*old(h) || self@.highlights(s@)),
    {
        if matches_any(&self.highlight, s) {
            *h = true;
            Style::foreground(c, true)
        } else {
            Style::foreground(c, false)
        }
    }

    /// The muted colour of this session.
    fn dim_color(&self) -> (color: Color)
        ensures
            color == self@.dim(),
    {
        if self.no_dimm {
            Color::White
        } else {
            Color::Indexed(DIM_INDEX)
        }
    }

    /// The colour of a level.
    fn level_color(&self, level: Level) -> (color: Color)
        ensures
            color == self@.level_color(level),
    {
        match level {
            Level::Trace | Level::Verbose | Level::Debug | Level::Unset => self.dim_color(),
            Level::Info => Color::Green,
            Level::Warn => Color::Yellow,
            Level::Error | Level::Fatal | Level::Assert => Color::Red,
        }
    }

    /// The time since the last record of the same tag.
    fn diff_column(&self, record: &Record, starts: bool) -> (column: String)
        requires
            starts == starts_session(record@.message),
        ensures
            column@ == self@.diff_column(record@),
    {
        if starts || !self.time_diff {
            return String::new();
        }
        match &record.timestamp {
            Some(at) => match self.tag_timestamps.get(record.tag.as_str()) {
                Some(earlier) => match elapsed_millis(at, earlier) {
                    Some(millis) => format_diff(millis, self.diff_width),
                    None => String::new(),
                },
                None => String::new(),
            },
            None => String::new(),
        }
    }

    /// What every line of the record starts with, from the columns of the
    /// record.
    fn preamble(
        &self,
        record: &Record,
        timestamp: String,
        diff: String,
        tag: String,
        process: String,
        thread: String,
    ) -> (preamble: Preamble)
        ensures
            preamble@ == self@.dressed(
                Columns {
                    timestamp: timestamp@,
                    diff: diff@,
                    tag: tag@,
                    process: process@,
                    thread: thread@,
                },
                record.level,
                record@.message,
            ),
    {
        let timestamp = pad_end(timestamp.as_str(), self.date_format.width());
        let diff = pad_start(diff.as_str(), self.diff_width);
        let level = record.level.badge();
        if self.color {
            let dim = self.dim_color();
            let level_color = self.level_color(record.level);
            let mut highlighted = false;
            let message_style = self.highlight_style(
                record.message.as_str(),
                level_color,
                &mut highlighted,
            );
            let tag_style = self.highlight_style(
                tag.as_str(),
                hashed_color(tag.as_str()),
                &mut highlighted,
            );
            let process_style = self.highlight_style(
                process.as_str(),
                hashed_color(process.as_str()),
                &mut highlighted,
            );
            let thread_style = self.highlight_style(
                thread.as_str(),
                hashed_color(thread.as_str()),
                &mut highlighted,
            );
            let timestamp_style = if highlighted {
                Style::foreground(Color::Yellow, true)
            } else {
                Style::foreground(dim, false)
            };
            Preamble {
                timestamp: Span { text: timestamp, style: Some(timestamp_style) },
                diff: Span { text: diff, style: Some(Style::foreground(dim, false)) },
                tag: Span { text: tag, style: Some(tag_style) },
                process: Span { text: process, style: Some(process_style) },
                thread: Span { text: thread, style: Some(thread_style) },
                level: Span { text: level, style: Some(Style::on(level_color, Color::Black)) },
                marker: Some(Style::foreground(level_color, false)),
                message: Some(message_style),
            }
        } else {
            Preamble {
                timestamp: Span { text: timestamp, style: None },
                diff: Span { text: diff, style: None },
                tag: Span { text: tag, style: None },
                process: Span { text: process, style: None },
                thread: Span { text: thread, style: None },
                level: Span { text: level, style: None },
                marker: None,
                message: None,
            }
        }
    }

    /// The number of characters of the message on each line, where the
    /// message is cut.
    fn chunk_width(&self, tag_width: usize, message: &str, terminal: Option<usize>) -> (width:
        Option<usize>)
        ensures
            match width {
                Some(w) => w > 0 && Some(w as nat) == self@.cut_at(
                    tag_width as nat,
                    message@.len(),
                    terminal,
                ),
                None => self@.cut_at(tag_width as nat, message@.len(), terminal) is None,
            },
    {
        let columns = match terminal {
            Some(columns) => columns,
            None => {
                return None;
            },
        };
        let preamble = preamble_width(
            self.date_format.width(),
            self.diff_width,
            tag_width,
            self.process_width,
            self.thread_width,
        );
        match preamble {
            Some(preamble) => if preamble < columns && message.unicode_len() > columns - preamble {
                Some(columns - preamble)
            } else {
                None
            },
            None => None,
        }
    }

    /// The lines of a message behind their preamble.
    fn lines(preamble: &Preamble, message: &str, width: Option<usize>) -> (lines: Vec<Line>)
        ensures
            lines@.map_values(|line: Line| line@) == message_lines(
                preamble@,
                message@,
                match width {
                    Some(w) => Some(w as nat),
                    None => None,
                },
            ),
    {
        let mut lines: Vec<Line> = Vec::new();
        match width {
            Some(width) => {
                let cut = wrap(message, width);
                let count = cut.len();
                let mut i: usize = 0;
                while i < count
                    invariant
                        i <= count,
                        count == cut.len(),
                        texts(cut@) == chunks(message@, width as nat),
                        lines.len() == i,
                        forall|k: int|
                            0 <= k < i ==> (#[trigger] lines@[k])@ == line_spans(
                                preamble@,
                                Marker::at(k, count as nat),
                                chunk(message@, width as nat, k),
                            ),
                    decreases count - i,
                {
                    proof {
                        assert(texts(cut@).len() == count);
                        assert(texts(cut@)[i as int] == cut@[i as int]@);
                        assert(cut@[i as int]@ == chunk(message@, width as nat, i as int));
                    }
                    let line = preamble.line(Marker::of(i, count), cut[i].clone());
                    lines.push(line);
                    i += 1;
                }
                proof {
                    assert(texts(cut@).len() == count);
                    assert(lines@.map_values(|line: Line| line@) =~= message_lines(
                        preamble@,
                        message@,
                        Some(width as nat),
                    ));
                }
            },
            None => {
                lines.push(preamble.line(Marker::Single, message.to_owned()));
                proof {
                    assert(lines@.map_values(|line: Line| line@) =~= message_lines(
                        preamble@,
                        message@,
                        None,
                    ));
                }
            },
        }
        lines
    }

    /// What is printed for a record in the human-readable format on a
    /// terminal of the given width, `None` for a width that is not known. The
    /// record is taken into the state of the session.
    pub fn render_human(&mut self, record: &Record, terminal: Option<usize>) -> (rendering:
        Rendering)
        ensures
            rendering@ == old(self)@.rendering(record@, terminal),
            final(self)@ == old(self)@.after(record@),
            final(self)@.process_width >= old(self)@.process_width,
            final(self)@.thread_width >= old(self)@.thread_width,
    {
        let starts = is_session_start(record.message.as_str());
        let timestamp = match &record.timestamp {
            Some(at) => format_timestamp(self.date_format, at),
            None => String::new(),
        };
        let diff = self.diff_column(record, starts);
        let tag_width = tag_width(self.tag_width, terminal);
        let mut rule: Option<String> = None;
        let tag = if starts {
            self.tag_timestamps.clear();
            match terminal {
                Some(columns) => {
                    rule = Some(repeat('─', columns));
                },
                None => {},
            }
            render_tag(record.message.as_str(), tag_width, self.shorten_tag)
        } else {
            render_tag(record.tag.as_str(), tag_width, self.shorten_tag)
        };
        let process_len = record.process.as_str().unicode_len();
        if process_len > self.process_width {
            self.process_width = process_len;
        }
        let process = pad_end(record.process.as_str(), self.process_width);
        let (thread, thread_width) = render_thread(record.thread.as_str(), self.thread_width);
        self.thread_width = thread_width;
        let preamble = self.preamble(record, timestamp, diff, tag, process, thread);
        let width = self.chunk_width(tag_width, record.message.as_str(), terminal);
        let lines = Terminal::lines(&preamble, record.message.as_str(), width);
        match &record.timestamp {
            Some(at) => {
                if self.time_diff && !record.tag.as_str().is_empty() {
                    self.tag_timestamps.insert(record.tag.clone(), *at);
                }
            },
            None => {},
        }
        proof {
            let before = old(self)@;
            assert(preamble@ == before.preamble(record@, terminal));
            assert(self@.tag_timestamps =~= before.tag_timestamps_after(record@));
        }
        Rendering { rule, lines }
    }

    /// What there is to print for a record: in the human-readable format its
    /// lines, and in every other format the record as it writes itself, which
    /// leaves the session as it was.
    pub fn render(&mut self, record: &Record, terminal: Option<usize>) -> (rendered: Rendered)
        requires
            old(self).wf(),
        ensures
            final(self).wf(),
            final(self)@.process_width >= old(self)@.process_width,
            final(self)@.thread_width >= old(self)@.thread_width,
            match rendered {
                Rendered::Serialized(format) => {
                    &&& format == old(self)@.format
                    &&& format != Format::Human
                    &&& final(self)@ == old(self)@
                },
                Rendered::Human(rendering) => {
                    &&& old(self)@.format == Format::Human
                    &&& rendering@ == old(self)@.rendering(record@, terminal)
                    &&& final(self)@ == old(self)@.after(record@)
                },
            },
    {
        match self.format {
            Format::Csv | Format::Json | Format::Raw => Rendered::Serialized(self.format),
            Format::Human => Rendered::Human(self.render_human(record, terminal)),
            Format::Html => vstd::pervasive::unreached(),
        }
    }
}

} // verus!
