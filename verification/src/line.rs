//! What a rendered record is made of: lines of styled spans.

use crate::color::Style;
use vstd::prelude::*;

verus! {

/// A piece of a line and how it is painted. A span without a style is
/// written as it is.
#[derive(Clone, Debug, PartialEq, Eq)]
pub struct Span {
    pub text: String,
    pub style: Option<Style>,
}

/// A span with its text as a character sequence.
pub struct SpanView {
    pub text: Seq<char>,
    pub style: Option<Style>,
}

impl View for Span {
    type V = SpanView;

    open spec fn view(&self) -> SpanView {
        SpanView { text: self.text@, style: self.style }
    }
}

/// One physical line: its spans from left to right.
#[derive(Clone, Debug, PartialEq, Eq)]
pub struct Line {
    pub spans: Vec<Span>,
}

impl View for Line {
    type V = Seq<SpanView>;

    open spec fn view(&self) -> Seq<SpanView> {
        self.spans@.map_values(|span: Span| span@)
    }
}

/// The texts of `spans`, one after the other.
pub open spec fn plain_text(spans: Seq<SpanView>) -> Seq<char>
    decreases spans.len(),
{
    if spans.len() == 0 {
        Seq::empty()
    } else {
        plain_text(spans.drop_last()) + spans.last().text
    }
}

impl Line {
    /// The line without its styles.
    pub fn text(&self) -> (text: String)
        ensures
            text@ == plain_text(self@),
    {
        let mut text = String::new();
        let mut i: usize = 0;
        while i < self.spans.len()
            invariant
                i <= self.spans.len(),
                text@ == plain_text(self@.take(i as int)),
            decreases self.spans.len() - i,
        {
            proof {
                assert(self@.take(i + 1).drop_last() == self@.take(i as int));
            }
            text.append(self.spans[i].text.as_str());
            i += 1;
        }
        proof {
            assert(self@.take(self.spans.len() as int) == self@);
        }
        text
    }
}

/// Where a line stands among the lines of one message.
#[derive(Clone, Copy, Debug, PartialEq, Eq, Structural)]
pub enum Marker {
    /// The only line of a message.
    Single,
    /// The first of several lines.
    First,
    /// A line between the first and the last.
    Middle,
    /// The last of several lines.
    Last,
}

impl Marker {
    /// The glyph that is printed for a marker.
    pub open spec fn glyph_char(self) -> char {
        match self {
            Marker::Single => ' ',
            Marker::First => '┌',
            Marker::Middle => '├',
            Marker::Last => '└',
        }
    }

    /// The marker of line `i`, from 0, of `count` lines.
    pub open spec fn at(i: int, count: nat) -> Marker {
        if count <= 1 {
            Marker::Single
        } else if i == 0 {
            Marker::First
        } else if i == count - 1 {
            Marker::Last
        } else {
            Marker::Middle
        }
    }

    /// The glyph that is printed for a marker.
    pub fn glyph(&self) -> (glyph: char)
        ensures
            glyph == self.glyph_char(),
    {
        match self {
            Marker::Single => ' ',
            Marker::First => '┌',
            Marker::Middle => '├',
            Marker::Last => '└',
        }
    }

    /// The marker of line `i`, from 0, of `count` lines.
    pub fn of(i: usize, count: usize) -> (marker: Marker)
        ensures
            marker == Marker::at(i as int, count as nat),
    {
        if count <= 1 {
            Marker::Single
        } else if i == 0 {
            Marker::First
        } else if i == count - 1 {
            Marker::Last
        } else {
            Marker::Middle
        }
    }
}

/// What every line of one record starts with: the columns in front of the
/// message, each padded to its width, and the styles of marker and message.
#[derive(Clone, Debug, PartialEq, Eq)]
pub struct Preamble {
    pub timestamp: Span,
    pub diff: Span,
    pub tag: Span,
    pub process: Span,
    pub thread: Span,
    pub level: Span,
    pub marker: Option<Style>,
    pub message: Option<Style>,
}

/// A preamble with its texts as character sequences.
pub struct PreambleView {
    pub timestamp: SpanView,
    pub diff: SpanView,
    pub tag: SpanView,
    pub process: SpanView,
    pub thread: SpanView,
    pub level: SpanView,
    pub marker: Option<Style>,
    pub message: Option<Style>,
}

impl View for Preamble {
    type V = PreambleView;

    open spec fn view(&self) -> PreambleView {
        PreambleView {
            timestamp: self.timestamp@,
            diff: self.diff@,
            tag: self.tag@,
            process: self.process@,
            thread: self.thread@,
            level: self.level@,
            marker: self.marker,
            message: self.message,
        }
    }
}

/// A span that is written as it is.
pub open spec fn unstyled(text: Seq<char>) -> SpanView {
    SpanView { text, style: None }
}

/// One line: the columns of the preamble, process and thread in round
/// brackets, the level badge, the marker and a chunk of the message, with a
/// blank between them.
pub open spec fn line_spans(preamble: PreambleView, marker: Marker, chunk: Seq<char>) -> Seq<
    SpanView,
> {
    seq![
        preamble.timestamp,
        unstyled(seq![' ']),
        preamble.diff,
        unstyled(seq![' ']),
        preamble.tag,
        unstyled(seq![' ', '(']),
        preamble.process,
        preamble.thread,
        unstyled(seq![')', ' ']),
        preamble.level,
        unstyled(seq![' ']),
        SpanView { text: seq![marker.glyph_char()], style: preamble.marker },
        unstyled(seq![' ']),
        SpanView { text: chunk, style: preamble.message },
    ]
}

/// A span of the characters `first` and `second` that is written as it is.
fn separator(first: char, second: Option<char>) -> (span: Span)
    ensures
        span@ == unstyled(
            match second {
                Some(c) => seq![first, c],
                None => seq![first],
            },
        ),
{
    let mut text = String::new();
    text.push(first);
    match second {
        Some(c) => {
            text.push(c);
            proof {
                assert(text@ =~= seq![first, c]);
            }
        },
        None => {
            proof {
                assert(text@ =~= seq![first]);
            }
        },
    }
    Span { text, style: None }
}

impl Span {
    /// A copy of the span.
    pub fn duplicate(&self) -> (copy: Span)
        ensures
            copy@ == self@,
    {
        Span { text: self.text.clone(), style: self.style }
    }
}

impl Preamble {
    /// One line of the record: the preamble, the marker and a chunk of the
    /// message.
    pub fn line(&self, marker: Marker, chunk: String) -> (line: Line)
        ensures
            line@ == line_spans(self@, marker, chunk@),
    {
        let mut glyph = String::new();
        glyph.push(marker.glyph());
        let mut spans: Vec<Span> = Vec::new();
        spans.push(self.timestamp.duplicate());
        spans.push(separator(' ', None));
        spans.push(self.diff.duplicate());
        spans.push(separator(' ', None));
        spans.push(self.tag.duplicate());
        spans.push(separator(' ', Some('(')));
        spans.push(self.process.duplicate());
        spans.push(self.thread.duplicate());
        spans.push(separator(')', Some(' ')));
        spans.push(self.level.duplicate());
        spans.push(separator(' ', None));
        spans.push(Span { text: glyph, style: self.marker });
        spans.push(separator(' ', None));
        spans.push(Span { text: chunk, style: self.message });
        let line = Line { spans };
        proof {
            assert(line@ =~= line_spans(self@, marker, chunk@));
        }
        line
    }
}

/// What is printed for one record: a horizontal rule in front of a record
/// that starts a session, then the lines of the record.
#[derive(Clone, Debug, PartialEq, Eq)]
pub struct Rendering {
    pub rule: Option<String>,
    pub lines: Vec<Line>,
}

/// A rendering with its texts as character sequences.
pub struct RenderingView {
    pub rule: Option<Seq<char>>,
    pub lines: Seq<Seq<SpanView>>,
}

impl View for Rendering {
    type V = RenderingView;

    open spec fn view(&self) -> RenderingView {
        RenderingView {
            rule: match self.rule {
                Some(rule) => Some(rule@),
                None => None,
            },
            lines: self.lines@.map_values(|line: Line| line@),
        }
    }
}

} // verus!
