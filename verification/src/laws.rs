//! What holds of the renderer on every session and every record.

use crate::layout::{chunk, chunk_count, lemma_chunk_count, tag_text};
use crate::line::{line_spans, plain_text, Marker, SpanView};
use crate::record::RecordView;
use crate::session::{starts_session, Session};
use crate::text::{align_right, spaces, without_vowels};
use crate::timestamp::{diff_text, magnitude, millis_between, Timestamp};
use vstd::arithmetic::div_mod::{
    lemma_div_pos_is_pos, lemma_fundamental_div_mod, lemma_mod_pos_bound,
};
use vstd::arithmetic::mul::{
    lemma_mul_inequality, lemma_mul_is_commutative, lemma_mul_is_distributive_add_other_way,
    lemma_mul_nonnegative,
};
use vstd::prelude::*;

verus! {

/// The process and thread columns never get narrower, whatever records a
/// session sees.
pub proof fn lemma_widths_never_shrink(session: Session, records: Seq<RecordView>)
    ensures
        session.after_all(records).process_width >= session.process_width,
        session.after_all(records).thread_width >= session.thread_width,
    decreases records.len(),
{
    if records.len() > 0 {
        lemma_widths_never_shrink(session, records.drop_last());
    }
}

/// The widths of a session after some records are no greater than after
/// more records.
pub proof fn lemma_widths_grow_with_records(
    session: Session,
    records: Seq<RecordView>,
    more: Seq<RecordView>,
)
    ensures
        session.after_all(records + more).process_width >= session.after_all(
            records,
        ).process_width,
        session.after_all(records + more).thread_width >= session.after_all(records).thread_width,
    decreases more.len(),
{
    if more.len() == 0 {
        assert(records + more == records);
    } else {
        assert((records + more).drop_last() == records + more.drop_last());
        assert((records + more).last() == more.last());
        lemma_widths_grow_with_records(session, records, more.drop_last());
    }
}

/// Only what a session has seen and what its records hold changes from one
/// record to the next: nothing of what was configured.
pub proof fn lemma_configuration_is_kept(session: Session, records: Seq<RecordView>)
    ensures
        ({
            let last = session.after_all(records);
            &&& last.color == session.color
            &&& last.date_format == session.date_format
            &&& last.diff_width == session.diff_width
            &&& last.format == session.format
            &&& last.highlight == session.highlight
            &&& last.no_dimm == session.no_dimm
            &&& last.shorten_tag == session.shorten_tag
            &&& last.tag_width == session.tag_width
            &&& last.time_diff == session.time_diff
        }),
    decreases records.len(),
{
    if records.len() > 0 {
        lemma_configuration_is_kept(session, records.drop_last());
    }
}

/// The tag column is exactly as wide as it is meant to be. A tag that fits
/// is kept whole behind the blanks that fill the column; a wider one is cut
/// to the width of the column, after it has lost its vowels where tags are
/// shortened.
pub proof fn lemma_tag_column(tag: Seq<char>, width: nat, shorten: bool)
    ensures
        tag_text(tag, width, shorten).len() == width,
        tag.len() <= width ==> tag_text(tag, width, shorten) == spaces((width - tag.len()) as nat)
            + tag,
        tag.len() > width && !shorten ==> tag_text(tag, width, shorten) == tag.take(width as int),
        tag.len() > width && shorten && without_vowels(tag).len() > width ==> tag_text(
            tag,
            width,
            shorten,
        ) == without_vowels(tag).take(width as int),
        tag.len() > width && shorten && without_vowels(tag).len() <= width ==> tag_text(
            tag,
            width,
            shorten,
        ) == spaces((width - without_vowels(tag).len()) as nat) + without_vowels(tag),
{
    if tag.len() <= width {
        if tag.len() == width {
            assert(spaces(0) + tag == tag);
        }
    } else if shorten {
        let shorter = without_vowels(tag);
        if shorter.len() == width {
            assert(spaces(0) + shorter == shorter);
        }
    }
}

/// Of two records of one tag that follow each other, the second shows the
/// time between the two, in seconds and milliseconds, or the placeholder
/// where that needs more room than the column has. This is so in a session
/// that shows elapsed times, for records that have a tag and a time that is a
/// calendar date, unless the second record starts a session.
pub proof fn lemma_diff_of_second_record(
    session: Session,
    first: RecordView,
    second: RecordView,
    terminal: Option<usize>,
)
    requires
        session.time_diff,
        first.timestamp matches Some(at) && at.is_calendar(),
        second.timestamp matches Some(at) && at.is_calendar(),
        first.tag == second.tag,
        first.tag.len() > 0,
        !starts_session(second.message),
    ensures
        session.after(first).diff_column(second) == diff_text(
            magnitude(millis_between(second.timestamp->0, first.timestamp->0)),
            session.diff_width,
        ),
        session.after(first).preamble(second, terminal).diff.text == align_right(
            diff_text(
                magnitude(millis_between(second.timestamp->0, first.timestamp->0)),
                session.diff_width,
            ),
            session.diff_width,
        ),
{
}

/// A record that starts a session shows no elapsed time, and after it
/// nothing is left of the times that were stored: at most its own.
pub proof fn lemma_session_start_resets(
    session: Session,
    record: RecordView,
    terminal: Option<usize>,
)
    requires
        starts_session(record.message),
    ensures
        session.diff_column(record) == Seq::<char>::empty(),
        session.preamble(record, terminal).diff.text == spaces(session.diff_width),
        session.after(record).tag_timestamps == (if session.time_diff && record.timestamp is Some
            && record.tag.len() > 0 {
            Map::<Seq<char>, Timestamp>::empty().insert(record.tag, record.timestamp->0)
        } else {
            Map::<Seq<char>, Timestamp>::empty()
        }),
{
    if session.diff_width == 0 {
        assert(spaces(0) == Seq::<char>::empty());
    } else {
        assert(spaces(session.diff_width) + Seq::<char>::empty() == spaces(session.diff_width));
    }
}

/// A message that fits behind the preamble stands on one line, and so does
/// every message where the width of the terminal is not known.
pub proof fn lemma_short_message_on_one_line(
    session: Session,
    record: RecordView,
    terminal: Option<usize>,
)
    requires
        terminal matches Some(columns) ==> session.preamble_width(record, terminal)
            + record.message.len() <= columns,
    ensures
        session.lines(record, terminal) == seq![
            line_spans(session.preamble(record, terminal), Marker::Single, record.message),
        ],
{
}

/// A message that does not fit behind the preamble is cut into chunks of
/// the characters that are left of the line: as many as it takes, each on a
/// line of its own, the first, the last and those between marked as such.
pub proof fn lemma_long_message_is_wrapped(session: Session, record: RecordView, columns: usize)
    requires
        session.preamble_width(record, Some(columns)) < columns,
        session.preamble_width(record, Some(columns)) + record.message.len() > columns,
    ensures
        ({
            let terminal = Some(columns);
            let width = (columns - session.preamble_width(record, terminal)) as nat;
            let lines = session.lines(record, terminal);
            let count = lines.len();
            &&& count >= 2
            &&& (count - 1) * width < record.message.len() <= count * width
            &&& count == chunk_count(record.message.len(), width)
            &&& forall|i: int|
                0 <= i < count ==> #[trigger] lines[i] == line_spans(
                    session.preamble(record, terminal),
                    if i == 0 {
                        Marker::First
                    } else if i == count - 1 {
                        Marker::Last
                    } else {
                        Marker::Middle
                    },
                    chunk(record.message, width, i),
                )
            &&& forall|i: int|
                0 <= i < count - 1 ==> (#[trigger] chunk(record.message, width, i)).len() == width
            &&& 0 < chunk(record.message, width, count - 1).len() <= width
        }),
{
    let terminal = Some(columns);
    let width = (columns - session.preamble_width(record, terminal)) as nat;
    let w = width as int;
    let len = record.message.len();
    let count = chunk_count(len, width);
    lemma_chunk_count(len, width);
    assert(session.lines(record, terminal).len() == count);
    assert(count >= 2) by {
        if count <= 1 {
            lemma_mul_inequality(count as int, 1, w);
        }
    }
    lemma_mul_is_distributive_add_other_way(w, count - 1, 1);
    assert(count * w == (count - 1) * w + w);
    lemma_mul_nonnegative(count - 1, w);
    assert forall|i: int| 0 <= i < count - 1 implies (#[trigger] chunk(
        record.message,
        width,
        i,
    )).len() == width by {
        lemma_mul_inequality(i + 1, count - 1, w);
        lemma_mul_is_distributive_add_other_way(w, i, 1);
        assert((i + 1) * w == i * w + w);
        lemma_mul_nonnegative(i, w);
    }
}

/// Every character of a message that is cut stands in the chunk and at the
/// place that its position gives: nothing is lost and nothing changes its
/// order.
pub proof fn lemma_chunks_hold_the_message(message: Seq<char>, width: nat, position: int)
    requires
        width > 0,
        0 <= position < message.len(),
    ensures
        0 <= position / (width as int) < chunk_count(message.len(), width),
        0 <= position % (width as int) < chunk(message, width, position / (width as int)).len(),
        chunk(message, width, position / (width as int))[position % (width as int)]
            == message[position],
{
    let w = width as int;
    let len = message.len();
    let i = position / w;
    let count = chunk_count(len, width);
    lemma_fundamental_div_mod(position, w);
    lemma_mod_pos_bound(position, w);
    lemma_div_pos_is_pos(position, w);
    lemma_mul_is_commutative(w, i);
    lemma_mul_nonnegative(i, w);
    lemma_chunk_count(len, width);
    assert(i < count) by {
        if i >= count {
            lemma_mul_inequality(count as int, i, w);
        }
    }
    lemma_mul_is_distributive_add_other_way(w, i, 1);
    assert((i + 1) * w == i * w + w);
}

/// The elapsed-time column is never wider than it is meant to be, as long as
/// it has room for the placeholder.
pub proof fn lemma_diff_fits(millis: nat, width: nat)
    requires
        width >= 5,
    ensures
        diff_text(millis, width).len() <= width,
{
}

/// A line is as wide as its preamble and its chunk of the message, where
/// the elapsed time does not overflow its column.
pub proof fn lemma_line_width(
    session: Session,
    record: RecordView,
    terminal: Option<usize>,
    marker: Marker,
    chunk: Seq<char>,
)
    requires
        session.diff_column(record).len() <= session.diff_width,
    ensures
        plain_text(line_spans(session.preamble(record, terminal), marker, chunk)).len()
            == session.preamble_width(record, terminal) + chunk.len(),
{
    let preamble = session.preamble(record, terminal);
    let spans = line_spans(preamble, marker, chunk);
    lemma_tag_column(
        if starts_session(record.message) {
            record.message
        } else {
            record.tag
        },
        session.tag_width_on(terminal),
        session.shorten_tag,
    );
    assert(preamble.timestamp.text.len() == session.date_format.columns());
    assert(preamble.diff.text.len() == session.diff_width);
    assert(preamble.tag.text.len() == session.tag_width_on(terminal));
    assert(preamble.process.text.len() == session.process_width_after(record));
    assert(preamble.thread.text.len() == (if session.thread_width_after(record) == 0 {
        0
    } else {
        session.thread_width_after(record) + 1
    }));
    assert(preamble.level.text.len() == 3);
    lemma_plain_text_len(spans, 14);
    assert(span_lengths(spans, 14) == session.preamble_width(record, terminal) + chunk.len()) by {
        reveal_with_fuel(span_lengths, 15);
    }
}

/// The number of characters of a line is the sum over its spans.
proof fn lemma_plain_text_len(spans: Seq<SpanView>, upto: int)
    requires
        0 <= upto <= spans.len(),
    ensures
        plain_text(spans.take(upto)).len() == span_lengths(spans, upto),
        upto == spans.len() ==> plain_text(spans).len() == span_lengths(spans, upto),
    decreases upto,
{
    if upto > 0 {
        lemma_plain_text_len(spans, upto - 1);
        assert(spans.take(upto).drop_last() == spans.take(upto - 1));
    }
    if upto == spans.len() {
        assert(spans.take(upto) == spans);
    }
}

/// The number of characters of the first `upto` spans.
spec fn span_lengths(spans: Seq<SpanView>, upto: int) -> int
    decreases upto,
{
    if upto <= 0 {
        0
    } else {
        span_lengths(spans, upto - 1) + spans[upto - 1].text.len()
    }
}

} // verus!
