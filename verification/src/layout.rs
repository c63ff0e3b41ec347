//! The widths of the columns of a line, the texts of the tag, process and
//! thread columns, and the cutting of a long message into chunks.

use crate::text::{
    align_right, chars_of, pad_start, prefix, repeat, spaces, string_of, strip_vowels, take_chars,
    texts, without_vowels,
};
use vstd::arithmetic::div_mod::{
    lemma_div_pos_is_pos, lemma_fundamental_div_mod, lemma_fundamental_div_mod_converse,
    lemma_mod_pos_bound,
};
use vstd::arithmetic::mul::{lemma_mul_is_commutative, lemma_mul_is_distributive_add_other_way};
use vstd::prelude::*;

verus! {

/// The width of the tag column: the configured width where there is one,
/// else a width that grows in five steps with the width of the terminal. A
/// terminal of unknown width is taken for a wide one.
pub open spec fn tag_columns(configured: Option<usize>, terminal: Option<usize>) -> nat {
    match configured {
        Some(width) => width as nat,
        None => match terminal {
            Some(columns) => if columns <= 80 {
                15
            } else if columns <= 90 {
                20
            } else if columns <= 100 {
                25
            } else if columns <= 110 {
                30
            } else {
                35
            },
            None => 35,
        },
    }
}

/// The text of the tag column: a tag that is wider than the column loses its
/// vowels if `shorten` says so, and then whatever is still too much; every
/// tag is moved to the right edge of the column.
pub open spec fn tag_text(tag: Seq<char>, width: nat, shorten: bool) -> Seq<char> {
    if tag.len() > width {
        let shorter = if shorten {
            without_vowels(tag)
        } else {
            tag
        };
        align_right(prefix(shorter, width), width)
    } else {
        align_right(tag, width)
    }
}

/// The larger of two widths.
pub open spec fn wider(a: nat, b: nat) -> nat {
    if a >= b {
        a
    } else {
        b
    }
}

/// The width of the thread column once a record of the thread name `thread`
/// has been seen. A record without a thread name leaves the width alone.
pub open spec fn thread_columns(before: nat, thread: Seq<char>) -> nat {
    if thread.len() == 0 {
        before
    } else {
        wider(before, thread.len())
    }
}

/// The text of the thread column: a blank, then the name moved to the right
/// edge of the column. Without a name the column is blank, and empty as long
/// as no record has had a name.
pub open spec fn thread_text(thread: Seq<char>, before: nat) -> Seq<char> {
    if thread.len() == 0 {
        if before > 0 {
            spaces(before + 1)
        } else {
            Seq::empty()
        }
    } else {
        seq![' '] + align_right(thread, wider(before, thread.len()))
    }
}

/// The number of characters in front of the message: the columns, what
/// separates them, the level badge and the marker.
pub open spec fn preamble_columns(
    timestamp: nat,
    diff: nat,
    tag: nat,
    process: nat,
    thread: nat,
) -> nat {
    timestamp + 1 + diff + 1 + tag + 1 + 1 + process + (if thread == 0 {
        0nat
    } else {
        1nat
    }) + thread + 1 + 1 + 3 + 3
}

/// The number of chunks of `width` characters that a message of `len`
/// characters is cut into: as many as it takes, and none where a chunk has no
/// room for a character.
pub open spec fn chunk_count(len: nat, width: nat) -> nat {
    if width == 0 {
        0
    } else {
        ((len + width - 1) / (width as int)) as nat
    }
}

/// The chunk of number `i`, from 0, of a message cut into chunks of `width`
/// characters: the last chunk holds what is left.
pub open spec fn chunk(message: Seq<char>, width: nat, i: int) -> Seq<char> {
    let end = if (i + 1) * width <= message.len() {
        (i + 1) * width
    } else {
        message.len() as int
    };
    message.subrange(i * width, end)
}

/// The chunks of `width` characters that a message is cut into, in order.
pub open spec fn chunks(message: Seq<char>, width: nat) -> Seq<Seq<char>> {
    Seq::new(chunk_count(message.len(), width), |i: int| chunk(message, width, i))
}

/// The chunks of a message hold every character of it: there are none for
/// an empty message, and else the last chunk is the first that reaches the
/// end of the message.
pub proof fn lemma_chunk_count(len: nat, width: nat)
    requires
        width > 0,
    ensures
        chunk_count(len, width) * width >= len,
        len > 0 ==> (chunk_count(len, width) - 1) * width < len,
        len == 0 ==> chunk_count(len, width) == 0,
{
    let w = width as int;
    let x = len + w - 1;
    let q = x / w;
    lemma_fundamental_div_mod(x, w);
    lemma_mod_pos_bound(x, w);
    lemma_div_pos_is_pos(x, w);
    lemma_mul_is_commutative(w, q);
    lemma_mul_is_distributive_add_other_way(w, q - 1, 1);
    assert(q * w == (q - 1) * w + w);
    if len == 0 {
        lemma_fundamental_div_mod_converse(x, w, 0, x);
    }
}

/// A number of chunks that reach the end of the message, and do not without
/// the last of them, is the number of chunks of the message.
pub proof fn lemma_chunk_count_is(len: nat, width: nat, count: int)
    requires
        width > 0,
        count * width >= len,
        (count - 1) * width < len,
    ensures
        count == chunk_count(len, width),
{
    let w = width as int;
    let x = len + w - 1;
    lemma_mul_is_distributive_add_other_way(w, count - 1, 1);
    assert(count * w == (count - 1) * w + w);
    lemma_fundamental_div_mod_converse(x, w, count, x - count * w);
    lemma_div_pos_is_pos(x, w);
}

/// The width of the tag column.
pub fn tag_width(configured: Option<usize>, terminal: Option<usize>) -> (width: usize)
    ensures
        width == tag_columns(configured, terminal),
{
    match configured {
        Some(width) => width,
        None => match terminal {
            Some(columns) => if columns <= 80 {
                15
            } else if columns <= 90 {
                20
            } else if columns <= 100 {
                25
            } else if columns <= 110 {
                30
            } else {
                35
            },
            None => 35,
        },
    }
}

/// The text of the tag column.
pub fn render_tag(tag: &str, width: usize, shorten: bool) -> (column: String)
    ensures
        column@ == tag_text(tag@, width as nat, shorten),
{
    if tag.unicode_len() > width {
        let cut = if shorten {
            let shorter = strip_vowels(tag);
            take_chars(shorter.as_str(), width)
        } else {
            take_chars(tag, width)
        };
        pad_start(cut.as_str(), width)
    } else {
        pad_start(tag, width)
    }
}

/// The text of the thread column, and the width of the column from then on.
pub fn render_thread(thread: &str, before: usize) -> (out: (String, usize))
    ensures
        out.0@ == thread_text(thread@, before as nat),
        out.1 == thread_columns(before as nat, thread@),
{
    let len = thread.unicode_len();
    if len == 0 {
        if before > 0 {
            let mut column = repeat(' ', before);
            column.push(' ');
            proof {
                assert(column@ == spaces((before + 1) as nat));
            }
            (column, before)
        } else {
            (String::new(), before)
        }
    } else {
        let width = if before >= len {
            before
        } else {
            len
        };
        let mut column = String::new();
        column.push(' ');
        let name = pad_start(thread, width);
        column.append(name.as_str());
        (column, width)
    }
}

/// The number of characters in front of the message, or `None` where that
/// number is beyond the machine's range.
pub fn preamble_width(
    timestamp: usize,
    diff: usize,
    tag: usize,
    process: usize,
    thread: usize,
) -> (width: Option<usize>)
    ensures
        match width {
            Some(w) => w == preamble_columns(
                timestamp as nat,
                diff as nat,
                tag as nat,
                process as nat,
                thread as nat,
            ),
            None => preamble_columns(
                timestamp as nat,
                diff as nat,
                tag as nat,
                process as nat,
                thread as nat,
            ) > usize::MAX,
        },
{
    let fixed: usize = if thread == 0 {
        12
    } else {
        13
    };
    let sum = fixed.checked_add(timestamp);
    let sum = match sum {
        Some(s) => s.checked_add(diff),
        None => None,
    };
    let sum = match sum {
        Some(s) => s.checked_add(tag),
        None => None,
    };
    let sum = match sum {
        Some(s) => s.checked_add(process),
        None => None,
    };
    match sum {
        Some(s) => s.checked_add(thread),
        None => None,
    }
}

/// Cuts a message into chunks of `width` characters. There are no chunks of
/// no characters.
pub fn wrap(message: &str, width: usize) -> (cut: Vec<String>)
    ensures
        texts(cut@) == chunks(message@, width as nat),
{
    let mut cut: Vec<String> = Vec::new();
    if width == 0 {
        proof {
            assert(texts(cut@) =~= chunks(message@, 0));
        }
        return cut;
    }
    let chars = chars_of(message);
    let len = chars.len();
    let mut start: usize = 0;
    let ghost mut i: int = 0;
    while start < len
        invariant
            width > 0,
            len == chars.len(),
            chars@ == message@,
            0 <= i,
            start == if i * width <= len { i * width } else { len as int },
            i * width < len + width,
            cut.len() == i,
            forall|k: int| 0 <= k < i ==> (#[trigger] cut@[k])@ == chunk(message@, width as nat, k),
        decreases len - start,
    {
        let end = if len - start <= width {
            len
        } else {
            start + width
        };
        proof {
            lemma_mul_is_distributive_add_other_way(width as int, i, 1);
            assert((i + 1) * width == i * width + width);
        }
        let piece = string_of(&chars, start, end);
        cut.push(piece);
        start = end;
        proof {
            i = i + 1;
        }
    }
    proof {
        lemma_mul_is_distributive_add_other_way(width as int, i - 1, 1);
        assert(i * width == (i - 1) * width + width);
        lemma_chunk_count_is(len as nat, width as nat, i);
        assert(texts(cut@) =~= chunks(message@, width as nat));
    }
    cut
}

} // verus!
