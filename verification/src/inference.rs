//! The summary that stands in for a model's answer: counts of what a chunk
//! of text holds, and its beginning.

use vstd::prelude::*;
use vstd::utf8::encode_utf8;
use crate::text::{
    count_lines, count_words, decimal, decimal_digits, line_count, replace_char, replaced,
    word_count,
};

verus! {

/// How many characters of a chunk its summary shows.
pub const PREVIEW_CHARS: usize = 80;

/// The beginning of `chunk`: its first eighty characters, or all of them if
/// it has fewer, with a blank for each line feed.
pub open spec fn preview_of(chunk: Seq<char>) -> Seq<char> {
    replaced(
        chunk.subrange(
            0,
            if chunk.len() < PREVIEW_CHARS {
                chunk.len() as int
            } else {
                PREVIEW_CHARS as int
            },
        ),
        '\n',
        " "@,
    )
}

/// The summary of `chunk`: how many lines, words and characters it has, and
/// its beginning.
pub open spec fn summary_of(chunk: Seq<char>) -> Seq<char> {
    "Summary: "@ + decimal_digits(line_count(encode_utf8(chunk))) + " lines, "@ + decimal_digits(
        word_count(chunk),
    ) + " words, "@ + decimal_digits(chunk.len()) + " chars. Preview: "@ + preview_of(chunk)
}

/// The summary of `chunk`.
pub fn summarize_chunk(chunk: &str) -> (summary: String)
    ensures
        summary@ == summary_of(chunk@),
{
    let lines = count_lines(chunk);
    let words = count_words(chunk);
    let chars = chunk.unicode_len();
    let shown = if chars < PREVIEW_CHARS {
        chars
    } else {
        PREVIEW_CHARS
    };
    let preview = replace_char(chunk.substring_char(0, shown), '\n', " ");
    let mut summary = String::from_str("Summary: ");
    summary.append(decimal(lines as u128).as_str());
    summary.append(" lines, ");
    summary.append(decimal(words as u128).as_str());
    summary.append(" words, ");
    summary.append(decimal(chars as u128).as_str());
    summary.append(" chars. Preview: ");
    summary.append(preview.as_str());
    summary
}

} // verus!
