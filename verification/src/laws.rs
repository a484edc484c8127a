//! The laws of the builders: what every code fence, fenced code block and
//! header looks like line by line, and that equal character sequences make
//! byte-identical strings.

use vstd::prelude::*;
use vstd::string::StringSliceAdditionalSpecFns;

verus! {

use crate::LF;
use crate::atx_header_chars;
use crate::fence_chars;
use crate::fence_marker;
use crate::fenced_block_chars;
use crate::lines::join_lines;
use crate::lines::lemma_join_split_lines;
use crate::lines::lemma_line_feed_count_append;
use crate::lines::lemma_no_lf_count;
use crate::lines::lemma_split_lines_append;
use crate::lines::lemma_split_lines_len;
use crate::lines::lemma_split_lines_no_lf;
use crate::lines::line_feed_count;
use crate::lines::split_lines;
use crate::setext_header_chars;
use crate::underline_chars;

/// A code fence starts with exactly three backticks, and what remains after
/// them is the info string, verbatim (empty when the info string is absent).
pub proof fn lemma_code_fence_shape(info: Seq<char>)
    ensures
        fence_chars(info).len() == 3 + info.len(),
        fence_chars(info).subrange(0, 3) == fence_marker(),
        fence_chars(info).skip(3) == info,
{
    assert(fence_chars(info).subrange(0, 3) =~= fence_marker());
    assert(fence_chars(info).skip(3) =~= info);
}

/// No code fence contains a line feed, as long as its info string holds none.
pub proof fn lemma_fence_no_line_feed(info: Seq<char>)
    requires
        line_feed_count(info) == 0,
    ensures
        line_feed_count(fence_chars(info)) == 0,
{
    assert forall|i: int| 0 <= i < fence_marker().len() implies fence_marker()[i] != LF by {
        assert(fence_marker()[0] == '`');
        assert(fence_marker()[1] == '`');
        assert(fence_marker()[2] == '`');
    }
    lemma_no_lf_count(fence_marker());
    lemma_line_feed_count_append(fence_marker(), info);
}

/// A fenced code block splits on line feeds into the opening fence carrying
/// the info string, then the lines of the code, then the bare closing fence:
/// one line more than twice the fences plus the line feeds inside the code.
/// The interior lines, rejoined with line feeds, give back the code exactly.
/// An info string containing a line feed would break the opening fence line
/// apart, so it is excluded here.
pub proof fn lemma_fenced_block_lines(code: Seq<char>, info: Seq<char>)
    requires
        line_feed_count(info) == 0,
    ensures
        ({
            let lines = split_lines(fenced_block_chars(code, info));
            &&& lines.len() == 3 + line_feed_count(code)
            &&& lines.first() == fence_chars(info)
            &&& lines.last() == fence_chars(Seq::<char>::empty())
            &&& join_lines(lines.subrange(1, lines.len() - 1)) == code
        }),
{
    let opening = fence_chars(info);
    let closing = fence_chars(Seq::<char>::empty());
    let block = fenced_block_chars(code, info);
    lemma_fence_no_line_feed(info);
    lemma_fence_no_line_feed(Seq::<char>::empty());
    lemma_split_lines_no_lf(opening);
    lemma_split_lines_no_lf(closing);
    assert(block =~= opening + seq![LF] + (code + seq![LF] + closing));
    lemma_split_lines_append(opening, code + seq![LF] + closing);
    lemma_split_lines_append(code, closing);
    lemma_split_lines_len(code);
    let lines = split_lines(block);
    assert(lines =~= seq![opening] + split_lines(code) + seq![closing]);
    assert(lines.subrange(1, lines.len() - 1) =~= split_lines(code));
    lemma_join_split_lines(code);
}

/// A setext header splits on line feeds into exactly two lines: the text,
/// then an underline made only of the marker character, exactly as long as
/// the text, counted in characters. Text containing a line feed would itself
/// split further, so it is excluded here.
pub proof fn lemma_setext_header_lines(text: Seq<char>, marker: char)
    requires
        line_feed_count(text) == 0,
        marker != LF,
    ensures
        ({
            let lines = split_lines(setext_header_chars(text, marker));
            &&& lines.len() == 2
            &&& lines[0] == text
            &&& lines[1] == underline_chars(text.len(), marker)
            &&& lines[1].len() == text.len()
            &&& forall|i: int| 0 <= i < lines[1].len() ==> lines[1][i] == marker
        }),
{
    let underline = underline_chars(text.len(), marker);
    lemma_no_lf_count(underline);
    lemma_split_lines_append(text, underline);
    lemma_split_lines_no_lf(text);
    lemma_split_lines_no_lf(underline);
    assert(setext_header_chars(text, marker) == text + seq![LF] + underline);
    assert(split_lines(setext_header_chars(text, marker)) =~= seq![text, underline]);
}

/// An ATX header is the level's number signs, one space, then the text
/// verbatim.
pub proof fn lemma_atx_header_shape(text: Seq<char>, level: nat)
    ensures
        atx_header_chars(text, level).len() == level + 1 + text.len(),
        forall|i: int| 0 <= i < level ==> atx_header_chars(text, level)[i] == '#',
        atx_header_chars(text, level)[level as int] == ' ',
        atx_header_chars(text, level).skip(level as int + 1) == text,
{
    assert(atx_header_chars(text, level).skip(level as int + 1) =~= text);
}

/// Equal character sequences encode to identical bytes. Every builder's
/// contract pins the characters of its result as a function of its
/// arguments' characters alone, so two calls of one builder on identical
/// arguments yield byte-identical strings.
pub proof fn lemma_equal_chars_equal_bytes(a: &str, b: &str)
    requires
        a@ == b@,
    ensures
        a.spec_bytes() == b.spec_bytes(),
{
}

} // verus!
