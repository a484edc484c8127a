//! Builders for small fragments of Markdown markup: code fences, code spans,
//! fenced code blocks with optional info strings, and headers in setext and
//! ATX style.
//!
//! Every builder is a pure function from input text to an output `String`.
//! The view of each result is pinned exactly, as a spec function of the
//! views of the arguments, so two calls with identical arguments always
//! produce identical output. Multi-line output always uses a single line
//! feed character as separator, never a platform-dependent terminator.

use vstd::prelude::*;

pub mod laws;
pub mod lines;

verus! {

/// The line feed control character, the universal line separator of every
/// multi-line fragment this library produces.
pub const LF: char = '\n';

/// The marker that opens and closes a code fence: exactly three backticks.
pub open spec fn fence_marker() -> Seq<char> {
    seq!['`', '`', '`']
}

/// The characters of an optional info string: those of the string when one
/// is given, none when it is absent. An absent info string and an empty one
/// render identically.
pub open spec fn info_chars(info_string: Option<&str>) -> Seq<char> {
    match info_string {
        Some(s) => s@,
        None => Seq::empty(),
    }
}

/// A code fence: three backticks followed immediately by the info string.
pub open spec fn fence_chars(info: Seq<char>) -> Seq<char> {
    fence_marker() + info
}

/// A code span: the code wrapped in a single backtick on each side.
pub open spec fn code_span_chars(code: Seq<char>) -> Seq<char> {
    seq!['`'] + code + seq!['`']
}

/// A fenced code block: the opening fence with the info string, the code
/// verbatim, and a bare closing fence, joined by single line feeds.
pub open spec fn fenced_block_chars(code: Seq<char>, info: Seq<char>) -> Seq<char> {
    fence_chars(info) + seq![LF] + code + seq![LF] + fence_chars(Seq::empty())
}

/// An underline: the marker character repeated `len` times.
pub open spec fn underline_chars(len: nat, marker: char) -> Seq<char> {
    Seq::new(len, |i: int| marker)
}

/// A setext header: the text, a line feed, then an underline of the marker
/// character exactly as long as the text, counted in characters.
pub open spec fn setext_header_chars(text: Seq<char>, marker: char) -> Seq<char> {
    text + seq![LF] + underline_chars(text.len(), marker)
}

/// An ATX header prefix: `level` number signs followed by one space.
pub open spec fn atx_prefix_chars(level: nat) -> Seq<char> {
    Seq::new(level, |i: int| '#') + seq![' ']
}

/// An ATX header: the prefix for the level, then the text verbatim.
pub open spec fn atx_header_chars(text: Seq<char>, level: nat) -> Seq<char> {
    atx_prefix_chars(level) + text
}

/// Create a Markdown code fence: three backticks, then the info string if
/// one was supplied. No validation is performed on the info string; callers
/// must not pass text containing backticks or line feeds.
pub fn code_fence(info_string: Option<&str>) -> (r: String)
    ensures
        r@ == fence_chars(info_chars(info_string)),
{
    let mut fence = String::from_str("```");
    proof {
        reveal_strlit("```");
        assert(fence@ =~= fence_marker());
    }
    match info_string {
        Some(s) => fence.append(s),
        None => {},
    }
    proof {
        assert(fence@ =~= fence_chars(info_chars(info_string)));
    }
    fence
}

/// Create a Markdown code span: the code wrapped in one backtick on each
/// side. Embedded backticks are not escaped; that is the caller's
/// responsibility.
pub fn code_span(code: &str) -> (r: String)
    ensures
        r@ == code_span_chars(code@),
{
    let mut span = String::from_str("`");
    span.append(code);
    span.append("`");
    proof {
        reveal_strlit("`");
        assert(span@ =~= code_span_chars(code@));
    }
    span
}

/// Create a Markdown fenced code block: the opening fence carrying the info
/// string, the code verbatim (including any internal line feeds), and a bare
/// closing fence, joined by single line feeds. The fence is always three
/// backticks; a line of three or more backticks inside `code` is not
/// detected.
pub fn fenced_code_block(code: &str, info_string: Option<&str>) -> (r: String)
    ensures
        r@ == fenced_block_chars(code@, info_chars(info_string)),
{
    let mut block = code_fence(info_string);
    block.append("\n");
    block.append(code);
    block.append("\n");
    let closing = code_fence(None);
    block.append(closing.as_str());
    proof {
        reveal_strlit("\n");
        assert("\n"@ =~= seq![LF]);
        assert(block@ =~= fenced_block_chars(code@, info_chars(info_string)));
    }
    block
}

/// Create a Markdown fenced code block with a JavaScript info string.
pub fn fenced_js_code_block(code: &str) -> (r: String)
    ensures
        r@ == fenced_block_chars(code@, "javascript"@),
{
    fenced_code_block(code, Some("javascript"))
}

/// Create a Markdown fenced code block with a Rust info string.
pub fn fenced_rs_code_block(code: &str) -> (r: String)
    ensures
        r@ == fenced_block_chars(code@, "rust"@),
{
    fenced_code_block(code, Some("rust"))
}

/// Create a Markdown fenced code block with a shell script info string.
pub fn fenced_sh_code_block(code: &str) -> (r: String)
    ensures
        r@ == fenced_block_chars(code@, "shell"@),
{
    fenced_code_block(code, Some("shell"))
}

/// Create a Markdown fenced code block with a TypeScript info string.
pub fn fenced_ts_code_block(code: &str) -> (r: String)
    ensures
        r@ == fenced_block_chars(code@, "typescript"@),
{
    fenced_code_block(code, Some("typescript"))
}

/// The text, a line feed, then the one-character marker repeated once per
/// character of the text.
fn setext_header(text: &str, marker: &str) -> (r: String)
    requires
        marker@.len() == 1,
    ensures
        r@ == setext_header_chars(text@, marker@[0]),
{
    let mut header = String::from_str(text);
    header.append("\n");
    proof {
        reveal_strlit("\n");
        assert("\n"@ =~= seq![LF]);
        assert(header@ =~= text@ + seq![LF] + underline_chars(0, marker@[0]));
    }
    let count = text.unicode_len();
    let mut i: usize = 0;
    while i < count
        invariant
            i <= count,
            count == text@.len(),
            marker@.len() == 1,
            header@ == text@ + seq![LF] + underline_chars(i as nat, marker@[0]),
        decreases count - i,
    {
        header.append(marker);
        i = i + 1;
        proof {
            assert(underline_chars(i as nat, marker@[0]) =~= underline_chars(
                (i - 1) as nat,
                marker@[0],
            ) + marker@);
            assert(header@ =~= text@ + seq![LF] + underline_chars(i as nat, marker@[0]));
        }
    }
    proof {
        assert(header@ =~= setext_header_chars(text@, marker@[0]));
    }
    header
}

/// Create a level 1 Markdown setext header: the text, then an underline of
/// `=` characters exactly as long as the text, counted in characters (a
/// multi-byte character counts as one).
pub fn h1(text: &str) -> (r: String)
    ensures
        r@ == setext_header_chars(text@, '='),
{
    proof {
        reveal_strlit("=");
        assert("="@ =~= seq!['=']);
    }
    setext_header(text, "=")
}

/// Create a level 2 Markdown setext header: the text, then an underline of
/// `-` characters exactly as long as the text, counted in characters (a
/// multi-byte character counts as one).
pub fn h2(text: &str) -> (r: String)
    ensures
        r@ == setext_header_chars(text@, '-'),
{
    proof {
        reveal_strlit("-");
        assert("-"@ =~= seq!['-']);
    }
    setext_header(text, "-")
}

/// Create a level 3 Markdown ATX header: three number signs, one space, then
/// the text verbatim.
pub fn h3(text: &str) -> (r: String)
    ensures
        r@ == atx_header_chars(text@, 3),
{
    let mut header = String::from_str("### ");
    header.append(text);
    proof {
        reveal_strlit("### ");
        assert("### "@ =~= atx_prefix_chars(3));
        assert(header@ =~= atx_header_chars(text@, 3));
    }
    header
}

/// Create a level 4 Markdown ATX header: four number signs, one space, then
/// the text verbatim.
pub fn h4(text: &str) -> (r: String)
    ensures
        r@ == atx_header_chars(text@, 4),
{
    let mut header = String::from_str("#### ");
    header.append(text);
    proof {
        reveal_strlit("#### ");
        assert("#### "@ =~= atx_prefix_chars(4));
        assert(header@ =~= atx_header_chars(text@, 4));
    }
    header
}

/// Create a level 5 Markdown ATX header: five number signs, one space, then
/// the text verbatim.
pub fn h5(text: &str) -> (r: String)
    ensures
        r@ == atx_header_chars(text@, 5),
{
    let mut header = String::from_str("##### ");
    header.append(text);
    proof {
        reveal_strlit("##### ");
        assert("##### "@ =~= atx_prefix_chars(5));
        assert(header@ =~= atx_header_chars(text@, 5));
    }
    header
}

/// Create a level 6 Markdown ATX header: six number signs, one space, then
/// the text verbatim.
pub fn h6(text: &str) -> (r: String)
    ensures
        r@ == atx_header_chars(text@, 6),
{
    let mut header = String::from_str("###### ");
    header.append(text);
    proof {
        reveal_strlit("###### ");
        assert("###### "@ =~= atx_prefix_chars(6));
        assert(header@ =~= atx_header_chars(text@, 6));
    }
    header
}

} // verus!
