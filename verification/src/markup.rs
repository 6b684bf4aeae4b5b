//! The line-oriented markup of a post body.
//!
//! A body is a sequence of lines separated by line feeds. A line that begins
//! with `###` is a level-2 heading, one that begins with `##` a level-3
//! heading, and any other line a paragraph. A heading's text is what follows
//! the marker, without the blanks that set it off from the marker: the line
//! `### Section` is the heading `Section`.

use vstd::prelude::*;
use vstd::std_specs::iter::IteratorSpec;

verus! {

/// One rendered line of a post body.
#[derive(Debug, Clone, PartialEq)]
pub enum BodyBlock {
    Heading2(String),
    Heading3(String),
    Paragraph(String),
}

/// The mathematical value of a [`BodyBlock`].
pub enum BodyBlockView {
    Heading2(Seq<char>),
    Heading3(Seq<char>),
    Paragraph(Seq<char>),
}

impl View for BodyBlock {
    type V = BodyBlockView;

    open spec fn view(&self) -> BodyBlockView {
        match self {
            BodyBlock::Heading2(t) => BodyBlockView::Heading2(t@),
            BodyBlock::Heading3(t) => BodyBlockView::Heading3(t@),
            BodyBlock::Paragraph(t) => BodyBlockView::Paragraph(t@),
        }
    }
}

/// The values of a sequence of blocks.
pub open spec fn block_views(blocks: Seq<BodyBlock>) -> Seq<BodyBlockView> {
    blocks.map_values(|b: BodyBlock| b@)
}

/// The number of characters before the first line feed of `s`, or the length
/// of `s` if it has none.
pub open spec fn first_line_len(s: Seq<char>) -> nat
    decreases s.len(),
{
    if s.len() == 0 || s[0] == '\n' {
        0
    } else {
        1 + first_line_len(s.drop_first())
    }
}

/// The lines of `s`: the pieces between its line feeds, in order. A text
/// with `k` line feeds has `k + 1` lines, some of which may be empty.
pub open spec fn split_lines(s: Seq<char>) -> Seq<Seq<char>>
    decreases s.len(),
{
    let n = first_line_len(s) as int;
    if n >= s.len() {
        seq![s]
    } else {
        seq![s.take(n)] + split_lines(s.skip(n + 1))
    }
}

/// Whether `line` begins with `count` number signs.
pub open spec fn has_marker(line: Seq<char>, count: int) -> bool {
    &&& line.len() >= count
    &&& forall|i: int| 0 <= i < count ==> line[i] == '#'
}

/// Whether `c` is a blank: a space or a tab.
pub open spec fn is_blank(c: char) -> bool {
    c == ' ' || c == '\t'
}

/// The number of blanks with which `s` begins.
pub open spec fn leading_blanks(s: Seq<char>) -> nat
    decreases s.len(),
{
    if s.len() > 0 && is_blank(s[0]) {
        1 + leading_blanks(s.drop_first())
    } else {
        0
    }
}

/// The text of the heading in `line`, whose marker has `count` number signs:
/// what follows the marker, without the blanks that follow it directly.
/// Nothing else is taken away, so `####y` is the level-2 heading `#y`.
pub open spec fn heading_text(line: Seq<char>, count: int) -> Seq<char> {
    let rest = line.skip(count);
    rest.skip(leading_blanks(rest) as int)
}

/// The block that one line stands for. A paragraph is the whole line.
pub open spec fn block_of(line: Seq<char>) -> BodyBlockView {
    if has_marker(line, 3) {
        BodyBlockView::Heading2(heading_text(line, 3))
    } else if has_marker(line, 2) {
        BodyBlockView::Heading3(heading_text(line, 2))
    } else {
        BodyBlockView::Paragraph(line)
    }
}

/// The blocks that a post body stands for, one for each line.
pub open spec fn render_body(body: Seq<char>) -> Seq<BodyBlockView> {
    split_lines(body).map_values(|line: Seq<char>| block_of(line))
}

/// Where the first line of `s` ends: before position `k`, if no earlier
/// character is a line feed and `k` is a line feed or the end of `s`.
pub proof fn lemma_first_line_len(s: Seq<char>, k: int)
    requires
        0 <= k <= s.len(),
        forall|j: int| 0 <= j < k ==> s[j] != '\n',
        k < s.len() ==> s[k] == '\n',
    ensures
        first_line_len(s) == k,
    decreases k,
{
    if k > 0 {
        lemma_first_line_len(s.drop_first(), k - 1);
    }
}

/// The first line of `s` lies within `s`, holds no line feed, and is followed
/// by a line feed or by the end of `s`.
pub proof fn lemma_first_line_bounds(s: Seq<char>)
    ensures
        first_line_len(s) <= s.len(),
        forall|j: int| 0 <= j < first_line_len(s) ==> s[j] != '\n',
        first_line_len(s) < s.len() ==> s[first_line_len(s) as int] == '\n',
    decreases s.len(),
{
    if s.len() == 0 || s[0] == '\n' {
    } else {
        let t = s.drop_first();
        lemma_first_line_bounds(t);
        assert forall|j: int| 0 <= j < first_line_len(s) implies s[j] != '\n' by {
            if j > 0 {
                assert(s[j] == t[j - 1]);
            }
        }
        let n = first_line_len(t) as int;
        assert(n < t.len() ==> s[n + 1] == t[n]);
    }
}

/// The lines put together again, with a line feed between each two.
pub open spec fn join_lines(lines: Seq<Seq<char>>) -> Seq<char>
    decreases lines.len(),
{
    if lines.len() == 0 {
        Seq::empty()
    } else if lines.len() == 1 {
        lines[0]
    } else {
        lines[0] + seq!['\n'] + join_lines(lines.drop_first())
    }
}

/// Splitting loses nothing and cuts at every line feed: a text has at least
/// one line, no line holds a line feed, and the lines joined by line feeds
/// are the text again.
pub proof fn lemma_split_lines_joins_back(s: Seq<char>)
    ensures
        split_lines(s).len() >= 1,
        forall|i: int, j: int|
            0 <= i < split_lines(s).len() && 0 <= j < split_lines(s)[i].len() ==> split_lines(
                s,
            )[i][j] != '\n',
        join_lines(split_lines(s)) == s,
    decreases s.len(),
{
    let n = first_line_len(s) as int;
    lemma_first_line_bounds(s);
    if n < s.len() {
        let rest = s.skip(n + 1);
        let tail = split_lines(rest);
        let lines = split_lines(s);
        lemma_split_lines_joins_back(rest);
        assert(lines.drop_first() == tail);
        assert(join_lines(lines) == s.take(n) + seq!['\n'] + rest);
        assert(s.take(n) + seq!['\n'] + rest == s);
        assert forall|i: int, j: int|
            0 <= i < lines.len() && 0 <= j < lines[i].len() implies lines[i][j] != '\n' by {
            if i > 0 {
                assert(lines[i] == tail[i - 1]);
            }
        }
    }
}

/// How many blanks `s` begins with: `k`, if its first `k` characters are
/// blanks and the next one, if there is one, is not.
pub proof fn lemma_leading_blanks(s: Seq<char>, k: int)
    requires
        0 <= k <= s.len(),
        forall|j: int| 0 <= j < k ==> is_blank(s[j]),
        k < s.len() ==> !is_blank(s[k]),
    ensures
        leading_blanks(s) == k,
    decreases k,
{
    if k > 0 {
        lemma_leading_blanks(s.drop_first(), k - 1);
    }
}

/// The blanks with which `s` begins lie within `s` and are blanks, and what
/// follows them does not begin with a blank.
pub proof fn lemma_leading_blanks_end(s: Seq<char>)
    ensures
        leading_blanks(s) <= s.len(),
        forall|j: int| 0 <= j < leading_blanks(s) ==> is_blank(s[j]),
        leading_blanks(s) < s.len() ==> !is_blank(s[leading_blanks(s) as int]),
    decreases s.len(),
{
    if s.len() > 0 && is_blank(s[0]) {
        let t = s.drop_first();
        lemma_leading_blanks_end(t);
        let n = leading_blanks(t) as int;
        assert(n < t.len() ==> s[n + 1] == t[n]);
        assert forall|j: int| 0 <= j < leading_blanks(s) implies is_blank(s[j]) by {
            if j > 0 {
                assert(s[j] == t[j - 1]);
            }
        }
    }
}

/// The text of a heading is the end of its line after the marker, and does
/// not begin with a blank. A line that has nothing but blanks after the
/// marker is a heading without text.
pub proof fn lemma_heading_text_is_trimmed(line: Seq<char>, count: int)
    requires
        0 <= count <= line.len(),
    ensures
        ({
            let text = heading_text(line, count);
            &&& text.len() <= line.len() - count
            &&& text == line.skip(line.len() - text.len())
            &&& text.len() > 0 ==> !is_blank(text[0])
            &&& forall|j: int| count <= j < line.len() - text.len() ==> is_blank(line[j])
        }),
{
    let rest = line.skip(count);
    let text = heading_text(line, count);
    lemma_leading_blanks_end(rest);
    assert(text =~= line.skip(line.len() - text.len()));
    assert forall|j: int| count <= j < line.len() - text.len() implies is_blank(line[j]) by {
        assert(line[j] == rest[j - count]);
    }
}

/// The text of the heading in `line`, which has `len` characters and a
/// marker of `count` number signs.
fn heading_of_line(line: &str, count: usize, len: usize) -> (text: String)
    requires
        count <= len,
        len == line@.len(),
    ensures
        text@ == heading_text(line@, count as int),
{
    let mut from = count;
    while from < len
        invariant
            count <= from <= len,
            len == line@.len(),
            forall|j: int| count <= j < from ==> is_blank(line@[j]),
        ensures
            count <= from <= len,
            forall|j: int| count <= j < from ==> is_blank(line@[j]),
            from < len ==> !is_blank(line@[from as int]),
        decreases len - from,
    {
        let c = line.get_char(from);
        if c != ' ' && c != '\t' {
            break;
        }
        from = from + 1;
    }
    proof {
        let rest = line@.skip(count as int);
        lemma_leading_blanks(rest, from - count);
        assert(rest.skip(from - count) == line@.subrange(from as int, len as int));
    }
    line.substring_char(from, len).to_owned()
}

/// Classifies one line.
fn block_of_line(line: &str) -> (block: BodyBlock)
    ensures
        block@ == block_of(line@),
{
    let len = line.unicode_len();
    if len >= 3 && line.get_char(0) == '#' && line.get_char(1) == '#' && line.get_char(2) == '#' {
        BodyBlock::Heading2(heading_of_line(line, 3, len))
    } else if len >= 2 && line.get_char(0) == '#' && line.get_char(1) == '#' {
        BodyBlock::Heading3(heading_of_line(line, 2, len))
    } else {
        BodyBlock::Paragraph(line.to_owned())
    }
}

/// Renders a post body: one block for each of its lines, in order.
#[allow(non_snake_case)]
pub fn PostBody(body: String) -> (blocks: Vec<BodyBlock>)
    ensures
        block_views(blocks@) == render_body(body@),
{
    let text = body.as_str();
    let n = text.unicode_len();
    let mut blocks: Vec<BodyBlock> = Vec::new();
    let mut chars = text.chars();
    let mut start: usize = 0;
    let mut i: usize = 0;
    assert(text@.skip(0) == text@);
    assert(block_views(blocks@) + render_body(text@) == render_body(text@));
    while i < n
        invariant
            start <= i <= n,
            n == text@.len(),
            chars.remaining() == text@.skip(i as int),
            forall|j: int| start <= j < i ==> text@[j] != '\n',
            block_views(blocks@) + render_body(text@.skip(start as int)) == render_body(text@),
        decreases n - i,
    {
        let next = chars.next();
        assert(next == Some(text@[i as int]));
        if next == Some('\n') {
            let line = text.substring_char(start, i);
            let block = block_of_line(line);
            proof {
                let rest = text@.skip(start as int);
                lemma_first_line_len(rest, i - start);
                assert(rest.take(i - start) == line@);
                assert(rest.skip(i - start + 1) == text@.skip(i + 1));
                assert(block_views(blocks@.push(block)) == block_views(blocks@).push(block@));
                assert(render_body(rest) == seq![block@] + render_body(text@.skip(i + 1)));
            }
            blocks.push(block);
            start = i + 1;
        }
        i = i + 1;
    }
    let line = text.substring_char(start, n);
    let block = block_of_line(line);
    proof {
        let rest = text@.skip(start as int);
        lemma_first_line_len(rest, n - start);
        assert(rest == line@);
        assert(block_views(blocks@.push(block)) == block_views(blocks@).push(block@));
        assert(render_body(rest) == seq![block@]);
    }
    blocks.push(block);
    blocks
}

} // verus!
