//! Writing the lines of the main section, and the proof that reading what was
//! written gives the lines back.

use vstd::prelude::*;
use crate::document::{lines_of, scan_of, without_return, DocumentView, Scan, Section};
use crate::error::ParseError;
use crate::line_types::{has_indicator, line_of, AdmonitionType, Level, LineView, LinkView};
use crate::text::{free_before, has_prefix, lemma_split_first_free};
use crate::time::Timestamp;

verus! {

/// The digit that writes a level.
pub open spec fn level_digit(level: Level) -> char {
    match level {
        Level::One => '1',
        Level::Two => '2',
        Level::Three => '3',
        Level::Four => '4',
        Level::Five => '5',
        Level::Six => '6',
    }
}

/// The character that marks a kind of admonition.
pub open spec fn admonition_mark(kind: AdmonitionType) -> char {
    match kind {
        AdmonitionType::Note => '_',
        AdmonitionType::Warning => '*',
        AdmonitionType::Danger => '!',
    }
}

/// The content of a link line: the URL, and after a space the label, if any.
pub open spec fn written_link(link: LinkView) -> Seq<char> {
    match link.label {
        Some(label) => link.url + " "@ + label,
        None => link.url,
    }
}

/// The text of a line of the main section. A form field has none here.
pub open spec fn written(line: LineView) -> Seq<char> {
    match line {
        LineView::TextLine(t) => t,
        LineView::LinkLine(link) => "=> "@ + written_link(link),
        LineView::PreformattedLine(textual, t) => if textual {
            "'''"@ + t
        } else {
            "```"@ + t
        },
        LineView::SeparatorLine => "---"@,
        LineView::UListLine(level, t) => seq![level_digit(level), '*', ' '] + t,
        LineView::OListLine(level, bullet, t) => seq![level_digit(level), '-', ' '] + (bullet
            + " "@ + t),
        LineView::DropdownLine(summary, t) => "\\/ "@ + (summary + " | "@ + t),
        LineView::AdmonitionLine(kind, t) => seq![admonition_mark(kind), '!', ' '] + t,
        LineView::HeadingLine(level, t) => seq![level_digit(level), '#', ' '] + t,
        LineView::QuoteLine(t) => ">> "@ + t,
        LineView::FormFieldLine(_, _) => Seq::empty(),
    }
}

/// The delimiters of a line are valid: reading its text finds them where they
/// were written. Text begins with no prefix that the classifier knows; the URL
/// of a link and the bullet of a list item hold no space; no ` | ` begins in
/// the summary of a dropdown. A form field is not written here.
pub open spec fn well_delimited(line: LineView) -> bool {
    match line {
        LineView::TextLine(t) => !has_indicator(t),
        LineView::LinkLine(link) => free_before(link.url, " "@),
        LineView::OListLine(_, bullet, _) => free_before(bullet, " "@),
        LineView::DropdownLine(summary, _) => free_before(summary, " | "@),
        LineView::FormFieldLine(_, _) => false,
        _ => true,
    }
}

/// Reading the text of a line with valid delimiters gives the line back.
pub proof fn law_line_round_trip(line: LineView)
    requires
        well_delimited(line),
    ensures
        line_of(written(line)) == Ok::<LineView, ParseError>(line),
{
    reveal_strlit("=> ");
    reveal_strlit("'''");
    reveal_strlit("```");
    reveal_strlit("---");
    reveal_strlit("\\/ ");
    reveal_strlit(">> ");
    reveal_strlit(" ");
    reveal_strlit(" | ");
    let text = written(line);
    match line {
        LineView::TextLine(t) => {},
        LineView::LinkLine(link) => {
            let content = written_link(link);
            assert(text.skip(3) =~= content);
            match link.label {
                Some(label) => {
                    lemma_split_first_free(link.url, " "@, label);
                },
                None => {
                    assert(" "@.drop_last() =~= Seq::<char>::empty());
                    assert(link.url + " "@.drop_last() =~= link.url);
                },
            }
        },
        LineView::PreformattedLine(textual, t) => {
            assert(text.skip(3) =~= t);
        },
        LineView::SeparatorLine => {},
        LineView::UListLine(level, t) => {
            assert(text.skip(3) =~= t);
        },
        LineView::OListLine(level, bullet, t) => {
            assert(text.skip(3) =~= bullet + " "@ + t);
            lemma_split_first_free(bullet, " "@, t);
        },
        LineView::DropdownLine(summary, t) => {
            assert(text.skip(3) =~= summary + " | "@ + t);
            lemma_split_first_free(summary, " | "@, t);
        },
        LineView::AdmonitionLine(kind, t) => {
            assert(text.skip(3) =~= t);
        },
        LineView::HeadingLine(level, t) => {
            assert(text.skip(3) =~= t);
        },
        LineView::QuoteLine(t) => {
            assert(text.skip(3) =~= t);
        },
        LineView::FormFieldLine(_, _) => {},
    }
}

/// The text is one line: it holds no line feed and does not end with a
/// carriage return.
pub open spec fn single_line(text: Seq<char>) -> bool {
    free_before(text, "\n"@) && without_return(text) == text
}

/// The line can be written into the main section and read back: its text is
/// one line, which is not empty and opens no section, and its delimiters are
/// valid.
pub open spec fn writable(line: LineView) -> bool {
    &&& well_delimited(line)
    &&& single_line(written(line))
    &&& written(line).len() > 0
    &&& !has_prefix(written(line), "+++"@)
}

/// The text of some lines: each line, and a line feed after it.
pub open spec fn joined(lines: Seq<Seq<char>>) -> Seq<char>
    decreases lines.len(),
{
    if lines.len() == 0 {
        Seq::empty()
    } else {
        lines[0] + "\n"@ + joined(lines.drop_first())
    }
}

/// The texts of the lines.
pub open spec fn written_all(lines: Seq<LineView>) -> Seq<Seq<char>> {
    lines.map_values(|line: LineView| written(line))
}

/// The text of a main section with the lines `lines`.
pub open spec fn main_text(lines: Seq<LineView>) -> Seq<char> {
    joined(written_all(lines))
}

/// The document with `lines` after the lines of its main section.
pub open spec fn with_main_lines(document: DocumentView, lines: Seq<LineView>) -> DocumentView {
    DocumentView { main: document.main + lines, ..document }
}

/// Splitting the text of some lines gives the lines back, where each is one line.
pub proof fn lemma_lines_of_joined(lines: Seq<Seq<char>>)
    requires
        forall|i: int| 0 <= i < lines.len() ==> single_line(#[trigger] lines[i]),
    ensures
        lines_of(joined(lines)) == lines,
    decreases lines.len(),
{
    reveal_strlit("\n");
    if lines.len() == 0 {
        assert(lines_of(joined(lines)) =~= lines);
    } else {
        let rest = lines.drop_first();
        assert forall|i: int| 0 <= i < rest.len() implies single_line(#[trigger] rest[i]) by {
            assert(rest[i] == lines[i + 1]);
        }
        lemma_lines_of_joined(rest);
        assert(single_line(lines[0]));
        lemma_split_first_free(lines[0], "\n"@, joined(rest));
        assert(lines_of(joined(lines)) =~= seq![lines[0]] + rest);
        assert(seq![lines[0]] + rest =~= lines);
    }
}

/// Reading the texts of writable lines in the main section appends the lines
/// to the main section and changes nothing else.
pub proof fn lemma_run_main(start: Scan, lines: Seq<LineView>, now: Timestamp)
    requires
        start.section == Section::Main,
        forall|i: int| 0 <= i < lines.len() ==> writable(#[trigger] lines[i]),
    ensures
        start.run(written_all(lines), now) == Ok::<Scan, ParseError>(
            start.with_document(with_main_lines(start.document, lines)),
        ),
    decreases lines.len(),
{
    if lines.len() == 0 {
        assert(start.document.main + lines =~= start.document.main);
    } else {
        let rest = lines.drop_first();
        let next = start.with_document(start.document.with_main_line(lines[0]));
        assert(writable(lines[0]));
        law_line_round_trip(lines[0]);
        assert(written_all(lines)[0] == written(lines[0]));
        assert(start.step(written(lines[0]), now) == Ok::<Scan, ParseError>(next));
        assert forall|i: int| 0 <= i < rest.len() implies writable(#[trigger] rest[i]) by {
            assert(rest[i] == lines[i + 1]);
        }
        lemma_run_main(next, rest, now);
        assert(written_all(lines).drop_first() =~= written_all(rest));
        assert(next.document.main + rest =~= start.document.main + lines);
    }
}

/// Round trip: reading the text of a main section that was written from
/// writable lines gives exactly these lines, in their order, after those that
/// the document held, and leaves the rest of the document and the state as
/// they were.
pub proof fn law_round_trip(start: Scan, lines: Seq<LineView>, now: Timestamp)
    requires
        start.section == Section::Main,
        forall|i: int| 0 <= i < lines.len() ==> writable(#[trigger] lines[i]),
    ensures
        scan_of(start, main_text(lines), now) == Ok::<Scan, ParseError>(
            start.with_document(with_main_lines(start.document, lines)),
        ),
{
    assert forall|i: int| 0 <= i < written_all(lines).len() implies single_line(
        #[trigger] written_all(lines)[i],
    ) by {
        assert(writable(lines[i]));
    }
    lemma_lines_of_joined(written_all(lines));
    lemma_run_main(start, lines, now);
}

} // verus!
