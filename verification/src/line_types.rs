//! The lines of a document, and the classifier that tells the kind of a line of
//! the main section from its first three characters.

use vstd::prelude::*;
use crate::error::{read_as, ParseError};
use crate::form::{FieldView, FormField};
use crate::text::{chars_of, split_first, split_once, string_of};

verus! {

/// How deep a heading or a list item is nested.
#[derive(Clone, Copy, Debug, PartialEq, Eq, Structural)]
pub enum Level {
    One,
    Two,
    Three,
    Four,
    Five,
    Six,
}

/// The kind of an admonition.
#[derive(Clone, Copy, Debug, PartialEq, Eq, Structural)]
pub enum AdmonitionType {
    Note,
    Warning,
    Danger,
}

impl DeepView for Level {
    type V = Level;

    open spec fn deep_view(&self) -> Level {
        *self
    }
}

impl DeepView for AdmonitionType {
    type V = AdmonitionType;

    open spec fn deep_view(&self) -> AdmonitionType {
        *self
    }
}

/// The level that the digit `c` writes: `1` to `6`.
pub open spec fn level_of(c: char) -> Option<Level> {
    if c == '1' {
        Some(Level::One)
    } else if c == '2' {
        Some(Level::Two)
    } else if c == '3' {
        Some(Level::Three)
    } else if c == '4' {
        Some(Level::Four)
    } else if c == '5' {
        Some(Level::Five)
    } else if c == '6' {
        Some(Level::Six)
    } else {
        None
    }
}

/// The kind of admonition that `c` marks: `_` a note, `*` a warning, `!` a danger.
pub open spec fn admonition_of(c: char) -> Option<AdmonitionType> {
    if c == '_' {
        Some(AdmonitionType::Note)
    } else if c == '*' {
        Some(AdmonitionType::Warning)
    } else if c == '!' {
        Some(AdmonitionType::Danger)
    } else {
        None
    }
}

impl Level {
    /// The level that the digit `c` writes.
    pub fn from_char(c: char) -> (r: Option<Level>)
        ensures
            r == level_of(c),
    {
        if c == '1' {
            Some(Level::One)
        } else if c == '2' {
            Some(Level::Two)
        } else if c == '3' {
            Some(Level::Three)
        } else if c == '4' {
            Some(Level::Four)
        } else if c == '5' {
            Some(Level::Five)
        } else if c == '6' {
            Some(Level::Six)
        } else {
            None
        }
    }
}

impl AdmonitionType {
    /// The kind of admonition that `c` marks.
    pub fn from_char(c: char) -> (r: Option<AdmonitionType>)
        ensures
            r == admonition_of(c),
    {
        if c == '_' {
            Some(AdmonitionType::Note)
        } else if c == '*' {
            Some(AdmonitionType::Warning)
        } else if c == '!' {
            Some(AdmonitionType::Danger)
        } else {
            None
        }
    }
}

/// A link: a URL, which may be relative, and an optional label.
#[derive(Debug, PartialEq)]
pub struct Link {
    pub url: String,
    pub label: Option<String>,
}

/// The view of a `Link`.
pub struct LinkView {
    pub url: Seq<char>,
    pub label: Option<Seq<char>>,
}

impl View for Link {
    type V = LinkView;

    open spec fn view(&self) -> LinkView {
        LinkView { url: self.url@, label: self.label.deep_view() }
    }
}

impl DeepView for Link {
    type V = LinkView;

    open spec fn deep_view(&self) -> LinkView {
        self@
    }
}

/// The link that `content` writes: the URL ends at the first space, and what
/// follows that space is the label.
pub open spec fn link_of(content: Seq<char>) -> LinkView {
    match split_first(content, " "@) {
        Some((url, label)) => LinkView { url, label: Some(label) },
        None => LinkView { url: content, label: None },
    }
}

impl Link {
    /// Reads the content of a link line.
    pub fn from_chars(content: &[char]) -> (link: Link)
        ensures
            link@ == link_of(content@),
    {
        let space = chars_of(" ");
        match split_once(content, space.as_slice()) {
            Some((url, label)) => Link { url: string_of(url), label: Some(string_of(label)) },
            None => Link { url: string_of(content), label: None },
        }
    }

    /// Reads the content of a link line.
    pub fn parse(content: &str) -> (link: Link)
        ensures
            link@ == link_of(content@),
    {
        let chars = chars_of(content);
        Link::from_chars(chars.as_slice())
    }
}

/// A line of the main section.
#[derive(Debug, PartialEq)]
pub enum MainLine {
    TextLine(String),
    LinkLine(Link),
    /// Preformatted content; the flag tells that it is text rather than code.
    PreformattedLine(bool, String),
    SeparatorLine,
    UListLine(Level, String),
    /// An item of an ordered list: its level, its bullet and its content.
    OListLine(Level, String, String),
    /// A dropdown: its summary and its content.
    DropdownLine(String, String),
    AdmonitionLine(AdmonitionType, String),
    HeadingLine(Level, String),
    QuoteLine(String),
    /// A form field, with the index of the form that it belongs to.
    FormFieldLine(u32, FormField),
}

/// The view of a `MainLine`.
pub enum LineView {
    TextLine(Seq<char>),
    LinkLine(LinkView),
    PreformattedLine(bool, Seq<char>),
    SeparatorLine,
    UListLine(Level, Seq<char>),
    OListLine(Level, Seq<char>, Seq<char>),
    DropdownLine(Seq<char>, Seq<char>),
    AdmonitionLine(AdmonitionType, Seq<char>),
    HeadingLine(Level, Seq<char>),
    QuoteLine(Seq<char>),
    FormFieldLine(u32, FieldView),
}

impl View for MainLine {
    type V = LineView;

    open spec fn view(&self) -> LineView {
        match self {
            MainLine::TextLine(t) => LineView::TextLine(t@),
            MainLine::LinkLine(l) => LineView::LinkLine(l@),
            MainLine::PreformattedLine(textual, t) => LineView::PreformattedLine(*textual, t@),
            MainLine::SeparatorLine => LineView::SeparatorLine,
            MainLine::UListLine(level, t) => LineView::UListLine(*level, t@),
            MainLine::OListLine(level, bullet, t) => LineView::OListLine(*level, bullet@, t@),
            MainLine::DropdownLine(summary, t) => LineView::DropdownLine(summary@, t@),
            MainLine::AdmonitionLine(kind, t) => LineView::AdmonitionLine(*kind, t@),
            MainLine::HeadingLine(level, t) => LineView::HeadingLine(*level, t@),
            MainLine::QuoteLine(t) => LineView::QuoteLine(t@),
            MainLine::FormFieldLine(form, field) => LineView::FormFieldLine(*form, field@),
        }
    }
}

impl DeepView for MainLine {
    type V = LineView;

    open spec fn deep_view(&self) -> LineView {
        self@
    }
}

/// A line of the header: a link.
#[derive(Debug, PartialEq)]
pub enum HeaderLine {
    LinkLine(Link),
}

/// The view of a `HeaderLine`.
pub enum HeaderView {
    LinkLine(LinkView),
}

impl View for HeaderLine {
    type V = HeaderView;

    open spec fn view(&self) -> HeaderView {
        match self {
            HeaderLine::LinkLine(l) => HeaderView::LinkLine(l@),
        }
    }
}

impl DeepView for HeaderLine {
    type V = HeaderView;

    open spec fn deep_view(&self) -> HeaderView {
        self@
    }
}

/// A line of the footer: a link or text.
#[derive(Debug, PartialEq)]
pub enum FooterLine {
    LinkLine(Link),
    TextLine(String),
}

/// The view of a `FooterLine`.
pub enum FooterView {
    LinkLine(LinkView),
    TextLine(Seq<char>),
}

impl View for FooterLine {
    type V = FooterView;

    open spec fn view(&self) -> FooterView {
        match self {
            FooterLine::LinkLine(l) => FooterView::LinkLine(l@),
            FooterLine::TextLine(t) => FooterView::TextLine(t@),
        }
    }
}

impl DeepView for FooterLine {
    type V = FooterView;

    open spec fn deep_view(&self) -> FooterView {
        self@
    }
}

/// The item of an ordered list that `content` writes at the level `level`: the
/// bullet ends at the first space. Without a space it is an error.
pub open spec fn ordered_item_of(level: Level, content: Seq<char>) -> Result<LineView, ParseError> {
    match split_first(content, " "@) {
        Some((bullet, text)) => Ok(LineView::OListLine(level, bullet, text)),
        None => Err(ParseError::MissingDelimiter),
    }
}

/// The dropdown that `content` writes: the summary ends at the first ` | `.
/// Without that delimiter it is an error.
pub open spec fn dropdown_of(content: Seq<char>) -> Result<LineView, ParseError> {
    match split_first(content, " | "@) {
        Some((summary, text)) => Ok(LineView::DropdownLine(summary, text)),
        None => Err(ParseError::MissingDelimiter),
    }
}

/// The three characters tell the kind of a line: they are one of the prefixes
/// that the classifier knows.
pub open spec fn is_indicator(a: char, b: char, c: char) -> bool {
    ||| (a == '=' && b == '>' && c == ' ')
    ||| (a == '`' && b == '`' && c == '`')
    ||| (a == '\'' && b == '\'' && c == '\'')
    ||| (a == '-' && b == '-' && c == '-')
    ||| (level_of(a) is Some && (b == '*' || b == '-' || b == '#') && c == ' ')
    ||| (a == '\\' && b == '/' && c == ' ')
    ||| (admonition_of(a) is Some && b == '!' && c == ' ')
    ||| (a == '>' && b == '>' && c == ' ')
}

/// A line begins with one of the prefixes that the classifier knows.
pub open spec fn has_indicator(line: Seq<char>) -> bool {
    line.len() >= 3 && is_indicator(line[0], line[1], line[2])
}

/// The line of the main section that `line` writes. Its first three characters
/// tell its kind; where they tell none, and where the line is shorter, the whole
/// line is text.
pub open spec fn line_of(line: Seq<char>) -> Result<LineView, ParseError> {
    if line.len() < 3 {
        Ok(LineView::TextLine(line))
    } else {
        let a = line[0];
        let b = line[1];
        let c = line[2];
        let content = line.skip(3);
        if a == '=' && b == '>' && c == ' ' {
            Ok(LineView::LinkLine(link_of(content)))
        } else if a == '`' && b == '`' && c == '`' {
            Ok(LineView::PreformattedLine(false, content))
        } else if a == '\'' && b == '\'' && c == '\'' {
            Ok(LineView::PreformattedLine(true, content))
        } else if a == '-' && b == '-' && c == '-' {
            Ok(LineView::SeparatorLine)
        } else if level_of(a) is Some && b == '*' && c == ' ' {
            Ok(LineView::UListLine(level_of(a)->Some_0, content))
        } else if level_of(a) is Some && b == '-' && c == ' ' {
            ordered_item_of(level_of(a)->Some_0, content)
        } else if a == '\\' && b == '/' && c == ' ' {
            dropdown_of(content)
        } else if admonition_of(a) is Some && b == '!' && c == ' ' {
            Ok(LineView::AdmonitionLine(admonition_of(a)->Some_0, content))
        } else if level_of(a) is Some && b == '#' && c == ' ' {
            Ok(LineView::HeadingLine(level_of(a)->Some_0, content))
        } else if a == '>' && b == '>' && c == ' ' {
            Ok(LineView::QuoteLine(content))
        } else {
            Ok(LineView::TextLine(line))
        }
    }
}

impl MainLine {
    /// Reads a line of the main section.
    pub fn from_chars(line: &[char]) -> (r: Result<MainLine, ParseError>)
        ensures
            read_as(r) == line_of(line@),
    {
        let n = line.len();
        if n < 3 {
            return Ok(MainLine::TextLine(string_of(line)));
        }
        let a = line[0];
        let b = line[1];
        let c = line[2];
        let content = vstd::slice::slice_subrange(line, 3, n);
        assert(content@ =~= line@.skip(3));
        if a == '=' && b == '>' && c == ' ' {
            return Ok(MainLine::LinkLine(Link::from_chars(content)));
        }
        if a == '`' && b == '`' && c == '`' {
            return Ok(MainLine::PreformattedLine(false, string_of(content)));
        }
        if a == '\'' && b == '\'' && c == '\'' {
            return Ok(MainLine::PreformattedLine(true, string_of(content)));
        }
        if a == '-' && b == '-' && c == '-' {
            return Ok(MainLine::SeparatorLine);
        }
        let level = Level::from_char(a);
        let kind = AdmonitionType::from_char(a);
        if c == ' ' {
            match level {
                Some(level) => {
                    if b == '*' {
                        return Ok(MainLine::UListLine(level, string_of(content)));
                    }
                    if b == '-' {
                        let space = chars_of(" ");
                        return match split_once(content, space.as_slice()) {
                            Some((bullet, text)) => Ok(
                                MainLine::OListLine(level, string_of(bullet), string_of(text)),
                            ),
                            None => Err(ParseError::MissingDelimiter),
                        };
                    }
                    if b == '#' {
                        return Ok(MainLine::HeadingLine(level, string_of(content)));
                    }
                },
                None => {},
            }
            if a == '\\' && b == '/' {
                let bar = chars_of(" | ");
                return match split_once(content, bar.as_slice()) {
                    Some((summary, text)) => Ok(
                        MainLine::DropdownLine(string_of(summary), string_of(text)),
                    ),
                    None => Err(ParseError::MissingDelimiter),
                };
            }
            match kind {
                Some(kind) => {
                    if b == '!' {
                        return Ok(MainLine::AdmonitionLine(kind, string_of(content)));
                    }
                },
                None => {},
            }
            if a == '>' && b == '>' {
                return Ok(MainLine::QuoteLine(string_of(content)));
            }
        }
        Ok(MainLine::TextLine(string_of(line)))
    }

    /// Reads a line of the main section.
    pub fn parse(input: &str) -> (r: Result<MainLine, ParseError>)
        ensures
            read_as(r) == line_of(input@),
    {
        let chars = chars_of(input);
        MainLine::from_chars(chars.as_slice())
    }
}

/// A line is text as a whole exactly where it begins with none of the prefixes
/// that the classifier knows. A line that begins with one is never taken for
/// text, whatever was meant.
pub proof fn law_text_is_the_fallback(line: Seq<char>)
    ensures
        line_of(line) == Ok::<LineView, ParseError>(LineView::TextLine(line)) <==> !has_indicator(
            line,
        ),
        line_of(line) is Ok && line_of(line)->Ok_0 is TextLine ==> !has_indicator(line),
{
}

} // verus!
