//! The document, its builder, and the driver that walks the lines of a text,
//! keeps track of the section that it is in, and hands each line to the parser
//! of that section.

use vstd::prelude::*;
use crate::error::{read_as, ParseError};
use crate::form::{field_of, FormField};
use crate::line_types::{
    line_of, link_of, FooterLine, FooterView, HeaderLine, HeaderView, LineView, Link, MainLine,
};
use crate::metadata::{Metadata, MetadataBuilder, MetadataView};
use crate::text::{
    chars_of, has_prefix, is_text, lemma_first_occurrence, split_first, split_once, starts_with,
    string_of,
};
use crate::time::Timestamp;

verus! {

/// A document, as mathematical values. It is the view of a `Document` and of a
/// `DocumentBuilder`.
pub struct DocumentView {
    pub metadata: MetadataView,
    pub main: Seq<LineView>,
    pub header: Option<Seq<HeaderView>>,
    pub footer: Option<Seq<FooterView>>,
}

/// The list with `item` as its new last entry; a list that was absent holds
/// `item` alone.
pub open spec fn extended<T>(list: Option<Seq<T>>, item: T) -> Option<Seq<T>> {
    match list {
        Some(l) => Some(l.push(item)),
        None => Some(seq![item]),
    }
}

impl DocumentView {
    /// The document without any line or metadata.
    pub open spec fn empty() -> DocumentView {
        DocumentView {
            metadata: MetadataView::empty(),
            main: Seq::empty(),
            header: None,
            footer: None,
        }
    }

    /// The document with the metadata `metadata`.
    pub open spec fn with_metadata(self, metadata: MetadataView) -> DocumentView {
        DocumentView { metadata, ..self }
    }

    /// The document with `line` as the new last line of its main section.
    pub open spec fn with_main_line(self, line: LineView) -> DocumentView {
        DocumentView { main: self.main.push(line), ..self }
    }

    /// The document with `line` as the new last line of its header.
    pub open spec fn with_header_line(self, line: HeaderView) -> DocumentView {
        DocumentView { header: extended(self.header, line), ..self }
    }

    /// The document with `line` as the new last line of its footer.
    pub open spec fn with_footer_line(self, line: FooterView) -> DocumentView {
        DocumentView { footer: extended(self.footer, line), ..self }
    }
}

/// The result holds the document at the end of the scan, seen through its
/// view, or is the error of the scan.
pub open spec fn holds_end<T: View<V = DocumentView>>(
    r: Result<T, ParseError>,
    scan: Result<Scan, ParseError>,
) -> bool {
    match scan {
        Ok(end) => r is Ok && r->Ok_0@ == end.document,
        Err(e) => r == Err::<T, ParseError>(e),
    }
}

/// A parsed document.
#[derive(Debug, PartialEq)]
pub struct Document {
    pub metadata: Metadata,
    pub main: Vec<MainLine>,
    pub header: Option<Vec<HeaderLine>>,
    pub footer: Option<Vec<FooterLine>>,
}

impl View for Document {
    type V = DocumentView;

    open spec fn view(&self) -> DocumentView {
        DocumentView {
            metadata: self.metadata@,
            main: self.main.deep_view(),
            header: self.header.deep_view(),
            footer: self.footer.deep_view(),
        }
    }
}

impl Document {
    /// A builder that holds an empty document.
    pub fn builder() -> (b: DocumentBuilder)
        ensures
            b@ == DocumentView::empty(),
    {
        DocumentBuilder::new()
    }

    /// The scan that a whole document is read from: an empty document, in the
    /// metadata block, before any form block.
    pub open spec fn start() -> Scan {
        Scan { document: DocumentView::empty(), section: Section::Meta, forms: 0 }
    }

    /// Reads a whole document from its text: either the document, or the error
    /// of the first line that is one. `now` is the time that the value `now` of
    /// a date property writes.
    pub fn parse_at(text: &str, now: Timestamp) -> (r: Result<Document, ParseError>)
        ensures
            holds_end(r, scan_of(Document::start(), text@, now)),
    {
        let state = ParserState::default();
        match parse_at(text, DocumentBuilder::new(), state, now) {
            Ok(builder) => Ok(builder.build()),
            Err(e) => Err(e),
        }
    }

    /// Reads a whole document from its text: either the document, or the error
    /// of the first line that is one. The value `now` of a date property writes
    /// the time at which this function is called.
    pub fn parse(text: &str) -> (r: Result<Document, ParseError>)
        ensures
            exists|now: Timestamp|
                now.well_formed() && holds_end(r, scan_of(Document::start(), text@, now)),
    {
        let now = Timestamp::now();
        Document::parse_at(text, now)
    }
}

/// Gathers the lines and the metadata of a document.
pub struct DocumentBuilder {
    pub metadata: MetadataBuilder,
    main: Vec<MainLine>,
    header: Option<Vec<HeaderLine>>,
    footer: Option<Vec<FooterLine>>,
}

impl View for DocumentBuilder {
    type V = DocumentView;

    closed spec fn view(&self) -> DocumentView {
        DocumentView {
            metadata: self.metadata@,
            main: self.main.deep_view(),
            header: self.header.deep_view(),
            footer: self.footer.deep_view(),
        }
    }
}

impl DeepView for DocumentBuilder {
    type V = DocumentView;

    open spec fn deep_view(&self) -> DocumentView {
        self@
    }
}

impl DocumentBuilder {
    /// A builder that holds an empty document.
    pub fn new() -> (b: DocumentBuilder)
        ensures
            b@ == DocumentView::empty(),
    {
        let b = DocumentBuilder {
            metadata: MetadataBuilder::new(),
            main: Vec::new(),
            header: None,
            footer: None,
        };
        assert(b.main.deep_view() =~= Seq::<LineView>::empty());
        b
    }

    /// Reads a tag line of the metadata block into the metadata. On an error the
    /// builder is lost.
    pub fn add_metadata_line(self, line: &[char]) -> (r: Result<DocumentBuilder, ParseError>)
        ensures
            read_as(r) == match self@.metadata.with_line(line@) {
                Ok(m) => Ok(self@.with_metadata(m)),
                Err(e) => Err(e),
            },
    {
        match self.metadata.from_chars(line) {
            Ok(metadata) => Ok(
                DocumentBuilder {
                    metadata,
                    main: self.main,
                    header: self.header,
                    footer: self.footer,
                },
            ),
            Err(e) => Err(e),
        }
    }

    /// Appends a line to the main section.
    pub fn add_main_line(self, line: MainLine) -> (b: DocumentBuilder)
        ensures
            b@ == self@.with_main_line(line@),
    {
        let mut main = self.main;
        let ghost before = main.deep_view();
        main.push(line);
        assert(main.deep_view() =~= before.push(line@));
        DocumentBuilder { metadata: self.metadata, main, header: self.header, footer: self.footer }
    }

    /// Appends a line to the header.
    pub fn add_header_line(self, line: HeaderLine) -> (b: DocumentBuilder)
        ensures
            b@ == self@.with_header_line(line@),
    {
        let header = match self.header {
            Some(mut lines) => {
                let ghost before = lines.deep_view();
                lines.push(line);
                assert(lines.deep_view() =~= before.push(line@));
                lines
            },
            None => {
                let mut lines: Vec<HeaderLine> = Vec::new();
                lines.push(line);
                assert(lines.deep_view() =~= seq![line@]);
                lines
            },
        };
        DocumentBuilder {
            metadata: self.metadata,
            main: self.main,
            header: Some(header),
            footer: self.footer,
        }
    }

    /// Appends a line to the footer.
    pub fn add_footer_line(self, line: FooterLine) -> (b: DocumentBuilder)
        ensures
            b@ == self@.with_footer_line(line@),
    {
        let footer = match self.footer {
            Some(mut lines) => {
                let ghost before = lines.deep_view();
                lines.push(line);
                assert(lines.deep_view() =~= before.push(line@));
                lines
            },
            None => {
                let mut lines: Vec<FooterLine> = Vec::new();
                lines.push(line);
                assert(lines.deep_view() =~= seq![line@]);
                lines
            },
        };
        DocumentBuilder {
            metadata: self.metadata,
            main: self.main,
            header: self.header,
            footer: Some(footer),
        }
    }

    /// The document that the builder holds.
    pub fn build(self) -> (d: Document)
        ensures
            d@ == self@,
    {
        Document {
            metadata: self.metadata.build(),
            main: self.main,
            header: self.header,
            footer: self.footer,
        }
    }
}

impl Default for DocumentBuilder {
    fn default() -> (b: DocumentBuilder)
        ensures
            b@ == DocumentView::empty(),
    {
        DocumentBuilder::new()
    }
}

/// The sections of a document.
#[derive(Clone, Copy, Debug, PartialEq, Eq, Structural)]
pub enum Section {
    Meta,
    Main,
    Form,
    Header,
    Footer,
}

impl Default for Section {
    fn default() -> (s: Section)
        ensures
            s == Section::Meta,
    {
        Section::Meta
    }
}

/// Where the driver stands: the section that it is in, and how many form blocks
/// it has seen. In a form block it has seen at least one.
#[derive(Clone, Copy, Debug, PartialEq, Eq)]
pub struct ParserState {
    current_section: Section,
    form_count: u32,
}

/// The state of a scan: the document gathered so far, the section that the scan
/// is in, and the number of form blocks opened so far.
pub struct Scan {
    pub document: DocumentView,
    pub section: Section,
    pub forms: u32,
}

/// The section that the marker line `line` opens: one of the four named
/// sections for its marker, and the main section for any other line.
pub open spec fn section_of(line: Seq<char>) -> Section {
    if line == "+++ Meta"@ {
        Section::Meta
    } else if line == "+++ Header"@ {
        Section::Header
    } else if line == "+++ Footer"@ {
        Section::Footer
    } else if line == "+++ Form"@ {
        Section::Form
    } else {
        Section::Main
    }
}

/// The index of the form that a field belongs to, where `forms` form blocks
/// were opened: forms are counted from zero.
pub open spec fn form_index(forms: u32) -> u32 {
    if forms > 0 {
        (forms - 1) as u32
    } else {
        0
    }
}

/// Where a marker line leads, after `forms` form blocks: the section that it
/// opens, and the number of form blocks then. A form marker opens one more form
/// block; it is an error where their number cannot grow.
pub open spec fn entered(forms: u32, line: Seq<char>) -> Result<(Section, u32), ParseError> {
    if section_of(line) == Section::Form {
        if forms == u32::MAX {
            Err(ParseError::TooManyForms)
        } else {
            Ok((Section::Form, (forms + 1) as u32))
        }
    } else {
        Ok((section_of(line), forms))
    }
}

impl Scan {
    /// In a form block at least one form block was opened.
    pub open spec fn well_formed(self) -> bool {
        self.section == Section::Form ==> self.forms > 0
    }

    /// The scan with the document `document`.
    pub open spec fn with_document(self, document: DocumentView) -> Scan {
        Scan { document, ..self }
    }

    /// The scan after a marker line: it is in the section that the marker
    /// opens. A form marker opens one more form block; it is an error where
    /// their number cannot grow.
    pub open spec fn enter(self, line: Seq<char>) -> Result<Scan, ParseError> {
        match entered(self.forms, line) {
            Ok((section, forms)) => Ok(Scan { section, forms, ..self }),
            Err(e) => Err(e),
        }
    }

    /// The scan after a line of the metadata block.
    pub open spec fn meta_line(self, line: Seq<char>) -> Result<Scan, ParseError> {
        match self.document.metadata.with_line(line) {
            Ok(m) => Ok(self.with_document(self.document.with_metadata(m))),
            Err(e) => Err(e),
        }
    }

    /// The scan after a line of the main section.
    pub open spec fn main_line(self, line: Seq<char>) -> Result<Scan, ParseError> {
        match line_of(line) {
            Ok(l) => Ok(self.with_document(self.document.with_main_line(l))),
            Err(e) => Err(e),
        }
    }

    /// The scan after a line of a form block: what follows the first `???` is the
    /// declaration of a form field, and a line without `???` is a line of the
    /// main section.
    pub open spec fn form_line(self, line: Seq<char>, now: Timestamp) -> Result<Scan, ParseError> {
        match split_first(line, "???"@) {
            Some((_, declaration)) => match field_of(declaration, now) {
                Ok(f) => Ok(
                    self.with_document(
                        self.document.with_main_line(
                            LineView::FormFieldLine(form_index(self.forms), f),
                        ),
                    ),
                ),
                Err(e) => Err(e),
            },
            None => self.main_line(line),
        }
    }

    /// The scan after a line of the header: what follows the first `@@@` is a
    /// link, and a line without `@@@` is an error.
    pub open spec fn header_line(self, line: Seq<char>) -> Result<Scan, ParseError> {
        match split_first(line, "@@@"@) {
            Some((_, content)) => Ok(
                self.with_document(
                    self.document.with_header_line(HeaderView::LinkLine(link_of(content))),
                ),
            ),
            None => Err(ParseError::InvalidHeaderLine),
        }
    }

    /// The scan after a line of the footer: what follows the first `@@@` is a
    /// link, and a line without `@@@` is text.
    pub open spec fn footer_line(self, line: Seq<char>) -> Scan {
        match split_first(line, "@@@"@) {
            Some((_, content)) => self.with_document(
                self.document.with_footer_line(FooterView::LinkLine(link_of(content))),
            ),
            None => self.with_document(self.document.with_footer_line(FooterView::TextLine(line))),
        }
    }

    /// The scan after the line `line`, where `now` is the time of parsing. An
    /// empty line changes nothing; a line that begins with `+++` is a marker;
    /// any other line belongs to the section that the scan is in.
    pub open spec fn step(self, line: Seq<char>, now: Timestamp) -> Result<Scan, ParseError> {
        if line.len() == 0 {
            Ok(self)
        } else if has_prefix(line, "+++"@) {
            self.enter(line)
        } else {
            match self.section {
                Section::Meta => self.meta_line(line),
                Section::Main => self.main_line(line),
                Section::Form => self.form_line(line, now),
                Section::Header => self.header_line(line),
                Section::Footer => Ok(self.footer_line(line)),
            }
        }
    }

    /// The scan after the lines `lines`, in their order. The first line that is
    /// an error ends the scan with that error.
    pub open spec fn run(self, lines: Seq<Seq<char>>, now: Timestamp) -> Result<Scan, ParseError>
        decreases lines.len(),
    {
        if lines.len() == 0 {
            Ok(self)
        } else {
            match self.step(lines[0], now) {
                Ok(next) => next.run(lines.drop_first(), now),
                Err(e) => Err(e),
            }
        }
    }
}

/// The line without the carriage return that it may end with.
pub open spec fn without_return(line: Seq<char>) -> Seq<char> {
    if line.len() > 0 && line.last() == '\r' {
        line.drop_last()
    } else {
        line
    }
}

/// The lines of `text`: each ends before a line feed, or before a carriage
/// return and a line feed, or with the text. A text that ends with a line feed
/// has no empty last line. What follows a line feed is always shorter than the
/// text; the test on the lengths is there for the recursion to end.
pub open spec fn lines_of(text: Seq<char>) -> Seq<Seq<char>>
    decreases text.len(),
{
    if text.len() == 0 {
        Seq::empty()
    } else {
        match split_first(text, "\n"@) {
            Some((line, rest)) => if rest.len() < text.len() {
                seq![without_return(line)] + lines_of(rest)
            } else {
                seq![text]
            },
            None => seq![text],
        }
    }
}

/// The scan of the text `text` that starts from `start`.
pub open spec fn scan_of(start: Scan, text: Seq<char>, now: Timestamp) -> Result<Scan, ParseError> {
    start.run(lines_of(text), now)
}

impl ParserState {
    #[verifier::type_invariant]
    spec fn well_formed(&self) -> bool {
        self.current_section == Section::Form ==> self.form_count > 0
    }

    /// The section that the driver is in.
    pub closed spec fn section(&self) -> Section {
        self.current_section
    }

    /// How many form blocks the driver has seen.
    pub closed spec fn forms(&self) -> u32 {
        self.form_count
    }

    /// The scan that stands where the driver stands, with the document `document`.
    pub open spec fn scan(&self, document: DocumentView) -> Scan {
        Scan { document, section: self.section(), forms: self.forms() }
    }

    /// The state of a driver that starts in the section `section`. In a form
    /// block it has seen that block, else none.
    pub fn new(section: Section) -> (s: ParserState)
        ensures
            s.section() == section,
            s.forms() == if section == Section::Form { 1u32 } else { 0u32 },
    {
        match section {
            Section::Form => ParserState { current_section: section, form_count: 1 },
            _ => ParserState { current_section: section, form_count: 0 },
        }
    }

    /// The section that the driver is in.
    pub fn current_section(&self) -> (s: Section)
        ensures
            s == self.section(),
    {
        self.current_section
    }

    /// How many form blocks the driver has seen.
    pub fn form_count(&self) -> (n: u32)
        ensures
            n == self.forms(),
            self.section() == Section::Form ==> n > 0,
    {
        proof {
            use_type_invariant(self);
        }
        self.form_count
    }

    /// The state after a marker line.
    pub fn enter(self, line: &[char]) -> (r: Result<ParserState, ParseError>)
        ensures
            match r {
                Ok(s) => entered(self.forms(), line@) == Ok::<(Section, u32), ParseError>(
                    (s.section(), s.forms()),
                ),
                Err(e) => entered(self.forms(), line@) == Err::<(Section, u32), ParseError>(e),
            },
    {
        proof {
            use_type_invariant(&self);
        }
        if is_text(line, "+++ Meta") {
            Ok(ParserState { current_section: Section::Meta, form_count: self.form_count })
        } else if is_text(line, "+++ Header") {
            Ok(ParserState { current_section: Section::Header, form_count: self.form_count })
        } else if is_text(line, "+++ Footer") {
            Ok(ParserState { current_section: Section::Footer, form_count: self.form_count })
        } else if is_text(line, "+++ Form") {
            if self.form_count == u32::MAX {
                Err(ParseError::TooManyForms)
            } else {
                Ok(ParserState { current_section: Section::Form, form_count: self.form_count + 1 })
            }
        } else {
            Ok(ParserState { current_section: Section::Main, form_count: self.form_count })
        }
    }
}

impl Default for ParserState {
    fn default() -> (s: ParserState)
        ensures
            s.section() == Section::Meta,
            s.forms() == 0,
    {
        ParserState { current_section: Section::Meta, form_count: 0 }
    }
}

/// What a scan has come to, seen through the views of the builder and the state.
pub open spec fn scan_result(r: Result<(DocumentBuilder, ParserState), ParseError>) -> Result<
    Scan,
    ParseError,
> {
    match r {
        Ok((builder, state)) => Ok(state.scan(builder@)),
        Err(e) => Err(e),
    }
}

/// Reads one line: a marker changes the section, an empty line nothing, and any
/// other line goes to the parser of the section that the driver is in. `now` is
/// the time that the value `now` of a date property writes.
pub fn parse_line(
    line: &[char],
    builder: DocumentBuilder,
    state: ParserState,
    now: Timestamp,
) -> (r: Result<(DocumentBuilder, ParserState), ParseError>)
    ensures
        scan_result(r) == state.scan(builder@).step(line@, now),
{
    if line.len() == 0 {
        return Ok((builder, state));
    }
    let marker = chars_of("+++");
    if starts_with(line, marker.as_slice()) {
        return match state.enter(line) {
            Ok(next) => Ok((builder, next)),
            Err(e) => Err(e),
        };
    }
    match state.current_section() {
        Section::Meta => match builder.add_metadata_line(line) {
            Ok(b) => Ok((b, state)),
            Err(e) => Err(e),
        },
        Section::Main => match MainLine::from_chars(line) {
            Ok(l) => Ok((builder.add_main_line(l), state)),
            Err(e) => Err(e),
        },
        Section::Form => {
            let sentinel = chars_of("???");
            match split_once(line, sentinel.as_slice()) {
                Some((_, declaration)) => match FormField::from_chars(declaration, now) {
                    Ok(f) => {
                        let index = state.form_count() - 1;
                        Ok((builder.add_main_line(MainLine::FormFieldLine(index, f)), state))
                    },
                    Err(e) => Err(e),
                },
                None => match MainLine::from_chars(line) {
                    Ok(l) => Ok((builder.add_main_line(l), state)),
                    Err(e) => Err(e),
                },
            }
        },
        Section::Header => {
            let sentinel = chars_of("@@@");
            match split_once(line, sentinel.as_slice()) {
                Some((_, content)) => Ok(
                    (builder.add_header_line(HeaderLine::LinkLine(Link::from_chars(content))), state),
                ),
                None => Err(ParseError::InvalidHeaderLine),
            }
        },
        Section::Footer => {
            let sentinel = chars_of("@@@");
            match split_once(line, sentinel.as_slice()) {
                Some((_, content)) => Ok(
                    (builder.add_footer_line(FooterLine::LinkLine(Link::from_chars(content))), state),
                ),
                None => Ok((builder.add_footer_line(FooterLine::TextLine(string_of(line))), state)),
            }
        },
    }
}

/// Takes the carriage return from the end of a line that has one.
fn trim_return<'a>(line: &'a [char]) -> (r: &'a [char])
    ensures
        r@ == without_return(line@),
{
    let n = line.len();
    if n > 0 && line[n - 1] == '\r' {
        let r = vstd::slice::slice_subrange(line, 0, n - 1);
        assert(r@ =~= line@.drop_last());
        r
    } else {
        line
    }
}

/// Reads the lines of `text` into `builder`, starting in the state `state`.
/// The first line that is an error ends the reading with that error. `now` is
/// the time that the value `now` of a date property writes.
pub fn parse_at(text: &str, builder: DocumentBuilder, state: ParserState, now: Timestamp) -> (r:
    Result<DocumentBuilder, ParseError>)
    ensures
        holds_end(r, scan_of(state.scan(builder@), text@, now)),
{
    let chars = chars_of(text);
    let feed = chars_of("\n");
    let ghost start = state.scan(builder@);
    let mut document = builder;
    let mut place = state;
    let mut rest: &[char] = chars.as_slice();
    while rest.len() > 0
        invariant
            feed@ == "\n"@,
            start == state.scan(builder@),
            place.scan(document@).run(lines_of(rest@), now) == start.run(lines_of(text@), now),
        decreases rest@.len(),
    {
        proof {
            reveal_strlit("\n");
            lemma_first_occurrence(rest@, "\n"@);
        }
        let ghost here = place.scan(document@);
        let (line, after, last) = match split_once(rest, feed.as_slice()) {
            Some((line, after)) => (trim_return(line), after, false),
            None => (rest, rest, true),
        };
        proof {
            if last {
                assert(lines_of(rest@) == seq![rest@]);
                assert(lines_of(rest@).drop_first() =~= Seq::<Seq<char>>::empty());
            } else {
                assert(lines_of(rest@) == seq![line@] + lines_of(after@));
                assert(lines_of(rest@).drop_first() =~= lines_of(after@));
            }
            assert(lines_of(rest@)[0] == line@);
            assert(here.run(lines_of(rest@), now) == match here.step(line@, now) {
                Ok(next) => next.run(lines_of(rest@).drop_first(), now),
                Err(e) => Err(e),
            });
        }
        match parse_line(line, document, place, now) {
            Ok((b, s)) => {
                document = b;
                place = s;
            },
            Err(e) => {
                return Err(e);
            },
        }
        if last {
            return Ok(document);
        }
        rest = after;
    }
    Ok(document)
}

/// Reads the lines of `text` into `builder`, starting in the state `state`.
/// The first line that is an error ends the reading with that error. The value
/// `now` of a date property writes the time at which this function is called.
pub fn parse(text: &str, builder: DocumentBuilder, state: ParserState) -> (r: Result<
    DocumentBuilder,
    ParseError,
>)
    ensures
        exists|now: Timestamp|
            now.well_formed() && holds_end(r, scan_of(state.scan(builder@), text@, now)),
{
    let now = Timestamp::now();
    parse_at(text, builder, state, now)
}

} // verus!
