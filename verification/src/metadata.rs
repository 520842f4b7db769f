//! The metadata of a document, its builder, and the parser of the tag lines of
//! the metadata block.

use vstd::prelude::*;
use crate::error::{read_as, ParseError};
use crate::number::{parse_u32, u32_of};
use crate::text::{chars_of, has_prefix, starts_with, string_of};

verus! {

/// The most authors that a document names.
pub const MAX_AUTHORS: usize = 16;

/// The most licenses that a document names.
pub const MAX_LICENSES: usize = 4;

/// The most languages that a document names.
pub const MAX_LANGUAGES: usize = 256;

/// The metadata of a document, as mathematical values. It is the view of a
/// `Metadata` and of a `MetadataBuilder`.
pub struct MetadataView {
    pub title: Seq<char>,
    pub subtitle: Option<Seq<char>>,
    pub author: Option<Seq<Seq<char>>>,
    pub license: Option<Seq<Seq<char>>>,
    pub language: Option<Seq<Seq<char>>>,
    pub cache: Option<u32>,
}

/// The list holds at most `cap` entries.
pub open spec fn within(list: Option<Seq<Seq<char>>>, cap: int) -> bool {
    match list {
        Some(l) => l.len() <= cap,
        None => true,
    }
}

/// The list after `item` was offered to it: `item` is its new last entry where
/// the list held fewer than `cap` entries, and the list is as it was where it
/// was full.
pub open spec fn offered(list: Option<Seq<Seq<char>>>, item: Seq<char>, cap: int) -> Option<
    Seq<Seq<char>>,
> {
    match list {
        Some(l) => if l.len() >= cap {
            Some(l)
        } else {
            Some(l.push(item))
        },
        None => Some(seq![item]),
    }
}

/// The list after every one of `items` was offered to it, in their order.
pub open spec fn offered_all(list: Option<Seq<Seq<char>>>, items: Seq<Seq<char>>, cap: int) -> Option<
    Seq<Seq<char>>,
>
    decreases items.len(),
{
    if items.len() == 0 {
        list
    } else {
        offered(offered_all(list, items.drop_last(), cap), items.last(), cap)
    }
}

/// How many bytes `c` takes in UTF-8.
pub open spec fn utf8_width(c: char) -> int {
    if (c as u32) < 0x80 {
        1
    } else if (c as u32) < 0x800 {
        2
    } else if (c as u32) < 0x10000 {
        3
    } else {
        4
    }
}

/// How many bytes `s` takes in UTF-8.
pub open spec fn utf8_len(s: Seq<char>) -> int
    decreases s.len(),
{
    if s.len() == 0 {
        0
    } else {
        utf8_len(s.drop_last()) + utf8_width(s.last())
    }
}

/// Every character takes at least one byte.
pub proof fn lemma_utf8_len_bound(s: Seq<char>)
    ensures
        s.len() <= utf8_len(s),
    decreases s.len(),
{
    if s.len() > 0 {
        lemma_utf8_len_bound(s.drop_last());
    }
}

impl MetadataView {
    /// The metadata of a document that says nothing of itself.
    pub open spec fn empty() -> MetadataView {
        MetadataView {
            title: Seq::empty(),
            subtitle: None,
            author: None,
            license: None,
            language: None,
            cache: None,
        }
    }

    /// No list holds more entries than a document may name.
    pub open spec fn well_formed(self) -> bool {
        &&& within(self.author, MAX_AUTHORS as int)
        &&& within(self.license, MAX_LICENSES as int)
        &&& within(self.language, MAX_LANGUAGES as int)
    }

    /// The metadata with the title `title`.
    pub open spec fn with_title(self, title: Seq<char>) -> MetadataView {
        MetadataView { title, ..self }
    }

    /// The metadata with the subtitle `subtitle`.
    pub open spec fn with_subtitle(self, subtitle: Seq<char>) -> MetadataView {
        MetadataView { subtitle: Some(subtitle), ..self }
    }

    /// The metadata after the author `author` was offered to it.
    pub open spec fn with_author(self, author: Seq<char>) -> MetadataView {
        MetadataView { author: offered(self.author, author, MAX_AUTHORS as int), ..self }
    }

    /// The metadata after the license `license` was offered to it.
    pub open spec fn with_license(self, license: Seq<char>) -> MetadataView {
        MetadataView { license: offered(self.license, license, MAX_LICENSES as int), ..self }
    }

    /// The metadata after the language `language` was offered to it.
    pub open spec fn with_language(self, language: Seq<char>) -> MetadataView {
        MetadataView { language: offered(self.language, language, MAX_LANGUAGES as int), ..self }
    }

    /// The metadata with the cache duration `cache`, in seconds.
    pub open spec fn with_cache(self, cache: u32) -> MetadataView {
        MetadataView { cache: Some(cache), ..self }
    }

    /// The metadata after the tag line `line` was read: a tag of three
    /// characters, the last a space, and its value. A line of fewer than three
    /// bytes, a line with another tag and a cache value that is no number are
    /// errors.
    pub open spec fn with_line(self, line: Seq<char>) -> Result<MetadataView, ParseError> {
        if utf8_len(line) < 3 {
            Err(ParseError::MetadataLineTooShort)
        } else if has_prefix(line, "TI "@) {
            Ok(self.with_title(line.skip(3)))
        } else if has_prefix(line, "ST "@) {
            Ok(self.with_subtitle(line.skip(3)))
        } else if has_prefix(line, "AU "@) {
            Ok(self.with_author(line.skip(3)))
        } else if has_prefix(line, "LI "@) {
            Ok(self.with_license(line.skip(3)))
        } else if has_prefix(line, "LA "@) {
            Ok(self.with_language(line.skip(3)))
        } else if has_prefix(line, "CH "@) {
            match u32_of(line.skip(3)) {
                Some(cache) => Ok(self.with_cache(cache)),
                None => Err(ParseError::InvalidCacheValue),
            }
        } else {
            Err(ParseError::InvalidMetadataTag)
        }
    }
}

/// The metadata of a document.
#[derive(Debug, PartialEq)]
pub struct Metadata {
    pub title: String,
    pub subtitle: Option<String>,
    pub author: Option<Vec<String>>,
    pub license: Option<Vec<String>>,
    pub language: Option<Vec<String>>,
    /// How long the document may be cached, in seconds.
    pub cache: Option<u32>,
}

impl View for Metadata {
    type V = MetadataView;

    open spec fn view(&self) -> MetadataView {
        MetadataView {
            title: self.title@,
            subtitle: self.subtitle.deep_view(),
            author: self.author.deep_view(),
            license: self.license.deep_view(),
            language: self.language.deep_view(),
            cache: self.cache,
        }
    }
}

impl DeepView for Metadata {
    type V = MetadataView;

    open spec fn deep_view(&self) -> MetadataView {
        self@
    }
}

impl Metadata {
    /// A builder that holds no metadata yet.
    pub fn builder() -> (b: MetadataBuilder)
        ensures
            b@ == MetadataView::empty(),
    {
        MetadataBuilder::new()
    }
}

/// Gathers the metadata of a document. None of its lists grows beyond what a
/// document may name.
pub struct MetadataBuilder {
    title: String,
    subtitle: Option<String>,
    author: Option<Vec<String>>,
    license: Option<Vec<String>>,
    language: Option<Vec<String>>,
    cache: Option<u32>,
}

impl View for MetadataBuilder {
    type V = MetadataView;

    closed spec fn view(&self) -> MetadataView {
        MetadataView {
            title: self.title@,
            subtitle: self.subtitle.deep_view(),
            author: self.author.deep_view(),
            license: self.license.deep_view(),
            language: self.language.deep_view(),
            cache: self.cache,
        }
    }
}

impl DeepView for MetadataBuilder {
    type V = MetadataView;

    open spec fn deep_view(&self) -> MetadataView {
        self@
    }
}

/// Offers `item` to `list`, which takes it unless it holds `cap` entries.
fn offer(list: Option<Vec<String>>, item: String, cap: usize) -> (r: Option<Vec<String>>)
    ensures
        r.deep_view() == offered(list.deep_view(), item@, cap as int),
{
    match list {
        Some(mut l) => {
            let ghost before = l.deep_view();
            if l.len() < cap {
                l.push(item);
                assert(l.deep_view() =~= before.push(item@));
            }
            Some(l)
        },
        None => {
            let mut l: Vec<String> = Vec::new();
            l.push(item);
            assert(l.deep_view() =~= seq![item@]);
            Some(l)
        },
    }
}

/// Tells whether `line` takes fewer than three bytes in UTF-8.
fn shorter_than_tag(line: &[char]) -> (b: bool)
    ensures
        b == (utf8_len(line@) < 3),
{
    let n = line.len();
    proof {
        lemma_utf8_len_bound(line@);
    }
    if n >= 3 {
        false
    } else if n == 0 {
        true
    } else if n == 1 {
        proof {
            assert(line@.drop_last().len() == 0);
            assert(utf8_len(line@) == utf8_len(line@.drop_last()) + utf8_width(line@.last()));
        }
        (line[0] as u32) < 0x800
    } else {
        proof {
            let front = line@.drop_last();
            assert(front.drop_last().len() == 0);
            assert(utf8_len(front) == utf8_len(front.drop_last()) + utf8_width(front.last()));
            assert(utf8_len(line@) == utf8_len(front) + utf8_width(line@.last()));
            assert(front.last() == line@[0]);
        }
        (line[0] as u32) < 0x80 && (line[1] as u32) < 0x80
    }
}

impl MetadataBuilder {
    #[verifier::type_invariant]
    spec fn well_formed(&self) -> bool {
        self@.well_formed()
    }

    /// A builder that holds no metadata yet.
    pub fn new() -> (b: MetadataBuilder)
        ensures
            b@ == MetadataView::empty(),
    {
        MetadataBuilder {
            title: String::new(),
            subtitle: None,
            author: None,
            license: None,
            language: None,
            cache: None,
        }
    }

    /// Sets the title.
    pub fn title(self, title: String) -> (b: MetadataBuilder)
        ensures
            b@ == self@.with_title(title@),
    {
        proof {
            use_type_invariant(&self);
        }
        MetadataBuilder {
            title,
            subtitle: self.subtitle,
            author: self.author,
            license: self.license,
            language: self.language,
            cache: self.cache,
        }
    }

    /// Sets the subtitle.
    pub fn subtitle(self, subtitle: String) -> (b: MetadataBuilder)
        ensures
            b@ == self@.with_subtitle(subtitle@),
    {
        proof {
            use_type_invariant(&self);
        }
        MetadataBuilder {
            title: self.title,
            subtitle: Some(subtitle),
            author: self.author,
            license: self.license,
            language: self.language,
            cache: self.cache,
        }
    }

    /// Adds an author, unless the builder holds as many as a document may name.
    pub fn add_author_unfailing(self, author: String) -> (b: MetadataBuilder)
        ensures
            b@ == self@.with_author(author@),
            b@.well_formed(),
    {
        proof {
            use_type_invariant(&self);
        }
        MetadataBuilder {
            title: self.title,
            subtitle: self.subtitle,
            author: offer(self.author, author, MAX_AUTHORS),
            license: self.license,
            language: self.language,
            cache: self.cache,
        }
    }

    /// Adds a license, unless the builder holds as many as a document may name.
    pub fn add_license_unfailing(self, license: String) -> (b: MetadataBuilder)
        ensures
            b@ == self@.with_license(license@),
            b@.well_formed(),
    {
        proof {
            use_type_invariant(&self);
        }
        MetadataBuilder {
            title: self.title,
            subtitle: self.subtitle,
            author: self.author,
            license: offer(self.license, license, MAX_LICENSES),
            language: self.language,
            cache: self.cache,
        }
    }

    /// Adds a language, unless the builder holds as many as a document may name.
    pub fn add_language_unfailing(self, language: String) -> (b: MetadataBuilder)
        ensures
            b@ == self@.with_language(language@),
            b@.well_formed(),
    {
        proof {
            use_type_invariant(&self);
        }
        MetadataBuilder {
            title: self.title,
            subtitle: self.subtitle,
            author: self.author,
            license: self.license,
            language: offer(self.language, language, MAX_LANGUAGES),
            cache: self.cache,
        }
    }

    /// Sets the cache duration, in seconds.
    pub fn cache(self, cache: u32) -> (b: MetadataBuilder)
        ensures
            b@ == self@.with_cache(cache),
    {
        proof {
            use_type_invariant(&self);
        }
        MetadataBuilder {
            title: self.title,
            subtitle: self.subtitle,
            author: self.author,
            license: self.license,
            language: self.language,
            cache: Some(cache),
        }
    }

    /// The metadata that the builder holds.
    pub fn build(self) -> (m: Metadata)
        ensures
            m@ == self@,
            m@.well_formed(),
    {
        proof {
            use_type_invariant(&self);
        }
        Metadata {
            title: self.title,
            subtitle: self.subtitle,
            author: self.author,
            license: self.license,
            language: self.language,
            cache: self.cache,
        }
    }

    /// Reads a tag line of the metadata block into the builder.
    pub fn from_chars(self, line: &[char]) -> (r: Result<MetadataBuilder, ParseError>)
        ensures
            read_as(r) == self@.with_line(line@),
    {
        if shorter_than_tag(line) {
            return Err(ParseError::MetadataLineTooShort);
        }
        proof {
            reveal_strlit("TI ");
            reveal_strlit("ST ");
            reveal_strlit("AU ");
            reveal_strlit("LI ");
            reveal_strlit("LA ");
            reveal_strlit("CH ");
        }
        let n = line.len();
        let title = chars_of("TI ");
        let subtitle = chars_of("ST ");
        let author = chars_of("AU ");
        let license = chars_of("LI ");
        let language = chars_of("LA ");
        let cache = chars_of("CH ");
        if starts_with(line, title.as_slice()) {
            let value = vstd::slice::slice_subrange(line, 3, n);
            assert(value@ =~= line@.skip(3));
            Ok(self.title(string_of(value)))
        } else if starts_with(line, subtitle.as_slice()) {
            let value = vstd::slice::slice_subrange(line, 3, n);
            assert(value@ =~= line@.skip(3));
            Ok(self.subtitle(string_of(value)))
        } else if starts_with(line, author.as_slice()) {
            let value = vstd::slice::slice_subrange(line, 3, n);
            assert(value@ =~= line@.skip(3));
            Ok(self.add_author_unfailing(string_of(value)))
        } else if starts_with(line, license.as_slice()) {
            let value = vstd::slice::slice_subrange(line, 3, n);
            assert(value@ =~= line@.skip(3));
            Ok(self.add_license_unfailing(string_of(value)))
        } else if starts_with(line, language.as_slice()) {
            let value = vstd::slice::slice_subrange(line, 3, n);
            assert(value@ =~= line@.skip(3));
            Ok(self.add_language_unfailing(string_of(value)))
        } else if starts_with(line, cache.as_slice()) {
            let value = vstd::slice::slice_subrange(line, 3, n);
            assert(value@ =~= line@.skip(3));
            match parse_u32(value) {
                Some(seconds) => Ok(self.cache(seconds)),
                None => Err(ParseError::InvalidCacheValue),
            }
        } else {
            Err(ParseError::InvalidMetadataTag)
        }
    }

    /// Reads a tag line of the metadata block into the builder.
    pub fn parse(self, line: &str) -> (r: Result<MetadataBuilder, ParseError>)
        ensures
            read_as(r) == self@.with_line(line@),
    {
        let chars = chars_of(line);
        self.from_chars(chars.as_slice())
    }
}

impl Default for MetadataBuilder {
    fn default() -> (b: MetadataBuilder)
        ensures
            b@ == MetadataView::empty(),
    {
        MetadataBuilder::new()
    }
}

} // verus!
