//! A verified parser for ATHN documents.
//!
//! ATHN is a line-oriented hypertext format. A document has a metadata block, a
//! main section, optional lists of links as its header and footer, and any
//! number of form blocks. A line that begins with `+++` opens a section:
//! `+++ Meta`, `+++ Header`, `+++ Footer` and `+++ Form` open the section that
//! they name, and any other such line the main section. Empty lines are
//! skipped everywhere.
//!
//! - In the metadata block a line is a tag of three characters and its value:
//!   `TI ` the title, `ST ` the subtitle, `AU ` an author, `LI ` a license,
//!   `LA ` a language and `CH ` the cache duration in seconds.
//! - In the main section the first three characters of a line tell its kind:
//!   `=> ` a link, ```` ``` ```` and `'''` preformatted content, `---` a
//!   separator, `1* ` to `6* ` an item of an unordered list, `1- ` to `6- ` an
//!   item of an ordered list, `\/ ` a dropdown, `_! `, `*! ` and `!! ` an
//!   admonition, `1# ` to `6# ` a heading and `>> ` a quote. Any other line is
//!   text.
//! - In a form block a line with `???` declares a form field after it:
//!   `identifier:type \property value \property value ...`. Other lines are
//!   read as in the main section.
//! - In the header and the footer a link follows `@@@`. The header takes
//!   nothing else; in the footer any other line is text.
//!
//! Parsing is all or nothing: the first line that breaks a rule ends it with a
//! [`ParseError`], and no document is returned.
//!
//! Every function of the library is verified with Verus against a contract over
//! `Seq<char>`, the view of `str` and `String`. The contracts of the parsers are
//! exact: [`document::scan_of`], [`line_types::line_of`], [`form::field_of`] and
//! [`metadata::MetadataView::with_line`] say what is returned for every text.
//! The modules [`laws`] and [`round_trip`] hold what follows from them for all
//! inputs. Four functions are believed rather than proved, since they call
//! code that is not verified: appending a character to a `String`, reading the
//! clock, `humantime`'s timestamp parser and `email_address`'s validator.

pub mod document;
pub mod email;
pub mod error;
pub mod field;
pub mod form;
pub mod laws;
pub mod line_types;
pub mod metadata;
pub mod number;
pub mod property;
pub mod round_trip;
pub mod text;
pub mod time;

pub use crate::document::{
    parse, parse_at, parse_line, Document, DocumentBuilder, ParserState, Section,
};
pub use crate::error::ParseError;
pub use crate::metadata::{Metadata, MetadataBuilder};
