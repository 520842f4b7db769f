//! Reading form fields: from the properties of a declaration to the record of
//! its kind, and from the text of a declaration to the field.

use vstd::prelude::*;
use crate::email::EmailText;
use crate::error::{read_as, ParseError};
use crate::form::{
    bool_field_of, bound_of, children_of, date_field_of, email_field_of, field_of, field_of_kind,
    file_field_of, float_field_of, float_of, global_of, int_field_of, int_of, is_id,
    list_bound_of, list_field_of, listed, string_field_of, submit_of, tel_field_of, time_of,
    BoolField, ConditionalProperty, DateField, EmailField, FileField, FloatField, FormField,
    GlobalProperties, IntField, ListField, StringField, SubmitField, TelField, ID,
};
use crate::number::{parse_bool, parse_i64, parse_positive_u32, FloatLiteral};
use crate::property::{
    has_key, lookup, lookup_all, lookup_condition, present, properties, texts, tokenize,
    value_of, values_of, Key, Token,
};
use crate::text::{chars_of, is_text, split_once, string_of};
use crate::time::Timestamp;

verus! {

/// The text of a property, as a string of its own.
fn text_property<'a>(tokens: &Vec<Token<'a>>, key: Key) -> (r: Option<String>)
    ensures
        r.deep_view() == value_of(properties(tokens@), key),
{
    match lookup(tokens, key) {
        Some(v) => Some(string_of(v)),
        None => None,
    }
}

/// The texts of the slices, as strings of their own.
fn owned_texts<'a>(parts: &Vec<&'a [char]>) -> (r: Vec<String>)
    ensures
        r.deep_view() == texts(parts@),
{
    let mut out: Vec<String> = Vec::new();
    let mut i: usize = 0;
    while i < parts.len()
        invariant
            i <= parts.len(),
            out@.len() == i,
            forall|k: int| 0 <= k < i ==> (#[trigger] out@[k])@ == parts@[k]@,
        decreases parts.len() - i,
    {
        out.push(string_of(parts[i]));
        i += 1;
    }
    assert(out.deep_view() =~= texts(parts@));
    out
}

/// The values of a property that may be repeated.
fn list_property<'a>(tokens: &Vec<Token<'a>>, key: Key) -> (r: Option<Vec<String>>)
    ensures
        r.deep_view() == listed(properties(tokens@), key),
{
    if present(tokens, key) {
        let parts = lookup_all(tokens, key);
        Some(owned_texts(&parts))
    } else {
        None
    }
}

/// The positive number of a property.
fn bound_property<'a>(tokens: &Vec<Token<'a>>, key: Key) -> (r: Result<Option<u32>, ParseError>)
    ensures
        r == bound_of(properties(tokens@), key),
{
    match lookup(tokens, key) {
        Some(v) => match parse_positive_u32(v) {
            Some(n) => Ok(Some(n)),
            None => Err(ParseError::InvalidBound),
        },
        None => Ok(None),
    }
}

/// The positive number of a property of a list field.
fn list_bound_property<'a>(tokens: &Vec<Token<'a>>, key: Key) -> (r: Result<
    Option<u32>,
    ParseError,
>)
    ensures
        r == list_bound_of(properties(tokens@), key),
{
    match lookup(tokens, key) {
        Some(v) => match parse_positive_u32(v) {
            Some(n) => Ok(Some(n)),
            None => Err(ParseError::InvalidListBound),
        },
        None => Ok(None),
    }
}

/// The integer of a property.
fn int_property<'a>(tokens: &Vec<Token<'a>>, key: Key) -> (r: Result<Option<i64>, ParseError>)
    ensures
        r == int_of(properties(tokens@), key),
{
    match lookup(tokens, key) {
        Some(v) => match parse_i64(v) {
            Some(n) => Ok(Some(n)),
            None => Err(ParseError::InvalidInteger),
        },
        None => Ok(None),
    }
}

/// The floating-point literal of a property.
fn float_property<'a>(tokens: &Vec<Token<'a>>, key: Key) -> (r: Result<
    Option<FloatLiteral>,
    ParseError,
>)
    ensures
        read_as(r) == float_of(properties(tokens@), key),
{
    match lookup(tokens, key) {
        Some(v) => match FloatLiteral::new(v) {
            Some(f) => Ok(Some(f)),
            None => Err(ParseError::InvalidFloat),
        },
        None => Ok(None),
    }
}

/// The time of a property.
fn time_property<'a>(tokens: &Vec<Token<'a>>, key: Key, now: Timestamp) -> (r: Result<
    Option<Timestamp>,
    ParseError,
>)
    ensures
        r == time_of(properties(tokens@), key, now),
{
    match lookup(tokens, key) {
        Some(v) => match Timestamp::parse(v, now) {
            Some(t) => Ok(Some(t)),
            None => Err(ParseError::InvalidDate),
        },
        None => Ok(None),
    }
}

/// The children of a list field.
fn children_property<'a>(tokens: &Vec<Token<'a>>) -> (r: Result<Option<Vec<ID>>, ParseError>)
    ensures
        read_as(r) == children_of(properties(tokens@)),
{
    if !present(tokens, Key::Child) {
        return Ok(None);
    }
    let parts = lookup_all(tokens, Key::Child);
    let ghost names = values_of(properties(tokens@), Key::Child);
    let mut ids: Vec<ID> = Vec::new();
    let mut i: usize = 0;
    while i < parts.len()
        invariant
            i <= parts.len(),
            has_key(properties(tokens@), Key::Child),
            names == values_of(properties(tokens@), Key::Child),
            names == texts(parts@),
            ids@.len() == i,
            forall|k: int| 0 <= k < i ==> (#[trigger] ids@[k])@ == names[k],
            forall|k: int| 0 <= k < i ==> is_id(#[trigger] names[k]),
        decreases parts.len() - i,
    {
        match ID::from_chars(parts[i]) {
            Ok(id) => {
                assert(names[i as int] == parts@[i as int]@);
                ids.push(id);
            },
            Err(_) => {
                assert(names[i as int] == parts@[i as int]@);
                return Err(ParseError::InvalidChildId);
            },
        }
        i += 1;
    }
    assert(ids.deep_view() =~= names);
    Ok(Some(ids))
}

impl<T: DeepView> GlobalProperties<T> {
    /// Reads the properties that every kind has. The kind has read `default`
    /// before. It fails on a condition whose target is no identifier.
    pub fn parse<'a>(tokens: &Vec<Token<'a>>, default: Option<T>) -> (r: Result<
        GlobalProperties<T>,
        ParseError,
    >)
        ensures
            read_as(r) == global_of(properties(tokens@), default.deep_view()),
    {
        let optional = present(tokens, Key::Optional);
        let label = text_property(tokens, Key::Label);
        let conditional = match lookup_condition(tokens) {
            Some((inverse, v)) => match ID::from_chars(v) {
                Ok(target) => Some(ConditionalProperty { inverse, target }),
                Err(_) => {
                    return Err(ParseError::InvalidConditionTarget);
                },
            },
            None => None,
        };
        Ok(GlobalProperties { optional, label, default, conditional })
    }
}

impl SubmitField {
    /// Reads a submit field from its properties.
    pub fn from_tokens<'a>(tokens: &Vec<Token<'a>>) -> (r: Result<SubmitField, ParseError>)
        ensures
            read_as(r) == submit_of(properties(tokens@)),
    {
        let destination = match lookup(tokens, Key::Destination) {
            Some(v) => string_of(v),
            None => {
                return Err(ParseError::MissingDestination);
            },
        };
        let label = text_property(tokens, Key::Label);
        let redirect = present(tokens, Key::Redirect);
        Ok(SubmitField { destination, label, redirect })
    }
}

impl StringField {
    /// Reads a string field from its properties.
    pub fn from_tokens<'a>(tokens: &Vec<Token<'a>>) -> (r: Result<StringField, ParseError>)
        ensures
            read_as(r) == string_field_of(properties(tokens@)),
    {
        let default = text_property(tokens, Key::Default);
        let global = match GlobalProperties::parse(tokens, default) {
            Ok(g) => g,
            Err(e) => {
                return Err(e);
            },
        };
        let min = match bound_property(tokens, Key::Min) {
            Ok(v) => v,
            Err(e) => {
                return Err(e);
            },
        };
        let max = match bound_property(tokens, Key::Max) {
            Ok(v) => v,
            Err(e) => {
                return Err(e);
            },
        };
        let multiline = present(tokens, Key::Multiline);
        let secret = present(tokens, Key::Secret);
        let variant = list_property(tokens, Key::Variant);
        Ok(StringField { global, min, max, multiline, secret, variant })
    }
}

impl IntField {
    /// Reads an integer field from its properties.
    pub fn from_tokens<'a>(tokens: &Vec<Token<'a>>) -> (r: Result<IntField, ParseError>)
        ensures
            read_as(r) == int_field_of(properties(tokens@)),
    {
        let default = match int_property(tokens, Key::Default) {
            Ok(v) => v,
            Err(e) => {
                return Err(e);
            },
        };
        let global = match GlobalProperties::parse(tokens, default) {
            Ok(g) => g,
            Err(e) => {
                return Err(e);
            },
        };
        let min = match int_property(tokens, Key::Min) {
            Ok(v) => v,
            Err(e) => {
                return Err(e);
            },
        };
        let max = match int_property(tokens, Key::Max) {
            Ok(v) => v,
            Err(e) => {
                return Err(e);
            },
        };
        let step = match int_property(tokens, Key::Step) {
            Ok(v) => v,
            Err(e) => {
                return Err(e);
            },
        };
        let positive = present(tokens, Key::Positive);
        Ok(IntField { global, min, max, step, positive })
    }
}

impl FloatField {
    /// Reads a float field from its properties.
    pub fn from_tokens<'a>(tokens: &Vec<Token<'a>>) -> (r: Result<FloatField, ParseError>)
        ensures
            read_as(r) == float_field_of(properties(tokens@)),
    {
        let default = match float_property(tokens, Key::Default) {
            Ok(v) => v,
            Err(e) => {
                return Err(e);
            },
        };
        let global = match GlobalProperties::parse(tokens, default) {
            Ok(g) => g,
            Err(e) => {
                return Err(e);
            },
        };
        let min = match float_property(tokens, Key::Min) {
            Ok(v) => v,
            Err(e) => {
                return Err(e);
            },
        };
        let max = match float_property(tokens, Key::Max) {
            Ok(v) => v,
            Err(e) => {
                return Err(e);
            },
        };
        let step = match float_property(tokens, Key::Step) {
            Ok(v) => v,
            Err(e) => {
                return Err(e);
            },
        };
        let positive = present(tokens, Key::Positive);
        Ok(FloatField { global, min, max, step, positive })
    }
}

impl BoolField {
    /// Reads a boolean field from its properties.
    pub fn from_tokens<'a>(tokens: &Vec<Token<'a>>) -> (r: Result<BoolField, ParseError>)
        ensures
            read_as(r) == bool_field_of(properties(tokens@)),
    {
        let default = match lookup(tokens, Key::Default) {
            Some(v) => match parse_bool(v) {
                Some(b) => Some(b),
                None => {
                    return Err(ParseError::InvalidBoolean);
                },
            },
            None => None,
        };
        match GlobalProperties::parse(tokens, default) {
            Ok(global) => Ok(BoolField { global }),
            Err(e) => Err(e),
        }
    }
}

impl FileField {
    /// Reads a file field from its properties. A default is an error.
    pub fn from_tokens<'a>(tokens: &Vec<Token<'a>>) -> (r: Result<FileField, ParseError>)
        ensures
            read_as(r) == file_field_of(properties(tokens@)),
    {
        if present(tokens, Key::Default) {
            return Err(ParseError::FileDefault);
        }
        let global = match GlobalProperties::<()>::parse(tokens, None) {
            Ok(g) => g,
            Err(e) => {
                return Err(e);
            },
        };
        let max = match bound_property(tokens, Key::Max) {
            Ok(v) => v,
            Err(e) => {
                return Err(e);
            },
        };
        let allowed_types = list_property(tokens, Key::MimeType);
        Ok(FileField { global, max, allowed_types })
    }
}

impl ListField {
    /// Reads a list field from its properties.
    pub fn from_tokens<'a>(tokens: &Vec<Token<'a>>) -> (r: Result<ListField, ParseError>)
        ensures
            read_as(r) == list_field_of(properties(tokens@)),
    {
        let default = match list_bound_property(tokens, Key::Default) {
            Ok(v) => v,
            Err(e) => {
                return Err(e);
            },
        };
        let global = match GlobalProperties::parse(tokens, default) {
            Ok(g) => g,
            Err(e) => {
                return Err(e);
            },
        };
        let min = match list_bound_property(tokens, Key::Min) {
            Ok(v) => v,
            Err(e) => {
                return Err(e);
            },
        };
        let max = match list_bound_property(tokens, Key::Max) {
            Ok(v) => v,
            Err(e) => {
                return Err(e);
            },
        };
        let children = match children_property(tokens) {
            Ok(v) => v,
            Err(e) => {
                return Err(e);
            },
        };
        Ok(ListField { global, min, max, children })
    }
}

impl DateField {
    /// Reads a date field from its properties; `now` is the time that `now` writes.
    pub fn from_tokens<'a>(tokens: &Vec<Token<'a>>, now: Timestamp) -> (r: Result<
        DateField,
        ParseError,
    >)
        ensures
            read_as(r) == date_field_of(properties(tokens@), now),
    {
        let default = match time_property(tokens, Key::Default, now) {
            Ok(v) => v,
            Err(e) => {
                return Err(e);
            },
        };
        let global = match GlobalProperties::parse(tokens, default) {
            Ok(g) => g,
            Err(e) => {
                return Err(e);
            },
        };
        let min = match time_property(tokens, Key::Min, now) {
            Ok(v) => v,
            Err(e) => {
                return Err(e);
            },
        };
        let max = match time_property(tokens, Key::Max, now) {
            Ok(v) => v,
            Err(e) => {
                return Err(e);
            },
        };
        let time = present(tokens, Key::Time);
        let date = present(tokens, Key::Date);
        Ok(DateField { global, min, max, time, date })
    }
}

impl EmailField {
    /// Reads an email field from its properties.
    pub fn from_tokens<'a>(tokens: &Vec<Token<'a>>) -> (r: Result<EmailField, ParseError>)
        ensures
            read_as(r) == email_field_of(properties(tokens@)),
    {
        let default = match lookup(tokens, Key::Default) {
            Some(v) => match EmailText::new(v) {
                Some(address) => Some(address),
                None => {
                    return Err(ParseError::InvalidEmail);
                },
            },
            None => None,
        };
        match GlobalProperties::parse(tokens, default) {
            Ok(global) => Ok(EmailField { global }),
            Err(e) => Err(e),
        }
    }
}

impl TelField {
    /// Reads a phone field from its properties.
    pub fn from_tokens<'a>(tokens: &Vec<Token<'a>>) -> (r: Result<TelField, ParseError>)
        ensures
            read_as(r) == tel_field_of(properties(tokens@)),
    {
        let default = text_property(tokens, Key::Default);
        let global = match GlobalProperties::parse(tokens, default) {
            Ok(g) => g,
            Err(e) => {
                return Err(e);
            },
        };
        let country = text_property(tokens, Key::Country);
        Ok(TelField { global, country })
    }
}

impl FormField {
    /// Reads the field named `id` of the kind that `keyword` names from its
    /// properties. It fails on a keyword that names no kind.
    pub fn of_kind<'a>(id: ID, keyword: &[char], tokens: &Vec<Token<'a>>, now: Timestamp) -> (r:
        Result<FormField, ParseError>)
        ensures
            read_as(r) == field_of_kind(id@, keyword@, properties(tokens@), now),
    {
        if is_text(keyword, "submit") {
            match SubmitField::from_tokens(&tokens) {
                Ok(f) => Ok(FormField::Submit(id, f)),
                Err(e) => Err(e),
            }
        } else if is_text(keyword, "string") {
            match StringField::from_tokens(&tokens) {
                Ok(f) => Ok(FormField::String(id, f)),
                Err(e) => Err(e),
            }
        } else if is_text(keyword, "int") {
            match IntField::from_tokens(&tokens) {
                Ok(f) => Ok(FormField::Integer(id, f)),
                Err(e) => Err(e),
            }
        } else if is_text(keyword, "float") {
            match FloatField::from_tokens(&tokens) {
                Ok(f) => Ok(FormField::Float(id, f)),
                Err(e) => Err(e),
            }
        } else if is_text(keyword, "bool") {
            match BoolField::from_tokens(&tokens) {
                Ok(f) => Ok(FormField::Boolean(id, f)),
                Err(e) => Err(e),
            }
        } else if is_text(keyword, "file") {
            match FileField::from_tokens(&tokens) {
                Ok(f) => Ok(FormField::File(id, f)),
                Err(e) => Err(e),
            }
        } else if is_text(keyword, "list") {
            match ListField::from_tokens(&tokens) {
                Ok(f) => Ok(FormField::List(id, f)),
                Err(e) => Err(e),
            }
        } else if is_text(keyword, "date") {
            match DateField::from_tokens(&tokens, now) {
                Ok(f) => Ok(FormField::Date(id, f)),
                Err(e) => Err(e),
            }
        } else if is_text(keyword, "email") {
            match EmailField::from_tokens(&tokens) {
                Ok(f) => Ok(FormField::Email(id, f)),
                Err(e) => Err(e),
            }
        } else if is_text(keyword, "tel") {
            match TelField::from_tokens(&tokens) {
                Ok(f) => Ok(FormField::Phone(id, f)),
                Err(e) => Err(e),
            }
        } else {
            Err(ParseError::InvalidFieldType)
        }
    }

    /// Reads the declaration of a form field,
    /// `identifier:type \property value \property value ...`,
    /// where `now` is the time that the value `now` of a date property writes.
    pub fn from_chars(input: &[char], now: Timestamp) -> (r: Result<FormField, ParseError>)
        ensures
            read_as(r) == field_of(input@, now),
    {
        let colon = chars_of(":");
        let (name, rest) = match split_once(input, colon.as_slice()) {
            Some(parts) => parts,
            None => {
                return Err(ParseError::MissingFieldId);
            },
        };
        let id = match ID::from_chars(name) {
            Ok(id) => id,
            Err(e) => {
                return Err(e);
            },
        };
        let mark = chars_of(" \\");
        let (keyword, tail) = match split_once(rest, mark.as_slice()) {
            Some(parts) => parts,
            None => {
                let empty = vstd::slice::slice_subrange(rest, 0, 0);
                assert(empty@ =~= Seq::<char>::empty());
                (rest, empty)
            },
        };
        let tokens = tokenize(tail);
        FormField::of_kind(id, keyword, &tokens, now)
    }

    /// Reads the declaration of a form field, where `now` is the time that the
    /// value `now` of a date property writes.
    pub fn parse_at(input: &str, now: Timestamp) -> (r: Result<FormField, ParseError>)
        ensures
            read_as(r) == field_of(input@, now),
    {
        let chars = chars_of(input);
        FormField::from_chars(chars.as_slice(), now)
    }

    /// Reads the declaration of a form field. The value `now` of a date property
    /// writes the time at which this function is called.
    pub fn parse(input: &str) -> (r: Result<FormField, ParseError>)
        ensures
            exists|now: Timestamp| now.well_formed() && read_as(r) == field_of(input@, now),
    {
        let now = Timestamp::now();
        FormField::parse_at(input, now)
    }
}

} // verus!
