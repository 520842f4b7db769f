//! Form fields: the ten kinds, their properties, and the parser of a field
//! declaration `identifier:type \property value \property value ...`.

use vstd::prelude::*;
use crate::email::{email_of, EmailText};
use crate::error::ParseError;
use crate::number::{bool_of, i64_of, is_float_text, positive_u32_of, FloatLiteral};
use crate::property::{
    condition_of, has_key, properties, properties_of, value_of, values_of, Key, Property,
};
use crate::text::{chars_of, split_first, string_of};
use crate::time::{date_of, Timestamp};

verus! {

/// `c` may stand in an identifier: an ASCII letter or an underscore.
pub open spec fn is_id_char(c: char) -> bool {
    ('a' <= c && c <= 'z') || ('A' <= c && c <= 'Z') || c == '_'
}

/// `s` is an identifier: it holds ASCII letters and underscores only.
pub open spec fn is_id(s: Seq<char>) -> bool {
    forall|i: int| 0 <= i < s.len() ==> is_id_char(#[trigger] s[i])
}

/// Every one of `names` is an identifier.
pub open spec fn all_ids(names: Seq<Seq<char>>) -> bool {
    forall|i: int| 0 <= i < names.len() ==> is_id(#[trigger] names[i])
}

/// The name of a form field. Two names are equal where their texts are.
#[derive(Debug, Eq)]
pub struct ID {
    id: String,
}

impl PartialEq for ID {
    fn eq(&self, other: &ID) -> (equal: bool) {
        self.id == other.id
    }
}

impl vstd::std_specs::cmp::PartialEqSpecImpl for ID {
    open spec fn obeys_eq_spec() -> bool {
        true
    }

    open spec fn eq_spec(&self, other: &ID) -> bool {
        self@ == other@
    }
}

impl View for ID {
    type V = Seq<char>;

    closed spec fn view(&self) -> Seq<char> {
        self.id@
    }
}

impl DeepView for ID {
    type V = Seq<char>;

    open spec fn deep_view(&self) -> Seq<char> {
        self@
    }
}

impl ID {
    #[verifier::type_invariant]
    spec fn well_formed(&self) -> bool {
        is_id(self.id@)
    }

    /// The identifier that `input` writes. It fails on a character that is
    /// neither an ASCII letter nor an underscore.
    pub fn new(input: &str) -> (r: Result<ID, ParseError>)
        ensures
            match r {
                Ok(id) => is_id(input@) && id@ == input@,
                Err(e) => !is_id(input@) && e == ParseError::InvalidId,
            },
    {
        let chars = chars_of(input);
        ID::from_chars(chars.as_slice())
    }

    /// The identifier that `input` holds.
    pub fn from_chars(input: &[char]) -> (r: Result<ID, ParseError>)
        ensures
            match r {
                Ok(id) => is_id(input@) && id@ == input@,
                Err(e) => !is_id(input@) && e == ParseError::InvalidId,
            },
    {
        let mut i: usize = 0;
        while i < input.len()
            invariant
                i <= input.len(),
                forall|j: int| 0 <= j < i ==> is_id_char(#[trigger] input@[j]),
            decreases input.len() - i,
        {
            let c = input[i];
            if !(('a' <= c && c <= 'z') || ('A' <= c && c <= 'Z') || c == '_') {
                return Err(ParseError::InvalidId);
            }
            i += 1;
        }
        Ok(ID { id: string_of(input) })
    }

    /// A copy of the identifier's text.
    pub fn id_cloned(&self) -> (s: String)
        ensures
            s@ == self@,
            is_id(s@),
    {
        proof {
            use_type_invariant(self);
        }
        self.id.clone()
    }

    /// The identifier's text.
    pub fn id(self) -> (s: String)
        ensures
            s@ == self@,
            is_id(s@),
    {
        proof {
            use_type_invariant(&self);
        }
        self.id
    }
}

/// A field is shown, or asked for, depending on another field.
#[derive(Debug, PartialEq)]
pub struct ConditionalProperty {
    /// The condition holds where the target does not.
    pub inverse: bool,
    /// The field that decides.
    pub target: ID,
}

/// The view of a `ConditionalProperty`.
pub struct ConditionView {
    pub inverse: bool,
    pub target: Seq<char>,
}

impl View for ConditionalProperty {
    type V = ConditionView;

    open spec fn view(&self) -> ConditionView {
        ConditionView { inverse: self.inverse, target: self.target@ }
    }
}

impl DeepView for ConditionalProperty {
    type V = ConditionView;

    open spec fn deep_view(&self) -> ConditionView {
        self@
    }
}

/// The properties that every kind of field but a submit field has.
#[derive(Debug, PartialEq)]
pub struct GlobalProperties<T> {
    pub optional: bool,
    pub label: Option<String>,
    pub default: Option<T>,
    pub conditional: Option<ConditionalProperty>,
}

/// The view of a `GlobalProperties`.
pub struct GlobalView<V> {
    pub optional: bool,
    pub label: Option<Seq<char>>,
    pub default: Option<V>,
    pub conditional: Option<ConditionView>,
}

impl<T: DeepView> View for GlobalProperties<T> {
    type V = GlobalView<T::V>;

    open spec fn view(&self) -> GlobalView<T::V> {
        GlobalView {
            optional: self.optional,
            label: self.label.deep_view(),
            default: self.default.deep_view(),
            conditional: self.conditional.deep_view(),
        }
    }
}

impl<T: DeepView> DeepView for GlobalProperties<T> {
    type V = GlobalView<T::V>;

    open spec fn deep_view(&self) -> GlobalView<T::V> {
        self@
    }
}

/// A button that sends the form.
#[derive(Debug, PartialEq)]
pub struct SubmitField {
    /// Where the form is sent: a URL, which may be relative.
    pub destination: String,
    pub label: Option<String>,
    pub redirect: bool,
}

/// The view of a `SubmitField`.
pub struct SubmitView {
    pub destination: Seq<char>,
    pub label: Option<Seq<char>>,
    pub redirect: bool,
}

impl View for SubmitField {
    type V = SubmitView;

    open spec fn view(&self) -> SubmitView {
        SubmitView {
            destination: self.destination@,
            label: self.label.deep_view(),
            redirect: self.redirect,
        }
    }
}

impl DeepView for SubmitField {
    type V = SubmitView;

    open spec fn deep_view(&self) -> SubmitView {
        self@
    }
}

/// A field for text. Its bounds are positive.
#[derive(Debug, PartialEq)]
pub struct StringField {
    pub global: GlobalProperties<String>,
    pub min: Option<u32>,
    pub max: Option<u32>,
    pub multiline: bool,
    pub secret: bool,
    /// The values to choose from, where the field offers a choice.
    pub variant: Option<Vec<String>>,
}

/// The view of a `StringField`.
pub struct StringView {
    pub global: GlobalView<Seq<char>>,
    pub min: Option<u32>,
    pub max: Option<u32>,
    pub multiline: bool,
    pub secret: bool,
    pub variant: Option<Seq<Seq<char>>>,
}

impl View for StringField {
    type V = StringView;

    open spec fn view(&self) -> StringView {
        StringView {
            global: self.global@,
            min: self.min,
            max: self.max,
            multiline: self.multiline,
            secret: self.secret,
            variant: self.variant.deep_view(),
        }
    }
}

impl DeepView for StringField {
    type V = StringView;

    open spec fn deep_view(&self) -> StringView {
        self@
    }
}

/// A field for a whole number.
#[derive(Debug, PartialEq)]
pub struct IntField {
    pub global: GlobalProperties<i64>,
    pub min: Option<i64>,
    pub max: Option<i64>,
    pub step: Option<i64>,
    pub positive: bool,
}

/// The view of an `IntField`.
pub struct IntView {
    pub global: GlobalView<i64>,
    pub min: Option<i64>,
    pub max: Option<i64>,
    pub step: Option<i64>,
    pub positive: bool,
}

impl View for IntField {
    type V = IntView;

    open spec fn view(&self) -> IntView {
        IntView {
            global: self.global@,
            min: self.min,
            max: self.max,
            step: self.step,
            positive: self.positive,
        }
    }
}

impl DeepView for IntField {
    type V = IntView;

    open spec fn deep_view(&self) -> IntView {
        self@
    }
}

/// A field for a decimal number. Its numbers are kept as they were written.
#[derive(Debug, PartialEq)]
pub struct FloatField {
    pub global: GlobalProperties<FloatLiteral>,
    pub min: Option<FloatLiteral>,
    pub max: Option<FloatLiteral>,
    pub step: Option<FloatLiteral>,
    pub positive: bool,
}

/// The view of a `FloatField`.
pub struct FloatView {
    pub global: GlobalView<Seq<char>>,
    pub min: Option<Seq<char>>,
    pub max: Option<Seq<char>>,
    pub step: Option<Seq<char>>,
    pub positive: bool,
}

impl View for FloatField {
    type V = FloatView;

    open spec fn view(&self) -> FloatView {
        FloatView {
            global: self.global@,
            min: self.min.deep_view(),
            max: self.max.deep_view(),
            step: self.step.deep_view(),
            positive: self.positive,
        }
    }
}

impl DeepView for FloatField {
    type V = FloatView;

    open spec fn deep_view(&self) -> FloatView {
        self@
    }
}

/// A field for a truth value.
#[derive(Debug, PartialEq)]
pub struct BoolField {
    pub global: GlobalProperties<bool>,
}

/// The view of a `BoolField`.
pub struct BoolView {
    pub global: GlobalView<bool>,
}

impl View for BoolField {
    type V = BoolView;

    open spec fn view(&self) -> BoolView {
        BoolView { global: self.global@ }
    }
}

impl DeepView for BoolField {
    type V = BoolView;

    open spec fn deep_view(&self) -> BoolView {
        self@
    }
}

/// A field for a file. It never has a default. Its size bound is positive.
#[derive(Debug, PartialEq)]
pub struct FileField {
    pub global: GlobalProperties<()>,
    pub max: Option<u32>,
    /// The media types that the field takes, where it is restricted to some.
    pub allowed_types: Option<Vec<String>>,
}

/// The view of a `FileField`.
pub struct FileView {
    pub global: GlobalView<()>,
    pub max: Option<u32>,
    pub allowed_types: Option<Seq<Seq<char>>>,
}

impl View for FileField {
    type V = FileView;

    open spec fn view(&self) -> FileView {
        FileView {
            global: self.global@,
            max: self.max,
            allowed_types: self.allowed_types.deep_view(),
        }
    }
}

impl DeepView for FileField {
    type V = FileView;

    open spec fn deep_view(&self) -> FileView {
        self@
    }
}

/// A field that repeats other fields. Its numbers are positive.
#[derive(Debug, PartialEq)]
pub struct ListField {
    pub global: GlobalProperties<u32>,
    pub min: Option<u32>,
    pub max: Option<u32>,
    /// The fields that are repeated.
    pub children: Option<Vec<ID>>,
}

/// The view of a `ListField`.
pub struct ListView {
    pub global: GlobalView<u32>,
    pub min: Option<u32>,
    pub max: Option<u32>,
    pub children: Option<Seq<Seq<char>>>,
}

impl View for ListField {
    type V = ListView;

    open spec fn view(&self) -> ListView {
        ListView {
            global: self.global@,
            min: self.min,
            max: self.max,
            children: self.children.deep_view(),
        }
    }
}

impl DeepView for ListField {
    type V = ListView;

    open spec fn deep_view(&self) -> ListView {
        self@
    }
}

/// A field for a date, a time, or both.
#[derive(Debug, PartialEq)]
pub struct DateField {
    pub global: GlobalProperties<Timestamp>,
    pub min: Option<Timestamp>,
    pub max: Option<Timestamp>,
    pub time: bool,
    pub date: bool,
}

/// The view of a `DateField`.
pub struct DateView {
    pub global: GlobalView<Timestamp>,
    pub min: Option<Timestamp>,
    pub max: Option<Timestamp>,
    pub time: bool,
    pub date: bool,
}

impl View for DateField {
    type V = DateView;

    open spec fn view(&self) -> DateView {
        DateView {
            global: self.global@,
            min: self.min,
            max: self.max,
            time: self.time,
            date: self.date,
        }
    }
}

impl DeepView for DateField {
    type V = DateView;

    open spec fn deep_view(&self) -> DateView {
        self@
    }
}

/// A field for an email address.
#[derive(Debug, PartialEq)]
pub struct EmailField {
    pub global: GlobalProperties<EmailText>,
}

/// The view of an `EmailField`.
pub struct EmailView {
    pub global: GlobalView<Seq<char>>,
}

impl View for EmailField {
    type V = EmailView;

    open spec fn view(&self) -> EmailView {
        EmailView { global: self.global@ }
    }
}

impl DeepView for EmailField {
    type V = EmailView;

    open spec fn deep_view(&self) -> EmailView {
        self@
    }
}

/// A field for a phone number, which is taken as it is written.
#[derive(Debug, PartialEq)]
pub struct TelField {
    pub global: GlobalProperties<String>,
    pub country: Option<String>,
}

/// The view of a `TelField`.
pub struct TelView {
    pub global: GlobalView<Seq<char>>,
    pub country: Option<Seq<char>>,
}

impl View for TelField {
    type V = TelView;

    open spec fn view(&self) -> TelView {
        TelView { global: self.global@, country: self.country.deep_view() }
    }
}

impl DeepView for TelField {
    type V = TelView;

    open spec fn deep_view(&self) -> TelView {
        self@
    }
}

/// A form field: its name and what its kind holds.
#[derive(Debug, PartialEq)]
pub enum FormField {
    Submit(ID, SubmitField),
    String(ID, StringField),
    Integer(ID, IntField),
    Float(ID, FloatField),
    Boolean(ID, BoolField),
    File(ID, FileField),
    List(ID, ListField),
    Date(ID, DateField),
    Email(ID, EmailField),
    Phone(ID, TelField),
}

/// The view of a `FormField`.
pub enum FieldView {
    Submit(Seq<char>, SubmitView),
    String(Seq<char>, StringView),
    Integer(Seq<char>, IntView),
    Float(Seq<char>, FloatView),
    Boolean(Seq<char>, BoolView),
    File(Seq<char>, FileView),
    List(Seq<char>, ListView),
    Date(Seq<char>, DateView),
    Email(Seq<char>, EmailView),
    Phone(Seq<char>, TelView),
}

impl View for FormField {
    type V = FieldView;

    open spec fn view(&self) -> FieldView {
        match self {
            FormField::Submit(id, f) => FieldView::Submit(id@, f@),
            FormField::String(id, f) => FieldView::String(id@, f@),
            FormField::Integer(id, f) => FieldView::Integer(id@, f@),
            FormField::Float(id, f) => FieldView::Float(id@, f@),
            FormField::Boolean(id, f) => FieldView::Boolean(id@, f@),
            FormField::File(id, f) => FieldView::File(id@, f@),
            FormField::List(id, f) => FieldView::List(id@, f@),
            FormField::Date(id, f) => FieldView::Date(id@, f@),
            FormField::Email(id, f) => FieldView::Email(id@, f@),
            FormField::Phone(id, f) => FieldView::Phone(id@, f@),
        }
    }
}

impl DeepView for FormField {
    type V = FieldView;

    open spec fn deep_view(&self) -> FieldView {
        self@
    }
}

/// The properties that every kind has, read from `props`; `default` is the
/// default that the kind has read. A condition whose target is no identifier is
/// an error.
pub open spec fn global_of<V>(props: Seq<Property>, default: Option<V>) -> Result<
    GlobalView<V>,
    ParseError,
> {
    match condition_of(props) {
        Some((inverse, target)) => if is_id(target) {
            Ok(
                GlobalView {
                    optional: has_key(props, Key::Optional),
                    label: value_of(props, Key::Label),
                    default,
                    conditional: Some(ConditionView { inverse, target }),
                },
            )
        } else {
            Err(ParseError::InvalidConditionTarget)
        },
        None => Ok(
            GlobalView {
                optional: has_key(props, Key::Optional),
                label: value_of(props, Key::Label),
                default,
                conditional: None,
            },
        ),
    }
}

/// The value that a property was read as: none where the property is absent,
/// `error` where its value could not be read.
pub open spec fn checked<V>(value: Option<Seq<char>>, reading: Option<V>, error: ParseError) -> Result<
    Option<V>,
    ParseError,
> {
    match value {
        None => Ok(None),
        Some(_) => match reading {
            Some(v) => Ok(Some(v)),
            None => Err(error),
        },
    }
}

/// What `text` is read as, where a property has this value.
pub open spec fn reading<V>(value: Option<Seq<char>>, read: spec_fn(Seq<char>) -> Option<V>) -> Option<V> {
    match value {
        Some(text) => read(text),
        None => None,
    }
}

/// The positive number that the first property with the key `key` writes.
pub open spec fn bound_of(props: Seq<Property>, key: Key) -> Result<Option<u32>, ParseError> {
    let value = value_of(props, key);
    checked(value, reading(value, |t: Seq<char>| positive_u32_of(t)), ParseError::InvalidBound)
}

/// The positive number that the first property of a list field with the key
/// `key` writes.
pub open spec fn list_bound_of(props: Seq<Property>, key: Key) -> Result<Option<u32>, ParseError> {
    let value = value_of(props, key);
    checked(value, reading(value, |t: Seq<char>| positive_u32_of(t)), ParseError::InvalidListBound)
}

/// The integer that the first property with the key `key` writes.
pub open spec fn int_of(props: Seq<Property>, key: Key) -> Result<Option<i64>, ParseError> {
    let value = value_of(props, key);
    checked(value, reading(value, |t: Seq<char>| i64_of(t)), ParseError::InvalidInteger)
}

/// The floating-point literal that the text is, if it is one.
pub open spec fn float_of_text(text: Seq<char>) -> Option<Seq<char>> {
    if is_float_text(text) {
        Some(text)
    } else {
        None
    }
}

/// The floating-point literal that the first property with the key `key` writes.
pub open spec fn float_of(props: Seq<Property>, key: Key) -> Result<Option<Seq<char>>, ParseError> {
    let value = value_of(props, key);
    checked(value, reading(value, |t: Seq<char>| float_of_text(t)), ParseError::InvalidFloat)
}

/// The time that the first property with the key `key` writes.
pub open spec fn time_of(props: Seq<Property>, key: Key, now: Timestamp) -> Result<
    Option<Timestamp>,
    ParseError,
> {
    let value = value_of(props, key);
    checked(value, reading(value, |t: Seq<char>| date_of(t, now)), ParseError::InvalidDate)
}

/// The values of the properties with the key `key`, where there is such a property.
pub open spec fn listed(props: Seq<Property>, key: Key) -> Option<Seq<Seq<char>>> {
    if has_key(props, key) {
        Some(values_of(props, key))
    } else {
        None
    }
}

/// The children of a list field: every one must be an identifier.
pub open spec fn children_of(props: Seq<Property>) -> Result<Option<Seq<Seq<char>>>, ParseError> {
    if !has_key(props, Key::Child) {
        Ok(None)
    } else if all_ids(values_of(props, Key::Child)) {
        Ok(Some(values_of(props, Key::Child)))
    } else {
        Err(ParseError::InvalidChildId)
    }
}

/// The submit field that `props` describe. It needs a destination.
pub open spec fn submit_of(props: Seq<Property>) -> Result<SubmitView, ParseError> {
    match value_of(props, Key::Destination) {
        Some(destination) => Ok(
            SubmitView {
                destination,
                label: value_of(props, Key::Label),
                redirect: has_key(props, Key::Redirect),
            },
        ),
        None => Err(ParseError::MissingDestination),
    }
}

/// The string field that `props` describe.
pub open spec fn string_field_of(props: Seq<Property>) -> Result<StringView, ParseError> {
    let global = global_of(props, value_of(props, Key::Default));
    let min = bound_of(props, Key::Min);
    let max = bound_of(props, Key::Max);
    if global is Err {
        Err(global->Err_0)
    } else if min is Err {
        Err(min->Err_0)
    } else if max is Err {
        Err(max->Err_0)
    } else {
        Ok(
            StringView {
                global: global->Ok_0,
                min: min->Ok_0,
                max: max->Ok_0,
                multiline: has_key(props, Key::Multiline),
                secret: has_key(props, Key::Secret),
                variant: listed(props, Key::Variant),
            },
        )
    }
}

/// The integer field that `props` describe.
pub open spec fn int_field_of(props: Seq<Property>) -> Result<IntView, ParseError> {
    let default = int_of(props, Key::Default);
    let global = global_of(props, default->Ok_0);
    let min = int_of(props, Key::Min);
    let max = int_of(props, Key::Max);
    let step = int_of(props, Key::Step);
    if default is Err {
        Err(default->Err_0)
    } else if global is Err {
        Err(global->Err_0)
    } else if min is Err {
        Err(min->Err_0)
    } else if max is Err {
        Err(max->Err_0)
    } else if step is Err {
        Err(step->Err_0)
    } else {
        Ok(
            IntView {
                global: global->Ok_0,
                min: min->Ok_0,
                max: max->Ok_0,
                step: step->Ok_0,
                positive: has_key(props, Key::Positive),
            },
        )
    }
}

/// The float field that `props` describe.
pub open spec fn float_field_of(props: Seq<Property>) -> Result<FloatView, ParseError> {
    let default = float_of(props, Key::Default);
    let global = global_of(props, default->Ok_0);
    let min = float_of(props, Key::Min);
    let max = float_of(props, Key::Max);
    let step = float_of(props, Key::Step);
    if default is Err {
        Err(default->Err_0)
    } else if global is Err {
        Err(global->Err_0)
    } else if min is Err {
        Err(min->Err_0)
    } else if max is Err {
        Err(max->Err_0)
    } else if step is Err {
        Err(step->Err_0)
    } else {
        Ok(
            FloatView {
                global: global->Ok_0,
                min: min->Ok_0,
                max: max->Ok_0,
                step: step->Ok_0,
                positive: has_key(props, Key::Positive),
            },
        )
    }
}

/// The boolean field that `props` describe.
pub open spec fn bool_field_of(props: Seq<Property>) -> Result<BoolView, ParseError> {
    let value = value_of(props, Key::Default);
    let default = checked(value, reading(value, |t: Seq<char>| bool_of(t)), ParseError::InvalidBoolean);
    let global = global_of(props, default->Ok_0);
    if default is Err {
        Err(default->Err_0)
    } else if global is Err {
        Err(global->Err_0)
    } else {
        Ok(BoolView { global: global->Ok_0 })
    }
}

/// The file field that `props` describe. A default is an error.
pub open spec fn file_field_of(props: Seq<Property>) -> Result<FileView, ParseError> {
    let global = global_of(props, None::<()>);
    let max = bound_of(props, Key::Max);
    if has_key(props, Key::Default) {
        Err(ParseError::FileDefault)
    } else if global is Err {
        Err(global->Err_0)
    } else if max is Err {
        Err(max->Err_0)
    } else {
        Ok(
            FileView {
                global: global->Ok_0,
                max: max->Ok_0,
                allowed_types: listed(props, Key::MimeType),
            },
        )
    }
}

/// The list field that `props` describe.
pub open spec fn list_field_of(props: Seq<Property>) -> Result<ListView, ParseError> {
    let default = list_bound_of(props, Key::Default);
    let global = global_of(props, default->Ok_0);
    let min = list_bound_of(props, Key::Min);
    let max = list_bound_of(props, Key::Max);
    let children = children_of(props);
    if default is Err {
        Err(default->Err_0)
    } else if global is Err {
        Err(global->Err_0)
    } else if min is Err {
        Err(min->Err_0)
    } else if max is Err {
        Err(max->Err_0)
    } else if children is Err {
        Err(children->Err_0)
    } else {
        Ok(
            ListView {
                global: global->Ok_0,
                min: min->Ok_0,
                max: max->Ok_0,
                children: children->Ok_0,
            },
        )
    }
}

/// The date field that `props` describe, where `now` is the time of parsing.
pub open spec fn date_field_of(props: Seq<Property>, now: Timestamp) -> Result<DateView, ParseError> {
    let default = time_of(props, Key::Default, now);
    let global = global_of(props, default->Ok_0);
    let min = time_of(props, Key::Min, now);
    let max = time_of(props, Key::Max, now);
    if default is Err {
        Err(default->Err_0)
    } else if global is Err {
        Err(global->Err_0)
    } else if min is Err {
        Err(min->Err_0)
    } else if max is Err {
        Err(max->Err_0)
    } else {
        Ok(
            DateView {
                global: global->Ok_0,
                min: min->Ok_0,
                max: max->Ok_0,
                time: has_key(props, Key::Time),
                date: has_key(props, Key::Date),
            },
        )
    }
}

/// The email field that `props` describe.
pub open spec fn email_field_of(props: Seq<Property>) -> Result<EmailView, ParseError> {
    let value = value_of(props, Key::Default);
    let default = checked(value, reading(value, |t: Seq<char>| email_of(t)), ParseError::InvalidEmail);
    let global = global_of(props, default->Ok_0);
    if default is Err {
        Err(default->Err_0)
    } else if global is Err {
        Err(global->Err_0)
    } else {
        Ok(EmailView { global: global->Ok_0 })
    }
}

/// The phone field that `props` describe.
pub open spec fn tel_field_of(props: Seq<Property>) -> Result<TelView, ParseError> {
    let global = global_of(props, value_of(props, Key::Default));
    if global is Err {
        Err(global->Err_0)
    } else {
        Ok(TelView { global: global->Ok_0, country: value_of(props, Key::Country) })
    }
}

/// The field named `id` of the kind that `keyword` names, with the properties `props`.
pub open spec fn field_of_kind(
    id: Seq<char>,
    keyword: Seq<char>,
    props: Seq<Property>,
    now: Timestamp,
) -> Result<FieldView, ParseError> {
    if keyword == "submit"@ {
        match submit_of(props) {
            Ok(f) => Ok(FieldView::Submit(id, f)),
            Err(e) => Err(e),
        }
    } else if keyword == "string"@ {
        match string_field_of(props) {
            Ok(f) => Ok(FieldView::String(id, f)),
            Err(e) => Err(e),
        }
    } else if keyword == "int"@ {
        match int_field_of(props) {
            Ok(f) => Ok(FieldView::Integer(id, f)),
            Err(e) => Err(e),
        }
    } else if keyword == "float"@ {
        match float_field_of(props) {
            Ok(f) => Ok(FieldView::Float(id, f)),
            Err(e) => Err(e),
        }
    } else if keyword == "bool"@ {
        match bool_field_of(props) {
            Ok(f) => Ok(FieldView::Boolean(id, f)),
            Err(e) => Err(e),
        }
    } else if keyword == "file"@ {
        match file_field_of(props) {
            Ok(f) => Ok(FieldView::File(id, f)),
            Err(e) => Err(e),
        }
    } else if keyword == "list"@ {
        match list_field_of(props) {
            Ok(f) => Ok(FieldView::List(id, f)),
            Err(e) => Err(e),
        }
    } else if keyword == "date"@ {
        match date_field_of(props, now) {
            Ok(f) => Ok(FieldView::Date(id, f)),
            Err(e) => Err(e),
        }
    } else if keyword == "email"@ {
        match email_field_of(props) {
            Ok(f) => Ok(FieldView::Email(id, f)),
            Err(e) => Err(e),
        }
    } else if keyword == "tel"@ {
        match tel_field_of(props) {
            Ok(f) => Ok(FieldView::Phone(id, f)),
            Err(e) => Err(e),
        }
    } else {
        Err(ParseError::InvalidFieldType)
    }
}

/// The type keyword of a declaration and the text of its properties: what
/// follows the first colon, split at the first space and backslash.
pub open spec fn kind_and_tail(rest: Seq<char>) -> (Seq<char>, Seq<char>) {
    match split_first(rest, " \\"@) {
        Some(parts) => parts,
        None => (rest, Seq::empty()),
    }
}

/// The form field that the declaration `input` describes, where `now` is the
/// time of parsing: the identifier ends at the first colon, the type keyword at
/// the first space and backslash, and the properties follow.
pub open spec fn field_of(input: Seq<char>, now: Timestamp) -> Result<FieldView, ParseError> {
    match split_first(input, ":"@) {
        None => Err(ParseError::MissingFieldId),
        Some((id, rest)) => if !is_id(id) {
            Err(ParseError::InvalidId)
        } else {
            field_of_kind(id, kind_and_tail(rest).0, properties_of(kind_and_tail(rest).1), now)
        },
    }
}

} // verus!
