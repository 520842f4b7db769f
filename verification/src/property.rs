//! The properties of a form field: the tokens of the text that follows its type,
//! each a name with an optional value.

use vstd::prelude::*;
use crate::text::{chars_of, is_text, lemma_first_occurrence, split_first, split_once};

verus! {

/// What a property name stands for. A name and its shorthand stand for the same.
#[derive(Clone, Copy, Debug, PartialEq, Eq, Structural)]
pub enum Key {
    /// `optional` or `?`.
    Optional,
    /// `label` or `l`.
    Label,
    /// `default` or `d`.
    Default,
    /// `conditional` or `c`.
    Conditional,
    /// `!conditional` or `!c`.
    NotConditional,
    /// `destination` or `dest`.
    Destination,
    /// `redirect`.
    Redirect,
    /// `min`.
    Min,
    /// `max`.
    Max,
    /// `step`.
    Step,
    /// `positive`.
    Positive,
    /// `multiline`.
    Multiline,
    /// `secret`.
    Secret,
    /// `variant` or `e`.
    Variant,
    /// `type`.
    MimeType,
    /// `child`.
    Child,
    /// `date`.
    Date,
    /// `time`.
    Time,
    /// `country`.
    Country,
    /// Any other name.
    Other,
}

/// A property: what its name stands for, and its value, empty where none is written.
pub struct Property {
    pub key: Key,
    pub value: Seq<char>,
}

/// What the name `name` stands for.
pub open spec fn key_of(name: Seq<char>) -> Key {
    if name == "optional"@ || name == "?"@ {
        Key::Optional
    } else if name == "label"@ || name == "l"@ {
        Key::Label
    } else if name == "default"@ || name == "d"@ {
        Key::Default
    } else if name == "conditional"@ || name == "c"@ {
        Key::Conditional
    } else if name == "!conditional"@ || name == "!c"@ {
        Key::NotConditional
    } else if name == "destination"@ || name == "dest"@ {
        Key::Destination
    } else if name == "redirect"@ {
        Key::Redirect
    } else if name == "min"@ {
        Key::Min
    } else if name == "max"@ {
        Key::Max
    } else if name == "step"@ {
        Key::Step
    } else if name == "positive"@ {
        Key::Positive
    } else if name == "multiline"@ {
        Key::Multiline
    } else if name == "secret"@ {
        Key::Secret
    } else if name == "variant"@ || name == "e"@ {
        Key::Variant
    } else if name == "type"@ {
        Key::MimeType
    } else if name == "child"@ {
        Key::Child
    } else if name == "date"@ {
        Key::Date
    } else if name == "time"@ {
        Key::Time
    } else if name == "country"@ {
        Key::Country
    } else {
        Key::Other
    }
}

/// The property that a token writes: its name ends at the first space, and what
/// follows that space is its value. A token without a space is a name alone.
pub open spec fn property_of(token: Seq<char>) -> Property {
    match split_first(token, " "@) {
        Some((name, value)) => Property { key: key_of(name), value },
        None => Property { key: key_of(token), value: Seq::empty() },
    }
}

/// The properties that `tail` writes: its tokens stand between the occurrences
/// of a space and a backslash. An empty tail is one token with an empty name.
/// What follows an occurrence is always shorter than the tail; the test on the
/// lengths is there for the recursion to end.
pub open spec fn properties_of(tail: Seq<char>) -> Seq<Property>
    decreases tail.len(),
{
    match split_first(tail, " \\"@) {
        Some((token, rest)) => if rest.len() < tail.len() {
            seq![property_of(token)] + properties_of(rest)
        } else {
            seq![property_of(tail)]
        },
        None => seq![property_of(tail)],
    }
}

/// The value of the first property with the key `key`.
pub open spec fn value_of(props: Seq<Property>, key: Key) -> Option<Seq<char>>
    decreases props.len(),
{
    if props.len() == 0 {
        None
    } else if props[0].key == key {
        Some(props[0].value)
    } else {
        value_of(props.drop_first(), key)
    }
}

/// Some property has the key `key`.
pub open spec fn has_key(props: Seq<Property>, key: Key) -> bool {
    value_of(props, key) is Some
}

/// The values of the properties with the key `key`, in their order.
pub open spec fn values_of(props: Seq<Property>, key: Key) -> Seq<Seq<char>>
    decreases props.len(),
{
    if props.len() == 0 {
        Seq::empty()
    } else if props[0].key == key {
        seq![props[0].value] + values_of(props.drop_first(), key)
    } else {
        values_of(props.drop_first(), key)
    }
}

/// The first condition among the properties: whether it is negated, and its value.
pub open spec fn condition_of(props: Seq<Property>) -> Option<(bool, Seq<char>)>
    decreases props.len(),
{
    if props.len() == 0 {
        None
    } else if props[0].key == Key::Conditional {
        Some((false, props[0].value))
    } else if props[0].key == Key::NotConditional {
        Some((true, props[0].value))
    } else {
        condition_of(props.drop_first())
    }
}

/// A property whose value is a part of the text that was read.
pub struct Token<'a> {
    pub key: Key,
    pub value: &'a [char],
}

impl<'a> View for Token<'a> {
    type V = Property;

    open spec fn view(&self) -> Property {
        Property { key: self.key, value: self.value@ }
    }
}

/// The properties that the tokens stand for.
pub open spec fn properties<'a>(tokens: Seq<Token<'a>>) -> Seq<Property> {
    tokens.map_values(|t: Token<'a>| t@)
}

/// A property is found among all properties or among those that follow the first.
pub proof fn lemma_skip_step(props: Seq<Property>, i: int)
    requires
        0 <= i < props.len(),
    ensures
        props.skip(i).len() > 0,
        props.skip(i)[0] == props[i],
        props.skip(i).drop_first() == props.skip(i + 1),
{
    assert(props.skip(i).drop_first() =~= props.skip(i + 1));
}

/// Tells what the name `name` stands for.
pub fn key_from(name: &[char]) -> (key: Key)
    ensures
        key == key_of(name@),
{
    if is_text(name, "optional") || is_text(name, "?") {
        Key::Optional
    } else if is_text(name, "label") || is_text(name, "l") {
        Key::Label
    } else if is_text(name, "default") || is_text(name, "d") {
        Key::Default
    } else if is_text(name, "conditional") || is_text(name, "c") {
        Key::Conditional
    } else if is_text(name, "!conditional") || is_text(name, "!c") {
        Key::NotConditional
    } else if is_text(name, "destination") || is_text(name, "dest") {
        Key::Destination
    } else if is_text(name, "redirect") {
        Key::Redirect
    } else if is_text(name, "min") {
        Key::Min
    } else if is_text(name, "max") {
        Key::Max
    } else if is_text(name, "step") {
        Key::Step
    } else if is_text(name, "positive") {
        Key::Positive
    } else if is_text(name, "multiline") {
        Key::Multiline
    } else if is_text(name, "secret") {
        Key::Secret
    } else if is_text(name, "variant") || is_text(name, "e") {
        Key::Variant
    } else if is_text(name, "type") {
        Key::MimeType
    } else if is_text(name, "child") {
        Key::Child
    } else if is_text(name, "date") {
        Key::Date
    } else if is_text(name, "time") {
        Key::Time
    } else if is_text(name, "country") {
        Key::Country
    } else {
        Key::Other
    }
}

/// Reads one token as a property.
pub fn token_from<'a>(token: &'a [char]) -> (t: Token<'a>)
    ensures
        t@ == property_of(token@),
{
    let space = chars_of(" ");
    match split_once(token, space.as_slice()) {
        Some((name, value)) => Token { key: key_from(name), value },
        None => {
            let value = vstd::slice::slice_subrange(token, 0, 0);
            assert(value@ =~= Seq::<char>::empty());
            Token { key: key_from(token), value }
        },
    }
}

/// Reads the properties that `tail` writes.
pub fn tokenize<'a>(tail: &'a [char]) -> (tokens: Vec<Token<'a>>)
    ensures
        properties(tokens@) == properties_of(tail@),
{
    let mark = chars_of(" \\");
    let mut tokens: Vec<Token<'a>> = Vec::new();
    let mut rest: &'a [char] = tail;
    let mut done = false;
    while !done
        invariant
            mark@ == " \\"@,
            !done ==> properties(tokens@) + properties_of(rest@) == properties_of(tail@),
            done ==> properties(tokens@) == properties_of(tail@),
        decreases rest@.len() + (if done { 0int } else { 1int }),
    {
        proof {
            reveal_strlit(" \\");
            lemma_first_occurrence(rest@, " \\"@);
        }
        let ghost before = properties(tokens@);
        match split_once(rest, mark.as_slice()) {
            Some((token, after)) => {
                tokens.push(token_from(token));
                proof {
                    assert(properties(tokens@) =~= before + seq![property_of(token@)]);
                    assert(properties_of(rest@) == seq![property_of(token@)] + properties_of(
                        after@,
                    ));
                    assert(properties(tokens@) + properties_of(after@) =~= before + properties_of(
                        rest@,
                    ));
                }
                rest = after;
            },
            None => {
                tokens.push(token_from(rest));
                proof {
                    assert(properties(tokens@) =~= before + seq![property_of(rest@)]);
                }
                done = true;
            },
        }
    }
    tokens
}

/// Finds the value of the first property with the key `key`.
pub fn lookup<'a>(tokens: &Vec<Token<'a>>, key: Key) -> (r: Option<&'a [char]>)
    ensures
        match r {
            Some(v) => value_of(properties(tokens@), key) == Some(v@),
            None => value_of(properties(tokens@), key) is None,
        },
{
    let mut i: usize = 0;
    assert(properties(tokens@).skip(0) =~= properties(tokens@));
    while i < tokens.len()
        invariant
            i <= tokens.len(),
            value_of(properties(tokens@), key) == value_of(properties(tokens@).skip(i as int), key),
        decreases tokens.len() - i,
    {
        proof {
            lemma_skip_step(properties(tokens@), i as int);
        }
        if tokens[i].key == key {
            return Some(tokens[i].value);
        }
        i += 1;
    }
    None
}

/// Tells whether some property has the key `key`.
pub fn present<'a>(tokens: &Vec<Token<'a>>, key: Key) -> (b: bool)
    ensures
        b == has_key(properties(tokens@), key),
{
    lookup(tokens, key).is_some()
}

/// Finds the first condition among the properties.
pub fn lookup_condition<'a>(tokens: &Vec<Token<'a>>) -> (r: Option<(bool, &'a [char])>)
    ensures
        match r {
            Some((inverse, v)) => condition_of(properties(tokens@)) == Some((inverse, v@)),
            None => condition_of(properties(tokens@)) is None,
        },
{
    let mut i: usize = 0;
    assert(properties(tokens@).skip(0) =~= properties(tokens@));
    while i < tokens.len()
        invariant
            i <= tokens.len(),
            condition_of(properties(tokens@)) == condition_of(properties(tokens@).skip(i as int)),
        decreases tokens.len() - i,
    {
        proof {
            lemma_skip_step(properties(tokens@), i as int);
        }
        if tokens[i].key == Key::Conditional {
            return Some((false, tokens[i].value));
        }
        if tokens[i].key == Key::NotConditional {
            return Some((true, tokens[i].value));
        }
        i += 1;
    }
    None
}

/// The texts that the slices hold.
pub open spec fn texts<'a>(parts: Seq<&'a [char]>) -> Seq<Seq<char>> {
    parts.map_values(|part: &'a [char]| part@)
}

/// Collects the values of the properties with the key `key`, in their order.
pub fn lookup_all<'a>(tokens: &Vec<Token<'a>>, key: Key) -> (r: Vec<&'a [char]>)
    ensures
        texts(r@) == values_of(properties(tokens@), key),
{
    let mut out: Vec<&'a [char]> = Vec::new();
    let mut i: usize = 0;
    let ghost all = properties(tokens@);
    assert(all.skip(0) =~= all);
    assert(texts(out@) + values_of(all, key) =~= values_of(all, key));
    while i < tokens.len()
        invariant
            i <= tokens.len(),
            all == properties(tokens@),
            texts(out@) + values_of(all.skip(i as int), key) == values_of(all, key),
        decreases tokens.len() - i,
    {
        proof {
            lemma_skip_step(all, i as int);
        }
        let ghost before = texts(out@);
        if tokens[i].key == key {
            out.push(tokens[i].value);
            proof {
                assert(texts(out@) =~= before + seq![all[i as int].value]);
                assert(texts(out@) + values_of(all.skip(i + 1), key) =~= before + values_of(
                    all.skip(i as int),
                    key,
                ));
            }
        }
        i += 1;
    }
    assert(all.skip(i as int) =~= Seq::<Property>::empty());
    assert(texts(out@) + values_of(all.skip(i as int), key) =~= texts(out@));
    out
}

} // verus!
