//! What holds of the parser on every input: the first error ends a scan, lists
//! of metadata stop at their capacity, a shorthand stands for its long name,
//! and a file field takes no default.

use vstd::prelude::*;
use crate::document::{lines_of, scan_of, Scan};
use crate::error::ParseError;
use crate::form::{field_of, field_of_kind, file_field_of, is_id};
use crate::metadata::{lemma_utf8_len_bound, offered, offered_all, within, MetadataView};
use crate::property::{has_key, key_of, properties_of, property_of, Key, Property};
use crate::text::{
    free_before, lemma_contains_char, lemma_free_before_holds_none, lemma_split_first_free,
};
use crate::time::Timestamp;

verus! {

/// Reading lines in two parts is reading them all: the second part is read from
/// where the first part ended, and not at all where the first part failed.
pub proof fn law_run_in_parts(
    start: Scan,
    first: Seq<Seq<char>>,
    then: Seq<Seq<char>>,
    now: Timestamp,
)
    ensures
        start.run(first + then, now) == match start.run(first, now) {
            Ok(middle) => middle.run(then, now),
            Err(e) => Err(e),
        },
    decreases first.len(),
{
    if first.len() == 0 {
        assert(first + then =~= then);
    } else {
        assert((first + then)[0] == first[0]);
        assert((first + then).drop_first() =~= first.drop_first() + then);
        match start.step(first[0], now) {
            Ok(next) => {
                law_run_in_parts(next, first.drop_first(), then, now);
            },
            Err(e) => {},
        }
    }
}

/// Fail-fast: where the lines before some line are read without error and that
/// line is an error in the state that they lead to, the whole scan is that
/// error, whatever follows the line.
pub proof fn law_fail_fast(
    start: Scan,
    before: Seq<Seq<char>>,
    line: Seq<char>,
    after: Seq<Seq<char>>,
    now: Timestamp,
)
    requires
        start.run(before, now) is Ok,
        start.run(before, now)->Ok_0.step(line, now) is Err,
    ensures
        start.run(before + seq![line] + after, now) == Err::<Scan, ParseError>(
            start.run(before, now)->Ok_0.step(line, now)->Err_0,
        ),
{
    let middle = start.run(before, now)->Ok_0;
    assert(before + seq![line] + after =~= before + (seq![line] + after));
    law_run_in_parts(start, before, seq![line] + after, now);
    assert((seq![line] + after)[0] == line);
}

/// Fail-fast on a text: where one line of the text is an error in the state
/// that the lines before it lead to, the scan of the text is that error.
pub proof fn law_fail_fast_text(start: Scan, text: Seq<char>, i: int, now: Timestamp)
    requires
        0 <= i < lines_of(text).len(),
        start.run(lines_of(text).take(i), now) is Ok,
        start.run(lines_of(text).take(i), now)->Ok_0.step(lines_of(text)[i], now) is Err,
    ensures
        scan_of(start, text, now) == Err::<Scan, ParseError>(
            start.run(lines_of(text).take(i), now)->Ok_0.step(lines_of(text)[i], now)->Err_0,
        ),
{
    let lines = lines_of(text);
    assert(lines =~= lines.take(i) + seq![lines[i]] + lines.skip(i + 1));
    law_fail_fast(start, lines.take(i), lines[i], lines.skip(i + 1), now);
}

/// A scan stays well-formed: after any line that is no error, a scan in a form
/// block has opened at least one, and the number of opened form blocks has not
/// gone down.
pub proof fn law_scan_stays_well_formed(scan: Scan, line: Seq<char>, now: Timestamp)
    requires
        scan.well_formed(),
        scan.step(line, now) is Ok,
    ensures
        scan.step(line, now)->Ok_0.well_formed(),
        scan.step(line, now)->Ok_0.forms >= scan.forms,
{
}

/// The entries of a list; none where the list is absent.
pub open spec fn entries(list: Option<Seq<Seq<char>>>) -> Seq<Seq<char>> {
    match list {
        Some(l) => l,
        None => Seq::empty(),
    }
}

/// The smaller of two numbers.
pub open spec fn least(a: int, b: int) -> int {
    if a <= b {
        a
    } else {
        b
    }
}

/// Capacity: a list that held no more than `cap` entries holds, after any
/// number of items were offered to it, its entries and then the items in their
/// order, cut off at `cap` entries. It never fails and never grows beyond `cap`.
pub proof fn law_capacity(list: Option<Seq<Seq<char>>>, items: Seq<Seq<char>>, cap: int)
    requires
        cap >= 1,
        within(list, cap),
    ensures
        within(offered_all(list, items, cap), cap),
        entries(offered_all(list, items, cap)) == (entries(list) + items).take(
            least(cap, (entries(list).len() + items.len()) as int),
        ),
        items.len() > 0 ==> offered_all(list, items, cap) is Some,
    decreases items.len(),
{
    if items.len() == 0 {
        assert(entries(list) + items =~= entries(list));
        assert(entries(list).take(entries(list).len() as int) =~= entries(list));
    } else {
        let front = items.drop_last();
        law_capacity(list, front, cap);
        let held = entries(offered_all(list, front, cap));
        let all = entries(list) + items;
        assert(entries(list) + front =~= all.take(all.len() - 1));
        assert(entries(offered_all(list, items, cap)) =~= all.take(least(cap, all.len() as int)));
    }
}

/// The tags of the three lists never fail: a line with such a tag offers its
/// value to the list, which takes it or, where it is full, stays as it is.
pub proof fn law_list_tags_never_fail(metadata: MetadataView, value: Seq<char>)
    ensures
        metadata.with_line("AU "@ + value) == Ok::<MetadataView, ParseError>(
            metadata.with_author(value),
        ),
        metadata.with_line("LI "@ + value) == Ok::<MetadataView, ParseError>(
            metadata.with_license(value),
        ),
        metadata.with_line("LA "@ + value) == Ok::<MetadataView, ParseError>(
            metadata.with_language(value),
        ),
{
    reveal_strlit("TI ");
    reveal_strlit("ST ");
    reveal_strlit("AU ");
    reveal_strlit("LI ");
    reveal_strlit("LA ");
    reveal_strlit("CH ");
    lemma_utf8_len_bound("AU "@ + value);
    lemma_utf8_len_bound("LI "@ + value);
    lemma_utf8_len_bound("LA "@ + value);
    assert(("AU "@ + value).skip(3) =~= value);
    assert(("LI "@ + value).skip(3) =~= value);
    assert(("LA "@ + value).skip(3) =~= value);
    assert(("AU "@ + value)[0] == 'A');
    assert(("LI "@ + value)[0] == 'L');
    assert(("LA "@ + value)[0] == 'L');
    assert(("LI "@ + value)[1] == 'I');
    assert(("LA "@ + value)[1] == 'A');
    assert(("AU "@)[0] == 'A');
    assert(("TI "@)[0] == 'T');
    assert(("ST "@)[0] == 'S');
    assert(("LI "@)[1] == 'I');
    assert(("LA "@)[1] == 'A');
    assert(("AU "@)[1] == 'U');
}

/// A full list stays as it is: a line with the tag of a list that holds as many
/// entries as it may is read without error and changes nothing.
pub proof fn law_full_lists_ignore_tags(metadata: MetadataView, value: Seq<char>)
    requires
        metadata.well_formed(),
    ensures
        entries(metadata.author).len() == 16 ==> metadata.with_line("AU "@ + value) == Ok::<
            MetadataView,
            ParseError,
        >(metadata),
        entries(metadata.license).len() == 4 ==> metadata.with_line("LI "@ + value) == Ok::<
            MetadataView,
            ParseError,
        >(metadata),
        entries(metadata.language).len() == 256 ==> metadata.with_line("LA "@ + value) == Ok::<
            MetadataView,
            ParseError,
        >(metadata),
{
    law_list_tags_never_fail(metadata, value);
}

/// The long name `long` has the shorthand `short`.
pub open spec fn is_shorthand(long: Seq<char>, short: Seq<char>) -> bool {
    ||| (long == "optional"@ && short == "?"@)
    ||| (long == "label"@ && short == "l"@)
    ||| (long == "default"@ && short == "d"@)
    ||| (long == "conditional"@ && short == "c"@)
    ||| (long == "!conditional"@ && short == "!c"@)
    ||| (long == "destination"@ && short == "dest"@)
    ||| (long == "variant"@ && short == "e"@)
}

/// The names hold no space.
proof fn lemma_names_hold_no_space(long: Seq<char>, short: Seq<char>)
    requires
        is_shorthand(long, short),
    ensures
        free_before(long, " "@),
        free_before(short, " "@),
{
    reveal_strlit(" ");
    reveal_strlit("optional");
    reveal_strlit("?");
    reveal_strlit("label");
    reveal_strlit("l");
    reveal_strlit("default");
    reveal_strlit("d");
    reveal_strlit("conditional");
    reveal_strlit("c");
    reveal_strlit("!conditional");
    reveal_strlit("!c");
    reveal_strlit("destination");
    reveal_strlit("dest");
    reveal_strlit("variant");
    reveal_strlit("e");
    assert(" "@ =~= seq![' ']);
    assert(" "@.drop_last() =~= Seq::<char>::empty());
    assert(long + " "@.drop_last() =~= long);
    assert(short + " "@.drop_last() =~= short);
    lemma_contains_char(long, ' ');
    lemma_contains_char(short, ' ');
}

/// Shorthand equivalence: a property written with a shorthand is the property
/// written with the long name, with a value and without one. So are the fields
/// that hold them, since a field depends on its text through its properties.
pub proof fn law_shorthand(long: Seq<char>, short: Seq<char>, value: Seq<char>)
    requires
        is_shorthand(long, short),
    ensures
        key_of(long) == key_of(short),
        property_of(long) == property_of(short),
        property_of(long + " "@ + value) == property_of(short + " "@ + value),
        property_of(long + " "@ + value) == (Property { key: key_of(long), value }),
{
    reveal_strlit(" ");
    lemma_names_hold_no_space(long, short);
    lemma_free_before_holds_none(long, " "@);
    lemma_free_before_holds_none(short, " "@);
    lemma_split_first_free(long, " "@, value);
    lemma_split_first_free(short, " "@, value);
    lemma_shorthand_keys(long, short);
}

/// A shorthand stands for what its long name stands for.
proof fn lemma_shorthand_keys(long: Seq<char>, short: Seq<char>)
    requires
        is_shorthand(long, short),
    ensures
        key_of(long) == key_of(short),
{
    reveal_strlit("optional");
    reveal_strlit("?");
    reveal_strlit("label");
    reveal_strlit("l");
    reveal_strlit("default");
    reveal_strlit("d");
    reveal_strlit("conditional");
    reveal_strlit("c");
    reveal_strlit("!conditional");
    reveal_strlit("!c");
    reveal_strlit("destination");
    reveal_strlit("dest");
    reveal_strlit("variant");
    reveal_strlit("e");
    reveal_strlit("redirect");
    reveal_strlit("min");
    reveal_strlit("max");
    reveal_strlit("step");
    reveal_strlit("positive");
    reveal_strlit("multiline");
    reveal_strlit("secret");
    assert("optional"@.len() == 8);
    assert("?"@.len() == 1);
    assert("label"@.len() == 5);
    assert("l"@.len() == 1);
    assert("default"@.len() == 7);
    assert("d"@.len() == 1);
    assert("conditional"@.len() == 11);
    assert("c"@.len() == 1);
    assert("!conditional"@.len() == 12);
    assert("!c"@.len() == 2);
    assert("destination"@.len() == 11);
    assert("dest"@.len() == 4);
    assert("variant"@.len() == 7);
    assert("e"@.len() == 1);
    assert("redirect"@.len() == 8);
    assert("min"@.len() == 3);
    assert("max"@.len() == 3);
    assert("step"@.len() == 4);
    assert("positive"@.len() == 8);
    assert("multiline"@.len() == 9);
    assert("secret"@.len() == 6);
    assert("?"@[0] == '?');
    assert("l"@[0] == 'l');
    assert("d"@[0] == 'd');
    assert("c"@[0] == 'c');
    assert("e"@[0] == 'e');
    assert("conditional"@[0] == 'c');
    assert("destination"@[0] == 'd');
    assert("default"@[0] == 'd');
    assert("variant"@[0] == 'v');
}

/// File default rejection: properties with a default describe no file field,
/// whatever else they hold.
pub proof fn law_file_default_rejected(props: Seq<Property>)
    requires
        has_key(props, Key::Default),
    ensures
        file_field_of(props) == Err::<crate::form::FileView, ParseError>(ParseError::FileDefault),
{
}

/// The text of the properties of a declaration: the tokens, with a space and a
/// backslash between them.
pub open spec fn tail_text(tokens: Seq<Seq<char>>) -> Seq<char>
    decreases tokens.len(),
{
    if tokens.len() == 0 {
        Seq::empty()
    } else if tokens.len() == 1 {
        tokens[0]
    } else {
        tokens[0] + " \\"@ + tail_text(tokens.drop_first())
    }
}

/// The text of a declaration with at least one property: the identifier, a
/// colon, the type keyword, and the tokens, each after a space and a backslash.
pub open spec fn declaration(id: Seq<char>, keyword: Seq<char>, tokens: Seq<Seq<char>>) -> Seq<
    char,
> {
    id + ":"@ + (keyword + " \\"@ + tail_text(tokens))
}

/// The tokens can be told apart in the text of a declaration: no space and
/// backslash begins in any of them.
pub open spec fn separable(tokens: Seq<Seq<char>>) -> bool {
    forall|i: int| 0 <= i < tokens.len() ==> free_before(#[trigger] tokens[i], " \\"@)
}

/// The properties that the tokens write, one by one.
pub open spec fn properties_each(tokens: Seq<Seq<char>>) -> Seq<Property> {
    tokens.map_values(|token: Seq<char>| property_of(token))
}

/// Reading the text of separable tokens gives the property of each token.
pub proof fn lemma_properties_of_tail(tokens: Seq<Seq<char>>)
    requires
        tokens.len() > 0,
        separable(tokens),
    ensures
        properties_of(tail_text(tokens)) == properties_each(tokens),
    decreases tokens.len(),
{
    reveal_strlit(" \\");
    assert(free_before(tokens[0], " \\"@));
    if tokens.len() == 1 {
        lemma_free_before_holds_none(tokens[0], " \\"@);
        assert(properties_of(tokens[0]) =~= properties_each(tokens));
    } else {
        let rest = tokens.drop_first();
        assert forall|i: int| 0 <= i < rest.len() implies free_before(
            #[trigger] rest[i],
            " \\"@,
        ) by {
            assert(rest[i] == tokens[i + 1]);
        }
        lemma_properties_of_tail(rest);
        lemma_split_first_free(tokens[0], " \\"@, tail_text(rest));
        assert(properties_of(tail_text(tokens)) =~= seq![property_of(tokens[0])]
            + properties_each(rest));
        assert(seq![property_of(tokens[0])] + properties_each(rest) =~= properties_each(tokens));
    }
}

/// A declaration is read as the field of its kind with the properties of its
/// tokens, where its parts can be told apart: the identifier holds no colon,
/// no space and backslash begins in the keyword, and the tokens are separable.
pub proof fn lemma_field_of_declaration(
    id: Seq<char>,
    keyword: Seq<char>,
    tokens: Seq<Seq<char>>,
    now: Timestamp,
)
    requires
        free_before(id, ":"@),
        free_before(keyword, " \\"@),
        tokens.len() > 0,
        separable(tokens),
    ensures
        field_of(declaration(id, keyword, tokens), now) == if is_id(id) {
            field_of_kind(id, keyword, properties_each(tokens), now)
        } else {
            Err(ParseError::InvalidId)
        },
{
    reveal_strlit(":");
    reveal_strlit(" \\");
    let rest = keyword + " \\"@ + tail_text(tokens);
    lemma_split_first_free(id, ":"@, rest);
    lemma_split_first_free(keyword, " \\"@, tail_text(tokens));
    lemma_properties_of_tail(tokens);
}

/// Declarations that differ only in how their properties are spelled describe
/// the same field: the field depends on the tokens through the properties that
/// they write.
pub proof fn law_same_properties_same_field(
    id: Seq<char>,
    keyword: Seq<char>,
    tokens: Seq<Seq<char>>,
    others: Seq<Seq<char>>,
    now: Timestamp,
)
    requires
        free_before(id, ":"@),
        free_before(keyword, " \\"@),
        tokens.len() > 0,
        tokens.len() == others.len(),
        separable(tokens),
        separable(others),
        forall|i: int|
            0 <= i < tokens.len() ==> property_of(#[trigger] tokens[i]) == property_of(others[i]),
    ensures
        field_of(declaration(id, keyword, tokens), now) == field_of(
            declaration(id, keyword, others),
            now,
        ),
{
    lemma_field_of_declaration(id, keyword, tokens, now);
    lemma_field_of_declaration(id, keyword, others, now);
    assert(properties_each(tokens) =~= properties_each(others)) by {
        assert forall|i: int| 0 <= i < tokens.len() implies properties_each(tokens)[i]
            == properties_each(others)[i] by {
            assert(property_of(tokens[i]) == property_of(others[i]));
        }
    }
}

/// Shorthand equivalence in a declaration: writing one property with its
/// shorthand in place of its long name gives the identical field, whatever the
/// kind and the properties before and after it.
pub proof fn law_shorthand_in_declaration(
    id: Seq<char>,
    keyword: Seq<char>,
    before: Seq<Seq<char>>,
    long: Seq<char>,
    short: Seq<char>,
    value: Seq<char>,
    after: Seq<Seq<char>>,
    now: Timestamp,
)
    requires
        is_shorthand(long, short),
        free_before(id, ":"@),
        free_before(keyword, " \\"@),
        separable(before),
        separable(after),
        free_before(long + " "@ + value, " \\"@),
        free_before(short + " "@ + value, " \\"@),
    ensures
        field_of(declaration(id, keyword, before + seq![long + " "@ + value] + after), now)
            == field_of(declaration(id, keyword, before + seq![short + " "@ + value] + after), now),
{
    let tokens = before + seq![long + " "@ + value] + after;
    let others = before + seq![short + " "@ + value] + after;
    law_shorthand(long, short, value);
    assert forall|i: int| 0 <= i < tokens.len() implies free_before(
        #[trigger] tokens[i],
        " \\"@,
    ) && free_before(others[i], " \\"@) && property_of(tokens[i]) == property_of(others[i]) by {
        if i < before.len() {
            assert(tokens[i] == before[i] && others[i] == before[i]);
        } else if i == before.len() {
            assert(tokens[i] == long + " "@ + value);
            assert(others[i] == short + " "@ + value);
        } else {
            assert(tokens[i] == after[i - before.len() - 1]);
            assert(others[i] == after[i - before.len() - 1]);
        }
    }
    assert(separable(others)) by {
        assert forall|i: int| 0 <= i < others.len() implies free_before(
            #[trigger] others[i],
            " \\"@,
        ) by {
            assert(free_before(tokens[i], " \\"@) && free_before(others[i], " \\"@));
        }
    }
    law_same_properties_same_field(id, keyword, tokens, others, now);
}

/// A property with the key `key` at some place gives the properties that key.
pub proof fn lemma_has_key(props: Seq<Property>, i: int, key: Key)
    requires
        0 <= i < props.len(),
        props[i].key == key,
    ensures
        has_key(props, key),
    decreases props.len(),
{
    if props[0].key != key {
        assert(props.drop_first()[i - 1] == props[i]);
        lemma_has_key(props.drop_first(), i - 1, key);
    }
}

/// File default rejection in a declaration: a declaration of a file field with
/// a default among its properties is an error, whatever its other properties.
pub proof fn law_file_default_in_declaration(
    id: Seq<char>,
    tokens: Seq<Seq<char>>,
    i: int,
    now: Timestamp,
)
    requires
        free_before(id, ":"@),
        separable(tokens),
        0 <= i < tokens.len(),
        property_of(tokens[i]).key == Key::Default,
    ensures
        field_of(declaration(id, "file"@, tokens), now) is Err,
        is_id(id) ==> field_of(declaration(id, "file"@, tokens), now) == Err::<
            crate::form::FieldView,
            ParseError,
        >(ParseError::FileDefault),
{
    reveal_strlit("file");
    reveal_strlit(" \\");
    reveal_strlit("submit");
    reveal_strlit("string");
    reveal_strlit("int");
    reveal_strlit("float");
    reveal_strlit("bool");
    assert("file"@.len() == 4);
    assert("submit"@.len() == 6);
    assert("string"@.len() == 6);
    assert("int"@.len() == 3);
    assert("float"@.len() == 5);
    assert("bool"@.len() == 4);
    assert("file"@[0] == 'f');
    assert("bool"@[0] == 'b');
    let padded = "file"@ + " \\"@.drop_last();
    assert forall|j: int| !crate::text::occurs_at(padded, " \\"@, j) by {
        if crate::text::occurs_at(padded, " \\"@, j) {
            assert(" \\"@[1] == '\\');
            assert(padded[j + 1] == '\\');
        }
    }
    crate::text::lemma_first_occurrence_none(padded, " \\"@);
    lemma_field_of_declaration(id, "file"@, tokens, now);
    assert(properties_each(tokens)[i].key == Key::Default);
    lemma_has_key(properties_each(tokens), i, Key::Default);
    law_file_default_rejected(properties_each(tokens));
}

} // verus!
