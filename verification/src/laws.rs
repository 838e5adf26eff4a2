//! What holds of binding and decoding on every input.

use crate::binding::{
    bound, field_map, field_name, has_prefix, is_ascii_text, lemma_named_pairs_bind, lower_case,
    named, named_under, naming, selected, selector,
};
use crate::failure::DecodeFailureView;
use crate::port::Port;
use crate::record::{
    declares, defect, failure, first_missing, holds_port, lemma_field_map_holds_the_names,
    lemma_walk_ends_at_the_first_failure, names, populated, walk_failure, Field,
};
use vstd::prelude::*;

verus! {

/// `pair` gives its value to the field `name` under `prefix`.
pub open spec fn binds(
    prefix: Seq<char>,
    naming: spec_fn(Seq<char>) -> Seq<char>,
    pair: (Seq<char>, Seq<char>),
    name: Seq<char>,
) -> bool {
    has_prefix(pair.0, prefix) && naming(selector(pair.0, prefix)) == name
}

/// The pair at `i` is the last of `pairs` that gives its value to the field `name`.
pub open spec fn is_last_binding(
    prefix: Seq<char>,
    naming: spec_fn(Seq<char>) -> Seq<char>,
    pairs: Seq<(Seq<char>, Seq<char>)>,
    name: Seq<char>,
    i: int,
) -> bool {
    &&& 0 <= i < pairs.len()
    &&& binds(prefix, naming, pairs[i], name)
    &&& forall|j: int| i < j < pairs.len() ==> !binds(prefix, naming, #[trigger] pairs[j], name)
}

/// The capital letter of a small letter of ASCII, and every other character as it is.
pub open spec fn upper_case_char(c: char) -> char {
    if 'a' <= c && c <= 'z' {
        ((c as u8 - 32) as u8) as char
    } else {
        c
    }
}

/// `text` with its small letters of ASCII made capital, character by character.
pub open spec fn upper_case(text: Seq<char>) -> Seq<char> {
    text.map_values(|c: char| upper_case_char(c))
}

/// `name` is written in ASCII without capital letters, as the names of fields are.
pub open spec fn is_plain_name(name: Seq<char>) -> bool {
    forall|i: int|
        0 <= i < name.len() ==> (#[trigger] name[i]) as u32 <= 127 && !('A' <= name[i]
            && name[i] <= 'Z')
}

/// The key that describes a field under a prefix: the prefix, and after it the name of
/// the field in capital letters.
pub open spec fn key_of(prefix: Seq<char>, field: Seq<char>) -> Seq<char> {
    prefix + upper_case(field)
}

/// The key of a field begins with the prefix and names the field.
pub proof fn lemma_key_names_its_field(
    prefix: Seq<char>,
    field: Seq<char>,
    value: Seq<char>,
)
    requires
        is_plain_name(field),
    ensures
        binds(prefix, naming(), (key_of(prefix, field), value), field),
{
    let key = key_of(prefix, field);
    let capitals = upper_case(field);
    assert(key.take(prefix.len() as int) =~= prefix);
    assert(selector(key, prefix) =~= capitals);
    assert(is_ascii_text(capitals));
    assert(lower_case(capitals) =~= field);
    assert(field_name(capitals) == field);
}

/// A field has a value wherever one of the pairs has the key of the field.
pub proof fn lemma_key_of_field_binds_it(
    prefix: Seq<char>,
    pairs: Seq<(Seq<char>, Seq<char>)>,
    field: Seq<char>,
    i: int,
)
    requires
        is_plain_name(field),
        0 <= i < pairs.len(),
        pairs[i].0 == key_of(prefix, field),
    ensures
        field_map(named_under(prefix, pairs)).contains_key(field),
{
    lemma_named_pairs_bind(prefix, pairs);
    lemma_key_names_its_field(prefix, field, pairs[i].1);
    lemma_last_binding_pair_decides(prefix, pairs, naming(), field);
    assert(binds(prefix, naming(), pairs[i], field));
}

/// A field has a value exactly where some pair binds it, and its value is that of the
/// last pair that does.
pub proof fn lemma_last_binding_pair_decides(
    prefix: Seq<char>,
    pairs: Seq<(Seq<char>, Seq<char>)>,
    naming: spec_fn(Seq<char>) -> Seq<char>,
    name: Seq<char>,
)
    ensures
        bound(prefix, pairs, naming).contains_key(name) <==> exists|i: int|
            0 <= i < pairs.len() && binds(prefix, naming, #[trigger] pairs[i], name),
        forall|i: int| #[trigger]
            is_last_binding(prefix, naming, pairs, name, i) ==> bound(prefix, pairs, naming)[name]
                == pairs[i].1,
    decreases pairs.len(),
{
    if pairs.len() > 0 {
        let earlier = pairs.drop_last();
        lemma_last_binding_pair_decides(prefix, earlier, naming, name);
        assert(forall|i: int| 0 <= i < earlier.len() ==> earlier[i] == pairs[i]);
        if bound(prefix, earlier, naming).contains_key(name) {
            let i = choose|i: int|
                0 <= i < earlier.len() && binds(prefix, naming, #[trigger] earlier[i], name);
            assert(binds(prefix, naming, pairs[i], name));
        }
        assert forall|i: int| #[trigger]
            is_last_binding(prefix, naming, pairs, name, i) implies bound(
            prefix,
            pairs,
            naming,
        )[name] == pairs[i].1 by {
            if i < pairs.len() - 1 {
                assert(!binds(prefix, naming, pairs[pairs.len() - 1], name));
                assert forall|j: int| i < j < earlier.len() implies !binds(
                    prefix,
                    naming,
                    #[trigger] earlier[j],
                    name,
                ) by {
                    assert(earlier[j] == pairs[j]);
                }
                assert(is_last_binding(prefix, naming, earlier, name, i));
            }
        }
    }
}

/// Where the first field without a value stands among the declared ones.
proof fn lemma_first_missing(declared: Seq<Field>, fields: Map<Seq<char>, Seq<char>>)
    ensures
        match first_missing(declared, fields) {
            Some(name) => exists|i: int|
                0 <= i < declared.len() && (#[trigger] declared[i]).name == name
                    && !fields.contains_key(name) && populated(declared.take(i), fields),
            None => populated(declared, fields),
        },
    decreases declared.len(),
{
    if declared.len() > 0 {
        let rest = declared.drop_first();
        if !fields.contains_key(declared.first().name) {
            assert(declared[0].name == declared.first().name);
        } else {
            lemma_first_missing(rest, fields);
            assert(forall|i: int| 0 <= i < rest.len() ==> rest[i] == declared[i + 1]);
            match first_missing(rest, fields) {
                Some(name) => {
                    let i = choose|i: int|
                        0 <= i < rest.len() && (#[trigger] rest[i]).name == name
                            && !fields.contains_key(name) && populated(rest.take(i), fields);
                    assert(declared[i + 1].name == name);
                    assert forall|j: int| 0 <= j < i + 1 implies fields.contains_key(
                        #[trigger] declared.take(i + 1)[j].name,
                    ) by {
                        if j > 0 {
                            assert(declared.take(i + 1)[j] == rest.take(i)[j - 1]);
                        }
                    }
                },
                None => {
                    assert forall|j: int| 0 <= j < declared.len() implies fields.contains_key(
                        #[trigger] declared[j].name,
                    ) by {
                        if j > 0 {
                            assert(declared[j] == rest[j - 1]);
                        }
                    }
                },
            }
        }
    }
}

/// The pair at `j` fills a field or is passed over: it names no declared field, or it
/// names one that no pair before it names, with a value that writes what the field
/// holds.
pub open spec fn fills(declared: Seq<Field>, fields: Seq<(Seq<char>, Seq<char>)>, j: int) -> bool {
    declares(declared, fields[j].0) ==> !names(fields.take(j), fields[j].0) && (holds_port(
        declared,
        fields[j].0,
    ) ==> Port::parse_spec(fields[j].1) is Some)
}

/// Every pair of the list fills a field or is passed over.
pub open spec fn clean(declared: Seq<Field>, fields: Seq<(Seq<char>, Seq<char>)>) -> bool {
    forall|j: int| 0 <= j < fields.len() ==> #[trigger] fills(declared, fields, j)
}

/// The walk comes to the end exactly where every pair fills a field or is passed over.
pub proof fn lemma_walk_comes_to_the_end_of_clean_pairs(
    prefix: Seq<char>,
    declared: Seq<Field>,
    fields: Seq<(Seq<char>, Seq<char>)>,
)
    ensures
        walk_failure(prefix, declared, fields) is None <==> clean(declared, fields),
    decreases fields.len(),
{
    if fields.len() > 0 {
        let earlier = fields.drop_last();
        let last = fields.len() - 1;
        lemma_walk_comes_to_the_end_of_clean_pairs(prefix, declared, earlier);
        assert(fields.take(last) =~= earlier);
        assert forall|j: int| 0 <= j < earlier.len() implies fills(declared, earlier, j) == fills(
            declared,
            fields,
            j,
        ) by {
            assert(earlier.take(j) =~= fields.take(j));
        }
        if clean(declared, fields) {
            assert forall|j: int| 0 <= j < earlier.len() implies #[trigger] fills(
                declared,
                earlier,
                j,
            ) by {
                assert(fills(declared, fields, j));
            }
            assert(fills(declared, fields, last));
        }
        if walk_failure(prefix, declared, fields) is None {
            assert forall|j: int| 0 <= j < fields.len() implies #[trigger] fills(
                declared,
                fields,
                j,
            ) by {
                if j < last {
                    assert(fills(declared, earlier, j));
                }
            }
        }
    }
}

/// A failure that ends the walk is the failure of one pair, before which the walk met
/// none.
pub proof fn lemma_walk_failure_is_of_a_pair(
    prefix: Seq<char>,
    declared: Seq<Field>,
    fields: Seq<(Seq<char>, Seq<char>)>,
)
    requires
        walk_failure(prefix, declared, fields) is Some,
    ensures
        exists|j: int| #[trigger]
            is_first_defect(prefix, declared, fields, j) && walk_failure(prefix, declared, fields)
                == defect(prefix, declared, fields.take(j), fields[j].0, fields[j].1),
    decreases fields.len(),
{
    let earlier = fields.drop_last();
    let last = fields.len() - 1;
    if walk_failure(prefix, declared, earlier) is Some {
        lemma_walk_failure_is_of_a_pair(prefix, declared, earlier);
        let j = choose|j: int| #[trigger]
            is_first_defect(prefix, declared, earlier, j) && walk_failure(
                prefix,
                declared,
                earlier,
            ) == defect(prefix, declared, earlier.take(j), earlier[j].0, earlier[j].1);
        assert(earlier.take(j) =~= fields.take(j));
        assert(is_first_defect(prefix, declared, fields, j));
    } else {
        assert(fields.take(last) =~= earlier);
        assert(is_first_defect(prefix, declared, fields, last));
    }
}

/// The pair at `j` is the first of the list to give rise to a failure.
pub open spec fn is_first_defect(
    prefix: Seq<char>,
    declared: Seq<Field>,
    fields: Seq<(Seq<char>, Seq<char>)>,
    j: int,
) -> bool {
    &&& 0 <= j < fields.len()
    &&& walk_failure(prefix, declared, fields.take(j)) is None
    &&& defect(prefix, declared, fields.take(j), fields[j].0, fields[j].1) is Some
}

/// The first pair of the list to give rise to a failure decides: its failure is the
/// failure of the decoding, whatever follows it in the list and whichever fields have no
/// value.
pub proof fn lemma_first_failure_in_the_list_decides(
    prefix: Seq<char>,
    declared: Seq<Field>,
    fields: Seq<(Seq<char>, Seq<char>)>,
    j: int,
)
    requires
        is_first_defect(prefix, declared, fields, j),
    ensures
        failure(prefix, declared, fields) == defect(
            prefix,
            declared,
            fields.take(j),
            fields[j].0,
            fields[j].1,
        ),
{
    assert(fields.take(j + 1).drop_last() =~= fields.take(j));
    assert(fields.take(j + 1).last() == fields[j]);
    lemma_walk_ends_at_the_first_failure(prefix, declared, fields, j + 1);
}

/// A pair that gives a port field a value that writes no port, where no pair before it
/// gives rise to a failure or names the field, makes decoding fail with the failure that
/// names the field and holds the value.
pub proof fn lemma_mistyped_port_is_reported(
    prefix: Seq<char>,
    declared: Seq<Field>,
    fields: Seq<(Seq<char>, Seq<char>)>,
    j: int,
)
    requires
        0 <= j < fields.len(),
        holds_port(declared, fields[j].0),
        Port::parse_spec(fields[j].1) is None,
        clean(declared, fields.take(j)),
        !names(fields.take(j), fields[j].0),
    ensures
        failure(prefix, declared, fields) == Some(
            DecodeFailureView::TypeCoercion {
                prefix,
                field: fields[j].0,
                value: fields[j].1,
                target: "Port"@,
            },
        ),
{
    lemma_walk_comes_to_the_end_of_clean_pairs(prefix, declared, fields.take(j));
    let i = choose|i: int|
        0 <= i < declared.len() && (#[trigger] declared[i]).name == fields[j].0
            && declared[i].kind is Port;
    assert(declares(declared, fields[j].0));
    lemma_first_failure_in_the_list_decides(prefix, declared, fields, j);
}

/// A pair that names a declared field which a pair before it names, where no pair before
/// it gives rise to a failure, makes decoding fail with the failure that names the field
/// as given a second value.
pub proof fn lemma_second_value_is_reported(
    prefix: Seq<char>,
    declared: Seq<Field>,
    fields: Seq<(Seq<char>, Seq<char>)>,
    j: int,
)
    requires
        0 <= j < fields.len(),
        declares(declared, fields[j].0),
        names(fields.take(j), fields[j].0),
        clean(declared, fields.take(j)),
    ensures
        failure(prefix, declared, fields) == Some(
            DecodeFailureView::DuplicateField { prefix, field: fields[j].0 },
        ),
{
    lemma_walk_comes_to_the_end_of_clean_pairs(prefix, declared, fields.take(j));
    lemma_first_failure_in_the_list_decides(prefix, declared, fields, j);
}

/// A record is made exactly where every pair fills a field or is passed over and every
/// declared field has a value.
pub proof fn lemma_record_is_made_of_complete_fields(
    prefix: Seq<char>,
    declared: Seq<Field>,
    fields: Seq<(Seq<char>, Seq<char>)>,
)
    ensures
        failure(prefix, declared, fields) is None <==> clean(declared, fields) && populated(
            declared,
            field_map(fields),
        ),
{
    lemma_first_missing(declared, field_map(fields));
    lemma_walk_comes_to_the_end_of_clean_pairs(prefix, declared, fields);
}

/// A declared field without a value makes decoding fail. Where the walk through the
/// pairs meets no failure, the failure names the first declared field without a value.
pub proof fn lemma_missing_field_is_reported(
    prefix: Seq<char>,
    declared: Seq<Field>,
    fields: Seq<(Seq<char>, Seq<char>)>,
    i: int,
)
    requires
        0 <= i < declared.len(),
        !field_map(fields).contains_key(declared[i].name),
    ensures
        failure(prefix, declared, fields) is Some,
        clean(declared, fields) && populated(declared.take(i), field_map(fields)) ==> failure(
            prefix,
            declared,
            fields,
        ) == Some(DecodeFailureView::MissingField { prefix, field: declared[i].name }),
{
    let bound_fields = field_map(fields);
    lemma_first_missing(declared, bound_fields);
    lemma_walk_comes_to_the_end_of_clean_pairs(prefix, declared, fields);
    if clean(declared, fields) && populated(declared.take(i), bound_fields) {
        let name = first_missing(declared, bound_fields)->0;
        let k = choose|k: int|
            0 <= k < declared.len() && (#[trigger] declared[k]).name == name
                && !bound_fields.contains_key(name) && populated(declared.take(k), bound_fields);
        if k < i {
            assert(declared.take(i)[k] == declared[k]);
        }
        if i < k {
            assert(declared.take(k)[i] == declared[i]);
        }
    }
}

/// A failure names a declared field of the record under whose prefix it arose: one
/// without a value; or a port field, with the value that a pair gives it and that writes
/// no port; or a field that two of the pairs name.
pub proof fn lemma_failure_names_a_declared_field(
    prefix: Seq<char>,
    declared: Seq<Field>,
    fields: Seq<(Seq<char>, Seq<char>)>,
)
    ensures
        match failure(prefix, declared, fields) {
            Some(DecodeFailureView::MissingField { prefix: under, field }) => under == prefix
                && declares(declared, field) && !field_map(fields).contains_key(field),
            Some(DecodeFailureView::TypeCoercion { prefix: under, field, value, target }) => under
                == prefix && holds_port(declared, field) && Port::parse_spec(value) is None
                && exists|j: int| 0 <= j < fields.len() && #[trigger] fields[j] == (field, value),
            Some(DecodeFailureView::DuplicateField { prefix: under, field }) => under == prefix
                && declares(declared, field) && exists|j: int, k: int|
                0 <= j < k < fields.len() && (#[trigger] fields[j]).0 == field && (
                #[trigger] fields[k]).0 == field,
            None => true,
        },
{
    lemma_first_missing(declared, field_map(fields));
    if walk_failure(prefix, declared, fields) is Some {
        lemma_walk_failure_is_of_a_pair(prefix, declared, fields);
        let k = choose|k: int| #[trigger]
            is_first_defect(prefix, declared, fields, k) && walk_failure(prefix, declared, fields)
                == defect(prefix, declared, fields.take(k), fields[k].0, fields[k].1);
        let name = fields[k].0;
        if names(fields.take(k), name) {
            let j = choose|j: int|
                0 <= j < fields.take(k).len() && (#[trigger] fields.take(k)[j]).0 == name;
            assert(fields[j].0 == name);
            assert(fields[k].0 == name);
        } else {
            assert(fields[k] == (name, fields[k].1));
        }
    } else if first_missing(declared, field_map(fields)) is Some {
        let name = first_missing(declared, field_map(fields))->0;
        let i = choose|i: int|
            0 <= i < declared.len() && (#[trigger] declared[i]).name == name && !field_map(
                fields,
            ).contains_key(name) && populated(declared.take(i), field_map(fields));
        assert(declares(declared, name));
    }
}

/// The two mappings give the same to every one of the `declared` fields.
pub open spec fn agree_on(
    declared: Seq<Field>,
    fields: Map<Seq<char>, Seq<char>>,
    others: Map<Seq<char>, Seq<char>>,
) -> bool {
    forall|name: Seq<char>| #[trigger]
        declares(declared, name) ==> fields.contains_key(name) == others.contains_key(name)
            && fields[name] == others[name]
}

/// Mappings that agree on the declared fields have the same first field without a value.
proof fn lemma_agreeing_fields(
    declared: Seq<Field>,
    all: Seq<Field>,
    fields: Map<Seq<char>, Seq<char>>,
    others: Map<Seq<char>, Seq<char>>,
)
    requires
        agree_on(all, fields, others),
        forall|i: int| 0 <= i < declared.len() ==> declares(all, (#[trigger] declared[i]).name),
    ensures
        first_missing(declared, fields) == first_missing(declared, others),
    decreases declared.len(),
{
    if declared.len() > 0 {
        let rest = declared.drop_first();
        assert(declares(all, declared[0].name));
        assert forall|i: int| 0 <= i < rest.len() implies declares(
            all,
            (#[trigger] rest[i]).name,
        ) by {
            assert(rest[i] == declared[i + 1]);
        }
        lemma_agreeing_fields(rest, all, fields, others);
    }
}

/// A pair put into a list of named pairs leaves every name but its own as it was.
pub proof fn lemma_other_names_keep_their_values(
    fields: Seq<(Seq<char>, Seq<char>)>,
    at: int,
    pair: (Seq<char>, Seq<char>),
    name: Seq<char>,
)
    requires
        0 <= at <= fields.len(),
        pair.0 != name,
    ensures
        field_map(fields.insert(at, pair)).contains_key(name) == field_map(fields).contains_key(
            name,
        ),
        field_map(fields.insert(at, pair))[name] == field_map(fields)[name],
        names(fields.insert(at, pair), name) == names(fields, name),
    decreases fields.len(),
{
    let with = fields.insert(at, pair);
    if at == fields.len() {
        assert(with.drop_last() =~= fields);
    } else {
        assert(with.drop_last() =~= fields.drop_last().insert(at, pair));
        lemma_other_names_keep_their_values(fields.drop_last(), at, pair, name);
    }
    lemma_field_map_holds_the_names(with, name);
    lemma_field_map_holds_the_names(fields, name);
}

/// A pair that names no declared field changes nothing of the decoding, wherever it
/// stands among the named pairs: the walk meets the same failure or none, and every
/// declared field keeps what it has.
pub proof fn lemma_unknown_name_is_passed_over(
    prefix: Seq<char>,
    declared: Seq<Field>,
    fields: Seq<(Seq<char>, Seq<char>)>,
    at: int,
    pair: (Seq<char>, Seq<char>),
)
    requires
        0 <= at <= fields.len(),
        !declares(declared, pair.0),
    ensures
        walk_failure(prefix, declared, fields.insert(at, pair)) == walk_failure(
            prefix,
            declared,
            fields,
        ),
        agree_on(declared, field_map(fields.insert(at, pair)), field_map(fields)),
        failure(prefix, declared, fields.insert(at, pair)) == failure(prefix, declared, fields),
    decreases fields.len(),
{
    let with = fields.insert(at, pair);
    if at == fields.len() {
        assert(with.drop_last() =~= fields);
    } else {
        let earlier = fields.drop_last();
        assert(with.drop_last() =~= earlier.insert(at, pair));
        assert(with.last() == fields.last());
        lemma_unknown_name_is_passed_over(prefix, declared, earlier, at, pair);
        if declares(declared, fields.last().0) {
            lemma_other_names_keep_their_values(earlier, at, pair, fields.last().0);
        }
    }
    assert forall|name: Seq<char>| #[trigger] declares(declared, name) implies field_map(
        with,
    ).contains_key(name) == field_map(fields).contains_key(name) && field_map(with)[name]
        == field_map(fields)[name] by {
        lemma_other_names_keep_their_values(fields, at, pair, name);
    }
    assert forall|i: int| 0 <= i < declared.len() implies declares(
        declared,
        (#[trigger] declared[i]).name,
    ) by {}
    lemma_agreeing_fields(declared, declared, field_map(with), field_map(fields));
}

/// The key of a pair means nothing to a record: it does not begin with the record's
/// prefix, or what its selector names is none of the record's declared fields.
pub open spec fn unknown_to(prefix: Seq<char>, declared: Seq<Field>, key: Seq<char>) -> bool {
    has_prefix(key, prefix) ==> !declares(declared, field_name(selector(key, prefix)))
}

/// A pair put among the others is, where its key begins with the prefix, one more pair
/// among the selected ones, and otherwise none.
pub proof fn lemma_selecting_after_an_insertion(
    prefix: Seq<char>,
    pairs: Seq<(Seq<char>, Seq<char>)>,
    at: int,
    pair: (Seq<char>, Seq<char>),
)
    requires
        0 <= at <= pairs.len(),
    ensures
        !has_prefix(pair.0, prefix) ==> selected(prefix, pairs.insert(at, pair)) == selected(
            prefix,
            pairs,
        ),
        has_prefix(pair.0, prefix) ==> exists|k: int|
            0 <= k <= selected(prefix, pairs).len() && selected(prefix, pairs.insert(at, pair))
                == #[trigger] selected(prefix, pairs).insert(
                k,
                (selector(pair.0, prefix), pair.1),
            ),
    decreases pairs.len(),
{
    let with = pairs.insert(at, pair);
    let kept = (selector(pair.0, prefix), pair.1);
    if at == pairs.len() {
        assert(with.drop_last() =~= pairs);
        if has_prefix(pair.0, prefix) {
            let k = selected(prefix, pairs).len() as int;
            assert(selected(prefix, with) =~= selected(prefix, pairs).insert(k, kept));
        }
    } else {
        let earlier = pairs.drop_last();
        assert(with.drop_last() =~= earlier.insert(at, pair));
        assert(with.last() == pairs.last());
        lemma_selecting_after_an_insertion(prefix, earlier, at, pair);
        if has_prefix(pair.0, prefix) {
            let k = choose|k: int|
                0 <= k <= selected(prefix, earlier).len() && selected(
                    prefix,
                    earlier.insert(at, pair),
                ) == #[trigger] selected(prefix, earlier).insert(k, kept);
            assert(selected(prefix, with) =~= selected(prefix, pairs).insert(k, kept));
        }
    }
}

/// A pair whose key means nothing to a record changes nothing of the record's decoding,
/// wherever it stands among the others: the failure is the same, or there is none as
/// before, and every declared field keeps what it has.
pub proof fn lemma_unknown_pair_is_ignored(
    prefix: Seq<char>,
    declared: Seq<Field>,
    pairs: Seq<(Seq<char>, Seq<char>)>,
    at: int,
    pair: (Seq<char>, Seq<char>),
)
    requires
        0 <= at <= pairs.len(),
        unknown_to(prefix, declared, pair.0),
    ensures
        failure(prefix, declared, named_under(prefix, pairs.insert(at, pair))) == failure(
            prefix,
            declared,
            named_under(prefix, pairs),
        ),
        agree_on(
            declared,
            field_map(named_under(prefix, pairs.insert(at, pair))),
            field_map(named_under(prefix, pairs)),
        ),
{
    lemma_selecting_after_an_insertion(prefix, pairs, at, pair);
    if has_prefix(pair.0, prefix) {
        let kept = (selector(pair.0, prefix), pair.1);
        let k = choose|k: int|
            0 <= k <= selected(prefix, pairs).len() && selected(prefix, pairs.insert(at, pair))
                == #[trigger] selected(prefix, pairs).insert(k, kept);
        let one = (field_name(kept.0), kept.1);
        assert(named(selected(prefix, pairs).insert(k, kept)) =~= named(
            selected(prefix, pairs),
        ).insert(k, one));
        lemma_unknown_name_is_passed_over(prefix, declared, named_under(prefix, pairs), k, one);
    }
}

} // verus!
