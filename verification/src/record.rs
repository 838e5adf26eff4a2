//! What the decoding of every record is made of: the fields that a record declares, the
//! walk through the named pairs that fills them, the failure that the walk or a field
//! without a value gives rise to, and the reading of one field.
//!
//! The pairs are walked in their order. A pair that names a declared field for the
//! second time ends the walk with a failure, and so does a pair whose value does not
//! write what its field holds; whichever comes first in the list decides. Pairs that name
//! no declared field are passed over. Only after the walk is the first declared field
//! without a value reported.

use crate::binding::{field_map, lookup, pairs_view};
use crate::failure::{failure_view, DecodeFailure, DecodeFailureView};
use crate::port::Port;
use vstd::prelude::*;

verus! {

/// What the value of a field is read as.
#[derive(Clone, Copy, Debug, PartialEq, Eq, Structural)]
pub enum FieldKind {
    /// The value as it stands.
    Text,
    /// A port number.
    Port,
}

/// A field that a record declares.
pub struct Field {
    pub name: Seq<char>,
    pub kind: FieldKind,
}

/// The declaration of a field that holds text.
pub open spec fn text_field(name: Seq<char>) -> Field {
    Field { name, kind: FieldKind::Text }
}

/// The declaration of a field that holds a port.
pub open spec fn port_field_named(name: Seq<char>) -> Field {
    Field { name, kind: FieldKind::Port }
}

/// The declared fields as plain text.
pub open spec fn declared_view(declared: Seq<(String, FieldKind)>) -> Seq<Field> {
    declared.map_values(|field: (String, FieldKind)| Field { name: field.0@, kind: field.1 })
}

/// `name` is the name of one of the `declared` fields.
pub open spec fn declares(declared: Seq<Field>, name: Seq<char>) -> bool {
    exists|i: int| 0 <= i < declared.len() && (#[trigger] declared[i]).name == name
}

/// `name` is the name of one of the `declared` fields that hold a port.
pub open spec fn holds_port(declared: Seq<Field>, name: Seq<char>) -> bool {
    exists|i: int|
        0 <= i < declared.len() && (#[trigger] declared[i]).name == name
            && declared[i].kind is Port
}

/// One of the pairs of `fields` has the name `name`.
pub open spec fn names(fields: Seq<(Seq<char>, Seq<char>)>, name: Seq<char>) -> bool {
    exists|j: int| 0 <= j < fields.len() && (#[trigger] fields[j]).0 == name
}

/// The failure that a pair of `name` and `value` gives rise to when it is met after the
/// pairs `before`; `None` where it fills a field or is passed over.
pub open spec fn defect(
    prefix: Seq<char>,
    declared: Seq<Field>,
    before: Seq<(Seq<char>, Seq<char>)>,
    name: Seq<char>,
    value: Seq<char>,
) -> Option<DecodeFailureView> {
    if !declares(declared, name) {
        None
    } else if names(before, name) {
        Some(DecodeFailureView::DuplicateField { prefix, field: name })
    } else if holds_port(declared, name) && Port::parse_spec(value) is None {
        Some(DecodeFailureView::TypeCoercion { prefix, field: name, value, target: "Port"@ })
    } else {
        None
    }
}

/// The failure that ends the walk through `fields`: that of the first pair, in the order
/// of the list, that gives rise to one. `None` where the walk comes to the end.
pub open spec fn walk_failure(
    prefix: Seq<char>,
    declared: Seq<Field>,
    fields: Seq<(Seq<char>, Seq<char>)>,
) -> Option<DecodeFailureView>
    decreases fields.len(),
{
    if fields.len() == 0 {
        None
    } else if walk_failure(prefix, declared, fields.drop_last()) is Some {
        walk_failure(prefix, declared, fields.drop_last())
    } else {
        defect(prefix, declared, fields.drop_last(), fields.last().0, fields.last().1)
    }
}

/// The first of the `declared` fields, in their order, to which `fields` gives no value.
pub open spec fn first_missing(declared: Seq<Field>, fields: Map<Seq<char>, Seq<char>>) -> Option<
    Seq<char>,
>
    decreases declared.len(),
{
    if declared.len() == 0 {
        None
    } else if !fields.contains_key(declared.first().name) {
        Some(declared.first().name)
    } else {
        first_missing(declared.drop_first(), fields)
    }
}

/// The failure of decoding a record with the `declared` fields from the named pairs
/// `fields`, held under `prefix`; `None` where the record can be made. The failure that
/// ends the walk through the pairs comes first; after a walk to the end, the first
/// declared field without a value is reported.
pub open spec fn failure(
    prefix: Seq<char>,
    declared: Seq<Field>,
    fields: Seq<(Seq<char>, Seq<char>)>,
) -> Option<DecodeFailureView> {
    if walk_failure(prefix, declared, fields) is Some {
        walk_failure(prefix, declared, fields)
    } else if first_missing(declared, field_map(fields)) is Some {
        Some(
            DecodeFailureView::MissingField {
                prefix,
                field: first_missing(declared, field_map(fields))->0,
            },
        )
    } else {
        None
    }
}

/// `fields` gives every one of the `declared` fields a value.
pub open spec fn populated(declared: Seq<Field>, fields: Map<Seq<char>, Seq<char>>) -> bool {
    forall|i: int| 0 <= i < declared.len() ==> fields.contains_key(#[trigger] declared[i].name)
}

/// `fields` gives the field `name` a value that writes no port.
pub open spec fn mistyped_port(fields: Map<Seq<char>, Seq<char>>, name: Seq<char>) -> bool {
    fields.contains_key(name) && Port::parse_spec(fields[name]) is None
}

/// The failure that reports the value of the port field `name` as no port.
pub open spec fn port_failure(
    prefix: Seq<char>,
    fields: Map<Seq<char>, Seq<char>>,
    name: Seq<char>,
) -> DecodeFailureView {
    DecodeFailureView::TypeCoercion { prefix, field: name, value: fields[name], target: "Port"@ }
}

/// A mapping holds a name exactly where one of the pairs it was made of has the name.
pub proof fn lemma_field_map_holds_the_names(fields: Seq<(Seq<char>, Seq<char>)>, name: Seq<char>)
    ensures
        field_map(fields).contains_key(name) <==> names(fields, name),
    decreases fields.len(),
{
    if fields.len() > 0 {
        let earlier = fields.drop_last();
        lemma_field_map_holds_the_names(earlier, name);
        if names(earlier, name) {
            let j = choose|j: int| 0 <= j < earlier.len() && (#[trigger] earlier[j]).0 == name;
            assert(fields[j].0 == name);
        }
        if names(fields, name) {
            let j = choose|j: int| 0 <= j < fields.len() && (#[trigger] fields[j]).0 == name;
            if j < fields.len() - 1 {
                assert(earlier[j].0 == name);
            }
        }
        if fields.last().0 == name {
            assert(fields[fields.len() - 1].0 == name);
        }
    }
}

/// A failure that ends the walk through the beginning of a list ends the walk through
/// the whole list.
pub proof fn lemma_walk_ends_at_the_first_failure(
    prefix: Seq<char>,
    declared: Seq<Field>,
    fields: Seq<(Seq<char>, Seq<char>)>,
    k: int,
)
    requires
        0 <= k <= fields.len(),
        walk_failure(prefix, declared, fields.take(k)) is Some,
    ensures
        walk_failure(prefix, declared, fields) == walk_failure(prefix, declared, fields.take(k)),
    decreases fields.len(),
{
    if k == fields.len() {
        assert(fields.take(k) =~= fields);
    } else {
        assert(fields.drop_last().take(k) =~= fields.take(k));
        lemma_walk_ends_at_the_first_failure(prefix, declared, fields.drop_last(), k);
    }
}

/// After a walk to the end, the value of every port field writes a port.
pub proof fn lemma_walked_ports_are_ports(
    prefix: Seq<char>,
    declared: Seq<Field>,
    fields: Seq<(Seq<char>, Seq<char>)>,
    name: Seq<char>,
)
    requires
        walk_failure(prefix, declared, fields) is None,
        holds_port(declared, name),
    ensures
        !mistyped_port(field_map(fields), name),
    decreases fields.len(),
{
    if fields.len() > 0 {
        let earlier = fields.drop_last();
        if fields.last().0 == name {
            let i = choose|i: int|
                0 <= i < declared.len() && (#[trigger] declared[i]).name == name
                    && declared[i].kind is Port;
            assert(declares(declared, name));
        } else {
            lemma_walked_ports_are_ports(prefix, declared, earlier, name);
        }
    }
}

/// Whether one of the declared fields has the name, and whether one that holds a port
/// has it.
fn declared_as(declared: &Vec<(String, FieldKind)>, name: &String) -> (found: (bool, bool))
    ensures
        found.0 == declares(declared_view(declared@), name@),
        found.1 == holds_port(declared_view(declared@), name@),
{
    let ghost all = declared_view(declared@);
    let mut any: bool = false;
    let mut port: bool = false;
    let mut i: usize = 0;
    while i < declared.len()
        invariant
            i <= declared.len(),
            all == declared_view(declared@),
            any <==> exists|j: int| 0 <= j < i && (#[trigger] all[j]).name == name@,
            port <==> exists|j: int|
                0 <= j < i && (#[trigger] all[j]).name == name@ && all[j].kind is Port,
        decreases declared.len() - i,
    {
        if declared[i].0 == *name {
            any = true;
            match declared[i].1 {
                FieldKind::Port => {
                    port = true;
                },
                FieldKind::Text => {},
            }
            proof {
                assert(all[i as int].name == name@);
            }
        }
        i = i + 1;
    }
    (any, port)
}

/// Whether one of the pairs before the one at `at` has the name of that one.
fn named_before(fields: &Vec<(String, String)>, at: usize) -> (found: bool)
    requires
        at < fields.len(),
    ensures
        found == names(pairs_view(fields@).take(at as int), fields[at as int].0@),
{
    let ghost before = pairs_view(fields@).take(at as int);
    let mut j: usize = 0;
    while j < at
        invariant
            j <= at,
            at < fields.len(),
            before == pairs_view(fields@).take(at as int),
            forall|k: int| 0 <= k < j ==> (#[trigger] before[k]).0 != fields[at as int].0@,
        decreases at - j,
    {
        if fields[j].0 == fields[at].0 {
            proof {
                assert(before[j as int].0 == fields[at as int].0@);
            }
            return true;
        }
        j = j + 1;
    }
    false
}

/// Walks through the named pairs and gives the failure that ends the walk, if one does.
pub fn walk(
    prefix: &str,
    declared: &Vec<(String, FieldKind)>,
    fields: &Vec<(String, String)>,
) -> (met: Option<DecodeFailure>)
    ensures
        failure_view(met) == walk_failure(
            prefix@,
            declared_view(declared@),
            pairs_view(fields@),
        ),
{
    let ghost all = pairs_view(fields@);
    let ghost fields_declared = declared_view(declared@);
    let mut i: usize = 0;
    while i < fields.len()
        invariant
            i <= fields.len(),
            all == pairs_view(fields@),
            fields_declared == declared_view(declared@),
            walk_failure(prefix@, fields_declared, all.take(i as int)) is None,
        decreases fields.len() - i,
    {
        proof {
            assert(all.take(i + 1).drop_last() =~= all.take(i as int));
            assert(all.take(i + 1).last() == (fields[i as int].0@, fields[i as int].1@));
        }
        let found = declared_as(declared, &fields[i].0);
        if found.0 {
            if named_before(fields, i) {
                proof {
                    lemma_walk_ends_at_the_first_failure(prefix@, fields_declared, all, i + 1);
                }
                return Some(DecodeFailure::duplicate(prefix, fields[i].0.as_str()));
            }
            if found.1 {
                match Port::parse(fields[i].1.as_str()) {
                    Some(_) => {},
                    None => {
                        proof {
                            lemma_walk_ends_at_the_first_failure(
                                prefix@,
                                fields_declared,
                                all,
                                i + 1,
                            );
                        }
                        return Some(
                            DecodeFailure::mistyped(
                                prefix,
                                fields[i].0.as_str(),
                                fields[i].1.as_str(),
                                "Port",
                            ),
                        );
                    },
                }
            }
        }
        i = i + 1;
    }
    proof {
        assert(all.take(i as int) =~= all);
    }
    None
}

/// The value of a field that must have one.
pub fn required(prefix: &str, fields: &Vec<(String, String)>, name: &str) -> (value: Result<
    String,
    DecodeFailure,
>)
    ensures
        match value {
            Ok(text) => field_map(pairs_view(fields@)).contains_key(name@) && text@ == field_map(
                pairs_view(fields@),
            )[name@],
            Err(failure) => !field_map(pairs_view(fields@)).contains_key(name@) && failure@ == (
            DecodeFailureView::MissingField { prefix: prefix@, field: name@ }),
        },
{
    match lookup(fields, name) {
        Some(text) => Ok(text.clone()),
        None => Err(DecodeFailure::missing(prefix, name)),
    }
}

/// The port that a field holds, where the field has a value: `None` where it has none,
/// and a failure where its value writes no port.
pub fn port_field(prefix: &str, fields: &Vec<(String, String)>, name: &str) -> (port: Result<
    Option<Port>,
    DecodeFailure,
>)
    ensures
        match port {
            Ok(Some(number)) => field_map(pairs_view(fields@)).contains_key(name@)
                && Port::parse_spec(field_map(pairs_view(fields@))[name@]) == Some(number),
            Ok(None) => !field_map(pairs_view(fields@)).contains_key(name@),
            Err(failure) => mistyped_port(field_map(pairs_view(fields@)), name@) && failure@
                == port_failure(prefix@, field_map(pairs_view(fields@)), name@),
        },
{
    match lookup(fields, name) {
        None => Ok(None),
        Some(text) => match Port::parse(text.as_str()) {
            Some(number) => Ok(Some(number)),
            None => Err(DecodeFailure::mistyped(prefix, name, text.as_str(), "Port")),
        },
    }
}

} // verus!
