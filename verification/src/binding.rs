//! Binding under a prefix: which field names a list of key/value pairs gives values to.
//!
//! The pairs whose key begins with the prefix are kept, and the prefix is taken from the
//! start of each kept key, once: what is left of the key is its selector. Each selector
//! is handed to `envy`, which turns it into a field name. The kept pairs come out in
//! their order, each under the name of its field.

use crate::failure::{result_view, DecodeFailure, DecodeFailureView};
use std::collections::BTreeMap;
use vstd::pervasive::unreached;
use vstd::prelude::*;

verus! {

/// The pairs as plain text: each key and each value by its characters.
pub open spec fn pairs_view(pairs: Seq<(String, String)>) -> Seq<(Seq<char>, Seq<char>)> {
    pairs.map_values(|pair: (String, String)| (pair.0@, pair.1@))
}

/// `key` begins with `prefix`, character for character.
pub open spec fn has_prefix(key: Seq<char>, prefix: Seq<char>) -> bool {
    prefix.len() <= key.len() && key.take(prefix.len() as int) == prefix
}

/// What is left of a key that begins with `prefix` when the prefix is taken from its
/// start, once.
pub open spec fn selector(key: Seq<char>, prefix: Seq<char>) -> Seq<char> {
    key.skip(prefix.len() as int)
}

/// The pairs whose key begins with `prefix`, in their order, each with the selector of
/// its key in place of the key.
pub open spec fn selected(prefix: Seq<char>, pairs: Seq<(Seq<char>, Seq<char>)>) -> Seq<
    (Seq<char>, Seq<char>),
>
    decreases pairs.len(),
{
    if pairs.len() == 0 {
        Seq::empty()
    } else if has_prefix(pairs.last().0, prefix) {
        selected(prefix, pairs.drop_last()).push(
            (selector(pairs.last().0, prefix), pairs.last().1),
        )
    } else {
        selected(prefix, pairs.drop_last())
    }
}

/// Every character of `text` is one of the 128 of ASCII.
pub open spec fn is_ascii_text(text: Seq<char>) -> bool {
    forall|i: int| 0 <= i < text.len() ==> (#[trigger] text[i]) as u32 <= 127
}

/// The small letter of a capital letter of ASCII, and every other character as it is.
pub open spec fn lower_case_char(c: char) -> char {
    if 'A' <= c && c <= 'Z' {
        ((c as u8 + 32) as u8) as char
    } else {
        c
    }
}

/// `text` with its capital letters of ASCII made small, character by character.
pub open spec fn lower_case(text: Seq<char>) -> Seq<char> {
    text.map_values(|c: char| lower_case_char(c))
}

/// The field name that `envy::from_iter` makes of a selector: the selector in lower
/// case, as Unicode has it.
pub uninterp spec fn envy_field_name(selector: Seq<char>) -> Seq<char>;

/// The field name of a selector: the selector in lower case. For a selector of ASCII
/// that is said character by character; for any other it is what `envy` makes of it.
pub open spec fn field_name(selector: Seq<char>) -> Seq<char> {
    if is_ascii_text(selector) {
        lower_case(selector)
    } else {
        envy_field_name(selector)
    }
}

/// The mapping that a list of named values stands for. Where a name occurs more than
/// once, the last occurrence gives its value.
pub open spec fn field_map(fields: Seq<(Seq<char>, Seq<char>)>) -> Map<Seq<char>, Seq<char>>
    decreases fields.len(),
{
    if fields.len() == 0 {
        Map::empty()
    } else {
        field_map(fields.drop_last()).insert(fields.last().0, fields.last().1)
    }
}

/// The list of selectors with their values, each under the field name of its selector.
pub open spec fn named(selectors: Seq<(Seq<char>, Seq<char>)>) -> Seq<(Seq<char>, Seq<char>)> {
    selectors.map_values(|pair: (Seq<char>, Seq<char>)| (field_name(pair.0), pair.1))
}

/// The pairs that `pairs` hold under `prefix`, in their order, each under the field name
/// of its selector.
pub open spec fn named_under(prefix: Seq<char>, pairs: Seq<(Seq<char>, Seq<char>)>) -> Seq<
    (Seq<char>, Seq<char>),
> {
    named(selected(prefix, pairs))
}

/// The fields that `pairs` bind under `prefix`, where `naming` turns a selector into a
/// field name: every pair whose key begins with the prefix gives its value to the field
/// that the selector of its key names, and the last pair that names a field is the one
/// whose value the mapping holds. Pairs with other keys bind nothing.
pub open spec fn bound(
    prefix: Seq<char>,
    pairs: Seq<(Seq<char>, Seq<char>)>,
    naming: spec_fn(Seq<char>) -> Seq<char>,
) -> Map<Seq<char>, Seq<char>>
    decreases pairs.len(),
{
    if pairs.len() == 0 {
        Map::empty()
    } else if has_prefix(pairs.last().0, prefix) {
        bound(prefix, pairs.drop_last(), naming).insert(
            naming(selector(pairs.last().0, prefix)),
            pairs.last().1,
        )
    } else {
        bound(prefix, pairs.drop_last(), naming)
    }
}

/// The naming of selectors: `field_name`.
pub open spec fn naming() -> spec_fn(Seq<char>) -> Seq<char> {
    |selector: Seq<char>| field_name(selector)
}

/// The fields that `pairs` bind under `prefix`, each under the field name of its
/// selector.
pub open spec fn bound_under(prefix: Seq<char>, pairs: Seq<(Seq<char>, Seq<char>)>) -> Map<
    Seq<char>,
    Seq<char>,
> {
    bound(prefix, pairs, naming())
}

/// The mapping of the named pairs under a prefix is the fields bound under it.
pub proof fn lemma_named_pairs_bind(prefix: Seq<char>, pairs: Seq<(Seq<char>, Seq<char>)>)
    ensures
        field_map(named_under(prefix, pairs)) == bound_under(prefix, pairs),
    decreases pairs.len(),
{
    if pairs.len() > 0 {
        lemma_named_pairs_bind(prefix, pairs.drop_last());
        if has_prefix(pairs.last().0, prefix) {
            let kept = selected(prefix, pairs.drop_last());
            let last = (selector(pairs.last().0, prefix), pairs.last().1);
            assert(named(kept.push(last)).drop_last() =~= named(kept));
        }
    } else {
        assert(named_under(prefix, pairs) =~= Seq::empty());
    }
}

/// Keeps the pairs whose key begins with the prefix, and takes the prefix from the start
/// of each kept key, once.
pub fn select(prefix: &str, pairs: &Vec<(String, String)>) -> (kept: Vec<(String, String)>)
    ensures
        pairs_view(kept@) == selected(prefix@, pairs_view(pairs@)),
{
    let wanted: String = prefix.to_owned();
    let width: usize = prefix.unicode_len();
    let ghost all = pairs_view(pairs@);
    let mut kept: Vec<(String, String)> = Vec::new();
    let mut i: usize = 0;
    proof {
        assert(pairs_view(kept@) =~= Seq::empty());
    }
    while i < pairs.len()
        invariant
            i <= pairs.len(),
            all == pairs_view(pairs@),
            wanted@ == prefix@,
            width == prefix@.len(),
            pairs_view(kept@) == selected(prefix@, all.take(i as int)),
        decreases pairs.len() - i,
    {
        let key: &str = pairs[i].0.as_str();
        let length: usize = key.unicode_len();
        let ghost before = pairs_view(kept@);
        proof {
            assert(all.take(i + 1).drop_last() =~= all.take(i as int));
            assert(all.take(i + 1).last() == (pairs[i as int].0@, pairs[i as int].1@));
        }
        if width <= length && key.substring_char(0, width).to_owned() == wanted {
            let rest: String = key.substring_char(width, length).to_owned();
            let value: String = pairs[i].1.clone();
            kept.push((rest, value));
            proof {
                assert(pairs_view(kept@) =~= before.push(
                    (selector(key@, prefix@), pairs[i as int].1@),
                ));
            }
        }
        i = i + 1;
    }
    proof {
        assert(all.take(i as int) =~= all);
    }
    kept
}

/// `envy::Error`, the failure of a call into `envy`. Nothing is said of what it holds.
#[verifier::external_type_specification]
#[verifier::external_body]
pub struct ExEnvyError(envy::Error);

/// `envy::from_iter` on a list of the one pair of `selector` and an empty value, asked
/// for a `BTreeMap<String, String>`, whose keys are handed out as a list.
///
/// Nothing of this is proved. It is taken from the source of `envy`, and of `serde` for
/// the map: the call puts the pair into the map, its key in lower case. Lower case is
/// that of `str::to_lowercase`, which on ASCII makes the capital letters small and leaves
/// the rest. A map of strings takes every string, so the call returns `Ok`, and the map
/// has the one key.
#[verifier::external_body]
fn envy_names(selector: &String) -> (names: Result<Vec<String>, envy::Error>)
    ensures
        names is Ok,
        names matches Ok(list) ==> list@.len() == 1 && list@[0]@ == (if is_ascii_text(
            selector@,
        ) {
            lower_case(selector@)
        } else {
            envy_field_name(selector@)
        }),
{
    let pair = (selector.clone(), String::new());
    let map: BTreeMap<String, String> = envy::from_iter(std::iter::once(pair))?;
    Ok(map.into_keys().collect())
}

/// The field name of a selector, as `envy` makes it.
pub fn name_of(selector: &String) -> (name: String)
    ensures
        name@ == field_name(selector@),
{
    match envy_names(selector) {
        Ok(names) => names[0].clone(),
        Err(_) => unreached(),
    }
}

/// Binds the pairs under a prefix: the pairs whose key begins with the prefix, in their
/// order, each under the name of the field that its key names.
pub fn bind(prefix: &str, pairs: &Vec<(String, String)>) -> (fields: Vec<(String, String)>)
    ensures
        pairs_view(fields@) == named_under(prefix@, pairs_view(pairs@)),
{
    let kept = select(prefix, pairs);
    let ghost selectors = pairs_view(kept@);
    let mut fields: Vec<(String, String)> = Vec::new();
    let mut i: usize = 0;
    proof {
        assert(pairs_view(fields@) =~= named(selectors).take(0));
    }
    while i < kept.len()
        invariant
            i <= kept.len(),
            selectors == pairs_view(kept@),
            pairs_view(fields@) == named(selectors).take(i as int),
        decreases kept.len() - i,
    {
        let ghost before = pairs_view(fields@);
        let name: String = name_of(&kept[i].0);
        let value: String = kept[i].1.clone();
        fields.push((name, value));
        proof {
            assert(pairs_view(fields@) =~= before.push(named(selectors)[i as int]));
            assert(named(selectors).take(i + 1) =~= before.push(named(selectors)[i as int]));
        }
        i = i + 1;
    }
    proof {
        assert(named(selectors).take(i as int) =~= named(selectors));
    }
    fields
}

/// The value that a list of named values gives to `name`, if it gives one.
pub fn lookup<'a>(fields: &'a Vec<(String, String)>, name: &str) -> (value: Option<&'a String>)
    ensures
        match value {
            Some(text) => field_map(pairs_view(fields@)).contains_key(name@) && field_map(
                pairs_view(fields@),
            )[name@] == text@,
            None => !field_map(pairs_view(fields@)).contains_key(name@),
        },
{
    let wanted: String = name.to_owned();
    let ghost all = pairs_view(fields@);
    let mut i: usize = fields.len();
    proof {
        assert(all.take(i as int) =~= all);
    }
    while i > 0
        invariant
            i <= fields.len(),
            all == pairs_view(fields@),
            wanted@ == name@,
            field_map(all).contains_key(name@) <==> field_map(all.take(i as int)).contains_key(
                name@,
            ),
            field_map(all).contains_key(name@) ==> field_map(all)[name@] == field_map(
                all.take(i as int),
            )[name@],
        decreases i,
    {
        proof {
            assert(all.take(i as int).drop_last() =~= all.take(i - 1));
        }
        i = i - 1;
        if fields[i].0 == wanted {
            return Some(&fields[i].1);
        }
    }
    None
}

/// A configuration that is read from a list of key/value pairs, such as the variables of
/// the environment. The list is only read, and it alone decides what comes out.
pub trait FromEnvLikeKeyValuePairs: Sized + View {
    /// What the pairs make: the configuration, or the first failure met.
    spec fn from_iter_spec(pairs: Seq<(Seq<char>, Seq<char>)>) -> Result<
        Self::V,
        DecodeFailureView,
    >;

    /// Reads the configuration from the pairs.
    fn from_iter(pairs: &Vec<(String, String)>) -> (loaded: Result<Self, DecodeFailure>)
        ensures
            result_view(loaded) == Self::from_iter_spec(pairs_view(pairs@)),
    ;
}

} // verus!
