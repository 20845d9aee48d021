//! Element keys in script arguments and script results. A legacy session wants an
//! element's id under the legacy key and sends it back under that key; callers hand
//! in and get back the W3C key. On the way out and on the way in, the key is renamed in
//! every object of the value.

use crate::client::spec_parse_lookup;
use crate::element::{element_value, w3c_key, LEGACY_ELEMENT_KEY};
use crate::error::Failure;
use crate::json::{
    items_view, lemma_array_view, lemma_lookup_place, lemma_lookup_well_formed,
    lemma_object_view, lemma_with_holds, lemma_with_lookup, lemma_with_well_formed,
    lemma_without_all_holds, lemma_without_all_lookup, lemma_without_all_well_formed, lookup,
    members_view, put, take_all, with, without_all, Json, JsonValue,
};
use vstd::prelude::*;

verus! {

/// The members with the key `from` renamed to `to`: what the members read under the
/// first stands under the second, in the place of a member of that name or at the end,
/// and no member named `from` is left. Members without the key `from` stay as they
/// are.
pub open spec fn rekeyed(
    members: Seq<(Seq<char>, JsonValue)>,
    from: Seq<char>,
    to: Seq<char>,
) -> Seq<(Seq<char>, JsonValue)> {
    match lookup(members, from) {
        Some(id) => with(without_all(members, from), to, id),
        None => members,
    }
}

/// The value with the key `from` renamed to `to` in every object below it: in the items
/// of an array, and in the values of an object's members.
pub open spec fn renamed_below(value: JsonValue, from: Seq<char>, to: Seq<char>) -> JsonValue
    decreases value, 0nat,
{
    match value {
        JsonValue::Array(items) => JsonValue::Array(
            Seq::new(
                items.len(),
                |i: int|
                    if 0 <= i < items.len() {
                        renamed(items[i], from, to)
                    } else {
                        JsonValue::Null
                    },
            ),
        ),
        JsonValue::Object(members) => JsonValue::Object(
            Seq::new(
                members.len(),
                |i: int|
                    if 0 <= i < members.len() {
                        (members[i].0, renamed(members[i].1, from, to))
                    } else {
                        (Seq::empty(), JsonValue::Null)
                    },
            ),
        ),
        _ => value,
    }
}

/// The value with the key `from` renamed to `to` in every object, at any depth: below
/// the value first, then in the value itself if it is an object.
pub open spec fn renamed(value: JsonValue, from: Seq<char>, to: Seq<char>) -> JsonValue
    decreases value, 1nat,
{
    match renamed_below(value, from, to) {
        JsonValue::Object(members) => JsonValue::Object(rekeyed(members, from, to)),
        other => other,
    }
}

/// The items, each with the key renamed.
pub open spec fn renamed_items(items: Seq<JsonValue>, from: Seq<char>, to: Seq<char>) -> Seq<
    JsonValue,
> {
    Seq::new(items.len(), |i: int| renamed(items[i], from, to))
}

/// The members, each with the key renamed in its value.
pub open spec fn renamed_members(
    members: Seq<(Seq<char>, JsonValue)>,
    from: Seq<char>,
    to: Seq<char>,
) -> Seq<(Seq<char>, JsonValue)> {
    Seq::new(members.len(), |i: int| (members[i].0, renamed(members[i].1, from, to)))
}

/// Renaming in an array is renaming in each of its items.
pub proof fn lemma_renamed_array(items: Seq<JsonValue>, from: Seq<char>, to: Seq<char>)
    ensures
        renamed(JsonValue::Array(items), from, to) == JsonValue::Array(
            renamed_items(items, from, to),
        ),
{
    let a = renamed_below(JsonValue::Array(items), from, to)->Array_0;
    assert(a =~= renamed_items(items, from, to));
}

/// Renaming in an object is renaming in each of its members' values, and then the
/// object's own key.
pub proof fn lemma_renamed_object(
    members: Seq<(Seq<char>, JsonValue)>,
    from: Seq<char>,
    to: Seq<char>,
)
    ensures
        renamed(JsonValue::Object(members), from, to) == JsonValue::Object(
            rekeyed(renamed_members(members, from, to), from, to),
        ),
{
    let inner = renamed_below(JsonValue::Object(members), from, to)->Object_0;
    assert(inner =~= renamed_members(members, from, to));
}

/// A script argument as the session's dialect wants it: for a legacy session, with the
/// W3C element key renamed to the legacy key in every object of the argument; for a W3C
/// session, as it is.
pub open spec fn spec_fixup(arg: JsonValue, legacy: bool) -> JsonValue {
    if legacy {
        renamed(arg, w3c_key(), LEGACY_ELEMENT_KEY@)
    } else {
        arg
    }
}

/// The script arguments as the session's dialect wants them.
pub open spec fn spec_fixup_all(args: Seq<JsonValue>, legacy: bool) -> Seq<JsonValue> {
    Seq::new(args.len(), |i: int| spec_fixup(args[i], legacy))
}

/// A script's result as callers get it: from a legacy session, with the legacy element
/// key renamed to the W3C key in every object of the result; from a W3C session, as it
/// is.
pub open spec fn spec_canonical(res: JsonValue, legacy: bool) -> JsonValue {
    if legacy {
        renamed(res, LEGACY_ELEMENT_KEY@, w3c_key())
    } else {
        res
    }
}

/// The element key differs from the legacy key.
pub proof fn lemma_keys_differ()
    ensures
        w3c_key() != LEGACY_ELEMENT_KEY@,
{
    reveal_strlit("element-6066-11e4-a52e-4f735466cecf");
    reveal_strlit("ELEMENT");
    assert(w3c_key().len() != LEGACY_ELEMENT_KEY@.len());
}

/// Renaming below the members leaves their names as they are: a name is found among
/// the renamed members exactly when it is found among the members, and what is found
/// is the renamed value.
pub proof fn lemma_renamed_members_lookup(
    members: Seq<(Seq<char>, JsonValue)>,
    from: Seq<char>,
    to: Seq<char>,
    key: Seq<char>,
)
    ensures
        lookup(renamed_members(members, from, to), key) == match lookup(members, key) {
            Some(value) => Some(renamed(value, from, to)),
            None => None,
        },
    decreases members.len(),
{
    if members.len() > 0 {
        lemma_renamed_members_lookup(members.drop_first(), from, to, key);
        assert(renamed_members(members, from, to).drop_first() =~= renamed_members(
            members.drop_first(),
            from,
            to,
        ));
    }
}

/// The renamed members of a well-formed object make a well-formed object.
proof fn lemma_renamed_members_well_formed(
    members: Seq<(Seq<char>, JsonValue)>,
    from: Seq<char>,
    to: Seq<char>,
)
    requires
        JsonValue::Object(members).well_formed(),
        forall|i: int|
            0 <= i < members.len() ==> renamed((#[trigger] members[i]).1, from, to).well_formed(),
    ensures
        JsonValue::Object(renamed_members(members, from, to)).well_formed(),
{
    let inner = renamed_members(members, from, to);
    assert forall|i: int| 0 <= i < inner.len() implies (#[trigger] inner[i]).1.well_formed() by {
        assert(renamed(members[i].1, from, to).well_formed());
    }
    assert forall|a: int, b: int| 0 <= a < b < inner.len() implies (#[trigger] inner[a]).0 != (
    #[trigger] inner[b]).0 by {
        assert(inner[a].0 == members[a].0);
        assert(inner[b].0 == members[b].0);
    }
}

/// A well-formed value stays well-formed when a key is renamed.
pub proof fn lemma_renamed_well_formed(value: JsonValue, from: Seq<char>, to: Seq<char>)
    requires
        value.well_formed(),
    ensures
        renamed(value, from, to).well_formed(),
    decreases value,
{
    match value {
        JsonValue::Array(items) => {
            lemma_renamed_array(items, from, to);
            let after = renamed_items(items, from, to);
            assert forall|i: int| 0 <= i < after.len() implies (#[trigger] after[i]).well_formed() by {
                lemma_renamed_well_formed(items[i], from, to);
            }
        },
        JsonValue::Object(members) => {
            lemma_renamed_object(members, from, to);
            let inner = renamed_members(members, from, to);
            assert forall|i: int| 0 <= i < members.len() implies renamed(
                (#[trigger] members[i]).1,
                from,
                to,
            ).well_formed() by {
                lemma_renamed_well_formed(members[i].1, from, to);
            }
            lemma_renamed_members_well_formed(members, from, to);
            if lookup(inner, from) is Some {
                let id = lookup(inner, from)->Some_0;
                lemma_lookup_well_formed(inner, from);
                lemma_without_all_well_formed(inner, from);
                lemma_with_well_formed(without_all(inner, from), to, id);
            }
        },
        _ => {},
    }
}

/// Rewriting a well-formed argument for the session's dialect leaves it well-formed,
/// and so does bringing a well-formed result into the form that callers get.
pub proof fn lemma_fixup_well_formed(value: JsonValue, legacy: bool)
    requires
        value.well_formed(),
    ensures
        spec_fixup(value, legacy).well_formed(),
        spec_canonical(value, legacy).well_formed(),
{
    if legacy {
        lemma_renamed_well_formed(value, w3c_key(), LEGACY_ELEMENT_KEY@);
        lemma_renamed_well_formed(value, LEGACY_ELEMENT_KEY@, w3c_key());
    }
}

/// Whether no object of the value, at any depth, has a member named `key`.
pub open spec fn free_of(value: JsonValue, key: Seq<char>) -> bool
    decreases value,
{
    match value {
        JsonValue::Array(items) => forall|i: int|
            0 <= i < items.len() ==> free_of(#[trigger] items[i], key),
        JsonValue::Object(members) => lookup(members, key) is None && forall|i: int|
            0 <= i < members.len() ==> free_of((#[trigger] members[i]).1, key),
        _ => true,
    }
}

/// Every object that carries the key has it renamed: after `from` was renamed to
/// another key, no object of the value has a member named `from`.
pub proof fn lemma_renamed_everywhere(value: JsonValue, from: Seq<char>, to: Seq<char>)
    requires
        from != to,
    ensures
        free_of(renamed(value, from, to), from),
    decreases value,
{
    let clean = |v: JsonValue| free_of(v, from);
    match value {
        JsonValue::Array(items) => {
            lemma_renamed_array(items, from, to);
            let after = renamed_items(items, from, to);
            assert forall|i: int| 0 <= i < after.len() implies free_of(#[trigger] after[i], from) by {
                lemma_renamed_everywhere(items[i], from, to);
            }
        },
        JsonValue::Object(members) => {
            lemma_renamed_object(members, from, to);
            let inner = renamed_members(members, from, to);
            assert forall|i: int| 0 <= i < inner.len() implies clean((#[trigger] inner[i]).1) by {
                lemma_renamed_everywhere(members[i].1, from, to);
            }
            lemma_without_all_lookup(inner, from, from);
            if lookup(inner, from) is Some {
                let at = lemma_lookup_place(inner, from);
                let id = inner[at].1;
                let rest = without_all(inner, from);
                let after = with(rest, to, id);
                lemma_without_all_holds(inner, from, clean);
                lemma_with_holds(rest, to, id, clean);
                lemma_with_lookup(rest, to, id, from);
                assert forall|i: int| 0 <= i < after.len() implies free_of(
                    (#[trigger] after[i]).1,
                    from,
                ) by {
                    assert(clean(after[i].1));
                }
            } else {
                assert forall|i: int| 0 <= i < inner.len() implies free_of(
                    (#[trigger] inner[i]).1,
                    from,
                ) by {
                    assert(clean(inner[i].1));
                }
            }
        },
        _ => {},
    }
}

/// What goes to a legacy session has the W3C element key nowhere, and what callers get
/// from a legacy session has the legacy key nowhere, whatever the value was.
pub proof fn lemma_fixup_everywhere(value: JsonValue)
    ensures
        free_of(spec_fixup(value, true), w3c_key()),
        free_of(spec_canonical(value, true), LEGACY_ELEMENT_KEY@),
{
    lemma_keys_differ();
    lemma_renamed_everywhere(value, w3c_key(), LEGACY_ELEMENT_KEY@);
    lemma_renamed_everywhere(value, LEGACY_ELEMENT_KEY@, w3c_key());
}

/// For a legacy session, an object that carries an element's id under the W3C key goes
/// out with what it read there under the legacy key, and with no W3C key; every other
/// member is still there, renamed below in its turn.
pub proof fn lemma_fixup_renames(members: Seq<(Seq<char>, JsonValue)>, other: Seq<char>)
    requires
        lookup(members, w3c_key()) is Some,
    ensures
        spec_fixup(JsonValue::Object(members), true).get(LEGACY_ELEMENT_KEY@) == Some(
            spec_fixup(lookup(members, w3c_key())->Some_0, true),
        ),
        spec_fixup(JsonValue::Object(members), true).get(w3c_key()) is None,
        other != w3c_key() && other != LEGACY_ELEMENT_KEY@ ==> spec_fixup(
            JsonValue::Object(members),
            true,
        ).get(other) == match lookup(members, other) {
            Some(value) => Some(spec_fixup(value, true)),
            None => None,
        },
{
    let from = w3c_key();
    let to = LEGACY_ELEMENT_KEY@;
    lemma_keys_differ();
    lemma_renamed_object(members, from, to);
    lemma_renamed_everywhere(JsonValue::Object(members), from, to);
    let inner = renamed_members(members, from, to);
    lemma_renamed_members_lookup(members, from, to, from);
    lemma_renamed_members_lookup(members, from, to, other);
    let id = lookup(inner, from)->Some_0;
    let rest = without_all(inner, from);
    lemma_with_lookup(rest, to, id, other);
    lemma_without_all_lookup(inner, from, other);
}

/// An element that is handed to a script comes back as the same element, whatever the
/// session's dialect. The argument is rewritten for the dialect; what the dialect
/// sends is read back to the id that went in, and a script that hands the argument
/// back gives the caller the object that went in.
pub proof fn lemma_element_round_trip(id: Seq<char>, legacy: bool)
    ensures
        spec_parse_lookup(spec_fixup(element_value(id), legacy), legacy) == Ok::<
            Seq<char>,
            Failure,
        >(id),
        spec_canonical(spec_fixup(element_value(id), legacy), legacy) == element_value(id),
{
    if legacy {
        let from = w3c_key();
        let to = LEGACY_ELEMENT_KEY@;
        lemma_keys_differ();
        let members = seq![(from, JsonValue::String(id))];
        assert(members.drop_first() =~= Seq::empty());
        lemma_renamed_object(members, from, to);
        assert(renamed_members(members, from, to) =~= members);
        assert(members.drop_last() =~= Seq::empty());
        assert(without_all(members.drop_last(), from) =~= Seq::empty());
        assert(without_all(members, from) =~= Seq::empty());
        let sent = seq![(to, JsonValue::String(id))];
        assert(with(Seq::empty(), to, JsonValue::String(id)) =~= sent);
        assert(rekeyed(members, from, to) == sent);
        assert(sent.drop_first() =~= Seq::empty());
        lemma_renamed_object(sent, to, from);
        assert(renamed_members(sent, to, from) =~= sent);
        assert(sent.drop_last() =~= Seq::empty());
        assert(without_all(sent.drop_last(), to) =~= Seq::empty());
        assert(without_all(sent, to) =~= Seq::empty());
        assert(with(Seq::empty(), from, JsonValue::String(id)) =~= members);
        assert(rekeyed(sent, to, from) == members);
    } else {
        let members = seq![(w3c_key(), JsonValue::String(id))];
        assert(members.drop_first() =~= Seq::empty());
    }
}

/// Renames the key `from` to `to` in every object of the value.
#[verifier::loop_isolation(false)]
pub fn rename(arg: Json, from: &str, to: &str) -> (fixed: Json)
    ensures
        fixed@ == renamed(arg@, from@, to@),
    decreases arg,
{
    match arg {
        Json::Array(items) => {
            proof {
                lemma_array_view(items);
                lemma_renamed_array(items_view(items@), from@, to@);
            }
            let ghost all = renamed_items(items_view(items@), from@, to@);
            let mut fixed: Vec<Json> = Vec::new();
            for item in it: items
                invariant
                    fixed@.len() == it.index(),
                    items_view(fixed@) == all.take(it.index() as int),
            {
                let ghost done = items_view(fixed@);
                proof {
                    broadcast use vstd::std_specs::vec::axiom_vec_index_decreases;

                    assert(decreases_to!(items => items[it.index() as int]));
                }
                let one = rename(item, from, to);
                fixed.push(one);
                assert(items_view(fixed@) =~= done.push(one@));
                assert(done.push(one@) =~= all.take(it.index() as int + 1));
            }
            proof {
                assert(all.take(all.len() as int) =~= all);
                lemma_array_view(fixed);
            }
            Json::Array(fixed)
        },
        Json::Object(members) => {
            proof {
                lemma_object_view(members);
                lemma_renamed_object(members_view(members@), from@, to@);
            }
            let ghost all = renamed_members(members_view(members@), from@, to@);
            let mut inner: Vec<(String, Json)> = Vec::new();
            for member in it: members
                invariant
                    inner@.len() == it.index(),
                    members_view(inner@) == all.take(it.index() as int),
            {
                let ghost done = members_view(inner@);
                proof {
                    broadcast use vstd::std_specs::vec::axiom_vec_index_decreases;

                    assert(decreases_to!(members => members[it.index() as int]));
                }
                let (name, value) = member;
                let one = rename(value, from, to);
                let ghost added = (name@, one@);
                inner.push((name, one));
                assert(members_view(inner@) =~= done.push(added));
                assert(done.push(added) =~= all.take(it.index() as int + 1));
            }
            assert(all.take(all.len() as int) =~= all);
            proof {
                lemma_without_all_lookup(all, from@, from@);
            }
            let (mut left, first) = take_all(inner, from);
            match first {
                Some(id) => {
                    put(&mut left, to.to_owned(), id);
                },
                None => {},
            }
            proof {
                lemma_object_view(left);
            }
            Json::Object(left)
        },
        other => other,
    }
}

} // verus!
