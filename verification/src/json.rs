//! JSON values as the WebDriver wire format carries them.

use vstd::prelude::*;

verus! {

/// A JSON number. A float is held as the bit pattern of its IEEE 754 double.
#[derive(Clone, Copy, Debug, PartialEq, Eq)]
pub enum Number {
    Unsigned(u64),
    Signed(i64),
    Float(u64),
}

/// The JSON number that stands for the integer `n`.
pub open spec fn integer(n: int) -> Number
    recommends
        i64::MIN <= n <= u64::MAX,
{
    if n >= 0 {
        Number::Unsigned(n as u64)
    } else {
        Number::Signed(n as i64)
    }
}

impl Number {
    /// The JSON number that stands for `n`.
    pub fn from_i64(n: i64) -> (number: Number)
        ensures
            number == integer(n as int),
    {
        if n >= 0 {
            Number::Unsigned(n as u64)
        } else {
            Number::Signed(n)
        }
    }
}

/// A JSON value. An object is a list of members in the order they were written;
/// where a key is repeated, the first member with that key is the one that is read.
/// What comes off the wire repeats no key ([`JsonValue::well_formed`]), and what this
/// crate makes of such values repeats none either.
#[derive(Debug, PartialEq, Eq)]
pub enum Json {
    Null,
    Bool(bool),
    Number(Number),
    String(String),
    Array(Vec<Json>),
    Object(Vec<(String, Json)>),
}

/// The mathematical value of a [`Json`].
pub enum JsonValue {
    Null,
    Bool(bool),
    Number(Number),
    String(Seq<char>),
    Array(Seq<JsonValue>),
    Object(Seq<(Seq<char>, JsonValue)>),
}

impl Json {
    /// The value that `self` stands for: strings as sequences of characters, arrays and
    /// objects as sequences of values.
    pub open spec fn value(&self) -> JsonValue
        decreases self,
    {
        match self {
            Json::Null => JsonValue::Null,
            Json::Bool(b) => JsonValue::Bool(*b),
            Json::Number(n) => JsonValue::Number(*n),
            Json::String(s) => JsonValue::String(s@),
            Json::Array(items) => JsonValue::Array(
                Seq::new(
                    items@.len(),
                    |i: int|
                        if 0 <= i < items@.len() {
                            items@[i].value()
                        } else {
                            JsonValue::Null
                        },
                ),
            ),
            Json::Object(members) => JsonValue::Object(
                Seq::new(
                    members@.len(),
                    |i: int|
                        if 0 <= i < members@.len() {
                            (members@[i].0@, members@[i].1.value())
                        } else {
                            (Seq::empty(), JsonValue::Null)
                        },
                ),
            ),
        }
    }
}

impl View for Json {
    type V = JsonValue;

    open spec fn view(&self) -> JsonValue {
        self.value()
    }
}

/// The text of an optional string.
pub open spec fn text_of(s: Option<String>) -> Option<Seq<char>> {
    match s {
        Some(s) => Some(s@),
        None => None,
    }
}

/// The members of an object, each key and value taken by its view.
pub open spec fn members_view(members: Seq<(String, Json)>) -> Seq<(Seq<char>, JsonValue)> {
    Seq::new(members.len(), |i: int| (members[i].0@, members[i].1@))
}

/// The items of an array, each taken by its view.
pub open spec fn items_view(items: Seq<Json>) -> Seq<JsonValue> {
    Seq::new(items.len(), |i: int| items[i]@)
}

/// The value of the first member named `key`, if there is one.
pub open spec fn lookup(members: Seq<(Seq<char>, JsonValue)>, key: Seq<char>) -> Option<JsonValue>
    decreases members.len(),
{
    if members.len() == 0 {
        None
    } else if members[0].0 == key {
        Some(members[0].1)
    } else {
        lookup(members.drop_first(), key)
    }
}

/// The members without the first one named `key`; all of them if none has that name.
pub open spec fn without(members: Seq<(Seq<char>, JsonValue)>, key: Seq<char>) -> Seq<
    (Seq<char>, JsonValue),
>
    decreases members.len(),
{
    if members.len() == 0 {
        members
    } else if members[0].0 == key {
        members.drop_first()
    } else {
        seq![members[0]] + without(members.drop_first(), key)
    }
}

/// The members without those named `key`.
pub open spec fn without_all(members: Seq<(Seq<char>, JsonValue)>, key: Seq<char>) -> Seq<
    (Seq<char>, JsonValue),
>
    decreases members.len(),
{
    if members.len() == 0 {
        members
    } else {
        let front = without_all(members.drop_last(), key);
        if members.last().0 == key {
            front
        } else {
            front.push(members.last())
        }
    }
}

/// The members with `key` set to `value`: in the place of the first member of that name,
/// or at the end if there is none.
pub open spec fn with(
    members: Seq<(Seq<char>, JsonValue)>,
    key: Seq<char>,
    value: JsonValue,
) -> Seq<(Seq<char>, JsonValue)>
    decreases members.len(),
{
    if members.len() == 0 {
        seq![(key, value)]
    } else if members[0].0 == key {
        seq![(key, value)] + members.drop_first()
    } else {
        seq![members[0]] + with(members.drop_first(), key, value)
    }
}

/// `i` is the place of the first member named `key`.
pub open spec fn is_first(members: Seq<(Seq<char>, JsonValue)>, key: Seq<char>, i: int) -> bool {
    &&& 0 <= i < members.len()
    &&& members[i].0 == key
    &&& forall|j: int| 0 <= j < i ==> (#[trigger] members[j]).0 != key
}

/// No member is named `key`.
pub open spec fn absent(members: Seq<(Seq<char>, JsonValue)>, key: Seq<char>) -> bool {
    forall|j: int| 0 <= j < members.len() ==> (#[trigger] members[j]).0 != key
}

/// No two members have the same name.
pub open spec fn distinct(members: Seq<(Seq<char>, JsonValue)>) -> bool {
    forall|i: int, j: int|
        0 <= i < j < members.len() ==> (#[trigger] members[i]).0 != (#[trigger] members[j]).0
}

impl JsonValue {
    /// Whether the value is one that JSON text can say: in no object, at any depth, do
    /// two members have the same name. What is read off the wire is of this kind; a
    /// value of the other kind is read as if only the first member of each name were
    /// there.
    pub open spec fn well_formed(self) -> bool
        decreases self,
    {
        match self {
            JsonValue::Array(items) => forall|i: int|
                0 <= i < items.len() ==> (#[trigger] items[i]).well_formed(),
            JsonValue::Object(members) => distinct(members) && forall|i: int|
                0 <= i < members.len() ==> (#[trigger] members[i]).1.well_formed(),
            _ => true,
        }
    }

    /// The text of a string value.
    pub open spec fn as_str(self) -> Option<Seq<char>> {
        match self {
            JsonValue::String(s) => Some(s),
            _ => None,
        }
    }

    /// The number, where the value is an integer from 0 to `u64::MAX`.
    pub open spec fn as_u64(self) -> Option<u64> {
        match self {
            JsonValue::Number(Number::Unsigned(n)) => Some(n),
            JsonValue::Number(Number::Signed(n)) => if n >= 0 {
                Some(n as u64)
            } else {
                None
            },
            _ => None,
        }
    }

    /// The value of member `key`, where the value is an object that has one.
    pub open spec fn get(self, key: Seq<char>) -> Option<JsonValue> {
        match self {
            JsonValue::Object(members) => lookup(members, key),
            _ => None,
        }
    }

    /// The text of member `key`, where the value is an object that has such a member
    /// and it is a string.
    pub open spec fn text_at(self, key: Seq<char>) -> Option<Seq<char>> {
        match self.get(key) {
            Some(JsonValue::String(s)) => Some(s),
            _ => None,
        }
    }

    /// The number of member `key`, where the value is an object that has such a member
    /// and it is an integer from 0 to `u64::MAX`.
    pub open spec fn u64_at(self, key: Seq<char>) -> Option<u64> {
        match self.get(key) {
            Some(member) => member.as_u64(),
            None => None,
        }
    }
}

/// An object's view is made of its members' views.
pub proof fn lemma_object_view(members: Vec<(String, Json)>)
    ensures
        Json::Object(members)@ == JsonValue::Object(members_view(members@)),
{
    let a = Json::Object(members)@->Object_0;
    assert(a =~= members_view(members@));
}

/// An array's view is made of its items' views.
pub proof fn lemma_array_view(items: Vec<Json>)
    ensures
        Json::Array(items)@ == JsonValue::Array(items_view(items@)),
{
    let a = Json::Array(items)@->Array_0;
    assert(a =~= items_view(items@));
}

/// Where the first member named `key` stands at `i`, `lookup` gives its value and
/// `without` takes out exactly that member.
pub proof fn lemma_first(members: Seq<(Seq<char>, JsonValue)>, key: Seq<char>, i: int)
    requires
        is_first(members, key, i),
    ensures
        lookup(members, key) == Some(members[i].1),
        without(members, key) == members.remove(i),
    decreases members.len(),
{
    if i == 0 {
        assert(members.drop_first() =~= members.remove(0));
    } else {
        let rest = members.drop_first();
        assert(members[0].0 != key);
        assert forall|j: int| 0 <= j < i - 1 implies (#[trigger] rest[j]).0 != key by {
            assert(rest[j] == members[j + 1]);
        }
        lemma_first(rest, key, i - 1);
        assert(seq![members[0]] + rest.remove(i - 1) =~= members.remove(i));
    }
}

/// Where no member is named `key`, `lookup` finds nothing and `without` changes nothing.
pub proof fn lemma_absent(members: Seq<(Seq<char>, JsonValue)>, key: Seq<char>)
    requires
        absent(members, key),
    ensures
        lookup(members, key) is None,
        without(members, key) == members,
    decreases members.len(),
{
    if members.len() > 0 {
        let rest = members.drop_first();
        assert(members[0].0 != key);
        assert forall|j: int| 0 <= j < rest.len() implies (#[trigger] rest[j]).0 != key by {
            assert(rest[j] == members[j + 1]);
        }
        lemma_absent(rest, key);
        assert(seq![members[0]] + rest =~= members);
    }
}

/// Where `lookup` finds nothing, `without` changes nothing.
pub proof fn lemma_lookup_none(members: Seq<(Seq<char>, JsonValue)>, key: Seq<char>)
    requires
        lookup(members, key) is None,
    ensures
        without(members, key) == members,
    decreases members.len(),
{
    if members.len() > 0 {
        lemma_lookup_none(members.drop_first(), key);
        assert(seq![members[0]] + members.drop_first() =~= members);
    }
}

/// Where `lookup` finds a member, there is a first place at which it stands.
pub proof fn lemma_lookup_place(members: Seq<(Seq<char>, JsonValue)>, key: Seq<char>) -> (i: int)
    requires
        lookup(members, key) is Some,
    ensures
        is_first(members, key, i),
        lookup(members, key) == Some(members[i].1),
    decreases members.len(),
{
    if members[0].0 == key {
        0
    } else {
        let rest = members.drop_first();
        let i = lemma_lookup_place(rest, key);
        assert forall|j: int| 0 <= j < i + 1 implies (#[trigger] members[j]).0 != key by {
            if j > 0 {
                assert(members[j] == rest[j - 1]);
            }
        }
        i + 1
    }
}

/// Where `lookup` finds nothing, no member has that name.
pub proof fn lemma_none_absent(members: Seq<(Seq<char>, JsonValue)>, key: Seq<char>)
    requires
        lookup(members, key) is None,
    ensures
        absent(members, key),
    decreases members.len(),
{
    if members.len() > 0 {
        let rest = members.drop_first();
        lemma_none_absent(rest, key);
        assert forall|j: int| 0 <= j < members.len() implies (#[trigger] members[j]).0 != key by {
            if j > 0 {
                assert(members[j] == rest[j - 1]);
            }
        }
    }
}

/// What is found in a well-formed object is well-formed.
pub proof fn lemma_lookup_well_formed(members: Seq<(Seq<char>, JsonValue)>, key: Seq<char>)
    requires
        JsonValue::Object(members).well_formed(),
        lookup(members, key) is Some,
    ensures
        lookup(members, key)->Some_0.well_formed(),
{
    let i = lemma_lookup_place(members, key);
    assert(members[i].1.well_formed());
}

/// A well-formed object stays well-formed when a member is taken out, and has no
/// member of that name afterwards.
pub proof fn lemma_without_well_formed(members: Seq<(Seq<char>, JsonValue)>, key: Seq<char>)
    requires
        JsonValue::Object(members).well_formed(),
    ensures
        JsonValue::Object(without(members, key)).well_formed(),
        lookup(without(members, key), key) is None,
{
    if lookup(members, key) is Some {
        let i = lemma_lookup_place(members, key);
        lemma_first(members, key, i);
        let rest = members.remove(i);
        assert forall|j: int| 0 <= j < rest.len() implies (#[trigger] rest[j]).1.well_formed()
            && rest[j].0 != key by {
            if j < i {
                assert(rest[j] == members[j]);
            } else {
                assert(rest[j] == members[j + 1]);
            }
        }
        assert forall|a: int, b: int| 0 <= a < b < rest.len() implies (#[trigger] rest[a]).0 != (
        #[trigger] rest[b]).0 by {
            let x = if a < i {
                a
            } else {
                a + 1
            };
            let y = if b < i {
                b
            } else {
                b + 1
            };
            assert(rest[a] == members[x]);
            assert(rest[b] == members[y]);
        }
        lemma_absent(rest, key);
    } else {
        lemma_lookup_none(members, key);
    }
}

/// A well-formed object stays well-formed when a member is set to a well-formed value.
pub proof fn lemma_with_well_formed(
    members: Seq<(Seq<char>, JsonValue)>,
    key: Seq<char>,
    value: JsonValue,
)
    requires
        JsonValue::Object(members).well_formed(),
        value.well_formed(),
    ensures
        JsonValue::Object(with(members, key, value)).well_formed(),
{
    if lookup(members, key) is Some {
        let i = lemma_lookup_place(members, key);
        lemma_with_first(members, key, value, i);
        let after = members.update(i, (key, value));
        assert forall|j: int| 0 <= j < after.len() implies (#[trigger] after[j]).1.well_formed() by {
            if j != i {
                assert(after[j] == members[j]);
            }
        }
        assert forall|a: int, b: int| 0 <= a < b < after.len() implies (#[trigger] after[a]).0 != (
        #[trigger] after[b]).0 by {
            assert(after[a].0 == members[a].0);
            assert(after[b].0 == members[b].0);
        }
    } else {
        lemma_none_absent(members, key);
        lemma_with_absent(members, key, value);
        let after = members.push((key, value));
        assert forall|j: int| 0 <= j < after.len() implies (#[trigger] after[j]).1.well_formed() by {
            if j < members.len() {
                assert(after[j] == members[j]);
            }
        }
        assert forall|a: int, b: int| 0 <= a < b < after.len() implies (#[trigger] after[a]).0 != (
        #[trigger] after[b]).0 by {
            assert(after[a] == members[a]);
            if b < members.len() {
                assert(after[b] == members[b]);
            }
        }
    }
}

/// What holds of every value of the members and of `value` holds of every value of the
/// members once `key` is set to `value`.
pub proof fn lemma_with_holds(
    members: Seq<(Seq<char>, JsonValue)>,
    key: Seq<char>,
    value: JsonValue,
    holds: spec_fn(JsonValue) -> bool,
)
    requires
        forall|i: int| 0 <= i < members.len() ==> holds((#[trigger] members[i]).1),
        holds(value),
    ensures
        forall|i: int|
            0 <= i < with(members, key, value).len() ==> holds(
                (#[trigger] with(members, key, value)[i]).1,
            ),
{
    if lookup(members, key) is Some {
        let at = lemma_lookup_place(members, key);
        lemma_with_first(members, key, value, at);
        let after = members.update(at, (key, value));
        assert forall|i: int| 0 <= i < after.len() implies holds((#[trigger] after[i]).1) by {
            if i != at {
                assert(after[i] == members[i]);
            }
        }
    } else {
        lemma_none_absent(members, key);
        lemma_with_absent(members, key, value);
        let after = members.push((key, value));
        assert forall|i: int| 0 <= i < after.len() implies holds((#[trigger] after[i]).1) by {
            if i < members.len() {
                assert(after[i] == members[i]);
            }
        }
    }
}

/// What `lookup` finds once a member is added at the end: what it found before, or the
/// new member if nothing of that name was there.
pub proof fn lemma_lookup_push(
    members: Seq<(Seq<char>, JsonValue)>,
    last: (Seq<char>, JsonValue),
    key: Seq<char>,
)
    ensures
        lookup(members.push(last), key) == match lookup(members, key) {
            Some(value) => Some(value),
            None => if last.0 == key {
                Some(last.1)
            } else {
                None
            },
        },
    decreases members.len(),
{
    let longer = members.push(last);
    if members.len() == 0 {
        assert(longer.drop_first() =~= members);
    } else {
        lemma_lookup_push(members.drop_first(), last, key);
        assert(longer.drop_first() =~= members.drop_first().push(last));
    }
}

/// Once all members named `key` are out, `lookup` finds nothing of that name, and of
/// every other name what it found before.
pub proof fn lemma_without_all_lookup(
    members: Seq<(Seq<char>, JsonValue)>,
    key: Seq<char>,
    other: Seq<char>,
)
    ensures
        lookup(without_all(members, key), key) is None,
        other != key ==> lookup(without_all(members, key), other) == lookup(members, other),
        lookup(members, key) is None ==> without_all(members, key) == members,
    decreases members.len(),
{
    if members.len() > 0 {
        let front = members.drop_last();
        lemma_without_all_lookup(front, key, other);
        assert(front.push(members.last()) =~= members);
        lemma_lookup_push(front, members.last(), key);
        lemma_lookup_push(front, members.last(), other);
        lemma_lookup_push(without_all(front, key), members.last(), key);
        lemma_lookup_push(without_all(front, key), members.last(), other);
    }
}

/// What holds of every value of the members holds of every value that is left when all
/// members of a name are taken out.
pub proof fn lemma_without_all_holds(
    members: Seq<(Seq<char>, JsonValue)>,
    key: Seq<char>,
    holds: spec_fn(JsonValue) -> bool,
)
    requires
        forall|i: int| 0 <= i < members.len() ==> holds((#[trigger] members[i]).1),
    ensures
        forall|i: int|
            0 <= i < without_all(members, key).len() ==> holds(
                (#[trigger] without_all(members, key)[i]).1,
            ),
    decreases members.len(),
{
    if members.len() > 0 {
        let front = members.drop_last();
        assert forall|i: int| 0 <= i < front.len() implies holds((#[trigger] front[i]).1) by {
            assert(front[i] == members[i]);
        }
        lemma_without_all_holds(front, key, holds);
        assert(holds(members[members.len() - 1].1));
        let left = without_all(front, key);
        let after = without_all(members, key);
        assert forall|i: int| 0 <= i < after.len() implies holds((#[trigger] after[i]).1) by {
            if i < left.len() {
                assert(after[i] == left[i]);
            }
        }
    }
}

/// A name that no member has is the name of no member that is left.
pub proof fn lemma_without_all_absent(
    members: Seq<(Seq<char>, JsonValue)>,
    key: Seq<char>,
    name: Seq<char>,
)
    requires
        absent(members, name),
    ensures
        absent(without_all(members, key), name),
    decreases members.len(),
{
    if members.len() > 0 {
        let front = members.drop_last();
        assert forall|i: int| 0 <= i < front.len() implies (#[trigger] front[i]).0 != name by {
            assert(front[i] == members[i]);
        }
        lemma_without_all_absent(front, key, name);
        assert(members[members.len() - 1].0 != name);
    }
}

/// A well-formed object stays well-formed when all members of a name are taken out.
pub proof fn lemma_without_all_well_formed(members: Seq<(Seq<char>, JsonValue)>, key: Seq<char>)
    requires
        JsonValue::Object(members).well_formed(),
    ensures
        JsonValue::Object(without_all(members, key)).well_formed(),
    decreases members.len(),
{
    if members.len() > 0 {
        let front = members.drop_last();
        let last = members.last();
        assert forall|i: int| 0 <= i < front.len() implies (#[trigger] front[i]).1.well_formed()
            && front[i].0 != last.0 by {
            assert(front[i] == members[i]);
            assert(members[i].0 != members[members.len() - 1].0);
        }
        assert forall|a: int, b: int| 0 <= a < b < front.len() implies (#[trigger] front[a]).0 != (
        #[trigger] front[b]).0 by {
            assert(front[a] == members[a]);
            assert(front[b] == members[b]);
        }
        assert(JsonValue::Object(front).well_formed());
        lemma_without_all_well_formed(front, key);
        lemma_without_all_absent(front, key, last.0);
        assert(last.1.well_formed());
        let left = without_all(front, key);
        if last.0 != key {
            let after = left.push(last);
            assert forall|i: int| 0 <= i < after.len() implies (#[trigger] after[i]).1.well_formed() by {
                if i < left.len() {
                    assert(after[i] == left[i]);
                }
            }
            assert forall|a: int, b: int| 0 <= a < b < after.len() implies (#[trigger] after[a]).0
                != (#[trigger] after[b]).0 by {
                assert(after[a] == left[a]);
                if b < left.len() {
                    assert(after[b] == left[b]);
                }
            }
        }
    }
}

/// Where the first member named `key` stands at `i`, `with` replaces that member.
pub proof fn lemma_with_first(
    members: Seq<(Seq<char>, JsonValue)>,
    key: Seq<char>,
    value: JsonValue,
    i: int,
)
    requires
        is_first(members, key, i),
    ensures
        with(members, key, value) == members.update(i, (key, value)),
    decreases members.len(),
{
    if i == 0 {
        assert(seq![(key, value)] + members.drop_first() =~= members.update(0, (key, value)));
    } else {
        let rest = members.drop_first();
        assert(members[0].0 != key);
        assert forall|j: int| 0 <= j < i - 1 implies (#[trigger] rest[j]).0 != key by {
            assert(rest[j] == members[j + 1]);
        }
        lemma_with_first(rest, key, value, i - 1);
        assert(seq![members[0]] + rest.update(i - 1, (key, value)) =~= members.update(
            i,
            (key, value),
        ));
    }
}

/// Where no member is named `key`, `with` adds one at the end.
pub proof fn lemma_with_absent(
    members: Seq<(Seq<char>, JsonValue)>,
    key: Seq<char>,
    value: JsonValue,
)
    requires
        absent(members, key),
    ensures
        with(members, key, value) == members.push((key, value)),
    decreases members.len(),
{
    if members.len() > 0 {
        let rest = members.drop_first();
        assert(members[0].0 != key);
        assert forall|j: int| 0 <= j < rest.len() implies (#[trigger] rest[j]).0 != key by {
            assert(rest[j] == members[j + 1]);
        }
        lemma_with_absent(rest, key, value);
        assert(seq![members[0]] + rest.push((key, value)) =~= members.push((key, value)));
    } else {
        assert(seq![(key, value)] =~= members.push((key, value)));
    }
}

/// After `with`, `key` reads as `value`, and every other key reads as before.
pub proof fn lemma_with_lookup(
    members: Seq<(Seq<char>, JsonValue)>,
    key: Seq<char>,
    value: JsonValue,
    other: Seq<char>,
)
    ensures
        lookup(with(members, key, value), key) == Some(value),
        other != key ==> lookup(with(members, key, value), other) == lookup(members, other),
    decreases members.len(),
{
    let after = with(members, key, value);
    if members.len() == 0 {
        assert(after.drop_first() =~= members);
    } else if members[0].0 == key {
        assert(after.drop_first() =~= members.drop_first());
    } else {
        lemma_with_lookup(members.drop_first(), key, value, other);
        assert(after.drop_first() =~= with(members.drop_first(), key, value));
    }
}

/// After `without`, every key but `key` reads as before.
pub proof fn lemma_without_lookup(
    members: Seq<(Seq<char>, JsonValue)>,
    key: Seq<char>,
    other: Seq<char>,
)
    requires
        other != key,
    ensures
        lookup(without(members, key), other) == lookup(members, other),
    decreases members.len(),
{
    let after = without(members, key);
    if members.len() == 0 {
    } else if members[0].0 == key {
    } else {
        lemma_without_lookup(members.drop_first(), key, other);
        assert(after.drop_first() =~= without(members.drop_first(), key));
    }
}

/// The place of the first member named `key`.
pub fn position(members: &Vec<(String, Json)>, key: &str) -> (at: Option<usize>)
    ensures
        match at {
            Some(i) => is_first(members_view(members@), key@, i as int),
            None => absent(members_view(members@), key@),
        },
{
    let wanted = key.to_owned();
    let mut i: usize = 0;
    while i < members.len()
        invariant
            i <= members.len(),
            wanted@ == key@,
            forall|j: int| 0 <= j < i ==> (#[trigger] members_view(members@)[j]).0 != key@,
        decreases members.len() - i,
    {
        if members[i].0 == wanted {
            return Some(i);
        }
        i += 1;
    }
    None
}

impl Json {
    /// The text, where the value is a string.
    pub fn as_str(&self) -> (text: Option<&str>)
        ensures
            match text {
                Some(s) => self@.as_str() == Some(s@),
                None => self@.as_str() is None,
            },
    {
        match self {
            Json::String(s) => Some(s.as_str()),
            _ => None,
        }
    }

    /// The number, where the value is an integer from 0 to `u64::MAX`.
    pub fn as_u64(&self) -> (n: Option<u64>)
        ensures
            n == self@.as_u64(),
    {
        match self {
            Json::Number(Number::Unsigned(n)) => Some(*n),
            Json::Number(Number::Signed(n)) => if *n >= 0 {
                Some(*n as u64)
            } else {
                None
            },
            _ => None,
        }
    }

    /// The value of member `key`, where the value is an object that has one.
    pub fn get(&self, key: &str) -> (value: Option<&Json>)
        ensures
            match value {
                Some(v) => self@.get(key@) == Some(v@),
                None => self@.get(key@) is None,
            },
    {
        match self {
            Json::Object(members) => {
                proof {
                    lemma_object_view(*members);
                }
                match position(members, key) {
                    Some(i) => {
                        proof {
                            lemma_first(members_view(members@), key@, i as int);
                        }
                        Some(&members[i].1)
                    },
                    None => {
                        proof {
                            lemma_absent(members_view(members@), key@);
                        }
                        None
                    },
                }
            },
            _ => None,
        }
    }
}

impl Json {
    /// A copy of the text of member `key`, where the value is an object that has such
    /// a member and it is a string.
    pub fn text_at(&self, key: &str) -> (text: Option<String>)
        ensures
            text_of(text) == self@.text_at(key@),
    {
        match self.get(key) {
            Some(member) => match member.as_str() {
                Some(s) => Some(s.to_owned()),
                None => None,
            },
            None => None,
        }
    }

    /// The number of member `key`, where the value is an object that has such a member
    /// and it is an integer from 0 to `u64::MAX`.
    pub fn u64_at(&self, key: &str) -> (n: Option<u64>)
        ensures
            n == self@.u64_at(key@),
    {
        match self.get(key) {
            Some(member) => member.as_u64(),
            None => None,
        }
    }

    /// The string value with the text `s`.
    pub fn text(s: &str) -> (value: Json)
        ensures
            value@ == JsonValue::String(s@),
    {
        Json::String(s.to_owned())
    }

    /// The object with the given members.
    pub fn object(members: Vec<(String, Json)>) -> (value: Json)
        ensures
            value@ == JsonValue::Object(members_view(members@)),
    {
        proof {
            lemma_object_view(members);
        }
        Json::Object(members)
    }

    /// The array with the given items.
    pub fn array(items: Vec<Json>) -> (value: Json)
        ensures
            value@ == JsonValue::Array(items_view(items@)),
    {
        proof {
            lemma_array_view(items);
        }
        Json::Array(items)
    }

    /// A copy of the value.
    #[verifier::loop_isolation(false)]
    pub fn duplicate(&self) -> (copy: Json)
        ensures
            copy@ == self@,
        decreases self,
    {
        match self {
            Json::Null => Json::Null,
            Json::Bool(b) => Json::Bool(*b),
            Json::Number(n) => Json::Number(*n),
            Json::String(s) => Json::String(s.clone()),
            Json::Array(items) => {
                let mut copies: Vec<Json> = Vec::new();
                let mut i: usize = 0;
                while i < items.len()
                    invariant
                        i <= items.len(),
                        copies@.len() == i,
                        forall|k: int| 0 <= k < i ==> (#[trigger] copies@[k])@ == items@[k]@,
                    decreases items.len() - i,
                {
                    proof {
                        broadcast use vstd::std_specs::vec::axiom_vec_index_decreases;

                        assert(decreases_to!(items => items[i as int]));
                    }
                    copies.push(items[i].duplicate());
                    i += 1;
                }
                proof {
                    lemma_array_view(copies);
                    lemma_array_view(*items);
                    assert(items_view(copies@) =~= items_view(items@));
                }
                Json::Array(copies)
            },
            Json::Object(members) => {
                let mut copies: Vec<(String, Json)> = Vec::new();
                let mut i: usize = 0;
                while i < members.len()
                    invariant
                        i <= members.len(),
                        copies@.len() == i,
                        forall|k: int|
                            0 <= k < i ==> (#[trigger] copies@[k]).0@ == members@[k].0@
                                && copies@[k].1@ == members@[k].1@,
                    decreases members.len() - i,
                {
                    proof {
                        broadcast use vstd::std_specs::vec::axiom_vec_index_decreases;

                        assert(decreases_to!(members => members[i as int]));
                    }
                    copies.push((members[i].0.clone(), members[i].1.duplicate()));
                    i += 1;
                }
                proof {
                    lemma_object_view(copies);
                    lemma_object_view(*members);
                    assert(members_view(copies@) =~= members_view(members@));
                }
                Json::Object(copies)
            },
        }
    }
}

/// Takes the first member named `key` out of `members` and hands its value back.
pub fn take(members: &mut Vec<(String, Json)>, key: &str) -> (value: Option<Json>)
    ensures
        match value {
            Some(v) => lookup(members_view(old(members)@), key@) == Some(v@),
            None => lookup(members_view(old(members)@), key@) is None,
        },
        members_view(final(members)@) == without(members_view(old(members)@), key@),
{
    match position(members, key) {
        Some(i) => {
            proof {
                lemma_first(members_view(members@), key@, i as int);
            }
            let ghost before = members@;
            let member = members.remove(i);
            assert(members_view(members@) =~= members_view(before).remove(i as int));
            Some(member.1)
        },
        None => {
            proof {
                lemma_absent(members_view(members@), key@);
            }
            None
        },
    }
}

/// Takes every member named `key` out of `members`, and hands back what is left and
/// the value of the first member of that name.
pub fn take_all(members: Vec<(String, Json)>, key: &str) -> (out: (Vec<(String, Json)>, Option<Json>))
    ensures
        members_view(out.0@) == without_all(members_view(members@), key@),
        match out.1 {
            Some(v) => lookup(members_view(members@), key@) == Some(v@),
            None => lookup(members_view(members@), key@) is None,
        },
{
    let wanted = key.to_owned();
    let ghost all = members_view(members@);
    let mut left: Vec<(String, Json)> = Vec::new();
    let mut first: Option<Json> = None;
    assert(all.take(0) =~= Seq::empty());
    assert(members_view(left@) =~= Seq::empty());
    for member in it: members
        invariant
            wanted@ == key@,
            all == members_view(members@),
            members_view(left@) == without_all(all.take(it.index() as int), key@),
            match first {
                Some(v) => lookup(all.take(it.index() as int), key@) == Some(v@),
                None => lookup(all.take(it.index() as int), key@) is None,
            },
    {
        let ghost n = it.index() as int;
        let ghost before = members_view(left@);
        proof {
            assert(all.take(n + 1).drop_last() =~= all.take(n));
            assert(all.take(n + 1).last() == all[n]);
            assert(all.take(n + 1) =~= all.take(n).push(all[n]));
            lemma_lookup_push(all.take(n), all[n], key@);
        }
        let (name, value) = member;
        if name == wanted {
            if first.is_none() {
                first = Some(value);
            }
        } else {
            let ghost added = (name@, value@);
            left.push((name, value));
            assert(members_view(left@) =~= before.push(added));
        }
    }
    assert(all.take(all.len() as int) =~= all);
    (left, first)
}

/// Sets `key` to `value`: in the place of the first member of that name, or at the end
/// if there is none.
pub fn put(members: &mut Vec<(String, Json)>, key: String, value: Json)
    ensures
        members_view(final(members)@) == with(members_view(old(members)@), key@, value@),
{
    let ghost before = members_view(members@);
    match position(members, key.as_str()) {
        Some(i) => {
            proof {
                lemma_with_first(before, key@, value@, i as int);
            }
            let _ = members.remove(i);
            members.insert(i, (key, value));
            assert(members_view(members@) =~= before.update(i as int, (key@, value@)));
        },
        None => {
            proof {
                lemma_with_absent(before, key@, value@);
            }
            members.push((key, value));
            assert(members_view(members@) =~= before.push((key@, value@)));
        },
    }
}

} // verus!
