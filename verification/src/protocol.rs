//! What the emitted code does when it runs, told over a table of external
//! names.
//!
//! The table holds the external names of a type's members, in declaration
//! order, as the emitted code compares them. A struct is written as the pairs
//! of each name with the field's value, in table order. It is read from pairs
//! in any order: a key fills the slot of the first member that bears it, a
//! key that no member bears is skipped, a key that comes twice overwrites, and
//! at the end every slot must be filled. An enum is written as the name of
//! its variant and read back as the first variant that bears the name.

use vstd::prelude::*;
use crate::decl::views;
use crate::text::same_text;

verus! {

/// Why reading a value failed.
#[derive(Clone, Copy, Debug, PartialEq, Eq)]
pub enum ReadError {
    /// The map ended and some field had received no value.
    Incomplete,
    /// The string is the name of no variant.
    UnknownName,
}

/// The position of the first name at or after `from` that equals `key`, or
/// the length of the table if there is none.
pub open spec fn first_match(names: Seq<Seq<char>>, key: Seq<char>, from: int) -> int
    decreases names.len() - from,
{
    if from >= names.len() {
        names.len() as int
    } else if names[from] == key {
        from
    } else {
        first_match(names, key, from + 1)
    }
}

/// The member that answers to `key`: the first that bears it, if any does.
pub open spec fn slot_of(names: Seq<Seq<char>>, key: Seq<char>) -> Option<int> {
    let at = first_match(names, key, 0);
    if at < names.len() {
        Some(at)
    } else {
        None
    }
}

/// Whether no two members bear the same name.
pub open spec fn distinct(names: Seq<Seq<char>>) -> bool {
    forall|i: int, j: int|
        0 <= i < names.len() && 0 <= j < names.len() && i != j ==> names[i] != names[j]
}

/// The pair that the serializer of a struct hands out at position `state`:
/// the name and the position of the field whose value goes with it. `None`
/// past the last field.
pub open spec fn pair_at(names: Seq<Seq<char>>, state: int) -> Option<(Seq<char>, int)> {
    if 0 <= state < names.len() {
        Some((names[state], state))
    } else {
        None
    }
}

/// A struct as it is written: each name with the value of its field, in
/// table order.
pub open spec fn written<V>(names: Seq<Seq<char>>, values: Seq<V>) -> Seq<(Seq<char>, V)> {
    Seq::new(names.len(), |i: int| (names[i], values[i]))
}

/// The slots before any key has arrived: one for each member, all empty.
pub open spec fn empty_slots<V>(names: Seq<Seq<char>>) -> Seq<Option<V>> {
    Seq::new(names.len(), |i: int| None::<V>)
}

/// The slots after one more pair: the value sits in the slot of the member
/// that answers to the key, over whatever was there; a key that no member
/// answers to changes nothing.
pub open spec fn accept<V>(
    names: Seq<Seq<char>>,
    slots: Seq<Option<V>>,
    key: Seq<char>,
    value: V,
) -> Seq<Option<V>> {
    match slot_of(names, key) {
        Some(at) => slots.update(at, Some(value)),
        None => slots,
    }
}

/// The slots after all the pairs of `input` have arrived, in order.
pub open spec fn fed<V>(names: Seq<Seq<char>>, input: Seq<(Seq<char>, V)>) -> Seq<Option<V>>
    decreases input.len(),
{
    if input.len() == 0 {
        empty_slots(names)
    } else {
        accept(names, fed(names, input.drop_last()), input.last().0, input.last().1)
    }
}

/// The value that the slots give at the end of the map: every field's value,
/// in table order, unless a slot is empty.
pub open spec fn finish<V>(slots: Seq<Option<V>>) -> Result<Seq<V>, ReadError> {
    if forall|i: int| 0 <= i < slots.len() ==> (#[trigger] slots[i]) is Some {
        Ok(slots.map_values(|slot: Option<V>| slot->Some_0))
    } else {
        Err(ReadError::Incomplete)
    }
}

/// A struct as it is read from the pairs of `input`.
pub open spec fn read_struct_spec<V>(
    names: Seq<Seq<char>>,
    input: Seq<(Seq<char>, V)>,
) -> Result<Seq<V>, ReadError> {
    finish(fed(names, input))
}

/// An enum as it is read from a string: the position of its variant.
pub open spec fn read_enum_spec(names: Seq<Seq<char>>, text: Seq<char>) -> Result<int, ReadError> {
    match slot_of(names, text) {
        Some(at) => Ok(at),
        None => Err(ReadError::UnknownName),
    }
}

/// An enum as it is written: the name of the variant at position `variant`.
pub open spec fn write_enum_spec(names: Seq<Seq<char>>, variant: int) -> Seq<char> {
    names[variant]
}

/// The pairs of an input, with each key as a sequence of characters.
pub open spec fn pairs_view<V>(input: Seq<(String, V)>) -> Seq<(Seq<char>, V)> {
    input.map_values(|pair: (String, V)| (pair.0@, pair.1))
}

/// Where `first_match` lands: on the first name from `from` on that equals
/// `key`.
pub proof fn lemma_first_match(names: Seq<Seq<char>>, key: Seq<char>, from: int)
    requires
        0 <= from <= names.len(),
    ensures
        from <= first_match(names, key, from) <= names.len(),
        first_match(names, key, from) < names.len() ==> names[first_match(names, key, from)]
            == key,
        forall|i: int| from <= i < first_match(names, key, from) ==> names[i] != key,
    decreases names.len() - from,
{
    if from < names.len() && names[from] != key {
        lemma_first_match(names, key, from + 1);
    }
}

/// Finds the member that answers to `key`.
pub fn key_slot(names: &Vec<String>, key: &str) -> (out: Option<usize>)
    ensures
        match out {
            Some(at) => slot_of(views(names@), key@) == Some(at as int),
            None => slot_of(views(names@), key@) is None,
        },
{
    let ghost table = views(names@);
    let mut i: usize = 0;
    while i < names.len()
        invariant
            i <= names.len(),
            table == views(names@),
            first_match(table, key@, 0) == first_match(table, key@, i as int),
        decreases names.len() - i,
    {
        if same_text(&names[i], key) {
            return Some(i);
        }
        i += 1;
    }
    None
}

/// The pair that the serializer of a struct hands out at position `state`.
pub fn next_pair(names: &Vec<String>, state: usize) -> (out: Option<(String, usize)>)
    ensures
        match out {
            Some(pair) => pair_at(views(names@), state as int) == Some((pair.0@, pair.1 as int)),
            None => pair_at(views(names@), state as int) is None,
        },
{
    if state < names.len() {
        Some((names[state].clone(), state))
    } else {
        None
    }
}

/// Writes a struct: each name with the value of its field.
pub fn write_struct<V: Copy>(names: &Vec<String>, values: &Vec<V>) -> (out: Vec<(String, V)>)
    requires
        values.len() == names.len(),
    ensures
        pairs_view(out@) == written(views(names@), values@),
{
    let mut out: Vec<(String, V)> = Vec::new();
    let mut i: usize = 0;
    while i < names.len()
        invariant
            i <= names.len(),
            values.len() == names.len(),
            out.len() == i,
            forall|k: int|
                0 <= k < i ==> (#[trigger] out@[k]).0@ == names@[k]@ && out@[k].1 == values@[k],
        decreases names.len() - i,
    {
        out.push((names[i].clone(), values[i]));
        i += 1;
    }
    out
}

/// Reads a struct from the pairs of `input`, which may come in any order.
pub fn read_struct<V: Copy>(names: &Vec<String>, input: &Vec<(String, V)>) -> (out: Result<
    Vec<V>,
    ReadError,
>)
    ensures
        match out {
            Ok(values) => read_struct_spec(views(names@), pairs_view(input@)) == Ok::<
                Seq<V>,
                ReadError,
            >(values@),
            Err(error) => read_struct_spec(views(names@), pairs_view(input@)) == Err::<
                Seq<V>,
                ReadError,
            >(error),
        },
{
    let ghost table = views(names@);
    let ghost pairs = pairs_view(input@);
    let mut slots: Vec<Option<V>> = Vec::new();
    let mut n: usize = 0;
    while n < names.len()
        invariant
            n <= names.len(),
            slots.len() == n,
            forall|k: int| 0 <= k < n ==> (#[trigger] slots@[k]) is None,
        decreases names.len() - n,
    {
        slots.push(None);
        n += 1;
    }
    let mut i: usize = 0;
    while i < input.len()
        invariant
            i <= input.len(),
            table == views(names@),
            pairs == pairs_view(input@),
            slots.len() == names.len(),
            slots@ == fed(table, pairs.take(i as int)),
        decreases input.len() - i,
    {
        let ghost before = pairs.take(i as int);
        let ghost after = pairs.take(i as int + 1);
        assert(after.drop_last() =~= before);
        proof {
            lemma_first_match(table, input@[i as int].0@, 0);
        }
        match key_slot(names, input[i].0.as_str()) {
            Some(at) => {
                slots.set(at, Some(input[i].1));
            },
            None => {},
        }
        i += 1;
    }
    assert(pairs.take(input.len() as int) =~= pairs);
    let mut values: Vec<V> = Vec::new();
    let mut k: usize = 0;
    while k < slots.len()
        invariant
            k <= slots.len(),
            values.len() == k,
            table == views(names@),
            pairs == pairs_view(input@),
            slots@ == fed(table, pairs),
            forall|j: int| 0 <= j < k ==> (#[trigger] slots@[j]) == Some(values@[j]),
        decreases slots.len() - k,
    {
        match slots[k] {
            Some(value) => {
                values.push(value);
            },
            None => {
                return Err(ReadError::Incomplete);
            },
        }
        k += 1;
    }
    assert(values@ =~= slots@.map_values(|slot: Option<V>| slot->Some_0));
    Ok(values)
}

/// Writes an enum: the name of the variant at position `variant`.
pub fn write_enum(names: &Vec<String>, variant: usize) -> (out: String)
    requires
        variant < names.len(),
    ensures
        out@ == write_enum_spec(views(names@), variant as int),
{
    names[variant].clone()
}

/// Reads an enum from a string: the position of the variant that it names.
pub fn read_enum(names: &Vec<String>, text: &str) -> (out: Result<usize, ReadError>)
    ensures
        match out {
            Ok(at) => read_enum_spec(views(names@), text@) == Ok::<int, ReadError>(at as int),
            Err(error) => read_enum_spec(views(names@), text@) == Err::<int, ReadError>(error),
        },
{
    match key_slot(names, text) {
        Some(at) => Ok(at),
        None => Err(ReadError::UnknownName),
    }
}

/// Feeding pairs never changes the number of slots.
pub proof fn lemma_fed_len<V>(names: Seq<Seq<char>>, input: Seq<(Seq<char>, V)>)
    ensures
        fed(names, input).len() == names.len(),
    decreases input.len(),
{
    if input.len() > 0 {
        lemma_fed_len(names, input.drop_last());
        lemma_first_match(names, input.last().0, 0);
    }
}

/// After the first `upto` pairs of a written struct have come back, the
/// first `upto` slots hold their values and the others are empty.
proof fn lemma_fed_written<V>(names: Seq<Seq<char>>, values: Seq<V>, upto: int)
    requires
        values.len() == names.len(),
        distinct(names),
        0 <= upto <= names.len(),
    ensures
        fed(names, written(names, values).take(upto)) == Seq::new(
            names.len(),
            |i: int|
                if i < upto {
                    Some(values[i])
                } else {
                    None
                },
        ),
    decreases upto,
{
    let pairs = written(names, values);
    if upto > 0 {
        lemma_fed_written(names, values, upto - 1);
        assert(pairs.take(upto).drop_last() =~= pairs.take(upto - 1));
        lemma_first_match(names, names[upto - 1], 0);
    }
}

/// A struct whose members bear distinct names reads back as it was written:
/// every field gets its own value again.
pub proof fn law_struct_round_trip<V>(names: Seq<Seq<char>>, values: Seq<V>)
    requires
        values.len() == names.len(),
        distinct(names),
    ensures
        read_struct_spec(names, written(names, values)) == Ok::<Seq<V>, ReadError>(values),
{
    let pairs = written(names, values);
    lemma_fed_written(names, values, names.len() as int);
    assert(pairs.take(names.len() as int) =~= pairs);
    assert(read_struct_spec(names, pairs)->Ok_0 =~= values);
}

/// An input that holds no pair under the name of some member is incomplete.
pub proof fn law_missing_key_is_incomplete<V>(
    names: Seq<Seq<char>>,
    input: Seq<(Seq<char>, V)>,
    member: int,
)
    requires
        0 <= member < names.len(),
        forall|j: int| 0 <= j < input.len() ==> (#[trigger] input[j]).0 != names[member],
    ensures
        fed(names, input)[member] is None,
        read_struct_spec(names, input) == Err::<Seq<V>, ReadError>(ReadError::Incomplete),
    decreases input.len(),
{
    lemma_fed_len(names, input);
    if input.len() > 0 {
        law_missing_key_is_incomplete(names, input.drop_last(), member);
        lemma_fed_len(names, input.drop_last());
        lemma_first_match(names, input.last().0, 0);
    }
}

/// A pair under a key that no member bears changes nothing, wherever in the
/// input it stands: the slots, and so the value read, are those of the input
/// without it.
pub proof fn law_unknown_key_is_skipped<V>(
    names: Seq<Seq<char>>,
    input: Seq<(Seq<char>, V)>,
    at: int,
    key: Seq<char>,
    value: V,
)
    requires
        0 <= at <= input.len(),
        forall|i: int| 0 <= i < names.len() ==> names[i] != key,
    ensures
        fed(names, input.insert(at, (key, value))) == fed(names, input),
        read_struct_spec(names, input.insert(at, (key, value))) == read_struct_spec(names, input),
    decreases input.len(),
{
    let longer = input.insert(at, (key, value));
    if at == input.len() {
        assert(longer.drop_last() =~= input);
        lemma_first_match(names, key, 0);
    } else {
        assert(longer.drop_last() =~= input.drop_last().insert(at, (key, value)));
        law_unknown_key_is_skipped(names, input.drop_last(), at, key, value);
    }
}

/// A key that comes twice overwrites: after a pair, an earlier pair under
/// the same key has no effect.
pub proof fn law_last_write_wins<V>(
    names: Seq<Seq<char>>,
    slots: Seq<Option<V>>,
    key: Seq<char>,
    earlier: V,
    later: V,
)
    requires
        slots.len() == names.len(),
    ensures
        accept(names, accept(names, slots, key, earlier), key, later) == accept(
            names,
            slots,
            key,
            later,
        ),
{
    lemma_first_match(names, key, 0);
}

/// Reading the name of a variant gives a variant that is written under the
/// same name: the first that bears it, which is the variant itself where
/// names are distinct.
pub proof fn law_enum_round_trip(names: Seq<Seq<char>>, variant: int)
    requires
        0 <= variant < names.len(),
    ensures
        read_enum_spec(names, names[variant]) is Ok,
        0 <= read_enum_spec(names, names[variant])->Ok_0 <= variant,
        write_enum_spec(names, read_enum_spec(names, names[variant])->Ok_0) == names[variant],
        distinct(names) ==> read_enum_spec(names, names[variant]) == Ok::<int, ReadError>(variant),
{
    lemma_first_match(names, names[variant], 0);
}

/// A string is refused exactly when it is the name of no variant, and then
/// as an unknown name.
pub proof fn law_unknown_name_is_refused(names: Seq<Seq<char>>, text: Seq<char>)
    ensures
        read_enum_spec(names, text) is Err <==> forall|i: int|
            0 <= i < names.len() ==> names[i] != text,
        read_enum_spec(names, text) is Err ==> read_enum_spec(names, text) == Err::<
            int,
            ReadError,
        >(ReadError::UnknownName),
{
    lemma_first_match(names, text, 0);
}

/// Whether every pair that stands under the name of a member carries the
/// value of that member. Pairs under other keys may carry anything.
pub open spec fn correctly_keyed<V>(
    names: Seq<Seq<char>>,
    values: Seq<V>,
    input: Seq<(Seq<char>, V)>,
) -> bool {
    forall|j: int, i: int|
        0 <= j < input.len() && 0 <= i < names.len() && (#[trigger] input[j]).0
            == #[trigger] names[i] ==> input[j].1 == values[i]
}

/// Whether some pair of the input stands under `key`.
pub open spec fn has_key<V>(input: Seq<(Seq<char>, V)>, key: Seq<char>) -> bool {
    exists|j: int| 0 <= j < input.len() && (#[trigger] input[j]).0 == key
}

/// Whether the input holds a pair under the name of every member.
pub open spec fn complete<V>(names: Seq<Seq<char>>, input: Seq<(Seq<char>, V)>) -> bool {
    forall|i: int| 0 <= i < names.len() ==> has_key(input, #[trigger] names[i])
}

/// With distinct names and a correctly keyed input, in whatever order, the
/// slot of a member holds the member's value once a pair under its name has
/// come, and is empty until then.
pub proof fn lemma_fed_correctly_keyed<V>(
    names: Seq<Seq<char>>,
    values: Seq<V>,
    input: Seq<(Seq<char>, V)>,
    member: int,
)
    requires
        values.len() == names.len(),
        distinct(names),
        correctly_keyed(names, values, input),
        0 <= member < names.len(),
    ensures
        fed(names, input).len() == names.len(),
        fed(names, input)[member] == if has_key(input, names[member]) {
            Some(values[member])
        } else {
            None
        },
    decreases input.len(),
{
    lemma_fed_len(names, input);
    if input.len() > 0 {
        let front = input.drop_last();
        let last = input.last();
        assert forall|j: int, i: int|
            0 <= j < front.len() && 0 <= i < names.len() && (#[trigger] front[j]).0
                == #[trigger] names[i] implies front[j].1 == values[i] by {
            assert(front[j] == input[j]);
        }
        lemma_fed_correctly_keyed(names, values, front, member);
        lemma_fed_len(names, front);
        lemma_first_match(names, last.0, 0);
        assert(input[input.len() - 1] == last);
        if last.0 == names[member] {
            assert(slot_of(names, last.0) == Some(member));
            assert(has_key(input, names[member]));
        } else {
            assert(slot_of(names, last.0) != Some(member));
            if has_key(front, names[member]) {
                let j = choose|j: int| 0 <= j < front.len() && (#[trigger] front[j]).0
                    == names[member];
                assert(input[j] == front[j]);
                assert(has_key(input, names[member]));
            }
            if has_key(input, names[member]) {
                let j = choose|j: int| 0 <= j < input.len() && (#[trigger] input[j]).0
                    == names[member];
                assert(j < front.len());
                assert(front[j] == input[j]);
                assert(has_key(front, names[member]));
            }
        }
    }
}

/// A struct whose members bear distinct names reads back from its pairs in
/// any order: where the input is complete and correctly keyed, every field
/// gets its own value, whatever the order of the pairs, however often a pair
/// comes, and whatever stands under keys that no member bears.
pub proof fn law_struct_round_trip_in_any_order<V>(
    names: Seq<Seq<char>>,
    values: Seq<V>,
    input: Seq<(Seq<char>, V)>,
)
    requires
        values.len() == names.len(),
        distinct(names),
        correctly_keyed(names, values, input),
        complete(names, input),
    ensures
        read_struct_spec(names, input) == Ok::<Seq<V>, ReadError>(values),
{
    assert forall|i: int| 0 <= i < names.len() implies fed(names, input)[i] == Some(
        values[i],
    ) by {
        lemma_fed_correctly_keyed(names, values, input, i);
        assert(has_key(input, names[i]));
    }
    lemma_fed_len(names, input);
    assert(read_struct_spec(names, input)->Ok_0 =~= values);
}

} // verus!
