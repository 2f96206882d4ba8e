use crate::error::Fault;
use crate::model::key_fits;
use vstd::prelude::*;

verus! {

/// Whether `a` comes before `b`: at the first place where they differ `a`
/// has the lesser character, or `a` ends there and `b` goes on.
pub open spec fn text_lt(a: Seq<char>, b: Seq<char>) -> bool
    decreases a.len(),
{
    if b.len() == 0 {
        false
    } else if a.len() == 0 {
        true
    } else if a[0] != b[0] {
        (a[0] as u32) < (b[0] as u32)
    } else {
        text_lt(a.skip(1), b.skip(1))
    }
}

/// Whether each of `keys` comes before all that follow it.
pub open spec fn ascending(keys: Seq<Seq<char>>) -> bool {
    forall|i: int, j: int| 0 <= i < j < keys.len() ==> text_lt(#[trigger] keys[i], #[trigger] keys[j])
}

/// The keys that the rows of a listing go by, in order.
pub open spec fn keys_of<V>(rows: Seq<(Seq<char>, V)>) -> Seq<Seq<char>> {
    rows.map_values(|row: (Seq<char>, V)| row.0)
}

/// Whether `rows` lists what `table` files under the leading key `first`:
/// every such entry once, by its second key, in ascending order.
pub open spec fn lists_under<V>(
    rows: Seq<(Seq<char>, V)>,
    table: Map<(Seq<char>, Seq<char>), V>,
    first: Seq<char>,
) -> bool {
    &&& forall|i: int|
        0 <= i < rows.len() ==> #[trigger] table.contains_key((first, rows[i].0)) && table[(first, rows[i].0)]
            == rows[i].1
    &&& forall|second: Seq<char>| #[trigger] table.contains_key((first, second)) ==> keys_of(rows).contains(second)
    &&& ascending(keys_of(rows))
}

/// Whether `r` answers the request to list what `table` files under the
/// leading key `first`. A key too long to lead is rejected. Else the rows
/// list every entry under `first`, by its second key in ascending order;
/// only a store that is not intact may refuse instead.
pub open spec fn answers<V>(
    r: Result<Seq<(Seq<char>, V)>, Fault>,
    table: Map<(Seq<char>, Seq<char>), V>,
    first: Seq<char>,
    intact: bool,
) -> bool {
    if !key_fits(first) {
        r == Err::<Seq<(Seq<char>, V)>, Fault>(Fault::KeyTooLong)
    } else {
        match r {
            Ok(rows) => lists_under(rows, table, first),
            Err(fault) => fault == Fault::Std && !intact,
        }
    }
}

/// No text comes before itself.
pub proof fn lemma_text_lt_irreflexive(a: Seq<char>)
    ensures
        !text_lt(a, a),
    decreases a.len(),
{
    if a.len() > 0 {
        lemma_text_lt_irreflexive(a.skip(1));
    }
}

/// What comes before a text comes before whatever that text comes before.
pub proof fn lemma_text_lt_transitive(a: Seq<char>, b: Seq<char>, c: Seq<char>)
    requires
        text_lt(a, b),
        text_lt(b, c),
    ensures
        text_lt(a, c),
    decreases a.len(),
{
    if a.len() > 0 && a[0] == b[0] && b[0] == c[0] {
        lemma_text_lt_transitive(a.skip(1), b.skip(1), c.skip(1));
    }
}

/// Neither the first key of an ascending sequence nor anything that comes
/// before it appears later in the sequence.
proof fn lemma_first_is_least(keys: Seq<Seq<char>>, other: Seq<char>, later: int)
    requires
        ascending(keys),
        0 < later < keys.len(),
        text_lt(other, keys[0]) || other == keys[0],
    ensures
        keys[later] != other,
{
    if keys[later] == other {
        if other != keys[0] {
            lemma_text_lt_transitive(other, keys[0], other);
        }
        lemma_text_lt_irreflexive(other);
    }
}

/// Two ascending sequences that hold the same keys are the same sequence.
pub proof fn lemma_ascending_keys_agree(left: Seq<Seq<char>>, right: Seq<Seq<char>>)
    requires
        ascending(left),
        ascending(right),
        forall|i: int| 0 <= i < left.len() ==> right.contains(#[trigger] left[i]),
        forall|i: int| 0 <= i < right.len() ==> left.contains(#[trigger] right[i]),
    ensures
        left == right,
    decreases left.len(),
{
    if left.len() == 0 {
        if right.len() > 0 {
            assert(left.contains(right[0]));
        }
    } else {
        assert(right.contains(left[0]));
        let at_right = choose|j: int| 0 <= j < right.len() && right[j] == left[0];
        let at_left = choose|j: int| 0 <= j < left.len() && left[j] == right[0];
        if at_right > 0 && at_left > 0 {
            lemma_first_is_least(left, right[0], at_left);
        }
        let left_rest = left.skip(1);
        let right_rest = right.skip(1);
        assert forall|i: int| 0 <= i < left_rest.len() implies right_rest.contains(#[trigger] left_rest[i]) by {
            let k = choose|k: int| 0 <= k < right.len() && right[k] == left[i + 1];
            lemma_first_is_least(left, right[0], i + 1);
            assert(right_rest[k - 1] == left_rest[i]);
        }
        assert forall|i: int| 0 <= i < right_rest.len() implies left_rest.contains(#[trigger] right_rest[i]) by {
            let k = choose|k: int| 0 <= k < left.len() && left[k] == right[i + 1];
            lemma_first_is_least(right, left[0], i + 1);
            assert(left_rest[k - 1] == right_rest[i]);
        }
        lemma_ascending_keys_agree(left_rest, right_rest);
        assert(right =~= seq![right[0]] + right_rest);
    }
}

/// What a table files under a leading key has one listing only: any two
/// sequences of rows that list it are the same.
pub proof fn lemma_listing_is_determined<V>(
    left: Seq<(Seq<char>, V)>,
    right: Seq<(Seq<char>, V)>,
    table: Map<(Seq<char>, Seq<char>), V>,
    first: Seq<char>,
)
    requires
        lists_under(left, table, first),
        lists_under(right, table, first),
    ensures
        left == right,
{
    let left_keys = keys_of(left);
    let right_keys = keys_of(right);
    assert forall|i: int| 0 <= i < left_keys.len() implies right_keys.contains(#[trigger] left_keys[i]) by {
        assert(table.contains_key((first, left[i].0)));
    }
    assert forall|i: int| 0 <= i < right_keys.len() implies left_keys.contains(#[trigger] right_keys[i]) by {
        assert(table.contains_key((first, right[i].0)));
    }
    lemma_ascending_keys_agree(left_keys, right_keys);
    assert forall|i: int| 0 <= i < left.len() implies left[i] == right[i] by {
        assert(right[i].0 == right_keys[i]);
        assert(table.contains_key((first, right[i].0)));
    }
}

} // verus!
