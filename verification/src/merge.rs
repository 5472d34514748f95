//! Merging a list of required values with a list of optional ones.

use vstd::prelude::*;

verus! {

/// The values of `optional` that are present, in the order they stand in.
pub open spec fn present<T>(optional: Seq<Option<T>>) -> Seq<T>
    decreases optional.len(),
{
    if optional.len() == 0 {
        Seq::empty()
    } else {
        let earlier = present(optional.drop_last());
        match optional.last() {
            Some(value) => earlier.push(value),
            None => earlier,
        }
    }
}

/// The place in `optional` of the value that stands at `index` of
/// `present(optional)`.
pub open spec fn origin<T>(optional: Seq<Option<T>>, index: int) -> int
    decreases optional.len(),
{
    if optional.len() == 0 {
        0
    } else if index < present(optional.drop_last()).len() {
        origin(optional.drop_last(), index)
    } else {
        optional.len() - 1
    }
}

/// No value is made up: each value of `present(optional)` is a present value
/// of `optional`, found at its origin.
pub proof fn law_present_values_come_from_optional<T>(optional: Seq<Option<T>>, index: int)
    requires
        0 <= index < present(optional).len(),
    ensures
        0 <= origin(optional, index) < optional.len(),
        optional[origin(optional, index)] == Some(present(optional)[index]),
    decreases optional.len(),
{
    if index < present(optional.drop_last()).len() {
        law_present_values_come_from_optional(optional.drop_last(), index);
    }
}

/// The present values keep their relative order: of two values of
/// `present(optional)`, the earlier one stood earlier in `optional`.
pub proof fn law_present_keeps_order<T>(optional: Seq<Option<T>>, earlier: int, later: int)
    requires
        0 <= earlier < later < present(optional).len(),
    ensures
        origin(optional, earlier) < origin(optional, later),
    decreases optional.len(),
{
    if later < present(optional.drop_last()).len() {
        law_present_keeps_order(optional.drop_last(), earlier, later);
    } else {
        law_present_values_come_from_optional(optional.drop_last(), earlier);
    }
}

/// No present value is lost: each present value of `optional` stands
/// somewhere in `present(optional)`.
pub proof fn law_present_keeps_every_value<T>(optional: Seq<Option<T>>, place: int) -> (index:
    int)
    requires
        0 <= place < optional.len(),
        optional[place] is Some,
    ensures
        0 <= index < present(optional).len(),
        origin(optional, index) == place,
        optional[place] == Some(present(optional)[index]),
    decreases optional.len(),
{
    if place == optional.len() - 1 {
        present(optional.drop_last()).len() as int
    } else {
        law_present_keeps_every_value(optional.drop_last(), place)
    }
}

/// Absent values count for nothing: the present values of two lists, one
/// after the other, are the present values of the first followed by those of
/// the second.
pub proof fn law_present_of_concatenation<T>(first: Seq<Option<T>>, second: Seq<Option<T>>)
    ensures
        present(first + second) == present(first) + present(second),
    decreases second.len(),
{
    if second.len() == 0 {
        assert(first + second == first);
        assert(present(first) + present(second) == present(first));
    } else {
        law_present_of_concatenation(first, second.drop_last());
        assert((first + second).drop_last() == first + second.drop_last());
        match second.last() {
            Some(value) => {
                assert(present(first) + present(second.drop_last()).push(value) == (present(first)
                    + present(second.drop_last())).push(value));
            },
            None => {},
        }
    }
}

/// In the merged list the required values come first, unchanged and in their
/// order, and the present optional values follow them.
pub proof fn law_required_values_come_first<T>(required: Seq<T>, optional: Seq<Option<T>>)
    ensures
        (required + present(optional)).len() == required.len() + present(optional).len(),
        (required + present(optional)).take(required.len() as int) == required,
        (required + present(optional)).skip(required.len() as int) == present(optional),
        present(optional).len() <= optional.len(),
    decreases optional.len(),
{
    if optional.len() > 0 {
        law_required_values_come_first(required, optional.drop_last());
    }
}

/// Where no optional value is present, the merged list is the required one.
pub proof fn law_nothing_present_changes_nothing<T>(required: Seq<T>, optional: Seq<Option<T>>)
    requires
        forall|i: int| 0 <= i < optional.len() ==> optional[i] is None,
    ensures
        required + present(optional) == required,
    decreases optional.len(),
{
    if optional.len() > 0 {
        law_nothing_present_changes_nothing(required, optional.drop_last());
    }
}

/// Combines `required` with the present values of `optional`: every required
/// value first, then every present optional value, each group in its own
/// order. Absent values are dropped.
pub fn chain_optional_iter<T>(required: Vec<T>, optional: Vec<Option<T>>) -> (merged: Vec<T>)
    ensures
        merged@ == required@ + present(optional@),
{
    let mut merged = required;
    let ghost required_seq = merged@;
    let ghost optional_seq = optional@;
    for item in it: optional
        invariant
            it.seq() == optional_seq,
            merged@ == required_seq + present(optional_seq.take(it.index() as int)),
    {
        proof {
            let done = optional_seq.take(it.index() as int);
            let next = optional_seq.take(it.index() + 1);
            assert(next.drop_last() == done);
            assert(next.last() == item);
        }
        match item {
            Some(value) => merged.push(value),
            None => {},
        }
    }
    proof {
        assert(optional_seq.take(optional_seq.len() as int) == optional_seq);
    }
    merged
}

} // verus!
