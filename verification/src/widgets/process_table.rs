use crate::data::processes::{Process, ProcessesSnapshot};
use crate::widgets::state::process_table::{ProcessTableState, ProcessesSortBy};
use crate::text::{bytes_contain, contains_run, occurs_at};
use vstd::prelude::*;
use vstd::utf8::encode_utf8;

verus! {

/// Whether the command line of `p` holds `text`, both taken as UTF-8 bytes.
pub open spec fn command_contains(p: Process, text: Seq<char>) -> bool {
    contains_run(encode_utf8(p.command@), encode_utf8(text))
}

/// The entries whose command line holds the filter text; all of them where
/// there is no filter.
pub open spec fn filtered(processes: Seq<Process>, filter_by: Option<Seq<char>>) -> Seq<Process> {
    match filter_by {
        Some(text) => processes.filter(|p: Process| command_contains(p, text)),
        None => processes,
    }
}

/// The number an entry is sorted by under the key `by`.
pub open spec fn sort_key(p: Process, by: ProcessesSortBy) -> int {
    match by {
        ProcessesSortBy::CPU => p.cpu_usage as int,
        ProcessesSortBy::MEM => p.memory_usage as int,
    }
}

/// The test for the entries whose sort key is `key`.
pub open spec fn in_group(by: ProcessesSortBy, key: int) -> spec_fn(Process) -> bool {
    |p: Process| sort_key(p, by) == key
}

/// Greatest sort key first.
pub open spec fn sorted_descending(s: Seq<Process>, by: ProcessesSortBy) -> bool {
    forall|a: int, b: int| 0 <= a < b < s.len() ==> sort_key(s[a], by) >= sort_key(s[b], by)
}

/// For every sort key, `a` and `b` hold the same entries with that key, in
/// the same order.
pub open spec fn same_groups(a: Seq<Process>, b: Seq<Process>, by: ProcessesSortBy) -> bool {
    forall|key: int| #[trigger] a.filter(in_group(by, key)) == b.filter(in_group(by, key))
}

/// Whether `output` is `input` sorted by `by`, greatest first, with entries of
/// equal key in the order they had in `input`.
pub open spec fn is_stable_sort(
    input: Seq<Process>,
    output: Seq<Process>,
    by: ProcessesSortBy,
) -> bool {
    sorted_descending(output, by) && same_groups(output, input, by)
}

/// `input` sorted by `by`, greatest first, entries of equal key in the order
/// they had. [`lemma_stable_sort_is_unique`] shows that there is but one such
/// sequence.
pub open spec fn sorted_by(input: Seq<Process>, by: ProcessesSortBy) -> Seq<Process> {
    choose|output: Seq<Process>| is_stable_sort(input, output, by)
}

/// The entries shown: all of them, or all but the threads.
pub open spec fn without_threads(processes: Seq<Process>, show_threads: bool) -> Seq<Process> {
    if show_threads {
        processes
    } else {
        processes.filter(|p: Process| !p.is_thread())
    }
}

/// The visible list: the process list after the filter text, the sort key
/// and the threads' visibility are applied, in that order.
pub open spec fn visible(
    processes: Seq<Process>,
    filter_by: Option<Seq<char>>,
    state: ProcessTableState,
) -> Seq<Process> {
    without_threads(sorted_by(filtered(processes, filter_by), state.sort_by), state.show_threads)
}

/// The view of an optional filter text.
pub open spec fn filter_text(filter_by: Option<&str>) -> Option<Seq<char>> {
    match filter_by {
        Some(text) => Some(text@),
        None => None,
    }
}

/// The empty text is in every command line, so it filters nothing out.
pub proof fn lemma_empty_filter_keeps_all(processes: Seq<Process>)
    ensures
        filtered(processes, Some(Seq::<char>::empty())) == processes,
    decreases processes.len(),
{
    let keep = |p: Process| command_contains(p, Seq::<char>::empty());
    reveal(Seq::filter);
    if processes.len() > 0 {
        lemma_empty_filter_keeps_all(processes.drop_last());
        let p = processes.last();
        assert(encode_utf8(Seq::<char>::empty()) == Seq::<u8>::empty()) by {
            reveal_with_fuel(encode_utf8, 1);
        }
        assert(encode_utf8(p.command@).subrange(0, 0) =~= Seq::<u8>::empty());
        assert(occurs_at(encode_utf8(p.command@), Seq::<u8>::empty(), 0));
        assert(keep(p));
        assert(processes.drop_last().push(p) == processes);
    }
}

/// Where every entry from `at` on has a smaller key than `p`, putting `p` in
/// at `at` adds it at the end of its own group and changes no other group.
proof fn lemma_insert_keeps_groups(
    s: Seq<Process>,
    at: int,
    p: Process,
    by: ProcessesSortBy,
    key: int,
)
    requires
        0 <= at <= s.len(),
        forall|m: int| at <= m < s.len() ==> sort_key(s[m], by) < sort_key(p, by),
    ensures
        s.insert(at, p).filter(in_group(by, key)) == if sort_key(p, by) == key {
            s.filter(in_group(by, key)).push(p)
        } else {
            s.filter(in_group(by, key))
        },
{
    let g = in_group(by, key);
    let head = s.subrange(0, at);
    let tail = s.subrange(at, s.len() as int);
    assert(s == head + tail);
    assert(s.insert(at, p) == head.push(p) + tail);
    Seq::filter_distributes_over_add(head, tail, g);
    Seq::filter_distributes_over_add(head.push(p), tail, g);
    head.lemma_filter_push(p, g);
    if sort_key(p, by) == key {
        assert(tail.all(|x: Process| !g(x)));
        tail.lemma_all_neg_filter_empty(g);
        assert(tail.filter(g) == Seq::<Process>::empty());
        assert(head.filter(g).push(p) + tail.filter(g) == (head.filter(g) + tail.filter(g)).push(
            p,
        ));
    }
}

/// An entry of `s` is in the group of its key, so that group is not empty.
proof fn lemma_group_of_member(s: Seq<Process>, i: int, by: ProcessesSortBy)
    requires
        0 <= i < s.len(),
    ensures
        s.filter(in_group(by, sort_key(s[i], by))).len() > 0,
        s.filter(in_group(by, sort_key(s[i], by))).contains(s[i]),
{
    let g = in_group(by, sort_key(s[i], by));
    assert(g(s[i]));
    s.lemma_filter_contains(g, i);
}

/// A group that is not empty has a member in the sequence.
proof fn lemma_member_of_group(s: Seq<Process>, by: ProcessesSortBy, key: int) -> (i: int)
    requires
        s.filter(in_group(by, key)).len() > 0,
    ensures
        0 <= i < s.len(),
        sort_key(s[i], by) == key,
{
    let g = in_group(by, key);
    let f = s.filter(g);
    s.lemma_filter_pred(g, 0);
    assert(f.contains(f[0]));
    s.lemma_filter_contains_rev(g, f[0]);
    let i = choose|i: int| 0 <= i < s.len() && s[i] == f[0];
    i
}

/// Two sorted sequences with the same groups are one and the same.
proof fn lemma_sorted_same_groups_equal(a: Seq<Process>, b: Seq<Process>, by: ProcessesSortBy)
    requires
        sorted_descending(a, by),
        sorted_descending(b, by),
        same_groups(a, b, by),
    ensures
        a == b,
    decreases a.len(),
{
    if a.len() == 0 {
        if b.len() > 0 {
            lemma_group_of_member(b, 0, by);
            let key = sort_key(b[0], by);
            reveal(Seq::filter);
            assert(a.filter(in_group(by, key)) == b.filter(in_group(by, key)));
        }
        assert(a =~= b);
    } else {
        if b.len() == 0 {
            lemma_group_of_member(a, 0, by);
            let key = sort_key(a[0], by);
            reveal(Seq::filter);
            assert(a.filter(in_group(by, key)) == b.filter(in_group(by, key)));
        }
        let ka = sort_key(a.last(), by);
        let kb = sort_key(b.last(), by);
        // The last entry of each has that sequence's least key, and each key
        // seen in one is seen in the other.
        lemma_group_of_member(a, a.len() - 1, by);
        assert(a.filter(in_group(by, ka)) == b.filter(in_group(by, ka)));
        let ib = lemma_member_of_group(b, by, ka);
        assert(kb <= ka);
        lemma_group_of_member(b, b.len() - 1, by);
        assert(a.filter(in_group(by, kb)) == b.filter(in_group(by, kb)));
        let ia = lemma_member_of_group(a, by, kb);
        assert(ka <= kb);
        let a0 = a.drop_last();
        let b0 = b.drop_last();
        assert(a0.push(a.last()) == a);
        assert(b0.push(b.last()) == b);
        assert forall|key: int| #[trigger]
            a0.filter(in_group(by, key)) == b0.filter(in_group(by, key)) by {
            let g = in_group(by, key);
            a0.lemma_filter_push(a.last(), g);
            b0.lemma_filter_push(b.last(), g);
            assert(a.filter(g) == b.filter(g));
            if key == ka {
                let x = a0.filter(g);
                let y = b0.filter(g);
                assert(x.push(a.last()) == y.push(b.last()));
                assert(x.push(a.last()).drop_last() == x);
                assert(y.push(b.last()).drop_last() == y);
            }
        }
        {
            let g = in_group(by, ka);
            a0.lemma_filter_push(a.last(), g);
            b0.lemma_filter_push(b.last(), g);
            assert(a.filter(g) == b.filter(g));
            assert(a0.filter(g).push(a.last()).last() == a.last());
            assert(b0.filter(g).push(b.last()).last() == b.last());
        }
        assert(a.last() == b.last());
        lemma_sorted_same_groups_equal(a0, b0, by);
    }
}

/// There is but one stable sort of a sequence.
pub proof fn lemma_stable_sort_is_unique(
    input: Seq<Process>,
    first: Seq<Process>,
    second: Seq<Process>,
    by: ProcessesSortBy,
)
    requires
        is_stable_sort(input, first, by),
        is_stable_sort(input, second, by),
    ensures
        first == second,
        first == sorted_by(input, by),
{
    assert forall|key: int| #[trigger]
        first.filter(in_group(by, key)) == second.filter(in_group(by, key)) by {
        assert(first.filter(in_group(by, key)) == input.filter(in_group(by, key)));
        assert(second.filter(in_group(by, key)) == input.filter(in_group(by, key)));
    }
    lemma_sorted_same_groups_equal(first, second, by);
    let chosen = sorted_by(input, by);
    assert(is_stable_sort(input, chosen, by));
    assert forall|key: int| #[trigger]
        first.filter(in_group(by, key)) == chosen.filter(in_group(by, key)) by {
        assert(first.filter(in_group(by, key)) == input.filter(in_group(by, key)));
        assert(chosen.filter(in_group(by, key)) == input.filter(in_group(by, key)));
    }
    lemma_sorted_same_groups_equal(first, chosen, by);
}

/// The visible list is a function of the data, the filter and the table's
/// state alone, so toggling the sort key twice, or the threads' visibility
/// twice, gives back the list that was visible before.
pub proof fn lemma_toggle_twice_same_rows(
    processes: Seq<Process>,
    filter_by: Option<Seq<char>>,
    state: ProcessTableState,
)
    ensures
        visible(processes, filter_by, state.sort_toggled().sort_toggled()) == visible(
            processes,
            filter_by,
            state,
        ),
        visible(processes, filter_by, state.threads_toggled().threads_toggled()) == visible(
            processes,
            filter_by,
            state,
        ),
{
}

/// Putting `p` into a sorted sequence behind the entries that are no smaller
/// and before those that are smaller gives the sort of the input with `p`
/// added at its end.
proof fn lemma_insert_keeps_sort(
    seen: Seq<Process>,
    before: Seq<Process>,
    at: int,
    p: Process,
    by: ProcessesSortBy,
)
    requires
        is_stable_sort(seen, before, by),
        0 <= at <= before.len(),
        forall|m: int| at <= m < before.len() ==> sort_key(before[m], by) < sort_key(p, by),
        at > 0 ==> sort_key(before[at - 1], by) >= sort_key(p, by),
    ensures
        is_stable_sort(seen.push(p), before.insert(at, p), by),
{
    let after = before.insert(at, p);
    assert forall|key: int| #[trigger]
        after.filter(in_group(by, key)) == seen.push(p).filter(in_group(by, key)) by {
        lemma_insert_keeps_groups(before, at, p, by, key);
        seen.lemma_filter_push(p, in_group(by, key));
        assert(before.filter(in_group(by, key)) == seen.filter(in_group(by, key)));
    }
    assert forall|a: int, b: int| 0 <= a < b < after.len() implies sort_key(after[a], by)
        >= sort_key(after[b], by) by {
        if a < at && b == at {
            if a < at - 1 {
                assert(sort_key(before[a], by) >= sort_key(before[at - 1], by));
            }
        } else if a < at && b > at {
            assert(after[b] == before[b - 1]);
        } else if a == at {
            assert(after[b] == before[b - 1]);
        } else if a > at {
            assert(after[a] == before[a - 1]);
            assert(after[b] == before[b - 1]);
        }
    }
}

/// The place at which an entry goes into a sorted sequence.
proof fn lemma_place_exists(s: Seq<Process>, p: Process, by: ProcessesSortBy) -> (at: int)
    requires
        sorted_descending(s, by),
    ensures
        0 <= at <= s.len(),
        forall|m: int| at <= m < s.len() ==> sort_key(s[m], by) < sort_key(p, by),
        at > 0 ==> sort_key(s[at - 1], by) >= sort_key(p, by),
    decreases s.len(),
{
    if s.len() == 0 || sort_key(s.last(), by) >= sort_key(p, by) {
        s.len() as int
    } else {
        let earlier = s.drop_last();
        assert forall|a: int, b: int| 0 <= a < b < earlier.len() implies sort_key(earlier[a], by)
            >= sort_key(earlier[b], by) by {
            assert(earlier[a] == s[a] && earlier[b] == s[b]);
        }
        let at = lemma_place_exists(earlier, p, by);
        assert forall|m: int| at <= m < s.len() implies sort_key(s[m], by) < sort_key(p, by) by {
            if m < earlier.len() {
                assert(earlier[m] == s[m]);
            }
        }
        if at > 0 {
            assert(earlier[at - 1] == s[at - 1]);
        }
        at
    }
}

/// Every sequence has a stable sort, so [`sorted_by`] is one.
pub proof fn lemma_stable_sort_exists(input: Seq<Process>, by: ProcessesSortBy)
    ensures
        is_stable_sort(input, sorted_by(input, by), by),
    decreases input.len(),
{
    if input.len() == 0 {
        assert(is_stable_sort(input, input, by));
    } else {
        let earlier = input.drop_last();
        lemma_stable_sort_exists(earlier, by);
        let before = sorted_by(earlier, by);
        let at = lemma_place_exists(before, input.last(), by);
        lemma_insert_keeps_sort(earlier, before, at, input.last(), by);
        assert(earlier.push(input.last()) == input);
        assert(is_stable_sort(input, before.insert(at, input.last()), by));
    }
}

/// What holds while two sorted lists `a` and `b` are merged from their ends:
/// `left` and `right` are what is left of them, `tail` is the end of the
/// merged list, which is sorted and holds nothing greater than what is left;
/// and for every key, the entries of that key in `a` and then in `b` are
/// those left in `left`, then those left in `right`, then those in `tail`.
spec fn merging(
    a: Seq<Process>,
    b: Seq<Process>,
    left: Seq<Process>,
    right: Seq<Process>,
    tail: Seq<Process>,
    by: ProcessesSortBy,
) -> bool {
    &&& sorted_descending(left, by)
    &&& sorted_descending(right, by)
    &&& sorted_descending(tail, by)
    &&& left.len() + right.len() + tail.len() == a.len() + b.len()
    &&& tail.len() > 0 ==> forall|i: int|
        0 <= i < left.len() ==> sort_key(#[trigger] left[i], by) >= sort_key(tail[0], by)
    &&& tail.len() > 0 ==> forall|i: int|
        0 <= i < right.len() ==> sort_key(#[trigger] right[i], by) >= sort_key(tail[0], by)
    &&& forall|key: int|
        #![trigger a.filter(in_group(by, key))]
        a.filter(in_group(by, key)) + b.filter(in_group(by, key)) == left.filter(
            in_group(by, key),
        ) + right.filter(in_group(by, key)) + tail.filter(in_group(by, key))
}

/// A sorted sequence without its last entry is sorted, and holds nothing
/// smaller than that entry.
proof fn lemma_sorted_drop_last(s: Seq<Process>, by: ProcessesSortBy)
    requires
        sorted_descending(s, by),
        s.len() > 0,
    ensures
        sorted_descending(s.drop_last(), by),
        forall|i: int|
            0 <= i < s.len() - 1 ==> sort_key(#[trigger] s.drop_last()[i], by) >= sort_key(
                s.last(),
                by,
            ),
{
    let rest = s.drop_last();
    assert forall|a: int, b: int| 0 <= a < b < rest.len() implies sort_key(rest[a], by)
        >= sort_key(rest[b], by) by {
        assert(rest[a] == s[a] && rest[b] == s[b]);
    }
    assert forall|i: int| 0 <= i < s.len() - 1 implies sort_key(#[trigger] rest[i], by)
        >= sort_key(s.last(), by) by {
        assert(rest[i] == s[i]);
    }
}

/// An entry no greater than the first of a sorted sequence, put before it,
/// leaves it sorted.
proof fn lemma_sorted_prepend(tail: Seq<Process>, entry: Process, by: ProcessesSortBy)
    requires
        sorted_descending(tail, by),
        tail.len() > 0 ==> sort_key(entry, by) >= sort_key(tail[0], by),
    ensures
        sorted_descending(seq![entry] + tail, by),
{
    let longer = seq![entry] + tail;
    assert forall|a: int, b: int| 0 <= a < b < longer.len() implies sort_key(longer[a], by)
        >= sort_key(longer[b], by) by {
        assert(longer[b] == tail[b - 1]);
        if a > 0 {
            assert(longer[a] == tail[a - 1]);
        } else if b > 1 {
            assert(sort_key(tail[0], by) >= sort_key(tail[b - 1], by));
        }
    }
}

/// Moving the last entry of `from` to the front of `tail` leaves the entries
/// of every key as they were, where `between` holds none of that entry's key.
proof fn lemma_move_keeps_groups(
    before: Seq<Process>,
    from: Seq<Process>,
    between: Seq<Process>,
    tail: Seq<Process>,
    by: ProcessesSortBy,
    key: int,
)
    requires
        from.len() > 0,
        forall|i: int|
            0 <= i < between.len() ==> sort_key(#[trigger] between[i], by) != sort_key(
                from.last(),
                by,
            ),
    ensures
        before + from.filter(in_group(by, key)) + between.filter(in_group(by, key)) + tail.filter(
            in_group(by, key),
        ) == before + from.drop_last().filter(in_group(by, key)) + between.filter(
            in_group(by, key),
        ) + (seq![from.last()] + tail).filter(in_group(by, key)),
{
    let g = in_group(by, key);
    let entry = from.last();
    let rest = from.drop_last();
    assert(rest.push(entry) == from);
    rest.lemma_filter_push(entry, g);
    tail.lemma_filter_prepend(entry, g);
    if g(entry) {
        assert(between.all(|x: Process| !g(x)));
        between.lemma_all_neg_filter_empty(g);
        assert(between.filter(g) == Seq::<Process>::empty());
        assert(before + rest.filter(g).push(entry) + between.filter(g) + tail.filter(g) == before
            + rest.filter(g) + between.filter(g) + (seq![entry] + tail.filter(g)));
    } else {
        assert(Seq::<Process>::empty() + tail.filter(g) == tail.filter(g));
    }
}

/// Taking the last entry of `right` keeps the merge in order, where it is no
/// greater than the last of `left`.
proof fn lemma_take_right(
    a: Seq<Process>,
    b: Seq<Process>,
    left: Seq<Process>,
    right: Seq<Process>,
    tail: Seq<Process>,
    by: ProcessesSortBy,
)
    requires
        merging(a, b, left, right, tail, by),
        right.len() > 0,
        left.len() > 0 ==> sort_key(right.last(), by) <= sort_key(left.last(), by),
    ensures
        merging(a, b, left, right.drop_last(), seq![right.last()] + tail, by),
{
    let entry = right.last();
    let longer = seq![entry] + tail;
    lemma_sorted_drop_last(right, by);
    if tail.len() > 0 {
        assert(sort_key(right[right.len() - 1], by) >= sort_key(tail[0], by));
    }
    lemma_sorted_prepend(tail, entry, by);
    assert(longer[0] == entry);
    assert forall|i: int| 0 <= i < left.len() implies sort_key(#[trigger] left[i], by)
        >= sort_key(longer[0], by) by {
        if i < left.len() - 1 {
            assert(sort_key(left[i], by) >= sort_key(left[left.len() - 1], by));
        }
    }
    assert forall|key: int|
        #![trigger a.filter(in_group(by, key))]
        a.filter(in_group(by, key)) + b.filter(in_group(by, key)) == left.filter(
            in_group(by, key),
        ) + right.drop_last().filter(in_group(by, key)) + longer.filter(in_group(by, key)) by {
        let g = in_group(by, key);
        lemma_move_keeps_groups(left.filter(g), right, Seq::<Process>::empty(), tail, by, key);
        reveal(Seq::filter);
        assert(Seq::<Process>::empty().filter(g) == Seq::<Process>::empty());
        assert(left.filter(g) + right.filter(g) + Seq::<Process>::empty() + tail.filter(g)
            == left.filter(g) + right.filter(g) + tail.filter(g));
        assert(left.filter(g) + right.drop_last().filter(g) + Seq::<Process>::empty()
            + longer.filter(g) == left.filter(g) + right.drop_last().filter(g) + longer.filter(g));
    }
}

/// Taking the last entry of `left` keeps the merge in order, where it is
/// smaller than the last of `right`.
proof fn lemma_take_left(
    a: Seq<Process>,
    b: Seq<Process>,
    left: Seq<Process>,
    right: Seq<Process>,
    tail: Seq<Process>,
    by: ProcessesSortBy,
)
    requires
        merging(a, b, left, right, tail, by),
        left.len() > 0,
        right.len() > 0 ==> sort_key(right.last(), by) > sort_key(left.last(), by),
    ensures
        merging(a, b, left.drop_last(), right, seq![left.last()] + tail, by),
{
    let entry = left.last();
    let longer = seq![entry] + tail;
    lemma_sorted_drop_last(left, by);
    if tail.len() > 0 {
        assert(sort_key(left[left.len() - 1], by) >= sort_key(tail[0], by));
    }
    lemma_sorted_prepend(tail, entry, by);
    assert(longer[0] == entry);
    assert forall|i: int| 0 <= i < right.len() implies sort_key(#[trigger] right[i], by)
        > sort_key(entry, by) by {
        if i < right.len() - 1 {
            assert(sort_key(right[i], by) >= sort_key(right[right.len() - 1], by));
        }
    }
    assert forall|key: int|
        #![trigger a.filter(in_group(by, key))]
        a.filter(in_group(by, key)) + b.filter(in_group(by, key)) == left.drop_last().filter(
            in_group(by, key),
        ) + right.filter(in_group(by, key)) + longer.filter(in_group(by, key)) by {
        let g = in_group(by, key);
        lemma_move_keeps_groups(Seq::<Process>::empty(), left, right, tail, by, key);
        assert(Seq::<Process>::empty() + left.filter(g) == left.filter(g));
        assert(Seq::<Process>::empty() + left.drop_last().filter(g) == left.drop_last().filter(g));
    }
}

/// Merges two sorted lists into one: greatest key first, and of two entries
/// of equal key, one of `left` before one of `right`.
fn merge(left: Vec<Process>, right: Vec<Process>, sort_by: &ProcessesSortBy) -> (merged: Vec<
    Process,
>)
    requires
        sorted_descending(left@, *sort_by),
        sorted_descending(right@, *sort_by),
    ensures
        sorted_descending(merged@, *sort_by),
        forall|key: int| #[trigger]
            merged@.filter(in_group(*sort_by, key)) == left@.filter(in_group(*sort_by, key))
                + right@.filter(in_group(*sort_by, key)),
        merged@.len() == left@.len() + right@.len(),
{
    let mut left = left;
    let mut right = right;
    let ghost a = left@;
    let ghost b = right@;
    // The greatest entries are wanted first, and a vector gives up its last
    // entry cheaply: so the merged list is built from its end, in `backwards`,
    // and turned round afterwards. `tail` is what `backwards` holds, in the
    // order it will have.
    let mut backwards: Vec<Process> = Vec::new();
    let ghost mut tail: Seq<Process> = Seq::empty();
    proof {
        reveal(Seq::filter);
        assert forall|key: int|
            #![trigger a.filter(in_group(*sort_by, key))]
            a.filter(in_group(*sort_by, key)) + b.filter(in_group(*sort_by, key)) == a.filter(
                in_group(*sort_by, key),
            ) + b.filter(in_group(*sort_by, key)) + tail.filter(in_group(*sort_by, key)) by {
            assert(tail.filter(in_group(*sort_by, key)) == Seq::<Process>::empty());
        }
    }
    while left.len() > 0 || right.len() > 0
        invariant
            merging(a, b, left@, right@, tail, *sort_by),
            backwards@.len() == tail.len(),
            forall|i: int|
                0 <= i < tail.len() ==> #[trigger] backwards@[i] == tail[tail.len() - 1 - i],
        decreases left@.len() + right@.len(),
    {
        let take_right = if right.len() == 0 {
            false
        } else if left.len() == 0 {
            true
        } else {
            key_of(&right[right.len() - 1], sort_by) <= key_of(&left[left.len() - 1], sort_by)
        };
        let ghost turned = backwards@;
        let ghost tail_before = tail;
        let entry = if take_right {
            proof {
                lemma_take_right(a, b, left@, right@, tail, *sort_by);
            }
            right.pop().unwrap()
        } else {
            proof {
                lemma_take_left(a, b, left@, right@, tail, *sort_by);
            }
            left.pop().unwrap()
        };
        proof {
            tail = seq![entry] + tail_before;
        }
        backwards.push(entry);
        assert forall|i: int| 0 <= i < tail.len() implies #[trigger] backwards@[i] == tail[tail.len()
            - 1 - i] by {
            if i < turned.len() {
                assert(backwards@[i] == turned[i]);
                assert(turned[i] == tail_before[tail_before.len() - 1 - i]);
            }
        }
    }
    proof {
        reveal(Seq::filter);
        assert forall|key: int| #[trigger]
            tail.filter(in_group(*sort_by, key)) == a.filter(in_group(*sort_by, key)) + b.filter(
                in_group(*sort_by, key),
            ) by {
            let g = in_group(*sort_by, key);
            assert(a.filter(g) + b.filter(g) == left@.filter(g) + right@.filter(g) + tail.filter(
                g,
            ));
            assert(left@.filter(g) == Seq::<Process>::empty());
            assert(right@.filter(g) == Seq::<Process>::empty());
            assert(Seq::<Process>::empty() + Seq::<Process>::empty() + tail.filter(g)
                == tail.filter(g));
        }
    }
    let mut merged: Vec<Process> = Vec::new();
    while backwards.len() > 0
        invariant
            merged@.len() + backwards@.len() == tail.len(),
            forall|i: int|
                0 <= i < backwards@.len() ==> #[trigger] backwards@[i] == tail[tail.len() - 1 - i],
            forall|i: int| 0 <= i < merged@.len() ==> #[trigger] merged@[i] == tail[i],
        decreases backwards@.len(),
    {
        let ghost turned = merged@;
        let ghost rest = backwards@;
        let entry = backwards.pop().unwrap();
        assert(entry == rest[rest.len() - 1]);
        merged.push(entry);
        assert forall|i: int| 0 <= i < merged@.len() implies #[trigger] merged@[i] == tail[i] by {
            if i < turned.len() {
                assert(merged@[i] == turned[i]);
            }
        }
    }
    assert(merged@ == tail);
    merged
}

/// Sorts by merging: each half is sorted, and the two are merged.
fn merge_sort(processes: Vec<Process>, sort_by: &ProcessesSortBy) -> (sorted: Vec<Process>)
    ensures
        is_stable_sort(processes@, sorted@, *sort_by),
        sorted@.len() == processes@.len(),
    decreases processes@.len(),
{
    let n: usize = processes.len();
    if n <= 1 {
        return processes;
    }
    let ghost input = processes@;
    let mut left = processes;
    let right = left.split_off(n / 2);
    let ghost a = left@;
    let ghost b = right@;
    let left = merge_sort(left, sort_by);
    let right = merge_sort(right, sort_by);
    let ghost left_sorted = left@;
    let ghost right_sorted = right@;
    let merged = merge(left, right, sort_by);
    proof {
        assert(a + b == input);
        assert forall|key: int| #[trigger]
            merged@.filter(in_group(*sort_by, key)) == input.filter(
                in_group(*sort_by, key),
            ) by {
            let g = in_group(*sort_by, key);
            Seq::filter_distributes_over_add(a, b, g);
            assert(left_sorted.filter(g) == a.filter(g));
            assert(right_sorted.filter(g) == b.filter(g));
        }
    }
    merged
}

/// The number an entry is sorted by under the key `by`.
fn key_of(p: &Process, by: &ProcessesSortBy) -> (key: u32)
    ensures
        key == sort_key(*p, *by),
{
    match by {
        ProcessesSortBy::CPU => p.cpu_usage,
        ProcessesSortBy::MEM => p.memory_usage,
    }
}

/// The process table over one process list, with the filter text that is in
/// force, if any.
pub struct ProcessTableWidget<'a> {
    pub data: &'a ProcessesSnapshot,
    pub filter_by: Option<&'a str>,
}

impl<'a> ProcessTableWidget<'a> {
    /// The list this table shows in the state `state`.
    pub open spec fn rows(&self, state: ProcessTableState) -> Seq<Process> {
        visible(self.data.processes@, filter_text(self.filter_by), state)
    }

    /// The visible list: filtered by the text, sorted by the key, threads
    /// left out unless they are shown.
    pub fn get_processes(&self, state: &ProcessTableState) -> (processes: Vec<Process>)
        ensures
            processes@ == self.rows(*state),
    {
        let mut processes = Self::filter_processes(self.data.processes.clone(), self.filter_by);
        processes = Self::sort_processes(processes, &state.sort_by);
        processes = Self::filter_threads(processes, state.show_threads);
        processes
    }

    /// Keeps the entries whose command line holds the text `filter_by`, in
    /// their order; keeps all where there is no filter.
    pub fn filter_processes(processes: Vec<Process>, filter_by: Option<&str>) -> (kept: Vec<
        Process,
    >)
        ensures
            kept@ == filtered(processes@, filter_text(filter_by)),
    {
        match filter_by {
            Some(s) => {
                let needle = s.as_bytes();
                let ghost keep = |p: Process| command_contains(p, s@);
                let mut kept: Vec<Process> = Vec::new();
                let mut i: usize = 0;
                while i < processes.len()
                    invariant
                        i <= processes.len(),
                        needle@ == encode_utf8(s@),
                        keep == |p: Process| command_contains(p, s@),
                        kept@ == processes@.subrange(0, i as int).filter(keep),
                    decreases processes.len() - i,
                {
                    proof {
                        let seen = processes@.subrange(0, i as int);
                        assert(processes@.subrange(0, i + 1) == seen.push(processes@[i as int]));
                        seen.lemma_filter_push(processes@[i as int], keep);
                    }
                    if bytes_contain(processes[i].command.as_str().as_bytes(), needle) {
                        kept.push(processes[i].clone());
                    }
                    i += 1;
                }
                assert(processes@.subrange(0, i as int) == processes@);
                kept
            },
            None => processes,
        }
    }

    /// Sorts by the key, greatest first; entries of equal key keep the order
    /// they came in.
    pub fn sort_processes(processes: Vec<Process>, sort_by: &ProcessesSortBy) -> (sorted: Vec<
        Process,
    >)
        ensures
            is_stable_sort(processes@, sorted@, *sort_by),
            sorted@ == sorted_by(processes@, *sort_by),
            sorted@.len() == processes@.len(),
    {
        let ghost input = processes@;
        let sorted = merge_sort(processes, sort_by);
        proof {
            lemma_stable_sort_is_unique(input, sorted@, sorted@, *sort_by);
        }
        sorted
    }

    /// Leaves the threads out, unless they are shown.
    pub fn filter_threads(processes: Vec<Process>, show_threads: bool) -> (kept: Vec<Process>)
        ensures
            kept@ == without_threads(processes@, show_threads),
    {
        if show_threads {
            processes
        } else {
            let ghost keep = |p: Process| !p.is_thread();
            let mut kept: Vec<Process> = Vec::new();
            let mut i: usize = 0;
            while i < processes.len()
                invariant
                    i <= processes.len(),
                    keep == |p: Process| !p.is_thread(),
                    kept@ == processes@.subrange(0, i as int).filter(keep),
                decreases processes.len() - i,
            {
                proof {
                    let seen = processes@.subrange(0, i as int);
                    assert(processes@.subrange(0, i + 1) == seen.push(processes@[i as int]));
                    seen.lemma_filter_push(processes@[i as int], keep);
                }
                if !processes[i].is_thread() {
                    kept.push(processes[i].clone());
                }
                i += 1;
            }
            assert(processes@.subrange(0, i as int) == processes@);
            kept
        }
    }

    /// The process id on row `n` of the visible list; `None` where the list
    /// has no such row.
    pub fn get_nth_pid(&self, n: usize, state: &ProcessTableState) -> (pid: Option<u32>)
        ensures
            pid == if n < self.rows(*state).len() {
                Some(self.rows(*state)[n as int].pid)
            } else {
                None
            },
    {
        let processes = self.get_processes(state);
        if n < processes.len() {
            Some(processes[n].pid)
        } else {
            None
        }
    }

    /// How many rows the visible list has.
    pub fn visible_count(&self, state: &ProcessTableState) -> (n: usize)
        ensures
            n == self.rows(*state).len(),
    {
        self.get_processes(state).len()
    }
}

} // verus!
