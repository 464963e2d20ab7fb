//! Index sets kept as ascending lists, and the draw order of selected items.

use vstd::prelude::*;

verus! {

/// Whether `k` occurs in the index list.
pub open spec fn chosen(indices: Seq<usize>, k: int) -> bool {
    exists|t: int| 0 <= t < indices.len() && #[trigger] indices[t] == k
}

/// Whether the list is ascending without duplicates.
pub open spec fn ascending(indices: Seq<usize>) -> bool {
    forall|s: int, t: int| 0 <= s < t < indices.len() ==> indices[s] < indices[t]
}

/// Whether every index lies below `len`.
pub open spec fn within(indices: Seq<usize>, len: int) -> bool {
    forall|t: int| 0 <= t < indices.len() ==> #[trigger] indices[t] < len
}

/// An ascending list is determined by what occurs in it.
pub proof fn lemma_ascending_unique(a: Seq<usize>, b: Seq<usize>)
    requires
        ascending(a),
        ascending(b),
        forall|k: int| chosen(a, k) == chosen(b, k),
    ensures
        a == b,
    decreases a.len(),
{
    if a.len() == 0 {
        if b.len() > 0 {
            assert(chosen(b, b[0] as int));
            assert(chosen(a, b[0] as int));
        }
        assert(a =~= b);
    } else {
        let x = a.last();
        assert(a[a.len() - 1] == x);
        assert(chosen(a, x as int));
        assert(chosen(b, x as int));
        let t = choose|t: int| 0 <= t < b.len() && b[t] == x as int;
        let y = b.last();
        assert(b[b.len() - 1] == y);
        assert(chosen(b, y as int));
        assert(chosen(a, y as int));
        let s = choose|s: int| 0 <= s < a.len() && a[s] == y as int;
        assert(y <= x);
        assert(x <= y);
        assert(t == b.len() - 1);
        let a1 = a.drop_last();
        let b1 = b.drop_last();
        assert forall|k: int| chosen(a1, k) == chosen(b1, k) by {
            if chosen(a1, k) {
                let u = choose|u: int| 0 <= u < a1.len() && a1[u] == k;
                assert(a[u] == k);
                assert(chosen(a, k));
                let v = choose|v: int| 0 <= v < b.len() && b[v] == k;
                assert(v < b.len() - 1);
                assert(b1[v] == k);
            }
            if chosen(b1, k) {
                let u = choose|u: int| 0 <= u < b1.len() && b1[u] == k;
                assert(b[u] == k);
                assert(chosen(b, k));
                let v = choose|v: int| 0 <= v < a.len() && a[v] == k;
                assert(v < a.len() - 1);
                assert(a1[v] == k);
            }
        }
        lemma_ascending_unique(a1, b1);
        assert(a =~= a1.push(x));
        assert(b =~= b1.push(x));
    }
}

/// Whether `i` occurs in the list.
pub fn has_index(indices: &[usize], i: usize) -> (r: bool)
    ensures
        r == chosen(indices@, i as int),
{
    let mut t: usize = 0;
    while t < indices.len()
        invariant
            t <= indices.len(),
            forall|s: int| 0 <= s < t ==> indices@[s] != i,
        decreases indices.len() - t,
    {
        if indices[t] == i {
            assert(indices@[t as int] == i as int);
            return true;
        }
        t += 1;
    }
    false
}

/// The list with `i` added at its place: it stays ascending without
/// duplicates.
pub fn insert_index(indices: &mut Vec<usize>, i: usize)
    requires
        ascending(old(indices)@),
    ensures
        ascending(final(indices)@),
        forall|k: int| chosen(final(indices)@, k) == (chosen(old(indices)@, k) || k == i),
{
    let ghost start = indices@;
    let mut t: usize = 0;
    while t < indices.len() && indices[t] < i
        invariant
            t <= indices.len(),
            indices@ == start,
            forall|s: int| 0 <= s < t ==> indices@[s] < i,
        decreases indices.len() - t,
    {
        t += 1;
    }
    if t < indices.len() && indices[t] == i {
        assert(start[t as int] == i as int);
        return;
    }
    indices.insert(t, i);
    proof {
        let out = indices@;
        assert(out == start.insert(t as int, i));
        assert(out[t as int] == i as int);
        assert forall|k: int| chosen(out, k) == (chosen(start, k) || k == i) by {
            if chosen(start, k) {
                let s = choose|s: int| 0 <= s < start.len() && start[s] == k;
                if s < t {
                    assert(out[s] == k);
                } else {
                    assert(out[s + 1] == k);
                }
            }
            if chosen(out, k) {
                let s = choose|s: int| 0 <= s < out.len() && out[s] == k;
                if s < t {
                    assert(start[s] == k);
                } else if s > t {
                    assert(start[s - 1] == k);
                }
            }
        }
    }
}

/// The indices of a list in ascending order, each once.
pub fn sorted_set(indices: &[usize]) -> (out: Vec<usize>)
    ensures
        ascending(out@),
        forall|k: int| chosen(out@, k) == chosen(indices@, k),
{
    let mut out: Vec<usize> = Vec::new();
    let mut t: usize = 0;
    while t < indices.len()
        invariant
            t <= indices.len(),
            ascending(out@),
            forall|k: int| chosen(out@, k) == chosen(indices@.take(t as int), k),
        decreases indices.len() - t,
    {
        let ghost before = out@;
        insert_index(&mut out, indices[t]);
        proof {
            let upto = indices@.take(t as int);
            let next = indices@.take(t + 1);
            assert forall|k: int| chosen(out@, k) == chosen(next, k) by {
                if chosen(upto, k) {
                    let s = choose|s: int| 0 <= s < upto.len() && upto[s] == k;
                    assert(next[s] == k);
                }
                if k == indices@[t as int] {
                    assert(next[t as int] == k);
                }
                if chosen(next, k) {
                    let s = choose|s: int| 0 <= s < next.len() && next[s] == k;
                    if s < t {
                        assert(upto[s] == k);
                    }
                }
            }
        }
        t += 1;
    }
    assert(indices@.take(indices@.len() as int) =~= indices@);
    out
}

/// The indices below `n` that occur in the list, ascending, each once.
pub open spec fn members(indices: Seq<usize>, n: int) -> Seq<usize>
    decreases n,
{
    if n <= 0 {
        Seq::empty()
    } else if chosen(indices, n - 1) {
        members(indices, n - 1).push((n - 1) as usize)
    } else {
        members(indices, n - 1)
    }
}

/// The indices below `n` that occur in the list, ascending, each once.
pub fn members_below(indices: &[usize], n: usize) -> (out: Vec<usize>)
    ensures
        out@ == members(indices@, n as int),
{
    let mut out: Vec<usize> = Vec::new();
    let mut i: usize = 0;
    while i < n
        invariant
            i <= n,
            out@ == members(indices@, i as int),
        decreases n - i,
    {
        if has_index(indices, i) {
            out.push(i);
        }
        i += 1;
    }
    out
}

/// Of the first `n` items, those that the list does not name, in order.
pub open spec fn without<T>(items: Seq<T>, indices: Seq<usize>, n: int) -> Seq<T>
    decreases n,
{
    if n <= 0 {
        Seq::empty()
    } else if chosen(indices, n - 1) {
        without(items, indices, n - 1)
    } else {
        without(items, indices, n - 1).push(items[n - 1])
    }
}

/// Takes out every item that the list names. Indices beyond the items are
/// skipped.
pub fn remove_chosen<T>(items: &mut Vec<T>, indices: &[usize])
    ensures
        final(items)@ == without(old(items)@, indices@, old(items)@.len() as int),
{
    let ghost orig = items@;
    let n: usize = items.len();
    let mut i: usize = 0;
    let mut j: usize = 0;
    while i < n
        invariant
            n == orig.len(),
            j <= i <= n,
            j == without(orig, indices@, i as int).len(),
            items@ =~= without(orig, indices@, i as int) + orig.skip(i as int),
        decreases n - i,
    {
        if has_index(indices, i) {
            let ghost before = items@;
            let _ = items.remove(j);
            assert(items@ =~= without(orig, indices@, i + 1) + orig.skip(i + 1));
        } else {
            assert(items@[j as int] == orig[i as int]);
            assert(items@ =~= without(orig, indices@, i + 1) + orig.skip(i + 1));
            j += 1;
        }
        i += 1;
    }
    assert(orig.skip(n as int) =~= Seq::<T>::empty());
}

/// Every index below `n` that occurs in the list is a member, and nothing
/// else is.
pub proof fn lemma_members(indices: Seq<usize>, n: int)
    requires
        0 <= n <= usize::MAX + 1,
    ensures
        ascending(members(indices, n)),
        within(members(indices, n), n),
        forall|k: int| #[trigger]
            chosen(members(indices, n), k) == (0 <= k < n && chosen(indices, k)),
    decreases n,
{
    if n > 0 {
        lemma_members(indices, n - 1);
        let m = members(indices, n - 1);
        if chosen(indices, n - 1) {
            let out = m.push((n - 1) as usize);
            assert(out[m.len() as int] == n - 1);
            assert forall|k: int| #[trigger]
                chosen(out, k) == (0 <= k < n && chosen(indices, k)) by {
                if chosen(m, k) {
                    let t = choose|t: int| 0 <= t < m.len() && m[t] == k;
                    assert(out[t] == k);
                }
                if chosen(out, k) {
                    let t = choose|t: int| 0 <= t < out.len() && out[t] == k;
                    if t < m.len() {
                        assert(m[t] == k);
                    }
                }
            }
        }
    }
}

/// Taking items out leaves the others, and the two counts add up.
pub proof fn law_removal_keeps_the_rest<T>(items: Seq<T>, indices: Seq<usize>, n: int)
    requires
        0 <= n <= items.len(),
        n <= usize::MAX + 1,
    ensures
        without(items, indices, n).len() + members(indices, n).len() == n,
        forall|k: int|
            0 <= k < n && !#[trigger] chosen(indices, k) ==> without(items, indices, n).contains(
                items[k],
            ),
    decreases n,
{
    if n > 0 {
        law_removal_keeps_the_rest(items, indices, n - 1);
        let rest = without(items, indices, n - 1);
        assert forall|k: int| 0 <= k < n && !#[trigger] chosen(indices, k) implies without(
            items,
            indices,
            n,
        ).contains(items[k]) by {
            let all = without(items, indices, n);
            if k < n - 1 {
                assert(rest.contains(items[k]));
                let t = choose|t: int| 0 <= t < rest.len() && rest[t] == items[k];
                assert(all[t] == items[k]);
            } else {
                assert(all[rest.len() as int] == items[k]);
            }
        }
    }
}

// ---- One step in draw order ----

/// Whether a selected item at `i` has room to go one step toward the front:
/// some item above it is not selected.
pub open spec fn room_above(sel: Seq<usize>, len: int, i: int) -> bool {
    exists|j: int| i < j < len && !#[trigger] chosen(sel, j)
}

/// Whether a selected item at `i` has room to go one step toward the back:
/// some item below it is not selected.
pub open spec fn room_below(sel: Seq<usize>, i: int) -> bool {
    exists|j: int| 0 <= j < i && !#[trigger] chosen(sel, j)
}

/// Whether the selected item at `i` moves in a step.
pub open spec fn steps(sel: Seq<usize>, len: int, forward: bool, i: int) -> bool {
    chosen(sel, i) && 0 <= i < len && if forward {
        room_above(sel, len, i)
    } else {
        room_below(sel, i)
    }
}

/// The place of the selected item `i` after a step.
pub open spec fn stepped(sel: Seq<usize>, len: int, forward: bool, i: int) -> int {
    if steps(sel, len, forward, i) {
        if forward {
            i + 1
        } else {
            i - 1
        }
    } else {
        i
    }
}

/// Whether place `k` holds a selected item after a step.
pub open spec fn chosen_after(sel: Seq<usize>, len: int, forward: bool, k: int) -> bool {
    ||| chosen(sel, k) && !steps(sel, len, forward, k)
    ||| forward && steps(sel, len, true, k - 1)
    ||| !forward && steps(sel, len, false, k + 1)
}

/// The nearest place at or above `k` that is not selected.
pub open spec fn free_above(sel: Seq<usize>, len: int, k: int) -> int
    decreases len - k,
{
    if k >= len || !chosen(sel, k) {
        k
    } else {
        free_above(sel, len, k + 1)
    }
}

/// The nearest place at or below `k` that is not selected.
pub open spec fn free_below(sel: Seq<usize>, k: int) -> int
    decreases k,
{
    if k <= 0 || !chosen(sel, k) {
        k
    } else {
        free_below(sel, k - 1)
    }
}

/// Where the item at place `k` after a step came from. A selected item comes
/// from the neighbouring place if it moved, and from `k` if it did not. An
/// unselected item slides past the block of selected items that moved over
/// it.
pub open spec fn source(sel: Seq<usize>, len: int, forward: bool, k: int) -> int {
    if forward {
        if steps(sel, len, true, k - 1) {
            k - 1
        } else if chosen(sel, k) && !steps(sel, len, true, k) {
            k
        } else {
            free_above(sel, len, k)
        }
    } else {
        if steps(sel, len, false, k + 1) {
            k + 1
        } else if chosen(sel, k) && !steps(sel, len, false, k) {
            k
        } else {
            free_below(sel, k)
        }
    }
}

/// The nearest free place above stays inside and is unselected, when there is
/// one.
proof fn lemma_free_above(sel: Seq<usize>, len: int, k: int)
    requires
        0 <= k < len,
    ensures
        k <= free_above(sel, len, k) <= len,
        forall|j: int| k <= j < free_above(sel, len, k) ==> #[trigger] chosen(sel, j),
        free_above(sel, len, k) < len ==> !chosen(sel, free_above(sel, len, k)),
        room_above(sel, len, k) || !chosen(sel, k) ==> free_above(sel, len, k) < len,
    decreases len - k,
{
    if chosen(sel, k) && k + 1 < len {
        lemma_free_above(sel, len, k + 1);
        if room_above(sel, len, k) {
            let j = choose|j: int| k < j < len && !chosen(sel, j);
            if j != k + 1 {
                assert(room_above(sel, len, k + 1));
            }
        }
    } else if chosen(sel, k) {
        assert(free_above(sel, len, k + 1) == k + 1);
    }
}

/// The nearest free place below stays inside and is unselected, when there is
/// one.
proof fn lemma_free_below(sel: Seq<usize>, k: int)
    requires
        0 <= k,
    ensures
        0 <= free_below(sel, k) <= k,
        forall|j: int| free_below(sel, k) < j <= k ==> #[trigger] chosen(sel, j),
        room_below(sel, k) || !chosen(sel, k) ==> !chosen(sel, free_below(sel, k)),
    decreases k,
{
    if chosen(sel, k) && k > 0 {
        lemma_free_below(sel, k - 1);
        if room_below(sel, k) {
            let j = choose|j: int| 0 <= j < k && !chosen(sel, j);
            if j != k - 1 {
                assert(room_below(sel, k - 1));
            }
        }
    }
}

/// Which of the places `0..len` are in the list.
fn flags(sel: &[usize], len: usize) -> (out: Vec<bool>)
    ensures
        out@.len() == len,
        forall|k: int| 0 <= k < len ==> #[trigger] out@[k] == chosen(sel@, k),
{
    let mut out: Vec<bool> = Vec::new();
    let mut k: usize = 0;
    while k < len
        invariant
            k <= len,
            out@.len() == k,
            forall|j: int| 0 <= j < k ==> #[trigger] out@[j] == chosen(sel@, j),
        decreases len - k,
    {
        out.push(has_index(sel, k));
        k += 1;
    }
    out
}

/// Swaps the items at `i` and `i + 1`.
fn swap_next<T>(items: &mut Vec<T>, i: usize)
    requires
        i + 1 < old(items)@.len(),
    ensures
        final(items)@ == old(items)@.update(i as int, old(items)@[i + 1]).update(
            i + 1,
            old(items)@[i as int],
        ),
{
    let ghost start = items@;
    let n: usize = items.len();
    assert(i + 1 < n);
    let item = items.remove(i);
    items.insert(i + 1, item);
    assert(items@ =~= start.update(i as int, start[i + 1]).update(i + 1, start[i as int]));
}

/// The items and flags after every selected place from `m` up has been
/// handled, in a step toward the front.
spec fn half_front<T>(
    sel: Seq<usize>,
    orig: Seq<T>,
    items: Seq<T>,
    on: Seq<bool>,
    m: int,
) -> bool {
    let len = orig.len() as int;
    &&& items.len() == len
    &&& on.len() == len
    &&& forall|k: int| 0 <= k < m ==> #[trigger] items[k] == orig[k]
    &&& forall|k: int| 0 <= k < m ==> #[trigger] on[k] == chosen(sel, k)
    &&& forall|k: int|
        m <= k < len ==> #[trigger] items[k] == orig[if k > m && steps(sel, len, true, k - 1) {
            k - 1
        } else if chosen(sel, k) && !steps(sel, len, true, k) {
            k
        } else {
            free_above(sel, len, k)
        }]
    &&& forall|k: int|
        m <= k < len ==> #[trigger] on[k] == ((chosen(sel, k) && !steps(sel, len, true, k)) || (k
            > m && steps(sel, len, true, k - 1)))
}

/// The items and flags after every selected place below `m` has been
/// handled, in a step toward the back.
spec fn half_back<T>(
    sel: Seq<usize>,
    orig: Seq<T>,
    items: Seq<T>,
    on: Seq<bool>,
    m: int,
) -> bool {
    let len = orig.len() as int;
    &&& items.len() == len
    &&& on.len() == len
    &&& forall|k: int| m <= k < len ==> #[trigger] items[k] == orig[k]
    &&& forall|k: int| m <= k < len ==> #[trigger] on[k] == chosen(sel, k)
    &&& forall|k: int|
        0 <= k < m ==> #[trigger] items[k] == orig[if k < m - 1 && steps(
            sel,
            len,
            false,
            k + 1,
        ) {
            k + 1
        } else if chosen(sel, k) && !steps(sel, len, false, k) {
            k
        } else {
            free_below(sel, k)
        }]
    &&& forall|k: int|
        0 <= k < m ==> #[trigger] on[k] == ((chosen(sel, k) && !steps(sel, len, false, k)) || (k < m
            - 1 && steps(sel, len, false, k + 1)))
}

/// Moves every selected item one step toward the front (`forward`) or the
/// back of the draw order, keeping their relative order. A block of adjacent
/// selected items moves as one; a block that already touches the end stays.
/// Returns the places of the selected items, ascending.
pub fn reorder_selection<T>(
    annotations: &mut Vec<T>,
    selected: &[usize],
    forward: bool,
) -> (out: Vec<usize>)
    ensures
        final(annotations)@.len() == old(annotations)@.len(),
        forall|k: int|
            0 <= k < old(annotations)@.len() ==> #[trigger] final(annotations)@[k] == old(
                annotations,
            )@[source(selected@, old(annotations)@.len() as int, forward, k)],
        ascending(out@),
        forall|k: int|
            #[trigger] chosen(out@, k) == chosen_after(
                selected@,
                old(annotations)@.len() as int,
                forward,
                k,
            ),
{
    let ghost orig = annotations@;
    let ghost sel = selected@;
    let len: usize = annotations.len();
    let mut on: Vec<bool> = flags(selected, len);
    if forward {
        let mut m: usize = len;
        while m > 0
            invariant
                m <= len,
                len == orig.len(),
                half_front(sel, orig, annotations@, on@, m as int),
            decreases m,
        {
            let i: usize = m - 1;
            proof {
                lemma_free_above(sel, len as int, i as int);
                if i + 1 < len {
                    lemma_free_above(sel, len as int, i + 1);
                }
                if room_above(sel, len as int, i as int) {
                    let j = choose|j: int| i < j < len && !chosen(sel, j);
                    if j != i + 1 {
                        assert(room_above(sel, len as int, i + 1));
                    }
                } else if i + 1 < len {
                    assert(chosen(sel, i + 1));
                    if room_above(sel, len as int, i + 1) {
                        let j = choose|j: int| i + 1 < j < len && !chosen(sel, j);
                        assert(!chosen(sel, j));
                    }
                }
            }
            if i + 1 < len && on[i] && !on[i + 1] {
                assert(steps(sel, len as int, true, i as int));
                swap_next(annotations, i);
                on.set(i, false);
                on.set(i + 1, true);
            } else {
                assert(!steps(sel, len as int, true, i as int));
            }
            m = i;
        }
    } else {
        let mut m: usize = 0;
        while m < len
            invariant
                m <= len,
                len == orig.len(),
                half_back(sel, orig, annotations@, on@, m as int),
            decreases len - m,
        {
            proof {
                lemma_free_below(sel, m as int);
                if m > 0 {
                    lemma_free_below(sel, m - 1);
                }
                if room_below(sel, m as int) {
                    let j = choose|j: int| 0 <= j < m && !chosen(sel, j);
                    if j != m - 1 {
                        assert(room_below(sel, m - 1));
                    }
                } else if m > 0 {
                    assert(chosen(sel, m - 1));
                    if room_below(sel, m - 1) {
                        let j = choose|j: int| 0 <= j < m - 1 && !chosen(sel, j);
                        assert(!chosen(sel, j));
                    }
                }
            }
            if m > 0 && on[m] && !on[m - 1] {
                assert(steps(sel, len as int, false, m as int));
                swap_next(annotations, m - 1);
                on.set(m, false);
                on.set(m - 1, true);
            } else {
                assert(!steps(sel, len as int, false, m as int));
            }
            m += 1;
        }
    }
    // The places still flagged, then the indices beyond the items.
    let mut out: Vec<usize> = Vec::new();
    let mut k: usize = 0;
    while k < len
        invariant
            k <= len,
            len == orig.len(),
            on@.len() == len,
            forall|j: int|
                0 <= j < len ==> #[trigger] on@[j] == chosen_after(sel, len as int, forward, j),
            ascending(out@),
            within(out@, k as int),
            forall|j: int|
                #[trigger] chosen(out@, j) == (0 <= j < k && chosen_after(
                    sel,
                    len as int,
                    forward,
                    j,
                )),
        decreases len - k,
    {
        if on[k] {
            let ghost before = out@;
            out.push(k);
            proof {
                assert(out@[before.len() as int] == k as int);
                assert forall|j: int|
                    #[trigger] chosen(out@, j) == (0 <= j < k + 1 && chosen_after(
                        sel,
                        len as int,
                        forward,
                        j,
                    )) by {
                    if chosen(before, j) {
                        let s = choose|s: int| 0 <= s < before.len() && before[s] == j;
                        assert(out@[s] == j);
                    }
                    if chosen(out@, j) {
                        let s = choose|s: int| 0 <= s < out@.len() && out@[s] == j;
                        if s < before.len() {
                            assert(before[s] == j);
                        }
                    }
                }
            }
        }
        k += 1;
    }
    let all = sorted_set(selected);
    let mut t: usize = 0;
    while t < all.len()
        invariant
            t <= all.len(),
            len == orig.len(),
            ascending(all@),
            forall|j: int| #[trigger] chosen(all@, j) == chosen(sel, j),
            ascending(out@),
            forall|s: int|
                0 <= s < out@.len() ==> #[trigger] out@[s] < len || (t > 0 && out@[s] <= all@[t
                    - 1]),
            forall|j: int|
                #[trigger] chosen(out@, j) == ((0 <= j < len && chosen_after(
                    sel,
                    len as int,
                    forward,
                    j,
                )) || (j >= len && chosen(all@.take(t as int), j))),
        decreases all.len() - t,
    {
        let i: usize = all[t];
        let ghost before = out@;
        if i >= len {
            out.push(i);
        }
        proof {
            let upto = all@.take(t as int);
            let next = all@.take(t + 1);
            assert forall|j: int|
                #[trigger] chosen(out@, j) == ((0 <= j < len && chosen_after(
                    sel,
                    len as int,
                    forward,
                    j,
                )) || (j >= len && chosen(next, j))) by {
                if chosen(before, j) {
                    let s = choose|s: int| 0 <= s < before.len() && before[s] == j;
                    assert(out@[s] == j);
                }
                if chosen(upto, j) {
                    let s = choose|s: int| 0 <= s < upto.len() && upto[s] == j;
                    assert(next[s] == j);
                }
                if chosen(next, j) {
                    let s = choose|s: int| 0 <= s < next.len() && next[s] == j;
                    if s < t {
                        assert(upto[s] == j);
                    }
                }
                if i >= len {
                    assert(out@[before.len() as int] == i as int);
                    assert(next[t as int] == i as int);
                }
                if chosen(out@, j) {
                    let s = choose|s: int| 0 <= s < out@.len() && out@[s] == j;
                    if s < before.len() {
                        assert(before[s] == j);
                    }
                }
            }
        }
        t += 1;
    }
    proof {
        assert(all@.take(all@.len() as int) =~= all@);
        assert forall|k: int|
            #[trigger] chosen(out@, k) == chosen_after(sel, len as int, forward, k) by {
            if chosen_after(sel, len as int, forward, k) && k >= len {
                assert(chosen(sel, k) || steps(sel, len as int, true, k - 1) || steps(
                    sel,
                    len as int,
                    false,
                    k + 1,
                ));
                if steps(sel, len as int, true, k - 1) {
                    assert(room_above(sel, len as int, k - 1));
                }
            }
            if chosen_after(sel, len as int, forward, k) && k < 0 {
                if steps(sel, len as int, false, k + 1) {
                    assert(room_below(sel, k + 1));
                }
                assert(!chosen(sel, k));
            }
        }
    }
    out
}

// ---- Laws of a step ----

/// A selected item is found at its new place: the selection follows the
/// items.
pub proof fn law_selection_follows_items(sel: Seq<usize>, len: int, forward: bool, i: int)
    requires
        chosen(sel, i),
        0 <= i < len,
    ensures
        0 <= stepped(sel, len, forward, i) < len,
        chosen_after(sel, len, forward, stepped(sel, len, forward, i)),
        source(sel, len, forward, stepped(sel, len, forward, i)) == i,
{
    let k = stepped(sel, len, forward, i);
    if !steps(sel, len, forward, i) {
        if forward && steps(sel, len, true, i - 1) {
            let j = choose|j: int| i - 1 < j < len && !chosen(sel, j);
            assert(room_above(sel, len, i));
        }
        if !forward && steps(sel, len, false, i + 1) {
            let j = choose|j: int| 0 <= j < i + 1 && !chosen(sel, j);
            assert(room_below(sel, i));
        }
    }
}

/// Every place after a step holds an item that was there before, and no item
/// is found in two places: a step only permutes the items.
pub proof fn law_step_permutes(sel: Seq<usize>, len: int, forward: bool, j: int, k: int)
    requires
        0 <= j < len,
        0 <= k < len,
    ensures
        0 <= source(sel, len, forward, k) < len,
        j != k ==> source(sel, len, forward, j) != source(sel, len, forward, k),
{
    lemma_source_range(sel, len, forward, j);
    lemma_source_range(sel, len, forward, k);
    if j < k {
        lemma_source_distinct(sel, len, forward, j, k);
    } else if k < j {
        lemma_source_distinct(sel, len, forward, k, j);
    }
}

pub(crate) proof fn lemma_source_range(sel: Seq<usize>, len: int, forward: bool, k: int)
    requires
        0 <= k < len,
    ensures
        0 <= source(sel, len, forward, k) < len,
        chosen_after(sel, len, forward, k) == chosen(sel, source(sel, len, forward, k)),
{
    if forward {
        lemma_free_above(sel, len, k);
    } else {
        lemma_free_below(sel, k);
    }
}

proof fn lemma_source_distinct(sel: Seq<usize>, len: int, forward: bool, j: int, k: int)
    requires
        0 <= j < k < len,
    ensures
        source(sel, len, forward, j) != source(sel, len, forward, k),
        chosen_after(sel, len, forward, j) == chosen_after(sel, len, forward, k) ==> source(
            sel,
            len,
            forward,
            j,
        ) < source(sel, len, forward, k),
{
    lemma_source_range(sel, len, forward, j);
    lemma_source_range(sel, len, forward, k);
    if forward {
        lemma_free_above(sel, len, j);
        lemma_free_above(sel, len, k);
        if !chosen_after(sel, len, true, j) && !chosen_after(sel, len, true, k) {
            // Were the free place above `j` at or past `k`, every place in between would be
            // selected and move, and `k` would hold a selected item.
            let f = free_above(sel, len, j);
            if f >= k {
                assert(chosen(sel, k - 1) || k - 1 < j || f == k - 1);
                if j <= k - 1 && k - 1 < f {
                    assert(chosen(sel, k - 1));
                    assert(f < len && !chosen(sel, f));
                    assert(room_above(sel, len, k - 1));
                    assert(steps(sel, len, true, k - 1));
                }
            }
        }
        if chosen_after(sel, len, true, j) && chosen_after(sel, len, true, k) {
            if steps(sel, len, true, k - 1) && !steps(sel, len, true, j - 1) && j == k - 1 {
                assert(steps(sel, len, true, j));
            }
        }
    } else {
        lemma_free_below(sel, j);
        lemma_free_below(sel, k);
        if !chosen_after(sel, len, false, j) && !chosen_after(sel, len, false, k) {
            let f = free_below(sel, k);
            if f <= j {
                if j + 1 <= k && f < j + 1 {
                    assert(chosen(sel, j + 1));
                    assert(!chosen(sel, f));
                    assert(room_below(sel, j + 1));
                    assert(steps(sel, len, false, j + 1));
                }
            }
        }
        if chosen_after(sel, len, false, j) && chosen_after(sel, len, false, k) {
            if steps(sel, len, false, j + 1) && !steps(sel, len, false, k + 1) && k == j + 1 {
                assert(steps(sel, len, false, k));
            }
        }
    }
}

/// The selected items keep their order among themselves, and so do the
/// unselected ones.
pub proof fn law_step_keeps_relative_order(
    sel: Seq<usize>,
    len: int,
    forward: bool,
    j: int,
    k: int,
)
    requires
        0 <= j < k < len,
        chosen_after(sel, len, forward, j) == chosen_after(sel, len, forward, k),
    ensures
        source(sel, len, forward, j) < source(sel, len, forward, k),
{
    lemma_source_distinct(sel, len, forward, j, k);
}

/// A place after a step is selected exactly if the item found there was
/// selected before.
pub proof fn law_step_keeps_what_is_selected(sel: Seq<usize>, len: int, forward: bool, k: int)
    requires
        0 <= k < len,
    ensures
        chosen_after(sel, len, forward, k) == chosen(sel, source(sel, len, forward, k)),
{
    lemma_source_range(sel, len, forward, k);
}

/// A step toward the front is undone by a step toward the back, unless the
/// frontmost item is selected (then that block could not move).
pub proof fn law_back_reverts_front(sel: Seq<usize>, after: Seq<usize>, len: int, k: int)
    requires
        0 <= k < len,
        !chosen(sel, len - 1),
        within(sel, len),
        forall|j: int| #[trigger] chosen(after, j) == chosen_after(sel, len, true, j),
    ensures
        chosen_after(after, len, false, k) == chosen(sel, k),
        source(sel, len, true, source(after, len, false, k)) == k,
{
    // Every selected item moves up by one.
    assert forall|j: int| #[trigger] chosen(after, j) == chosen(sel, j - 1) by {
        if chosen(sel, j) {
            let t = choose|t: int| 0 <= t < sel.len() && sel[t] == j;
            assert(room_above(sel, len, j));
            assert(steps(sel, len, true, j));
        }
        if chosen(sel, j - 1) {
            let t = choose|t: int| 0 <= t < sel.len() && sel[t] == j - 1;
            assert(room_above(sel, len, j - 1));
        }
    }
    // And every one of them has room to come back.
    assert(!chosen(sel, -1));
    assert(!chosen(after, 0));
    assert forall|j: int| 0 < j < len implies #[trigger] steps(after, len, false, j) == chosen(
        sel,
        j - 1,
    ) by {
        assert(chosen(after, j) == chosen(sel, j - 1));
        if chosen(after, j) {
            assert(room_below(after, j));
        }
    }
    assert(steps(after, len, false, k + 1) == (k + 1 < len && chosen(sel, k)));
    if chosen(sel, k) {
        assert(k + 1 < len);
        assert(source(after, len, false, k) == k + 1);
        assert(room_above(sel, len, k));
        assert(steps(sel, len, true, k));
    } else {
        lemma_free_below(after, k);
        let f = free_below(after, k);
        if chosen(after, k) {
            assert(steps(after, len, false, k));
        }
        assert(source(after, len, false, k) == f);
        // The places between `f` and `k` are the block that moved over this item.
        assert(!chosen(after, f)) by {
            if chosen(after, k) {
                assert(room_below(after, k));
            }
        }
        assert(!steps(sel, len, true, f - 1)) by {
            assert(chosen(after, f) == chosen(sel, f - 1));
        }
        lemma_free_above(sel, len, f);
        let g = free_above(sel, len, f);
        assert(g == k) by {
            if g < k {
                assert(chosen(after, g + 1));
                assert(chosen(sel, g));
            }
            if g > k {
                assert(chosen(sel, k));
            }
        }
        if chosen(sel, f) {
            assert(room_above(sel, len, f));
        }
    }
}

} // verus!
