//! Three ways to sort a slice in place. Each leaves the same elements, and
//! leaves them ascending wherever the element type's comparisons are known
//! to form a total order.

use crate::order::{
    at_most, is_at_most, is_greater, is_less, lawful, lemma_at_most_transitive,
    lemma_less_or_at_most, less, sorted,
};
use vstd::prelude::*;
use vstd::seq_lib::{lemma_multiset_commutative, to_multiset_update};
use vstd::slice::slice_to_vec;

verus! {

/// `s` with the elements at `a` and `b` exchanged.
pub open spec fn swapped<T>(s: Seq<T>, a: int, b: int) -> Seq<T> {
    s.update(a, s[b]).update(b, s[a])
}

/// `<[T]>::swap`: exchanges the elements at `a` and `b`. It panics when an
/// index is out of bounds, which the precondition rules out.
#[verifier::external_body]
fn swap<T>(slice: &mut [T], a: usize, b: usize)
    requires
        a < old(slice)@.len(),
        b < old(slice)@.len(),
    ensures
        final(slice)@ == swapped(old(slice)@, a as int, b as int),
{
    slice.swap(a, b)
}

/// Exchanging two elements keeps what the sequence holds.
pub proof fn lemma_swap_keeps_elements<T>(s: Seq<T>, a: int, b: int)
    requires
        0 <= a < s.len(),
        0 <= b < s.len(),
    ensures
        swapped(s, a, b).to_multiset() == s.to_multiset(),
        swapped(s, a, b).len() == s.len(),
{
    broadcast use vstd::multiset::group_multiset_axioms;

    let once = s.update(a, s[b]);
    assert(once.len() == s.len());
    assert(once[b] == s[b]);
    to_multiset_update(s, a, s[b]);
    to_multiset_update(once, b, s[a]);
    s.to_multiset_ensures();
    assert(s.contains(s[a]));
    assert(s.contains(s[b]));
    assert forall|x: T| swapped(s, a, b).to_multiset().count(x) == s.to_multiset().count(x) by {
        let m = s.to_multiset();
        assert(m.insert(s[b]).remove(s[a]).insert(s[a]).remove(s[b]).count(x) == m.count(x));
    }
    assert(swapped(s, a, b).to_multiset() =~= s.to_multiset());
}

/// Sorts `arr` by letting the largest remaining element rise to the end of
/// the unsorted part, pass after pass.
pub fn bubble_sort<T: Ord>(arr: &mut [T])
    ensures
        final(arr)@.to_multiset() == old(arr)@.to_multiset(),
        lawful::<T>() ==> sorted(final(arr)@),
{
    let len = arr.len();
    for i in 0..len
        invariant
            arr@.len() == len,
            arr@.to_multiset() == old(arr)@.to_multiset(),
            // the last `i` elements are in place
            lawful::<T>() ==> forall|p: int, q: int|
                len - i <= p < q < len ==> at_most(arr@[p], arr@[q]),
            lawful::<T>() ==> forall|p: int, q: int|
                0 <= p < len - i <= q < len ==> at_most(arr@[p], arr@[q]),
    {
        for j in 0..len - i - 1
            invariant
                i < len,
                arr@.len() == len,
                arr@.to_multiset() == old(arr)@.to_multiset(),
                lawful::<T>() ==> forall|p: int, q: int|
                    len - i <= p < q < len ==> at_most(arr@[p], arr@[q]),
                lawful::<T>() ==> forall|p: int, q: int|
                    0 <= p < len - i <= q < len ==> at_most(arr@[p], arr@[q]),
                // the largest of the first `j + 1` elements is at `j`
                lawful::<T>() ==> forall|p: int|
                    0 <= p < j ==> at_most(#[trigger] arr@[p], arr@[j as int]),
        {
            let ghost before = arr@;
            if is_greater(&arr[j], &arr[j + 1]) {
                swap(arr, j, j + 1);
                proof {
                    lemma_swap_keeps_elements(before, j as int, j + 1);
                    if lawful::<T>() {
                        lemma_less_or_at_most(before[j + 1], before[j as int]);
                        assert forall|p: int| 0 <= p < j + 1 implies at_most(
                            #[trigger] arr@[p],
                            arr@[j + 1],
                        ) by {
                            if p < j {
                                assert(arr@[p] == before[p]);
                            }
                        }
                        assert forall|p: int, q: int| 0 <= p < len - i <= q < len implies at_most(
                            arr@[p],
                            arr@[q],
                        ) by {
                            assert(arr@[q] == before[q]);
                            if p == j {
                                assert(at_most(before[j + 1], before[q]));
                            } else if p == j + 1 {
                                assert(at_most(before[j as int], before[q]));
                            } else {
                                assert(arr@[p] == before[p]);
                            }
                        }
                    }
                }
            } else {
                proof {
                    if lawful::<T>() {
                        lemma_less_or_at_most(before[j + 1], before[j as int]);
                        assert forall|p: int| 0 <= p < j + 1 implies at_most(
                            #[trigger] arr@[p],
                            arr@[j + 1],
                        ) by {
                            if p < j {
                                lemma_at_most_transitive(arr@[p], arr@[j as int], arr@[j + 1]);
                            }
                        }
                    }
                }
            }
        }
    }
}

/// Two sequences that hold the same elements: whatever is found in one is
/// found somewhere in the other.
pub proof fn lemma_same_elements<T>(s1: Seq<T>, s2: Seq<T>, i: int)
    requires
        s1.to_multiset() == s2.to_multiset(),
        0 <= i < s1.len(),
    ensures
        s1.len() == s2.len(),
        exists|j: int| 0 <= j < s2.len() && s2[j] == s1[i],
{
    s1.to_multiset_ensures();
    s2.to_multiset_ensures();
    assert(s1.contains(s1[i]));
    assert(s1.to_multiset().count(s1[i]) > 0);
    assert(s2.to_multiset().count(s1[i]) > 0);
    assert(s2.contains(s1[i]));
}

/// Moves the last element, the pivot, to the place it has in sorted order,
/// with everything strictly before it in front and the rest behind, and
/// returns that place.
fn partition<T: Ord>(arr: &mut [T]) -> (pivot: usize)
    requires
        lawful::<T>(),
        old(arr)@.len() >= 1,
    ensures
        pivot < old(arr)@.len(),
        final(arr)@.len() == old(arr)@.len(),
        final(arr)@.to_multiset() == old(arr)@.to_multiset(),
        forall|k: int| 0 <= k < pivot ==> less(#[trigger] final(arr)@[k], final(arr)@[pivot as int]),
        forall|k: int|
            pivot < k < final(arr)@.len() ==> at_most(
                final(arr)@[pivot as int],
                #[trigger] final(arr)@[k],
            ),
{
    let len = arr.len();
    let pivot = len - 1;
    let mut i: usize = 0;
    let ghost value = arr@[pivot as int];
    for j in 0..len
        invariant
            lawful::<T>(),
            pivot == len - 1,
            i <= j,
            i <= pivot,
            arr@.len() == len,
            arr@.to_multiset() == old(arr)@.to_multiset(),
            arr@[pivot as int] == value,
            forall|k: int| 0 <= k < i ==> less(#[trigger] arr@[k], value),
            forall|k: int| i <= k < j ==> !less(#[trigger] arr@[k], value),
    {
        let ghost before = arr@;
        proof {
            lemma_less_or_at_most(value, value);
        }
        if is_less(&arr[j], &arr[pivot]) {
            swap(arr, i, j);
            proof {
                lemma_swap_keeps_elements(before, i as int, j as int);
                assert forall|k: int| 0 <= k < i + 1 implies less(#[trigger] arr@[k], value) by {
                    if k < i {
                        assert(arr@[k] == before[k]);
                    }
                }
                assert forall|k: int| i + 1 <= k < j + 1 implies !less(
                    #[trigger] arr@[k],
                    value,
                ) by {
                    if k < j {
                        assert(arr@[k] == before[k]);
                    } else {
                        assert(arr@[k] == before[i as int]);
                    }
                }
            }
            i += 1;
        }
    }
    let ghost before = arr@;
    swap(arr, i, pivot);
    proof {
        lemma_swap_keeps_elements(before, i as int, pivot as int);
        assert forall|k: int| 0 <= k < i implies less(#[trigger] arr@[k], arr@[i as int]) by {
            assert(arr@[k] == before[k]);
        }
        assert forall|k: int| i < k < len implies at_most(arr@[i as int], #[trigger] arr@[k]) by {
            if k < pivot {
                assert(arr@[k] == before[k]);
                lemma_less_or_at_most(before[k], value);
            } else {
                assert(arr@[k] == before[i as int]);
                lemma_less_or_at_most(before[i as int], value);
            }
        }
    }
    i
}

/// A sorted run, an element that is at least all of it, and a sorted run of
/// elements that are at least that element make one sorted run.
proof fn lemma_sorted_around<T: Ord>(front: Seq<T>, middle: T, back: Seq<T>)
    requires
        lawful::<T>(),
        sorted(front),
        sorted(back),
        forall|k: int| 0 <= k < front.len() ==> at_most(#[trigger] front[k], middle),
        forall|k: int| 0 <= k < back.len() ==> at_most(middle, #[trigger] back[k]),
    ensures
        sorted(front + seq![middle] + back),
{
    let whole = front + seq![middle] + back;
    assert forall|i: int, j: int| 0 <= i < j < whole.len() implies at_most(whole[i], whole[j]) by {
        let n = front.len() as int;
        if j < n {
            assert(whole[i] == front[i] && whole[j] == front[j]);
        } else if j == n {
            assert(whole[i] == front[i] && whole[j] == middle);
        } else {
            assert(whole[j] == back[j - n - 1]);
            if i < n {
                assert(whole[i] == front[i]);
                lemma_at_most_transitive(front[i], middle, back[j - n - 1]);
            } else if i == n {
                assert(whole[i] == middle);
            } else {
                assert(whole[i] == back[i - n - 1]);
            }
        }
    }
}

/// Sorts `arr` by putting its last element in place, with the smaller
/// elements in front of it, and sorting the two sides in the same way.
pub fn quick_sort<T: Ord>(arr: &mut [T])
    requires
        lawful::<T>(),
    ensures
        final(arr)@.to_multiset() == old(arr)@.to_multiset(),
        sorted(final(arr)@),
    decreases old(arr)@.len(),
{
    if arr.len() <= 1 {
        return ;
    }
    let pivot = partition(arr);
    let ghost parted = arr@;
    let (left, rest) = arr.split_at_mut(pivot);
    let ghost front = left@;
    quick_sort(left);
    let (middle, right) = rest.split_at_mut(1);
    let ghost back = right@;
    quick_sort(right);
    let ghost low = left@;
    let ghost kept = middle@;
    let ghost high = right@;
    proof {
        let value = parted[pivot as int];
        assert(kept =~= seq![value]);
        assert(parted =~= front + seq![value] + back);
        assert(arr@ =~= low + seq![value] + high);
        lemma_multiset_commutative(front, seq![value]);
        lemma_multiset_commutative(front + seq![value], back);
        lemma_multiset_commutative(low, seq![value]);
        lemma_multiset_commutative(low + seq![value], high);
        assert forall|k: int| 0 <= k < low.len() implies at_most(#[trigger] low[k], value) by {
            lemma_same_elements(low, front, k);
            let j = choose|j: int| 0 <= j < front.len() && front[j] == low[k];
            assert(front[j] == parted[j]);
            lemma_less_or_at_most(parted[j], value);
        }
        assert forall|k: int| 0 <= k < high.len() implies at_most(value, #[trigger] high[k]) by {
            lemma_same_elements(high, back, k);
            let j = choose|j: int| 0 <= j < back.len() && back[j] == high[k];
            assert(back[j] == parted[pivot + 1 + j]);
        }
        lemma_sorted_around(low, value, high);
    }
}

/// The state of a merge that has taken `i` elements from `left` and `j`
/// from `right` and written them to the front of `out`: the front holds
/// exactly what was taken, and, where both inputs ascend, it ascends and
/// nothing in it comes after what is next on either side.
pub open spec fn merging<T: Ord>(out: Seq<T>, left: Seq<T>, right: Seq<T>, i: int, j: int) -> bool {
    &&& 0 <= i <= left.len()
    &&& 0 <= j <= right.len()
    &&& out.len() == left.len() + right.len()
    &&& out.take(i + j).to_multiset() == left.take(i).to_multiset().add(
        right.take(j).to_multiset(),
    )
    &&& (lawful::<T>() && sorted(left) && sorted(right)) ==> {
        &&& sorted(out.take(i + j))
        &&& forall|p: int| 0 <= p < i + j && i < left.len() ==> at_most(#[trigger] out[p], left[i])
        &&& forall|p: int|
            0 <= p < i + j && j < right.len() ==> at_most(#[trigger] out[p], right[j])
    }
}

/// Taking the next element of `left` keeps a merge in order, as long as it
/// does not come after the next element of `right`.
proof fn lemma_merge_take_left<T: Ord>(out: Seq<T>, left: Seq<T>, right: Seq<T>, i: int, j: int)
    requires
        merging(out, left, right, i, j),
        i < left.len(),
        (lawful::<T>() && j < right.len()) ==> at_most(left[i], right[j]),
    ensures
        merging(out.update(i + j, left[i]), left, right, i + 1, j),
{
    broadcast use vstd::multiset::group_multiset_axioms;

    let k = i + j;
    let next = out.update(k, left[i]);
    assert(next.take(k + 1) =~= out.take(k).push(left[i]));
    assert(left.take(i + 1) =~= left.take(i).push(left[i]));
    out.take(k).to_multiset_ensures();
    left.take(i).to_multiset_ensures();
    assert(next.take(k + 1).to_multiset() =~= left.take(i + 1).to_multiset().add(
        right.take(j).to_multiset(),
    ));
    if lawful::<T>() && sorted(left) && sorted(right) {
        let grown = next.take(k + 1);
        assert forall|p: int, q: int| 0 <= p < q < grown.len() implies at_most(
            grown[p],
            grown[q],
        ) by {
            if q < k {
                assert(at_most(out.take(k)[p], out.take(k)[q]));
            } else {
                assert(next[p] == out[p]);
            }
        }
        assert forall|p: int| 0 <= p < k + 1 && i + 1 < left.len() implies at_most(
            #[trigger] next[p],
            left[i + 1],
        ) by {
            if p < k {
                assert(next[p] == out[p]);
                lemma_at_most_transitive(out[p], left[i], left[i + 1]);
            }
        }
        assert forall|p: int| 0 <= p < k + 1 && j < right.len() implies at_most(
            #[trigger] next[p],
            right[j],
        ) by {
            if p < k {
                assert(next[p] == out[p]);
            }
        }
    }
}

/// Taking the next element of `right` keeps a merge in order, as long as it
/// does not come after the next element of `left`.
proof fn lemma_merge_take_right<T: Ord>(out: Seq<T>, left: Seq<T>, right: Seq<T>, i: int, j: int)
    requires
        merging(out, left, right, i, j),
        j < right.len(),
        (lawful::<T>() && i < left.len()) ==> at_most(right[j], left[i]),
    ensures
        merging(out.update(i + j, right[j]), left, right, i, j + 1),
{
    broadcast use vstd::multiset::group_multiset_axioms;

    let k = i + j;
    let next = out.update(k, right[j]);
    assert(next.take(k + 1) =~= out.take(k).push(right[j]));
    assert(right.take(j + 1) =~= right.take(j).push(right[j]));
    out.take(k).to_multiset_ensures();
    right.take(j).to_multiset_ensures();
    assert(next.take(k + 1).to_multiset() =~= left.take(i).to_multiset().add(
        right.take(j + 1).to_multiset(),
    ));
    if lawful::<T>() && sorted(left) && sorted(right) {
        let grown = next.take(k + 1);
        assert forall|p: int, q: int| 0 <= p < q < grown.len() implies at_most(
            grown[p],
            grown[q],
        ) by {
            if q < k {
                assert(at_most(out.take(k)[p], out.take(k)[q]));
            } else {
                assert(next[p] == out[p]);
            }
        }
        assert forall|p: int| 0 <= p < k + 1 && j + 1 < right.len() implies at_most(
            #[trigger] next[p],
            right[j + 1],
        ) by {
            if p < k {
                assert(next[p] == out[p]);
                lemma_at_most_transitive(out[p], right[j], right[j + 1]);
            }
        }
        assert forall|p: int| 0 <= p < k + 1 && i < left.len() implies at_most(
            #[trigger] next[p],
            left[i],
        ) by {
            if p < k {
                assert(next[p] == out[p]);
            }
        }
    }
}

/// Merges the two runs `arr[..mid]` and `arr[mid..]` into one. The elements
/// stay the same; where both runs ascend, the whole ascends afterwards.
fn merge<T: Ord + Copy>(arr: &mut [T], mid: usize)
    requires
        mid <= old(arr)@.len(),
    ensures
        final(arr)@.to_multiset() == old(arr)@.to_multiset(),
        (lawful::<T>() && sorted(old(arr)@.take(mid as int)) && sorted(old(arr)@.skip(mid as int)))
            ==> sorted(final(arr)@),
{
    let (front, back) = arr.split_at(mid);
    let left = slice_to_vec(front);
    let right = slice_to_vec(back);
    let mut i: usize = 0;
    let mut j: usize = 0;
    let mut k: usize = 0;
    proof {
        assert(left@ =~= old(arr)@.take(mid as int));
        assert(right@ =~= old(arr)@.skip(mid as int));
        assert(old(arr)@ =~= left@ + right@);
        assert(arr@.take(0) =~= Seq::<T>::empty());
        assert(left@.take(0) =~= Seq::<T>::empty());
        assert(right@.take(0) =~= Seq::<T>::empty());
        lemma_multiset_commutative(Seq::<T>::empty(), Seq::<T>::empty());
        assert(Seq::<T>::empty() + Seq::<T>::empty() =~= Seq::<T>::empty());
    }
    while i < left.len() && j < right.len()
        invariant
            k == i + j,
            merging(arr@, left@, right@, i as int, j as int),
        decreases left.len() + right.len() - k,
    {
        if is_at_most(&left[i], &right[j]) {
            proof {
                lemma_merge_take_left(arr@, left@, right@, i as int, j as int);
            }
            arr[k] = left[i];
            i += 1;
        } else {
            proof {
                if lawful::<T>() {
                    lemma_less_or_at_most(right@[j as int], left@[i as int]);
                }
                lemma_merge_take_right(arr@, left@, right@, i as int, j as int);
            }
            arr[k] = right[j];
            j += 1;
        }
        k += 1;
    }
    while i < left.len()
        invariant
            k == i + j,
            j == right.len() || i == left.len(),
            merging(arr@, left@, right@, i as int, j as int),
        decreases left.len() - i,
    {
        proof {
            lemma_merge_take_left(arr@, left@, right@, i as int, j as int);
        }
        arr[k] = left[i];
        i += 1;
        k += 1;
    }
    while j < right.len()
        invariant
            k == i + j,
            i == left.len(),
            merging(arr@, left@, right@, i as int, j as int),
        decreases right.len() - j,
    {
        proof {
            lemma_merge_take_right(arr@, left@, right@, i as int, j as int);
        }
        arr[k] = right[j];
        j += 1;
        k += 1;
    }
    proof {
        assert(arr@.take(k as int) =~= arr@);
        assert(left@.take(i as int) =~= left@);
        assert(right@.take(j as int) =~= right@);
        lemma_multiset_commutative(left@, right@);
    }
}

/// Sorts `arr` by sorting each half in the same way and merging the two.
pub fn merge_sort<T: Ord + Copy>(arr: &mut [T])
    ensures
        final(arr)@.to_multiset() == old(arr)@.to_multiset(),
        lawful::<T>() ==> sorted(final(arr)@),
    decreases old(arr)@.len(),
{
    if arr.len() <= 1 {
        return ;
    }
    let mid = arr.len() / 2;
    let (front, back) = arr.split_at_mut(mid);
    let ghost first = front@;
    let ghost second = back@;
    merge_sort(front);
    merge_sort(back);
    let ghost low = front@;
    let ghost high = back@;
    proof {
        assert(old(arr)@ =~= first + second);
        assert(arr@ =~= low + high);
        lemma_multiset_commutative(first, second);
        lemma_multiset_commutative(low, high);
        first.to_multiset_ensures();
        second.to_multiset_ensures();
        low.to_multiset_ensures();
        high.to_multiset_ensures();
        assert(arr@.take(mid as int) =~= low);
        assert(arr@.skip(mid as int) =~= high);
    }
    merge(arr, mid);
}

} // verus!
