//! Small helpers shared by the other modules.
use vstd::prelude::*;

verus! {

/// Byte-wise comparison of two fixed-size arrays.
pub fn bytes_eq<const N: usize>(a: &[u8; N], b: &[u8; N]) -> (r: bool)
    ensures
        r == (*a == *b),
{
    let mut i: usize = 0;
    while i < N
        invariant
            i <= N,
            forall|j: int| 0 <= j < i ==> a[j] == b[j],
        decreases N - i,
    {
        if a[i] != b[i] {
            return false;
        }
        i += 1;
    }
    assert(*a =~= *b);
    true
}


/// `sorted` with `x` put before the first element that is larger.
pub open spec fn insert_sorted(sorted: Seq<u32>, x: u32) -> Seq<u32>
    decreases sorted.len(),
{
    if sorted.len() == 0 {
        seq![x]
    } else if sorted.last() <= x {
        sorted.push(x)
    } else {
        insert_sorted(sorted.drop_last(), x).push(sorted.last())
    }
}

/// The elements of `values` in ascending order.
pub open spec fn sorted(values: Seq<u32>) -> Seq<u32>
    decreases values.len(),
{
    if values.len() == 0 {
        Seq::empty()
    } else {
        insert_sorted(sorted(values.drop_last()), values.last())
    }
}

/// The median of `values`: the element in the middle of their ascending
/// order (the upper one of the two middle elements of an even number), and 0
/// for no values at all.
pub open spec fn median_of(values: Seq<u32>) -> u32 {
    if values.len() == 0 {
        0
    } else {
        sorted(values)[values.len() as int / 2]
    }
}

/// Whether `s` ascends.
pub open spec fn ascending(s: Seq<u32>) -> bool {
    forall|i: int, j: int| 0 <= i <= j < s.len() ==> s[i] <= s[j]
}

proof fn lemma_insert_sorted(s: Seq<u32>, x: u32)
    requires
        ascending(s),
    ensures
        ascending(insert_sorted(s, x)),
        insert_sorted(s, x).len() == s.len() + 1,
        insert_sorted(s, x).to_multiset() == s.to_multiset().insert(x),
    decreases s.len(),
{
    broadcast use vstd::seq_lib::group_to_multiset_ensures;

    if s.len() == 0 {
        assert(seq![x] =~= Seq::<u32>::empty().push(x));
    } else if s.last() <= x {
    } else {
        let head = s.drop_last();
        lemma_insert_sorted(head, x);
        let inner = insert_sorted(head, x);
        assert(s =~= head.push(s.last()));
        assert forall|i: int| 0 <= i < inner.len() implies inner[i] <= s.last() by {
            assert(inner.to_multiset().count(inner[i]) > 0);
            if inner[i] != x {
                assert(head.to_multiset().count(inner[i]) > 0);
                assert(head.contains(inner[i]));
            }
        }
    }
}

/// The ascending order of `values` ascends, and holds each value as often as
/// `values` does.
pub proof fn lemma_sorted(values: Seq<u32>)
    ensures
        ascending(sorted(values)),
        sorted(values).len() == values.len(),
        sorted(values).to_multiset() == values.to_multiset(),
    decreases values.len(),
{
    broadcast use vstd::seq_lib::group_to_multiset_ensures;

    if values.len() > 0 {
        lemma_sorted(values.drop_last());
        lemma_insert_sorted(sorted(values.drop_last()), values.last());
        assert(values =~= values.drop_last().push(values.last()));
    }
}

/// The median of a list of timestamps.
pub fn median(values: &Vec<u32>) -> (m: u32)
    ensures
        m == median_of(values@),
{
    let mut order: Vec<u32> = Vec::new();
    let mut i: usize = 0;
    while i < values.len()
        invariant
            i <= values.len(),
            order@ == sorted(values@.subrange(0, i as int)),
            order.len() == i,
        decreases values.len() - i,
    {
        let x = values[i];
        let ghost before = order@;
        let ghost prefix = values@.subrange(0, i + 1);
        assert(prefix.drop_last() =~= values@.subrange(0, i as int));
        assert(prefix.last() == x);
        // Shift the larger elements up and put `x` in the gap.
        order.push(x);
        let mut j: usize = i;
        proof {
            assert(before.subrange(0, i as int) =~= before);
            assert(insert_sorted(before, x) + before.subrange(i as int, i as int) =~= insert_sorted(
                before,
                x,
            ));
        }
        while j > 0 && order[j - 1] > x
            invariant
                j <= i,
                order.len() == i + 1,
                before.len() == i,
                forall|t: int| 0 <= t < j ==> order@[t] == before[t],
                forall|t: int| j < t <= i ==> order@[t] == before[t - 1],
                insert_sorted(before, x) == insert_sorted(before.subrange(0, j as int), x)
                    + before.subrange(j as int, i as int),
            decreases j,
        {
            let up = order[j - 1];
            order.set(j, up);
            proof {
                let head = before.subrange(0, j as int);
                assert(head.last() == up);
                assert(head.drop_last() =~= before.subrange(0, j - 1));
                assert(insert_sorted(head, x) == insert_sorted(head.drop_last(), x).push(up));
                assert(insert_sorted(head.drop_last(), x).push(up) + before.subrange(
                    j as int,
                    i as int,
                ) =~= insert_sorted(head.drop_last(), x) + before.subrange(j - 1, i as int));
            }
            j -= 1;
        }
        order.set(j, x);
        proof {
            let head = before.subrange(0, j as int);
            if j > 0 {
                assert(head.last() == order@[j - 1]);
            }
            assert(insert_sorted(head, x) == head.push(x));
            assert(order@ =~= head.push(x) + before.subrange(j as int, i as int));
        }
        i += 1;
    }
    assert(values@.subrange(0, values.len() as int) =~= values@);
    if order.len() == 0 {
        0
    } else {
        order[order.len() / 2]
    }
}


/// `n`, or the largest `usize` if `n` is larger.
pub open spec fn clip(n: nat) -> usize {
    if n > usize::MAX {
        usize::MAX
    } else {
        n as usize
    }
}

/// The sum of two sizes, or the largest `usize` if the sum is larger.
pub fn add_sizes(a: usize, b: usize) -> (sum: usize)
    ensures
        sum == clip((a + b) as nat),
{
    match a.checked_add(b) {
        Some(sum) => sum,
        None => usize::MAX,
    }
}

/// Capping the parts of a sum before adding them caps the sum.
pub proof fn lemma_clip_add(x: nat, y: nat)
    ensures
        clip((clip(x) + clip(y)) as nat) == clip(x + y),
{
}

/// The product of two sizes, or the largest `usize` if the product is larger.
pub fn mul_sizes(a: usize, b: usize) -> (product: usize)
    ensures
        product == clip((a * b) as nat),
{
    match a.checked_mul(b) {
        Some(product) => product,
        None => usize::MAX,
    }
}

} // verus!
