//! Sums of `u32` values that report overflow instead of wrapping.

use vstd::prelude::*;

verus! {

/// The sum of the numbers of `s`, as a mathematical integer.
pub open spec fn total(s: Seq<u32>) -> nat
    decreases s.len(),
{
    if s.len() == 0 {
        0
    } else {
        s[0] as nat + total(s.skip(1))
    }
}

/// The sum of a sequence with one more number at its end.
proof fn lemma_total_push(s: Seq<u32>, x: u32)
    ensures
        total(s.push(x)) == total(s) + x,
    decreases s.len(),
{
    if s.len() == 0 {
        assert(s.push(x).skip(1) =~= Seq::<u32>::empty());
        assert(total(s.push(x).skip(1)) == 0);
    } else {
        assert(s.push(x).skip(1) =~= s.skip(1).push(x));
        lemma_total_push(s.skip(1), x);
    }
}

/// What is left of `s` from position `index` on: nothing, where `index` lies
/// beyond its end.
pub open spec fn rest(s: Seq<u32>, index: int) -> Seq<u32> {
    if 0 <= index <= s.len() {
        s.skip(index)
    } else {
        Seq::empty()
    }
}

/// The sum of the numbers of `args` from position `index` on, or `None` if
/// it does not fit in a `u32`. Beyond the end of `args` the sum is 0.
pub fn recursive(args: &[u32], index: usize) -> (res: Option<u32>)
    ensures
        match res {
            Some(sum) => sum == total(rest(args@, index as int)),
            None => total(rest(args@, index as int)) > u32::MAX,
        },
    decreases args.len() - index,
{
    if index < args.len() {
        let num = args[index];
        assert(args@.skip(index as int).skip(1) =~= args@.skip(index + 1));
        let result = match recursive(args, index + 1) {
            Some(r) => r,
            None => { return None; },
        };
        result.checked_add(num)
    } else {
        Some(0)
    }
}

/// The sum of the numbers of `args`, or `None` if it does not fit in a
/// `u32`.
pub fn sum_by_recursive(args: &[u32]) -> (res: Option<u32>)
    ensures
        match res {
            Some(sum) => sum == total(args@),
            None => total(args@) > u32::MAX,
        },
{
    assert(args@.skip(0) =~= args@);
    recursive(args, 0)
}

/// The sum of the numbers of `args`, added up from the first to the last,
/// or `None` if it does not fit in a `u32`.
pub fn sum_by_fold(args: &[u32]) -> (res: Option<u32>)
    ensures
        match res {
            Some(sum) => sum == total(args@),
            None => total(args@) > u32::MAX,
        },
{
    let mut sum: u32 = 0;
    let mut i: usize = 0;
    while i < args.len()
        invariant
            i <= args.len(),
            sum == total(args@.take(i as int)),
        decreases args.len() - i,
    {
        proof {
            assert(args@.take(i + 1) =~= args@.take(i as int).push(args@[i as int]));
            lemma_total_push(args@.take(i as int), args@[i as int]);
            lemma_total_prefix(args@, i + 1);
        }
        sum = match sum.checked_add(args[i]) {
            Some(s) => s,
            None => { return None; },
        };
        i += 1;
    }
    assert(args@.take(i as int) =~= args@);
    Some(sum)
}

/// No prefix of a sequence sums to more than the whole.
proof fn lemma_total_prefix(s: Seq<u32>, n: int)
    requires
        0 <= n <= s.len(),
    ensures
        total(s.take(n)) <= total(s),
    decreases s.len() - n,
{
    if n < s.len() {
        assert(s.take(n + 1) =~= s.take(n).push(s[n]));
        lemma_total_push(s.take(n), s[n]);
        lemma_total_prefix(s, n + 1);
    } else {
        assert(s.take(n) =~= s);
    }
}

} // verus!
