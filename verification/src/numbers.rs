use vstd::prelude::*;

verus! {

/// The sum of `s`.
pub open spec fn sum(s: Seq<usize>) -> nat
    decreases s.len(),
{
    if s.len() == 0 {
        0
    } else {
        sum(s.drop_last()) + (s.last() as nat)
    }
}

/// The average of `numbers`, rounded down: their sum divided by their count.
pub fn average(numbers: &[usize]) -> (avg: usize)
    requires
        numbers@.len() > 0,
        sum(numbers@) <= usize::MAX,
    ensures
        avg == sum(numbers@) / (numbers@.len() as nat),
{
    let len = numbers.len();
    let mut total: usize = 0;
    let mut i: usize = 0;
    while i < len
        invariant
            i <= len,
            len == numbers@.len(),
            total == sum(numbers@.subrange(0, i as int)),
            sum(numbers@) <= usize::MAX,
        decreases len - i,
    {
        proof {
            assert(numbers@.subrange(0, i + 1).drop_last() =~= numbers@.subrange(0, i as int));
            lemma_sum_prefix_le(numbers@, i + 1);
        }
        total = total + numbers[i];
        i = i + 1;
    }
    proof {
        assert(numbers@.subrange(0, len as int) =~= numbers@);
    }
    total / len
}

/// The sum of a prefix is at most the sum of the whole sequence.
proof fn lemma_sum_prefix_le(s: Seq<usize>, n: int)
    requires
        0 <= n <= s.len(),
    ensures
        sum(s.subrange(0, n)) <= sum(s),
    decreases s.len() - n,
{
    if n < s.len() {
        lemma_sum_prefix_le(s, n + 1);
        assert(s.subrange(0, n + 1).drop_last() =~= s.subrange(0, n));
    } else {
        assert(s.subrange(0, n) =~= s);
    }
}

/// The sum of `numbers`, or `None` when it does not fit in a `usize`.
pub fn sum_checked(numbers: &[usize]) -> (r: Option<usize>)
    ensures
        r matches Some(t) ==> t == sum(numbers@),
        r is None <==> sum(numbers@) > usize::MAX,
{
    let len = numbers.len();
    let mut total: usize = 0;
    let mut i: usize = 0;
    while i < len
        invariant
            i <= len,
            len == numbers@.len(),
            total == sum(numbers@.subrange(0, i as int)),
        decreases len - i,
    {
        proof {
            assert(numbers@.subrange(0, i + 1).drop_last() =~= numbers@.subrange(0, i as int));
        }
        match total.checked_add(numbers[i]) {
            Some(t) => {
                total = t;
            },
            None => {
                proof {
                    lemma_sum_prefix_le(numbers@, i + 1);
                }
                return None;
            },
        }
        i = i + 1;
    }
    proof {
        assert(numbers@.subrange(0, len as int) =~= numbers@);
    }
    Some(total)
}

/// Adds one to `counter`, `times` times over.
pub fn add_repeatedly(counter: &mut i32, times: u32)
    requires
        *old(counter) + times <= i32::MAX,
    ensures
        *final(counter) == *old(counter) + times,
{
    let mut k: u32 = 0;
    while k < times
        invariant
            k <= times,
            *counter == *old(counter) + k,
            *old(counter) + times <= i32::MAX,
        decreases times - k,
    {
        *counter = *counter + 1;
        k = k + 1;
    }
}

} // verus!
