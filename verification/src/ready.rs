use vstd::prelude::*;

verus! {

/// The indices `i` at which `ready[i]` holds, in increasing order.
pub fn ready_indices(ready: &[bool]) -> (r: Vec<usize>)
    ensures
        forall|k: int| 0 <= k < r@.len() ==> r@[k] < ready@.len() && ready@[r@[k] as int],
        forall|k: int, l: int| 0 <= k < l < r@.len() ==> r@[k] < r@[l],
        forall|i: int| 0 <= i < ready@.len() && ready@[i] ==> r@.contains(i as usize),
{
    let mut r: Vec<usize> = Vec::new();
    let mut i: usize = 0;
    while i < ready.len()
        invariant
            i <= ready@.len(),
            forall|k: int| 0 <= k < r@.len() ==> r@[k] < i && ready@[r@[k] as int],
            forall|k: int, l: int| 0 <= k < l < r@.len() ==> r@[k] < r@[l],
            forall|j: int| 0 <= j < i && ready@[j] ==> r@.contains(j as usize),
        decreases ready@.len() - i,
    {
        if ready[i] {
            proof {
                assert forall|j: int| 0 <= j < i && ready@[j] implies r@.push(i).contains(
                    j as usize,
                ) by {
                    let k = choose|k: int| 0 <= k < r@.len() && r@[k] == j as usize;
                    assert(r@.push(i)[k] == j as usize);
                }
                assert(r@.push(i)[r@.len() as int] == i);
            }
            r.push(i);
        }
        i = i + 1;
    }
    r
}

} // verus!
