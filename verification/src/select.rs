//! Picking elements out of a sequence by position.

use vstd::prelude::*;

verus! {

/// Whether position `i` is marked. A position without a mark counts as not
/// marked.
pub open spec fn marked(keep: Seq<bool>, i: int) -> bool {
    0 <= i < keep.len() && keep[i]
}

/// Those of the first `n` elements whose position is marked, in the
/// order they stood in.
pub open spec fn selected_upto<T>(items: Seq<T>, keep: Seq<bool>, n: nat) -> Seq<T>
    decreases n,
{
    if n == 0 {
        Seq::<T>::empty()
    } else {
        let rest = selected_upto(items, keep, (n - 1) as nat);
        if marked(keep, n - 1) {
            rest.push(items[n - 1])
        } else {
            rest
        }
    }
}

/// The elements whose position is marked, in the order they stood in.
pub open spec fn selected<T>(items: Seq<T>, keep: Seq<bool>) -> Seq<T> {
    selected_upto(items, keep, items.len())
}

/// The elements of `items` whose position is marked in `keep`, in the
/// order they stood in.
pub fn select<T>(items: Vec<T>, keep: &Vec<bool>) -> (chosen: Vec<T>)
    ensures
        chosen@ == selected(items@, keep@),
{
    let ghost orig = items@;
    let n = items.len();
    let mut rest = items;
    // Turn the vector over, so that popping walks it front to back.
    let mut stack: Vec<T> = Vec::new();
    while rest.len() > 0
        invariant
            rest@ == orig.take(rest.len() as int),
            stack.len() == n - rest.len(),
            n == orig.len(),
            forall|j: int| 0 <= j < stack.len() ==> stack@[j] == orig[n - 1 - j],
        decreases rest.len(),
    {
        let item = rest.pop().unwrap();
        stack.push(item);
    }
    let mut chosen: Vec<T> = Vec::new();
    let mut i: usize = 0;
    while i < n
        invariant
            i <= n,
            n == orig.len(),
            stack.len() == n - i,
            forall|j: int| 0 <= j < stack.len() ==> stack@[j] == orig[n - 1 - j],
            chosen@ == selected_upto(orig, keep@, i as nat),
        decreases n - i,
    {
        let item = stack.pop().unwrap();
        assert(item == orig[i as int]);
        if i < keep.len() && keep[i] {
            chosen.push(item);
        }
        i += 1;
    }
    chosen
}

} // verus!
