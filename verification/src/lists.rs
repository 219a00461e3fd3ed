//! Growing a list by its value.

use vstd::prelude::*;

verus! {

/// Puts a value at the end of a list.
pub fn push_value<T: DeepView>(list: &mut Vec<T>, value: T)
    ensures
        final(list).deep_view() == old(list).deep_view().push(value.deep_view()),
{
    let ghost before = list.deep_view();
    list.push(value);
    assert(list.deep_view() =~= before.push(value.deep_view()));
}

} // verus!
