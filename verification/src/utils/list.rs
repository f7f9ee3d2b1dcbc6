use vstd::prelude::*;

verus! {

/// The items of `list`, last first.
pub fn reversed<T>(list: Vec<T>) -> (turned: Vec<T>)
    ensures
        turned@.len() == list@.len(),
        forall|i: int| 0 <= i < list@.len() ==> #[trigger] turned@[i] == list@[list@.len() - 1 - i],
{
    let mut rest = list;
    let mut turned: Vec<T> = Vec::new();
    while rest.len() > 0
        invariant
            rest@.len() + turned@.len() == list@.len(),
            forall|i: int| 0 <= i < rest@.len() ==> #[trigger] rest@[i] == list@[i],
            forall|i: int|
                0 <= i < turned@.len() ==> #[trigger] turned@[i] == list@[list@.len() - 1 - i],
        decreases rest@.len(),
    {
        let item = rest.pop().unwrap();
        turned.push(item);
    }
    turned
}

} // verus!
