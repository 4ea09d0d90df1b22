use vstd::prelude::*;

verus! {

/// Takes ownership of `vec`, appends `4` and gives the vector back.
pub fn take_and_return(mut vec: Vec<i32>) -> (r: Vec<i32>)
    ensures
        r@ == vec@.push(4),
{
    vec.push(4);
    vec
}

} // verus!
