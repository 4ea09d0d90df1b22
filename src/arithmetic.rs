use vstd::prelude::*;

verus! {

/// The message carried by the error of `early_return_example`.
pub open spec fn negative_input_message() -> Seq<char> {
    "Number must be positive"@
}

/// Doubles a non-negative number; a negative one is rejected before any work
/// is done.
///
/// The doubled value must fit in an `i32`.
pub fn early_return_example(x: i32) -> (r: Result<i32, String>)
    requires
        2 * x <= i32::MAX,
    ensures
        r is Err <==> x < 0,
        r matches Ok(v) ==> v == 2 * x,
        r matches Err(e) ==> e@ == negative_input_message(),
{
    if x < 0 {
        return Err("Number must be positive".to_string());
    }
    Ok(x * 2)
}

/// The square of `x`, which must fit in an `i32`.
pub fn square(x: i32) -> (r: i32)
    requires
        x * x <= i32::MAX,
    ensures
        r == x * x,
{
    assert(0 <= x * x) by (nonlinear_arith);
    x * x
}

/// The sum and the product of two numbers, both of which must fit in an `i32`.
pub fn sum_and_product(x: i32, y: i32) -> (r: (i32, i32))
    requires
        i32::MIN <= x + y <= i32::MAX,
        i32::MIN <= x * y <= i32::MAX,
    ensures
        r.0 == x + y,
        r.1 == x * y,
{
    (x + y, x * y)
}

} // verus!
