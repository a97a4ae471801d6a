//! Small generic helper functions.

use vstd::prelude::*;

verus! {

/// The first element of a slice, or `None` when the slice is empty.
pub fn first_element<T>(list: &[T]) -> (r: Option<&T>)
    ensures
        list@.len() == 0 ==> r is None,
        list@.len() > 0 ==> (r matches Some(x) && *x == list@[0]),
{
    list.first()
}

/// Borrows a value of any type and returns nothing; the borrow is read
/// and dropped.
pub fn to_lower<T>(data: &T) {
    let _ = data;
}

/// The sum of two machine integers; the bound is forced by the machine
/// word the sum is returned in.
pub fn pair_sum(first: i64, second: i64) -> (total: i64)
    requires
        i64::MIN <= first + second <= i64::MAX,
    ensures
        total == first + second,
{
    first + second
}

} // verus!
