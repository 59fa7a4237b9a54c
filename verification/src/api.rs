//! The shapes that cross the HTTP boundary, and the conversions between them
//! and the datastore's own.

pub mod userfacing;

use crate::datastore::ident::Uuid;
use vstd::prelude::*;
use vstd::std_specs::convert::FromSpec;

verus! {

/// Just a named pair that can be extracted from the path of many endpoints.
#[derive(Debug, PartialOrd, Ord, PartialEq, Eq, Clone, Copy)]
pub struct AccountPost {
    pub user_id: Uuid,
    pub post_id: Uuid,
}

pub trait CoerceColl<T> {
    /// Converts every item of the collection, keeping their order.
    fn coerce_into<U: From<T>>(self) -> Vec<U>;
}

impl<T> CoerceColl<T> for Vec<T> {
    /// The result has one item for each item of the vector, in the same
    /// place: the item converted.
    fn coerce_into<U: From<T>>(self) -> (coerced: Vec<U>)
        ensures
            coerced.len() == self.len(),
            U::obeys_from_spec() ==> forall|i: int|
                0 <= i < self.len() ==> #[trigger] coerced[i] == U::from_spec(self[i]),
    {
        broadcast use vstd::std_specs::vec::axiom_spec_into_iter;

        let ghost items = self@;
        let mut coerced: Vec<U> = Vec::new();
        for item in it: self.into_iter()
            invariant
                it.seq() == items,
                coerced.len() == it.index(),
                U::obeys_from_spec() ==> forall|i: int|
                    0 <= i < coerced.len() ==> #[trigger] coerced[i] == U::from_spec(items[i]),
        {
            coerced.push(U::from(item));
        }
        coerced
    }
}

/// The label under which a result is counted: `"ok"` or `"err"`.
pub fn variant_name<T, E>(result: &Result<T, E>) -> (name: &'static str)
    ensures
        name@ == if result is Ok {
            "ok"@
        } else {
            "err"@
        },
{
    if result.is_ok() {
        "ok"
    } else {
        "err"
    }
}

} // verus!
