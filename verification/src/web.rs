//! Plain-data mirror of the handle the WebGL/JavaScript side hands out.

use vstd::prelude::*;

verus! {

/// A numeric handle to an object owned by the JavaScript side.
#[derive(Clone, Copy)]
pub struct JSObject(u32);

/// True of the handle that stands for no object.
pub closed spec fn is_null_handle(o: JSObject) -> bool {
    o.0 == 0
}

impl JSObject {
    /// The handle that stands for no object.
    pub fn null() -> (r: Self)
        ensures
            is_null_handle(r),
    {
        JSObject(0)
    }
}

} // verus!
