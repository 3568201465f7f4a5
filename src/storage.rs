use vstd::prelude::*;

verus! {

/// A read-only borrow of an owned buffer.
pub struct View<'a, T> {
    pub data: &'a T,
}

/// An exclusive, writable borrow of an owned buffer.
pub struct MutView<'a, T> {
    pub data: &'a mut T,
}

impl<'a, T> View<'a, T> {
    pub fn new(data: &'a T) -> (r: View<'a, T>)
        ensures
            *r.data == *data,
    {
        View { data }
    }
}

impl<'a, T> MutView<'a, T> {
    pub fn new(data: &'a mut T) -> (r: MutView<'a, T>)
        ensures
            *r.data == *old(data),
            *final(data) == *final(r.data),
    {
        MutView { data }
    }
}


} // verus!
