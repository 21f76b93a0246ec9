use vstd::prelude::*;
use core::marker::PhantomData;

verus! {

/// A value of type `T` tagged with a marker type `M`, so that values of the
/// same representation but of different meaning cannot be mixed up.
#[derive(Copy, Default, Debug, PartialEq, Eq, PartialOrd, Ord, Hash)]
pub struct TypeCell<M, T> {
    value: T,
    _phantom: PhantomData<M>,
}

impl<M, T> TypeCell<M, T> {
    /// The value held.
    pub closed spec fn val(&self) -> T {
        self.value
    }

    pub fn new(value: T) -> (r: Self)
        ensures
            r.val() == value,
    {
        Self { value, _phantom: PhantomData }
    }

    pub fn get(&self) -> (r: &T)
        ensures
            *r == self.val(),
    {
        &self.value
    }

    pub fn set(&mut self, value: T)
        ensures
            final(self).val() == value,
    {
        self.value = value;
    }
}

impl<M, T: Clone> Clone for TypeCell<M, T> {
    fn clone(&self) -> Self {
        Self { value: self.value.clone(), _phantom: PhantomData }
    }
}

} // verus!
