use vstd::prelude::*;
use core::marker::PhantomData;

verus! {

/// A one-way mapping from `Src` values to `Dst` values.
pub trait Converter<Src, Dst> {
    /// What `convert` returns for `value`.
    spec fn spec_convert(&self, value: Src) -> Dst;

    fn convert(&self, value: Src) -> (r: Dst)
        ensures
            r == self.spec_convert(value),
    ;
}

/// A mapping with its inverse: `convert_inverse` undoes `convert`.
pub trait IsoConverter<Src, Dst>: Converter<Src, Dst> {
    /// What `convert_inverse` returns for `value`.
    spec fn spec_convert_inverse(&self, value: Dst) -> Src;

    fn convert_inverse(&self, value: Dst) -> (r: Src)
        ensures
            r == self.spec_convert_inverse(value),
    ;
}

/// Holds an invertible converter to be used in the opposite direction.
pub struct InverseIsoConverter<Src, Dst, C: IsoConverter<Src, Dst>> {
    pub converter: C,
    _phantom1: PhantomData<Src>,
    _phantom2: PhantomData<Dst>,
}

impl<Src, Dst, C: IsoConverter<Src, Dst>> InverseIsoConverter<Src, Dst, C> {
    /// The converter held.
    pub closed spec fn inner(&self) -> C {
        self.converter
    }

    pub fn new(converter: C) -> (r: Self)
        ensures
            r.inner() == converter,
    {
        Self { converter, _phantom1: PhantomData, _phantom2: PhantomData }
    }

    /// The converter held, which maps the other way.
    pub fn invert(&self) -> (r: &C)
        ensures
            *r == self.inner(),
    {
        &self.converter
    }
}

impl<Src, Dst, C: IsoConverter<Src, Dst>> Converter<Dst, Src> for InverseIsoConverter<Src, Dst, C> {
    closed spec fn spec_convert(&self, value: Dst) -> Src {
        self.converter.spec_convert_inverse(value)
    }

    fn convert(&self, value: Dst) -> Src {
        self.converter.convert_inverse(value)
    }
}

impl<Src, Dst, C: IsoConverter<Src, Dst>> IsoConverter<Dst, Src> for InverseIsoConverter<Src, Dst, C> {
    closed spec fn spec_convert_inverse(&self, value: Src) -> Dst {
        self.converter.spec_convert(value)
    }

    fn convert_inverse(&self, value: Src) -> Dst {
        self.converter.convert(value)
    }
}

} // verus!
