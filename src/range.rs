use vstd::prelude::*;
use vstd::std_specs::cmp::PartialOrdSpec;
use vstd::std_specs::convert::FromSpec;
use core::cmp::Ordering;

verus! {

/// `a < b` as the type's `partial_cmp` orders them.
pub open spec fn spec_lt<T: PartialOrd>(a: T, b: T) -> bool {
    a.partial_cmp_spec(&b) == Some(Ordering::Less)
}

/// `a > b` as the type's `partial_cmp` orders them.
pub open spec fn spec_gt<T: PartialOrd>(a: T, b: T) -> bool {
    a.partial_cmp_spec(&b) == Some(Ordering::Greater)
}

/// `a <= b` as the type's `partial_cmp` orders them.
pub open spec fn spec_le<T: PartialOrd>(a: T, b: T) -> bool {
    a.partial_cmp_spec(&b) matches Some(Ordering::Less | Ordering::Equal)
}

/// `a >= b` as the type's `partial_cmp` orders them.
pub open spec fn spec_ge<T: PartialOrd>(a: T, b: T) -> bool {
    a.partial_cmp_spec(&b) matches Some(Ordering::Greater | Ordering::Equal)
}

/// An inclusive interval `[min, max]`. That `min <= max` is up to whoever
/// builds one: nothing checks it.
#[derive(Clone, Copy, PartialEq, Eq, Hash, Default, Debug)]
pub struct Range<T> {
    min: T,
    max: T,
}

impl<T> Range<T> {
    pub closed spec fn lo(&self) -> T {
        self.min
    }

    pub closed spec fn hi(&self) -> T {
        self.max
    }

    pub fn new(min: T, max: T) -> (r: Self)
        ensures
            r.lo() == min,
            r.hi() == max,
    {
        Self { min, max }
    }

    pub fn min(&self) -> (r: &T)
        ensures
            *r == self.lo(),
    {
        &self.min
    }

    pub fn max(&self) -> (r: &T)
        ensures
            *r == self.hi(),
    {
        &self.max
    }
}

impl<T: Copy> Range<T> {
    /// The same interval with both bounds converted by `From`.
    pub fn to<U: From<T> + Copy>(&self) -> (r: Range<U>)
        ensures
            U::obeys_from_spec() ==> r.lo() == U::from_spec(self.lo()) && r.hi() == U::from_spec(
                self.hi(),
            ),
    {
        Range::new(U::from(self.min), U::from(self.max))
    }
}

impl<T: PartialOrd> Range<T> {
    /// Whether `min <= v <= max`.
    pub fn contains(&self, v: &T) -> (r: bool)
        ensures
            T::obeys_partial_cmp_spec() ==> (r == (spec_ge(*v, self.lo()) && spec_le(
                *v,
                self.hi(),
            ))),
    {
        *v >= self.min && *v <= self.max
    }
}

impl<T: PartialOrd + Copy> Range<T> {
    /// `v` itself where the range holds it, else the nearer bound.
    pub fn clamp(&self, v: &T) -> (r: T)
        ensures
            T::obeys_partial_cmp_spec() ==> r == (if spec_lt(*v, self.lo()) {
                self.lo()
            } else if spec_gt(*v, self.hi()) {
                self.hi()
            } else {
                *v
            }),
    {
        if *v < self.min {
            self.min
        } else if *v > self.max {
            self.max
        } else {
            *v
        }
    }

    /// The range widened just enough to hold `v`; `self` is left as it is.
    pub fn extend_with(&self, v: &T) -> (r: Self)
        ensures
            T::obeys_partial_cmp_spec() ==> (if spec_lt(*v, self.lo()) {
                r.lo() == *v && r.hi() == self.hi()
            } else if spec_gt(*v, self.hi()) {
                r.lo() == self.lo() && r.hi() == *v
            } else {
                r == *self
            }),
    {
        if *v < self.min {
            Self::new(*v, self.max)
        } else if *v > self.max {
            Self::new(self.min, *v)
        } else {
            *self
        }
    }
}

} // verus!
