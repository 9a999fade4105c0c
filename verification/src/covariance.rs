//! The covariant marker.
use crate::carrier::FnPointer;
use std::marker::PhantomData;
use vstd::prelude::*;

verus! {

/// Marks the enclosing type as a producer of `T`: covariant in `T`.
///
/// Zero-sized. Embed it as a field of a type that mentions `T` nowhere else.
#[verifier::reject_recursive_types(T)]
pub struct DzCovariant<T> {
    _covariant: PhantomData<FnPointer<(), T>>,
}

impl<T> DzCovariant<T> {
    /// The marker as a mathematical value.
    pub closed spec fn spec_new() -> Self {
        DzCovariant { _covariant: PhantomData }
    }

    /// Makes the marker. It cannot fail and asks nothing of `T`.
    ///
    /// A reference to a marker over a long-lived type is accepted where a
    /// reference to a marker over a shorter-lived one is wanted:
    ///
    /// ```
    /// use variance::DzCovariant;
    ///
    /// fn same_scope<'a>(m: &'a DzCovariant<&'a str>) -> &'a DzCovariant<&'a str> {
    ///     m
    /// }
    ///
    /// let marker = DzCovariant::<&'static str>::new();
    /// let marker = same_scope(&marker);
    /// let _held = &marker;
    /// ```
    ///
    /// A marker over a short-lived type is not accepted where one over
    /// `'static` is wanted:
    ///
    /// ```compile_fail
    /// use variance::DzCovariant;
    ///
    /// fn forever(m: DzCovariant<&'static str>) -> DzCovariant<&'static str> {
    ///     m
    /// }
    ///
    /// fn attempt<'a>() {
    ///     let marker = DzCovariant::<&'a str>::new();
    ///     let marker = forever(marker);
    ///     let _held = &marker;
    /// }
    /// ```
    #[verifier::when_used_as_spec(spec_new)]
    pub fn new() -> (marker: Self)
        ensures
            marker == Self::spec_new(),
    {
        DzCovariant { _covariant: PhantomData }
    }

    /// A marker carries no state: any two markers over one `T` are equal.
    pub proof fn lemma_single_valued(a: Self, b: Self)
        ensures
            a == b,
    {
    }
}

impl<'long, U: ?Sized> DzCovariant<&'long U> {
    /// Covariance, for every pair of lifetimes of which the first outlives the
    /// second: a marker over `&'long U` serves as a marker over `&'short U`.
    /// The marker handed back is the one given.
    pub fn shorten<'short>(self) -> (marker: DzCovariant<&'short U>)
        where
            'long: 'short,
        ensures
            marker == self,
    {
        self
    }

    /// Covariance behind a reference: a reference to a marker over `&'long U`
    /// serves as a reference, of the same lifetime, to a marker over
    /// `&'short U`. The reference handed back is the one given.
    pub fn shorten_ref<'r, 'short>(&'r self) -> (marker: &'r DzCovariant<&'short U>)
        where
            'long: 'short,
            'short: 'r,
        ensures
            marker == self,
    {
        self
    }
}

} // verus!
