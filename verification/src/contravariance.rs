//! The contravariant marker.
use crate::carrier::FnPointer;
use std::marker::PhantomData;
use vstd::prelude::*;

verus! {

/// Marks the enclosing type as a consumer of `T`: contravariant in `T`.
///
/// Zero-sized. Embed it as a field of a type that mentions `T` nowhere else.
#[verifier::reject_recursive_types(T)]
pub struct DzContravariant<T> {
    _contravariant: PhantomData<FnPointer<T, ()>>,
}

impl<T> DzContravariant<T> {
    /// The marker as a mathematical value.
    pub closed spec fn spec_new() -> Self {
        DzContravariant { _contravariant: PhantomData }
    }

    /// Makes the marker. It cannot fail and asks nothing of `T`.
    ///
    /// A marker over a short-lived type is accepted where one over `'static`
    /// is wanted:
    ///
    /// ```
    /// use variance::DzContravariant;
    ///
    /// fn forever(m: DzContravariant<&'static str>) -> DzContravariant<&'static str> {
    ///     m
    /// }
    ///
    /// fn attempt<'a>() {
    ///     let marker = DzContravariant::<&'a str>::new();
    ///     let marker = forever(marker);
    ///     let _held = &marker;
    /// }
    ///
    /// attempt();
    /// ```
    ///
    /// A reference to a marker over a long-lived type is not accepted where a
    /// reference to a marker over a shorter-lived one is wanted:
    ///
    /// ```compile_fail
    /// use variance::DzContravariant;
    ///
    /// fn same_scope<'a>(m: &'a DzContravariant<&'a str>) -> &'a DzContravariant<&'a str> {
    ///     m
    /// }
    ///
    /// let marker = DzContravariant::<&'static str>::new();
    /// let marker = same_scope(&marker);
    /// let _held = &marker;
    /// ```
    #[verifier::when_used_as_spec(spec_new)]
    pub fn new() -> (marker: Self)
        ensures
            marker == Self::spec_new(),
    {
        DzContravariant { _contravariant: PhantomData }
    }

    /// A marker carries no state: any two markers over one `T` are equal.
    pub proof fn lemma_single_valued(a: Self, b: Self)
        ensures
            a == b,
    {
    }
}

impl<'short, U: ?Sized> DzContravariant<&'short U> {
    /// Contravariance, for every pair of lifetimes of which the first outlives
    /// the second: a marker over `&'short U` serves as a marker over
    /// `&'long U`. The marker handed back is the one given.
    pub fn lengthen<'long>(self) -> (marker: DzContravariant<&'long U>)
        where
            'long: 'short,
        ensures
            marker == self,
    {
        self
    }

    /// Contravariance behind a reference: a reference to a marker over
    /// `&'short U` serves as a reference, of the same lifetime, to a marker
    /// over `&'long U`. The reference handed back is the one given.
    pub fn lengthen_ref<'r, 'long>(&'r self) -> (marker: &'r DzContravariant<&'long U>)
        where
            'long: 'short,
            'short: 'r,
        ensures
            marker == self,
    {
        self
    }
}

} // verus!
