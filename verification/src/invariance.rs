//! The invariant marker.
use crate::contravariance::DzContravariant;
use crate::covariance::DzCovariant;
use vstd::prelude::*;

verus! {

/// Marks the enclosing type as a producer and a consumer of `T`: invariant in
/// `T`.
///
/// It is made of the producer's marker and the consumer's marker over the same
/// `T`. The first lets `T` vary one way only and the second the other way
/// only, so that the two together let it vary in neither.
///
/// Zero-sized. Embed it as a field of a type that mentions `T` nowhere else.
#[verifier::reject_recursive_types(T)]
pub struct DzInvariant<T> {
    _produces: DzCovariant<T>,
    _consumes: DzContravariant<T>,
}

impl<T> DzInvariant<T> {
    /// The marker as a mathematical value.
    pub closed spec fn spec_new() -> Self {
        DzInvariant { _produces: DzCovariant::spec_new(), _consumes: DzContravariant::spec_new() }
    }

    /// Makes the marker. It cannot fail and asks nothing of `T`.
    ///
    /// A reference to a marker over a long-lived type is not accepted where a
    /// reference to a marker over a shorter-lived one is wanted:
    ///
    /// ```compile_fail
    /// use variance::DzInvariant;
    ///
    /// fn same_scope<'a>(m: &'a DzInvariant<&'a str>) -> &'a DzInvariant<&'a str> {
    ///     m
    /// }
    ///
    /// let marker = DzInvariant::<&'static str>::new();
    /// let marker = same_scope(&marker);
    /// let _held = &marker;
    /// ```
    ///
    /// Nor is a marker over a short-lived type accepted where one over
    /// `'static` is wanted:
    ///
    /// ```compile_fail
    /// use variance::DzInvariant;
    ///
    /// fn forever(m: DzInvariant<&'static str>) -> DzInvariant<&'static str> {
    ///     m
    /// }
    ///
    /// fn attempt<'a>() {
    ///     let marker = DzInvariant::<&'a str>::new();
    ///     let marker = forever(marker);
    ///     let _held = &marker;
    /// }
    /// ```
    #[verifier::when_used_as_spec(spec_new)]
    pub fn new() -> (marker: Self)
        ensures
            marker == Self::spec_new(),
    {
        DzInvariant { _produces: DzCovariant::new(), _consumes: DzContravariant::new() }
    }

    /// The producer's half of the marker.
    pub fn producer(&self) -> (half: &DzCovariant<T>)
        ensures
            *half == DzCovariant::<T>::spec_new(),
    {
        proof {
            DzCovariant::lemma_single_valued(self._produces, DzCovariant::spec_new());
        }
        &self._produces
    }

    /// The consumer's half of the marker.
    pub fn consumer(&self) -> (half: &DzContravariant<T>)
        ensures
            *half == DzContravariant::<T>::spec_new(),
    {
        proof {
            DzContravariant::lemma_single_valued(self._consumes, DzContravariant::spec_new());
        }
        &self._consumes
    }

    /// A marker carries no state: any two markers over one `T` are equal.
    pub proof fn lemma_single_valued(a: Self, b: Self)
        ensures
            a == b,
    {
        DzCovariant::lemma_single_valued(a._produces, b._produces);
        DzContravariant::lemma_single_valued(a._consumes, b._consumes);
    }
}

} // verus!
